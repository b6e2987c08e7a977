//! The configuration of the service and the command line that gives it.

use vstd::prelude::*;

use crate::srv::Srv;
use crate::text::{str_eq, strings_view};

verus! {

/// The address to listen on where none is given.
pub open spec fn default_listen_addr() -> Seq<char> {
    "0.0.0.0:2022"@
}

/// The directory for uploads where none is given.
pub open spec fn default_uploads_dir() -> Seq<char> {
    "/var/upload-server/uploads"@
}

/// The display name where none is given.
pub open spec fn default_send_to_name() -> Seq<char> {
    "Anonymousse"@
}

/// The configuration with which the service runs.
#[derive(Debug)]
pub struct Config {
    pub listen_addr: String,
    pub uploads_dir: String,
    pub send_to_name: String,
    pub save_metadata: bool,
}

/// What the command line sets; the address and the directory stay open
/// where it does not name them.
#[derive(Debug)]
pub struct Settings {
    pub listen_addr: Option<String>,
    pub uploads_dir: Option<String>,
    pub send_to_name: String,
    pub save_metadata: bool,
}

/// What the command line asks for.
#[derive(Debug)]
pub enum Invocation {
    /// Print the help and stop.
    Help,
    /// Run the service with these settings.
    Run(Settings),
}

/// What is known of the uploads directory.
#[derive(Debug)]
pub enum DirProbe {
    /// It could not be examined, for the given reason.
    Unreadable(String),
    /// It exists.
    Found { is_dir: bool, readonly: bool },
}

/// Settings as characters.
pub struct SettingsView {
    pub listen_addr: Option<Seq<char>>,
    pub uploads_dir: Option<Seq<char>>,
    pub send_to_name: Seq<char>,
    pub save_metadata: bool,
}

/// The result of reading a command line.
pub enum Parsed {
    Help,
    Run(SettingsView),
    Invalid(Seq<char>),
}

impl View for Settings {
    type V = SettingsView;

    open spec fn view(&self) -> SettingsView {
        SettingsView {
            listen_addr: match self.listen_addr {
                Some(s) => Some(s@),
                None => None,
            },
            uploads_dir: match self.uploads_dir {
                Some(s) => Some(s@),
                None => None,
            },
            send_to_name: self.send_to_name@,
            save_metadata: self.save_metadata,
        }
    }
}

/// The settings before any argument is read.
pub open spec fn initial_settings() -> SettingsView {
    SettingsView {
        listen_addr: None,
        uploads_dir: None,
        send_to_name: default_send_to_name(),
        save_metadata: false,
    }
}

/// The complaint about an option that lacks its value.
pub open spec fn missing_argument(option: Seq<char>) -> Seq<char> {
    "Missing argument to "@ + option
}

/// The complaint about an argument that is no option.
pub open spec fn invalid_argument(arg: Seq<char>) -> Seq<char> {
    "Invalid argument \""@ + arg + "\""@
}

/// Reads the arguments from `at` on, one option at a time, starting from
/// the settings `so_far`. `--listen`, `--uploads-dir` and `--name` take the
/// argument that follows as their value, `--save-meta` sets the flag,
/// `--help` ends the reading, and anything else is invalid.
pub open spec fn parse_from(args: Seq<Seq<char>>, at: int, so_far: SettingsView) -> Parsed
    decreases args.len() - at,
{
    if at < 0 || at >= args.len() {
        Parsed::Run(so_far)
    } else if args[at] == "--help"@ {
        Parsed::Help
    } else if args[at] == "--listen"@ {
        if at + 1 >= args.len() {
            Parsed::Invalid(missing_argument("--listen"@))
        } else {
            parse_from(args, at + 2, SettingsView { listen_addr: Some(args[at + 1]), ..so_far })
        }
    } else if args[at] == "--uploads-dir"@ {
        if at + 1 >= args.len() {
            Parsed::Invalid(missing_argument("--uploads-dir"@))
        } else {
            parse_from(args, at + 2, SettingsView { uploads_dir: Some(args[at + 1]), ..so_far })
        }
    } else if args[at] == "--name"@ {
        if at + 1 >= args.len() {
            Parsed::Invalid(missing_argument("--name"@))
        } else {
            parse_from(args, at + 2, SettingsView { send_to_name: args[at + 1], ..so_far })
        }
    } else if args[at] == "--save-meta"@ {
        parse_from(args, at + 1, SettingsView { save_metadata: true, ..so_far })
    } else {
        Parsed::Invalid(invalid_argument(args[at]))
    }
}

/// Whether `res` is what reading the command line gave.
pub open spec fn is_parsed(res: Result<Invocation, String>, parsed: Parsed) -> bool {
    match parsed {
        Parsed::Help => res matches Ok(Invocation::Help),
        Parsed::Run(settings) => res matches Ok(Invocation::Run(s)) && s@ == settings,
        Parsed::Invalid(msg) => res matches Err(e) && e@ == msg,
    }
}

/// Whether a directory can take the uploads: it must exist, be a directory
/// and be writable. Else the reason why not.
pub open spec fn dir_verdict(path: Seq<char>, probe: DirProbe) -> Result<(), Seq<char>> {
    match probe {
        DirProbe::Unreadable(reason) => Err(reason@),
        DirProbe::Found { is_dir, readonly } => if !is_dir {
            Err(path + " is not a directory"@)
        } else if readonly {
            Err("Direcotry "@ + path + " is not writable"@)
        } else {
            Ok(())
        },
    }
}

/// The directory that the settings choose for the uploads.
pub open spec fn chosen_uploads_dir(settings: SettingsView) -> Seq<char> {
    match settings.uploads_dir {
        Some(dir) => dir,
        None => default_uploads_dir(),
    }
}

/// The complaint about the default directory, with the hint to name
/// another.
pub open spec fn default_dir_complaint(reason: Seq<char>) -> Seq<char> {
    "Cannot use default directory "@ + default_uploads_dir()
        + ", use --uploads-dir or fix the error: "@ + reason
}

/// The configuration that settings and the state of the chosen directory
/// give: none where the directory cannot take uploads.
pub open spec fn config_verdict(settings: SettingsView, probe: DirProbe) -> Result<
    (),
    Seq<char>,
> {
    match dir_verdict(chosen_uploads_dir(settings), probe) {
        Ok(()) => Ok(()),
        Err(reason) => if settings.uploads_dir is None {
            Err(default_dir_complaint(reason))
        } else {
            Err(reason)
        },
    }
}

/// The help, with the defaults filled in.
pub open spec fn help_text_of() -> Seq<char> {
    "\nupload-server:\n  HTML server that allows to upload some text or a file that will be saved\n    on a filesystem\n\narguments:\n  --help             -- Print help and exit\n  --listen ADDR      -- Listen on address ADDR having format host:port\n                        default is "@
        + default_listen_addr()
        + "\n  --uploads-dir PATH -- Save received files and texts into the PATH\n                        default is "@
        + default_uploads_dir()
        + "\n  --name NAME        -- Say that name on the home page\n                        default is "@
        + default_send_to_name() + "\n  --save-meta        -- Also create metadata files\n"@
}

/// The help that `--help` asks for.
pub fn print_help() -> (text: String)
    ensures
        text@ == help_text_of(),
{
    let mut text =
        "\nupload-server:\n  HTML server that allows to upload some text or a file that will be saved\n    on a filesystem\n\narguments:\n  --help             -- Print help and exit\n  --listen ADDR      -- Listen on address ADDR having format host:port\n                        default is ".to_owned();
    text.append("0.0.0.0:2022");
    text.append(
        "\n  --uploads-dir PATH -- Save received files and texts into the PATH\n                        default is ",
    );
    text.append("/var/upload-server/uploads");
    text.append(
        "\n  --name NAME        -- Say that name on the home page\n                        default is ",
    );
    text.append("Anonymousse");
    text.append("\n  --save-meta        -- Also create metadata files\n");
    text
}

/// Checks what is known of a directory against what uploads need.
pub fn check_upload_dir(path: &str, probe: &DirProbe) -> (res: Result<(), String>)
    ensures
        match dir_verdict(path@, *probe) {
            Ok(()) => res is Ok,
            Err(reason) => res matches Err(e) && e@ == reason,
        },
{
    match probe {
        DirProbe::Unreadable(reason) => Err(reason.clone()),
        DirProbe::Found { is_dir, readonly } => {
            if !*is_dir {
                let mut msg = path.to_owned();
                msg.append(" is not a directory");
                Err(msg)
            } else if *readonly {
                let mut msg = "Direcotry ".to_owned();
                msg.append(path);
                msg.append(" is not writable");
                Err(msg)
            } else {
                Ok(())
            }
        },
    }
}

fn missing(option: &str) -> (res: Result<Invocation, String>)
    ensures
        res matches Err(e) && e@ == missing_argument(option@),
{
    let mut msg = "Missing argument to ".to_owned();
    msg.append(option);
    Err(msg)
}

impl Settings {
    /// The directory these settings choose for the uploads: the one named,
    /// or the default.
    pub fn uploads_dir_or_default(&self) -> (dir: String)
        ensures
            dir@ == chosen_uploads_dir(self@),
    {
        match &self.uploads_dir {
            Some(dir) => dir.clone(),
            None => "/var/upload-server/uploads".to_owned(),
        }
    }
}

impl Config {
    /// Reads the command line, without the program's name, as
    /// [`parse_from`] lays down.
    pub fn parse_args(args: &Vec<String>) -> (res: Result<Invocation, String>)
        ensures
            is_parsed(res, parse_from(strings_view(args@), 0, initial_settings())),
    {
        let mut settings = Settings {
            listen_addr: None,
            uploads_dir: None,
            send_to_name: "Anonymousse".to_owned(),
            save_metadata: false,
        };
        let ghost all = strings_view(args@);
        let mut i: usize = 0;
        while i < args.len()
            invariant
                i <= args.len(),
                all == strings_view(args@),
                parse_from(all, 0, initial_settings()) == parse_from(all, i as int, settings@),
            decreases args.len() - i,
        {
            let arg = args[i].as_str();
            assert(all[i as int] == args@[i as int]@);
            if str_eq(arg, "--help") {
                return Ok(Invocation::Help);
            } else if str_eq(arg, "--listen") {
                if i + 1 >= args.len() {
                    return missing("--listen");
                }
                assert(all[i + 1] == args@[i + 1]@);
                settings.listen_addr = Some(args[i + 1].clone());
                i += 2;
            } else if str_eq(arg, "--uploads-dir") {
                if i + 1 >= args.len() {
                    return missing("--uploads-dir");
                }
                assert(all[i + 1] == args@[i + 1]@);
                settings.uploads_dir = Some(args[i + 1].clone());
                i += 2;
            } else if str_eq(arg, "--name") {
                if i + 1 >= args.len() {
                    return missing("--name");
                }
                assert(all[i + 1] == args@[i + 1]@);
                settings.send_to_name = args[i + 1].clone();
                i += 2;
            } else if str_eq(arg, "--save-meta") {
                settings.save_metadata = true;
                i += 1;
            } else {
                let mut msg = "Invalid argument \"".to_owned();
                msg.append(arg);
                msg.append("\"");
                return Err(msg);
            }
        }
        Ok(Invocation::Run(settings))
    }

    /// The configuration for the given settings, once the chosen directory
    /// was examined: defaults fill what the settings leave open, and a
    /// directory that cannot take uploads is refused with the reason.
    pub fn from_settings(settings: Settings, probe: &DirProbe) -> (res: Result<Config, String>)
        ensures
            match config_verdict(settings@, *probe) {
                Ok(()) => res matches Ok(config) && config.uploads_dir@ == chosen_uploads_dir(
                    settings@,
                ) && config.listen_addr@ == (match settings@.listen_addr {
                    Some(addr) => addr,
                    None => default_listen_addr(),
                }) && config.send_to_name@ == settings@.send_to_name && config.save_metadata
                    == settings@.save_metadata,
                Err(reason) => res matches Err(e) && e@ == reason,
            },
    {
        let uploads_dir = settings.uploads_dir_or_default();
        match check_upload_dir(uploads_dir.as_str(), probe) {
            Ok(()) => {},
            Err(reason) => {
                if settings.uploads_dir.is_none() {
                    let mut msg = "Cannot use default directory ".to_owned();
                    msg.append("/var/upload-server/uploads");
                    msg.append(", use --uploads-dir or fix the error: ");
                    msg.append(reason.as_str());
                    return Err(msg);
                }
                return Err(reason);
            },
        }
        let listen_addr = match settings.listen_addr {
            Some(addr) => addr,
            None => "0.0.0.0:2022".to_owned(),
        };
        Ok(
            Config {
                listen_addr,
                uploads_dir,
                send_to_name: settings.send_to_name,
                save_metadata: settings.save_metadata,
            },
        )
    }

    /// The base URL of the service: `http://` and the listen address.
    pub fn base_url(&self) -> (url: String)
        ensures
            url@ == "http://"@ + self.listen_addr@,
    {
        let mut url = "http://".to_owned();
        url.append(self.listen_addr.as_str());
        url
    }

    /// The service that this configuration describes.
    pub fn make_server(&self) -> (srv: Srv)
        ensures
            srv.base_url@ == "http://"@ + self.listen_addr@,
            srv.output_path@ == self.uploads_dir@,
            srv.send_to_name@ == self.send_to_name@,
            srv.save_metadata == self.save_metadata,
            !srv.debug.quit_after_one_request,
    {
        Srv::new(
            self.base_url().as_str(),
            self.uploads_dir.as_str(),
            self.send_to_name.as_str(),
            self.save_metadata,
        )
    }
}

} // verus!
