use upload_server::config::{check_upload_dir, print_help, Config, DirProbe, Invocation, Settings};

fn args(list: &[&str]) -> Vec<String> {
    list.iter().map(|s| s.to_string()).collect()
}

fn settings(list: &[&str]) -> Settings {
    match Config::parse_args(&args(list)) {
        Ok(Invocation::Run(settings)) => settings,
        other => panic!("expected settings, got {:?}", other),
    }
}

fn usable() -> DirProbe {
    DirProbe::Found { is_dir: true, readonly: false }
}

#[test]
fn no_arguments_leave_the_defaults() {
    let s = settings(&[]);
    assert_eq!(s.listen_addr, None);
    assert_eq!(s.uploads_dir, None);
    assert_eq!(s.send_to_name, "Anonymousse");
    assert!(!s.save_metadata);
    assert_eq!(s.uploads_dir_or_default(), "/var/upload-server/uploads");
    let config = Config::from_settings(s, &usable()).unwrap();
    assert_eq!(config.listen_addr, "0.0.0.0:2022");
    assert_eq!(config.uploads_dir, "/var/upload-server/uploads");
    assert_eq!(config.send_to_name, "Anonymousse");
    assert!(!config.save_metadata);
}

#[test]
fn options_set_their_values() {
    let s = settings(&["--listen", "127.0.0.1:8080", "--save-meta", "--name", "Bob", "--uploads-dir", "/srv/up"]);
    assert_eq!(s.listen_addr.as_deref(), Some("127.0.0.1:8080"));
    assert_eq!(s.uploads_dir.as_deref(), Some("/srv/up"));
    assert_eq!(s.send_to_name, "Bob");
    assert!(s.save_metadata);
    let config = Config::from_settings(s, &usable()).unwrap();
    assert_eq!(config.listen_addr, "127.0.0.1:8080");
    assert_eq!(config.uploads_dir, "/srv/up");
    assert_eq!(config.base_url(), "http://127.0.0.1:8080");
    let srv = config.make_server();
    assert_eq!(srv.base_url, "http://127.0.0.1:8080");
    assert_eq!(srv.output_path, "/srv/up");
    assert_eq!(srv.send_to_name, "Bob");
    assert!(srv.save_metadata);
    assert!(!srv.debug.quit_after_one_request);
}

#[test]
fn later_options_win_and_values_are_taken_as_they_are() {
    let s = settings(&["--name", "A", "--name", "--help"]);
    assert_eq!(s.send_to_name, "--help");
    let s = settings(&["--listen", "--save-meta"]);
    assert_eq!(s.listen_addr.as_deref(), Some("--save-meta"));
    assert!(!s.save_metadata);
}

#[test]
fn help_ends_the_reading() {
    assert!(matches!(Config::parse_args(&args(&["--help"])), Ok(Invocation::Help)));
    assert!(matches!(Config::parse_args(&args(&["--save-meta", "--help", "bogus"])), Ok(Invocation::Help)));
}

#[test]
fn help_shows_the_options_and_their_defaults() {
    let expected = "
upload-server:
  HTML server that allows to upload some text or a file that will be saved
    on a filesystem

arguments:
  --help             -- Print help and exit
  --listen ADDR      -- Listen on address ADDR having format host:port
                        default is 0.0.0.0:2022
  --uploads-dir PATH -- Save received files and texts into the PATH
                        default is /var/upload-server/uploads
  --name NAME        -- Say that name on the home page
                        default is Anonymousse
  --save-meta        -- Also create metadata files
";
    assert_eq!(print_help(), expected);
}

#[test]
fn bad_command_lines_are_refused() {
    assert_eq!(Config::parse_args(&args(&["--listen"])).unwrap_err(), "Missing argument to --listen");
    assert_eq!(Config::parse_args(&args(&["--uploads-dir"])).unwrap_err(), "Missing argument to --uploads-dir");
    assert_eq!(Config::parse_args(&args(&["--save-meta", "--name"])).unwrap_err(), "Missing argument to --name");
    assert_eq!(Config::parse_args(&args(&["bogus", "--help"])).unwrap_err(), "Invalid argument \"bogus\"");
    assert_eq!(Config::parse_args(&args(&[""])).unwrap_err(), "Invalid argument \"\"");
}

#[test]
fn the_uploads_directory_must_be_usable() {
    assert!(check_upload_dir("/srv/up", &usable()).is_ok());
    assert_eq!(
        check_upload_dir("/srv/up", &DirProbe::Found { is_dir: false, readonly: false }).unwrap_err(),
        "/srv/up is not a directory"
    );
    assert_eq!(
        check_upload_dir("/srv/up", &DirProbe::Found { is_dir: true, readonly: true }).unwrap_err(),
        "Direcotry /srv/up is not writable"
    );
    assert_eq!(
        check_upload_dir("/srv/up", &DirProbe::Unreadable("No such file or directory".to_string())).unwrap_err(),
        "No such file or directory"
    );
}

#[test]
fn an_unusable_default_directory_comes_with_a_hint() {
    let missing = DirProbe::Unreadable("No such file or directory".to_string());
    let err = Config::from_settings(settings(&[]), &missing).unwrap_err();
    assert_eq!(
        err,
        "Cannot use default directory /var/upload-server/uploads, use --uploads-dir or fix the error: No such file or directory"
    );
    let err = Config::from_settings(settings(&["--uploads-dir", "/x"]), &missing).unwrap_err();
    assert_eq!(err, "No such file or directory");
    let file = DirProbe::Found { is_dir: false, readonly: false };
    let err = Config::from_settings(settings(&["--uploads-dir", "/x"]), &file).unwrap_err();
    assert_eq!(err, "/x is not a directory");
}
