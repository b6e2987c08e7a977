//! The service itself: where a request goes, what each handler answers,
//! and what is to be written for an upload.

use vstd::prelude::*;
use vstd::utf8::encode_utf8;

use crate::assets::{content_type_of, filename_to_content_type, replaced, search_and_replace};
use crate::error::{html_line, http_code_of, Error, ErrorKind};
use crate::form::{form_pairs, pairs_view, parse_form, text_form_result, text_of_form};
use crate::naming::{mangle_filename, mangled, occurs_in, opt_view, FileType, UploadType};
use crate::request::{RequestHead, Response};
use crate::text::{
    decimal, pad_left, pad_right, push_left_aligned, push_right_aligned, str_eq, strings_view,
};
use crate::timestamp::{is_valid_moment, timestamp_text, Moment, Timestamp};
use crate::upload::{metadata_of, metadata_text, FileUpload, PlannedFile, UploadPhase};

verus! {

/// Switches that exist for debugging only.
#[derive(Debug, Clone, Copy)]
pub struct DebugConfig {
    /// Stop the process shortly after the first request was answered.
    pub quit_after_one_request: bool,
}

/// The service: its base URL and its configuration.
#[derive(Debug)]
pub struct Srv {
    /// The absolute URL against which request targets are resolved.
    pub base_url: String,
    /// The directory that receives the uploads.
    pub output_path: String,
    /// The name shown on the home page.
    pub send_to_name: String,
    /// Also record the request beside each upload.
    pub save_metadata: bool,
    pub debug: DebugConfig,
}

/// Where a request goes.
#[derive(Debug)]
pub enum Route {
    /// The home page.
    Home,
    /// The embedded asset of the given name.
    Asset(String),
    /// The text upload.
    Text,
    /// The file upload.
    File,
    /// Nowhere: the answer is already known.
    Answer(Error),
}

/// What is to be written for a text upload, and the confirmation to give
/// once it is written.
#[derive(Debug)]
pub struct TextUpload {
    /// The files to write, in this order.
    pub files: Vec<PlannedFile>,
    /// The confirmation for the client.
    pub message: String,
}

/// The path segments of a request target resolved against a base URL:
/// `None` where either does not parse or the result has no path of
/// segments.
pub uninterp spec fn url_path_segments(base: Seq<char>, target: Seq<char>) -> Option<Seq<Seq<char>>>;

/// The characters of each string of an optional list.
pub open spec fn opt_strings_view(strings: Option<Vec<String>>) -> Option<Seq<Seq<char>>> {
    match strings {
        Some(strings) => Some(strings_view(strings@)),
        None => None,
    }
}

/// Resolves a request target against the base URL and splits its path.
///
/// Trusted: parses the base with `url::Url::parse`, resolves the target
/// with `Url::join` and collects what `Url::path_segments` yields. A
/// failure of either parse, or a result that cannot be a base, gives
/// `None`. Where `path_segments` returns an iterator, it yields at least
/// one string, which may be empty.
#[verifier::external_body]
fn resolve_path_segments(base: &str, target: &str) -> (segments: Option<Vec<String>>)
    ensures
        opt_strings_view(segments) == url_path_segments(base@, target@),
        segments matches Some(list) ==> list@.len() >= 1,
{
    let base = url::Url::parse(base).ok()?;
    let url = base.join(target).ok()?;
    let segments = url.path_segments()?;
    Some(segments.map(String::from).collect())
}

/// Whether `route` is the answer of the given kind and message.
pub open spec fn route_answers(route: Route, kind: ErrorKind, msg: Seq<char>) -> bool {
    route matches Route::Answer(e) && e.kind == kind && e.msg@ == msg
}

/// Where a request target leads, given the path segments it resolves to.
///
/// The target `/` is the home page. Otherwise the first segment decides:
/// `assets` needs a second segment, the asset's name; `text` and `file` are
/// the uploads; anything else is not found. A target that does not resolve
/// is the client's error.
pub open spec fn routes_to(url: Seq<char>, segments: Option<Seq<Seq<char>>>, route: Route) -> bool {
    if url == "/"@ {
        route is Home
    } else if segments is None || segments->0.len() == 0 {
        route_answers(route, ErrorKind::UserError, "Invalid request URL "@ + url)
    } else {
        let segments = segments->0;
        let first = segments[0];
        if first == "assets"@ {
            if segments.len() >= 2 {
                route matches Route::Asset(name) && name@ == segments[1]
            } else {
                route_answers(route, ErrorKind::NotFound, "/assets is not enumeratable"@)
            }
        } else if first == "text"@ {
            route is Text
        } else if first == "file"@ {
            route is File
        } else {
            route_answers(route, ErrorKind::NotFound, "There's nothing at /"@ + first)
        }
    }
}

/// Every target whose first segment is none of `assets`, `text` and `file`
/// is answered with 404, and the answer names that segment.
pub proof fn unmatched_routes_are_not_found(
    url: Seq<char>,
    segments: Seq<Seq<char>>,
    route: Route,
)
    requires
        routes_to(url, Some(segments), route),
        url != "/"@,
        segments.len() >= 1,
        segments[0] != "assets"@,
        segments[0] != "text"@,
        segments[0] != "file"@,
    ensures
        route matches Route::Answer(e) && http_code_of(e.kind) == 404 && occurs_in(
            segments[0],
            e.msg@,
        ),
{
    let lead = "There's nothing at /"@;
    let msg = route->Answer_0.msg@;
    let at: int = lead.len() as int;
    assert(msg.subrange(at, at + segments[0].len()) =~= segments[0]);
}

/// Decides where a request target leads, as [`routes_to`] lays down, from
/// the segments its path resolves to.
pub fn route_for(url: &str, segments: Option<Vec<String>>) -> (route: Route)
    ensures
        routes_to(url@, opt_strings_view(segments), route),
{
    if str_eq(url, "/") {
        return Route::Home;
    }
    let mut segments = match segments {
        Some(segments) => segments,
        None => {
            return Route::Answer(invalid_url(url));
        },
    };
    let ghost all = strings_view(segments@);
    if segments.len() == 0 {
        return Route::Answer(invalid_url(url));
    }
    assert(all[0] == segments@[0]@);
    if str_eq(segments[0].as_str(), "assets") {
        if segments.len() >= 2 {
            assert(all[1] == segments@[1]@);
            let name = segments.swap_remove(1);
            Route::Asset(name)
        } else {
            Route::Answer(Error::new(ErrorKind::NotFound, "/assets is not enumeratable"))
        }
    } else if str_eq(segments[0].as_str(), "text") {
        Route::Text
    } else if str_eq(segments[0].as_str(), "file") {
        Route::File
    } else {
        let mut msg = "There's nothing at /".to_owned();
        msg.append(segments[0].as_str());
        Route::Answer(Error { kind: ErrorKind::NotFound, msg })
    }
}

fn invalid_url(url: &str) -> (err: Error)
    ensures
        err.kind == ErrorKind::UserError,
        err.msg@ == "Invalid request URL "@ + url@,
{
    let mut msg = "Invalid request URL ".to_owned();
    msg.append(url);
    Error { kind: ErrorKind::UserError, msg }
}

/// The page that shows an outcome to the client, with a link back home.
pub open spec fn error_page(line: Seq<char>) -> Seq<char> {
    "\n<html>\n  <body style=\"font-size: 48px\">\n    "@ + line
        + "\n\n    <br/>\n    <a href=\"/\">Go back</a>\n  </body>\n</html>\n\n"@
}

/// The token in the home page that stands for the display name.
pub open spec fn name_placeholder() -> Seq<u8> {
    encode_utf8("#{name}"@)
}

/// One line of the request log:
/// `{method:6} [{build:8} us, {total:8} us] ({outcome}) {url}`, where the
/// outcome is `Ok` or the reason for which the response could not be sent.
pub open spec fn log_line_text(
    method: Seq<char>,
    build_us: nat,
    total_us: nat,
    failure: Option<Seq<char>>,
    url: Seq<char>,
) -> Seq<char> {
    pad_right(method, 6, ' ') + " ["@ + pad_left(decimal(build_us), 8, ' ') + " us, "@ + pad_left(
        decimal(total_us),
        8,
        ' ',
    ) + " us] ("@ + (match failure {
        Some(reason) => reason,
        None => "Ok"@,
    }) + ") "@ + url
}

/// Writes one line of the request log.
pub fn log_line(method: &str, build_us: u128, total_us: u128, failure: Option<&str>, url: &str) -> (line:
    String)
    ensures
        line@ == log_line_text(method@, build_us as nat, total_us as nat, opt_view(failure), url@),
{
    let mut line = String::new();
    push_left_aligned(&mut line, method, 6);
    line.append(" [");
    push_right_aligned(&mut line, build_us, 8);
    line.append(" us, ");
    push_right_aligned(&mut line, total_us, 8);
    line.append(" us] (");
    match failure {
        Some(reason) => line.append(reason),
        None => line.append("Ok"),
    }
    line.append(") ");
    line.append(url);
    assert(line@ =~= log_line_text(
        method@,
        build_us as nat,
        total_us as nat,
        opt_view(failure),
        url@,
    ));
    line
}

/// What a text upload comes to, once the form is decoded and the clock is
/// read: the complaint for a request that is not a valid text form, a
/// server error where the clock shows no valid moment, and else the files
/// to write and the confirmation.
pub open spec fn text_upload_outcome(
    srv: Srv,
    head: RequestHead,
    pairs: Seq<(Seq<char>, Seq<char>)>,
    clock: Option<Moment>,
    res: Result<TextUpload, Error>,
) -> bool {
    if head.method@ != "POST"@ {
        res matches Err(e) && e.kind == ErrorKind::UserError && e.msg@ == "Send POST to this path"@
    } else {
        match text_form_result(pairs) {
            Err(msg) => res matches Err(e) && e.kind == ErrorKind::UserError && e.msg@ == msg,
            Ok(text) => match clock {
                None => res matches Err(e) && e.kind == ErrorKind::ServerError && e.msg@
                    == "The system clock shows no valid time"@,
                Some(moment) => res matches Ok(upload) && text_upload_plan(
                    srv,
                    head,
                    text,
                    timestamp_text(moment),
                    upload,
                ),
            },
        }
    }
}

/// The files and the confirmation of a text upload: the record of the
/// request first, where records are kept, then the text itself, verbatim.
pub open spec fn text_upload_plan(
    srv: Srv,
    head: RequestHead,
    text: Seq<char>,
    time: Seq<char>,
    upload: TextUpload,
) -> bool {
    let files = upload.files@;
    let payload = files.last();
    &&& upload.message@ == "Saved text: "@ + text
    &&& files.len() == if srv.save_metadata {
        2nat
    } else {
        1nat
    }
    &&& payload.name@ == mangled(time, UploadType::Text, FileType::Payload, None)
    &&& payload.typ == UploadType::Text
    &&& payload.file_type == FileType::Payload
    &&& payload.content@ == encode_utf8(text)
    &&& srv.save_metadata ==> is_metadata_file(files[0], head, time, UploadType::Text, None)
}

/// Whether `file` is the record of the request for an upload of the given
/// moment, kind and name.
pub open spec fn is_metadata_file(
    file: PlannedFile,
    head: RequestHead,
    time: Seq<char>,
    typ: UploadType,
    name: Option<Seq<char>>,
) -> bool {
    &&& file.name@ == mangled(time, typ, FileType::Metadata, name)
    &&& file.typ == typ
    &&& file.file_type == FileType::Metadata
    &&& file.content@ == encode_utf8(metadata_text(head))
}

impl Srv {
    pub fn new(base_url: &str, output_path: &str, send_to_name: &str, save_metadata: bool) -> (srv:
        Srv)
        ensures
            srv.base_url@ == base_url@,
            srv.output_path@ == output_path@,
            srv.send_to_name@ == send_to_name@,
            srv.save_metadata == save_metadata,
            !srv.debug.quit_after_one_request,
    {
        Srv {
            base_url: base_url.to_owned(),
            output_path: output_path.to_owned(),
            send_to_name: send_to_name.to_owned(),
            save_metadata,
            debug: DebugConfig { quit_after_one_request: false },
        }
    }

    /// After how many milliseconds the process is to stop once a request
    /// has come in: 150 where the debug switch is set, never otherwise.
    pub fn die_if_single_request(&self) -> (delay_ms: Option<u64>)
        ensures
            delay_ms == if self.debug.quit_after_one_request {
                Some(150u64)
            } else {
                None
            },
    {
        if self.debug.quit_after_one_request {
            Some(150)
        } else {
            None
        }
    }

    /// Decides where a request goes: its target is resolved against the
    /// base URL and the first path segment chooses the handler.
    pub fn handle_request(&self, head: &RequestHead) -> (route: Route)
        ensures
            routes_to(head.url@, url_path_segments(self.base_url@, head.url@), route),
    {
        if str_eq(head.url.as_str(), "/") {
            return Route::Home;
        }
        let segments = resolve_path_segments(self.base_url.as_str(), head.url.as_str());
        route_for(head.url.as_str(), segments)
    }

    /// The name of the asset that is the home page.
    pub fn home_filename() -> (name: &'static str)
        ensures
            name@ == "home.html"@,
    {
        "home.html"
    }

    /// The home page, given the embedded template: every occurrence of the
    /// placeholder `#{name}` gives way to the display name. Without the
    /// template the server is at fault.
    pub fn handle_home(&self, content: Option<Vec<u8>>) -> (res: Result<Response, Error>)
        ensures
            match content {
                Some(template) => res matches Ok(resp) && resp.status == 200
                    && resp.content_type@ == "text/html"@ && resp.body@ == replaced(
                    template@,
                    name_placeholder(),
                    encode_utf8(self.send_to_name@),
                ),
                None => res matches Err(e) && e.kind == ErrorKind::ServerError && e.msg@
                    == "Home: home.html not found"@,
            },
    {
        match content {
            Some(template) => {
                let body = search_and_replace(
                    template,
                    "#{name}".as_bytes(),
                    self.send_to_name.as_str().as_bytes(),
                );
                Ok(Response { status: 200, content_type: "text/html".to_owned(), body })
            },
            None => Err(Error::new(ErrorKind::ServerError, "Home: home.html not found")),
        }
    }

    /// The page for an outcome, under the status of its kind.
    pub fn error_response(&self, err: &Error) -> (resp: Response)
        ensures
            resp.status == http_code_of(err.kind),
            resp.content_type@ == "text/html"@,
            resp.body@ == encode_utf8(error_page(html_line(err.kind, err.msg@))),
    {
        let mut page = "\n<html>\n  <body style=\"font-size: 48px\">\n    ".to_owned();
        page.append(err.as_html().as_str());
        page.append("\n\n    <br/>\n    <a href=\"/\">Go back</a>\n  </body>\n</html>\n\n");
        Response {
            status: err.as_http_code(),
            content_type: "text/html".to_owned(),
            body: page.as_str().as_bytes_vec(),
        }
    }

    /// An embedded asset, given what the lookup of its name found: the
    /// content under the type of its extension, or not found.
    pub fn handle_static_asset(&self, filename: &str, content: Option<Vec<u8>>) -> (res: Result<
        Response,
        Error,
    >)
        ensures
            match content {
                Some(bytes) => res matches Ok(resp) && resp.status == 200 && resp.content_type@
                    == content_type_of(filename@) && resp.body@ == bytes@,
                None => res matches Err(e) && e.kind == ErrorKind::NotFound && e.msg@
                    == "Asset \""@ + filename@ + "\" not found"@,
            },
    {
        match content {
            Some(body) => {
                let content_type = filename_to_content_type(filename);
                Ok(Response { status: 200, content_type: content_type.to_owned(), body })
            },
            None => {
                let mut msg = "Asset \"".to_owned();
                msg.append(filename);
                msg.append("\" not found");
                Err(Error { kind: ErrorKind::NotFound, msg })
            },
        }
    }

    /// The record of the request to be written beside an upload, where
    /// records are kept.
    pub fn write_metadata(
        &self,
        now: Timestamp,
        upload_type: UploadType,
        name: Option<&str>,
        head: &RequestHead,
    ) -> (file: Option<PlannedFile>)
        ensures
            file is Some <==> self.save_metadata,
            file matches Some(f) ==> is_metadata_file(
                f,
                *head,
                timestamp_text(now@),
                upload_type,
                opt_view(name),
            ),
    {
        if !self.save_metadata {
            return None;
        }
        Some(
            PlannedFile {
                name: mangle_filename(now, upload_type, FileType::Metadata, name),
                typ: upload_type,
                file_type: FileType::Metadata,
                content: metadata_of(head).as_str().as_bytes_vec(),
            },
        )
    }

    /// The file that holds an uploaded text, verbatim.
    pub fn write_text(&self, now: Timestamp, text: &str) -> (file: PlannedFile)
        ensures
            file.name@ == mangled(
                timestamp_text(now@),
                UploadType::Text,
                FileType::Payload,
                None,
            ),
            file.typ == UploadType::Text,
            file.file_type == FileType::Payload,
            file.content@ == encode_utf8(text@),
    {
        PlannedFile {
            name: mangle_filename(now, UploadType::Text, FileType::Payload, None),
            typ: UploadType::Text,
            file_type: FileType::Payload,
            content: text.as_bytes_vec(),
        }
    }

    /// Whether a request may upload text at all: only a POST may. To be
    /// asked before the body is read.
    pub fn check_text_request(&self, head: &RequestHead) -> (res: Result<(), Error>)
        ensures
            head.method@ == "POST"@ ==> res is Ok,
            head.method@ != "POST"@ ==> (res matches Err(e) && e.kind == ErrorKind::UserError
                && e.msg@ == "Send POST to this path"@),
    {
        if head.is_post() {
            Ok(())
        } else {
            Err(Error::new(ErrorKind::UserError, "Send POST to this path"))
        }
    }

    /// Plans a text upload from the decoded form and the moment of the
    /// upload, as [`text_upload_outcome`] lays down.
    pub fn save_text_at(
        &self,
        head: &RequestHead,
        pairs: &Vec<(String, String)>,
        now: Option<Timestamp>,
    ) -> (res: Result<TextUpload, Error>)
        ensures
            text_upload_outcome(
                *self,
                *head,
                pairs_view(pairs@),
                match now {
                    Some(t) => Some(t@),
                    None => None,
                },
                res,
            ),
    {
        self.check_text_request(head)?;
        let text = text_of_form(pairs)?;
        let now = match now {
            Some(now) => now,
            None => {
                return Err(
                    Error::new(ErrorKind::ServerError, "The system clock shows no valid time"),
                );
            },
        };
        let mut files: Vec<PlannedFile> = Vec::new();
        match self.write_metadata(now, UploadType::Text, None, head) {
            Some(file) => files.push(file),
            None => {},
        }
        files.push(self.write_text(now, text.as_str()));
        let mut message = "Saved text: ".to_owned();
        message.append(text.as_str());
        Ok(TextUpload { files, message })
    }

    /// Plans a text upload from the body of the request, at the present
    /// moment: the outcome is that of [`Srv::save_text_at`] for the pairs
    /// that the body holds and for whatever the clock shows.
    pub fn save_text(&self, head: &RequestHead, body: &[u8]) -> (res: Result<TextUpload, Error>)
        ensures
            exists|clock: Option<Moment>|
                (clock matches Some(m) ==> is_valid_moment(m)) && #[trigger] text_upload_outcome(
                    *self,
                    *head,
                    form_pairs(body@),
                    clock,
                    res,
                ),
    {
        let pairs = parse_form(body);
        let now = Timestamp::now();
        proof {
            match now {
                Some(t) => {
                    use_type_invariant(t);
                },
                None => {},
            }
        }
        self.save_text_at(head, &pairs, now)
    }

    /// The server error for a body that could not be read.
    pub fn body_unreadable(&self, err: std::io::Error) -> (res: Error)
        ensures
            res.kind == ErrorKind::ServerError,
            exists|cause: Seq<char>|
                res.msg@ == #[trigger] crate::error::cause_message(
                    "Error receiving the data"@,
                    cause,
                ),
    {
        Error::from_io_error(err, "Error receiving the data")
    }

    /// The outcome of a text upload, for rendering: the confirmation once
    /// everything is written, and else the failure as it is.
    pub fn handle_text(&self, saved: Result<String, Error>) -> (res: Result<Response, Error>)
        ensures
            match saved {
                Ok(message) => res matches Err(e) && e.kind == ErrorKind::Success && e.msg@
                    == message@,
                Err(failure) => res matches Err(e) && e.kind == failure.kind && e.msg@
                    == failure.msg@,
            },
    {
        match saved {
            Ok(message) => Err(Error { kind: ErrorKind::Success, msg: message }),
            Err(failure) => Err(failure),
        }
    }

    /// Begins a file upload at the given moment: the upload starts before
    /// its first part, and the record of the request is to be written
    /// first, where records are kept. Without a valid moment the server is
    /// at fault.
    pub fn save_file_from_request_at(&self, head: &RequestHead, now: Option<Timestamp>) -> (res:
        Result<(FileUpload, Option<PlannedFile>), Error>)
        ensures
            match now {
                Some(now) => res matches Ok((upload, record)) && upload.now == now && upload.phase
                    == (UploadPhase::Receiving { seen_part: false }) && (record is Some
                    <==> self.save_metadata) && (record matches Some(f) ==> is_metadata_file(
                    f,
                    *head,
                    timestamp_text(now@),
                    UploadType::File,
                    Some("upload"@),
                )),
                None => res matches Err(e) && e.kind == ErrorKind::ServerError && e.msg@
                    == "The system clock shows no valid time"@,
            },
    {
        match now {
            Some(now) => {
                let record = self.write_metadata(now, UploadType::File, Some("upload"), head);
                Ok((FileUpload::new(now), record))
            },
            None => Err(
                Error::new(ErrorKind::ServerError, "The system clock shows no valid time"),
            ),
        }
    }

    /// Begins a file upload at the present moment: see
    /// [`Srv::save_file_from_request_at`].
    pub fn save_file_from_request(&self, head: &RequestHead) -> (res: Result<
        (FileUpload, Option<PlannedFile>),
        Error,
    >)
        ensures
            match res {
                Ok((upload, record)) => upload.phase == (UploadPhase::Receiving {
                    seen_part: false,
                }) && (record is Some <==> self.save_metadata) && (record matches Some(f)
                    ==> is_metadata_file(
                    f,
                    *head,
                    timestamp_text(upload.now@),
                    UploadType::File,
                    Some("upload"@),
                )),
                Err(e) => e.kind == ErrorKind::ServerError && e.msg@
                    == "The system clock shows no valid time"@,
            },
    {
        self.save_file_from_request_at(head, Timestamp::now())
    }

    /// The outcome of a file upload, for rendering: the confirmation once
    /// every part is stored, and else the failure as it is.
    pub fn handle_file_upload(&self, saved: Result<String, Error>) -> (res: Result<
        Response,
        Error,
    >)
        ensures
            match saved {
                Ok(message) => res matches Err(e) && e.kind == ErrorKind::Success && e.msg@
                    == message@,
                Err(failure) => res matches Err(e) && e.kind == failure.kind && e.msg@
                    == failure.msg@,
            },
    {
        self.handle_text(saved)
    }

    /// The response to send: the one a handler built, or the page for the
    /// outcome it reported.
    pub fn respond(&self, resp_result: Result<Response, Error>) -> (resp: Response)
        ensures
            match resp_result {
                Ok(built) => resp == built,
                Err(e) => resp.status == http_code_of(e.kind) && resp.content_type@
                    == "text/html"@ && resp.body@ == encode_utf8(
                    error_page(html_line(e.kind, e.msg@)),
                ),
            },
    {
        match resp_result {
            Ok(resp) => resp,
            Err(err) => self.error_response(&err),
        }
    }
}

} // verus!
