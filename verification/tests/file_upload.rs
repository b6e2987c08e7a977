use upload_server::error::{Error, ErrorKind};
use upload_server::naming::{FileType, UploadType};
use upload_server::request::RequestHead;
use upload_server::srv::{Route, Srv};
use upload_server::timestamp::Timestamp;
use upload_server::upload::{metadata_of, FileUpload, UploadAction, UploadEvent, UploadPhase};

fn request() -> RequestHead {
    RequestHead {
        method: "POST".to_string(),
        url: "/file".to_string(),
        http_version: "1.1".to_string(),
        headers: vec![("Content-Type".to_string(), "multipart/form-data; boundary=xyz".to_string())],
    }
}

fn moment() -> Timestamp {
    Timestamp::new(2024, 1, 2, 3, 4, 5, 678901).unwrap()
}

fn part(name: &str, filename: Option<&str>) -> UploadEvent {
    UploadEvent::Part { name: name.to_string(), filename: filename.map(str::to_string) }
}

fn answer(action: UploadAction) -> Error {
    match action {
        UploadAction::Answer(err) => err,
        other => panic!("expected an answer, got {:?}", other),
    }
}

fn confirmed(action: UploadAction) -> String {
    match action {
        UploadAction::Confirm { message } => message,
        other => panic!("expected a confirmation, got {:?}", other),
    }
}

fn stored(action: UploadAction) -> String {
    match action {
        UploadAction::Store { file_name } => file_name,
        other => panic!("expected a file to store, got {:?}", other),
    }
}

#[test]
fn file_part_is_stored_under_its_sanitized_name() {
    let s = Srv::new("http://0.0.0.0:2022", "/tmp/uploads", "Alice", false);
    assert!(matches!(s.handle_request(&request()), Route::File));
    let (mut upload, record) = s.save_file_from_request_at(&request(), Some(moment())).unwrap();
    assert!(record.is_none());
    let name = stored(upload.step(part("file", Some("my report.pdf"))));
    assert_eq!(name, "2024-01-02--03:04:05.678901--my_report.pdf--file.bin--payload");
    assert!(name.contains("my_report.pdf"));
    assert!(matches!(upload.step(UploadEvent::Saved), UploadAction::Next));
    let done = confirmed(upload.step(UploadEvent::End));
    assert_eq!(done, "File uploaded!");
    assert!(matches!(upload.phase, UploadPhase::Finished));
    let resp = s.respond(s.handle_file_upload(Ok(done)));
    assert_eq!(resp.status, 200);
    assert!(String::from_utf8(resp.body).unwrap().contains("200 (Success): File uploaded!"));
}

#[test]
fn file_part_without_a_name_gets_the_plain_name() {
    let mut upload = FileUpload::new(moment());
    let name = stored(upload.step(part("file", None)));
    assert_eq!(name, "2024-01-02--03:04:05.678901--file.bin--payload");
    match &upload.phase {
        UploadPhase::Storing { file_name } => assert_eq!(file_name, &name),
        other => panic!("expected to be storing, got {:?}", other),
    }
}

#[test]
fn same_moment_and_name_give_the_same_file_and_a_taken_name_is_a_server_error() {
    let mut first = FileUpload::new(moment());
    let mut second = FileUpload::new(moment());
    let one = stored(first.step(part("file", Some("my report.pdf"))));
    let two = stored(second.step(part("file", Some("my report.pdf"))));
    assert_eq!(one, two);
    assert!(matches!(first.step(UploadEvent::Saved), UploadAction::Next));
    let taken = std::io::Error::new(std::io::ErrorKind::AlreadyExists, "File exists");
    let err = answer(second.step(UploadEvent::CreateFailed { error: taken }));
    assert_eq!(err.kind, ErrorKind::ServerError);
    assert_eq!(err.as_http_code(), 500);
    assert_eq!(err.msg, "create file error: File exists");
    assert!(matches!(second.phase, UploadPhase::Finished));
}

#[test]
fn wrong_part_name_is_a_client_error() {
    let s = Srv::new("http://0.0.0.0:2022", "/tmp/uploads", "Alice", false);
    let mut upload = FileUpload::new(moment());
    let err = answer(upload.step(part("wrong", Some("a.txt"))));
    assert_eq!(err.kind, ErrorKind::UserError);
    assert_eq!(err.as_http_code(), 400);
    assert_eq!(err.msg, "invalid entry (expected only \"file\") wrong");
    assert!(matches!(upload.phase, UploadPhase::Finished));
    let resp = s.respond(s.handle_file_upload(Err(err)));
    assert_eq!(resp.status, 400);
    assert!(String::from_utf8(resp.body).unwrap().contains("wrong"));
}

#[test]
fn no_parts_is_a_client_error() {
    let mut upload = FileUpload::new(moment());
    let err = answer(upload.step(UploadEvent::End));
    assert_eq!(err.kind, ErrorKind::UserError);
    assert_eq!(err.msg, "no entries provided");
}

#[test]
fn request_that_is_no_multipart_form_is_a_server_error() {
    let mut upload = FileUpload::new(moment());
    let err = answer(upload.step(UploadEvent::NotMultipart { request: "Request(POST /file)".to_string() }));
    assert_eq!(err.kind, ErrorKind::ServerError);
    assert_eq!(err.msg, "Request(POST /file)");
}

#[test]
fn unreadable_parts_are_a_server_error() {
    let mut upload = FileUpload::new(moment());
    stored(upload.step(part("file", None)));
    assert!(matches!(upload.step(UploadEvent::Saved), UploadAction::Next));
    let err = answer(upload.step(UploadEvent::ReadFailed { reason: "unexpected end".to_string() }));
    assert_eq!(err.kind, ErrorKind::ServerError);
    assert_eq!(err.msg, "foreach_entry error: unexpected end");
}

#[test]
fn partial_save_is_discarded_and_unknown() {
    let mut upload = FileUpload::new(moment());
    let name = stored(upload.step(part("file", Some("big.bin"))));
    match upload.step(UploadEvent::SavedPartially { written: 1024, reason: "SizeLimit".to_string() }) {
        UploadAction::Discard { file_name, answer } => {
            assert_eq!(file_name, name);
            assert_eq!(answer.kind, ErrorKind::Unknown);
            assert_eq!(answer.as_http_code(), 500);
            assert_eq!(answer.msg, "data partially saved/received, partial = 1024, partial_reason = SizeLimit");
        }
        other => panic!("expected a discard, got {:?}", other),
    }
    assert!(matches!(upload.phase, UploadPhase::Finished));
}

#[test]
fn failed_save_is_a_server_error() {
    let mut upload = FileUpload::new(moment());
    stored(upload.step(part("file", None)));
    let broken = std::io::Error::new(std::io::ErrorKind::BrokenPipe, "gone");
    match upload.step(UploadEvent::SaveFailed { error: broken }) {
        UploadAction::Discard { file_name, answer } => {
            assert_eq!(file_name, "2024-01-02--03:04:05.678901--file.bin--payload");
            assert_eq!(answer.kind, ErrorKind::ServerError);
            assert_eq!(answer.msg, "data save error: gone");
        }
        other => panic!("expected a discard, got {:?}", other),
    }
    assert!(matches!(upload.phase, UploadPhase::Finished));
}

#[test]
fn several_file_parts_are_stored_in_turn() {
    let mut upload = FileUpload::new(moment());
    let one = stored(upload.step(part("file", Some("a.txt"))));
    assert!(matches!(upload.step(UploadEvent::Saved), UploadAction::Next));
    let two = stored(upload.step(part("file", Some("b.txt"))));
    assert!(matches!(upload.step(UploadEvent::Saved), UploadAction::Next));
    assert_ne!(one, two);
    assert_eq!(confirmed(upload.step(UploadEvent::End)), "File uploaded!");
}

#[test]
fn first_failure_ends_the_upload() {
    let mut upload = FileUpload::new(moment());
    stored(upload.step(part("file", Some("a.txt"))));
    assert!(matches!(upload.step(UploadEvent::Saved), UploadAction::Next));
    let err = answer(upload.step(part("other", None)));
    assert_eq!(err.kind, ErrorKind::UserError);
    let err = answer(upload.step(part("file", None)));
    assert_eq!(err.kind, ErrorKind::ServerError);
    assert_eq!(err.msg, "upload steps out of order");
    let err = answer(upload.step(UploadEvent::End));
    assert_eq!(err.kind, ErrorKind::ServerError);
}

#[test]
fn events_out_of_order_are_refused() {
    let mut upload = FileUpload::new(moment());
    let err = answer(upload.step(UploadEvent::Saved));
    assert_eq!(err.kind, ErrorKind::ServerError);
    assert_eq!(err.msg, "upload steps out of order");
    let mut upload = FileUpload::new(moment());
    stored(upload.step(part("file", None)));
    let err = answer(upload.step(UploadEvent::End));
    assert_eq!(err.msg, "upload steps out of order");
}

#[test]
fn the_request_is_recorded_first_where_records_are_kept() {
    let s = Srv::new("http://0.0.0.0:2022", "/tmp/uploads", "Alice", true);
    let (upload, record) = s.save_file_from_request_at(&request(), Some(moment())).unwrap();
    assert!(matches!(upload.phase, UploadPhase::Receiving { seen_part: false }));
    let record = record.unwrap();
    assert_eq!(record.name, "2024-01-02--03:04:05.678901--upload--file.bin--metadata");
    assert_eq!(record.typ, UploadType::File);
    assert_eq!(record.file_type, FileType::Metadata);
    assert_eq!(
        String::from_utf8(record.content).unwrap(),
        "POST 1.1\n\nContent-Type: multipart/form-data; boundary=xyz\n"
    );
    let (_, record) = s.save_file_from_request(&request()).unwrap();
    assert!(record.unwrap().name.ends_with("--upload--file.bin--metadata"));
}

#[test]
fn file_upload_without_a_clock_is_a_server_error() {
    let s = Srv::new("http://0.0.0.0:2022", "/tmp/uploads", "Alice", true);
    let err = s.save_file_from_request_at(&request(), None).unwrap_err();
    assert_eq!(err.kind, ErrorKind::ServerError);
    assert_eq!(err.msg, "The system clock shows no valid time");
}

#[test]
fn record_lists_the_headers_in_order() {
    let head = RequestHead {
        method: "PUT".to_string(),
        url: "/x".to_string(),
        http_version: "1.0".to_string(),
        headers: vec![
            ("B".to_string(), "2".to_string()),
            ("A".to_string(), "1".to_string()),
            ("B".to_string(), "".to_string()),
        ],
    };
    assert_eq!(metadata_of(&head), "PUT 1.0\n\nB: 2\nA: 1\nB: \n");
    let bare = RequestHead { method: "GET".to_string(), url: "/".to_string(), http_version: "1.1".to_string(), headers: Vec::new() };
    assert_eq!(metadata_of(&bare), "GET 1.1\n\n");
}
