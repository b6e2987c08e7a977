use upload_server::error::ErrorKind;
use upload_server::form::{text_of_body, text_of_form};
use upload_server::naming::{FileType, UploadType};
use upload_server::request::RequestHead;
use upload_server::srv::{Route, Srv};
use upload_server::timestamp::Timestamp;

fn srv(save_metadata: bool) -> Srv {
    Srv::new("http://0.0.0.0:2022", "/tmp/uploads", "Alice", save_metadata)
}

fn request(method: &str) -> RequestHead {
    RequestHead {
        method: method.to_string(),
        url: "/text".to_string(),
        http_version: "1.1".to_string(),
        headers: vec![
            ("Host".to_string(), "localhost:2022".to_string()),
            ("Content-Type".to_string(), "application/x-www-form-urlencoded".to_string()),
        ],
    }
}

fn moment() -> Timestamp {
    Timestamp::new(2024, 1, 2, 3, 4, 5, 678901).unwrap()
}

fn pair(key: &str, value: &str) -> (String, String) {
    (key.to_string(), value.to_string())
}

#[test]
fn post_text_saves_the_text_verbatim() {
    let s = srv(false);
    let head = request("POST");
    assert!(matches!(s.handle_request(&head), Route::Text));
    assert!(s.check_text_request(&head).is_ok());
    let upload = s.save_text(&head, b"text=hello").unwrap();
    assert_eq!(upload.files.len(), 1);
    let payload = &upload.files[0];
    assert_eq!(payload.content, b"hello".to_vec());
    assert_eq!(payload.typ, UploadType::Text);
    assert_eq!(payload.file_type, FileType::Payload);
    assert_eq!(payload.name.len(), 27 + "--text.txt--payload".len());
    assert!(payload.name.ends_with("--text.txt--payload"));
    assert_eq!(upload.message, "Saved text: hello");
    let resp = s.respond(s.handle_text(Ok(upload.message)));
    assert_eq!(resp.status, 200);
    assert!(String::from_utf8(resp.body).unwrap().contains("200 (Success): Saved text: hello"));
}

#[test]
fn text_upload_at_a_given_moment() {
    let s = srv(true);
    let head = request("POST");
    let upload = s.save_text_at(&head, &vec![pair("text", "héllo wörld")], Some(moment())).unwrap();
    assert_eq!(upload.files.len(), 2);
    let record = &upload.files[0];
    assert_eq!(record.name, "2024-01-02--03:04:05.678901--text.txt--metadata");
    assert_eq!(record.typ, UploadType::Text);
    assert_eq!(record.file_type, FileType::Metadata);
    assert_eq!(
        String::from_utf8(record.content.clone()).unwrap(),
        "POST 1.1\n\nHost: localhost:2022\nContent-Type: application/x-www-form-urlencoded\n"
    );
    let payload = &upload.files[1];
    assert_eq!(payload.name, "2024-01-02--03:04:05.678901--text.txt--payload");
    assert_eq!(payload.content, "héllo wörld".as_bytes().to_vec());
    assert_eq!(upload.message, "Saved text: héllo wörld");
}

#[test]
fn forms_are_decoded() {
    assert_eq!(text_of_body(b"text=a%20b+c%26d").unwrap(), "a b c&d");
    assert_eq!(text_of_body(b"text=").unwrap(), "");
    assert_eq!(text_of_body(b"text").unwrap(), "");
    assert_eq!(text_of_body(b"&&text=x&").unwrap(), "x");
    assert_eq!(text_of_body(b"%74ext=%E2%9C%93").unwrap(), "✓");
}

#[test]
fn wrong_parameter_is_a_client_error() {
    let s = srv(false);
    let err = s.save_text(&request("POST"), b"foo=bar").unwrap_err();
    assert_eq!(err.kind, ErrorKind::UserError);
    assert_eq!(err.as_http_code(), 400);
    assert_eq!(err.msg, "Invalid parameter \"foo\" with value \"bar\" ");
    let resp = s.respond(s.handle_text(Err(err)));
    assert_eq!(resp.status, 400);
    assert!(String::from_utf8(resp.body).unwrap().contains("foo"));
}

#[test]
fn extra_parameter_is_a_client_error() {
    let s = srv(false);
    let err = s.save_text(&request("POST"), b"text=a&text=b").unwrap_err();
    assert_eq!(err.kind, ErrorKind::UserError);
    assert_eq!(err.as_http_code(), 400);
    assert_eq!(err.msg, "Invalid extra parameter \"text\" with value \"b\" ");
    let err = text_of_form(&vec![pair("text", "a"), pair("more", "b"), pair("x", "y")]).unwrap_err();
    assert_eq!(err.msg, "Invalid extra parameter \"more\" with value \"b\" ");
}

#[test]
fn empty_form_is_a_client_error() {
    let err = srv(false).save_text(&request("POST"), b"").unwrap_err();
    assert_eq!(err.kind, ErrorKind::UserError);
    assert_eq!(err.msg, "No arguments provided to /text");
    let err = text_of_form(&Vec::new()).unwrap_err();
    assert_eq!(err.msg, "No arguments provided to /text");
}

#[test]
fn get_text_is_a_client_error() {
    let s = srv(false);
    let head = request("GET");
    assert!(matches!(s.handle_request(&head), Route::Text));
    let err = s.check_text_request(&head).unwrap_err();
    assert_eq!(err.kind, ErrorKind::UserError);
    assert_eq!(err.msg, "Send POST to this path");
    let err = s.save_text(&head, b"text=hello").unwrap_err();
    assert_eq!(err.kind, ErrorKind::UserError);
    assert_eq!(err.msg, "Send POST to this path");
    let resp = s.respond(s.handle_text(Err(err)));
    assert_eq!(resp.status, 400);
}

#[test]
fn text_upload_without_a_clock_is_a_server_error() {
    let err = srv(false).save_text_at(&request("POST"), &vec![pair("text", "x")], None).unwrap_err();
    assert_eq!(err.kind, ErrorKind::ServerError);
    assert_eq!(err.msg, "The system clock shows no valid time");
}

#[test]
fn failed_writes_are_server_errors() {
    let s = srv(true);
    let upload = s.save_text_at(&request("POST"), &vec![pair("text", "x")], Some(moment())).unwrap();
    let exists = || std::io::Error::new(std::io::ErrorKind::AlreadyExists, "taken");
    let err = upload.files[0].create_failed(exists());
    assert_eq!(err.kind, ErrorKind::ServerError);
    assert_eq!(err.msg, "create metadata file error: taken");
    assert_eq!(upload.files[0].write_failed(exists()).msg, "write metadata: taken");
    assert_eq!(upload.files[1].create_failed(exists()).msg, "Write error: taken");
    assert_eq!(upload.files[1].write_failed(exists()).msg, "Write error: taken");
    let err = s.body_unreadable(exists());
    assert_eq!(err.kind, ErrorKind::ServerError);
    assert_eq!(err.msg, "Error receiving the data: taken");
}
