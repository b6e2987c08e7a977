//! What an upload leaves on disk, and the decisions taken while the parts
//! of a file upload arrive. Nothing here touches the disk: the caller
//! creates and fills the files and reports how it went.

use vstd::prelude::*;
use vstd::utf8::encode_utf8;

use crate::error::{cause_message, Error, ErrorKind};
use crate::naming::{
    mangle_filename, mangled, stored_names_are_single_segments, FileType, UploadType,
};
use crate::request::RequestHead;
use crate::sanitize_filename::{as_chars, sanitize_filename, sanitized, sanitized_is_plain};
use crate::text::{decimal, is_plain, push_decimal, str_eq};
use crate::timestamp::{timestamp_text, Moment, Timestamp};

verus! {

/// A file for the caller to create under the uploads directory, failing if
/// the name is taken, and to fill with the content.
#[derive(Debug)]
pub struct PlannedFile {
    pub name: String,
    pub typ: UploadType,
    pub file_type: FileType,
    pub content: Vec<u8>,
}

/// How the failure to create a stored file is described.
pub open spec fn create_failure_label(typ: UploadType, file_type: FileType) -> Seq<char> {
    match (file_type, typ) {
        (FileType::Metadata, _) => "create metadata file error"@,
        (FileType::Payload, UploadType::Text) => "Write error"@,
        (FileType::Payload, UploadType::File) => "create file error"@,
    }
}

/// How the failure to fill a stored file is described.
pub open spec fn write_failure_label(typ: UploadType, file_type: FileType) -> Seq<char> {
    match (file_type, typ) {
        (FileType::Metadata, _) => "write metadata"@,
        (FileType::Payload, UploadType::Text) => "Write error"@,
        (FileType::Payload, UploadType::File) => "data save error"@,
    }
}

fn create_label(typ: UploadType, file_type: FileType) -> (label: &'static str)
    ensures
        label@ == create_failure_label(typ, file_type),
{
    match (file_type, typ) {
        (FileType::Metadata, _) => "create metadata file error",
        (FileType::Payload, UploadType::Text) => "Write error",
        (FileType::Payload, UploadType::File) => "create file error",
    }
}

fn write_label(typ: UploadType, file_type: FileType) -> (label: &'static str)
    ensures
        label@ == write_failure_label(typ, file_type),
{
    match (file_type, typ) {
        (FileType::Metadata, _) => "write metadata",
        (FileType::Payload, UploadType::Text) => "Write error",
        (FileType::Payload, UploadType::File) => "data save error",
    }
}

impl PlannedFile {
    /// The outcome when the file could not be created: a server error that
    /// carries the text of the I/O error.
    pub fn create_failed(&self, err: std::io::Error) -> (res: Error)
        ensures
            res.kind == ErrorKind::ServerError,
            exists|cause: Seq<char>|
                res.msg@ == #[trigger] cause_message(
                    create_failure_label(self.typ, self.file_type),
                    cause,
                ),
    {
        Error::from_io_error(err, create_label(self.typ, self.file_type))
    }

    /// The outcome when the content could not be written: a server error
    /// that carries the text of the I/O error.
    pub fn write_failed(&self, err: std::io::Error) -> (res: Error)
        ensures
            res.kind == ErrorKind::ServerError,
            exists|cause: Seq<char>|
                res.msg@ == #[trigger] cause_message(
                    write_failure_label(self.typ, self.file_type),
                    cause,
                ),
    {
        Error::from_io_error(err, write_label(self.typ, self.file_type))
    }
}

/// One line per header, `{name}: {value}\n`, in the order received.
pub open spec fn header_lines(headers: Seq<(String, String)>) -> Seq<char>
    decreases headers.len(),
{
    if headers.len() == 0 {
        Seq::empty()
    } else {
        header_lines(headers.drop_last()) + headers.last().0@ + ": "@ + headers.last().1@ + "\n"@
    }
}

/// The record of a request: `{method} {version}\n\n`, then its headers.
pub open spec fn metadata_text(head: RequestHead) -> Seq<char> {
    head.method@ + " "@ + head.http_version@ + "\n\n"@ + header_lines(head.headers@)
}

/// Writes out the record of a request.
pub fn metadata_of(head: &RequestHead) -> (text: String)
    ensures
        text@ == metadata_text(*head),
{
    let mut text = head.method.clone();
    text.append(" ");
    text.append(head.http_version.as_str());
    text.append("\n\n");
    let ghost lead = text@;
    let mut i: usize = 0;
    assert(head.headers@.take(0) =~= Seq::<(String, String)>::empty());
    assert(text@ =~= lead + header_lines(head.headers@.take(0)));
    while i < head.headers.len()
        invariant
            i <= head.headers.len(),
            text@ == lead + header_lines(head.headers@.take(i as int)),
        decreases head.headers.len() - i,
    {
        let header = &head.headers[i];
        let ghost before = head.headers@.take(i as int);
        let ghost upto = head.headers@.take(i + 1);
        assert(upto.drop_last() =~= before);
        assert(upto.last() == head.headers@[i as int]);
        text.append(header.0.as_str());
        text.append(": ");
        text.append(header.1.as_str());
        text.append("\n");
        i += 1;
        assert(text@ =~= lead + header_lines(upto));
    }
    assert(head.headers@.take(i as int) =~= head.headers@);
    text
}

/// Where a file upload stands.
#[derive(Debug)]
pub enum UploadPhase {
    /// Between parts; `seen_part` tells whether one was stored already.
    Receiving { seen_part: bool },
    /// A part is being stored under `file_name`.
    Storing { file_name: String },
    /// An answer was given; nothing more is expected.
    Finished,
}

/// What the caller reports while it reads the parts and fills the files.
#[derive(Debug)]
pub enum UploadEvent {
    /// The request is no multipart form; `request` describes it.
    NotMultipart { request: String },
    /// A part begins, with its field name and the client's file name.
    Part { name: String, filename: Option<String> },
    /// The file for the part in hand could not be created.
    CreateFailed { error: std::io::Error },
    /// The part in hand was stored in full.
    Saved,
    /// Storing the part in hand stopped after `written` bytes.
    SavedPartially { written: u64, reason: String },
    /// Storing the part in hand failed before anything was written.
    SaveFailed { error: std::io::Error },
    /// The parts could not be read any further.
    ReadFailed { reason: String },
    /// There are no more parts.
    End,
}

/// What the caller is to do next.
#[derive(Debug)]
pub enum UploadAction {
    /// Create the named file, failing if it exists, and stream the part in
    /// hand into it.
    Store { file_name: String },
    /// Read the next part.
    Next,
    /// Remove the named file, which was not written in full, and give the
    /// answer.
    Discard { file_name: String, answer: Error },
    /// The upload failed: give the answer.
    Answer(Error),
    /// The upload is complete: confirm it to the client.
    Confirm { message: String },
}

/// A file upload in progress: the moment it began and where it stands.
#[derive(Debug)]
pub struct FileUpload {
    pub now: Timestamp,
    pub phase: UploadPhase,
}

/// The characters of an optional owned string.
pub open spec fn opt_string_view(s: Option<String>) -> Option<Seq<char>> {
    match s {
        Some(s) => Some(s@),
        None => None,
    }
}

/// The name under which a part is stored: the client's file name, if it
/// gave one, goes in sanitized.
pub open spec fn stored_name(time: Seq<char>, filename: Option<Seq<char>>) -> Seq<char> {
    mangled(
        time,
        UploadType::File,
        FileType::Payload,
        match filename {
            Some(f) => Some(as_chars(sanitized(encode_utf8(f)))),
            None => None,
        },
    )
}

/// Whatever file name the client gives, the part is stored under a name
/// that is one segment of a path: joined to the uploads directory it never
/// leads out of it.
pub proof fn stored_name_is_one_segment(moment: Moment, filename: Option<Seq<char>>)
    ensures
        is_plain(stored_name(timestamp_text(moment), filename)),
        stored_name(timestamp_text(moment), filename).len() > 2,
{
    let clean = match filename {
        Some(f) => Some(as_chars(sanitized(encode_utf8(f)))),
        None => None,
    };
    match filename {
        Some(f) => sanitized_is_plain(encode_utf8(f)),
        None => {},
    }
    stored_names_are_single_segments(moment, UploadType::File, FileType::Payload, clean);
    reveal_strlit("--");
    reveal_strlit("file.bin");
}

/// The complaint about a part that is not the `file` field.
pub open spec fn invalid_entry_message(name: Seq<char>) -> Seq<char> {
    "invalid entry (expected only \"file\") "@ + name
}

/// The report of a part of which only `written` bytes were stored.
pub open spec fn partial_save_message(written: nat, reason: Seq<char>) -> Seq<char> {
    "data partially saved/received, partial = "@ + decimal(written) + ", partial_reason = "@
        + reason
}

/// The report of parts that could not be read.
pub open spec fn read_failure_message(reason: Seq<char>) -> Seq<char> {
    "foreach_entry error: "@ + reason
}

/// Whether `action` is the answer of the given kind and message.
pub open spec fn answers(action: UploadAction, kind: ErrorKind, msg: Seq<char>) -> bool {
    action matches UploadAction::Answer(e) && e.kind == kind && e.msg@ == msg
}

/// One step of a file upload that began at `time`: from the phase `before`
/// and the event to the phase `after` and the action.
///
/// Only a part named `file` is stored. The first failure ends the upload
/// with its answer. A file that was created but not written in full is
/// discarded, so that what stays in the uploads directory was stored in
/// full. The upload is confirmed when the parts end after at least one was
/// stored.
pub open spec fn upload_step(
    time: Seq<char>,
    before: UploadPhase,
    event: UploadEvent,
    after: UploadPhase,
    action: UploadAction,
) -> bool {
    match (before, event) {
        (UploadPhase::Receiving { seen_part }, UploadEvent::NotMultipart { request }) => {
            &&& after is Finished
            &&& if seen_part {
                answers(action, ErrorKind::ServerError, "upload steps out of order"@)
            } else {
                answers(action, ErrorKind::ServerError, request@)
            }
        },
        (UploadPhase::Receiving { .. }, UploadEvent::Part { name, filename }) => {
            if name@ == "file"@ {
                let stored = stored_name(time, opt_string_view(filename));
                &&& after matches UploadPhase::Storing { file_name }
                &&& file_name@ == stored
                &&& action matches UploadAction::Store { file_name: to_store }
                &&& to_store@ == stored
            } else {
                &&& after is Finished
                &&& answers(action, ErrorKind::UserError, invalid_entry_message(name@))
            }
        },
        (UploadPhase::Receiving { .. }, UploadEvent::ReadFailed { reason }) => {
            &&& after is Finished
            &&& answers(action, ErrorKind::ServerError, read_failure_message(reason@))
        },
        (UploadPhase::Receiving { seen_part }, UploadEvent::End) => {
            &&& after is Finished
            &&& if seen_part {
                action matches UploadAction::Confirm { message } && message@ == "File uploaded!"@
            } else {
                answers(action, ErrorKind::UserError, "no entries provided"@)
            }
        },
        (UploadPhase::Storing { .. }, UploadEvent::Saved) => {
            &&& after == (UploadPhase::Receiving { seen_part: true })
            &&& action is Next
        },
        (UploadPhase::Storing { .. }, UploadEvent::CreateFailed { .. }) => {
            &&& after is Finished
            &&& exists|cause: Seq<char>|
                answers(
                    action,
                    ErrorKind::ServerError,
                    #[trigger] cause_message("create file error"@, cause),
                )
        },
        (UploadPhase::Storing { file_name }, UploadEvent::SavedPartially { written, reason }) => {
            &&& after is Finished
            &&& action matches UploadAction::Discard { file_name: to_discard, answer }
            &&& to_discard@ == file_name@
            &&& answer.kind == ErrorKind::Unknown
            &&& answer.msg@ == partial_save_message(written as nat, reason@)
        },
        (UploadPhase::Storing { file_name }, UploadEvent::SaveFailed { .. }) => {
            &&& after is Finished
            &&& action matches UploadAction::Discard { file_name: to_discard, answer }
            &&& to_discard@ == file_name@
            &&& answer.kind == ErrorKind::ServerError
            &&& exists|cause: Seq<char>|
                answer.msg@ == #[trigger] cause_message("data save error"@, cause)
        },
        _ => {
            &&& after is Finished
            &&& answers(action, ErrorKind::ServerError, "upload steps out of order"@)
        },
    }
}

/// An upload is confirmed only when the parts end after at least one of
/// them was stored in full, and a confirmation is never mistaken for a
/// fault: no answer of a failed upload has the kind `Success`.
pub proof fn confirmation_needs_a_stored_part(
    time: Seq<char>,
    before: UploadPhase,
    event: UploadEvent,
    after: UploadPhase,
    action: UploadAction,
)
    requires
        upload_step(time, before, event, after, action),
    ensures
        action is Confirm ==> before == (UploadPhase::Receiving { seen_part: true }) && event
            is End,
        action matches UploadAction::Answer(e) ==> e.kind != ErrorKind::Success,
        action matches UploadAction::Discard { answer, .. } ==> answer.kind != ErrorKind::Success,
{
}

/// Every answer ends the upload, and an ended upload stays ended.
pub proof fn answers_are_final(
    time: Seq<char>,
    before: UploadPhase,
    event: UploadEvent,
    after: UploadPhase,
    action: UploadAction,
)
    requires
        upload_step(time, before, event, after, action),
    ensures
        (action is Answer || action is Discard || action is Confirm) <==> after is Finished,
        before is Finished ==> after is Finished,
{
}

fn out_of_order() -> (action: UploadAction)
    ensures
        answers(action, ErrorKind::ServerError, "upload steps out of order"@),
{
    UploadAction::Answer(Error::new(ErrorKind::ServerError, "upload steps out of order"))
}

impl FileUpload {
    /// An upload that begins at `now`, before its first part.
    pub fn new(now: Timestamp) -> (upload: FileUpload)
        ensures
            upload.now == now,
            upload.phase == (UploadPhase::Receiving { seen_part: false }),
    {
        FileUpload { now, phase: UploadPhase::Receiving { seen_part: false } }
    }

    /// Takes one event and says what to do next, as [`upload_step`] lays
    /// down.
    pub fn step(&mut self, event: UploadEvent) -> (action: UploadAction)
        ensures
            final(self).now == old(self).now,
            upload_step(
                timestamp_text(old(self).now@),
                old(self).phase,
                event,
                final(self).phase,
                action,
            ),
    {
        let mut phase = UploadPhase::Finished;
        std::mem::swap(&mut self.phase, &mut phase);
        match (phase, event) {
            (UploadPhase::Receiving { seen_part }, UploadEvent::NotMultipart { request }) => {
                if seen_part {
                    out_of_order()
                } else {
                    UploadAction::Answer(Error { kind: ErrorKind::ServerError, msg: request })
                }
            },
            (UploadPhase::Receiving { .. }, UploadEvent::Part { name, filename }) => {
                if str_eq(name.as_str(), "file") {
                    let file_name = match filename {
                        Some(f) => {
                            let clean = sanitize_filename(f.as_str());
                            mangle_filename(
                                self.now,
                                UploadType::File,
                                FileType::Payload,
                                Some(clean.as_str()),
                            )
                        },
                        None => mangle_filename(
                            self.now,
                            UploadType::File,
                            FileType::Payload,
                            None,
                        ),
                    };
                    self.phase = UploadPhase::Storing { file_name: file_name.clone() };
                    UploadAction::Store { file_name }
                } else {
                    let mut msg = "invalid entry (expected only \"file\") ".to_owned();
                    msg.append(name.as_str());
                    UploadAction::Answer(Error { kind: ErrorKind::UserError, msg })
                }
            },
            (UploadPhase::Receiving { .. }, UploadEvent::ReadFailed { reason }) => {
                let mut msg = "foreach_entry error: ".to_owned();
                msg.append(reason.as_str());
                UploadAction::Answer(Error { kind: ErrorKind::ServerError, msg })
            },
            (UploadPhase::Receiving { seen_part }, UploadEvent::End) => {
                if seen_part {
                    UploadAction::Confirm { message: "File uploaded!".to_owned() }
                } else {
                    UploadAction::Answer(Error::new(ErrorKind::UserError, "no entries provided"))
                }
            },
            (UploadPhase::Storing { .. }, UploadEvent::Saved) => {
                self.phase = UploadPhase::Receiving { seen_part: true };
                UploadAction::Next
            },
            (UploadPhase::Storing { .. }, UploadEvent::CreateFailed { error }) => {
                UploadAction::Answer(Error::from_io_error(error, "create file error"))
            },
            (
                UploadPhase::Storing { file_name },
                UploadEvent::SavedPartially { written, reason },
            ) => {
                let mut msg = "data partially saved/received, partial = ".to_owned();
                push_decimal(&mut msg, written as u128);
                msg.append(", partial_reason = ");
                msg.append(reason.as_str());
                UploadAction::Discard {
                    file_name,
                    answer: Error { kind: ErrorKind::Unknown, msg },
                }
            },
            (UploadPhase::Storing { file_name }, UploadEvent::SaveFailed { error }) => {
                UploadAction::Discard {
                    file_name,
                    answer: Error::from_io_error(error, "data save error"),
                }
            },
            _ => out_of_order(),
        }
    }
}

} // verus!
