//! Names of stored files: unique per moment and client name, and sortable
//! by time.

use vstd::prelude::*;

use crate::text::{differs_first_at, differs_first_whatever_follows, is_plain, sorts_before};
use crate::timestamp::{
    is_earlier, is_valid_moment, timestamp_text, timestamp_text_has_fixed_shape,
    timestamp_text_is_injective, timestamp_text_is_plain, timestamp_text_sorts_by_time, Moment,
    Timestamp,
};

verus! {

/// Where an upload came from: the text form or the file form.
#[derive(Debug, Clone, Copy, PartialEq, Eq, Structural)]
pub enum UploadType {
    Text,
    File,
}

/// What a stored file holds: the uploaded content itself, or the record of
/// the request that brought it.
#[derive(Debug, Clone, Copy, PartialEq, Eq, Structural)]
pub enum FileType {
    Payload,
    Metadata,
}

pub open spec fn upload_name(typ: UploadType) -> Seq<char> {
    match typ {
        UploadType::Text => "text"@,
        UploadType::File => "file"@,
    }
}

/// The tag that an upload kind leaves in a file name.
pub open spec fn file_suffix(typ: UploadType) -> Seq<char> {
    match typ {
        UploadType::Text => "text.txt"@,
        UploadType::File => "file.bin"@,
    }
}

/// The tag that a file's role leaves in a file name.
pub open spec fn role_label(file_type: FileType) -> Seq<char> {
    match file_type {
        FileType::Payload => "payload"@,
        FileType::Metadata => "metadata"@,
    }
}

/// The end of every stored name: `{kind-suffix}--{role-label}`.
pub open spec fn name_tail(typ: UploadType, file_type: FileType) -> Seq<char> {
    file_suffix(typ) + "--"@ + role_label(file_type)
}

/// A stored name: `{time}--[{name}--]{kind-suffix}--{role-label}`.
pub open spec fn mangled(
    time: Seq<char>,
    typ: UploadType,
    file_type: FileType,
    name: Option<Seq<char>>,
) -> Seq<char> {
    match name {
        Some(name) => time + "--"@ + name + "--"@ + name_tail(typ, file_type),
        None => time + "--"@ + name_tail(typ, file_type),
    }
}

/// What follows the time in a stored name.
pub open spec fn name_after_time(
    typ: UploadType,
    file_type: FileType,
    name: Option<Seq<char>>,
) -> Seq<char> {
    match name {
        Some(name) => "--"@ + name + "--"@ + name_tail(typ, file_type),
        None => "--"@ + name_tail(typ, file_type),
    }
}

proof fn mangled_begins_with_time(
    time: Seq<char>,
    typ: UploadType,
    file_type: FileType,
    name: Option<Seq<char>>,
)
    ensures
        mangled(time, typ, file_type, name) == time + name_after_time(typ, file_type, name),
{
    assert(mangled(time, typ, file_type, name) =~= time + name_after_time(typ, file_type, name));
}

/// The characters of an optional string.
pub open spec fn opt_view(name: Option<&str>) -> Option<Seq<char>> {
    match name {
        Some(name) => Some(name@),
        None => None,
    }
}

/// Whether `needle` occurs in `hay` as a contiguous piece.
pub open spec fn occurs_in(needle: Seq<char>, hay: Seq<char>) -> bool {
    exists|at: int|
        0 <= at && at + needle.len() <= hay.len() && #[trigger] hay.subrange(
            at,
            at + needle.len(),
        ) == needle
}

proof fn reveal_tags()
    ensures
        "text.txt"@ == seq!['t', 'e', 'x', 't', '.', 't', 'x', 't'],
        "file.bin"@ == seq!['f', 'i', 'l', 'e', '.', 'b', 'i', 'n'],
        "payload"@ == seq!['p', 'a', 'y', 'l', 'o', 'a', 'd'],
        "metadata"@ == seq!['m', 'e', 't', 'a', 'd', 'a', 't', 'a'],
        "--"@ == seq!['-', '-'],
{
    reveal_strlit("text.txt");
    reveal_strlit("file.bin");
    reveal_strlit("payload");
    reveal_strlit("metadata");
    reveal_strlit("--");
    assert("text.txt"@ =~= seq!['t', 'e', 'x', 't', '.', 't', 'x', 't']);
    assert("file.bin"@ =~= seq!['f', 'i', 'l', 'e', '.', 'b', 'i', 'n']);
    assert("payload"@ =~= seq!['p', 'a', 'y', 'l', 'o', 'a', 'd']);
    assert("metadata"@ =~= seq!['m', 'e', 't', 'a', 'd', 'a', 't', 'a']);
    assert("--"@ =~= seq!['-', '-']);
}

/// A stored name is never empty, and it holds the kind suffix and the role
/// label literally: it ends with `{kind-suffix}--{role-label}`.
pub proof fn mangled_shows_kind_and_role(
    time: Seq<char>,
    typ: UploadType,
    file_type: FileType,
    name: Option<Seq<char>>,
)
    ensures
        mangled(time, typ, file_type, name).len() > 0,
        occurs_in(file_suffix(typ), mangled(time, typ, file_type, name)),
        occurs_in(role_label(file_type), mangled(time, typ, file_type, name)),
        exists|head: Seq<char>|
            mangled(time, typ, file_type, name) == #[trigger] (head + name_tail(typ, file_type)),
{
    reveal_tags();
    let out = mangled(time, typ, file_type, name);
    let head = match name {
        Some(name) => time + "--"@ + name + "--"@,
        None => time + "--"@,
    };
    let suffix = file_suffix(typ);
    let label = role_label(file_type);
    assert(out =~= head + name_tail(typ, file_type));
    let at: int = head.len() as int;
    assert(out.subrange(at, at + suffix.len()) =~= suffix);
    let at: int = at + suffix.len() + 2;
    assert(out.subrange(at, at + label.len()) =~= label);
}

/// At one moment, distinct kinds, roles or client names never share a
/// stored name: the name determines all three.
pub proof fn mangled_is_injective(
    time: Seq<char>,
    typ1: UploadType,
    file_type1: FileType,
    name1: Option<Seq<char>>,
    typ2: UploadType,
    file_type2: FileType,
    name2: Option<Seq<char>>,
)
    requires
        mangled(time, typ1, file_type1, name1) == mangled(time, typ2, file_type2, name2),
    ensures
        typ1 == typ2,
        file_type1 == file_type2,
        name1 == name2,
{
    reveal_tags();
    let a = mangled(time, typ1, file_type1, name1);
    let b = mangled(time, typ2, file_type2, name2);
    let tail1 = name_tail(typ1, file_type1);
    let tail2 = name_tail(typ2, file_type2);
    let head1 = match name1 {
        Some(name) => time + "--"@ + name + "--"@,
        None => time + "--"@,
    };
    let head2 = match name2 {
        Some(name) => time + "--"@ + name + "--"@,
        None => time + "--"@,
    };
    assert(a =~= head1 + tail1);
    assert(b =~= head2 + tail2);
    // The last character tells the role.
    assert(a[a.len() - 1] == tail1[tail1.len() - 1]);
    assert(b[b.len() - 1] == tail2[tail2.len() - 1]);
    assert(file_type1 == file_type2);
    // With the role known, the tails have one length, and their first
    // character tells the kind.
    assert(tail1.len() == tail2.len());
    assert(a[a.len() - tail1.len()] == tail1[0]);
    assert(b[b.len() - tail2.len()] == tail2[0]);
    assert(typ1 == typ2);
    // What is left in front of the tail is the time and the name.
    assert(head1.len() == head2.len());
    match (name1, name2) {
        (Some(n1), Some(n2)) => {
            let start: int = time.len() as int + 2;
            assert(n1.len() == n2.len());
            assert(n1 =~= a.subrange(start, start + n1.len()));
            assert(n2 =~= b.subrange(start, start + n2.len()));
        },
        _ => {},
    }
}

/// Stored names never collide: two uploads share a name only if they
/// agree in the moment, to the microsecond, and in kind, role and client
/// name.
pub proof fn stored_names_never_collide(
    moment1: Moment,
    typ1: UploadType,
    file_type1: FileType,
    name1: Option<Seq<char>>,
    moment2: Moment,
    typ2: UploadType,
    file_type2: FileType,
    name2: Option<Seq<char>>,
)
    requires
        is_valid_moment(moment1),
        is_valid_moment(moment2),
        mangled(timestamp_text(moment1), typ1, file_type1, name1) == mangled(
            timestamp_text(moment2),
            typ2,
            file_type2,
            name2,
        ),
    ensures
        moment1 == moment2,
        typ1 == typ2,
        file_type1 == file_type2,
        name1 == name2,
{
    let time1 = timestamp_text(moment1);
    let time2 = timestamp_text(moment2);
    timestamp_text_has_fixed_shape(moment1);
    timestamp_text_has_fixed_shape(moment2);
    assert(mangled(time1, typ1, file_type1, name1).subrange(0, 27) =~= time1);
    assert(mangled(time2, typ2, file_type2, name2).subrange(0, 27) =~= time2);
    timestamp_text_is_injective(moment1, moment2);
    mangled_is_injective(time1, typ1, file_type1, name1, typ2, file_type2, name2);
}

/// A stored name is one segment of a path: as long as the client's name
/// holds no path separator, neither does the stored name.
pub proof fn stored_names_are_single_segments(
    moment: Moment,
    typ: UploadType,
    file_type: FileType,
    name: Option<Seq<char>>,
)
    requires
        name matches Some(n) ==> is_plain(n),
    ensures
        is_plain(mangled(timestamp_text(moment), typ, file_type, name)),
{
    reveal_tags();
    timestamp_text_is_plain(moment);
}

/// Stored names sort by time: the name of an earlier upload sorts before
/// the name of a later one, whatever their kinds, roles and client names.
pub proof fn stored_names_sort_by_time(
    moment1: Moment,
    typ1: UploadType,
    file_type1: FileType,
    name1: Option<Seq<char>>,
    moment2: Moment,
    typ2: UploadType,
    file_type2: FileType,
    name2: Option<Seq<char>>,
)
    requires
        is_valid_moment(moment1),
        is_valid_moment(moment2),
        is_earlier(moment1, moment2),
    ensures
        sorts_before(
            mangled(timestamp_text(moment1), typ1, file_type1, name1),
            mangled(timestamp_text(moment2), typ2, file_type2, name2),
        ),
{
    let time1 = timestamp_text(moment1);
    let time2 = timestamp_text(moment2);
    mangled_begins_with_time(time1, typ1, file_type1, name1);
    mangled_begins_with_time(time2, typ2, file_type2, name2);
    timestamp_text_sorts_by_time(moment1, moment2);
    let at = choose|at: int| differs_first_at(time1, time2, at);
    differs_first_whatever_follows(
        time1,
        time2,
        name_after_time(typ1, file_type1, name1),
        name_after_time(typ2, file_type2, name2),
        at,
    );
}

impl UploadType {
    pub fn name(self) -> (text: &'static str)
        ensures
            text@ == upload_name(self),
    {
        match self {
            UploadType::Text => "text",
            UploadType::File => "file",
        }
    }

    pub fn as_file_suffix(self) -> (text: &'static str)
        ensures
            text@ == file_suffix(self),
    {
        match self {
            UploadType::Text => "text.txt",
            UploadType::File => "file.bin",
        }
    }

    /// The name as an owned string.
    pub fn to_string(self) -> (text: String)
        ensures
            text@ == upload_name(self),
    {
        self.name().to_owned()
    }
}

impl FileType {
    /// The label as an owned string.
    pub fn to_string(self) -> (text: String)
        ensures
            text@ == role_label(self),
    {
        match self {
            FileType::Payload => "payload".to_owned(),
            FileType::Metadata => "metadata".to_owned(),
        }
    }
}

/// The name under which an upload of the given moment is stored.
pub fn mangle_filename(
    now: Timestamp,
    typ: UploadType,
    file_type: FileType,
    name: Option<&str>,
) -> (res: String)
    ensures
        res@ == mangled(timestamp_text(now@), typ, file_type, opt_view(name)),
{
    let mut res = now.to_string();
    res.append("--");
    match name {
        Some(name) => {
            res.append(name);
            res.append("--");
        },
        None => {},
    }
    res.append(typ.as_file_suffix());
    res.append("--");
    res.append(file_type.to_string().as_str());
    assert(res@ =~= mangled(timestamp_text(now@), typ, file_type, opt_view(name)));
    res
}

} // verus!
