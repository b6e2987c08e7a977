//! Serving the embedded assets: the content type of a file name and the
//! substitution of a placeholder in a template.

use vstd::prelude::*;
use vstd::utf8::{
    decode_utf8, decode_utf8_split, encode_utf8, encode_utf8_decode_utf8, encode_utf8_valid_utf8,
    is_ascii_chars, is_ascii_chars_encode_utf8, is_char_boundary_iff_not_is_continuation_byte,
};

verus! {

/// Whether `s` ends with `tail`.
pub open spec fn ends_with(s: Seq<u8>, tail: Seq<u8>) -> bool {
    tail.len() <= s.len() && s.subrange(s.len() - tail.len(), s.len() as int) == tail
}

/// Whether `s` begins with `head`.
pub open spec fn starts_with(s: Seq<u8>, head: Seq<u8>) -> bool {
    head.len() <= s.len() && s.subrange(0, head.len() as int) == head
}

/// Whether the characters of `name` end with those of `suffix`.
pub open spec fn has_suffix(name: Seq<char>, suffix: Seq<char>) -> bool {
    suffix.len() <= name.len() && name.subrange(name.len() - suffix.len(), name.len() as int)
        == suffix
}

/// The content type that goes with a file name, by its extension alone:
/// `css`, `js` and `html` have their own, everything else, and a name
/// without extension, is plain text.
pub open spec fn content_type_of(name: Seq<char>) -> Seq<char> {
    if has_suffix(name, ".css"@) {
        "text/css"@
    } else if has_suffix(name, ".js"@) {
        "text/javascript"@
    } else if has_suffix(name, ".html"@) {
        "text/html"@
    } else {
        "text/plain"@
    }
}

/// The UTF-8 form of a text in two pieces is the UTF-8 form of the one
/// followed by that of the other.
proof fn utf8_of_pieces(a: Seq<char>, b: Seq<char>)
    ensures
        encode_utf8(a + b) == encode_utf8(a) + encode_utf8(b),
    decreases a.len(),
{
    if a.len() == 0 {
        assert(a + b =~= b);
        assert(encode_utf8(a) + encode_utf8(b) =~= encode_utf8(b));
    } else {
        utf8_of_pieces(a.drop_first(), b);
        assert((a + b).drop_first() =~= a.drop_first() + b);
        assert((a + b)[0] == a[0]);
        assert(encode_utf8(a + b) =~= encode_utf8(a) + encode_utf8(b));
    }
}

/// A name ends with an ASCII suffix exactly if its UTF-8 form ends with
/// the bytes of that suffix.
pub proof fn suffix_shows_in_utf8(name: Seq<char>, suffix: Seq<char>)
    requires
        suffix.len() > 0,
        is_ascii_chars(suffix),
    ensures
        has_suffix(name, suffix) <==> ends_with(encode_utf8(name), encode_utf8(suffix)),
{
    let bytes = encode_utf8(name);
    let tail = encode_utf8(suffix);
    is_ascii_chars_encode_utf8(suffix);
    if has_suffix(name, suffix) {
        let stem = name.subrange(0, name.len() - suffix.len());
        assert(name =~= stem + suffix);
        utf8_of_pieces(stem, suffix);
        assert(bytes.subrange(bytes.len() - tail.len(), bytes.len() as int) =~= tail);
    }
    if ends_with(bytes, tail) {
        let cut = bytes.len() - tail.len();
        encode_utf8_valid_utf8(name);
        assert(bytes[cut] == tail[0]);
        assert(tail[0] == suffix[0] as u8);
        is_char_boundary_iff_not_is_continuation_byte(bytes, cut);
        decode_utf8_split(bytes, cut);
        encode_utf8_decode_utf8(name);
        encode_utf8_decode_utf8(suffix);
        let stem = decode_utf8(bytes.subrange(0, cut));
        assert(name =~= stem + suffix);
        assert(name.subrange(name.len() - suffix.len(), name.len() as int) =~= suffix);
    }
}

/// `content` with every occurrence of `pattern` replaced by `replacement`,
/// found from the left and never overlapping. An empty pattern occurs
/// before every byte and at the end.
pub open spec fn replaced(content: Seq<u8>, pattern: Seq<u8>, replacement: Seq<u8>) -> Seq<u8>
    decreases content.len(),
{
    if content.len() == 0 {
        if pattern.len() == 0 {
            replacement
        } else {
            content
        }
    } else if pattern.len() == 0 {
        replacement + seq![content[0]] + replaced(content.skip(1), pattern, replacement)
    } else if starts_with(content, pattern) {
        replacement + replaced(content.skip(pattern.len() as int), pattern, replacement)
    } else {
        seq![content[0]] + replaced(content.skip(1), pattern, replacement)
    }
}

/// Whether `pattern` occurs in `content` at `at`.
pub open spec fn occurs_at(content: Seq<u8>, pattern: Seq<u8>, at: int) -> bool {
    0 <= at <= content.len() && starts_with(content.skip(at), pattern)
}

/// Content without any occurrence of the pattern is left as it is.
pub proof fn replaced_keeps_content_without_pattern(
    content: Seq<u8>,
    pattern: Seq<u8>,
    replacement: Seq<u8>,
)
    requires
        pattern.len() > 0,
        forall|at: int| 0 <= at <= content.len() ==> !occurs_at(content, pattern, at),
    ensures
        replaced(content, pattern, replacement) == content,
    decreases content.len(),
{
    if content.len() > 0 {
        assert(!occurs_at(content, pattern, 0));
        assert(content.skip(0) =~= content);
        let rest = content.skip(1);
        assert forall|at: int| 0 <= at <= rest.len() implies !occurs_at(rest, pattern, at) by {
            assert(!occurs_at(content, pattern, at + 1));
            assert(rest.skip(at) =~= content.skip(at + 1));
        }
        replaced_keeps_content_without_pattern(rest, pattern, replacement);
        assert(seq![content[0]] + rest =~= content);
    }
}

/// Every occurrence is replaced: up to the first occurrence the content
/// stays, the occurrence gives way to the replacement, and what follows it
/// is treated in the same way.
pub proof fn replaced_at_first_occurrence(
    before: Seq<u8>,
    pattern: Seq<u8>,
    replacement: Seq<u8>,
    after: Seq<u8>,
)
    requires
        pattern.len() > 0,
        forall|at: int|
            0 <= at < before.len() ==> !occurs_at(before + pattern + after, pattern, at),
    ensures
        replaced(before + pattern + after, pattern, replacement) == before + replacement
            + replaced(after, pattern, replacement),
    decreases before.len(),
{
    let content = before + pattern + after;
    if before.len() == 0 {
        assert(content.subrange(0, pattern.len() as int) =~= pattern);
        assert(content.skip(pattern.len() as int) =~= after);
        assert(before + replacement + replaced(after, pattern, replacement) =~= replacement
            + replaced(after, pattern, replacement));
    } else {
        assert(!occurs_at(content, pattern, 0));
        assert(content.skip(0) =~= content);
        let rest = before.skip(1);
        assert(content.skip(1) =~= rest + pattern + after);
        assert forall|at: int| 0 <= at < rest.len() implies !occurs_at(
            rest + pattern + after,
            pattern,
            at,
        ) by {
            assert(!occurs_at(content, pattern, at + 1));
            assert((rest + pattern + after).skip(at) =~= content.skip(at + 1));
        }
        replaced_at_first_occurrence(rest, pattern, replacement, after);
        assert(content[0] == before[0]);
        assert(seq![before[0]] + (rest + replacement + replaced(after, pattern, replacement))
            =~= before + replacement + replaced(after, pattern, replacement));
    }
}

/// Whether `s` ends with `tail`.
fn bytes_end_with(s: &[u8], tail: &[u8]) -> (res: bool)
    ensures
        res == ends_with(s@, tail@),
{
    if tail.len() > s.len() {
        return false;
    }
    let start = s.len() - tail.len();
    let mut i: usize = 0;
    while i < tail.len()
        invariant
            i <= tail.len(),
            start + tail.len() == s.len(),
            forall|k: int| 0 <= k < i ==> s@[start + k] == tail@[k],
        decreases tail.len() - i,
    {
        if s[start + i] != tail[i] {
            assert(s@.subrange(s.len() - tail.len(), s.len() as int)[i as int] != tail@[i as int]);
            return false;
        }
        i += 1;
    }
    assert(s@.subrange(s.len() - tail.len(), s.len() as int) =~= tail@);
    true
}

/// Whether `pattern` stands in `content` at `at`.
fn bytes_match_at(content: &[u8], at: usize, pattern: &[u8]) -> (res: bool)
    requires
        at <= content.len(),
    ensures
        res == occurs_at(content@, pattern@, at as int),
{
    if pattern.len() > content.len() - at {
        return false;
    }
    let ghost rest = content@.skip(at as int);
    let mut i: usize = 0;
    while i < pattern.len()
        invariant
            i <= pattern.len(),
            at + pattern.len() <= content.len(),
            rest == content@.skip(at as int),
            forall|k: int| 0 <= k < i ==> content@[at + k] == pattern@[k],
        decreases pattern.len() - i,
    {
        if content[at + i] != pattern[i] {
            assert(rest.subrange(0, pattern.len() as int)[i as int] != pattern@[i as int]);
            return false;
        }
        i += 1;
    }
    assert(rest.subrange(0, pattern.len() as int) =~= pattern@);
    true
}

pub fn filename_to_content_type(filename: &str) -> (content_type: &'static str)
    ensures
        content_type@ == content_type_of(filename@),
{
    let name = filename.as_bytes();
    proof {
        reveal_strlit(".css");
        reveal_strlit(".js");
        reveal_strlit(".html");
        suffix_shows_in_utf8(filename@, ".css"@);
        suffix_shows_in_utf8(filename@, ".js"@);
        suffix_shows_in_utf8(filename@, ".html"@);
    }
    if bytes_end_with(name, ".css".as_bytes()) {
        "text/css"
    } else if bytes_end_with(name, ".js".as_bytes()) {
        "text/javascript"
    } else if bytes_end_with(name, ".html".as_bytes()) {
        "text/html"
    } else {
        "text/plain"
    }
}

/// Replaces every occurrence of `search_for` in `content` by
/// `replace_with`, byte for byte.
pub fn search_and_replace(content: Vec<u8>, search_for: &[u8], replace_with: &[u8]) -> (res: Vec<
    u8,
>)
    ensures
        res@ == replaced(content@, search_for@, replace_with@),
{
    let mut out: Vec<u8> = Vec::new();
    let mut i: usize = 0;
    assert(content@.skip(0) =~= content@);
    assert(out@ + replaced(content@, search_for@, replace_with@) =~= replaced(
        content@,
        search_for@,
        replace_with@,
    ));
    while i < content.len()
        invariant
            i <= content.len(),
            replaced(content@, search_for@, replace_with@) == out@ + replaced(
                content@.skip(i as int),
                search_for@,
                replace_with@,
            ),
        decreases content.len() - i,
    {
        let ghost rest = content@.skip(i as int);
        let ghost done = out@;
        assert(rest[0] == content@[i as int]);
        if search_for.len() == 0 {
            out.extend_from_slice(replace_with);
            out.push(content[i]);
            assert(rest.skip(1) =~= content@.skip(i + 1));
            i += 1;
            assert(out@ + replaced(content@.skip(i as int), search_for@, replace_with@) =~= done
                + replaced(rest, search_for@, replace_with@));
        } else if bytes_match_at(content.as_slice(), i, search_for) {
            out.extend_from_slice(replace_with);
            assert(rest.skip(search_for.len() as int) =~= content@.skip(i + search_for.len()));
            i += search_for.len();
            assert(out@ + replaced(content@.skip(i as int), search_for@, replace_with@) =~= done
                + replaced(rest, search_for@, replace_with@));
        } else {
            out.push(content[i]);
            assert(rest.skip(1) =~= content@.skip(i + 1));
            i += 1;
            assert(out@ + replaced(content@.skip(i as int), search_for@, replace_with@) =~= done
                + replaced(rest, search_for@, replace_with@));
        }
    }
    assert(content@.skip(i as int).len() == 0);
    if search_for.len() == 0 {
        out.extend_from_slice(replace_with);
    }
    assert(out@ =~= replaced(content@, search_for@, replace_with@));
    out
}

} // verus!
