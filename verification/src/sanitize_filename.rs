//! Restricting an untrusted file name to a safe set of characters.

use vstd::prelude::*;

use vstd::utf8::encode_utf8;

use crate::text::{is_plain, push_char};

verus! {

/// The bytes a sanitized name may hold: ASCII letters, digits, `.` and `_`.
pub open spec fn is_valid_byte(c: u8) -> bool {
    ||| 0x61 <= c <= 0x7a
    ||| 0x41 <= c <= 0x5a
    ||| 0x30 <= c <= 0x39
    ||| c == 0x2e
    ||| c == 0x5f
}

/// The sanitized form of a byte sequence: every valid byte stays, and of
/// every run of other bytes only the first leaves a trace, a single `_`.
pub open spec fn sanitized(s: Seq<u8>) -> Seq<u8>
    decreases s.len(),
{
    if s.len() == 0 {
        Seq::empty()
    } else if is_valid_byte(s.last()) {
        sanitized(s.drop_last()).push(s.last())
    } else if s.len() >= 2 && !is_valid_byte(s[s.len() - 2]) {
        sanitized(s.drop_last())
    } else {
        sanitized(s.drop_last()).push(0x5f)
    }
}

/// Bytes read as characters, one for one.
pub open spec fn as_chars(bytes: Seq<u8>) -> Seq<char> {
    Seq::new(bytes.len(), |i: int| bytes[i] as char)
}

/// Whether every byte of `s` is valid.
pub open spec fn all_valid(s: Seq<u8>) -> bool {
    forall|i: int| 0 <= i < s.len() ==> is_valid_byte(#[trigger] s[i])
}

/// Whether no byte of `s` is valid.
pub open spec fn none_valid(s: Seq<u8>) -> bool {
    forall|i: int| 0 <= i < s.len() ==> !is_valid_byte(#[trigger] s[i])
}

/// A sanitized name holds valid bytes only.
pub proof fn sanitized_is_clean(s: Seq<u8>)
    ensures
        all_valid(sanitized(s)),
    decreases s.len(),
{
    if s.len() > 0 {
        sanitized_is_clean(s.drop_last());
    }
}

/// A sanitized name is never longer than the name it came from, and the
/// empty name stays empty.
pub proof fn sanitized_is_no_longer(s: Seq<u8>)
    ensures
        sanitized(s).len() <= s.len(),
        s.len() == 0 ==> sanitized(s) == Seq::<u8>::empty(),
    decreases s.len(),
{
    if s.len() > 0 {
        sanitized_is_no_longer(s.drop_last());
    }
}

/// A name made of valid bytes only is its own sanitized form.
pub proof fn sanitized_keeps_clean_input(s: Seq<u8>)
    requires
        all_valid(s),
    ensures
        sanitized(s) == s,
    decreases s.len(),
{
    if s.len() > 0 {
        sanitized_keeps_clean_input(s.drop_last());
        assert(s.drop_last().push(s.last()) =~= s);
    }
}

/// Sanitizing twice changes nothing more.
pub proof fn sanitized_is_idempotent(s: Seq<u8>)
    ensures
        sanitized(sanitized(s)) == sanitized(s),
{
    sanitized_is_clean(s);
    sanitized_keeps_clean_input(sanitized(s));
}

/// Two pieces can be sanitized apart wherever no run of invalid bytes
/// reaches across the cut.
pub proof fn sanitized_splits_between_runs(x: Seq<u8>, y: Seq<u8>)
    requires
        x.len() == 0 || y.len() == 0 || is_valid_byte(x.last()) || is_valid_byte(y[0]),
    ensures
        sanitized(x + y) == sanitized(x) + sanitized(y),
    decreases y.len(),
{
    if y.len() == 0 {
        assert(x + y =~= x);
        assert(sanitized(x) + sanitized(y) =~= sanitized(x));
    } else {
        let front = y.drop_last();
        assert((x + y).drop_last() =~= x + front);
        assert((x + y).last() == y.last());
        if front.len() == 0 {
            assert(x + front =~= x);
            assert(sanitized(front) =~= Seq::<u8>::empty());
            if x.len() > 0 {
                assert((x + y)[(x + y).len() - 2] == x.last());
            }
        } else {
            sanitized_splits_between_runs(x, front);
            assert((x + y)[(x + y).len() - 2] == y[y.len() - 2]);
        }
        assert(sanitized(x + y) =~= sanitized(x) + sanitized(y));
    }
}

/// A run of invalid bytes alone becomes one `_`.
pub proof fn sanitized_run_is_one_underscore(run: Seq<u8>)
    requires
        run.len() > 0,
        none_valid(run),
    ensures
        sanitized(run) == seq![0x5fu8],
    decreases run.len(),
{
    if run.len() == 1 {
        assert(sanitized(run.drop_last()) =~= Seq::<u8>::empty());
        assert(sanitized(run) =~= seq![0x5fu8]);
    } else {
        sanitized_run_is_one_underscore(run.drop_last());
        assert(run.drop_last()[run.len() - 2] == run[run.len() - 2]);
    }
}

/// A maximal run of invalid bytes, wherever it stands, collapses to exactly
/// one `_`: what precedes and what follows it is sanitized on its own.
pub proof fn sanitized_collapses_each_run(before: Seq<u8>, run: Seq<u8>, after: Seq<u8>)
    requires
        run.len() > 0,
        none_valid(run),
        before.len() == 0 || is_valid_byte(before.last()),
        after.len() == 0 || is_valid_byte(after[0]),
    ensures
        sanitized(before + run + after) == sanitized(before) + seq![0x5fu8] + sanitized(after),
{
    sanitized_splits_between_runs(before + run, after);
    sanitized_splits_between_runs(before, run);
    sanitized_run_is_one_underscore(run);
}

/// A sanitized name holds no path separator, whatever the name it came
/// from.
pub proof fn sanitized_is_plain(s: Seq<u8>)
    ensures
        is_plain(as_chars(sanitized(s))),
{
    sanitized_is_clean(s);
}

/// Whether the scan has just copied a byte or is inside a run of invalid
/// ones.
enum State {
    Passed,
    Skipped,
}

pub fn is_byte_valid_char(c: u8) -> (valid: bool)
    ensures
        valid == is_valid_byte(c),
{
    if 0x61 <= c && c <= 0x7a {
        return true;
    }
    if 0x41 <= c && c <= 0x5a {
        return true;
    }
    if 0x30 <= c && c <= 0x39 {
        return true;
    }
    if c == 0x2e || c == 0x5f {
        return true;
    }
    false
}

/// Sanitizes a file name, byte by byte: the result holds only ASCII
/// letters, digits, `.` and `_`, and is no longer than the input in bytes.
pub fn sanitize_filename(filename: &str) -> (res: String)
    ensures
        res@ == as_chars(sanitized(encode_utf8(filename@))),
        all_valid(sanitized(encode_utf8(filename@))),
        res@.len() <= encode_utf8(filename@).len(),
{
    let bytes = filename.as_bytes();
    let mut out = String::new();
    let mut state = State::Passed;
    let mut i: usize = 0;
    assert(bytes@.take(0) =~= Seq::<u8>::empty());
    assert(out@ =~= as_chars(sanitized(bytes@.take(0))));
    while i < bytes.len()
        invariant
            i <= bytes.len(),
            out@ == as_chars(sanitized(bytes@.take(i as int))),
            (state is Skipped) == (i > 0 && !is_valid_byte(bytes@[i - 1])),
        decreases bytes.len() - i,
    {
        let c = bytes[i];
        let ghost seen = bytes@.take(i as int);
        let ghost next = bytes@.take(i + 1);
        assert(next.drop_last() =~= seen);
        assert(next.last() == c);
        if is_byte_valid_char(c) {
            push_char(&mut out, c as char);
            state = State::Passed;
        } else {
            match state {
                State::Passed => {
                    state = State::Skipped;
                    push_char(&mut out, '_');
                },
                State::Skipped => {
                    assert(next[next.len() - 2] == bytes@[i - 1]);
                },
            }
        }
        i += 1;
        assert(out@ =~= as_chars(sanitized(next)));
    }
    assert(bytes@.take(i as int) =~= bytes@);
    proof {
        sanitized_is_clean(bytes@);
        sanitized_is_no_longer(bytes@);
    }
    out
}

} // verus!
