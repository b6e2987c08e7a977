//! Small text-building blocks: comparison of strings, decimal numbers and
//! padding, each with the character sequence it produces.

use vstd::prelude::*;
use vstd::utf8::{encode_utf8, encode_utf8_decode_utf8};

verus! {

/// Appends one character to a string.
///
/// Trusted: wraps `String::push`, which adds the given character at the end
/// and leaves what was there before unchanged.
#[verifier::external_body]
pub(crate) fn push_char(out: &mut String, c: char)
    ensures
        final(out)@ == old(out)@.push(c),
{
    out.push(c);
}

/// Whether two strings hold the same characters.
pub fn str_eq(a: &str, b: &str) -> (same: bool)
    ensures
        same == (a@ == b@),
{
    let x = a.as_bytes();
    let y = b.as_bytes();
    proof {
        encode_utf8_decode_utf8(a@);
        encode_utf8_decode_utf8(b@);
    }
    if x.len() != y.len() {
        return false;
    }
    let mut i: usize = 0;
    while i < x.len()
        invariant
            i <= x.len(),
            x.len() == y.len(),
            x@ == encode_utf8(a@),
            y@ == encode_utf8(b@),
            forall|k: int| 0 <= k < i ==> x@[k] == y@[k],
        decreases x.len() - i,
    {
        if x[i] != y[i] {
            return false;
        }
        i += 1;
    }
    assert(x@ =~= y@);
    true
}

/// The characters of each string.
pub open spec fn strings_view(strings: Seq<String>) -> Seq<Seq<char>> {
    Seq::new(strings.len(), |i: int| strings[i]@)
}

/// The character for one decimal digit.
pub open spec fn digit_char(d: nat) -> char
    recommends
        d < 10,
{
    ((48 + d) as u8) as char
}

/// A natural number in decimal, without sign or leading zeros.
pub open spec fn decimal(n: nat) -> Seq<char>
    decreases n,
{
    if n < 10 {
        seq![digit_char(n)]
    } else {
        decimal(n / 10).push(digit_char(n % 10))
    }
}

/// `count` copies of `fill`.
pub open spec fn filler(count: int, fill: char) -> Seq<char> {
    Seq::new(if count > 0 { count as nat } else { 0 }, |i: int| fill)
}

/// `s`, preceded by as many `fill` as bring it to `width` characters.
pub open spec fn pad_left(s: Seq<char>, width: nat, fill: char) -> Seq<char> {
    filler(width - s.len(), fill) + s
}

/// `s`, followed by as many `fill` as bring it to `width` characters.
pub open spec fn pad_right(s: Seq<char>, width: nat, fill: char) -> Seq<char> {
    s + filler(width - s.len(), fill)
}

/// A natural number in decimal, with leading zeros up to `width` digits.
pub open spec fn zero_padded(n: nat, width: nat) -> Seq<char> {
    pad_left(decimal(n), width, '0')
}

/// The number that a sequence of decimal digits writes.
pub open spec fn number_of(digits: Seq<char>) -> int
    decreases digits.len(),
{
    if digits.len() == 0 {
        0
    } else {
        number_of(digits.drop_last()) * 10 + (digits.last() as int - 48)
    }
}

/// Ten to the power of `e`.
pub open spec fn pow10(e: nat) -> nat
    decreases e,
{
    if e == 0 {
        1
    } else {
        10 * pow10((e - 1) as nat)
    }
}

/// A number written in decimal reads back as itself.
pub proof fn decimal_reads_back(n: nat)
    ensures
        number_of(decimal(n)) == n,
    decreases n,
{
    if n < 10 {
        assert(decimal(n).drop_last() =~= Seq::<char>::empty());
        assert(number_of(decimal(n).drop_last()) == 0);
    } else {
        decimal_reads_back(n / 10);
        assert(decimal(n).drop_last() =~= decimal(n / 10));
    }
}

/// Leading zeros do not change what the digits write.
pub proof fn leading_zeros_read_as_nothing(count: int, digits: Seq<char>)
    ensures
        number_of(filler(count, '0') + digits) == number_of(digits),
    decreases digits.len(), count,
{
    let all = filler(count, '0') + digits;
    if digits.len() > 0 {
        leading_zeros_read_as_nothing(count, digits.drop_last());
        assert(all.drop_last() =~= filler(count, '0') + digits.drop_last());
    } else if count > 0 {
        leading_zeros_read_as_nothing(count - 1, digits);
        assert(all.drop_last() =~= filler(count - 1, '0') + digits);
    } else {
        assert(all =~= Seq::<char>::empty());
    }
}

/// A number written with leading zeros reads back as itself, so that two
/// numbers with the same text are the same number.
pub proof fn zero_padded_reads_back(n: nat, width: nat)
    ensures
        number_of(zero_padded(n, width)) == n,
{
    leading_zeros_read_as_nothing(width - decimal(n).len(), decimal(n));
    decimal_reads_back(n);
}

/// A number below ten to the `width` has at most `width` digits, so that
/// with leading zeros it has exactly `width`.
pub proof fn zero_padded_has_width(n: nat, width: nat)
    requires
        width >= 1,
        n < pow10(width),
    ensures
        1 <= decimal(n).len() <= width,
        zero_padded(n, width).len() == width,
    decreases width,
{
    if n >= 10 {
        assert(pow10(1) == 10) by {
            reveal_with_fuel(pow10, 2);
        }
        zero_padded_has_width(n / 10, (width - 1) as nat);
    }
}

/// Whether a character is free of meaning in a path: no separator and not
/// the NUL character.
pub open spec fn is_plain_char(c: char) -> bool {
    c != '/' && c != '\\' && c != '\0'
}

/// Whether a text can stand as one segment of a path, as far as its
/// characters go.
pub open spec fn is_plain(s: Seq<char>) -> bool {
    forall|i: int| 0 <= i < s.len() ==> is_plain_char(#[trigger] s[i])
}

/// A number written with leading zeros holds digits only.
pub proof fn zero_padded_is_plain(n: nat, width: nat)
    ensures
        is_plain(zero_padded(n, width)),
{
    decimal_is_plain(n);
}

proof fn decimal_is_plain(n: nat)
    ensures
        is_plain(decimal(n)),
    decreases n,
{
    if n >= 10 {
        decimal_is_plain(n / 10);
    }
}

/// Whether `a` and `b` agree before the place `at`, where `a` has the
/// smaller character.
pub open spec fn differs_first_at(a: Seq<char>, b: Seq<char>, at: int) -> bool {
    &&& 0 <= at < a.len()
    &&& at < b.len()
    &&& a.subrange(0, at) == b.subrange(0, at)
    &&& a[at] < b[at]
}

/// Whether `a` sorts before `b`, character by character: at the first
/// place where they differ `a` has the smaller character, or `a` ends
/// where `b` goes on.
pub open spec fn sorts_before(a: Seq<char>, b: Seq<char>) -> bool {
    ||| exists|at: int| differs_first_at(a, b, at)
    ||| (a.len() < b.len() && b.subrange(0, a.len() as int) == a)
}

/// With leading zeros up to `width` digits, the last digit of a number
/// follows the text of its tenth.
proof fn zero_padded_ends_with_last_digit(n: nat, width: nat)
    requires
        width >= 2,
        n < pow10(width),
    ensures
        zero_padded(n, width) == zero_padded(n / 10, (width - 1) as nat).push(digit_char(n % 10)),
{
    zero_padded_has_width(n, width);
    zero_padded_has_width(n / 10, (width - 1) as nat);
    assert(zero_padded(n, width) =~= zero_padded(n / 10, (width - 1) as nat).push(
        digit_char(n % 10),
    ));
}

/// Numbers written with leading zeros to the same width sort as the
/// numbers do: the smaller number has the smaller digit at the first place
/// where the texts differ.
pub proof fn zero_padded_keeps_order(x: nat, y: nat, width: nat)
    requires
        width >= 1,
        x < y < pow10(width),
    ensures
        zero_padded(x, width).len() == width,
        zero_padded(y, width).len() == width,
        exists|at: int| differs_first_at(zero_padded(x, width), zero_padded(y, width), at),
    decreases width,
{
    let a = zero_padded(x, width);
    let b = zero_padded(y, width);
    zero_padded_has_width(x, width);
    zero_padded_has_width(y, width);
    if width == 1 {
        assert(pow10(1) == 10) by {
            reveal_with_fuel(pow10, 2);
        }
        assert(a =~= seq![digit_char(x)]);
        assert(b =~= seq![digit_char(y)]);
        assert(a.subrange(0, 0) =~= b.subrange(0, 0));
        assert(differs_first_at(a, b, 0));
    } else {
        let shorter = (width - 1) as nat;
        zero_padded_ends_with_last_digit(x, width);
        zero_padded_ends_with_last_digit(y, width);
        let a_front = zero_padded(x / 10, shorter);
        let b_front = zero_padded(y / 10, shorter);
        zero_padded_has_width(x / 10, shorter);
        zero_padded_has_width(y / 10, shorter);
        if x / 10 < y / 10 {
            zero_padded_keeps_order(x / 10, y / 10, shorter);
            let at = choose|at: int| differs_first_at(a_front, b_front, at);
            assert(a.subrange(0, at) =~= a_front.subrange(0, at));
            assert(b.subrange(0, at) =~= b_front.subrange(0, at));
            assert(differs_first_at(a, b, at));
        } else {
            assert(x / 10 == y / 10);
            let at = width - 1;
            assert(a.subrange(0, at) =~= a_front);
            assert(b.subrange(0, at) =~= b_front);
            assert(differs_first_at(a, b, at));
        }
    }
}

/// Texts of one length that agree up to a field and differ first inside
/// it differ first at that place of the whole.
pub proof fn differs_first_inside_field(
    a: Seq<char>,
    b: Seq<char>,
    start: int,
    end: int,
    at: int,
)
    requires
        0 <= start <= end <= a.len(),
        a.len() == b.len(),
        a.subrange(0, start) == b.subrange(0, start),
        differs_first_at(a.subrange(start, end), b.subrange(start, end), at),
    ensures
        differs_first_at(a, b, start + at),
{
    let field1 = a.subrange(start, end);
    let field2 = b.subrange(start, end);
    let head1 = a.subrange(0, start);
    let head2 = b.subrange(0, start);
    let same1 = field1.subrange(0, at);
    let same2 = field2.subrange(0, at);
    assert forall|i: int| 0 <= i < start + at implies a[i] == b[i] by {
        if i < start {
            assert(head1[i] == a[i]);
            assert(head2[i] == b[i]);
        } else {
            let j = i - start;
            assert(same1[j] == field1[j]);
            assert(same2[j] == field2[j]);
            assert(field1[j] == a[i]);
            assert(field2[j] == b[i]);
        }
    }
    assert(a.subrange(0, start + at) =~= b.subrange(0, start + at));
    assert(a[start + at] == field1[at]);
    assert(b[start + at] == field2[at]);
}

/// Texts that differ first at some place keep doing so, whatever follows
/// them.
pub proof fn differs_first_whatever_follows(
    a: Seq<char>,
    b: Seq<char>,
    after_a: Seq<char>,
    after_b: Seq<char>,
    at: int,
)
    requires
        differs_first_at(a, b, at),
    ensures
        differs_first_at(a + after_a, b + after_b, at),
{
    assert((a + after_a).subrange(0, at) =~= a.subrange(0, at));
    assert((b + after_b).subrange(0, at) =~= b.subrange(0, at));
}

/// Appends `n` in decimal.
pub fn push_decimal(out: &mut String, n: u128)
    ensures
        final(out)@ == old(out)@ + decimal(n as nat),
    decreases n,
{
    if n >= 10 {
        push_decimal(out, n / 10);
    }
    let d: u8 = (n % 10) as u8;
    push_char(out, (48u8 + d) as char);
    assert(out@ =~= old(out)@ + decimal(n as nat));
}

/// Appends `count` copies of `fill`.
pub fn push_fill(out: &mut String, count: usize, fill: char)
    ensures
        final(out)@ == old(out)@ + filler(count as int, fill),
{
    let mut i: usize = 0;
    while i < count
        invariant
            i <= count,
            out@ == old(out)@ + filler(i as int, fill),
        decreases count - i,
    {
        push_char(out, fill);
        i += 1;
        assert(out@ =~= old(out)@ + filler(i as int, fill));
    }
}

/// Appends `s`, left-aligned in a field of `width` characters.
pub fn push_left_aligned(out: &mut String, s: &str, width: usize)
    ensures
        final(out)@ == old(out)@ + pad_right(s@, width as nat, ' '),
{
    let len = s.unicode_len();
    out.append(s);
    if len < width {
        push_fill(out, width - len, ' ');
    } else {
        assert(filler(width - s@.len(), ' ') =~= Seq::<char>::empty());
    }
    assert(out@ =~= old(out)@ + pad_right(s@, width as nat, ' '));
}

/// Appends `n` in decimal, right-aligned in a field of `width` characters.
pub fn push_right_aligned(out: &mut String, n: u128, width: usize)
    ensures
        final(out)@ == old(out)@ + pad_left(decimal(n as nat), width as nat, ' '),
{
    let mut digits = String::new();
    push_decimal(&mut digits, n);
    assert(digits@ =~= decimal(n as nat));
    let len = digits.as_str().unicode_len();
    if len < width {
        push_fill(out, width - len, ' ');
    } else {
        assert(filler(width - digits@.len(), ' ') =~= Seq::<char>::empty());
    }
    out.append(digits.as_str());
    assert(out@ =~= old(out)@ + pad_left(decimal(n as nat), width as nat, ' '));
}

} // verus!
