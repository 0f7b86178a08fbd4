//! Text: numerals, and the conversions between text and bytes or 16-bit units.
use vstd::prelude::*;
use vstd::string::StringExecFns;
use vstd::utf8::{
    char_is_scalar, decode_utf8, encode_utf8, encode_utf8_decode_utf8, encode_utf8_valid_utf8,
    valid_utf8,
};

verus! {

/// `String::push` appends one character.
pub assume_specification[ std::string::String::push ](s: &mut std::string::String, c: char)
    ensures
        final(s)@ == old(s)@.push(c),
;

/// The text that `String::from_utf8_lossy` makes of the bytes.
pub uninterp spec fn utf8_lossy_text(bytes: Seq<u8>) -> Seq<char>;

/// The text of the bytes: the characters that they encode, where they are valid UTF-8.
pub open spec fn utf8_text(bytes: Seq<u8>) -> Seq<char> {
    if valid_utf8(bytes) {
        decode_utf8(bytes)
    } else {
        utf8_lossy_text(bytes)
    }
}

/// `String::from_utf8_lossy` decodes UTF-8. Its text depends on the bytes alone, and valid UTF-8
/// decodes to the characters that it encodes. What stands in place of invalid bytes is left
/// unsaid.
#[verifier::external_body]
pub(crate) fn utf8_lossy(bytes: &[u8]) -> (s: String)
    ensures
        s@ == utf8_lossy_text(bytes@),
        valid_utf8(bytes@) ==> s@ == decode_utf8(bytes@),
{
    String::from_utf8_lossy(bytes).into_owned()
}

/// The text without the characters `c` at its end.
pub open spec fn without_trailing(s: Seq<char>, c: char) -> Seq<char>
    decreases s.len(),
{
    if s.len() > 0 && s.last() == c {
        without_trailing(s.drop_last(), c)
    } else {
        s
    }
}

/// `str::trim_end_matches`, given a character, removes it from the end as often as it occurs
/// there.
#[verifier::external_body]
pub(crate) fn trim_end_matches(s: &str, c: char) -> (r: &str)
    ensures
        r@ == without_trailing(s@, c),
{
    s.trim_end_matches(c)
}

/// Whether `part` occurs in `s`.
pub open spec fn has_part(s: Seq<char>, part: Seq<char>) -> bool {
    exists|i: int|
        0 <= i && i + part.len() <= s.len() && #[trigger] s.subrange(i, i + part.len()) == part
}

/// `str::contains`, given a string, tells whether it occurs in the text.
#[verifier::external_body]
pub(crate) fn contains(s: &str, part: &str) -> (r: bool)
    ensures
        r == has_part(s@, part@),
{
    s.contains(part)
}

/// The UTF-16 units of a character: the character itself, or a high and a low surrogate.
pub open spec fn utf16_units(c: char) -> Seq<u16> {
    let n = c as int;
    if n < 0x1_0000 {
        seq![n as u16]
    } else {
        seq![(0xd800 + (n - 0x1_0000) / 0x400) as u16, (0xdc00 + (n - 0x1_0000) % 0x400) as u16]
    }
}

/// The UTF-16 units of a text.
pub open spec fn utf16(s: Seq<char>) -> Seq<u16>
    decreases s.len(),
{
    if s.len() == 0 {
        seq![]
    } else {
        utf16(s.drop_last()) + utf16_units(s.last())
    }
}

/// `str::encode_utf16` yields the UTF-16 units of the text.
#[verifier::external_body]
pub(crate) fn encode_utf16(s: &str) -> (units: Vec<u16>)
    ensures
        units@ == utf16(s@),
{
    s.encode_utf16().collect()
}

/// Whether the unit is the first or the second half of a pair.
pub open spec fn is_surrogate(unit: u16) -> bool {
    0xd800 <= unit < 0xe000
}

/// Whether the units begin with a high surrogate and a low one.
pub open spec fn begins_with_pair(units: Seq<u16>) -> bool {
    units.len() >= 2 && 0xd800 <= units[0] < 0xdc00 && 0xdc00 <= units[1] < 0xe000
}

/// The text of UTF-16 units, with the replacement character for each unpaired surrogate.
pub open spec fn utf16_text(units: Seq<u16>) -> Seq<char>
    decreases units.len(),
{
    if units.len() == 0 {
        seq![]
    } else if begins_with_pair(units) {
        let c = 0x1_0000 + 0x400 * (units[0] - 0xd800) + (units[1] - 0xdc00);
        seq![c as char] + utf16_text(units.skip(2))
    } else if is_surrogate(units[0]) {
        seq!['\u{fffd}'] + utf16_text(units.skip(1))
    } else {
        seq![units[0] as char] + utf16_text(units.skip(1))
    }
}

/// `String::from_utf16_lossy` decodes UTF-16: a unit that is no surrogate to its character, a pair
/// of surrogates to theirs, and an unpaired surrogate to the replacement character.
#[verifier::external_body]
pub(crate) fn utf16_lossy(units: &[u16]) -> (s: String)
    ensures
        s@ == utf16_text(units@),
{
    String::from_utf16_lossy(units)
}

/// The units of a character decode to it, and what follows them decodes on its own.
proof fn lemma_first_char(c: char, tail: Seq<u16>)
    ensures
        utf16_text(utf16_units(c) + tail) == seq![c] + utf16_text(tail),
{
    char_is_scalar(c);
    let units = utf16_units(c) + tail;
    if (c as int) < 0x1_0000 {
        assert(units[0] == c as int);
        assert(units.skip(1) =~= tail);
    } else {
        assert(units[0] == utf16_units(c)[0] && units[1] == utf16_units(c)[1]);
        assert(begins_with_pair(units));
        assert(c as int == 0x1_0000 + 0x400 * (units[0] - 0xd800) + (units[1] - 0xdc00));
        assert(units.skip(2) =~= tail);
    }
}

/// The units of a text decode to it, and what follows them decodes on its own.
pub proof fn utf16_prefix_decodes(s: Seq<char>, tail: Seq<u16>)
    ensures
        utf16_text(utf16(s) + tail) == s + utf16_text(tail),
    decreases s.len(),
{
    if s.len() == 0 {
        assert(utf16(s) + tail =~= tail);
        assert(s + utf16_text(tail) =~= utf16_text(tail));
    } else {
        let behind = utf16_units(s.last()) + tail;
        utf16_prefix_decodes(s.drop_last(), behind);
        lemma_first_char(s.last(), tail);
        assert(utf16(s) + tail =~= utf16(s.drop_last()) + behind);
        assert(s + utf16_text(tail) =~= s.drop_last() + (seq![s.last()] + utf16_text(tail)));
    }
}

/// The units of a text decode to that text.
pub proof fn utf16_round_trip(s: Seq<char>)
    ensures
        utf16_text(utf16(s)) == s,
{
    let none: Seq<u16> = seq![];
    utf16_prefix_decodes(s, none);
    assert(utf16(s) + none =~= utf16(s));
    assert(s + utf16_text(none) =~= s);
}

/// Two texts with the same UTF-16 units are the same.
pub proof fn utf16_injective(s: Seq<char>, t: Seq<char>)
    requires
        utf16(s) == utf16(t),
    ensures
        s == t,
{
    utf16_round_trip(s);
    utf16_round_trip(t);
}

/// The decimal digit `d`.
pub open spec fn decimal_digit(d: nat) -> char {
    (48 + d) as char
}

/// The decimal numeral of `n`.
pub open spec fn decimal(n: nat) -> Seq<char>
    decreases n,
{
    if n < 10 {
        seq![decimal_digit(n)]
    } else {
        decimal(n / 10).push(decimal_digit(n % 10))
    }
}

/// The decimal numeral of `n`, with a minus sign where it is negative.
pub open spec fn signed_decimal(n: int) -> Seq<char> {
    if n < 0 {
        seq!['-'] + decimal((-n) as nat)
    } else {
        decimal(n as nat)
    }
}

/// The upper-case hexadecimal digit `d`.
pub open spec fn hex_digit(d: nat) -> char {
    if d < 10 {
        (48 + d) as char
    } else {
        (55 + d) as char
    }
}

/// The two upper-case hexadecimal digits of a byte.
pub open spec fn hex_u8(b: u8) -> Seq<char> {
    seq![hex_digit((b / 16) as nat), hex_digit((b % 16) as nat)]
}

/// The eight upper-case hexadecimal digits of a 32-bit integer.
pub open spec fn hex_u32(x: u32) -> Seq<char> {
    hex_u8((x / 0x100_0000) as u8) + hex_u8((x / 0x1_0000 % 0x100) as u8) + hex_u8(
        (x / 0x100 % 0x100) as u8,
    ) + hex_u8((x % 0x100) as u8)
}

/// Appends `part` to `out`.
pub(crate) fn push_str(out: &mut String, part: &str)
    ensures
        final(out)@ == old(out)@ + part@,
{
    out.append(part);
}

/// Appends the decimal numeral of `n` to `out`.
pub fn push_decimal(out: &mut String, n: u64)
    ensures
        final(out)@ == old(out)@ + decimal(n as nat),
    decreases n,
{
    if n >= 10 {
        push_decimal(out, n / 10);
    }
    let d: u8 = (n % 10) as u8;
    out.push((48 + d) as char);
    assert(out@ =~= old(out)@ + decimal(n as nat));
}

/// Appends the decimal numeral of `n` to `out`.
pub fn push_signed_decimal(out: &mut String, n: i32)
    ensures
        final(out)@ == old(out)@ + signed_decimal(n as int),
{
    if n < 0 {
        out.push('-');
        push_decimal(out, (-(n as i64)) as u64);
        assert(out@ =~= old(out)@ + signed_decimal(n as int));
    } else {
        push_decimal(out, n as u64);
    }
}

fn hex_char(d: u8) -> (c: char)
    requires
        d < 16,
    ensures
        c == hex_digit(d as nat),
{
    if d < 10 {
        (48 + d) as char
    } else {
        (55 + d) as char
    }
}

/// Appends the two hexadecimal digits of `b` to `out`.
pub fn push_hex_u8(out: &mut String, b: u8)
    ensures
        final(out)@ == old(out)@ + hex_u8(b),
{
    out.push(hex_char(b / 16));
    out.push(hex_char(b % 16));
    assert(out@ =~= old(out)@ + hex_u8(b));
}

/// Appends the eight hexadecimal digits of `x` to `out`.
pub fn push_hex_u32(out: &mut String, x: u32)
    ensures
        final(out)@ == old(out)@ + hex_u32(x),
{
    push_hex_u8(out, (x / 0x100_0000) as u8);
    push_hex_u8(out, (x / 0x1_0000 % 0x100) as u8);
    push_hex_u8(out, (x / 0x100 % 0x100) as u8);
    push_hex_u8(out, (x % 0x100) as u8);
    assert(out@ =~= old(out)@ + hex_u32(x));
}

/// The value of a decimal or hexadecimal digit.
pub open spec fn digit_value(c: char) -> int {
    if '0' <= c && c <= '9' {
        c as int - '0' as int
    } else {
        c as int - 'A' as int + 10
    }
}

/// The number that decimal digits denote.
pub open spec fn decimal_value(digits: Seq<char>) -> int
    decreases digits.len(),
{
    if digits.len() == 0 {
        0
    } else {
        10 * decimal_value(digits.drop_last()) + digit_value(digits.last())
    }
}

/// The number that hexadecimal digits denote.
pub open spec fn hex_value(digits: Seq<char>) -> int
    decreases digits.len(),
{
    if digits.len() == 0 {
        0
    } else {
        16 * hex_value(digits.drop_last()) + digit_value(digits.last())
    }
}

/// A decimal numeral consists of decimal digits, begins with none that is zero unless it is the
/// only one, and denotes its number.
pub proof fn decimal_denotes(n: nat)
    ensures
        decimal_value(decimal(n)) == n,
        decimal(n).len() > 0,
        forall|i: int|
            0 <= i < decimal(n).len() ==> '0' <= #[trigger] decimal(n)[i] && decimal(n)[i] <= '9',
        decimal(n)[0] == '0' ==> decimal(n).len() == 1,
    decreases n,
{
    if n >= 10 {
        decimal_denotes(n / 10);
        let init = decimal(n / 10);
        assert(decimal(n).drop_last() =~= init);
        assert(decimal(n)[0] == init[0]);
        if init[0] == '0' {
            assert(init.drop_last() =~= seq![]);
            assert(decimal_value(init.drop_last()) == 0);
            assert(digit_value(init.last()) == 0);
            assert(n / 10 == 0);
        }
    } else {
        assert(decimal(n).drop_last() =~= seq![]);
        assert(decimal_value(decimal(n).drop_last()) == 0);
    }
}

/// A signed numeral is that of its number, behind a minus sign where the number is negative.
pub proof fn signed_decimal_denotes(n: int)
    ensures
        n >= 0 ==> signed_decimal(n) == decimal(n as nat),
        n < 0 ==> signed_decimal(n)[0] == '-' && decimal_value(signed_decimal(n).skip(1)) == -n
            && signed_decimal(n).skip(1) == decimal((-n) as nat),
{
    if n < 0 {
        assert(signed_decimal(n).skip(1) =~= decimal((-n) as nat));
        decimal_denotes((-n) as nat);
    }
}

/// Whether the character is an upper-case hexadecimal digit.
pub open spec fn is_hex_digit(c: char) -> bool {
    '0' <= c && c <= '9' || 'A' <= c && c <= 'F'
}

/// The two digits of a byte are hexadecimal and denote it.
pub proof fn hex_u8_denotes(b: u8)
    ensures
        hex_u8(b).len() == 2,
        is_hex_digit(hex_u8(b)[0]),
        is_hex_digit(hex_u8(b)[1]),
        16 * digit_value(hex_u8(b)[0]) + digit_value(hex_u8(b)[1]) == b,
{
}

/// Two more digits multiply what the digits in front denote by 256.
proof fn lemma_hex_appended(digits: Seq<char>, b: u8)
    ensures
        hex_value(digits + hex_u8(b)) == 0x100 * hex_value(digits) + b,
{
    let all = digits + hex_u8(b);
    hex_u8_denotes(b);
    let first = digits.push(hex_u8(b)[0]);
    assert(first.drop_last() =~= digits);
    assert(first.last() == hex_u8(b)[0]);
    assert(hex_value(first) == 16 * hex_value(digits) + digit_value(hex_u8(b)[0]));
    assert(all.drop_last() =~= first);
    assert(all.last() == hex_u8(b)[1]);
}

/// The eight digits of a 32-bit integer are hexadecimal and denote it.
pub proof fn hex_u32_denotes(x: u32)
    ensures
        hex_u32(x).len() == 8,
        forall|i: int| 0 <= i < 8 ==> is_hex_digit(#[trigger] hex_u32(x)[i]),
        hex_value(hex_u32(x)) == x,
{
    let a = (x / 0x100_0000) as u8;
    let b = (x / 0x1_0000 % 0x100) as u8;
    let c = (x / 0x100 % 0x100) as u8;
    let d = (x % 0x100) as u8;
    let none: Seq<char> = seq![];
    assert(none + hex_u8(a) =~= hex_u8(a));
    lemma_hex_appended(none, a);
    lemma_hex_appended(hex_u8(a), b);
    lemma_hex_appended(hex_u8(a) + hex_u8(b), c);
    lemma_hex_appended(hex_u8(a) + hex_u8(b) + hex_u8(c), d);
    hex_u8_denotes(a);
    hex_u8_denotes(b);
    hex_u8_denotes(c);
    hex_u8_denotes(d);
}

/// Removing a character from the end leaves what stands in front of all its occurrences there.
pub proof fn trailing_is_removed(s: Seq<char>, c: char)
    ensures
        ({
            let kept = without_trailing(s, c);
            &&& kept.len() <= s.len()
            &&& kept == s.take(kept.len() as int)
            &&& forall|i: int| kept.len() <= i < s.len() ==> #[trigger] s[i] == c
            &&& kept.len() > 0 ==> kept.last() != c
        }),
    decreases s.len(),
{
    let kept = without_trailing(s, c);
    if s.len() > 0 && s.last() == c {
        let init = s.drop_last();
        trailing_is_removed(init, c);
        assert(kept =~= s.take(kept.len() as int));
        assert forall|i: int| kept.len() <= i < s.len() implies #[trigger] s[i] == c by {
            if i < init.len() {
                assert(init[i] == s[i]);
            }
        }
    } else {
        assert(s.take(s.len() as int) =~= s);
    }
}

/// A part is found wherever it stands.
pub proof fn part_is_found(before: Seq<char>, part: Seq<char>, behind: Seq<char>)
    ensures
        has_part(before + part + behind, part),
{
    let s = before + part + behind;
    let at = before.len() as int;
    assert(s.subrange(at, at + part.len()) =~= part);
}

/// A part that is found stands somewhere.
pub proof fn found_part_stands(s: Seq<char>, part: Seq<char>) -> (around: (Seq<char>, Seq<char>))
    requires
        has_part(s, part),
    ensures
        s == around.0 + part + around.1,
{
    let at = choose|i: int|
        0 <= i && i + part.len() <= s.len() && #[trigger] s.subrange(i, i + part.len()) == part;
    let before = s.take(at);
    let behind = s.skip(at + part.len());
    assert(s =~= before + s.subrange(at, at + part.len()) + behind);
    (before, behind)
}

/// The bytes of a text have that text; for bytes of no text stands what the lossy conversion makes
/// of them.
pub proof fn encoded_text_is_read(s: Seq<char>, bytes: Seq<u8>)
    ensures
        utf8_text(encode_utf8(s)) == s,
        !valid_utf8(bytes) ==> utf8_text(bytes) == utf8_lossy_text(bytes),
{
    encode_utf8_valid_utf8(s);
    encode_utf8_decode_utf8(s);
}

/// The units of a text are those of its characters, one behind the other: the character itself, or
/// a high and a low surrogate with its upper and lower bits.
pub proof fn utf16_by_characters(s: Seq<char>, c: char)
    ensures
        utf16(seq![]) == Seq::<u16>::empty(),
        (c as int) < 0x1_0000 ==> utf16(s.push(c)) == utf16(s).push(c as u16),
        (c as int) >= 0x1_0000 ==> {
            let all = utf16(s.push(c));
            let n = utf16(s).len() as int;
            &&& all.len() == n + 2
            &&& all.take(n) == utf16(s)
            &&& 0xd800 <= all[n] < 0xdc00
            &&& 0xdc00 <= all[n + 1] < 0xe000
            &&& c as int == 0x1_0000 + 0x400 * (all[n] - 0xd800) + (all[n + 1] - 0xdc00)
        },
{
    char_is_scalar(c);
    let t = s.push(c);
    assert(t.drop_last() =~= s);
    if (c as int) < 0x1_0000 {
        assert(utf16(t) =~= utf16(s).push(c as u16));
    } else {
        assert(utf16(t).take(utf16(s).len() as int) =~= utf16(s));
    }
}

/// An unpaired surrogate behind a text is read as the replacement character, and what follows it
/// is read on its own.
pub proof fn unpaired_surrogate_is_replaced(s: Seq<char>, unit: u16, tail: Seq<u16>)
    requires
        0xd800 <= unit < 0xe000,
        unit < 0xdc00 ==> tail.len() == 0 || !(0xdc00 <= tail[0] < 0xe000),
    ensures
        utf16_text(utf16(s) + (seq![unit] + tail)) == s + (seq!['\u{fffd}'] + utf16_text(tail)),
{
    let units = seq![unit] + tail;
    utf16_prefix_decodes(s, units);
    assert(units.skip(1) =~= tail);
    assert(units[0] == unit);
    if tail.len() > 0 {
        assert(units[1] == tail[0]);
    }
}

} // verus!
