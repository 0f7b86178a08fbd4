//! How values are shown.
use crate::text::{
    decimal, decimal_denotes, decimal_value, digit_value, hex_u32, hex_u32_denotes, hex_u8,
    hex_u8_denotes, hex_value, is_hex_digit,
};
use crate::value::{bytes_text, items_text, text_of, ValueView};
use vstd::prelude::*;

verus! {

/// An integer is shown twice: by its decimal numeral, and in parentheses by eight hexadecimal
/// digits. Both denote it.
pub proof fn integer_is_shown(x: u32) -> (numerals: (Seq<char>, Seq<char>))
    ensures
        text_of(ValueView::Integer(x)) == "Integer: "@ + numerals.0 + " (0x"@ + numerals.1 + ")"@,
        numerals.0 == decimal(x as nat),
        decimal_value(numerals.0) == x,
        numerals.1.len() == 8,
        hex_value(numerals.1) == x,
        forall|i: int| 0 <= i < 8 ==> is_hex_digit(#[trigger] numerals.1[i]),
{
    decimal_denotes(x as nat);
    hex_u32_denotes(x);
    (decimal(x as nat), hex_u32(x))
}

/// A string is shown as it is, behind its type.
pub proof fn string_is_shown(s: Seq<char>)
    ensures
        text_of(ValueView::String(s)) == "String: "@ + s,
{
}

/// Whether the three characters with this number are a space and two hexadecimal digits that
/// denote the byte.
pub open spec fn shows_byte(text: Seq<char>, number: int, byte: u8) -> bool {
    &&& text[3 * number] == ' '
    &&& is_hex_digit(text[3 * number + 1])
    &&& is_hex_digit(text[3 * number + 2])
    &&& 16 * digit_value(text[3 * number + 1]) + digit_value(text[3 * number + 2]) == byte
}

/// A buffer, and bytes that could not be parsed, are shown by the number of their bytes and by the
/// bytes themselves, in their order.
pub proof fn bytes_are_shown(b: Seq<u8>) -> (shown: (Seq<char>, Seq<char>))
    ensures
        text_of(ValueView::Buffer(b)) == "Buffer ("@ + shown.0 + " bytes):"@ + shown.1,
        text_of(ValueView::Malformed(b)) == "Malformed trailing data ("@ + shown.0 + " bytes):"@
            + shown.1,
        shown.0 == decimal(b.len()),
        decimal_value(shown.0) == b.len(),
        shown.1.len() == 3 * b.len(),
        forall|i: int| 0 <= i < b.len() ==> #[trigger] shows_byte(shown.1, i, b[i]),
{
    decimal_denotes(b.len());
    lemma_bytes_text(b);
    (decimal(b.len()), bytes_text(b))
}

/// Text behind it does not change how a byte is shown.
proof fn lemma_shown_in_front(text: Seq<char>, behind: Seq<char>, number: int, byte: u8)
    requires
        0 <= number,
        3 * number + 3 <= text.len(),
        shows_byte(text, number, byte),
    ensures
        shows_byte(text + behind, number, byte),
{
}

proof fn lemma_bytes_text(b: Seq<u8>)
    ensures
        bytes_text(b).len() == 3 * b.len(),
        forall|i: int| 0 <= i < b.len() ==> #[trigger] shows_byte(bytes_text(b), i, b[i]),
    decreases b.len(),
{
    if b.len() > 0 {
        let init = b.drop_last();
        let before = bytes_text(init);
        let behind = " "@ + hex_u8(b.last());
        lemma_bytes_text(init);
        reveal_strlit(" ");
        hex_u8_denotes(b.last());
        assert(bytes_text(b) =~= before + behind);
        assert forall|i: int| 0 <= i < b.len() implies #[trigger] shows_byte(
            bytes_text(b),
            i,
            b[i],
        ) by {
            if i < init.len() {
                assert(shows_byte(before, i, init[i]));
                lemma_shown_in_front(before, behind, i, init[i]);
            } else {
                let text = before + behind;
                assert(text[3 * i] == behind[0]);
                assert(text[3 * i + 1] == behind[1]);
                assert(text[3 * i + 2] == behind[2]);
            }
        }
    }
}

/// A package is shown by the number of its items and by the items themselves, each behind those in
/// front of it, in parentheses behind a space.
pub proof fn package_is_shown(items: Seq<ValueView>, item: ValueView)
    ensures
        text_of(ValueView::Package(items)) == "Package ("@ + decimal(items.len()) + " items):"@
            + items_text(items),
        decimal_value(decimal(items.len())) == items.len(),
        items_text(seq![]) == Seq::<char>::empty(),
        items_text(items.push(item)) == items_text(items) + " ("@ + text_of(item) + ")"@,
{
    decimal_denotes(items.len());
    assert(items.push(item).drop_last() =~= items);
}

} // verus!
