//! How output buffers are laid out, and what the parser makes of each layout.
use crate::argument::ArgumentView;
use crate::bytes::{
    le_u16, le_u32, read_digits, u16_digits, u16_le, u16_round_trip, u16_written_back, u32_digits,
    u32_le, u32_round_trip, u32_written_back,
};
use crate::error::AcpiParseError;
use crate::output::{
    after_argument, argument_at, argument_fits, arguments_from, output_of, padded_length,
    OutputView, ACPI_EVAL_OUTPUT_BUFFER_SIGNATURE,
};
use vstd::prelude::*;

verus! {

/// An argument laid out in an output buffer: its type, its data, and the bytes behind the data
/// that fill it up to four.
#[verifier::ext_equal]
pub struct Framed {
    pub type_: u16,
    pub data: Seq<u8>,
    pub padding: Seq<u8>,
}

impl Framed {
    /// The data has a 16-bit length, and the padding fills it up to four bytes.
    pub open spec fn valid(self) -> bool {
        &&& self.data.len() <= u16::MAX
        &&& self.data.len() + self.padding.len() == padded_length(self.data.len() as int)
    }

    /// The bytes of the argument.
    pub open spec fn bytes(self) -> Seq<u8> {
        u16_le(self.type_) + u16_le(self.data.len() as u16) + self.data + self.padding
    }

    /// What the argument holds. The value of an integer covers its data and its padding.
    pub open spec fn argument(self) -> ArgumentView {
        ArgumentView {
            type_: self.type_,
            data_length: self.data.len() as u16,
            data_32: if self.type_ == 0 {
                le_u32(self.data + self.padding, 0)
            } else {
                0
            },
            data: self.data,
        }
    }
}

/// Whether each of the arguments is validly laid out.
pub open spec fn all_valid(items: Seq<Framed>) -> bool {
    forall|i: int| 0 <= i < items.len() ==> (#[trigger] items[i]).valid()
}

/// The bytes of the arguments, one behind the other.
pub open spec fn framed_bytes(items: Seq<Framed>) -> Seq<u8>
    decreases items.len(),
{
    if items.len() == 0 {
        seq![]
    } else {
        items[0].bytes() + framed_bytes(items.drop_first())
    }
}

/// The twelve bytes in front of the arguments.
pub open spec fn output_header(length: u32, count: u32) -> Seq<u8> {
    u32_le(ACPI_EVAL_OUTPUT_BUFFER_SIGNATURE) + u32_le(length) + u32_le(count)
}

/// The number of bytes of the output buffer that holds these arguments.
pub open spec fn output_length(items: Seq<Framed>) -> nat {
    12 + framed_bytes(items).len()
}

/// The output buffer that holds these arguments.
pub open spec fn output_buffer(items: Seq<Framed>) -> Seq<u8> {
    output_header(output_length(items) as u32, items.len() as u32) + framed_bytes(items)
}

/// What each of the arguments holds.
pub open spec fn framed_arguments(items: Seq<Framed>) -> Seq<ArgumentView> {
    items.map_values(|f: Framed| f.argument())
}

proof fn lemma_header(length: u32, count: u32, rest: Seq<u8>)
    ensures
        ({
            let b = output_header(length, count) + rest;
            &&& output_header(length, count).len() == 12
            &&& le_u32(b, 0) == ACPI_EVAL_OUTPUT_BUFFER_SIGNATURE
            &&& le_u32(b, 4) == length
            &&& le_u32(b, 8) == count
        }),
{
    let b = output_header(length, count) + rest;
    assert(b.subrange(0, 4) =~= u32_le(ACPI_EVAL_OUTPUT_BUFFER_SIGNATURE));
    assert(b.subrange(4, 8) =~= u32_le(length));
    assert(b.subrange(8, 12) =~= u32_le(count));
    u32_round_trip(b, 0, ACPI_EVAL_OUTPUT_BUFFER_SIGNATURE);
    u32_round_trip(b, 4, length);
    u32_round_trip(b, 8, count);
}

proof fn lemma_rest_valid(items: Seq<Framed>)
    requires
        all_valid(items),
        items.len() > 0,
    ensures
        all_valid(items.drop_first()),
{
    let rest = items.drop_first();
    assert forall|i: int| 0 <= i < rest.len() implies (#[trigger] rest[i]).valid() by {
        assert(rest[i] == items[i + 1]);
    }
}

proof fn lemma_framed_len(f: Framed)
    requires
        f.valid(),
    ensures
        f.bytes().len() == 4 + padded_length(f.data.len() as int),
{
}

/// An argument laid out behind `before` is read back.
proof fn lemma_argument_read(before: Seq<u8>, f: Framed, behind: Seq<u8>)
    requires
        f.valid(),
    ensures
        ({
            let b = before + f.bytes() + behind;
            &&& argument_fits(b, before.len() as int)
            &&& argument_at(b, before.len() as int) == f.argument()
            &&& after_argument(b, before.len() as int) == before.len() + f.bytes().len()
        }),
{
    let b = before + f.bytes() + behind;
    let at = before.len() as int;
    lemma_framed_len(f);
    assert(b.subrange(at, at + 2) =~= u16_le(f.type_));
    u16_round_trip(b, at, f.type_);
    assert(b.subrange(at + 2, at + 4) =~= u16_le(f.data.len() as u16));
    u16_round_trip(b, at + 2, f.data.len() as u16);
    assert(b.subrange(at + 4, at + 4 + f.data.len()) =~= f.data);
    let filled = f.data + f.padding;
    assert(filled.len() >= 4);
    assert forall|i: int| 0 <= i < 4 implies b[at + 4 + i] == filled[i] by {}
    assert(le_u32(b, at + 4) == le_u32(filled, 0));
}

/// Arguments laid out behind `before` are read back.
proof fn lemma_arguments_read(before: Seq<u8>, items: Seq<Framed>, behind: Seq<u8>)
    requires
        all_valid(items),
    ensures
        arguments_from(before + framed_bytes(items) + behind, before.len() as int, items.len())
            == Some((framed_arguments(items), (before.len() + framed_bytes(items).len()) as int)),
    decreases items.len(),
{
    let b = before + framed_bytes(items) + behind;
    if items.len() == 0 {
        assert(framed_arguments(items) =~= seq![]);
    } else {
        let f = items[0];
        let rest = items.drop_first();
        lemma_rest_valid(items);
        lemma_argument_read(before, f, framed_bytes(rest) + behind);
        assert(b =~= before + f.bytes() + (framed_bytes(rest) + behind));
        lemma_arguments_read(before + f.bytes(), rest, behind);
        assert(b =~= before + f.bytes() + framed_bytes(rest) + behind);
        assert(framed_arguments(items) =~= seq![f.argument()] + framed_arguments(rest));
    }
}

/// Of arguments that are cut off, one does not fit.
proof fn lemma_arguments_cut(before: Seq<u8>, items: Seq<Framed>, kept: int)
    requires
        all_valid(items),
        0 <= kept < framed_bytes(items).len(),
    ensures
        arguments_from(
            before + framed_bytes(items).take(kept),
            before.len() as int,
            items.len(),
        ) is None,
    decreases items.len(),
{
    let b = before + framed_bytes(items).take(kept);
    let at = before.len() as int;
    let f = items[0];
    let rest = items.drop_first();
    lemma_framed_len(f);
    if kept < f.bytes().len() {
        if kept >= 8 {
            assert(b.subrange(at + 2, at + 4) =~= u16_le(f.data.len() as u16));
            u16_round_trip(b, at + 2, f.data.len() as u16);
        }
        assert(!argument_fits(b, at));
    } else {
        lemma_rest_valid(items);
        let kept_rest = kept - f.bytes().len();
        lemma_argument_read(before, f, framed_bytes(rest).take(kept_rest));
        assert(b =~= before + f.bytes() + framed_bytes(rest).take(kept_rest));
        lemma_arguments_cut(before + f.bytes(), rest, kept_rest);
    }
}

/// The parser reads back every argument of an output buffer, with its padding or without: type,
/// length and data as they were laid out, in their order.
pub proof fn output_round_trip(items: Seq<Framed>)
    requires
        all_valid(items),
        output_length(items) <= u32::MAX,
    ensures
        output_of(output_buffer(items)) == Ok::<OutputView, AcpiParseError>(
            OutputView {
                signature: ACPI_EVAL_OUTPUT_BUFFER_SIGNATURE,
                length: output_length(items) as u32,
                count: items.len() as u32,
                arguments: framed_arguments(items),
            },
        ),
{
    let length = output_length(items) as u32;
    let header = output_header(length, items.len() as u32);
    argument_takes_eight_bytes(items);
    lemma_header(length, items.len() as u32, framed_bytes(items));
    lemma_arguments_read(header, items, seq![]);
    assert(output_buffer(items) =~= header + framed_bytes(items) + seq![]);
}

/// Each argument takes up at least eight bytes.
pub proof fn argument_takes_eight_bytes(items: Seq<Framed>)
    requires
        all_valid(items),
    ensures
        8 * items.len() <= framed_bytes(items).len(),
    decreases items.len(),
{
    if items.len() > 0 {
        let rest = items.drop_first();
        lemma_rest_valid(items);
        lemma_framed_len(items[0]);
        argument_takes_eight_bytes(rest);
    }
}

/// The arguments read from `offset` on are laid out in the bytes between there and where they
/// end.
proof fn lemma_read_arguments_framed(b: Seq<u8>, offset: int, count: nat) -> (items: Seq<Framed>)
    requires
        0 <= offset <= b.len(),
        arguments_from(b, offset, count) is Some,
    ensures
        ({
            let (arguments, end) = arguments_from(b, offset, count)->0;
            &&& all_valid(items)
            &&& items.len() == count
            &&& offset <= end <= b.len()
            &&& framed_bytes(items) == b.subrange(offset, end)
            &&& framed_arguments(items) == arguments
        }),
    decreases count,
{
    if count == 0 {
        let items: Seq<Framed> = seq![];
        assert(framed_bytes(items) =~= b.subrange(offset, offset));
        assert(framed_arguments(items) =~= seq![]);
        items
    } else {
        let next = after_argument(b, offset);
        let length = le_u16(b, offset + 2) as int;
        let rest = lemma_read_arguments_framed(b, next, (count - 1) as nat);
        let (_, end) = arguments_from(b, next, (count - 1) as nat)->0;
        let f = Framed {
            type_: le_u16(b, offset),
            data: b.subrange(offset + 4, offset + 4 + length),
            padding: b.subrange(offset + 4 + length, next),
        };
        let items = seq![f] + rest;
        u16_written_back(b, offset);
        u16_written_back(b, offset + 2);
        assert(f.bytes() =~= b.subrange(offset, next));
        assert forall|i: int| 0 <= i < 4 implies b[offset + 4 + i] == (f.data + f.padding)[i] by {}
        assert(le_u32(b, offset + 4) == le_u32(f.data + f.padding, 0));
        assert(f.argument() == argument_at(b, offset));
        assert(items.drop_first() =~= rest);
        assert(framed_bytes(items) =~= b.subrange(offset, end));
        assert(framed_arguments(items) =~= seq![f.argument()] + framed_arguments(rest));
        assert forall|i: int| 0 <= i < items.len() implies (#[trigger] items[i]).valid() by {
            if i > 0 {
                assert(items[i] == rest[i - 1]);
            }
        }
        items
    }
}

/// The parser accepts nothing but output buffers: bytes that it accepts are those of arguments
/// that hold what it returned.
pub proof fn accepted_output_is_framed(b: Seq<u8>) -> (items: Seq<Framed>)
    requires
        output_of(b) is Ok,
    ensures
        all_valid(items),
        b == output_buffer(items),
        output_of(b)->Ok_0.arguments == framed_arguments(items),
        output_of(b)->Ok_0.count == items.len(),
{
    let items = lemma_read_arguments_framed(b, 12, le_u32(b, 8) as nat);
    lemma_header_written_back(b);
    assert(b =~= b.subrange(0, 12) + b.subrange(12, b.len() as int));
    items
}

proof fn lemma_header_written_back(b: Seq<u8>)
    requires
        b.len() >= 12,
        le_u32(b, 0) == ACPI_EVAL_OUTPUT_BUFFER_SIGNATURE,
    ensures
        b.subrange(0, 12) == output_header(le_u32(b, 4), le_u32(b, 8)),
{
    u32_written_back(b, 0);
    u32_written_back(b, 4);
    u32_written_back(b, 8);
    assert(b.subrange(0, 12) =~= b.subrange(0, 4) + b.subrange(4, 8) + b.subrange(8, 12));
}

/// The bytes with the length in their header set to their number, where the header has one.
pub open spec fn with_own_length(b: Seq<u8>) -> Seq<u8> {
    if b.len() < 8 {
        b
    } else {
        b.subrange(0, 4) + u32_le(b.len() as u32) + b.subrange(8, b.len() as int)
    }
}

proof fn lemma_joined(a: Seq<u8>, b: Seq<u8>, c: Seq<u8>)
    ensures
        a + b + c == a + (b + c),
{
    assert(a + b + c =~= a + (b + c));
}

proof fn lemma_cut(a: Seq<u8>, b: Seq<u8>, kept: int)
    requires
        a.len() <= kept <= a.len() + b.len(),
    ensures
        (a + b).take(kept) == a + b.take(kept - a.len()),
{
    assert((a + b).take(kept) =~= a + b.take(kept - a.len()));
}

proof fn lemma_middle_replaced(a: Seq<u8>, b: Seq<u8>, c: Seq<u8>, d: Seq<u8>, new: Seq<u8>)
    requires
        a.len() == 4,
        b.len() == 4,
        c.len() == 4,
        new.len() == 4,
    ensures
        ({
            let s = a + b + c + d;
            s.subrange(0, 4) + new + s.subrange(8, s.len() as int) == a + new + c + d
        }),
{
    let s = a + b + c + d;
    assert(s.subrange(0, 4) + new + s.subrange(8, s.len() as int) =~= a + new + c + d);
}

/// Setting the length in a header leaves the signature, the count and what follows.
proof fn lemma_own_length(length: u32, count: u32, rest: Seq<u8>)
    ensures
        with_own_length(output_header(length, count) + rest) == output_header(
            (12 + rest.len()) as u32,
            count,
        ) + rest,
{
    let signature = u32_le(ACPI_EVAL_OUTPUT_BUFFER_SIGNATURE);
    let b = output_header(length, count) + rest;
    lemma_middle_replaced(signature, u32_le(length), u32_le(count), rest, u32_le(b.len() as u32));
}

/// An output buffer of which only the first bytes arrived is refused as too short, though its
/// header states the number of bytes that arrived.
pub proof fn short_output_is_insufficient(items: Seq<Framed>, kept: int)
    requires
        all_valid(items),
        output_length(items) <= u32::MAX,
        0 <= kept < output_length(items),
    ensures
        output_of(with_own_length(output_buffer(items).take(kept))) == Err::<
            OutputView,
            AcpiParseError,
        >(AcpiParseError::InsufficientLength),
{
    argument_takes_eight_bytes(items);
    lemma_header(output_length(items) as u32, items.len() as u32, framed_bytes(items));
    if kept >= 12 {
        let stated = output_header(output_length(items) as u32, items.len() as u32);
        let header = output_header(kept as u32, items.len() as u32);
        let part = framed_bytes(items).take(kept - 12);
        lemma_cut(stated, framed_bytes(items), kept);
        lemma_own_length(output_length(items) as u32, items.len() as u32, part);
        lemma_header(kept as u32, items.len() as u32, part);
        lemma_arguments_cut(header, items, kept - 12);
    }
}

/// An output buffer with bytes behind its last argument is refused, though its header counts
/// them in.
pub proof fn trailing_output_is_invalid(items: Seq<Framed>, trailing: Seq<u8>)
    requires
        all_valid(items),
        trailing.len() > 0,
        output_length(items) + trailing.len() <= u32::MAX,
    ensures
        output_of(with_own_length(output_buffer(items) + trailing)) == Err::<
            OutputView,
            AcpiParseError,
        >(AcpiParseError::InvalidFormat),
{
    let length = (output_length(items) + trailing.len()) as u32;
    let header = output_header(length, items.len() as u32);
    argument_takes_eight_bytes(items);
    lemma_header(output_length(items) as u32, items.len() as u32, framed_bytes(items));
    lemma_header(length, items.len() as u32, framed_bytes(items) + trailing);
    lemma_arguments_read(header, items, trailing);
    let stated = output_header(output_length(items) as u32, items.len() as u32);
    lemma_joined(stated, framed_bytes(items), trailing);
    lemma_own_length(
        output_length(items) as u32,
        items.len() as u32,
        framed_bytes(items) + trailing,
    );
    lemma_joined(header, framed_bytes(items), trailing);
}

/// Bytes that begin with another signature, or state another length than their number, are
/// refused as invalid, whatever follows.
pub proof fn misframed_output_is_invalid(b: Seq<u8>)
    requires
        b.len() >= 12,
        b.subrange(0, 4) != u32_le(ACPI_EVAL_OUTPUT_BUFFER_SIGNATURE) || b.subrange(4, 8) != u32_le(
            b.len() as u32,
        ),
        b.len() <= u32::MAX,
    ensures
        output_of(b) == Err::<OutputView, AcpiParseError>(AcpiParseError::InvalidFormat),
{
    u32_written_back(b, 0);
    u32_written_back(b, 4);
}

/// The 32-bit value of an argument: of an integer, the number whose digits to the base 256 are the
/// first four bytes behind its length, the lowest first; zero for any other type.
pub open spec fn word(f: Framed) -> int {
    let d = f.data + f.padding;
    if f.type_ == 0 {
        d[0] + 0x100 * d[1] + 0x1_0000 * d[2] + 0x100_0000 * d[3]
    } else {
        0
    }
}

/// What an argument holds: its type, its data, their length, and its 32-bit value.
pub proof fn argument_holds(f: Framed)
    requires
        f.valid(),
    ensures
        f.argument().type_ == f.type_,
        f.argument().data == f.data,
        f.argument().data_length == f.data.len(),
        f.argument().data_32 == word(f),
        0 <= word(f) <= u32::MAX,
{
    read_digits(f.data + f.padding, 0);
}

/// The 32-bit value of an integer laid out in its four bytes is that integer.
pub proof fn word_of_integer(f: Framed, value: u32)
    requires
        f.valid(),
        f.type_ == 0,
        f.data == u32_le(value),
    ensures
        word(f) == value,
{
    u32_digits(value);
    assert(f.data + f.padding =~= f.data);
}

/// How an argument is laid out: two bytes of type, two of length, the data, and behind fewer than
/// four bytes of data as many as are missing.
pub proof fn argument_layout(f: Framed)
    ensures
        f.valid() <==> f.data.len() <= 65535 && f.padding.len() == (if f.data.len() < 4 {
            4 - f.data.len()
        } else {
            0
        }),
        f.valid() ==> {
            let b = f.bytes();
            &&& b.len() == 4 + f.data.len() + f.padding.len()
            &&& b[0] + 0x100 * b[1] == f.type_
            &&& b[2] + 0x100 * b[3] == f.data.len()
            &&& b.skip(4) == f.data + f.padding
        },
{
    if f.valid() {
        let b = f.bytes();
        let length = f.data.len() as u16;
        u16_digits(f.type_);
        u16_digits(length);
        assert(b[0] == u16_le(f.type_)[0] && b[1] == u16_le(f.type_)[1]);
        assert(b[2] == u16_le(length)[0] && b[3] == u16_le(length)[1]);
        assert(b.skip(4) =~= f.data + f.padding);
    }
}

/// How an output buffer is laid out: the signature `AeoB`, the number of its bytes, the number of
/// its arguments, and the arguments one behind the other.
pub proof fn output_layout(items: Seq<Framed>, last: Framed)
    requires
        all_valid(items),
        output_length(items) <= u32::MAX,
    ensures
        ({
            let b = output_buffer(items);
            &&& b.len() == 12 + framed_bytes(items).len()
            &&& b[0] == 0x41 && b[1] == 0x65 && b[2] == 0x6f && b[3] == 0x42
            &&& b[4] + 0x100 * b[5] + 0x1_0000 * b[6] + 0x100_0000 * b[7] == b.len()
            &&& b[8] + 0x100 * b[9] + 0x1_0000 * b[10] + 0x100_0000 * b[11] == items.len()
            &&& b.skip(12) == framed_bytes(items)
        }),
        framed_bytes(seq![]) == Seq::<u8>::empty(),
        framed_bytes(items.push(last)) == framed_bytes(items) + last.bytes(),
{
    let length = output_length(items) as u32;
    let count = items.len() as u32;
    let b = output_buffer(items);
    argument_takes_eight_bytes(items);
    lemma_header(length, count, framed_bytes(items));
    read_digits(b, 4);
    read_digits(b, 8);
    let signature = u32_le(ACPI_EVAL_OUTPUT_BUFFER_SIGNATURE);
    assert(b[0] == signature[0] && b[1] == signature[1]);
    assert(b[2] == signature[2] && b[3] == signature[3]);
    assert(b.skip(12) =~= framed_bytes(items));
    lemma_framed_pushed(items, last);
}

proof fn lemma_framed_pushed(items: Seq<Framed>, last: Framed)
    ensures
        framed_bytes(items.push(last)) == framed_bytes(items) + last.bytes(),
    decreases items.len(),
{
    let all = items.push(last);
    if items.len() == 0 {
        assert(all.drop_first() =~= items);
        assert(framed_bytes(all) =~= framed_bytes(items) + last.bytes());
    } else {
        lemma_framed_pushed(items.drop_first(), last);
        assert(all.drop_first() =~= items.drop_first().push(last));
        assert(framed_bytes(all) =~= framed_bytes(items) + last.bytes());
    }
}

/// Whether the bytes begin no argument: there is no room for four bytes behind the length, or for
/// as many as the length states.
pub open spec fn begins_no_argument(rest: Seq<u8>) -> bool {
    rest.len() < 8 || rest.len() < 4 + rest[2] + 0x100 * rest[3]
}

/// Bytes without a header, and output buffers in which an argument is missing or cut off, are
/// refused as too short, whatever the arguments in front of it are.
pub proof fn missing_argument_is_insufficient(
    b: Seq<u8>,
    items: Seq<Framed>,
    count: u32,
    rest: Seq<u8>,
)
    requires
        all_valid(items),
        items.len() < count,
        begins_no_argument(rest),
        output_length(items) + rest.len() <= u32::MAX,
    ensures
        b.len() < 12 ==> output_of(b) == Err::<OutputView, AcpiParseError>(
            AcpiParseError::InsufficientLength,
        ),
        output_of(
            output_header((output_length(items) + rest.len()) as u32, count) + framed_bytes(items)
                + rest,
        ) == Err::<OutputView, AcpiParseError>(AcpiParseError::InsufficientLength),
{
    let length = (output_length(items) + rest.len()) as u32;
    let header = output_header(length, count);
    lemma_header(length, count, framed_bytes(items) + rest);
    lemma_joined(header, framed_bytes(items), rest);
    lemma_one_missing(header, items, count as nat, rest);
}

proof fn lemma_one_missing(before: Seq<u8>, items: Seq<Framed>, count: nat, rest: Seq<u8>)
    requires
        all_valid(items),
        items.len() < count,
        begins_no_argument(rest),
    ensures
        arguments_from(before + framed_bytes(items) + rest, before.len() as int, count) is None,
    decreases items.len(),
{
    let b = before + framed_bytes(items) + rest;
    let at = before.len() as int;
    if items.len() == 0 {
        assert(b =~= before + rest);
        if rest.len() >= 8 {
            read_digits(b, at + 2);
            assert(b[at + 2] == rest[2] && b[at + 3] == rest[3]);
        }
        assert(!argument_fits(b, at));
    } else {
        let f = items[0];
        let tail = items.drop_first();
        lemma_rest_valid(items);
        lemma_argument_read(before, f, framed_bytes(tail) + rest);
        assert(b =~= before + f.bytes() + (framed_bytes(tail) + rest));
        lemma_one_missing(before + f.bytes(), tail, (count - 1) as nat, rest);
        assert(b =~= before + f.bytes() + framed_bytes(tail) + rest);
    }
}

/// There is one result for each argument, in the order of the arguments.
pub proof fn results_by_index(items: Seq<Framed>, i: int)
    requires
        0 <= i < items.len(),
    ensures
        framed_arguments(items).len() == items.len(),
        framed_arguments(items)[i] == items[i].argument(),
        all_valid(items) ==> items[i].valid(),
{
}

} // verus!
