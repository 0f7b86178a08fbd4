//! How values are packed one behind the other, and what is read back of them.
use crate::argument::{ArgumentView, MethodArgumentView};
use crate::bytes::{
    le_u16, read_digits, u16_digits, u16_le, u16_round_trip, u16_written_back, u32_le,
    u32_read_back,
};
use crate::input::{
    all_encodable, framed, input_argument_bytes, input_arguments_bytes, input_bytes, input_of,
    METHOD_NAME_LENGTH,
};
use crate::text::{encoded_text_is_read, trailing_is_removed, utf8_text, without_trailing};
use crate::value::{first_four, packed_fits, value_of, values_of, ValueView};
use vstd::prelude::*;
use vstd::utf8::{encode_scalar, encode_utf8, encode_utf8_decode_utf8, encode_utf8_valid_utf8};

verus! {

/// Whether each argument states the length of its data.
pub open spec fn all_sized(arguments: Seq<ArgumentView>) -> bool {
    forall|i: int|
        0 <= i < arguments.len() ==> (#[trigger] arguments[i]).data_length
            == arguments[i].data.len()
}

/// The value of each argument.
pub open spec fn argument_values(arguments: Seq<ArgumentView>) -> Seq<ValueView> {
    arguments.map_values(|a: ArgumentView| value_of(a.type_, a.data))
}

/// A packed value is read back, and what follows it is read on its own.
proof fn lemma_first_value(a: ArgumentView, tail: Seq<u8>)
    requires
        a.data_length == a.data.len(),
    ensures
        values_of(input_argument_bytes(a) + tail) == seq![value_of(a.type_, a.data)] + values_of(
            tail,
        ),
{
    let b = input_argument_bytes(a) + tail;
    assert(b.subrange(0, 2) =~= u16_le(a.type_));
    u16_round_trip(b, 0, a.type_);
    assert(b.subrange(2, 4) =~= u16_le(a.data_length));
    u16_round_trip(b, 2, a.data_length);
    let end = 4 + a.data.len() as int;
    assert(b.subrange(4, end) =~= a.data);
    assert(b.subrange(end, b.len() as int) =~= tail);
}

/// Values that are packed one behind the other are all read back, in their order; what follows
/// them is read as it would be on its own.
pub proof fn packed_values_round_trip(arguments: Seq<ArgumentView>, tail: Seq<u8>)
    requires
        all_sized(arguments),
    ensures
        values_of(input_arguments_bytes(arguments) + tail) == argument_values(arguments)
            + values_of(tail),
    decreases arguments.len(),
{
    if arguments.len() == 0 {
        assert(input_arguments_bytes(arguments) + tail =~= tail);
        assert(argument_values(arguments) + values_of(tail) =~= values_of(tail));
    } else {
        let init = arguments.drop_last();
        let last = arguments.last();
        assert(all_sized(init)) by {
            assert forall|i: int| 0 <= i < init.len() implies (#[trigger] init[i]).data_length
                == init[i].data.len() by {
                assert(init[i] == arguments[i]);
            }
        }
        let behind = input_argument_bytes(last) + tail;
        packed_values_round_trip(init, behind);
        lemma_first_value(last, tail);
        assert(input_arguments_bytes(arguments) + tail =~= input_arguments_bytes(init) + behind);
        let value = value_of(last.type_, last.data);
        assert(argument_values(arguments) =~= argument_values(init).push(value));
        assert(argument_values(init) + (seq![value] + values_of(tail)) =~= argument_values(
            arguments,
        ) + values_of(tail));
    }
}

/// The bytes that are left over, as the value that shows them.
pub open spec fn left_over(tail: Seq<u8>) -> Seq<ValueView> {
    if tail.len() == 0 {
        seq![]
    } else {
        seq![ValueView::Malformed(tail)]
    }
}

proof fn lemma_bytes_prepended(first: ArgumentView, rest: Seq<ArgumentView>)
    ensures
        input_arguments_bytes(seq![first] + rest) == input_argument_bytes(first)
            + input_arguments_bytes(rest),
    decreases rest.len(),
{
    let all = seq![first] + rest;
    if rest.len() == 0 {
        assert(all.drop_last() =~= seq![]);
        assert(input_arguments_bytes(all.drop_last()) =~= seq![]);
        assert(input_arguments_bytes(rest) =~= seq![]);
        assert(all.last() == first);
        assert(input_arguments_bytes(all) =~= input_argument_bytes(first) + input_arguments_bytes(
            rest,
        ));
    } else {
        lemma_bytes_prepended(first, rest.drop_last());
        assert(all.drop_last() =~= seq![first] + rest.drop_last());
        assert(all.last() == rest.last());
        assert(input_arguments_bytes(all) =~= input_argument_bytes(first) + input_arguments_bytes(
            rest,
        ));
    }
}

/// Reading packed values drops no byte: the bytes are those of the values read, and behind them
/// bytes that no whole value begins, which are surfaced as they are.
pub proof fn no_byte_is_dropped(b: Seq<u8>) -> (parts: (Seq<ArgumentView>, Seq<u8>))
    ensures
        all_sized(parts.0),
        b == input_arguments_bytes(parts.0) + parts.1,
        !packed_fits(parts.1),
        values_of(b) == argument_values(parts.0) + left_over(parts.1),
    decreases b.len(),
{
    if b.len() == 0 || !packed_fits(b) {
        let none: Seq<ArgumentView> = seq![];
        assert(b =~= input_arguments_bytes(none) + b);
        assert(values_of(b) =~= argument_values(none) + left_over(b));
        (none, b)
    } else {
        let length = le_u16(b, 2);
        let end = 4 + length;
        let first = ArgumentView {
            type_: le_u16(b, 0),
            data_length: length,
            data_32: 0,
            data: b.subrange(4, end),
        };
        let (rest, tail) = no_byte_is_dropped(b.subrange(end, b.len() as int));
        let all = seq![first] + rest;
        u16_written_back(b, 0);
        u16_written_back(b, 2);
        lemma_bytes_prepended(first, rest);
        assert(b =~= b.subrange(0, 2) + b.subrange(2, 4) + b.subrange(4, end) + b.subrange(
            end,
            b.len() as int,
        ));
        assert(b =~= input_arguments_bytes(all) + tail);
        let value = value_of(first.type_, first.data);
        assert(argument_values(all) =~= seq![value] + argument_values(rest));
        assert(seq![value] + (argument_values(rest) + left_over(tail)) =~= argument_values(all)
            + left_over(tail));
        assert forall|i: int| 0 <= i < all.len() implies (#[trigger] all[i]).data_length
            == all[i].data.len() by {
            if i > 0 {
                assert(all[i] == rest[i - 1]);
            }
        }
        (all, tail)
    }
}

/// The parts of a packed value are told from its bytes, whatever follows them.
proof fn lemma_first_told(a: ArgumentView, b: ArgumentView, s: Seq<u8>, t: Seq<u8>)
    requires
        a.data_length == a.data.len(),
        b.data_length == b.data.len(),
        input_argument_bytes(a) + s == input_argument_bytes(b) + t,
    ensures
        a.type_ == b.type_,
        a.data == b.data,
        s == t,
{
    let x = input_argument_bytes(a) + s;
    assert(x.subrange(0, 2) =~= u16_le(a.type_));
    u16_round_trip(x, 0, a.type_);
    assert(x.subrange(2, 4) =~= u16_le(a.data_length));
    u16_round_trip(x, 2, a.data_length);
    let y = input_argument_bytes(b) + t;
    assert(y.subrange(0, 2) =~= u16_le(b.type_));
    u16_round_trip(y, 0, b.type_);
    assert(y.subrange(2, 4) =~= u16_le(b.data_length));
    u16_round_trip(y, 2, b.data_length);
    let end = 4 + a.data.len() as int;
    assert(x.subrange(4, end) =~= a.data);
    assert(y.subrange(4, end) =~= b.data);
    assert(x.subrange(end, x.len() as int) =~= s);
    assert(y.subrange(end, y.len() as int) =~= t);
}

/// The first of the arguments stands in front of the bytes of the others.
proof fn lemma_first_apart(arguments: Seq<ArgumentView>)
    requires
        arguments.len() > 0,
        all_sized(arguments),
    ensures
        all_sized(arguments.drop_first()),
        input_arguments_bytes(arguments) == input_argument_bytes(arguments[0])
            + input_arguments_bytes(arguments.drop_first()),
        input_arguments_bytes(arguments).len() > 0,
{
    let rest = arguments.drop_first();
    lemma_bytes_prepended(arguments[0], rest);
    assert(seq![arguments[0]] + rest =~= arguments);
    assert forall|i: int| 0 <= i < rest.len() implies (#[trigger] rest[i]).data_length
        == rest[i].data.len() by {
        assert(rest[i] == arguments[i + 1]);
    }
}

/// Arguments packed into the same bytes are as many, with the same types and data.
pub proof fn packed_arguments_are_told_apart(left: Seq<ArgumentView>, right: Seq<ArgumentView>)
    requires
        all_sized(left),
        all_sized(right),
        input_arguments_bytes(left) == input_arguments_bytes(right),
    ensures
        left.len() == right.len(),
        forall|i: int|
            0 <= i < left.len() ==> (#[trigger] left[i]).type_ == right[i].type_ && left[i].data
                == right[i].data,
    decreases left.len(),
{
    if left.len() > 0 {
        lemma_first_apart(left);
    }
    if right.len() > 0 {
        lemma_first_apart(right);
    }
    if left.len() > 0 {
        let l = left.drop_first();
        let r = right.drop_first();
        lemma_first_told(left[0], right[0], input_arguments_bytes(l), input_arguments_bytes(r));
        packed_arguments_are_told_apart(l, r);
        assert forall|i: int| 0 <= i < left.len() implies (#[trigger] left[i]).type_
            == right[i].type_ && left[i].data == right[i].data by {
            if i > 0 {
                assert(left[i] == l[i - 1]);
                assert(right[i] == r[i - 1]);
            }
        }
    }
}

/// The value as which an argument is read back.
pub open spec fn sent_value(a: MethodArgumentView) -> ValueView {
    match a {
        MethodArgumentView::Int(i) => ValueView::Integer(i),
        MethodArgumentView::Guid(g) => ValueView::Buffer(g),
        MethodArgumentView::String(s) => ValueView::String(without_trailing(s, '\0')),
        MethodArgumentView::Buffer(b) => ValueView::Buffer(b),
    }
}

/// Encoding a text and a null character appends a null byte to the encoding of the text.
proof fn lemma_null_encoded(s: Seq<char>)
    ensures
        encode_utf8(s.push('\0')) == encode_utf8(s).push(0),
    decreases s.len(),
{
    let t = s.push('\0');
    if s.len() == 0 {
        assert(t.drop_first() =~= s);
        assert(encode_utf8(t) == encode_scalar('\0' as u32) + encode_utf8(s));
        assert(0u32 & 0x7F == 0) by (bit_vector);
        assert(encode_utf8(t) =~= encode_utf8(s).push(0));
    } else {
        lemma_null_encoded(s.drop_first());
        assert(t.drop_first() =~= s.drop_first().push('\0'));
        assert(encode_utf8(t) =~= encode_utf8(s).push(0));
    }
}

/// What the driver gets for a string is the string and a null character.
pub proof fn string_payload_text(s: Seq<char>)
    ensures
        utf8_text(MethodArgumentView::String(s).payload()) == s.push('\0'),
{
    let t = s.push('\0');
    lemma_null_encoded(s);
    encode_utf8_valid_utf8(t);
    encode_utf8_decode_utf8(t);
}

proof fn lemma_sent_value(a: MethodArgumentView)
    requires
        a.encodable(),
    ensures
        value_of(a.framed().type_, a.framed().data) == sent_value(a),
{
    match a {
        MethodArgumentView::Int(i) => {
            u32_read_back(i);
            assert(first_four(u32_le(i)) =~= u32_le(i));
        },
        MethodArgumentView::String(s) => {
            string_payload_text(s);
            assert(s.push('\0').drop_last() =~= s);
        },
        _ => {},
    }
}

/// Arguments that the driver can be given state the length of their data.
pub(crate) proof fn lemma_framed_sized(args: Seq<MethodArgumentView>)
    requires
        all_encodable(args),
    ensures
        all_sized(framed(args)),
{
    assert forall|i: int| 0 <= i < framed(args).len() implies (#[trigger] framed(
        args,
    )[i]).data_length == framed(args)[i].data.len() by {
        assert(args[i].encodable());
    }
}

/// The arguments of a request are read back as the values that were sent: integers, GUIDs and
/// buffers as they are, strings without the null characters at their end.
pub proof fn request_reads_back(name: Seq<char>, args: Seq<MethodArgumentView>)
    requires
        all_encodable(args),
    ensures
        ({
            let b = input_bytes(input_of(name, args)->Ok_0);
            &&& b.len() >= METHOD_NAME_LENGTH + 12
            &&& values_of(b.skip(METHOD_NAME_LENGTH + 12)) == args.map_values(
                |a: MethodArgumentView| sent_value(a),
            )
        }),
{
    let input = input_of(name, args)->Ok_0;
    let b = input_bytes(input);
    let packed = input_arguments_bytes(framed(args));
    let empty: Seq<u8> = seq![];
    assert(b.skip(METHOD_NAME_LENGTH + 12) =~= packed + empty);
    lemma_framed_sized(args);
    packed_values_round_trip(framed(args), empty);
    assert forall|i: int| 0 <= i < args.len() implies argument_values(framed(args))[i]
        == sent_value(args[i]) by {
        assert(args[i].encodable());
        lemma_sent_value(args[i]);
    }
    assert(argument_values(framed(args)) + values_of(empty) =~= args.map_values(
        |a: MethodArgumentView| sent_value(a),
    ));
}

/// A package holds exactly the arguments packed in its data: as many items, item `i` the value of
/// the type and data of argument `i`. Bytes behind them that begin no whole argument are one more
/// item, as they are.
pub proof fn package_holds_its_items(type_: u16, arguments: Seq<ArgumentView>, tail: Seq<u8>, i: int)
    requires
        type_ == 3 || type_ == 4,
        forall|k: int|
            0 <= k < arguments.len() ==> (#[trigger] arguments[k]).data_length
                == arguments[k].data.len(),
        tail.len() < 4 || tail.len() < 4 + tail[2] + 0x100 * tail[3],
        0 <= i < arguments.len(),
    ensures
        ({
            let value = value_of(type_, input_arguments_bytes(arguments) + tail);
            let items = value->Package_0;
            &&& value is Package
            &&& items.len() == arguments.len() + (if tail.len() > 0 {
                1int
            } else {
                0
            })
            &&& items[i] == value_of(arguments[i].type_, arguments[i].data)
            &&& tail.len() > 0 ==> items.last() == ValueView::Malformed(tail)
        }),
{
    read_digits(tail, 2);
    packed_values_round_trip(arguments, tail);
}

/// A package without arguments holds nothing, or the bytes that begin none.
pub proof fn empty_package(type_: u16, tail: Seq<u8>)
    requires
        type_ == 3 || type_ == 4,
        tail.len() < 4 || tail.len() < 4 + tail[2] + 0x100 * tail[3],
    ensures
        value_of(type_, tail) == ValueView::Package(
            if tail.len() == 0 {
                seq![]
            } else {
                seq![ValueView::Malformed(tail)]
            },
        ),
{
    read_digits(tail, 2);
}

/// The packed form of arguments: for each, two bytes of type, two of length, and its data.
pub proof fn packed_layout(arguments: Seq<ArgumentView>, last: ArgumentView)
    ensures
        input_arguments_bytes(seq![]) == Seq::<u8>::empty(),
        ({
            let before = input_arguments_bytes(arguments);
            let b = input_arguments_bytes(arguments.push(last));
            let n = before.len() as int;
            &&& b.len() == n + 4 + last.data.len()
            &&& b.take(n) == before
            &&& b[n] + 0x100 * b[n + 1] == last.type_
            &&& b[n + 2] + 0x100 * b[n + 3] == last.data_length
            &&& b.skip(n + 4) == last.data
        }),
{
    let before = input_arguments_bytes(arguments);
    let all = arguments.push(last);
    let b = input_arguments_bytes(all);
    let n = before.len() as int;
    assert(all.drop_last() =~= arguments);
    assert(b == before + input_argument_bytes(last));
    u16_digits(last.type_);
    u16_digits(last.data_length);
    assert(b[n] == u16_le(last.type_)[0] && b[n + 1] == u16_le(last.type_)[1]);
    assert(b[n + 2] == u16_le(last.data_length)[0] && b[n + 3] == u16_le(last.data_length)[1]);
    assert(b.take(n) =~= before);
    assert(b.skip(n + 4) =~= last.data);
}

/// An integer is the number whose digits to the base 256 are the first four bytes of its data, the
/// lowest first; bytes that are missing count as zero.
pub proof fn integer_has_its_digits(data: Seq<u8>)
    ensures
        value_of(0, data) is Integer,
        data.len() == 0 ==> value_of(0, data)->Integer_0 == 0,
        data.len() == 1 ==> value_of(0, data)->Integer_0 == data[0],
        data.len() == 2 ==> value_of(0, data)->Integer_0 == data[0] + 0x100 * data[1],
        data.len() == 3 ==> value_of(0, data)->Integer_0 == data[0] + 0x100 * data[1] + 0x1_0000
            * data[2],
        data.len() >= 4 ==> value_of(0, data)->Integer_0 == data[0] + 0x100 * data[1] + 0x1_0000
            * data[2] + 0x100_0000 * data[3],
{
    read_digits(first_four(data), 0);
}

/// A string is the text of its data without the null characters at its end: with them it is the
/// whole text again, and it ends in none.
pub proof fn string_is_its_text(data: Seq<u8>)
    ensures
        value_of(1, data) is String,
        ({
            let kept = value_of(1, data)->String_0;
            let text = utf8_text(data);
            &&& kept.len() <= text.len()
            &&& kept == text.take(kept.len() as int)
            &&& forall|i: int| kept.len() <= i < text.len() ==> #[trigger] text[i] == '\0'
            &&& kept.len() > 0 ==> kept.last() != '\0'
        }),
{
    trailing_is_removed(utf8_text(data), '\0');
}

/// A text that ends in no null character is read back from its bytes, whether a null byte stands
/// behind them or not.
pub proof fn text_is_read_back(s: Seq<char>)
    requires
        s.len() == 0 || s.last() != '\0',
    ensures
        value_of(1, encode_utf8(s)) == ValueView::String(s),
        value_of(1, encode_utf8(s).push(0)) == ValueView::String(s),
{
    encoded_text_is_read(s, seq![]);
    string_payload_text(s);
    assert(s.push('\0').drop_last() =~= s);
}

/// A buffer, and whatever has a type without a meaning of its own, is its data.
pub proof fn buffer_is_its_data(type_: u16, data: Seq<u8>)
    requires
        type_ == 2 || type_ >= 5,
    ensures
        value_of(type_, data) == ValueView::Buffer(data),
{
}

} // verus!
