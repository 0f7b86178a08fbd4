//! What the requests to the driver look like.
use crate::acpi::{request_of, MAX_ARGUMENTS};
use crate::argument::{argument_framing, AcpiMethodArgument, MethodArgumentView};
use crate::bytes::{le_u32, read_digits, u32_le, u32_read_back, u32_round_trip};
use crate::error::AcpiParseError;
use crate::input::{
    all_encodable, framed, given, input_argument_bytes, input_arguments_bytes, input_bytes, input_of,
    lemma_total_bounded, name_field, total_length, InputView,
    ACPI_EVAL_INPUT_BUFFER_COMPLEX_SIGNATURE_EX, METHOD_NAME_LENGTH,
};
use crate::packing::{lemma_framed_sized, packed_arguments_are_told_apart, packed_layout};
use vstd::prelude::*;
use vstd::utf8::encode_utf8;

verus! {

/// A method can be asked for exactly where it has no more than seven arguments and the driver
/// can be given each of them. Too many arguments are reported before one that is too long.
pub proof fn request_succeeds_exactly(name: Seq<char>, args: Seq<MethodArgumentView>)
    ensures
        request_of(name, args) is Ok <==> args.len() <= MAX_ARGUMENTS && all_encodable(args),
        request_of(name, args) == Err::<Seq<u8>, AcpiParseError>(AcpiParseError::InsufficientLength)
            <==> args.len() > MAX_ARGUMENTS,
        request_of(name, args) == Err::<Seq<u8>, AcpiParseError>(AcpiParseError::InvalidFormat)
            <==> args.len() <= MAX_ARGUMENTS && !all_encodable(args),
{
}

proof fn lemma_parts(a: Seq<u8>, n: Seq<u8>, s: Seq<u8>, c: Seq<u8>, rest: Seq<u8>)
    requires
        a.len() == 4,
        n.len() == METHOD_NAME_LENGTH,
        s.len() == 4,
        c.len() == 4,
    ensures
        ({
            let b = a + n + s + c + rest;
            &&& b.len() == METHOD_NAME_LENGTH + 12 + rest.len()
            &&& b.subrange(0, 4) == a
            &&& b.subrange(4, 260) == n
            &&& b.subrange(260, 264) == s
            &&& b.subrange(264, 268) == c
            &&& b.subrange(268, b.len() as int) == rest
        }),
{
    let b = a + n + s + c + rest;
    assert(b.subrange(0, 4) =~= a);
    assert(b.subrange(4, 260) =~= n);
    assert(b.subrange(260, 264) =~= s);
    assert(b.subrange(264, 268) =~= c);
    assert(b.subrange(268, b.len() as int) =~= rest);
}

/// The number of bytes that the arguments take up in a request: four, and their data.
proof fn lemma_arguments_length(args: Seq<MethodArgumentView>)
    requires
        all_encodable(args),
    ensures
        input_arguments_bytes(framed(args)).len() == 4 * args.len() + total_length(framed(args)),
    decreases args.len(),
{
    if args.len() > 0 {
        let init = args.drop_last();
        assert(all_encodable(init)) by {
            assert forall|i: int| 0 <= i < init.len() implies (#[trigger] init[i]).encodable() by {
                assert(init[i] == args[i]);
            }
        }
        lemma_arguments_length(init);
        assert(framed(args).drop_last() =~= framed(init));
        let last = args[args.len() - 1];
        assert(last.encodable());
        assert(framed(args).last() == last.framed());
        assert(input_argument_bytes(last.framed()).len() == 4 + last.payload().len());
    }
}

/// The bytes of an input buffer are the signature, the field with the name, the sum of the
/// lengths of the arguments, their number, and the arguments one behind the other. The sum and the
/// number are those modulo 2^32.
pub proof fn input_layout(name: Seq<char>, args: Seq<MethodArgumentView>)
    requires
        all_encodable(args),
    ensures
        ({
            let b = input_bytes(input_of(name, args)->Ok_0);
            let total = total_length(framed(args));
            &&& b.len() == METHOD_NAME_LENGTH + 12 + 4 * args.len() + total
            &&& b.subrange(0, 4) == u32_le(ACPI_EVAL_INPUT_BUFFER_COMPLEX_SIGNATURE_EX)
            &&& b.subrange(4, 260) == name_field(encode_utf8(name))
            &&& le_u32(b, 260) == total as u32
            &&& le_u32(b, 264) == args.len() as u32
            &&& b.subrange(268, b.len() as int) == input_arguments_bytes(framed(args))
        }),
{
    let input: InputView = input_of(name, args)->Ok_0;
    let b = input_bytes(input);
    lemma_parts(
        u32_le(input.signature),
        input.methodname,
        u32_le(input.size),
        u32_le(input.argumentcount),
        input_arguments_bytes(input.arguments),
    );
    lemma_arguments_length(args);
    u32_round_trip(b, 260, input.size);
    u32_round_trip(b, 264, input.argumentcount);
}

/// The bytes of a request are those of its input buffer, with the sum and the number of its
/// arguments as they are.
pub proof fn request_layout(name: Seq<char>, args: Seq<MethodArgumentView>)
    requires
        request_of(name, args) is Ok,
    ensures
        ({
            let b = request_of(name, args)->Ok_0;
            let total = total_length(framed(args));
            &&& b.len() == METHOD_NAME_LENGTH + 12 + 4 * args.len() + total
            &&& b.subrange(0, 4) == u32_le(ACPI_EVAL_INPUT_BUFFER_COMPLEX_SIGNATURE_EX)
            &&& b.subrange(4, 260) == name_field(encode_utf8(name))
            &&& le_u32(b, 260) == total
            &&& le_u32(b, 264) == args.len()
            &&& b.subrange(268, b.len() as int) == input_arguments_bytes(framed(args))
        }),
{
    input_layout(name, args);
    lemma_total_bounded(framed(args));
}

/// Of an argument the type and the data tell all that the driver frames.
proof fn lemma_framed_told(a: MethodArgumentView, b: MethodArgumentView)
    requires
        a.framed().type_ == b.framed().type_,
        a.framed().data == b.framed().data,
    ensures
        a.framed() == b.framed(),
{
    if let MethodArgumentView::Int(i) = a {
        if let MethodArgumentView::Int(j) = b {
            u32_read_back(i);
            u32_read_back(j);
        }
    }
}

/// Two input buffers have the same bytes exactly where their names fill the field for them alike
/// and the driver frames their arguments alike: as many, with the same types and data.
pub proof fn inputs_are_told_apart(
    name: Seq<char>,
    args: Seq<MethodArgumentView>,
    other_name: Seq<char>,
    other_args: Seq<MethodArgumentView>,
)
    requires
        all_encodable(args),
        all_encodable(other_args),
    ensures
        input_bytes(input_of(name, args)->Ok_0) == input_bytes(input_of(other_name, other_args)->Ok_0)
            <==> name_field(encode_utf8(name)) == name_field(encode_utf8(other_name)) && framed(args)
            == framed(other_args),
{
    let b = input_bytes(input_of(name, args)->Ok_0);
    let c = input_bytes(input_of(other_name, other_args)->Ok_0);
    let left = framed(args);
    let right = framed(other_args);
    if b == c {
        input_layout(name, args);
        input_layout(other_name, other_args);
        lemma_framed_sized(args);
        lemma_framed_sized(other_args);
        packed_arguments_are_told_apart(left, right);
        assert forall|i: int| 0 <= i < left.len() implies left[i] == right[i] by {
            assert(left[i].type_ == right[i].type_ && left[i].data == right[i].data);
            lemma_framed_told(args[i], other_args[i]);
        }
        assert(left =~= right);
    }
    if left == right {
        assert(args.len() == left.len() && other_args.len() == right.len());
    }
}

/// Two requests are the same bytes exactly where their names fill the field for them alike and
/// the driver frames their arguments alike.
pub proof fn requests_are_told_apart(
    name: Seq<char>,
    args: Seq<MethodArgumentView>,
    other_name: Seq<char>,
    other_args: Seq<MethodArgumentView>,
)
    requires
        request_of(name, args) is Ok,
        request_of(other_name, other_args) is Ok,
    ensures
        request_of(name, args) == request_of(other_name, other_args) <==> name_field(
            encode_utf8(name),
        ) == name_field(encode_utf8(other_name)) && framed(args) == framed(other_args),
{
    inputs_are_told_apart(name, args, other_name, other_args);
}

/// Two names without null bytes that fit in the field for them are told apart by it.
pub proof fn names_are_told_apart(name: Seq<u8>, other: Seq<u8>)
    requires
        name.len() <= METHOD_NAME_LENGTH,
        other.len() <= METHOD_NAME_LENGTH,
        forall|i: int| 0 <= i < name.len() ==> name[i] != 0,
        forall|i: int| 0 <= i < other.len() ==> other[i] != 0,
        name_field(name) == name_field(other),
    ensures
        name == other,
{
    let f = name_field(name);
    let g = name_field(other);
    if name.len() < other.len() {
        let end = name.len() as int;
        assert(f[end] == 0 && g[end] == other[end]);
    } else if other.len() < name.len() {
        let end = other.len() as int;
        assert(g[end] == 0 && f[end] == name[end]);
    }
    assert(name.len() == other.len());
    assert forall|i: int| 0 <= i < name.len() implies name[i] == other[i] by {
        assert(f[i] == name[i] && g[i] == other[i]);
    }
    assert(name =~= other);
}

/// Of a longer name only the part that fits in the field counts.
pub proof fn long_name_is_cut(name: Seq<u8>)
    requires
        name.len() >= METHOD_NAME_LENGTH,
    ensures
        name_field(name) == name.take(METHOD_NAME_LENGTH as int),
{
    assert(name_field(name) =~= name.take(METHOD_NAME_LENGTH as int));
}

/// A method can be asked for with up to seven arguments of up to 65535 bytes of data each.
pub proof fn seven_arguments_at_most(name: Seq<char>, args: Seq<MethodArgumentView>)
    ensures
        request_of(name, args) is Ok <==> args.len() <= 7 && forall|i: int|
            0 <= i < args.len() ==> (#[trigger] args[i]).payload().len() <= 65535,
{
    assert(all_encodable(args) <==> forall|i: int|
        0 <= i < args.len() ==> (#[trigger] args[i]).payload().len() <= 65535) by {
        if all_encodable(args) {
            assert forall|i: int| 0 <= i < args.len() implies (#[trigger] args[i]).payload().len()
                <= 65535 by {
                assert(args[i].encodable());
            }
        }
    }
}

/// The field for the name holds the bytes of the name, and zeros behind them.
pub proof fn name_is_filled_up(name: Seq<u8>)
    ensures
        name_field(name).len() == 256,
        forall|i: int| 0 <= i < 256 && i < name.len() ==> #[trigger] name_field(name)[i] == name[i],
        forall|i: int| name.len() <= i < 256 ==> #[trigger] name_field(name)[i] == 0,
{
}

/// Whether the bytes ask for this method with so many arguments: the signature `AeiF`, the field
/// with the name, the number of bytes of data in all arguments, and the number of arguments.
#[verifier::opaque]
pub open spec fn asks(b: Seq<u8>, name: Seq<char>, count: int) -> bool {
    &&& b.len() >= 268
    &&& b[0] == 0x41 && b[1] == 0x65 && b[2] == 0x69 && b[3] == 0x46
    &&& b.subrange(4, 260) == name_field(encode_utf8(name))
    &&& b[260] + 0x100 * b[261] + 0x1_0000 * b[262] + 0x100_0000 * b[263] == b.len() - 268 - 4
        * count
    &&& b[264] + 0x100 * b[265] + 0x1_0000 * b[266] + 0x100_0000 * b[267] == count
}

/// Whether an integer argument stands at the offset: its type, its length, and its four digits to
/// the base 256.
#[verifier::opaque]
pub open spec fn integer_at(b: Seq<u8>, at: int, x: int) -> bool {
    &&& b.len() >= at + 8
    &&& b[at] == 0 && b[at + 1] == 0 && b[at + 2] == 4 && b[at + 3] == 0
    &&& b[at + 4] + 0x100 * b[at + 5] + 0x1_0000 * b[at + 6] + 0x100_0000 * b[at + 7] == x
}

/// The head of a request: the signature `AeiF`, the field with the name, the number of bytes of
/// data in all arguments, and the number of arguments.
pub proof fn request_head(name: Seq<char>, args: Seq<MethodArgumentView>)
    requires
        request_of(name, args) is Ok,
    ensures
        asks(request_of(name, args)->Ok_0, name, args.len() as int),
{
    reveal(asks);
    let b = request_of(name, args)->Ok_0;
    request_layout(name, args);
    read_digits(b, 260);
    read_digits(b, 264);
    let signature = b.subrange(0, 4);
    assert(signature[0] == b[0] && signature[1] == b[1]);
    assert(signature[2] == b[2] && signature[3] == b[3]);
}

/// One more argument leaves the bytes of the others behind the head as they are, and appends two
/// bytes of type, two of length, and its data.
pub proof fn argument_is_appended(name: Seq<char>, args: Seq<MethodArgumentView>, a: MethodArgumentView)
    requires
        request_of(name, args) is Ok,
        request_of(name, args.push(a)) is Ok,
    ensures
        ({
            let b = request_of(name, args)->Ok_0;
            let c = request_of(name, args.push(a))->Ok_0;
            let n = b.len() as int;
            &&& n >= 268
            &&& c.len() == n + 4 + a.payload().len()
            &&& c.subrange(268, n) == b.subrange(268, n)
            &&& c[n] + 0x100 * c[n + 1] == a.framed().type_
            &&& c[n + 2] + 0x100 * c[n + 3] == a.payload().len()
            &&& c.skip(n + 4) == a.payload()
        }),
{
    let b = request_of(name, args)->Ok_0;
    let c = request_of(name, args.push(a))->Ok_0;
    let n = b.len() as int;
    request_layout(name, args);
    request_layout(name, args.push(a));
    assert(args.push(a).last().encodable());
    assert(framed(args.push(a)) =~= framed(args).push(a.framed()));
    packed_layout(framed(args), a.framed());
    let head = input_arguments_bytes(framed(args));
    let packed = input_arguments_bytes(framed(args.push(a)));
    let m = head.len() as int;
    assert(n == 268 + m);
    assert(b.subrange(268, n) =~= head);
    assert(packed == c.subrange(268, c.len() as int));
    assert(c.subrange(268, n) =~= packed.take(m));
    assert(packed[m] == c[n] && packed[m + 1] == c[n + 1]);
    assert(packed[m + 2] == c[n + 2] && packed[m + 3] == c[n + 3]);
    assert(c.skip(n + 4) =~= packed.skip(m + 4));
}

/// The first argument is the same in bytes that agree there.
pub(crate) proof fn lemma_integer_moved(a: Seq<u8>, b: Seq<u8>, x: int)
    requires
        a.len() >= 276,
        b.len() >= 276,
        a.subrange(268, 276) == b.subrange(268, 276),
        integer_at(a, 268, x),
    ensures
        integer_at(b, 268, x),
{
    reveal(integer_at);
    let c = a.subrange(268, 276);
    let d = b.subrange(268, 276);
    assert forall|k: int| 268 <= k < 276 implies #[trigger] a[k] == b[k] by {
        assert(c[k - 268] == a[k]);
        assert(d[k - 268] == b[k]);
    }
}

/// The bytes behind the head of a request with one integer.
pub proof fn one_integer_is_sent(name: Seq<char>, x: u32)
    ensures
        ({
            let b = request_of(name, seq![MethodArgumentView::Int(x)])->Ok_0;
            &&& request_of(name, seq![MethodArgumentView::Int(x)]) is Ok
            &&& b.len() == 276
            &&& integer_at(b, 268, x as int)
        }),
{
    reveal(integer_at);
    let none: Seq<MethodArgumentView> = seq![];
    let a = MethodArgumentView::Int(x);
    assert(none.push(a) =~= seq![a]);
    argument_framing(a);
    assert(a.encodable());
    request_layout(name, none);
    argument_is_appended(name, none, a);
    let b = request_of(name, seq![a])->Ok_0;
    let d = b.skip(272);
    assert(d[0] == b[272] && d[1] == b[273] && d[2] == b[274] && d[3] == b[275]);
}

/// The bytes behind the head of a request with two integers.
pub proof fn two_integers_are_sent(name: Seq<char>, x: u32, y: u32)
    ensures
        ({
            let args = seq![MethodArgumentView::Int(x), MethodArgumentView::Int(y)];
            let b = request_of(name, args)->Ok_0;
            &&& request_of(name, args) is Ok
            &&& b.len() == 284
            &&& integer_at(b, 268, x as int)
            &&& integer_at(b, 276, y as int)
        }),
{
    reveal(integer_at);
    let first = seq![MethodArgumentView::Int(x)];
    let a = MethodArgumentView::Int(y);
    let args = seq![MethodArgumentView::Int(x), MethodArgumentView::Int(y)];
    assert(first.push(a) =~= args);
    argument_framing(a);
    argument_framing(first[0]);
    assert(first[0].encodable() && a.encodable());
    one_integer_is_sent(name, x);
    argument_is_appended(name, first, a);
    let b = request_of(name, args)->Ok_0;
    lemma_integer_moved(request_of(name, first)->Ok_0, b, x as int);
    let d = b.skip(280);
    assert(d[0] == b[280] && d[1] == b[281] && d[2] == b[282] && d[3] == b[283]);
}

/// The bytes behind the head of a request with one buffer.
pub proof fn one_buffer_is_sent(name: Seq<char>, data: Seq<u8>)
    requires
        data.len() <= 65535,
    ensures
        ({
            let b = request_of(name, seq![MethodArgumentView::Buffer(data)])->Ok_0;
            &&& request_of(name, seq![MethodArgumentView::Buffer(data)]) is Ok
            &&& b.len() == 272 + data.len()
            &&& b[268] == 2 && b[269] == 0
            &&& b[270] + 0x100 * b[271] == data.len()
            &&& b.skip(272) == data
        }),
{
    let none: Seq<MethodArgumentView> = seq![];
    let a = MethodArgumentView::Buffer(data);
    assert(none.push(a) =~= seq![a]);
    argument_framing(a);
    assert(a.encodable());
    request_layout(name, none);
    argument_is_appended(name, none, a);
}

/// The arguments given are those of the list, in its order; none where there is no list.
pub proof fn arguments_given(list: &[AcpiMethodArgument], i: int)
    ensures
        given(None) == Seq::<MethodArgumentView>::empty(),
        given(Some(list)).len() == list@.len(),
        0 <= i < list@.len() ==> given(Some(list))[i] == list@[i]@,
{
}

} // verus!
