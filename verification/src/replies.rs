//! What the replies of the driver mean for the operations that return one integer or a status.
use crate::acpi::{status_reply, u32_reply};
use crate::bytes::{le_u32, u32_le, u32_read_back, u64_le, u64_read_back};
use crate::device::DeviceReply;
use crate::error::{AcpiParseError, Error};
use crate::framing::{
    accepted_output_is_framed, all_valid, argument_takes_eight_bytes, framed_arguments,
    output_buffer, output_length, output_round_trip, Framed,
};
use crate::output::OutputView;
use crate::packing::argument_values;
use crate::value::{first_four, value_of, ValueView};
use vstd::prelude::*;

verus! {

/// Whether the driver answered with the output buffer that holds these results.
pub open spec fn holds(reply: DeviceReply, items: Seq<Framed>) -> bool {
    &&& all_valid(items)
    &&& output_length(items) <= u32::MAX
    &&& reply.answer() == Ok::<Seq<u8>, i32>(output_buffer(items))
}

pub(crate) proof fn lemma_held(reply: DeviceReply, items: Seq<Framed>)
    requires
        holds(reply, items),
    ensures
        reply.evaluation() is Ok,
        reply.evaluation()->Ok_0.count == items.len(),
        reply.evaluation()->Ok_0.arguments == framed_arguments(items),
{
    output_round_trip(items);
    argument_takes_eight_bytes(items);
}

/// A result that fails to be evaluated, or to be parsed, fails every operation with that error.
pub proof fn failure_is_reported(reply: DeviceReply, e: AcpiParseError)
    requires
        reply.evaluation() == Err::<OutputView, AcpiParseError>(e),
    ensures
        u32_reply(reply) == Err::<u32, Error>(Error::Parse(e)),
        status_reply(reply) == Err::<(), Error>(Error::Parse(e)),
{
}

/// The code with which the evaluation failed is the one that is reported.
pub proof fn failure_code_is_reported(reply: DeviceReply, code: i32)
    requires
        reply.answer() == Err::<Seq<u8>, i32>(code),
    ensures
        u32_reply(reply) == Err::<u32, Error>(Error::Parse(AcpiParseError::EvaluationFailed(code))),
        status_reply(reply) == Err::<(), Error>(
            Error::Parse(AcpiParseError::EvaluationFailed(code)),
        ),
{
}

/// No result, or more than one, is an unexpected response.
pub proof fn one_result_is_required(reply: DeviceReply, items: Seq<Framed>)
    requires
        holds(reply, items),
        items.len() != 1,
    ensures
        u32_reply(reply) == Err::<u32, Error>(Error::UnexpectedResponse),
        status_reply(reply) == Err::<(), Error>(Error::UnexpectedResponse),
{
    lemma_held(reply, items);
}

/// A result that is no integer is refused with its type.
pub proof fn integer_type_is_required(reply: DeviceReply, result: Framed)
    requires
        holds(reply, seq![result]),
        result.type_ != 0,
    ensures
        u32_reply(reply) == Err::<u32, Error>(Error::UnexpectedArgumentType(result.type_)),
        status_reply(reply) == Err::<(), Error>(Error::UnexpectedArgumentType(result.type_)),
{
    lemma_held(reply, seq![result]);
}

/// An integer of another width than four or eight bytes is an unexpected response.
pub proof fn integer_width_is_required(reply: DeviceReply, result: Framed)
    requires
        holds(reply, seq![result]),
        result.type_ == 0,
        result.data.len() != 4,
        result.data.len() != 8,
    ensures
        u32_reply(reply) == Err::<u32, Error>(Error::UnexpectedResponse),
        status_reply(reply) == Err::<(), Error>(Error::UnexpectedResponse),
{
    assert(seq![result][0].valid());
    lemma_held(reply, seq![result]);
}

/// A 32-bit integer is read as it was returned, whether in four bytes or in eight.
pub proof fn integer_widths_agree(reply: DeviceReply, result: Framed, value: u32)
    requires
        holds(reply, seq![result]),
        result.type_ == 0,
        result.data == u32_le(value) || result.data == u64_le(value as u64),
    ensures
        u32_reply(reply) == Ok::<u32, Error>(value),
        status_reply(reply) == if value == 0 {
            Ok::<(), Error>(())
        } else {
            Err::<(), Error>(Error::OperationFailed)
        },
{
    assert(seq![result][0].valid());
    lemma_held(reply, seq![result]);
    u32_read_back(value);
    u64_read_back(value as u64);
    if result.data == u32_le(value) {
        assert(result.data + result.padding =~= result.data);
    }
}

/// An integer of eight bytes that does not fit in 32 bits is invalid data.
pub proof fn large_integer_is_invalid(reply: DeviceReply, result: Framed, value: u64)
    requires
        holds(reply, seq![result]),
        result.type_ == 0,
        result.data == u64_le(value),
        value > u32::MAX,
    ensures
        u32_reply(reply) == Err::<u32, Error>(Error::InvalidData),
        status_reply(reply) == Err::<(), Error>(Error::InvalidData),
{
    assert(seq![result][0].valid());
    lemma_held(reply, seq![result]);
    u64_read_back(value);
}

/// Each result is shown as the value of its type and data, in its order.
pub proof fn results_are_shown(reply: DeviceReply, items: Seq<Framed>)
    requires
        holds(reply, items),
    ensures
        reply.evaluation() is Ok,
        argument_values(reply.evaluation()->Ok_0.arguments) == items.map_values(
            |f: Framed| value_of(f.type_, f.data),
        ),
{
    lemma_held(reply, items);
    assert(argument_values(framed_arguments(items)) =~= items.map_values(
        |f: Framed| value_of(f.type_, f.data),
    ));
}

/// Where a reply is read as one integer, that integer is also the one value that it shows.
pub proof fn integer_is_the_value_shown(reply: DeviceReply)
    requires
        u32_reply(reply) is Ok,
    ensures
        argument_values(reply.evaluation()->Ok_0.arguments) == seq![
            ValueView::Integer(u32_reply(reply)->Ok_0),
        ],
{
    let output = reply.evaluation()->Ok_0;
    let items = accepted_output_is_framed(reply.answer()->Ok_0);
    let f = items[0];
    assert(f.valid());
    assert(output.arguments[0] == f.argument());
    let data = f.data;
    assert(data.len() == 4 || data.len() == 8);
    assert forall|i: int| 0 <= i < 4 implies first_four(data)[i] == data[i] by {}
    assert(le_u32(first_four(data), 0) == le_u32(data, 0));
    if data.len() == 4 {
        assert(data + f.padding =~= data);
    }
    assert(argument_values(output.arguments) =~= seq![
        ValueView::Integer(u32_reply(reply)->Ok_0),
    ]);
}

} // verus!
