//! What the operations on the fan, the battery, the clock and the connectors read from what the
//! driver laid out, and what they lay out for it.
use crate::acpi::request_of;
use crate::argument::{argument_framing, MethodArgumentView};
use crate::battery::{
    has_values, is_information, is_status, BixConversions, ReportedBix, ReportedBst, BIX_COUNT,
    BST_COUNT,
};
use crate::bytes::u32_le;
use crate::device::DeviceReply;
use crate::error::{AcpiParseError, Error};
use crate::framing::{argument_holds, word, word_of_integer, Framed};
use crate::guid::{mixed_endian, mixed_endian_by_index, Guid};
use crate::output::OutputView;
use crate::replies::{holds, lemma_held};
use crate::requests::{
    argument_is_appended, integer_at, lemma_integer_moved, one_integer_is_sent,
};
use crate::rtc::{time_reply, AcpiTimerId};
use crate::thermal::{
    get_var_request, set_var_request, temperature_reply, variable_reply, written_reply, FanGuids,
    Threshold,
};
use crate::ucsi::mailbox_reply;
use vstd::prelude::*;

verus! {

/// Each result is read as it is laid out.
proof fn lemma_laid_out(reply: DeviceReply, items: Seq<Framed>)
    requires
        holds(reply, items),
    ensures
        reply.evaluation() is Ok,
        reply.evaluation()->Ok_0.count == items.len(),
        reply.evaluation()->Ok_0.arguments.len() == items.len(),
        forall|i: int|
            #![trigger items[i]]
            #![trigger reply.evaluation()->Ok_0.arguments[i]]
            0 <= i < items.len() ==> {
                let a = reply.evaluation()->Ok_0.arguments[i];
                &&& a.type_ == items[i].type_
                &&& a.data == items[i].data
                &&& a.data_32 == word(items[i])
                &&& 0 <= word(items[i]) <= u32::MAX
            },
{
    lemma_held(reply, items);
    assert forall|i: int| 0 <= i < items.len() implies {
        let a = reply.evaluation()->Ok_0.arguments[i];
        &&& a.type_ == (#[trigger] items[i]).type_
        &&& a.data == items[i].data
        &&& a.data_32 == word(items[i])
        &&& 0 <= word(items[i]) <= u32::MAX
    } by {
        assert(items[i].valid());
        argument_holds(items[i]);
        assert(reply.evaluation()->Ok_0.arguments[i] == items[i].argument());
    }
}

/// A variable is read from two results: where the 32-bit value of the first is zero, it is that of
/// the second, whatever it is.
pub proof fn variable_is_the_second_value(reply: DeviceReply, items: Seq<Framed>)
    requires
        holds(reply, items),
    ensures
        items.len() != 2 ==> variable_reply(reply) == Err::<u32, Error>(Error::UnexpectedResponse),
        items.len() == 2 && word(items[0]) != 0 ==> variable_reply(reply) == Err::<u32, Error>(
            Error::OperationFailed,
        ),
        items.len() == 2 && word(items[0]) == 0 ==> variable_reply(reply) is Ok
            && variable_reply(reply)->Ok_0 == word(items[1]),
{
    lemma_laid_out(reply, items);
}

/// The integer that the driver returns behind a status of zero is the value of the variable.
pub proof fn variable_is_read(reply: DeviceReply, status: Framed, result: Framed, value: u32)
    requires
        holds(reply, seq![status, result]),
        status.type_ == 0,
        status.data == u32_le(0),
        result.type_ == 0,
        result.data == u32_le(value),
    ensures
        variable_reply(reply) == Ok::<u32, Error>(value),
{
    let items = seq![status, result];
    assert(items[0].valid() && items[1].valid());
    word_of_integer(status, 0);
    word_of_integer(result, value);
    variable_is_the_second_value(reply, items);
}

/// A variable was written where there is one result with the 32-bit value zero.
pub proof fn writing_is_confirmed_by_zero(reply: DeviceReply, items: Seq<Framed>)
    requires
        holds(reply, items),
    ensures
        items.len() != 1 ==> written_reply(reply) == Err::<(), Error>(Error::UnexpectedResponse),
        items.len() == 1 && word(items[0]) != 0 ==> written_reply(reply) == Err::<(), Error>(
            Error::OperationFailed,
        ),
        items.len() == 1 && word(items[0]) == 0 ==> written_reply(reply) == Ok::<(), Error>(()),
{
    lemma_laid_out(reply, items);
}

/// The temperature is the 32-bit value of the one result.
pub proof fn temperature_is_the_one_value(reply: DeviceReply, items: Seq<Framed>)
    requires
        holds(reply, items),
    ensures
        items.len() != 1 ==> temperature_reply(reply) == Err::<u32, Error>(
            Error::UnexpectedResponse,
        ),
        items.len() == 1 ==> temperature_reply(reply) is Ok && temperature_reply(reply)->Ok_0
            == word(items[0]),
{
    lemma_laid_out(reply, items);
}

/// The mailbox is the data of the one result, byte for byte, where that is a buffer.
pub proof fn mailbox_is_the_buffer(reply: DeviceReply, items: Seq<Framed>)
    requires
        holds(reply, items),
    ensures
        items.len() != 1 ==> mailbox_reply(reply) == Err::<Seq<u8>, Error>(
            Error::UnexpectedResponse,
        ),
        items.len() == 1 && items[0].type_ != 2 ==> mailbox_reply(reply) == Err::<Seq<u8>, Error>(
            Error::UnexpectedArgumentType(items[0].type_),
        ),
        items.len() == 1 && items[0].type_ == 2 ==> mailbox_reply(reply) == Ok::<Seq<u8>, Error>(
            items[0].data,
        ),
{
    lemma_laid_out(reply, items);
}

/// The time is the data of the one result, byte for byte, where that is a buffer.
pub proof fn time_is_the_buffer(reply: DeviceReply, items: Seq<Framed>)
    requires
        holds(reply, items),
    ensures
        items.len() != 1 || items[0].type_ != 2 ==> time_reply(reply) == Err::<Seq<u8>, Error>(
            Error::UnexpectedResponse,
        ),
        items.len() == 1 && items[0].type_ == 2 ==> time_reply(reply) == Ok::<Seq<u8>, Error>(
            items[0].data,
        ),
{
    lemma_laid_out(reply, items);
}

/// What fails to be evaluated, or to be parsed, fails each of these operations with that error.
pub proof fn failure_is_passed_on(reply: DeviceReply, e: AcpiParseError)
    requires
        reply.evaluation() == Err::<OutputView, AcpiParseError>(e),
    ensures
        variable_reply(reply) == Err::<u32, Error>(Error::Parse(e)),
        written_reply(reply) == Err::<(), Error>(Error::Parse(e)),
        temperature_reply(reply) == Err::<u32, Error>(Error::Parse(e)),
        mailbox_reply(reply) == Err::<Seq<u8>, Error>(Error::Parse(e)),
        time_reply(reply) == Err::<Seq<u8>, Error>(Error::Parse(e)),
{
}

/// A battery status takes four results, and the static information twenty-one.
pub proof fn battery_counts(reply: DeviceReply, items: Seq<Framed>)
    requires
        holds(reply, items),
    ensures
        reply.evaluation() is Ok,
        has_values(reply.evaluation()->Ok_0, BST_COUNT) <==> items.len() == 4,
        has_values(reply.evaluation()->Ok_0, BIX_COUNT) <==> items.len() == 21,
{
    lemma_laid_out(reply, items);
}

/// Whether the status holds the 32-bit values of four results, in their order.
pub open spec fn status_laid_out(bst: ReportedBst, items: Seq<Framed>) -> bool {
    &&& bst.battery_state == word(items[0])
    &&& bst.battery_present_rate == word(items[1])
    &&& bst.battery_remaining_capacity == word(items[2])
    &&& bst.battery_present_voltage == word(items[3])
}

/// Whether the information holds the 32-bit values of twenty-one results in their order, and of
/// the four strings the data, byte for byte.
pub open spec fn information_laid_out(bix: ReportedBix, items: Seq<Framed>) -> bool {
    &&& bix.revision == word(items[0])
    &&& bix.power_unit == word(items[1])
    &&& bix.design_capacity == word(items[2])
    &&& bix.last_full_charge_capacity == word(items[3])
    &&& bix.battery_technology == word(items[4])
    &&& bix.design_voltage == word(items[5])
    &&& bix.design_cap_of_warning == word(items[6])
    &&& bix.design_cap_of_low == word(items[7])
    &&& bix.cycle_count == word(items[8])
    &&& bix.measurement_accuracy == word(items[9])
    &&& bix.max_sampling_time == word(items[10])
    &&& bix.min_sampling_time == word(items[11])
    &&& bix.max_averaging_interval == word(items[12])
    &&& bix.min_averaging_interval == word(items[13])
    &&& bix.battery_capacity_granularity_1 == word(items[14])
    &&& bix.battery_capacity_granularity_2 == word(items[15])
    &&& bix.model_number@ == items[16].data
    &&& bix.serial_number@ == items[17].data
    &&& bix.battery_type@ == items[18].data
    &&& bix.oem_info@ == items[19].data
    &&& bix.battery_swapping_capability == word(items[20])
}

/// The battery status holds the values of the four results as they were laid out.
pub proof fn status_holds_the_values(reply: DeviceReply, items: Seq<Framed>, bst: ReportedBst)
    requires
        holds(reply, items),
        items.len() == 4,
    ensures
        is_status(bst, reply.evaluation()->Ok_0) <==> status_laid_out(bst, items),
{
    lemma_laid_out(reply, items);
    let a = reply.evaluation()->Ok_0.arguments;
    assert(a[0].data_32 == word(items[0]));
    assert(a[1].data_32 == word(items[1]));
    assert(a[2].data_32 == word(items[2]));
    assert(a[3].data_32 == word(items[3]));
}

/// The static information holds the values of the twenty-one results as they were laid out.
pub proof fn information_holds_the_values(reply: DeviceReply, items: Seq<Framed>, bix: ReportedBix)
    requires
        holds(reply, items),
        items.len() == 21,
    ensures
        is_information(bix, reply.evaluation()->Ok_0) <==> information_laid_out(bix, items),
{
    lemma_laid_out(reply, items);
    let a = reply.evaluation()->Ok_0.arguments;
    assert forall|i: int| 0 <= i < 21 implies (#[trigger] a[i]).data_32 == word(items[i])
        && a[i].data == items[i].data by {}
}

/// The information can be converted exactly where all of its parts can be.
pub proof fn conversions_are_complete<U, T, M, N, B, O, C>(
    parts: BixConversions<U, T, M, N, B, O, C>,
)
    ensures
        !parts.complete() <==> {
            ||| parts.power_unit is None
            ||| parts.battery_technology is None
            ||| parts.model_number is None
            ||| parts.serial_number is None
            ||| parts.battery_type is None
            ||| parts.oem_info is None
            ||| parts.battery_swapping_capability is None
        },
{
}

/// Whether the fan and the GUID of a variable stand in front of the other arguments, the first four
/// bytes of the GUID and the two pairs behind them turned around.
#[verifier::opaque]
pub open spec fn names_variable(b: Seq<u8>, fan_instance: u8, guid: Guid) -> bool {
    &&& integer_at(b, 268, fan_instance as int)
    &&& b.len() >= 296 && b[276] == 2 && b[277] == 0 && b[278] == 16 && b[279] == 0
    &&& forall|i: int| 0 <= i < 16 ==> #[trigger] b[280 + i] == guid.bytes@[turned(i)]
}

/// Where the byte at this index of a GUID comes from in mixed-endian order.
pub open spec fn turned(i: int) -> int {
    if i < 4 {
        3 - i
    } else if i < 6 {
        9 - i
    } else if i < 8 {
        13 - i
    } else {
        i
    }
}

/// A request for a variable carries the number of the fan and the GUID of the variable.
pub proof fn variable_is_asked_for(fan_instance: u8, guid: Guid)
    ensures
        get_var_request(fan_instance, guid) is Ok,
        get_var_request(fan_instance, guid)->Ok_0.len() == 296,
        names_variable(get_var_request(fan_instance, guid)->Ok_0, fan_instance, guid),
{
    lemma_fan_and_guid("\\_SB.ECT0.TGVR"@, fan_instance, guid);
}

/// The fan and the variable are the same in bytes that agree there.
proof fn lemma_variable_moved(a: Seq<u8>, b: Seq<u8>, fan_instance: u8, guid: Guid)
    requires
        a.len() >= 296,
        b.len() >= 296,
        a.subrange(268, 296) == b.subrange(268, 296),
        names_variable(a, fan_instance, guid),
    ensures
        names_variable(b, fan_instance, guid),
{
    reveal(names_variable);
    reveal(integer_at);
    let c = a.subrange(268, 296);
    let d = b.subrange(268, 296);
    assert forall|k: int| 268 <= k < 296 implies #[trigger] a[k] == b[k] by {
        assert(c[k - 268] == a[k]);
        assert(d[k - 268] == b[k]);
    }
    assert forall|i: int| 0 <= i < 16 implies #[trigger] b[280 + i] == guid.bytes@[turned(i)] by {
        assert(a[280 + i] == b[280 + i]);
    }
}

proof fn lemma_fan_and_guid(name: Seq<char>, fan_instance: u8, guid: Guid)
    ensures
        ({
            let args = seq![
                MethodArgumentView::Int(fan_instance as u32),
                MethodArgumentView::Guid(mixed_endian(guid.bytes@)),
            ];
            &&& request_of(name, args) is Ok
            &&& request_of(name, args)->Ok_0.len() == 296
            &&& names_variable(request_of(name, args)->Ok_0, fan_instance, guid)
        }),
{
    reveal(names_variable);
    let fan = MethodArgumentView::Int(fan_instance as u32);
    let variable = MethodArgumentView::Guid(mixed_endian(guid.bytes@));
    assert(seq![fan].push(variable) =~= seq![fan, variable]);
    argument_framing(fan);
    argument_framing(variable);
    assert(fan.encodable() && variable.encodable());
    one_integer_is_sent(name, fan_instance as u32);
    argument_is_appended(name, seq![fan], variable);
    let a = request_of(name, seq![fan])->Ok_0;
    let b = request_of(name, seq![fan, variable])->Ok_0;
    lemma_integer_moved(a, b, fan_instance as int);
    lemma_turned(b, guid);
}

proof fn lemma_turned(b: Seq<u8>, guid: Guid)
    requires
        b.len() == 296,
        b.skip(280) == mixed_endian(guid.bytes@),
    ensures
        forall|i: int| 0 <= i < 16 ==> #[trigger] b[280 + i] == guid.bytes@[turned(i)],
{
    let d = b.skip(280);
    assert forall|i: int| 0 <= i < 16 implies #[trigger] b[280 + i] == guid.bytes@[turned(i)] by {
        mixed_endian_by_index(guid.bytes@, i);
        assert(d[i] == b[280 + i]);
    }
}

/// A request that sets a variable carries the fan and the GUID like one that asks for it, and
/// behind them the value, whatever it is.
pub proof fn variable_is_set(fan_instance: u8, guid: Guid, value: u32)
    ensures
        set_var_request(fan_instance, guid, value) is Ok,
        set_var_request(fan_instance, guid, value)->Ok_0.len() == 304,
        names_variable(set_var_request(fan_instance, guid, value)->Ok_0, fan_instance, guid),
        integer_at(set_var_request(fan_instance, guid, value)->Ok_0, 296, value as int),
{
    reveal(integer_at);
    let fan = MethodArgumentView::Int(fan_instance as u32);
    let variable = MethodArgumentView::Guid(mixed_endian(guid.bytes@));
    let written = MethodArgumentView::Int(value);
    let name = "\\_SB.ECT0.TSVR"@;
    lemma_fan_and_guid(name, fan_instance, guid);
    let args = seq![fan, variable];
    assert(args.push(written) =~= seq![fan, variable, written]);
    argument_framing(fan);
    argument_framing(variable);
    argument_framing(written);
    assert(fan.encodable() && variable.encodable() && written.encodable());
    argument_is_appended(name, args, written);
    let a = request_of(name, args)->Ok_0;
    let b = request_of(name, args.push(written))->Ok_0;
    lemma_variable_moved(a, b, fan_instance, guid);
    let d = b.skip(300);
    assert(d[0] == b[300] && d[1] == b[301] && d[2] == b[302] && d[3] == b[303]);
}

/// Each threshold has a variable of its own, and each timer a number.
pub proof fn thresholds_and_timers(guids: FanGuids)
    ensures
        guids.threshold_guid(Threshold::On) == guids.on_temp,
        guids.threshold_guid(Threshold::Ramping) == guids.ramp_temp,
        guids.threshold_guid(Threshold::Max) == guids.max_temp,
        AcpiTimerId::AcPower.number() == 0,
        AcpiTimerId::DcPower.number() == 1,
{
}

} // verus!
