//! What the operations give for what the driver laid out.
use crate::acpi::{u32_reply, Acpi};
use crate::argument::{AcpiMethodArgument, AcpiMethodArgumentV1, ArgumentView};
use crate::battery::{BixConversions, BixFixedStrings, BstReturn, ReportedBix, ReportedBst};
use crate::bytes::read_digits;
use crate::device::DeviceReply;
use crate::error::{AcpiParseError, Error, MailboxError};
use crate::framing::{
    all_valid, argument_holds, argument_takes_eight_bytes, output_buffer, output_layout,
    output_round_trip, word, Framed,
};
use crate::guid::{mixed_endian_by_index, Guid};
use crate::input::input_arguments_bytes;
use crate::output::{output_of, AcpiEvalOutputBufferV1, OutputView};
use crate::packing::{argument_values, packed_values_round_trip};
use crate::readings::{
    battery_counts, information_holds_the_values, information_laid_out, mailbox_is_the_buffer,
    status_holds_the_values, status_laid_out, temperature_is_the_one_value, time_is_the_buffer,
    variable_is_the_second_value, writing_is_confirmed_by_zero,
};
use crate::replies::{holds, lemma_held, results_are_shown};
use crate::rtc::{
    AlarmExpiredWakePolicy, AlarmTimerSeconds, TimeAlarmDeviceCapabilities, TimerStatus,
};
use crate::search::{
    property_has_its_text, test_device_by_its_part, DeviceProperty, SearchEvent, SearchState,
};
use crate::text::{has_part, utf16};
use crate::ucsi::{
    after_capability, after_connector_capability, after_connector_status, CommandType,
    DecodedCapability, SnapshotStart, UcsiSnapshot, WithCapability, WithConnectorCapability,
};
use crate::value::{
    acpi_value_from, parse_acpi_values, text_of, value_of, value_views, values_of, AcpiValue,
    ValueView,
};
use vstd::prelude::*;

verus! {

/// What is read of a fan is the 32-bit value of the second of two results, whatever it is, behind
/// a first one of zero, whichever of its variables is read.
pub proof fn fan_variable_is_read(acpi: &Acpi, reply: DeviceReply, items: Seq<Framed>)
    requires
        holds(reply, items),
    ensures
        forall|r: Result<u32, Error>|
            #[trigger] call_ensures(Acpi::acpi_get_var, (acpi, reply), r)
                ==> read_behind_status(r, items),
        forall|r: Result<u32, Error>|
            #[trigger] call_ensures(Acpi::get_rpm, (acpi, reply), r)
                ==> read_behind_status(r, items),
        forall|r: Result<u32, Error>|
            #[trigger] call_ensures(Acpi::get_min_rpm, (acpi, reply), r)
                ==> read_behind_status(r, items),
        forall|r: Result<u32, Error>|
            #[trigger] call_ensures(Acpi::get_max_rpm, (acpi, reply), r)
                ==> read_behind_status(r, items),
        forall|r: Result<u32, Error>|
            #[trigger] call_ensures(Acpi::get_threshold, (acpi, reply), r)
                ==> read_behind_status(r, items),
{
    variable_is_the_second_value(reply, items);
}

/// Whether this is what two results hold: the 32-bit value of the second, where that of the first
/// is zero.
pub open spec fn read_behind_status(r: Result<u32, Error>, items: Seq<Framed>) -> bool {
    &&& items.len() != 2 ==> r == Err::<u32, Error>(Error::UnexpectedResponse)
    &&& items.len() == 2 && word(items[0]) != 0 ==> r == Err::<u32, Error>(Error::OperationFailed)
    &&& items.len() == 2 && word(items[0]) == 0 ==> r is Ok && r->Ok_0 == word(items[1])
}

/// A fan was set where there is one result, with the 32-bit value zero.
pub proof fn fan_variable_is_written(acpi: &Acpi, reply: DeviceReply, items: Seq<Framed>)
    requires
        holds(reply, items),
    ensures
        forall|r: Result<(), Error>|
            #[trigger] call_ensures(Acpi::acpi_set_var, (acpi, reply), r) ==> confirmed(r, items),
        forall|r: Result<(), Error>|
            #[trigger] call_ensures(Acpi::set_rpm, (acpi, reply), r) ==> confirmed(r, items),
        forall|r: Result<(), Error>|
            #[trigger] call_ensures(Acpi::set_threshold, (acpi, reply), r) ==> confirmed(r, items),
{
    writing_is_confirmed_by_zero(reply, items);
}

/// Whether this is success exactly for one result with the 32-bit value zero.
pub open spec fn confirmed(r: Result<(), Error>, items: Seq<Framed>) -> bool {
    &&& items.len() != 1 ==> r == Err::<(), Error>(Error::UnexpectedResponse)
    &&& items.len() == 1 && word(items[0]) != 0 ==> r == Err::<(), Error>(Error::OperationFailed)
    &&& items.len() == 1 && word(items[0]) == 0 ==> r == Ok::<(), Error>(())
}

/// The temperature is the 32-bit value of the one result, whatever it is.
pub proof fn temperature_is_read(acpi: &Acpi, reply: DeviceReply, items: Seq<Framed>)
    requires
        holds(reply, items),
    ensures
        forall|r: Result<u32, Error>|
            #[trigger] call_ensures(Acpi::get_temperature, (acpi, reply), r) ==> {
                &&& items.len() != 1 ==> r == Err::<u32, Error>(Error::UnexpectedResponse)
                &&& items.len() == 1 ==> r is Ok && r->Ok_0 == word(items[0])
            },
{
    temperature_is_the_one_value(reply, items);
}

/// The mailbox and the time are the data of the one buffer that was returned, byte for byte.
pub proof fn buffers_are_read(acpi: &Acpi, reply: DeviceReply, items: Seq<Framed>)
    requires
        holds(reply, items),
    ensures
        forall|r: Result<Vec<u8>, Error>|
            #[trigger] call_ensures(Acpi::ucsi_command, (acpi, reply), r) ==> {
                &&& items.len() != 1 ==> r == Err::<Vec<u8>, Error>(Error::UnexpectedResponse)
                &&& items.len() == 1 && items[0].type_ != 2 ==> r == Err::<Vec<u8>, Error>(
                    Error::UnexpectedArgumentType(items[0].type_),
                )
                &&& items.len() == 1 && items[0].type_ == 2 ==> r is Ok && r->Ok_0@ == items[0].data
            },
        forall|r: Result<Vec<u8>, Error>|
            #[trigger] call_ensures(Acpi::get_real_time, (acpi, reply), r) ==> {
                &&& items.len() != 1 || items[0].type_ != 2 ==> r == Err::<Vec<u8>, Error>(
                    Error::UnexpectedResponse,
                )
                &&& items.len() == 1 && items[0].type_ == 2 ==> r is Ok && r->Ok_0@ == items[0].data
            },
{
    mailbox_is_the_buffer(reply, items);
    time_is_the_buffer(reply, items);
}

/// The battery status and the static information hold what was laid out; the trip point is set
/// whatever was.
pub proof fn battery_is_read(acpi: &Acpi, reply: DeviceReply, items: Seq<Framed>)
    requires
        holds(reply, items),
    ensures
        forall|r: Result<ReportedBst, Error>|
            #[trigger] call_ensures(Acpi::get_bst, (acpi, reply), r) ==> {
                &&& items.len() != 4 ==> r == Err::<ReportedBst, Error>(Error::UnexpectedResponse)
                &&& items.len() == 4 ==> r is Ok && status_laid_out(r->Ok_0, items)
            },
        forall|r: Result<ReportedBix, Error>|
            #[trigger] call_ensures(Acpi::get_bix, (acpi, reply), r) ==> {
                &&& items.len() != 21 ==> r == Err::<ReportedBix, Error>(Error::UnexpectedResponse)
                &&& items.len() == 21 ==> r is Ok && information_laid_out(r->Ok_0, items)
            },
        forall|r: Result<(), Error>|
            #[trigger] call_ensures(Acpi::set_btp, (acpi, reply), r) ==> r == Ok::<(), Error>(()),
{
    battery_counts(reply, items);
    assert forall|r: Result<ReportedBst, Error>|
        #[trigger] call_ensures(Acpi::get_bst, (acpi, reply), r) implies {
        &&& items.len() != 4 ==> r == Err::<ReportedBst, Error>(Error::UnexpectedResponse)
        &&& items.len() == 4 ==> r is Ok && status_laid_out(r->Ok_0, items)
    } by {
        if items.len() == 4 {
            status_holds_the_values(reply, items, r->Ok_0);
        }
    }
    assert forall|r: Result<ReportedBix, Error>|
        #[trigger] call_ensures(Acpi::get_bix, (acpi, reply), r) implies {
        &&& items.len() != 21 ==> r == Err::<ReportedBix, Error>(Error::UnexpectedResponse)
        &&& items.len() == 21 ==> r is Ok && information_laid_out(r->Ok_0, items)
    } by {
        if items.len() == 21 {
            information_holds_the_values(reply, items, r->Ok_0);
        }
    }
}

/// The converted status holds the converted state, and all else as it was reported.
pub proof fn status_is_converted<S>(bst: ReportedBst, state: Option<S>)
    ensures
        forall|r: Result<BstReturn<S>, Error>|
            #[trigger] call_ensures(BstReturn::<u32>::converted::<S>, (bst, state), r) ==> {
                &&& r is Ok <==> state is Some
                &&& r is Err ==> r->Err_0 == Error::InvalidData
                &&& r is Ok ==> Some(r->Ok_0.battery_state) == state && r->Ok_0.battery_present_rate
                    == bst.battery_present_rate && r->Ok_0.battery_remaining_capacity
                    == bst.battery_remaining_capacity && r->Ok_0.battery_present_voltage
                    == bst.battery_present_voltage
            },
{
}

/// The integer that one result holds, in eight bytes or in four.
pub open spec fn integer_of(f: Framed) -> int {
    let d = f.data;
    if d.len() == 8 {
        d[0] + 0x100 * d[1] + 0x1_0000 * d[2] + 0x100_0000 * d[3] + 0x1_0000_0000 * d[4]
            + 0x100_0000_0000 * d[5] + 0x1_0000_0000_0000 * d[6] + 0x100_0000_0000_0000 * d[7]
    } else {
        word(f)
    }
}

/// Why the results are not one 32-bit integer; `None` where they are.
pub open spec fn refusal(items: Seq<Framed>) -> Option<Error> {
    if items.len() != 1 {
        Some(Error::UnexpectedResponse)
    } else if items[0].type_ != 0 {
        Some(Error::UnexpectedArgumentType(items[0].type_))
    } else if items[0].data.len() != 4 && items[0].data.len() != 8 {
        Some(Error::UnexpectedResponse)
    } else if integer_of(items[0]) > u32::MAX {
        Some(Error::InvalidData)
    } else {
        None
    }
}

proof fn lemma_integer_reply(reply: DeviceReply, items: Seq<Framed>)
    requires
        holds(reply, items),
    ensures
        match refusal(items) {
            Some(e) => u32_reply(reply) == Err::<u32, Error>(e),
            None => u32_reply(reply) == Ok::<u32, Error>(integer_of(items[0]) as u32),
        },
{
    lemma_held(reply, items);
    if items.len() == 1 {
        assert(items[0].valid());
        argument_holds(items[0]);
        read_digits(items[0].data, 0);
        assert(reply.evaluation()->Ok_0.arguments[0] == items[0].argument());
    }
}

/// The one integer that was returned is what is read, in four bytes or in eight; anything else is
/// refused.
pub proof fn integer_is_read(acpi: &Acpi, reply: DeviceReply, items: Seq<Framed>)
    requires
        holds(reply, items),
    ensures
        ({
            let value = integer_of(items[0]);
            match refusal(items) {
                Some(e) => {
                    &&& forall|r: Result<u32, Error>|
                        #[trigger] call_ensures(Acpi::evaluate_u32, (acpi, reply), r)
                            ==> r == Err::<u32, Error>(e)
                    &&& forall|r: Result<TimeAlarmDeviceCapabilities, Error>|
                        #[trigger] call_ensures(Acpi::get_capabilities, (acpi, reply), r)
                            ==> r == Err::<TimeAlarmDeviceCapabilities, Error>(e)
                    &&& forall|r: Result<TimerStatus, Error>|
                        #[trigger] call_ensures(Acpi::get_wake_status, (acpi, reply), r)
                            ==> r == Err::<TimerStatus, Error>(e)
                    &&& forall|r: Result<AlarmExpiredWakePolicy, Error>|
                        #[trigger] call_ensures(Acpi::get_expired_timer_wake_policy, (acpi, reply), r)
                            ==> r == Err::<AlarmExpiredWakePolicy, Error>(e)
                    &&& forall|r: Result<AlarmTimerSeconds, Error>|
                        #[trigger] call_ensures(Acpi::get_timer_value, (acpi, reply), r)
                            ==> r == Err::<AlarmTimerSeconds, Error>(e)
                    &&& forall|r: Result<(), Error>|
                        #[trigger] call_ensures(Acpi::evaluate_status, (acpi, reply), r)
                            ==> r == Err::<(), Error>(e)
                    &&& forall|r: Result<(), Error>|
                        #[trigger] call_ensures(Acpi::set_real_time, (acpi, reply), r)
                            ==> r == Err::<(), Error>(e)
                    &&& forall|r: Result<(), Error>|
                        #[trigger] call_ensures(Acpi::set_timer_value, (acpi, reply), r)
                            ==> r == Err::<(), Error>(e)
                    &&& forall|r: Result<(), Error>|
                        #[trigger] call_ensures(Acpi::set_expired_timer_wake_policy, (acpi, reply), r)
                            ==> r == Err::<(), Error>(e)
                    &&& forall|r: Result<(), Error>|
                        #[trigger] call_ensures(Acpi::clear_wake_status, (acpi, reply), r)
                            ==> r == Err::<(), Error>(e)
                },
                None => {
                    &&& forall|r: Result<u32, Error>|
                        #[trigger] call_ensures(Acpi::evaluate_u32, (acpi, reply), r)
                            ==> r == Ok::<u32, Error>(value as u32)
                    &&& forall|r: Result<TimeAlarmDeviceCapabilities, Error>|
                        #[trigger] call_ensures(Acpi::get_capabilities, (acpi, reply), r)
                            ==> r == Ok::<TimeAlarmDeviceCapabilities, Error>(TimeAlarmDeviceCapabilities(value as u32))
                    &&& forall|r: Result<TimerStatus, Error>|
                        #[trigger] call_ensures(Acpi::get_wake_status, (acpi, reply), r)
                            ==> r == Ok::<TimerStatus, Error>(TimerStatus(value as u32))
                    &&& forall|r: Result<AlarmExpiredWakePolicy, Error>|
                        #[trigger] call_ensures(Acpi::get_expired_timer_wake_policy, (acpi, reply), r)
                            ==> r == Ok::<AlarmExpiredWakePolicy, Error>(AlarmExpiredWakePolicy(value as u32))
                    &&& forall|r: Result<AlarmTimerSeconds, Error>|
                        #[trigger] call_ensures(Acpi::get_timer_value, (acpi, reply), r)
                            ==> r == Ok::<AlarmTimerSeconds, Error>(AlarmTimerSeconds(value as u32))
                    &&& forall|r: Result<(), Error>|
                        #[trigger] call_ensures(Acpi::evaluate_status, (acpi, reply), r)
                            ==> r == (if value == 0 {
                            Ok::<(), Error>(())
                        } else {
                            Err::<(), Error>(Error::OperationFailed)
                        })
                    &&& forall|r: Result<(), Error>|
                        #[trigger] call_ensures(Acpi::set_real_time, (acpi, reply), r)
                            ==> r == (if value == 0 {
                            Ok::<(), Error>(())
                        } else {
                            Err::<(), Error>(Error::OperationFailed)
                        })
                    &&& forall|r: Result<(), Error>|
                        #[trigger] call_ensures(Acpi::set_timer_value, (acpi, reply), r)
                            ==> r == (if value == 0 {
                            Ok::<(), Error>(())
                        } else {
                            Err::<(), Error>(Error::OperationFailed)
                        })
                    &&& forall|r: Result<(), Error>|
                        #[trigger] call_ensures(Acpi::set_expired_timer_wake_policy, (acpi, reply), r)
                            ==> r == (if value == 0 {
                            Ok::<(), Error>(())
                        } else {
                            Err::<(), Error>(Error::OperationFailed)
                        })
                    &&& forall|r: Result<(), Error>|
                        #[trigger] call_ensures(Acpi::clear_wake_status, (acpi, reply), r)
                            ==> r == (if value == 0 {
                            Ok::<(), Error>(())
                        } else {
                            Err::<(), Error>(Error::OperationFailed)
                        })
                },
            }
        }),
{
    lemma_integer_reply(reply, items);
    if items.len() == 1 {
        assert(items[0].valid());
        argument_holds(items[0]);
    }
}

/// A reply that failed to be evaluated, or to be parsed, fails every operation with that error.
pub proof fn failure_fails_every_operation(acpi: &Acpi, reply: DeviceReply, e: AcpiParseError)
    requires
        reply.evaluation() == Err::<OutputView, AcpiParseError>(e),
    ensures
        forall|r: Result<u32, Error>|
            #[trigger] call_ensures(Acpi::evaluate_u32, (acpi, reply), r)
                ==> r == Err::<u32, Error>(Error::Parse(e)),
        forall|r: Result<TimeAlarmDeviceCapabilities, Error>|
            #[trigger] call_ensures(Acpi::get_capabilities, (acpi, reply), r)
                ==> r == Err::<TimeAlarmDeviceCapabilities, Error>(Error::Parse(e)),
        forall|r: Result<TimerStatus, Error>|
            #[trigger] call_ensures(Acpi::get_wake_status, (acpi, reply), r)
                ==> r == Err::<TimerStatus, Error>(Error::Parse(e)),
        forall|r: Result<AlarmExpiredWakePolicy, Error>|
            #[trigger] call_ensures(Acpi::get_expired_timer_wake_policy, (acpi, reply), r)
                ==> r == Err::<AlarmExpiredWakePolicy, Error>(Error::Parse(e)),
        forall|r: Result<AlarmTimerSeconds, Error>|
            #[trigger] call_ensures(Acpi::get_timer_value, (acpi, reply), r)
                ==> r == Err::<AlarmTimerSeconds, Error>(Error::Parse(e)),
        forall|r: Result<(), Error>|
            #[trigger] call_ensures(Acpi::evaluate_status, (acpi, reply), r)
                ==> r == Err::<(), Error>(Error::Parse(e)),
        forall|r: Result<(), Error>|
            #[trigger] call_ensures(Acpi::set_real_time, (acpi, reply), r)
                ==> r == Err::<(), Error>(Error::Parse(e)),
        forall|r: Result<(), Error>|
            #[trigger] call_ensures(Acpi::set_timer_value, (acpi, reply), r)
                ==> r == Err::<(), Error>(Error::Parse(e)),
        forall|r: Result<(), Error>|
            #[trigger] call_ensures(Acpi::set_expired_timer_wake_policy, (acpi, reply), r)
                ==> r == Err::<(), Error>(Error::Parse(e)),
        forall|r: Result<(), Error>|
            #[trigger] call_ensures(Acpi::clear_wake_status, (acpi, reply), r)
                ==> r == Err::<(), Error>(Error::Parse(e)),
        forall|r: Result<u32, Error>|
            #[trigger] call_ensures(Acpi::acpi_get_var, (acpi, reply), r)
                ==> r == Err::<u32, Error>(Error::Parse(e)),
        forall|r: Result<u32, Error>|
            #[trigger] call_ensures(Acpi::get_rpm, (acpi, reply), r)
                ==> r == Err::<u32, Error>(Error::Parse(e)),
        forall|r: Result<u32, Error>|
            #[trigger] call_ensures(Acpi::get_min_rpm, (acpi, reply), r)
                ==> r == Err::<u32, Error>(Error::Parse(e)),
        forall|r: Result<u32, Error>|
            #[trigger] call_ensures(Acpi::get_max_rpm, (acpi, reply), r)
                ==> r == Err::<u32, Error>(Error::Parse(e)),
        forall|r: Result<u32, Error>|
            #[trigger] call_ensures(Acpi::get_threshold, (acpi, reply), r)
                ==> r == Err::<u32, Error>(Error::Parse(e)),
        forall|r: Result<(), Error>|
            #[trigger] call_ensures(Acpi::acpi_set_var, (acpi, reply), r)
                ==> r == Err::<(), Error>(Error::Parse(e)),
        forall|r: Result<(), Error>|
            #[trigger] call_ensures(Acpi::set_rpm, (acpi, reply), r)
                ==> r == Err::<(), Error>(Error::Parse(e)),
        forall|r: Result<(), Error>|
            #[trigger] call_ensures(Acpi::set_threshold, (acpi, reply), r)
                ==> r == Err::<(), Error>(Error::Parse(e)),
        forall|r: Result<u32, Error>|
            #[trigger] call_ensures(Acpi::get_temperature, (acpi, reply), r)
                ==> r == Err::<u32, Error>(Error::Parse(e)),
        forall|r: Result<Vec<u8>, Error>|
            #[trigger] call_ensures(Acpi::ucsi_command, (acpi, reply), r)
                ==> r == Err::<Vec<u8>, Error>(Error::Parse(e)),
        forall|r: Result<Vec<u8>, Error>|
            #[trigger] call_ensures(Acpi::get_real_time, (acpi, reply), r)
                ==> r == Err::<Vec<u8>, Error>(Error::Parse(e)),
        forall|r: Result<ReportedBst, Error>|
            #[trigger] call_ensures(Acpi::get_bst, (acpi, reply), r)
                ==> r == Err::<ReportedBst, Error>(Error::Parse(e)),
        forall|r: Result<ReportedBix, Error>|
            #[trigger] call_ensures(Acpi::get_bix, (acpi, reply), r)
                ==> r == Err::<ReportedBix, Error>(Error::Parse(e)),
        forall|r: Result<(), Error>|
            #[trigger] call_ensures(Acpi::set_btp, (acpi, reply), r)
                ==> r == Err::<(), Error>(Error::Parse(e)),
        forall|r: Result<Vec<AcpiValue>, Error>|
            #[trigger] call_ensures(Acpi::eval, (acpi, reply), r)
                ==> r == Err::<Vec<AcpiValue>, Error>(Error::Parse(e)),
        forall|r: Result<AcpiEvalOutputBufferV1, AcpiParseError>|
            #[trigger] call_ensures(Acpi::evaluate, (acpi, reply), r)
                ==> r == Err::<AcpiEvalOutputBufferV1, AcpiParseError>(e),
{
}

/// An output buffer is parsed into its arguments: as many, in their order, each with its type, its
/// data, the length of its data, and its 32-bit value.
pub proof fn output_is_parsed(value: Vec<u8>, items: Seq<Framed>, i: int)
    requires
        all_valid(items),
        value@ == output_buffer(items),
        value@.len() <= u32::MAX,
        0 <= i < items.len(),
    ensures
        forall|r: Result<AcpiEvalOutputBufferV1, AcpiParseError>|
            #[trigger] call_ensures(AcpiEvalOutputBufferV1::try_from, (value,), r) ==> {
                &&& r is Ok
                &&& r->Ok_0.count == items.len()
                &&& r->Ok_0.length == value@.len()
                &&& r->Ok_0.arguments@.len() == items.len()
                &&& is_laid_out(r->Ok_0.arguments@[i], items[i])
            },
{
    output_round_trip(items);
    argument_takes_eight_bytes(items);
    output_layout(items, items[i]);
    assert(items[i].valid());
    argument_holds(items[i]);
    assert forall|r: Result<AcpiEvalOutputBufferV1, AcpiParseError>|
        #[trigger] call_ensures(AcpiEvalOutputBufferV1::try_from, (value,), r) implies {
        &&& r is Ok
        &&& r->Ok_0.count == items.len()
        &&& r->Ok_0.length == value@.len()
        &&& r->Ok_0.arguments@.len() == items.len()
        &&& is_laid_out(r->Ok_0.arguments@[i], items[i])
    } by {
        let output = r->Ok_0;
        assert(output@.arguments.len() == output.arguments@.len());
        assert(output@.arguments[i] == output.arguments@[i]@);
        assert(output@.arguments[i] == items[i].argument());
    }
}

/// Whether the argument is as it was laid out.
pub open spec fn is_laid_out(a: AcpiMethodArgumentV1, f: Framed) -> bool {
    &&& a.type_ == f.type_
    &&& a.data@ == f.data
    &&& a.data_length == f.data.len()
    &&& a.data_32 == word(f)
}

/// Bytes that are no output buffer are refused, with the reason that the parser has for it; bytes
/// that it accepts are one.
pub proof fn parser_decides(value: Vec<u8>)
    ensures
        forall|r: Result<AcpiEvalOutputBufferV1, AcpiParseError>|
            #[trigger] call_ensures(AcpiEvalOutputBufferV1::try_from, (value,), r) ==> {
                &&& r is Ok <==> output_of(value@) is Ok
                &&& r is Err ==> output_of(value@) == Err::<OutputView, AcpiParseError>(r->Err_0)
            },
{
}

/// Evaluating an arbitrary method gives one value for each result, in the order of the results,
/// and that of its type and data.
pub proof fn results_are_evaluated(acpi: &Acpi, reply: DeviceReply, items: Seq<Framed>, i: int)
    requires
        holds(reply, items),
        0 <= i < items.len(),
    ensures
        forall|r: Result<Vec<AcpiValue>, Error>|
            #[trigger] call_ensures(Acpi::eval, (acpi, reply), r) ==> {
                &&& r is Ok
                &&& r->Ok_0@.len() == items.len()
                &&& r->Ok_0@[i]@ == value_of(items[i].type_, items[i].data)
            },
        forall|r: Result<AcpiEvalOutputBufferV1, AcpiParseError>|
            #[trigger] call_ensures(Acpi::evaluate, (acpi, reply), r) ==> {
                &&& r is Ok
                &&& r->Ok_0.count == items.len()
                &&& r->Ok_0.arguments@.len() == items.len()
                &&& is_laid_out(r->Ok_0.arguments@[i], items[i])
            },
{
    results_are_shown(reply, items);
    lemma_held(reply, items);
    assert(items[i].valid());
    argument_holds(items[i]);
    assert forall|r: Result<Vec<AcpiValue>, Error>|
        #[trigger] call_ensures(Acpi::eval, (acpi, reply), r) implies {
        &&& r is Ok
        &&& r->Ok_0@.len() == items.len()
        &&& r->Ok_0@[i]@ == value_of(items[i].type_, items[i].data)
    } by {
        assert(value_views(r->Ok_0@).len() == r->Ok_0@.len());
        assert(value_views(r->Ok_0@)[i] == r->Ok_0@[i]@);
    }
    assert forall|r: Result<AcpiEvalOutputBufferV1, AcpiParseError>|
        #[trigger] call_ensures(Acpi::evaluate, (acpi, reply), r) implies {
        &&& r is Ok
        &&& r->Ok_0.count == items.len()
        &&& r->Ok_0.arguments@.len() == items.len()
        &&& is_laid_out(r->Ok_0.arguments@[i], items[i])
    } by {
        let output = r->Ok_0;
        assert(output@.arguments.len() == output.arguments@.len());
        assert(output@.arguments[i] == output.arguments@[i]@);
        assert(output@.arguments[i] == items[i].argument());
    }
}

/// A package is read into exactly the items packed in it, in their order, each the value of its
/// type and data; bytes behind them that begin none are one more item, as they are.
pub proof fn package_is_read(
    type_: u16,
    data: &[u8],
    arguments: Seq<ArgumentView>,
    tail: Seq<u8>,
    i: int,
)
    requires
        type_ == 3 || type_ == 4,
        data@ == input_arguments_bytes(arguments) + tail,
        forall|k: int|
            0 <= k < arguments.len() ==> (#[trigger] arguments[k]).data_length
                == arguments[k].data.len(),
        tail.len() < 4 || tail.len() < 4 + tail[2] + 0x100 * tail[3],
        0 <= i < arguments.len(),
    ensures
        forall|v: AcpiValue|
            #[trigger] call_ensures(acpi_value_from, (type_, data), v)
                ==> v is Package && packed_as(
                v->Package_0@,
                arguments,
                tail,
                i,
            ),
        forall|values: Vec<AcpiValue>|
            #[trigger] call_ensures(parse_acpi_values, (data,), values) ==> packed_as(
                values@,
                arguments,
                tail,
                i,
            ),
{
    read_digits(tail, 2);
    packed_values_round_trip(arguments, tail);
    let expected = argument_values(arguments) + values_of(tail);
    assert(expected[i] == value_of(arguments[i].type_, arguments[i].data));
    assert forall|v: AcpiValue| #[trigger] call_ensures(acpi_value_from, (type_, data), v) implies v
        is Package && packed_as(v->Package_0@, arguments, tail, i) by {
        assert(v@ == ValueView::Package(expected));
        let items = v->Package_0@;
        assert(v@->Package_0.len() == items.len());
        assert(v@->Package_0[i] == items[i]@);
        if tail.len() > 0 {
            assert(v@->Package_0[items.len() - 1] == items[items.len() - 1]@);
        }
    }
    assert forall|values: Vec<AcpiValue>|
        #[trigger] call_ensures(parse_acpi_values, (data,), values) implies packed_as(
        values@,
        arguments,
        tail,
        i,
    ) by {
        assert(value_views(values@) == expected);
        assert(value_views(values@).len() == values@.len());
        assert(value_views(values@)[i] == values@[i]@);
        if tail.len() > 0 {
            assert(value_views(values@)[values@.len() - 1] == values@[values@.len() - 1]@);
        }
    }
}

/// Whether the values are those of the arguments and of the bytes behind them, as far as the value
/// at `i` and the number of values tell.
pub open spec fn packed_as(
    values: Seq<AcpiValue>,
    arguments: Seq<ArgumentView>,
    tail: Seq<u8>,
    i: int,
) -> bool {
    &&& values.len() == arguments.len() + (if tail.len() > 0 {
        1int
    } else {
        0
    })
    &&& values[i]@ == value_of(arguments[i].type_, arguments[i].data)
    &&& tail.len() > 0 ==> values[values.len() - 1]@ == ValueView::Malformed(tail)
}

/// A single argument is read as the value of its type and data, and a value is shown by its text.
pub proof fn value_is_read_and_shown(type_: u16, data: &[u8], value: &AcpiValue)
    ensures
        forall|v: AcpiValue|
            #[trigger] call_ensures(acpi_value_from, (type_, data), v) ==> v@ == value_of(
                type_,
                data@,
            ),
        forall|text: String|
            #[trigger] call_ensures(AcpiValue::to_string, (value,), text) ==> text@ == text_of(
                value@,
            ),
{
}

/// A GUID is handed out with the first four of its bytes and the two pairs behind them turned
/// around.
pub proof fn guid_is_turned_around(guid: &Guid, i: int)
    requires
        0 <= i < 16,
    ensures
        forall|le: [u8; 16]|
            #[trigger] call_ensures(Guid::to_bytes_le, (guid,), le) ==> le@[i] == guid.bytes@[if i
                < 4 {
                3 - i
            } else if i < 6 {
                9 - i
            } else if i < 8 {
                13 - i
            } else {
                i
            }],
{
    mixed_endian_by_index(guid.bytes@, i);
}

/// The device is opened under the units of its path and a null unit.
pub proof fn path_is_terminated(acpi: &Acpi)
    ensures
        forall|units: Vec<u16>|
            #[trigger] call_ensures(Acpi::device_path_wide, (acpi,), units) ==> units@.len()
                == utf16(acpi.device_path@).len() + 1 && units@.last() == 0 && units@.drop_last()
                == utf16(acpi.device_path@),
{
    assert(utf16(acpi.device_path@).push(0).drop_last() =~= utf16(acpi.device_path@));
}

/// The text of a property is the whole text whose units stand in front of the terminating one,
/// however long it is.
pub proof fn property_text_is_read(property: &DeviceProperty, s: Seq<char>, rest: Seq<u16>)
    requires
        property.units@ == utf16(s).push(0) + rest,
        property.required_size == 2 * (utf16(s).len() + 1),
    ensures
        forall|r: Option<String>|
            #[trigger] call_ensures(DeviceProperty::text, (property,), r) ==> r is Some && r->0@
                == s,
{
    property_has_its_text(s, seq![], rest, property.required_size);
}

/// The search goes on with the object name exactly at a device whose instance identifier has the
/// part `ETST0001`, and to the next device from any other; with an object name it ends, at the path
/// that has the whole name behind the global root.
pub proof fn search_reads_properties(
    index: u32,
    property: DeviceProperty,
    s: Seq<char>,
    rest: Seq<u16>,
)
    requires
        index < u32::MAX,
        property.units@ == utf16(s).push(0) + rest,
        property.required_size == 2 * (utf16(s).len() + 1),
    ensures
        forall|next: SearchState|
            #[trigger] call_ensures(
                SearchState::step,
                (SearchState::ReadInstanceId { index }, SearchEvent::Property(property)),
                next,
            ) ==> next == (if has_part(s, "ETST0001"@) {
                SearchState::ReadObjectName { index }
            } else {
                SearchState::Enumerate { index: (index + 1) as u32 }
            }),
        forall|next: SearchState|
            #[trigger] call_ensures(
                SearchState::step,
                (SearchState::ReadObjectName { index }, SearchEvent::Property(property)),
                next,
            ) ==> next is Found && next->Found_0@ == "\\\\.\\GLOBALROOT"@ + s,
{
    property_has_its_text(s, seq![], rest, property.required_size);
    test_device_by_its_part(s, s, Some(s));
}

/// The search passes from one question to the next: the list, the devices from the first on, the
/// two properties of each, and the next device where one of them is missing.
pub proof fn search_goes_on(index: u32, code: i32)
    requires
        index < u32::MAX,
    ensures
        forall|next: SearchState|
            #[trigger] call_ensures(SearchState::step, (SearchState::List, SearchEvent::Listed), next)
                ==> next == (SearchState::Enumerate { index: 0 }),
        forall|next: SearchState|
            #[trigger] call_ensures(
                SearchState::step,
                (SearchState::List, SearchEvent::ListFailed(code)),
                next,
            ) ==> next == SearchState::Failed(AcpiParseError::EvaluationFailed(code)),
        forall|next: SearchState|
            #[trigger] call_ensures(
                SearchState::step,
                (SearchState::Enumerate { index }, SearchEvent::Present),
                next,
            ) ==> next == (SearchState::ReadInstanceId { index }),
        forall|next: SearchState|
            #[trigger] call_ensures(
                SearchState::step,
                (SearchState::Enumerate { index }, SearchEvent::Absent),
                next,
            ) ==> next == SearchState::Failed(AcpiParseError::EvaluationFailed((-1) as i32)),
        forall|next: SearchState|
            #[trigger] call_ensures(
                SearchState::step,
                (SearchState::ReadInstanceId { index }, SearchEvent::NoProperty),
                next,
            ) ==> next == (SearchState::Enumerate { index: (index + 1) as u32 }),
        forall|next: SearchState|
            #[trigger] call_ensures(
                SearchState::step,
                (SearchState::ReadObjectName { index }, SearchEvent::NoProperty),
                next,
            ) ==> next == (SearchState::Enumerate { index: (index + 1) as u32 }),
{
}

/// Whether the information holds the converted parts, and all else as it was reported.
pub open spec fn information_converted<U, T, M, N, B, O, C>(
    bix: BixFixedStrings<U, T, M, N, B, O, C>,
    reported: ReportedBix,
    parts: BixConversions<U, T, M, N, B, O, C>,
) -> bool {
    &&& bix.revision == reported.revision
    &&& bix.design_capacity == reported.design_capacity
    &&& bix.last_full_charge_capacity == reported.last_full_charge_capacity
    &&& bix.design_voltage == reported.design_voltage
    &&& bix.design_cap_of_warning == reported.design_cap_of_warning
    &&& bix.design_cap_of_low == reported.design_cap_of_low
    &&& bix.cycle_count == reported.cycle_count
    &&& bix.measurement_accuracy == reported.measurement_accuracy
    &&& bix.max_sampling_time == reported.max_sampling_time
    &&& bix.min_sampling_time == reported.min_sampling_time
    &&& bix.max_averaging_interval == reported.max_averaging_interval
    &&& bix.min_averaging_interval == reported.min_averaging_interval
    &&& bix.battery_capacity_granularity_1 == reported.battery_capacity_granularity_1
    &&& bix.battery_capacity_granularity_2 == reported.battery_capacity_granularity_2
    &&& Some(bix.power_unit) == parts.power_unit
    &&& Some(bix.battery_technology) == parts.battery_technology
    &&& Some(bix.model_number) == parts.model_number
    &&& Some(bix.serial_number) == parts.serial_number
    &&& Some(bix.battery_type) == parts.battery_type
    &&& Some(bix.oem_info) == parts.oem_info
    &&& Some(bix.battery_swapping_capability) == parts.battery_swapping_capability
}

/// Information of which all parts convert holds them, and all else as it was reported; with a part
/// that does not it is invalid.
pub proof fn information_is_converted<U, T, M, N, B, O, C>(
    reported: ReportedBix,
    parts: BixConversions<U, T, M, N, B, O, C>,
)
    ensures
        forall|r: Result<BixFixedStrings<U, T, M, N, B, O, C>, Error>|
            #[trigger] call_ensures(
                ReportedBix::converted::<U, T, M, N, B, O, C>,
                (reported, parts),
                r,
            ) ==> {
                &&& r is Err <==> {
                    ||| parts.power_unit is None
                    ||| parts.battery_technology is None
                    ||| parts.model_number is None
                    ||| parts.serial_number is None
                    ||| parts.battery_type is None
                    ||| parts.oem_info is None
                    ||| parts.battery_swapping_capability is None
                }
                &&& r is Err ==> r->Err_0 == Error::InvalidData
                &&& r is Ok ==> information_converted(r->Ok_0, reported, parts)
            },
{
}

/// What was converted is passed on, and what was not is invalid.
pub proof fn conversion_is_passed_on<T>(value: Option<T>)
    ensures
        forall|r: Result<T, Error>|
            #[trigger] call_ensures(Error::converted::<T>, (value,), r) ==> {
                &&& value is Some ==> r == Ok::<T, Error>(value->0)
                &&& value is None ==> r == Err::<T, Error>(Error::InvalidData)
            },
{
}

/// A snapshot issues its three commands one after the other, the first for the controller itself
/// and the others for its connector, and takes the answer to each.
pub proof fn snapshot_issues_its_commands<V, C, K, S>(
    acpi: &Acpi,
    connector: u8,
    start: SnapshotStart,
    known: WithCapability<V, C>,
    further: WithConnectorCapability<V, C, K>,
    first: Result<DecodedCapability<V, C>, Error>,
    second: Result<Result<K, MailboxError>, Error>,
    third: Result<Result<S, MailboxError>, Error>,
)
    ensures
        forall|begun: SnapshotStart|
            #[trigger] call_ensures(Acpi::get_snapshot, (acpi, connector), begun)
                ==> begun.connector == connector,
        forall|c: (CommandType, u8)|
            #[trigger] call_ensures(SnapshotStart::command, (&start,), c) ==> c.0 is GetCapability
                && c.1 == 0,
        forall|c: (CommandType, u8)|
            #[trigger] call_ensures(WithCapability::<V, C>::command, (&known,), c)
                ==> c.0 is GetConnectorCapability && c.1 == known.connector,
        forall|c: (CommandType, u8)|
            #[trigger] call_ensures(WithConnectorCapability::<V, C, K>::command, (&further,), c)
                ==> c.0 is GetConnectorStatus && c.1 == further.connector,
        forall|r: Result<WithCapability<V, C>, Error>|
            #[trigger] call_ensures(SnapshotStart::decoded::<V, C>, (start, first), r) ==> r
                == after_capability(start, first),
        forall|r: Result<WithConnectorCapability<V, C, K>, Error>|
            #[trigger] call_ensures(WithCapability::<V, C>::decoded::<K>, (known, second), r) ==> r
                == after_connector_capability(known, second),
        forall|r: Result<UcsiSnapshot<V, C, K, S>, Error>|
            #[trigger] call_ensures(
                WithConnectorCapability::<V, C, K>::decoded::<S>,
                (further, third),
                r,
            ) ==> r == after_connector_status(further, third),
{
}

/// A search that has ended gives the path that it found, or the error with which it failed; one
/// that goes on gives neither.
pub proof fn search_gives_its_result(path: String, e: AcpiParseError, index: u32)
    ensures
        forall|r: Option<Result<String, AcpiParseError>>|
            #[trigger] call_ensures(SearchState::result, (SearchState::Found(path),), r) ==> r
                == Some(Ok::<String, AcpiParseError>(path)),
        forall|r: Option<Result<String, AcpiParseError>>|
            #[trigger] call_ensures(SearchState::result, (SearchState::Failed(e),), r) ==> r
                == Some(Err::<String, AcpiParseError>(e)),
        forall|r: Option<Result<String, AcpiParseError>>|
            #[trigger] call_ensures(SearchState::result, (SearchState::List,), r) ==> r is None,
        forall|r: Option<Result<String, AcpiParseError>>|
            #[trigger] call_ensures(SearchState::result, (SearchState::Enumerate { index },), r)
                ==> r is None,
        forall|r: Option<Result<String, AcpiParseError>>|
            #[trigger] call_ensures(SearchState::result, (SearchState::ReadInstanceId { index },), r)
                ==> r is None,
        forall|r: Option<Result<String, AcpiParseError>>|
            #[trigger] call_ensures(SearchState::result, (SearchState::ReadObjectName { index },), r)
                ==> r is None,
{
}

/// A copy holds what was copied.
pub proof fn copies_hold_the_same(value: &AcpiValue, arg: &AcpiMethodArgument, acpi: &Acpi)
    ensures
        forall|copy: AcpiValue|
            #[trigger] call_ensures(<AcpiValue as Clone>::clone, (value,), copy) ==> copy@
                == value@,
        forall|copy: AcpiMethodArgument|
            #[trigger] call_ensures(<AcpiMethodArgument as Clone>::clone, (arg,), copy) ==> copy@
                == arg@,
        forall|copy: Acpi|
            #[trigger] call_ensures(<Acpi as Clone>::clone, (acpi,), copy) ==> copy.fan_instance
                == acpi.fan_instance && copy.device_path@ == acpi.device_path@,
{
}

/// An argument of an output buffer is found by its index; behind the last one there is none.
pub proof fn argument_is_found(output: &AcpiEvalOutputBufferV1, index: usize)
    ensures
        forall|r: Result<&AcpiMethodArgumentV1, Error>|
            #[trigger] call_ensures(AcpiEvalOutputBufferV1::arg, (output, index), r) ==> {
                &&& index < output.arguments@.len() ==> r is Ok && *r->Ok_0
                    == output.arguments@[index as int]
                &&& index >= output.arguments@.len() ==> r is Err && r->Err_0
                    == Error::UnexpectedResponse
            },
        forall|r: Result<u32, Error>|
            #[trigger] call_ensures(AcpiEvalOutputBufferV1::data_32, (output, index), r) ==> {
                &&& index < output.arguments@.len() ==> r == Ok::<u32, Error>(
                    output.arguments@[index as int].data_32,
                )
                &&& index >= output.arguments@.len() ==> r == Err::<u32, Error>(
                    Error::UnexpectedResponse,
                )
            },
        forall|r: Result<Vec<u8>, Error>|
            #[trigger] call_ensures(AcpiEvalOutputBufferV1::data, (output, index), r) ==> {
                &&& index < output.arguments@.len() ==> r is Ok && r->Ok_0@
                    == output.arguments@[index as int].data@
                &&& index >= output.arguments@.len() ==> r == Err::<Vec<u8>, Error>(
                    Error::UnexpectedResponse,
                )
            },
{
}

} // verus!
