//! What the operations send to the driver.
use crate::acpi::{request_of, Acpi};
use crate::argument::{
    argument_framing, argument_views, AcpiMethodArgument, AcpiMethodArgumentV1, ArgumentView,
    MethodArgumentView,
};
use crate::bytes::u32_le;
use crate::error::{error_kind, error_text, parse_error_text, AcpiParseError, Error, ErrorKind};
use crate::guid::{mixed_endian, Guid};
use crate::input::{
    all_encodable, framed, given, input_arguments_bytes, name_field, total_length,
    AcpiEvalInputBufferComplexV1Ex, AcpiMethodInput,
};
use crate::readings::{names_variable, variable_is_asked_for, variable_is_set};
use crate::requests::{
    asks, integer_at, one_buffer_is_sent, one_integer_is_sent, request_head, request_layout,
    seven_arguments_at_most, two_integers_are_sent,
};
use crate::rtc::{AcpiTimerId, AcpiTimestamp, AlarmExpiredWakePolicy, AlarmTimerSeconds};
use crate::thermal::{get_var_request, set_var_request, FanGuids, Threshold};
use vstd::prelude::*;
use vstd::utf8::encode_utf8;

verus! {

/// Whether the bytes ask for this method with no argument.
pub open spec fn asks_plainly(b: Seq<u8>, name: Seq<char>) -> bool {
    asks(b, name, 0) && b.len() == 268
}

/// Whether the bytes ask for this method with one integer.
pub open spec fn asks_with_integer(b: Seq<u8>, name: Seq<char>, x: int) -> bool {
    asks(b, name, 1) && b.len() == 276 && integer_at(b, 268, x)
}

/// Whether the bytes ask for this method with two integers.
pub open spec fn asks_with_integers(b: Seq<u8>, name: Seq<char>, x: int, y: int) -> bool {
    asks(b, name, 2) && b.len() == 284 && integer_at(b, 268, x) && integer_at(b, 276, y)
}

/// Whether the bytes ask for this method with one buffer.
pub open spec fn asks_with_buffer(b: Seq<u8>, name: Seq<char>, data: Seq<u8>) -> bool {
    &&& asks(b, name, 1) && b.len() == 272 + data.len()
    &&& b[268] == 2 && b[269] == 0 && b[270] + 0x100 * b[271] == data.len()
    &&& b.skip(272) == data
}

/// The number under which a timer is asked for.
pub open spec fn timer(timer_id: AcpiTimerId) -> int {
    if timer_id is AcPower {
        0
    } else {
        1
    }
}

proof fn lemma_asks(name: Seq<char>, args: Seq<MethodArgumentView>, count: int)
    requires
        request_of(name, args) is Ok,
        args.len() == count,
    ensures
        asks(request_of(name, args)->Ok_0, name, count),
{
    request_head(name, args);
}

proof fn lemma_plain(name: Seq<char>)
    ensures
        request_of(name, seq![]) is Ok,
        asks_plainly(request_of(name, seq![])->Ok_0, name),
{
    request_head(name, seq![]);
    request_layout(name, seq![]);
}

proof fn lemma_integer(name: Seq<char>, x: u32)
    ensures
        ({
            let request = request_of(name, seq![MethodArgumentView::Int(x)]);
            request is Ok && asks_with_integer(request->Ok_0, name, x as int)
        }),
{
    one_integer_is_sent(name, x);
    lemma_asks(name, seq![MethodArgumentView::Int(x)], 1);
}

proof fn lemma_integers(name: Seq<char>, x: u32, y: u32)
    ensures
        ({
            let request = request_of(
                name,
                seq![MethodArgumentView::Int(x), MethodArgumentView::Int(y)],
            );
            request is Ok && asks_with_integers(request->Ok_0, name, x as int, y as int)
        }),
{
    let args = seq![MethodArgumentView::Int(x), MethodArgumentView::Int(y)];
    two_integers_are_sent(name, x, y);
    lemma_asks(name, args, 2);
}

proof fn lemma_buffer(name: Seq<char>, data: Seq<u8>)
    requires
        data.len() <= 65535,
    ensures
        ({
            let request = request_of(name, seq![MethodArgumentView::Buffer(data)]);
            request is Ok && asks_with_buffer(request->Ok_0, name, data)
        }),
{
    one_buffer_is_sent(name, data);
    request_head(name, seq![MethodArgumentView::Buffer(data)]);
}

proof fn lemma_variable(fan_instance: u8, guid: Guid, value: u32)
    ensures
        ({
            let read = get_var_request(fan_instance, guid);
            let write = set_var_request(fan_instance, guid, value);
            &&& read is Ok && reads_variable(read->Ok_0, fan_instance, guid)
            &&& write is Ok && writes_variable(write->Ok_0, fan_instance, guid, value)
        }),
{
    variable_is_asked_for(fan_instance, guid);
    variable_is_set(fan_instance, guid, value);
    let fan = MethodArgumentView::Int(fan_instance as u32);
    let variable = MethodArgumentView::Guid(mixed_endian(guid.bytes@));
    lemma_asks("\\_SB.ECT0.TGVR"@, seq![fan, variable], 2);
    lemma_asks("\\_SB.ECT0.TSVR"@, seq![fan, variable, MethodArgumentView::Int(value)], 3);
}

/// Whether the bytes ask for this variable of the fan.
pub open spec fn reads_variable(b: Seq<u8>, fan_instance: u8, guid: Guid) -> bool {
    asks(b, "\\_SB.ECT0.TGVR"@, 2) && b.len() == 296 && names_variable(b, fan_instance, guid)
}

/// Whether the bytes set this variable of the fan to this value.
pub open spec fn writes_variable(b: Seq<u8>, fan_instance: u8, guid: Guid, value: u32) -> bool {
    &&& asks(b, "\\_SB.ECT0.TSVR"@, 3) && b.len() == 304 && names_variable(b, fan_instance, guid)
    &&& integer_at(b, 296, value as int)
}

/// What is asked for without a choice goes out as the name of its method alone.
pub proof fn plain_requests_are_sent(acpi: &Acpi)
    ensures
        forall|r: Result<Vec<u8>, AcpiParseError>|
            #[trigger] call_ensures(Acpi::get_capabilities_request, (acpi,), r)
                ==> r is Ok && asks_plainly(r->Ok_0@, "\\_SB.ECT0._GCP"@),
        forall|r: Result<Vec<u8>, AcpiParseError>|
            #[trigger] call_ensures(Acpi::get_real_time_request, (acpi,), r)
                ==> r is Ok && asks_plainly(r->Ok_0@, "\\_SB.ECT0._GRT"@),
        forall|r: Result<Vec<u8>, AcpiParseError>|
            #[trigger] call_ensures(Acpi::get_temperature_request, (acpi,), r)
                ==> r is Ok && asks_plainly(r->Ok_0@, "\\_SB.ECT0.RTMP"@),
        forall|r: Result<Vec<u8>, AcpiParseError>|
            #[trigger] call_ensures(Acpi::get_bst_request, (acpi,), r)
                ==> r is Ok && asks_plainly(r->Ok_0@, "\\_SB.ECT0.TBST"@),
        forall|r: Result<Vec<u8>, AcpiParseError>|
            #[trigger] call_ensures(Acpi::get_bix_request, (acpi,), r)
                ==> r is Ok && asks_plainly(r->Ok_0@, "\\_SB.ECT0.TBIX"@),
{
    lemma_plain("\\_SB.ECT0._GCP"@);
    lemma_plain("\\_SB.ECT0._GRT"@);
    lemma_plain("\\_SB.ECT0.RTMP"@);
    lemma_plain("\\_SB.ECT0.TBST"@);
    lemma_plain("\\_SB.ECT0.TBIX"@);
}

/// What is asked of a timer goes out with the number of the timer.
pub proof fn timer_requests_are_sent(acpi: &Acpi, timer_id: AcpiTimerId)
    ensures
        forall|r: Result<Vec<u8>, AcpiParseError>|
            #[trigger] call_ensures(Acpi::get_wake_status_request, (acpi, timer_id), r)
                ==> r is Ok && asks_with_integer(r->Ok_0@, "\\_SB.ECT0._GWS"@, timer(timer_id)),
        forall|r: Result<Vec<u8>, AcpiParseError>|
            #[trigger] call_ensures(Acpi::get_expired_timer_wake_policy_request, (acpi, timer_id), r)
                ==> r is Ok && asks_with_integer(r->Ok_0@, "\\_SB.ECT0._TIP"@, timer(timer_id)),
        forall|r: Result<Vec<u8>, AcpiParseError>|
            #[trigger] call_ensures(Acpi::get_timer_value_request, (acpi, timer_id), r)
                ==> r is Ok && asks_with_integer(r->Ok_0@, "\\_SB.ECT0._TIV"@, timer(timer_id)),
        forall|r: Result<Vec<u8>, AcpiParseError>|
            #[trigger] call_ensures(Acpi::clear_wake_status_request, (acpi, timer_id), r)
                ==> r is Ok && asks_with_integer(r->Ok_0@, "\\_SB.ECT0._CWS"@, timer(timer_id)),
{
    lemma_integer("\\_SB.ECT0._GWS"@, timer_id.number());
    lemma_integer("\\_SB.ECT0._TIP"@, timer_id.number());
    lemma_integer("\\_SB.ECT0._TIV"@, timer_id.number());
    lemma_integer("\\_SB.ECT0._CWS"@, timer_id.number());
}

/// What is set on a timer goes out with the number of the timer and the value, whatever it is.
pub proof fn timer_settings_are_sent(
    acpi: &Acpi,
    timer_id: AcpiTimerId,
    value: AlarmTimerSeconds,
    policy: AlarmExpiredWakePolicy,
)
    ensures
        forall|r: Result<Vec<u8>, AcpiParseError>|
            #[trigger] call_ensures(Acpi::set_timer_value_request, (acpi, timer_id, value), r)
                ==> r is Ok
                && asks_with_integers(
                    r->Ok_0@,
                    "\\_SB.ECT0._STV"@,
                    timer(timer_id),
                    value.0 as int,
                ),
        forall|r: Result<Vec<u8>, AcpiParseError>|
            #[trigger] call_ensures(Acpi::set_expired_timer_wake_policy_request, (acpi, timer_id, policy), r)
                ==> r is Ok
                && asks_with_integers(
                    r->Ok_0@,
                    "\\_SB.ECT0._STP"@,
                    timer(timer_id),
                    policy.0 as int,
                ),
{
    lemma_integers("\\_SB.ECT0._STV"@, timer_id.number(), value.0);
    lemma_integers("\\_SB.ECT0._STP"@, timer_id.number(), policy.0);
}

/// The time, a command and a trip point go out as they are given.
pub proof fn given_bytes_are_sent(
    acpi: &Acpi,
    timestamp: AcpiTimestamp,
    control: [u8; 8],
    trippoint: u32,
)
    ensures
        forall|r: Result<Vec<u8>, AcpiParseError>|
            #[trigger] call_ensures(Acpi::set_real_time_request, (acpi, timestamp), r)
                ==> r is Ok && asks_with_buffer(r->Ok_0@, "\\_SB.ECT0._SRT"@, timestamp.bytes@),
        forall|r: Result<Vec<u8>, AcpiParseError>|
            #[trigger] call_ensures(Acpi::ucsi_command_request, (acpi, control), r)
                ==> r is Ok && asks_with_buffer(r->Ok_0@, "\\_SB.ECT0.USND"@, control@),
        forall|r: Result<Vec<u8>, AcpiParseError>|
            #[trigger] call_ensures(Acpi::set_btp_request, (acpi, trippoint), r)
                ==> r is Ok && asks_with_integer(r->Ok_0@, "\\_SB.ECT0.TBTP"@, trippoint as int),
{
    lemma_buffer("\\_SB.ECT0._SRT"@, timestamp.bytes@);
    lemma_buffer("\\_SB.ECT0.USND"@, control@);
    lemma_integer("\\_SB.ECT0.TBTP"@, trippoint);
}

/// The variable of a threshold.
pub open spec fn threshold_variable(guids: FanGuids, threshold: Threshold) -> Guid {
    if threshold is On {
        guids.on_temp
    } else if threshold is Ramping {
        guids.ramp_temp
    } else {
        guids.max_temp
    }
}

/// What is asked of the fan goes out with the number of the fan and the GUID of its variable, and
/// what is set on it also with the value, whatever it is.
pub proof fn fan_requests_are_sent(
    acpi: &Acpi,
    guid: Guid,
    guids: &FanGuids,
    threshold: Threshold,
    value: u32,
)
    ensures
        forall|r: Result<Vec<u8>, AcpiParseError>|
            #[trigger] call_ensures(Acpi::acpi_get_var_request, (acpi, guid), r)
                ==> r is Ok && reads_variable(r->Ok_0@, acpi.fan_instance, guid),
        forall|r: Result<Vec<u8>, AcpiParseError>|
            #[trigger] call_ensures(Acpi::get_rpm_request, (acpi, guids), r)
                ==> r is Ok && reads_variable(r->Ok_0@, acpi.fan_instance, guids.current_rpm),
        forall|r: Result<Vec<u8>, AcpiParseError>|
            #[trigger] call_ensures(Acpi::get_min_rpm_request, (acpi, guids), r)
                ==> r is Ok && reads_variable(r->Ok_0@, acpi.fan_instance, guids.min_rpm),
        forall|r: Result<Vec<u8>, AcpiParseError>|
            #[trigger] call_ensures(Acpi::get_max_rpm_request, (acpi, guids), r)
                ==> r is Ok && reads_variable(r->Ok_0@, acpi.fan_instance, guids.max_rpm),
        forall|r: Result<Vec<u8>, AcpiParseError>|
            #[trigger] call_ensures(Acpi::get_threshold_request, (acpi, guids, threshold), r)
                ==> r is Ok
                && reads_variable(
                    r->Ok_0@,
                    acpi.fan_instance,
                    threshold_variable(*guids, threshold),
                ),
        forall|r: Result<Vec<u8>, AcpiParseError>|
            #[trigger] call_ensures(Acpi::acpi_set_var_request, (acpi, guid, value), r)
                ==> r is Ok && writes_variable(r->Ok_0@, acpi.fan_instance, guid, value),
        forall|r: Result<Vec<u8>, AcpiParseError>|
            #[trigger] call_ensures(Acpi::set_rpm_request, (acpi, guids, value), r)
                ==> r is Ok
                && writes_variable(r->Ok_0@, acpi.fan_instance, guids.current_rpm, value),
        forall|r: Result<Vec<u8>, AcpiParseError>|
            #[trigger] call_ensures(Acpi::set_threshold_request, (acpi, guids, threshold, value), r)
                ==> r is Ok
                && writes_variable(
                    r->Ok_0@,
                    acpi.fan_instance,
                    threshold_variable(*guids, threshold),
                    value,
                ),
{
    lemma_variable(acpi.fan_instance, guid, value);
    lemma_variable(acpi.fan_instance, guids.current_rpm, value);
    lemma_variable(acpi.fan_instance, guids.min_rpm, value);
    lemma_variable(acpi.fan_instance, guids.max_rpm, value);
    lemma_variable(acpi.fan_instance, guids.threshold_guid(threshold), value);
}

/// An arbitrary method goes out with its name and all its arguments, in their order. There are up
/// to seven of them, each with up to 65535 bytes of data; too many are reported before a long one.
pub proof fn any_request_is_sent(acpi: &Acpi, name: &str, args: &[AcpiMethodArgument])
    ensures
        forall|r: Result<Vec<u8>, AcpiParseError>|
            #[trigger] call_ensures(Acpi::evaluate_request, (acpi, name, Some(args)), r) ==> {
                &&& r is Ok <==> args@.len() <= 7 && forall|i: int|
                    0 <= i < args@.len() ==> (#[trigger] args@[i])@.payload().len() <= 65535
                &&& r is Err ==> r->Err_0 == (if args@.len() > 7 {
                    AcpiParseError::InsufficientLength
                } else {
                    AcpiParseError::InvalidFormat
                })
                &&& r is Ok ==> asks(r->Ok_0@, name@, args@.len() as int) && r->Ok_0@.subrange(
                    268,
                    r->Ok_0@.len() as int,
                ) == input_arguments_bytes(framed(given(Some(args))))
            },
        forall|r: Result<Vec<u8>, Error>|
            #[trigger] call_ensures(Acpi::eval_request, (acpi, name, args), r) ==> {
                &&& r is Ok <==> args@.len() <= 7 && forall|i: int|
                    0 <= i < args@.len() ==> (#[trigger] args@[i])@.payload().len() <= 65535
                &&& r is Err ==> r->Err_0 == Error::Parse(
                    if args@.len() > 7 {
                        AcpiParseError::InsufficientLength
                    } else {
                        AcpiParseError::InvalidFormat
                    },
                )
                &&& r is Ok ==> asks(r->Ok_0@, name@, args@.len() as int) && r->Ok_0@.subrange(
                    268,
                    r->Ok_0@.len() as int,
                ) == input_arguments_bytes(framed(given(Some(args))))
            },
{
    let views = given(Some(args));
    seven_arguments_at_most(name@, views);
    assert forall|i: int| 0 <= i < args@.len() implies (#[trigger] args@[i])@ == views[i] by {}
    assert((forall|i: int| 0 <= i < args@.len() ==> (#[trigger] args@[i])@.payload().len() <= 65535)
        <==> forall|i: int|
        0 <= i < views.len() ==> (#[trigger] views[i]).payload().len() <= 65535) by {
        if forall|i: int| 0 <= i < args@.len() ==> (#[trigger] args@[i])@.payload().len() <= 65535 {
            assert forall|i: int| 0 <= i < views.len() implies (#[trigger] views[i]).payload().len()
                <= 65535 by {
                assert(args@[i]@ == views[i]);
            }
        }
    }
    if request_of(name@, views) is Ok {
        request_head(name@, views);
        request_layout(name@, views);
    }
}

/// An argument is converted exactly where its data has a 16-bit length, to its type and data.
pub proof fn argument_is_converted(arg: AcpiMethodArgument)
    ensures
        forall|r: Result<AcpiMethodArgumentV1, AcpiParseError>|
            #[trigger] call_ensures(AcpiMethodArgumentV1::try_from, (arg,), r) ==> {
                &&& r is Ok <==> arg@.payload().len() <= 65535
                &&& r is Err ==> r->Err_0 == AcpiParseError::InvalidFormat
                &&& r is Ok ==> r->Ok_0.data@ == arg@.payload() && r->Ok_0.data_length
                    == arg@.payload().len() && r->Ok_0.type_ == arg@.framed().type_
                    && r->Ok_0.data_32 == arg@.framed().data_32
            },
{
    argument_framing(arg@);
}

/// Errors are shown by their texts, and tell their kinds.
pub proof fn errors_are_shown(e: &Error, parse: &AcpiParseError)
    ensures
        forall|text: String|
            #[trigger] call_ensures(Error::to_string, (e,), text) ==> text@ == error_text(*e),
        forall|text: String|
            #[trigger] call_ensures(AcpiParseError::to_string, (parse,), text) ==> text@
                == parse_error_text(*parse),
        forall|kind: ErrorKind|
            #[trigger] call_ensures(Error::kind, (e,), kind) ==> kind == error_kind(*e),
{
}

/// A data source is behind the device that was found, or behind none.
pub proof fn source_is_behind_the_device(fan_instance: u8, found: Result<String, AcpiParseError>)
    ensures
        forall|acpi: Acpi|
            #[trigger] call_ensures(Acpi::new, (fan_instance, found), acpi) ==> {
                &&& acpi.fan_instance == fan_instance
                &&& found is Ok ==> acpi.device_path@ == found->Ok_0@
                &&& found is Err ==> acpi.device_path@.len() == 0
            },
{
}

/// An input buffer is made of the name and all arguments of a method, however many there are, where
/// each has up to 65535 bytes of data; and its bytes are laid out one part behind the other.
pub proof fn input_is_made(
    method: AcpiMethodInput,
    input: AcpiEvalInputBufferComplexV1Ex,
    list: &[AcpiMethodArgument],
)
    requires
        method.args == Some(list),
    ensures
        forall|r: Result<AcpiEvalInputBufferComplexV1Ex, AcpiParseError>|
            #[trigger] call_ensures(AcpiEvalInputBufferComplexV1Ex::try_from, (method,), r) ==> {
                let views = given(Some(list));
                &&& r is Ok <==> all_encodable(views)
                &&& r is Err ==> r->Err_0 == AcpiParseError::InvalidFormat
                &&& r is Ok ==> {
                    &&& r->Ok_0.signature == 0x4669_6541
                    &&& r->Ok_0.methodname@ == name_field(encode_utf8(method.name@))
                    &&& r->Ok_0.size == total_length(framed(views)) as u32
                    &&& r->Ok_0.argumentcount == list@.len() as u32
                    &&& argument_views(r->Ok_0.arguments@) == framed(views)
                }
            },
        forall|buf: Vec<u8>|
            #[trigger] call_ensures(
                <Vec<u8> as From<AcpiEvalInputBufferComplexV1Ex>>::from,
                (input,),
                buf,
            ) ==> buf@ == u32_le(input.signature) + input.methodname@ + u32_le(input.size) + u32_le(
                input.argumentcount,
            ) + input_arguments_bytes(argument_views(input.arguments@)),
{
}

/// The sum of the data lengths grows by the length of each further argument.
pub proof fn lengths_add_up(arguments: Seq<ArgumentView>, last: ArgumentView)
    ensures
        total_length(seq![]) == 0,
        total_length(arguments.push(last)) == total_length(arguments) + last.data_length,
{
    assert(arguments.push(last).drop_last() =~= arguments);
}

/// The driver frames each argument on its own, and can be given all where it can be given each.
pub proof fn arguments_are_framed_alone(args: Seq<MethodArgumentView>, i: int)
    requires
        0 <= i < args.len(),
    ensures
        framed(args).len() == args.len(),
        framed(args)[i] == args[i].framed(),
        all_encodable(args) ==> args[i].payload().len() <= 65535,
        (forall|k: int| 0 <= k < args.len() ==> (#[trigger] args[k]).payload().len() <= 65535)
            ==> all_encodable(args),
{
    if all_encodable(args) {
        assert(args[i].encodable());
    }
}

} // verus!
