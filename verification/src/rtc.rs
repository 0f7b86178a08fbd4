//! The real-time clock and its alarm timers.
use crate::acpi::{request_of, status_reply, u32_reply, Acpi};
use crate::argument::{
    method_argument_views, AcpiMethodArgument, AcpiMethodArgumentV1, MethodArgumentView,
};
use crate::bytes::copied;
use crate::device::DeviceReply;
use crate::error::{AcpiParseError, Error};
use crate::output::{AcpiEvalOutputBufferV1, OutputView};
use crate::value::AcpiArgumentType;
use vstd::prelude::*;

verus! {

/// An alarm timer, by the power source under which it runs.
#[derive(Debug, Clone, Copy, PartialEq, Eq, Structural)]
pub enum AcpiTimerId {
    AcPower,
    DcPower,
}

impl AcpiTimerId {
    /// The number of the timer.
    pub open spec fn number(self) -> u32 {
        match self {
            AcpiTimerId::AcPower => 0,
            AcpiTimerId::DcPower => 1,
        }
    }

    /// The number of the timer.
    pub fn to_u32(self) -> (number: u32)
        ensures
            number == self.number(),
    {
        match self {
            AcpiTimerId::AcPower => 0,
            AcpiTimerId::DcPower => 1,
        }
    }
}

/// The bits that tell what the clock can do.
#[derive(Debug, Clone, Copy, PartialEq, Eq, Structural)]
pub struct TimeAlarmDeviceCapabilities(pub u32);

/// The bits that tell what a timer did.
#[derive(Debug, Clone, Copy, PartialEq, Eq, Structural)]
pub struct TimerStatus(pub u32);

/// The wake policy of a timer that expired, in seconds.
#[derive(Debug, Clone, Copy, PartialEq, Eq, Structural)]
pub struct AlarmExpiredWakePolicy(pub u32);

/// The time that a timer has left, in seconds.
#[derive(Debug, Clone, Copy, PartialEq, Eq, Structural)]
pub struct AlarmTimerSeconds(pub u32);

/// A point in time, by the sixteen bytes that the clock takes for it.
#[derive(Debug, Clone, Copy)]
pub struct AcpiTimestamp {
    pub bytes: [u8; 16],
}

/// The bytes of the time that the output holds: those of its one buffer.
pub open spec fn time_of(output: OutputView) -> Result<Seq<u8>, Error> {
    if output.count != 1 || output.arguments.len() == 0 || output.arguments[0].type_
        != AcpiArgumentType::Buffer.number() {
        Err(Error::UnexpectedResponse)
    } else {
        Ok(output.arguments[0].data)
    }
}

/// The bytes of the time that the reply holds.
pub open spec fn time_reply(reply: DeviceReply) -> Result<Seq<u8>, Error> {
    match reply.evaluation() {
        Ok(output) => time_of(output),
        Err(e) => Err(Error::Parse(e)),
    }
}

impl Acpi {
    /// The bytes that ask what the clock can do.
    pub fn get_capabilities_request(&self) -> (r: Result<Vec<u8>, AcpiParseError>)
        ensures
            r matches Ok(buf) && request_of(
                "\\_SB.ECT0._GCP"@,
                seq![],
            ) == Ok::<Seq<u8>, AcpiParseError>(buf@),
    {
        self.evaluate_request("\\_SB.ECT0._GCP", None)
    }

    /// Reads from the reply what the clock can do.
    pub fn get_capabilities(&self, reply: DeviceReply) -> (r: Result<TimeAlarmDeviceCapabilities, Error>)
        ensures
            match u32_reply(reply) {
                Ok(value) => r == Ok::<TimeAlarmDeviceCapabilities, Error>(TimeAlarmDeviceCapabilities(value)),
                Err(e) => r == Err::<TimeAlarmDeviceCapabilities, Error>(e),
            },
    {
        match self.evaluate_u32(reply) {
            Ok(value) => Ok(TimeAlarmDeviceCapabilities(value)),
            Err(e) => Err(e),
        }
    }

    /// The bytes that ask for the time.
    pub fn get_real_time_request(&self) -> (r: Result<Vec<u8>, AcpiParseError>)
        ensures
            r matches Ok(buf) && request_of(
                "\\_SB.ECT0._GRT"@,
                seq![],
            ) == Ok::<Seq<u8>, AcpiParseError>(buf@),
    {
        self.evaluate_request("\\_SB.ECT0._GRT", None)
    }

    /// Reads the bytes of the time from the reply.
    pub fn get_real_time(&self, reply: DeviceReply) -> (r: Result<Vec<u8>, Error>)
        ensures
            match time_reply(reply) {
                Ok(time) => r matches Ok(bytes) && bytes@ == time,
                Err(e) => r == Err::<Vec<u8>, Error>(e),
            },
    {
        let result: AcpiEvalOutputBufferV1 = match self.evaluate(reply) {
            Ok(output) => output,
            Err(e) => return Err(Error::Parse(e)),
        };
        if result.count != 1 {
            return Err(Error::UnexpectedResponse);
        }
        let arg: &AcpiMethodArgumentV1 = match result.arg(0) {
            Ok(arg) => arg,
            Err(e) => return Err(e),
        };
        assert(result@.arguments[0] == arg@);
        if arg.type_ != AcpiArgumentType::Buffer.to_u16() {
            return Err(Error::UnexpectedResponse);
        }
        Ok(copied(arg.data.as_slice()))
    }

    /// The bytes that ask what a timer did.
    pub fn get_wake_status_request(&self, timer_id: AcpiTimerId) -> (r: Result<Vec<u8>, AcpiParseError>)
        ensures
            r matches Ok(buf) && request_of(
                "\\_SB.ECT0._GWS"@,
                seq![MethodArgumentView::Int(timer_id.number())],
            ) == Ok::<Seq<u8>, AcpiParseError>(buf@),
    {
        let mut args: Vec<AcpiMethodArgument> = Vec::new();
        args.push(AcpiMethodArgument::Int(timer_id.to_u32()));
        assert(method_argument_views(args@) =~= seq![MethodArgumentView::Int(timer_id.number())]);
        self.request("\\_SB.ECT0._GWS", args)
    }

    /// Reads from the reply what a timer did.
    pub fn get_wake_status(&self, reply: DeviceReply) -> (r: Result<TimerStatus, Error>)
        ensures
            match u32_reply(reply) {
                Ok(value) => r == Ok::<TimerStatus, Error>(TimerStatus(value)),
                Err(e) => r == Err::<TimerStatus, Error>(e),
            },
    {
        match self.evaluate_u32(reply) {
            Ok(value) => Ok(TimerStatus(value)),
            Err(e) => Err(e),
        }
    }

    /// The bytes that ask for the wake policy of a timer that expired.
    pub fn get_expired_timer_wake_policy_request(&self, timer_id: AcpiTimerId) -> (r: Result<Vec<u8>, AcpiParseError>)
        ensures
            r matches Ok(buf) && request_of(
                "\\_SB.ECT0._TIP"@,
                seq![MethodArgumentView::Int(timer_id.number())],
            ) == Ok::<Seq<u8>, AcpiParseError>(buf@),
    {
        let mut args: Vec<AcpiMethodArgument> = Vec::new();
        args.push(AcpiMethodArgument::Int(timer_id.to_u32()));
        assert(method_argument_views(args@) =~= seq![MethodArgumentView::Int(timer_id.number())]);
        self.request("\\_SB.ECT0._TIP", args)
    }

    /// Reads the wake policy of a timer that expired from the reply.
    pub fn get_expired_timer_wake_policy(&self, reply: DeviceReply) -> (r: Result<AlarmExpiredWakePolicy, Error>)
        ensures
            match u32_reply(reply) {
                Ok(value) => r == Ok::<AlarmExpiredWakePolicy, Error>(AlarmExpiredWakePolicy(value)),
                Err(e) => r == Err::<AlarmExpiredWakePolicy, Error>(e),
            },
    {
        match self.evaluate_u32(reply) {
            Ok(value) => Ok(AlarmExpiredWakePolicy(value)),
            Err(e) => Err(e),
        }
    }

    /// The bytes that ask for the time that a timer has left.
    pub fn get_timer_value_request(&self, timer_id: AcpiTimerId) -> (r: Result<Vec<u8>, AcpiParseError>)
        ensures
            r matches Ok(buf) && request_of(
                "\\_SB.ECT0._TIV"@,
                seq![MethodArgumentView::Int(timer_id.number())],
            ) == Ok::<Seq<u8>, AcpiParseError>(buf@),
    {
        let mut args: Vec<AcpiMethodArgument> = Vec::new();
        args.push(AcpiMethodArgument::Int(timer_id.to_u32()));
        assert(method_argument_views(args@) =~= seq![MethodArgumentView::Int(timer_id.number())]);
        self.request("\\_SB.ECT0._TIV", args)
    }

    /// Reads the time that a timer has left from the reply.
    pub fn get_timer_value(&self, reply: DeviceReply) -> (r: Result<AlarmTimerSeconds, Error>)
        ensures
            match u32_reply(reply) {
                Ok(value) => r == Ok::<AlarmTimerSeconds, Error>(AlarmTimerSeconds(value)),
                Err(e) => r == Err::<AlarmTimerSeconds, Error>(e),
            },
    {
        match self.evaluate_u32(reply) {
            Ok(value) => Ok(AlarmTimerSeconds(value)),
            Err(e) => Err(e),
        }
    }

    /// The bytes that set the time.
    pub fn set_real_time_request(&self, timestamp: AcpiTimestamp) -> (r: Result<Vec<u8>, AcpiParseError>)
        ensures
            r matches Ok(buf) && request_of(
                "\\_SB.ECT0._SRT"@,
                seq![MethodArgumentView::Buffer(timestamp.bytes@)],
            ) == Ok::<Seq<u8>, AcpiParseError>(buf@),
    {
        let mut args: Vec<AcpiMethodArgument> = Vec::new();
        args.push(AcpiMethodArgument::Buffer(copied(timestamp.bytes.as_slice())));
        assert(method_argument_views(args@) =~= seq![MethodArgumentView::Buffer(timestamp.bytes@)]);
        self.request("\\_SB.ECT0._SRT", args)
    }

    /// Reads from the reply whether the time was set.
    pub fn set_real_time(&self, reply: DeviceReply) -> (r: Result<(), Error>)
        ensures
            r == status_reply(reply),
    {
        self.evaluate_status(reply)
    }

    /// The bytes that set a timer.
    pub fn set_timer_value_request(&self, timer_id: AcpiTimerId, value: AlarmTimerSeconds) -> (r: Result<Vec<u8>, AcpiParseError>)
        ensures
            r matches Ok(buf) && request_of(
                "\\_SB.ECT0._STV"@,
                seq![MethodArgumentView::Int(timer_id.number()), MethodArgumentView::Int(value.0)],
            ) == Ok::<Seq<u8>, AcpiParseError>(buf@),
    {
        let mut args: Vec<AcpiMethodArgument> = Vec::new();
        args.push(AcpiMethodArgument::Int(timer_id.to_u32()));
        args.push(AcpiMethodArgument::Int(value.0));
        assert(method_argument_views(args@) =~= seq![MethodArgumentView::Int(timer_id.number()), MethodArgumentView::Int(value.0)]);
        self.request("\\_SB.ECT0._STV", args)
    }

    /// Reads from the reply whether a timer was set.
    pub fn set_timer_value(&self, reply: DeviceReply) -> (r: Result<(), Error>)
        ensures
            r == status_reply(reply),
    {
        self.evaluate_status(reply)
    }

    /// The bytes that set the wake policy of a timer that expired.
    pub fn set_expired_timer_wake_policy_request(&self, timer_id: AcpiTimerId, policy: AlarmExpiredWakePolicy) -> (r: Result<Vec<u8>, AcpiParseError>)
        ensures
            r matches Ok(buf) && request_of(
                "\\_SB.ECT0._STP"@,
                seq![MethodArgumentView::Int(timer_id.number()), MethodArgumentView::Int(policy.0)],
            ) == Ok::<Seq<u8>, AcpiParseError>(buf@),
    {
        let mut args: Vec<AcpiMethodArgument> = Vec::new();
        args.push(AcpiMethodArgument::Int(timer_id.to_u32()));
        args.push(AcpiMethodArgument::Int(policy.0));
        assert(method_argument_views(args@) =~= seq![MethodArgumentView::Int(timer_id.number()), MethodArgumentView::Int(policy.0)]);
        self.request("\\_SB.ECT0._STP", args)
    }

    /// Reads from the reply whether the wake policy was set.
    pub fn set_expired_timer_wake_policy(&self, reply: DeviceReply) -> (r: Result<(), Error>)
        ensures
            r == status_reply(reply),
    {
        self.evaluate_status(reply)
    }

    /// The bytes that clear what a timer did.
    pub fn clear_wake_status_request(&self, timer_id: AcpiTimerId) -> (r: Result<Vec<u8>, AcpiParseError>)
        ensures
            r matches Ok(buf) && request_of(
                "\\_SB.ECT0._CWS"@,
                seq![MethodArgumentView::Int(timer_id.number())],
            ) == Ok::<Seq<u8>, AcpiParseError>(buf@),
    {
        let mut args: Vec<AcpiMethodArgument> = Vec::new();
        args.push(AcpiMethodArgument::Int(timer_id.to_u32()));
        assert(method_argument_views(args@) =~= seq![MethodArgumentView::Int(timer_id.number())]);
        self.request("\\_SB.ECT0._CWS", args)
    }

    /// Reads from the reply whether the wake status was cleared.
    pub fn clear_wake_status(&self, reply: DeviceReply) -> (r: Result<(), Error>)
        ensures
            r == status_reply(reply),
    {
        self.evaluate_status(reply)
    }
}

} // verus!
