//! Temperatures and fan variables.
use crate::acpi::{data_32_at, request_of, Acpi};
use crate::argument::{method_argument_views, AcpiMethodArgument, MethodArgumentView};
use crate::device::DeviceReply;
use crate::error::{AcpiParseError, Error};
use crate::guid::{mixed_endian, Guid};
use crate::output::{AcpiEvalOutputBufferV1, OutputView};
use vstd::prelude::*;

verus! {

/// The temperatures at which a fan changes its behaviour.
#[derive(Debug, Clone, Copy, PartialEq, Eq, Structural)]
pub enum Threshold {
    /// The fan turns on
    On,
    /// The fan starts to ramp up
    Ramping,
    /// The fan runs at full speed
    Max,
}

/// The GUIDs of the variables of a fan.
#[derive(Debug, Clone, Copy)]
pub struct FanGuids {
    pub current_rpm: Guid,
    pub min_rpm: Guid,
    pub max_rpm: Guid,
    pub on_temp: Guid,
    pub ramp_temp: Guid,
    pub max_temp: Guid,
}

impl FanGuids {
    /// The variable that holds the threshold.
    pub open spec fn threshold_guid(self, threshold: Threshold) -> Guid {
        match threshold {
            Threshold::On => self.on_temp,
            Threshold::Ramping => self.ramp_temp,
            Threshold::Max => self.max_temp,
        }
    }

    /// The variable that holds the threshold.
    pub fn threshold(&self, threshold: Threshold) -> (guid: Guid)
        ensures
            guid == self.threshold_guid(threshold),
    {
        match threshold {
            Threshold::On => self.on_temp,
            Threshold::Ramping => self.ramp_temp,
            Threshold::Max => self.max_temp,
        }
    }
}

/// The request that reads a variable.
pub open spec fn get_var_request(fan_instance: u8, guid: Guid) -> Result<Seq<u8>, AcpiParseError> {
    request_of(
        "\\_SB.ECT0.TGVR"@,
        seq![
            MethodArgumentView::Int(fan_instance as u32),
            MethodArgumentView::Guid(mixed_endian(guid.bytes@)),
        ],
    )
}

/// The request that writes a variable.
pub open spec fn set_var_request(fan_instance: u8, guid: Guid, value: u32) -> Result<
    Seq<u8>,
    AcpiParseError,
> {
    request_of(
        "\\_SB.ECT0.TSVR"@,
        seq![
            MethodArgumentView::Int(fan_instance as u32),
            MethodArgumentView::Guid(mixed_endian(guid.bytes@)),
            MethodArgumentView::Int(value),
        ],
    )
}

/// The value of the variable that was read: behind a status of success.
pub open spec fn variable_of(output: OutputView) -> Result<u32, Error> {
    if output.count != 2 {
        Err(Error::UnexpectedResponse)
    } else {
        match data_32_at(output, 0) {
            Ok(status) => if status != 0 {
                Err(Error::OperationFailed)
            } else {
                data_32_at(output, 1)
            },
            Err(e) => Err(e),
        }
    }
}

/// Whether the variable was written: a status of success, of whatever type.
pub open spec fn written_of(output: OutputView) -> Result<(), Error> {
    if output.count != 1 {
        Err(Error::UnexpectedResponse)
    } else {
        match data_32_at(output, 0) {
            Ok(status) => if status != 0 {
                Err(Error::OperationFailed)
            } else {
                Ok(())
            },
            Err(e) => Err(e),
        }
    }
}

/// The value of the variable that the reply holds.
pub open spec fn variable_reply(reply: DeviceReply) -> Result<u32, Error> {
    match reply.evaluation() {
        Ok(output) => variable_of(output),
        Err(e) => Err(Error::Parse(e)),
    }
}

/// Whether the reply is that of a variable that was written.
pub open spec fn written_reply(reply: DeviceReply) -> Result<(), Error> {
    match reply.evaluation() {
        Ok(output) => written_of(output),
        Err(e) => Err(Error::Parse(e)),
    }
}

/// The one 32-bit value of the output, of whatever type.
pub open spec fn temperature_of(output: OutputView) -> Result<u32, Error> {
    if output.count != 1 {
        Err(Error::UnexpectedResponse)
    } else {
        data_32_at(output, 0)
    }
}

/// The temperature that the reply holds.
pub open spec fn temperature_reply(reply: DeviceReply) -> Result<u32, Error> {
    match reply.evaluation() {
        Ok(output) => temperature_of(output),
        Err(e) => Err(Error::Parse(e)),
    }
}

impl Acpi {
    /// The bytes that ask for a variable of the fan.
    pub fn acpi_get_var_request(&self, guid: Guid) -> (r: Result<Vec<u8>, AcpiParseError>)
        ensures
            r matches Ok(buf) && get_var_request(self.fan_instance, guid) == Ok::<
                Seq<u8>,
                AcpiParseError,
            >(buf@),
    {
        let mut args: Vec<AcpiMethodArgument> = Vec::new();
        args.push(AcpiMethodArgument::Int(self.fan_instance as u32));
        args.push(AcpiMethodArgument::Guid(guid.to_bytes_le()));
        assert(method_argument_views(args@) =~= seq![
            MethodArgumentView::Int(self.fan_instance as u32),
            MethodArgumentView::Guid(mixed_endian(guid.bytes@)),
        ]);
        self.request("\\_SB.ECT0.TGVR", args)
    }

    /// Reads the value of a variable from the reply.
    pub fn acpi_get_var(&self, reply: DeviceReply) -> (r: Result<u32, Error>)
        ensures
            r == variable_reply(reply),
    {
        let output: AcpiEvalOutputBufferV1 = match self.evaluate(reply) {
            Ok(output) => output,
            Err(e) => return Err(Error::Parse(e)),
        };
        if output.count != 2 {
            return Err(Error::UnexpectedResponse);
        }
        match output.data_32(0) {
            Ok(status) => if status != 0 {
                Err(Error::OperationFailed)
            } else {
                output.data_32(1)
            },
            Err(e) => Err(e),
        }
    }

    /// The bytes that set a variable of the fan.
    pub fn acpi_set_var_request(&self, guid: Guid, value: u32) -> (r: Result<
        Vec<u8>,
        AcpiParseError,
    >)
        ensures
            r matches Ok(buf) && set_var_request(self.fan_instance, guid, value) == Ok::<
                Seq<u8>,
                AcpiParseError,
            >(buf@),
    {
        let mut args: Vec<AcpiMethodArgument> = Vec::new();
        args.push(AcpiMethodArgument::Int(self.fan_instance as u32));
        args.push(AcpiMethodArgument::Guid(guid.to_bytes_le()));
        args.push(AcpiMethodArgument::Int(value));
        assert(method_argument_views(args@) =~= seq![
            MethodArgumentView::Int(self.fan_instance as u32),
            MethodArgumentView::Guid(mixed_endian(guid.bytes@)),
            MethodArgumentView::Int(value),
        ]);
        self.request("\\_SB.ECT0.TSVR", args)
    }

    /// Reads from the reply whether a variable was set.
    pub fn acpi_set_var(&self, reply: DeviceReply) -> (r: Result<(), Error>)
        ensures
            r == written_reply(reply),
    {
        let output: AcpiEvalOutputBufferV1 = match self.evaluate(reply) {
            Ok(output) => output,
            Err(e) => return Err(Error::Parse(e)),
        };
        if output.count != 1 {
            return Err(Error::UnexpectedResponse);
        }
        match output.data_32(0) {
            Ok(status) => if status != 0 {
                Err(Error::OperationFailed)
            } else {
                Ok(())
            },
            Err(e) => Err(e),
        }
    }

    /// The bytes that ask for the temperature.
    pub fn get_temperature_request(&self) -> (r: Result<Vec<u8>, AcpiParseError>)
        ensures
            r matches Ok(buf) && request_of("\\_SB.ECT0.RTMP"@, seq![]) == Ok::<
                Seq<u8>,
                AcpiParseError,
            >(buf@),
    {
        self.evaluate_request("\\_SB.ECT0.RTMP", None)
    }

    /// Reads the temperature, in tenths of a kelvin, from the reply.
    pub fn get_temperature(&self, reply: DeviceReply) -> (r: Result<u32, Error>)
        ensures
            r == temperature_reply(reply),
    {
        let output: AcpiEvalOutputBufferV1 = match self.evaluate(reply) {
            Ok(output) => output,
            Err(e) => return Err(Error::Parse(e)),
        };
        if output.count != 1 {
            Err(Error::UnexpectedResponse)
        } else {
            output.data_32(0)
        }
    }

    /// The bytes that ask for the current speed of the fan.
    pub fn get_rpm_request(&self, guids: &FanGuids) -> (r: Result<Vec<u8>, AcpiParseError>)
        ensures
            r matches Ok(buf) && get_var_request(self.fan_instance, guids.current_rpm) == Ok::<
                Seq<u8>,
                AcpiParseError,
            >(buf@),
    {
        self.acpi_get_var_request(guids.current_rpm)
    }

    /// Reads the current speed of the fan from the reply.
    pub fn get_rpm(&self, reply: DeviceReply) -> (r: Result<u32, Error>)
        ensures
            r == variable_reply(reply),
    {
        self.acpi_get_var(reply)
    }

    /// The bytes that ask for the lowest speed of the fan.
    pub fn get_min_rpm_request(&self, guids: &FanGuids) -> (r: Result<Vec<u8>, AcpiParseError>)
        ensures
            r matches Ok(buf) && get_var_request(self.fan_instance, guids.min_rpm) == Ok::<
                Seq<u8>,
                AcpiParseError,
            >(buf@),
    {
        self.acpi_get_var_request(guids.min_rpm)
    }

    /// Reads the lowest speed of the fan from the reply.
    pub fn get_min_rpm(&self, reply: DeviceReply) -> (r: Result<u32, Error>)
        ensures
            r == variable_reply(reply),
    {
        self.acpi_get_var(reply)
    }

    /// The bytes that ask for the highest speed of the fan.
    pub fn get_max_rpm_request(&self, guids: &FanGuids) -> (r: Result<Vec<u8>, AcpiParseError>)
        ensures
            r matches Ok(buf) && get_var_request(self.fan_instance, guids.max_rpm) == Ok::<
                Seq<u8>,
                AcpiParseError,
            >(buf@),
    {
        self.acpi_get_var_request(guids.max_rpm)
    }

    /// Reads the highest speed of the fan from the reply.
    pub fn get_max_rpm(&self, reply: DeviceReply) -> (r: Result<u32, Error>)
        ensures
            r == variable_reply(reply),
    {
        self.acpi_get_var(reply)
    }

    /// The bytes that ask for a threshold.
    pub fn get_threshold_request(&self, guids: &FanGuids, threshold: Threshold) -> (r: Result<
        Vec<u8>,
        AcpiParseError,
    >)
        ensures
            r matches Ok(buf) && get_var_request(
                self.fan_instance,
                guids.threshold_guid(threshold),
            ) == Ok::<Seq<u8>, AcpiParseError>(buf@),
    {
        self.acpi_get_var_request(guids.threshold(threshold))
    }

    /// Reads a threshold, in tenths of a kelvin, from the reply.
    pub fn get_threshold(&self, reply: DeviceReply) -> (r: Result<u32, Error>)
        ensures
            r == variable_reply(reply),
    {
        self.acpi_get_var(reply)
    }

    /// The bytes that set a threshold, given in tenths of a kelvin.
    pub fn set_threshold_request(
        &self,
        guids: &FanGuids,
        threshold: Threshold,
        value: u32,
    ) -> (r: Result<Vec<u8>, AcpiParseError>)
        ensures
            r matches Ok(buf) && set_var_request(
                self.fan_instance,
                guids.threshold_guid(threshold),
                value,
            ) == Ok::<Seq<u8>, AcpiParseError>(buf@),
    {
        self.acpi_set_var_request(guids.threshold(threshold), value)
    }

    /// Reads from the reply whether a threshold was set.
    pub fn set_threshold(&self, reply: DeviceReply) -> (r: Result<(), Error>)
        ensures
            r == written_reply(reply),
    {
        self.acpi_set_var(reply)
    }

    /// The bytes that set the speed of the fan.
    pub fn set_rpm_request(&self, guids: &FanGuids, rpm: u32) -> (r: Result<
        Vec<u8>,
        AcpiParseError,
    >)
        ensures
            r matches Ok(buf) && set_var_request(self.fan_instance, guids.current_rpm, rpm) == Ok::<
                Seq<u8>,
                AcpiParseError,
            >(buf@),
    {
        self.acpi_set_var_request(guids.current_rpm, rpm)
    }

    /// Reads from the reply whether the speed of the fan was set.
    pub fn set_rpm(&self, reply: DeviceReply) -> (r: Result<(), Error>)
        ensures
            r == written_reply(reply),
    {
        self.acpi_set_var(reply)
    }
}

} // verus!
