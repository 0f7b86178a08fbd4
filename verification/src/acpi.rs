//! Evaluating methods: what is sent to the driver for each, and what its reply means.
use crate::argument::{
    method_argument_views, AcpiMethodArgument, AcpiMethodArgumentV1, MethodArgumentView,
};
use crate::bytes::{le_u64, read_u64};
use crate::device::DeviceReply;
use crate::error::{AcpiParseError, Error};
use crate::input::{
    framed, given, input_bytes, input_of, lemma_total_bounded, AcpiEvalInputBufferComplexV1Ex,
    AcpiMethodInput,
};
use crate::output::{AcpiEvalOutputBufferV1, OutputView};
use crate::packing::argument_values;
use crate::text::{encode_utf16, utf16};
use crate::value::{acpi_value_from, value_of, value_views, AcpiArgumentType, AcpiValue};
use vstd::prelude::*;

verus! {

/// The number of arguments that a method takes at most.
pub const MAX_ARGUMENTS: usize = 7;

/// A data source behind the driver.
pub struct Acpi {
    pub fan_instance: u8,
    pub device_path: String,
}

impl Clone for Acpi {
    fn clone(&self) -> (copy: Acpi)
        ensures
            copy == *self,
    {
        Acpi { fan_instance: self.fan_instance, device_path: self.device_path.clone() }
    }
}

impl Default for Acpi {
    fn default() -> (acpi: Acpi)
        ensures
            acpi.fan_instance == 0,
            acpi.device_path@ == Seq::<char>::empty(),
    {
        Acpi { fan_instance: 0, device_path: String::new() }
    }
}

/// The bytes that ask for the evaluation of a method, or why it cannot be asked for.
pub open spec fn request_of(name: Seq<char>, args: Seq<MethodArgumentView>) -> Result<
    Seq<u8>,
    AcpiParseError,
> {
    if args.len() > MAX_ARGUMENTS {
        Err(AcpiParseError::InsufficientLength)
    } else {
        match input_of(name, args) {
            Ok(input) => Ok(input_bytes(input)),
            Err(e) => Err(e),
        }
    }
}

/// The 32-bit value of the argument at `index`.
pub open spec fn data_32_at(output: OutputView, index: int) -> Result<u32, Error> {
    if 0 <= index < output.arguments.len() {
        Ok(output.arguments[index].data_32)
    } else {
        Err(Error::UnexpectedResponse)
    }
}

/// The one integer that the output holds, in four bytes or in eight.
pub open spec fn u32_of(output: OutputView) -> Result<u32, Error> {
    if output.count != 1 || output.arguments.len() == 0 {
        Err(Error::UnexpectedResponse)
    } else {
        let a = output.arguments[0];
        if a.type_ != AcpiArgumentType::Integer.number() {
            Err(Error::UnexpectedArgumentType(a.type_))
        } else if a.data_length == 4 {
            Ok(a.data_32)
        } else if a.data_length == 8 && a.data.len() == 8 {
            if le_u64(a.data, 0) <= u32::MAX {
                Ok(le_u64(a.data, 0) as u32)
            } else {
                Err(Error::InvalidData)
            }
        } else {
            Err(Error::UnexpectedResponse)
        }
    }
}

/// The one integer that the reply holds.
pub open spec fn u32_reply(reply: DeviceReply) -> Result<u32, Error> {
    match reply.evaluation() {
        Ok(output) => u32_of(output),
        Err(e) => Err(Error::Parse(e)),
    }
}

/// Whether the reply is the status of success.
pub open spec fn status_reply(reply: DeviceReply) -> Result<(), Error> {
    match u32_reply(reply) {
        Ok(status) => if status == 0 {
            Ok(())
        } else {
            Err(Error::OperationFailed)
        },
        Err(e) => Err(e),
    }
}

impl AcpiEvalOutputBufferV1 {
    /// Safely access an argument by index, returning an error if out of bounds.
    pub fn arg(&self, index: usize) -> (r: Result<&AcpiMethodArgumentV1, Error>)
        ensures
            if index < self.arguments@.len() {
                r == Ok::<&AcpiMethodArgumentV1, Error>(&self.arguments@[index as int])
            } else {
                r == Err::<&AcpiMethodArgumentV1, Error>(Error::UnexpectedResponse)
            },
    {
        if index < self.arguments.len() {
            Ok(&self.arguments[index])
        } else {
            Err(Error::UnexpectedResponse)
        }
    }

    /// The 32-bit value of the argument at `index`.
    pub fn data_32(&self, index: usize) -> (r: Result<u32, Error>)
        ensures
            r == data_32_at(self@, index as int),
    {
        match self.arg(index) {
            Ok(arg) => Ok(arg.data_32),
            Err(e) => Err(e),
        }
    }
}

impl Acpi {
    /// A data source for one fan, behind the device that was found; behind none where the search
    /// failed.
    pub fn new(fan_instance: u8, device_path: Result<String, AcpiParseError>) -> (acpi: Acpi)
        ensures
            acpi.fan_instance == fan_instance,
            match device_path {
                Ok(path) => acpi.device_path == path,
                Err(_) => acpi.device_path@ == Seq::<char>::empty(),
            },
    {
        let device_path: String = match device_path {
            Ok(path) => path,
            Err(_) => String::new(),
        };
        Acpi { fan_instance, device_path }
    }

    /// The null-terminated UTF-16 units of the device path, under which the device is opened.
    pub fn device_path_wide(&self) -> (units: Vec<u16>)
        ensures
            units@ == utf16(self.device_path@).push(0),
    {
        let mut units: Vec<u16> = encode_utf16(self.device_path.as_str());
        units.push(0);
        units
    }

    /// The bytes that ask the driver to evaluate a method.
    pub fn evaluate_request(&self, name: &str, args: Option<&[AcpiMethodArgument]>) -> (r: Result<
        Vec<u8>,
        AcpiParseError,
    >)
        ensures
            match request_of(name@, given(args)) {
                Ok(bytes) => r matches Ok(buf) && buf@ == bytes,
                Err(e) => r == Err::<Vec<u8>, AcpiParseError>(e),
            },
    {
        if let Some(list) = args {
            if list.len() > MAX_ARGUMENTS {
                return Err(AcpiParseError::InsufficientLength);
            }
        }
        proof {
            lemma_total_bounded(framed(given(args)));
        }
        match AcpiEvalInputBufferComplexV1Ex::try_from(AcpiMethodInput { name, args }) {
            Ok(input) => Ok(Vec::<u8>::from(input)),
            Err(e) => Err(e),
        }
    }

    /// The bytes that ask the driver to evaluate a method with these arguments.
    pub(crate) fn request(&self, name: &str, args: Vec<AcpiMethodArgument>) -> (r: Result<
        Vec<u8>,
        AcpiParseError,
    >)
        ensures
            match request_of(name@, method_argument_views(args@)) {
                Ok(bytes) => r matches Ok(buf) && buf@ == bytes,
                Err(e) => r == Err::<Vec<u8>, AcpiParseError>(e),
            },
    {
        self.evaluate_request(name, Some(args.as_slice()))
    }

    /// Reads the results of a method from the reply.
    pub fn evaluate(&self, reply: DeviceReply) -> (r: Result<AcpiEvalOutputBufferV1, AcpiParseError>)
        ensures
            match reply.evaluation() {
                Ok(view) => r matches Ok(output) && output@ == view,
                Err(e) => r == Err::<AcpiEvalOutputBufferV1, AcpiParseError>(e),
            },
            r matches Ok(output) ==> output.count == output.arguments@.len(),
    {
        reply.into_output()
    }

    /// The bytes that ask the driver to evaluate an arbitrary method by name.
    pub fn eval_request(&self, name: &str, args: &[AcpiMethodArgument]) -> (r: Result<
        Vec<u8>,
        Error,
    >)
        ensures
            match request_of(name@, given(Some(args))) {
                Ok(bytes) => r matches Ok(buf) && buf@ == bytes,
                Err(e) => r == Err::<Vec<u8>, Error>(Error::Parse(e)),
            },
    {
        match self.evaluate_request(name, Some(args)) {
            Ok(buf) => Ok(buf),
            Err(e) => Err(Error::Parse(e)),
        }
    }

    /// Reads the results of an arbitrary method as [`AcpiValue`]s.
    pub fn eval(&self, reply: DeviceReply) -> (r: Result<Vec<AcpiValue>, Error>)
        ensures
            match reply.evaluation() {
                Ok(output) => r matches Ok(values) && value_views(values@) == argument_values(
                    output.arguments,
                ),
                Err(e) => r == Err::<Vec<AcpiValue>, Error>(Error::Parse(e)),
            },
    {
        let output: AcpiEvalOutputBufferV1 = match self.evaluate(reply) {
            Ok(output) => output,
            Err(e) => return Err(Error::Parse(e)),
        };
        let mut values: Vec<AcpiValue> = Vec::new();
        let mut i: usize = 0;
        while i < output.arguments.len()
            invariant
                i <= output.arguments@.len(),
                values@.len() == i,
                forall|j: int|
                    0 <= j < i ==> (#[trigger] values@[j])@ == value_of(
                        output.arguments@[j].type_,
                        output.arguments@[j].data@,
                    ),
            decreases output.arguments@.len() - i,
        {
            let arg: &AcpiMethodArgumentV1 = &output.arguments[i];
            let value: AcpiValue = acpi_value_from(arg.type_, arg.data.as_slice());
            values.push(value);
            i = i + 1;
        }
        assert(value_views(values@) =~= argument_values(output@.arguments));
        Ok(values)
    }

    /// Reads the single u32 result of a method.
    /// Errors if the result is not a single u32.
    pub fn evaluate_u32(&self, reply: DeviceReply) -> (r: Result<u32, Error>)
        ensures
            r == u32_reply(reply),
    {
        let output: AcpiEvalOutputBufferV1 = match self.evaluate(reply) {
            Ok(output) => output,
            Err(e) => return Err(Error::Parse(e)),
        };
        if output.count != 1 {
            return Err(Error::UnexpectedResponse);
        }
        let arg: &AcpiMethodArgumentV1 = match output.arg(0) {
            Ok(arg) => arg,
            Err(e) => return Err(e),
        };
        assert(output@.arguments[0] == arg@);
        if arg.type_ != AcpiArgumentType::Integer.to_u16() {
            Err(Error::UnexpectedArgumentType(arg.type_))
        } else if arg.data_length == 4 {
            Ok(arg.data_32)
        } else if arg.data_length == 8 {
            // The driver can return eight bytes even for 32-bit results.
            if arg.data.len() != 8 {
                return Err(Error::UnexpectedResponse);
            }
            let value: u64 = read_u64(arg.data.as_slice(), 0);
            if value <= 0xffff_ffff {
                Ok(value as u32)
            } else {
                Err(Error::InvalidData)
            }
        } else {
            Err(Error::UnexpectedResponse)
        }
    }

    /// Reads a status from the reply: zero is success.
    pub fn evaluate_status(&self, reply: DeviceReply) -> (r: Result<(), Error>)
        ensures
            r == status_reply(reply),
    {
        match self.evaluate_u32(reply) {
            Ok(status) => if status != 0 {
                Err(Error::OperationFailed)
            } else {
                Ok(())
            },
            Err(e) => Err(e),
        }
    }
}

} // verus!
