//! What the system answers when the driver is asked to evaluate a method.
use crate::error::AcpiParseError;
use crate::output::{output_of, AcpiEvalOutputBufferV1, OutputView};
use vstd::prelude::*;

verus! {

/// The number of bytes that the driver is given for its output.
pub const OUTPUT_BUFFER_LENGTH: usize = 1024;

/// The control code under which the driver evaluates a method.
pub const IOCTL_ACPI_EVAL_METHOD_EX: u32 = 0x0032_C018;

/// The error code for a device that opened without a usable handle.
pub const INVALID_HANDLE_CODE: i32 = -2;

/// What came of asking the driver to evaluate a method.
#[derive(Debug)]
pub enum DeviceReply {
    /// The device could not be opened, for the reason with this code
    OpenFailed(i32),
    /// The device opened without a usable handle
    InvalidHandle,
    /// The driver refused the request, for the reason with this code
    ControlFailed(i32),
    /// The driver filled the buffer it was given up to the number of bytes it returned
    Returned { buffer: Vec<u8>, bytes_returned: u32 },
}

impl DeviceReply {
    /// The bytes that the driver returned, or the code of the failure.
    pub open spec fn answer(self) -> Result<Seq<u8>, i32> {
        match self {
            DeviceReply::OpenFailed(code) | DeviceReply::ControlFailed(code) => Err(code),
            DeviceReply::InvalidHandle => Err(INVALID_HANDLE_CODE),
            DeviceReply::Returned { buffer, bytes_returned } => Ok(
                if bytes_returned <= buffer@.len() {
                    buffer@.take(bytes_returned as int)
                } else {
                    buffer@
                },
            ),
        }
    }

    /// The results of the evaluation, or why there are none.
    pub open spec fn evaluation(self) -> Result<OutputView, AcpiParseError> {
        match self.answer() {
            Ok(bytes) => output_of(bytes),
            Err(code) => Err(AcpiParseError::EvaluationFailed(code)),
        }
    }

    /// Reads the results of the evaluation.
    pub fn into_output(self) -> (r: Result<AcpiEvalOutputBufferV1, AcpiParseError>)
        ensures
            match self.evaluation() {
                Ok(view) => r matches Ok(output) && output@ == view,
                Err(e) => r == Err::<AcpiEvalOutputBufferV1, AcpiParseError>(e),
            },
            r matches Ok(output) ==> output.count == output.arguments@.len(),
    {
        match self {
            DeviceReply::OpenFailed(code) => Err(AcpiParseError::EvaluationFailed(code)),
            DeviceReply::InvalidHandle => Err(
                AcpiParseError::EvaluationFailed(INVALID_HANDLE_CODE),
            ),
            DeviceReply::ControlFailed(code) => Err(AcpiParseError::EvaluationFailed(code)),
            DeviceReply::Returned { buffer, bytes_returned } => {
                let mut bytes: Vec<u8> = buffer;
                bytes.truncate(bytes_returned as usize);
                assert(bytes@ =~= self.answer()->Ok_0);
                AcpiEvalOutputBufferV1::try_from(bytes)
            },
        }
    }
}

/// The driver answers with the first bytes of its buffer, as many as it returned, or all of them
/// where there are fewer; a failure is answered with its code.
pub proof fn answer_is_what_was_returned(buffer: Vec<u8>, bytes_returned: u32, code: i32)
    ensures
        ({
            let answer = (DeviceReply::Returned { buffer, bytes_returned }).answer();
            &&& answer is Ok
            &&& bytes_returned <= buffer@.len() ==> answer->Ok_0.len() == bytes_returned
            &&& bytes_returned > buffer@.len() ==> answer->Ok_0.len() == buffer@.len()
            &&& forall|i: int|
                0 <= i < answer->Ok_0.len() ==> #[trigger] answer->Ok_0[i] == buffer@[i]
        }),
        DeviceReply::OpenFailed(code).answer() == Err::<Seq<u8>, i32>(code),
        DeviceReply::ControlFailed(code).answer() == Err::<Seq<u8>, i32>(code),
        DeviceReply::InvalidHandle.answer() == Err::<Seq<u8>, i32>((-2) as i32),
{
}

/// What is evaluated is the answer, and nothing but it: replies with the same answer mean the
/// same, and a failed one is reported with its code.
pub proof fn evaluation_of_the_answer(reply: DeviceReply, other: DeviceReply, code: i32)
    ensures
        reply.answer() == other.answer() ==> reply.evaluation() == other.evaluation(),
        reply.answer() is Ok ==> reply.evaluation() == output_of(reply.answer()->Ok_0),
        reply.answer() == Err::<Seq<u8>, i32>(code) ==> reply.evaluation() == Err::<
            OutputView,
            AcpiParseError,
        >(AcpiParseError::EvaluationFailed(code)),
{
}

} // verus!
