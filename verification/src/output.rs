//! The output buffer in which the driver returns the results of a method.
use crate::argument::{argument_views, AcpiMethodArgumentV1, ArgumentView};
use crate::bytes::{copied, le_u16, le_u32, read_u16, read_u32};
use crate::error::AcpiParseError;
use vstd::prelude::*;
use vstd::slice::slice_subrange;

verus! {

/// The signature `AeoB` of an output buffer.
pub const ACPI_EVAL_OUTPUT_BUFFER_SIGNATURE: u32 = 0x426f_6541;

/// The results of a method.
#[derive(Debug)]
pub struct AcpiEvalOutputBufferV1 {
    pub signature: u32,
    pub length: u32,
    pub count: u32,
    pub arguments: Vec<AcpiMethodArgumentV1>,
}

impl Default for AcpiEvalOutputBufferV1 {
    fn default() -> (output: AcpiEvalOutputBufferV1)
        ensures
            output@ == (OutputView { signature: 0, length: 0, count: 0, arguments: seq![] }),
    {
        let output: AcpiEvalOutputBufferV1 = AcpiEvalOutputBufferV1 {
            signature: 0,
            length: 0,
            count: 0,
            arguments: Vec::new(),
        };
        assert(output@.arguments =~= seq![]);
        output
    }
}

/// What an [`AcpiEvalOutputBufferV1`] holds.
#[verifier::ext_equal]
pub struct OutputView {
    pub signature: u32,
    pub length: u32,
    pub count: u32,
    pub arguments: Seq<ArgumentView>,
}

impl View for AcpiEvalOutputBufferV1 {
    type V = OutputView;

    open spec fn view(&self) -> OutputView {
        OutputView {
            signature: self.signature,
            length: self.length,
            count: self.count,
            arguments: argument_views(self.arguments@),
        }
    }
}

/// Whether a whole argument lies at `offset`: its type, its length, its data, and room for the
/// four bytes that its data takes up at least.
pub open spec fn argument_fits(b: Seq<u8>, offset: int) -> bool {
    offset + 8 <= b.len() && offset + 4 + le_u16(b, offset + 2) <= b.len()
}

/// The argument at `offset`. Only an integer (type 0) has a 32-bit value.
pub open spec fn argument_at(b: Seq<u8>, offset: int) -> ArgumentView {
    let data_length = le_u16(b, offset + 2);
    ArgumentView {
        type_: le_u16(b, offset),
        data_length,
        data_32: if le_u16(b, offset) == 0 {
            le_u32(b, offset + 4)
        } else {
            0
        },
        data: b.subrange(offset + 4, offset + 4 + data_length),
    }
}

/// The number of bytes that `data_length` bytes of data occupy.
pub open spec fn padded_length(data_length: int) -> int {
    if data_length < 4 {
        4
    } else {
        data_length
    }
}

/// The offset behind the argument at `offset`.
pub open spec fn after_argument(b: Seq<u8>, offset: int) -> int {
    offset + 4 + padded_length(le_u16(b, offset + 2) as int)
}

/// The `count` arguments that follow each other from `offset` on, and the offset behind them;
/// `None` where one of them does not fit.
pub open spec fn arguments_from(b: Seq<u8>, offset: int, count: nat) -> Option<
    (Seq<ArgumentView>, int),
>
    decreases count,
{
    if count == 0 {
        Some((seq![], offset))
    } else if !argument_fits(b, offset) {
        None
    } else {
        match arguments_from(b, after_argument(b, offset), (count - 1) as nat) {
            Some((rest, end)) => Some((seq![argument_at(b, offset)] + rest, end)),
            None => None,
        }
    }
}

/// What an output buffer of these bytes holds, or why the bytes are refused.
pub open spec fn output_of(b: Seq<u8>) -> Result<OutputView, AcpiParseError> {
    if b.len() < 12 {
        Err(AcpiParseError::InsufficientLength)
    } else if le_u32(b, 0) != ACPI_EVAL_OUTPUT_BUFFER_SIGNATURE || le_u32(b, 4) != b.len() {
        Err(AcpiParseError::InvalidFormat)
    } else {
        match arguments_from(b, 12, le_u32(b, 8) as nat) {
            None => Err(AcpiParseError::InsufficientLength),
            Some((arguments, end)) => if end != b.len() {
                Err(AcpiParseError::InvalidFormat)
            } else {
                Ok(
                    OutputView {
                        signature: le_u32(b, 0),
                        length: le_u32(b, 4),
                        count: le_u32(b, 8),
                        arguments,
                    },
                )
            },
        }
    }
}

/// `head` in front of the arguments that `rest` found.
spec fn preceded_by(head: Seq<ArgumentView>, rest: Option<(Seq<ArgumentView>, int)>) -> Option<
    (Seq<ArgumentView>, int),
> {
    match rest {
        Some((tail, end)) => Some((head + tail, end)),
        None => None,
    }
}

impl AcpiEvalOutputBufferV1 {
    /// Parses the bytes of an output buffer.
    pub fn try_from(value: Vec<u8>) -> (r: Result<AcpiEvalOutputBufferV1, AcpiParseError>)
        ensures
            match output_of(value@) {
                Ok(view) => r matches Ok(output) && output@ == view,
                Err(e) => r == Err::<AcpiEvalOutputBufferV1, AcpiParseError>(e),
            },
            r matches Ok(output) ==> output.count == output.arguments@.len(),
    {
        let b: &[u8] = value.as_slice();
        if b.len() < 12 {
            return Err(AcpiParseError::InsufficientLength);
        }
        let signature: u32 = read_u32(b, 0);
        let length: u32 = read_u32(b, 4);
        let count: u32 = read_u32(b, 8);
        if signature != ACPI_EVAL_OUTPUT_BUFFER_SIGNATURE || length as usize != b.len() {
            return Err(AcpiParseError::InvalidFormat);
        }
        let mut offset: usize = 12;
        let mut arguments: Vec<AcpiMethodArgumentV1> = Vec::new();
        let mut done: u32 = 0;
        assert(argument_views(arguments@) =~= seq![]);
        assert(preceded_by(seq![], arguments_from(b@, 12, count as nat)) == arguments_from(
            b@,
            12,
            count as nat,
        )) by {
            if let Some((tail, end)) = arguments_from(b@, 12, count as nat) {
                assert(Seq::<ArgumentView>::empty() + tail =~= tail);
            }
        }
        while done < count
            invariant
                b@ == value@,
                le_u32(b@, 0) == ACPI_EVAL_OUTPUT_BUFFER_SIGNATURE,
                le_u32(b@, 4) == b@.len(),
                le_u32(b@, 8) == count,
                done <= count,
                12 <= offset <= b@.len(),
                arguments@.len() == done,
                arguments_from(b@, 12, count as nat) == preceded_by(
                    argument_views(arguments@),
                    arguments_from(b@, offset as int, (count - done) as nat),
                ),
            decreases count - done,
        {
            let ghost rest = arguments_from(b@, offset as int, (count - done) as nat);
            if b.len() - offset < 8 {
                return Err(AcpiParseError::InsufficientLength);
            }
            let type_: u16 = read_u16(b, offset);
            let data_length: u16 = read_u16(b, offset + 2);
            let data_32: u32 = if type_ == 0 {
                read_u32(b, offset + 4)
            } else {
                0
            };
            let start: usize = offset + 4;
            if b.len() - start < data_length as usize {
                return Err(AcpiParseError::InsufficientLength);
            }
            let end: usize = start + data_length as usize;
            let data: Vec<u8> = copied(slice_subrange(b, start, end));
            let ghost head = argument_views(arguments@);
            let ghost here = argument_at(b@, offset as int);
            // The driver reserves at least four bytes for the data of an argument.
            let next: usize = start + if data_length < 4 {
                4
            } else {
                data_length as usize
            };
            arguments.push(AcpiMethodArgumentV1 { type_, data_length, data_32, data });
            proof {
                assert(argument_views(arguments@) =~= head.push(here));
                let further = arguments_from(b@, next as int, (count - done - 1) as nat);
                if let Some((tail, last)) = further {
                    assert(head + (seq![here] + tail) =~= head.push(here) + tail);
                }
            }
            offset = next;
            done = done + 1;
        }
        assert(argument_views(arguments@) + Seq::<ArgumentView>::empty() =~= argument_views(
            arguments@,
        ));
        if offset != b.len() {
            return Err(AcpiParseError::InvalidFormat);
        }
        Ok(AcpiEvalOutputBufferV1 { signature, length, count, arguments })
    }
}

/// The model of an output buffer holds all that the buffer holds.
pub proof fn output_model(output: AcpiEvalOutputBufferV1, i: int)
    ensures
        output@.signature == output.signature,
        output@.length == output.length,
        output@.count == output.count,
        output@.arguments.len() == output.arguments@.len(),
        0 <= i < output.arguments@.len() ==> output@.arguments[i] == output.arguments@[i]@,
{
}

} // verus!
