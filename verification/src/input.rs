//! The input buffer that asks the driver to evaluate a method.
use crate::argument::{
    argument_views, method_argument_views, AcpiMethodArgument, AcpiMethodArgumentV1, ArgumentView,
    MethodArgumentView,
};
use crate::bytes::{push_all, push_u16, push_u32, u16_le, u32_le};
use crate::error::AcpiParseError;
use vstd::prelude::*;
use vstd::utf8::encode_utf8;

verus! {

/// A user-friendly ACPI input method containing a name and optional arguments
pub struct AcpiMethodInput<'a, 'b> {
    pub name: &'a str,
    pub args: Option<&'b [AcpiMethodArgument]>,
}

/// The signature `AeiF` of an input buffer.
pub const ACPI_EVAL_INPUT_BUFFER_COMPLEX_SIGNATURE_EX: u32 = 0x4669_6541;

/// The number of bytes that an input buffer has for the name of the method.
pub const METHOD_NAME_LENGTH: usize = 256;

/// An input buffer.
#[derive(Debug)]
pub struct AcpiEvalInputBufferComplexV1Ex {
    pub signature: u32,
    pub methodname: [u8; 256],
    pub size: u32,
    pub argumentcount: u32,
    pub arguments: Vec<AcpiMethodArgumentV1>,
}

/// What an [`AcpiEvalInputBufferComplexV1Ex`] holds.
#[verifier::ext_equal]
pub struct InputView {
    pub signature: u32,
    pub methodname: Seq<u8>,
    pub size: u32,
    pub argumentcount: u32,
    pub arguments: Seq<ArgumentView>,
}

impl View for AcpiEvalInputBufferComplexV1Ex {
    type V = InputView;

    open spec fn view(&self) -> InputView {
        InputView {
            signature: self.signature,
            methodname: self.methodname@,
            size: self.size,
            argumentcount: self.argumentcount,
            arguments: argument_views(self.arguments@),
        }
    }
}

/// The arguments given, none where there is no list of them.
pub open spec fn given(args: Option<&[AcpiMethodArgument]>) -> Seq<MethodArgumentView> {
    match args {
        Some(list) => method_argument_views(list@),
        None => seq![],
    }
}

/// The name in the bytes that an input buffer has for it: cut off behind them, or filled up
/// with zeros.
pub open spec fn name_field(name: Seq<u8>) -> Seq<u8> {
    Seq::new(
        METHOD_NAME_LENGTH as nat,
        |i: int|
            if i < name.len() {
                name[i]
            } else {
                0
            },
    )
}

/// Whether the driver can be given each of the arguments.
pub open spec fn all_encodable(args: Seq<MethodArgumentView>) -> bool {
    forall|i: int| 0 <= i < args.len() ==> (#[trigger] args[i]).encodable()
}

/// The arguments as the driver frames them.
pub open spec fn framed(args: Seq<MethodArgumentView>) -> Seq<ArgumentView> {
    args.map_values(|a: MethodArgumentView| a.framed())
}

/// The sum of the data lengths.
pub open spec fn total_length(arguments: Seq<ArgumentView>) -> nat
    decreases arguments.len(),
{
    if arguments.len() == 0 {
        0
    } else {
        total_length(arguments.drop_last()) + arguments.last().data_length as nat
    }
}

/// The input buffer for a method and its arguments, or why there is none.
pub open spec fn input_of(name: Seq<char>, args: Seq<MethodArgumentView>) -> Result<
    InputView,
    AcpiParseError,
> {
    if all_encodable(args) {
        Ok(
            InputView {
                signature: ACPI_EVAL_INPUT_BUFFER_COMPLEX_SIGNATURE_EX,
                methodname: name_field(encode_utf8(name)),
                size: total_length(framed(args)) as u32,
                argumentcount: args.len() as u32,
                arguments: framed(args),
            },
        )
    } else {
        Err(AcpiParseError::InvalidFormat)
    }
}

/// The bytes of an argument in an input buffer.
pub open spec fn input_argument_bytes(a: ArgumentView) -> Seq<u8> {
    u16_le(a.type_) + u16_le(a.data_length) + a.data
}

/// The bytes of the arguments in an input buffer, one behind the other.
pub open spec fn input_arguments_bytes(arguments: Seq<ArgumentView>) -> Seq<u8>
    decreases arguments.len(),
{
    if arguments.len() == 0 {
        seq![]
    } else {
        input_arguments_bytes(arguments.drop_last()) + input_argument_bytes(arguments.last())
    }
}

/// The bytes of an input buffer.
pub open spec fn input_bytes(input: InputView) -> Seq<u8> {
    u32_le(input.signature) + input.methodname + u32_le(input.size) + u32_le(input.argumentcount)
        + input_arguments_bytes(input.arguments)
}

/// Each data length has 16 bits.
pub(crate) proof fn lemma_total_bounded(arguments: Seq<ArgumentView>)
    ensures
        total_length(arguments) <= 0xffff * arguments.len(),
    decreases arguments.len(),
{
    if arguments.len() > 0 {
        lemma_total_bounded(arguments.drop_last());
    }
}

proof fn lemma_total_monotonic(arguments: Seq<ArgumentView>, n: int)
    requires
        0 <= n <= arguments.len(),
    ensures
        total_length(arguments.take(n)) <= total_length(arguments),
    decreases arguments.len() - n,
{
    if n < arguments.len() {
        lemma_total_monotonic(arguments, n + 1);
        assert(arguments.take(n + 1).drop_last() =~= arguments.take(n));
    } else {
        assert(arguments.take(n) =~= arguments);
    }
}

/// The name in the bytes that an input buffer has for it.
fn name_bytes(name: &str) -> (field: [u8; 256])
    ensures
        field@ == name_field(encode_utf8(name@)),
{
    let mut field: [u8; 256] = [0u8;256];
    let bytes: &[u8] = name.as_bytes();
    let mut i: usize = 0;
    while i < METHOD_NAME_LENGTH && i < bytes.len()
        invariant
            i <= METHOD_NAME_LENGTH,
            forall|j: int|
                0 <= j < METHOD_NAME_LENGTH ==> #[trigger] field@[j] == if j < i && j < bytes@.len() {
                    bytes@[j]
                } else {
                    0
                },
        decreases METHOD_NAME_LENGTH - i,
    {
        field[i] = bytes[i];
        i = i + 1;
    }
    assert(field@ =~= name_field(encode_utf8(name@)));
    field
}

/// The sum of the data lengths.
fn sum_of_lengths(arguments: &Vec<AcpiMethodArgumentV1>) -> (size: u32)
    requires
        total_length(argument_views(arguments@)) <= u32::MAX,
    ensures
        size == total_length(argument_views(arguments@)),
{
    let ghost views = argument_views(arguments@);
    let mut size: u32 = 0;
    let mut i: usize = 0;
    while i < arguments.len()
        invariant
            i <= arguments@.len(),
            views == argument_views(arguments@),
            total_length(views) <= u32::MAX,
            size == total_length(views.take(i as int)),
        decreases arguments@.len() - i,
    {
        proof {
            lemma_total_monotonic(views, i + 1);
            assert(views.take(i + 1).drop_last() =~= views.take(i as int));
        }
        size = size + arguments[i].data_length as u32;
        i = i + 1;
    }
    assert(views.take(arguments@.len() as int) =~= views);
    size
}

impl AcpiEvalInputBufferComplexV1Ex {
    /// Converts a user-friendly input method to the form that the driver expects.
    pub fn try_from(method: AcpiMethodInput) -> (r: Result<
        AcpiEvalInputBufferComplexV1Ex,
        AcpiParseError,
    >)
        requires
            all_encodable(given(method.args)) ==> total_length(framed(given(method.args)))
                <= u32::MAX,
        ensures
            match input_of(method.name@, given(method.args)) {
                Ok(view) => r matches Ok(input) && input@ == view,
                Err(e) => r == Err::<AcpiEvalInputBufferComplexV1Ex, AcpiParseError>(e),
            },
    {
        let methodname: [u8; 256] = name_bytes(method.name);
        let ghost views = given(method.args);
        let mut arguments: Vec<AcpiMethodArgumentV1> = Vec::new();
        if let Some(args) = method.args {
            let mut i: usize = 0;
            while i < args.len()
                invariant
                    i <= args@.len(),
                    arguments@.len() == i,
                    views == method_argument_views(args@),
                    forall|j: int| 0 <= j < i ==> (#[trigger] views[j]).encodable(),
                    forall|j: int| 0 <= j < i ==> (#[trigger] arguments@[j])@ == views[j].framed(),
                    views == given(method.args),
                decreases args@.len() - i,
            {
                match AcpiMethodArgumentV1::try_from(args[i].clone()) {
                    Ok(argument) => {
                        arguments.push(argument);
                    },
                    Err(e) => {
                        assert(!views[i as int].encodable());
                        return Err(e);
                    },
                }
                i = i + 1;
            }
        }
        assert(argument_views(arguments@) =~= framed(views));
        let size: u32 = sum_of_lengths(&arguments);
        Ok(
            AcpiEvalInputBufferComplexV1Ex {
                signature: ACPI_EVAL_INPUT_BUFFER_COMPLEX_SIGNATURE_EX,
                methodname,
                size,
                argumentcount: arguments.len() as u32,
                arguments,
            },
        )
    }
}

/// A vector is not determined by what it holds, so `from` states its bytes in a clause of its own.
impl vstd::std_specs::convert::FromSpecImpl<AcpiEvalInputBufferComplexV1Ex> for Vec<u8> {
    open spec fn obeys_from_spec() -> bool {
        false
    }

    open spec fn from_spec(input: AcpiEvalInputBufferComplexV1Ex) -> Vec<u8> {
        arbitrary()
    }
}

impl From<AcpiEvalInputBufferComplexV1Ex> for Vec<u8> {
    /// Packs an input buffer into its bytes.
    fn from(input: AcpiEvalInputBufferComplexV1Ex) -> (buf: Vec<u8>)
        ensures
            buf@ == input_bytes(input@),
    {
        let mut buf: Vec<u8> = Vec::new();
        push_u32(&mut buf, input.signature);
        push_all(&mut buf, input.methodname.as_slice());
        push_u32(&mut buf, input.size);
        push_u32(&mut buf, input.argumentcount);
        let ghost head = buf@;
        let ghost views = argument_views(input.arguments@);
        let mut i: usize = 0;
        assert(buf@ =~= head + input_arguments_bytes(views.take(0)));
        while i < input.arguments.len()
            invariant
                i <= input.arguments@.len(),
                views == argument_views(input.arguments@),
                buf@ == head + input_arguments_bytes(views.take(i as int)),
            decreases input.arguments@.len() - i,
        {
            let ghost before = input_arguments_bytes(views.take(i as int));
            let arg: &AcpiMethodArgumentV1 = &input.arguments[i];
            push_u16(&mut buf, arg.type_);
            push_u16(&mut buf, arg.data_length);
            push_all(&mut buf, arg.data.as_slice());
            proof {
                assert(views.take(i + 1).drop_last() =~= views.take(i as int));
                assert(buf@ =~= head + (before + input_argument_bytes(views[i as int])));
            }
            i = i + 1;
        }
        assert(views.take(input.arguments@.len() as int) =~= views);
        assert(head =~= u32_le(input.signature) + input.methodname@ + u32_le(input.size) + u32_le(
            input.argumentcount,
        ));
        buf
    }
}

/// The model of an input buffer holds all that the buffer holds.
pub proof fn input_model(input: AcpiEvalInputBufferComplexV1Ex, i: int)
    ensures
        input@.signature == input.signature,
        input@.methodname == input.methodname@,
        input@.size == input.size,
        input@.argumentcount == input.argumentcount,
        input@.arguments.len() == input.arguments@.len(),
        0 <= i < input.arguments@.len() ==> input@.arguments[i] == input.arguments@[i]@,
{
}

} // verus!
