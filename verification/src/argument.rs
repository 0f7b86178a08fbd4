//! Arguments of a method, as callers write them and as the driver frames them.
use crate::bytes::{copied, push_u32, u32_digits, u32_le};
use crate::error::AcpiParseError;
use crate::value::AcpiArgumentType;
use vstd::prelude::*;
use vstd::string::StrSliceExecFns;
use vstd::utf8::encode_utf8;

verus! {

/// A user-friendly ACPI method argument
#[derive(Debug)]
pub enum AcpiMethodArgument {
    /// Arbitrary u32 integer (DWORD)
    Int(u32),
    /// GUID in mixed-endian format
    Guid([u8; 16]),
    /// Null-terminated ASCII string
    String(String),
    /// Arbitrary-length byte buffer
    Buffer(Vec<u8>),
}

/// What an [`AcpiMethodArgument`] holds.
#[verifier::ext_equal]
pub enum MethodArgumentView {
    Int(u32),
    Guid(Seq<u8>),
    String(Seq<char>),
    Buffer(Seq<u8>),
}

impl View for AcpiMethodArgument {
    type V = MethodArgumentView;

    open spec fn view(&self) -> MethodArgumentView {
        match self {
            AcpiMethodArgument::Int(i) => MethodArgumentView::Int(*i),
            AcpiMethodArgument::Guid(g) => MethodArgumentView::Guid(g@),
            AcpiMethodArgument::String(s) => MethodArgumentView::String(s@),
            AcpiMethodArgument::Buffer(b) => MethodArgumentView::Buffer(b@),
        }
    }
}

impl Clone for AcpiMethodArgument {
    fn clone(&self) -> (copy: AcpiMethodArgument)
        ensures
            copy@ == self@,
    {
        match self {
            AcpiMethodArgument::Int(i) => AcpiMethodArgument::Int(*i),
            AcpiMethodArgument::Guid(g) => AcpiMethodArgument::Guid(*g),
            AcpiMethodArgument::String(s) => AcpiMethodArgument::String(s.clone()),
            AcpiMethodArgument::Buffer(b) => AcpiMethodArgument::Buffer(copied(b.as_slice())),
        }
    }
}

/// What each of the arguments holds.
pub open spec fn method_argument_views(args: Seq<AcpiMethodArgument>) -> Seq<MethodArgumentView> {
    args.map_values(|a: AcpiMethodArgument| a@)
}

impl MethodArgumentView {
    /// The type under which the driver gets the argument.
    pub open spec fn argument_type(self) -> AcpiArgumentType {
        match self {
            MethodArgumentView::Int(_) => AcpiArgumentType::Integer,
            MethodArgumentView::Guid(_) => AcpiArgumentType::Buffer,
            MethodArgumentView::String(_) => AcpiArgumentType::String,
            MethodArgumentView::Buffer(_) => AcpiArgumentType::Buffer,
        }
    }

    /// The data that the driver gets for the argument. A string ends in a null byte.
    pub open spec fn payload(self) -> Seq<u8> {
        match self {
            MethodArgumentView::Int(i) => u32_le(i),
            MethodArgumentView::Guid(g) => g,
            MethodArgumentView::String(s) => encode_utf8(s).push(0),
            MethodArgumentView::Buffer(b) => b,
        }
    }

    /// Whether the length of the data fits the 16 bits that the driver has for it.
    pub open spec fn encodable(self) -> bool {
        self.payload().len() <= u16::MAX
    }

    /// The argument as the driver frames it.
    pub open spec fn framed(self) -> ArgumentView {
        ArgumentView {
            type_: self.argument_type().number(),
            data_length: self.payload().len() as u16,
            data_32: match self {
                MethodArgumentView::Int(i) => i,
                _ => 0,
            },
            data: self.payload(),
        }
    }
}

/// One argument of a method, as the driver frames it.
#[derive(Debug)]
pub struct AcpiMethodArgumentV1 {
    pub type_: u16,
    pub data_length: u16,
    pub data_32: u32,
    pub data: Vec<u8>,
}

impl Default for AcpiMethodArgumentV1 {
    fn default() -> (argument: AcpiMethodArgumentV1)
        ensures
            argument@ == (ArgumentView { type_: 0, data_length: 0, data_32: 0, data: seq![] }),
    {
        AcpiMethodArgumentV1 { type_: 0, data_length: 0, data_32: 0, data: Vec::new() }
    }
}

/// What an [`AcpiMethodArgumentV1`] holds.
#[verifier::ext_equal]
pub struct ArgumentView {
    pub type_: u16,
    pub data_length: u16,
    pub data_32: u32,
    pub data: Seq<u8>,
}

impl View for AcpiMethodArgumentV1 {
    type V = ArgumentView;

    open spec fn view(&self) -> ArgumentView {
        ArgumentView {
            type_: self.type_,
            data_length: self.data_length,
            data_32: self.data_32,
            data: self.data@,
        }
    }
}

/// What each of the arguments holds.
pub open spec fn argument_views(arguments: Seq<AcpiMethodArgumentV1>) -> Seq<ArgumentView> {
    arguments.map_values(|a: AcpiMethodArgumentV1| a@)
}

impl AcpiMethodArgumentV1 {
    /// Converts a user-friendly argument to the form that the driver expects.
    pub fn try_from(arg: AcpiMethodArgument) -> (r: Result<AcpiMethodArgumentV1, AcpiParseError>)
        ensures
            if arg@.encodable() {
                r matches Ok(framed) && framed@ == arg@.framed()
            } else {
                r == Err::<AcpiMethodArgumentV1, AcpiParseError>(AcpiParseError::InvalidFormat)
            },
    {
        let ghost view = arg@;
        match arg {
            AcpiMethodArgument::Guid(g) => Ok(
                AcpiMethodArgumentV1 {
                    type_: AcpiArgumentType::Buffer.to_u16(),
                    data_length: 16,
                    data_32: 0,
                    data: copied(g.as_slice()),
                },
            ),
            AcpiMethodArgument::Int(i) => {
                let mut data: Vec<u8> = Vec::new();
                push_u32(&mut data, i);
                assert(data@ =~= view.payload());
                Ok(
                    AcpiMethodArgumentV1 {
                        type_: AcpiArgumentType::Integer.to_u16(),
                        data_length: 4,
                        data_32: i,
                        data,
                    },
                )
            },
            AcpiMethodArgument::String(s) => {
                let mut data: Vec<u8> = s.as_str().as_bytes_vec();
                data.push(0);  // null terminator
                assert(data@ == view.payload());
                if data.len() > 0xffff {
                    return Err(AcpiParseError::InvalidFormat);
                }
                Ok(
                    AcpiMethodArgumentV1 {
                        type_: AcpiArgumentType::String.to_u16(),
                        data_length: data.len() as u16,
                        data_32: 0,
                        data,
                    },
                )
            },
            AcpiMethodArgument::Buffer(b) => {
                if b.len() > 0xffff {
                    return Err(AcpiParseError::InvalidFormat);
                }
                Ok(
                    AcpiMethodArgumentV1 {
                        type_: AcpiArgumentType::Buffer.to_u16(),
                        data_length: b.len() as u16,
                        data_32: 0,
                        data: b,
                    },
                )
            },
        }
    }
}

/// The driver gets an integer as its four digits to the base 256, a string as its encoding and a
/// null byte, a GUID and a buffer as they are. It can be given what has a 16-bit length.
pub proof fn argument_framing(a: MethodArgumentView)
    ensures
        ({
            let f = a.framed();
            let d = f.data;
            &&& match a {
                MethodArgumentView::Int(i) => {
                    &&& f.type_ == 0 && f.data_32 == i && d.len() == 4
                    &&& d[0] + 0x100 * d[1] + 0x1_0000 * d[2] + 0x100_0000 * d[3] == i
                },
                MethodArgumentView::Guid(g) => f.type_ == 2 && f.data_32 == 0 && d == g,
                MethodArgumentView::String(s) => {
                    &&& f.type_ == 1 && f.data_32 == 0
                    &&& d.len() > 0 && d.last() == 0 && d.drop_last() == encode_utf8(s)
                },
                MethodArgumentView::Buffer(b) => f.type_ == 2 && f.data_32 == 0 && d == b,
            }
            &&& a.encodable() <==> d.len() <= 65535
            &&& a.encodable() ==> f.data_length == d.len()
            &&& d == a.payload()
        }),
{
    match a {
        MethodArgumentView::Int(i) => {
            u32_digits(i);
        },
        MethodArgumentView::String(s) => {
            assert(a.payload().drop_last() =~= encode_utf8(s));
        },
        _ => {},
    }
}

/// The models of arguments hold all that the arguments hold.
pub proof fn argument_models(
    i: u32,
    g: [u8; 16],
    s: String,
    b: Vec<u8>,
    argument: AcpiMethodArgumentV1,
)
    ensures
        AcpiMethodArgument::Int(i)@ == MethodArgumentView::Int(i),
        AcpiMethodArgument::Guid(g)@ == MethodArgumentView::Guid(g@),
        AcpiMethodArgument::String(s)@ == MethodArgumentView::String(s@),
        AcpiMethodArgument::Buffer(b)@ == MethodArgumentView::Buffer(b@),
        argument@.type_ == argument.type_,
        argument@.data_length == argument.data_length,
        argument@.data_32 == argument.data_32,
        argument@.data == argument.data@,
{
}

/// There is one model for each argument, in the order of the arguments.
pub proof fn arguments_by_index(
    args: Seq<AcpiMethodArgument>,
    arguments: Seq<AcpiMethodArgumentV1>,
    i: int,
)
    ensures
        method_argument_views(args).len() == args.len(),
        0 <= i < args.len() ==> method_argument_views(args)[i] == args[i]@,
        argument_views(arguments).len() == arguments.len(),
        0 <= i < arguments.len() ==> argument_views(arguments)[i] == arguments[i]@,
{
}

} // verus!
