//! Errors of parsing and of the operations built on it.
use crate::text::{
    decimal, decimal_denotes, decimal_value, push_decimal, push_signed_decimal, push_str,
    signed_decimal, signed_decimal_denotes,
};
use vstd::prelude::*;
use vstd::std_specs::convert::FromSpec;

verus! {

/// Errors that can occur when parsing ACPI buffers.
#[derive(Debug, Clone, Copy, PartialEq, Eq, Structural)]
pub enum AcpiParseError {
    /// The buffer was too short to contain the expected data
    InsufficientLength,
    /// The buffer contained invalid or unrecognized data
    InvalidFormat,
    /// The ACPI evaluation call returned a non-zero error code
    EvaluationFailed(i32),
}

/// The text that shows a parse error.
pub open spec fn parse_error_text(e: AcpiParseError) -> Seq<char> {
    match e {
        AcpiParseError::InsufficientLength => "InsufficientLength"@,
        AcpiParseError::InvalidFormat => "InvalidFormat"@,
        AcpiParseError::EvaluationFailed(code) => "EvaluationFailed("@ + signed_decimal(code as int)
            + ")"@,
    }
}

impl AcpiParseError {
    /// The text that shows the error.
    pub fn to_string(&self) -> (text: String)
        ensures
            text@ == parse_error_text(*self),
    {
        let mut text: String = String::new();
        match self {
            AcpiParseError::InsufficientLength => push_str(&mut text, "InsufficientLength"),
            AcpiParseError::InvalidFormat => push_str(&mut text, "InvalidFormat"),
            AcpiParseError::EvaluationFailed(code) => {
                push_str(&mut text, "EvaluationFailed(");
                push_signed_decimal(&mut text, *code);
                push_str(&mut text, ")");
            },
        }
        assert(text@ =~= parse_error_text(*self));
        text
    }
}

/// What went wrong, in the terms that all data sources share.
#[derive(Debug, Clone, Copy, PartialEq, Eq, Structural)]
pub enum ErrorKind {
    /// The source could not be reached
    Io,
    /// The source answered in an unexpected form
    UnexpectedResponse,
    /// The source answered with invalid data
    InvalidData,
    /// Anything else
    Other,
}

/// Why a UCSI mailbox could not be decoded.
#[derive(Debug)]
pub struct MailboxError {
    pub kind: ErrorKind,
    pub message: String,
}

/// Errors produced by ACPI data source operations.
#[derive(Debug)]
pub enum Error {
    /// ACPI buffer parsing failed
    Parse(AcpiParseError),
    /// Response had an unexpected format (wrong argument count, wrong type, etc.)
    UnexpectedResponse,
    /// ACPI method returned an argument of unexpected type
    UnexpectedArgumentType(u16),
    /// ACPI operation returned nonzero status
    OperationFailed,
    /// Data validation failed (invalid enum discriminant, malformed field, etc.)
    InvalidData,
    /// Decoding a UCSI mailbox response failed
    Ucsi(MailboxError),
}

/// The text that shows an error.
pub open spec fn error_text(e: Error) -> Seq<char> {
    match e {
        Error::Parse(e) => "ACPI parse error: "@ + parse_error_text(e),
        Error::UnexpectedResponse => "Unexpected response"@,
        Error::UnexpectedArgumentType(t) => "Unexpected argument type: "@ + decimal(t as nat),
        Error::OperationFailed => "Operation failed"@,
        Error::InvalidData => "Invalid data"@,
        Error::Ucsi(e) => "UCSI mailbox error: "@ + e.message@,
    }
}

/// The kind of an error.
pub open spec fn error_kind(e: Error) -> ErrorKind {
    match e {
        Error::Parse(_) | Error::OperationFailed => ErrorKind::Other,
        Error::UnexpectedResponse | Error::UnexpectedArgumentType(_) => {
            ErrorKind::UnexpectedResponse
        },
        Error::InvalidData => ErrorKind::InvalidData,
        Error::Ucsi(e) => e.kind,
    }
}

impl Error {
    /// The text that shows the error.
    pub fn to_string(&self) -> (text: String)
        ensures
            text@ == error_text(*self),
    {
        let mut text: String = String::new();
        match self {
            Error::Parse(e) => {
                push_str(&mut text, "ACPI parse error: ");
                push_str(&mut text, e.to_string().as_str());
            },
            Error::UnexpectedResponse => push_str(&mut text, "Unexpected response"),
            Error::UnexpectedArgumentType(t) => {
                push_str(&mut text, "Unexpected argument type: ");
                push_decimal(&mut text, *t as u64);
            },
            Error::OperationFailed => push_str(&mut text, "Operation failed"),
            Error::InvalidData => push_str(&mut text, "Invalid data"),
            Error::Ucsi(e) => {
                push_str(&mut text, "UCSI mailbox error: ");
                push_str(&mut text, e.message.as_str());
            },
        }
        assert(text@ =~= error_text(*self));
        text
    }

    /// The kind of the error.
    pub fn kind(&self) -> (kind: ErrorKind)
        ensures
            kind == error_kind(*self),
    {
        match self {
            Error::Parse(_) => ErrorKind::Other,
            Error::UnexpectedResponse => ErrorKind::UnexpectedResponse,
            Error::UnexpectedArgumentType(_) => ErrorKind::UnexpectedResponse,
            Error::OperationFailed => ErrorKind::Other,
            Error::InvalidData => ErrorKind::InvalidData,
            Error::Ucsi(e) => e.kind,
        }
    }

    /// The converted value, or the error for data that could not be converted.
    pub fn converted<T>(value: Option<T>) -> (r: Result<T, Error>)
        ensures
            match value {
                Some(v) => r == Ok::<T, Error>(v),
                None => r == Err::<T, Error>(Error::InvalidData),
            },
    {
        match value {
            Some(v) => Ok(v),
            None => Err(Error::InvalidData),
        }
    }
}

impl vstd::std_specs::convert::FromSpecImpl<MailboxError> for Error {
    open spec fn obeys_from_spec() -> bool {
        true
    }

    open spec fn from_spec(e: MailboxError) -> Error {
        Error::Ucsi(e)
    }
}

impl From<MailboxError> for Error {
    fn from(e: MailboxError) -> (r: Error) {
        Error::Ucsi(e)
    }
}

impl vstd::std_specs::convert::FromSpecImpl<AcpiParseError> for Error {
    open spec fn obeys_from_spec() -> bool {
        true
    }

    open spec fn from_spec(e: AcpiParseError) -> Error {
        Error::Parse(e)
    }
}

impl From<AcpiParseError> for Error {
    fn from(e: AcpiParseError) -> (r: Error) {
        Error::Parse(e)
    }
}

/// A parse error is shown by its name, and a failed evaluation with its code behind it.
pub proof fn parse_error_is_shown(code: i32)
    ensures
        parse_error_text(AcpiParseError::InsufficientLength) == "InsufficientLength"@,
        parse_error_text(AcpiParseError::InvalidFormat) == "InvalidFormat"@,
        ({
            let text = parse_error_text(AcpiParseError::EvaluationFailed(code));
            let open = "EvaluationFailed("@;
            let numeral = text.subrange(open.len() as int, text.len() - 1);
            &&& text.len() > open.len()
            &&& text.take(open.len() as int) == open
            &&& text.last() == ')'
            &&& code >= 0 ==> decimal_value(numeral) == code
            &&& code < 0 ==> numeral[0] == '-' && decimal_value(numeral.skip(1)) == -(code as int)
        }),
{
    reveal_strlit(")");
    let text = parse_error_text(AcpiParseError::EvaluationFailed(code));
    let open = "EvaluationFailed("@;
    assert(text.take(open.len() as int) =~= open);
    assert(text.subrange(open.len() as int, text.len() - 1) =~= signed_decimal(code as int));
    signed_decimal_denotes(code as int);
    if code >= 0 {
        decimal_denotes(code as nat);
    }
}

/// An error is shown by a fixed text, with what it carries behind it.
pub proof fn error_is_shown(e: AcpiParseError, number: u16, mailbox: MailboxError)
    ensures
        ({
            let open = "ACPI parse error: "@;
            let text = error_text(Error::Parse(e));
            text.take(open.len() as int) == open && text.skip(open.len() as int)
                == parse_error_text(e)
        }),
        ({
            let open = "Unexpected argument type: "@;
            let text = error_text(Error::UnexpectedArgumentType(number));
            text.take(open.len() as int) == open && decimal_value(text.skip(open.len() as int))
                == number && text.skip(open.len() as int) == decimal(number as nat)
        }),
        ({
            let open = "UCSI mailbox error: "@;
            let text = error_text(Error::Ucsi(mailbox));
            text.take(open.len() as int) == open && text.skip(open.len() as int)
                == mailbox.message@
        }),
        error_text(Error::UnexpectedResponse) == "Unexpected response"@,
        error_text(Error::OperationFailed) == "Operation failed"@,
        error_text(Error::InvalidData) == "Invalid data"@,
{
    decimal_denotes(number as nat);
    let open = "ACPI parse error: "@;
    assert(error_text(Error::Parse(e)).take(open.len() as int) =~= open);
    assert(error_text(Error::Parse(e)).skip(open.len() as int) =~= parse_error_text(e));
    let open = "Unexpected argument type: "@;
    let text = error_text(Error::UnexpectedArgumentType(number));
    assert(text.take(open.len() as int) =~= open);
    assert(text.skip(open.len() as int) =~= decimal(number as nat));
    let open = "UCSI mailbox error: "@;
    let text = error_text(Error::Ucsi(mailbox));
    assert(text.take(open.len() as int) =~= open);
    assert(text.skip(open.len() as int) =~= mailbox.message@);
}

/// The kind of an error does not depend on what it carries, but for that of a mailbox.
pub proof fn kind_by_variant(e: AcpiParseError, number: u16, mailbox: MailboxError)
    ensures
        error_kind(Error::Parse(e)) == ErrorKind::Other,
        error_kind(Error::UnexpectedResponse) == ErrorKind::UnexpectedResponse,
        error_kind(Error::UnexpectedArgumentType(number)) == ErrorKind::UnexpectedResponse,
        error_kind(Error::OperationFailed) == ErrorKind::Other,
        error_kind(Error::InvalidData) == ErrorKind::InvalidData,
        error_kind(Error::Ucsi(mailbox)) == mailbox.kind,
{
}

/// A converted error carries the error that it was made from.
pub proof fn converted_error_carries(e: AcpiParseError, mailbox: MailboxError)
    ensures
        <Error as FromSpec<AcpiParseError>>::from_spec(e) == Error::Parse(e),
        <Error as FromSpec<AcpiParseError>>::obeys_from_spec(),
        <Error as FromSpec<MailboxError>>::from_spec(mailbox) == Error::Ucsi(mailbox),
        <Error as FromSpec<MailboxError>>::obeys_from_spec(),
{
}

} // verus!
