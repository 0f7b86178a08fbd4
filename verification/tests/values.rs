use ec_acpi::acpi::Acpi;
use ec_acpi::argument::{AcpiMethodArgument, AcpiMethodArgumentV1};
use ec_acpi::device::DeviceReply;
use ec_acpi::error::{AcpiParseError, Error, ErrorKind, MailboxError};
use ec_acpi::value::{acpi_value_from, parse_acpi_values, AcpiArgumentType, AcpiValue};

fn packed(items: &[(u16, &[u8])]) -> Vec<u8> {
    let mut bytes = Vec::new();
    for (type_, data) in items {
        bytes.extend(type_.to_le_bytes());
        bytes.extend((data.len() as u16).to_le_bytes());
        bytes.extend_from_slice(data);
    }
    bytes
}

#[test]
fn argument_types_round_trip() {
    for number in 0..5u16 {
        assert_eq!(AcpiArgumentType::try_from(number).unwrap().to_u16(), number);
    }
    assert_eq!(AcpiArgumentType::try_from(5), Err(5));
}

#[test]
fn integers_are_filled_up_or_cut_to_four_bytes() {
    assert!(matches!(acpi_value_from(0, &[]), AcpiValue::Integer(0)));
    assert!(matches!(acpi_value_from(0, &[1, 2]), AcpiValue::Integer(0x0201)));
    assert!(matches!(
        acpi_value_from(0, &[1, 2, 3, 4, 5]),
        AcpiValue::Integer(0x0403_0201)
    ));
}

#[test]
fn strings_lose_their_trailing_nulls() {
    match acpi_value_from(1, b"a\0b\0\0") {
        AcpiValue::String(s) => assert_eq!(s, "a\0b"),
        other => panic!("{other:?}"),
    }
    match acpi_value_from(1, "h\u{e9}\u{1f600}\0".as_bytes()) {
        AcpiValue::String(s) => assert_eq!(s, "h\u{e9}\u{1f600}"),
        other => panic!("{other:?}"),
    }
}

#[test]
fn invalid_text_is_replaced() {
    match acpi_value_from(1, &[b'a', 0xff, b'b', 0]) {
        AcpiValue::String(s) => assert_eq!(s, "a\u{fffd}b"),
        other => panic!("{other:?}"),
    }
}

#[test]
fn unknown_types_are_buffers() {
    for type_ in [2, 5, u16::MAX] {
        match acpi_value_from(type_, &[1, 2]) {
            AcpiValue::Buffer(b) => assert_eq!(b, [1, 2]),
            other => panic!("{other:?}"),
        }
    }
}

#[test]
fn packages_nest() {
    let inner = packed(&[(0, &[7]), (2, &[8])]);
    for type_ in [3, 4] {
        let value = acpi_value_from(3, &packed(&[(type_, &inner), (1, b"x\0")]));
        assert_eq!(
            value.to_string(),
            "Package (2 items): (Package (2 items): (Integer: 7 (0x00000007)) (Buffer (1 bytes): \
             08)) (String: x)"
        );
    }
}

#[test]
fn short_header_is_surfaced() {
    let mut bytes = packed(&[(0, &[1, 0, 0, 0])]);
    bytes.extend([1, 2, 3]);
    let values = parse_acpi_values(&bytes);
    assert_eq!(values.len(), 2);
    assert!(matches!(values[0], AcpiValue::Integer(1)));
    match &values[1] {
        AcpiValue::Malformed(b) => assert_eq!(*b, [1, 2, 3]),
        other => panic!("{other:?}"),
    }
}

#[test]
fn overrunning_length_is_surfaced() {
    let values = parse_acpi_values(&[2, 0, 3, 0, 9, 9]);
    assert_eq!(values.len(), 1);
    match &values[0] {
        AcpiValue::Malformed(b) => assert_eq!(*b, [2, 0, 3, 0, 9, 9]),
        other => panic!("{other:?}"),
    }
    assert_eq!(
        values[0].to_string(),
        "Malformed trailing data (6 bytes): 02 00 03 00 09 09"
    );
}

#[test]
fn empty_package_has_no_values() {
    assert!(parse_acpi_values(&[]).is_empty());
    assert_eq!(acpi_value_from(3, &[]).to_string(), "Package (0 items):");
}

#[test]
fn values_are_shown() {
    assert_eq!(
        AcpiValue::Integer(3735928559).to_string(),
        "Integer: 3735928559 (0xDEADBEEF)"
    );
    assert_eq!(AcpiValue::Integer(0).to_string(), "Integer: 0 (0x00000000)");
    assert_eq!(
        AcpiValue::Buffer(vec![0, 0xab, 0xff]).to_string(),
        "Buffer (3 bytes): 00 AB FF"
    );
    assert_eq!(AcpiValue::Buffer(vec![]).to_string(), "Buffer (0 bytes):");
    let long = AcpiValue::Buffer(vec![0; 12]);
    assert!(long.to_string().starts_with("Buffer (12 bytes): 00"));
}

#[test]
fn clones_hold_the_same() {
    let value = AcpiValue::Package(vec![
        AcpiValue::Integer(1),
        AcpiValue::String("s".to_string()),
        AcpiValue::Package(vec![AcpiValue::Malformed(vec![9])]),
    ]);
    assert_eq!(value.clone().to_string(), value.to_string());
}

#[test]
fn eval_reads_every_result() {
    let mut buffer = b"AeoB".to_vec();
    buffer.extend(38u32.to_le_bytes());
    buffer.extend(2u32.to_le_bytes());
    buffer.extend([0, 0, 4, 0, 5, 0, 0, 0]);
    buffer.extend([1, 0, 14, 0]);
    buffer.extend(b"hello, world!\0");
    let bytes_returned = buffer.len() as u32;
    assert_eq!(bytes_returned, 38);
    let values = Acpi::default()
        .eval(DeviceReply::Returned { buffer, bytes_returned })
        .unwrap();
    assert_eq!(values.len(), 2);
    assert_eq!(values[0].to_string(), "Integer: 5 (0x00000005)");
    assert_eq!(values[1].to_string(), "String: hello, world!");
    assert!(matches!(
        Acpi::default().eval(DeviceReply::ControlFailed(1)),
        Err(Error::Parse(AcpiParseError::EvaluationFailed(1)))
    ));
}

#[test]
fn arguments_are_framed() {
    let int = AcpiMethodArgumentV1::try_from(AcpiMethodArgument::Int(0x0102_0304)).unwrap();
    assert_eq!((int.type_, int.data_length, int.data_32), (0, 4, 0x0102_0304));
    assert_eq!(int.data, [4, 3, 2, 1]);
    let guid = AcpiMethodArgumentV1::try_from(AcpiMethodArgument::Guid([7; 16])).unwrap();
    assert_eq!((guid.type_, guid.data_length, guid.data_32), (2, 16, 0));
    assert_eq!(guid.data, [7; 16]);
    let text = AcpiMethodArgument::String("\u{e9}!".to_string());
    let text = AcpiMethodArgumentV1::try_from(text).unwrap();
    assert_eq!((text.type_, text.data_length), (1, 4));
    assert_eq!(text.data, [0xc3, 0xa9, b'!', 0]);
    let buffer = AcpiMethodArgumentV1::try_from(AcpiMethodArgument::Buffer(vec![])).unwrap();
    assert_eq!((buffer.type_, buffer.data_length), (2, 0));
}

#[test]
fn long_arguments_are_refused() {
    let fits = AcpiMethodArgument::Buffer(vec![0; 65535]);
    assert_eq!(AcpiMethodArgumentV1::try_from(fits).unwrap().data_length, 65535);
    let over = AcpiMethodArgument::Buffer(vec![0; 65536]);
    assert!(matches!(
        AcpiMethodArgumentV1::try_from(over),
        Err(AcpiParseError::InvalidFormat)
    ));
    let text = AcpiMethodArgument::String("a".repeat(65534));
    assert_eq!(AcpiMethodArgumentV1::try_from(text).unwrap().data_length, 65535);
    let text = AcpiMethodArgument::String("a".repeat(65535));
    assert!(matches!(
        AcpiMethodArgumentV1::try_from(text),
        Err(AcpiParseError::InvalidFormat)
    ));
}

#[test]
fn requests_are_laid_out() {
    let acpi = Acpi::default();
    let args = [
        AcpiMethodArgument::Int(1),
        AcpiMethodArgument::String("ab".to_string()),
    ];
    let bytes = acpi.eval_request("\\M", &args).unwrap();
    assert_eq!(bytes.len(), 268 + 4 + 4 + 4 + 3);
    assert_eq!(&bytes[..7], b"AeiF\\M\0");
    assert_eq!(&bytes[260..268], &[7, 0, 0, 0, 2, 0, 0, 0]);
    assert_eq!(&bytes[268..], &[0, 0, 4, 0, 1, 0, 0, 0, 1, 0, 3, 0, b'a', b'b', 0]);
    let values = parse_acpi_values(&bytes[268..]);
    assert_eq!(values[0].to_string(), "Integer: 1 (0x00000001)");
    assert_eq!(values[1].to_string(), "String: ab");
}

#[test]
fn long_names_are_cut() {
    let acpi = Acpi::default();
    let cut = acpi.eval_request(&"n".repeat(300), &[]).unwrap();
    let full = acpi.eval_request(&"n".repeat(256), &[]).unwrap();
    assert_eq!(cut, full);
    let shorter = acpi.eval_request(&"n".repeat(255), &[]).unwrap();
    assert_ne!(shorter, full);
    assert_eq!(full.len(), 268);
}

#[test]
fn eighth_argument_is_refused() {
    let acpi = Acpi::default();
    let mut args: Vec<AcpiMethodArgument> = (0..7).map(AcpiMethodArgument::Int).collect();
    assert_eq!(acpi.eval_request("m", &args).unwrap().len(), 268 + 7 * 8);
    args.push(AcpiMethodArgument::Buffer(vec![0; 65536]));
    assert!(matches!(
        acpi.eval_request("m", &args),
        Err(Error::Parse(AcpiParseError::InsufficientLength))
    ));
    args.remove(0);
    assert!(matches!(
        acpi.eval_request("m", &args),
        Err(Error::Parse(AcpiParseError::InvalidFormat))
    ));
}

#[test]
fn errors_are_shown() {
    let mailbox = MailboxError {
        kind: ErrorKind::Io,
        message: "short mailbox".to_string(),
    };
    for (error, text, kind) in [
        (
            Error::Parse(AcpiParseError::InsufficientLength),
            "ACPI parse error: InsufficientLength",
            ErrorKind::Other,
        ),
        (
            Error::from(AcpiParseError::InvalidFormat),
            "ACPI parse error: InvalidFormat",
            ErrorKind::Other,
        ),
        (
            Error::Parse(AcpiParseError::EvaluationFailed(i32::MIN)),
            "ACPI parse error: EvaluationFailed(-2147483648)",
            ErrorKind::Other,
        ),
        (Error::UnexpectedResponse, "Unexpected response", ErrorKind::UnexpectedResponse),
        (
            Error::UnexpectedArgumentType(65535),
            "Unexpected argument type: 65535",
            ErrorKind::UnexpectedResponse,
        ),
        (Error::OperationFailed, "Operation failed", ErrorKind::Other),
        (Error::InvalidData, "Invalid data", ErrorKind::InvalidData),
        (Error::from(mailbox), "UCSI mailbox error: short mailbox", ErrorKind::Io),
    ] {
        assert_eq!(error.to_string(), text);
        assert_eq!(error.kind(), kind);
    }
    assert_eq!(AcpiParseError::EvaluationFailed(10).to_string(), "EvaluationFailed(10)");
}

#[test]
fn requests_tell_their_arguments_apart() {
    let acpi = Acpi::default();
    let request = |name: &str, args: &[AcpiMethodArgument]| acpi.eval_request(name, args).unwrap();
    let int = AcpiMethodArgument::Int(0x0102_0304);
    let buffer = AcpiMethodArgument::Buffer(vec![4, 3, 2, 1]);
    assert_ne!(request("m", &[int.clone()]), request("m", &[buffer.clone()]));
    assert_ne!(
        request("m", &[int.clone(), buffer.clone()]),
        request("m", &[buffer.clone(), int.clone()])
    );
    assert_ne!(request("m", &[int.clone()]), request("n", &[int]));
    assert_ne!(request("m", &[buffer.clone()]), request("m", &[buffer.clone(), buffer]));
    let guid = AcpiMethodArgument::Guid([7; 16]);
    let same = AcpiMethodArgument::Buffer(vec![7; 16]);
    assert_eq!(request("m", &[guid]), request("m", &[same]));
    assert_eq!(request("m", &[]), request("m\0", &[]));
}
