use ec_acpi::acpi::Acpi;
use ec_acpi::argument::AcpiMethodArgument;
use ec_acpi::device::DeviceReply;
use ec_acpi::error::{AcpiParseError, Error, ErrorKind};
use ec_acpi::input::{AcpiEvalInputBufferComplexV1Ex, AcpiMethodInput};
use ec_acpi::output::AcpiEvalOutputBufferV1;
use ec_acpi::rtc::{AcpiTimerId, AcpiTimestamp, AlarmExpiredWakePolicy, AlarmTimerSeconds};

const TIMESTAMP: [u8; 16] = [
    0xEA, 0x07, 9, 17, 21, 20, 34, 1, 0xDB, 0x03, 0x20, 0xFE, 0, 0, 0, 0,
];

fn output(arguments: &[(u16, &[u8])]) -> Vec<u8> {
    let mut bytes = b"AeoB".to_vec();
    bytes.extend(0u32.to_le_bytes());
    bytes.extend((arguments.len() as u32).to_le_bytes());
    for (type_, data) in arguments {
        bytes.extend(type_.to_le_bytes());
        bytes.extend((data.len() as u16).to_le_bytes());
        bytes.extend_from_slice(data);
        bytes.resize(bytes.len() + 4usize.saturating_sub(data.len()), 0);
    }
    let length = bytes.len() as u32;
    bytes[4..8].copy_from_slice(&length.to_le_bytes());
    bytes
}

fn reply(response: &Result<Vec<u8>, i32>) -> DeviceReply {
    match response {
        Ok(buffer) => DeviceReply::Returned {
            buffer: buffer.clone(),
            bytes_returned: buffer.len() as u32,
        },
        Err(code) => DeviceReply::ControlFailed(*code),
    }
}

fn exercise_setters(response: Result<Vec<u8>, i32>) -> (Vec<Vec<u8>>, [Result<(), Error>; 4]) {
    let acpi = Acpi::default();
    let requests = vec![
        acpi.set_real_time_request(AcpiTimestamp { bytes: TIMESTAMP })
            .unwrap(),
        acpi.set_timer_value_request(AcpiTimerId::DcPower, AlarmTimerSeconds(0x1234_5678))
            .unwrap(),
        acpi.set_expired_timer_wake_policy_request(
            AcpiTimerId::AcPower,
            AlarmExpiredWakePolicy(u32::MAX),
        )
        .unwrap(),
        acpi.clear_wake_status_request(AcpiTimerId::DcPower).unwrap(),
    ];
    let results = [
        acpi.set_real_time(reply(&response)),
        acpi.set_timer_value(reply(&response)),
        acpi.set_expired_timer_wake_policy(reply(&response)),
        acpi.clear_wake_status(reply(&response)),
    ];
    (requests, results)
}

#[test]
fn rtc_setters_accept_zero_and_preserve_requests() {
    let expected = [
        (
            "\\_SB.ECT0._SRT",
            vec![AcpiMethodArgument::Buffer(TIMESTAMP.to_vec())],
        ),
        (
            "\\_SB.ECT0._STV",
            vec![
                AcpiMethodArgument::Int(1),
                AcpiMethodArgument::Int(0x1234_5678),
            ],
        ),
        (
            "\\_SB.ECT0._STP",
            vec![
                AcpiMethodArgument::Int(0),
                AcpiMethodArgument::Int(u32::MAX),
            ],
        ),
        ("\\_SB.ECT0._CWS", vec![AcpiMethodArgument::Int(1)]),
    ];
    for width in [4, 8] {
        let (requests, results) = exercise_setters(Ok(output(&[(0, &[0; 8][..width])])));
        for result in results {
            result.unwrap();
        }
        assert_eq!(requests.len(), expected.len());
        for (request, (name, args)) in requests.iter().zip(&expected) {
            let input = AcpiEvalInputBufferComplexV1Ex::try_from(AcpiMethodInput {
                name,
                args: Some(args.as_slice()),
            })
            .unwrap();
            assert_eq!(*request, Vec::<u8>::from(input));
        }
    }
}

#[test]
fn rtc_setters_reject_nonzero_status() {
    for status in [1u32, 45, u32::MAX] {
        for width in [4, 8] {
            let bytes = u64::from(status).to_le_bytes();
            for result in exercise_setters(Ok(output(&[(0, &bytes[..width])]))).1 {
                assert!(matches!(result, Err(Error::OperationFailed)));
            }
        }
    }
}

#[test]
fn rtc_getter_accepts_32_and_64_bit_integers() {
    for value in [0u32, 45, u32::MAX] {
        for width in [4, 8] {
            let bytes = u64::from(value).to_le_bytes();
            let acpi = Acpi::default();
            acpi.get_timer_value_request(AcpiTimerId::DcPower).unwrap();
            let response = Ok(output(&[(0, &bytes[..width])]));
            assert_eq!(acpi.get_timer_value(reply(&response)).unwrap().0, value);
        }
    }
}

#[test]
fn rtc_setters_and_getter_reject_u32_overflow() {
    for value in [0x1_0000_0000u64, u64::MAX] {
        let response = output(&[(0, &value.to_le_bytes())]);
        for result in exercise_setters(Ok(response.clone())).1 {
            assert!(matches!(result, Err(Error::InvalidData)));
        }
        let acpi = Acpi::default();
        assert!(matches!(
            acpi.get_timer_value(reply(&Ok(response))),
            Err(Error::InvalidData)
        ));
    }
}

#[test]
fn rtc_setters_require_one_result() {
    for response in [output(&[]), output(&[(0, &[0; 4]), (0, &[0; 4])])] {
        for result in exercise_setters(Ok(response)).1 {
            assert!(matches!(result, Err(Error::UnexpectedResponse)));
        }
    }
}

#[test]
fn rtc_setters_require_integer_type() {
    for type_ in [1, 2, 3, 4, u16::MAX] {
        for result in exercise_setters(Ok(output(&[(type_, &[0; 4])]))).1 {
            assert!(matches!(result, Err(Error::UnexpectedArgumentType(t)) if t == type_));
        }
    }
}

#[test]
fn rtc_setters_reject_malformed_integer_width() {
    for length in [0, 1, 2, 3, 5, 6, 7, 9] {
        for result in exercise_setters(Ok(output(&[(0, &vec![0; length])]))).1 {
            assert!(matches!(result, Err(Error::UnexpectedResponse)));
        }
    }
}

#[test]
fn rtc_setters_reject_short_responses() {
    let response = output(&[(0, &[0; 4])]);
    for length in 0..response.len() {
        let mut short = response[..length].to_vec();
        if length >= 8 {
            short[4..8].copy_from_slice(&(length as u32).to_le_bytes());
        }
        for result in exercise_setters(Ok(short)).1 {
            assert!(matches!(
                result,
                Err(Error::Parse(AcpiParseError::InsufficientLength))
            ));
        }
    }
}

#[test]
fn rtc_setters_reject_malformed_framing() {
    let valid = output(&[(0, &[0; 4])]);
    let mut signature = valid.clone();
    signature[0] = 0;
    let mut length = valid.clone();
    length[4] += 1;
    let mut trailing = valid;
    trailing.push(0);
    trailing[4] += 1;
    for response in [signature, length, trailing] {
        for result in exercise_setters(Ok(response)).1 {
            assert!(matches!(
                result,
                Err(Error::Parse(AcpiParseError::InvalidFormat))
            ));
        }
    }
}

#[test]
fn rtc_setters_propagate_evaluation_failure() {
    for result in exercise_setters(Err(-42)).1 {
        assert!(matches!(
            result,
            Err(Error::Parse(AcpiParseError::EvaluationFailed(-42)))
        ));
    }
}

#[test]
fn output_parser_preserves_padded_buffer_arguments() {
    let response = output(&[(2, &[42]), (0, &45u32.to_le_bytes())]);
    let parsed = AcpiEvalOutputBufferV1::try_from(response).unwrap();
    assert_eq!(parsed.arg(0).unwrap().data, [42]);
    assert_eq!(parsed.arg(1).unwrap().data_32, 45);
}

#[test]
fn output_parser_reads_every_field() {
    let response = output(&[(2, &[1, 2, 3, 4, 5]), (0, &[6, 7]), (9, &[])]);
    let parsed = AcpiEvalOutputBufferV1::try_from(response).unwrap();
    assert_eq!((parsed.count, parsed.length), (3, 37));
    assert_eq!(parsed.signature, u32::from_le_bytes(*b"AeoB"));
    let first = parsed.arg(0).unwrap();
    assert_eq!((first.type_, first.data_length, first.data_32), (2, 5, 0));
    assert_eq!(first.data, [1, 2, 3, 4, 5]);
    let second = parsed.arg(1).unwrap();
    assert_eq!((second.data_length, second.data_32), (2, 0x0706));
    assert_eq!(second.data, [6, 7]);
    assert_eq!(parsed.arg(2).unwrap().data.len(), 0);
    assert!(matches!(parsed.arg(3), Err(Error::UnexpectedResponse)));
}

#[test]
fn padding_of_a_short_integer_counts_toward_its_value() {
    let mut response = output(&[(0, &[1])]);
    let last = response.len() - 1;
    response[last] = 0x80;
    let parsed = AcpiEvalOutputBufferV1::try_from(response).unwrap();
    assert_eq!(parsed.arg(0).unwrap().data, [1]);
    assert_eq!(parsed.arg(0).unwrap().data_32, 0x8000_0001);
}

#[test]
fn overrunning_argument_is_insufficient() {
    let mut response = output(&[(2, &[0; 6])]);
    response[14] = 7;
    assert!(matches!(
        AcpiEvalOutputBufferV1::try_from(response),
        Err(AcpiParseError::InsufficientLength)
    ));
}

#[test]
fn count_beyond_the_arguments_is_insufficient() {
    let mut response = output(&[(0, &[0; 4])]);
    response[8] = 2;
    assert!(matches!(
        AcpiEvalOutputBufferV1::try_from(response),
        Err(AcpiParseError::InsufficientLength)
    ));
}

#[test]
fn timer_getters_name_their_method_and_timer() {
    let acpi = Acpi::default();
    for (request, name) in [
        (acpi.get_wake_status_request(AcpiTimerId::DcPower), "\\_SB.ECT0._GWS"),
        (acpi.get_expired_timer_wake_policy_request(AcpiTimerId::DcPower), "\\_SB.ECT0._TIP"),
        (acpi.get_timer_value_request(AcpiTimerId::DcPower), "\\_SB.ECT0._TIV"),
    ] {
        let bytes = request.unwrap();
        assert_eq!(&bytes[..4], b"AeiF");
        assert_eq!(&bytes[4..18], name.as_bytes());
        assert!(bytes[18..260].iter().all(|b| *b == 0));
        assert_eq!(&bytes[260..], &[4, 0, 0, 0, 1, 0, 0, 0, 0, 0, 4, 0, 1, 0, 0, 0]);
    }
}

#[test]
fn timer_getters_wrap_the_integer() {
    let acpi = Acpi::default();
    let response = Ok(output(&[(0, &7u32.to_le_bytes())]));
    assert_eq!(acpi.get_capabilities(reply(&response)).unwrap().0, 7);
    assert_eq!(acpi.get_wake_status(reply(&response)).unwrap().0, 7);
    assert_eq!(acpi.get_expired_timer_wake_policy(reply(&response)).unwrap().0, 7);
    let bytes = acpi.get_capabilities_request().unwrap();
    assert_eq!(&bytes[4..18], b"\\_SB.ECT0._GCP");
    assert_eq!(&bytes[260..], &[0; 8]);
}

#[test]
fn real_time_is_the_data_of_one_buffer() {
    let acpi = Acpi::default();
    assert_eq!(&acpi.get_real_time_request().unwrap()[4..18], b"\\_SB.ECT0._GRT");
    let time = acpi.get_real_time(reply(&Ok(output(&[(2, &TIMESTAMP)])))).unwrap();
    assert_eq!(time, TIMESTAMP);
    for response in [
        output(&[]),
        output(&[(0, &TIMESTAMP)]),
        output(&[(2, &TIMESTAMP), (2, &TIMESTAMP)]),
    ] {
        assert!(matches!(
            acpi.get_real_time(reply(&Ok(response))),
            Err(Error::UnexpectedResponse)
        ));
    }
    assert!(matches!(
        acpi.get_real_time(reply(&Err(5))),
        Err(Error::Parse(AcpiParseError::EvaluationFailed(5)))
    ));
}

#[test]
fn reply_counts_only_the_returned_bytes() {
    let acpi = Acpi::default();
    let response = output(&[(0, &9u32.to_le_bytes())]);
    let returned = response.len() as u32;
    let mut buffer = response;
    buffer.resize(1024, 0);
    let reply = DeviceReply::Returned { buffer, bytes_returned: returned };
    assert_eq!(acpi.evaluate_u32(reply).unwrap(), 9);
}

#[test]
fn unreachable_device_is_an_evaluation_failure() {
    let acpi = Acpi::default();
    assert!(matches!(
        acpi.evaluate(DeviceReply::OpenFailed(3)),
        Err(AcpiParseError::EvaluationFailed(3))
    ));
    assert!(matches!(
        acpi.evaluate(DeviceReply::InvalidHandle),
        Err(AcpiParseError::EvaluationFailed(-2))
    ));
}

#[test]
fn undecodable_time_is_invalid_data() {
    assert_eq!(Error::converted(Some(4)).unwrap(), 4);
    let failed: Result<u8, Error> = Error::converted(None);
    let error = failed.unwrap_err();
    assert_eq!(error.kind(), ErrorKind::InvalidData);
}

#[test]
fn integer_read_is_the_value_shown() {
    let acpi = Acpi::default();
    for width in [4, 8] {
        let response = Ok(output(&[(0, &0xCAFEu64.to_le_bytes()[..width])]));
        assert_eq!(acpi.evaluate_u32(reply(&response)).unwrap(), 0xCAFE);
        let values = acpi.eval(reply(&response)).unwrap();
        assert_eq!(values.len(), 1);
        assert_eq!(values[0].to_string(), "Integer: 51966 (0x0000CAFE)");
    }
}

#[test]
fn defaults_are_empty() {
    let output = AcpiEvalOutputBufferV1::default();
    assert_eq!((output.signature, output.length, output.count), (0, 0, 0));
    assert!(matches!(output.arg(0), Err(Error::UnexpectedResponse)));
}
