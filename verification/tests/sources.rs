use ec_acpi::acpi::Acpi;
use ec_acpi::battery::BixConversions;
use ec_acpi::device::DeviceReply;
use ec_acpi::error::{AcpiParseError, Error, ErrorKind, MailboxError};
use ec_acpi::guid::Guid;
use ec_acpi::search::{DeviceProperty, SearchEvent, SearchState};
use ec_acpi::thermal::{FanGuids, Threshold};
use ec_acpi::ucsi::{CommandType, DecodedCapability};

const GUID: Guid = Guid {
    bytes: [
        0xa1, 0xa2, 0xa3, 0xa4, 0xb1, 0xb2, 0xc1, 0xc2, 0xd1, 0xd2, 0xd3, 0xd4, 0xd5, 0xd6, 0xd7,
        0xd8,
    ],
};

fn returned(arguments: &[(u16, Vec<u8>)]) -> DeviceReply {
    let mut bytes = b"AeoB".to_vec();
    bytes.extend(0u32.to_le_bytes());
    bytes.extend((arguments.len() as u32).to_le_bytes());
    for (type_, data) in arguments {
        bytes.extend(type_.to_le_bytes());
        bytes.extend((data.len() as u16).to_le_bytes());
        bytes.extend_from_slice(data);
        bytes.resize(bytes.len() + 4usize.saturating_sub(data.len()), 0);
    }
    let length = bytes.len() as u32;
    bytes[4..8].copy_from_slice(&length.to_le_bytes());
    DeviceReply::Returned { buffer: bytes, bytes_returned: length }
}

fn integers(values: &[u32]) -> DeviceReply {
    let arguments: Vec<(u16, Vec<u8>)> =
        values.iter().map(|v| (0, v.to_le_bytes().to_vec())).collect();
    returned(&arguments)
}

fn guid(first: u8) -> Guid {
    Guid { bytes: [first; 16] }
}

fn guids() -> FanGuids {
    FanGuids {
        current_rpm: guid(1),
        min_rpm: guid(2),
        max_rpm: guid(3),
        on_temp: guid(4),
        ramp_temp: guid(5),
        max_temp: guid(6),
    }
}

#[test]
fn guid_bytes_are_mixed_endian() {
    assert_eq!(
        GUID.to_bytes_le(),
        [
            0xa4, 0xa3, 0xa2, 0xa1, 0xb2, 0xb1, 0xc2, 0xc1, 0xd1, 0xd2, 0xd3, 0xd4, 0xd5, 0xd6,
            0xd7, 0xd8
        ]
    );
    let twice = Guid { bytes: GUID.to_bytes_le() }.to_bytes_le();
    assert_eq!(twice, GUID.bytes);
}

#[test]
fn variable_requests_name_fan_and_guid() {
    let acpi = Acpi::new(3, Err(AcpiParseError::EvaluationFailed(-1)));
    let bytes = acpi.acpi_get_var_request(GUID).unwrap();
    assert_eq!(&bytes[4..18], b"\\_SB.ECT0.TGVR");
    assert_eq!(&bytes[260..268], &[20, 0, 0, 0, 2, 0, 0, 0]);
    assert_eq!(&bytes[268..280], &[0, 0, 4, 0, 3, 0, 0, 0, 2, 0, 16, 0]);
    assert_eq!(&bytes[280..], &GUID.to_bytes_le());
    let bytes = acpi.acpi_set_var_request(GUID, 0x0a0b).unwrap();
    assert_eq!(&bytes[4..18], b"\\_SB.ECT0.TSVR");
    assert_eq!(&bytes[260..268], &[24, 0, 0, 0, 3, 0, 0, 0]);
    assert_eq!(&bytes[296..], &[0, 0, 4, 0, 0x0b, 0x0a, 0, 0]);
}

#[test]
fn fan_requests_pick_their_variable() {
    let acpi = Acpi::default();
    let guids = guids();
    for (request, first) in [
        (acpi.get_rpm_request(&guids), 1u8),
        (acpi.get_min_rpm_request(&guids), 2),
        (acpi.get_max_rpm_request(&guids), 3),
        (acpi.get_threshold_request(&guids, Threshold::On), 4),
        (acpi.get_threshold_request(&guids, Threshold::Ramping), 5),
        (acpi.get_threshold_request(&guids, Threshold::Max), 6),
        (acpi.set_rpm_request(&guids, 9), 1),
        (acpi.set_threshold_request(&guids, Threshold::On, 9), 4),
        (acpi.set_threshold_request(&guids, Threshold::Ramping, 9), 5),
        (acpi.set_threshold_request(&guids, Threshold::Max, 9), 6),
    ] {
        assert_eq!(&request.unwrap()[280..296], &[first; 16]);
    }
}

#[test]
fn variables_are_read_behind_a_status() {
    let acpi = Acpi::default();
    assert_eq!(acpi.acpi_get_var(integers(&[0, 1500])).unwrap(), 1500);
    assert!(matches!(
        acpi.acpi_get_var(integers(&[1, 1500])),
        Err(Error::OperationFailed)
    ));
    for count in [0, 1, 3] {
        assert!(matches!(
            acpi.acpi_get_var(integers(&vec![0; count])),
            Err(Error::UnexpectedResponse)
        ));
    }
    assert!(acpi.acpi_set_var(integers(&[0])).is_ok());
    assert!(matches!(acpi.acpi_set_var(integers(&[2])), Err(Error::OperationFailed)));
    assert!(matches!(
        acpi.acpi_set_var(integers(&[0, 0])),
        Err(Error::UnexpectedResponse)
    ));
    assert!(matches!(
        acpi.acpi_set_var(DeviceReply::ControlFailed(6)),
        Err(Error::Parse(AcpiParseError::EvaluationFailed(6)))
    ));
}

#[test]
fn temperature_is_one_value() {
    let acpi = Acpi::default();
    assert_eq!(&acpi.get_temperature_request().unwrap()[4..18], b"\\_SB.ECT0.RTMP");
    assert_eq!(acpi.get_temperature(integers(&[2982])).unwrap(), 2982);
    assert!(matches!(
        acpi.get_temperature(integers(&[])),
        Err(Error::UnexpectedResponse)
    ));
}

#[test]
fn battery_status_has_four_values() {
    let acpi = Acpi::default();
    assert_eq!(&acpi.get_bst_request().unwrap()[4..18], b"\\_SB.ECT0.TBST");
    let bst = acpi.get_bst(integers(&[1, 20, 300, 4000])).unwrap();
    assert_eq!(
        (
            bst.battery_state,
            bst.battery_present_rate,
            bst.battery_remaining_capacity,
            bst.battery_present_voltage
        ),
        (1, 20, 300, 4000)
    );
    let converted = bst.converted(Some("discharging")).unwrap();
    assert_eq!(converted.battery_state, "discharging");
    assert_eq!(converted.battery_present_voltage, 4000);
    let bst = acpi.get_bst(integers(&[1, 20, 300, 4000])).unwrap();
    let unknown: Option<u8> = None;
    assert!(matches!(bst.converted(unknown), Err(Error::InvalidData)));
    for count in [3, 5] {
        assert!(matches!(
            acpi.get_bst(integers(&vec![0; count])),
            Err(Error::UnexpectedResponse)
        ));
    }
}

fn information() -> Vec<(u16, Vec<u8>)> {
    (0..21u32)
        .map(|i| {
            if (16..20).contains(&i) {
                (2, vec![i as u8; 8])
            } else {
                (0, (100 + i).to_le_bytes().to_vec())
            }
        })
        .collect()
}

#[test]
fn battery_information_has_twenty_one_values() {
    let acpi = Acpi::default();
    assert_eq!(&acpi.get_bix_request().unwrap()[4..18], b"\\_SB.ECT0.TBIX");
    let bix = acpi.get_bix(returned(&information())).unwrap();
    assert_eq!(
        [
            bix.revision,
            bix.power_unit,
            bix.design_capacity,
            bix.last_full_charge_capacity,
            bix.battery_technology,
            bix.design_voltage,
            bix.design_cap_of_warning,
            bix.design_cap_of_low,
            bix.cycle_count,
            bix.measurement_accuracy,
            bix.max_sampling_time,
            bix.min_sampling_time,
            bix.max_averaging_interval,
            bix.min_averaging_interval,
            bix.battery_capacity_granularity_1,
            bix.battery_capacity_granularity_2,
        ],
        [100, 101, 102, 103, 104, 105, 106, 107, 108, 109, 110, 111, 112, 113, 114, 115]
    );
    assert_eq!(bix.model_number, [16; 8]);
    assert_eq!(bix.serial_number, [17; 8]);
    assert_eq!(bix.battery_type, [18; 8]);
    assert_eq!(bix.oem_info, [19; 8]);
    assert_eq!(bix.battery_swapping_capability, 120);
    let short = &information()[..20];
    assert!(matches!(
        acpi.get_bix(returned(short)),
        Err(Error::UnexpectedResponse)
    ));
}

#[test]
fn battery_information_is_converted_whole() {
    let acpi = Acpi::default();
    let bix = acpi.get_bix(returned(&information())).unwrap();
    let converted = bix
        .converted(BixConversions {
            power_unit: Some('w'),
            battery_technology: Some(true),
            model_number: Some([1u8; 8]),
            serial_number: Some([2u8; 8]),
            battery_type: Some([3u8; 8]),
            oem_info: Some([4u8; 8]),
            battery_swapping_capability: Some(()),
        })
        .unwrap();
    assert_eq!((converted.revision, converted.power_unit), (100, 'w'));
    assert!(converted.battery_technology);
    assert_eq!(converted.oem_info, [4; 8]);
    assert_eq!(converted.battery_capacity_granularity_2, 115);
    for missing in 0..7 {
        let part = |i: usize| if i == missing { None } else { Some(i) };
        let bix = acpi.get_bix(returned(&information())).unwrap();
        let result = bix.converted(BixConversions {
            power_unit: part(0),
            battery_technology: part(1),
            model_number: part(2),
            serial_number: part(3),
            battery_type: part(4),
            oem_info: part(5),
            battery_swapping_capability: part(6),
        });
        assert!(matches!(result, Err(Error::InvalidData)));
    }
}

#[test]
fn trip_point_returns_no_value() {
    let acpi = Acpi::default();
    let bytes = acpi.set_btp_request(0x0102).unwrap();
    assert_eq!(&bytes[4..18], b"\\_SB.ECT0.TBTP");
    assert_eq!(&bytes[268..], &[0, 0, 4, 0, 2, 1, 0, 0]);
    assert!(acpi.set_btp(integers(&[])).is_ok());
    assert!(acpi.set_btp(integers(&[1, 2])).is_ok());
    assert!(matches!(
        acpi.set_btp(DeviceReply::InvalidHandle),
        Err(Error::Parse(AcpiParseError::EvaluationFailed(-2)))
    ));
}

#[test]
fn mailbox_is_the_data_of_one_buffer() {
    let acpi = Acpi::default();
    let bytes = acpi.ucsi_command_request([1, 2, 3, 4, 5, 6, 7, 8]).unwrap();
    assert_eq!(&bytes[4..18], b"\\_SB.ECT0.USND");
    assert_eq!(&bytes[268..], &[2, 0, 8, 0, 1, 2, 3, 4, 5, 6, 7, 8]);
    assert_eq!(acpi.ucsi_command(returned(&[(2, vec![5; 48])])).unwrap(), [5; 48]);
    assert!(matches!(
        acpi.ucsi_command(integers(&[0])),
        Err(Error::UnexpectedArgumentType(0))
    ));
    assert!(matches!(
        acpi.ucsi_command(integers(&[0, 0])),
        Err(Error::UnexpectedResponse)
    ));
}

fn mailbox_error<T>(message: &str) -> Result<T, MailboxError> {
    Err(MailboxError {
        kind: ErrorKind::InvalidData,
        message: message.to_string(),
    })
}

#[test]
fn snapshot_takes_three_commands() {
    let start = Acpi::default().get_snapshot(2);
    assert_eq!(start.command(), (CommandType::GetCapability, 0));
    let answer = DecodedCapability { version: Ok(1), capability: Ok("cap") };
    let known = start.decoded(Ok(answer)).unwrap();
    assert_eq!(known.command(), (CommandType::GetConnectorCapability, 2));
    let known = known.decoded(Ok(Ok('k'))).unwrap();
    assert_eq!(known.command(), (CommandType::GetConnectorStatus, 2));
    let snapshot = known.decoded(Ok(Ok(true))).unwrap();
    assert_eq!((snapshot.version, snapshot.capability), (1, "cap"));
    assert_eq!((snapshot.connector_capability, snapshot.connector_status), ('k', true));
}

#[test]
fn snapshot_stops_at_the_first_failure() {
    let acpi = Acpi::default();
    let first = |version: Result<u8, MailboxError>, capability: Result<u8, MailboxError>| {
        acpi.get_snapshot(1).decoded(Ok(DecodedCapability { version, capability }))
    };
    let failed = first(mailbox_error("version"), mailbox_error("capability"));
    assert_eq!(failed.unwrap_err().to_string(), "UCSI mailbox error: version");
    let failed = first(Ok(1), mailbox_error("capability"));
    assert_eq!(failed.unwrap_err().to_string(), "UCSI mailbox error: capability");
    let failed = first(Ok(1), Ok(2)).unwrap().decoded(Ok(mailbox_error::<u8>("connector")));
    assert_eq!(failed.unwrap_err().kind(), ErrorKind::InvalidData);
    let known = first(Ok(1), Ok(2)).unwrap().decoded(Ok(Ok(3))).unwrap();
    let failed = known.decoded(Ok(mailbox_error::<u8>("status")));
    assert_eq!(failed.unwrap_err().to_string(), "UCSI mailbox error: status");
}

#[test]
fn failed_command_ends_the_snapshot() {
    let acpi = Acpi::default();
    let start: Result<DecodedCapability<u8, u8>, Error> = Err(Error::UnexpectedResponse);
    assert!(matches!(
        acpi.get_snapshot(1).decoded(start),
        Err(Error::UnexpectedResponse)
    ));
    let known = || {
        let answer = DecodedCapability { version: Ok(1), capability: Ok(2) };
        acpi.get_snapshot(1).decoded(Ok(answer)).unwrap()
    };
    let answer: Result<Result<u8, MailboxError>, Error> = Err(Error::UnexpectedArgumentType(0));
    assert!(matches!(
        known().decoded(answer),
        Err(Error::UnexpectedArgumentType(0))
    ));
    let answer: Result<Result<u8, MailboxError>, Error> = Err(Error::OperationFailed);
    assert!(matches!(
        known().decoded(Ok(Ok(3))).unwrap().decoded(answer),
        Err(Error::OperationFailed)
    ));
}

fn property(text: &str) -> SearchEvent {
    let mut units: Vec<u16> = text.encode_utf16().collect();
    let required_size = 2 * (units.len() as u32 + 1);
    units.resize(128, 0);
    SearchEvent::Property(DeviceProperty { units, required_size })
}

#[test]
fn search_finds_the_first_test_device() {
    let mut state = SearchState::List.step(SearchEvent::Listed);
    state = state.step(SearchEvent::Present).step(property("ACPI\\PNP0C0A\\1"));
    assert!(matches!(state, SearchState::Enumerate { index: 1 }));
    state = state.step(SearchEvent::Present).step(SearchEvent::NoProperty);
    assert!(matches!(state, SearchState::Enumerate { index: 2 }));
    state = state.step(SearchEvent::Present).step(property("ACPI\\ETST0001\\0"));
    assert!(matches!(state, SearchState::ReadObjectName { index: 2 }));
    state = state.step(SearchEvent::NoProperty);
    assert!(matches!(state, SearchState::Enumerate { index: 3 }));
    state = state.step(SearchEvent::Present).step(property("ETST0001"));
    state = state.step(property("\\Device\\00\u{1f600}42"));
    match state.result() {
        Some(Ok(path)) => assert_eq!(path, "\\\\.\\GLOBALROOT\\Device\\00\u{1f600}42"),
        other => panic!("{other:?}"),
    }
}

#[test]
fn search_fails_without_a_device() {
    let state = SearchState::List.step(SearchEvent::Listed);
    assert!(matches!(state, SearchState::Enumerate { index: 0 }));
    assert!(matches!(
        state.step(SearchEvent::Absent).result(),
        Some(Err(AcpiParseError::EvaluationFailed(-1)))
    ));
    assert!(matches!(
        SearchState::List.step(SearchEvent::ListFailed(77)).result(),
        Some(Err(AcpiParseError::EvaluationFailed(77)))
    ));
    assert!(SearchState::List.result().is_none());
}

#[test]
fn search_takes_three_answers_a_device_at_most() {
    let devices = [
        ("ETST0001\\0", None),
        ("PNP0C0A\\1", Some("\\Device\\1")),
        ("ETST0001\\2", Some("\\Device\\2")),
        ("ETST0001\\3", Some("\\Device\\3")),
    ];
    let run = |count: usize| {
        let mut state = SearchState::List;
        let mut answers = 0;
        loop {
            let event = match state {
                SearchState::List => SearchEvent::Listed,
                SearchState::Enumerate { index } if (index as usize) < count => {
                    SearchEvent::Present
                }
                SearchState::Enumerate { .. } => SearchEvent::Absent,
                SearchState::ReadInstanceId { index } => property(devices[index as usize].0),
                SearchState::ReadObjectName { index } => match devices[index as usize].1 {
                    Some(name) => property(name),
                    None => SearchEvent::NoProperty,
                },
                ended => return (ended.result().unwrap(), answers),
            };
            state = state.step(event);
            answers += 1;
        }
    };
    let (found, answers) = run(4);
    assert_eq!(found.unwrap(), "\\\\.\\GLOBALROOT\\Device\\2");
    assert_eq!(answers, 1 + 3 + 2 + 3);
    let (failed, answers) = run(2);
    assert_eq!(failed, Err(AcpiParseError::EvaluationFailed(-1)));
    assert_eq!(answers, 1 + 3 + 2 + 1);
}

#[test]
fn properties_end_before_their_null() {
    let text = |units: &[u16], required_size: u32| {
        DeviceProperty { units: units.to_vec(), required_size }.text()
    };
    assert_eq!(text(&[65, 66, 0, 67], 6).unwrap(), "AB");
    assert_eq!(text(&[65, 66], 2).unwrap(), "");
    assert_eq!(text(&[65, 66], 1).unwrap(), "");
    assert_eq!(text(&[65, 66], 0), None);
    assert_eq!(text(&[0xd83d, 0xde00, 0], 6).unwrap(), "\u{1f600}");
    assert_eq!(text(&[65, 0xd83d, 66, 0], 8).unwrap(), "A\u{fffd}B");
    assert_eq!(text(&[0xde00, 65, 0xd83d, 0], 8).unwrap(), "\u{fffd}A\u{fffd}");
    assert_eq!(text(&[0xd83d, 0xd83d, 0xde00, 0], 8).unwrap(), "\u{fffd}\u{1f600}");
}

#[test]
fn device_path_is_null_terminated() {
    let acpi = Acpi::new(1, Ok("a\u{1f600}".to_string()));
    assert_eq!(acpi.device_path_wide(), [97, 0xd83d, 0xde00, 0]);
    let acpi = Acpi::new(1, Err(AcpiParseError::EvaluationFailed(-1)));
    assert_eq!(acpi.fan_instance, 1);
    assert_eq!(acpi.device_path_wide(), [0]);
    assert_eq!(acpi.clone().device_path, "");
}

#[test]
fn fan_readers_agree_with_the_variable() {
    let acpi = Acpi::default();
    assert_eq!(acpi.get_rpm(integers(&[0, 11])).unwrap(), 11);
    assert_eq!(acpi.get_min_rpm(integers(&[0, 12])).unwrap(), 12);
    assert_eq!(acpi.get_max_rpm(integers(&[0, 13])).unwrap(), 13);
    assert_eq!(acpi.get_threshold(integers(&[0, 2982])).unwrap(), 2982);
    assert!(matches!(acpi.get_rpm(integers(&[7, 11])), Err(Error::OperationFailed)));
    assert!(acpi.set_rpm(integers(&[0])).is_ok());
    assert!(acpi.set_threshold(integers(&[0])).is_ok());
    assert!(matches!(acpi.set_threshold(integers(&[1])), Err(Error::OperationFailed)));
}
