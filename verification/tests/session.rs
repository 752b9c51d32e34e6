use gm_seedkey::config::{IsoTpConfig, IsoTpConfigRead, SConfig, SConfigList};
use gm_seedkey::device::{device_entry, J2534Device};
use gm_seedkey::driver::{check_status, read_capacity, read_result, DriverState, J2534Error};
use gm_seedkey::passthru::{CPassThruMsg, PassThruMsg, ProtocolKind, CAN};
use gm_seedkey::text::{
    algorithm_labels, c_string_prefix, cstr_to_string, hex_byte, parse_protocol,
    protocol_from_lowercase, protocol_label, J2534VersionInfo,
};

#[test]
fn status_zero_is_success() {
    assert_eq!(check_status(0), Ok(()));
    assert_eq!(check_status(9), Err(J2534Error::PassThruError(9)));
    assert_eq!(check_status(-1), Err(J2534Error::PassThruError(-1)));
    assert_eq!(check_status(0x42), Err(J2534Error::PassThruError(0x42)));
}

#[test]
fn read_capacity_is_at_least_one() {
    assert_eq!(read_capacity(0), 1);
    assert_eq!(read_capacity(1), 1);
    assert_eq!(read_capacity(10), 10);
    assert_eq!(read_capacity(u32::MAX), u32::MAX);
}

#[test]
fn read_result_by_status() {
    let mut first = CPassThruMsg::from(&PassThruMsg::new_can(0x7E8, &[1, 2]));
    first.timestamp = 55;
    let second = CPassThruMsg::from(&PassThruMsg::new_can(0x7E9, &[3]));
    let buffer = [first, second];
    let msgs = read_result(0, &buffer).unwrap();
    assert_eq!(msgs.len(), 2);
    assert_eq!(msgs[0].data, vec![0, 0, 7, 0xE8, 1, 2]);
    assert_eq!(msgs[0].timestamp, 55);
    assert_eq!(msgs[1].data, vec![0, 0, 7, 0xE9, 3]);
    assert_eq!(read_result(0, &buffer[..1]).unwrap().len(), 1);
    assert_eq!(read_result(0, &[]).unwrap().len(), 0);
    assert_eq!(read_result(0x42, &buffer), Ok(vec![]));
    assert_eq!(read_result(0x09, &buffer), Ok(vec![]));
    assert_eq!(read_result(0x10, &buffer), Err(J2534Error::PassThruError(0x10)));
    assert_eq!(read_result(-3, &[]), Err(J2534Error::PassThruError(-3)));
}

#[test]
fn fresh_state_has_no_channels() {
    let state = DriverState::new();
    assert_eq!(state.device_id, 0);
    assert_eq!(
        state.channel_id(ProtocolKind::Can),
        Err(J2534Error::ChannelNotOpen("CAN".to_string()))
    );
    assert_eq!(
        state.channel_id(ProtocolKind::Iso15765),
        Err(J2534Error::ChannelNotOpen("ISO15765".to_string()))
    );
}

#[test]
fn channels_are_kept_per_protocol() {
    let mut state = DriverState::new();
    state.set_channel(ProtocolKind::Can, 11);
    assert_eq!(state.channel_id(ProtocolKind::Can), Ok(11));
    assert!(state.channel_id(ProtocolKind::Iso15765).is_err());
    state.set_channel(ProtocolKind::Iso15765, 22);
    assert_eq!(state.channel_id(ProtocolKind::Iso15765), Ok(22));
    assert_eq!(state.channel_id(ProtocolKind::Can), Ok(11));
    assert_eq!(state.take_channels(), vec![11, 22]);
    assert!(state.channel_id(ProtocolKind::Can).is_err());
    assert!(state.channel_id(ProtocolKind::Iso15765).is_err());
    assert_eq!(state.take_channels(), Vec::<u32>::new());
    state.set_channel(ProtocolKind::Iso15765, 5);
    assert_eq!(state.take_channels(), vec![5]);
}

#[test]
fn filters_are_kept_per_protocol() {
    let mut state = DriverState::new();
    assert_eq!(
        state.take_filters(ProtocolKind::Can),
        Err(J2534Error::ChannelNotOpen("CAN".to_string()))
    );
    state.set_channel(ProtocolKind::Can, 1);
    state.set_channel(ProtocolKind::Iso15765, 2);
    state.store_filters(ProtocolKind::Can, vec![10, 11]);
    state.store_filters(ProtocolKind::Iso15765, vec![20]);
    assert_eq!(state.take_filters(ProtocolKind::Can), Ok((1, vec![10, 11])));
    assert_eq!(state.take_filters(ProtocolKind::Can), Ok((1, vec![])));
    assert_eq!(state.iso_filter_ids, vec![20]);
    assert_eq!(state.take_filters(ProtocolKind::Iso15765), Ok((2, vec![20])));
}

#[test]
fn taking_filters_without_channel_changes_nothing() {
    let mut state = DriverState::new();
    state.can_filter_ids = vec![1, 2];
    let before = state.clone();
    assert!(state.take_filters(ProtocolKind::Can).is_err());
    assert_eq!(state, before);
    state.iso_fc_filter_id = Some(4);
    let before = state.clone();
    assert_eq!(
        state.take_flow_control_filter(),
        Err(J2534Error::ChannelNotOpen("ISO15765".to_string()))
    );
    assert_eq!(state, before);
}

#[test]
fn flow_control_filter_is_kept() {
    let mut state = DriverState::new();
    state.set_channel(ProtocolKind::Iso15765, 2);
    assert_eq!(state.take_flow_control_filter(), Ok((2, None)));
    state.set_flow_control_filter(33);
    assert_eq!(state.iso_fc_filter_id, Some(33));
    assert_eq!(state.take_flow_control_filter(), Ok((2, Some(33))));
    assert_eq!(state.take_flow_control_filter(), Ok((2, None)));
}

#[test]
fn config_list_refuses_empty_parameters() {
    assert_eq!(
        SConfigList::new(vec![]),
        Err(J2534Error::InvalidConfig("No params provided".to_string()))
    );
    let params = vec![SConfig { parameter: 0x1E, value: 8 }, SConfig { parameter: 0x1F, value: 1 }];
    let list = SConfigList::new(params.clone()).unwrap();
    assert_eq!(list.num_of_params, 2);
    assert_eq!(list.params, params);
}

#[test]
fn iso_tp_config_lists_given_values_in_order() {
    let config =
        IsoTpConfig { block_size: Some(8), st_min: None, wft_max: Some(3), pad_value: Some(0xAA) };
    assert_eq!(
        config.params(),
        vec![
            SConfig { parameter: 0x1E, value: 8 },
            SConfig { parameter: 0x20, value: 3 },
            SConfig { parameter: 0x21, value: 0xAA },
        ]
    );
    assert!(!config.is_empty());
    let all = IsoTpConfig { block_size: Some(1), st_min: Some(2), wft_max: Some(3), pad_value: Some(4) };
    assert_eq!(
        all.params(),
        vec![
            SConfig { parameter: 0x1E, value: 1 },
            SConfig { parameter: 0x1F, value: 2 },
            SConfig { parameter: 0x20, value: 3 },
            SConfig { parameter: 0x21, value: 4 },
        ]
    );
    let none = IsoTpConfig { block_size: None, st_min: None, wft_max: None, pad_value: None };
    assert!(none.is_empty());
    assert!(none.params().is_empty());
}

#[test]
fn iso_tp_config_read_collects_values() {
    assert_eq!(
        IsoTpConfigRead::query(),
        vec![
            SConfig { parameter: 0x1E, value: 0 },
            SConfig { parameter: 0x1F, value: 0 },
            SConfig { parameter: 0x20, value: 0 },
            SConfig { parameter: 0x21, value: 0 },
        ]
    );
    let values = [
        SConfig { parameter: 0x21, value: 0xCC },
        SConfig { parameter: 0x1E, value: 8 },
        SConfig { parameter: 0x99, value: 1 },
        SConfig { parameter: 0x1F, value: 2 },
        SConfig { parameter: 0x1E, value: 16 },
    ];
    assert_eq!(
        IsoTpConfigRead::from_params(&values),
        IsoTpConfigRead { block_size: 16, st_min: 2, wft_max: 0, pad_value: 0xCC }
    );
    assert_eq!(
        IsoTpConfigRead::from_params(&[]),
        IsoTpConfigRead { block_size: 0, st_min: 0, wft_max: 0, pad_value: 0 }
    );
    let config = IsoTpConfig { block_size: Some(4), st_min: Some(5), wft_max: None, pad_value: Some(6) };
    assert_eq!(
        IsoTpConfigRead::from_params(&config.params()),
        IsoTpConfigRead { block_size: 4, st_min: 5, wft_max: 0, pad_value: 6 }
    );
}

#[test]
fn hex_labels_are_two_upper_case_digits() {
    assert_eq!(hex_byte(0x00), "00");
    assert_eq!(hex_byte(0x0A), "0A");
    assert_eq!(hex_byte(0xA0), "A0");
    assert_eq!(hex_byte(0x9F), "9F");
    assert_eq!(hex_byte(0xFF), "FF");
    for byte in 0..=255u8 {
        assert_eq!(hex_byte(byte), format!("{byte:02X}"));
    }
    assert_eq!(algorithm_labels(&[0, 1, 0x2B, 0xFF]), vec!["00", "01", "2B", "FF"]);
    assert!(algorithm_labels(&[]).is_empty());
}

#[test]
fn protocol_names_parse_in_any_case() {
    assert_eq!(parse_protocol("can"), Ok(ProtocolKind::Can));
    assert_eq!(parse_protocol("CAN"), Ok(ProtocolKind::Can));
    assert_eq!(parse_protocol("Can"), Ok(ProtocolKind::Can));
    assert_eq!(parse_protocol("iso15765"), Ok(ProtocolKind::Iso15765));
    assert_eq!(parse_protocol("ISO15765"), Ok(ProtocolKind::Iso15765));
    assert_eq!(parse_protocol("isotp"), Ok(ProtocolKind::Iso15765));
    assert_eq!(parse_protocol("IsoTp"), Ok(ProtocolKind::Iso15765));
    assert_eq!(parse_protocol("iso-tp"), Ok(ProtocolKind::Iso15765));
    assert_eq!(parse_protocol("ISO-TP"), Ok(ProtocolKind::Iso15765));
}

#[test]
fn unknown_protocol_names_are_refused_as_given() {
    assert_eq!(parse_protocol("LIN"), Err("Unsupported protocol: LIN".to_string()));
    assert_eq!(parse_protocol(""), Err("Unsupported protocol: ".to_string()));
    assert_eq!(parse_protocol(" can"), Err("Unsupported protocol:  can".to_string()));
    assert_eq!(parse_protocol("iso_tp"), Err("Unsupported protocol: iso_tp".to_string()));
}

#[test]
fn protocol_from_lowercase_compares_exactly() {
    assert_eq!(protocol_from_lowercase(&"can".to_string(), "CAN"), Ok(ProtocolKind::Can));
    assert_eq!(
        protocol_from_lowercase(&"CAN".to_string(), "CAN"),
        Err("Unsupported protocol: CAN".to_string())
    );
    assert_eq!(
        protocol_from_lowercase(&"lin".to_string(), "Lin"),
        Err("Unsupported protocol: Lin".to_string())
    );
}

#[test]
fn protocol_labels() {
    assert_eq!(protocol_label(ProtocolKind::Can), "can");
    assert_eq!(protocol_label(ProtocolKind::Iso15765), "iso15765");
    assert_eq!(parse_protocol(&protocol_label(ProtocolKind::Can)), Ok(ProtocolKind::Can));
    assert_eq!(parse_protocol(&protocol_label(ProtocolKind::Iso15765)), Ok(ProtocolKind::Iso15765));
}

#[test]
fn c_string_ends_at_first_zero() {
    let buf: Vec<i8> = vec![0x30, 0x34, 0x2E, 0x30, 0x34, 0, 0x41, 0];
    assert_eq!(c_string_prefix(&buf), b"04.04".to_vec());
    assert_eq!(cstr_to_string(&buf), "04.04");
    assert_eq!(cstr_to_string(&[0]), "");
    assert_eq!(cstr_to_string(&[]), "");
    assert_eq!(cstr_to_string(&[0x41, 0x42]), "AB");
    assert_eq!(cstr_to_string(&[0, 0x41]), "");
}

#[test]
fn c_string_bytes_are_read_unsigned() {
    assert_eq!(c_string_prefix(&[-1, -128, 127, 0]), vec![0xFF, 0x80, 0x7F]);
    // 0xC3 0xA9 is the UTF-8 encoding of U+00E9.
    assert_eq!(cstr_to_string(&[0x4D, -61, -87, 0]), "M\u{e9}");
    // A lone 0xFF is no UTF-8 and decodes to the replacement character.
    assert_eq!(cstr_to_string(&[0x41, -1, 0x42, 0]), "A\u{fffd}B");
}

#[test]
fn version_info_reads_three_buffers() {
    let mut api = vec![0i8; 80];
    let mut dll = vec![0i8; 80];
    let fw = vec![0i8; 80];
    for (i, b) in b"04.04".iter().enumerate() {
        api[i] = *b as i8;
    }
    for (i, b) in b"1.2.3".iter().enumerate() {
        dll[i] = *b as i8;
    }
    let info = J2534VersionInfo::from_buffers(&api, &dll, &fw);
    assert_eq!(
        info,
        J2534VersionInfo {
            api_version: "04.04".to_string(),
            dll_version: "1.2.3".to_string(),
            fw_version: String::new(),
        }
    );
}

#[test]
fn device_entry_needs_a_library_path() {
    let key = "Vendor - Device".to_string();
    assert_eq!(device_entry(key.clone(), Some("V".to_string()), Some("N".to_string()), None), None);
    assert_eq!(
        device_entry(key.clone(), Some("V".to_string()), None, Some(String::new())),
        None
    );
    assert_eq!(
        device_entry(
            key.clone(),
            Some("V".to_string()),
            Some("N".to_string()),
            Some("C:\\d.dll".to_string())
        ),
        Some(J2534Device {
            name: "N".to_string(),
            vendor: "V".to_string(),
            dll_path: "C:\\d.dll".to_string()
        })
    );
    assert_eq!(
        device_entry(key.clone(), None, None, Some("d.dll".to_string())),
        Some(J2534Device {
            name: key.clone(),
            vendor: String::new(),
            dll_path: "d.dll".to_string()
        })
    );
}

#[test]
fn can_messages_use_protocol_six() {
    assert_eq!(PassThruMsg::new_can(1, &[]).protocol_id, CAN);
}
