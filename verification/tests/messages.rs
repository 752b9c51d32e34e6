use gm_seedkey::filter::{
    flow_control_data, flow_control_filter, id_mask, pass_filter, request_message,
};
use gm_seedkey::passthru::{
    first_rx_message, read_frame, to_rx_message, to_rx_messages, CPassThruMsg, PassThruMsg,
    ProtocolKind, RxMessage, CAN, CAN_29BIT_ID, ISO15765,
};

fn fixed(data_size: u32, fill: &[u8]) -> CPassThruMsg {
    let mut data = [0u8; 4128];
    data[..fill.len()].copy_from_slice(fill);
    CPassThruMsg {
        protocol_id: CAN,
        rx_status: 3,
        tx_flags: 5,
        timestamp: 77,
        data_size,
        extra_data_index: 9,
        data,
    }
}

#[test]
fn protocol_ids() {
    assert_eq!(ProtocolKind::Can.protocol_id(), 6);
    assert_eq!(ProtocolKind::Iso15765.protocol_id(), 7);
}

#[test]
fn new_puts_identifier_first_most_significant_byte_first() {
    let msg = PassThruMsg::new(CAN, 0x0000_07E0, &[0x02, 0x27, 0x01], 0);
    assert_eq!(msg.data, vec![0x00, 0x00, 0x07, 0xE0, 0x02, 0x27, 0x01]);
    assert_eq!(msg.data_size, 7);
    assert_eq!(msg.protocol_id, CAN);
    assert_eq!(msg.tx_flags, 0);
    assert_eq!(msg.rx_status, 0);
    assert_eq!(msg.timestamp, 0);
    assert_eq!(msg.extra_data_index, 0);
    let msg = PassThruMsg::new(CAN, 0x1234_5678, &[], 0);
    assert_eq!(msg.data, vec![0x12, 0x34, 0x56, 0x78]);
    assert_eq!(msg.data_size, 4);
}

#[test]
fn new_sets_29_bit_flag_above_standard_identifiers() {
    assert_eq!(PassThruMsg::new(CAN, 0x7FF, &[], 0).tx_flags, 0);
    assert_eq!(PassThruMsg::new(CAN, 0x800, &[], 0).tx_flags, CAN_29BIT_ID);
    assert_eq!(PassThruMsg::new(CAN, 0x18DA_F110, &[], 0x40).tx_flags, 0x140);
    assert_eq!(PassThruMsg::new(CAN, 0x18DA_F110, &[], 0x100).tx_flags, 0x100);
    assert_eq!(PassThruMsg::new(CAN, 0x7E0, &[], 0x40).tx_flags, 0x40);
}

#[test]
fn new_can_and_new_iso15765() {
    let can = PassThruMsg::new_can(0x7E0, &[1, 2]);
    assert_eq!(can, PassThruMsg::new(CAN, 0x7E0, &[1, 2], 0));
    let iso = PassThruMsg::new_iso15765(0x7E0, &[1, 2], 0x40);
    assert_eq!(iso, PassThruMsg::new(ISO15765, 0x7E0, &[1, 2], 0x40));
    assert_eq!(iso.protocol_id, 7);
    assert_eq!(can.protocol_id, 6);
}

#[test]
fn reading_a_fixed_size_message_takes_data_size_bytes() {
    let c_msg = fixed(6, &[0, 0, 7, 0xE8, 0x67, 0x01, 0xAA, 0xBB]);
    let msg = PassThruMsg::from(&c_msg);
    assert_eq!(msg.data, vec![0, 0, 7, 0xE8, 0x67, 0x01]);
    assert_eq!(msg.data_size, 6);
    assert_eq!(msg.protocol_id, CAN);
    assert_eq!(msg.rx_status, 3);
    assert_eq!(msg.tx_flags, 5);
    assert_eq!(msg.timestamp, 77);
    assert_eq!(msg.extra_data_index, 9);
}

#[test]
fn reading_caps_an_oversized_size_field() {
    let c_msg = fixed(5000, &[1, 2, 3]);
    let msg = PassThruMsg::from(&c_msg);
    assert_eq!(msg.data.len(), 4128);
    assert_eq!(&msg.data[..4], &[1, 2, 3, 0]);
    assert_eq!(msg.data_size, 5000);
    let msg = PassThruMsg::from(&fixed(0, &[1, 2, 3]));
    assert!(msg.data.is_empty());
}

#[test]
fn fixed_form_copies_data_and_pads_with_zeros() {
    let msg = PassThruMsg::new_iso15765(0x7E0, &[0x27, 0x01], 0x40);
    let c_msg = CPassThruMsg::from(&msg);
    assert_eq!(c_msg.data_size, 6);
    assert_eq!(&c_msg.data[..6], &[0, 0, 7, 0xE0, 0x27, 0x01]);
    assert!(c_msg.data[6..].iter().all(|b| *b == 0));
    assert_eq!(c_msg.protocol_id, ISO15765);
    assert_eq!(c_msg.tx_flags, 0x40);
    assert_eq!(c_msg.rx_status, 0);
    assert_eq!(c_msg.timestamp, 0);
    assert_eq!(c_msg.extra_data_index, 0);
}

#[test]
fn fixed_form_cuts_data_at_capacity() {
    let payload = vec![0x5Au8; 5000];
    let msg = PassThruMsg::new_can(0x7E0, &payload);
    assert_eq!(msg.data_size, 5004);
    let c_msg = CPassThruMsg::from(&msg);
    assert_eq!(c_msg.data_size, 4128);
    assert_eq!(&c_msg.data[..4], &[0, 0, 7, 0xE0]);
    assert!(c_msg.data[4..].iter().all(|b| *b == 0x5A));
}

#[test]
fn fixed_form_uses_data_length_not_size_field() {
    let mut msg = PassThruMsg::new_can(0x7E0, &[1, 2, 3]);
    msg.data_size = 2;
    let c_msg = CPassThruMsg::from(&msg);
    assert_eq!(c_msg.data_size, 7);
}

#[test]
fn fixed_form_round_trips() {
    let msg = PassThruMsg::new_iso15765(0x18DA_10F1, &[0x10, 0x03], 0);
    let back = PassThruMsg::from(&CPassThruMsg::from(&msg));
    assert_eq!(back, msg);
    let full = PassThruMsg::new_can(1, &vec![7u8; 4124]);
    assert_eq!(PassThruMsg::from(&CPassThruMsg::from(&full)), full);
}

#[test]
fn rx_message_splits_identifier_and_payload() {
    let msg = PassThruMsg {
        protocol_id: ISO15765,
        rx_status: 2,
        tx_flags: 0,
        timestamp: 1234,
        data_size: 6,
        extra_data_index: 0,
        data: vec![0x18, 0xDA, 0xF1, 0x10, 0x67, 0x02],
    };
    let rx = to_rx_message(msg).unwrap();
    assert_eq!(
        rx,
        RxMessage {
            id: 0x18DA_F110,
            data: vec![0x67, 0x02],
            timestamp: 1234,
            rx_status: 2,
            protocol_id: ISO15765,
        }
    );
}

#[test]
fn rx_message_needs_four_bytes() {
    let mut msg = PassThruMsg::new_can(0x7E8, &[]);
    assert_eq!(to_rx_message(msg.clone()).unwrap().data, Vec::<u8>::new());
    assert_eq!(to_rx_message(msg.clone()).unwrap().id, 0x7E8);
    msg.data.pop();
    assert_eq!(to_rx_message(msg.clone()), None);
    msg.data.clear();
    assert_eq!(to_rx_message(msg), None);
}

#[test]
fn frame_round_trips_through_rx_message() {
    for id in [0u32, 1, 0x7FF, 0x800, 0x1234_5678, 0xFFFF_FFFF] {
        let rx = read_frame(&PassThruMsg::new_can(id, &[9, 8, 7])).unwrap();
        assert_eq!(rx.id, id);
        assert_eq!(rx.data, vec![9, 8, 7]);
    }
}

#[test]
fn rx_messages_drop_short_ones_and_keep_order() {
    let mut short = PassThruMsg::new_can(1, &[]);
    short.data.truncate(3);
    let msgs = vec![
        short.clone(),
        PassThruMsg::new_can(0x7E8, &[1]),
        short.clone(),
        PassThruMsg::new_can(0x7E9, &[2]),
    ];
    let all = to_rx_messages(&msgs);
    assert_eq!(all.len(), 2);
    assert_eq!(all[0].id, 0x7E8);
    assert_eq!(all[1].id, 0x7E9);
    assert_eq!(first_rx_message(&msgs).unwrap().id, 0x7E8);
    assert_eq!(first_rx_message(&[short.clone(), short]), None);
    assert_eq!(first_rx_message(&[]), None);
    assert!(to_rx_messages(&[]).is_empty());
}

#[test]
fn id_mask_by_identifier_width() {
    assert_eq!(id_mask(0), 0x7FF);
    assert_eq!(id_mask(0x7FF), 0x7FF);
    assert_eq!(id_mask(0x800), 0x1FFF_FFFF);
    assert_eq!(id_mask(0x18DA_F110), 0x1FFF_FFFF);
}

#[test]
fn pass_filter_messages() {
    let filter = pass_filter(ProtocolKind::Can, 0x7FF, 0x7E8);
    assert_eq!(filter.mask, PassThruMsg::new(CAN, 0x7FF, &[], 0));
    assert_eq!(filter.pattern, PassThruMsg::new(CAN, 0x7E8, &[], 0));
    let filter = pass_filter(ProtocolKind::Iso15765, 0x1FFF_FFFF, 0x18DA_F110);
    assert_eq!(filter.mask.data, vec![0x1F, 0xFF, 0xFF, 0xFF]);
    assert_eq!(filter.mask.tx_flags, CAN_29BIT_ID);
    assert_eq!(filter.pattern.protocol_id, ISO15765);
}

#[test]
fn flow_control_data_with_and_without_padding() {
    assert_eq!(flow_control_data(0, 5, None), vec![0x30, 0, 5]);
    assert_eq!(flow_control_data(8, 2, Some(0xAA)), vec![0x30, 8, 2, 0xAA, 0xAA, 0xAA, 0xAA, 0xAA]);
    assert_eq!(flow_control_data(0, 0, Some(0)), vec![0x30, 0, 0, 0, 0, 0, 0, 0]);
}

#[test]
fn flow_control_filter_messages() {
    let filter = flow_control_filter(0x7E0, 0x7E8, 0, 0, None);
    assert_eq!(filter.mask, PassThruMsg::new(ISO15765, 0x7FF, &[], 0));
    assert_eq!(filter.pattern, PassThruMsg::new(ISO15765, 0x7E8, &[], 0));
    assert_eq!(filter.flow_control, PassThruMsg::new(ISO15765, 0x7E0, &[0x30, 0, 0], 0));
    let filter = flow_control_filter(0x18DA_10F1, 0x18DA_F110, 4, 1, Some(0x55));
    assert_eq!(filter.mask.data, vec![0x1F, 0xFF, 0xFF, 0xFF]);
    assert_eq!(filter.pattern.data, vec![0x18, 0xDA, 0xF1, 0x10]);
    assert_eq!(
        filter.flow_control.data,
        vec![0x18, 0xDA, 0x10, 0xF1, 0x30, 4, 1, 0x55, 0x55, 0x55, 0x55, 0x55]
    );
    // The mask follows the answering identifier, not the sending one.
    let filter = flow_control_filter(0x18DA_10F1, 0x7E8, 0, 0, None);
    assert_eq!(filter.mask.data, vec![0x00, 0x00, 0x07, 0xFF]);
}

#[test]
fn request_message_by_protocol() {
    assert_eq!(request_message(ProtocolKind::Can, 0x7E0, &[1]), PassThruMsg::new_can(0x7E0, &[1]));
    assert_eq!(
        request_message(ProtocolKind::Iso15765, 0x7E0, &[1]),
        PassThruMsg::new_iso15765(0x7E0, &[1], 0)
    );
}
