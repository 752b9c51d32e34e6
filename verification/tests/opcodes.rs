use gm_seedkey::opcode::{
    apply, make_word, op_05, op_14, op_2a, op_37, op_4c, op_52, op_6b, op_75, op_7e, op_98, op_f8,
    w, Opcode,
};

#[test]
fn word_orders_its_bytes() {
    assert_eq!(make_word(0x12, 0x34), 0x1234);
    assert_eq!(make_word(0x34, 0x12), 0x3412);
    assert_eq!(make_word(0, 0), 0);
    assert_eq!(make_word(0xFF, 0xFF), 0xFFFF);
}

#[test]
fn truncation_keeps_low_sixteen_bits() {
    assert_eq!(w(0x0001_2345), 0x2345);
    assert_eq!(w(0xFFFF_FFFF), 0xFFFF);
    assert_eq!(w(0x0001_0000), 0);
    assert_eq!(w(7), 7);
}

#[test]
fn byte_swap_exchanges_bytes() {
    assert_eq!(op_05(0x1000), 0x0010);
    assert_eq!(op_05(0x1234), 0x3412);
    assert_eq!(op_05(0x00FF), 0xFF00);
}

#[test]
fn byte_swap_is_self_inverse() {
    for v in 0..=0xFFFFu16 {
        assert_eq!(op_05(op_05(v)), v);
    }
}

#[test]
fn add_hl_uses_hh_as_high_byte() {
    assert_eq!(op_14(0x0010, 0x12, 0x34), 0x1244);
    assert_eq!(op_14(0x0000, 0x12, 0x34), 0x1234);
}

#[test]
fn add_lh_uses_ll_as_high_byte() {
    assert_eq!(op_75(0x0010, 0x12, 0x34), 0x3422);
    assert_eq!(op_75(0x0000, 0x12, 0x34), 0x3412);
}

#[test]
fn add_wraps_around() {
    assert_eq!(op_14(0xFFFF, 0x00, 0x01), 0x0000);
    assert_eq!(op_14(0xFFFF, 0xFF, 0xFF), 0xFFFE);
    assert_eq!(op_75(0xFF00, 0x00, 0x01), 0x0000);
}

#[test]
fn sub_hl_and_sub_lh_differ_in_byte_order() {
    assert_eq!(op_98(0x1244, 0x12, 0x34), 0x0010);
    assert_eq!(op_f8(0x3422, 0x12, 0x34), 0x0010);
    assert_eq!(op_98(0x5000, 0x12, 0x34), 0x3DCC);
    assert_eq!(op_f8(0x5000, 0x12, 0x34), 0x1BEE);
}

#[test]
fn sub_wraps_around() {
    assert_eq!(op_98(0x0000, 0x00, 0x01), 0xFFFF);
    assert_eq!(op_f8(0x0000, 0x01, 0x00), 0xFFFF);
    assert_eq!(op_98(0x0001, 0xFF, 0xFF), 0x0002);
}

#[test]
fn add_then_sub_round_trips() {
    let operands = [(0u8, 0u8), (0x12, 0x34), (0xFF, 0xFF), (0x80, 0x01), (0x01, 0x80)];
    for v in [0u16, 1, 0x1234, 0x7FFF, 0x8000, 0xFFFF] {
        for (hh, ll) in operands {
            assert_eq!(op_98(op_14(v, hh, ll), hh, ll), v);
            assert_eq!(op_f8(op_75(v, hh, ll), hh, ll), v);
        }
    }
}

#[test]
fn complement_without_increment() {
    assert_eq!(op_2a(0x1234, 2, 1), 0xEDCB);
    assert_eq!(op_2a(0x1234, 5, 5), 0xEDCB);
    assert_eq!(op_2a(0x0000, 0, 0), 0xFFFF);
    assert_eq!(op_2a(0xFFFF, 9, 3), 0x0000);
}

#[test]
fn complement_is_self_inverse_without_increment() {
    for v in 0..=0xFFFFu16 {
        assert_eq!(op_2a(op_2a(v, 7, 3), 4, 4), v);
    }
}

#[test]
fn complement_with_increment() {
    assert_eq!(op_2a(0x1234, 1, 2), 0xEDCC);
    assert_eq!(op_2a(0x0001, 0, 0xFF), 0xFFFF);
    assert_eq!(op_2a(0x0000, 0, 1), 0x0000);
    assert_eq!(op_2a(0xFFFF, 0, 1), 0x0001);
}

#[test]
fn complement_mixed_branches_do_not_round_trip() {
    assert_eq!(op_2a(op_2a(0x1234, 2, 1), 1, 2), 0x1235);
    assert_eq!(op_2a(op_2a(0x1234, 1, 2), 2, 1), 0x1233);
}

#[test]
fn and_lh_uses_ll_as_high_byte() {
    assert_eq!(op_37(0xFFFF, 0x12, 0x34), 0x3412);
    assert_eq!(op_37(0xABCD, 0x0F, 0xF0), 0xA00D);
    assert_eq!(op_37(0xABCD, 0x00, 0x00), 0x0000);
}

#[test]
fn or_hl_uses_ll_as_high_byte() {
    assert_eq!(op_52(0x0000, 0x12, 0x34), 0x3412);
    assert_eq!(op_52(0xA00D, 0x0F, 0xF0), 0xF00F);
    assert_eq!(op_52(0xABCD, 0x00, 0x00), 0xABCD);
}

#[test]
fn rotate_left_takes_count_from_hh() {
    assert_eq!(op_4c(0x8001, 1, 0), 0x0003);
    assert_eq!(op_4c(0x1234, 4, 9), 0x2341);
    assert_eq!(op_4c(0x1234, 8, 0), 0x3412);
    assert_eq!(op_4c(0x1234, 15, 0), 0x091A);
    assert_eq!(op_4c(0x1234, 0x14, 0), 0x2341);
}

#[test]
fn rotate_right_takes_count_from_ll() {
    assert_eq!(op_6b(0x8001, 0, 1), 0xC000);
    assert_eq!(op_6b(0x1234, 9, 4), 0x4123);
    assert_eq!(op_6b(0x1234, 0, 8), 0x3412);
    assert_eq!(op_6b(0x1234, 0, 15), 0x2468);
    assert_eq!(op_6b(0x1234, 0, 0xF4), 0x4123);
}

#[test]
fn rotate_by_zero_is_identity() {
    for v in [0u16, 1, 0x1234, 0x8000, 0xFFFF] {
        assert_eq!(op_4c(v, 0, 5), v);
        assert_eq!(op_4c(v, 0x10, 5), v);
        assert_eq!(op_6b(v, 5, 0), v);
        assert_eq!(op_6b(v, 5, 0xF0), v);
    }
}

#[test]
fn rotate_left_then_right_round_trips() {
    for n in 0..=15u8 {
        for v in [0u16, 1, 0x1234, 0x8000, 0xABCD, 0xFFFF] {
            assert_eq!(op_6b(op_4c(v, n, 0xAA), 0x55, n), v);
            assert_eq!(op_4c(op_6b(v, 0x55, n), n, 0xAA), v);
        }
    }
}

#[test]
fn swap_add_picks_operand_order() {
    assert_eq!(op_7e(0x1000, 0x34, 0x12), 0x3422);
    assert_eq!(op_7e(0x1000, 0x12, 0x34), 0x3422);
    assert_eq!(op_7e(0x1000, 0x12, 0x12), 0x1222);
    assert_eq!(op_7e(0x00FF, 0x01, 0x00), 0x0000);
    assert_eq!(op_7e(0x00FF, 0x00, 0x01), 0x0000);
}

#[test]
fn opcode_bytes_round_trip() {
    let all = [
        (0x05u8, Opcode::ByteSwap),
        (0x14, Opcode::AddHL),
        (0x2A, Opcode::Complement),
        (0x37, Opcode::AndLH),
        (0x4C, Opcode::RotateLeft),
        (0x52, Opcode::OrHL),
        (0x6B, Opcode::RotateRight),
        (0x75, Opcode::AddLH),
        (0x7E, Opcode::SwapAdd),
        (0x98, Opcode::SubHL),
        (0xF8, Opcode::SubLH),
    ];
    for (byte, op) in all {
        assert_eq!(Opcode::from_byte(byte), Some(op));
        assert_eq!(op.code(), byte);
    }
    let mut defined = 0;
    for byte in 0..=255u8 {
        if Opcode::from_byte(byte).is_some() {
            defined += 1;
        }
    }
    assert_eq!(defined, 11);
    assert_eq!(Opcode::from_byte(0x00), None);
    assert_eq!(Opcode::from_byte(0xFF), None);
}

#[test]
fn apply_dispatches_to_each_transform() {
    let v = 0x1234u16;
    let (hh, ll) = (0x03u8, 0x45u8);
    assert_eq!(apply(Opcode::ByteSwap, v, hh, ll), op_05(v));
    assert_eq!(apply(Opcode::AddHL, v, hh, ll), 0x1579);
    assert_eq!(apply(Opcode::Complement, v, hh, ll), 0xEDCC);
    assert_eq!(apply(Opcode::AndLH, v, hh, ll), 0x0000);
    assert_eq!(apply(Opcode::RotateLeft, v, hh, ll), 0x91A0);
    assert_eq!(apply(Opcode::OrHL, v, hh, ll), 0x5737);
    assert_eq!(apply(Opcode::RotateRight, v, hh, ll), 0xA091);
    assert_eq!(apply(Opcode::AddLH, v, hh, ll), 0x5737);
    assert_eq!(apply(Opcode::SwapAdd, v, hh, ll), 0x7915);
    assert_eq!(apply(Opcode::SubHL, v, hh, ll), 0x0EEF);
    assert_eq!(apply(Opcode::SubLH, v, hh, ll), 0xCD31);
}
