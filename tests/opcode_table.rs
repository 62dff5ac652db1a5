use evm_hound::Opcode;

#[test]
fn every_defined_byte_round_trips() {
    let mut defined = 0;
    for b in 0..=255u8 {
        let op = Opcode::from_byte(b);
        if op != Opcode::Invalid || b == 0xfe {
            assert_eq!(op.byte(), b, "byte {b:#04x}");
            defined += 1;
        }
    }
    assert_eq!(defined, 144);
}

#[test]
fn shared_byte_decodes_to_newer_identity() {
    assert_eq!(Opcode::from_byte(0x44), Opcode::Prevrandao);
    assert_eq!(Opcode::Difficulty.byte(), 0x44);
    assert_eq!(Opcode::Prevrandao.byte(), 0x44);
}

#[test]
fn unassigned_bytes_decode_to_invalid() {
    for b in [0x0cu8, 0x1e, 0x21, 0x49, 0x5c, 0xa5, 0xf6, 0xfb] {
        assert_eq!(Opcode::from_byte(b), Opcode::Invalid);
    }
}

#[test]
fn push_family_metadata() {
    assert_eq!(Opcode::from_byte(0x5f), Opcode::Push0);
    assert_eq!(Opcode::Push0.push_value_size(), 0);
    assert!(!Opcode::Push0.is_value_push());
    assert_eq!(Opcode::Push1.push_value_size(), 1);
    assert_eq!(Opcode::Push32.push_value_size(), 32);
    assert!(Opcode::Push32.is_value_push());
    assert_eq!(Opcode::Add.push_value_size(), 0);
    assert!(!Opcode::Jumpi.is_value_push());
    assert!(Opcode::Push4.is_push4_or_le());
    assert!(!Opcode::Push5.is_push4_or_le());
    assert!(!Opcode::Push0.is_push4_or_le());
    for b in 0x60..=0x7fu8 {
        let op = Opcode::from_byte(b);
        assert!(op.is_value_push());
        assert_eq!(op.push_value_size(), (b - 0x5f) as usize);
    }
}

#[test]
fn opcode_names() {
    assert_eq!(Opcode::Push1.op_string(), "Push1");
    assert_eq!(Opcode::Calldataload.op_string(), "Calldataload");
    assert_eq!(Opcode::Selfdestruct.op_string(), "Selfdestruct");
    assert_eq!(Opcode::from_byte(0x57).op_string(), "Jumpi");
}
