use evm_hound::{disasm, hex_to_bytes, Instruction, Opcode};

fn code(hex: &str) -> Vec<u8> {
    hex_to_bytes(hex).unwrap()
}

fn reassemble(instrs: &[Instruction]) -> Vec<u8> {
    let mut out = Vec::new();
    for instr in instrs {
        out.push(instr.opcode.byte());
        if let Some(v) = instr.push_value {
            out.extend_from_slice(v);
        }
    }
    out
}

#[test]
fn empty_code_has_no_instructions() {
    assert!(disasm(&[]).is_empty());
}

#[test]
fn truncated_push_takes_what_is_left() {
    let bytes = [0x63u8, 0xaa];
    let instrs = disasm(&bytes);
    assert_eq!(instrs.len(), 1);
    assert_eq!(instrs[0].opcode, Opcode::Push4);
    assert_eq!(instrs[0].offset, 0);
    assert_eq!(instrs[0].push_value, Some(&[0xaau8][..]));
}

#[test]
fn lone_push_opcode_has_empty_operand() {
    let bytes = [0x63u8];
    let instrs = disasm(&bytes);
    assert_eq!(instrs.len(), 1);
    assert_eq!(instrs[0].opcode, Opcode::Push4);
    assert_eq!(instrs[0].push_value.map(|v| v.len()), Some(0));
}

#[test]
fn offsets_count_operand_bytes() {
    // PUSH1 01, DUP1, PUSH0, PUSH2 0010, STOP
    let bytes = code("0x6001805f61001000");
    let instrs = disasm(&bytes);
    let offsets: Vec<usize> = instrs.iter().map(|i| i.offset).collect();
    assert_eq!(offsets, vec![0, 2, 3, 4, 7]);
    let opcodes: Vec<Opcode> = instrs.iter().map(|i| i.opcode).collect();
    assert_eq!(
        opcodes,
        vec![Opcode::Push1, Opcode::Dup1, Opcode::Push0, Opcode::Push2, Opcode::Stop]
    );
    assert_eq!(instrs[0].push_value, Some(&[0x01u8][..]));
    assert_eq!(instrs[1].push_value, None);
    assert_eq!(instrs[2].push_value, None);
    assert_eq!(instrs[3].push_value, Some(&[0x00u8, 0x10][..]));
}

#[test]
fn offsets_start_at_zero_and_increase() {
    let bytes = code("0x608060405234801561001057600080fd5b50");
    let instrs = disasm(&bytes);
    assert_eq!(instrs[0].offset, 0);
    for w in instrs.windows(2) {
        assert!(w[0].offset < w[1].offset);
        assert_eq!(w[1].offset, w[0].offset + 1 + w[0].opcode.push_value_size());
    }
}

#[test]
fn reassembling_gives_the_code_back() {
    let bytes = code("0x608060405234801561001057600080fd5b5063a9059cbb");
    assert_eq!(reassemble(&disasm(&bytes)), bytes);
    let truncated = code("0x6080604052347f0102");
    assert_eq!(reassemble(&disasm(&truncated)), truncated);
}

#[test]
fn undefined_byte_decodes_to_invalid() {
    let instrs = disasm(&[0x0cu8, 0x01]);
    assert_eq!(instrs[0].opcode, Opcode::Invalid);
    assert_eq!(instrs[0].opcode.byte(), 0xfe);
    assert_eq!(instrs[1].opcode, Opcode::Add);
}

#[test]
fn repeated_disassembly_is_identical() {
    let bytes = code("0x6080604052348015610010576000");
    let a = disasm(&bytes);
    let b = disasm(&bytes);
    assert_eq!(a.len(), b.len());
    for (x, y) in a.iter().zip(b.iter()) {
        assert_eq!(x.opcode, y.opcode);
        assert_eq!(x.offset, y.offset);
        assert_eq!(x.push_value, y.push_value);
    }
}

#[test]
fn instruction_text() {
    let bytes = code("0x6100105700");
    let instrs = disasm(&bytes);
    assert_eq!(instrs[0].to_string(), "Push2 0010");
    assert_eq!(instrs[1].to_string(), "Jumpi");
    assert_eq!(instrs[2].to_string(), "Stop");
}
