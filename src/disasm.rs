use crate::opcodes::{is_defined_byte, Bytecode, Instruction, InstructionView, Opcode};
use vstd::prelude::*;

verus! {

/// The instruction that starts at byte `pos`: its operand is the next `n` bytes that a
/// `Push<n>` declares, or as many of them as the code still holds.
pub open spec fn spec_instruction_at(code: Seq<u8>, pos: int) -> InstructionView {
    let opcode = Opcode::spec_from_byte(code[pos]);
    let end = if pos + 1 + opcode.spec_push_value_size() > code.len() {
        code.len() as int
    } else {
        pos + 1 + opcode.spec_push_value_size()
    };
    InstructionView {
        opcode,
        offset: pos as nat,
        push_value: if opcode.spec_is_value_push() {
            Some(code.subrange(pos + 1, end))
        } else {
            None
        },
    }
}

/// The instructions from byte `pos` to the end of the code. Each one is followed by the one
/// that starts one byte plus its declared operand length further on.
pub open spec fn spec_disasm_from(code: Seq<u8>, pos: int) -> Seq<InstructionView>
    decreases
            if pos < code.len() {
                code.len() - pos
            } else {
                0
            },
{
    if pos < 0 || pos >= code.len() {
        Seq::empty()
    } else {
        let instr = spec_instruction_at(code, pos);
        seq![instr] + spec_disasm_from(code, pos + 1 + instr.opcode.spec_push_value_size())
    }
}

/// The instructions of the whole code.
pub open spec fn spec_disasm(code: Seq<u8>) -> Seq<InstructionView> {
    spec_disasm_from(code, 0)
}

/// The views of a sequence of instructions.
pub open spec fn instruction_views<'a>(instrs: Seq<Instruction<'a>>) -> Seq<InstructionView> {
    instrs.map_values(|i: Instruction<'a>| i@)
}

/// The bytes that a sequence of instructions is written with: each opcode's byte, then its
/// operand.
pub open spec fn spec_reassemble(instrs: Seq<InstructionView>) -> Seq<u8>
    decreases instrs.len(),
{
    if instrs.len() == 0 {
        Seq::empty()
    } else {
        seq![instrs[0].opcode.spec_byte()] + instrs[0].operand() + spec_reassemble(
            instrs.drop_first(),
        )
    }
}

/// Every instruction of the code starts with a byte that some opcode owns.
pub open spec fn is_well_formed(code: Seq<u8>) -> bool {
    forall|k: int|
        0 <= k < spec_disasm(code).len() ==> is_defined_byte(
            #[trigger] code[spec_disasm(code)[k].offset as int],
        )
}

/// Offsets of the instructions from `pos` on: the first is `pos`, each later one is its
/// predecessor's offset plus one plus its declared operand length, and they increase
/// strictly and stay inside the code.
pub proof fn lemma_disasm_from_offsets(code: Seq<u8>, pos: int)
    requires
        0 <= pos,
    ensures
        ({
            let s = spec_disasm_from(code, pos);
            &&& s.len() > 0 ==> s[0].offset == pos
            &&& forall|k: int| 0 <= k < s.len() ==> pos <= #[trigger] s[k].offset < code.len()
            &&& forall|k: int|
                0 <= k < s.len() ==> #[trigger] s[k] == spec_instruction_at(code, s[k].offset as int)
            &&& forall|i: int, j: int|
                #![trigger s[i], s[j]]
                0 <= i && j == i + 1 && j < s.len() ==> s[j].offset == s[i].offset + 1
                    + s[i].opcode.spec_push_value_size()
            &&& forall|i: int, j: int| 0 <= i < j < s.len() ==> s[i].offset < s[j].offset
        }),
    decreases code.len() - pos,
{
    if pos < code.len() {
        let instr = spec_instruction_at(code, pos);
        let next = pos + 1 + instr.opcode.spec_push_value_size();
        let s = spec_disasm_from(code, pos);
        let rest = spec_disasm_from(code, next);
        if next < code.len() {
            lemma_disasm_from_offsets(code, next);
        } else {
            assert(rest =~= Seq::<InstructionView>::empty());
        }
        assert(s =~= seq![instr] + rest);
        assert forall|i: int, j: int|
            #![trigger s[i], s[j]]
            0 <= i && j == i + 1 && j < s.len() implies s[j].offset == s[i].offset + 1
                + s[i].opcode.spec_push_value_size() by {
            assert(s[j] == rest[i]);
            if i > 0 {
                assert(s[i] == rest[i - 1]);
            }
        }
        assert forall|i: int, j: int| 0 <= i < j < s.len() implies s[i].offset < s[j].offset by {
            assert(s[j] == rest[j - 1]);
            if i > 0 {
                assert(s[i] == rest[i - 1]);
            }
        }
    }
}

/// Reassembling the instructions from `pos` on gives back the code from `pos` on, where
/// every instruction starts with a byte that some opcode owns.
pub proof fn lemma_reassemble_from(code: Seq<u8>, pos: int)
    requires
        0 <= pos <= code.len(),
        forall|k: int|
            0 <= k < spec_disasm_from(code, pos).len() ==> is_defined_byte(
                #[trigger] code[spec_disasm_from(code, pos)[k].offset as int],
            ),
    ensures
        spec_reassemble(spec_disasm_from(code, pos)) == code.subrange(pos, code.len() as int),
    decreases code.len() - pos,
{
    let s = spec_disasm_from(code, pos);
    if pos == code.len() {
        assert(code.subrange(pos, code.len() as int) =~= Seq::<u8>::empty());
    } else {
        let instr = spec_instruction_at(code, pos);
        let n = instr.opcode.spec_push_value_size();
        let next = pos + 1 + n;
        let rest = spec_disasm_from(code, next);
        assert(s =~= seq![instr] + rest);
        assert(s[0] == instr);
        assert(s.drop_first() =~= rest);
        assert(is_defined_byte(code[s[0].offset as int]));
        crate::opcodes::lemma_byte_round_trip(code[pos]);
        if next >= code.len() {
            assert(rest =~= Seq::<InstructionView>::empty());
            assert(spec_reassemble(rest) =~= Seq::<u8>::empty());
            assert(spec_reassemble(s) =~= code.subrange(pos, code.len() as int));
        } else {
            assert forall|k: int| 0 <= k < rest.len() implies is_defined_byte(
                #[trigger] code[rest[k].offset as int],
            ) by {
                assert(rest[k] == s[k + 1]);
            }
            lemma_reassemble_from(code, next);
            assert(spec_reassemble(s) =~= code.subrange(pos, code.len() as int));
        }
    }
}

/// Returns parsed bytecode instructions
/// # Arguments
/// * `code` - A slice of bytes which represents contract bytecode
pub fn disasm(code: &[u8]) -> (bytecode: Bytecode<'_>)
    ensures
        instruction_views(bytecode@) == spec_disasm(code@),
        bytecode@.len() > 0 ==> bytecode@[0].offset == 0,
        forall|i: int, j: int|
            0 <= i < j < bytecode@.len() ==> bytecode@[i].offset < bytecode@[j].offset,
        forall|i: int, j: int|
            #![trigger bytecode@[i], bytecode@[j]]
            0 <= i && j == i + 1 && j < bytecode@.len() ==> bytecode@[j].offset
                == bytecode@[i].offset + 1 + bytecode@[i].opcode.spec_push_value_size(),
{
    let mut code_offset: usize = 0;

    let mut bytecode: Bytecode = Vec::new();

    while code_offset < code.len()
        invariant
            code_offset <= code@.len(),
            instruction_views(bytecode@) + spec_disasm_from(code@, code_offset as int) == spec_disasm(code@),
        decreases code@.len() - code_offset,
    {
        let ghost before = bytecode@;
        let opcode = Opcode::from_byte(code[code_offset]);

        let push_value_size = opcode.push_value_size();

        let start_i = code_offset + 1;
        // a push whose operand runs past the end of the code takes what is left
        let end_i = if push_value_size > code.len() - start_i {
            code.len()
        } else {
            start_i + push_value_size
        };

        let push_value = if opcode.is_value_push() {
            Some(&code[start_i..end_i])
        } else {
            None
        };

        let instr = Instruction { opcode, push_value, offset: code_offset };
        assert(instr@ == spec_instruction_at(code@, code_offset as int));
        bytecode.push(instr);
        assert(instruction_views(bytecode@) =~= instruction_views(before).push(instr@));

        let ghost next = code_offset + 1 + push_value_size;
        assert(spec_disasm_from(code@, code_offset as int) =~= seq![instr@] + spec_disasm_from(
            code@,
            next,
        ));
        // past a truncated operand the code is over, whatever the operand declared
        assert(spec_disasm_from(code@, end_i as int) == spec_disasm_from(code@, next));
        code_offset = end_i;
    }
    proof {
        assert(instruction_views(bytecode@) =~= spec_disasm(code@));
        lemma_disasm_from_offsets(code@, 0);
        assert forall|k: int| 0 <= k < bytecode@.len() implies #[trigger] bytecode@[k].offset
            == spec_disasm(code@)[k].offset by {
            assert(instruction_views(bytecode@)[k] == bytecode@[k]@);
        }
        assert forall|k: int| 0 <= k < bytecode@.len() implies #[trigger] bytecode@[k].opcode
            == spec_disasm(code@)[k].opcode by {
            assert(instruction_views(bytecode@)[k] == bytecode@[k]@);
        }
    }
    bytecode
}

/// The first instruction of any code is at offset zero, and offsets strictly increase.
pub proof fn lemma_offsets_increase(code: Seq<u8>)
    ensures
        spec_disasm(code).len() > 0 ==> spec_disasm(code)[0].offset == 0,
        forall|i: int, j: int|
            0 <= i < j < spec_disasm(code).len() ==> spec_disasm(code)[i].offset < spec_disasm(
                code,
            )[j].offset,
{
    lemma_disasm_from_offsets(code, 0);
}

/// On well-formed code, encoding the opcode of each instruction gives back the byte that it
/// was decoded from, and the opcode bytes with their operands make up the whole code, a
/// truncated last operand included.
pub proof fn lemma_encode_round_trip(code: Seq<u8>)
    requires
        is_well_formed(code),
    ensures
        forall|k: int|
            0 <= k < spec_disasm(code).len() ==> (#[trigger] spec_disasm(code)[k]).opcode.spec_byte()
                == code[spec_disasm(code)[k].offset as int],
        spec_reassemble(spec_disasm(code)) == code,
{
    let s = spec_disasm(code);
    lemma_disasm_from_offsets(code, 0);
    assert forall|k: int| 0 <= k < s.len() implies (#[trigger] s[k]).opcode.spec_byte()
        == code[s[k].offset as int] by {
        assert(is_defined_byte(code[s[k].offset as int]));
        crate::opcodes::lemma_byte_round_trip(code[s[k].offset as int]);
    }
    lemma_reassemble_from(code, 0);
    assert(code.subrange(0, code.len() as int) =~= code);
}

} // verus!
