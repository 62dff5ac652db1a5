use crate::disasm::{
    disasm, instruction_views, lemma_disasm_from_offsets, spec_disasm, spec_instruction_at,
};
use crate::opcodes::{Instruction, InstructionView, Opcode};
use crate::utils::{bytes_to_hex, spec_hex};
use vstd::prelude::*;
use vstd::string::StringExecFns;

verus! {

/// Selector alias as 4 raw bytes (bytes4 in Solidity)
pub type Selector = [u8; 4];

/// The views of a sequence of selectors.
pub open spec fn selector_views(s: Seq<Selector>) -> Seq<Seq<u8>> {
    s.map_values(|x: Selector| x@)
}

/// A push that carries a literal of one to four bytes, as compilers emit for a selector.
pub open spec fn spec_is_push4_or_le(op: Opcode) -> bool {
    op.spec_is_value_push() && op.spec_push_value_size() <= 4
}

/// A literal of at most four bytes as a selector: zeros in front up to four bytes.
pub open spec fn spec_pad_selector(v: Seq<u8>) -> Seq<u8> {
    Seq::new((4 - v.len()) as nat, |i: int| 0u8) + v
}

/// Every push with a literal holds an operand, no longer than its opcode declares, and no
/// other instruction holds one.
pub open spec fn operands_fit(instrs: Seq<InstructionView>) -> bool {
    forall|k: int|
        0 <= k < instrs.len() ==> {
            let instr = #[trigger] instrs[k];
            &&& instr.push_value is Some <==> instr.opcode.spec_is_value_push()
            &&& instr.operand().len() <= instr.opcode.spec_push_value_size()
        }
}

/// `DUP1 PUSH<n≤4> <selector> EQ PUSH <target> JUMPI`: the dispatch that solc emits.
pub open spec fn is_solc_dispatch(w: Seq<InstructionView>) -> bool {
    &&& w[0].opcode == Opcode::Dup1
    &&& spec_is_push4_or_le(w[1].opcode)
    &&& w[2].opcode == Opcode::Eq
    &&& w[3].opcode.spec_is_value_push()
    &&& w[4].opcode == Opcode::Jumpi
}

/// `PUSH<n≤4> <selector> DUP2 XOR PUSH <target> JUMPI`: a dispatch that Vyper emits.
pub open spec fn is_vyper_xor_dispatch(w: Seq<InstructionView>) -> bool {
    &&& spec_is_push4_or_le(w[0].opcode)
    &&& w[1].opcode == Opcode::Dup2
    &&& w[2].opcode == Opcode::Xor
    &&& w[3].opcode.spec_is_value_push()
    &&& w[4].opcode == Opcode::Jumpi
}

/// `PUSH<n≤4> <selector> PUSH1 00 MLOAD EQ ISZERO`: the dispatch of old Vyper versions, which
/// read the call data through memory.
pub open spec fn is_vyper_mload_dispatch(w: Seq<InstructionView>) -> bool {
    &&& spec_is_push4_or_le(w[0].opcode)
    &&& w[1].opcode == Opcode::Push1
    &&& w[1].push_value == Some(seq![0u8])
    &&& w[2].opcode == Opcode::Mload
    &&& w[3].opcode == Opcode::Eq
    &&& w[4].opcode == Opcode::Iszero
}

/// The selector that a window of five instructions dispatches on, by the first idiom that
/// fits it, if any does.
pub open spec fn spec_window_selector(w: Seq<InstructionView>) -> Option<Seq<u8>> {
    if is_solc_dispatch(w) {
        Some(spec_pad_selector(w[1].operand()))
    } else if is_vyper_xor_dispatch(w) {
        Some(spec_pad_selector(w[0].operand()))
    } else if is_vyper_mload_dispatch(w) {
        Some(spec_pad_selector(w[0].operand()))
    } else {
        None
    }
}

/// The selectors matched by the windows that end before instruction `n`, in the order of the
/// code, repeats included.
pub open spec fn spec_matches(instrs: Seq<InstructionView>, n: int) -> Seq<Seq<u8>>
    decreases n,
{
    if n <= 4 || n > instrs.len() {
        Seq::empty()
    } else {
        let prev = spec_matches(instrs, n - 1);
        match spec_window_selector(instrs.subrange(n - 5, n)) {
            Some(s) => prev.push(s),
            None => prev,
        }
    }
}

/// Each value once, where it first occurs.
pub open spec fn spec_dedup(s: Seq<Seq<u8>>) -> Seq<Seq<u8>>
    decreases s.len(),
{
    if s.len() == 0 {
        Seq::empty()
    } else {
        let d = spec_dedup(s.drop_last());
        if d.contains(s.last()) {
            d
        } else {
            d.push(s.last())
        }
    }
}

/// The selector set of an instruction sequence.
pub open spec fn spec_selectors_of(instrs: Seq<InstructionView>) -> Seq<Seq<u8>> {
    spec_dedup(spec_matches(instrs, instrs.len() as int))
}

/// The selector set of a code.
pub open spec fn spec_selectors(code: Seq<u8>) -> Seq<Seq<u8>> {
    spec_selectors_of(spec_disasm(code))
}

/// `0x` and eight lowercase hexadecimal digits.
pub open spec fn spec_selector_text(s: Seq<u8>) -> Seq<char> {
    "0x"@ + spec_hex(s)
}

/// What is removed is a value already kept; what is kept has no repeats and holds exactly
/// the values of the input.
pub proof fn lemma_dedup(s: Seq<Seq<u8>>)
    ensures
        spec_dedup(s).no_duplicates(),
        forall|x: Seq<u8>| spec_dedup(s).contains(x) <==> s.contains(x),
    decreases s.len(),
{
    if s.len() > 0 {
        let init = s.drop_last();
        let last = s.last();
        let d = spec_dedup(init);
        lemma_dedup(init);
        assert forall|x: Seq<u8>| s.contains(x) <==> (init.contains(x) || x == last) by {
            if s.contains(x) && x != last {
                let k = choose|k: int| 0 <= k < s.len() && s[k] == x;
                assert(init[k] == x);
            }
            if init.contains(x) {
                let k = choose|k: int| 0 <= k < init.len() && init[k] == x;
                assert(s[k] == x);
            }
            if x == last {
                assert(s[s.len() - 1] == x);
            }
        }
        if !d.contains(last) {
            let p = d.push(last);
            assert forall|x: Seq<u8>| p.contains(x) <==> (d.contains(x) || x == last) by {
                if p.contains(x) && x != last {
                    let k = choose|k: int| 0 <= k < p.len() && p[k] == x;
                    assert(d[k] == x);
                }
                if d.contains(x) {
                    let k = choose|k: int| 0 <= k < d.len() && d[k] == x;
                    assert(p[k] == x);
                }
                if x == last {
                    assert(p[p.len() - 1] == x);
                }
            }
            assert forall|i: int, j: int| 0 <= i < p.len() && 0 <= j < p.len() && i != j implies p[i]
                != p[j] by {
                if i == p.len() - 1 {
                    assert(d[j] == p[j]);
                } else if j == p.len() - 1 {
                    assert(d[i] == p[i]);
                }
            }
        }
    }
}

/// A sequence without repeats is its own deduplication.
pub proof fn lemma_dedup_unique(s: Seq<Seq<u8>>)
    requires
        s.no_duplicates(),
    ensures
        spec_dedup(s) == s,
    decreases s.len(),
{
    if s.len() > 0 {
        let init = s.drop_last();
        assert(init.no_duplicates()) by {
            assert forall|i: int, j: int|
                0 <= i < init.len() && 0 <= j < init.len() && i != j implies init[i] != init[j] by {
                assert(init[i] == s[i] && init[j] == s[j]);
            }
        }
        lemma_dedup_unique(init);
        if init.contains(s.last()) {
            let k = choose|k: int| 0 <= k < init.len() && init[k] == s.last();
            assert(s[k] == s[s.len() - 1]);
        }
        assert(init.push(s.last()) =~= s);
    }
}

/// Recovery over the same code repeats itself: two disassemblies of it are equal, two
/// selector sets recovered from it are equal, and recovering the set once more from its
/// own values changes nothing.
pub proof fn lemma_extraction_repeatable<'a, 'b>(
    code: Seq<u8>,
    first: Seq<Instruction<'a>>,
    second: Seq<Instruction<'b>>,
    first_set: Seq<Selector>,
    second_set: Seq<Selector>,
)
    requires
        instruction_views(first) == spec_disasm(code),
        instruction_views(second) == spec_disasm(code),
        selector_views(first_set) == spec_selectors(code),
        selector_views(second_set) == spec_selectors(code),
    ensures
        instruction_views(first) == instruction_views(second),
        selector_views(first_set) == selector_views(second_set),
        spec_dedup(selector_views(first_set)) == selector_views(first_set),
{
    lemma_dedup(spec_matches(spec_disasm(code), spec_disasm(code).len() as int));
    lemma_dedup_unique(spec_selectors(code));
}

/// The instructions of any code satisfy `operands_fit`.
pub proof fn lemma_disasm_operands_fit(code: Seq<u8>)
    ensures
        operands_fit(spec_disasm(code)),
{
    let s = spec_disasm(code);
    lemma_disasm_from_offsets(code, 0);
    assert forall|k: int| 0 <= k < s.len() implies {
        let instr = #[trigger] s[k];
        &&& instr.push_value is Some <==> instr.opcode.spec_is_value_push()
        &&& instr.operand().len() <= instr.opcode.spec_push_value_size()
    } by {
        assert(s[k] == spec_instruction_at(code, s[k].offset as int));
    }
}

/// Whether two selectors hold the same bytes.
fn same_selector(a: &Selector, b: &Selector) -> (r: bool)
    ensures
        r == (a@ == b@),
{
    let r = a[0] == b[0] && a[1] == b[1] && a[2] == b[2] && a[3] == b[3];
    proof {
        if r {
            assert(a@ =~= b@);
        } else if a@ == b@ {
            assert(a@[0] == b@[0] && a@[1] == b@[1] && a@[2] == b@[2] && a@[3] == b@[3]);
        }
    }
    r
}

/// Whether a list of selectors holds one with the same bytes as `s`.
pub(crate) fn contains_selector(list: &Vec<Selector>, s: &Selector) -> (r: bool)
    ensures
        r == selector_views(list@).contains(s@),
{
    let mut i: usize = 0;
    while i < list.len()
        invariant
            i <= list@.len(),
            forall|k: int| 0 <= k < i ==> list@[k]@ != s@,
        decreases list@.len() - i,
    {
        if same_selector(&list[i], s) {
            assert(selector_views(list@)[i as int] == s@);
            return true;
        }
        i = i + 1;
    }
    proof {
        if selector_views(list@).contains(s@) {
            let k = choose|k: int|
                0 <= k < selector_views(list@).len() && selector_views(list@)[k] == s@;
            assert(list@[k]@ == s@);
        }
    }
    false
}

/// Slice to Selector type converter + Handle leading zeroes case
fn slice_to_selector(push_value: &[u8]) -> (selector: Selector)
    requires
        push_value@.len() <= 4,
    ensures
        selector@ == spec_pad_selector(push_value@),
{
    // If optimized version of selector less than 4 bytes we need to add leading zeroes
    let mut selector = [0u8; 4];
    let start = 4 - push_value.len();

    let mut i: usize = start;
    while i < 4
        invariant
            start == 4 - push_value@.len(),
            start <= i <= 4,
            selector@.len() == 4,
            forall|k: int| 0 <= k < start ==> selector@[k] == 0,
            forall|k: int| start <= k < i ==> selector@[k] == push_value@[k - start],
        decreases 4 - i,
    {
        selector[i] = push_value[i - start];
        i = i + 1;
    }
    assert(selector@ =~= spec_pad_selector(push_value@));
    selector
}

/// The operand of a push of at most four bytes, as a selector.
fn operand_selector(instr: &Instruction) -> (selector: Selector)
    requires
        instr@.push_value is Some,
        instr@.operand().len() <= 4,
    ensures
        selector@ == spec_pad_selector(instr@.operand()),
{
    match instr.push_value {
        Some(v) => slice_to_selector(v),
        None => [0u8; 4],
    }
}

/// The selector that the five instructions of `five_seq` dispatch on, if one of the known
/// idioms fits them.
fn window_selector(five_seq: &[Instruction]) -> (r: Option<Selector>)
    requires
        five_seq@.len() == 5,
        operands_fit(instruction_views(five_seq@)),
    ensures
        r matches Some(s) ==> spec_window_selector(instruction_views(five_seq@)) == Some(s@),
        r is None ==> spec_window_selector(instruction_views(five_seq@)) is None,
{
    let ghost w = instruction_views(five_seq@);
    assert(forall|k: int| 0 <= k < 5 ==> #[trigger] w[k] == five_seq@[k]@);
    //  MAIN SOLC PATTERN
    //  DUP1 PUSHN <SELECTOR> EQ PUSH2/3 <OFFSET> JUMPI
    //  https://github.com/ethereum/solidity/blob/58811f134ac369b20c2ec1120907321edf08fff1/libsolidity/codegen/ContractCompiler.cpp#L332
    if five_seq[0].opcode == Opcode::Dup1 && five_seq[1].opcode.is_push4_or_le()
        && five_seq[2].opcode == Opcode::Eq && five_seq[3].opcode.is_value_push()
        && five_seq[4].opcode == Opcode::Jumpi {
        return Some(operand_selector(&five_seq[1]));
    }
    // VYPER with XOR
    // PUSHN <SELECTOR> DUP2 XOR PUSH2 <OFFSET> JUMPI
    if five_seq[0].opcode.is_push4_or_le() && five_seq[1].opcode == Opcode::Dup2
        && five_seq[2].opcode == Opcode::Xor && five_seq[3].opcode.is_value_push()
        && five_seq[4].opcode == Opcode::Jumpi {
        return Some(operand_selector(&five_seq[0]));
    }
    // VYPER with MLOAD [old versions]
    // PUSHN <SELECTOR> PUSH1 00 MLOAD EQ ISZERO JUMPI
    let zero_push = match five_seq[1].push_value {
        Some(z) => z.len() == 1 && z[0] == 0,
        None => false,
    };
    assert(zero_push == (w[1].push_value == Some(seq![0u8]))) by {
        if let Some(z) = five_seq[1].push_value {
            if z@.len() == 1 && z@[0] == 0 {
                assert(z@ =~= seq![0u8]);
            }
        }
    }
    if five_seq[0].opcode.is_push4_or_le() && five_seq[1].opcode == Opcode::Push1 && zero_push
        && five_seq[2].opcode == Opcode::Mload && five_seq[3].opcode == Opcode::Eq
        && five_seq[4].opcode == Opcode::Iszero {
        return Some(operand_selector(&five_seq[0]));
    }
    None
}

/// The selectors of a decoded instruction sequence: each window of five consecutive
/// instructions is checked against the known dispatch idioms, and each selector found is
/// kept once, in the order in which it is first found.
fn selectors_from_instructions(bytecode: &[Instruction]) -> (selectors: Vec<Selector>)
    requires
        operands_fit(instruction_views(bytecode@)),
    ensures
        selector_views(selectors@) == spec_selectors_of(instruction_views(bytecode@)),
{
    let ghost instrs = instruction_views(bytecode@);
    let mut selectors: Vec<Selector> = Vec::new();

    let mut i: usize = 4;

    while i < bytecode.len()
        invariant
            instrs == instruction_views(bytecode@),
            operands_fit(instrs),
            4 <= i,
            i <= bytecode@.len() || bytecode@.len() < 4,
            selector_views(selectors@) == spec_dedup(spec_matches(instrs, i as int)),
        decreases bytecode@.len() - i,
    {
        let five_seq = &bytecode[i - 4..i + 1];
        assert(instruction_views(five_seq@) =~= instrs.subrange(i - 4, i + 1));
        assert(operands_fit(instruction_views(five_seq@))) by {
            assert forall|k: int| 0 <= k < 5 implies #[trigger] instruction_views(five_seq@)[k] == instrs[i
                - 4 + k] by {}
        }
        let ghost prev = selectors@;
        let ghost matched = spec_matches(instrs, i as int);
        assert(instrs.subrange(i + 1 - 5, i + 1) == instruction_views(five_seq@));
        match window_selector(five_seq) {
            Some(value) => {
                assert(spec_matches(instrs, i + 1) == matched.push(value@));
                assert(matched.push(value@).drop_last() =~= matched);
                if !contains_selector(&selectors, &value) {
                    selectors.push(value);
                    assert(selector_views(selectors@) =~= selector_views(prev).push(value@));
                }
            },
            None => {
                assert(spec_matches(instrs, i + 1) == matched);
            },
        }
        i = i + 1;
    }
    proof {
        if bytecode@.len() >= 4 {
            assert(i == bytecode@.len());
        } else {
            assert(spec_matches(instrs, instrs.len() as int) =~= Seq::<Seq<u8>>::empty());
            assert(spec_matches(instrs, i as int) =~= Seq::<Seq<u8>>::empty());
        }
    }
    selectors
}

/// Returns all potential function selectors from the contract deployed bytecode as `[u8; 4]`,
/// each once, in the order in which they are first found.
/// # Arguments
/// * `code` - A slice of bytes which represents contract bytecode
pub fn selectors_from_bytecode(code: &[u8]) -> (selectors: Vec<Selector>)
    ensures
        selector_views(selectors@) == spec_selectors(code@),
        selector_views(selectors@).no_duplicates(),
{
    let bytecode = disasm(code);
    proof {
        lemma_disasm_operands_fit(code@);
        lemma_dedup(spec_matches(spec_disasm(code@), spec_disasm(code@).len() as int));
    }
    selectors_from_instructions(bytecode.as_slice())
}

/// Returns all potential function selectors from the contract deployed bytecode as hex `0xa9059cbb` String
/// # Arguments
/// * `code` - A slice of bytes which represents contract bytecode
pub fn string_selectors_from_bytecode(code: &[u8]) -> (strings: Vec<String>)
    ensures
        strings@.len() == spec_selectors(code@).len(),
        forall|k: int|
            0 <= k < strings@.len() ==> #[trigger] strings@[k]@ == spec_selector_text(
                spec_selectors(code@)[k],
            ),
{
    let selectors = selectors_from_bytecode(code);
    let mut strings: Vec<String> = Vec::new();
    let mut i: usize = 0;
    while i < selectors.len()
        invariant
            i <= selectors@.len(),
            selector_views(selectors@) == spec_selectors(code@),
            strings@.len() == i,
            forall|k: int|
                0 <= k < i ==> #[trigger] strings@[k]@ == spec_selector_text(
                    spec_selectors(code@)[k],
                ),
        decreases selectors@.len() - i,
    {
        let mut text = String::from_str("0x");
        text.append(bytes_to_hex(selectors[i].as_slice()).as_str());
        assert(selector_views(selectors@)[i as int] == selectors@[i as int]@);
        strings.push(text);
        i = i + 1;
    }
    strings
}

} // verus!
