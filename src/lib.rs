//! ## EVM Hound
//! Recovers the function selectors of a deployed EVM contract from its bytecode, without
//! its source: the code is disassembled, the dispatcher idioms that compilers emit are
//! matched, and the resulting selector set can be classified against known interfaces.
mod contract_types;
mod disasm;
mod opcodes;
mod selectors;
mod utils;

pub use contract_types::{
    contract_type_from_selectors, covers, lemma_erc20_missing_one, lemma_erc20_with_extras,
    spec_classify, spec_erc20_selectors, spec_erc721_selectors, ContractType,
};
pub use disasm::{
    disasm, instruction_views, is_well_formed, lemma_encode_round_trip, lemma_offsets_increase,
    spec_disasm, spec_disasm_from, spec_instruction_at, spec_reassemble,
};
pub use opcodes::{
    is_defined_byte, lemma_byte_round_trip, lemma_opcode_round_trip, Bytecode, Instruction,
    InstructionView, Opcode,
};
pub use selectors::{
    lemma_dedup, lemma_dedup_unique, lemma_disasm_operands_fit, lemma_extraction_repeatable,
    operands_fit, selector_views, selectors_from_bytecode, spec_dedup, spec_is_push4_or_le,
    spec_matches, spec_pad_selector, spec_selector_text, spec_selectors, spec_selectors_of,
    spec_window_selector, string_selectors_from_bytecode, Selector,
};
pub use utils::{bytes_to_hex, hex_to_bytes, spec_hex, HexError};
