use evm_hound::{hex_to_bytes, selectors_from_bytecode, string_selectors_from_bytecode};

fn code(hex: &str) -> Vec<u8> {
    hex_to_bytes(hex).unwrap()
}

#[test]
fn solc_dispatch_with_four_byte_selector() {
    // DUP1 PUSH4 a9059cbb EQ PUSH2 0010 JUMPI
    let bytes = code("0x8063a9059cbb1461001057");
    assert_eq!(selectors_from_bytecode(&bytes), vec![[0xa9, 0x05, 0x9c, 0xbb]]);
}

#[test]
fn vyper_xor_dispatch_with_short_selector() {
    // PUSH2 9cbb DUP2 XOR PUSH2 0020 JUMPI
    let bytes = code("0x619cbb811861002057");
    assert_eq!(selectors_from_bytecode(&bytes), vec![[0x00, 0x00, 0x9c, 0xbb]]);
}

#[test]
fn solc_dispatch_with_shortened_selector() {
    // DUP1 PUSH3 059cbb EQ PUSH2 0010 JUMPI
    let bytes = code("0x8062059cbb1461001057");
    assert_eq!(selectors_from_bytecode(&bytes), vec![[0x00, 0x05, 0x9c, 0xbb]]);
}

#[test]
fn vyper_mload_dispatch() {
    // PUSH4 70a08231 PUSH1 00 MLOAD EQ ISZERO
    let bytes = code("0x6370a08231600051141515");
    assert_eq!(selectors_from_bytecode(&bytes), vec![[0x70, 0xa0, 0x82, 0x31]]);
}

#[test]
fn mload_dispatch_needs_zero_offset() {
    // PUSH4 70a08231 PUSH1 20 MLOAD EQ ISZERO
    let bytes = code("0x6370a08231602051141515");
    assert!(selectors_from_bytecode(&bytes).is_empty());
}

#[test]
fn long_push_is_no_selector() {
    // DUP1 PUSH5 00a9059cbb EQ PUSH2 0010 JUMPI
    let bytes = code("0x806400a9059cbb1461001057");
    assert!(selectors_from_bytecode(&bytes).is_empty());
}

#[test]
fn repeated_selector_is_kept_once() {
    let one = "8063a9059cbb1461001057";
    let bytes = code(&format!("0x{one}{one}619cbb811861002057{one}"));
    assert_eq!(
        selectors_from_bytecode(&bytes),
        vec![[0xa9, 0x05, 0x9c, 0xbb], [0x00, 0x00, 0x9c, 0xbb]]
    );
}

#[test]
fn selectors_keep_order_of_discovery() {
    // two solc comparisons back to back, the second after the first's JUMPI
    let bytes = code("0x8063dd62ed3e14610010578063095ea7b31461002057");
    assert_eq!(
        selectors_from_bytecode(&bytes),
        vec![[0xdd, 0x62, 0xed, 0x3e], [0x09, 0x5e, 0xa7, 0xb3]]
    );
}

#[test]
fn empty_and_short_code_have_no_selectors() {
    assert!(selectors_from_bytecode(&[]).is_empty());
    assert!(selectors_from_bytecode(&[0x80, 0x63, 0xa9, 0x05]).is_empty());
    // a single truncated push
    assert!(selectors_from_bytecode(&[0x63]).is_empty());
}

#[test]
fn extraction_is_repeatable() {
    let bytes = code("0x8063dd62ed3e1461001057619cbb811861002057");
    let first = selectors_from_bytecode(&bytes);
    let second = selectors_from_bytecode(&bytes);
    assert_eq!(first, second);
    assert_eq!(first.len(), 2);
}

#[test]
fn selectors_as_hex_strings() {
    let bytes = code("0x8063a9059cbb1461001057619cbb811861002057");
    assert_eq!(
        string_selectors_from_bytecode(&bytes),
        vec!["0xa9059cbb".to_string(), "0x00009cbb".to_string()]
    );
    assert!(string_selectors_from_bytecode(&[]).is_empty());
}
