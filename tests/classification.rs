use evm_hound::{contract_type_from_selectors, selectors_from_bytecode, ContractType, Selector};

const ERC20: [Selector; 6] = [
    [0xdd, 0x62, 0xed, 0x3e],
    [0x09, 0x5e, 0xa7, 0xb3],
    [0x70, 0xa0, 0x82, 0x31],
    [0x18, 0x16, 0x0d, 0xdd],
    [0xa9, 0x05, 0x9c, 0xbb],
    [0x23, 0xb8, 0x72, 0xdd],
];

const ERC721: [Selector; 9] = [
    [0x70, 0xa0, 0x82, 0x31],
    [0x63, 0x52, 0x21, 0x1e],
    [0xb8, 0x8d, 0x4f, 0xde],
    [0x42, 0x84, 0x2e, 0x0e],
    [0x23, 0xb8, 0x72, 0xdd],
    [0x09, 0x5e, 0xa7, 0xb3],
    [0xa2, 0x2c, 0xb4, 0x65],
    [0x08, 0x18, 0x12, 0xfc],
    [0xe9, 0x85, 0xe9, 0xc5],
];

#[test]
fn token_with_extra_selectors_is_erc20() {
    let mut set: Vec<Selector> = vec![[0x06, 0xfd, 0xde, 0x03], [0x31, 0x3c, 0xe5, 0x67]];
    set.extend_from_slice(&ERC20);
    set.push([0x95, 0xd8, 0x9b, 0x41]);
    assert_eq!(contract_type_from_selectors(&set), ContractType::ERC20);
    assert_eq!(ContractType::from_selectors(&set), ContractType::ERC20);
}

#[test]
fn token_missing_one_selector_is_any() {
    for skip in 0..ERC20.len() {
        let set: Vec<Selector> = ERC20
            .iter()
            .enumerate()
            .filter(|(i, _)| *i != skip)
            .map(|(_, s)| *s)
            .chain([[0x06, 0xfd, 0xde, 0x03]])
            .collect();
        assert_eq!(contract_type_from_selectors(&set), ContractType::ANY);
    }
}

#[test]
fn nft_interface_is_erc721() {
    let set: Vec<Selector> = ERC721.to_vec();
    assert_eq!(contract_type_from_selectors(&set), ContractType::ERC721);
}

#[test]
fn token_takes_priority_over_nft() {
    let mut set: Vec<Selector> = ERC721.to_vec();
    set.extend_from_slice(&ERC20);
    assert_eq!(contract_type_from_selectors(&set), ContractType::ERC20);
}

#[test]
fn empty_set_is_any() {
    assert_eq!(contract_type_from_selectors(&Vec::new()), ContractType::ANY);
    let none = selectors_from_bytecode(&[]);
    assert_eq!(contract_type_from_selectors(&none), ContractType::ANY);
}

#[test]
fn token_from_bytecode() {
    let mut hex = String::new();
    for s in ERC20 {
        hex.push_str(&format!("8063{:02x}{:02x}{:02x}{:02x}1461001057", s[0], s[1], s[2], s[3]));
    }
    let bytes = evm_hound::hex_to_bytes(&hex).unwrap();
    let selectors = selectors_from_bytecode(&bytes);
    assert_eq!(selectors, ERC20.to_vec());
    assert_eq!(contract_type_from_selectors(&selectors), ContractType::ERC20);
}
