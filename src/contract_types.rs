use crate::selectors::{contains_selector, selector_views, Selector};
use vstd::prelude::*;

verus! {

/// The functions that every ERC20 token has:
/// allowance(address,address), approve(address,uint256), balanceOf(address), totalSupply(),
/// transfer(address,uint256), transferFrom(address,address,uint256).
pub open spec fn spec_erc20_selectors() -> Seq<Seq<u8>> {
    seq![
        seq![0xddu8, 0x62u8, 0xedu8, 0x3eu8],
        seq![0x09u8, 0x5eu8, 0xa7u8, 0xb3u8],
        seq![0x70u8, 0xa0u8, 0x82u8, 0x31u8],
        seq![0x18u8, 0x16u8, 0x0du8, 0xddu8],
        seq![0xa9u8, 0x05u8, 0x9cu8, 0xbbu8],
        seq![0x23u8, 0xb8u8, 0x72u8, 0xddu8],
    ]
}

/// The functions that every ERC721 token has:
/// balanceOf(address), ownerOf(uint256), safeTransferFrom(address,address,uint256,bytes),
/// safeTransferFrom(address,address,uint256), transferFrom(address,address,uint256),
/// approve(address,uint256), setApprovalForAll(address,bool), getApproved(uint256),
/// isApprovedForAll(address,address).
pub open spec fn spec_erc721_selectors() -> Seq<Seq<u8>> {
    seq![
        seq![0x70u8, 0xa0u8, 0x82u8, 0x31u8],
        seq![0x63u8, 0x52u8, 0x21u8, 0x1eu8],
        seq![0xb8u8, 0x8du8, 0x4fu8, 0xdeu8],
        seq![0x42u8, 0x84u8, 0x2eu8, 0x0eu8],
        seq![0x23u8, 0xb8u8, 0x72u8, 0xddu8],
        seq![0x09u8, 0x5eu8, 0xa7u8, 0xb3u8],
        seq![0xa2u8, 0x2cu8, 0xb4u8, 0x65u8],
        seq![0x08u8, 0x18u8, 0x12u8, 0xfcu8],
        seq![0xe9u8, 0x85u8, 0xe9u8, 0xc5u8],
    ]
}

/// Every one of the required selectors is in the set.
pub open spec fn covers(selectors: Seq<Seq<u8>>, required: Seq<Seq<u8>>) -> bool {
    forall|i: int| 0 <= i < required.len() ==> selectors.contains(#[trigger] required[i])
}

/// The first interface, ERC20 before ERC721, whose required selectors are all in the set.
pub open spec fn spec_classify(selectors: Seq<Seq<u8>>) -> ContractType {
    if covers(selectors, spec_erc20_selectors()) {
        ContractType::ERC20
    } else if covers(selectors, spec_erc721_selectors()) {
        ContractType::ERC721
    } else {
        ContractType::ANY
    }
}

/// Available contract types to detect based on ERC interfaces.
/// Types will be added as needed (You are welcome to make a PR).
#[derive(Debug, Clone, Copy, PartialEq, Eq, Structural, PartialOrd, Ord)]
pub enum ContractType {
    /// ERC20 - Typical token contract
    ERC20,
    /// ERC721 - Typical NFT contract
    ERC721,
    /// Any other contract
    ANY,
}

fn erc20_default_funcs() -> (r: Vec<Selector>)
    ensures
        selector_views(r@) == spec_erc20_selectors(),
{
    let r: Vec<Selector> = vec![
        [0xdd, 0x62, 0xed, 0x3e],
        [0x09, 0x5e, 0xa7, 0xb3],
        [0x70, 0xa0, 0x82, 0x31],
        [0x18, 0x16, 0x0d, 0xdd],
        [0xa9, 0x05, 0x9c, 0xbb],
        [0x23, 0xb8, 0x72, 0xdd],
    ];
    assert(selector_views(r@) =~= spec_erc20_selectors());
    r
}

fn erc721_default_funcs() -> (r: Vec<Selector>)
    ensures
        selector_views(r@) == spec_erc721_selectors(),
{
    let r: Vec<Selector> = vec![
        [0x70, 0xa0, 0x82, 0x31],
        [0x63, 0x52, 0x21, 0x1e],
        [0xb8, 0x8d, 0x4f, 0xde],
        [0x42, 0x84, 0x2e, 0x0e],
        [0x23, 0xb8, 0x72, 0xdd],
        [0x09, 0x5e, 0xa7, 0xb3],
        [0xa2, 0x2c, 0xb4, 0x65],
        [0x08, 0x18, 0x12, 0xfc],
        [0xe9, 0x85, 0xe9, 0xc5],
    ];
    assert(selector_views(r@) =~= spec_erc721_selectors());
    r
}

impl ContractType {
    /// The first interface whose required selectors are all among `selectors`, or `ANY`.
    pub fn from_selectors(selectors: &Vec<Selector>) -> (r: Self)
        ensures
            r == spec_classify(selector_views(selectors@)),
    {
        if has_all_selectors(&erc20_default_funcs(), selectors) {
            Self::ERC20
        } else if has_all_selectors(&erc721_default_funcs(), selectors) {
            Self::ERC721
        } else {
            Self::ANY
        }
    }
}

/// Detects Contract Type (ERC20, ERC721, or ANY) using selectors extracted from bytecode
/// # Arguments
/// * `selectors` - A reference to vector of raw selectors
pub fn contract_type_from_selectors(selectors: &Vec<Selector>) -> (r: ContractType)
    ensures
        r == spec_classify(selector_views(selectors@)),
{
    ContractType::from_selectors(selectors)
}

fn has_all_selectors(erc_defaults: &Vec<Selector>, selectors: &Vec<Selector>) -> (r: bool)
    ensures
        r == covers(selector_views(selectors@), selector_views(erc_defaults@)),
{
    let mut i: usize = 0;
    while i < erc_defaults.len()
        invariant
            i <= erc_defaults@.len(),
            forall|k: int|
                0 <= k < i ==> selector_views(selectors@).contains(
                    #[trigger] selector_views(erc_defaults@)[k],
                ),
        decreases erc_defaults@.len() - i,
    {
        if !contains_selector(selectors, &erc_defaults[i]) {
            assert(selector_views(erc_defaults@)[i as int] == erc_defaults@[i as int]@);
            return false;
        }
        assert(selector_views(erc_defaults@)[i as int] == erc_defaults@[i as int]@);
        i = i + 1;
    }
    true
}

/// A set that holds every ERC20 function is an ERC20 token, whatever else it holds.
pub proof fn lemma_erc20_with_extras(selectors: Seq<Seq<u8>>, extra: Seq<Seq<u8>>)
    requires
        covers(selectors, spec_erc20_selectors()),
    ensures
        spec_classify(selectors + extra) == ContractType::ERC20,
{
    let all = selectors + extra;
    assert forall|i: int| 0 <= i < spec_erc20_selectors().len() implies all.contains(
        #[trigger] spec_erc20_selectors()[i],
    ) by {
        let x = spec_erc20_selectors()[i];
        let k = choose|k: int| 0 <= k < selectors.len() && selectors[k] == x;
        assert(all[k] == x);
    }
}

/// Taking one ERC20 function out of a set leaves no ERC20 token: unless the rest holds every
/// ERC721 function, the set is classified `ANY`.
pub proof fn lemma_erc20_missing_one(selectors: Seq<Seq<u8>>, k: int)
    requires
        0 <= k < spec_erc20_selectors().len(),
        !covers(
            selectors.filter(|x: Seq<u8>| x != spec_erc20_selectors()[k]),
            spec_erc721_selectors(),
        ),
    ensures
        spec_classify(selectors.filter(|x: Seq<u8>| x != spec_erc20_selectors()[k]))
            == ContractType::ANY,
{
    let missing = spec_erc20_selectors()[k];
    let pred = |x: Seq<u8>| x != spec_erc20_selectors()[k];
    let rest = selectors.filter(pred);
    selectors.filter_lemma(pred);
    if rest.contains(missing) {
        let j = choose|j: int| 0 <= j < rest.len() && rest[j] == missing;
        assert(pred(rest[j]));
    }
    assert(!covers(rest, spec_erc20_selectors()));
}

} // verus!
