use vstd::prelude::*;

verus! {

/// An account and its starting free balance.
pub type AccountBalance = ([u8; 32], u128);

/// The state a test starts from: the endowed accounts, the XCM version assumed
/// safe for destinations of unknown version, and the current block.
pub struct TestGenesis {
    pub balances: Vec<AccountBalance>,
    pub safe_xcm_version: Option<u32>,
    pub block_number: u64,
}

/// The XCM version assumed safe in tests.
pub open spec fn spec_safe_xcm_version() -> u32 {
    2
}

/// The least balance an account may hold.
pub open spec fn spec_existential_deposit() -> u128 {
    1
}

/// Whether `balances` can endow a genesis: every amount at least the
/// existential deposit, and no account endowed twice.
pub open spec fn valid_endowments(balances: Seq<AccountBalance>) -> bool {
    &&& forall|i: int| 0 <= i < balances.len() ==> #[trigger] balances[i].1 >= spec_existential_deposit()
    &&& forall|i: int, j: int|
        0 <= i < j < balances.len() ==> #[trigger] balances[i].0 != #[trigger] balances[j].0
}

/// The starting state of a test: `balances` endowed, XCM version 2 assumed
/// safe, and block 1 the current block. Endowments must each reach the
/// existential deposit and name distinct accounts.
pub fn new_test_ext_with_balances(balances: Vec<AccountBalance>) -> (r: TestGenesis)
    requires
        valid_endowments(balances@),
    ensures
        r.balances@ == balances@,
        r.safe_xcm_version == Some(spec_safe_xcm_version()),
        r.block_number == 1,
{
    TestGenesis { balances, safe_xcm_version: Some(2), block_number: 1 }
}

} // verus!
