use vstd::prelude::*;

verus! {

/// A stand-in for the value-transfer collaborator: a token that accepts
/// every transfer unconditionally. The escrow core never depends on how a
/// token settles a transfer — only on the `FundTransfer` it emits — so this
/// token lets the surrounding code and the tests drive a full funding flow
/// without a real ledger.
pub struct MockToken;

impl MockToken {
    /// Accept a transfer of `amount` from `from` to `to` and do nothing:
    /// this token keeps no balances and never refuses.
    pub fn transfer(from: u64, to: u64, amount: i128) {
    }
}

} // verus!
