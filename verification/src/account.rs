use vstd::prelude::*;

verus! {

/// An identity on the ledger: a user, an escrow account, an asset (mint),
/// or a token account. The ledger addresses all of them uniformly.
#[derive(Clone, Copy, PartialEq, Eq, Structural, Debug)]
pub struct AccountId {
    pub id: u64,
}

impl AccountId {
    pub fn new(id: u64) -> (a: AccountId)
        ensures
            a.id == id,
    {
        AccountId { id }
    }
}

} // verus!
