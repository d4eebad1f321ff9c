use vstd::prelude::*;

verus! {

/// An account identity: the model keeps only what the protocol logic reads
/// from an on-chain address, namely whether two identities are the same.
#[derive(Clone, Copy, PartialEq, Eq, Structural, Debug)]
pub struct Address {
    pub id: u64,
}

impl Address {
    pub fn new(id: u64) -> (r: Address)
        ensures
            r.id == id,
    {
        Address { id }
    }
}

} // verus!
