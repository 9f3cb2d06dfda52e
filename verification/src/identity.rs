use vstd::prelude::*;

verus! {

/// An account or caller identity: stands in for a ledger public key.
#[derive(Clone, Copy, PartialEq, Eq, Structural, Debug)]
pub struct Identity {
    pub key: u64,
}

/// Capability check shared by the handlers: does the claimed identity match
/// the required one?
pub fn is_authorized(claimed: Identity, required: Identity) -> (b: bool)
    ensures
        b == (claimed == required),
{
    claimed.key == required.key
}

} // verus!
