//! Identities of the parties to an escrow.

use vstd::prelude::*;

verus! {

/// An opaque reference to a party: an account or a contract, by its key text.
///
/// Two identities are the same party exactly when their keys are the same
/// text; the ledger never looks inside a key.
#[derive(Debug, PartialEq, Eq)]
pub struct Identity {
    key: String,
}

impl View for Identity {
    type V = Seq<char>;

    closed spec fn view(&self) -> Seq<char> {
        self.key@
    }
}

impl Clone for Identity {
    fn clone(&self) -> (r: Self)
        ensures
            r == *self,
    {
        Identity { key: self.key.clone() }
    }
}

impl Identity {
    /// The identity with the given key.
    pub fn new(key: String) -> (r: Identity)
        ensures
            r@ == key@,
    {
        Identity { key }
    }

    /// The key text.
    pub fn key(&self) -> (r: &String)
        ensures
            r@ == self@,
    {
        &self.key
    }

    /// Whether `self` and `other` refer to the same party.
    pub fn same(&self, other: &Identity) -> (r: bool)
        ensures
            r == (self@ == other@),
    {
        self.key == other.key
    }
}

} // verus!
