//! Account identities as plain values.
use vstd::prelude::*;

verus! {

/// An account or contract address, held by its strkey text
/// (for example `"GA..."` for an account, `"CA..."` for a contract).
#[derive(Debug, PartialEq, Eq)]
pub struct AccountId {
    pub strkey: String,
}

impl View for AccountId {
    type V = Seq<char>;

    open spec fn view(&self) -> Seq<char> {
        self.strkey@
    }
}

impl AccountId {
    /// Builds an identity from its strkey text.
    pub fn new(strkey: String) -> (id: AccountId)
        ensures
            id@ == strkey@,
    {
        AccountId { strkey }
    }

    /// Whether `self` and `other` name the same address.
    pub fn same_as(&self, other: &AccountId) -> (same: bool)
        ensures
            same == (self@ == other@),
    {
        self.strkey == other.strkey
    }
}

impl Clone for AccountId {
    fn clone(&self) -> (copy: AccountId)
        ensures
            copy@ == self@,
    {
        AccountId { strkey: self.strkey.clone() }
    }
}

} // verus!
