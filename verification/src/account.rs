//! Account identities as the protocol compares them.

use vstd::prelude::*;

verus! {

/// An on-chain account (a user or a contract), identified by its canonical
/// string key (the `G...`/`C...` strkey).
#[derive(Clone, Debug)]
pub struct AccountId {
    pub strkey: String,
}

impl View for AccountId {
    type V = Seq<char>;

    open spec fn view(&self) -> Seq<char> {
        self.strkey@
    }
}

impl AccountId {
    /// Whether two identities name the same account.
    pub fn same_as(&self, other: &AccountId) -> (r: bool)
        ensures
            r == (self@ == other@),
    {
        self.strkey == other.strkey
    }
}

} // verus!
