//! The host of an invocation: the record store, the ledger clock, and the
//! identities that the invocation is authorized by.

use crate::model::HostView;
use crate::store::RecordStore;
use crate::task::Address;
use vstd::prelude::*;

verus! {

/// The identities of `signers`, as a set.
spec fn signer_set(signers: Seq<Address>) -> Set<Seq<char>> {
    Set::new(|who: Seq<char>| exists|i: int| 0 <= i < signers.len() && #[trigger] signers[i]@ == who)
}

/// The host that an operation of the registry runs on.
pub struct Host {
    store: RecordStore,
    timestamp: u64,
    signers: Vec<Address>,
}

impl View for Host {
    type V = HostView;

    closed spec fn view(&self) -> HostView {
        HostView {
            store: self.store@,
            timestamp: self.timestamp,
            signers: signer_set(self.signers@),
        }
    }
}

impl Host {
    /// A host with an empty store, at ledger time 0, on which no identity
    /// has authorized anything.
    pub fn new() -> (host: Host)
        ensures
            host@ == HostView::fresh(),
    {
        Host { store: RecordStore::new(), timestamp: 0, signers: Vec::new() }
    }

    /// The record store.
    pub fn store(&self) -> (store: &RecordStore)
        ensures
            store@ == self@.store,
    {
        &self.store
    }

    /// The record store, to write to.
    pub fn store_mut(&mut self) -> (store: &mut RecordStore)
        ensures
            store@ == old(self)@.store,
            final(self)@ == old(self)@.with_store(final(store)@),
    {
        &mut self.store
    }

    /// The ledger time.
    pub fn timestamp(&self) -> (timestamp: u64)
        ensures
            timestamp == self@.timestamp,
    {
        self.timestamp
    }

    /// Sets the ledger time.
    pub fn set_timestamp(&mut self, timestamp: u64)
        ensures
            final(self)@ == (HostView { timestamp, ..old(self)@ }),
    {
        self.timestamp = timestamp;
    }

    /// Records that `who` authorized the invocation.
    pub fn authorize(&mut self, who: Address)
        ensures
            final(self)@ == (HostView { signers: old(self)@.signers.insert(who@), ..old(self)@ }),
    {
        let ghost before = self.signers@;
        if !self.is_authorized(&who) {
            self.signers.push(who);
        }
        assert(signer_set(self.signers@) =~= signer_set(before).insert(who@)) by {
            assert forall|k: Seq<char>| signer_set(before).insert(who@).contains(k)
                implies signer_set(self.signers@).contains(k) by {
                if signer_set(before).contains(k) {
                    let i = choose|i: int| 0 <= i < before.len() && #[trigger] before[i]@ == k;
                    assert(self.signers@[i]@ == k);
                } else {
                    assert(self.signers@[before.len() as int]@ == k);
                }
            }
        }
    }

    /// Whether `who` authorized the invocation.
    pub fn is_authorized(&self, who: &Address) -> (authorized: bool)
        ensures
            authorized == self@.authorized(who@),
    {
        let mut i: usize = 0;
        while i < self.signers.len()
            invariant
                i <= self.signers@.len(),
                forall|j: int| 0 <= j < i ==> self.signers@[j]@ != who@,
            decreases self.signers@.len() - i,
        {
            if self.signers[i] == *who {
                return true;
            }
            i = i + 1;
        }
        false
    }
}

} // verus!
