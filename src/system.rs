//! The sequencing module: the current block number and a nonce per account.
use vstd::prelude::*;
use crate::storage::StorageMap;
use crate::support::{Counter, StorageKey};

verus! {

/// The types that every module of a runtime agrees on.
pub trait Config {
    type AccountId: StorageKey;
    type BlockNumber: Counter;
    type Nonce: Counter;
}

/// The nonce of `who` in a nonce map: zero where it has none.
pub open spec fn nonce_in<K>(m: Map<K, nat>, who: K) -> nat {
    if m.contains_key(who) {
        m[who]
    } else {
        0
    }
}

/// The sequencing state: the number of the last executed block and the
/// number of extrinsics that each account has submitted.
pub struct Pallet<T: Config> {
    block_number: T::BlockNumber,
    nonce: StorageMap<T::AccountId, T::Nonce>,
}

impl<T: Config> Pallet<T> {
    /// The storage behind the module is well formed.
    pub closed spec fn wf(&self) -> bool {
        self.nonce.wf()
    }

    pub closed spec fn spec_block_number(&self) -> nat {
        self.block_number.spec_value()
    }

    /// The nonces that were set, by account.
    pub closed spec fn nonces(&self) -> Map<<T::AccountId as View>::V, nat> {
        self.nonce@.map_values(|n: T::Nonce| n.spec_value())
    }

    pub open spec fn spec_nonce(&self, who: <T::AccountId as View>::V) -> nat {
        nonce_in(self.nonces(), who)
    }

    pub fn new() -> (r: Self)
        ensures
            r.wf(),
            r.spec_block_number() == 0,
            r.nonces() == Map::<<T::AccountId as View>::V, nat>::empty(),
    {
        let r = Pallet { block_number: T::BlockNumber::zero(), nonce: StorageMap::new() };
        proof {
            assert(r.nonces() =~= Map::<<T::AccountId as View>::V, nat>::empty());
        }
        r
    }

    pub fn block_number(&self) -> (r: T::BlockNumber)
        ensures
            r.spec_value() == self.spec_block_number(),
    {
        self.block_number
    }

    pub fn nonce(&self, who: &T::AccountId) -> (r: T::Nonce)
        requires
            self.wf(),
        ensures
            r.spec_value() == self.spec_nonce(who@),
    {
        match self.nonce.get(who) {
            Some(n) => *n,
            None => T::Nonce::zero(),
        }
    }

    /// Advances the block number by one step; the counter never wraps around.
    pub fn inc_block_number(&mut self)
        requires
            old(self).spec_block_number() < T::BlockNumber::spec_max(),
        ensures
            final(self).wf() == old(self).wf(),
            final(self).spec_block_number() == old(self).spec_block_number() + 1,
            final(self).nonces() == old(self).nonces(),
    {
        self.block_number = self.block_number.successor();
    }

    /// Advances the nonce of `who` by one step, from zero if it had none; the
    /// counter never wraps around.
    pub fn inc_nonce(&mut self, who: &T::AccountId)
        requires
            old(self).wf(),
            old(self).spec_nonce(who@) < T::Nonce::spec_max(),
        ensures
            final(self).wf(),
            final(self).spec_block_number() == old(self).spec_block_number(),
            final(self).nonces() == old(self).nonces().insert(
                who@,
                old(self).spec_nonce(who@) + 1,
            ),
    {
        let nonce = self.nonce(who);
        let next = nonce.successor();
        self.nonce.insert(who.duplicate(), next);
        proof {
            assert(self.nonces() =~= old(self).nonces().insert(who@, old(self).spec_nonce(who@) + 1));
        }
    }
}

} // verus!
