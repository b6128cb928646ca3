//! The claim-registry module: at most one owner per content value.
use vstd::prelude::*;
use crate::storage::StorageMap;
use crate::support::{Dispatch, DispatchError, DispatchResult, StorageKey};
use crate::system;

verus! {

/// The types of the claim registry, beyond those that every module agrees on.
pub trait Config: system::Config {
    type Content: StorageKey;
}

/// The state after, and the outcome of, `caller` claiming `claim`.
pub open spec fn create_claim_spec<C, A>(m: Map<C, A>, caller: A, claim: C) -> (
    Map<C, A>,
    DispatchResult,
) {
    if m.contains_key(claim) {
        (m, Err(DispatchError::ClaimAlreadyExists))
    } else {
        (m.insert(claim, caller), Ok(()))
    }
}

/// The state after, and the outcome of, `caller` revoking its claim on `claim`.
pub open spec fn revoke_claim_spec<C, A>(m: Map<C, A>, caller: A, claim: C) -> (
    Map<C, A>,
    DispatchResult,
) {
    if !m.contains_key(claim) {
        (m, Err(DispatchError::ClaimNotFound))
    } else if m[claim] != caller {
        (m, Err(DispatchError::NotOwner))
    } else {
        (m.remove(claim), Ok(()))
    }
}

/// Claiming an unclaimed content value makes the claimant its one owner:
/// another account can then neither claim it nor revoke it, while the owner
/// can revoke it, after which it has no owner and a second revocation finds
/// no claim. Failed operations leave the registry as it was.
pub proof fn lemma_claim_round_trip<C, A>(m: Map<C, A>, x: A, y: A, c: C)
    requires
        !m.contains_key(c),
        x != y,
    ensures
        ({
            let (m1, r1) = create_claim_spec(m, x, c);
            let (m2, r2) = create_claim_spec(m1, y, c);
            let (m3, r3) = revoke_claim_spec(m2, y, c);
            let (m4, r4) = revoke_claim_spec(m3, x, c);
            let (m5, r5) = revoke_claim_spec(m4, x, c);
            &&& r1 == Ok::<(), DispatchError>(())
            &&& m1.contains_key(c) && m1[c] == x
            &&& r2 == Err::<(), DispatchError>(DispatchError::ClaimAlreadyExists)
            &&& m2 == m1
            &&& r3 == Err::<(), DispatchError>(DispatchError::NotOwner)
            &&& m3 == m1
            &&& r4 == Ok::<(), DispatchError>(())
            &&& !m4.contains_key(c)
            &&& r5 == Err::<(), DispatchError>(DispatchError::ClaimNotFound)
            &&& m5 == m4
        }),
{
}

/// The calls of the claim registry that can be dispatched.
#[allow(non_camel_case_types)]
pub enum Call<T: Config> {
    create_claim { claim: T::Content },
    revoke_claim { claim: T::Content },
}

/// The state after, and the outcome of, dispatching `call` for `caller`.
pub open spec fn dispatch_spec<T: Config>(
    m: Map<<T::Content as View>::V, <T::AccountId as View>::V>,
    caller: <T::AccountId as View>::V,
    call: Call<T>,
) -> (Map<<T::Content as View>::V, <T::AccountId as View>::V>, DispatchResult) {
    match call {
        Call::create_claim { claim } => create_claim_spec(m, caller, claim@),
        Call::revoke_claim { claim } => revoke_claim_spec(m, caller, claim@),
    }
}

/// The claim registry state: the owner of each claimed content value.
pub struct Pallet<T: Config> {
    claims: StorageMap<T::Content, T::AccountId>,
}

impl<T: Config> View for Pallet<T> {
    /// The owner of each claimed content value.
    type V = Map<<T::Content as View>::V, <T::AccountId as View>::V>;

    closed spec fn view(&self) -> Map<<T::Content as View>::V, <T::AccountId as View>::V> {
        self.claims@.map_values(|owner: T::AccountId| owner@)
    }
}

impl<T: Config> Pallet<T> {
    /// The storage behind the module is well formed.
    pub closed spec fn wf(&self) -> bool {
        self.claims.wf()
    }

    pub fn new() -> (r: Self)
        ensures
            r.wf(),
            r@ == Map::<<T::Content as View>::V, <T::AccountId as View>::V>::empty(),
    {
        let r = Pallet { claims: StorageMap::new() };
        proof {
            assert(r@ =~= Map::<<T::Content as View>::V, <T::AccountId as View>::V>::empty());
        }
        r
    }

    /// Records `caller` as the owner of `claim`, unless it already has one.
    pub fn create_claim(&mut self, caller: T::AccountId, claim: T::Content) -> (r: DispatchResult)
        requires
            old(self).wf(),
        ensures
            final(self).wf(),
            (final(self)@, r) == create_claim_spec(old(self)@, caller@, claim@),
    {
        if self.claims.contains_key(&claim) {
            Err(DispatchError::ClaimAlreadyExists)
        } else {
            let ghost owner = caller@;
            self.claims.insert(claim, caller);
            proof {
                assert(self@ =~= old(self)@.insert(claim@, owner));
            }
            Ok(())
        }
    }

    /// Removes the claim on `claim`, if `caller` owns it.
    pub fn revoke_claim(&mut self, caller: T::AccountId, claim: T::Content) -> (r: DispatchResult)
        requires
            old(self).wf(),
        ensures
            final(self).wf(),
            (final(self)@, r) == revoke_claim_spec(old(self)@, caller@, claim@),
    {
        let is_owner = match self.claims.get(&claim) {
            None => {
                return Err(DispatchError::ClaimNotFound);
            },
            Some(owner) => owner.same_key(&caller),
        };
        if !is_owner {
            return Err(DispatchError::NotOwner);
        }
        self.claims.remove(&claim);
        proof {
            assert(self@ =~= old(self)@.remove(claim@));
        }
        Ok(())
    }

    /// The owner of `claim`, if it has one.
    pub fn get_claim(&self, claim: &T::Content) -> (r: Option<&T::AccountId>)
        requires
            self.wf(),
        ensures
            match r {
                Some(owner) => self@.contains_key(claim@) && owner@ == self@[claim@],
                None => !self@.contains_key(claim@),
            },
    {
        self.claims.get(claim)
    }
}

impl<T: Config> Dispatch for Pallet<T> {
    type Caller = T::AccountId;

    type Call = Call<T>;

    open spec fn well_formed(&self) -> bool {
        self.wf()
    }

    fn dispatch(&mut self, caller: T::AccountId, call: Call<T>) -> (r: DispatchResult)
        ensures
            (final(self)@, r) == dispatch_spec(old(self)@, caller@, call),
    {
        match call {
            Call::create_claim { claim } => self.create_claim(caller, claim),
            Call::revoke_claim { claim } => self.revoke_claim(caller, claim),
        }
    }
}

} // verus!
