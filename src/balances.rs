//! The ledger module: a balance per account and checked transfers.
use vstd::prelude::*;
use crate::storage::StorageMap;
use crate::support::{Amount, Dispatch, DispatchError, DispatchResult, StorageKey};
use crate::system;

verus! {

/// The types of the ledger, beyond those that every module agrees on.
pub trait Config: system::Config {
    type Balance: Amount;
}

/// The balance of `who` in a balance map: zero where it has none.
pub open spec fn balance_in<K>(m: Map<K, nat>, who: K) -> nat {
    if m.contains_key(who) {
        m[who]
    } else {
        0
    }
}

/// The state after, and the outcome of, a transfer of `amount` from `caller`
/// to `to`, where no balance may exceed `max`. Both checks are made against
/// the balances before the transfer; a transfer from an account to itself
/// that passes them leaves it as it was.
pub open spec fn transfer_spec<K>(m: Map<K, nat>, caller: K, to: K, amount: nat, max: nat) -> (
    Map<K, nat>,
    DispatchResult,
) {
    let from_balance = balance_in(m, caller);
    let to_balance = balance_in(m, to);
    if amount > from_balance {
        (m, Err(DispatchError::InsufficientBalance))
    } else if to_balance + amount > max {
        (m, Err(DispatchError::Overflow))
    } else if caller == to {
        (m, Ok(()))
    } else {
        (
            m.insert(caller, (from_balance - amount) as nat).insert(to, to_balance + amount),
            Ok(()),
        )
    }
}

/// The calls of the ledger module that can be dispatched.
#[allow(non_camel_case_types)]
pub enum Call<T: Config> {
    transfer { to: T::AccountId, amount: T::Balance },
}

/// The state after, and the outcome of, dispatching `call` for `caller`.
pub open spec fn dispatch_spec<T: Config>(
    m: Map<<T::AccountId as View>::V, nat>,
    caller: <T::AccountId as View>::V,
    call: Call<T>,
) -> (Map<<T::AccountId as View>::V, nat>, DispatchResult) {
    match call {
        Call::transfer { to, amount } => transfer_spec(
            m,
            caller,
            to@,
            amount.spec_value(),
            T::Balance::spec_max(),
        ),
    }
}

/// The ledger state: a balance per account.
pub struct Pallet<T: Config> {
    balances: StorageMap<T::AccountId, T::Balance>,
}

impl<T: Config> View for Pallet<T> {
    type V = Map<<T::AccountId as View>::V, nat>;

    closed spec fn view(&self) -> Map<<T::AccountId as View>::V, nat> {
        self.balances@.map_values(|b: T::Balance| b.spec_value())
    }
}

impl<T: Config> Pallet<T> {
    /// The storage behind the module is well formed.
    pub closed spec fn wf(&self) -> bool {
        self.balances.wf()
    }

    pub open spec fn spec_balance(&self, who: <T::AccountId as View>::V) -> nat {
        balance_in(self@, who)
    }

    pub fn new() -> (r: Self)
        ensures
            r.wf(),
            r@ == Map::<<T::AccountId as View>::V, nat>::empty(),
    {
        let r = Pallet { balances: StorageMap::new() };
        proof {
            assert(r@ =~= Map::<<T::AccountId as View>::V, nat>::empty());
        }
        r
    }

    /// Overwrites the balance of `who`.
    pub fn set_balance(&mut self, who: &T::AccountId, amount: T::Balance)
        requires
            old(self).wf(),
        ensures
            final(self).wf(),
            final(self)@ == old(self)@.insert(who@, amount.spec_value()),
    {
        self.balances.insert(who.duplicate(), amount);
        proof {
            assert(self@ =~= old(self)@.insert(who@, amount.spec_value()));
        }
    }

    /// The balance of `who`, zero where none was set.
    pub fn balance(&self, who: &T::AccountId) -> (r: T::Balance)
        requires
            self.wf(),
        ensures
            r.spec_value() == self.spec_balance(who@),
    {
        match self.balances.get(who) {
            Some(b) => *b,
            None => T::Balance::zero(),
        }
    }

    /// Moves `amount` from `caller` to `to`, all or nothing.
    pub fn transfer(&mut self, caller: &T::AccountId, to: &T::AccountId, amount: T::Balance) -> (r:
        DispatchResult)
        requires
            old(self).wf(),
        ensures
            final(self).wf(),
            (final(self)@, r) == transfer_spec(
                old(self)@,
                caller@,
                to@,
                amount.spec_value(),
                T::Balance::spec_max(),
            ),
            r is Ok && caller@ != to@ ==> {
                &&& final(self).spec_balance(caller@) + final(self).spec_balance(to@)
                    == old(self).spec_balance(caller@) + old(self).spec_balance(to@)
                &&& final(self).spec_balance(caller@) == old(self).spec_balance(caller@)
                    - amount.spec_value()
                &&& final(self).spec_balance(to@) == old(self).spec_balance(to@)
                    + amount.spec_value()
            },
            amount.spec_value() > old(self).spec_balance(caller@) ==> {
                &&& r == Err::<(), DispatchError>(DispatchError::InsufficientBalance)
                &&& final(self)@ == old(self)@
            },
            old(self).spec_balance(to@) + amount.spec_value() > T::Balance::spec_max() ==> {
                &&& r is Err
                &&& final(self)@ == old(self)@
            },
            amount.spec_value() <= old(self).spec_balance(caller@) && old(self).spec_balance(to@)
                + amount.spec_value() > T::Balance::spec_max() ==> r == Err::<(), DispatchError>(
                DispatchError::Overflow,
            ),
    {
        let caller_balance = self.balance(caller);
        let to_balance = self.balance(to);
        let new_caller_balance = match caller_balance.checked_sub(&amount) {
            Some(b) => b,
            None => {
                return Err(DispatchError::InsufficientBalance);
            },
        };
        let new_to_balance = match to_balance.checked_add(&amount) {
            Some(b) => b,
            None => {
                return Err(DispatchError::Overflow);
            },
        };
        if !caller.same_key(to) {
            self.set_balance(caller, new_caller_balance);
            self.set_balance(to, new_to_balance);
        }
        Ok(())
    }
}

impl<T: Config> Dispatch for Pallet<T> {
    type Caller = T::AccountId;

    type Call = Call<T>;

    open spec fn well_formed(&self) -> bool {
        self.wf()
    }

    fn dispatch(&mut self, caller: T::AccountId, call: Call<T>) -> (r: DispatchResult)
        ensures
            (final(self)@, r) == dispatch_spec(old(self)@, caller@, call),
    {
        match call {
            Call::transfer { to, amount } => self.transfer(&caller, &to, amount),
        }
    }
}

} // verus!
