//! Types shared by every module: blocks, extrinsics, the uniform dispatch
//! result and the `Dispatch` capability.
use vstd::prelude::*;

verus! {

/// The named failures that a dispatched call, or a block, can end with.
#[derive(Debug, Clone, Copy, PartialEq, Eq, Structural)]
pub enum DispatchError {
    InsufficientBalance,
    Overflow,
    ClaimAlreadyExists,
    ClaimNotFound,
    NotOwner,
    BlockNumberMismatch,
    /// The caller's nonce is at its largest value and cannot advance.
    NonceOverflow,
}

impl DispatchError {
    /// A human-readable description of the failure.
    pub fn message(&self) -> (r: &'static str)
        ensures
            r@ == self.spec_message(),
    {
        match self {
            DispatchError::InsufficientBalance => "Insufficient balance",
            DispatchError::Overflow => "Overflow when adding to balance",
            DispatchError::ClaimAlreadyExists => "Claim already exists",
            DispatchError::ClaimNotFound => "Claim does not exist",
            DispatchError::NotOwner => "Caller is not the owner of the claim",
            DispatchError::BlockNumberMismatch => "Block number mismatch",
            DispatchError::NonceOverflow => "Nonce overflow",
        }
    }

    pub open spec fn spec_message(&self) -> Seq<char> {
        match self {
            DispatchError::InsufficientBalance => "Insufficient balance"@,
            DispatchError::Overflow => "Overflow when adding to balance"@,
            DispatchError::ClaimAlreadyExists => "Claim already exists"@,
            DispatchError::ClaimNotFound => "Claim does not exist"@,
            DispatchError::NotOwner => "Caller is not the owner of the claim"@,
            DispatchError::BlockNumberMismatch => "Block number mismatch"@,
            DispatchError::NonceOverflow => "Nonce overflow"@,
        }
    }
}

/// A value that storage maps can be keyed by: comparing and duplicating keys
/// agree with their views.
pub trait StorageKey: View + Sized {
    fn same_key(&self, other: &Self) -> (r: bool)
        ensures
            r == (self@ == other@),
    ;

    fn duplicate(&self) -> (r: Self)
        ensures
            r@ == self@,
    ;
}

impl StorageKey for String {
    fn same_key(&self, other: &String) -> (r: bool) {
        *self == *other
    }

    fn duplicate(&self) -> (r: String) {
        self.clone()
    }
}

/// A bounded counter that starts at zero and advances by one step at a time.
pub trait Counter: Sized + Copy {
    /// The number that the counter stands for.
    spec fn spec_value(&self) -> nat;

    /// The largest number that a counter can stand for.
    spec fn spec_max() -> nat;

    fn zero() -> (r: Self)
        ensures
            r.spec_value() == 0,
    ;

    fn same_value(&self, other: &Self) -> (r: bool)
        ensures
            r == (self.spec_value() == other.spec_value()),
    ;

    fn is_max(&self) -> (r: bool)
        ensures
            r == (self.spec_value() >= Self::spec_max()),
    ;

    fn successor(&self) -> (r: Self)
        requires
            self.spec_value() < Self::spec_max(),
        ensures
            r.spec_value() == self.spec_value() + 1,
    ;
}

impl Counter for u32 {
    open spec fn spec_value(&self) -> nat {
        *self as nat
    }

    open spec fn spec_max() -> nat {
        u32::MAX as nat
    }

    fn zero() -> (r: u32) {
        0
    }

    fn same_value(&self, other: &u32) -> (r: bool) {
        *self == *other
    }

    fn is_max(&self) -> (r: bool) {
        *self == u32::MAX
    }

    fn successor(&self) -> (r: u32) {
        *self + 1
    }
}

/// Relies on num's `CheckedAdd` for `u128`, which returns the sum where it
/// fits and `None` where it overflows.
#[verifier::external_body]
fn checked_add_u128(a: u128, b: u128) -> (r: Option<u128>)
    ensures
        r == (if a + b <= u128::MAX {
            Some((a + b) as u128)
        } else {
            None::<u128>
        }),
{
    num::CheckedAdd::checked_add(&a, &b)
}

/// Relies on num's `CheckedSub` for `u128`, which returns the difference where
/// it is not negative and `None` otherwise.
#[verifier::external_body]
fn checked_sub_u128(a: u128, b: u128) -> (r: Option<u128>)
    ensures
        r == (if b <= a {
            Some((a - b) as u128)
        } else {
            None::<u128>
        }),
{
    num::CheckedSub::checked_sub(&a, &b)
}

/// A bounded non-negative amount with a zero and checked addition and
/// subtraction.
pub trait Amount: Sized + Copy {
    /// The number that the amount stands for.
    spec fn spec_value(&self) -> nat;

    /// The largest number that an amount can stand for.
    spec fn spec_max() -> nat;

    fn zero() -> (r: Self)
        ensures
            r.spec_value() == 0,
    ;

    fn checked_add(&self, other: &Self) -> (r: Option<Self>)
        ensures
            match r {
                Some(sum) => self.spec_value() + other.spec_value() <= Self::spec_max()
                    && sum.spec_value() == self.spec_value() + other.spec_value(),
                None => self.spec_value() + other.spec_value() > Self::spec_max(),
            },
    ;

    fn checked_sub(&self, other: &Self) -> (r: Option<Self>)
        ensures
            match r {
                Some(diff) => other.spec_value() <= self.spec_value() && diff.spec_value()
                    == self.spec_value() - other.spec_value(),
                None => other.spec_value() > self.spec_value(),
            },
    ;
}

impl Amount for u128 {
    open spec fn spec_value(&self) -> nat {
        *self as nat
    }

    open spec fn spec_max() -> nat {
        u128::MAX as nat
    }

    fn zero() -> (r: u128) {
        0
    }

    fn checked_add(&self, other: &u128) -> (r: Option<u128>) {
        checked_add_u128(*self, *other)
    }

    fn checked_sub(&self, other: &u128) -> (r: Option<u128>) {
        checked_sub_u128(*self, *other)
    }
}

/// The outcome of dispatching one call.
pub type DispatchResult = Result<(), DispatchError>;

/// A block: a header and an ordered list of extrinsics.
pub struct Block<Header, Extrinsic> {
    pub header: Header,
    pub extrinsics: Vec<Extrinsic>,
}

/// The part of a block that declares its number.
pub struct Header<BlockNumber> {
    pub block_number: BlockNumber,
}

/// One call made on behalf of one caller.
pub struct Extrinsic<Caller, Call> {
    pub caller: Caller,
    pub call: Call,
}

/// Routing a call, on behalf of a caller, to the operation that implements it.
pub trait Dispatch {
    type Caller;

    type Call;

    /// The internal invariant of the dispatching state.
    spec fn well_formed(&self) -> bool;

    fn dispatch(&mut self, caller: Self::Caller, call: Self::Call) -> (r: DispatchResult)
        requires
            old(self).well_formed(),
        ensures
            final(self).well_formed(),
    ;
}

} // verus!
