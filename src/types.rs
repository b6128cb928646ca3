//! The concrete types that every module of the runtime agrees on.
use vstd::prelude::*;
use crate::runtime::RuntimeCall;
use crate::support;

verus! {

/// Identifies a participant.
pub type AccountId = String;

/// An amount held by an account.
pub type Balance = u128;

/// The number of a block.
pub type BlockNumber = u32;

/// How many extrinsics an account has submitted.
pub type Nonce = u32;

/// The key of a claim, such as a document identifier.
pub type Content = String;

/// An extrinsic of the runtime.
pub type Extrinsic = support::Extrinsic<AccountId, RuntimeCall>;

/// A block header of the runtime.
pub type Header = support::Header<BlockNumber>;

/// A block of the runtime.
pub type Block = support::Block<Header, Extrinsic>;

} // verus!
