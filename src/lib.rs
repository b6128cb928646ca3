//! A small deterministic state-transition runtime: independent state modules
//! (a ledger, a claim registry and a sequencing module) written once against
//! configuration traits, a two-level call dispatcher, and a block executor.
pub mod balances;
pub mod proof_of_existence;
pub mod runtime;
pub mod storage;
pub mod support;
pub mod system;
pub mod types;
