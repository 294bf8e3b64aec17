//! A minimal append-only ledger: named entities exchange signed transfer
//! records, records are sealed into hash-linked blocks, and a chain of
//! blocks can be re-validated from its genesis anchor.

pub mod block;
pub mod blockchain;
pub mod clock;
pub mod digits;
pub mod entity;
pub mod hashing;
pub mod transaction;

use vstd::prelude::*;

verus! {

} // verus!
