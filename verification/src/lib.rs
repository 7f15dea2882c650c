//! A token-vesting ledger: per-account allocations that unlock linearly over
//! discrete ticks after a lock-in period, with owner-gated administration.
//!
//! [`VestingContract`] is the ledger. The owner grants allocations and sets
//! the global lock; a beneficiary asks for the release of what its grant has
//! unlocked, and gets back the [`TransferInstruction`] to carry out. The
//! ledger takes the current tick and the caller's name as arguments, and
//! refuses with a [`VestingError`] without changing anything.

pub mod error;
pub mod schedule;
pub mod store;
pub mod transfer;
pub mod contract;
pub mod laws;

pub use crate::contract::VestingContract;
pub use crate::error::VestingError;
pub use crate::schedule::Allocation;
pub use crate::store::AllocationStore;
pub use crate::transfer::TransferInstruction;
