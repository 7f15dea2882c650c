//! The ways an operation on the ledger can be refused.

use vstd::prelude::*;

verus! {

/// Why the ledger refused an operation. A refused operation changes nothing.
#[derive(Clone, Copy, Debug, PartialEq, Eq, Structural)]
pub enum VestingError {
    /// The calling account has no allocation.
    NoAllocation,
    /// Nothing may be released yet: the lock-in period has not elapsed, or
    /// every account is locked.
    Locked,
    /// The total is too small for the unlock period to give a per-tick rate.
    InsufficientAmount,
    /// An administrative operation was attempted by someone other than the owner.
    NotOwner,
}

impl VestingError {
    /// The text that describes this refusal.
    pub open spec fn message_text(self) -> Seq<char> {
        match self {
            VestingError::NoAllocation => "Account has no allocation"@,
            VestingError::Locked => "Account is in lock status"@,
            VestingError::InsufficientAmount => "Insufficient amount"@,
            VestingError::NotOwner => "Owner only"@,
        }
    }

    /// A short description, fit for a log line or an abort message.
    pub fn message(&self) -> (text: &'static str)
        ensures
            text@ == self.message_text(),
    {
        match self {
            VestingError::NoAllocation => "Account has no allocation",
            VestingError::Locked => "Account is in lock status",
            VestingError::InsufficientAmount => "Insufficient amount",
            VestingError::NotOwner => "Owner only",
        }
    }
}

} // verus!
