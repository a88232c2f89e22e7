use vstd::prelude::*;

verus! {

/// Why a call on the escrow was refused. A refused call changes nothing.
#[derive(Clone, Copy, Debug, PartialEq, Eq, Structural)]
pub enum EscrowError {
    /// The caller is already registered.
    AlreadyExists,
    /// The caller has no account.
    NotRegistered,
    /// A deposit of nothing.
    InvalidAmount,
    /// The balance, or the attached payment, does not cover the amount due.
    InsufficientFunds,
    /// A listing for the token id already exists.
    AlreadyListed,
    /// No listing exists for the token id.
    NotListed,
    /// The listing was already sold.
    NotActive,
    /// No listing exists for the token id that was looked up.
    NotFound,
}

} // verus!
