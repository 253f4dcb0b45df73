//! The error taxonomy of the record-management core. Every failure is a
//! rejected action reported as one of these kinds; none is silently
//! downgraded to a default value.
use vstd::prelude::*;

verus! {

#[derive(Clone, Copy, Debug, PartialEq, Eq, Structural)]
pub enum TwitterError {
    /// The comment text exceeds the fixed byte bound.
    ContentTooLong,
    /// The claimed record address does not match the address derived from the
    /// record-defining fields: the core's primary integrity guard.
    AddressMismatch,
    /// The signer is not the record's recorded author.
    Unauthorized,
    /// A reaction record for this (author, parent) pair already exists.
    AlreadyReacted,
    /// A record already occupies the target address.
    AddressInUse,
    /// The funding source cannot cover the store's minimum funding for the
    /// record size.
    InsufficientFunds,
    /// The parent's like counter is at its maximum.
    LikeCounterSaturated,
    /// The parent's dislike counter is at its maximum.
    DislikeCounterSaturated,
    /// The parent's like counter is already zero.
    LikeCounterUnderflow,
    /// The parent's dislike counter is already zero.
    DislikeCounterUnderflow,
    /// No record exists at the given address.
    NotFound,
}

} // verus!
