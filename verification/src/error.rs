//! The typed errors a transition can fail with.

use vstd::prelude::*;

verus! {

/// The error kinds, fail-closed and surfaced verbatim to the caller.
///
/// Every access-control check of a transition runs to completion before any
/// mutation begins, and the first failing check short-circuits with its
/// specific kind, so a failing transition leaves every record as it was.
#[derive(Clone, Copy, Debug, PartialEq, Eq, Structural)]
pub enum ErrorKind {
    /// The presented signer is not the party the transition requires, or did
    /// not actually sign the request.
    Unauthorized,
    /// `Initialize` was called on a registry whose one-shot latch is set.
    AlreadyInitialized,
    /// The registry record is not under this program's exclusive control.
    InvalidOwner,
    /// A deposit schedule was empty or its unlock times were not strictly
    /// increasing.
    InvalidSchedule,
    /// A mint asked for more units than the value that is still locked and
    /// not already claimed by an outstanding receipt.
    InsufficientUnvestedBalance,
    /// A withdrawal asked for more than the unlocked balance minus what is
    /// already withdrawn or claimed by outstanding receipts.
    InsufficientUnlockedBalance,
    /// A slash asked for more than the ledger still custodies.
    InsufficientBalance,
    /// The receipt's one-shot burn latch is already set.
    AlreadyBurned,
    /// The receipt's recorded holder account does not match the account
    /// presented for the burn.
    UnauthorizedReceipt,
    /// The receipt's asset identity does not match the expected
    /// receipt-asset identity.
    WrongAssetMint,
    /// The instruction was malformed: it named a record that does not exist.
    Decode,
    /// The external asset-transfer primitive refused the transfer a
    /// transition requested.  The host reports this kind after discarding
    /// the mutated records; the library itself never returns it.
    TransferFailed,
}

} // verus!
