//! The caller-facing request shape: one tagged payload per transition kind,
//! carrying the amounts, schedules and participant identities the handler
//! needs, and the transfer requests a successful transition hands back to
//! the host for the external asset-transfer primitive.

use vstd::prelude::*;

use crate::accounts::Tranche;

verus! {

/// One instruction, decoded: the kind tag, its payload, and the identities
/// of the participants the host resolved for it.
///
/// The identities of records the library itself governs (ledgers, receipts)
/// are positions into the deployment's record vectors; the identities of
/// balances and holders live with the external asset-transfer primitive and
/// are presented by the host as plain values, together with the recorded
/// controller of any balance a transition debits and a flag saying whether
/// the authorizing participant actually signed the request.
pub enum SrmSafeInstruction {
    /// Configure the safe.  Must be issued in the same indivisible unit
    /// that creates the registry's backing record, so that nobody can
    /// observe, and seize, an allocated-but-uninitialized registry.
    Initialize { custodied_asset: u64, authority: u64, vault: u64, signer_nonce: u64 },
    /// Create a vesting ledger and move the deposited value into the vault.
    DepositSrm {
        beneficiary: u64,
        schedule: Vec<Tranche>,
        source_balance: u64,
        source_owner: u64,
        signer: u64,
        signer_signed: bool,
    },
    /// Mint `units` locked-value receipts against a ledger.
    MintLockedSrm {
        ledger: usize,
        units: u64,
        destination: u64,
        receipt_asset: u64,
        signer: u64,
        signer_signed: bool,
    },
    /// Burn one receipt and release its claim on the originating ledger.
    BurnLockedSrm {
        receipt: usize,
        holder_account: u64,
        expected_asset: u64,
        signer: u64,
        signer_signed: bool,
    },
    /// Release unlocked value from the vault to the beneficiary.
    WithdrawSrm { ledger: usize, amount: u64, destination: u64, signer: u64, signer_signed: bool },
    /// Punitively forfeit part of a ledger's remaining value.
    Slash { ledger: usize, amount: u64, signer: u64, signer_signed: bool },
    /// Replace the registry's authority.
    SetAuthority { new_authority: u64, signer: u64, signer_signed: bool },
}

/// The external work a successful transition asks the host to perform
/// against the asset-transfer primitive.  The transition and the requested
/// transfer are one atomic unit: a host whose transfer fails discards the
/// mutated records and reports `ErrorKind::TransferFailed`.
#[derive(Clone, Copy, Debug, PartialEq, Eq, Structural)]
pub enum TransferRequest {
    /// No external transfer is owed.  A slash forfeits value without
    /// releasing it: the amount stays in the vault under administrative
    /// control, which is this deployment's policy for forfeited value.
    NoExternalAction,
    /// Debit `amount` of the custodied asset from `from` and credit `to`.
    Transfer { from: u64, to: u64, amount: u64 },
    /// Mint `count` units of the receipt asset to `destination`.
    MintUnits { asset: u64, destination: u64, count: u64 },
    /// Burn one unit of the receipt asset held by `source`.
    BurnUnit { asset: u64, source: u64 },
}

/// Builds the deposit request for a new vesting ledger: `schedule` says
/// when each tranche of the deposited value unlocks, `source_balance` is
/// the balance the value leaves, `source_owner` its recorded controller,
/// and `signer` the participant authorizing the debit.
pub fn deposit(
    beneficiary: u64,
    schedule: Vec<Tranche>,
    source_balance: u64,
    source_owner: u64,
    signer: u64,
    signer_signed: bool,
) -> (r: SrmSafeInstruction)
    ensures
        r == (SrmSafeInstruction::DepositSrm {
            beneficiary,
            schedule,
            source_balance,
            source_owner,
            signer,
            signer_signed,
        }),
{
    SrmSafeInstruction::DepositSrm {
        beneficiary,
        schedule,
        source_balance,
        source_owner,
        signer,
        signer_signed,
    }
}

} // verus!
