//! Initialize: configure a freshly created registry, exactly once.

use vstd::prelude::*;

use crate::accounts::{SafeRegistry, SafeState, StateView, state_wf};
use crate::error::ErrorKind;
use crate::instruction::TransferRequest;

verus! {

/// The access-control phase: the one-shot latch must be unset and the
/// registry's backing record must be under this program's exclusive
/// control.
pub open spec fn initialize_check(
    program_id: u64,
    registry_owner: u64,
    registry: SafeRegistry,
) -> Result<(), ErrorKind> {
    if registry.initialized {
        Err(ErrorKind::AlreadyInitialized)
    } else if registry_owner != program_id {
        Err(ErrorKind::InvalidOwner)
    } else {
        Ok(())
    }
}

/// The transition: on success the registry carries the given
/// configuration, an aggregate of zero, and the set latch; nothing else
/// changes, and no external transfer is owed.
pub open spec fn initialize_step(
    s: StateView,
    program_id: u64,
    custodied_asset: u64,
    authority: u64,
    vault: u64,
    signer_nonce: u64,
) -> (StateView, Result<TransferRequest, ErrorKind>) {
    match initialize_check(program_id, s.registry_owner, s.registry) {
        Err(e) => (s, Err(e)),
        Ok(()) => (
            StateView {
                registry: SafeRegistry {
                    authority,
                    custodied_asset,
                    vault,
                    total_outstanding_value: 0,
                    signer_nonce,
                    initialized: true,
                },
                ..s
            },
            Ok(TransferRequest::NoExternalAction),
        ),
    }
}

pub proof fn lemma_initialize_preserves_wf(
    s: StateView,
    program_id: u64,
    custodied_asset: u64,
    authority: u64,
    vault: u64,
    signer_nonce: u64,
)
    requires
        state_wf(s),
    ensures
        state_wf(initialize_step(s, program_id, custodied_asset, authority, vault, signer_nonce).0),
{
}

/// The pure access-control phase of `Initialize`; reads, never mutates.
pub fn access_control(state: &SafeState, program_id: u64) -> (r: Result<(), ErrorKind>)
    ensures
        r == initialize_check(program_id, state@.registry_owner, state@.registry),
{
    if state.registry.initialized {
        Err(ErrorKind::AlreadyInitialized)
    } else if state.registry_owner != program_id {
        Err(ErrorKind::InvalidOwner)
    } else {
        Ok(())
    }
}

/// Initialize the registry: access control, then the one-shot
/// configuration.  Fails, leaving the state untouched, if the latch is
/// already set or the backing record is not owned by this program.
pub fn handler(
    state: &mut SafeState,
    program_id: u64,
    custodied_asset: u64,
    authority: u64,
    vault: u64,
    signer_nonce: u64,
) -> (r: Result<TransferRequest, ErrorKind>)
    requires
        state_wf(old(state)@),
    ensures
        final(state)@ == initialize_step(
            old(state)@,
            program_id,
            custodied_asset,
            authority,
            vault,
            signer_nonce,
        ).0,
        r == initialize_step(
            old(state)@,
            program_id,
            custodied_asset,
            authority,
            vault,
            signer_nonce,
        ).1,
        state_wf(final(state)@),
{
    match access_control(state, program_id) {
        Err(e) => Err(e),
        Ok(()) => {
            state.registry = SafeRegistry {
                authority,
                custodied_asset,
                vault,
                total_outstanding_value: 0,
                signer_nonce,
                initialized: true,
            };
            proof {
                assert(state@ =~= initialize_step(
                    old(state)@,
                    program_id,
                    custodied_asset,
                    authority,
                    vault,
                    signer_nonce,
                ).0);
                lemma_initialize_preserves_wf(
                    old(state)@,
                    program_id,
                    custodied_asset,
                    authority,
                    vault,
                    signer_nonce,
                );
            }
            Ok(TransferRequest::NoExternalAction)
        },
    }
}

} // verus!
