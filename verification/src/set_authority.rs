//! SetAuthority: replace the registry's authority, irreversibly for anyone
//! but the new authority.

use vstd::prelude::*;

use crate::accounts::{SafeRegistry, SafeState, StateView, state_wf};
use crate::error::ErrorKind;
use crate::instruction::TransferRequest;

verus! {

/// The access-control phase: only the current authority, actually signing,
/// may hand the authority over.
pub open spec fn set_authority_check(
    registry: SafeRegistry,
    signer: u64,
    signer_signed: bool,
) -> Result<(), ErrorKind> {
    if !signer_signed || signer != registry.authority {
        Err(ErrorKind::Unauthorized)
    } else {
        Ok(())
    }
}

/// The transition: on success only the authority field changes, and no
/// external transfer is owed.
pub open spec fn set_authority_step(
    s: StateView,
    new_authority: u64,
    signer: u64,
    signer_signed: bool,
) -> (StateView, Result<TransferRequest, ErrorKind>) {
    match set_authority_check(s.registry, signer, signer_signed) {
        Err(e) => (s, Err(e)),
        Ok(()) => (
            StateView { registry: SafeRegistry { authority: new_authority, ..s.registry }, ..s },
            Ok(TransferRequest::NoExternalAction),
        ),
    }
}

pub proof fn lemma_set_authority_preserves_wf(
    s: StateView,
    new_authority: u64,
    signer: u64,
    signer_signed: bool,
)
    requires
        state_wf(s),
        s.registry.initialized,
    ensures
        state_wf(set_authority_step(s, new_authority, signer, signer_signed).0),
{
}

/// The pure access-control phase of `SetAuthority`; reads, never mutates.
pub fn access_control(state: &SafeState, signer: u64, signer_signed: bool) -> (r: Result<
    (),
    ErrorKind,
>)
    ensures
        r == set_authority_check(state@.registry, signer, signer_signed),
{
    if !signer_signed || signer != state.registry.authority {
        Err(ErrorKind::Unauthorized)
    } else {
        Ok(())
    }
}

/// Replace the authority: access control, then the swap.  Fails, leaving
/// the state untouched, unless the current authority signed the request.
pub fn handler(state: &mut SafeState, new_authority: u64, signer: u64, signer_signed: bool) -> (r:
    Result<TransferRequest, ErrorKind>)
    requires
        state_wf(old(state)@),
        old(state)@.registry.initialized,
    ensures
        final(state)@ == set_authority_step(old(state)@, new_authority, signer, signer_signed).0,
        r == set_authority_step(old(state)@, new_authority, signer, signer_signed).1,
        state_wf(final(state)@),
{
    match access_control(state, signer, signer_signed) {
        Err(e) => Err(e),
        Ok(()) => {
            state.registry = SafeRegistry { authority: new_authority, ..state.registry };
            proof {
                assert(state@ =~= set_authority_step(
                    old(state)@,
                    new_authority,
                    signer,
                    signer_signed,
                ).0);
                lemma_set_authority_preserves_wf(old(state)@, new_authority, signer, signer_signed);
            }
            Ok(TransferRequest::NoExternalAction)
        },
    }
}

} // verus!
