//! Issuing a capability.
//!
//! Issuing records an asset reference under a fresh public key and asks the
//! host for a permit bound to that key: an access key on the contract's own
//! account that can pay for calls of `claim` on the contract, and for nothing
//! else. No asset moves at this time; only the reference is recorded.

use vstd::prelude::*;
use crate::capability::{AssetReference, AssetReferenceView, Registry};
use crate::error::DropError;
use crate::host::{CallContext, CallContextView, PermitGrant, PermitGrantView, ACCESS_KEY_ALLOWANCE};
use crate::key::copy_bytes;

verus! {

/// Why an issuance is refused, if it is: the key is empty, or the policy asks
/// for a deposit and the attached one does not cover the key allowance.
pub open spec fn issue_refusal(
    require_minimum_deposit: bool,
    ctx: CallContextView,
    public_key: Seq<u8>,
) -> Option<DropError> {
    if public_key.len() == 0 {
        Some(DropError::EmptyPublicKey)
    } else if require_minimum_deposit && ctx.attached_deposit < ACCESS_KEY_ALLOWANCE {
        Some(DropError::InsufficientDeposit)
    } else {
        None
    }
}

/// The permit that an issuance for `public_key` asks for: the contract's
/// account is the one that gets the key and the only one that the key can
/// call, `claim` is the only method, and the allowance is fixed.
pub open spec fn grant_for(ctx: CallContextView, public_key: Seq<u8>) -> PermitGrantView {
    PermitGrantView {
        account_id: ctx.current_account_id,
        public_key,
        allowance: ACCESS_KEY_ALLOWANCE,
        receiver_id: ctx.current_account_id,
        method_names: "claim"@,
    }
}

/// The result of an issuance: the permit to grant, or the refusal.
pub open spec fn issue_outcome(
    require_minimum_deposit: bool,
    ctx: CallContextView,
    public_key: Seq<u8>,
) -> Result<PermitGrantView, DropError> {
    match issue_refusal(require_minimum_deposit, ctx, public_key) {
        Some(e) => Err(e),
        None => Ok(grant_for(ctx, public_key)),
    }
}

/// The registry after an issuance: with the new record in place of any
/// earlier one under the key, or unchanged where the issuance is refused.
pub open spec fn registry_after_issue(
    registry: Map<Seq<u8>, AssetReferenceView>,
    require_minimum_deposit: bool,
    ctx: CallContextView,
    public_key: Seq<u8>,
    asset: AssetReferenceView,
) -> Map<Seq<u8>, AssetReferenceView> {
    if issue_refusal(require_minimum_deposit, ctx, public_key) is None {
        registry.insert(public_key, asset)
    } else {
        registry
    }
}

/// The view of the result of an issuance.
pub open spec fn granted(result: Result<PermitGrant, DropError>) -> Result<
    PermitGrantView,
    DropError,
> {
    match result {
        Ok(grant) => Ok(grant@),
        Err(e) => Err(e),
    }
}

/// Issues a capability for `asset` under `public_key`.
///
/// Refused with `EmptyPublicKey` where the key has no bytes, else with
/// `InsufficientDeposit` where `require_minimum_deposit` is set and the
/// attached deposit is below [`ACCESS_KEY_ALLOWANCE`]; a refused issuance
/// leaves the registry as it was. Otherwise the record replaces whatever was
/// recorded under the key, and the permit to grant is returned.
pub fn issue(
    registry: &mut Registry,
    require_minimum_deposit: bool,
    ctx: &CallContext,
    public_key: Vec<u8>,
    asset: AssetReference,
) -> (result: Result<PermitGrant, DropError>)
    ensures
        final(registry)@ == registry_after_issue(
            old(registry)@,
            require_minimum_deposit,
            ctx@,
            public_key@,
            asset@,
        ),
        granted(result) == issue_outcome(require_minimum_deposit, ctx@, public_key@),
{
    if public_key.len() == 0 {
        return Err(DropError::EmptyPublicKey);
    }
    if require_minimum_deposit && ctx.attached_deposit < ACCESS_KEY_ALLOWANCE {
        return Err(DropError::InsufficientDeposit);
    }
    let grant = PermitGrant {
        account_id: ctx.current_account_id.clone(),
        public_key: copy_bytes(&public_key),
        allowance: ACCESS_KEY_ALLOWANCE,
        receiver_id: ctx.current_account_id.clone(),
        method_names: "claim".to_owned(),
    };
    registry.insert(public_key, asset);
    Ok(grant)
}

} // verus!
