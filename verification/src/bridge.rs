//! The approval bridge.
//!
//! A registry of tokens that approves the contract for one of its tokens
//! notifies the contract, and carries in the notification's message the
//! public key that the token is dropped for. The bridge turns the
//! notification into an issuance of a remote asset reference.
//!
//! The bridge takes the caller of the notification for the registry that
//! holds the token, and does not verify it: whoever calls is recorded as the
//! registry to settle with.

use vstd::prelude::*;
use crate::capability::{AssetReference, AssetReferenceView, Registry};
use crate::error::DropError;
use crate::host::{CallContext, CallContextView, PermitGrant, PermitGrantView};
use crate::issuer::{granted, issue, issue_outcome};
use crate::key::{decode_public_key, decoded_public_key, well_formed_public_key};

verus! {

/// The asset reference that a notification stands for: the caller is the
/// registry, the notified owner is the recorded owner.
pub open spec fn approved_asset(
    ctx: CallContextView,
    token_id: Seq<char>,
    owner_id: Seq<char>,
    approval_id: u64,
) -> AssetReferenceView {
    AssetReferenceView::Remote {
        registry_account: ctx.predecessor_account_id,
        token_id,
        approval_id,
        recorded_owner: owner_id,
    }
}

/// The result of a notification whose message decodes to `decoded`: the
/// permit to grant for the key it carries; or the refusal, where the message
/// carries no key or the issuance for the key it carries is refused.
pub open spec fn approval_outcome(
    require_minimum_deposit: bool,
    ctx: CallContextView,
    decoded: Option<Seq<u8>>,
) -> Result<PermitGrantView, DropError> {
    match decoded {
        None => Err(DropError::MalformedMessage),
        Some(public_key) => issue_outcome(require_minimum_deposit, ctx, public_key),
    }
}

/// The registry after a notification whose message decodes to `decoded`:
/// with the record of the approved asset under the key, or unchanged where
/// the notification is refused.
pub open spec fn registry_after_approval(
    registry: Map<Seq<u8>, AssetReferenceView>,
    require_minimum_deposit: bool,
    ctx: CallContextView,
    token_id: Seq<char>,
    owner_id: Seq<char>,
    approval_id: u64,
    decoded: Option<Seq<u8>>,
) -> Map<Seq<u8>, AssetReferenceView> {
    match decoded {
        Some(public_key) if approval_outcome(require_minimum_deposit, ctx, decoded) is Ok => {
            registry.insert(public_key, approved_asset(ctx, token_id, owner_id, approval_id))
        },
        _ => registry,
    }
}

/// The view of an optional key.
pub open spec fn key_view(key: Option<Vec<u8>>) -> Option<Seq<u8>> {
    match key {
        Some(k) => Some(k@),
        None => None,
    }
}

/// Serves a notification whose message has been decoded to `decoded`.
///
/// Refused with `MalformedMessage` where the message carried no key, else as
/// the issuance for that key is refused. Otherwise the capability for the
/// remote asset is issued under the key.
pub fn issue_for_approval(
    registry: &mut Registry,
    require_minimum_deposit: bool,
    ctx: &CallContext,
    token_id: String,
    owner_id: String,
    approval_id: u64,
    decoded: Option<Vec<u8>>,
) -> (result: Result<PermitGrant, DropError>)
    ensures
        final(registry)@ == registry_after_approval(
            old(registry)@,
            require_minimum_deposit,
            ctx@,
            token_id@,
            owner_id@,
            approval_id,
            key_view(decoded),
        ),
        granted(result) == approval_outcome(require_minimum_deposit, ctx@, key_view(decoded)),
{
    match decoded {
        None => Err(DropError::MalformedMessage),
        Some(public_key) => {
            let asset = AssetReference::Remote {
                registry_account: ctx.predecessor_account_id.clone(),
                token_id,
                approval_id,
                recorded_owner: owner_id,
            };
            issue(registry, require_minimum_deposit, ctx, public_key, asset)
        },
    }
}

/// Serves the notification that the calling registry approved the contract
/// for its token `token_id`, owned by `owner_id`, under `approval_id`.
///
/// The message is decoded to a public key, and the notification is served as
/// [`issue_for_approval`] says for what the decoding gives. A key that comes
/// out of the decoding is never empty, so a refusal is `MalformedMessage` or
/// `InsufficientDeposit`.
pub fn on_external_approval(
    registry: &mut Registry,
    require_minimum_deposit: bool,
    ctx: &CallContext,
    token_id: String,
    owner_id: String,
    approval_id: u64,
    message: &str,
) -> (result: Result<PermitGrant, DropError>)
    ensures
        final(registry)@ == registry_after_approval(
            old(registry)@,
            require_minimum_deposit,
            ctx@,
            token_id@,
            owner_id@,
            approval_id,
            decoded_public_key(message@),
        ),
        granted(result) == approval_outcome(
            require_minimum_deposit,
            ctx@,
            decoded_public_key(message@),
        ),
        decoded_public_key(message@) matches Some(k) ==> well_formed_public_key(k),
        result != Err::<PermitGrant, DropError>(DropError::EmptyPublicKey),
{
    let decoded = decode_public_key(message);
    issue_for_approval(
        registry,
        require_minimum_deposit,
        ctx,
        token_id,
        owner_id,
        approval_id,
        decoded,
    )
}

} // verus!
