//! Histories of calls, and what holds of every history.
//!
//! Each call on a drop runs to its end before the next begins, so whatever
//! the callers do at the same time reaches the registry as a sequence of
//! calls in some order. The laws below hold of every such sequence.

use vstd::prelude::*;
use crate::account::valid_account_id;
use crate::capability::AssetReferenceView;
use crate::coordinator::{claim_outcome, claim_refusal, receipt_for, registry_after_claim};
use crate::error::DropError;
use crate::host::{CallContextView, ClaimReceiptView};
use crate::issuer::{issue_refusal, registry_after_issue};

verus! {

/// One call on a drop.
pub enum Call {
    /// An issuance for `asset` under `public_key`.
    Issue { ctx: CallContextView, public_key: Seq<u8>, asset: AssetReferenceView },
    /// A claim in favour of `destination`, signed with the key of `ctx`.
    Claim { ctx: CallContextView, destination: Seq<char> },
}

impl Call {
    /// The call is an issuance under `key`, served or not.
    pub open spec fn issues(self, key: Seq<u8>) -> bool {
        self matches Call::Issue { public_key, .. } && public_key == key
    }

    /// The call is a claim signed with `key`, served or not.
    pub open spec fn claims(self, key: Seq<u8>) -> bool {
        self matches Call::Claim { ctx, .. } && ctx.signer_account_pk == key
    }

    /// The call is a claim made by the contract's own account, with a
    /// destination that has the syntax of an account identifier: a claim that
    /// is refused only where its key holds no capability.
    pub open spec fn claims_in_order(self) -> bool {
        self matches Call::Claim { ctx, destination } && ctx.predecessor_account_id
            == ctx.current_account_id && valid_account_id(destination)
    }
}

/// The registry after `call`.
pub open spec fn after(
    registry: Map<Seq<u8>, AssetReferenceView>,
    require_minimum_deposit: bool,
    call: Call,
) -> Map<Seq<u8>, AssetReferenceView> {
    match call {
        Call::Issue { ctx, public_key, asset } => registry_after_issue(
            registry,
            require_minimum_deposit,
            ctx,
            public_key,
            asset,
        ),
        Call::Claim { ctx, destination } => registry_after_claim(registry, ctx, destination),
    }
}

/// Whether `call` is served on `registry`, and not refused.
pub open spec fn served(
    registry: Map<Seq<u8>, AssetReferenceView>,
    require_minimum_deposit: bool,
    call: Call,
) -> bool {
    match call {
        Call::Issue { ctx, public_key, asset } => issue_refusal(
            require_minimum_deposit,
            ctx,
            public_key,
        ) is None,
        Call::Claim { ctx, destination } => claim_refusal(registry, ctx, destination) is None,
    }
}

/// The registry after the first `n` calls of `calls`, in their order.
pub open spec fn after_first(
    registry: Map<Seq<u8>, AssetReferenceView>,
    require_minimum_deposit: bool,
    calls: Seq<Call>,
    n: int,
) -> Map<Seq<u8>, AssetReferenceView>
    decreases n,
{
    if n <= 0 {
        registry
    } else {
        after(
            after_first(registry, require_minimum_deposit, calls, n - 1),
            require_minimum_deposit,
            calls[n - 1],
        )
    }
}

/// Whether the call at index `i` of `calls` is served, on the registry that
/// the calls before it leave.
pub open spec fn served_at(
    registry: Map<Seq<u8>, AssetReferenceView>,
    require_minimum_deposit: bool,
    calls: Seq<Call>,
    i: int,
) -> bool {
    served(
        after_first(registry, require_minimum_deposit, calls, i),
        require_minimum_deposit,
        calls[i],
    )
}

/// A key that holds no capability holds none after any calls, as long as
/// none of them is an issuance under it.
pub proof fn lemma_absent_key_stays_absent(
    registry: Map<Seq<u8>, AssetReferenceView>,
    require_minimum_deposit: bool,
    calls: Seq<Call>,
    key: Seq<u8>,
    from: int,
    to: int,
)
    requires
        0 <= from <= to <= calls.len(),
        !after_first(registry, require_minimum_deposit, calls, from).contains_key(key),
        forall|i: int| from <= i < to ==> !(#[trigger] calls[i]).issues(key),
    ensures
        !after_first(registry, require_minimum_deposit, calls, to).contains_key(key),
    decreases to - from,
{
    if from < to {
        lemma_absent_key_stays_absent(registry, require_minimum_deposit, calls, key, from, to - 1);
        assert(!calls[to - 1].issues(key));
    }
}

/// A capability is claimed at most once.
///
/// In any sequence of calls, of two claims signed with the same key at most
/// one is served, unless an issuance under that key stands between them.
pub proof fn law_claimed_at_most_once(
    registry: Map<Seq<u8>, AssetReferenceView>,
    require_minimum_deposit: bool,
    calls: Seq<Call>,
    key: Seq<u8>,
    first: int,
    second: int,
)
    requires
        0 <= first < second < calls.len(),
        calls[first].claims(key),
        calls[second].claims(key),
        forall|i: int| first < i < second ==> !(#[trigger] calls[i]).issues(key),
    ensures
        !(served_at(registry, require_minimum_deposit, calls, first) && served_at(
            registry,
            require_minimum_deposit,
            calls,
            second,
        )),
{
    if served_at(registry, require_minimum_deposit, calls, first) {
        assert(!after_first(registry, require_minimum_deposit, calls, first + 1).contains_key(key));
        lemma_absent_key_stays_absent(
            registry,
            require_minimum_deposit,
            calls,
            key,
            first + 1,
            second,
        );
    }
}

/// After an issuance, exactly one claim is served.
///
/// Let an issuance under `key` be served, and let any number of claims
/// follow, each signed with `key`, made by the contract's own account and
/// with a valid destination. Then the first of them is served, and settles
/// the asset that was issued; every other one is refused with `UnknownKey`.
pub proof fn law_claimed_exactly_once(
    registry: Map<Seq<u8>, AssetReferenceView>,
    require_minimum_deposit: bool,
    ledger: Option<Seq<char>>,
    issue_ctx: CallContextView,
    key: Seq<u8>,
    asset: AssetReferenceView,
    claims: Seq<Call>,
)
    requires
        issue_refusal(require_minimum_deposit, issue_ctx, key) is None,
        forall|i: int|
            0 <= i < claims.len() ==> (#[trigger] claims[i]).claims(key)
                && claims[i].claims_in_order(),
    ensures
        forall|i: int|
            #![trigger claims[i]]
            0 <= i < claims.len() ==> {
                let issued = registry_after_issue(
                    registry,
                    require_minimum_deposit,
                    issue_ctx,
                    key,
                    asset,
                );
                let before = after_first(issued, require_minimum_deposit, claims, i);
                claims[i] matches Call::Claim { ctx, destination } && claim_outcome(
                    before,
                    ledger,
                    ctx,
                    destination,
                ) == if i == 0 {
                    Ok::<ClaimReceiptView, DropError>(receipt_for(asset, ledger, ctx, destination))
                } else {
                    Err::<ClaimReceiptView, DropError>(DropError::UnknownKey)
                }
            },
{
    let issued = registry_after_issue(registry, require_minimum_deposit, issue_ctx, key, asset);
    assert forall|i: int| #![trigger claims[i]] 0 <= i < claims.len() implies {
        let before = after_first(issued, require_minimum_deposit, claims, i);
        claims[i] matches Call::Claim { ctx, destination } && claim_outcome(
            before,
            ledger,
            ctx,
            destination,
        ) == if i == 0 {
            Ok::<ClaimReceiptView, DropError>(receipt_for(asset, ledger, ctx, destination))
        } else {
            Err::<ClaimReceiptView, DropError>(DropError::UnknownKey)
        }
    } by {
        assert(claims[i].claims(key) && claims[i].claims_in_order());
        if i > 0 {
            assert(claims[0].claims(key) && claims[0].claims_in_order());
            assert(after_first(issued, require_minimum_deposit, claims, 0) == issued);
            assert(!after_first(issued, require_minimum_deposit, claims, 1).contains_key(key));
            assert forall|j: int| 1 <= j < i implies !(#[trigger] claims[j]).issues(key) by {
                assert(claims[j].claims(key));
            }
            lemma_absent_key_stays_absent(issued, require_minimum_deposit, claims, key, 1, i);
        }
    }
}

/// No claim without issuance.
///
/// Start from a registry in which `key` holds no capability, such as the
/// empty one, and let any calls follow of which none is an issuance under
/// `key`. Then a claim signed with `key` is refused; where the contract's own
/// account makes it with a valid destination, with `UnknownKey`.
pub proof fn law_no_claim_without_issuance(
    registry: Map<Seq<u8>, AssetReferenceView>,
    require_minimum_deposit: bool,
    ledger: Option<Seq<char>>,
    calls: Seq<Call>,
    key: Seq<u8>,
    ctx: CallContextView,
    destination: Seq<char>,
)
    requires
        !registry.contains_key(key),
        forall|i: int| 0 <= i < calls.len() ==> !(#[trigger] calls[i]).issues(key),
        ctx.signer_account_pk == key,
    ensures
        ({
            let now = after_first(registry, require_minimum_deposit, calls, calls.len() as int);
            &&& claim_outcome(now, ledger, ctx, destination) is Err
            &&& registry_after_claim(now, ctx, destination) == now
            &&& ctx.predecessor_account_id == ctx.current_account_id && valid_account_id(
                destination,
            ) ==> claim_outcome(now, ledger, ctx, destination) == Err::<
                ClaimReceiptView,
                DropError,
            >(DropError::UnknownKey)
        }),
{
    lemma_absent_key_stays_absent(
        registry,
        require_minimum_deposit,
        calls,
        key,
        0,
        calls.len() as int,
    );
}

/// Only the contract's own account claims.
///
/// A claim that any other account makes is refused with `ForeignCaller` and
/// changes nothing, whatever key signed it and whatever the registry holds.
pub proof fn law_foreign_claim_is_refused(
    registry: Map<Seq<u8>, AssetReferenceView>,
    ledger: Option<Seq<char>>,
    ctx: CallContextView,
    destination: Seq<char>,
)
    requires
        ctx.predecessor_account_id != ctx.current_account_id,
    ensures
        claim_outcome(registry, ledger, ctx, destination) == Err::<ClaimReceiptView, DropError>(
            DropError::ForeignCaller,
        ),
        registry_after_claim(registry, ctx, destination) == registry,
{
}

/// A second issuance under a key replaces the first.
///
/// After two served issuances under `key`, a claim signed with `key`, made
/// by the contract's own account with a valid destination, is served and
/// settles the asset of the second issuance.
pub proof fn law_reissue_overwrites(
    registry: Map<Seq<u8>, AssetReferenceView>,
    require_minimum_deposit: bool,
    ledger: Option<Seq<char>>,
    first_ctx: CallContextView,
    first_asset: AssetReferenceView,
    second_ctx: CallContextView,
    second_asset: AssetReferenceView,
    key: Seq<u8>,
    ctx: CallContextView,
    destination: Seq<char>,
)
    requires
        issue_refusal(require_minimum_deposit, first_ctx, key) is None,
        issue_refusal(require_minimum_deposit, second_ctx, key) is None,
        ctx.signer_account_pk == key,
        ctx.predecessor_account_id == ctx.current_account_id,
        valid_account_id(destination),
    ensures
        ({
            let once = registry_after_issue(
                registry,
                require_minimum_deposit,
                first_ctx,
                key,
                first_asset,
            );
            let twice = registry_after_issue(
                once,
                require_minimum_deposit,
                second_ctx,
                key,
                second_asset,
            );
            claim_outcome(twice, ledger, ctx, destination) == Ok::<ClaimReceiptView, DropError>(
                receipt_for(second_asset, ledger, ctx, destination),
            )
        }),
{
}

/// A claim with an invalid destination leaves the capability claimable.
///
/// Where the contract's own account claims with a destination that does not
/// have the syntax of an account identifier, such as the empty one, the claim
/// is refused with `InvalidAccountId` and changes nothing: the same claim
/// with a valid destination is served afterwards exactly if it would have
/// been served before, with the same receipt.
pub proof fn law_invalid_destination_keeps_capability(
    registry: Map<Seq<u8>, AssetReferenceView>,
    ledger: Option<Seq<char>>,
    ctx: CallContextView,
    destination: Seq<char>,
    next_destination: Seq<char>,
)
    requires
        ctx.predecessor_account_id == ctx.current_account_id,
        !valid_account_id(destination),
    ensures
        claim_outcome(registry, ledger, ctx, destination) == Err::<ClaimReceiptView, DropError>(
            DropError::InvalidAccountId,
        ),
        registry_after_claim(registry, ctx, destination) == registry,
        claim_outcome(
            registry_after_claim(registry, ctx, destination),
            ledger,
            ctx,
            next_destination,
        ) == claim_outcome(registry, ledger, ctx, next_destination),
        valid_account_id(next_destination) && registry.contains_key(ctx.signer_account_pk)
            ==> claim_outcome(
            registry_after_claim(registry, ctx, destination),
            ledger,
            ctx,
            next_destination,
        ) is Ok,
        !valid_account_id(Seq::<char>::empty()),
{
}

/// An issuance reads no record.
///
/// What an issuance returns does not depend on the registry, and the
/// issuance changes no record but the one under its key, which it sets
/// whatever was there. So a caller that keeps the records elsewhere serves
/// an issuance with no record at hand.
pub proof fn law_issue_reads_no_record(
    registry: Map<Seq<u8>, AssetReferenceView>,
    require_minimum_deposit: bool,
    ctx: CallContextView,
    public_key: Seq<u8>,
    asset: AssetReferenceView,
)
    ensures
        ({
            let after = registry_after_issue(
                registry,
                require_minimum_deposit,
                ctx,
                public_key,
                asset,
            );
            let alone = registry_after_issue(
                Map::<Seq<u8>, AssetReferenceView>::empty(),
                require_minimum_deposit,
                ctx,
                public_key,
                asset,
            );
            &&& forall|other: Seq<u8>|
                other != public_key ==> (after.contains_key(other) <==> registry.contains_key(
                    other,
                ))
            &&& forall|other: Seq<u8>|
                other != public_key && registry.contains_key(other) ==> after[other]
                    == registry[other]
            &&& issue_refusal(require_minimum_deposit, ctx, public_key) is None ==> {
                &&& alone.contains_key(public_key)
                &&& after.contains_key(public_key)
                &&& after[public_key] == alone[public_key]
            }
            &&& issue_refusal(require_minimum_deposit, ctx, public_key) is Some ==> after
                == registry
        }),
{
}

/// A claim reads one record.
///
/// What a claim returns depends on the registry only through the record
/// under the signing key, and the claim changes no other record. So a caller
/// that keeps the records elsewhere serves a claim with that one record at
/// hand.
pub proof fn law_claim_reads_one_record(
    registry: Map<Seq<u8>, AssetReferenceView>,
    ledger: Option<Seq<char>>,
    ctx: CallContextView,
    destination: Seq<char>,
)
    ensures
        ({
            let key = ctx.signer_account_pk;
            let at_hand = registry.restrict(Set::<Seq<u8>>::empty().insert(key));
            &&& claim_outcome(at_hand, ledger, ctx, destination) == claim_outcome(
                registry,
                ledger,
                ctx,
                destination,
            )
            &&& forall|other: Seq<u8>|
                other != key ==> (registry_after_claim(registry, ctx, destination).contains_key(
                    other,
                ) <==> registry.contains_key(other))
            &&& forall|other: Seq<u8>|
                other != key && registry.contains_key(other) ==> registry_after_claim(
                    registry,
                    ctx,
                    destination,
                )[other] == registry[other]
            &&& registry_after_claim(registry, ctx, destination).contains_key(key)
                == registry_after_claim(at_hand, ctx, destination).contains_key(key)
        }),
{
}

} // verus!
