//! Capabilities and the registry that holds them.
//!
//! A capability binds a public key to an asset reference. It is unclaimed
//! while the registry holds a record under its key, and claimed or void once
//! it does not: the registry keeps no other state.

use vstd::prelude::*;
use crate::assoc::AssocMap;

verus! {

/// The identifier of a token in the ledger of the contract itself.
pub type NftId = u64;

/// The asset that a capability stands for.
#[allow(inconsistent_fields)]
#[derive(Debug, PartialEq, Eq)]
pub enum AssetReference {
    /// A token of the contract's own ledger.
    Local { token_id: NftId },
    /// A token of another registry, which approved the contract to move it.
    Remote {
        /// The registry that holds the token.
        registry_account: String,
        /// The token in that registry.
        token_id: String,
        /// The approval that the registry gave for it.
        approval_id: u64,
        /// The owner of the token when the approval was given.
        recorded_owner: String,
    },
}

/// An asset reference as a mathematical value.
#[allow(inconsistent_fields)]
pub enum AssetReferenceView {
    Local { token_id: NftId },
    Remote {
        registry_account: Seq<char>,
        token_id: Seq<char>,
        approval_id: u64,
        recorded_owner: Seq<char>,
    },
}

impl View for AssetReference {
    type V = AssetReferenceView;

    open spec fn view(&self) -> AssetReferenceView {
        match *self {
            AssetReference::Local { token_id } => AssetReferenceView::Local { token_id },
            AssetReference::Remote { registry_account, token_id, approval_id, recorded_owner } => {
                AssetReferenceView::Remote {
                    registry_account: registry_account@,
                    token_id: token_id@,
                    approval_id,
                    recorded_owner: recorded_owner@,
                }
            },
        }
    }
}

impl Clone for AssetReference {
    fn clone(&self) -> (copy: Self)
        ensures
            copy@ == self@,
    {
        match self {
            AssetReference::Local { token_id } => AssetReference::Local { token_id: *token_id },
            AssetReference::Remote { registry_account, token_id, approval_id, recorded_owner } => {
                AssetReference::Remote {
                    registry_account: registry_account.clone(),
                    token_id: token_id.clone(),
                    approval_id: *approval_id,
                    recorded_owner: recorded_owner.clone(),
                }
            },
        }
    }
}

/// The capabilities that are issued and not yet claimed, by public key.
///
/// Its view is the map from the bytes of a key to the asset reference of the
/// capability under it. A key is in the map's domain exactly while its
/// capability is unclaimed.
#[derive(Debug)]
pub struct Registry {
    records: AssocMap<Vec<u8>, AssetReference>,
}

impl View for Registry {
    type V = Map<Seq<u8>, AssetReferenceView>;

    closed spec fn view(&self) -> Map<Seq<u8>, AssetReferenceView> {
        self.records@
    }
}

impl Registry {
    /// A registry without capabilities.
    pub fn new() -> (registry: Self)
        ensures
            registry@ == Map::<Seq<u8>, AssetReferenceView>::empty(),
    {
        Registry { records: AssocMap::new() }
    }

    /// Records `asset` under `key`, in place of whatever was recorded there.
    pub fn insert(&mut self, key: Vec<u8>, asset: AssetReference)
        ensures
            final(self)@ == old(self)@.insert(key@, asset@),
    {
        let _ = self.records.insert(key, asset);
    }

    /// The asset recorded under `key`, where there is one. Changes nothing.
    pub fn lookup(&self, key: &Vec<u8>) -> (found: Option<&AssetReference>)
        ensures
            match found {
                Some(asset) => self@.contains_key(key@) && asset@ == self@[key@],
                None => !self@.contains_key(key@),
            },
    {
        self.records.get(key)
    }

    /// Takes the record under `key` out of the registry and returns its
    /// asset; returns nothing, and changes nothing, where there is none.
    pub fn remove(&mut self, key: &Vec<u8>) -> (taken: Option<AssetReference>)
        ensures
            final(self)@ == old(self)@.remove(key@),
            match taken {
                Some(asset) => old(self)@.contains_key(key@) && asset@ == old(self)@[key@],
                None => !old(self)@.contains_key(key@) && final(self)@ == old(self)@,
            },
    {
        let taken = self.records.remove(key);
        proof {
            if taken is None {
                assert(old(self)@.remove(key@) =~= old(self)@);
            }
        }
        taken
    }
}

} // verus!
