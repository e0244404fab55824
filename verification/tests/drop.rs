use near_sdk::json_types::Base58PublicKey;
use std::convert::TryInto;
use web3games::capability::{AssetReference, Registry};
use web3games::coordinator::{claim, settle};
use web3games::drop::{Drop, NFTDrop};
use web3games::error::{DropError, ErrorKind};
use web3games::host::{
    CallContext, ClaimReceipt, PermitGrant, PermitRevocation, Settlement, ACCESS_KEY_ALLOWANCE,
    GAS, GAS_FOR_NFT_TRANSFER_CALL, GAS_FOR_RESOLVE_TRANSFER,
};
use web3games::issuer::issue;
use web3games::nft::{Near721, ERC721};

fn get_context(predecessor_account_id: String, _storage_usage: u64) -> CallContext {
    CallContext {
        current_account_id: "alice.testnet".to_string(),
        predecessor_account_id,
        signer_account_pk: vec![0, 1, 2],
        attached_deposit: 0,
    }
}

/// A call that the contract makes to itself, paid for by the permit of `key`.
fn signed_by(key: &[u8]) -> CallContext {
    CallContext {
        current_account_id: "alice.testnet".to_string(),
        predecessor_account_id: "alice.testnet".to_string(),
        signer_account_pk: key.to_vec(),
        attached_deposit: 0,
    }
}

fn depositing(amount: u128) -> CallContext {
    CallContext {
        current_account_id: "alice.testnet".to_string(),
        predecessor_account_id: "zombie.testnet".to_string(),
        signer_account_pk: vec![9, 9, 9],
        attached_deposit: amount,
    }
}

fn new_drop() -> NFTDrop {
    NFTDrop::new("zombie.testnet".to_string()).unwrap()
}

#[test]
fn test_add() {
    let context = get_context("zombie.testnet".to_string(), 1024 * 300);
    let mut contract = NFTDrop::new("zombie.testnet".to_string()).unwrap();
    let pk: Base58PublicKey = "qSq3LoufLvTCTNGC3LJePMDGrok8dHMQ5A1YD9psbiz".try_into().unwrap();
    let key: Vec<u8> = pk.into();
    let grant = contract.add(&context, key.clone(), 1).unwrap();
    assert_eq!(
        grant,
        PermitGrant {
            account_id: "alice.testnet".to_string(),
            public_key: key.clone(),
            allowance: 1_000_000_000_000_000_000_000_000,
            receiver_id: "alice.testnet".to_string(),
            method_names: "claim".to_string(),
        }
    );
    assert_eq!(contract.accounts.lookup(&key), Some(&AssetReference::Local { token_id: 1 }));
}

#[test]
fn constants_have_their_values() {
    assert_eq!(ACCESS_KEY_ALLOWANCE, 1_000_000_000_000_000_000_000_000);
    assert_eq!(GAS, 20_000_000_000_000);
    assert_eq!(GAS_FOR_RESOLVE_TRANSFER, 10_000_000_000_000);
    assert_eq!(GAS_FOR_NFT_TRANSFER_CALL, 35_000_000_000_000);
}

#[test]
fn new_drop_refuses_an_invalid_owner() {
    for owner in ["Zombie.testnet", "z", "", "zombie..testnet", ".zombie"] {
        let refusal = NFTDrop::new(owner.to_string()).unwrap_err();
        assert_eq!(refusal, DropError::InvalidOwner, "owner {:?}", owner);
        assert_eq!(refusal.message(), "Owner's account ID is invalid.");
        assert_eq!(refusal.kind(), ErrorKind::Validation);
    }
    let drop = new_drop();
    assert_eq!(drop.require_minimum_deposit, false);
    assert_eq!(drop.ledger, None);
    assert_eq!(drop.accounts.lookup(&vec![0, 1, 2]), None);
}

#[test]
fn local_drop_is_claimed_once() {
    let pk = vec![0u8, 1, 2];
    let mut drop = new_drop().with_minimum_deposit(true);
    let grant = drop.add(&depositing(ACCESS_KEY_ALLOWANCE), pk.clone(), 7).unwrap();
    assert_eq!(grant.public_key, pk);
    assert_eq!(grant.account_id, "alice.testnet");
    assert_eq!(grant.receiver_id, "alice.testnet");
    assert_eq!(grant.method_names, "claim");
    assert_eq!(grant.allowance, ACCESS_KEY_ALLOWANCE);
    assert_eq!(drop.accounts.lookup(&pk), Some(&AssetReference::Local { token_id: 7 }));

    let receipt = drop.claim(&signed_by(&pk), "bob".to_string()).unwrap();
    assert_eq!(
        receipt,
        ClaimReceipt {
            revocation: PermitRevocation {
                account_id: "alice.testnet".to_string(),
                public_key: pk.clone(),
            },
            settlement: Settlement::Reassign { token_id: 7, receiver_id: "bob".to_string() },
        }
    );
    assert_eq!(drop.accounts.lookup(&pk), None);

    assert_eq!(drop.claim(&signed_by(&pk), "bob".to_string()), Err(DropError::UnknownKey));
}

#[test]
fn local_drop_settles_in_the_ledger() {
    // The drop contract holds token 7 in the ledger and hands it to the claimer.
    let operator = get_context("zombie.testnet".to_string(), 0);
    let mut ledger = Near721::new("zombie.testnet".to_string()).unwrap();
    ledger.mint(&operator, "drop.testnet".to_string(), 7).unwrap();

    let pk = vec![0u8, 1, 2];
    let mut drop = new_drop();
    drop.add(&operator, pk.clone(), 7).unwrap();
    let receipt = drop.claim(&signed_by(&pk), "bob".to_string()).unwrap();
    match receipt.settlement {
        Settlement::Reassign { token_id, receiver_id } => {
            let as_drop = get_context("drop.testnet".to_string(), 0);
            ledger
                .transfer_from(&as_drop, "drop.testnet".to_string(), receiver_id, token_id)
                .unwrap();
        }
        other => panic!("unexpected settlement {:?}", other),
    }
    assert_eq!(ledger.owner_of(7), Ok("bob".to_string()));
}

#[test]
fn local_drop_with_a_ledger_calls_it() {
    let pk = vec![3u8, 4];
    let mut drop = new_drop().with_ledger("zombie3.testnet".to_string());
    assert_eq!(drop.ledger, Some("zombie3.testnet".to_string()));
    drop.add(&depositing(0), pk.clone(), 11).unwrap();
    let receipt = drop.claim(&signed_by(&pk), "bob.testnet".to_string()).unwrap();
    assert_eq!(
        receipt.settlement,
        Settlement::LedgerCall {
            account_id: "zombie3.testnet".to_string(),
            method_name: "transfer_from".to_string(),
            from: "alice.testnet".to_string(),
            to: "bob.testnet".to_string(),
            token_id: 11,
            deposit: 0,
            gas: 20_000_000_000_000,
        }
    );
    assert_eq!(
        receipt.revocation,
        PermitRevocation { account_id: "alice.testnet".to_string(), public_key: pk }
    );
}

#[test]
fn claim_is_served_at_most_once() {
    let pk = vec![7u8; 33];
    let mut drop = new_drop();
    drop.add(&depositing(0), pk.clone(), 1).unwrap();
    let mut served = 0;
    let mut unknown = 0;
    for attempt in 0..5 {
        match drop.claim(&signed_by(&pk), format!("claimer{}.testnet", attempt)) {
            Ok(receipt) => {
                served += 1;
                assert_eq!(
                    receipt.settlement,
                    Settlement::Reassign { token_id: 1, receiver_id: "claimer0.testnet".to_string() }
                );
            }
            Err(e) => {
                assert_eq!(e, DropError::UnknownKey);
                unknown += 1;
            }
        }
    }
    assert_eq!(served, 1);
    assert_eq!(unknown, 4);
}

#[test]
fn claim_without_issuance_is_unknown() {
    let mut drop = new_drop();
    assert_eq!(drop.claim(&signed_by(&[1, 2, 3]), "bob".to_string()), Err(DropError::UnknownKey));
    drop.add(&depositing(0), vec![1, 2, 4], 1).unwrap();
    assert_eq!(drop.claim(&signed_by(&[1, 2, 3]), "bob".to_string()), Err(DropError::UnknownKey));
    assert_eq!(drop.claim(&signed_by(&[1, 2]), "bob".to_string()), Err(DropError::UnknownKey));
    assert_eq!(drop.claim(&signed_by(&[]), "bob".to_string()), Err(DropError::UnknownKey));
    assert_eq!(drop.accounts.lookup(&vec![1, 2, 4]), Some(&AssetReference::Local { token_id: 1 }));
}

#[test]
fn claim_from_another_account_is_refused() {
    let pk = vec![0u8, 1, 2];
    let mut drop = new_drop();
    drop.add(&depositing(0), pk.clone(), 1).unwrap();
    // The key is the right one, the destination is valid, the caller is not the contract.
    let foreign = get_context("zombie.testnet".to_string(), 0);
    assert_eq!(foreign.signer_account_pk, pk);
    assert_eq!(drop.claim(&foreign, "bob".to_string()), Err(DropError::ForeignCaller));
    // The caller is tested before the destination and before the key.
    assert_eq!(drop.claim(&foreign, "".to_string()), Err(DropError::ForeignCaller));
    let mut stranger = get_context("zombie.testnet".to_string(), 0);
    stranger.signer_account_pk = vec![5];
    assert_eq!(drop.claim(&stranger, "bob".to_string()), Err(DropError::ForeignCaller));
    assert_eq!(drop.accounts.lookup(&pk), Some(&AssetReference::Local { token_id: 1 }));
    assert!(drop.claim(&signed_by(&pk), "bob".to_string()).is_ok());
}

#[test]
fn reissue_overwrites() {
    let pk = vec![0u8, 1, 2];
    let mut drop = new_drop();
    drop.add(&depositing(0), pk.clone(), 1).unwrap();
    drop.add(&depositing(0), pk.clone(), 2).unwrap();
    let receipt = drop.claim(&signed_by(&pk), "bob".to_string()).unwrap();
    assert_eq!(
        receipt.settlement,
        Settlement::Reassign { token_id: 2, receiver_id: "bob".to_string() }
    );
    assert_eq!(drop.claim(&signed_by(&pk), "bob".to_string()), Err(DropError::UnknownKey));
}

#[test]
fn invalid_destination_leaves_the_capability() {
    let pk = vec![0u8, 1, 2];
    let mut drop = new_drop();
    drop.add(&depositing(0), pk.clone(), 7).unwrap();
    let long = "a".repeat(65);
    for destination in ["", "a", "Bob", "bob.", ".bob", "bo..b", "bob@near", "b_-b", long.as_str()]
    {
        assert_eq!(
            drop.claim(&signed_by(&pk), destination.to_string()),
            Err(DropError::InvalidAccountId),
            "destination {:?}",
            destination
        );
        assert_eq!(drop.accounts.lookup(&pk), Some(&AssetReference::Local { token_id: 7 }));
    }
    // An invalid destination is reported before an unknown key.
    assert_eq!(drop.claim(&signed_by(&[8]), "".to_string()), Err(DropError::InvalidAccountId));
    let receipt = drop.claim(&signed_by(&pk), "bob".to_string()).unwrap();
    assert_eq!(
        receipt.settlement,
        Settlement::Reassign { token_id: 7, receiver_id: "bob".to_string() }
    );
}

#[test]
fn valid_destinations_are_accepted() {
    let shortest = "aa".to_string();
    let longest = "0123456789012345678901234567890123456789012345678901234567890123".to_string();
    assert_eq!(longest.len(), 64);
    for destination in [shortest, longest, "b-o_w_e-n".to_string(), "over.9000".to_string()] {
        let pk = vec![1u8];
        let mut drop = new_drop();
        drop.add(&depositing(0), pk.clone(), 1).unwrap();
        let receipt = drop.claim(&signed_by(&pk), destination.clone()).unwrap();
        assert_eq!(
            receipt.settlement,
            Settlement::Reassign { token_id: 1, receiver_id: destination }
        );
    }
}

#[test]
fn issue_refuses_an_empty_key() {
    let mut drop = new_drop();
    assert_eq!(drop.add(&depositing(ACCESS_KEY_ALLOWANCE), vec![], 1), Err(DropError::EmptyPublicKey));
    assert_eq!(drop.accounts.lookup(&vec![]), None);
    // The key is tested before the deposit.
    let mut strict = new_drop().with_minimum_deposit(true);
    assert_eq!(strict.add(&depositing(0), vec![], 1), Err(DropError::EmptyPublicKey));
}

#[test]
fn issue_asks_for_the_deposit_where_the_policy_says_so() {
    let pk = vec![0u8, 1, 2];
    let mut strict = new_drop().with_minimum_deposit(true);
    assert_eq!(strict.require_minimum_deposit, true);
    assert_eq!(
        strict.add(&depositing(ACCESS_KEY_ALLOWANCE - 1), pk.clone(), 1),
        Err(DropError::InsufficientDeposit)
    );
    assert_eq!(strict.add(&depositing(0), pk.clone(), 1), Err(DropError::InsufficientDeposit));
    assert_eq!(strict.accounts.lookup(&pk), None);
    assert!(strict.add(&depositing(ACCESS_KEY_ALLOWANCE), pk.clone(), 1).is_ok());
    assert!(strict.add(&depositing(u128::MAX), pk.clone(), 2).is_ok());
    assert_eq!(strict.accounts.lookup(&pk), Some(&AssetReference::Local { token_id: 2 }));

    let mut lenient = strict.with_minimum_deposit(false);
    assert!(lenient.add(&depositing(0), vec![5], 3).is_ok());
    assert_eq!(lenient.accounts.lookup(&pk), Some(&AssetReference::Local { token_id: 2 }));
}

#[test]
fn registry_inserts_looks_up_and_removes() {
    let mut registry = Registry::new();
    let a = vec![1u8, 2, 3];
    let b = vec![1u8, 2];
    assert_eq!(registry.lookup(&a), None);
    assert_eq!(registry.remove(&a), None);
    registry.insert(a.clone(), AssetReference::Local { token_id: 1 });
    registry.insert(b.clone(), AssetReference::Local { token_id: 2 });
    assert_eq!(registry.lookup(&a), Some(&AssetReference::Local { token_id: 1 }));
    assert_eq!(registry.lookup(&b), Some(&AssetReference::Local { token_id: 2 }));
    registry.insert(a.clone(), AssetReference::Local { token_id: 3 });
    assert_eq!(registry.lookup(&a), Some(&AssetReference::Local { token_id: 3 }));
    assert_eq!(registry.lookup(&b), Some(&AssetReference::Local { token_id: 2 }));
    assert_eq!(registry.remove(&a), Some(AssetReference::Local { token_id: 3 }));
    assert_eq!(registry.remove(&a), None);
    assert_eq!(registry.lookup(&a), None);
    assert_eq!(registry.lookup(&b), Some(&AssetReference::Local { token_id: 2 }));
    assert_eq!(registry.lookup(&vec![]), None);
    let asset = AssetReference::Local { token_id: 2 };
    assert_eq!(asset.clone(), asset);
}

#[test]
fn issue_and_claim_work_on_a_bare_registry() {
    let mut registry = Registry::new();
    let pk = vec![4u8; 65];
    let remote = AssetReference::Remote {
        registry_account: "nft.testnet".to_string(),
        token_id: "42".to_string(),
        approval_id: 3,
        recorded_owner: "alice".to_string(),
    };
    assert_eq!(remote.clone(), remote);
    let grant = issue(&mut registry, true, &depositing(ACCESS_KEY_ALLOWANCE), pk.clone(), remote)
        .unwrap();
    assert_eq!(grant.public_key, pk);
    let receipt = claim(
        &mut registry,
        &Some("ledger.testnet".to_string()),
        &signed_by(&pk),
        "carol".to_string(),
    )
    .unwrap();
    // A configured ledger plays no part in the settlement of a remote asset.
    assert_eq!(
        receipt.settlement,
        Settlement::RegistryCall {
            account_id: "nft.testnet".to_string(),
            method_name: "nft_transfer".to_string(),
            receiver_id: "carol".to_string(),
            token_id: "42".to_string(),
            approval_id: 3,
            memo: "".to_string(),
            deposit: 1,
            gas: 35_000_000_000_000,
        }
    );
    assert_eq!(registry.lookup(&pk), None);
}

#[test]
fn settle_builds_each_kind_of_settlement() {
    let ctx = signed_by(&[1]);
    assert_eq!(
        settle(AssetReference::Local { token_id: 5 }, &None, &ctx, "bob".to_string()),
        Settlement::Reassign { token_id: 5, receiver_id: "bob".to_string() }
    );
    assert_eq!(
        settle(
            AssetReference::Local { token_id: 5 },
            &Some("ledger.testnet".to_string()),
            &ctx,
            "bob".to_string()
        ),
        Settlement::LedgerCall {
            account_id: "ledger.testnet".to_string(),
            method_name: "transfer_from".to_string(),
            from: "alice.testnet".to_string(),
            to: "bob".to_string(),
            token_id: 5,
            deposit: 0,
            gas: GAS,
        }
    );
    assert_eq!(
        settle(
            AssetReference::Remote {
                registry_account: "nft.testnet".to_string(),
                token_id: "t".to_string(),
                approval_id: u64::MAX,
                recorded_owner: "o".to_string(),
            },
            &None,
            &ctx,
            "bob".to_string()
        ),
        Settlement::RegistryCall {
            account_id: "nft.testnet".to_string(),
            method_name: "nft_transfer".to_string(),
            receiver_id: "bob".to_string(),
            token_id: "t".to_string(),
            approval_id: u64::MAX,
            memo: "".to_string(),
            deposit: 1,
            gas: GAS_FOR_NFT_TRANSFER_CALL,
        }
    );
}

#[test]
fn refusals_have_their_kinds_and_texts() {
    assert_eq!(DropError::EmptyPublicKey.kind(), ErrorKind::Validation);
    assert_eq!(DropError::InsufficientDeposit.kind(), ErrorKind::Validation);
    assert_eq!(DropError::InvalidAccountId.kind(), ErrorKind::Validation);
    assert_eq!(DropError::InvalidOwner.kind(), ErrorKind::Validation);
    assert_eq!(DropError::MalformedMessage.kind(), ErrorKind::Validation);
    assert_eq!(DropError::ForeignCaller.kind(), ErrorKind::Authorization);
    assert_eq!(DropError::UnknownKey.kind(), ErrorKind::NotFound);
    assert_eq!(DropError::EmptyPublicKey.message(), "Public key is empty");
    assert_eq!(
        DropError::InsufficientDeposit.message(),
        "Attached deposit must cover ACCESS_KEY_ALLOWANCE"
    );
    assert_eq!(DropError::InvalidAccountId.message(), "Invalid account id");
    assert_eq!(DropError::InvalidOwner.message(), "Owner's account ID is invalid.");
    assert_eq!(DropError::MalformedMessage.message(), "Valid send args");
    assert_eq!(DropError::ForeignCaller.message(), "Claim only can come from this account");
    assert_eq!(DropError::UnknownKey.message(), "Unexpected public key");
}

#[test]
fn a_claim_reads_the_record_of_its_key_alone() {
    let key = vec![1u8, 2, 3];
    let other = vec![4u8, 5, 6];
    let mut whole = Registry::new();
    whole.insert(other.clone(), AssetReference::Local { token_id: 1 });
    whole.insert(key.clone(), AssetReference::Local { token_id: 2 });
    let mut at_hand = Registry::new();
    at_hand.insert(key.clone(), AssetReference::Local { token_id: 2 });

    let from_whole = claim(&mut whole, &None, &signed_by(&key), "bob".to_string());
    let from_one = claim(&mut at_hand, &None, &signed_by(&key), "bob".to_string());
    assert_eq!(
        from_whole.as_ref().unwrap().settlement,
        Settlement::Reassign { token_id: 2, receiver_id: "bob".to_string() }
    );
    assert_eq!(from_whole, from_one);
    assert_eq!(whole.lookup(&key), None);
    assert_eq!(at_hand.lookup(&key), None);
    assert_eq!(whole.lookup(&other), Some(&AssetReference::Local { token_id: 1 }));

    // An issuance gives the same permit and the same record whatever the registry holds.
    let mut empty = Registry::new();
    let asset = AssetReference::Local { token_id: 9 };
    let on_whole = issue(&mut whole, false, &depositing(0), other.clone(), asset.clone());
    let on_empty = issue(&mut empty, false, &depositing(0), other.clone(), asset.clone());
    assert_eq!(on_whole, on_empty);
    assert_eq!(whole.lookup(&other), Some(&asset));
    assert_eq!(empty.lookup(&other), Some(&asset));
}
