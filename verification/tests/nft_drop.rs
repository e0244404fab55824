use web3games::bridge::{issue_for_approval, on_external_approval};
use web3games::capability::{AssetReference, Registry};
use web3games::error::DropError;
use web3games::host::{
    CallContext, ClaimReceipt, PermitGrant, PermitRevocation, Settlement, ACCESS_KEY_ALLOWANCE,
};
use web3games::nft_drop::{Acknowledgment, Contract, NFT};

const KEY_TEXT: &str = "6E8sCci9badyRkXb3JoRpBj5p8C6Tw41ELDZoiihKEtp";

/// The bytes that `KEY_TEXT` stands for in base-58.
const KEY_BYTES: [u8; 32] = [
    77, 167, 224, 244, 9, 106, 175, 44, 229, 94, 55, 22, 87, 205, 48, 137, 186, 30, 159, 89, 244,
    214, 226, 123, 208, 46, 71, 42, 22, 166, 29, 193,
];

fn ed25519_key() -> Vec<u8> {
    let mut key = vec![0u8];
    key.extend_from_slice(&KEY_BYTES);
    key
}

fn called_by(predecessor: &str, deposit: u128) -> CallContext {
    CallContext {
        current_account_id: "drop.testnet".to_string(),
        predecessor_account_id: predecessor.to_string(),
        signer_account_pk: vec![9, 9, 9],
        attached_deposit: deposit,
    }
}

fn claiming_with(key: &[u8]) -> CallContext {
    CallContext {
        current_account_id: "drop.testnet".to_string(),
        predecessor_account_id: "drop.testnet".to_string(),
        signer_account_pk: key.to_vec(),
        attached_deposit: 0,
    }
}

fn token_42() -> NFT {
    NFT {
        contract_id: "nft.testnet".to_string(),
        token_id: "42".to_string(),
        approval_id: 3,
        owner_id: "alice".to_string(),
    }
}

#[test]
fn remote_drop_via_approval() {
    let mut contract = Contract::new();
    let message = format!("\"ed25519:{}\"", KEY_TEXT);
    let ack = contract
        .nft_on_approve(
            &called_by("nft.testnet", 0),
            "42".to_string(),
            "alice".to_string(),
            3,
            message,
        )
        .unwrap();
    let pk = ed25519_key();
    assert_eq!(
        ack,
        Acknowledgment {
            grant: PermitGrant {
                account_id: "drop.testnet".to_string(),
                public_key: pk.clone(),
                allowance: ACCESS_KEY_ALLOWANCE,
                receiver_id: "drop.testnet".to_string(),
                method_names: "claim".to_string(),
            },
            reply: "OK".to_string(),
        }
    );
    assert_eq!(
        contract.accounts.lookup(&pk),
        Some(&AssetReference::Remote {
            registry_account: "nft.testnet".to_string(),
            token_id: "42".to_string(),
            approval_id: 3,
            recorded_owner: "alice".to_string(),
        })
    );

    let receipt = contract.claim(&claiming_with(&pk), "carol".to_string()).unwrap();
    assert_eq!(
        receipt,
        ClaimReceipt {
            revocation: PermitRevocation {
                account_id: "drop.testnet".to_string(),
                public_key: pk.clone(),
            },
            settlement: Settlement::RegistryCall {
                account_id: "nft.testnet".to_string(),
                method_name: "nft_transfer".to_string(),
                receiver_id: "carol".to_string(),
                token_id: "42".to_string(),
                approval_id: 3,
                memo: "".to_string(),
                deposit: 1,
                gas: 35_000_000_000_000,
            },
        }
    );
    assert_eq!(contract.accounts.lookup(&pk), None);
    assert_eq!(contract.claim(&claiming_with(&pk), "carol".to_string()), Err(DropError::UnknownKey));
}

#[test]
fn approval_message_may_leave_the_curve_out() {
    let mut contract = Contract::new();
    contract
        .nft_on_approve(
            &called_by("nft.testnet", 0),
            "1".to_string(),
            "alice".to_string(),
            0,
            format!("\"{}\"", KEY_TEXT),
        )
        .unwrap();
    assert!(contract.accounts.lookup(&ed25519_key()).is_some());
    // The text of the message is not the key.
    assert_eq!(contract.accounts.lookup(&KEY_TEXT.as_bytes().to_vec()), None);
    assert_eq!(contract.accounts.lookup(&KEY_BYTES.to_vec()), None);
}

#[test]
fn approval_message_may_carry_a_secp256k1_key() {
    // Sixty-four bytes of zero are sixty-four ones in base-58.
    let text = "1".repeat(64);
    let mut contract = Contract::new();
    let ack = contract
        .nft_on_approve(
            &called_by("nft.testnet", 0),
            "1".to_string(),
            "alice".to_string(),
            0,
            format!("\"secp256k1:{}\"", text),
        )
        .unwrap();
    let mut key = vec![1u8];
    key.extend_from_slice(&[0u8; 64]);
    assert_eq!(ack.grant.public_key, key);
    assert!(contract.accounts.lookup(&key).is_some());
}

#[test]
fn approval_with_a_malformed_message_is_refused() {
    let mut contract = Contract::new();
    let bare = format!("ed25519:{}", KEY_TEXT);
    let short = "\"ed25519:6E8sCci9badyRkXb3JoRpBj5p8C6Tw41\"".to_string();
    let curve = format!("\"rsa:{}\"", KEY_TEXT);
    let wrong_length = format!("\"secp256k1:{}\"", KEY_TEXT);
    let object = format!("{{\"public_key\":\"{}\"}}", KEY_TEXT);
    for message in [
        "".to_string(),
        "{}".to_string(),
        "\"\"".to_string(),
        "\"0OIl\"".to_string(),
        bare,
        short,
        curve,
        wrong_length,
        object,
    ] {
        assert_eq!(
            contract.nft_on_approve(
                &called_by("nft.testnet", ACCESS_KEY_ALLOWANCE),
                "42".to_string(),
                "alice".to_string(),
                3,
                message.clone(),
            ),
            Err(DropError::MalformedMessage),
            "message {:?}",
            message
        );
    }
    assert_eq!(contract.accounts.lookup(&ed25519_key()), None);
}

#[test]
fn approval_asks_for_the_deposit_where_the_policy_says_so() {
    let mut contract = Contract::new().with_minimum_deposit(true);
    let message = format!("\"ed25519:{}\"", KEY_TEXT);
    assert_eq!(
        contract.nft_on_approve(
            &called_by("nft.testnet", ACCESS_KEY_ALLOWANCE - 1),
            "42".to_string(),
            "alice".to_string(),
            3,
            message.clone(),
        ),
        Err(DropError::InsufficientDeposit)
    );
    assert_eq!(contract.accounts.lookup(&ed25519_key()), None);
    // A malformed message is reported before a missing deposit.
    assert_eq!(
        contract.nft_on_approve(
            &called_by("nft.testnet", 0),
            "42".to_string(),
            "alice".to_string(),
            3,
            "nonsense".to_string(),
        ),
        Err(DropError::MalformedMessage)
    );
    assert!(contract
        .nft_on_approve(
            &called_by("nft.testnet", ACCESS_KEY_ALLOWANCE),
            "42".to_string(),
            "alice".to_string(),
            3,
            message,
        )
        .is_ok());
    assert!(contract.accounts.lookup(&ed25519_key()).is_some());
}

#[test]
fn approval_records_its_caller_as_the_registry() {
    let mut registry = Registry::new();
    let message = format!("\"ed25519:{}\"", KEY_TEXT);
    on_external_approval(
        &mut registry,
        false,
        &called_by("anyone.testnet", 0),
        "7".to_string(),
        "owner.testnet".to_string(),
        u64::MAX,
        message.as_str(),
    )
    .unwrap();
    assert_eq!(
        registry.lookup(&ed25519_key()),
        Some(&AssetReference::Remote {
            registry_account: "anyone.testnet".to_string(),
            token_id: "7".to_string(),
            approval_id: u64::MAX,
            recorded_owner: "owner.testnet".to_string(),
        })
    );
}

#[test]
fn approval_for_a_decoded_key() {
    let mut registry = Registry::new();
    let ctx = called_by("nft.testnet", 0);
    assert_eq!(
        issue_for_approval(&mut registry, false, &ctx, "7".to_string(), "o".to_string(), 1, None),
        Err(DropError::MalformedMessage)
    );
    assert_eq!(
        issue_for_approval(
            &mut registry,
            false,
            &ctx,
            "7".to_string(),
            "o".to_string(),
            1,
            Some(vec![])
        ),
        Err(DropError::EmptyPublicKey)
    );
    assert_eq!(
        issue_for_approval(
            &mut registry,
            true,
            &ctx,
            "7".to_string(),
            "o".to_string(),
            1,
            Some(vec![1])
        ),
        Err(DropError::InsufficientDeposit)
    );
    assert_eq!(registry.lookup(&vec![1]), None);
    let grant = issue_for_approval(
        &mut registry,
        false,
        &ctx,
        "7".to_string(),
        "o".to_string(),
        1,
        Some(vec![1]),
    )
    .unwrap();
    assert_eq!(grant.public_key, vec![1]);
    assert_eq!(
        registry.lookup(&vec![1]),
        Some(&AssetReference::Remote {
            registry_account: "nft.testnet".to_string(),
            token_id: "7".to_string(),
            approval_id: 1,
            recorded_owner: "o".to_string(),
        })
    );
}

#[test]
fn send_issues_and_claim_settles() {
    let mut contract = Contract::new();
    assert_eq!(contract.require_minimum_deposit, false);
    let pk = vec![0u8, 1, 2];
    let grant = contract.send(&called_by("alice", 0), pk.clone(), token_42()).unwrap();
    assert_eq!(grant.public_key, pk);
    assert_eq!(grant.account_id, "drop.testnet");
    assert_eq!(token_42().into_asset(), AssetReference::Remote {
        registry_account: "nft.testnet".to_string(),
        token_id: "42".to_string(),
        approval_id: 3,
        recorded_owner: "alice".to_string(),
    });
    assert_eq!(contract.accounts.lookup(&pk), Some(&token_42().into_asset()));

    assert_eq!(
        contract.claim(&called_by("alice", 0), "carol".to_string()),
        Err(DropError::ForeignCaller)
    );
    assert_eq!(
        contract.claim(&claiming_with(&pk), "".to_string()),
        Err(DropError::InvalidAccountId)
    );
    assert_eq!(contract.claim(&claiming_with(&[0, 1]), "carol".to_string()), Err(DropError::UnknownKey));
    let receipt = contract.claim(&claiming_with(&pk), "carol".to_string()).unwrap();
    match receipt.settlement {
        Settlement::RegistryCall { account_id, receiver_id, token_id, approval_id, .. } => {
            assert_eq!(account_id, "nft.testnet");
            assert_eq!(receiver_id, "carol");
            assert_eq!(token_id, "42");
            assert_eq!(approval_id, 3);
        }
        other => panic!("unexpected settlement {:?}", other),
    }
}

#[test]
fn send_overwrites_and_obeys_the_policy() {
    let mut contract = Contract::new().with_minimum_deposit(true);
    let pk = vec![0u8, 1, 2];
    assert_eq!(
        contract.send(&called_by("alice", 5), pk.clone(), token_42()),
        Err(DropError::InsufficientDeposit)
    );
    assert_eq!(
        contract.send(&called_by("alice", ACCESS_KEY_ALLOWANCE), vec![], token_42()),
        Err(DropError::EmptyPublicKey)
    );
    contract.send(&called_by("alice", ACCESS_KEY_ALLOWANCE), pk.clone(), token_42()).unwrap();
    let mut second = token_42();
    second.token_id = "43".to_string();
    second.approval_id = 4;
    contract.send(&called_by("alice", ACCESS_KEY_ALLOWANCE), pk.clone(), second).unwrap();
    let receipt = contract.claim(&claiming_with(&pk), "carol".to_string()).unwrap();
    match receipt.settlement {
        Settlement::RegistryCall { token_id, approval_id, .. } => {
            assert_eq!(token_id, "43");
            assert_eq!(approval_id, 4);
        }
        other => panic!("unexpected settlement {:?}", other),
    }
}
