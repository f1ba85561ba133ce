use listen_kit::config::PrivyConfig;
use listen_kit::signing::hash_from_response;
use listen_kit::types::{LinkedAccount, PrivyClaims, User, WalletAccount, WalletManagerError};
use listen_kit::wallet_manager::{UserSession, WalletManager};

fn broker() -> WalletManager {
    WalletManager::new(PrivyConfig {
        issuer: "privy.io".to_string(),
        app_id: "test-app".to_string(),
        verification_key: "irrelevant".to_string(),
    })
}

fn session_for(manager: &WalletManager, public_key: &str) -> UserSession {
    let user = User {
        id: "did:privy:user-1".to_string(),
        linked_accounts: vec![LinkedAccount::Wallet(WalletAccount {
            public_key: public_key.to_string(),
            chain_type: "solana".to_string(),
            wallet_client: "privy".to_string(),
            delegated: true,
        })],
    };
    let claims = PrivyClaims {
        user_id: "did:privy:user-1".to_string(),
        session_id: "session-1".to_string(),
    };
    manager.establish_session(claims, user).unwrap()
}

#[test]
fn sign_request_is_addressed_and_tagged() {
    let manager = broker();
    let session = session_for(&manager, "wallet-pk");
    let request = manager.sign_request(&session, &vec![1u8, 2, 3]);
    assert_eq!(request.address.as_str(), "wallet-pk");
    assert_eq!(request.chain_type.as_str(), "solana");
    assert_eq!(request.method.as_str(), "signAndSendTransaction");
    assert_eq!(
        request.caip2.as_str(),
        "solana:5eykt4UsFv8P8NJdTREpY1vzqKqZKvdp"
    );
    assert_eq!(request.params.encoding.as_str(), "base64");
}

#[test]
fn sign_request_encodes_payload_in_base64() {
    let manager = broker();
    let session = session_for(&manager, "wallet-pk");
    let request = manager.sign_request(&session, &vec![1u8, 2, 3]);
    assert_eq!(request.params.transaction.as_str(), "AQID");
}

#[test]
fn empty_transaction_encodes_to_empty_payload() {
    let manager = broker();
    let session = session_for(&manager, "wallet-pk");
    let request = manager.sign_request(&session, &Vec::new());
    assert!(request.params.transaction.is_empty());
    assert_eq!(request.params.encoding.as_str(), "base64");
}

#[test]
fn sign_request_is_deterministic() {
    let manager = broker();
    let session = session_for(&manager, "wallet-pk");
    let wire_a = vec![9u8, 8, 7, 6, 5];
    let wire_b = vec![9u8, 8, 7, 6, 5];
    let first = manager.sign_request(&session, &wire_a);
    let second = manager.sign_request(&session, &wire_b);
    assert_eq!(first.address, second.address);
    assert_eq!(first.chain_type, second.chain_type);
    assert_eq!(first.method, second.method);
    assert_eq!(first.caip2, second.caip2);
    assert_eq!(first.params.transaction, second.params.transaction);
    assert_eq!(first.params.encoding, second.params.encoding);
}

#[test]
fn custodian_success_reply_yields_hash() {
    let body = "{\"data\":{\"hash\":\"abc123\"}}".to_string();
    let parsed: serde_json::Value = serde_json::from_str(&body).unwrap();
    let hash = parsed
        .get("data")
        .and_then(|d| d.get("hash"))
        .and_then(|h| h.as_str())
        .map(|h| h.to_string());
    let result = hash_from_response(200, body, hash);
    assert_eq!(result.unwrap().as_str(), "abc123");
}

#[test]
fn custodian_rejection_is_surfaced_with_body() {
    let body = "{\"error\":\"rejected\"}".to_string();
    let result = hash_from_response(400, body, None);
    match result {
        Err(WalletManagerError::RemoteServiceError { status, body }) => {
            assert_eq!(status, Some(400));
            assert_eq!(body.as_str(), "{\"error\":\"rejected\"}");
        }
        other => panic!("expected a remote-service error, got {:?}", other.is_ok()),
    }
}

#[test]
fn custodian_success_without_hash_is_malformed() {
    let result = hash_from_response(200, "{}".to_string(), None);
    assert!(matches!(result, Err(WalletManagerError::SerializationError)));
}
