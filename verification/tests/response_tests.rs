use listen_kit::config::PrivyConfig;
use listen_kit::processor::RaydiumAmmV4AccountProcessor;
use listen_kit::types::{CreateWalletResponse, User, WalletManagerError};
use listen_kit::wallet_manager::{user_from_response, wallet_from_response, WalletManager};

#[test]
fn user_lookup_success_returns_record() {
    let user = User { id: "did:privy:user-1".to_string(), linked_accounts: vec![] };
    let result = user_from_response(200, String::new(), Some(user));
    assert_eq!(result.unwrap().id.as_str(), "did:privy:user-1");
}

#[test]
fn user_lookup_failure_carries_status() {
    let result = user_from_response(404, String::new(), None);
    match result {
        Err(WalletManagerError::RemoteServiceError { status, body }) => {
            assert_eq!(status, Some(404));
            assert!(body.is_empty());
        }
        _ => panic!("expected a remote-service error"),
    }
}

#[test]
fn unreadable_user_record_is_malformed() {
    let result = user_from_response(200, String::new(), None);
    assert!(matches!(result, Err(WalletManagerError::SerializationError)));
}

#[test]
fn create_wallet_request_is_scoped_to_chain() {
    let manager = WalletManager::new(PrivyConfig {
        issuer: "privy.io".to_string(),
        app_id: "test-app".to_string(),
        verification_key: "irrelevant".to_string(),
    });
    let request = manager.create_wallet_request();
    assert_eq!(request.chain_type.as_str(), "solana");
}

#[test]
fn provisioning_success_returns_wallet() {
    let wallet = CreateWalletResponse {
        id: "wallet-1".to_string(),
        address: "pk-new".to_string(),
        chain_type: "solana".to_string(),
    };
    let result = wallet_from_response(200, String::new(), Some(wallet));
    assert_eq!(result.unwrap().address.as_str(), "pk-new");
}

#[test]
fn provisioning_failure_carries_status_and_body() {
    let result = wallet_from_response(500, "boom".to_string(), None);
    match result {
        Err(WalletManagerError::RemoteServiceError { status, body }) => {
            assert_eq!(status, Some(500));
            assert_eq!(body.as_str(), "boom");
        }
        _ => panic!("expected a remote-service error"),
    }
}

#[test]
fn account_processor_starts_empty() {
    let _processor = RaydiumAmmV4AccountProcessor::new();
}
