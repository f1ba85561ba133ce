use vstd::prelude::*;

verus! {

/// Claims carried by a bearer token: the user they identify and the
/// identity provider's session. Authentication derives them from token
/// validation alone, never from an unverified token.
pub struct PrivyClaims {
    pub user_id: String,
    pub session_id: String,
}

/// A wallet record linked to a user at the identity provider.
/// `delegated` records whether the user granted this service
/// non-interactive signing rights over the wallet.
pub struct WalletAccount {
    pub public_key: String,
    pub chain_type: String,
    pub wallet_client: String,
    pub delegated: bool,
}

/// One entry of a user's linked accounts. Only wallet accounts matter to
/// the broker; every other account kind is carried as `Other` so that new
/// kinds cannot break the matching logic.
pub enum LinkedAccount {
    Wallet(WalletAccount),
    Other,
}

/// A user's identity record: the identifier and the linked accounts in the
/// identity provider's order, which is treated as authoritative.
pub struct User {
    pub id: String,
    pub linked_accounts: Vec<LinkedAccount>,
}

/// The request that asks the custodian for a fresh wallet, scoped to one
/// chain type.
pub struct CreateWalletRequest {
    pub chain_type: String,
}

/// The custodian's record of a freshly provisioned wallet.
pub struct CreateWalletResponse {
    pub id: String,
    pub address: String,
    pub chain_type: String,
}

/// A response status in the range the remote endpoints count as success.
pub open spec fn http_success(status: u16) -> bool {
    200 <= status < 300
}

/// The broker's failure taxonomy.
///
/// `AuthenticationFailed` is deliberately opaque: a caller probing the
/// boundary learns nothing about which validation check rejected the token.
/// `NoDelegatedWalletFound` is distinct because the token itself was valid.
/// `RemoteServiceError` carries the HTTP status when one was received and
/// the response body where the endpoint reports one.
#[derive(Debug)]
pub enum WalletManagerError {
    AuthenticationFailed,
    NoDelegatedWalletFound,
    RemoteServiceError { status: Option<u16>, body: String },
    SerializationError,
}

} // verus!
