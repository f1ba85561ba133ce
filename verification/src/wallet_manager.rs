use vstd::prelude::*;

use crate::config::{CustodianConfig, PrivyConfig};
use crate::selector::{find_delegated_wallet, first_eligible};
use crate::types::{
    http_success, CreateWalletRequest, CreateWalletResponse, PrivyClaims, User,
    WalletManagerError,
};

verus! {

/// The abstract content of an established session.
pub struct UserSessionView {
    pub user_id: Seq<char>,
    pub session_id: Seq<char>,
    pub wallet_address: Seq<char>,
}

/// A one-shot derived credential: the user, the bearer token's session, and
/// the delegated wallet selected for that user at the moment of
/// establishment. Its fields are private so that a value can only come out
/// of the full establishment path — no caller can assemble a session that
/// skipped claims validation or wallet selection.
#[derive(Clone)]
pub struct UserSession {
    user_id: String,
    session_id: String,
    wallet_address: String,
}

impl View for UserSession {
    type V = UserSessionView;

    closed spec fn view(&self) -> UserSessionView {
        UserSessionView {
            user_id: self.user_id@,
            session_id: self.session_id@,
            wallet_address: self.wallet_address@,
        }
    }
}

impl UserSession {
    pub fn user_id(&self) -> (r: &String)
        ensures
            r@ == self@.user_id,
    {
        &self.user_id
    }

    pub fn session_id(&self) -> (r: &String)
        ensures
            r@ == self@.session_id,
    {
        &self.session_id
    }

    pub fn wallet_address(&self) -> (r: &String)
        ensures
            r@ == self@.wallet_address,
    {
        &self.wallet_address
    }
}

/// The authentication and remote-signing broker. It holds only
/// configuration: all mutable state of an authentication or signing run is
/// local to that call, so any number of calls may run concurrently.
pub struct WalletManager {
    pub privy_config: PrivyConfig,
    pub custodian: CustodianConfig,
}

/// Relies on jsonwebtoken::decode with the algorithm fixed to ES256 (no
/// negotiation): the call succeeds only if the token's signature verifies
/// against the elliptic-curve public key in `key_pem`, the `iss` claim
/// equals `issuer`, the `aud` claim equals `audience`, and the required
/// `exp` claim holds at the time of the call; on success it hands back the
/// token's `sub` and `sid` claims. The outcome depends on the clock, so
/// nothing is promised of it.
#[verifier::external_body]
fn decode_es256_claims(token: &str, key_pem: &str, issuer: &str, audience: &str) -> (r: Result<
    (String, String),
    (),
>) {
    let mut validation = jsonwebtoken::Validation::new(jsonwebtoken::Algorithm::ES256);
    validation.set_required_spec_claims(&["exp", "iss", "aud"]);
    validation.set_issuer(&[issuer]);
    validation.set_audience(&[audience]);
    let key = jsonwebtoken::DecodingKey::from_ec_pem(key_pem.as_bytes()).map_err(|_| ())?;
    let data = jsonwebtoken::decode::<serde_json::Value>(token, &key, &validation)
        .map_err(|_| ())?;
    let user_id = data.claims.get("sub").and_then(|v| v.as_str()).ok_or(())?.to_owned();
    let session_id = data.claims.get("sid").and_then(|v| v.as_str()).ok_or(())?.to_owned();
    Ok((user_id, session_id))
}

impl WalletManager {
    /// A broker for the given identity-provider configuration, custodying
    /// through privy wallets on the solana main network.
    pub fn new(privy_config: PrivyConfig) -> (m: WalletManager)
        ensures
            m.privy_config == privy_config,
            m.custodian.chain_type@ == "solana"@,
            m.custodian.wallet_client@ == "privy"@,
            m.custodian.caip2@ == "solana:5eykt4UsFv8P8NJdTREpY1vzqKqZKvdp"@,
    {
        WalletManager { privy_config, custodian: CustodianConfig::solana_mainnet() }
    }

    /// Verifies a bearer token against the configured key, issuer and
    /// audience and extracts its claims. Every rejection — bad signature,
    /// wrong issuer or audience, expiry — surfaces as the one opaque
    /// `AuthenticationFailed`, so an adversary probing the boundary learns
    /// nothing about which check failed.
    pub fn validate_access_token(&self, access_token: &str) -> (r: Result<
        PrivyClaims,
        WalletManagerError,
    >)
        ensures
            r matches Err(e) ==> e is AuthenticationFailed,
    {
        match decode_es256_claims(
            access_token,
            self.privy_config.verification_key.as_str(),
            self.privy_config.issuer.as_str(),
            self.privy_config.app_id.as_str(),
        ) {
            Ok((user_id, session_id)) => Ok(PrivyClaims { user_id, session_id }),
            Err(()) => Err(WalletManagerError::AuthenticationFailed),
        }
    }

    /// Completes authentication once the identity record is in hand: the
    /// selector runs over the linked accounts, and the session binds the
    /// user, the token's session, and the public key of the selected
    /// wallet. A user with no eligible wallet is refused with
    /// `NoDelegatedWalletFound` — distinct from `AuthenticationFailed`,
    /// since the token itself was valid.
    pub fn establish_session(&self, claims: PrivyClaims, user: User) -> (r: Result<
        UserSession,
        WalletManagerError,
    >)
        ensures
            match first_eligible(
                user.linked_accounts@,
                self.custodian.chain_type@,
                self.custodian.wallet_client@,
            ) {
                Some(w) => r matches Ok(s) && s@.user_id == user.id@ && s@.session_id
                    == claims.session_id@ && s@.wallet_address == w.public_key@,
                None => r matches Err(e) && e is NoDelegatedWalletFound,
            },
    {
        let wallet = find_delegated_wallet(
            &user.linked_accounts,
            &self.custodian.chain_type,
            &self.custodian.wallet_client,
        );
        match wallet {
            Some(w) => {
                let wallet_address = w.public_key.clone();
                Ok(
                    UserSession {
                        user_id: user.id,
                        session_id: claims.session_id,
                        wallet_address,
                    },
                )
            },
            None => Err(WalletManagerError::NoDelegatedWalletFound),
        }
    }

    /// The request that asks the custodian to provision a fresh wallet on
    /// the configured chain.
    pub fn create_wallet_request(&self) -> (r: CreateWalletRequest)
        ensures
            r.chain_type@ == self.custodian.chain_type@,
    {
        CreateWalletRequest { chain_type: self.custodian.chain_type.clone() }
    }
}

/// Decides the outcome of the identity provider's reply to a user lookup:
/// a success status with a parsed record yields the record; a success
/// status whose body could not be read as one is a malformed reply; any
/// other status is surfaced with the body, unretried.
pub fn user_from_response(status: u16, body: String, user: Option<User>) -> (r: Result<
    User,
    WalletManagerError,
>)
    ensures
        http_success(status) && user is Some ==> r == Ok::<User, WalletManagerError>(
            user.unwrap(),
        ),
        http_success(status) && user is None ==> r == Err::<User, WalletManagerError>(
            WalletManagerError::SerializationError,
        ),
        !http_success(status) ==> r == Err::<User, WalletManagerError>(
            (WalletManagerError::RemoteServiceError { status: Some(status), body }),
        ),
{
    if 200 <= status && status < 300 {
        match user {
            Some(u) => Ok(u),
            None => Err(WalletManagerError::SerializationError),
        }
    } else {
        Err(WalletManagerError::RemoteServiceError { status: Some(status), body })
    }
}

/// Decides the outcome of the custodian's reply to a wallet provisioning
/// request, in the same way as a user lookup.
pub fn wallet_from_response(status: u16, body: String, wallet: Option<CreateWalletResponse>) -> (r:
    Result<CreateWalletResponse, WalletManagerError>)
    ensures
        http_success(status) && wallet is Some ==> r == Ok::<CreateWalletResponse,
            WalletManagerError,
        >(wallet.unwrap()),
        http_success(status) && wallet is None ==> r == Err::<CreateWalletResponse,
            WalletManagerError,
        >(WalletManagerError::SerializationError),
        !http_success(status) ==> r == Err::<CreateWalletResponse, WalletManagerError>(
            (WalletManagerError::RemoteServiceError { status: Some(status), body }),
        ),
{
    if 200 <= status && status < 300 {
        match wallet {
            Some(w) => Ok(w),
            None => Err(WalletManagerError::SerializationError),
        }
    } else {
        Err(WalletManagerError::RemoteServiceError { status: Some(status), body })
    }
}

} // verus!
