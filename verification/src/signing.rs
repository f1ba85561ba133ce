use vstd::prelude::*;

use crate::types::{http_success, WalletManagerError};
use crate::wallet_manager::{UserSession, WalletManager};

verus! {

/// What the base64 standard-alphabet encoder produces for a byte string.
pub uninterp spec fn base64_of(bytes: Seq<u8>) -> Seq<char>;

/// Relies on base64's standard-alphabet engine with padding: the encoding
/// is a pure function of the input bytes, and an empty input encodes to
/// the empty string.
#[verifier::external_body]
fn base64_encode(bytes: &Vec<u8>) -> (r: String)
    ensures
        r@ == base64_of(bytes@),
        bytes@.len() == 0 ==> r@.len() == 0,
{
    base64::Engine::encode(&base64::engine::general_purpose::STANDARD, bytes)
}

/// The payload of a signing request: the transaction's canonical binary
/// wire form, text-encoded, with the encoding named explicitly — no
/// implicit encoding negotiation.
pub struct SignAndSendTransactionParams {
    pub transaction: String,
    pub encoding: String,
}

/// A custodian signing request: addressed to one delegated wallet, with a
/// fixed method name and a fixed chain identifier for the target network.
pub struct SignAndSendTransactionRequest {
    pub address: String,
    pub chain_type: String,
    pub method: String,
    pub caip2: String,
    pub params: SignAndSendTransactionParams,
}

/// The abstract content of a signing request.
pub struct SignRequestView {
    pub address: Seq<char>,
    pub chain_type: Seq<char>,
    pub method: Seq<char>,
    pub caip2: Seq<char>,
    pub transaction: Seq<char>,
    pub encoding: Seq<char>,
}

impl View for SignAndSendTransactionRequest {
    type V = SignRequestView;

    open spec fn view(&self) -> SignRequestView {
        SignRequestView {
            address: self.address@,
            chain_type: self.chain_type@,
            method: self.method@,
            caip2: self.caip2@,
            transaction: self.params.transaction@,
            encoding: self.params.encoding@,
        }
    }
}

/// The one signing request owed for a wallet, a network and a serialized
/// transaction: every field is a pure function of these three inputs.
pub open spec fn spec_sign_request(
    wallet_address: Seq<char>,
    chain_type: Seq<char>,
    caip2: Seq<char>,
    transaction_wire: Seq<u8>,
) -> SignRequestView {
    SignRequestView {
        address: wallet_address,
        chain_type: chain_type,
        method: "signAndSendTransaction"@,
        caip2: caip2,
        transaction: base64_of(transaction_wire),
        encoding: "base64"@,
    }
}

/// Determinism of the signing-request encoding: two requests built for the
/// same wallet and network from identical transaction content are
/// identical, field for field, encoded payload included.
pub proof fn lemma_sign_request_deterministic(
    wallet_address: Seq<char>,
    chain_type: Seq<char>,
    caip2: Seq<char>,
    wire_a: Seq<u8>,
    wire_b: Seq<u8>,
)
    requires
        wire_a == wire_b,
    ensures
        spec_sign_request(wallet_address, chain_type, caip2, wire_a) == spec_sign_request(
            wallet_address,
            chain_type,
            caip2,
            wire_b,
        ),
{
}

impl WalletManager {
    /// Builds the request that asks the custodian to sign and broadcast
    /// the transaction whose canonical wire form is `transaction_wire`,
    /// addressed to the session's delegated wallet. The broker performs no
    /// local signing; it only frames the payload.
    pub fn sign_request(&self, session: &UserSession, transaction_wire: &Vec<u8>) -> (r:
        SignAndSendTransactionRequest)
        ensures
            r@ == spec_sign_request(
                session@.wallet_address,
                self.custodian.chain_type@,
                self.custodian.caip2@,
                transaction_wire@,
            ),
    {
        SignAndSendTransactionRequest {
            address: session.wallet_address().clone(),
            chain_type: self.custodian.chain_type.clone(),
            method: "signAndSendTransaction".to_owned(),
            caip2: self.custodian.caip2.clone(),
            params: SignAndSendTransactionParams {
                transaction: base64_encode(transaction_wire),
                encoding: "base64".to_owned(),
            },
        }
    }
}

/// Decides the outcome of the custodian's signing reply: a success status
/// whose body reported a transaction hash yields that hash; a success
/// status without one is a malformed reply; any other status is surfaced
/// with the body, unretried — a rejected submission must not be silently
/// resubmitted.
pub fn hash_from_response(status: u16, body: String, hash: Option<String>) -> (r: Result<
    String,
    WalletManagerError,
>)
    ensures
        http_success(status) && hash is Some ==> r == Ok::<String, WalletManagerError>(
            hash.unwrap(),
        ),
        http_success(status) && hash is None ==> r == Err::<String, WalletManagerError>(
            WalletManagerError::SerializationError,
        ),
        !http_success(status) ==> r == Err::<String, WalletManagerError>(
            (WalletManagerError::RemoteServiceError { status: Some(status), body }),
        ),
{
    if 200 <= status && status < 300 {
        match hash {
            Some(h) => Ok(h),
            None => Err(WalletManagerError::SerializationError),
        }
    } else {
        Err(WalletManagerError::RemoteServiceError { status: Some(status), body })
    }
}

} // verus!
