use vstd::prelude::*;

verus! {

/// Identity-provider configuration, fixed for the lifetime of the process.
///
/// `issuer` names the identity provider whose tokens are accepted, `app_id`
/// is this service's own audience identifier, and `verification_key` is the
/// PEM-encoded elliptic-curve public key that token signatures must verify
/// against.
pub struct PrivyConfig {
    pub issuer: String,
    pub app_id: String,
    pub verification_key: String,
}

/// Deployment constants for the custodian and the target network: which
/// chain a wallet must live on, which custodial client must hold it for
/// delegation to count, and the namespaced chain identifier stamped on every
/// signing request.
pub struct CustodianConfig {
    pub chain_type: String,
    pub wallet_client: String,
    pub caip2: String,
}

impl CustodianConfig {
    /// The configuration this deployment trusts: custodial wallets held by
    /// privy on the solana main network.
    pub fn solana_mainnet() -> (c: CustodianConfig)
        ensures
            c.chain_type@ == "solana"@,
            c.wallet_client@ == "privy"@,
            c.caip2@ == "solana:5eykt4UsFv8P8NJdTREpY1vzqKqZKvdp"@,
    {
        CustodianConfig {
            chain_type: "solana".to_owned(),
            wallet_client: "privy".to_owned(),
            caip2: "solana:5eykt4UsFv8P8NJdTREpY1vzqKqZKvdp".to_owned(),
        }
    }
}

} // verus!
