use vstd::prelude::*;

use crate::types::{LinkedAccount, WalletAccount};

verus! {

/// An account may be used for non-interactive signing only if it is a
/// wallet, the user explicitly delegated it, it lives on the configured
/// chain, and it is held by the configured custodial client. Any other
/// match would allow signing against a wallet the user did not intend to
/// delegate.
pub open spec fn eligible_wallet(
    account: LinkedAccount,
    chain: Seq<char>,
    client: Seq<char>,
) -> bool {
    &&& account matches LinkedAccount::Wallet(w)
    &&& w.delegated
    &&& w.chain_type@ == chain
    &&& w.wallet_client@ == client
}

/// Whether an account is a wallet the user delegated at all, regardless of
/// which chain it lives on or which client holds it.
pub open spec fn delegated_wallet(account: LinkedAccount) -> bool {
    account matches LinkedAccount::Wallet(w) && w.delegated
}

/// The selection policy: the first eligible wallet in the identity
/// provider's order, whose ordering is treated as authoritative.
pub open spec fn first_eligible(
    accounts: Seq<LinkedAccount>,
    chain: Seq<char>,
    client: Seq<char>,
) -> Option<WalletAccount>
    decreases accounts.len(),
{
    if accounts.len() == 0 {
        None
    } else if eligible_wallet(accounts[0], chain, client) {
        Some(accounts[0]->0)
    } else {
        first_eligible(accounts.drop_first(), chain, client)
    }
}

/// The selector is a deterministic first-match: whenever index `i` holds an
/// eligible wallet and no earlier index does, that wallet — and no later
/// one — is the selected wallet. In particular, of two eligible wallets the
/// earlier one in the provider's order wins.
pub proof fn lemma_first_eligible_at(
    accounts: Seq<LinkedAccount>,
    chain: Seq<char>,
    client: Seq<char>,
    i: int,
)
    requires
        0 <= i < accounts.len(),
        eligible_wallet(accounts[i], chain, client),
        forall|j: int| 0 <= j < i ==> !eligible_wallet(#[trigger] accounts[j], chain, client),
    ensures
        first_eligible(accounts, chain, client) == Some(accounts[i]->0),
    decreases accounts.len(),
{
    if i > 0 {
        let rest = accounts.drop_first();
        assert forall|j: int| 0 <= j < i - 1 implies !eligible_wallet(
            #[trigger] rest[j],
            chain,
            client,
        ) by {
            assert(rest[j] == accounts[j + 1]);
        }
        lemma_first_eligible_at(rest, chain, client, i - 1);
        assert(rest[i - 1] == accounts[i]);
    }
}

/// A collection of linked accounts none of which is an eligible wallet
/// admits no selection at all.
pub proof fn lemma_first_eligible_none(
    accounts: Seq<LinkedAccount>,
    chain: Seq<char>,
    client: Seq<char>,
)
    requires
        forall|j: int| 0 <= j < accounts.len() ==> !eligible_wallet(
            #[trigger] accounts[j],
            chain,
            client,
        ),
    ensures
        first_eligible(accounts, chain, client) is None,
    decreases accounts.len(),
{
    if accounts.len() > 0 {
        let rest = accounts.drop_first();
        assert forall|j: int| 0 <= j < rest.len() implies !eligible_wallet(
            #[trigger] rest[j],
            chain,
            client,
        ) by {
            assert(rest[j] == accounts[j + 1]);
        }
        lemma_first_eligible_none(rest, chain, client);
    }
}

/// Delegation fails closed: an identity holding no delegated wallet at all
/// is never matched, whatever chain and custodial client are configured.
pub proof fn lemma_no_delegation_no_selection(
    accounts: Seq<LinkedAccount>,
    chain: Seq<char>,
    client: Seq<char>,
)
    requires
        forall|j: int| 0 <= j < accounts.len() ==> !delegated_wallet(#[trigger] accounts[j]),
    ensures
        first_eligible(accounts, chain, client) is None,
{
    assert forall|j: int| 0 <= j < accounts.len() implies !eligible_wallet(
        #[trigger] accounts[j],
        chain,
        client,
    ) by {}
    lemma_first_eligible_none(accounts, chain, client);
}

/// With exactly one eligible wallet among the linked accounts, the
/// selection is that wallet.
pub proof fn lemma_single_eligible_selected(
    accounts: Seq<LinkedAccount>,
    chain: Seq<char>,
    client: Seq<char>,
    i: int,
)
    requires
        0 <= i < accounts.len(),
        eligible_wallet(accounts[i], chain, client),
        forall|j: int| 0 <= j < accounts.len() && j != i ==> !eligible_wallet(
            #[trigger] accounts[j],
            chain,
            client,
        ),
    ensures
        first_eligible(accounts, chain, client) == Some(accounts[i]->0),
{
    lemma_first_eligible_at(accounts, chain, client, i);
}

/// Linear scan over the linked accounts, in the identity provider's
/// returned order, for the first wallet that is delegated, on `chain`, and
/// held by `client`.
pub fn find_delegated_wallet<'a>(
    accounts: &'a Vec<LinkedAccount>,
    chain: &String,
    client: &String,
) -> (r: Option<&'a WalletAccount>)
    ensures
        match r {
            Some(w) => first_eligible(accounts@, chain@, client@) == Some(*w),
            None => first_eligible(accounts@, chain@, client@) is None,
        },
{
    let n: usize = accounts.len();
    let mut k: usize = 0;
    while k < n
        invariant
            n == accounts@.len(),
            0 <= k <= n,
            forall|j: int| 0 <= j < k ==> !eligible_wallet(#[trigger] accounts@[j], chain@, client@),
        decreases n - k,
    {
        match &accounts[k] {
            LinkedAccount::Wallet(w) => {
                if w.delegated && w.chain_type == *chain && w.wallet_client == *client {
                    proof {
                        lemma_first_eligible_at(accounts@, chain@, client@, k as int);
                    }
                    return Some(w);
                }
            },
            _ => {},
        }
        k += 1;
    }
    proof {
        lemma_first_eligible_none(accounts@, chain@, client@);
    }
    None
}

} // verus!
