//! Addresses, per-token query outcomes, and per-token results.

use vstd::prelude::*;

use crate::u256::U256;

verus! {

/// A 20-byte account-style address, identifying either a user or a token
/// contract. The aggregator never inspects an address; it only carries
/// addresses through to its results.
#[derive(Clone, Copy, Debug, PartialEq, Eq)]
pub struct Address {
    pub bytes: [u8; 20],
}

impl View for Address {
    type V = Seq<u8>;

    open spec fn view(&self) -> Seq<u8> {
        self.bytes@
    }
}

impl Address {
    /// An address from its 20 raw bytes.
    pub fn from_bytes(bytes: [u8; 20]) -> (r: Address)
        ensures
            r@ == bytes@,
    {
        Address { bytes }
    }
}

/// The outcomes of the three independent read-only sub-queries issued
/// against one token contract: its balance for the queried user, its decimal
/// precision, and its symbol. `None` records that the sub-query failed (the
/// contract was unreachable, non-conforming, or reverted); a failure of one
/// sub-query does not affect the others.
pub struct TokenFetch {
    pub balance: Option<U256>,
    pub decimals: Option<u8>,
    pub symbol: Option<String>,
}

/// The mathematical image of a `TokenFetch`.
pub struct FetchView {
    pub balance: Option<nat>,
    pub decimals: Option<nat>,
    pub symbol: Option<Seq<char>>,
}

impl View for TokenFetch {
    type V = FetchView;

    open spec fn view(&self) -> FetchView {
        FetchView {
            balance: match self.balance {
                Some(b) => Some(b@),
                None => None,
            },
            decimals: match self.decimals {
                Some(d) => Some(d as nat),
                None => None,
            },
            symbol: match self.symbol {
                Some(ref s) => Some(s@),
                None => None,
            },
        }
    }
}

/// What one token query returns to the caller: the token address echoed
/// back, the user's balance, the token's decimal precision, and its symbol.
/// Created per query and never mutated.
#[derive(Debug, PartialEq, Eq)]
pub struct TokenQueryResult {
    pub token: Address,
    pub balance: U256,
    pub decimals: u8,
    pub symbol: String,
}

/// The mathematical image of a `TokenQueryResult`.
pub struct TokenView {
    pub token: Seq<u8>,
    pub balance: nat,
    pub decimals: nat,
    pub symbol: Seq<char>,
}

impl View for TokenQueryResult {
    type V = TokenView;

    open spec fn view(&self) -> TokenView {
        TokenView {
            token: self.token@,
            balance: self.balance@,
            decimals: self.decimals as nat,
            symbol: self.symbol@,
        }
    }
}

/// The decimal precision substituted when the decimals sub-query fails:
/// the conventional token default.
pub open spec fn default_decimals() -> nat {
    18
}

/// The placeholder symbol substituted when the symbol sub-query fails.
pub open spec fn default_symbol() -> Seq<char> {
    "UNKNOWN"@
}

/// The result a single-token query resolves to: each failed sub-query is
/// replaced by its default (balance 0, decimals 18, symbol "UNKNOWN"),
/// each successful one is passed through unmodified.
pub open spec fn resolved(token: Seq<u8>, fetch: FetchView) -> TokenView {
    TokenView {
        token: token,
        balance: match fetch.balance {
            Some(b) => b,
            None => 0,
        },
        decimals: match fetch.decimals {
            Some(d) => d,
            None => default_decimals(),
        },
        symbol: match fetch.symbol {
            Some(s) => s,
            None => default_symbol(),
        },
    }
}

/// A conforming, reachable token — one whose three sub-queries all
/// succeeded — has its balance, decimals, and symbol returned unmodified.
pub proof fn lemma_conforming_unmodified(
    token: Seq<u8>,
    balance: nat,
    decimals: nat,
    symbol: Seq<char>,
)
    ensures
        resolved(
            token,
            FetchView {
                balance: Some(balance),
                decimals: Some(decimals),
                symbol: Some(symbol),
            },
        ) == (TokenView { token, balance, decimals, symbol }),
{
}

/// An unreachable or non-conforming token — one whose three sub-queries all
/// failed — resolves to the full default tuple: its own address, balance 0,
/// decimals 18, symbol "UNKNOWN".
pub proof fn lemma_unreachable_defaults(token: Seq<u8>)
    ensures
        resolved(token, FetchView { balance: None, decimals: None, symbol: None })
            == (TokenView {
            token,
            balance: 0,
            decimals: default_decimals(),
            symbol: default_symbol(),
        }),
{
}

} // verus!
