//! The balance aggregator and its operations.

use vstd::prelude::*;

use crate::token::{Address, FetchView, TokenFetch, TokenQueryResult, TokenView, resolved};
use crate::u256::U256;

verus! {

/// Views of a sequence of addresses, as raw byte sequences.
pub open spec fn addresses_view(tokens: Seq<Address>) -> Seq<Seq<u8>> {
    tokens.map_values(|t: Address| t@)
}

/// Views of a sequence of per-token fetch outcomes.
pub open spec fn fetches_view(fetches: Seq<TokenFetch>) -> Seq<FetchView> {
    fetches.map_values(|f: TokenFetch| f@)
}

/// Views of a sequence of per-token results.
pub open spec fn results_view(results: Seq<TokenQueryResult>) -> Seq<TokenView> {
    results.map_values(|r: TokenQueryResult| r@)
}

/// The result sequence a batch query resolves to: one resolved entry per
/// input token, in input order.
pub open spec fn batch_resolved(tokens: Seq<Seq<u8>>, fetches: Seq<FetchView>) -> Seq<TokenView>
    recommends
        tokens.len() == fetches.len(),
{
    Seq::new(tokens.len(), |i: int| resolved(tokens[i], fetches[i]))
}

/// The subsequence of a result sequence whose balances are strictly
/// positive, relative order preserved.
pub open spec fn non_zero(results: Seq<TokenView>) -> Seq<TokenView> {
    results.filter(|t: TokenView| t.balance > 0)
}

/// The first preset token contract (the AI16Z token).
pub open spec fn preset_token_a() -> Seq<u8> {
    seq![
        0x2du8, 0x5a, 0x4f, 0x56, 0x34, 0x04, 0x1f, 0x50, 0x18, 0x0a, 0x25, 0xf2, 0x6b, 0x2a,
        0x83, 0x64, 0x45, 0x2e, 0x31, 0x52,
    ]
}

/// The second preset token contract (the tCERO token).
pub open spec fn preset_token_b() -> Seq<u8> {
    seq![
        0x2cu8, 0xea, 0xf3, 0xdc, 0x8f, 0x19, 0xfe, 0x2a, 0xdd, 0xb5, 0x46, 0x12, 0x58, 0xa2,
        0xf6, 0xbf, 0x3a, 0xb3, 0x5a, 0x28,
    ]
}

/// The third preset token contract (the WETH token).
pub open spec fn preset_token_c() -> Seq<u8> {
    seq![
        0xe5u8, 0x91, 0xbf, 0x0a, 0x0c, 0xf9, 0x24, 0xa0, 0x67, 0x4d, 0x77, 0x92, 0xdb, 0x04,
        0x6b, 0x23, 0xce, 0xbf, 0x5f, 0x34,
    ]
}

/// The fixed preset token list, in query order. Process-wide constant
/// configuration: changing it is a code change, never a runtime parameter.
pub open spec fn preset_views() -> Seq<Seq<u8>> {
    seq![preset_token_a(), preset_token_b(), preset_token_c()]
}

/// Appending one entry to a result sequence extends its non-zero filter by
/// that entry exactly when the entry's balance is positive.
proof fn lemma_non_zero_push(results: Seq<TokenView>, entry: TokenView)
    ensures
        non_zero(results.push(entry)) == if entry.balance > 0 {
            non_zero(results).push(entry)
        } else {
            non_zero(results)
        },
{
    reveal(Seq::filter);
    assert(results.push(entry).drop_last() =~= results);
}

/// Filtering to the non-zero entries is idempotent: every entry the filter
/// keeps has a positive balance, so filtering a second time keeps them all.
pub proof fn lemma_non_zero_idempotent(results: Seq<TokenView>)
    ensures
        non_zero(non_zero(results)) == non_zero(results),
    decreases results.len(),
{
    reveal(Seq::filter);
    if results.len() > 0 {
        let rest = results.drop_last();
        let last = results.last();
        lemma_non_zero_idempotent(rest);
        if last.balance > 0 {
            assert(non_zero(results) == non_zero(rest).push(last));
            lemma_non_zero_push(non_zero(rest), last);
        } else {
            assert(non_zero(results) == non_zero(rest));
        }
    }
}

/// Build the fixed preset token list.
pub fn preset_tokens() -> (r: Vec<Address>)
    ensures
        r@.len() == 3,
        addresses_view(r@) == preset_views(),
{
    let mut tokens: Vec<Address> = Vec::new();
    let a = Address::from_bytes(
        [
            0x2d, 0x5a, 0x4f, 0x56, 0x34, 0x04, 0x1f, 0x50, 0x18, 0x0a, 0x25, 0xf2, 0x6b, 0x2a,
            0x83, 0x64, 0x45, 0x2e, 0x31, 0x52,
        ],
    );
    let b = Address::from_bytes(
        [
            0x2c, 0xea, 0xf3, 0xdc, 0x8f, 0x19, 0xfe, 0x2a, 0xdd, 0xb5, 0x46, 0x12, 0x58, 0xa2,
            0xf6, 0xbf, 0x3a, 0xb3, 0x5a, 0x28,
        ],
    );
    let c = Address::from_bytes(
        [
            0xe5, 0x91, 0xbf, 0x0a, 0x0c, 0xf9, 0x24, 0xa0, 0x67, 0x4d, 0x77, 0x92, 0xdb, 0x04,
            0x6b, 0x23, 0xce, 0xbf, 0x5f, 0x34,
        ],
    );
    proof {
        assert(a@ =~= preset_token_a());
        assert(b@ =~= preset_token_b());
        assert(c@ =~= preset_token_c());
    }
    tokens.push(a);
    tokens.push(b);
    tokens.push(c);
    proof {
        assert(addresses_view(tokens@) =~= preset_views());
    }
    tokens
}

/// Keep exactly the entries of an already-computed result sequence whose
/// balance is strictly greater than zero, preserving relative order. Purely
/// a selection over its argument: nothing is re-queried.
pub fn filter_non_zero(results: Vec<TokenQueryResult>) -> (r: Vec<TokenQueryResult>)
    ensures
        results_view(r@) == non_zero(results_view(results@)),
{
    let ghost all_results = results@;
    let mut results = results;
    let mut kept: Vec<TokenQueryResult> = Vec::new();
    let ghost mut seen: int = 0;
    while results.len() > 0
        invariant
            0 <= seen <= all_results.len(),
            results@ =~= all_results.subrange(seen, all_results.len() as int),
            results_view(kept@) == non_zero(results_view(all_results.subrange(0, seen))),
        decreases results@.len(),
    {
        let entry = results.remove(0);
        assert(entry == all_results[seen]);
        proof {
            assert(results_view(all_results.subrange(0, seen + 1)) =~= results_view(
                all_results.subrange(0, seen),
            ).push(entry@));
            lemma_non_zero_push(results_view(all_results.subrange(0, seen)), entry@);
        }
        if !entry.balance.is_zero() {
            kept.push(entry);
        }
        proof {
            seen = seen + 1;
        }
    }
    proof {
        assert(all_results.subrange(0, seen) =~= all_results);
    }
    kept
}

/// The balance aggregator. It holds no state: every operation is a pure
/// function of its inputs and of the sub-query outcomes handed to it.
pub struct PortfolioReader {}

impl PortfolioReader {
    /// A fresh aggregator.
    pub fn new() -> PortfolioReader {
        PortfolioReader {}
    }

    /// Resolve the query for a single token: pass each successful sub-query
    /// outcome through unmodified and substitute the documented default for
    /// each failed one. No failure is ever surfaced to the caller.
    pub fn get_token_balance(&self, user: Address, token: Address, fetch: TokenFetch) -> (r:
        TokenQueryResult)
        ensures
            r@ == resolved(token@, fetch@),
    {
        // The user only selects whose balance was fetched; the fetch
        // outcome already encodes it.
        let _ = user;
        let balance = match fetch.balance {
            Some(b) => b,
            None => U256::zero(),
        };
        let decimals = match fetch.decimals {
            Some(d) => d,
            None => 18,
        };
        let symbol = match fetch.symbol {
            Some(s) => s,
            None => "UNKNOWN".to_owned(),
        };
        TokenQueryResult { token, balance, decimals, symbol }
    }

    /// Resolve a batch query: one result per input token, in input order,
    /// duplicates included. Per-token failures are absorbed by the defaults;
    /// the batch itself cannot fail. `fetches[i]` holds the sub-query
    /// outcomes for `tokens[i]`.
    pub fn get_user_portfolio(&self, user: Address, tokens: Vec<Address>, fetches: Vec<
        TokenFetch,
    >) -> (r: Vec<TokenQueryResult>)
        requires
            tokens@.len() == fetches@.len(),
        ensures
            r@.len() == tokens@.len(),
            forall|i: int|
                0 <= i < tokens@.len() ==> (#[trigger] r@[i])@ == resolved(
                    tokens@[i]@,
                    fetches@[i]@,
                ),
            results_view(r@) == batch_resolved(addresses_view(tokens@), fetches_view(fetches@)),
    {
        let ghost all_fetches = fetches@;
        let mut fetches = fetches;
        let mut results: Vec<TokenQueryResult> = Vec::new();
        let mut i: usize = 0;
        let n: usize = tokens.len();
        while i < n
            invariant
                i <= n,
                n == tokens@.len(),
                all_fetches.len() == n,
                fetches@ =~= all_fetches.subrange(i as int, n as int),
                results@.len() == i,
                forall|j: int|
                    0 <= j < i ==> (#[trigger] results@[j])@ == resolved(
                        tokens@[j]@,
                        all_fetches[j]@,
                    ),
            decreases n - i,
        {
            let fetch = fetches.remove(0);
            assert(fetch == all_fetches[i as int]);
            let entry = self.get_token_balance(user, tokens[i], fetch);
            results.push(entry);
            i = i + 1;
        }
        proof {
            assert(results_view(results@) =~= batch_resolved(
                addresses_view(tokens@),
                fetches_view(all_fetches),
            ));
        }
        results
    }

    /// Resolve a batch query and keep only the tokens the user actually
    /// holds: the entries with balance strictly greater than zero, in input
    /// order.
    pub fn get_non_zero_balances(&self, user: Address, tokens: Vec<Address>, fetches: Vec<
        TokenFetch,
    >) -> (r: Vec<TokenQueryResult>)
        requires
            tokens@.len() == fetches@.len(),
        ensures
            results_view(r@) == non_zero(
                batch_resolved(addresses_view(tokens@), fetches_view(fetches@)),
            ),
    {
        let all_balances = self.get_user_portfolio(user, tokens, fetches);
        filter_non_zero(all_balances)
    }

    /// Resolve a batch query over the fixed preset token list: exactly
    /// `get_user_portfolio` on `preset_tokens()`. `fetches` holds one
    /// per-token outcome for each of the three preset tokens, in list order.
    pub fn get_portfolio_balances(&self, user: Address, fetches: Vec<TokenFetch>) -> (r: Vec<
        TokenQueryResult,
    >)
        requires
            fetches@.len() == 3,
        ensures
            results_view(r@) == batch_resolved(preset_views(), fetches_view(fetches@)),
    {
        let tokens = preset_tokens();
        self.get_user_portfolio(user, tokens, fetches)
    }

    /// The version marker, a liveness probe: always exactly 1.
    pub fn get_version(&self) -> (r: U256)
        ensures
            r@ == 1,
    {
        U256::from_u64(1)
    }
}

} // verus!
