//! Laws of the quotes: what holds of forward and reverse quotes on every
//! chain, for markets of a given kind.

use vstd::prelude::*;
use crate::asset::{AssetInfoView, SwapOperationView, ask_asset, offer_asset};
use crate::market::{MarketQueryView, Oracle, amount_reply};
use crate::simulate::{
    ConfigView, SimError, forward_from, forward_quote, hop_offer, hop_return, reverse_from, reverse_quote, tax_deducted,
};

verus! {

/// Where both quotes are given, the first is not larger than the second.
pub open spec fn no_larger(first: Result<u128, SimError>, second: Result<u128, SimError>) -> bool {
    match (first, second) {
        (Ok(x), Ok(y)) => x <= y,
        _ => true,
    }
}

/// Where both answers are given, the first is not larger than the second.
pub open spec fn answer_no_larger(first: Option<u128>, second: Option<u128>) -> bool {
    match (first, second) {
        (Some(x), Some(y)) => x <= y,
        _ => true,
    }
}

/// A market in which more never buys less: the quote of a pair and of the
/// native exchange, and an amount less its transfer tax, do not fall when
/// the amount offered grows.
pub open spec fn monotone_market(oracle: Oracle) -> bool {
    &&& forall|pair: Seq<char>, asset: AssetInfoView, a: u128, b: u128|
        a <= b ==> answer_no_larger(
            #[trigger] amount_reply(
                oracle,
                MarketQueryView::Simulation { pair, offer_asset_info: asset, offer_amount: a },
            ),
            #[trigger] amount_reply(
                oracle,
                MarketQueryView::Simulation { pair, offer_asset_info: asset, offer_amount: b },
            ),
        )
    &&& forall|offer_denom: Seq<char>, ask_denom: Seq<char>, a: u128, b: u128|
        a <= b ==> answer_no_larger(
            #[trigger] amount_reply(oracle, MarketQueryView::NativeSwap { offer_denom, offer_amount: a, ask_denom }),
            #[trigger] amount_reply(oracle, MarketQueryView::NativeSwap { offer_denom, offer_amount: b, ask_denom }),
        )
    &&& forall|denom: Seq<char>, a: u128, b: u128|
        a <= b ==> no_larger(#[trigger] tax_deducted(oracle, a, denom), #[trigger] tax_deducted(oracle, b, denom))
}

/// In a monotone market one hop gives no less for a larger amount, where it
/// gives a quote for both.
pub proof fn lemma_hop_return_monotone(
    oracle: Oracle,
    config: ConfigView,
    op: SwapOperationView,
    last: bool,
    smaller: u128,
    larger: u128,
)
    requires
        monotone_market(oracle),
        smaller <= larger,
    ensures
        no_larger(hop_return(oracle, config, op, last, smaller), hop_return(oracle, config, op, last, larger)),
{
}

/// In a monotone market the hops from `next` on give no less for a larger
/// amount, where they give a quote for both.
pub proof fn lemma_forward_from_monotone(
    oracle: Oracle,
    config: ConfigView,
    chain: Seq<SwapOperationView>,
    next: int,
    smaller: u128,
    larger: u128,
)
    requires
        monotone_market(oracle),
        smaller <= larger,
    ensures
        no_larger(
            forward_from(oracle, config, chain, next, smaller),
            forward_from(oracle, config, chain, next, larger),
        ),
    decreases chain.len() - next,
{
    if 0 <= next < chain.len() {
        let last = next + 1 == chain.len();
        lemma_hop_return_monotone(oracle, config, chain[next], last, smaller, larger);
        match (hop_return(oracle, config, chain[next], last, smaller), hop_return(oracle, config, chain[next], last, larger)) {
            (Ok(x), Ok(y)) => {
                lemma_forward_from_monotone(oracle, config, chain, next + 1, x, y);
            },
            _ => {},
        }
    }
}

/// The forward quote is monotone: in a monotone market a larger amount
/// offered never gets a smaller quote on the same chain, where both amounts
/// get one.
pub proof fn lemma_forward_quote_monotone(
    oracle: Oracle,
    config: ConfigView,
    chain: Seq<SwapOperationView>,
    smaller: u128,
    larger: u128,
)
    requires
        monotone_market(oracle),
        smaller <= larger,
    ensures
        no_larger(forward_quote(oracle, config, chain, smaller), forward_quote(oracle, config, chain, larger)),
{
    lemma_forward_from_monotone(oracle, config, chain, 0, smaller, larger);
}

/// Walking back over a hop of the native exchange never gives a quote.
pub proof fn lemma_reverse_from_native(
    oracle: Oracle,
    config: ConfigView,
    chain: Seq<SwapOperationView>,
    count: int,
    native: int,
    amount: u128,
)
    requires
        0 <= native < count <= chain.len(),
        chain[native] is NativeSwap,
    ensures
        reverse_from(oracle, config, chain, count, amount) is Err,
    decreases count,
{
    if native < count - 1 {
        match hop_offer(oracle, config, chain[count - 1], amount) {
            Ok(needed) => {
                lemma_reverse_from_native(oracle, config, chain, count - 1, native, needed);
            },
            Err(_) => {},
        }
    }
}

/// A chain with a hop of the native exchange has no reverse quote, whatever
/// the market answers; where that hop is the last, the quote is refused as
/// unsupported.
pub proof fn lemma_reverse_quote_native(
    oracle: Oracle,
    config: ConfigView,
    chain: Seq<SwapOperationView>,
    native: int,
    ask_amount: u128,
)
    requires
        0 <= native < chain.len(),
        chain[native] is NativeSwap,
    ensures
        reverse_quote(oracle, config, chain, ask_amount) is Err,
        native == chain.len() - 1 ==> reverse_quote(oracle, config, chain, ask_amount) == Err::<u128, SimError>(
            SimError::UnsupportedReverseNative,
        ),
{
    lemma_reverse_from_native(oracle, config, chain, chain.len() as int, native, ask_amount);
}

/// A market without rounding: what a pair's reverse quote asks for a return
/// is exactly the offer for which the pair quotes that return.
pub open spec fn exact_market(oracle: Oracle) -> bool {
    forall|pair: Seq<char>, offer: AssetInfoView, ask: AssetInfoView, x: u128, y: u128|
        #[trigger] amount_reply(oracle, MarketQueryView::Simulation { pair, offer_asset_info: offer, offer_amount: x })
            == Some(y) ==> #[trigger] amount_reply(
            oracle,
            MarketQueryView::ReverseSimulation { pair, ask_asset_info: ask, ask_amount: y },
        ) == Some(x)
}

/// Every hop of the chain swaps one token for another through a pair, so
/// that no transfer tax arises.
pub open spec fn token_chain(chain: Seq<SwapOperationView>) -> bool {
    forall|i: int|
        0 <= i < chain.len() ==> !((#[trigger] chain[i]) is NativeSwap) && offer_asset(chain[i]) is Token
            && ask_asset(chain[i]) is Token
}

/// In a market without rounding, walking a chain of token hops back from
/// what the hops from `next` on give for `amount` arrives at hop `next`
/// with `amount`.
pub proof fn lemma_reverse_undoes_forward_from(
    oracle: Oracle,
    config: ConfigView,
    chain: Seq<SwapOperationView>,
    next: int,
    amount: u128,
    out: u128,
)
    requires
        exact_market(oracle),
        token_chain(chain),
        0 <= next <= chain.len(),
        forward_from(oracle, config, chain, next, amount) == Ok::<u128, SimError>(out),
    ensures
        reverse_from(oracle, config, chain, chain.len() as int, out) == reverse_from(
            oracle,
            config,
            chain,
            next,
            amount,
        ),
    decreases chain.len() - next,
{
    if next < chain.len() {
        let last = next + 1 == chain.len();
        let op = chain[next];
        assert(!(op is NativeSwap) && offer_asset(op) is Token && ask_asset(op) is Token);
        let given = hop_return(oracle, config, op, last, amount);
        assert(given is Ok);
        let passed = given->Ok_0;
        lemma_reverse_undoes_forward_from(oracle, config, chain, next + 1, passed, out);
        assert(hop_offer(oracle, config, op, passed) == Ok::<u128, SimError>(amount));
        assert(chain[next + 1 - 1] == op);
    }
}

/// On a chain of token hops, in a market without rounding, the reverse quote
/// of the forward quote is the amount offered.
pub proof fn lemma_reverse_quote_undoes_forward_quote(
    oracle: Oracle,
    config: ConfigView,
    chain: Seq<SwapOperationView>,
    offer_amount: u128,
    out: u128,
)
    requires
        exact_market(oracle),
        token_chain(chain),
        forward_quote(oracle, config, chain, offer_amount) == Ok::<u128, SimError>(out),
    ensures
        reverse_quote(oracle, config, chain, out) == Ok::<u128, SimError>(offer_amount),
{
    lemma_reverse_undoes_forward_from(oracle, config, chain, 0, offer_amount, out);
}

} // verus!
