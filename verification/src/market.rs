//! The questions that routing puts to the world outside: pair lookups, quotes,
//! transfer taxes and balances. The caller hands in a function that answers
//! them; contracts speak of such a function through the oracle it follows.

use vstd::prelude::*;
use crate::asset::{AssetInfo, AssetInfoView};

verus! {

/// A question for the market.
#[derive(Debug, PartialEq, Eq)]
pub enum MarketQuery {
    /// Which pair contract does `factory` hold for the two assets?
    Pair { factory: String, offer_asset_info: AssetInfo, ask_asset_info: AssetInfo },
    /// How much does `pair` return for `offer_amount` of the offer asset?
    Simulation { pair: String, offer_asset_info: AssetInfo, offer_amount: u128 },
    /// How much must be offered to `pair` so that it returns `ask_amount` of the ask asset?
    ReverseSimulation { pair: String, ask_asset_info: AssetInfo, ask_amount: u128 },
    /// How much of `ask_denom` does the native exchange give for the offered coin?
    NativeSwap { offer_denom: String, offer_amount: u128, ask_denom: String },
    /// The transfer tax on sending `amount` of `denom`.
    Tax { amount: u128, denom: String },
    /// The transfer tax to add so that `amount` of `denom` is left after tax.
    ReverseTax { amount: u128, denom: String },
    /// The balance that `address` holds of the asset.
    Balance { asset_info: AssetInfo, address: String },
}

/// What a [`MarketQuery`] is in contracts.
pub enum MarketQueryView {
    Pair { factory: Seq<char>, offer_asset_info: AssetInfoView, ask_asset_info: AssetInfoView },
    Simulation { pair: Seq<char>, offer_asset_info: AssetInfoView, offer_amount: u128 },
    ReverseSimulation { pair: Seq<char>, ask_asset_info: AssetInfoView, ask_amount: u128 },
    NativeSwap { offer_denom: Seq<char>, offer_amount: u128, ask_denom: Seq<char> },
    Tax { amount: u128, denom: Seq<char> },
    ReverseTax { amount: u128, denom: Seq<char> },
    Balance { asset_info: AssetInfoView, address: Seq<char> },
}

impl View for MarketQuery {
    type V = MarketQueryView;

    open spec fn view(&self) -> MarketQueryView {
        match self {
            MarketQuery::Pair { factory, offer_asset_info, ask_asset_info } => MarketQueryView::Pair {
                factory: factory@,
                offer_asset_info: offer_asset_info@,
                ask_asset_info: ask_asset_info@,
            },
            MarketQuery::Simulation { pair, offer_asset_info, offer_amount } => MarketQueryView::Simulation {
                pair: pair@,
                offer_asset_info: offer_asset_info@,
                offer_amount: *offer_amount,
            },
            MarketQuery::ReverseSimulation { pair, ask_asset_info, ask_amount } => MarketQueryView::ReverseSimulation {
                pair: pair@,
                ask_asset_info: ask_asset_info@,
                ask_amount: *ask_amount,
            },
            MarketQuery::NativeSwap { offer_denom, offer_amount, ask_denom } => MarketQueryView::NativeSwap {
                offer_denom: offer_denom@,
                offer_amount: *offer_amount,
                ask_denom: ask_denom@,
            },
            MarketQuery::Tax { amount, denom } => MarketQueryView::Tax { amount: *amount, denom: denom@ },
            MarketQuery::ReverseTax { amount, denom } => MarketQueryView::ReverseTax { amount: *amount, denom: denom@ },
            MarketQuery::Balance { asset_info, address } => MarketQueryView::Balance {
                asset_info: asset_info@,
                address: address@,
            },
        }
    }
}

/// An answer of the market: a pair contract's address, or an amount.
#[derive(Debug, PartialEq, Eq)]
pub enum MarketReply {
    Pair { contract_addr: String },
    Amount(u128),
}

/// What a [`MarketReply`] is in contracts.
pub enum MarketReplyView {
    Pair { contract_addr: Seq<char> },
    Amount(u128),
}

impl View for MarketReply {
    type V = MarketReplyView;

    open spec fn view(&self) -> MarketReplyView {
        match self {
            MarketReply::Pair { contract_addr } => MarketReplyView::Pair { contract_addr: contract_addr@ },
            MarketReply::Amount(amount) => MarketReplyView::Amount(*amount),
        }
    }
}

/// A market in contracts: for each question the answer, or `None` where the
/// query fails.
pub type Oracle = spec_fn(MarketQueryView) -> Option<MarketReplyView>;

/// The view of an answer that may have failed.
pub open spec fn reply_view(reply: Option<MarketReply>) -> Option<MarketReplyView> {
    match reply {
        Some(r) => Some(r@),
        None => None,
    }
}

/// The function `market` answers every question as `oracle` does.
pub open spec fn answers_as<F: Fn(MarketQuery) -> Option<MarketReply>>(market: F, oracle: Oracle) -> bool {
    forall|query: MarketQuery, reply: Option<MarketReply>| #[trigger]
        market.ensures((query,), reply) ==> reply_view(reply) == oracle(query@)
}

/// The function `market` may be asked any question.
pub open spec fn answers_all<F: Fn(MarketQuery) -> Option<MarketReply>>(market: F) -> bool {
    forall|query: MarketQuery| #[trigger] market.requires((query,))
}

/// The oracle's answer where it is an amount.
pub open spec fn amount_reply(oracle: Oracle, query: MarketQueryView) -> Option<u128> {
    match oracle(query) {
        Some(MarketReplyView::Amount(amount)) => Some(amount),
        _ => None,
    }
}

/// The oracle's answer where it is a pair contract.
pub open spec fn pair_reply(oracle: Oracle, query: MarketQueryView) -> Option<Seq<char>> {
    match oracle(query) {
        Some(MarketReplyView::Pair { contract_addr }) => Some(contract_addr),
        _ => None,
    }
}

/// The function `market` may answer `amount` to a question whose view is `query`.
pub open spec fn may_answer_amount<F: Fn(MarketQuery) -> Option<MarketReply>>(
    market: F,
    query: MarketQueryView,
    amount: u128,
) -> bool {
    exists|asked: MarketQuery|
        asked@ == query && #[trigger] market.ensures((asked,), Some(MarketReply::Amount(amount)))
}

/// Asks the market for an amount; any other answer counts as a failed query.
pub fn query_amount<F: Fn(MarketQuery) -> Option<MarketReply>>(market: &F, query: MarketQuery) -> (amount: Option<u128>)
    requires
        answers_all(*market),
    ensures
        forall|oracle: Oracle| #[trigger] answers_as(*market, oracle) ==> amount == amount_reply(oracle, query@),
        match amount {
            Some(value) => may_answer_amount(*market, query@, value),
            None => true,
        },
{
    let ghost asked = query;
    let reply = market(query);
    assert(market.ensures((asked,), reply));
    match reply {
        Some(MarketReply::Amount(amount)) => Some(amount),
        _ => None,
    }
}

/// Asks the market for a pair contract; any other answer counts as a failed query.
pub fn query_pair<F: Fn(MarketQuery) -> Option<MarketReply>>(market: &F, query: MarketQuery) -> (pair: Option<String>)
    requires
        answers_all(*market),
    ensures
        forall|oracle: Oracle| #[trigger]
            answers_as(*market, oracle) ==> match pair {
                Some(contract_addr) => pair_reply(oracle, query@) == Some(contract_addr@),
                None => pair_reply(oracle, query@) is None,
            },
{
    let ghost asked = query;
    let reply = market(query);
    assert(market.ensures((asked,), reply));
    match reply {
        Some(MarketReply::Pair { contract_addr }) => Some(contract_addr),
        _ => None,
    }
}

} // verus!
