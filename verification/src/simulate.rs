//! Forward and reverse quotes for a chain of swap operations.

use vstd::prelude::*;
use crate::asset::{AssetInfo, AssetInfoView, SwapOperation, SwapOperationView, chain_view};
use crate::market::{
    MarketQuery, MarketQueryView, MarketReply, Oracle, amount_reply, answers_all, answers_as, pair_reply, query_amount,
    query_pair,
};

verus! {

/// Why a quote could not be given.
#[derive(Debug, PartialEq, Eq, Clone, Copy)]
pub enum SimError {
    /// The chain has no hop.
    Empty,
    /// A transfer tax is larger than the amount it is taken from.
    Underflow,
    /// An amount with its transfer tax added does not fit in 128 bits.
    Overflow,
    /// The native exchange gives no reverse quote.
    UnsupportedReverseNative,
    /// The market did not answer a query.
    BackendQueryFailed,
}

/// The router's configuration: the factory of each automated market maker.
#[derive(Debug, PartialEq, Eq)]
pub struct Config {
    pub terraswap_factory: String,
    pub loop_factory: String,
    pub astroport_factory: String,
}

/// What a [`Config`] is in contracts.
pub struct ConfigView {
    pub terraswap_factory: Seq<char>,
    pub loop_factory: Seq<char>,
    pub astroport_factory: Seq<char>,
}

impl View for Config {
    type V = ConfigView;

    open spec fn view(&self) -> ConfigView {
        ConfigView {
            terraswap_factory: self.terraswap_factory@,
            loop_factory: self.loop_factory@,
            astroport_factory: self.astroport_factory@,
        }
    }
}

/// `amount` of `denom` less its transfer tax.
pub open spec fn tax_deducted(oracle: Oracle, amount: u128, denom: Seq<char>) -> Result<u128, SimError> {
    match amount_reply(oracle, MarketQueryView::Tax { amount, denom }) {
        None => Err(SimError::BackendQueryFailed),
        Some(tax) => if tax <= amount {
            Ok((amount - tax) as u128)
        } else {
            Err(SimError::Underflow)
        },
    }
}

/// `amount` of an asset as it arrives after a transfer: less tax for a native
/// asset, unchanged for a token.
pub open spec fn net_of_tax(oracle: Oracle, amount: u128, asset: AssetInfoView) -> Result<u128, SimError> {
    match asset {
        AssetInfoView::NativeToken { denom } => tax_deducted(oracle, amount, denom),
        AssetInfoView::Token { .. } => Ok(amount),
    }
}

/// `amount` of an asset with the transfer tax added that paying it will cost.
pub open spec fn tax_added(oracle: Oracle, amount: u128, asset: AssetInfoView) -> Result<u128, SimError> {
    match asset {
        AssetInfoView::NativeToken { denom } => match amount_reply(
            oracle,
            MarketQueryView::ReverseTax { amount, denom },
        ) {
            None => Err(SimError::BackendQueryFailed),
            Some(tax) => if amount + tax <= u128::MAX {
                Ok((amount + tax) as u128)
            } else {
                Err(SimError::Overflow)
            },
        },
        AssetInfoView::Token { .. } => Ok(amount),
    }
}

/// What a pair of `factory` returns for `offer_amount`: the pair is looked up,
/// tax is taken off a native offer, the pair is asked for its quote, and tax
/// is taken off a native return.
pub open spec fn return_amount(
    oracle: Oracle,
    factory: Seq<char>,
    offer_amount: u128,
    offer_asset_info: AssetInfoView,
    ask_asset_info: AssetInfoView,
) -> Result<u128, SimError> {
    match pair_reply(oracle, MarketQueryView::Pair { factory, offer_asset_info, ask_asset_info }) {
        None => Err(SimError::BackendQueryFailed),
        Some(pair) => match net_of_tax(oracle, offer_amount, offer_asset_info) {
            Err(e) => Err(e),
            Ok(net) => match amount_reply(
                oracle,
                MarketQueryView::Simulation { pair, offer_asset_info, offer_amount: net },
            ) {
                None => Err(SimError::BackendQueryFailed),
                Some(gross) => net_of_tax(oracle, gross, ask_asset_info),
            },
        },
    }
}

/// What must be offered to a pair of `factory` so that it returns
/// `ask_amount`: the pair is looked up and asked for its reverse quote, and
/// tax is added to a native offer.
pub open spec fn offer_amount_needed(
    oracle: Oracle,
    factory: Seq<char>,
    ask_amount: u128,
    offer_asset_info: AssetInfoView,
    ask_asset_info: AssetInfoView,
) -> Result<u128, SimError> {
    match pair_reply(oracle, MarketQueryView::Pair { factory, offer_asset_info, ask_asset_info }) {
        None => Err(SimError::BackendQueryFailed),
        Some(pair) => match amount_reply(
            oracle,
            MarketQueryView::ReverseSimulation { pair, ask_asset_info, ask_amount },
        ) {
            None => Err(SimError::BackendQueryFailed),
            Some(gross) => tax_added(oracle, gross, offer_asset_info),
        },
    }
}

/// What the native exchange gives for `offer_amount`; on the last hop of a
/// chain the transfer tax is taken off the offer first.
pub open spec fn native_return(
    oracle: Oracle,
    last: bool,
    offer_amount: u128,
    offer_denom: Seq<char>,
    ask_denom: Seq<char>,
) -> Result<u128, SimError> {
    let offered = if last {
        tax_deducted(oracle, offer_amount, offer_denom)
    } else {
        Ok(offer_amount)
    };
    match offered {
        Err(e) => Err(e),
        Ok(net) => match amount_reply(
            oracle,
            MarketQueryView::NativeSwap { offer_denom, offer_amount: net, ask_denom },
        ) {
            None => Err(SimError::BackendQueryFailed),
            Some(received) => Ok(received),
        },
    }
}

/// What one hop gives for `amount`; `last` says that it ends its chain.
pub open spec fn hop_return(
    oracle: Oracle,
    config: ConfigView,
    op: SwapOperationView,
    last: bool,
    amount: u128,
) -> Result<u128, SimError> {
    match op {
        SwapOperationView::NativeSwap { offer_denom, ask_denom } => native_return(
            oracle,
            last,
            amount,
            offer_denom,
            ask_denom,
        ),
        SwapOperationView::TerraSwap { offer_asset_info, ask_asset_info } => return_amount(
            oracle,
            config.terraswap_factory,
            amount,
            offer_asset_info,
            ask_asset_info,
        ),
        SwapOperationView::Loop { offer_asset_info, ask_asset_info } => return_amount(
            oracle,
            config.loop_factory,
            amount,
            offer_asset_info,
            ask_asset_info,
        ),
        SwapOperationView::Astroport { offer_asset_info, ask_asset_info } => return_amount(
            oracle,
            config.astroport_factory,
            amount,
            offer_asset_info,
            ask_asset_info,
        ),
    }
}

/// What one hop needs so that it gives `amount`.
pub open spec fn hop_offer(oracle: Oracle, config: ConfigView, op: SwapOperationView, amount: u128) -> Result<
    u128,
    SimError,
> {
    match op {
        SwapOperationView::NativeSwap { .. } => Err(SimError::UnsupportedReverseNative),
        SwapOperationView::TerraSwap { offer_asset_info, ask_asset_info } => offer_amount_needed(
            oracle,
            config.terraswap_factory,
            amount,
            offer_asset_info,
            ask_asset_info,
        ),
        SwapOperationView::Loop { offer_asset_info, ask_asset_info } => offer_amount_needed(
            oracle,
            config.loop_factory,
            amount,
            offer_asset_info,
            ask_asset_info,
        ),
        SwapOperationView::Astroport { offer_asset_info, ask_asset_info } => offer_amount_needed(
            oracle,
            config.astroport_factory,
            amount,
            offer_asset_info,
            ask_asset_info,
        ),
    }
}

/// The amount that comes out of the chain's hops from `next` on, when
/// `amount` goes into hop `next`.
pub open spec fn forward_from(
    oracle: Oracle,
    config: ConfigView,
    chain: Seq<SwapOperationView>,
    next: int,
    amount: u128,
) -> Result<u128, SimError>
    decreases chain.len() - next,
{
    if next < 0 || next >= chain.len() {
        Ok(amount)
    } else {
        match hop_return(oracle, config, chain[next], next + 1 == chain.len(), amount) {
            Err(e) => Err(e),
            Ok(out) => forward_from(oracle, config, chain, next + 1, out),
        }
    }
}

/// The forward quote of a chain: what `offer_amount` becomes, hop by hop.
pub open spec fn forward_quote(oracle: Oracle, config: ConfigView, chain: Seq<SwapOperationView>, offer_amount: u128)
    -> Result<u128, SimError> {
    if chain.len() == 0 {
        Err(SimError::Empty)
    } else {
        forward_from(oracle, config, chain, 0, offer_amount)
    }
}

/// The amount that must go into the chain's first hop so that `amount` comes
/// out of hop `count - 1`, walking back from there.
pub open spec fn reverse_from(
    oracle: Oracle,
    config: ConfigView,
    chain: Seq<SwapOperationView>,
    count: int,
    amount: u128,
) -> Result<u128, SimError>
    decreases count,
{
    if count <= 0 || count > chain.len() {
        Ok(amount)
    } else {
        match hop_offer(oracle, config, chain[count - 1], amount) {
            Err(e) => Err(e),
            Ok(needed) => reverse_from(oracle, config, chain, count - 1, needed),
        }
    }
}

/// The reverse quote of a chain: what must be offered so that `ask_amount`
/// comes out, walking the hops from the last to the first.
pub open spec fn reverse_quote(oracle: Oracle, config: ConfigView, chain: Seq<SwapOperationView>, ask_amount: u128)
    -> Result<u128, SimError> {
    if chain.len() == 0 {
        Err(SimError::Empty)
    } else {
        reverse_from(oracle, config, chain, chain.len() as int, ask_amount)
    }
}

/// Takes the transfer tax on `amount` of `denom` off it.
pub fn deduct_tax<F: Fn(MarketQuery) -> Option<MarketReply>>(market: &F, amount: u128, denom: &String) -> (result:
    Result<u128, SimError>)
    requires
        answers_all(*market),
    ensures
        forall|oracle: Oracle| #[trigger] answers_as(*market, oracle) ==> result == tax_deducted(oracle, amount, denom@),
        result != Err::<u128, SimError>(SimError::Empty),
{
    match query_amount(market, MarketQuery::Tax { amount, denom: denom.clone() }) {
        None => Err(SimError::BackendQueryFailed),
        Some(tax) => if tax <= amount {
            Ok(amount - tax)
        } else {
            Err(SimError::Underflow)
        },
    }
}

/// Takes the transfer tax off `amount` where the asset is native.
pub fn deduct_asset_tax<F: Fn(MarketQuery) -> Option<MarketReply>>(market: &F, amount: u128, asset: &AssetInfo) -> (result:
    Result<u128, SimError>)
    requires
        answers_all(*market),
    ensures
        forall|oracle: Oracle| #[trigger] answers_as(*market, oracle) ==> result == net_of_tax(oracle, amount, asset@),
        result != Err::<u128, SimError>(SimError::Empty),
{
    match asset {
        AssetInfo::NativeToken { denom } => deduct_tax(market, amount, denom),
        AssetInfo::Token { .. } => Ok(amount),
    }
}

/// Quotes one hop through a pair of `factory`, transfer taxes included.
pub fn simulate_return_amount<F: Fn(MarketQuery) -> Option<MarketReply>>(
    market: &F,
    factory: &String,
    offer_amount: u128,
    offer_asset_info: &AssetInfo,
    ask_asset_info: &AssetInfo,
) -> (result: Result<u128, SimError>)
    requires
        answers_all(*market),
    ensures
        forall|oracle: Oracle| #[trigger]
            answers_as(*market, oracle) ==> result == return_amount(
                oracle,
                factory@,
                offer_amount,
                offer_asset_info@,
                ask_asset_info@,
            ),
        result != Err::<u128, SimError>(SimError::Empty),
{
    let pair = match query_pair(
        market,
        MarketQuery::Pair {
            factory: factory.clone(),
            offer_asset_info: offer_asset_info.clone(),
            ask_asset_info: ask_asset_info.clone(),
        },
    ) {
        None => { return Err(SimError::BackendQueryFailed); },
        Some(pair) => pair,
    };
    let net = match deduct_asset_tax(market, offer_amount, offer_asset_info) {
        Err(e) => { return Err(e); },
        Ok(net) => net,
    };
    let gross = match query_amount(
        market,
        MarketQuery::Simulation { pair, offer_asset_info: offer_asset_info.clone(), offer_amount: net },
    ) {
        None => { return Err(SimError::BackendQueryFailed); },
        Some(gross) => gross,
    };
    deduct_asset_tax(market, gross, ask_asset_info)
}

/// Quotes one hop through a pair of `factory` backwards, transfer tax included.
pub fn reverse_simulate_return_amount<F: Fn(MarketQuery) -> Option<MarketReply>>(
    market: &F,
    factory: &String,
    ask_amount: u128,
    offer_asset_info: &AssetInfo,
    ask_asset_info: &AssetInfo,
) -> (result: Result<u128, SimError>)
    requires
        answers_all(*market),
    ensures
        forall|oracle: Oracle| #[trigger]
            answers_as(*market, oracle) ==> result == offer_amount_needed(
                oracle,
                factory@,
                ask_amount,
                offer_asset_info@,
                ask_asset_info@,
            ),
        result != Err::<u128, SimError>(SimError::Empty),
{
    let pair = match query_pair(
        market,
        MarketQuery::Pair {
            factory: factory.clone(),
            offer_asset_info: offer_asset_info.clone(),
            ask_asset_info: ask_asset_info.clone(),
        },
    ) {
        None => { return Err(SimError::BackendQueryFailed); },
        Some(pair) => pair,
    };
    let gross = match query_amount(
        market,
        MarketQuery::ReverseSimulation { pair, ask_asset_info: ask_asset_info.clone(), ask_amount },
    ) {
        None => { return Err(SimError::BackendQueryFailed); },
        Some(gross) => gross,
    };
    match offer_asset_info {
        AssetInfo::NativeToken { denom } => {
            match query_amount(market, MarketQuery::ReverseTax { amount: gross, denom: denom.clone() }) {
                None => Err(SimError::BackendQueryFailed),
                Some(tax) => if tax <= u128::MAX - gross {
                    Ok(gross + tax)
                } else {
                    Err(SimError::Overflow)
                },
            }
        },
        AssetInfo::Token { .. } => Ok(gross),
    }
}

/// Quotes one hop of a chain; `last` says that it ends the chain.
pub fn simulate_operation<F: Fn(MarketQuery) -> Option<MarketReply>>(
    market: &F,
    config: &Config,
    operation: &SwapOperation,
    last: bool,
    offer_amount: u128,
) -> (result: Result<u128, SimError>)
    requires
        answers_all(*market),
    ensures
        forall|oracle: Oracle| #[trigger]
            answers_as(*market, oracle) ==> result == hop_return(oracle, config@, operation@, last, offer_amount),
        result != Err::<u128, SimError>(SimError::Empty),
{
    match operation {
        SwapOperation::NativeSwap { offer_denom, ask_denom } => {
            let net = if last {
                match deduct_tax(market, offer_amount, offer_denom) {
                    Err(e) => { return Err(e); },
                    Ok(net) => net,
                }
            } else {
                offer_amount
            };
            match query_amount(
                market,
                MarketQuery::NativeSwap {
                    offer_denom: offer_denom.clone(),
                    offer_amount: net,
                    ask_denom: ask_denom.clone(),
                },
            ) {
                None => Err(SimError::BackendQueryFailed),
                Some(received) => Ok(received),
            }
        },
        SwapOperation::TerraSwap { offer_asset_info, ask_asset_info } => simulate_return_amount(
            market,
            &config.terraswap_factory,
            offer_amount,
            offer_asset_info,
            ask_asset_info,
        ),
        SwapOperation::Loop { offer_asset_info, ask_asset_info } => simulate_return_amount(
            market,
            &config.loop_factory,
            offer_amount,
            offer_asset_info,
            ask_asset_info,
        ),
        SwapOperation::Astroport { offer_asset_info, ask_asset_info } => simulate_return_amount(
            market,
            &config.astroport_factory,
            offer_amount,
            offer_asset_info,
            ask_asset_info,
        ),
    }
}

/// Quotes one hop of a chain backwards.
pub fn reverse_simulate_operation<F: Fn(MarketQuery) -> Option<MarketReply>>(
    market: &F,
    config: &Config,
    operation: &SwapOperation,
    ask_amount: u128,
) -> (result: Result<u128, SimError>)
    requires
        answers_all(*market),
    ensures
        forall|oracle: Oracle| #[trigger]
            answers_as(*market, oracle) ==> result == hop_offer(oracle, config@, operation@, ask_amount),
        operation@ is NativeSwap ==> result == Err::<u128, SimError>(SimError::UnsupportedReverseNative),
        result != Err::<u128, SimError>(SimError::Empty),
{
    match operation {
        SwapOperation::NativeSwap { .. } => Err(SimError::UnsupportedReverseNative),
        SwapOperation::TerraSwap { offer_asset_info, ask_asset_info } => reverse_simulate_return_amount(
            market,
            &config.terraswap_factory,
            ask_amount,
            offer_asset_info,
            ask_asset_info,
        ),
        SwapOperation::Loop { offer_asset_info, ask_asset_info } => reverse_simulate_return_amount(
            market,
            &config.loop_factory,
            ask_amount,
            offer_asset_info,
            ask_asset_info,
        ),
        SwapOperation::Astroport { offer_asset_info, ask_asset_info } => reverse_simulate_return_amount(
            market,
            &config.astroport_factory,
            ask_amount,
            offer_asset_info,
            ask_asset_info,
        ),
    }
}

/// The forward quote of a chain: what `offer_amount` becomes when it is
/// swapped hop by hop, each hop's return being the next hop's offer.
pub fn simulate_swap_operations<F: Fn(MarketQuery) -> Option<MarketReply>>(
    market: &F,
    config: &Config,
    offer_amount: u128,
    operations: Vec<SwapOperation>,
) -> (result: Result<u128, SimError>)
    requires
        answers_all(*market),
    ensures
        forall|oracle: Oracle| #[trigger]
            answers_as(*market, oracle) ==> result == forward_quote(
                oracle,
                config@,
                chain_view(operations@),
                offer_amount,
            ),
        result == Err::<u128, SimError>(SimError::Empty) <==> operations@.len() == 0,
{
    let operations_len = operations.len();
    if operations_len == 0 {
        return Err(SimError::Empty);
    }
    let ghost chain = chain_view(operations@);
    let mut amount = offer_amount;
    let mut index: usize = 0;
    while index < operations_len
        invariant
            answers_all(*market),
            operations_len == operations@.len(),
            index <= operations_len,
            chain == chain_view(operations@),
            forall|oracle: Oracle| #[trigger]
                answers_as(*market, oracle) ==> forward_from(oracle, config@, chain, 0, offer_amount) == forward_from(
                    oracle,
                    config@,
                    chain,
                    index as int,
                    amount,
                ),
        decreases operations_len - index,
    {
        let last = index + 1 == operations_len;
        match simulate_operation(market, config, &operations[index], last, amount) {
            Err(e) => {
                return Err(e);
            },
            Ok(out) => {
                amount = out;
            },
        }
        index += 1;
    }
    Ok(amount)
}

/// The reverse quote of a chain: what must be offered so that `ask_amount`
/// comes out, found by walking the hops from the last to the first.
pub fn reverse_simulate_swap_operations<F: Fn(MarketQuery) -> Option<MarketReply>>(
    market: &F,
    config: &Config,
    ask_amount: u128,
    operations: Vec<SwapOperation>,
) -> (result: Result<u128, SimError>)
    requires
        answers_all(*market),
    ensures
        forall|oracle: Oracle| #[trigger]
            answers_as(*market, oracle) ==> result == reverse_quote(
                oracle,
                config@,
                chain_view(operations@),
                ask_amount,
            ),
        result == Err::<u128, SimError>(SimError::Empty) <==> operations@.len() == 0,
        operations@.len() > 0 && operations@.last()@ is NativeSwap ==> result == Err::<u128, SimError>(
            SimError::UnsupportedReverseNative,
        ),
{
    let operations_len = operations.len();
    if operations_len == 0 {
        return Err(SimError::Empty);
    }
    let ghost chain = chain_view(operations@);
    let mut amount = ask_amount;
    let mut count: usize = operations_len;
    while count > 0
        invariant
            answers_all(*market),
            operations_len == operations@.len(),
            count <= operations_len,
            chain == chain_view(operations@),
            count < operations_len ==> !(operations@.last()@ is NativeSwap),
            forall|oracle: Oracle| #[trigger]
                answers_as(*market, oracle) ==> reverse_from(
                    oracle,
                    config@,
                    chain,
                    operations_len as int,
                    ask_amount,
                ) == reverse_from(oracle, config@, chain, count as int, amount),
        decreases count,
    {
        match reverse_simulate_operation(market, config, &operations[count - 1], amount) {
            Err(e) => {
                return Err(e);
            },
            Ok(needed) => {
                amount = needed;
            },
        }
        count -= 1;
    }
    Ok(amount)
}

} // verus!
