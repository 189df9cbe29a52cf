use std::cell::RefCell;

use terraswap_router::asset::{AssetInfo, SwapOperation};
use terraswap_router::market::{query_amount, query_pair, MarketQuery, MarketReply};
use terraswap_router::simulate::{
    deduct_asset_tax, deduct_tax, reverse_simulate_operation, reverse_simulate_return_amount,
    reverse_simulate_swap_operations, simulate_operation, simulate_return_amount, simulate_swap_operations, Config,
    SimError,
};

fn native(denom: &str) -> AssetInfo {
    AssetInfo::NativeToken { denom: denom.to_string() }
}

fn token(addr: &str) -> AssetInfo {
    AssetInfo::Token { contract_addr: addr.to_string() }
}

fn config() -> Config {
    Config {
        terraswap_factory: "terraswap".to_string(),
        loop_factory: "loop".to_string(),
        astroport_factory: "astroport".to_string(),
    }
}

fn factor(pair: &str) -> Option<u128> {
    match pair {
        "terraswap:pair" => Some(2),
        "loop:pair" => Some(3),
        "astroport:pair" => Some(5),
        _ => None,
    }
}

/// Pairs multiply by a factor of their factory, the native exchange by 7,
/// the tax is a tenth, capped at 50, and none on uluna.
fn market(query: MarketQuery) -> Option<MarketReply> {
    match query {
        MarketQuery::Pair { factory, offer_asset_info, ask_asset_info } => {
            if offer_asset_info == token("unlisted") || ask_asset_info == token("unlisted") {
                None
            } else {
                Some(MarketReply::Pair { contract_addr: format!("{}:pair", factory) })
            }
        }
        MarketQuery::Simulation { pair, offer_amount, .. } => {
            factor(&pair).map(|f| MarketReply::Amount(offer_amount * f))
        }
        MarketQuery::ReverseSimulation { pair, ask_amount, .. } => {
            factor(&pair).map(|f| MarketReply::Amount(ask_amount / f))
        }
        MarketQuery::NativeSwap { offer_amount, ask_denom, .. } => {
            if ask_denom == "unknown" {
                None
            } else {
                Some(MarketReply::Amount(offer_amount * 7))
            }
        }
        MarketQuery::Tax { amount, denom } => {
            if denom == "uluna" {
                Some(MarketReply::Amount(0))
            } else if denom == "greedy" {
                Some(MarketReply::Amount(amount + 1))
            } else {
                Some(MarketReply::Amount(std::cmp::min(amount / 10, 50)))
            }
        }
        MarketQuery::ReverseTax { amount, denom } => {
            if denom == "uluna" {
                Some(MarketReply::Amount(0))
            } else if denom == "huge" {
                Some(MarketReply::Amount(u128::MAX))
            } else {
                Some(MarketReply::Amount(std::cmp::min(amount / 9, 50)))
            }
        }
        MarketQuery::Balance { .. } => Some(MarketReply::Amount(0)),
    }
}

#[test]
fn query_helpers_tell_the_answers_apart() {
    assert_eq!(query_amount(&market, MarketQuery::Tax { amount: 100, denom: "uusd".to_string() }), Some(10));
    assert_eq!(
        query_amount(
            &market,
            MarketQuery::Pair { factory: "loop".to_string(), offer_asset_info: token("a"), ask_asset_info: token("b") }
        ),
        None
    );
    assert_eq!(
        query_pair(
            &market,
            MarketQuery::Pair { factory: "loop".to_string(), offer_asset_info: token("a"), ask_asset_info: token("b") }
        ),
        Some("loop:pair".to_string())
    );
    assert_eq!(query_pair(&market, MarketQuery::Tax { amount: 100, denom: "uusd".to_string() }), None);
}

#[test]
fn tax_is_taken_off() {
    assert_eq!(deduct_tax(&market, 100, &"uusd".to_string()), Ok(90));
    assert_eq!(deduct_tax(&market, 1000, &"uusd".to_string()), Ok(950));
    assert_eq!(deduct_tax(&market, 100, &"uluna".to_string()), Ok(100));
    assert_eq!(deduct_tax(&market, 100, &"greedy".to_string()), Err(SimError::Underflow));
    assert_eq!(deduct_asset_tax(&market, 100, &token("a")), Ok(100));
    assert_eq!(deduct_asset_tax(&market, 100, &native("uusd")), Ok(90));
    let silent = |_q: MarketQuery| -> Option<MarketReply> { None };
    assert_eq!(deduct_tax(&silent, 100, &"uusd".to_string()), Err(SimError::BackendQueryFailed));
}

#[test]
fn pair_quote_between_tokens_has_no_tax() {
    assert_eq!(simulate_return_amount(&market, &"terraswap".to_string(), 100, &token("a"), &token("b")), Ok(200));
}

#[test]
fn pair_quote_takes_tax_off_a_native_offer() {
    // 100 - 10 = 90 offered, 270 returned
    assert_eq!(simulate_return_amount(&market, &"loop".to_string(), 100, &native("uusd"), &token("b")), Ok(270));
}

#[test]
fn pair_quote_takes_tax_off_a_native_return() {
    // 100 offered, 500 returned, 50 tax
    assert_eq!(simulate_return_amount(&market, &"astroport".to_string(), 100, &token("a"), &native("ukrw")), Ok(450));
}

#[test]
fn pair_quote_fails_without_a_pair() {
    assert_eq!(
        simulate_return_amount(&market, &"loop".to_string(), 100, &token("unlisted"), &token("b")),
        Err(SimError::BackendQueryFailed)
    );
    // the pair is looked up before the tax is taken
    assert_eq!(
        simulate_return_amount(&market, &"loop".to_string(), 100, &native("greedy"), &token("unlisted")),
        Err(SimError::BackendQueryFailed)
    );
    assert_eq!(
        simulate_return_amount(&market, &"nowhere".to_string(), 100, &token("a"), &token("b")),
        Err(SimError::BackendQueryFailed)
    );
}

#[test]
fn pair_quote_underflows_on_a_tax_above_the_amount() {
    assert_eq!(
        simulate_return_amount(&market, &"loop".to_string(), 100, &native("greedy"), &token("b")),
        Err(SimError::Underflow)
    );
    assert_eq!(
        simulate_return_amount(&market, &"loop".to_string(), 100, &token("a"), &native("greedy")),
        Err(SimError::Underflow)
    );
}

#[test]
fn native_hop_is_taxed_only_when_last() {
    let hop = SwapOperation::NativeSwap { offer_denom: "uusd".to_string(), ask_denom: "ukrw".to_string() };
    assert_eq!(simulate_operation(&market, &config(), &hop, false, 100), Ok(700));
    assert_eq!(simulate_operation(&market, &config(), &hop, true, 100), Ok(630));
}

#[test]
fn each_backend_asks_its_own_factory() {
    let cfg = config();
    let hop = SwapOperation::TerraSwap { offer_asset_info: token("a"), ask_asset_info: token("b") };
    assert_eq!(simulate_operation(&market, &cfg, &hop, false, 10), Ok(20));
    let hop = SwapOperation::Loop { offer_asset_info: token("a"), ask_asset_info: token("b") };
    assert_eq!(simulate_operation(&market, &cfg, &hop, false, 10), Ok(30));
    let hop = SwapOperation::Astroport { offer_asset_info: token("a"), ask_asset_info: token("b") };
    assert_eq!(simulate_operation(&market, &cfg, &hop, false, 10), Ok(50));
    let hop = SwapOperation::TerraSwap { offer_asset_info: token("a"), ask_asset_info: token("b") };
    assert_eq!(reverse_simulate_operation(&market, &cfg, &hop, 100), Ok(50));
    let hop = SwapOperation::Loop { offer_asset_info: token("a"), ask_asset_info: token("b") };
    assert_eq!(reverse_simulate_operation(&market, &cfg, &hop, 90), Ok(30));
    let hop = SwapOperation::Astroport { offer_asset_info: token("a"), ask_asset_info: token("b") };
    assert_eq!(reverse_simulate_operation(&market, &cfg, &hop, 100), Ok(20));
}

#[test]
fn forward_quote_of_an_empty_chain_fails() {
    assert_eq!(simulate_swap_operations(&market, &config(), 100, vec![]), Err(SimError::Empty));
}

#[test]
fn forward_quote_threads_the_amount_through_the_hops() {
    let chain = vec![
        SwapOperation::NativeSwap { offer_denom: "uusd".to_string(), ask_denom: "ukrw".to_string() },
        SwapOperation::TerraSwap { offer_asset_info: native("ukrw"), ask_asset_info: token("asset0001") },
        SwapOperation::Loop { offer_asset_info: token("asset0001"), ask_asset_info: native("uluna") },
    ];
    // 10 -> 70 (native, not last) -> 70 - 7 = 63 -> 126 -> 378, no tax on uluna
    assert_eq!(simulate_swap_operations(&market, &config(), 10, chain), Ok(378));
}

#[test]
fn forward_quote_taxes_a_last_native_hop() {
    let chain = vec![
        SwapOperation::Astroport { offer_asset_info: token("a"), ask_asset_info: native("uusd") },
        SwapOperation::NativeSwap { offer_denom: "uusd".to_string(), ask_denom: "ukrw".to_string() },
    ];
    // 20 -> 100 - 10 = 90 -> 90 - 9 = 81 -> 567
    assert_eq!(simulate_swap_operations(&market, &config(), 20, chain), Ok(567));
}

#[test]
fn forward_quote_stops_at_the_first_failure() {
    let asked = RefCell::new(0u32);
    let counting = |q: MarketQuery| -> Option<MarketReply> {
        *asked.borrow_mut() += 1;
        market(q)
    };
    let chain = vec![
        SwapOperation::NativeSwap { offer_denom: "uusd".to_string(), ask_denom: "unknown".to_string() },
        SwapOperation::TerraSwap { offer_asset_info: token("a"), ask_asset_info: token("b") },
    ];
    assert_eq!(simulate_swap_operations(&counting, &config(), 10, chain), Err(SimError::BackendQueryFailed));
    assert_eq!(*asked.borrow(), 1);
}

#[test]
fn forward_quote_reports_underflow() {
    let chain = vec![SwapOperation::NativeSwap { offer_denom: "greedy".to_string(), ask_denom: "ukrw".to_string() }];
    assert_eq!(simulate_swap_operations(&market, &config(), 10, chain), Err(SimError::Underflow));
}

#[test]
fn forward_quote_does_not_fall_when_the_offer_grows() {
    let mut previous: u128 = 0;
    let mut offer: u128 = 0;
    while offer < 2000 {
        let chain = vec![
            SwapOperation::TerraSwap { offer_asset_info: native("uusd"), ask_asset_info: token("a") },
            SwapOperation::Astroport { offer_asset_info: token("a"), ask_asset_info: native("ukrw") },
            SwapOperation::NativeSwap { offer_denom: "ukrw".to_string(), ask_denom: "uusd".to_string() },
        ];
        let quote = simulate_swap_operations(&market, &config(), offer, chain).unwrap();
        assert!(quote >= previous);
        previous = quote;
        offer += 37;
    }
}

#[test]
fn reverse_quote_of_an_empty_chain_fails() {
    assert_eq!(reverse_simulate_swap_operations(&market, &config(), 100, vec![]), Err(SimError::Empty));
}

#[test]
fn reverse_quote_refuses_a_native_hop() {
    let chain = vec![SwapOperation::NativeSwap { offer_denom: "uusd".to_string(), ask_denom: "ukrw".to_string() }];
    assert_eq!(
        reverse_simulate_swap_operations(&market, &config(), 100, chain),
        Err(SimError::UnsupportedReverseNative)
    );
    let chain = vec![
        SwapOperation::NativeSwap { offer_denom: "uusd".to_string(), ask_denom: "ukrw".to_string() },
        SwapOperation::TerraSwap { offer_asset_info: native("ukrw"), ask_asset_info: token("a") },
    ];
    assert_eq!(
        reverse_simulate_swap_operations(&market, &config(), 100, chain),
        Err(SimError::UnsupportedReverseNative)
    );
    let hop = SwapOperation::NativeSwap { offer_denom: "uusd".to_string(), ask_denom: "ukrw".to_string() };
    assert_eq!(reverse_simulate_operation(&market, &config(), &hop, 5), Err(SimError::UnsupportedReverseNative));
}

#[test]
fn reverse_quote_fails_in_a_later_hop_before_it_reaches_a_native_hop() {
    let chain = vec![
        SwapOperation::NativeSwap { offer_denom: "uusd".to_string(), ask_denom: "ukrw".to_string() },
        SwapOperation::TerraSwap { offer_asset_info: token("unlisted"), ask_asset_info: token("a") },
    ];
    assert_eq!(reverse_simulate_swap_operations(&market, &config(), 100, chain), Err(SimError::BackendQueryFailed));
}

#[test]
fn reverse_quote_walks_the_hops_backwards() {
    let chain = vec![
        SwapOperation::TerraSwap { offer_asset_info: native("uusd"), ask_asset_info: token("a") },
        SwapOperation::Loop { offer_asset_info: token("a"), ask_asset_info: token("b") },
    ];
    // 540 / 3 = 180 -> 180 / 2 = 90 -> 90 + 10 = 100
    assert_eq!(reverse_simulate_swap_operations(&market, &config(), 540, chain), Ok(100));
}

#[test]
fn reverse_pair_quote_adds_tax_to_a_native_offer() {
    assert_eq!(
        reverse_simulate_return_amount(&market, &"terraswap".to_string(), 180, &native("uusd"), &token("a")),
        Ok(100)
    );
    assert_eq!(
        reverse_simulate_return_amount(&market, &"terraswap".to_string(), 180, &token("a"), &native("uusd")),
        Ok(90)
    );
    assert_eq!(
        reverse_simulate_return_amount(&market, &"terraswap".to_string(), 180, &native("huge"), &token("a")),
        Err(SimError::Overflow)
    );
    assert_eq!(
        reverse_simulate_return_amount(&market, &"terraswap".to_string(), 180, &token("unlisted"), &token("a")),
        Err(SimError::BackendQueryFailed)
    );
}

#[test]
fn reverse_quote_undoes_forward_quote_on_token_hops() {
    let chain = || {
        vec![
            SwapOperation::TerraSwap { offer_asset_info: token("a"), ask_asset_info: token("b") },
            SwapOperation::Astroport { offer_asset_info: token("b"), ask_asset_info: token("c") },
            SwapOperation::Loop { offer_asset_info: token("c"), ask_asset_info: token("d") },
        ]
    };
    let mut offer: u128 = 1;
    while offer < 500 {
        let out = simulate_swap_operations(&market, &config(), offer, chain()).unwrap();
        assert_eq!(out, offer * 30);
        assert_eq!(reverse_simulate_swap_operations(&market, &config(), out, chain()), Ok(offer));
        offer += 13;
    }
}

#[test]
fn reverse_quote_is_close_to_the_offer_with_taxes() {
    let chain = || {
        vec![
            SwapOperation::TerraSwap { offer_asset_info: native("uusd"), ask_asset_info: token("b") },
            SwapOperation::Astroport { offer_asset_info: token("b"), ask_asset_info: token("c") },
        ]
    };
    let out = simulate_swap_operations(&market, &config(), 100, chain()).unwrap();
    assert_eq!(out, 900);
    assert_eq!(reverse_simulate_swap_operations(&market, &config(), out, chain()), Ok(100));
}
