use binance::api::{Futures, FuturesCoin, Sapi, Spot, API};
use std::collections::HashSet;

fn spot_table() -> Vec<(API, &'static str)> {
    vec![
        (API::Spot(Spot::Ping), "/api/v3/ping"),
        (API::Spot(Spot::Time), "/api/v3/time"),
        (API::Spot(Spot::ExchangeInfo), "/api/v3/exchangeInfo"),
        (API::Spot(Spot::Depth), "/api/v3/depth"),
        (API::Spot(Spot::Trades), "/api/v3/trades"),
        (API::Spot(Spot::HistoricalTrades), "/api/v3/historicalTrades"),
        (API::Spot(Spot::AggTrades), "/api/v3/aggTrades"),
        (API::Spot(Spot::Klines), "/api/v3/klines"),
        (API::Spot(Spot::AvgPrice), "/api/v3/avgPrice"),
        (API::Spot(Spot::Ticker24hr), "/api/v3/ticker/24hr"),
        (API::Spot(Spot::Price), "/api/v3/ticker/price"),
        (API::Spot(Spot::BookTicker), "/api/v3/ticker/bookTicker"),
        (API::Spot(Spot::Order), "/api/v3/order"),
        (API::Spot(Spot::OrderTest), "/api/v3/order/test"),
        (API::Spot(Spot::OpenOrders), "/api/v3/openOrders"),
        (API::Spot(Spot::AllOrders), "/api/v3/allOrders"),
        (API::Spot(Spot::Oco), "/api/v3/order/oco"),
        (API::Spot(Spot::OrderList), "/api/v3/orderList"),
        (API::Spot(Spot::AllOrderList), "/api/v3/allOrderList"),
        (API::Spot(Spot::OpenOrderList), "/api/v3/openOrderList"),
        (API::Spot(Spot::Account), "/api/v3/account"),
        (API::Spot(Spot::MyTrades), "/api/v3/myTrades"),
        (API::Spot(Spot::UserDataStream), "/api/v3/userDataStream"),
    ]
}

fn savings_table() -> Vec<(API, &'static str)> {
    vec![
        (API::Savings(Sapi::AllCoins), "/sapi/v1/capital/config/getall"),
        (API::Savings(Sapi::AssetDetail), "/sapi/v1/asset/assetDetail"),
        (API::Savings(Sapi::DepositAddress), "/sapi/v1/capital/deposit/address"),
        (API::Savings(Sapi::SpotFuturesTransfer), "/sapi/v1/futures/transfer"),
    ]
}

fn futures_table() -> Vec<(API, &'static str)> {
    vec![
        (API::Futures(Futures::Ping), "/fapi/v1/ping"),
        (API::Futures(Futures::Time), "/fapi/v1/time"),
        (API::Futures(Futures::ExchangeInfo), "/fapi/v1/exchangeInfo"),
        (API::Futures(Futures::Depth), "/fapi/v1/depth"),
        (API::Futures(Futures::Trades), "/fapi/v1/trades"),
        (API::Futures(Futures::HistoricalTrades), "/fapi/v1/historicalTrades"),
        (API::Futures(Futures::AggTrades), "/fapi/v1/aggTrades"),
        (API::Futures(Futures::Klines), "/fapi/v1/klines"),
        (API::Futures(Futures::ContinuousKlines), "/fapi/v1/continuousKlines"),
        (API::Futures(Futures::IndexPriceKlines), "/fapi/v1/indexPriceKlines"),
        (API::Futures(Futures::MarkPriceKlines), "/fapi/v1/markPriceKlines"),
        (API::Futures(Futures::PremiumIndex), "/fapi/v1/premiumIndex"),
        (API::Futures(Futures::FundingRate), "/fapi/v1/fundingRate"),
        (API::Futures(Futures::Ticker24hr), "/fapi/v1/ticker/24hr"),
        (API::Futures(Futures::TickerPrice), "/fapi/v2/ticker/price"),
        (API::Futures(Futures::BookTicker), "/fapi/v1/ticker/bookTicker"),
        (API::Futures(Futures::AllForceOrders), "/fapi/v1/allForceOrders"),
        (API::Futures(Futures::AllOpenOrders), "/fapi/v1/allOpenOrders"),
        (API::Futures(Futures::AllOrders), "/fapi/v1/allOrders"),
        (API::Futures(Futures::UserTrades), "/fapi/v1/userTrades"),
        (API::Futures(Futures::Order), "/fapi/v1/order"),
        (API::Futures(Futures::PositionRisk), "/fapi/v2/positionRisk"),
        (API::Futures(Futures::Balance), "/fapi/v2/balance"),
        (API::Futures(Futures::PositionSide), "/fapi/v1/positionSide/dual"),
        (API::Futures(Futures::OpenInterest), "/fapi/v1/openInterest"),
        (API::Futures(Futures::OpenInterestHist), "/futures/data/openInterestHist"),
        (API::Futures(Futures::TopLongShortAccountRatio), "/futures/data/topLongShortAccountRatio"),
        (
            API::Futures(Futures::TopLongShortPositionRatio),
            "/futures/data/topLongShortPositionRatio",
        ),
        (
            API::Futures(Futures::GlobalLongShortAccountRatio),
            "/futures/data/globalLongShortAccountRatio",
        ),
        (API::Futures(Futures::TakerlongshortRatio), "/futures/data/takerlongshortRatio"),
        (API::Futures(Futures::LvtKlines), "/fapi/v1/lvtKlines"),
        (API::Futures(Futures::IndexInfo), "/fapi/v1/indexInfo"),
        (API::Futures(Futures::ChangeInitialLeverage), "/fapi/v1/leverage"),
        (API::Futures(Futures::Account), "/fapi/v2/account"),
        (API::Futures(Futures::OpenOrders), "/fapi/v1/openOrders"),
        (API::Futures(Futures::UserDataStream), "/fapi/v1/listenKey"),
        (API::Futures(Futures::Income), "/fapi/v1/income"),
        (API::Futures(Futures::MarginType), "/fapi/v1/marginType"),
        (API::Futures(Futures::SubAccountSummary), "/sapi/v2/sub-account/futures/accountSummary"),
    ]
}

fn futures_coin_table() -> Vec<(API, &'static str)> {
    vec![
        (API::FuturesCoin(FuturesCoin::Ping), "/dapi/v1/ping"),
        (API::FuturesCoin(FuturesCoin::Time), "/dapi/v1/time"),
        (API::FuturesCoin(FuturesCoin::ExchangeInfo), "/dapi/v1/exchangeInfo"),
        (API::FuturesCoin(FuturesCoin::Depth), "/dapi/v1/depth"),
        (API::FuturesCoin(FuturesCoin::Trades), "/dapi/v1/trades"),
        (API::FuturesCoin(FuturesCoin::HistoricalTrades), "/dapi/v1/historicalTrades"),
        (API::FuturesCoin(FuturesCoin::AggTrades), "/dapi/v1/aggTrades"),
        (API::FuturesCoin(FuturesCoin::Klines), "/dapi/v1/klines"),
        (API::FuturesCoin(FuturesCoin::ContinuousKlines), "/dapi/v1/continuousKlines"),
        (API::FuturesCoin(FuturesCoin::IndexPriceKlines), "/dapi/v1/indexPriceKlines"),
        (API::FuturesCoin(FuturesCoin::MarkPriceKlines), "/dapi/v1/markPriceKlines"),
        (API::FuturesCoin(FuturesCoin::PremiumIndex), "/dapi/v1/premiumIndex"),
        (API::FuturesCoin(FuturesCoin::FundingRate), "/dapi/v1/fundingRate"),
        (API::FuturesCoin(FuturesCoin::Ticker24hr), "/dapi/v1/ticker/24hr"),
        (API::FuturesCoin(FuturesCoin::TickerPrice), "/dapi/v2/ticker/price"),
        (API::FuturesCoin(FuturesCoin::BookTicker), "/dapi/v1/ticker/bookTicker"),
        (API::FuturesCoin(FuturesCoin::AllForceOrders), "/dapi/v1/allForceOrders"),
        (API::FuturesCoin(FuturesCoin::AllOpenOrders), "/dapi/v1/allOpenOrders"),
        (API::FuturesCoin(FuturesCoin::AllOrders), "/dapi/v1/allOrders"),
        (API::FuturesCoin(FuturesCoin::UserTrades), "/dapi/v1/userTrades"),
        (API::FuturesCoin(FuturesCoin::Order), "/dapi/v1/order"),
        (API::FuturesCoin(FuturesCoin::PositionRisk), "/dapi/v2/positionRisk"),
        (API::FuturesCoin(FuturesCoin::Balance), "/dapi/v2/balance"),
        (API::FuturesCoin(FuturesCoin::PositionSide), "/dapi/v1/positionSide/dual"),
        (API::FuturesCoin(FuturesCoin::OpenInterest), "/dapi/v1/openInterest"),
        (API::FuturesCoin(FuturesCoin::OpenInterestHist), "/futures/data/openInterestHist"),
        (
            API::FuturesCoin(FuturesCoin::TopLongShortAccountRatio),
            "/futures/data/topLongShortAccountRatio",
        ),
        (
            API::FuturesCoin(FuturesCoin::TopLongShortPositionRatio),
            "/futures/data/topLongShortPositionRatio",
        ),
        (
            API::FuturesCoin(FuturesCoin::GlobalLongShortAccountRatio),
            "/futures/data/globalLongShortAccountRatio",
        ),
        (API::FuturesCoin(FuturesCoin::TakerlongshortRatio), "/futures/data/takerlongshortRatio"),
        (API::FuturesCoin(FuturesCoin::LvtKlines), "/dapi/v1/lvtKlines"),
        (API::FuturesCoin(FuturesCoin::IndexInfo), "/dapi/v1/indexInfo"),
        (API::FuturesCoin(FuturesCoin::ChangeInitialLeverage), "/dapi/v1/leverage"),
        (API::FuturesCoin(FuturesCoin::Account), "/dapi/v2/account"),
        (API::FuturesCoin(FuturesCoin::OpenOrders), "/dapi/v1/openOrders"),
        (API::FuturesCoin(FuturesCoin::UserDataStream), "/dapi/v1/listenKey"),
        (API::FuturesCoin(FuturesCoin::Income), "/dapi/v1/income"),
        (API::FuturesCoin(FuturesCoin::MarginType), "/dapi/v1/marginType"),
    ]
}

fn whole_table() -> Vec<(API, &'static str)> {
    let mut table = spot_table();
    table.extend(savings_table());
    table.extend(futures_table());
    table.extend(futures_coin_table());
    table
}

fn analytics_twins() -> Vec<(Futures, FuturesCoin)> {
    vec![
        (Futures::OpenInterestHist, FuturesCoin::OpenInterestHist),
        (Futures::TopLongShortAccountRatio, FuturesCoin::TopLongShortAccountRatio),
        (Futures::TopLongShortPositionRatio, FuturesCoin::TopLongShortPositionRatio),
        (Futures::GlobalLongShortAccountRatio, FuturesCoin::GlobalLongShortAccountRatio),
        (Futures::TakerlongshortRatio, FuturesCoin::TakerlongshortRatio),
    ]
}

fn is_twin(a: API, b: API) -> bool {
    analytics_twins().into_iter().any(|(f, c)| {
        (a == API::Futures(f) && b == API::FuturesCoin(c))
            || (a == API::FuturesCoin(c) && b == API::Futures(f))
    })
}

#[test]
fn catalog_has_every_operation() {
    assert_eq!(spot_table().len(), 23);
    assert_eq!(savings_table().len(), 4);
    assert_eq!(futures_table().len(), 39);
    assert_eq!(futures_coin_table().len(), 38);
    let operations: HashSet<String> =
        whole_table().into_iter().map(|(api, _)| format!("{:?}", api)).collect();
    assert_eq!(operations.len(), 104);
}

#[test]
fn every_operation_resolves_to_its_path() {
    for (api, path) in whole_table() {
        assert_eq!(String::from(api), path, "{:?}", api);
    }
}

#[test]
fn every_path_is_absolute() {
    for (api, _) in whole_table() {
        let path = String::from(api);
        assert!(!path.is_empty(), "{:?}", api);
        assert!(path.starts_with('/'), "{:?}", api);
    }
}

#[test]
fn resolution_is_repeatable() {
    for (api, _) in whole_table() {
        assert_eq!(String::from(api), String::from(api));
        let through_into: String = api.into();
        assert_eq!(through_into, String::from(api));
    }
}

#[test]
fn spot_paths_do_not_collide() {
    let paths: HashSet<String> =
        spot_table().into_iter().map(|(api, _)| String::from(api)).collect();
    assert_eq!(paths.len(), 23);
}

#[test]
fn savings_paths_do_not_collide() {
    let paths: HashSet<String> =
        savings_table().into_iter().map(|(api, _)| String::from(api)).collect();
    assert_eq!(paths.len(), 4);
}

#[test]
fn futures_paths_do_not_collide() {
    let paths: HashSet<String> =
        futures_table().into_iter().map(|(api, _)| String::from(api)).collect();
    assert_eq!(paths.len(), 39);
}

#[test]
fn futures_coin_paths_do_not_collide() {
    let paths: HashSet<String> =
        futures_coin_table().into_iter().map(|(api, _)| String::from(api)).collect();
    assert_eq!(paths.len(), 38);
}

#[test]
fn only_analytics_twins_share_a_path() {
    let table = whole_table();
    for (a, _) in &table {
        for (b, _) in &table {
            let same_path = String::from(*a) == String::from(*b);
            assert_eq!(same_path, a == b || is_twin(*a, *b), "{:?} {:?}", a, b);
        }
    }
}

#[test]
fn analytics_paths_are_shared_by_both_futures_families() {
    for (f, c) in analytics_twins() {
        let linear = String::from(API::Futures(f));
        let inverse = String::from(API::FuturesCoin(c));
        assert_eq!(linear, inverse);
        assert!(linear.starts_with("/futures/data/"));
    }
    assert_eq!(
        String::from(API::Futures(Futures::OpenInterestHist)),
        "/futures/data/openInterestHist"
    );
    assert_eq!(
        String::from(API::FuturesCoin(FuturesCoin::OpenInterestHist)),
        "/futures/data/openInterestHist"
    );
}

#[test]
fn same_name_in_two_families_is_two_operations() {
    assert_ne!(API::Futures(Futures::Account), API::FuturesCoin(FuturesCoin::Account));
    assert_eq!(String::from(API::Spot(Spot::Account)), "/api/v3/account");
    assert_eq!(String::from(API::Futures(Futures::Account)), "/fapi/v2/account");
    assert_eq!(String::from(API::FuturesCoin(FuturesCoin::Account)), "/dapi/v2/account");
    assert_eq!(String::from(API::Spot(Spot::Order)), "/api/v3/order");
    assert_eq!(String::from(API::Futures(Futures::Order)), "/fapi/v1/order");
    assert_eq!(String::from(API::FuturesCoin(FuturesCoin::Order)), "/dapi/v1/order");
}

#[test]
fn literal_paths() {
    assert_eq!(String::from(API::Spot(Spot::Order)), "/api/v3/order");
    assert_eq!(String::from(API::Futures(Futures::Account)), "/fapi/v2/account");
    assert_eq!(String::from(API::FuturesCoin(FuturesCoin::Account)), "/dapi/v2/account");
    assert_eq!(
        String::from(API::Savings(Sapi::SpotFuturesTransfer)),
        "/sapi/v1/futures/transfer"
    );
    assert_eq!(
        String::from(API::Savings(Sapi::DepositAddress)),
        "/sapi/v1/capital/deposit/address"
    );
    assert_eq!(String::from(API::Futures(Futures::TickerPrice)), "/fapi/v2/ticker/price");
}

#[test]
fn spot_order_lists_are_three_operations() {
    assert_eq!(String::from(API::Spot(Spot::OrderList)), "/api/v3/orderList");
    assert_eq!(String::from(API::Spot(Spot::AllOrderList)), "/api/v3/allOrderList");
    assert_eq!(String::from(API::Spot(Spot::OpenOrderList)), "/api/v3/openOrderList");
}

#[test]
fn spot_and_savings_paths_have_the_prefix_of_their_family() {
    for (api, _) in spot_table() {
        assert!(String::from(api).starts_with("/api/v3/"), "{:?}", api);
    }
    for (api, _) in savings_table() {
        assert!(String::from(api).starts_with("/sapi/v1/"), "{:?}", api);
    }
}

#[test]
fn futures_versions_are_pinned_by_operation() {
    let second = [Futures::TickerPrice, Futures::PositionRisk, Futures::Balance, Futures::Account];
    for (api, _) in futures_table() {
        let path = String::from(api);
        let expected = match api {
            API::Futures(route) if second.contains(&route) => "/fapi/v2/",
            API::Futures(Futures::SubAccountSummary) => "/sapi/v2/",
            API::Futures(route) if analytics_twins().iter().any(|(f, _)| *f == route) => {
                "/futures/data/"
            },
            _ => "/fapi/v1/",
        };
        assert!(path.starts_with(expected), "{:?}", api);
        assert!(path.len() > expected.len(), "{:?}", api);
    }
}

#[test]
fn futures_coin_versions_are_pinned_by_operation() {
    let second = [
        FuturesCoin::TickerPrice,
        FuturesCoin::PositionRisk,
        FuturesCoin::Balance,
        FuturesCoin::Account,
    ];
    for (api, _) in futures_coin_table() {
        let path = String::from(api);
        let expected = match api {
            API::FuturesCoin(route) if second.contains(&route) => "/dapi/v2/",
            API::FuturesCoin(route) if analytics_twins().iter().any(|(_, c)| *c == route) => {
                "/futures/data/"
            },
            _ => "/dapi/v1/",
        };
        assert!(path.starts_with(expected), "{:?}", api);
        assert!(path.len() > expected.len(), "{:?}", api);
    }
}
