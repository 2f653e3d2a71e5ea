//! What holds of the catalog and of construction as a whole, beyond what each
//! function states of its own result.

use crate::api::{Binance, Family, Futures, Kind, API};
use crate::client::ClientView;
use crate::config::ConfigView;
use vstd::prelude::*;

verus! {

/// The facts about the catalog that rest on the text of the paths: the path
/// of an operation agrees with its prefix at every position of the prefix and
/// is longer, it starts with a slash, and two operations have one path only
/// if they are the same or twin analytics operations.
proof fn lemma_routes(a: API, b: API)
    ensures
        a.prefix().len() < a.path().len(),
        forall|i: int| 0 <= i < a.prefix().len() ==> a.path()[i] == a.prefix()[i],
        a.path()[0] == '/',
        a.path() == b.path() <==> a == b || a.is_twin_of(b),
{
    reveal_strlit("/api/v3/ping");
    reveal_strlit("/api/v3/time");
    reveal_strlit("/api/v3/exchangeInfo");
    reveal_strlit("/api/v3/depth");
    reveal_strlit("/api/v3/trades");
    reveal_strlit("/api/v3/historicalTrades");
    reveal_strlit("/api/v3/aggTrades");
    reveal_strlit("/api/v3/klines");
    reveal_strlit("/api/v3/avgPrice");
    reveal_strlit("/api/v3/ticker/24hr");
    reveal_strlit("/api/v3/ticker/price");
    reveal_strlit("/api/v3/ticker/bookTicker");
    reveal_strlit("/api/v3/order");
    reveal_strlit("/api/v3/order/test");
    reveal_strlit("/api/v3/openOrders");
    reveal_strlit("/api/v3/allOrders");
    reveal_strlit("/api/v3/order/oco");
    reveal_strlit("/api/v3/orderList");
    reveal_strlit("/api/v3/allOrderList");
    reveal_strlit("/api/v3/openOrderList");
    reveal_strlit("/api/v3/account");
    reveal_strlit("/api/v3/myTrades");
    reveal_strlit("/api/v3/userDataStream");
    reveal_strlit("/sapi/v1/capital/config/getall");
    reveal_strlit("/sapi/v1/asset/assetDetail");
    reveal_strlit("/sapi/v1/capital/deposit/address");
    reveal_strlit("/sapi/v1/futures/transfer");
    reveal_strlit("/fapi/v1/ping");
    reveal_strlit("/fapi/v1/time");
    reveal_strlit("/fapi/v1/exchangeInfo");
    reveal_strlit("/fapi/v1/depth");
    reveal_strlit("/fapi/v1/trades");
    reveal_strlit("/fapi/v1/historicalTrades");
    reveal_strlit("/fapi/v1/aggTrades");
    reveal_strlit("/fapi/v1/klines");
    reveal_strlit("/fapi/v1/continuousKlines");
    reveal_strlit("/fapi/v1/indexPriceKlines");
    reveal_strlit("/fapi/v1/markPriceKlines");
    reveal_strlit("/fapi/v1/premiumIndex");
    reveal_strlit("/fapi/v1/fundingRate");
    reveal_strlit("/fapi/v1/ticker/24hr");
    reveal_strlit("/fapi/v2/ticker/price");
    reveal_strlit("/fapi/v1/ticker/bookTicker");
    reveal_strlit("/fapi/v1/allForceOrders");
    reveal_strlit("/fapi/v1/allOpenOrders");
    reveal_strlit("/fapi/v1/allOrders");
    reveal_strlit("/fapi/v1/userTrades");
    reveal_strlit("/fapi/v1/positionSide/dual");
    reveal_strlit("/fapi/v1/order");
    reveal_strlit("/fapi/v2/positionRisk");
    reveal_strlit("/fapi/v2/balance");
    reveal_strlit("/fapi/v1/openInterest");
    reveal_strlit("/futures/data/openInterestHist");
    reveal_strlit("/futures/data/topLongShortAccountRatio");
    reveal_strlit("/futures/data/topLongShortPositionRatio");
    reveal_strlit("/futures/data/globalLongShortAccountRatio");
    reveal_strlit("/futures/data/takerlongshortRatio");
    reveal_strlit("/fapi/v1/lvtKlines");
    reveal_strlit("/fapi/v1/indexInfo");
    reveal_strlit("/fapi/v1/leverage");
    reveal_strlit("/fapi/v2/account");
    reveal_strlit("/fapi/v1/openOrders");
    reveal_strlit("/fapi/v1/listenKey");
    reveal_strlit("/fapi/v1/income");
    reveal_strlit("/fapi/v1/marginType");
    reveal_strlit("/sapi/v2/sub-account/futures/accountSummary");
    reveal_strlit("/dapi/v1/ping");
    reveal_strlit("/dapi/v1/time");
    reveal_strlit("/dapi/v1/exchangeInfo");
    reveal_strlit("/dapi/v1/depth");
    reveal_strlit("/dapi/v1/trades");
    reveal_strlit("/dapi/v1/historicalTrades");
    reveal_strlit("/dapi/v1/aggTrades");
    reveal_strlit("/dapi/v1/klines");
    reveal_strlit("/dapi/v1/continuousKlines");
    reveal_strlit("/dapi/v1/indexPriceKlines");
    reveal_strlit("/dapi/v1/markPriceKlines");
    reveal_strlit("/dapi/v1/premiumIndex");
    reveal_strlit("/dapi/v1/fundingRate");
    reveal_strlit("/dapi/v1/ticker/24hr");
    reveal_strlit("/dapi/v2/ticker/price");
    reveal_strlit("/dapi/v1/ticker/bookTicker");
    reveal_strlit("/dapi/v1/allForceOrders");
    reveal_strlit("/dapi/v1/allOpenOrders");
    reveal_strlit("/dapi/v1/allOrders");
    reveal_strlit("/dapi/v1/userTrades");
    reveal_strlit("/dapi/v1/positionSide/dual");
    reveal_strlit("/dapi/v1/order");
    reveal_strlit("/dapi/v2/positionRisk");
    reveal_strlit("/dapi/v2/balance");
    reveal_strlit("/dapi/v1/openInterest");
    reveal_strlit("/dapi/v1/lvtKlines");
    reveal_strlit("/dapi/v1/indexInfo");
    reveal_strlit("/dapi/v1/leverage");
    reveal_strlit("/dapi/v2/account");
    reveal_strlit("/dapi/v1/openOrders");
    reveal_strlit("/dapi/v1/listenKey");
    reveal_strlit("/dapi/v1/income");
    reveal_strlit("/dapi/v1/marginType");
    reveal_strlit("/api/v3/");
    reveal_strlit("/sapi/v1/");
    reveal_strlit("/sapi/v2/");
    reveal_strlit("/fapi/v1/");
    reveal_strlit("/fapi/v2/");
    reveal_strlit("/dapi/v1/");
    reveal_strlit("/dapi/v2/");
    reveal_strlit("/futures/data/");
    if a.path() == b.path() {
        // Two different paths differ in length or at one of these positions.
        assert(a.path().len() == b.path().len());
        assert(a.path()[1] == b.path()[1]);
        assert(a.path()[9] == b.path()[9]);
        assert(a.path()[10] == b.path()[10]);
        if a.path().len() > 13 {
            assert(a.path()[13] == b.path()[13]);
        }
    }
}

/// Every operation resolves to a non-empty path that starts with a slash.
pub proof fn lemma_path_is_absolute(api: API)
    ensures
        api.path().len() > 0,
        api.path()[0] == '/',
{
    lemma_routes(api, api);
}

/// Resolving an operation twice gives the same text: whatever two calls of
/// the conversion return for one operation, the two results read the same.
pub proof fn lemma_resolution_is_repeatable(api: API, first: String, second: String)
    requires
        first@ == api.path(),
        second@ == api.path(),
    ensures
        first@ == second@,
{
}

/// Every path begins with the prefix of the API and version that serve the
/// operation, and goes on after it.
pub proof fn lemma_path_has_prefix(api: API)
    ensures
        api.prefix().is_prefix_of(api.path()),
        api.prefix().len() < api.path().len(),
{
    lemma_routes(api, api);
    assert(api.prefix() =~= api.path().subrange(0, api.prefix().len() as int));
}

/// Within one family no two operations resolve to the same path.
pub proof fn lemma_paths_distinct_within_family(a: API, b: API)
    requires
        a.family() == b.family(),
        a != b,
    ensures
        a.path() != b.path(),
{
    lemma_routes(a, b);
}

/// Across the whole catalog two operations share a path exactly when they
/// are the same operation or twin analytics operations of the two futures
/// families.
pub proof fn lemma_shared_paths(a: API, b: API)
    ensures
        a.path() == b.path() <==> a == b || a.is_twin_of(b),
{
    lemma_routes(a, b);
}

/// An analytics operation of the USDT-margined family and its coin-margined
/// twin resolve to the same path, character for character.
pub proof fn lemma_analytics_paths_are_shared(route: Futures)
    requires
        route.is_analytics(),
    ensures
        route.coin_twin() is Some,
        API::Futures(route).path() == API::FuturesCoin(route.coin_twin()->0).path(),
{
    lemma_routes(API::Futures(route), API::FuturesCoin(route.coin_twin()->0));
}

/// What `new_with_config` owes for a client, given the credentials and the
/// configuration that it was called with.
pub open spec fn built_from<T: Binance>(
    client: T,
    api_key: Option<String>,
    secret_key: Option<String>,
    config: ConfigView,
) -> bool {
    &&& client.binding() == ClientView::of(api_key, secret_key, config.endpoint(T::family()))
    &&& client.window() == config.window_for(T::kind())
}

/// Two families have the same production location exactly when they are the
/// same family or the spot and savings families, which share one.
pub proof fn lemma_production_locations(f: Family, g: Family)
    ensures
        ConfigView::production().endpoint(f) == ConfigView::production().endpoint(g) <==> f == g
            || (f == Family::Spot && g == Family::Savings)
            || (f == Family::Savings && g == Family::Spot),
{
    reveal_strlit("https://api.binance.com");
    reveal_strlit("https://fapi.binance.com");
    reveal_strlit("https://dapi.binance.com");
    let p = ConfigView::production();
    if p.endpoint(f) == p.endpoint(g) {
        assert(p.endpoint(f).len() == p.endpoint(g).len());
        assert(p.endpoint(f)[8] == p.endpoint(g)[8]);
    }
}

/// A client built without credentials holds none. Whatever the credentials,
/// a general client carries no receive window, and a client of any other
/// kind carries the one of its configuration.
pub proof fn lemma_construction_without_credentials<T: Binance>(client: T, config: ConfigView)
    requires
        built_from(client, None, None, config),
    ensures
        client.binding().api_key is None,
        client.binding().secret_key is None,
        client.binding().host == config.endpoint(T::family()),
        T::kind() == Kind::General ==> client.window() is None,
        T::kind() != Kind::General ==> client.window() == Some(config.recv_window),
{
}

/// Overriding only the location of the USDT-margined futures family binds
/// the clients of that family to the override, while a client of the
/// coin-margined family built from the same configuration keeps the location
/// that the configuration held for its own family before the override.
pub proof fn lemma_futures_override_is_local<A: Binance, B: Binance>(
    a: A,
    a_api_key: Option<String>,
    a_secret_key: Option<String>,
    b: B,
    b_api_key: Option<String>,
    b_secret_key: Option<String>,
    base: ConfigView,
    location: Seq<char>,
)
    requires
        A::family() == Family::Futures,
        B::family() == Family::FuturesCoin,
        built_from(
            a,
            a_api_key,
            a_secret_key,
            ConfigView { futures_rest_api_endpoint: location, ..base },
        ),
        built_from(
            b,
            b_api_key,
            b_secret_key,
            ConfigView { futures_rest_api_endpoint: location, ..base },
        ),
    ensures
        a.binding().host == location,
        b.binding().host == base.endpoint(Family::FuturesCoin),
{
}

/// Two clients of the same kind, built for two families from the same
/// credentials and the same configuration, hold the same credentials and
/// carry the same receive window, and they are bound to different locations
/// wherever the configuration holds different locations for the two
/// families.
pub proof fn lemma_same_kind_two_families<A: Binance, B: Binance>(
    a: A,
    b: B,
    api_key: Option<String>,
    secret_key: Option<String>,
    config: ConfigView,
)
    requires
        A::kind() == B::kind(),
        built_from(a, api_key, secret_key, config),
        built_from(b, api_key, secret_key, config),
        config.endpoint(A::family()) != config.endpoint(B::family()),
    ensures
        a.binding().host != b.binding().host,
        a.binding().api_key == b.binding().api_key,
        a.binding().secret_key == b.binding().secret_key,
        a.window() == b.window(),
{
}

/// With the production locations and any receive window, two clients of the
/// same kind built for two different families are bound to different
/// locations and carry the same receive window, unless the two families are
/// the spot and savings families, which share a location.
pub proof fn lemma_same_kind_two_families_in_production<A: Binance, B: Binance>(
    a: A,
    b: B,
    api_key: Option<String>,
    secret_key: Option<String>,
    recv_window: u64,
)
    requires
        A::kind() == B::kind(),
        A::family() != B::family(),
        !(A::family() == Family::Spot && B::family() == Family::Savings),
        !(A::family() == Family::Savings && B::family() == Family::Spot),
        built_from(a, api_key, secret_key, ConfigView { recv_window, ..ConfigView::production() }),
        built_from(b, api_key, secret_key, ConfigView { recv_window, ..ConfigView::production() }),
    ensures
        a.binding().host != b.binding().host,
        a.window() == b.window(),
{
    lemma_production_locations(A::family(), B::family());
    lemma_same_kind_two_families(
        a,
        b,
        api_key,
        secret_key,
        ConfigView { recv_window, ..ConfigView::production() },
    );
}

} // verus!
