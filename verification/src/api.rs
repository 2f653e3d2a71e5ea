use crate::account::Account;
use crate::client::{Client, ClientView};
use crate::config::{Config, ConfigView};
use crate::futures::account::FuturesAccount;
use crate::futures::coinaccount::FuturesCoinAccount;
use crate::futures::coingeneral::FuturesCoinGeneral;
use crate::futures::coinmarket::FuturesCoinMarket;
use crate::futures::general::FuturesGeneral;
use crate::futures::market::FuturesMarket;
use crate::futures::userstream::FuturesUserStream;
use crate::general::General;
use crate::market::Market;
use crate::savings::Savings;
use crate::userstream::UserStream;
use vstd::prelude::*;

verus! {

/// One of the four product families. Each family has its own vocabulary of
/// operations, and every client is bound to the base location of exactly one.
#[derive(Clone, Copy, Debug, PartialEq, Eq, Structural)]
pub enum Family {
    Spot,
    Savings,
    Futures,
    FuturesCoin,
}

/// What a client is for. A general client asks for exchange metadata with
/// unsigned requests; the other kinds send signed requests.
#[derive(Clone, Copy, Debug, PartialEq, Eq, Structural)]
pub enum Kind {
    General,
    Account,
    Market,
    UserStream,
}

impl Kind {
    /// Whether clients of the kind send signed requests, and so carry the
    /// receive window.
    pub open spec fn signed(self) -> bool {
        self != Kind::General
    }
}

/// An operation, tagged by the family it belongs to. Operations of two
/// families that share a name are different values and may have different
/// paths.
#[derive(Clone, Copy, Debug, PartialEq, Eq, Structural)]
pub enum API {
    Spot(Spot),
    Savings(Sapi),
    Futures(Futures),
    FuturesCoin(FuturesCoin),
}

/// Operations of the spot family.
#[derive(Clone, Copy, Debug, PartialEq, Eq, Structural)]
pub enum Spot {
    Ping,
    Time,
    ExchangeInfo,
    Depth,
    Trades,
    HistoricalTrades,
    AggTrades,
    Klines,
    AvgPrice,
    Ticker24hr,
    Price,
    BookTicker,
    Order,
    OrderTest,
    OpenOrders,
    AllOrders,
    Oco,
    OrderList,
    AllOrderList,
    OpenOrderList,
    Account,
    MyTrades,
    UserDataStream,
}

/// Operations of the savings and wallet family.
#[derive(Clone, Copy, Debug, PartialEq, Eq, Structural)]
pub enum Sapi {
    AllCoins,
    AssetDetail,
    DepositAddress,
    SpotFuturesTransfer,
}

/// Operations of the USDT-margined futures family.
#[derive(Clone, Copy, Debug, PartialEq, Eq, Structural)]
pub enum Futures {
    Ping,
    Time,
    ExchangeInfo,
    Depth,
    Trades,
    HistoricalTrades,
    AggTrades,
    Klines,
    ContinuousKlines,
    IndexPriceKlines,
    MarkPriceKlines,
    PremiumIndex,
    FundingRate,
    Ticker24hr,
    TickerPrice,
    BookTicker,
    AllForceOrders,
    AllOpenOrders,
    AllOrders,
    UserTrades,
    Order,
    PositionRisk,
    Balance,
    PositionSide,
    OpenInterest,
    OpenInterestHist,
    TopLongShortAccountRatio,
    TopLongShortPositionRatio,
    GlobalLongShortAccountRatio,
    TakerlongshortRatio,
    LvtKlines,
    IndexInfo,
    ChangeInitialLeverage,
    Account,
    OpenOrders,
    UserDataStream,
    Income,
    MarginType,
    SubAccountSummary,
}

/// Operations of the coin-margined futures family.
#[derive(Clone, Copy, Debug, PartialEq, Eq, Structural)]
pub enum FuturesCoin {
    Ping,
    Time,
    ExchangeInfo,
    Depth,
    Trades,
    HistoricalTrades,
    AggTrades,
    Klines,
    ContinuousKlines,
    IndexPriceKlines,
    MarkPriceKlines,
    PremiumIndex,
    FundingRate,
    Ticker24hr,
    TickerPrice,
    BookTicker,
    AllForceOrders,
    AllOpenOrders,
    AllOrders,
    UserTrades,
    Order,
    PositionRisk,
    Balance,
    PositionSide,
    OpenInterest,
    OpenInterestHist,
    TopLongShortAccountRatio,
    TopLongShortPositionRatio,
    GlobalLongShortAccountRatio,
    TakerlongshortRatio,
    LvtKlines,
    IndexInfo,
    ChangeInitialLeverage,
    Account,
    OpenOrders,
    UserDataStream,
    Income,
    MarginType,
}

impl Spot {
    /// The request path of the operation.
    pub open spec fn path(self) -> Seq<char> {
        match self {
            Spot::Ping => "/api/v3/ping"@,
            Spot::Time => "/api/v3/time"@,
            Spot::ExchangeInfo => "/api/v3/exchangeInfo"@,
            Spot::Depth => "/api/v3/depth"@,
            Spot::Trades => "/api/v3/trades"@,
            Spot::HistoricalTrades => "/api/v3/historicalTrades"@,
            Spot::AggTrades => "/api/v3/aggTrades"@,
            Spot::Klines => "/api/v3/klines"@,
            Spot::AvgPrice => "/api/v3/avgPrice"@,
            Spot::Ticker24hr => "/api/v3/ticker/24hr"@,
            Spot::Price => "/api/v3/ticker/price"@,
            Spot::BookTicker => "/api/v3/ticker/bookTicker"@,
            Spot::Order => "/api/v3/order"@,
            Spot::OrderTest => "/api/v3/order/test"@,
            Spot::OpenOrders => "/api/v3/openOrders"@,
            Spot::AllOrders => "/api/v3/allOrders"@,
            Spot::Oco => "/api/v3/order/oco"@,
            Spot::OrderList => "/api/v3/orderList"@,
            Spot::AllOrderList => "/api/v3/allOrderList"@,
            Spot::OpenOrderList => "/api/v3/openOrderList"@,
            Spot::Account => "/api/v3/account"@,
            Spot::MyTrades => "/api/v3/myTrades"@,
            Spot::UserDataStream => "/api/v3/userDataStream"@,
        }
    }
}

impl Sapi {
    /// The request path of the operation.
    pub open spec fn path(self) -> Seq<char> {
        match self {
            Sapi::AllCoins => "/sapi/v1/capital/config/getall"@,
            Sapi::AssetDetail => "/sapi/v1/asset/assetDetail"@,
            Sapi::DepositAddress => "/sapi/v1/capital/deposit/address"@,
            Sapi::SpotFuturesTransfer => "/sapi/v1/futures/transfer"@,
        }
    }
}

impl Futures {
    /// The request path of the operation.
    pub open spec fn path(self) -> Seq<char> {
        match self {
            Futures::Ping => "/fapi/v1/ping"@,
            Futures::Time => "/fapi/v1/time"@,
            Futures::ExchangeInfo => "/fapi/v1/exchangeInfo"@,
            Futures::Depth => "/fapi/v1/depth"@,
            Futures::Trades => "/fapi/v1/trades"@,
            Futures::HistoricalTrades => "/fapi/v1/historicalTrades"@,
            Futures::AggTrades => "/fapi/v1/aggTrades"@,
            Futures::Klines => "/fapi/v1/klines"@,
            Futures::ContinuousKlines => "/fapi/v1/continuousKlines"@,
            Futures::IndexPriceKlines => "/fapi/v1/indexPriceKlines"@,
            Futures::MarkPriceKlines => "/fapi/v1/markPriceKlines"@,
            Futures::PremiumIndex => "/fapi/v1/premiumIndex"@,
            Futures::FundingRate => "/fapi/v1/fundingRate"@,
            Futures::Ticker24hr => "/fapi/v1/ticker/24hr"@,
            Futures::TickerPrice => "/fapi/v2/ticker/price"@,
            Futures::BookTicker => "/fapi/v1/ticker/bookTicker"@,
            Futures::AllForceOrders => "/fapi/v1/allForceOrders"@,
            Futures::AllOpenOrders => "/fapi/v1/allOpenOrders"@,
            Futures::AllOrders => "/fapi/v1/allOrders"@,
            Futures::UserTrades => "/fapi/v1/userTrades"@,
            Futures::PositionSide => "/fapi/v1/positionSide/dual"@,
            Futures::Order => "/fapi/v1/order"@,
            Futures::PositionRisk => "/fapi/v2/positionRisk"@,
            Futures::Balance => "/fapi/v2/balance"@,
            Futures::OpenInterest => "/fapi/v1/openInterest"@,
            Futures::OpenInterestHist => "/futures/data/openInterestHist"@,
            Futures::TopLongShortAccountRatio => "/futures/data/topLongShortAccountRatio"@,
            Futures::TopLongShortPositionRatio => "/futures/data/topLongShortPositionRatio"@,
            Futures::GlobalLongShortAccountRatio => "/futures/data/globalLongShortAccountRatio"@,
            Futures::TakerlongshortRatio => "/futures/data/takerlongshortRatio"@,
            Futures::LvtKlines => "/fapi/v1/lvtKlines"@,
            Futures::IndexInfo => "/fapi/v1/indexInfo"@,
            Futures::ChangeInitialLeverage => "/fapi/v1/leverage"@,
            Futures::Account => "/fapi/v2/account"@,
            Futures::OpenOrders => "/fapi/v1/openOrders"@,
            Futures::UserDataStream => "/fapi/v1/listenKey"@,
            Futures::Income => "/fapi/v1/income"@,
            Futures::MarginType => "/fapi/v1/marginType"@,
            Futures::SubAccountSummary => "/sapi/v2/sub-account/futures/accountSummary"@,
        }
    }

    /// Whether the operation is one of the market analytics that both futures
    /// families serve under one path, whatever the margin type.
    pub open spec fn is_analytics(self) -> bool {
        match self {
            Futures::OpenInterestHist
            | Futures::TopLongShortAccountRatio
            | Futures::TopLongShortPositionRatio
            | Futures::GlobalLongShortAccountRatio
            | Futures::TakerlongshortRatio => true,
            _ => false,
        }
    }

    /// Whether the operation is served by the second version of the family's
    /// API. Versions are pinned operation by operation.
    pub open spec fn is_pinned_to_v2(self) -> bool {
        match self {
            Futures::TickerPrice
            | Futures::PositionRisk
            | Futures::Balance
            | Futures::Account => true,
            _ => false,
        }
    }

    /// The coin-margined operation that stands for the same analytics query.
    pub open spec fn coin_twin(self) -> Option<FuturesCoin> {
        match self {
            Futures::OpenInterestHist => Some(FuturesCoin::OpenInterestHist),
            Futures::TopLongShortAccountRatio => Some(FuturesCoin::TopLongShortAccountRatio),
            Futures::TopLongShortPositionRatio => Some(FuturesCoin::TopLongShortPositionRatio),
            Futures::GlobalLongShortAccountRatio => Some(FuturesCoin::GlobalLongShortAccountRatio),
            Futures::TakerlongshortRatio => Some(FuturesCoin::TakerlongshortRatio),
            _ => None,
        }
    }
}

impl FuturesCoin {
    /// The request path of the operation.
    pub open spec fn path(self) -> Seq<char> {
        match self {
            FuturesCoin::Ping => "/dapi/v1/ping"@,
            FuturesCoin::Time => "/dapi/v1/time"@,
            FuturesCoin::ExchangeInfo => "/dapi/v1/exchangeInfo"@,
            FuturesCoin::Depth => "/dapi/v1/depth"@,
            FuturesCoin::Trades => "/dapi/v1/trades"@,
            FuturesCoin::HistoricalTrades => "/dapi/v1/historicalTrades"@,
            FuturesCoin::AggTrades => "/dapi/v1/aggTrades"@,
            FuturesCoin::Klines => "/dapi/v1/klines"@,
            FuturesCoin::ContinuousKlines => "/dapi/v1/continuousKlines"@,
            FuturesCoin::IndexPriceKlines => "/dapi/v1/indexPriceKlines"@,
            FuturesCoin::MarkPriceKlines => "/dapi/v1/markPriceKlines"@,
            FuturesCoin::PremiumIndex => "/dapi/v1/premiumIndex"@,
            FuturesCoin::FundingRate => "/dapi/v1/fundingRate"@,
            FuturesCoin::Ticker24hr => "/dapi/v1/ticker/24hr"@,
            FuturesCoin::TickerPrice => "/dapi/v2/ticker/price"@,
            FuturesCoin::BookTicker => "/dapi/v1/ticker/bookTicker"@,
            FuturesCoin::AllForceOrders => "/dapi/v1/allForceOrders"@,
            FuturesCoin::AllOpenOrders => "/dapi/v1/allOpenOrders"@,
            FuturesCoin::AllOrders => "/dapi/v1/allOrders"@,
            FuturesCoin::UserTrades => "/dapi/v1/userTrades"@,
            FuturesCoin::PositionSide => "/dapi/v1/positionSide/dual"@,
            FuturesCoin::Order => "/dapi/v1/order"@,
            FuturesCoin::PositionRisk => "/dapi/v2/positionRisk"@,
            FuturesCoin::Balance => "/dapi/v2/balance"@,
            FuturesCoin::OpenInterest => "/dapi/v1/openInterest"@,
            FuturesCoin::OpenInterestHist => "/futures/data/openInterestHist"@,
            FuturesCoin::TopLongShortAccountRatio => "/futures/data/topLongShortAccountRatio"@,
            FuturesCoin::TopLongShortPositionRatio => "/futures/data/topLongShortPositionRatio"@,
            FuturesCoin::GlobalLongShortAccountRatio => {
                "/futures/data/globalLongShortAccountRatio"@
            },
            FuturesCoin::TakerlongshortRatio => "/futures/data/takerlongshortRatio"@,
            FuturesCoin::LvtKlines => "/dapi/v1/lvtKlines"@,
            FuturesCoin::IndexInfo => "/dapi/v1/indexInfo"@,
            FuturesCoin::ChangeInitialLeverage => "/dapi/v1/leverage"@,
            FuturesCoin::Account => "/dapi/v2/account"@,
            FuturesCoin::OpenOrders => "/dapi/v1/openOrders"@,
            FuturesCoin::UserDataStream => "/dapi/v1/listenKey"@,
            FuturesCoin::Income => "/dapi/v1/income"@,
            FuturesCoin::MarginType => "/dapi/v1/marginType"@,
        }
    }

    /// Whether the operation is one of the market analytics that both futures
    /// families serve under one path, whatever the margin type.
    pub open spec fn is_analytics(self) -> bool {
        match self {
            FuturesCoin::OpenInterestHist
            | FuturesCoin::TopLongShortAccountRatio
            | FuturesCoin::TopLongShortPositionRatio
            | FuturesCoin::GlobalLongShortAccountRatio
            | FuturesCoin::TakerlongshortRatio => true,
            _ => false,
        }
    }

    /// Whether the operation is served by the second version of the family's
    /// API. Versions are pinned operation by operation.
    pub open spec fn is_pinned_to_v2(self) -> bool {
        match self {
            FuturesCoin::TickerPrice
            | FuturesCoin::PositionRisk
            | FuturesCoin::Balance
            | FuturesCoin::Account => true,
            _ => false,
        }
    }
}

impl API {
    /// The family that the operation belongs to.
    pub open spec fn family(self) -> Family {
        match self {
            API::Spot(_) => Family::Spot,
            API::Savings(_) => Family::Savings,
            API::Futures(_) => Family::Futures,
            API::FuturesCoin(_) => Family::FuturesCoin,
        }
    }

    /// The request path of the operation: the text that follows the family's
    /// base location in a request URL.
    pub open spec fn path(self) -> Seq<char> {
        match self {
            API::Spot(route) => route.path(),
            API::Savings(route) => route.path(),
            API::Futures(route) => route.path(),
            API::FuturesCoin(route) => route.path(),
        }
    }

    /// The API and version that serve the operation, as the text that its
    /// path begins with. A family has a prefix of its own, with two
    /// exceptions in the futures families: the analytics operations are
    /// served under one prefix common to both, and the sub-account summary is
    /// served by the second version of the savings API.
    pub open spec fn prefix(self) -> Seq<char> {
        match self {
            API::Spot(_) => "/api/v3/"@,
            API::Savings(_) => "/sapi/v1/"@,
            API::Futures(route) => if route.is_analytics() {
                "/futures/data/"@
            } else if route == Futures::SubAccountSummary {
                "/sapi/v2/"@
            } else if route.is_pinned_to_v2() {
                "/fapi/v2/"@
            } else {
                "/fapi/v1/"@
            },
            API::FuturesCoin(route) => if route.is_analytics() {
                "/futures/data/"@
            } else if route.is_pinned_to_v2() {
                "/dapi/v2/"@
            } else {
                "/dapi/v1/"@
            },
        }
    }

    /// Whether the two are twin analytics operations of the two futures
    /// families, in either order. Such twins are the only distinct operations
    /// that are meant to resolve to one path.
    pub open spec fn is_twin_of(self, other: API) -> bool {
        match (self, other) {
            (API::Futures(f), API::FuturesCoin(c)) => f.coin_twin() == Some(c),
            (API::FuturesCoin(c), API::Futures(f)) => f.coin_twin() == Some(c),
            _ => false,
        }
    }
}

impl vstd::std_specs::convert::FromSpecImpl<API> for String {
    /// A `String` is known to specifications by its view only, so the
    /// conversion is stated in the `ensures` of `from`, over views.
    open spec fn obeys_from_spec() -> bool {
        false
    }

    open spec fn from_spec(item: API) -> String {
        arbitrary()
    }
}

impl From<API> for String {
    /// Resolves an operation to its request path. The result depends on the
    /// operation alone, so resolving it again gives the same text.
    fn from(item: API) -> (path: String)
        ensures
            path@ == item.path(),
            path@.len() > 0,
            path@[0] == '/',
    {
        proof {
            crate::laws::lemma_path_is_absolute(item);
        }
        let route: &'static str = match item {
            API::Spot(route) => match route {
                Spot::Ping => "/api/v3/ping",
                Spot::Time => "/api/v3/time",
                Spot::ExchangeInfo => "/api/v3/exchangeInfo",
                Spot::Depth => "/api/v3/depth",
                Spot::Trades => "/api/v3/trades",
                Spot::HistoricalTrades => "/api/v3/historicalTrades",
                Spot::AggTrades => "/api/v3/aggTrades",
                Spot::Klines => "/api/v3/klines",
                Spot::AvgPrice => "/api/v3/avgPrice",
                Spot::Ticker24hr => "/api/v3/ticker/24hr",
                Spot::Price => "/api/v3/ticker/price",
                Spot::BookTicker => "/api/v3/ticker/bookTicker",
                Spot::Order => "/api/v3/order",
                Spot::OrderTest => "/api/v3/order/test",
                Spot::OpenOrders => "/api/v3/openOrders",
                Spot::AllOrders => "/api/v3/allOrders",
                Spot::Oco => "/api/v3/order/oco",
                Spot::OrderList => "/api/v3/orderList",
                Spot::AllOrderList => "/api/v3/allOrderList",
                Spot::OpenOrderList => "/api/v3/openOrderList",
                Spot::Account => "/api/v3/account",
                Spot::MyTrades => "/api/v3/myTrades",
                Spot::UserDataStream => "/api/v3/userDataStream",
            },
            API::Savings(route) => match route {
                Sapi::AllCoins => "/sapi/v1/capital/config/getall",
                Sapi::AssetDetail => "/sapi/v1/asset/assetDetail",
                Sapi::DepositAddress => "/sapi/v1/capital/deposit/address",
                Sapi::SpotFuturesTransfer => "/sapi/v1/futures/transfer",
            },
            API::Futures(route) => match route {
                Futures::Ping => "/fapi/v1/ping",
                Futures::Time => "/fapi/v1/time",
                Futures::ExchangeInfo => "/fapi/v1/exchangeInfo",
                Futures::Depth => "/fapi/v1/depth",
                Futures::Trades => "/fapi/v1/trades",
                Futures::HistoricalTrades => "/fapi/v1/historicalTrades",
                Futures::AggTrades => "/fapi/v1/aggTrades",
                Futures::Klines => "/fapi/v1/klines",
                Futures::ContinuousKlines => "/fapi/v1/continuousKlines",
                Futures::IndexPriceKlines => "/fapi/v1/indexPriceKlines",
                Futures::MarkPriceKlines => "/fapi/v1/markPriceKlines",
                Futures::PremiumIndex => "/fapi/v1/premiumIndex",
                Futures::FundingRate => "/fapi/v1/fundingRate",
                Futures::Ticker24hr => "/fapi/v1/ticker/24hr",
                Futures::TickerPrice => "/fapi/v2/ticker/price",
                Futures::BookTicker => "/fapi/v1/ticker/bookTicker",
                Futures::AllForceOrders => "/fapi/v1/allForceOrders",
                Futures::AllOpenOrders => "/fapi/v1/allOpenOrders",
                Futures::AllOrders => "/fapi/v1/allOrders",
                Futures::UserTrades => "/fapi/v1/userTrades",
                Futures::PositionSide => "/fapi/v1/positionSide/dual",
                Futures::Order => "/fapi/v1/order",
                Futures::PositionRisk => "/fapi/v2/positionRisk",
                Futures::Balance => "/fapi/v2/balance",
                Futures::OpenInterest => "/fapi/v1/openInterest",
                Futures::OpenInterestHist => "/futures/data/openInterestHist",
                Futures::TopLongShortAccountRatio => "/futures/data/topLongShortAccountRatio",
                Futures::TopLongShortPositionRatio => "/futures/data/topLongShortPositionRatio",
                Futures::GlobalLongShortAccountRatio => "/futures/data/globalLongShortAccountRatio",
                Futures::TakerlongshortRatio => "/futures/data/takerlongshortRatio",
                Futures::LvtKlines => "/fapi/v1/lvtKlines",
                Futures::IndexInfo => "/fapi/v1/indexInfo",
                Futures::ChangeInitialLeverage => "/fapi/v1/leverage",
                Futures::Account => "/fapi/v2/account",
                Futures::OpenOrders => "/fapi/v1/openOrders",
                Futures::UserDataStream => "/fapi/v1/listenKey",
                Futures::Income => "/fapi/v1/income",
                Futures::MarginType => "/fapi/v1/marginType",
                Futures::SubAccountSummary => "/sapi/v2/sub-account/futures/accountSummary",
            },
            API::FuturesCoin(route) => match route {
                FuturesCoin::Ping => "/dapi/v1/ping",
                FuturesCoin::Time => "/dapi/v1/time",
                FuturesCoin::ExchangeInfo => "/dapi/v1/exchangeInfo",
                FuturesCoin::Depth => "/dapi/v1/depth",
                FuturesCoin::Trades => "/dapi/v1/trades",
                FuturesCoin::HistoricalTrades => "/dapi/v1/historicalTrades",
                FuturesCoin::AggTrades => "/dapi/v1/aggTrades",
                FuturesCoin::Klines => "/dapi/v1/klines",
                FuturesCoin::ContinuousKlines => "/dapi/v1/continuousKlines",
                FuturesCoin::IndexPriceKlines => "/dapi/v1/indexPriceKlines",
                FuturesCoin::MarkPriceKlines => "/dapi/v1/markPriceKlines",
                FuturesCoin::PremiumIndex => "/dapi/v1/premiumIndex",
                FuturesCoin::FundingRate => "/dapi/v1/fundingRate",
                FuturesCoin::Ticker24hr => "/dapi/v1/ticker/24hr",
                FuturesCoin::TickerPrice => "/dapi/v2/ticker/price",
                FuturesCoin::BookTicker => "/dapi/v1/ticker/bookTicker",
                FuturesCoin::AllForceOrders => "/dapi/v1/allForceOrders",
                FuturesCoin::AllOpenOrders => "/dapi/v1/allOpenOrders",
                FuturesCoin::AllOrders => "/dapi/v1/allOrders",
                FuturesCoin::UserTrades => "/dapi/v1/userTrades",
                FuturesCoin::PositionSide => "/dapi/v1/positionSide/dual",
                FuturesCoin::Order => "/dapi/v1/order",
                FuturesCoin::PositionRisk => "/dapi/v2/positionRisk",
                FuturesCoin::Balance => "/dapi/v2/balance",
                FuturesCoin::OpenInterest => "/dapi/v1/openInterest",
                FuturesCoin::OpenInterestHist => "/futures/data/openInterestHist",
                FuturesCoin::TopLongShortAccountRatio => "/futures/data/topLongShortAccountRatio",
                FuturesCoin::TopLongShortPositionRatio => "/futures/data/topLongShortPositionRatio",
                FuturesCoin::GlobalLongShortAccountRatio => {
                    "/futures/data/globalLongShortAccountRatio"
                },
                FuturesCoin::TakerlongshortRatio => "/futures/data/takerlongshortRatio",
                FuturesCoin::LvtKlines => "/dapi/v1/lvtKlines",
                FuturesCoin::IndexInfo => "/dapi/v1/indexInfo",
                FuturesCoin::ChangeInitialLeverage => "/dapi/v1/leverage",
                FuturesCoin::Account => "/dapi/v2/account",
                FuturesCoin::OpenOrders => "/dapi/v1/openOrders",
                FuturesCoin::UserDataStream => "/dapi/v1/listenKey",
                FuturesCoin::Income => "/dapi/v1/income",
                FuturesCoin::MarginType => "/dapi/v1/marginType",
            },
        };
        route.to_owned()
    }
}

/// Construction of a client, the same for every type of client. The types
/// differ only in the family whose location they take from the configuration
/// and in whether their kind carries the receive window. Construction never
/// fails, with or without credentials: a client without them serves the
/// operations that need none.
pub trait Binance: Sized {
    /// The family that clients of this type belong to.
    spec fn family() -> Family;

    /// What clients of this type are for.
    spec fn kind() -> Kind;

    /// The binding that the client holds.
    spec fn binding(&self) -> ClientView;

    /// The receive window that the client carries, if its kind carries one.
    spec fn window(&self) -> Option<u64>;

    /// A client with the built-in configuration.
    fn new(api_key: Option<String>, secret_key: Option<String>) -> (client: Self)
        ensures
            client.binding() == ClientView::of(
                api_key,
                secret_key,
                ConfigView::production().endpoint(Self::family()),
            ),
            client.window() == ConfigView::production().window_for(Self::kind()),
    ;

    /// A client with the given configuration.
    fn new_with_config(
        api_key: Option<String>,
        secret_key: Option<String>,
        config: &Config,
    ) -> (client: Self)
        ensures
            client.binding() == ClientView::of(
                api_key,
                secret_key,
                config@.endpoint(Self::family()),
            ),
            client.window() == config@.window_for(Self::kind()),
    ;
}

/// Binds the credentials to the location that the configuration holds for a
/// family. Every client is built through this one function.
fn bind(
    api_key: Option<String>,
    secret_key: Option<String>,
    config: &Config,
    family: Family,
) -> (client: Client)
    ensures
        client@ == ClientView::of(api_key, secret_key, config@.endpoint(family)),
{
    Client::new(api_key, secret_key, config.endpoint(family).clone())
}

impl Binance for General {
    open spec fn family() -> Family {
        Family::Spot
    }

    open spec fn kind() -> Kind {
        Kind::General
    }

    open spec fn binding(&self) -> ClientView {
        self.client@
    }

    open spec fn window(&self) -> Option<u64> {
        None
    }

    fn new(api_key: Option<String>, secret_key: Option<String>) -> (client: General) {
        Self::new_with_config(api_key, secret_key, &Config::default())
    }

    fn new_with_config(
        api_key: Option<String>,
        secret_key: Option<String>,
        config: &Config,
    ) -> (client: General) {
        General { client: bind(api_key, secret_key, config, Family::Spot) }
    }
}

impl Binance for Account {
    open spec fn family() -> Family {
        Family::Spot
    }

    open spec fn kind() -> Kind {
        Kind::Account
    }

    open spec fn binding(&self) -> ClientView {
        self.client@
    }

    open spec fn window(&self) -> Option<u64> {
        Some(self.recv_window)
    }

    fn new(api_key: Option<String>, secret_key: Option<String>) -> (client: Account) {
        Self::new_with_config(api_key, secret_key, &Config::default())
    }

    fn new_with_config(
        api_key: Option<String>,
        secret_key: Option<String>,
        config: &Config,
    ) -> (client: Account) {
        Account {
            client: bind(api_key, secret_key, config, Family::Spot),
            recv_window: config.recv_window(),
        }
    }
}

impl Binance for Savings {
    open spec fn family() -> Family {
        Family::Savings
    }

    open spec fn kind() -> Kind {
        Kind::Account
    }

    open spec fn binding(&self) -> ClientView {
        self.client@
    }

    open spec fn window(&self) -> Option<u64> {
        Some(self.recv_window)
    }

    fn new(api_key: Option<String>, secret_key: Option<String>) -> (client: Savings) {
        Self::new_with_config(api_key, secret_key, &Config::default())
    }

    fn new_with_config(
        api_key: Option<String>,
        secret_key: Option<String>,
        config: &Config,
    ) -> (client: Savings) {
        Savings {
            client: bind(api_key, secret_key, config, Family::Savings),
            recv_window: config.recv_window(),
        }
    }
}

impl Binance for Market {
    open spec fn family() -> Family {
        Family::Spot
    }

    open spec fn kind() -> Kind {
        Kind::Market
    }

    open spec fn binding(&self) -> ClientView {
        self.client@
    }

    open spec fn window(&self) -> Option<u64> {
        Some(self.recv_window)
    }

    fn new(api_key: Option<String>, secret_key: Option<String>) -> (client: Market) {
        Self::new_with_config(api_key, secret_key, &Config::default())
    }

    fn new_with_config(
        api_key: Option<String>,
        secret_key: Option<String>,
        config: &Config,
    ) -> (client: Market) {
        Market {
            client: bind(api_key, secret_key, config, Family::Spot),
            recv_window: config.recv_window(),
        }
    }
}

impl Binance for UserStream {
    open spec fn family() -> Family {
        Family::Spot
    }

    open spec fn kind() -> Kind {
        Kind::UserStream
    }

    open spec fn binding(&self) -> ClientView {
        self.client@
    }

    open spec fn window(&self) -> Option<u64> {
        Some(self.recv_window)
    }

    fn new(api_key: Option<String>, secret_key: Option<String>) -> (client: UserStream) {
        Self::new_with_config(api_key, secret_key, &Config::default())
    }

    fn new_with_config(
        api_key: Option<String>,
        secret_key: Option<String>,
        config: &Config,
    ) -> (client: UserStream) {
        UserStream {
            client: bind(api_key, secret_key, config, Family::Spot),
            recv_window: config.recv_window(),
        }
    }
}

impl Binance for FuturesGeneral {
    open spec fn family() -> Family {
        Family::Futures
    }

    open spec fn kind() -> Kind {
        Kind::General
    }

    open spec fn binding(&self) -> ClientView {
        self.client@
    }

    open spec fn window(&self) -> Option<u64> {
        None
    }

    fn new(api_key: Option<String>, secret_key: Option<String>) -> (client: FuturesGeneral) {
        Self::new_with_config(api_key, secret_key, &Config::default())
    }

    fn new_with_config(
        api_key: Option<String>,
        secret_key: Option<String>,
        config: &Config,
    ) -> (client: FuturesGeneral) {
        FuturesGeneral { client: bind(api_key, secret_key, config, Family::Futures) }
    }
}

impl Binance for FuturesCoinGeneral {
    open spec fn family() -> Family {
        Family::FuturesCoin
    }

    open spec fn kind() -> Kind {
        Kind::General
    }

    open spec fn binding(&self) -> ClientView {
        self.client@
    }

    open spec fn window(&self) -> Option<u64> {
        None
    }

    fn new(api_key: Option<String>, secret_key: Option<String>) -> (client: FuturesCoinGeneral) {
        Self::new_with_config(api_key, secret_key, &Config::default())
    }

    fn new_with_config(
        api_key: Option<String>,
        secret_key: Option<String>,
        config: &Config,
    ) -> (client: FuturesCoinGeneral) {
        FuturesCoinGeneral { client: bind(api_key, secret_key, config, Family::FuturesCoin) }
    }
}

impl Binance for FuturesMarket {
    open spec fn family() -> Family {
        Family::Futures
    }

    open spec fn kind() -> Kind {
        Kind::Market
    }

    open spec fn binding(&self) -> ClientView {
        self.client@
    }

    open spec fn window(&self) -> Option<u64> {
        Some(self.recv_window)
    }

    fn new(api_key: Option<String>, secret_key: Option<String>) -> (client: FuturesMarket) {
        Self::new_with_config(api_key, secret_key, &Config::default())
    }

    fn new_with_config(
        api_key: Option<String>,
        secret_key: Option<String>,
        config: &Config,
    ) -> (client: FuturesMarket) {
        FuturesMarket {
            client: bind(api_key, secret_key, config, Family::Futures),
            recv_window: config.recv_window(),
        }
    }
}

impl Binance for FuturesCoinMarket {
    open spec fn family() -> Family {
        Family::FuturesCoin
    }

    open spec fn kind() -> Kind {
        Kind::Market
    }

    open spec fn binding(&self) -> ClientView {
        self.client@
    }

    open spec fn window(&self) -> Option<u64> {
        Some(self.recv_window)
    }

    fn new(api_key: Option<String>, secret_key: Option<String>) -> (client: FuturesCoinMarket) {
        Self::new_with_config(api_key, secret_key, &Config::default())
    }

    fn new_with_config(
        api_key: Option<String>,
        secret_key: Option<String>,
        config: &Config,
    ) -> (client: FuturesCoinMarket) {
        FuturesCoinMarket {
            client: bind(api_key, secret_key, config, Family::FuturesCoin),
            recv_window: config.recv_window(),
        }
    }
}

impl Binance for FuturesAccount {
    open spec fn family() -> Family {
        Family::Futures
    }

    open spec fn kind() -> Kind {
        Kind::Account
    }

    open spec fn binding(&self) -> ClientView {
        self.client@
    }

    open spec fn window(&self) -> Option<u64> {
        Some(self.recv_window)
    }

    fn new(api_key: Option<String>, secret_key: Option<String>) -> (client: FuturesAccount) {
        Self::new_with_config(api_key, secret_key, &Config::default())
    }

    fn new_with_config(
        api_key: Option<String>,
        secret_key: Option<String>,
        config: &Config,
    ) -> (client: FuturesAccount) {
        FuturesAccount {
            client: bind(api_key, secret_key, config, Family::Futures),
            recv_window: config.recv_window(),
        }
    }
}

impl Binance for FuturesCoinAccount {
    open spec fn family() -> Family {
        Family::FuturesCoin
    }

    open spec fn kind() -> Kind {
        Kind::Account
    }

    open spec fn binding(&self) -> ClientView {
        self.client@
    }

    open spec fn window(&self) -> Option<u64> {
        Some(self.recv_window)
    }

    fn new(api_key: Option<String>, secret_key: Option<String>) -> (client: FuturesCoinAccount) {
        Self::new_with_config(api_key, secret_key, &Config::default())
    }

    fn new_with_config(
        api_key: Option<String>,
        secret_key: Option<String>,
        config: &Config,
    ) -> (client: FuturesCoinAccount) {
        FuturesCoinAccount {
            client: bind(api_key, secret_key, config, Family::FuturesCoin),
            recv_window: config.recv_window(),
        }
    }
}

impl Binance for FuturesUserStream {
    open spec fn family() -> Family {
        Family::Futures
    }

    open spec fn kind() -> Kind {
        Kind::UserStream
    }

    open spec fn binding(&self) -> ClientView {
        self.client@
    }

    open spec fn window(&self) -> Option<u64> {
        Some(self.recv_window)
    }

    fn new(api_key: Option<String>, secret_key: Option<String>) -> (client: FuturesUserStream) {
        Self::new_with_config(api_key, secret_key, &Config::default())
    }

    fn new_with_config(
        api_key: Option<String>,
        secret_key: Option<String>,
        config: &Config,
    ) -> (client: FuturesUserStream) {
        FuturesUserStream {
            client: bind(api_key, secret_key, config, Family::Futures),
            recv_window: config.recv_window(),
        }
    }
}

} // verus!
