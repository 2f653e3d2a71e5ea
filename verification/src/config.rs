use crate::api::{Family, Kind};
use vstd::prelude::*;

verus! {

/// The receive window, in milliseconds, of the built-in configuration.
pub const DEFAULT_RECV_WINDOW: u64 = 5000;

/// The base locations of the product families and the receive window that
/// signed requests carry. A value is built once, from the built-in
/// configuration and the overrides applied to it, and only read afterwards.
#[derive(Debug)]
pub struct Config {
    rest_api_endpoint: String,
    futures_rest_api_endpoint: String,
    futures_coin_rest_api_endpoint: String,
    recv_window: u64,
}

/// What a configuration holds, as plain values.
pub struct ConfigView {
    pub rest_api_endpoint: Seq<char>,
    pub futures_rest_api_endpoint: Seq<char>,
    pub futures_coin_rest_api_endpoint: Seq<char>,
    pub recv_window: u64,
}

impl ConfigView {
    /// The built-in configuration: the production locations and the default
    /// receive window.
    pub open spec fn production() -> ConfigView {
        ConfigView {
            rest_api_endpoint: "https://api.binance.com"@,
            futures_rest_api_endpoint: "https://fapi.binance.com"@,
            futures_coin_rest_api_endpoint: "https://dapi.binance.com"@,
            recv_window: DEFAULT_RECV_WINDOW,
        }
    }

    /// The receive window that a client of the given kind carries when it is
    /// built from the configuration: the configuration's, exactly if the kind
    /// sends signed requests.
    pub open spec fn window_for(self, kind: Kind) -> Option<u64> {
        if kind.signed() {
            Some(self.recv_window)
        } else {
            None
        }
    }

    /// The base location of a family. The savings family is served from the
    /// spot location; each futures family has a location of its own.
    pub open spec fn endpoint(self, family: Family) -> Seq<char> {
        match family {
            Family::Spot => self.rest_api_endpoint,
            Family::Savings => self.rest_api_endpoint,
            Family::Futures => self.futures_rest_api_endpoint,
            Family::FuturesCoin => self.futures_coin_rest_api_endpoint,
        }
    }
}

impl View for Config {
    type V = ConfigView;

    closed spec fn view(&self) -> ConfigView {
        ConfigView {
            rest_api_endpoint: self.rest_api_endpoint@,
            futures_rest_api_endpoint: self.futures_rest_api_endpoint@,
            futures_coin_rest_api_endpoint: self.futures_coin_rest_api_endpoint@,
            recv_window: self.recv_window,
        }
    }
}

impl Default for Config {
    /// The built-in configuration.
    fn default() -> (config: Config)
        ensures
            config@ == ConfigView::production(),
    {
        Config {
            rest_api_endpoint: "https://api.binance.com".to_owned(),
            futures_rest_api_endpoint: "https://fapi.binance.com".to_owned(),
            futures_coin_rest_api_endpoint: "https://dapi.binance.com".to_owned(),
            recv_window: DEFAULT_RECV_WINDOW,
        }
    }
}

impl Config {
    /// The base location of a family, exactly as it is stored.
    pub fn endpoint(&self, family: Family) -> (location: &String)
        ensures
            location@ == self@.endpoint(family),
    {
        match family {
            Family::Spot => &self.rest_api_endpoint,
            Family::Savings => &self.rest_api_endpoint,
            Family::Futures => &self.futures_rest_api_endpoint,
            Family::FuturesCoin => &self.futures_coin_rest_api_endpoint,
        }
    }

    /// The receive window.
    pub fn recv_window(&self) -> (window: u64)
        ensures
            window == self@.recv_window,
    {
        self.recv_window
    }

    /// The same configuration with another location for the spot and savings
    /// families.
    pub fn set_rest_api_endpoint(self, endpoint: String) -> (config: Config)
        ensures
            config@ == (ConfigView { rest_api_endpoint: endpoint@, ..self@ }),
    {
        Config { rest_api_endpoint: endpoint, ..self }
    }

    /// The same configuration with another location for the USDT-margined
    /// futures family.
    pub fn set_futures_rest_api_endpoint(self, endpoint: String) -> (config: Config)
        ensures
            config@ == (ConfigView { futures_rest_api_endpoint: endpoint@, ..self@ }),
    {
        Config { futures_rest_api_endpoint: endpoint, ..self }
    }

    /// The same configuration with another location for the coin-margined
    /// futures family.
    pub fn set_futures_coin_rest_api_endpoint(self, endpoint: String) -> (config: Config)
        ensures
            config@ == (ConfigView { futures_coin_rest_api_endpoint: endpoint@, ..self@ }),
    {
        Config { futures_coin_rest_api_endpoint: endpoint, ..self }
    }

    /// The same configuration with another receive window.
    pub fn set_recv_window(self, recv_window: u64) -> (config: Config)
        ensures
            config@ == (ConfigView { recv_window, ..self@ }),
    {
        Config { recv_window, ..self }
    }
}

} // verus!
