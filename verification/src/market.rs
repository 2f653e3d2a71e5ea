use crate::client::Client;
use vstd::prelude::*;

verus! {

/// Market data of the spot family: order books, trades, candlesticks and
/// tickers.
pub struct Market {
    pub client: Client,
    pub recv_window: u64,
}

} // verus!
