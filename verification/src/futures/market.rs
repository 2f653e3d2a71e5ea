use crate::client::Client;
use vstd::prelude::*;

verus! {

/// Market data of the USDT-margined futures family.
pub struct FuturesMarket {
    pub client: Client,
    pub recv_window: u64,
}

} // verus!
