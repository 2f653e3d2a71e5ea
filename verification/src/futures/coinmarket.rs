use crate::client::Client;
use vstd::prelude::*;

verus! {

/// Market data of the coin-margined futures family.
pub struct FuturesCoinMarket {
    pub client: Client,
    pub recv_window: u64,
}

} // verus!
