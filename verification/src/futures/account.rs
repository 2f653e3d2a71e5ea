use crate::client::Client;
use vstd::prelude::*;

verus! {

/// Orders, positions and balances of a USDT-margined futures account.
pub struct FuturesAccount {
    pub client: Client,
    pub recv_window: u64,
}

} // verus!
