use crate::client::Client;
use vstd::prelude::*;

verus! {

/// Orders, balances and trade history of a spot account.
pub struct Account {
    pub client: Client,
    pub recv_window: u64,
}

} // verus!
