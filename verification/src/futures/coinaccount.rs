use crate::client::Client;
use vstd::prelude::*;

verus! {

/// Orders, positions and balances of a coin-margined futures account.
pub struct FuturesCoinAccount {
    pub client: Client,
    pub recv_window: u64,
}

} // verus!
