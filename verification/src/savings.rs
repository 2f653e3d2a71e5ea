use crate::client::Client;
use vstd::prelude::*;

verus! {

/// Wallet and savings queries of an account: coin information, asset details
/// and deposit addresses.
pub struct Savings {
    pub client: Client,
    pub recv_window: u64,
}

} // verus!
