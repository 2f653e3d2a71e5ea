use crate::client::Client;
use vstd::prelude::*;

verus! {

/// The user data stream of a USDT-margined futures account.
pub struct FuturesUserStream {
    pub client: Client,
    pub recv_window: u64,
}

} // verus!
