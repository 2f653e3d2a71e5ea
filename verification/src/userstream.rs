use crate::client::Client;
use vstd::prelude::*;

verus! {

/// The user data stream of a spot account.
pub struct UserStream {
    pub client: Client,
    pub recv_window: u64,
}

} // verus!
