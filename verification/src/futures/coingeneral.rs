use crate::client::Client;
use vstd::prelude::*;

verus! {

/// Exchange metadata of the coin-margined futures family. Its requests are
/// unsigned.
pub struct FuturesCoinGeneral {
    pub client: Client,
}

} // verus!
