use crate::client::Client;
use vstd::prelude::*;

verus! {

/// Exchange metadata of the USDT-margined futures family. Its requests are
/// unsigned.
pub struct FuturesGeneral {
    pub client: Client,
}

} // verus!
