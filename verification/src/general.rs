use crate::client::Client;
use vstd::prelude::*;

verus! {

/// Exchange metadata of the spot family: connectivity, server time and
/// trading rules. Its requests are unsigned.
pub struct General {
    pub client: Client,
}

} // verus!
