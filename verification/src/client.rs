use crate::api::API;
use vstd::prelude::*;
use vstd::string::StringExecFns;

verus! {

/// The binding that a client hands to the transport: the credentials, which
/// may be absent, and the base location that every request path is appended
/// to. The credentials are stored as they were given and never examined.
pub struct Client {
    api_key: Option<String>,
    secret_key: Option<String>,
    host: String,
}

/// What a binding holds, as plain values.
pub struct ClientView {
    pub api_key: Option<Seq<char>>,
    pub secret_key: Option<Seq<char>>,
    pub host: Seq<char>,
}

impl ClientView {
    /// The binding of the given credentials to a base location.
    pub open spec fn of(
        api_key: Option<String>,
        secret_key: Option<String>,
        host: Seq<char>,
    ) -> ClientView {
        ClientView { api_key: api_key.deep_view(), secret_key: secret_key.deep_view(), host }
    }
}

impl View for Client {
    type V = ClientView;

    closed spec fn view(&self) -> ClientView {
        ClientView::of(self.api_key, self.secret_key, self.host@)
    }
}

impl Client {
    /// Binds the credentials to a base location.
    pub fn new(
        api_key: Option<String>,
        secret_key: Option<String>,
        host: String,
    ) -> (client: Client)
        ensures
            client@ == ClientView::of(api_key, secret_key, host@),
    {
        Client { api_key, secret_key, host }
    }

    /// The public key, if the client has one.
    pub fn api_key(&self) -> (key: &Option<String>)
        ensures
            key.deep_view() == self@.api_key,
    {
        &self.api_key
    }

    /// The private key, if the client has one.
    pub fn secret_key(&self) -> (key: &Option<String>)
        ensures
            key.deep_view() == self@.secret_key,
    {
        &self.secret_key
    }

    /// The base location.
    pub fn host(&self) -> (host: &String)
        ensures
            host@ == self@.host,
    {
        &self.host
    }

    /// The URL of a request for an operation: the base location, followed by
    /// the path of the operation.
    pub fn url(&self, endpoint: API) -> (url: String)
        ensures
            url@ == self@.host + endpoint.path(),
    {
        let path = String::from(endpoint);
        self.host.clone().concat(path.as_str())
    }
}

} // verus!
