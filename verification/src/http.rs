//! Where messages are posted, and what is posted.

use crate::message::Message;
use crate::wire::message_payload;
use vstd::prelude::*;
use vstd::string::StringExecFns;

verus! {

/// `reqwest::Client`, the connection pool of the HTTP library. It is
/// carried along for whoever sends; nothing here looks inside it.
#[verifier::external_type_specification]
#[verifier::external_body]
pub struct ExReqwestClient(reqwest::Client);

/// `reqwest::Client::clone` hands back another handle to the same pool.
/// Nothing is claimed of it.
pub assume_specification[ <reqwest::Client as Clone>::clone ](
    client: &reqwest::Client,
) -> reqwest::Client;

/// The seconds a connection may take to come about before the attempt is
/// given up.
pub const CONNECT_TIMEOUT_SECS: u64 = 10;

/// The scheme and host of the tracking API.
pub open spec fn default_host() -> Seq<char> {
    "https://api.segment.io"@
}

/// Has `reqwest::ClientBuilder` build a connection pool with the given
/// connect timeout: `Client::builder`, `connect_timeout`, `build`. `build`
/// fails where the HTTP library cannot set up its TLS backend or read the
/// system's configuration, and then there is nothing. Nothing is claimed of
/// the outcome.
#[verifier::external_body]
fn build_client(connect_timeout_secs: u64) -> Option<reqwest::Client> {
    reqwest::Client::builder()
        .connect_timeout(std::time::Duration::new(connect_timeout_secs, 0))
        .build()
        .ok()
}

/// An HTTP endpoint of the tracking API: a connection pool and the scheme
/// and host that requests go to.
#[derive(Clone, Debug)]
pub struct HttpClient {
    client: reqwest::Client,
    host: String,
}

/// One POST: where it goes, the credentials for basic authentication, and
/// the body with its content type.
#[derive(Clone, Debug, PartialEq, Eq)]
pub struct Request {
    pub url: String,
    pub username: String,
    pub password: String,
    pub content_type: &'static str,
    pub body: Vec<u8>,
}

impl HttpClient {
    /// The scheme and host that requests go to.
    pub closed spec fn host_view(self) -> Seq<char> {
        self.host@
    }

    /// The connection pool that requests go through.
    pub closed spec fn pool(self) -> reqwest::Client {
        self.client
    }

    /// Makes a client that posts to `host` through `client`.
    pub fn new(client: reqwest::Client, host: String) -> (http: HttpClient)
        ensures
            http.host_view() == host@,
            http.pool() == client,
    {
        HttpClient { client, host }
    }

    /// Makes a client that posts to the tracking API through `client`.
    pub fn with_default_host(client: reqwest::Client) -> (http: HttpClient)
        ensures
            http.host_view() == default_host(),
            http.pool() == client,
    {
        HttpClient { client, host: String::from_str("https://api.segment.io") }
    }

    /// Makes a client that posts to the tracking API through a connection
    /// pool of its own, if the HTTP library can set one up.
    pub fn try_default() -> (http: Option<HttpClient>)
        ensures
            http matches Some(client) ==> client.host_view() == default_host(),
    {
        HttpClient::from_built(build_client(CONNECT_TIMEOUT_SECS))
    }

    /// Makes a client that posts to the tracking API through the pool that
    /// the HTTP library built, and none where it built no pool.
    pub fn from_built(built: Option<reqwest::Client>) -> (http: Option<HttpClient>)
        ensures
            match built {
                Some(pool) => {
                    &&& http matches Some(client)
                    &&& client.host_view() == default_host()
                    &&& client.pool() == pool
                },
                None => http is None,
            },
    {
        match built {
            Some(client) => Some(HttpClient::with_default_host(client)),
            None => None,
        }
    }

    pub fn host(&self) -> (host: &String)
        ensures
            host@ == self.host_view(),
    {
        &self.host
    }

    /// The connection pool to send with.
    pub fn client(&self) -> (client: &reqwest::Client)
        ensures
            *client == self.pool(),
    {
        &self.client
    }

    /// The address `message` is posted to: the host, then the message's
    /// path.
    pub fn url(&self, message: &Message) -> (url: String)
        ensures
            url@ == self.host_view() + message.route(),
    {
        self.host.clone().concat(message.path())
    }

    /// The request that sends `message` under `write_key`: the write key is
    /// the user name, the password is empty, the body is the message as
    /// JSON.
    pub fn request(&self, write_key: String, message: &Message) -> (request: Request)
        ensures
            request.url@ == self.host_view() + message.route(),
            request.username == write_key,
            request.password@ == Seq::<char>::empty(),
            request.content_type@ == "application/json"@,
            request.body@ == message_payload(*message),
    {
        Request {
            url: self.url(message),
            username: write_key,
            password: String::new(),
            content_type: "application/json",
            body: message.to_bytes(),
        }
    }
}

} // verus!
