//! The Lavalink client library: the configuration of a connection, the
//! addresses it derives, and the messages and requests of the protocol.
use vstd::prelude::*;

use crate::lavalink::{push_scheme, rest_base_text, websocket_uri_text};
use crate::text::{owned, push_str, string_from_chars};

pub mod common;
pub mod internal;
pub mod rest;
pub mod websocket;

verus! {

/// The address of the websocket of a Lavalink v4 server:
/// `ws://host/v4/websocket`, or `wss://` with TLS.
pub open spec fn websocket_uri_v4_text(tls: bool, host: Seq<char>) -> Seq<char> {
    (if tls {
        "wss"@
    } else {
        "ws"@
    }) + "://"@ + host + "/v4/websocket"@
}

/// The base address of the REST API of a Lavalink v4 server:
/// `http://host/v4`, or `https://` with TLS.
pub open spec fn rest_base_v4_text(tls: bool, host: Seq<char>) -> Seq<char> {
    (if tls {
        "https"@
    } else {
        "http"@
    }) + "://"@ + host + "/v4"@
}

/// Configuration used by the client to connect to a Lavalink server.
#[derive(Debug, Clone)]
pub struct LavalinkConfig {
    /// Lavalink server address.
    pub host: String,
    /// Lavalink server password.
    pub password: String,
    /// Whether to connect with TLS.
    pub tls: bool,
    /// The longest wait for the session ID, in milliseconds.
    pub connection_timeout: u64,
    /// How many times a connection is resumed.
    pub resume_tries: u8,
    /// The wait between tries, in milliseconds.
    pub resume_cooldown: u64,
}

impl LavalinkConfig {
    /// A configuration with the required parameters and the defaults: no
    /// TLS, five seconds for the session, three tries two seconds apart.
    pub fn new(host: &str, password: &str) -> (r: Self)
        ensures
            r.host@ == host@,
            r.password@ == password@,
            !r.tls,
            r.connection_timeout == 5000,
            r.resume_tries == 3,
            r.resume_cooldown == 2000,
    {
        Self {
            host: owned(host),
            password: owned(password),
            tls: false,
            connection_timeout: 5000,
            resume_tries: 3,
            resume_cooldown: 2000,
        }
    }

    /// The address of the websocket of the server.
    pub fn build_websocket_uri(&self) -> (r: String)
        ensures
            r@ == websocket_uri_text(self.tls, self.host@),
    {
        crate::lavalink::websocket_uri(self.tls, self.host.as_str())
    }

    /// The address of a call of the REST API: the base address followed by
    /// `api_call`.
    pub fn build_rest_uri(&self, api_call: &str) -> (r: String)
        ensures
            r@ == rest_base_text(self.tls, self.host@) + api_call@,
    {
        let mut out = crate::lavalink::rest_base(self.tls, self.host.as_str());
        push_str(&mut out, api_call);
        string_from_chars(&out)
    }

    /// The address of the websocket of a Lavalink v4 server.
    pub fn build_websocket_uri_v4(&self) -> (r: String)
        ensures
            r@ == websocket_uri_v4_text(self.tls, self.host@),
    {
        let mut out: Vec<char> = Vec::new();
        push_scheme(&mut out, self.tls, "wss", "ws");
        push_str(&mut out, self.host.as_str());
        push_str(&mut out, "/v4/websocket");
        assert(out@ =~= websocket_uri_v4_text(self.tls, self.host@));
        string_from_chars(&out)
    }

    /// The address of a call of the REST API of a Lavalink v4 server: its
    /// base address followed by `api_call`.
    pub fn build_rest_uri_v4(&self, api_call: &str) -> (r: String)
        ensures
            r@ == rest_base_v4_text(self.tls, self.host@) + api_call@,
    {
        let mut out: Vec<char> = Vec::new();
        push_scheme(&mut out, self.tls, "https", "http");
        push_str(&mut out, self.host.as_str());
        push_str(&mut out, "/v4");
        push_str(&mut out, api_call);
        assert(out@ =~= rest_base_v4_text(self.tls, self.host@) + api_call@);
        string_from_chars(&out)
    }
}

} // verus!
