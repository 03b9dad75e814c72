//! Core data model of the token broker: client identities, the provider
//! configuration, and the error kinds that broker operations report.

use vstd::prelude::*;

verus! {

/// Identity of the entity that requested authorization: the node and process
/// of the requesting application. Used as the key for token records and as
/// the destination for asynchronous token delivery.
pub struct ClientId {
    pub node: String,
    pub process: String,
}

impl View for ClientId {
    type V = (Seq<char>, Seq<char>);

    open spec fn view(&self) -> Self::V {
        (self.node@, self.process@)
    }
}

impl ClientId {
    pub fn new(node: String, process: String) -> (r: ClientId)
        ensures
            r@ == (node@, process@),
    {
        ClientId { node, process }
    }

    pub fn same_as(&self, other: &ClientId) -> (r: bool)
        ensures
            r == (self@ == other@),
    {
        self.node == other.node && self.process == other.process
    }
}

impl Clone for ClientId {
    fn clone(&self) -> (r: Self)
        ensures
            r@ == self@,
    {
        ClientId { node: self.node.clone(), process: self.process.clone() }
    }
}

/// Static record of the provider credentials and endpoints. Created once at
/// startup and read-only afterwards.
pub struct ProviderConfig {
    pub client_id: String,
    pub client_secret: String,
    pub auth_url: String,
    pub token_url: String,
    pub redirect_url: String,
}

impl View for ProviderConfig {
    type V = ConfigView;

    open spec fn view(&self) -> ConfigView {
        ConfigView {
            client_id: self.client_id@,
            client_secret: self.client_secret@,
            auth_url: self.auth_url@,
            token_url: self.token_url@,
            redirect_url: self.redirect_url@,
        }
    }
}

/// Mathematical image of a `ProviderConfig`.
pub struct ConfigView {
    pub client_id: Seq<char>,
    pub client_secret: Seq<char>,
    pub auth_url: Seq<char>,
    pub token_url: Seq<char>,
    pub redirect_url: Seq<char>,
}

/// An inbound request on the broker's request channel, as a closed variant
/// type.
#[derive(Debug, PartialEq)]
pub enum OauthRequest {
    /// Ask for a provider sign-in URL; answered directly.
    GenerateUrl,
    /// Ask for the sender's token to be refreshed; never answered
    /// directly, a fresh token is pushed on success.
    RefreshToken,
    /// A code arriving over the request channel instead of the redirect
    /// path; only the redirect path is served, so this is ignored.
    Exchange { code: String, state: String },
    /// A token push as the broker itself sends one; ignored when received.
    Token { token: String },
}

/// An outbound message to a client: the direct replies and the
/// asynchronous token push.
#[derive(Debug, PartialEq)]
pub enum OauthResponse {
    /// Direct reply to `GenerateUrl`.
    Url { url: String },
    /// The asynchronous push of a freshly issued access token.
    Token { token: String },
    /// Direct reply to a request that failed.
    Error { error: String },
}

/// Why a token exchange failed. The token record of the affected client is
/// never changed by a failed exchange.
#[derive(Clone, Copy, Debug, PartialEq, Eq, Structural)]
pub enum ExchangeFailure {
    /// The outbound request never produced a response.
    Transport,
    /// The token endpoint answered with a non-2xx status.
    BadStatus,
    /// The response body was not a JSON document.
    MalformedJson,
    /// The response carried no `access_token` string.
    MissingAccessToken,
    /// The response carried no non-negative integer `expires_in`.
    MissingExpiresIn,
    /// An authorization-code exchange got no `refresh_token` string back.
    MissingRefreshToken,
}

/// Error kinds of the broker operations.
#[derive(Clone, Copy, Debug, PartialEq, Eq, Structural)]
pub enum OauthError {
    /// An operation was invoked before the provider configuration exists.
    NotInitialized,
    /// An inbound redirect callback lacked its `code` or `state` parameter.
    MalformedCallback,
    /// A callback's `state` matched no live pending authorization.
    SessionNotFound,
    /// A code or refresh-token exchange failed; no state was changed.
    TokenExchangeFailed(ExchangeFailure),
    /// A refresh was requested for a client with no token record. Reported
    /// to no one: callers treat it as a silent no-op.
    NoRecord,
}

} // verus!
