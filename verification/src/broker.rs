//! The token broker: issues provider sign-in URLs, correlates the
//! provider's redirect callback with its pending session, prepares the
//! token-endpoint exchanges, applies their results to the token record
//! store, and decides when a refresh must be re-armed.
//!
//! Everything here is a decision from plain values to plain values: the
//! caller performs the outbound POST and hands the parsed reply back to
//! `apply_token_response`, which is verified for every possible reply.

use vstd::prelude::*;
use vstd::string::StringExecFns;
use crate::encoding::{form_urlencode, pair_views, spec_form_pairs};
use crate::entropy::{new_csrf_token, new_pkce_pair, pkce_challenge_of};
use crate::jsonio::TokenEndpointReply;
use crate::model::{
    ClientId, ConfigView, ExchangeFailure, OauthError, OauthRequest, OauthResponse, ProviderConfig,
};
use crate::stores::{
    PendingAuthorization, PendingStore, PendingView, TokenRecord, TokenStore, TokenView,
};

verus! {

/// The two grant types of the token endpoint, with what each presents.
pub enum ExchangeMode {
    /// First-time exchange of an authorization code, proving possession of
    /// the PKCE verifier.
    AuthCode { code: String, verifier: String },
    /// Later exchange of the stored refresh token.
    Refresh { refresh_token: String },
}

/// The refresh token that is retained when the provider's answer carries
/// none: in refresh mode the one just presented, in code mode none exists
/// (its absence is an error there).
pub open spec fn spec_mode_fallback_refresh(m: ExchangeMode) -> Option<Seq<char>> {
    match m {
        ExchangeMode::AuthCode { .. } => None,
        ExchangeMode::Refresh { refresh_token } => Some(refresh_token@),
    }
}

/// An outbound POST to the token endpoint, ready to send: the URL and the
/// form-urlencoded body.
pub struct TokenRequest {
    pub url: String,
    pub body: String,
}

/// The form pairs of an authorization-code exchange.
pub open spec fn spec_code_exchange_pairs(cfg: ConfigView, code: Seq<char>, verifier: Seq<char>)
    -> Seq<(Seq<char>, Seq<char>)> {
    seq![
        (("grant_type")@, ("authorization_code")@),
        (("client_id")@, cfg.client_id),
        (("client_secret")@, cfg.client_secret),
        (("code")@, code),
        (("redirect_uri")@, cfg.redirect_url),
        (("code_verifier")@, verifier),
    ]
}

/// The form pairs of a refresh-token exchange.
pub open spec fn spec_refresh_pairs(cfg: ConfigView, refresh_token: Seq<char>) -> Seq<
    (Seq<char>, Seq<char>),
> {
    seq![
        (("grant_type")@, ("refresh_token")@),
        (("client_id")@, cfg.client_id),
        (("client_secret")@, cfg.client_secret),
        (("refresh_token")@, refresh_token),
    ]
}

/// The body of the POST for a given mode.
pub open spec fn spec_exchange_body(cfg: ConfigView, m: ExchangeMode) -> Seq<char> {
    match m {
        ExchangeMode::AuthCode { code, verifier } => spec_form_pairs(
            spec_code_exchange_pairs(cfg, code@, verifier@),
        ),
        ExchangeMode::Refresh { refresh_token } => spec_form_pairs(
            spec_refresh_pairs(cfg, refresh_token@),
        ),
    }
}

/// The query pairs of the provider authorize URL, in the order they are
/// appended: the code response type, the client, the CSRF state, the PKCE
/// challenge, the redirect, the calendar scope, and the two extra
/// parameters that force a refresh token on every run.
pub open spec fn spec_authorize_pairs(cfg: ConfigView, state: Seq<char>, challenge: Seq<char>)
    -> Seq<(Seq<char>, Seq<char>)> {
    seq![
        (("response_type")@, ("code")@),
        (("client_id")@, cfg.client_id),
        (("state")@, state),
        (("code_challenge")@, challenge),
        (("code_challenge_method")@, ("S256")@),
        (("redirect_uri")@, cfg.redirect_url),
        (("scope")@, ("https://www.googleapis.com/auth/calendar")@),
        (("access_type")@, ("offline")@),
        (("prompt")@, ("consent")@),
    ]
}

/// The provider sign-in URL for a given state token and PKCE challenge.
pub open spec fn spec_authorize_url(cfg: ConfigView, state: Seq<char>, challenge: Seq<char>)
    -> Seq<char> {
    cfg.auth_url + seq!['?'] + spec_form_pairs(spec_authorize_pairs(cfg, state, challenge))
}

/// A sign-in URL was generated against the pending store: for some fresh
/// state token and PKCE verifier, the store gained exactly the entry
/// keyed by that state, and the URL carries that same state and the
/// verifier's challenge.
pub open spec fn spec_url_generated(
    pending0: Map<Seq<char>, PendingView>,
    pending1: Map<Seq<char>, PendingView>,
    cfg: ConfigView,
    client: (Seq<char>, Seq<char>),
    now: u64,
    url: Seq<char>,
) -> bool {
    exists|st: Seq<char>, vf: Seq<char>|
        pending1 == pending0.insert(
            st,
            (PendingView { client, pkce_verifier: vf, created_at: now }),
        ) && url == spec_authorize_url(cfg, st, pkce_challenge_of(vf))
}

/// What a consumed callback hands on: whom to notify and what to present
/// to the token endpoint.
pub struct ExchangeTicket {
    pub client: ClientId,
    pub code: String,
    pub verifier: String,
}

/// What a successful exchange hands on: the access token to push to the
/// client, and in how many seconds the next refresh must fire.
pub struct TokenOutcome {
    pub access_token: String,
    pub refresh_delay: u64,
}

/// Whether a token-endpoint reply satisfies every requirement of the mode:
/// a 2xx status, a JSON body, an `access_token`, an `expires_in`, and, for
/// an authorization-code exchange, a `refresh_token`.
pub open spec fn spec_reply_ok(m: ExchangeMode, reply: TokenEndpointReply) -> bool {
    &&& 200 <= reply.status < 300
    &&& reply.json_ok
    &&& reply.access_token is Some
    &&& reply.expires_in is Some
    &&& (m is AuthCode ==> reply.refresh_token is Some)
}

/// The failure reported for a reply that falls short, by the first check
/// that fails.
pub open spec fn spec_reply_failure(m: ExchangeMode, reply: TokenEndpointReply)
    -> ExchangeFailure {
    if !(200 <= reply.status < 300) {
        ExchangeFailure::BadStatus
    } else if !reply.json_ok {
        ExchangeFailure::MalformedJson
    } else if reply.access_token is None {
        ExchangeFailure::MissingAccessToken
    } else if reply.expires_in is None {
        ExchangeFailure::MissingExpiresIn
    } else {
        ExchangeFailure::MissingRefreshToken
    }
}

/// The refresh token stored after a successful exchange: the one the
/// provider sent, else the one presented.
pub open spec fn spec_new_refresh(m: ExchangeMode, reply: TokenEndpointReply) -> Seq<char>
    recommends
        spec_reply_ok(m, reply),
{
    if reply.refresh_token is Some {
        (reply.refresh_token->Some_0)@
    } else {
        spec_mode_fallback_refresh(m)->Some_0
    }
}

/// The token record stored after a successful exchange at time `now`.
pub open spec fn spec_new_record(m: ExchangeMode, reply: TokenEndpointReply, now: u64)
    -> TokenView
    recommends
        spec_reply_ok(m, reply),
{
    TokenView {
        refresh_token: spec_new_refresh(m, reply),
        expires_at: (now + reply.expires_in->Some_0) as u64,
        scopes: Seq::empty(),
    }
}

/// The broker's whole mutable state: the immutable provider configuration,
/// the ephemeral pending sessions, and the persisted token records.
pub struct Broker {
    pub config: ProviderConfig,
    pub pending: PendingStore,
    pub tokens: TokenStore,
}

impl Broker {
    /// Both stores keep their keys distinct.
    pub open spec fn wf(&self) -> bool {
        self.pending.wf() && self.tokens.wf()
    }

    /// A fresh broker around an established provider configuration.
    pub fn new(config: ProviderConfig) -> (r: Broker)
        ensures
            r.wf(),
            r.config@ == config@,
            r.pending@ =~= Map::<Seq<char>, PendingView>::empty(),
            r.tokens@ =~= Map::<(Seq<char>, Seq<char>), TokenView>::empty(),
    {
        Broker { config, pending: PendingStore::new(), tokens: TokenStore::new() }
    }

    /// Deterministic core of `GenerateUrl`: with the fresh state token,
    /// verifier and challenge already drawn, build the sign-in URL and
    /// record the pending authorization under the state token. The URL's
    /// `state` query parameter and the new entry's key are the same value.
    pub fn generate_url_with(
        &mut self,
        client: ClientId,
        state_token: String,
        pkce_verifier: String,
        pkce_challenge: String,
        now: u64,
    ) -> (r: String)
        requires
            old(self).wf(),
        ensures
            final(self).wf(),
            final(self).config == old(self).config,
            final(self).tokens == old(self).tokens,
            final(self).pending@ =~= old(self).pending@.insert(
                state_token@,
                (PendingView { client: client@, pkce_verifier: pkce_verifier@, created_at: now }),
            ),
            r@ == spec_authorize_url(old(self).config@, state_token@, pkce_challenge@),
    {
        let ghost cfg = self.config@;
        let mut pairs: Vec<(String, String)> = Vec::new();
        pairs.push((String::from_str("response_type"), String::from_str("code")));
        pairs.push((String::from_str("client_id"), self.config.client_id.clone()));
        pairs.push((String::from_str("state"), state_token.clone()));
        pairs.push((String::from_str("code_challenge"), pkce_challenge));
        pairs.push((String::from_str("code_challenge_method"), String::from_str("S256")));
        pairs.push((String::from_str("redirect_uri"), self.config.redirect_url.clone()));
        pairs.push((
            String::from_str("scope"),
            String::from_str("https://www.googleapis.com/auth/calendar"),
        ));
        pairs.push((String::from_str("access_type"), String::from_str("offline")));
        pairs.push((String::from_str("prompt"), String::from_str("consent")));
        let query = form_urlencode(&pairs);
        let mut url = self.config.auth_url.clone();
        url.append("?");
        url.append(query.as_str());
        proof {
            reveal_strlit("?");
            assert(("?")@ =~= seq!['?']);
            assert(pair_views(pairs@) =~= spec_authorize_pairs(
                cfg,
                state_token@,
                pairs@[3].1@,
            ));
            assert(url@ =~= spec_authorize_url(cfg, state_token@, pairs@[3].1@));
        }
        self.pending.insert(
            PendingAuthorization { state: state_token, client, pkce_verifier, created_at: now },
        );
        url
    }

    /// `GenerateUrl`: draw a fresh CSRF state token and PKCE pair, record
    /// the pending authorization, and return the provider sign-in URL.
    /// Which state and verifier were drawn is random; whatever they are,
    /// the URL carries exactly that state and that verifier's challenge,
    /// and the pending store gains exactly that one entry.
    pub fn generate_url(&mut self, client: ClientId, now: u64) -> (r: String)
        requires
            old(self).wf(),
        ensures
            final(self).wf(),
            final(self).config == old(self).config,
            final(self).tokens == old(self).tokens,
            spec_url_generated(
                old(self).pending@,
                final(self).pending@,
                old(self).config@,
                client@,
                now,
                r@,
            ),
    {
        let state_token = new_csrf_token();
        let (challenge, verifier) = new_pkce_pair();
        let ghost st = state_token@;
        let ghost vf = verifier@;
        let url = self.generate_url_with(client, state_token, verifier, challenge, now);
        proof {
            assert(final(self).pending@ == old(self).pending@.insert(
                st,
                (PendingView { client: client@, pkce_verifier: vf, created_at: now }),
            ) && url@ == spec_authorize_url(old(self).config@, st, pkce_challenge_of(vf)));
        }
        url
    }

    /// One inbound request on the broker's request channel, dispatched as
    /// a closed variant type: the direct reply to send back, if any, and
    /// the exchange to run, if any. `GenerateUrl` is answered directly
    /// with the sign-in URL; `RefreshToken` is a silent no-op for a
    /// sender with no token record and otherwise asks for a refresh
    /// exchange with the stored refresh token; everything else is
    /// ignored.
    pub fn handle_request(&mut self, source: ClientId, request: OauthRequest, now: u64) -> (r: (
        Option<OauthResponse>,
        Option<ExchangeMode>,
    ))
        requires
            old(self).wf(),
        ensures
            final(self).wf(),
            final(self).config == old(self).config,
            final(self).tokens == old(self).tokens,
            match request {
                OauthRequest::GenerateUrl => r.1 is None && (r.0 matches Some(
                    OauthResponse::Url { url },
                ) && spec_url_generated(
                    old(self).pending@,
                    final(self).pending@,
                    old(self).config@,
                    source@,
                    now,
                    url@,
                )),
                OauthRequest::RefreshToken => r.0 is None && *final(self) == *old(self) && (match r
                    .1 {
                    Some(mode) => old(self).tokens@.contains_key(source@) && (mode matches
                        ExchangeMode::Refresh { refresh_token } && refresh_token@ == old(
                        self,
                    ).tokens@[source@].refresh_token),
                    None => !old(self).tokens@.contains_key(source@),
                }),
                _ => r.0 is None && r.1 is None && *final(self) == *old(self),
            },
    {
        match request {
            OauthRequest::GenerateUrl => {
                let url = self.generate_url(source, now);
                (Some(OauthResponse::Url { url }), None)
            },
            OauthRequest::RefreshToken => {
                match self.refresh_exchange(&source) {
                    Ok(mode) => (None, Some(mode)),
                    Err(_) => (None, None),
                }
            },
            OauthRequest::Exchange { .. } => (None, None),
            OauthRequest::Token { .. } => (None, None),
        }
    }

    /// The redirect callback: both query parameters must be present, the
    /// `state` must match a live pending authorization, and the match is
    /// consumed, so presenting the same `state` twice fails the second
    /// time with `SessionNotFound`. No token-endpoint work happens here:
    /// only a returned ticket leads to an exchange.
    pub fn handle_callback(&mut self, code: Option<String>, state: Option<String>) -> (r: Result<
        ExchangeTicket,
        OauthError,
    >)
        requires
            old(self).wf(),
        ensures
            final(self).wf(),
            final(self).config == old(self).config,
            final(self).tokens == old(self).tokens,
            code is None || state is None ==> r == Err::<ExchangeTicket, OauthError>(
                OauthError::MalformedCallback,
            ) && *final(self) == *old(self),
            code is Some && state is Some && !old(self).pending@.contains_key((state->Some_0)@)
                ==> r == Err::<ExchangeTicket, OauthError>(OauthError::SessionNotFound)
                && *final(self) == *old(self),
            code is Some && state is Some && old(self).pending@.contains_key((state->Some_0)@)
                ==> (match r {
                Ok(ticket) => {
                    let entry = old(self).pending@[(state->Some_0)@];
                    &&& ticket.client@ == entry.client
                    &&& ticket.verifier@ == entry.pkce_verifier
                    &&& ticket.code@ == (code->Some_0)@
                    &&& final(self).pending@ == old(self).pending@.remove((state->Some_0)@)
                },
                Err(_) => false,
            }),
    {
        let code = match code {
            Some(c) => c,
            None => {
                return Err(OauthError::MalformedCallback);
            },
        };
        let state = match state {
            Some(s) => s,
            None => {
                return Err(OauthError::MalformedCallback);
            },
        };
        match self.pending.take(&state) {
            Some(entry) => Ok(
                ExchangeTicket { client: entry.client, code, verifier: entry.pkce_verifier },
            ),
            None => Err(OauthError::SessionNotFound),
        }
    }

    /// The HTTP status with which the redirect callback is answered: the
    /// fixed success page for any consumed callback, 400 for a missing
    /// parameter, 401 for an unknown or already-consumed `state`.
    pub fn callback_status(r: &Result<ExchangeTicket, OauthError>) -> (s: u16)
        ensures
            r is Ok ==> s == 200,
            r == Err::<ExchangeTicket, OauthError>(OauthError::MalformedCallback) ==> s == 400,
            r == Err::<ExchangeTicket, OauthError>(OauthError::SessionNotFound) ==> s == 401,
    {
        match r {
            Ok(_) => 200,
            Err(OauthError::MalformedCallback) => 400,
            Err(OauthError::SessionNotFound) => 401,
            Err(_) => 200,
        }
    }

    /// The POST to send to the token endpoint for a given exchange mode:
    /// the configured token URL, with the form pairs of that grant type.
    pub fn exchange_request(&self, mode: &ExchangeMode) -> (r: TokenRequest)
        ensures
            r.url@ == self.config@.token_url,
            r.body@ == spec_exchange_body(self.config@, *mode),
    {
        let ghost cfg = self.config@;
        let mut pairs: Vec<(String, String)> = Vec::new();
        match mode {
            ExchangeMode::AuthCode { code, verifier } => {
                pairs.push((
                    String::from_str("grant_type"),
                    String::from_str("authorization_code"),
                ));
                pairs.push((String::from_str("client_id"), self.config.client_id.clone()));
                pairs.push((String::from_str("client_secret"), self.config.client_secret.clone()));
                pairs.push((String::from_str("code"), code.clone()));
                pairs.push((String::from_str("redirect_uri"), self.config.redirect_url.clone()));
                pairs.push((String::from_str("code_verifier"), verifier.clone()));
                proof {
                    assert(pair_views(pairs@) =~= spec_code_exchange_pairs(
                        cfg,
                        code@,
                        verifier@,
                    ));
                }
            },
            ExchangeMode::Refresh { refresh_token } => {
                pairs.push((String::from_str("grant_type"), String::from_str("refresh_token")));
                pairs.push((String::from_str("client_id"), self.config.client_id.clone()));
                pairs.push((String::from_str("client_secret"), self.config.client_secret.clone()));
                pairs.push((String::from_str("refresh_token"), refresh_token.clone()));
                proof {
                    assert(pair_views(pairs@) =~= spec_refresh_pairs(cfg, refresh_token@));
                }
            },
        }
        let body = form_urlencode(&pairs);
        TokenRequest { url: self.config.token_url.clone(), body }
    }

    /// A `RefreshToken` request or a fired refresh timer: the refresh
    /// exchange to run for `client`. A client with no token record gets
    /// `NoRecord` — a silent no-op for the caller, and the only case in
    /// which no exchange mode comes back, so no outbound call is made.
    pub fn refresh_exchange(&self, client: &ClientId) -> (r: Result<ExchangeMode, OauthError>)
        requires
            self.wf(),
        ensures
            match r {
                Ok(mode) => self.tokens@.contains_key(client@) && (mode matches
                    ExchangeMode::Refresh { refresh_token } && refresh_token@
                    == self.tokens@[client@].refresh_token),
                Err(e) => e == OauthError::NoRecord && !self.tokens@.contains_key(client@),
            },
    {
        match self.tokens.get(client) {
            Some(record) => Ok(
                ExchangeMode::Refresh { refresh_token: record.refresh_token.clone() },
            ),
            None => Err(OauthError::NoRecord),
        }
    }

    /// Apply the token endpoint's answer for `client` at time `now`, or
    /// the lack of one. A transport failure (no reply arrived at all) and
    /// every reply that falls short of the mode's requirements fail with
    /// the first failing check and change nothing; a reply that satisfies
    /// them upserts the client's token record and says which access token
    /// to push and when the next refresh fires (30 seconds before expiry,
    /// clamped at zero).
    pub fn apply_token_response(
        &mut self,
        mode: ExchangeMode,
        client: ClientId,
        reply: Option<&TokenEndpointReply>,
        now: u64,
    ) -> (r: Result<TokenOutcome, OauthError>)
        requires
            old(self).wf(),
            (match reply {
                Some(rep) => spec_reply_ok(mode, *rep) ==> now + rep.expires_in->Some_0
                    <= u64::MAX,
                None => true,
            }),
        ensures
            final(self).wf(),
            final(self).config == old(self).config,
            final(self).pending == old(self).pending,
            (match reply {
                None => r == Err::<TokenOutcome, OauthError>(
                    OauthError::TokenExchangeFailed(ExchangeFailure::Transport),
                ) && *final(self) == *old(self),
                Some(rep) => {
                    &&& (!spec_reply_ok(mode, *rep) ==> r == Err::<TokenOutcome, OauthError>(
                        OauthError::TokenExchangeFailed(spec_reply_failure(mode, *rep)),
                    ) && *final(self) == *old(self))
                    &&& (spec_reply_ok(mode, *rep) ==> (match r {
                        Ok(outcome) => {
                            &&& final(self).tokens@ == old(self).tokens@.insert(
                                client@,
                                spec_new_record(mode, *rep, now),
                            )
                            &&& outcome.access_token@ == (rep.access_token->Some_0)@
                            &&& outcome.refresh_delay == (if rep.expires_in->Some_0 >= 30 {
                                rep.expires_in->Some_0 - 30
                            } else {
                                0
                            })
                        },
                        Err(_) => false,
                    }))
                },
            }),
    {
        let reply = match reply {
            Some(rep) => rep,
            None => {
                return Err(OauthError::TokenExchangeFailed(ExchangeFailure::Transport));
            },
        };
        if !(reply.status >= 200 && reply.status < 300) {
            return Err(OauthError::TokenExchangeFailed(ExchangeFailure::BadStatus));
        }
        if !reply.json_ok {
            return Err(OauthError::TokenExchangeFailed(ExchangeFailure::MalformedJson));
        }
        let access_token = match &reply.access_token {
            Some(t) => t.clone(),
            None => {
                return Err(OauthError::TokenExchangeFailed(ExchangeFailure::MissingAccessToken));
            },
        };
        let expires_in = match reply.expires_in {
            Some(e) => e,
            None => {
                return Err(OauthError::TokenExchangeFailed(ExchangeFailure::MissingExpiresIn));
            },
        };
        let refresh_token = match &reply.refresh_token {
            Some(t) => t.clone(),
            None => match mode {
                ExchangeMode::Refresh { refresh_token } => refresh_token,
                ExchangeMode::AuthCode { .. } => {
                    return Err(
                        OauthError::TokenExchangeFailed(ExchangeFailure::MissingRefreshToken),
                    );
                },
            },
        };
        proof {
            assert(spec_reply_ok(mode, *reply));
        }
        let record = TokenRecord {
            client,
            refresh_token,
            expires_at: now + expires_in,
            scopes: Vec::new(),
        };
        proof {
            assert(record@ == spec_new_record(mode, *reply, now)) by {
                assert(record@.scopes =~= Seq::<Seq<char>>::empty());
            }
        }
        self.tokens.upsert(record);
        let refresh_delay = if expires_in >= 30 {
            expires_in - 30
        } else {
            0
        };
        Ok(TokenOutcome { access_token, refresh_delay })
    }
}

/// Consuming a pending authorization is final: once the entry for `st` is
/// removed, the store no longer has the key, so a second callback carrying
/// the same `st` takes the `SessionNotFound` branch of `handle_callback`,
/// whatever has happened to other keys in between.
pub proof fn lemma_consumed_state_stays_consumed(
    m: Map<Seq<char>, PendingView>,
    st: Seq<char>,
    other: Seq<char>,
    entry: PendingView,
)
    requires
        m.contains_key(st),
        other != st,
    ensures
        !m.remove(st).contains_key(st),
        !m.remove(st).insert(other, entry).contains_key(st),
{
}

} // verus!
