//! An OAuth2 authorization-code-with-PKCE token broker, together with the
//! calendar data model and chat-command parsing that its clients use.
//!
//! The broker issues provider sign-in URLs on behalf of independent
//! requesting clients, correlates the provider's browser redirect with the
//! originating request through a CSRF-bound pending session, exchanges
//! authorization codes and refresh tokens for access tokens, and re-arms
//! itself to refresh tokens shortly before they expire.

pub mod broker;
pub mod calendar;
pub mod calendar_list;
pub mod commands;
pub mod encoding;
pub mod entropy;
pub mod events;
pub mod gcal;
pub mod jsonio;
pub mod kvlist;
pub mod model;
pub mod stores;
pub mod strutil;
pub mod urlcheck;
