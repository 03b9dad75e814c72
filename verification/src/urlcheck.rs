//! Validation of the configured provider endpoints, as performed once when
//! the broker's client is created: each endpoint must be a URL that the
//! url crate accepts.

use vstd::prelude::*;
use crate::model::ProviderConfig;

verus! {

/// Whether the url crate parses this text as an absolute URL. A function
/// of the text alone.
pub uninterp spec fn is_parseable_url(s: Seq<char>) -> bool;

/// Relies on url::Url::parse: accepts exactly the absolute URLs of the
/// WHATWG URL standard.
#[verifier::external_body]
fn url_parses(s: &str) -> (r: bool)
    ensures
        r == is_parseable_url(s@),
{
    url::Url::parse(s).is_ok()
}

impl ProviderConfig {
    /// Whether the three provider endpoints all parse as URLs. A broker
    /// should only be started around a configuration for which this
    /// holds; checking it is the caller's part of initialization.
    pub fn endpoints_parse(&self) -> (r: bool)
        ensures
            r == (is_parseable_url(self@.auth_url) && is_parseable_url(self@.token_url)
                && is_parseable_url(self@.redirect_url)),
    {
        url_parses(self.auth_url.as_str()) && url_parses(self.token_url.as_str()) && url_parses(
            self.redirect_url.as_str(),
        )
    }
}

} // verus!
