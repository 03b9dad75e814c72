//! Fresh random material for a sign-in attempt: the CSRF `state` token and
//! the PKCE verifier/challenge pair. Both are drawn through the oauth2
//! crate, exactly as a provider expects them.

use vstd::prelude::*;

verus! {

/// What the S256 challenge of a PKCE verifier is: the base64url encoding,
/// without padding, of the SHA-256 digest of the verifier's bytes. A
/// function of the verifier alone.
pub uninterp spec fn pkce_challenge_of(verifier: Seq<char>) -> Seq<char>;

/// Relies on oauth2::CsrfToken::new_random: a fresh random 128-bit value,
/// base64url-encoded without padding into 22 characters. Nothing further
/// can be said of a random value.
#[verifier::external_body]
pub(crate) fn new_csrf_token() -> (r: String)
    ensures
        r@.len() == 22,
{
    oauth2::CsrfToken::new_random().secret().clone()
}

/// Relies on oauth2::PkceCodeChallenge::new_random_sha256: a fresh random
/// 32-byte verifier, base64url-encoded without padding into 43 characters,
/// returned together with its S256 challenge.
#[verifier::external_body]
pub(crate) fn new_pkce_pair() -> (r: (String, String))
    ensures
        r.0@ == pkce_challenge_of(r.1@),
        r.1@.len() == 43,
{
    let (challenge, verifier) = oauth2::PkceCodeChallenge::new_random_sha256();
    (challenge.as_str().to_owned(), verifier.secret().clone())
}

} // verus!
