//! The `application/x-www-form-urlencoded` format, used both for the query
//! of the provider authorize URL and for the body of every token-endpoint
//! request: alphanumeric bytes and `*`, `-`, `.`, `_` pass unchanged, a
//! space becomes `+`, and every other byte of the UTF-8 encoding becomes
//! `%` followed by two upper-case hex digits.

use vstd::prelude::*;
use vstd::string::{StrSliceExecFns, StringExecFns};
use vstd::utf8::encode_utf8;

verus! {

/// Bytes that the form-urlencoded serializer passes through unchanged.
pub open spec fn form_safe_byte(b: u8) -> bool {
    b == 0x2a || b == 0x2d || b == 0x2e || (0x30 <= b && b <= 0x39) || (0x41 <= b && b <= 0x5a)
        || b == 0x5f || (0x61 <= b && b <= 0x7a)
}

/// The upper-case hex digit of a value below 16.
pub open spec fn hex_upper_digit(n: u8) -> char
    recommends
        n < 16,
{
    if n < 10 {
        (n + 0x30) as char
    } else {
        ((n - 10) + 0x41) as char
    }
}

/// How a single byte is serialized.
pub open spec fn form_encoded_byte(b: u8) -> Seq<char> {
    if b == 0x20 {
        seq!['+']
    } else if form_safe_byte(b) {
        seq![b as char]
    } else {
        seq!['%', hex_upper_digit(b / 16), hex_upper_digit(b % 16)]
    }
}

/// The serialization of a whole byte string.
pub open spec fn form_encoded(bs: Seq<u8>) -> Seq<char>
    decreases bs.len(),
{
    if bs.len() == 0 {
        Seq::empty()
    } else {
        form_encoded_byte(bs[0]) + form_encoded(bs.skip(1))
    }
}

/// The serialization of a string: its UTF-8 bytes, serialized.
pub open spec fn form_encoded_str(s: Seq<char>) -> Seq<char> {
    form_encoded(encode_utf8(s))
}

/// One `key=value` component.
pub open spec fn spec_form_pair(k: Seq<char>, v: Seq<char>) -> Seq<char> {
    form_encoded_str(k) + seq!['='] + form_encoded_str(v)
}

/// `key=value` components joined by `&`.
pub open spec fn spec_form_pairs(ps: Seq<(Seq<char>, Seq<char>)>) -> Seq<char>
    decreases ps.len(),
{
    if ps.len() == 0 {
        Seq::empty()
    } else if ps.len() == 1 {
        spec_form_pair(ps[0].0, ps[0].1)
    } else {
        spec_form_pairs(ps.drop_last()) + seq!['&'] + spec_form_pair(ps.last().0, ps.last().1)
    }
}

/// The key-value views of a vector of string pairs.
pub open spec fn pair_views(ps: Seq<(String, String)>) -> Seq<(Seq<char>, Seq<char>)> {
    ps.map(|i: int, p: (String, String)| (p.0@, p.1@))
}

/// Relies on url::form_urlencoded::byte_serialize, the
/// application/x-www-form-urlencoded byte serializer: each byte is kept if
/// alphanumeric or `*`, `-`, `.`, `_`, turned into `+` if a space, and
/// percent-encoded with upper-case hex digits otherwise.
#[verifier::external_body]
fn byte_serialize_form(input: &[u8]) -> (r: String)
    ensures
        r@ == form_encoded(input@),
{
    url::form_urlencoded::byte_serialize(input).collect()
}

/// Serialize one key or value for use inside a form-urlencoded document.
pub fn form_encode_component(s: &str) -> (r: String)
    ensures
        r@ == form_encoded_str(s@),
{
    byte_serialize_form(s.as_bytes())
}

proof fn lemma_form_pairs_push(ps: Seq<(Seq<char>, Seq<char>)>, p: (Seq<char>, Seq<char>))
    ensures
        spec_form_pairs(ps.push(p)) == if ps.len() == 0 {
            spec_form_pair(p.0, p.1)
        } else {
            spec_form_pairs(ps) + seq!['&'] + spec_form_pair(p.0, p.1)
        },
{
    assert(ps.push(p).drop_last() =~= ps);
    assert(ps.push(p).last() == p);
    if ps.len() == 0 {
        assert(ps.push(p)[0] == p);
    }
}

/// Serialize a whole sequence of pairs, in order, joined by `&`.
pub fn form_urlencode(pairs: &Vec<(String, String)>) -> (r: String)
    ensures
        r@ == spec_form_pairs(pair_views(pairs@)),
{
    let mut out = String::new();
    let mut i: usize = 0;
    proof {
        reveal_strlit("&");
        reveal_strlit("=");
        assert(pair_views(pairs@.take(0)) =~= Seq::<(Seq<char>, Seq<char>)>::empty());
    }
    while i < pairs.len()
        invariant
            i <= pairs.len(),
            out@ == spec_form_pairs(pair_views(pairs@.take(i as int))),
        decreases pairs.len() - i,
    {
        proof {
            reveal_strlit("&");
            reveal_strlit("=");
        }
        if i > 0 {
            out.append("&");
        }
        let key = form_encode_component(pairs[i].0.as_str());
        out.append(key.as_str());
        out.append("=");
        let value = form_encode_component(pairs[i].1.as_str());
        out.append(value.as_str());
        proof {
            let ghost prefix = pair_views(pairs@.take(i as int));
            let ghost p = (pairs@[i as int].0@, pairs@[i as int].1@);
            lemma_form_pairs_push(prefix, p);
            assert(pair_views(pairs@.take(i + 1)) =~= prefix.push(p));
            assert(("&")@ =~= seq!['&']);
            assert(("=")@ =~= seq!['=']);
            assert(out@ =~= spec_form_pairs(pair_views(pairs@.take(i + 1))));
        }
        i += 1;
    }
    proof {
        assert(pairs@.take(pairs@.len() as int) =~= pairs@);
    }
    out
}

} // verus!
