//! Character-level string operations with exact specifications: trimming,
//! single-character and escape-pair replacement, substring search, and
//! splitting. The command parsers are specified and verified in terms of
//! these.

use vstd::prelude::*;
use vstd::string::{StrSliceExecFns, StringExecFns};

verus! {

/// The whitespace recognized at the edges of commands and fields.
pub open spec fn is_space(c: char) -> bool {
    c == ' ' || c == '\t' || c == '\n' || c == '\r'
}

pub open spec fn spec_trim_start_by(s: Seq<char>, p: spec_fn(char) -> bool) -> Seq<char>
    decreases s.len(),
{
    if s.len() > 0 && p(s[0]) {
        spec_trim_start_by(s.skip(1), p)
    } else {
        s
    }
}

pub open spec fn spec_trim_end_by(s: Seq<char>, p: spec_fn(char) -> bool) -> Seq<char>
    decreases s.len(),
{
    if s.len() > 0 && p(s.last()) {
        spec_trim_end_by(s.drop_last(), p)
    } else {
        s
    }
}

pub open spec fn spec_trim_by(s: Seq<char>, p: spec_fn(char) -> bool) -> Seq<char> {
    spec_trim_end_by(spec_trim_start_by(s, p), p)
}

/// Whitespace trimming, as at the edges of every parsed field.
pub open spec fn spec_trim(s: Seq<char>) -> Seq<char> {
    spec_trim_by(s, |c: char| is_space(c))
}

proof fn lemma_trim_start_prefix(s: Seq<char>, p: spec_fn(char) -> bool, i: int)
    requires
        0 <= i <= s.len(),
        forall|j: int| 0 <= j < i ==> p(s[j]),
    ensures
        spec_trim_start_by(s, p) == spec_trim_start_by(s.skip(i), p),
    decreases i,
{
    if i == 0 {
        assert(s.skip(0) =~= s);
    } else {
        assert(p(s[0]));
        lemma_trim_start_prefix(s.skip(1), p, i - 1);
        assert(s.skip(1).skip(i - 1) =~= s.skip(i));
    }
}

proof fn lemma_trim_end_suffix(s: Seq<char>, p: spec_fn(char) -> bool, i: int)
    requires
        0 <= i <= s.len(),
        forall|j: int| i <= j < s.len() ==> p(s[j]),
    ensures
        spec_trim_end_by(s, p) == spec_trim_end_by(s.take(i), p),
    decreases s.len() - i,
{
    if i < s.len() {
        assert(p(s.last()));
        assert forall|j: int| i <= j < s.drop_last().len() implies p(s.drop_last()[j]) by {
            assert(s.drop_last()[j] == s[j]);
        }
        lemma_trim_end_suffix(s.drop_last(), p, i);
        assert(s.drop_last().take(i) =~= s.take(i));
    } else {
        assert(s.take(i) =~= s);
    }
}

fn is_space_exec(c: char) -> (r: bool)
    ensures
        r == is_space(c),
{
    c == ' ' || c == '\t' || c == '\n' || c == '\r'
}

fn is_bracket_exec(c: char) -> (r: bool)
    ensures
        r == (c == '[' || c == ']'),
{
    c == '[' || c == ']'
}

/// Trim whitespace from both ends.
pub fn trim_str(s: &str) -> (r: String)
    ensures
        r@ == spec_trim(s@),
{
    let n = s.unicode_len();
    let mut start: usize = 0;
    while start < n && is_space_exec(s.get_char(start))
        invariant
            0 <= start <= n,
            n == s@.len(),
            forall|j: int| 0 <= j < start ==> is_space(s@[j]),
        decreases n - start,
    {
        start += 1;
    }
    let mut end: usize = n;
    while end > start && is_space_exec(s.get_char(end - 1))
        invariant
            start <= end <= n,
            n == s@.len(),
            forall|j: int| end <= j < n ==> is_space(s@[j]),
        decreases end,
    {
        end -= 1;
    }
    let part = s.substring_char(start, end);
    proof {
        let p = |c: char| is_space(c);
        assert forall|j: int| 0 <= j < start implies p(s@[j]) by {}
        lemma_trim_start_prefix(s@, p, start as int);
        let mid = s@.skip(start as int);
        if start < n {
            assert(mid[0] == s@[start as int]);
            assert(!p(mid[0]));
        }
        assert(spec_trim_start_by(s@, p) == mid);
        assert forall|j: int| (end - start) <= j < mid.len() implies p(mid[j]) by {
            assert(mid[j] == s@[j + start]);
        }
        lemma_trim_end_suffix(mid, p, end - start);
        if end > start {
            assert(mid.take(end - start).last() == s@[end - 1]);
            assert(!p(mid.take(end - start).last()));
        }
        assert(spec_trim_end_by(mid, p) == mid.take(end - start));
        assert(part@ =~= mid.take(end - start));
    }
    String::from_str(part)
}

/// Trim a given character (and only it) from both ends, as `"` is trimmed
/// off a quoted response.
pub fn trim_char(s: &str, target: char) -> (r: String)
    ensures
        r@ == spec_trim_by(s@, |c: char| c == target),
{
    let n = s.unicode_len();
    let mut start: usize = 0;
    while start < n && s.get_char(start) == target
        invariant
            0 <= start <= n,
            n == s@.len(),
            forall|j: int| 0 <= j < start ==> s@[j] == target,
        decreases n - start,
    {
        start += 1;
    }
    let mut end: usize = n;
    while end > start && s.get_char(end - 1) == target
        invariant
            start <= end <= n,
            n == s@.len(),
            forall|j: int| end <= j < n ==> s@[j] == target,
        decreases end,
    {
        end -= 1;
    }
    let part = s.substring_char(start, end);
    proof {
        let p = |c: char| c == target;
        assert forall|j: int| 0 <= j < start implies p(s@[j]) by {}
        lemma_trim_start_prefix(s@, p, start as int);
        let mid = s@.skip(start as int);
        if start < n {
            assert(mid[0] == s@[start as int]);
            assert(!p(mid[0]));
        }
        assert(spec_trim_start_by(s@, p) == mid);
        assert forall|j: int| (end - start) <= j < mid.len() implies p(mid[j]) by {
            assert(mid[j] == s@[j + start]);
        }
        lemma_trim_end_suffix(mid, p, end - start);
        if end > start {
            assert(mid.take(end - start).last() == s@[end - 1]);
            assert(!p(mid.take(end - start).last()));
        }
        assert(spec_trim_end_by(mid, p) == mid.take(end - start));
        assert(part@ =~= mid.take(end - start));
    }
    String::from_str(part)
}

/// Trim `[` and `]` from both ends, as around an attendee list.
pub fn trim_brackets(s: &str) -> (r: String)
    ensures
        r@ == spec_trim_by(s@, |c: char| c == '[' || c == ']'),
{
    let n = s.unicode_len();
    let mut start: usize = 0;
    while start < n && is_bracket_exec(s.get_char(start))
        invariant
            0 <= start <= n,
            n == s@.len(),
            forall|j: int| 0 <= j < start ==> (s@[j] == '[' || s@[j] == ']'),
        decreases n - start,
    {
        start += 1;
    }
    let mut end: usize = n;
    while end > start && is_bracket_exec(s.get_char(end - 1))
        invariant
            start <= end <= n,
            n == s@.len(),
            forall|j: int| end <= j < n ==> (s@[j] == '[' || s@[j] == ']'),
        decreases end,
    {
        end -= 1;
    }
    let part = s.substring_char(start, end);
    proof {
        let p = |c: char| c == '[' || c == ']';
        assert forall|j: int| 0 <= j < start implies p(s@[j]) by {}
        lemma_trim_start_prefix(s@, p, start as int);
        let mid = s@.skip(start as int);
        if start < n {
            assert(mid[0] == s@[start as int]);
            assert(!p(mid[0]));
        }
        assert(spec_trim_start_by(s@, p) == mid);
        assert forall|j: int| (end - start) <= j < mid.len() implies p(mid[j]) by {
            assert(mid[j] == s@[j + start]);
        }
        lemma_trim_end_suffix(mid, p, end - start);
        if end > start {
            assert(mid.take(end - start).last() == s@[end - 1]);
            assert(!p(mid.take(end - start).last()));
        }
        assert(spec_trim_end_by(mid, p) == mid.take(end - start));
        assert(part@ =~= mid.take(end - start));
    }
    String::from_str(part)
}

/// Every occurrence of one character replaced by a space.
pub open spec fn spec_blank_char(s: Seq<char>, target: char) -> Seq<char> {
    s.map_values(
        |c: char|
            if c == target {
                ' '
            } else {
                c
            },
    )
}

/// Replace every occurrence of `target` by a space.
pub fn blank_char(s: &str, target: char) -> (r: String)
    ensures
        r@ == spec_blank_char(s@, target),
{
    let n = s.unicode_len();
    let mut out = String::new();
    let mut i: usize = 0;
    proof {
        assert(out@ =~= spec_blank_char(s@.take(0), target));
    }
    while i < n
        invariant
            0 <= i <= n,
            n == s@.len(),
            out@ == spec_blank_char(s@.take(i as int), target),
        decreases n - i,
    {
        let c = s.get_char(i);
        if c == target {
            proof {
                reveal_strlit(" ");
            }
            out.append(" ");
            proof {
                assert((" ")@ =~= seq![' ']);
            }
        } else {
            let piece = s.substring_char(i, i + 1);
            out.append(piece);
            proof {
                assert(piece@ =~= seq![s@[i as int]]);
            }
        }
        proof {
            assert(spec_blank_char(s@.take(i + 1), target) =~= spec_blank_char(
                s@.take(i as int),
                target,
            ).push(
                if s@[i as int] == target {
                    ' '
                } else {
                    s@[i as int]
                },
            ));
        }
        i += 1;
    }
    proof {
        assert(s@.take(n as int) =~= s@);
    }
    out
}

/// Every two-character escape `\` + `second` collapsed into one space,
/// scanning left to right.
pub open spec fn spec_blank_escape(s: Seq<char>, second: char) -> Seq<char>
    decreases s.len(),
{
    if s.len() == 0 {
        Seq::empty()
    } else if s.len() >= 2 && s[0] == '\\' && s[1] == second {
        seq![' '] + spec_blank_escape(s.skip(2), second)
    } else {
        seq![s[0]] + spec_blank_escape(s.skip(1), second)
    }
}

/// Replace every two-character escape `\` + `second` by a space.
pub fn blank_escape(s: &str, second: char) -> (r: String)
    ensures
        r@ == spec_blank_escape(s@, second),
{
    let n = s.unicode_len();
    let mut out = String::new();
    let mut i: usize = 0;
    proof {
        assert(s@.skip(0) =~= s@);
        assert(Seq::<char>::empty() + spec_blank_escape(s@, second) =~= spec_blank_escape(
            s@,
            second,
        ));
    }
    while i < n
        invariant
            0 <= i <= n,
            n == s@.len(),
            spec_blank_escape(s@, second) == out@ + spec_blank_escape(s@.skip(i as int), second),
        decreases n - i,
    {
        let ghost before = out@;
        let ghost tail = s@.skip(i as int);
        let c = s.get_char(i);
        proof {
            assert(tail[0] == s@[i as int]);
        }
        if c == '\\' && i + 1 < n && s.get_char(i + 1) == second {
            proof {
                reveal_strlit(" ");
            }
            out.append(" ");
            proof {
                assert((" ")@ =~= seq![' ']);
                assert(tail[1] == s@[i + 1]);
                assert(tail.skip(2) =~= s@.skip(i + 2));
                assert(spec_blank_escape(tail, second) == seq![' '] + spec_blank_escape(
                    s@.skip(i + 2),
                    second,
                ));
                assert(before + (seq![' '] + spec_blank_escape(s@.skip(i + 2), second)) =~= out@
                    + spec_blank_escape(s@.skip(i + 2), second));
            }
            i += 2;
        } else {
            let piece = s.substring_char(i, i + 1);
            out.append(piece);
            proof {
                assert(piece@ =~= seq![s@[i as int]]);
                assert(tail.skip(1) =~= s@.skip(i + 1));
                if tail.len() >= 2 && tail[0] == '\\' && tail[1] == second {
                    assert(s@[i + 1] == second);
                    assert(false);
                }
                assert(spec_blank_escape(tail, second) == seq![s@[i as int]] + spec_blank_escape(
                    s@.skip(i + 1),
                    second,
                ));
                assert(before + (seq![s@[i as int]] + spec_blank_escape(s@.skip(i + 1), second))
                    =~= out@ + spec_blank_escape(s@.skip(i + 1), second));
            }
            i += 1;
        }
    }
    proof {
        assert(s@.skip(n as int) =~= Seq::<char>::empty());
        assert(out@ + spec_blank_escape(Seq::<char>::empty(), second) =~= out@);
    }
    out
}

/// The pattern occurs in `s` at position `i`.
pub open spec fn matches_at(s: Seq<char>, pat: Seq<char>, i: int) -> bool {
    0 <= i && i + pat.len() <= s.len() && s.subrange(i, i + pat.len()) == pat
}

/// The first position at which the pattern occurs, if any.
pub open spec fn spec_find(s: Seq<char>, pat: Seq<char>) -> Option<int>
    decreases s.len(),
{
    if matches_at(s, pat, 0) {
        Some(0)
    } else if s.len() == 0 {
        None
    } else {
        match spec_find(s.skip(1), pat) {
            Some(j) => Some(j + 1),
            None => None,
        }
    }
}

proof fn lemma_matches_at_shift(s: Seq<char>, pat: Seq<char>, j: int)
    requires
        s.len() > 0,
        0 <= j,
    ensures
        matches_at(s.skip(1), pat, j) == matches_at(s, pat, j + 1),
{
    if j + 1 + pat.len() <= s.len() {
        assert(s.skip(1).subrange(j, j + pat.len() as int) =~= s.subrange(
            j + 1,
            j + 1 + pat.len(),
        ));
    }
}

proof fn lemma_find_characterize(s: Seq<char>, pat: Seq<char>)
    ensures
        match spec_find(s, pat) {
            Some(i) => matches_at(s, pat, i) && forall|j: int|
                0 <= j < i ==> !matches_at(s, pat, j),
            None => forall|j: int| !matches_at(s, pat, j),
        },
    decreases s.len(),
{
    if !matches_at(s, pat, 0) && s.len() > 0 {
        lemma_find_characterize(s.skip(1), pat);
        match spec_find(s.skip(1), pat) {
            Some(i) => {
                lemma_matches_at_shift(s, pat, i);
                assert forall|j: int| 0 <= j < i + 1 implies !matches_at(s, pat, j) by {
                    if j > 0 {
                        lemma_matches_at_shift(s, pat, j - 1);
                    }
                }
            },
            None => {
                assert forall|j: int| true implies !matches_at(s, pat, j) by {
                    if j > 0 {
                        lemma_matches_at_shift(s, pat, j - 1);
                    }
                }
            },
        }
    }
}

proof fn lemma_find_from_first(s: Seq<char>, pat: Seq<char>, i: int)
    requires
        matches_at(s, pat, i),
        forall|j: int| 0 <= j < i ==> !matches_at(s, pat, j),
    ensures
        spec_find(s, pat) == Some(i),
{
    lemma_find_characterize(s, pat);
    match spec_find(s, pat) {
        Some(k) => {
            if k < i {
                assert(!matches_at(s, pat, k));
            }
            if i < k {
                assert(!matches_at(s, pat, i));
            }
        },
        None => {
            assert(!matches_at(s, pat, i));
        },
    }
}

/// Whether the pattern occurs at position `i`.
fn matches_here(s: &str, pat: &str, i: usize) -> (r: bool)
    requires
        i + pat@.len() <= s@.len(),
    ensures
        r == matches_at(s@, pat@, i as int),
{
    let n = s.unicode_len();
    let m = pat.unicode_len();
    let mut j: usize = 0;
    while j < m
        invariant
            0 <= j <= m,
            n == s@.len(),
            m == pat@.len(),
            i + m <= n,
            forall|k: int| 0 <= k < j ==> s@[i + k] == pat@[k],
        decreases m - j,
    {
        if s.get_char(i + j) != pat.get_char(j) {
            proof {
                assert(s@.subrange(i as int, i + m) != pat@) by {
                    assert(s@.subrange(i as int, i + m)[j as int] == s@[i + j]);
                }
            }
            return false;
        }
        j += 1;
    }
    proof {
        assert(s@.subrange(i as int, i + m) =~= pat@);
    }
    true
}

/// The first occurrence of the pattern, scanning from the left.
pub fn find_str(s: &str, pat: &str) -> (r: Option<usize>)
    ensures
        match r {
            Some(i) => spec_find(s@, pat@) == Some(i as int),
            None => spec_find(s@, pat@) is None,
        },
{
    let n = s.unicode_len();
    let m = pat.unicode_len();
    if m > n {
        proof {
            lemma_find_characterize(s@, pat@);
            if spec_find(s@, pat@) is Some {
                let i = spec_find(s@, pat@)->Some_0;
                assert(matches_at(s@, pat@, i));
            }
        }
        return None;
    }
    if m == 0 {
        proof {
            assert(s@.subrange(0, 0) =~= pat@);
            assert(matches_at(s@, pat@, 0));
        }
        return Some(0);
    }
    let mut i: usize = 0;
    while i <= n - m
        invariant
            1 <= m <= n,
            n == s@.len(),
            m == pat@.len(),
            0 <= i <= n - m + 1,
            forall|j: int| 0 <= j < i ==> !matches_at(s@, pat@, j),
        decreases n - i,
    {
        if matches_here(s, pat, i) {
            proof {
                lemma_find_from_first(s@, pat@, i as int);
            }
            return Some(i);
        }
        i += 1;
    }
    proof {
        lemma_find_characterize(s@, pat@);
        if spec_find(s@, pat@) is Some {
            let k = spec_find(s@, pat@)->Some_0;
            assert(matches_at(s@, pat@, k));
        }
    }
    None
}

/// Whether `s` begins with `pat`.
pub fn starts_with_str(s: &str, pat: &str) -> (r: bool)
    ensures
        r == matches_at(s@, pat@, 0),
{
    let n = s.unicode_len();
    let m = pat.unicode_len();
    if m > n {
        return false;
    }
    matches_here(s, pat, 0)
}

/// `s` split at the first occurrence of the pattern: the part before and
/// the part after, with the pattern itself consumed.
pub open spec fn spec_split_once(s: Seq<char>, pat: Seq<char>) -> Option<(Seq<char>, Seq<char>)> {
    match spec_find(s, pat) {
        Some(i) => Some((s.take(i), s.skip(i + pat.len()))),
        None => None,
    }
}

/// Split at the first occurrence of the pattern, if any.
pub fn split_once_str(s: &str, pat: &str) -> (r: Option<(String, String)>)
    ensures
        match r {
            Some(parts) => spec_split_once(s@, pat@) == Some((parts.0@, parts.1@)),
            None => spec_split_once(s@, pat@) is None,
        },
{
    let n = s.unicode_len();
    let m = pat.unicode_len();
    match find_str(s, pat) {
        Some(i) => {
            proof {
                lemma_find_characterize(s@, pat@);
            }
            let before = s.substring_char(0, i);
            let after = s.substring_char(i + m, n);
            proof {
                assert(before@ =~= s@.take(i as int));
                assert(after@ =~= s@.skip(i + pat@.len()));
            }
            Some((String::from_str(before), String::from_str(after)))
        },
        None => None,
    }
}

/// `s` split at every occurrence of the separator character. Always at
/// least one part; separators at the edges give empty parts.
pub open spec fn spec_split_char(s: Seq<char>, sep: char) -> Seq<Seq<char>>
    decreases s.len(),
{
    if s.len() == 0 {
        seq![Seq::empty()]
    } else if s[0] == sep {
        seq![Seq::<char>::empty()] + spec_split_char(s.skip(1), sep)
    } else {
        let rest = spec_split_char(s.skip(1), sep);
        seq![seq![s[0]] + rest[0]] + rest.skip(1)
    }
}

proof fn lemma_split_char_nonempty(s: Seq<char>, sep: char)
    ensures
        spec_split_char(s, sep).len() >= 1,
    decreases s.len(),
{
    if s.len() > 0 {
        lemma_split_char_nonempty(s.skip(1), sep);
    }
}

/// Split at every occurrence of `sep`.
pub fn split_char(s: &str, sep: char) -> (r: Vec<String>)
    ensures
        r@.map_values(|p: String| p@) =~~= spec_split_char(s@, sep),
{
    let n = s.unicode_len();
    let mut done: Vec<String> = Vec::new();
    let mut cur = String::new();
    let mut i: usize = 0;
    proof {
        lemma_split_char_nonempty(s@, sep);
        assert(s@.skip(0) =~= s@);
        let rest = spec_split_char(s@, sep);
        assert(done@.map_values(|p: String| p@) + seq![cur@ + rest[0]] + rest.skip(1)
            =~~= spec_split_char(s@, sep));
    }
    while i < n
        invariant
            0 <= i <= n,
            n == s@.len(),
            ({
                let rest = spec_split_char(s@.skip(i as int), sep);
                rest.len() >= 1 && done@.map_values(|p: String| p@) + seq![cur@ + rest[0]]
                    + rest.skip(1) =~~= spec_split_char(s@, sep)
            }),
        decreases n - i,
    {
        let ghost old_done = done@;
        let ghost old_cur = cur@;
        let ghost tail = s@.skip(i as int);
        let ghost rest = spec_split_char(tail, sep);
        let c = s.get_char(i);
        proof {
            assert(tail[0] == s@[i as int]);
            assert(tail.skip(1) =~= s@.skip(i + 1));
            lemma_split_char_nonempty(s@.skip(i + 1), sep);
        }
        if c == sep {
            done.push(cur);
            cur = String::new();
            proof {
                let rest2 = spec_split_char(s@.skip(i + 1), sep);
                assert(rest =~~= seq![Seq::<char>::empty()] + rest2);
                assert(old_cur + rest[0] =~= old_cur);
                assert(done@.map_values(|p: String| p@) =~~= old_done.map_values(
                    |p: String| p@,
                ).push(old_cur));
                assert(done@.map_values(|p: String| p@) + seq![cur@ + rest2[0]] + rest2.skip(1)
                    =~~= old_done.map_values(|p: String| p@) + seq![old_cur + rest[0]]
                    + rest.skip(1));
            }
        } else {
            let piece = s.substring_char(i, i + 1);
            cur.append(piece);
            proof {
                let rest2 = spec_split_char(s@.skip(i + 1), sep);
                assert(piece@ =~= seq![s@[i as int]]);
                assert(rest =~~= seq![seq![s@[i as int]] + rest2[0]] + rest2.skip(1));
                assert(cur@ + rest2[0] =~= old_cur + rest[0]);
                assert(done@.map_values(|p: String| p@) + seq![cur@ + rest2[0]] + rest2.skip(1)
                    =~~= old_done.map_values(|p: String| p@) + seq![old_cur + rest[0]]
                    + rest.skip(1));
            }
        }
        i += 1;
    }
    let ghost old_done = done@;
    let ghost old_cur = cur@;
    done.push(cur);
    proof {
        assert(s@.skip(n as int) =~= Seq::<char>::empty());
        let rest = spec_split_char(Seq::<char>::empty(), sep);
        assert(rest =~~= seq![Seq::<char>::empty()]);
        assert(rest.skip(1) =~= Seq::<Seq<char>>::empty());
        assert(done@.map_values(|p: String| p@) =~~= old_done.map_values(|p: String| p@).push(
            old_cur,
        ));
        assert(old_done.map_values(|p: String| p@).push(old_cur) =~~= old_done.map_values(
            |p: String| p@,
        ) + seq![old_cur + rest[0]] + rest.skip(1));
    }
    done
}

} // verus!
