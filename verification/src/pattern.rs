//! The byte-signature pattern compiler and matcher.
//!
//! A signature string is a whitespace-separated list of tokens; each token is
//! either two hexadecimal digits (a literal byte, case-insensitive) or `?` /
//! `??` (a wildcard that matches any byte).  A compiled pattern locates the
//! left-most, earliest occurrence of the byte sequence in a buffer, matching
//! literal bytes as raw values.

use crate::error::BaoError;
use vstd::prelude::*;
use vstd::string::StrSliceExecFns;

verus! {

/// One compiled token of a signature pattern: a literal byte or a wildcard.
#[derive(Clone, Copy, PartialEq, Eq, Structural, Debug)]
pub enum PatToken {
    Byte(u8),
    Any,
}

/// The characters on which tokens are split: ASCII whitespace.
pub open spec fn is_pat_ws(c: char) -> bool {
    c == ' ' || c == '\t' || c == '\n' || c == '\r' || c == '\u{c}'
}

/// The value of a hexadecimal digit, or `None` for any other character.
pub open spec fn spec_hex_digit(c: char) -> Option<u8> {
    let n = c as u32;
    if 48 <= n && n <= 57 {
        Some((n - 48) as u8)
    } else if 65 <= n && n <= 70 {
        Some((n - 55) as u8)
    } else if 97 <= n && n <= 102 {
        Some((n - 87) as u8)
    } else {
        None
    }
}

/// The meaning of one whitespace-free token: `?` and `??` are wildcards, two
/// hex digits are a literal byte, and everything else is invalid.
pub open spec fn spec_token(t: Seq<char>) -> Option<PatToken> {
    if t.len() == 1 && t[0] == '?' {
        Some(PatToken::Any)
    } else if t.len() == 2 && t[0] == '?' && t[1] == '?' {
        Some(PatToken::Any)
    } else if t.len() == 2 {
        match (spec_hex_digit(t[0]), spec_hex_digit(t[1])) {
            (Some(h), Some(l)) => Some(PatToken::Byte((h * 16 + l) as u8)),
            _ => None,
        }
    } else {
        None
    }
}

/// The length of the maximal whitespace-free prefix of `s`.
pub open spec fn token_len(s: Seq<char>) -> nat
    decreases s.len(),
{
    if s.len() == 0 || is_pat_ws(s[0]) {
        0
    } else {
        1 + token_len(s.skip(1))
    }
}

pub proof fn lemma_token_len_bounds(s: Seq<char>)
    ensures
        token_len(s) <= s.len(),
        s.len() > 0 && !is_pat_ws(s[0]) ==> token_len(s) >= 1,
    decreases s.len(),
{
    if s.len() == 0 || is_pat_ws(s[0]) {
    } else {
        lemma_token_len_bounds(s.skip(1));
    }
}

/// `token_len` is the position of the first whitespace character (or the
/// length of `s` if there is none).
pub proof fn lemma_token_len_char(s: Seq<char>, m: int)
    requires
        0 <= m <= s.len(),
        forall|k: int| 0 <= k < m ==> !is_pat_ws(s[k]),
        m == s.len() || is_pat_ws(s[m]),
    ensures
        token_len(s) == m,
    decreases m,
{
    if m == 0 {
    } else {
        assert(!is_pat_ws(s[0]));
        assert forall|k: int| 0 <= k < m - 1 implies !is_pat_ws(s.skip(1)[k]) by {
            assert(s.skip(1)[k] == s[k + 1]);
        }
        if m < s.len() {
            assert(s.skip(1)[m - 1] == s[m]);
        }
        lemma_token_len_char(s.skip(1), m - 1);
    }
}

/// The compiled form of a whole signature string: its tokens in order, or
/// `None` if any token is invalid.
pub open spec fn spec_compile(s: Seq<char>) -> Option<Seq<PatToken>>
    decreases s.len() via spec_compile_dec
{
    if s.len() == 0 {
        Some(Seq::empty())
    } else if is_pat_ws(s[0]) {
        spec_compile(s.skip(1))
    } else {
        let n = token_len(s) as int;
        match spec_token(s.take(n)) {
            None => None,
            Some(t) => match spec_compile(s.skip(n)) {
                None => None,
                Some(rest) => Some(seq![t] + rest),
            },
        }
    }
}

#[via_fn]
proof fn spec_compile_dec(s: Seq<char>) {
    if s.len() > 0 && !is_pat_ws(s[0]) {
        lemma_token_len_bounds(s);
    }
}

/// Whether one token accepts one byte.
pub open spec fn tok_match(t: PatToken, b: u8) -> bool {
    match t {
        PatToken::Byte(v) => b == v,
        PatToken::Any => true,
    }
}

/// Whether the whole pattern accepts the window of `data` that starts at `i`.
pub open spec fn matches_at(pat: Seq<PatToken>, data: Seq<u8>, i: int) -> bool {
    &&& 0 <= i
    &&& i + pat.len() <= data.len()
    &&& forall|j: int| 0 <= j < pat.len() ==> tok_match(#[trigger] pat[j], data[i + j])
}

/// The earliest position at or after `i` where the pattern matches.
pub open spec fn first_match_from(pat: Seq<PatToken>, data: Seq<u8>, i: int) -> Option<int>
    decreases data.len() - i,
{
    if i < 0 || i + pat.len() > data.len() {
        None
    } else if matches_at(pat, data, i) {
        Some(i)
    } else {
        first_match_from(pat, data, i + 1)
    }
}

/// `first_match_from` returns a match position below which nothing matches,
/// and `None` exactly when nothing at or after `i` matches.
pub proof fn lemma_first_match_from(pat: Seq<PatToken>, data: Seq<u8>, i: int)
    requires
        0 <= i,
    ensures
        match first_match_from(pat, data, i) {
            Some(m) => i <= m && matches_at(pat, data, m) && forall|k: int|
                i <= k < m ==> !matches_at(pat, data, k),
            None => forall|k: int| k >= i ==> !matches_at(pat, data, k),
        },
    decreases data.len() - i,
{
    if i + pat.len() > data.len() {
    } else if matches_at(pat, data, i) {
    } else {
        lemma_first_match_from(pat, data, i + 1);
    }
}

/// A literal byte, a wildcard, and a literal byte match exactly the
/// three-byte windows that begin with the first byte and end with the last,
/// whatever stands in the middle.
pub proof fn lemma_wildcard_window(first: u8, last: u8, data: Seq<u8>, i: int)
    ensures
        matches_at(seq![PatToken::Byte(first), PatToken::Any, PatToken::Byte(last)], data, i)
            <==> (0 <= i && i + 3 <= data.len() && data[i] == first && data[i + 2] == last),
{
    let pat = seq![PatToken::Byte(first), PatToken::Any, PatToken::Byte(last)];
    assert(pat.len() == 3);
    if 0 <= i && i + 3 <= data.len() && data[i] == first && data[i + 2] == last {
        assert forall|j: int| 0 <= j < pat.len() implies tok_match(
            #[trigger] pat[j],
            data[i + j],
        ) by {
            if j == 0 {
            } else if j == 1 {
            } else {
                assert(j == 2);
            }
        }
        assert(matches_at(pat, data, i));
    }
    if matches_at(pat, data, i) {
        assert(tok_match(pat[0], data[i + 0]));
        assert(tok_match(pat[2], data[i + 2]));
    }
}

/// Executable form of [`spec_hex_digit`].
fn hex_val(c: char) -> (r: Option<u8>)
    ensures
        r == spec_hex_digit(c),
        r matches Some(h) ==> h < 16,
{
    let n = c as u32;
    if 48 <= n && n <= 57 {
        Some((n - 48) as u8)
    } else if 65 <= n && n <= 70 {
        Some((n - 55) as u8)
    } else if 97 <= n && n <= 102 {
        Some((n - 87) as u8)
    } else {
        None
    }
}

/// Executable form of [`is_pat_ws`].
fn ws_char(c: char) -> (r: bool)
    ensures
        r == is_pat_ws(c),
{
    c == ' ' || c == '\t' || c == '\n' || c == '\r' || c == '\u{c}'
}

/// Compiles the suffix of the signature string that starts at character `i`.
fn compile_from(s: &str, i: usize) -> (r: Result<Vec<PatToken>, ()>)
    requires
        i <= s@.len(),
    ensures
        match spec_compile(s@.skip(i as int)) {
            Some(toks) => r matches Ok(v) && v@ == toks,
            None => r is Err,
        },
    decreases s@.len() - i,
{
    let n = s.unicode_len();
    if i == n {
        assert(s@.skip(i as int) =~= Seq::<char>::empty());
        return Ok(Vec::new());
    }
    let c = s.get_char(i);
    if ws_char(c) {
        assert(s@.skip(i as int).skip(1) =~= s@.skip(i as int + 1));
        return compile_from(s, i + 1);
    }
    let ghost t = s@.skip(i as int);
    let mut j = i + 1;
    while j < n && !ws_char(s.get_char(j))
        invariant
            i < j <= n,
            n == s@.len(),
            !is_pat_ws(s@[i as int]),
            forall|k: int| i <= k < j ==> !is_pat_ws(s@[k]),
        decreases n - j,
    {
        j += 1;
    }
    proof {
        assert forall|k: int| 0 <= k < j - i implies !is_pat_ws(t[k]) by {
            assert(t[k] == s@[i + k]);
        }
        if j < n {
            assert(t[j - i] == s@[j as int]);
        }
        lemma_token_len_char(t, j - i);
    }
    let tlen = j - i;
    let ghost tk = t.take(tlen as int);
    proof {
        assert forall|k: int| 0 <= k < tlen implies tk[k] == s@[i + k] by {
            assert(tk[k] == t[k]);
        }
    }
    let tok: Option<PatToken> = if tlen == 1 {
        if c == '?' {
            Some(PatToken::Any)
        } else {
            None
        }
    } else if tlen == 2 {
        let c2 = s.get_char(i + 1);
        assert(tk[1] == c2);
        if c == '?' && c2 == '?' {
            Some(PatToken::Any)
        } else {
            match (hex_val(c), hex_val(c2)) {
                (Some(h), Some(l)) => Some(PatToken::Byte(h * 16 + l)),
                _ => None,
            }
        }
    } else {
        None
    };
    assert(tk[0] == c) by {
        assert(tk[0] == t[0]);
    }
    assert(tok == spec_token(tk));
    proof {
        assert(t.len() == s@.len() - i);
        assert(t[0] == s@[i as int]);
        assert(!is_pat_ws(t[0]));
        assert(t.take(token_len(t) as int) == tk);
        assert(t.skip(tlen as int) =~= s@.skip(j as int));
    }
    match tok {
        None => {
            assert(spec_compile(t) is None);
            Err(())
        },
        Some(t0) => match compile_from(s, j) {
            Err(e) => {
                assert(spec_compile(s@.skip(j as int)) is None);
                assert(spec_compile(t) is None);
                Err(e)
            },
            Ok(mut rest) => {
                let ghost before = rest@;
                rest.insert(0, t0);
                proof {
                    assert(spec_compile(s@.skip(j as int)) matches Some(toks) && before == toks);
                    assert(rest@ =~= seq![t0] + before);
                    assert(spec_compile(t) == Some(seq![t0] + before));
                }
                Ok(rest)
            },
        },
    }
}

/// Turns a signature string into its compiled token sequence, or reports the
/// whole string as a bad pattern if any token is invalid.
pub fn compile_pattern(pattern: &str) -> (r: Result<Vec<PatToken>, BaoError>)
    ensures
        match spec_compile(pattern@) {
            Some(toks) => r matches Ok(v) && v@ == toks,
            None => r matches Err(BaoError::BadPattern { pattern: p }) && p@ == pattern@,
        },
{
    assert(pattern@.skip(0) =~= pattern@);
    match compile_from(pattern, 0) {
        Ok(v) => Ok(v),
        Err(_) => Err(BaoError::BadPattern { pattern: pattern.to_owned() }),
    }
}

/// Finds the left-most, earliest occurrence of the compiled pattern in the
/// buffer.
pub fn find_pattern(pat: &Vec<PatToken>, data: &[u8]) -> (r: Option<usize>)
    ensures
        r matches Some(i) ==> first_match_from(pat@, data@, 0) == Some(i as int),
        r is None ==> first_match_from(pat@, data@, 0) is None,
        r matches Some(i) ==> matches_at(pat@, data@, i as int) && forall|k: int|
            0 <= k < i ==> !matches_at(pat@, data@, k),
        r is None ==> forall|k: int| !matches_at(pat@, data@, k),
{
    let plen = pat.len();
    let dlen = data.len();
    if plen > dlen {
        proof {
            lemma_first_match_from(pat@, data@, 0);
        }
        return None;
    }
    let mut i: usize = 0;
    while i <= dlen - plen
        invariant
            plen == pat@.len(),
            dlen == data@.len(),
            plen <= dlen,
            i <= dlen - plen + 1,
            first_match_from(pat@, data@, 0) == first_match_from(pat@, data@, i as int),
        decreases dlen - i,
    {
        let mut j: usize = 0;
        let mut matched = true;
        while j < plen
            invariant
                plen == pat@.len(),
                dlen == data@.len(),
                i + plen <= dlen,
                j <= plen,
                matched ==> forall|k: int| 0 <= k < j ==> tok_match(
                    #[trigger] pat@[k],
                    data@[i + k],
                ),
                !matched ==> !matches_at(pat@, data@, i as int),
            decreases plen - j,
        {
            let good = match pat[j] {
                PatToken::Byte(v) => data[i + j] == v,
                PatToken::Any => true,
            };
            if !good {
                proof {
                    assert(!tok_match(pat@[j as int], data@[i + j]));
                }
                matched = false;
                j = plen;
            } else {
                j += 1;
            }
        }
        if matched {
            assert(matches_at(pat@, data@, i as int));
            proof {
                lemma_first_match_from(pat@, data@, 0);
            }
            return Some(i);
        }
        i += 1;
    }
    proof {
        lemma_first_match_from(pat@, data@, 0);
    }
    None
}

} // verus!
