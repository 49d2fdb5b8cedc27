//! Verified parsing of the form-encoded (`key=value&key=value`) body of
//! the request-token exchange.
//!
//! A piece runs up to the next `&`; its key is everything before the first
//! `=` and its value everything after it (empty when the piece has no
//! `=`). When several pieces share a key, the last one wins, matching a
//! map filled in piece order.
use vstd::prelude::*;

use crate::scrape::str_eq;

verus! {

/// A request token and its secret, as the first exchange returns them.
#[derive(Debug, PartialEq, Eq)]
pub struct RequestToken {
    pub oauth_token: String,
    pub oauth_token_secret: String,
}

/// End of the piece beginning at `i`: the first `&` at or after `i`, or
/// the end of `s`.
pub open spec fn nonamp_run(s: Seq<char>, i: int) -> int
    decreases s.len() - i when 0 <= i <= s.len()
{
    if i >= s.len() {
        i
    } else if s[i] == '&' {
        i
    } else {
        nonamp_run(s, i + 1)
    }
}

/// End of the key part of the piece beginning at `i`: the first `=` or
/// `&` at or after `i`, or the end of `s`.
pub open spec fn keysep_run(s: Seq<char>, i: int) -> int
    decreases s.len() - i when 0 <= i <= s.len()
{
    if i >= s.len() {
        i
    } else if s[i] == '=' || s[i] == '&' {
        i
    } else {
        keysep_run(s, i + 1)
    }
}

proof fn lemma_nonamp_run_bounds(s: Seq<char>, i: int)
    requires
        0 <= i <= s.len(),
    ensures
        i <= nonamp_run(s, i) <= s.len(),
    decreases s.len() - i,
{
    if i < s.len() && s[i] != '&' {
        lemma_nonamp_run_bounds(s, i + 1);
    }
}

/// Key of the piece beginning at `i`.
pub open spec fn piece_key(s: Seq<char>, i: int) -> Seq<char> {
    s.subrange(i, keysep_run(s, i))
}

/// Value of the piece beginning at `i`; empty when the piece has no `=`.
pub open spec fn piece_val(s: Seq<char>, i: int) -> Seq<char> {
    let e = nonamp_run(s, i);
    let k = keysep_run(s, i);
    if k < e {
        s.subrange(k + 1, e)
    } else {
        Seq::empty()
    }
}

/// The later of two candidate values, preferring the right-hand (earlier)
/// one only when the left-hand (later) pieces held none.
pub open spec fn prefer_later(rest: Option<Seq<char>>, cur: Option<Seq<char>>) -> Option<
    Seq<char>,
> {
    match rest {
        Some(v) => Some(v),
        None => cur,
    }
}

/// Value bound to `key` by the pieces of `s` from position `i` on, the
/// last binding winning.
pub open spec fn form_value_from(s: Seq<char>, i: int, key: Seq<char>) -> Option<Seq<char>>
    decreases s.len() - i when 0 <= i <= s.len() via form_value_from_dec
{
    let e = nonamp_run(s, i);
    let cur: Option<Seq<char>> = if piece_key(s, i) == key {
        Some(piece_val(s, i))
    } else {
        None
    };
    if e >= s.len() {
        cur
    } else {
        prefer_later(form_value_from(s, e + 1, key), cur)
    }
}

#[via_fn]
proof fn form_value_from_dec(s: Seq<char>, i: int, key: Seq<char>) {
    lemma_nonamp_run_bounds(s, i);
}

/// Value bound to `key` by the form-encoded body `s`.
pub open spec fn form_value(s: Seq<char>, key: Seq<char>) -> Option<Seq<char>> {
    form_value_from(s, 0, key)
}

fn scan_nonamp(s: &str, n: usize, from: usize) -> (r: usize)
    requires
        n == s@.len(),
        from <= n,
    ensures
        r as int == nonamp_run(s@, from as int),
        from <= r <= n,
{
    let mut j = from;
    while j < n
        invariant
            n == s@.len(),
            from <= j <= n,
            nonamp_run(s@, from as int) == nonamp_run(s@, j as int),
        decreases n - j,
    {
        if s.get_char(j) == '&' {
            return j;
        }
        j = j + 1;
    }
    j
}

fn scan_keysep(s: &str, n: usize, from: usize) -> (r: usize)
    requires
        n == s@.len(),
        from <= n,
    ensures
        r as int == keysep_run(s@, from as int),
        from <= r <= n,
{
    let mut j = from;
    while j < n
        invariant
            n == s@.len(),
            from <= j <= n,
            keysep_run(s@, from as int) == keysep_run(s@, j as int),
        decreases n - j,
    {
        let c = s.get_char(j);
        if c == '=' || c == '&' {
            return j;
        }
        j = j + 1;
    }
    j
}

/// View of an optional owned string.
pub open spec fn opt_str_view(o: Option<String>) -> Option<Seq<char>> {
    match o {
        Some(s) => Some(s@),
        None => None,
    }
}

/// Recovers the request token and its secret from the form-encoded body
/// of the first exchange.
///
/// A missing key is a hard failure naming the key that was absent, the
/// token key being checked first.
pub fn read_oauth_token(text: &str) -> (r: Result<RequestToken, String>)
    ensures
        match r {
            Ok(t) => form_value(text@, "oauth_token"@) == Some(t.oauth_token@) && form_value(
                text@,
                "oauth_token_secret"@,
            ) == Some(t.oauth_token_secret@),
            Err(k) => (k@ == "oauth_token"@ && form_value(text@, "oauth_token"@) is None) || (k@
                == "oauth_token_secret"@ && form_value(text@, "oauth_token"@) is Some && form_value(
                text@,
                "oauth_token_secret"@,
            ) is None),
        },
{
    let n = text.unicode_len();
    let mut tok: Option<String> = None;
    let mut sec: Option<String> = None;
    let mut i: usize = 0;
    loop
        invariant
            n == text@.len(),
            i <= n,
            form_value(text@, "oauth_token"@) == prefer_later(
                form_value_from(text@, i as int, "oauth_token"@),
                opt_str_view(tok),
            ),
            form_value(text@, "oauth_token_secret"@) == prefer_later(
                form_value_from(text@, i as int, "oauth_token_secret"@),
                opt_str_view(sec),
            ),
        ensures
            form_value(text@, "oauth_token"@) == opt_str_view(tok),
            form_value(text@, "oauth_token_secret"@) == opt_str_view(sec),
        decreases n - i,
    {
        proof {
            reveal_strlit("oauth_token");
            reveal_strlit("oauth_token_secret");
        }
        let e = scan_nonamp(text, n, i);
        let k = scan_keysep(text, n, i);
        let keystr = text.substring_char(i, k);
        let val: String = if k < e {
            text.substring_char(k + 1, e).to_owned()
        } else {
            String::new()
        };
        assert(keystr@ == piece_key(text@, i as int));
        assert(val@ == piece_val(text@, i as int));
        if str_eq(keystr, "oauth_token") {
            tok = Some(val);
        } else if str_eq(keystr, "oauth_token_secret") {
            sec = Some(val);
        }
        if e == n {
            break;
        }
        i = e + 1;
    }
    match tok {
        None => Err("oauth_token".to_owned()),
        Some(t) => match sec {
            None => Err("oauth_token_secret".to_owned()),
            Some(s) => Ok(RequestToken { oauth_token: t, oauth_token_secret: s }),
        },
    }
}

} // verus!
