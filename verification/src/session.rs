//! The persisted session record: the access token and its absolute
//! expiry, written to disk as a small JSON object and read back at the
//! start of every login attempt.
use vstd::prelude::*;

use vstd::string::StringExecFns;

use crate::jsonio;
use crate::text;

verus! {

/// The session record: `{access_token, expires_at}`.
#[derive(Debug, PartialEq, Eq)]
pub struct SessionRecord {
    pub token: String,
    pub expires_at: u64,
}

/// Hexadecimal digit character (lowercase) for a value below sixteen.
pub open spec fn hex_digit(d: nat) -> char
    recommends
        d < 16,
{
    if d < 10 {
        text::digit_char(d)
    } else if d == 10 {
        'a'
    } else if d == 11 {
        'b'
    } else if d == 12 {
        'c'
    } else if d == 13 {
        'd'
    } else if d == 14 {
        'e'
    } else {
        'f'
    }
}

/// JSON string escaping of one character: quote and backslash escaped,
/// the named control characters shortened, other control characters in
/// `\u00..` form, everything else itself.
pub open spec fn escape_char(c: char) -> Seq<char> {
    if c == '"' {
        seq!['\\', '"']
    } else if c == '\\' {
        seq!['\\', '\\']
    } else if c == '\u{8}' {
        seq!['\\', 'b']
    } else if c == '\t' {
        seq!['\\', 't']
    } else if c == '\n' {
        seq!['\\', 'n']
    } else if c == '\u{c}' {
        seq!['\\', 'f']
    } else if c == '\r' {
        seq!['\\', 'r']
    } else if (c as u32) < 32 {
        seq!['\\', 'u', '0', '0', hex_digit((c as u32 / 16) as nat), hex_digit((c as u32 % 16) as nat)]
    } else {
        seq![c]
    }
}

/// JSON string escaping of a whole sequence.
pub open spec fn json_escape_spec(s: Seq<char>) -> Seq<char>
    decreases s.len(),
{
    if s.len() == 0 {
        Seq::empty()
    } else {
        json_escape_spec(s.drop_last()) + escape_char(s.last())
    }
}

fn hex_digit_exec(d: u32) -> (c: char)
    requires
        d < 16,
    ensures
        c == hex_digit(d as nat),
{
    match d {
        0 => '0',
        1 => '1',
        2 => '2',
        3 => '3',
        4 => '4',
        5 => '5',
        6 => '6',
        7 => '7',
        8 => '8',
        9 => '9',
        10 => 'a',
        11 => 'b',
        12 => 'c',
        13 => 'd',
        14 => 'e',
        _ => 'f',
    }
}

/// Escapes `s` for embedding in a JSON string literal.
pub fn json_escape(s: &str) -> (r: String)
    ensures
        r@ == json_escape_spec(s@),
{
    let n = s.unicode_len();
    let mut out = String::new();
    let mut i: usize = 0;
    while i < n
        invariant
            n == s@.len(),
            i <= n,
            out@ == json_escape_spec(s@.take(i as int)),
        decreases n - i,
    {
        let c = s.get_char(i);
        proof {
            s@.lemma_take_succ_push(i as int);
            assert(s@.take(i as int + 1).drop_last() =~= s@.take(i as int));
            assert(s@.take(i as int + 1).last() == s@[i as int]);
        }
        if c == '"' {
            text::push_char(&mut out, '\\');
            text::push_char(&mut out, '"');
        } else if c == '\\' {
            text::push_char(&mut out, '\\');
            text::push_char(&mut out, '\\');
        } else if c == '\u{8}' {
            text::push_char(&mut out, '\\');
            text::push_char(&mut out, 'b');
        } else if c == '\t' {
            text::push_char(&mut out, '\\');
            text::push_char(&mut out, 't');
        } else if c == '\n' {
            text::push_char(&mut out, '\\');
            text::push_char(&mut out, 'n');
        } else if c == '\u{c}' {
            text::push_char(&mut out, '\\');
            text::push_char(&mut out, 'f');
        } else if c == '\r' {
            text::push_char(&mut out, '\\');
            text::push_char(&mut out, 'r');
        } else if (c as u32) < 32 {
            text::push_char(&mut out, '\\');
            text::push_char(&mut out, 'u');
            text::push_char(&mut out, '0');
            text::push_char(&mut out, '0');
            text::push_char(&mut out, hex_digit_exec((c as u32) / 16));
            text::push_char(&mut out, hex_digit_exec((c as u32) % 16));
        } else {
            text::push_char(&mut out, c);
        }
        assert(out@ =~= json_escape_spec(s@.take(i as int)) + escape_char(s@[i as int]));
        i = i + 1;
    }
    proof {
        assert(s@.take(n as int) =~= s@);
    }
    out
}

/// The exact text of the session file written for a record: a pretty
/// two-field JSON object holding the expiry (as a decimal string) and
/// the token, in that order.
pub open spec fn session_json_spec(token: Seq<char>, expires_at: u64) -> Seq<char> {
    "{\n  \"expires_at\": \""@ + text::dec_str_of(expires_at as nat)
        + "\",\n  \"token\": \""@ + json_escape_spec(token) + "\"\n}"@
}

/// Renders the session record as the session-file text.
pub fn session_to_json(r: &SessionRecord) -> (s: String)
    ensures
        s@ == session_json_spec(r.token@, r.expires_at),
{
    let mut out = "{\n  \"expires_at\": \"".to_owned();
    let num = text::u64_to_string(r.expires_at);
    out.append(num.as_str());
    out.append("\",\n  \"token\": \"");
    let tok = json_escape(r.token.as_str());
    out.append(tok.as_str());
    out.append("\"\n}");
    out
}

/// What a session-file text denotes: the token and expiry recovered by
/// looking both fields up in the JSON object, stripping quotes from
/// their renderings, and reading the expiry as a decimal number.
pub open spec fn parse_session_spec(s: Seq<char>) -> Option<(Seq<char>, u64)> {
    match (jsonio::json_field(s, "token"@), jsonio::json_field(s, "expires_at"@)) {
        (Some(t), Some(e)) => {
            let digits = text::strip_quotes_spec(e);
            if digits.len() > 0 && text::all_digits(digits) && text::dec_val(digits)
                <= u64::MAX {
                Some((text::strip_quotes_spec(t), text::dec_val(digits) as u64))
            } else {
                None
            }
        },
        _ => None,
    }
}

/// Reads a session record back from the session-file text.
///
/// Extra fields in the file are ignored; a missing field or an expiry
/// that is not a decimal number makes the record invalid.
pub fn parse_session(contents: &str) -> (r: Option<SessionRecord>)
    ensures
        match r {
            Some(rec) => parse_session_spec(contents@) == Some((rec.token@, rec.expires_at)),
            None => parse_session_spec(contents@) is None,
        },
{
    let token_text = match jsonio::json_field_text(contents, "token") {
        Some(v) => v,
        None => {
            return None;
        },
    };
    let expires_text = match jsonio::json_field_text(contents, "expires_at") {
        Some(v) => v,
        None => {
            return None;
        },
    };
    let digits = text::strip_quotes(expires_text.as_str());
    let expires_at = match text::parse_u64(digits.as_str()) {
        Some(v) => v,
        None => {
            return None;
        },
    };
    let token = text::strip_quotes(token_text.as_str());
    Some(SessionRecord { token, expires_at })
}

/// Is the session-file text a valid record that is still fresh at `now`?
pub open spec fn session_fresh(file: Option<Seq<char>>, now: u64) -> bool {
    match file {
        Some(text) => match parse_session_spec(text) {
            Some((_, expires_at)) => expires_at >= now,
            None => false,
        },
        None => false,
    }
}

} // verus!
