//! Small verified text utilities: quote stripping, decimal numbers, and
//! appending single characters to a `String`.
use vstd::prelude::*;

verus! {

/// Relies on `String::push`: appends exactly one character at the end.
#[verifier::external_body]
pub(crate) fn push_char(s: &mut String, c: char)
    ensures
        final(s)@ == old(s)@.push(c),
{
    s.push(c);
}

/// The sequence `s` with every double-quote character removed.
pub open spec fn strip_quotes_spec(s: Seq<char>) -> Seq<char> {
    s.filter(|c: char| c != '"')
}

/// Returns `s` with every double-quote character removed.
pub fn strip_quotes(s: &str) -> (r: String)
    ensures
        r@ == strip_quotes_spec(s@),
{
    let n = s.unicode_len();
    let mut out = String::new();
    let mut i: usize = 0;
    while i < n
        invariant
            n == s@.len(),
            i <= n,
            out@ == strip_quotes_spec(s@.take(i as int)),
        decreases n - i,
    {
        let c = s.get_char(i);
        proof {
            s@.lemma_take_succ_push(i as int);
            reveal_with_fuel(Seq::filter, 2);
            assert(s@.take(i as int + 1).drop_last() =~= s@.take(i as int));
        }
        if c != '"' {
            push_char(&mut out, c);
        }
        i = i + 1;
    }
    proof {
        assert(s@.take(n as int) =~= s@);
    }
    out
}

/// Is `c` a decimal digit?
pub open spec fn is_digit(c: char) -> bool {
    '0' <= c && c <= '9'
}

/// Numeric value of a decimal digit character.
pub open spec fn digit_val(c: char) -> nat
    recommends
        is_digit(c),
{
    (c as nat - '0' as nat) as nat
}

/// Value of a sequence of decimal digit characters, most significant first.
pub open spec fn dec_val(s: Seq<char>) -> nat
    decreases s.len(),
{
    if s.len() == 0 {
        0
    } else {
        dec_val(s.drop_last()) * 10 + digit_val(s.last())
    }
}

/// Are all characters of `s` decimal digits?
pub open spec fn all_digits(s: Seq<char>) -> bool {
    forall|i: int| 0 <= i < s.len() ==> is_digit(#[trigger] s[i])
}

proof fn lemma_dec_val_step(s: Seq<char>, i: int)
    requires
        0 <= i < s.len(),
    ensures
        dec_val(s.take(i + 1)) == dec_val(s.take(i)) * 10 + digit_val(s[i]),
{
    s.lemma_take_succ_push(i);
    assert(s.take(i + 1).drop_last() =~= s.take(i));
    assert(s.take(i + 1).last() == s[i]);
}

proof fn lemma_dec_val_grows(s: Seq<char>, i: int)
    requires
        0 <= i < s.len(),
    ensures
        dec_val(s.take(i + 1)) >= dec_val(s.take(i)),
{
    lemma_dec_val_step(s, i);
    assert(dec_val(s.take(i)) * 10 >= dec_val(s.take(i))) by (nonlinear_arith);
}

proof fn lemma_dec_val_overflow_sticks(s: Seq<char>, i: int, bound: nat)
    requires
        0 <= i <= s.len(),
        dec_val(s.take(i)) > bound,
    ensures
        dec_val(s) > bound,
    decreases s.len() - i,
{
    if i == s.len() {
        assert(s.take(i) =~= s);
    } else {
        lemma_dec_val_grows(s, i);
        lemma_dec_val_overflow_sticks(s, i + 1, bound);
    }
}

/// Parses `s` as an unsigned decimal number.
///
/// Returns `Some` exactly when `s` is a nonempty, all-digit string whose
/// value fits in a `u64`.
pub fn parse_u64(s: &str) -> (r: Option<u64>)
    ensures
        match r {
            Some(v) => s@.len() > 0 && all_digits(s@) && v == dec_val(s@),
            None => !(s@.len() > 0 && all_digits(s@) && dec_val(s@) <= u64::MAX),
        },
{
    let n = s.unicode_len();
    if n == 0 {
        return None;
    }
    let mut acc: u64 = 0;
    let mut i: usize = 0;
    while i < n
        invariant
            n == s@.len(),
            i <= n,
            all_digits(s@.take(i as int)),
            acc == dec_val(s@.take(i as int)),
        decreases n - i,
    {
        let c = s.get_char(i);
        if !('0' <= c && c <= '9') {
            assert(!is_digit(s@[i as int]));
            return None;
        }
        let d: u64 = (c as u32 as u64) - 48;
        assert(d == digit_val(s@[i as int]));
        let scaled = match acc.checked_mul(10) {
            Some(x) => x,
            None => {
                proof {
                    lemma_dec_val_step(s@, i as int);
                    lemma_dec_val_overflow_sticks(s@, i as int + 1, u64::MAX as nat);
                }
                return None;
            },
        };
        let next = match scaled.checked_add(d) {
            Some(x) => x,
            None => {
                proof {
                    lemma_dec_val_step(s@, i as int);
                    lemma_dec_val_overflow_sticks(s@, i as int + 1, u64::MAX as nat);
                }
                return None;
            },
        };
        proof {
            lemma_dec_val_step(s@, i as int);
            s@.lemma_take_succ_push(i as int);
        }
        acc = next;
        i = i + 1;
    }
    proof {
        assert(s@.take(n as int) =~= s@);
    }
    Some(acc)
}

/// Decimal digit character for a value below ten.
pub open spec fn digit_char(d: nat) -> char
    recommends
        d < 10,
{
    if d == 0 {
        '0'
    } else if d == 1 {
        '1'
    } else if d == 2 {
        '2'
    } else if d == 3 {
        '3'
    } else if d == 4 {
        '4'
    } else if d == 5 {
        '5'
    } else if d == 6 {
        '6'
    } else if d == 7 {
        '7'
    } else if d == 8 {
        '8'
    } else {
        '9'
    }
}

/// Decimal rendering of a natural number, without leading zeros
/// (a single zero digit for zero itself).
pub open spec fn dec_str_of(n: nat) -> Seq<char>
    decreases n,
{
    if n < 10 {
        seq![digit_char(n)]
    } else {
        dec_str_of(n / 10).push(digit_char(n % 10))
    }
}

fn digit_char_exec(d: u64) -> (c: char)
    requires
        d < 10,
    ensures
        c == digit_char(d as nat),
{
    match d {
        0 => '0',
        1 => '1',
        2 => '2',
        3 => '3',
        4 => '4',
        5 => '5',
        6 => '6',
        7 => '7',
        8 => '8',
        _ => '9',
    }
}

/// Renders `n` in decimal.
pub fn u64_to_string(n: u64) -> (r: String)
    ensures
        r@ == dec_str_of(n as nat),
    decreases n,
{
    if n < 10 {
        let mut out = String::new();
        push_char(&mut out, digit_char_exec(n));
        proof {
            assert(out@ =~= seq![digit_char(n as nat)]);
        }
        out
    } else {
        let mut out = u64_to_string(n / 10);
        push_char(&mut out, digit_char_exec(n % 10));
        out
    }
}

} // verus!
