//! Verified extraction of values embedded in the identity provider's HTML:
//! the CSRF token of the login form, the page title, and the service
//! ticket of the post-login redirect.
//!
//! Each pattern is specified as a predicate on match positions plus a
//! capture function, and an extractor returns the capture of the leftmost
//! match, or a distinguishable error when no position matches.
use vstd::prelude::*;

verus! {

broadcast use vstd::string::group_string_axioms;

/// Failure of a pattern scrape; each extractor reports its own kind.
#[derive(Debug, PartialEq, Eq)]
pub enum ScrapeError {
    CsrfNotFound,
    TitleNotFound,
    TicketNotFound,
}

/// Does the literal `pat` occur in `s` starting at position `i`?
pub open spec fn lit_at(s: Seq<char>, pat: Seq<char>, i: int) -> bool {
    0 <= i && i + pat.len() <= s.len() && s.subrange(i, i + pat.len()) == pat
}

/// First position at or after `from` where `pat` occurs in `s`;
/// `s.len()` when there is none at or after `from`.
pub open spec fn find_from(s: Seq<char>, pat: Seq<char>, from: int) -> int
    decreases s.len() - from when 0 <= from <= s.len() && pat.len() > 0
{
    if from + pat.len() > s.len() {
        s.len() as int
    } else if lit_at(s, pat, from) {
        from
    } else {
        find_from(s, pat, from + 1)
    }
}

/// `find_from` returns the leftmost occurrence at or after `from`.
pub proof fn lemma_find_from(s: Seq<char>, pat: Seq<char>, from: int)
    requires
        0 <= from <= s.len(),
        pat.len() > 0,
    ensures
        from <= find_from(s, pat, from) <= s.len(),
        forall|j: int| from <= j < find_from(s, pat, from) ==> !lit_at(s, pat, j),
        find_from(s, pat, from) < s.len() ==> lit_at(s, pat, find_from(s, pat, from)),
    decreases s.len() - from,
{
    if from + pat.len() > s.len() {
        assert forall|j: int| from <= j < s.len() implies !lit_at(s, pat, j) by {
            assert(j + pat.len() > s.len());
        }
    } else if lit_at(s, pat, from) {
    } else {
        lemma_find_from(s, pat, from + 1);
    }
}

/// Does `pat` occur anywhere in `s`?
pub open spec fn contains_lit(s: Seq<char>, pat: Seq<char>) -> bool {
    exists|i: int| lit_at(s, pat, i)
}

/// Is `c` an ASCII whitespace character as the login-form pattern allows
/// between the field name and its value?
pub open spec fn ws_char(c: char) -> bool {
    c == ' ' || c == '\t' || c == '\n' || c == '\r' || c == '\u{b}' || c == '\u{c}'
}

/// Is `c` an ASCII word character (letter, digit or underscore)?
pub open spec fn word_char(c: char) -> bool {
    ('a' <= c && c <= 'z') || ('A' <= c && c <= 'Z') || ('0' <= c && c <= '9') || c == '_'
}

/// End of the whitespace run beginning at `i`: the first position at or
/// after `i` holding a non-whitespace character, or the end of `s`.
pub open spec fn ws_run(s: Seq<char>, i: int) -> int
    decreases s.len() - i when 0 <= i <= s.len()
{
    if i >= s.len() {
        i
    } else if !ws_char(s[i]) {
        i
    } else {
        ws_run(s, i + 1)
    }
}

/// End of the word-character run beginning at `i`.
pub open spec fn word_run(s: Seq<char>, i: int) -> int
    decreases s.len() - i when 0 <= i <= s.len()
{
    if i >= s.len() {
        i
    } else if !word_char(s[i]) {
        i
    } else {
        word_run(s, i + 1)
    }
}

/// End of the run of non-newline characters beginning at `i`.
pub open spec fn line_run(s: Seq<char>, i: int) -> int
    decreases s.len() - i when 0 <= i <= s.len()
{
    if i >= s.len() {
        i
    } else if s[i] == '\n' {
        i
    } else {
        line_run(s, i + 1)
    }
}

/// End of the run of non-quote characters beginning at `i`.
pub open spec fn nonquote_run(s: Seq<char>, i: int) -> int
    decreases s.len() - i when 0 <= i <= s.len()
{
    if i >= s.len() {
        i
    } else if s[i] == '"' {
        i
    } else {
        nonquote_run(s, i + 1)
    }
}

// ------------------------------------------------------------------
// The CSRF pattern: the literal `name="_csrf"`, at least one whitespace
// character, the literal `value="`, then a maximal nonempty run of word
// characters, which is the capture.
// ------------------------------------------------------------------

/// Does the whole CSRF pattern match in `s` at position `i`?
pub open spec fn csrf_match_at(s: Seq<char>, i: int) -> bool {
    let w = ws_run(s, i + 12);
    &&& lit_at(s, "name=\"_csrf\""@, i)
    &&& w > i + 12
    &&& lit_at(s, "value=\""@, w)
    &&& w + 7 < s.len()
    &&& word_char(s[w + 7])
}

/// The captured CSRF token of a match at `i`.
pub open spec fn csrf_capture(s: Seq<char>, i: int) -> Seq<char> {
    let w = ws_run(s, i + 12);
    s.subrange(w + 7, word_run(s, w + 7))
}

/// Capture of the leftmost CSRF match at or after `i`, if any.
pub open spec fn csrf_scan(s: Seq<char>, i: int) -> Option<Seq<char>>
    decreases s.len() - i when 0 <= i <= s.len()
{
    if i >= s.len() {
        None
    } else if csrf_match_at(s, i) {
        Some(csrf_capture(s, i))
    } else {
        csrf_scan(s, i + 1)
    }
}

/// The CSRF token embedded in `s`: the capture of the leftmost match.
pub open spec fn csrf_of(s: Seq<char>) -> Option<Seq<char>> {
    csrf_scan(s, 0)
}

proof fn lemma_csrf_scan_skip(s: Seq<char>, a: int, b: int)
    requires
        0 <= a <= b <= s.len(),
        forall|j: int| a <= j < b ==> !csrf_match_at(s, j),
    ensures
        csrf_scan(s, a) == csrf_scan(s, b),
    decreases b - a,
{
    if a < b {
        lemma_csrf_scan_skip(s, a + 1, b);
    }
}

// ------------------------------------------------------------------
// The title pattern: the literal `<title>`, then a nonempty run of
// non-newline characters (the capture, as short as possible), then the
// literal `</title>`.
// ------------------------------------------------------------------

/// Does the whole title pattern match in `s` at position `i`?
pub open spec fn title_match_at(s: Seq<char>, i: int) -> bool {
    &&& lit_at(s, "<title>"@, i)
    &&& i + 16 <= s.len()
    &&& {
        let e = find_from(s, "</title>"@, i + 8);
        &&& lit_at(s, "</title>"@, e)
        &&& e <= line_run(s, i + 7)
    }
}

/// The captured title of a match at `i`.
pub open spec fn title_capture(s: Seq<char>, i: int) -> Seq<char> {
    s.subrange(i + 7, find_from(s, "</title>"@, i + 8))
}

/// Capture of the leftmost title match at or after `i`, if any.
pub open spec fn title_scan(s: Seq<char>, i: int) -> Option<Seq<char>>
    decreases s.len() - i when 0 <= i <= s.len()
{
    if i >= s.len() {
        None
    } else if title_match_at(s, i) {
        Some(title_capture(s, i))
    } else {
        title_scan(s, i + 1)
    }
}

/// The page title embedded in `s`: the capture of the leftmost match.
pub open spec fn title_of(s: Seq<char>) -> Option<Seq<char>> {
    title_scan(s, 0)
}

proof fn lemma_title_scan_skip(s: Seq<char>, a: int, b: int)
    requires
        0 <= a <= b <= s.len(),
        forall|j: int| a <= j < b ==> !title_match_at(s, j),
    ensures
        title_scan(s, a) == title_scan(s, b),
    decreases b - a,
{
    if a < b {
        lemma_title_scan_skip(s, a + 1, b);
    }
}

// ------------------------------------------------------------------
// The ticket pattern: the literal `embed?ticket=`, then a maximal
// nonempty run of non-quote characters (the capture), then a quote.
// ------------------------------------------------------------------

/// Does the whole ticket pattern match in `s` at position `i`?
pub open spec fn ticket_match_at(s: Seq<char>, i: int) -> bool {
    let q = nonquote_run(s, i + 13);
    &&& lit_at(s, "embed?ticket="@, i)
    &&& q > i + 13
    &&& q < s.len()
}

/// The captured ticket of a match at `i`.
pub open spec fn ticket_capture(s: Seq<char>, i: int) -> Seq<char> {
    s.subrange(i + 13, nonquote_run(s, i + 13))
}

/// Capture of the leftmost ticket match at or after `i`, if any.
pub open spec fn ticket_scan(s: Seq<char>, i: int) -> Option<Seq<char>>
    decreases s.len() - i when 0 <= i <= s.len()
{
    if i >= s.len() {
        None
    } else if ticket_match_at(s, i) {
        Some(ticket_capture(s, i))
    } else {
        ticket_scan(s, i + 1)
    }
}

/// The service ticket embedded in `s`: the capture of the leftmost match.
pub open spec fn ticket_of(s: Seq<char>) -> Option<Seq<char>> {
    ticket_scan(s, 0)
}

proof fn lemma_ticket_scan_skip(s: Seq<char>, a: int, b: int)
    requires
        0 <= a <= b <= s.len(),
        forall|j: int| a <= j < b ==> !ticket_match_at(s, j),
    ensures
        ticket_scan(s, a) == ticket_scan(s, b),
    decreases b - a,
{
    if a < b {
        lemma_ticket_scan_skip(s, a + 1, b);
    }
}

// ------------------------------------------------------------------
// Executable scanning helpers.
// ------------------------------------------------------------------

/// Does `pat` occur in `s` at position `i`?
pub(crate) fn lit_match(s: &str, n: usize, i: usize, pat: &str) -> (r: bool)
    requires
        n == s@.len(),
        i <= n,
    ensures
        r == lit_at(s@, pat@, i as int),
{
    let m = pat.unicode_len();
    if m > n - i {
        assert(!lit_at(s@, pat@, i as int));
        return false;
    }
    let mut k: usize = 0;
    while k < m
        invariant
            n == s@.len(),
            m == pat@.len(),
            i + m <= n,
            k <= m,
            forall|t: int| 0 <= t < k ==> s@[i + t] == pat@[t],
        decreases m - k,
    {
        if s.get_char(i + k) != pat.get_char(k) {
            assert(!lit_at(s@, pat@, i as int)) by {
                if lit_at(s@, pat@, i as int) {
                    assert(s@.subrange(i as int, i + m as int)[k as int] == pat@[k as int]);
                }
            }
            return false;
        }
        k = k + 1;
    }
    assert(s@.subrange(i as int, i + m as int) =~= pat@);
    true
}

/// Leftmost occurrence of `pat` in `s` at or after `from`, or `n` if none.
pub(crate) fn find_pat(s: &str, n: usize, pat: &str, from: usize) -> (r: usize)
    requires
        n == s@.len(),
        from <= n,
        pat@.len() > 0,
    ensures
        r as int == find_from(s@, pat@, from as int),
        from <= r <= n,
{
    let m = pat.unicode_len();
    if m > n - from {
        assert(find_from(s@, pat@, from as int) == n as int);
        return n;
    }
    let mut j = from;
    while j <= n - m
        invariant
            n == s@.len(),
            m == pat@.len(),
            0 < m <= n,
            from <= j <= n - m + 1,
            find_from(s@, pat@, from as int) == find_from(s@, pat@, j as int),
        decreases n - j,
    {
        if lit_match(s, n, j, pat) {
            assert(find_from(s@, pat@, j as int) == j as int);
            return j;
        }
        j = j + 1;
    }
    assert(find_from(s@, pat@, j as int) == n as int);
    n
}

/// Does `pat` occur anywhere in `s`?
pub fn contains_pat(s: &str, pat: &str) -> (r: bool)
    requires
        pat@.len() > 0,
    ensures
        r == contains_lit(s@, pat@),
{
    let n = s.unicode_len();
    let pos = find_pat(s, n, pat, 0);
    proof {
        lemma_find_from(s@, pat@, 0);
    }
    if pos < n {
        assert(lit_at(s@, pat@, pos as int));
        true
    } else {
        assert forall|i: int| !lit_at(s@, pat@, i) by {
            if 0 <= i < n {
            } else {
                assert(!(0 <= i && i + pat@.len() <= s@.len()));
            }
        }
        false
    }
}

/// Are the two strings equal character for character?
pub(crate) fn str_eq(a: &str, b: &str) -> (r: bool)
    ensures
        r == (a@ == b@),
{
    let n = a.unicode_len();
    let m = b.unicode_len();
    if n != m {
        return false;
    }
    if lit_match(a, n, 0, b) {
        assert(a@.subrange(0, n as int) =~= a@);
        true
    } else {
        assert(a@.subrange(0, n as int) =~= a@);
        false
    }
}

fn scan_ws(s: &str, n: usize, from: usize) -> (r: usize)
    requires
        n == s@.len(),
        from <= n,
    ensures
        r as int == ws_run(s@, from as int),
        from <= r <= n,
{
    let mut j = from;
    while j < n
        invariant
            n == s@.len(),
            from <= j <= n,
            ws_run(s@, from as int) == ws_run(s@, j as int),
        decreases n - j,
    {
        let c = s.get_char(j);
        if !(c == ' ' || c == '\t' || c == '\n' || c == '\r' || c == '\u{b}' || c == '\u{c}') {
            return j;
        }
        j = j + 1;
    }
    j
}

fn scan_word(s: &str, n: usize, from: usize) -> (r: usize)
    requires
        n == s@.len(),
        from <= n,
    ensures
        r as int == word_run(s@, from as int),
        from <= r <= n,
{
    let mut j = from;
    while j < n
        invariant
            n == s@.len(),
            from <= j <= n,
            word_run(s@, from as int) == word_run(s@, j as int),
        decreases n - j,
    {
        let c = s.get_char(j);
        if !(('a' <= c && c <= 'z') || ('A' <= c && c <= 'Z') || ('0' <= c && c <= '9') || c
            == '_') {
            return j;
        }
        j = j + 1;
    }
    j
}

fn scan_line(s: &str, n: usize, from: usize) -> (r: usize)
    requires
        n == s@.len(),
        from <= n,
    ensures
        r as int == line_run(s@, from as int),
        from <= r <= n,
{
    let mut j = from;
    while j < n
        invariant
            n == s@.len(),
            from <= j <= n,
            line_run(s@, from as int) == line_run(s@, j as int),
        decreases n - j,
    {
        if s.get_char(j) == '\n' {
            return j;
        }
        j = j + 1;
    }
    j
}

fn scan_nonquote(s: &str, n: usize, from: usize) -> (r: usize)
    requires
        n == s@.len(),
        from <= n,
    ensures
        r as int == nonquote_run(s@, from as int),
        from <= r <= n,
{
    let mut j = from;
    while j < n
        invariant
            n == s@.len(),
            from <= j <= n,
            nonquote_run(s@, from as int) == nonquote_run(s@, j as int),
        decreases n - j,
    {
        if s.get_char(j) == '"' {
            return j;
        }
        j = j + 1;
    }
    j
}

// ------------------------------------------------------------------
// The extractors.
// ------------------------------------------------------------------

/// Extracts the CSRF token of the login form: the exact capture of the
/// leftmost occurrence of the CSRF pattern, or a distinguishable error
/// when the page holds no such pattern.
pub fn extract_csrf(html: &str) -> (r: Result<String, ScrapeError>)
    ensures
        match r {
            Ok(token) => csrf_of(html@) == Some(token@),
            Err(e) => e == ScrapeError::CsrfNotFound && csrf_of(html@) is None,
        },
{
    let n = html.unicode_len();
    let mut from: usize = 0;
    while from < n
        invariant
            n == html@.len(),
            from <= n,
            csrf_of(html@) == csrf_scan(html@, from as int),
        decreases n - from,
    {
        proof {
            reveal_strlit("name=\"_csrf\"");
            reveal_strlit("value=\"");
        }
        let pos = find_pat(html, n, "name=\"_csrf\"", from);
        proof {
            lemma_find_from(html@, "name=\"_csrf\""@, from as int);
            lemma_csrf_scan_skip(html@, from as int, pos as int);
        }
        if pos == n {
            return Err(ScrapeError::CsrfNotFound);
        }
        assert(lit_at(html@, "name=\"_csrf\""@, pos as int));
        let w = scan_ws(html, n, pos + 12);
        if w > pos + 12 && lit_match(html, n, w, "value=\"") && w + 7 < n {
            let c = html.get_char(w + 7);
            if ('a' <= c && c <= 'z') || ('A' <= c && c <= 'Z') || ('0' <= c && c <= '9') || c
                == '_' {
                let e = scan_word(html, n, w + 7);
                let cap = html.substring_char(w + 7, e);
                assert(csrf_match_at(html@, pos as int));
                assert(cap@ == csrf_capture(html@, pos as int));
                return Ok(cap.to_owned());
            }
        }
        assert(!csrf_match_at(html@, pos as int));
        proof {
            lemma_csrf_scan_skip(html@, pos as int, pos as int + 1);
        }
        from = pos + 1;
    }
    Err(ScrapeError::CsrfNotFound)
}

/// Extracts the page title: the exact capture of the leftmost occurrence
/// of the title pattern, or a distinguishable error when there is none.
pub fn extract_title(html: &str) -> (r: Result<String, ScrapeError>)
    ensures
        match r {
            Ok(title) => title_of(html@) == Some(title@),
            Err(e) => e == ScrapeError::TitleNotFound && title_of(html@) is None,
        },
{
    let n = html.unicode_len();
    let mut from: usize = 0;
    while from < n
        invariant
            n == html@.len(),
            from <= n,
            title_of(html@) == title_scan(html@, from as int),
        decreases n - from,
    {
        proof {
            reveal_strlit("<title>");
            reveal_strlit("</title>");
        }
        let pos = find_pat(html, n, "<title>", from);
        proof {
            lemma_find_from(html@, "<title>"@, from as int);
            lemma_title_scan_skip(html@, from as int, pos as int);
        }
        if pos == n {
            return Err(ScrapeError::TitleNotFound);
        }
        assert(lit_at(html@, "<title>"@, pos as int));
        if n - pos >= 16 {
            let e = find_pat(html, n, "</title>", pos + 8);
            proof {
                lemma_find_from(html@, "</title>"@, pos as int + 8);
            }
            let d = scan_line(html, n, pos + 7);
            if e < n && e <= d {
                assert(lit_at(html@, "</title>"@, e as int));
                assert(title_match_at(html@, pos as int));
                let cap = html.substring_char(pos + 7, e);
                assert(cap@ == title_capture(html@, pos as int));
                return Ok(cap.to_owned());
            }
            assert(!title_match_at(html@, pos as int)) by {
                if title_match_at(html@, pos as int) {
                    assert(lit_at(
                        html@,
                        "</title>"@,
                        find_from(html@, "</title>"@, pos as int + 8),
                    ));
                }
            }
        } else {
            assert(!title_match_at(html@, pos as int));
        }
        proof {
            lemma_title_scan_skip(html@, pos as int, pos as int + 1);
        }
        from = pos + 1;
    }
    Err(ScrapeError::TitleNotFound)
}

/// Extracts the service ticket of the embedded redirect: the exact
/// capture of the leftmost occurrence of the ticket pattern, or a
/// distinguishable error when there is none.
pub fn extract_ticket(html: &str) -> (r: Result<String, ScrapeError>)
    ensures
        match r {
            Ok(ticket) => ticket_of(html@) == Some(ticket@),
            Err(e) => e == ScrapeError::TicketNotFound && ticket_of(html@) is None,
        },
{
    let n = html.unicode_len();
    let mut from: usize = 0;
    while from < n
        invariant
            n == html@.len(),
            from <= n,
            ticket_of(html@) == ticket_scan(html@, from as int),
        decreases n - from,
    {
        proof {
            reveal_strlit("embed?ticket=");
        }
        let pos = find_pat(html, n, "embed?ticket=", from);
        proof {
            lemma_find_from(html@, "embed?ticket="@, from as int);
            lemma_ticket_scan_skip(html@, from as int, pos as int);
        }
        if pos == n {
            return Err(ScrapeError::TicketNotFound);
        }
        assert(lit_at(html@, "embed?ticket="@, pos as int));
        let q = scan_nonquote(html, n, pos + 13);
        if q > pos + 13 && q < n {
            assert(ticket_match_at(html@, pos as int));
            let cap = html.substring_char(pos + 13, q);
            assert(cap@ == ticket_capture(html@, pos as int));
            return Ok(cap.to_owned());
        }
        assert(!ticket_match_at(html@, pos as int));
        proof {
            lemma_ticket_scan_skip(html@, pos as int, pos as int + 1);
        }
        from = pos + 1;
    }
    Err(ScrapeError::TicketNotFound)
}

} // verus!
