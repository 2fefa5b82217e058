//! Progress parsing: stateless classifiers that turn one line of the external
//! tool's output into structured updates. Every line is treated as untrusted,
//! partially structured text: an unmatched or malformed line yields no update,
//! never an error.

use vstd::prelude::*;
use crate::strutil::{
    find_sub, str_eq,
    contains_sub, digit_val, digits_val, is_digit, digit, matches_at, occurs_at,
};

verus! {

/// Least position `i <= j < n` satisfying `p`, scanning upward.
pub open spec fn first_from(n: int, p: spec_fn(int) -> bool, i: int) -> Option<int>
    decreases n - i when i <= n
{
    if i >= n {
        None
    } else if p(i) {
        Some(i)
    } else {
        first_from(n, p, i + 1)
    }
}

/// Greatest position `0 <= j < n` satisfying `p`, scanning downward.
pub open spec fn last_below(n: int, p: spec_fn(int) -> bool) -> Option<int>
    decreases n when n >= 0
{
    if n <= 0 {
        None
    } else if p(n - 1) {
        Some(n - 1)
    } else {
        last_below(n - 1, p)
    }
}

/// What `first_from` returns: the least match at or beyond `i`, if any.
pub proof fn lemma_first_from(n: int, p: spec_fn(int) -> bool, i: int)
    requires
        i <= n,
    ensures
        match first_from(n, p, i) {
            Some(j) => i <= j < n && p(j) && forall|k: int| i <= k < j ==> !(#[trigger] p(k)),
            None => forall|k: int| i <= k < n ==> !(#[trigger] p(k)),
        },
    decreases n - i,
{
    if i < n && !p(i) {
        lemma_first_from(n, p, i + 1);
    }
}

/// What `last_below` returns: the greatest match below `n`, if any.
pub proof fn lemma_last_below(n: int, p: spec_fn(int) -> bool)
    requires
        n >= 0,
    ensures
        match last_below(n, p) {
            Some(j) => 0 <= j < n && p(j) && forall|k: int| j < k < n ==> !(#[trigger] p(k)),
            None => forall|k: int| 0 <= k < n ==> !(#[trigger] p(k)),
        },
    decreases n,
{
    if n > 0 && !p(n - 1) {
        lemma_last_below(n - 1, p);
    }
}

/// End of the digit run that starts at `j`: the first non-digit position.
pub open spec fn digit_run_end(s: Seq<char>, j: int) -> int
    decreases s.len() - j when 0 <= j <= s.len()
{
    if j >= s.len() || !is_digit(s[j]) {
        j
    } else {
        digit_run_end(s, j + 1)
    }
}

/// A run of digits from `j` to `k` with a non-digit (or the end) at `k`
/// pins `digit_run_end` down to `k`.
pub proof fn lemma_digit_run_end(s: Seq<char>, j: int, k: int)
    requires
        0 <= j <= k <= s.len(),
        forall|m: int| j <= m < k ==> is_digit(#[trigger] s[m]),
        k == s.len() || !is_digit(s[k]),
    ensures
        digit_run_end(s, j) == k,
    decreases k - j,
{
    if j < k {
        lemma_digit_run_end(s, j + 1, k);
    }
}

/// Bounds of `digit_run_end`, and that the run is all digits.
pub proof fn lemma_digit_run_bounds(s: Seq<char>, j: int)
    requires
        0 <= j <= s.len(),
    ensures
        j <= digit_run_end(s, j) <= s.len(),
        forall|m: int| j <= m < digit_run_end(s, j) ==> is_digit(#[trigger] s[m]),
        digit_run_end(s, j) == s.len() || !is_digit(s[digit_run_end(s, j)]),
    decreases s.len() - j,
{
    if j < s.len() && is_digit(s[j]) {
        lemma_digit_run_bounds(s, j + 1);
    }
}

/// The literal phrase that announces a playlist item.
pub open spec fn item_phrase() -> Seq<char> {
    "Downloading item "@
}

/// The literal separator between the item index and the item count.
pub open spec fn of_phrase() -> Seq<char> {
    " of "@
}

/// A playlist marker stands at `i`: the item phrase, a run of digits, the
/// separator, and a second run of digits.
pub open spec fn playlist_match_at(s: Seq<char>, i: int) -> bool {
    occurs_at(s, item_phrase(), i) && {
        let j = i + item_phrase().len();
        let j1 = digit_run_end(s, j);
        j1 > j && occurs_at(s, of_phrase(), j1) && digit_run_end(
            s,
            j1 + of_phrase().len(),
        ) > j1 + of_phrase().len()
    }
}

/// The playlist matcher as a predicate on positions of `s`.
pub open spec fn playlist_pred(s: Seq<char>) -> spec_fn(int) -> bool {
    |i: int| playlist_match_at(s, i)
}

/// Position of the first playlist marker of the line, if any.
pub open spec fn spec_playlist_pos(s: Seq<char>) -> Option<int> {
    first_from(s.len() as int, playlist_pred(s), 0)
}

/// What `spec_playlist_pos` returns: the least playlist marker, if any.
pub proof fn lemma_playlist_pos(s: Seq<char>)
    ensures
        match spec_playlist_pos(s) {
            Some(j) => 0 <= j < s.len() && playlist_match_at(s, j) && forall|k: int|
                0 <= k < j ==> !playlist_match_at(s, k),
            None => forall|k: int| 0 <= k < s.len() ==> !playlist_match_at(s, k),
        },
{
    lemma_first_from(s.len() as int, playlist_pred(s), 0);
    match spec_playlist_pos(s) {
        Some(j) => {
            assert(playlist_pred(s)(j));
            assert forall|k: int| 0 <= k < j implies !playlist_match_at(s, k) by {
                assert(!playlist_pred(s)(k));
            }
        },
        None => {
            assert forall|k: int| 0 <= k < s.len() implies !playlist_match_at(s, k) by {
                assert(!playlist_pred(s)(k));
            }
        },
    }
}

/// Value a digit run carries when it fits a `u32`, as the tool's numbers do.
pub open spec fn u32_of_digits(s: Seq<char>) -> Option<u32> {
    if digits_val(s) <= u32::MAX {
        Some(digits_val(s) as u32)
    } else {
        None
    }
}

/// The playlist index the line reports: the first number of the first
/// playlist marker, when it fits.
pub open spec fn spec_playlist_index(s: Seq<char>) -> Option<u32> {
    match spec_playlist_pos(s) {
        None => None,
        Some(i) => {
            let j = i + item_phrase().len();
            let j1 = digit_run_end(s, j);
            u32_of_digits(s.subrange(j, j1))
        },
    }
}

/// The playlist count the line reports: the second number of the first
/// playlist marker, when it fits.
pub open spec fn spec_playlist_count(s: Seq<char>) -> Option<u32> {
    match spec_playlist_pos(s) {
        None => None,
        Some(i) => {
            let j = i + item_phrase().len();
            let j1 = digit_run_end(s, j);
            let j2 = j1 + of_phrase().len();
            u32_of_digits(s.subrange(j2, digit_run_end(s, j2)))
        },
    }
}

/// Scans the digit run that starts at `j` and accumulates its value, or
/// notes that the value does not fit a `u32`.
fn scan_number(s: &str, slen: usize, j: usize) -> (r: (usize, Option<u32>))
    requires
        slen == s@.len(),
        j <= slen,
    ensures
        r.0 == digit_run_end(s@, j as int),
        j <= r.0 <= slen,
        r.1 == u32_of_digits(s@.subrange(j as int, r.0 as int)),
{
    let mut k: usize = j;
    let mut val: u64 = 0;
    let mut fits: bool = true;
    loop
        invariant
            slen == s@.len(),
            j <= k <= slen,
            forall|m: int| j <= m < k ==> is_digit(#[trigger] s@[m]),
            fits ==> val == digits_val(s@.subrange(j as int, k as int))
                && val <= u32::MAX,
            !fits ==> digits_val(s@.subrange(j as int, k as int)) > u32::MAX,
        ensures
            slen == s@.len(),
            j <= k <= slen,
            forall|m: int| j <= m < k ==> is_digit(#[trigger] s@[m]),
            k == slen || !is_digit(s@[k as int]),
            fits ==> val == digits_val(s@.subrange(j as int, k as int))
                && val <= u32::MAX,
            !fits ==> digits_val(s@.subrange(j as int, k as int)) > u32::MAX,
        decreases slen - k,
    {
        if k == slen {
            break;
        }
        let c = s.get_char(k);
        if !digit(c) {
            break;
        }
        proof {
            let pre = s@.subrange(j as int, k as int);
            let post = s@.subrange(j as int, k + 1);
            assert(post.drop_last() =~= pre);
            assert(post.last() == s@[k as int]);
            if !fits {
                assert(digits_val(post) == digits_val(pre) * 10 + digit_val(s@[k as int]));
            }
        }
        let d: u64 = (c as u32 as u64) - 48;
        if fits {
            let next = val * 10 + d;
            if next > 0xffff_ffff {
                fits = false;
            } else {
                val = next;
            }
        }
        k += 1;
    }
    proof {
        lemma_digit_run_end(s@, j as int, k as int);
    }
    if fits {
        (k, Some(val as u32))
    } else {
        (k, None)
    }
}

/// Whether a playlist marker stands at `i` of the line.
fn playlist_matches_at(s: &str, slen: usize, i: usize) -> (r: bool)
    requires
        slen == s@.len(),
        i <= slen,
    ensures
        r == playlist_match_at(s@, i as int),
{
    proof {
        reveal_strlit("Downloading item ");
        reveal_strlit(" of ");
        assert(item_phrase().len() == 17);
        assert(of_phrase().len() == 4);
    }
    if !matches_at(s, slen, "Downloading item ", i) {
        return false;
    }
    let j = i + 17;
    let (j1, _) = scan_number(s, slen, j);
    if j1 == j {
        return false;
    }
    if !matches_at(s, slen, " of ", j1) {
        return false;
    }
    let j2 = j1 + 4;
    let (j3, _) = scan_number(s, slen, j2);
    j3 > j2
}

/// Extracts the playlist marker of a line: the one-based index of the item
/// being worked on and the total item count, each reported only when its
/// number fits. A line without a full marker yields nothing.
pub fn parse_playlist_marker(line: &str) -> (r: Option<(Option<u32>, Option<u32>)>)
    ensures
        match r {
            Some((idx, cnt)) => spec_playlist_pos(line@) is Some && idx
                == spec_playlist_index(line@) && cnt == spec_playlist_count(line@),
            None => spec_playlist_pos(line@) is None,
        },
{
    let slen = line.unicode_len();
    let mut i: usize = 0;
    while i < slen
        invariant
            slen == line@.len(),
            i <= slen,
            forall|j: int| 0 <= j < i ==> !playlist_match_at(line@, j),
        decreases slen - i,
    {
        if playlist_matches_at(line, slen, i) {
            proof {
                reveal_strlit("Downloading item ");
                reveal_strlit(" of ");
                assert(item_phrase().len() == 17);
                assert(of_phrase().len() == 4);
                lemma_playlist_pos(line@);
            }
            let j = i + 17;
            let (j1, idx) = scan_number(line, slen, j);
            let j2 = j1 + 4;
            let (_, cnt) = scan_number(line, slen, j2);
            return Some((idx, cnt));
        }
        i += 1;
    }
    proof {
        lemma_playlist_pos(line@);
    }
    None
}

/// `c` is a whitespace character as the progress grammar understands it.
pub open spec fn is_ws(c: char) -> bool {
    c == ' ' || c == '\t' || c == '\n' || c == '\r'
}

/// End of the whitespace run that starts at `j`.
pub open spec fn ws_run_end(s: Seq<char>, j: int) -> int
    decreases s.len() - j when 0 <= j <= s.len()
{
    if j >= s.len() || !is_ws(s[j]) {
        j
    } else {
        ws_run_end(s, j + 1)
    }
}

/// End of the non-whitespace run that starts at `j`.
pub open spec fn nonws_run_end(s: Seq<char>, j: int) -> int
    decreases s.len() - j when 0 <= j <= s.len()
{
    if j >= s.len() || is_ws(s[j]) {
        j
    } else {
        nonws_run_end(s, j + 1)
    }
}

/// A maximal whitespace run from `j` to `k` pins `ws_run_end` down to `k`.
pub proof fn lemma_ws_run_end(s: Seq<char>, j: int, k: int)
    requires
        0 <= j <= k <= s.len(),
        forall|m: int| j <= m < k ==> is_ws(#[trigger] s[m]),
        k == s.len() || !is_ws(s[k]),
    ensures
        ws_run_end(s, j) == k,
    decreases k - j,
{
    if j < k {
        lemma_ws_run_end(s, j + 1, k);
    }
}

/// A maximal non-whitespace run from `j` to `k` pins `nonws_run_end` to `k`.
pub proof fn lemma_nonws_run_end(s: Seq<char>, j: int, k: int)
    requires
        0 <= j <= k <= s.len(),
        forall|m: int| j <= m < k ==> !is_ws(#[trigger] s[m]),
        k == s.len() || is_ws(s[k]),
    ensures
        nonws_run_end(s, j) == k,
    decreases k - j,
{
    if j < k {
        lemma_nonws_run_end(s, j + 1, k);
    }
}

/// `c` is whitespace for the progress grammar.
pub fn ws(c: char) -> (r: bool)
    ensures
        r == is_ws(c),
{
    c == ' ' || c == '\t' || c == '\n' || c == '\r'
}

/// Scans to the end of the whitespace run that starts at `j`.
pub(crate) fn scan_ws(s: &str, slen: usize, j: usize) -> (r: usize)
    requires
        slen == s@.len(),
        j <= slen,
    ensures
        r == ws_run_end(s@, j as int),
        j <= r <= slen,
        r == slen || !is_ws(s@[r as int]),
{
    let mut k: usize = j;
    while k < slen
        invariant
            slen == s@.len(),
            j <= k <= slen,
            forall|m: int| j <= m < k ==> is_ws(#[trigger] s@[m]),
        decreases slen - k,
    {
        if !ws(s.get_char(k)) {
            proof {
                lemma_ws_run_end(s@, j as int, k as int);
            }
            return k;
        }
        k += 1;
    }
    proof {
        lemma_ws_run_end(s@, j as int, k as int);
    }
    k
}

/// Scans to the end of the non-whitespace run that starts at `j`.
pub(crate) fn scan_nonws(s: &str, slen: usize, j: usize) -> (r: usize)
    requires
        slen == s@.len(),
        j <= slen,
    ensures
        r == nonws_run_end(s@, j as int),
        j <= r <= slen,
        r == slen || is_ws(s@[r as int]),
{
    let mut k: usize = j;
    while k < slen
        invariant
            slen == s@.len(),
            j <= k <= slen,
            forall|m: int| j <= m < k ==> !is_ws(#[trigger] s@[m]),
        decreases slen - k,
    {
        if ws(s.get_char(k)) {
            proof {
                lemma_nonws_run_end(s@, j as int, k as int);
            }
            return k;
        }
        k += 1;
    }
    proof {
        lemma_nonws_run_end(s@, j as int, k as int);
    }
    k
}

/// End of the number token that starts at `i`: a run of digits, then
/// optionally one point and a second run of digits.
pub open spec fn num_end(s: Seq<char>, i: int) -> int
    recommends
        0 <= i <= s.len(),
{
    let e1 = digit_run_end(s, i);
    if e1 < s.len() && s[e1] == '.' {
        digit_run_end(s, e1 + 1)
    } else {
        e1
    }
}

/// A percentage token stands at `i`: a number token followed directly by a
/// percent sign.
pub open spec fn percent_match_at(s: Seq<char>, i: int) -> bool {
    0 <= i < s.len() && is_digit(s[i]) && num_end(s, i) < s.len() && s[num_end(s, i)]
        == '%'
}

/// Contribution of the fraction digits, read to at most two places.
pub open spec fn frac_hundredths(f: Seq<char>) -> nat {
    if f.len() == 0 {
        0
    } else if f.len() == 1 {
        digit_val(f[0]) * 10
    } else {
        digit_val(f[0]) * 10 + digit_val(f[1])
    }
}

/// Value, in hundredths of a percent and capped at one hundred percent, of
/// the percentage token at `i`.
pub open spec fn percent_at(s: Seq<char>, i: int) -> nat
    recommends
        percent_match_at(s, i),
{
    let e1 = digit_run_end(s, i);
    let ip = digits_val(s.subrange(i, e1));
    let fr = if e1 < s.len() && s[e1] == '.' {
        frac_hundredths(s.subrange(e1 + 1, digit_run_end(s, e1 + 1)))
    } else {
        0
    };
    if ip * 100 + fr > 10000 {
        10000
    } else {
        ip * 100 + fr
    }
}

/// The percentage matcher as a predicate on positions of `s`.
pub open spec fn percent_pred(s: Seq<char>) -> spec_fn(int) -> bool {
    |i: int| percent_match_at(s, i)
}

/// Position of the first percentage token of the line, if any.
pub open spec fn spec_percent_pos(s: Seq<char>) -> Option<int> {
    first_from(s.len() as int, percent_pred(s), 0)
}

/// What `spec_percent_pos` returns: the least percentage token, if any.
pub proof fn lemma_percent_pos(s: Seq<char>)
    ensures
        match spec_percent_pos(s) {
            Some(j) => 0 <= j < s.len() && percent_match_at(s, j) && forall|k: int|
                0 <= k < j ==> !percent_match_at(s, k),
            None => forall|k: int| 0 <= k < s.len() ==> !percent_match_at(s, k),
        },
{
    lemma_first_from(s.len() as int, percent_pred(s), 0);
    match spec_percent_pos(s) {
        Some(j) => {
            assert(percent_pred(s)(j));
            assert forall|k: int| 0 <= k < j implies !percent_match_at(s, k) by {
                assert(!percent_pred(s)(k));
            }
        },
        None => {
            assert forall|k: int| 0 <= k < s.len() implies !percent_match_at(s, k) by {
                assert(!percent_pred(s)(k));
            }
        },
    }
}

/// A speed label stands at `j`: the word `at`, whitespace, then a
/// non-whitespace token.
pub open spec fn at_match_at(s: Seq<char>, j: int) -> bool {
    occurs_at(s, "at"@, j) && j + 2 < s.len() && is_ws(s[j + 2]) && {
        let w = ws_run_end(s, j + 2);
        w < s.len() && !is_ws(s[w])
    }
}

/// An eta label stands at `j`: the word `ETA`, whitespace, then a
/// non-whitespace token.
pub open spec fn eta_match_at(s: Seq<char>, j: int) -> bool {
    occurs_at(s, "ETA"@, j) && j + 3 < s.len() && is_ws(s[j + 3]) && {
        let w = ws_run_end(s, j + 3);
        w < s.len() && !is_ws(s[w])
    }
}

/// The speed matcher as a predicate on positions of `s`.
pub open spec fn at_pred(s: Seq<char>) -> spec_fn(int) -> bool {
    |j: int| at_match_at(s, j)
}

/// The eta matcher as a predicate on positions of `s`.
pub open spec fn eta_pred(s: Seq<char>) -> spec_fn(int) -> bool {
    |j: int| eta_match_at(s, j)
}

/// The non-whitespace token that follows the marker whose whitespace starts
/// at `t`.
pub open spec fn token_after(s: Seq<char>, t: int) -> Seq<char>
    recommends
        0 <= t <= s.len(),
{
    let w = ws_run_end(s, t);
    s.subrange(w, nonws_run_end(s, w))
}

/// The speed label of the line at or after `from`: empty when none stands.
pub open spec fn spec_speed(s: Seq<char>, from: int) -> Seq<char> {
    match first_from(s.len() as int, at_pred(s), from) {
        None => Seq::empty(),
        Some(j) => token_after(s, j + 2),
    }
}

/// The eta label of the line at or after `from`: empty when none stands.
pub open spec fn spec_eta(s: Seq<char>, from: int) -> Seq<char> {
    match first_from(s.len() as int, eta_pred(s), from) {
        None => Seq::empty(),
        Some(j) => token_after(s, j + 3),
    }
}

/// The line carries a progress update: the progress tag somewhere, and a
/// percentage token.
pub open spec fn spec_has_progress(s: Seq<char>) -> bool {
    contains_sub(s, "[download]"@) && spec_percent_pos(s) is Some
}

/// Position just past the first percentage token's percent sign.
pub open spec fn spec_after_percent(s: Seq<char>) -> int
    recommends
        spec_percent_pos(s) is Some,
{
    num_end(s, spec_percent_pos(s)->0) + 1
}

/// The percent value the line reports, in hundredths, capped at one hundred.
pub open spec fn spec_progress_percent(s: Seq<char>) -> nat
    recommends
        spec_has_progress(s),
{
    percent_at(s, spec_percent_pos(s)->0)
}

/// The speed label the line reports: empty when none stands after the
/// percentage token.
pub open spec fn spec_progress_speed(s: Seq<char>) -> Seq<char>
    recommends
        spec_has_progress(s),
{
    spec_speed(s, spec_after_percent(s))
}

/// The eta label the line reports: empty when none stands after the
/// percentage token.
pub open spec fn spec_progress_eta(s: Seq<char>) -> Seq<char>
    recommends
        spec_has_progress(s),
{
    spec_eta(s, spec_after_percent(s))
}

/// Whether a percentage token stands at `i` of the line.
fn percent_matches_at(s: &str, slen: usize, i: usize) -> (r: bool)
    requires
        slen == s@.len(),
        i <= slen,
    ensures
        r == percent_match_at(s@, i as int),
{
    if i == slen {
        return false;
    }
    if !digit(s.get_char(i)) {
        return false;
    }
    let (e1, _) = scan_number(s, slen, i);
    let ne = if e1 < slen && s.get_char(e1) == '.' {
        let (e2, _) = scan_number(s, slen, e1 + 1);
        e2
    } else {
        e1
    };
    ne < slen && s.get_char(ne) == '%'
}

/// Reads the value of the percentage token at `i`.
fn percent_value_at(s: &str, slen: usize, i: usize) -> (r: u64)
    requires
        slen == s@.len(),
        i < slen,
        percent_match_at(s@, i as int),
    ensures
        r == percent_at(s@, i as int),
        r <= 10000,
{
    let (e1, ip) = scan_number(s, slen, i);
    let mut fr: u64 = 0;
    proof {
        lemma_digit_run_bounds(s@, e1 as int);
    }
    if e1 < slen && s.get_char(e1) == '.' {
        let (e2, _) = scan_number(s, slen, e1 + 1);
        proof {
            lemma_digit_run_bounds(s@, e1 + 1);
        }
        let ghost f = s@.subrange(e1 + 1, e2 as int);
        if e2 > e1 + 1 {
            let c0 = s.get_char(e1 + 1);
            proof {
                assert(f[0] == s@[e1 + 1]);
            }
            fr = ((c0 as u32 as u64) - 48) * 10;
            if e2 > e1 + 2 {
                let c1 = s.get_char(e1 + 2);
                proof {
                    assert(f[1] == s@[e1 + 2]);
                }
                fr = fr + ((c1 as u32 as u64) - 48);
            }
        }
        proof {
            assert(fr == frac_hundredths(f));
        }
    }
    match ip {
        Some(v) => {
            let total = (v as u64) * 100 + fr;
            if total > 10000 {
                10000
            } else {
                total
            }
        },
        None => {
            proof {
                let e1i = e1 as int;
                let ipv = digits_val(s@.subrange(i as int, e1i));
                assert(ipv * 100 >= ipv) by (nonlinear_arith)
                    requires
                        ipv >= 0,
                ;
            }
            10000
        },
    }
}

/// Finds the token of the first speed marker at or after `from`.
fn find_speed(s: &str, slen: usize, from: usize) -> (r: String)
    requires
        slen == s@.len(),
        from <= slen,
    ensures
        r@ == spec_speed(s@, from as int),
{
    let mut j: usize = from;
    while j < slen
        invariant
            slen == s@.len(),
            from <= j <= slen,
            forall|k: int| from <= k < j ==> !at_match_at(s@, k),
        decreases slen - j,
    {
        let m = if matches_at(s, slen, "at", j) {
            proof {
                reveal_strlit("at");
            }
            if j + 2 < slen && ws(s.get_char(j + 2)) {
                let w = scan_ws(s, slen, j + 2);
                w < slen
            } else {
                false
            }
        } else {
            false
        };
        if m {
            proof {
                reveal_strlit("at");
                lemma_first_from(slen as int, at_pred(s@), from as int);
                assert(at_pred(s@)(j as int));
                if first_from(slen as int, at_pred(s@), from as int) != Some(j as int) {
                    let p = first_from(slen as int, at_pred(s@), from as int)->0;
                    assert(at_pred(s@)(p));
                    assert(!at_match_at(s@, p));
                }
            }
            let w = scan_ws(s, slen, j + 2);
            let e = scan_nonws(s, slen, w);
            return String::from_str(s.substring_char(w, e));
        }
        proof {
            reveal_strlit("at");
        }
        j += 1;
    }
    proof {
        lemma_first_from(slen as int, at_pred(s@), from as int);
        if first_from(slen as int, at_pred(s@), from as int) is Some {
            let p = first_from(slen as int, at_pred(s@), from as int)->0;
            assert(at_pred(s@)(p));
            assert(!at_match_at(s@, p));
        }
    }
    String::new()
}

/// Finds the token of the first eta marker at or after `from`.
fn find_eta(s: &str, slen: usize, from: usize) -> (r: String)
    requires
        slen == s@.len(),
        from <= slen,
    ensures
        r@ == spec_eta(s@, from as int),
{
    let mut j: usize = from;
    while j < slen
        invariant
            slen == s@.len(),
            from <= j <= slen,
            forall|k: int| from <= k < j ==> !eta_match_at(s@, k),
        decreases slen - j,
    {
        let m = if matches_at(s, slen, "ETA", j) {
            proof {
                reveal_strlit("ETA");
            }
            if j + 3 < slen && ws(s.get_char(j + 3)) {
                let w = scan_ws(s, slen, j + 3);
                w < slen
            } else {
                false
            }
        } else {
            false
        };
        if m {
            proof {
                reveal_strlit("ETA");
                lemma_first_from(slen as int, eta_pred(s@), from as int);
                assert(eta_pred(s@)(j as int));
                if first_from(slen as int, eta_pred(s@), from as int) != Some(j as int) {
                    let p = first_from(slen as int, eta_pred(s@), from as int)->0;
                    assert(eta_pred(s@)(p));
                    assert(!eta_match_at(s@, p));
                }
            }
            let w = scan_ws(s, slen, j + 3);
            let e = scan_nonws(s, slen, w);
            return String::from_str(s.substring_char(w, e));
        }
        proof {
            reveal_strlit("ETA");
        }
        j += 1;
    }
    proof {
        lemma_first_from(slen as int, eta_pred(s@), from as int);
        if first_from(slen as int, eta_pred(s@), from as int) is Some {
            let p = first_from(slen as int, eta_pred(s@), from as int)->0;
            assert(eta_pred(s@)(p));
            assert(!eta_match_at(s@, p));
        }
    }
    String::new()
}

/// Classifies one line of tool output as a progress update. Yields the
/// percent in hundredths (capped at one hundred percent), the speed and eta
/// labels (empty when absent), and the playlist marker of the same line, when
/// one stands on it. Any line without the progress tag and a percentage
/// token yields nothing.
pub fn parse_progress(line: &str) -> (r: Option<(u64, String, String, Option<u32>, Option<u32>)>)
    ensures
        match r {
            Some((p, sp, et, idx, cnt)) => spec_has_progress(line@) && p <= 10000 && p
                == spec_progress_percent(line@) && sp@ == spec_progress_speed(line@)
                && et@ == spec_progress_eta(line@) && idx == spec_playlist_index(line@)
                && cnt == spec_playlist_count(line@),
            None => !spec_has_progress(line@),
        },
{
    if find_sub(line, "[download]").is_none() {
        proof {
            assert(!spec_has_progress(line@));
        }
        return None;
    }
    proof {
        assert(contains_sub(line@, "[download]"@)) by {
            let w = choose|i: int| occurs_at(line@, "[download]"@, i);
        }
    }
    let slen = line.unicode_len();
    let mut i: usize = 0;
    while i < slen
        invariant
            slen == line@.len(),
            i <= slen,
            contains_sub(line@, "[download]"@),
            forall|k: int| 0 <= k < i ==> !percent_match_at(line@, k),
        decreases slen - i,
    {
        if percent_matches_at(line, slen, i) {
            proof {
                lemma_percent_pos(line@);
            }
            let p = percent_value_at(line, slen, i);
            let (e1, _) = scan_number(line, slen, i);
            let ne = if e1 < slen && line.get_char(e1) == '.' {
                let (e2, _) = scan_number(line, slen, e1 + 1);
                e2
            } else {
                e1
            };
            let after = ne + 1;
            let sp = find_speed(line, slen, after);
            let et = find_eta(line, slen, after);
            let (idx, cnt) = match parse_playlist_marker(line) {
                Some((a, b)) => (a, b),
                None => (None, None),
            };
            return Some((p, sp, et, idx, cnt));
        }
        i += 1;
    }
    proof {
        lemma_percent_pos(line@);
    }
    None
}

/// Matcher for one character of `s`.
pub open spec fn char_pred(s: Seq<char>, c: char) -> spec_fn(int) -> bool {
    |i: int| s[i] == c
}

/// Position of the last occurrence of `c` in `s`, if any.
pub open spec fn spec_last_char(s: Seq<char>, c: char) -> Option<int> {
    last_below(s.len() as int, char_pred(s, c))
}

/// Position of the first occurrence of `c` in `s`, if any.
pub open spec fn spec_first_char(s: Seq<char>, c: char) -> Option<int> {
    first_from(s.len() as int, char_pred(s, c), 0)
}

/// What `spec_first_char` returns: the least occurrence, if any.
pub proof fn lemma_first_char(s: Seq<char>, c: char)
    ensures
        match spec_first_char(s, c) {
            Some(j) => 0 <= j < s.len() && s[j] == c && forall|k: int|
                0 <= k < j ==> s[k] != c,
            None => forall|k: int| 0 <= k < s.len() ==> s[k] != c,
        },
{
    lemma_first_from(s.len() as int, char_pred(s, c), 0);
    match spec_first_char(s, c) {
        Some(j) => {
            assert(char_pred(s, c)(j));
            assert forall|k: int| 0 <= k < j implies s[k] != c by {
                assert(!char_pred(s, c)(k));
            }
        },
        None => {
            assert forall|k: int| 0 <= k < s.len() implies s[k] != c by {
                assert(!char_pred(s, c)(k));
            }
        },
    }
}

/// Position of the first occurrence of `c` in `s`, if any.
pub fn ffind_char(s: &str, slen: usize, c: char) -> (r: Option<usize>)
    requires
        slen == s@.len(),
    ensures
        match r {
            Some(j) => spec_first_char(s@, c) == Some(j as int),
            None => spec_first_char(s@, c) is None,
        },
{
    let mut k: usize = 0;
    while k < slen
        invariant
            slen == s@.len(),
            k <= slen,
            forall|m: int| 0 <= m < k ==> s@[m] != c,
        decreases slen - k,
    {
        if s.get_char(k) == c {
            proof {
                lemma_first_char(s@, c);
                if spec_first_char(s@, c) is None {
                    assert(s@[k as int] != c);
                }
                let j = spec_first_char(s@, c)->0;
                if j < k {
                    assert(s@[j] != c);
                }
                if j > k {
                    assert(s@[k as int] != c);
                }
            }
            return Some(k);
        }
        k += 1;
    }
    proof {
        lemma_first_char(s@, c);
        if spec_first_char(s@, c) is Some {
            let j = spec_first_char(s@, c)->0;
            assert(s@[j] != c);
        }
    }
    None
}

/// What `spec_last_char` returns: the greatest occurrence, if any.
pub proof fn lemma_last_char(s: Seq<char>, c: char)
    ensures
        match spec_last_char(s, c) {
            Some(j) => 0 <= j < s.len() && s[j] == c && forall|k: int|
                j < k < s.len() ==> s[k] != c,
            None => forall|k: int| 0 <= k < s.len() ==> s[k] != c,
        },
{
    lemma_last_below(s.len() as int, char_pred(s, c));
    match spec_last_char(s, c) {
        Some(j) => {
            assert(char_pred(s, c)(j));
            assert forall|k: int| j < k < s.len() implies s[k] != c by {
                assert(!char_pred(s, c)(k));
            }
        },
        None => {
            assert forall|k: int| 0 <= k < s.len() implies s[k] != c by {
                assert(!char_pred(s, c)(k));
            }
        },
    }
}

/// Position of the last occurrence of `c` in `s`, if any.
pub(crate) fn rfind_char(s: &str, slen: usize, c: char) -> (r: Option<usize>)
    requires
        slen == s@.len(),
    ensures
        match r {
            Some(j) => spec_last_char(s@, c) == Some(j as int),
            None => spec_last_char(s@, c) is None,
        },
{
    let mut k: usize = slen;
    while k > 0
        invariant
            slen == s@.len(),
            k <= slen,
            forall|m: int| k <= m < slen ==> s@[m] != c,
        decreases k,
    {
        if s.get_char(k - 1) == c {
            proof {
                lemma_last_char(s@, c);
                if spec_last_char(s@, c) is None {
                    assert(s@[k - 1] != c);
                }
                let j = spec_last_char(s@, c)->0;
                if j < k - 1 {
                    assert(s@[k - 1] != c);
                }
                if j > k - 1 {
                    assert(s@[j] != c);
                }
            }
            return Some(k - 1);
        }
        k -= 1;
    }
    proof {
        lemma_last_char(s@, c);
        if spec_last_char(s@, c) is Some {
            let j = spec_last_char(s@, c)->0;
            assert(s@[j] != c);
        }
    }
    None
}

/// The line announces a chosen output file path.
pub open spec fn title_gate(s: Seq<char>) -> bool {
    contains_sub(s, "[download] Destination:"@) || contains_sub(s, "[ExtractAudio]"@)
}

/// The title a destination line carries: the last path segment of the
/// announced file, with its final extension stripped. Nothing without a
/// path separator or without an extension in the last segment.
pub open spec fn spec_title(s: Seq<char>) -> Option<Seq<char>> {
    if title_gate(s) {
        match spec_last_char(s, '/') {
            None => None,
            Some(sl) => match spec_last_char(s, '.') {
                Some(d) => if d > sl {
                    Some(s.subrange(sl + 1, d))
                } else {
                    None
                },
                None => None,
            },
        }
    } else {
        None
    }
}

/// Extracts the title from a line that announces the chosen output file.
pub fn extract_title(line: &str) -> (r: Option<String>)
    ensures
        match r {
            Some(t) => spec_title(line@) == Some(t@),
            None => spec_title(line@) is None,
        },
{
    let gate = find_sub(line, "[download] Destination:").is_some() || find_sub(
        line,
        "[ExtractAudio]",
    ).is_some();
    if !gate {
        return None;
    }
    let slen = line.unicode_len();
    match rfind_char(line, slen, '/') {
        None => None,
        Some(sl) => match rfind_char(line, slen, '.') {
            Some(d) => if d > sl {
                proof {
                    lemma_last_char(line@, '.');
                }
                Some(String::from_str(line.substring_char(sl + 1, d)))
            } else {
                None
            },
            None => None,
        },
    }
}

/// Fields carried by a structured metadata print line.
pub struct MetaFields {
    /// Title text, possibly empty.
    pub title: Seq<char>,
    /// Thumbnail address, absent when the tool reported none.
    pub thumbnail: Option<Seq<char>>,
    /// Whole seconds of duration, absent when unparseable.
    pub duration: Option<u64>,
}

/// What one line of metadata output carries.
pub enum MetaView {
    /// A delimited title, thumbnail and duration print.
    Structured(MetaFields),
    /// A bare title line.
    Plain(Seq<char>),
    /// Nothing usable.
    NoInfo,
}

/// The field-separator matcher as a predicate on positions of `s`.
pub open spec fn sep_pred(s: Seq<char>) -> spec_fn(int) -> bool {
    |i: int| occurs_at(s, "|||"@, i)
}

/// Position of the first field separator at or after `from`, if any.
pub open spec fn spec_sep_from(s: Seq<char>, from: int) -> Option<int> {
    first_from(s.len() as int, sep_pred(s), from)
}

/// What `spec_sep_from` returns: the least separator at or after `from`.
pub proof fn lemma_sep_from(s: Seq<char>, from: int)
    requires
        0 <= from <= s.len(),
    ensures
        match spec_sep_from(s, from) {
            Some(j) => from <= j < s.len() && occurs_at(s, "|||"@, j) && forall|k: int|
                from <= k < j ==> !occurs_at(s, "|||"@, k),
            None => forall|k: int| from <= k < s.len() ==> !occurs_at(s, "|||"@, k),
        },
{
    lemma_first_from(s.len() as int, sep_pred(s), from);
    match spec_sep_from(s, from) {
        Some(j) => {
            assert(sep_pred(s)(j));
            assert forall|k: int| from <= k < j implies !occurs_at(s, "|||"@, k) by {
                assert(!sep_pred(s)(k));
            }
        },
        None => {
            assert forall|k: int| from <= k < s.len() implies !occurs_at(s, "|||"@, k) by {
                assert(!sep_pred(s)(k));
            }
        },
    }
}

/// Duration in whole seconds carried by a duration field: a run of digits,
/// optionally followed by a point and more digits. Anything else, or a value
/// beyond the largest representable count, carries none.
pub open spec fn spec_duration(d: Seq<char>) -> Option<u64> {
    let e1 = digit_run_end(d, 0);
    if d.len() == 0 || e1 == 0 {
        None
    } else {
        let shape_ok = e1 == d.len() || (d[e1] == '.' && digit_run_end(d, e1 + 1)
            == d.len());
        if shape_ok && digits_val(d.subrange(0, e1)) <= u64::MAX {
            Some(digits_val(d.subrange(0, e1)) as u64)
        } else {
            None
        }
    }
}

/// What a line of metadata output carries: a structured print when two field
/// separators stand on it, a bare title when it is non-empty and no bracketed
/// tool message, otherwise nothing.
pub open spec fn spec_metadata(s: Seq<char>) -> MetaView {
    match spec_sep_from(s, 0) {
        Some(p1) => match spec_sep_from(s, p1 + 3) {
            Some(p2) => {
                let thumb = s.subrange(p1 + 3, p2);
                let dend = match spec_sep_from(s, p2 + 3) {
                    Some(p3) => p3,
                    None => s.len() as int,
                };
                MetaView::Structured(
                    MetaFields {
                        title: s.subrange(0, p1),
                        thumbnail: if thumb != "NA"@ && thumb.len() > 0 {
                            Some(thumb)
                        } else {
                            None
                        },
                        duration: spec_duration(s.subrange(p2 + 3, dend)),
                    },
                )
            },
            None => MetaView::NoInfo,
        },
        None => if s.len() > 0 && s[0] != '[' {
            MetaView::Plain(s)
        } else {
            MetaView::NoInfo
        },
    }
}

/// Structured reading of one line of metadata output.
pub enum MetadataLine {
    /// A delimited title, thumbnail and duration print.
    Structured { title: String, thumbnail: Option<String>, duration: Option<u64> },
    /// A bare title line.
    Plain { title: String },
    /// Nothing usable.
    NoInfo,
}

/// Position of the first field separator at or after `from`.
fn find_sep_from(s: &str, slen: usize, from: usize) -> (r: Option<usize>)
    requires
        slen == s@.len(),
        from <= slen,
    ensures
        match r {
            Some(j) => spec_sep_from(s@, from as int) == Some(j as int) && from <= j
                && j + 3 <= slen,
            None => spec_sep_from(s@, from as int) is None,
        },
{
    let mut j: usize = from;
    while j < slen
        invariant
            slen == s@.len(),
            from <= j <= slen,
            forall|k: int| from <= k < j ==> !occurs_at(s@, "|||"@, k),
        decreases slen - j,
    {
        if matches_at(s, slen, "|||", j) {
            proof {
                reveal_strlit("|||");
                lemma_sep_from(s@, from as int);
            }
            return Some(j);
        }
        j += 1;
    }
    proof {
        lemma_sep_from(s@, from as int);
    }
    None
}

/// Scans the digit run that starts at `j` and accumulates its value, or
/// notes that the value does not fit a `u64`.
fn scan_u64(s: &str, slen: usize, j: usize) -> (r: (usize, Option<u64>))
    requires
        slen == s@.len(),
        j <= slen,
    ensures
        r.0 == digit_run_end(s@, j as int),
        j <= r.0 <= slen,
        r.1 == (if digits_val(s@.subrange(j as int, r.0 as int)) <= u64::MAX {
            Some(digits_val(s@.subrange(j as int, r.0 as int)) as u64)
        } else {
            None::<u64>
        }),
{
    let mut k: usize = j;
    let mut val: u64 = 0;
    let mut fits: bool = true;
    loop
        invariant
            slen == s@.len(),
            j <= k <= slen,
            forall|m: int| j <= m < k ==> is_digit(#[trigger] s@[m]),
            fits ==> val == digits_val(s@.subrange(j as int, k as int)),
            !fits ==> digits_val(s@.subrange(j as int, k as int)) > u64::MAX,
        ensures
            slen == s@.len(),
            j <= k <= slen,
            forall|m: int| j <= m < k ==> is_digit(#[trigger] s@[m]),
            k == slen || !is_digit(s@[k as int]),
            fits ==> val == digits_val(s@.subrange(j as int, k as int)),
            !fits ==> digits_val(s@.subrange(j as int, k as int)) > u64::MAX,
        decreases slen - k,
    {
        if k == slen {
            break;
        }
        let c = s.get_char(k);
        if !digit(c) {
            break;
        }
        proof {
            let pre = s@.subrange(j as int, k as int);
            let post = s@.subrange(j as int, k + 1);
            assert(post.drop_last() =~= pre);
            assert(post.last() == s@[k as int]);
        }
        let d: u64 = (c as u32 as u64) - 48;
        if fits {
            if val > (0xffff_ffff_ffff_ffffu64 - d) / 10 {
                proof {
                    let v = val as int;
                    let dd = d as int;
                    let m = 0xffff_ffff_ffff_ffff as int;
                    assert(v * 10 + dd > m) by (nonlinear_arith)
                        requires
                            v > (m - dd) / 10,
                            0 <= dd <= 9,
                            m > 100,
                    ;
                }
                fits = false;
            } else {
                proof {
                    let v = val as int;
                    let dd = d as int;
                    let m = 0xffff_ffff_ffff_ffff as int;
                    assert(v * 10 + dd <= m) by (nonlinear_arith)
                        requires
                            v <= (m - dd) / 10,
                            0 <= dd <= 9,
                            m > 100,
                    ;
                }
                val = val * 10 + d;
            }
        } else {
            proof {
                let pre = s@.subrange(j as int, k as int);
                let post = s@.subrange(j as int, k + 1);
                assert(digits_val(post) == digits_val(pre) * 10 + digit_val(s@[k as int]));
            }
        }
        k += 1;
    }
    proof {
        lemma_digit_run_end(s@, j as int, k as int);
    }
    if fits {
        (k, Some(val))
    } else {
        (k, None)
    }
}

/// Reads the duration field.
fn parse_duration(d: &str) -> (r: Option<u64>)
    ensures
        r == spec_duration(d@),
{
    let dlen = d.unicode_len();
    let (e1, v) = scan_u64(d, dlen, 0);
    if dlen == 0 || e1 == 0 {
        return None;
    }
    let shape_ok = if e1 == dlen {
        true
    } else if d.get_char(e1) == '.' {
        let (e2, _) = scan_u64(d, dlen, e1 + 1);
        e2 == dlen
    } else {
        false
    };
    if shape_ok {
        v
    } else {
        None
    }
}

/// Classifies one line of metadata output: a structured print of title,
/// thumbnail and duration when two field separators stand on it, a bare
/// title when the line is non-empty and no bracketed tool message, and
/// nothing otherwise.
pub fn parse_metadata_line(line: &str) -> (r: MetadataLine)
    ensures
        match r {
            MetadataLine::Structured { title, thumbnail, duration } => {
                &&& spec_metadata(line@) matches MetaView::Structured(f)
                &&& title@ == f.title
                &&& match thumbnail {
                    Some(t) => f.thumbnail == Some(t@),
                    None => f.thumbnail is None,
                }
                &&& duration == f.duration
            },
            MetadataLine::Plain { title } => spec_metadata(line@) == MetaView::Plain(
                title@,
            ),
            MetadataLine::NoInfo => spec_metadata(line@) is NoInfo,
        },
{
    let slen = line.unicode_len();
    match find_sep_from(line, slen, 0) {
        Some(p1) => {
            match find_sep_from(line, slen, p1 + 3) {
                Some(p2) => {
                    let title = String::from_str(line.substring_char(0, p1));
                    let thumb = line.substring_char(p1 + 3, p2);
                    let thumbnail = if !str_eq(thumb, "NA") && thumb.unicode_len() > 0 {
                        Some(String::from_str(thumb))
                    } else {
                        None
                    };
                    let dend = match find_sep_from(line, slen, p2 + 3) {
                        Some(p3) => p3,
                        None => slen,
                    };
                    let duration = parse_duration(line.substring_char(p2 + 3, dend));
                    MetadataLine::Structured { title, thumbnail, duration }
                },
                None => MetadataLine::NoInfo,
            }
        },
        None => {
            if slen > 0 && line.get_char(0) != '[' {
                MetadataLine::Plain { title: String::from_str(line) }
            } else {
                MetadataLine::NoInfo
            }
        },
    }
}

} // verus!
