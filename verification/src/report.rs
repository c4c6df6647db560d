//! Report rendering: Markdown, HTML, CSV and SonarQube documents built from
//! an analysis result held as a JSON value.

use vstd::prelude::*;
use crate::json::{JsonValue, JsonSpec, json_view, spec_get, str_of, u64_of, arr_of};

pub mod markdown;
pub mod html;
pub mod csv;
pub mod sonar;
pub mod ci;

verus! {

/// The first `limit` elements of `s` (all of them when there are fewer).
pub open spec fn take_limit<A>(s: Seq<A>, limit: int) -> Seq<A> {
    if limit < s.len() { s.take(limit) } else { s }
}

/// The severity an issue names, `Medium` when it names none.
pub open spec fn issue_severity(issue: JsonSpec) -> Seq<char> {
    match str_of(spec_get(issue, "severity"@)) {
        Some(s) => s,
        None => "Medium"@,
    }
}

/// The effort a recommendation names, 1 when it names none.
pub open spec fn rec_effort(rec: JsonSpec) -> u64 {
    match u64_of(spec_get(rec, "effort"@)) {
        Some(e) => e,
        None => 1,
    }
}

/// The path a file result names, `unknown` when it names none.
pub open spec fn path_or_unknown(f: JsonSpec) -> Seq<char> {
    match str_of(spec_get(f, "file_path"@)) {
        Some(p) => p,
        None => "unknown"@,
    }
}

/// Whether a file result lists at least one issue.
pub open spec fn has_issues(f: JsonSpec) -> bool {
    match arr_of(spec_get(f, "issues"@)) {
        Some(a) => a.len() > 0,
        None => false,
    }
}

/// The file results that list at least one issue, in order.
pub open spec fn files_with_issues(d: Seq<JsonSpec>) -> Seq<JsonSpec>
    decreases d.len(),
{
    if d.len() == 0 {
        Seq::empty()
    } else if has_issues(d.last()) {
        files_with_issues(d.drop_last()).push(d.last())
    } else {
        files_with_issues(d.drop_last())
    }
}

/// Whether a file result lists at least one issue.
pub(crate) fn file_has_issues(f: &JsonValue) -> (res: bool)
    ensures
        res == has_issues(json_view(*f)),
{
    match f.get_array("issues") {
        Some(a) => a.len() > 0,
        None => false,
    }
}

/// The string a value names under `key`, or `default`.
pub open spec fn str_or(j: JsonSpec, key: Seq<char>, default: Seq<char>) -> Seq<char> {
    match str_of(spec_get(j, key)) {
        Some(s) => s,
        None => default,
    }
}

/// The chrono format of the date in the Markdown and HTML reports.
pub const REPORT_DATE_FORMAT: &'static str = "%Y-%m-%d %H:%M:%S UTC";

/// A decimal digit.
pub open spec fn is_digit(c: char) -> bool {
    '0' <= c && c <= '9'
}

/// All characters of `s` from `lo` (inclusive) to `hi` (exclusive) are digits.
pub open spec fn digits_in(s: Seq<char>, lo: int, hi: int) -> bool {
    forall|i: int| lo <= i < hi ==> is_digit(#[trigger] s[i])
}

/// A year as chrono prints it for a clock reading (never before 1970): four
/// digits, or `+` and five or more digits past the year 9999.
pub open spec fn is_year(y: Seq<char>) -> bool {
    ||| y.len() == 4 && digits_in(y, 0, 4)
    ||| y.len() >= 6 && y[0] == '+' && digits_in(y, 1, y.len() as int)
}

/// `-MM-DD` followed by `sep` and `HH:MM:SS`: the fifteen characters after
/// the year.
pub open spec fn is_date_time_tail(t: Seq<char>, sep: char) -> bool {
    &&& t.len() == 15
    &&& t[0] == '-' && digits_in(t, 1, 3) && t[3] == '-' && digits_in(t, 4, 6)
    &&& t[6] == sep
    &&& digits_in(t, 7, 9) && t[9] == ':' && digits_in(t, 10, 12) && t[12] == ':' && digits_in(t, 13, 15)
}

/// A report date: `YYYY-MM-DD HH:MM:SS UTC`.
pub open spec fn is_report_date(d: Seq<char>) -> bool {
    let n = d.len() as int;
    &&& n >= 23
    &&& is_year(d.subrange(0, n - 19))
    &&& is_date_time_tail(d.subrange(n - 19, n - 4), ' ')
    &&& d.subrange(n - 4, n) == " UTC"@
}

/// An RFC 3339 UTC time as chrono's `to_rfc3339` prints it, with `f`
/// characters of fraction: `YYYY-MM-DDTHH:MM:SS`, then `.` and 3, 6 or 9
/// digits when `f` is 4, 7 or 10, then `+00:00`.
pub open spec fn is_rfc3339_with_fraction(d: Seq<char>, f: int) -> bool {
    let n = d.len() as int;
    &&& f == 0 || f == 4 || f == 7 || f == 10
    &&& n >= 25 + f
    &&& is_year(d.subrange(0, n - 21 - f))
    &&& is_date_time_tail(d.subrange(n - 21 - f, n - 6 - f), 'T')
    &&& f > 0 ==> d[n - 6 - f] == '.' && digits_in(d, n - 5 - f, n - 6)
    &&& d.subrange(n - 6, n) == "+00:00"@
}

/// An RFC 3339 UTC time as chrono's `to_rfc3339` prints it.
pub open spec fn is_rfc3339_utc(d: Seq<char>) -> bool {
    exists|f: int| is_rfc3339_with_fraction(d, f)
}

/// `c` occurs nowhere in `s`.
pub open spec fn lacks_char(s: Seq<char>, c: char) -> bool {
    forall|i: int| 0 <= i < s.len() ==> s[i] != c
}

/// A string holding `p` holds every character of `p`.
pub proof fn lemma_contains_needs_char(s: Seq<char>, p: Seq<char>, j: int)
    requires
        crate::text::contains_seq(s, p),
        0 <= j < p.len(),
    ensures
        !lacks_char(s, p[j]),
{
    let i = choose|i: int| 0 <= i && i + p.len() <= s.len() && #[trigger] s.subrange(i, i + p.len()) == p;
    assert(s[i + j] == s.subrange(i, i + p.len())[j]);
}

/// A character lacking from both parts lacks from their concatenation.
pub proof fn lemma_lacks_char_add(a: Seq<char>, b: Seq<char>, c: char)
    requires
        lacks_char(a, c),
        lacks_char(b, c),
    ensures
        lacks_char(a + b, c),
{
    assert forall|i: int| 0 <= i < (a + b).len() implies (a + b)[i] != c by {
        if i < a.len() {
            assert((a + b)[i] == a[i]);
        } else {
            assert((a + b)[i] == b[i - a.len()]);
        }
    }
}

/// A decimal numeral holds only digits.
pub proof fn lemma_decimal_digits(n: nat)
    ensures
        digits_in(crate::text::decimal(n), 0, crate::text::decimal(n).len() as int),
    decreases n,
{
    if n >= 10 {
        lemma_decimal_digits(n / 10);
    }
}

/// A report date holds only digits, `+`, `-`, ` `, `:`, `U`, `T` and `C`.
pub proof fn lemma_report_date_chars(d: Seq<char>, i: int)
    requires
        is_report_date(d),
        0 <= i < d.len(),
    ensures
        is_digit(d[i]) || d[i] == '+' || d[i] == '-' || d[i] == ' ' || d[i] == ':'
            || d[i] == 'U' || d[i] == 'T' || d[i] == 'C',
{
    reveal_strlit(" UTC");
    let n = d.len() as int;
    if i < n - 19 {
        let y = d.subrange(0, n - 19);
        assert(d[i] == y[i]);
        if y.len() == 4 {
            assert(is_digit(y[i]));
        } else if i > 0 {
            assert(is_digit(y[i]));
        }
    } else if i < n - 4 {
        let t = d.subrange(n - 19, n - 4);
        let k = i - (n - 19);
        assert(d[i] == t[k]);
        if k == 1 || k == 2 || k == 4 || k == 5 || k == 7 || k == 8 || k == 10 || k == 11 || k == 13 || k == 14 {
            assert(is_digit(t[k]));
        }
    } else {
        let u = d.subrange(n - 4, n);
        assert(d[i] == u[i - (n - 4)]);
    }
}

/// A report date holds no `q`.
pub proof fn lemma_report_date_lacks_q(d: Seq<char>)
    requires
        is_report_date(d),
    ensures
        lacks_char(d, 'q'),
{
    assert forall|i: int| 0 <= i < d.len() implies d[i] != 'q' by {
        lemma_report_date_chars(d, i);
    }
}

/// The current UTC time printed with `fmt` (chrono's `Utc::now()`, then
/// `format(fmt).to_string()`), for the report date format. chrono prints the
/// year with four digits (with a `+` past 9999: the clock never reads before
/// 1970, where `Utc::now` panics) and month, day, hour, minute and second
/// with two, so the result has the form of `is_report_date`. Which time it
/// shows rests on the clock and is not stated.
#[verifier::external_body]
pub(crate) fn utc_now_formatted(fmt: &str) -> (s: String)
    requires
        fmt@ == REPORT_DATE_FORMAT@,
    ensures
        is_report_date(s@),
{
    chrono::Utc::now().format(fmt).to_string()
}

/// The current UTC time in RFC 3339 form (chrono's `Utc::now().to_rfc3339()`,
/// which writes the year, month, day, hour, minute and second, a fraction of
/// 3, 6 or 9 digits unless the nanoseconds are zero, and the offset
/// `+00:00`). Which time it shows rests on the clock and is not stated.
#[verifier::external_body]
pub(crate) fn utc_now_rfc3339() -> (s: String)
    ensures
        is_rfc3339_utc(s@),
{
    chrono::Utc::now().to_rfc3339()
}

} // verus!
