//! The arguments of a retrieval: the user, the date range, the filters and the
//! output format, and how each is read from text.
use vstd::prelude::*;
use vstd::string::*;
use crate::text::{concat3, fails_with, text_eq};
use crate::time::{
    date_epoch_days, earlier, now, parse_date_days, parse_rfc3339, rfc3339_instant, UtcTime,
};

verus! {

// ---------------------------------------------------------------- output format

/// The lowercase form of a text, character by character.
pub uninterp spec fn lower_of(s: Seq<char>) -> Seq<char>;

/// Relies on `str::to_lowercase`: the result depends on the characters alone.
#[verifier::external_body]
fn lowercase(s: &str) -> (r: String)
    ensures
        r@ == lower_of(s@),
{
    s.to_lowercase()
}

/// The formats in which a report can be written.
#[derive(Debug, Clone, Copy, PartialEq, Eq)]
pub enum OutputFormat {
    Plain,
    Markdown,
    Json,
}

/// The format that a lowercase name stands for.
pub open spec fn format_named(t: Seq<char>) -> Option<OutputFormat> {
    if t == "plain"@ {
        Some(OutputFormat::Plain)
    } else if t == "markdown"@ || t == "md"@ {
        Some(OutputFormat::Markdown)
    } else if t == "json"@ {
        Some(OutputFormat::Json)
    } else {
        None
    }
}

pub open spec fn invalid_format_message(s: Seq<char>) -> Seq<char> {
    "Invalid output format: "@ + s + ". Use plain, markdown, or json"@
}

/// The format named by `lowered`, the lowercase form of `given`; an error
/// that quotes `given` when it names none.
pub fn output_format_named(lowered: &str, given: &str) -> (r: Result<OutputFormat, String>)
    ensures
        match format_named(lowered@) {
            Some(f) => r == Ok::<OutputFormat, String>(f),
            None => r matches Err(m) && m@ == invalid_format_message(given@),
        },
{
    if text_eq(lowered, "plain") {
        Ok(OutputFormat::Plain)
    } else if text_eq(lowered, "markdown") || text_eq(lowered, "md") {
        Ok(OutputFormat::Markdown)
    } else if text_eq(lowered, "json") {
        Ok(OutputFormat::Json)
    } else {
        Err(concat3("Invalid output format: ", given, ". Use plain, markdown, or json"))
    }
}

/// Reads an output format by name, in any case: `plain`, `markdown` or `md`,
/// `json`.
pub fn parse_output_format(s: &str) -> (r: Result<OutputFormat, String>)
    ensures
        match format_named(lower_of(s@)) {
            Some(f) => r == Ok::<OutputFormat, String>(f),
            None => r matches Err(m) && m@ == invalid_format_message(s@),
        },
{
    let lowered = lowercase(s);
    output_format_named(lowered.as_str(), s)
}

impl std::str::FromStr for OutputFormat {
    type Err = String;

    fn from_str(s: &str) -> Result<OutputFormat, String> {
        parse_output_format(s)
    }
}

/// The format that a lowercase file extension implies, if any.
pub open spec fn format_of_extension(ext: Seq<char>) -> Option<OutputFormat> {
    if ext == "md"@ || ext == "markdown"@ {
        Some(OutputFormat::Markdown)
    } else if ext == "txt"@ {
        Some(OutputFormat::Plain)
    } else if ext == "json"@ {
        Some(OutputFormat::Json)
    } else {
        None
    }
}

/// The format implied by the lowercase extension `lowered`, else `fallback`.
pub fn format_for_lowered_extension(lowered: &str, fallback: OutputFormat) -> (r: OutputFormat)
    ensures
        r == match format_of_extension(lowered@) {
            Some(f) => f,
            None => fallback,
        },
{
    if text_eq(lowered, "md") || text_eq(lowered, "markdown") {
        OutputFormat::Markdown
    } else if text_eq(lowered, "txt") {
        OutputFormat::Plain
    } else if text_eq(lowered, "json") {
        OutputFormat::Json
    } else {
        fallback
    }
}

/// The format in which to write to a file with extension `ext` (in any
/// case): the one the extension implies, else `fallback`.
pub fn format_for_extension(ext: &str, fallback: OutputFormat) -> (r: OutputFormat)
    ensures
        r == match format_of_extension(lower_of(ext@)) {
            Some(f) => f,
            None => fallback,
        },
{
    let lowered = lowercase(ext);
    format_for_lowered_extension(lowered.as_str(), fallback)
}

// ---------------------------------------------------------------- username

/// The compiled regular expression of the `regex` crate, carried opaque.
#[verifier::external_type_specification]
#[verifier::external_body]
pub struct ExRegex(regex::Regex);

/// Whether `pattern` compiles as a regular expression.
pub uninterp spec fn regex_compiles(pattern: Seq<char>) -> bool;

/// Whether `text` holds a match of the regular expression `pattern`.
pub uninterp spec fn regex_matches(pattern: Seq<char>, text: Seq<char>) -> bool;

/// A compiled regular expression, with the pattern it was compiled from.
struct Pattern {
    source: String,
    compiled: regex::Regex,
}

impl Pattern {
    closed spec fn source(&self) -> Seq<char> {
        self.source@
    }
}

/// Relies on `regex::Regex::new`: compiles `pattern`, or gives the text of
/// the compile error.
#[verifier::external_body]
fn compile_pattern(pattern: &str) -> (r: Result<Pattern, String>)
    ensures
        r is Ok <==> regex_compiles(pattern@),
        r matches Ok(p) ==> p.source() == pattern@,
{
    match regex::Regex::new(pattern) {
        Ok(compiled) => Ok(Pattern { source: pattern.to_string(), compiled }),
        Err(e) => Err(e.to_string()),
    }
}

/// Relies on `regex::Regex::is_match`: whether `text` holds a match.
#[verifier::external_body]
fn pattern_matches(p: &Pattern, text: &str) -> (r: bool)
    ensures
        r == regex_matches(p.source(), text@),
{
    p.compiled.is_match(text)
}

/// Letters, digits and hyphens, neither first nor last.
pub const USERNAME_PATTERN: &'static str = "^[a-zA-Z0-9](?:[a-zA-Z0-9-]*[a-zA-Z0-9])?$";

/// The longest username, in bytes.
pub const MAX_USERNAME_BYTES: usize = 39;

pub const EMPTY_USERNAME: &'static str = "Username cannot be empty";

pub const LONG_USERNAME: &'static str = "Username cannot be longer than 39 characters";

pub const INVALID_USERNAME: &'static str = "Username contains invalid characters. Allowed: letters, digits, and hyphens (but not at the beginning or end)";

pub const REGEX_ERROR: &'static str = "Regex error: ";

/// A validated username.
#[derive(Debug, Clone)]
pub struct GitHubUsername(pub String);

/// Checks a candidate username, given whether it matches
/// [`USERNAME_PATTERN`] (or the error that compiling the pattern gave).
pub fn check_username(s: &str, matched: Result<bool, String>) -> (r: Result<GitHubUsername, String>)
    ensures
        s@.len() == 0 ==> fails_with(r, EMPTY_USERNAME@),
        s@.len() > 0 && s.spec_bytes().len() > MAX_USERNAME_BYTES ==> fails_with(r, LONG_USERNAME@),
        s@.len() > 0 && s.spec_bytes().len() <= MAX_USERNAME_BYTES ==> match matched {
            Err(e) => fails_with(r, REGEX_ERROR@ + e@),
            Ok(false) => fails_with(r, INVALID_USERNAME@),
            Ok(true) => (r matches Ok(u) && u.0@ == s@),
        },
{
    if s.is_empty() {
        return Err(String::from_str(EMPTY_USERNAME));
    }
    if s.as_bytes().len() > MAX_USERNAME_BYTES {
        return Err(String::from_str(LONG_USERNAME));
    }
    match matched {
        Err(e) => Err(String::from_str(REGEX_ERROR).concat(e.as_str())),
        Ok(false) => Err(String::from_str(INVALID_USERNAME)),
        Ok(true) => Ok(GitHubUsername(String::from_str(s))),
    }
}

impl GitHubUsername {
    /// Reads a username: non-empty, at most 39 bytes, letters, digits and
    /// hyphens, neither first nor last.
    pub fn parse(s: &str) -> (r: Result<GitHubUsername, String>)
        ensures
            s@.len() == 0 ==> fails_with(r, EMPTY_USERNAME@),
            s@.len() > 0 && s.spec_bytes().len() > MAX_USERNAME_BYTES ==> fails_with(r, LONG_USERNAME@),
            s@.len() > 0 && s.spec_bytes().len() <= MAX_USERNAME_BYTES ==> {
                &&& !regex_compiles(USERNAME_PATTERN@) ==> (r matches Err(m) && REGEX_ERROR@.is_prefix_of(m@))
                &&& regex_compiles(USERNAME_PATTERN@) && !regex_matches(USERNAME_PATTERN@, s@)
                    ==> fails_with(r, INVALID_USERNAME@)
                &&& regex_compiles(USERNAME_PATTERN@) && regex_matches(USERNAME_PATTERN@, s@)
                    ==> (r matches Ok(u) && u.0@ == s@)
            },
    {
        if s.is_empty() || s.as_bytes().len() > MAX_USERNAME_BYTES {
            return check_username(s, Ok(false));
        }
        let matched = match compile_pattern(USERNAME_PATTERN) {
            Ok(p) => Ok(pattern_matches(&p, s)),
            Err(e) => Err(e),
        };
        let r = check_username(s, matched);
        proof {
            if matched is Err {
                assert((REGEX_ERROR@ + matched->Err_0@).subrange(0, REGEX_ERROR@.len() as int)
                    =~= REGEX_ERROR@);
            }
        }
        r
    }
}

impl std::str::FromStr for GitHubUsername {
    type Err = String;

    fn from_str(s: &str) -> Result<GitHubUsername, String> {
        GitHubUsername::parse(s)
    }
}

// ---------------------------------------------------------------- period

/// The longest period, in days: the calendar library's durations reach
/// `i64::MAX` milliseconds.
pub const MAX_PERIOD_DAYS: i64 = 106_751_991_167;

pub const SECONDS_PER_DAY: i64 = 86_400;

pub const PERIOD_FORMAT_ERROR: &'static str = "Invalid period format. Use e.g., 1d, 7d, 30d, 2w, 1m";

pub const PERIOD_NUMBER_ERROR: &'static str = "Invalid number in period";

pub const PERIOD_TOO_LONG: &'static str = "Period is too long";

pub const PERIOD_OUT_OF_RANGE: &'static str = "Period reaches outside the representable time range";

/// A span of whole days, counted back from the end of a date range.
#[derive(Debug, Clone, Copy, PartialEq, Eq)]
pub struct Period {
    pub days: i64,
}

impl Period {
    pub fn num_days(&self) -> (r: i64)
        ensures
            r == self.days,
    {
        self.days
    }
}

pub open spec fn is_digit(c: char) -> bool {
    '0' <= c <= '9'
}

/// The number of digits that `s` starts with.
pub open spec fn leading_digits(s: Seq<char>) -> nat
    decreases s.len(),
{
    if s.len() > 0 && is_digit(s[0]) {
        1 + leading_digits(s.drop_first())
    } else {
        0
    }
}

/// The value of a string of decimal digits.
pub open spec fn decimal(s: Seq<char>) -> int
    decreases s.len(),
{
    if s.len() == 0 {
        0
    } else {
        decimal(s.drop_last()) * 10 + (s.last() as int - '0' as int)
    }
}

pub open spec fn unit_error_message(unit: Seq<char>) -> Seq<char> {
    "Invalid period unit: "@ + unit + ". Use d (days), w (weeks), or m (months)"@
}

/// What a period text amounts to: a number of days, or an error message.
/// The text is an amount in decimal digits followed by a unit: `d` days,
/// `w` weeks of 7 days, `m` months of 30 days.
pub open spec fn period_reading(s: Seq<char>) -> Result<int, Seq<char>> {
    let k = leading_digits(s);
    if k == s.len() {
        Err(PERIOD_FORMAT_ERROR@)
    } else if k == 0 || decimal(s.take(k as int)) > i64::MAX {
        Err(PERIOD_NUMBER_ERROR@)
    } else {
        let amount = decimal(s.take(k as int));
        let unit = s.skip(k as int);
        let days = if unit == "d"@ {
            Some(amount)
        } else if unit == "w"@ {
            Some(amount * 7)
        } else if unit == "m"@ {
            Some(amount * 30)
        } else {
            None
        };
        match days {
            None => Err(unit_error_message(unit)),
            Some(d) => if d > MAX_PERIOD_DAYS {
                Err(PERIOD_TOO_LONG@)
            } else {
                Ok(d)
            },
        }
    }
}

proof fn lemma_leading_digits(s: Seq<char>, k: int)
    requires
        0 <= k <= s.len(),
        forall|j: int| 0 <= j < k ==> is_digit(#[trigger] s[j]),
        k == s.len() || !is_digit(s[k]),
    ensures
        leading_digits(s) == k,
    decreases k,
{
    if k > 0 {
        let t = s.drop_first();
        assert forall|j: int| 0 <= j < k - 1 implies is_digit(#[trigger] t[j]) by {
            assert(t[j] == s[j + 1]);
        }
        if k < s.len() {
            assert(t[k - 1] == s[k]);
        }
        lemma_leading_digits(t, k - 1);
    }
}

proof fn lemma_decimal_nonneg(s: Seq<char>)
    requires
        forall|j: int| 0 <= j < s.len() ==> is_digit(#[trigger] s[j]),
    ensures
        decimal(s) >= 0,
    decreases s.len(),
{
    if s.len() > 0 {
        let t = s.drop_last();
        assert forall|j: int| 0 <= j < t.len() implies is_digit(#[trigger] t[j]) by {
            assert(t[j] == s[j]);
        }
        lemma_decimal_nonneg(t);
    }
}

proof fn lemma_decimal_grows(s: Seq<char>, i: int, k: int)
    requires
        0 <= i <= k <= s.len(),
        forall|j: int| 0 <= j < k ==> is_digit(#[trigger] s[j]),
    ensures
        decimal(s.take(i)) <= decimal(s.take(k)),
    decreases k - i,
{
    if i < k {
        lemma_decimal_grows(s, i, k - 1);
        let t = s.take(k);
        assert(t.drop_last() =~= s.take(k - 1));
        assert forall|j: int| 0 <= j < k - 1 implies is_digit(#[trigger] s.take(k - 1)[j]) by {
            assert(s.take(k - 1)[j] == s[j]);
        }
        lemma_decimal_nonneg(s.take(k - 1));
        assert(t.last() == s[k - 1]);
    }
}

/// The number of digits that `s` starts with.
fn count_leading_digits(s: &str) -> (k: usize)
    ensures
        k == leading_digits(s@),
        k <= s@.len(),
        forall|j: int| 0 <= j < k ==> is_digit(#[trigger] s@[j]),
{
    let n = s.unicode_len();
    let mut k: usize = 0;
    while k < n
        invariant
            k <= n,
            n == s@.len(),
            forall|j: int| 0 <= j < k ==> is_digit(#[trigger] s@[j]),
        decreases n - k,
    {
        let c = s.get_char(k);
        if !('0' <= c && c <= '9') {
            proof {
                lemma_leading_digits(s@, k as int);
            }
            return k;
        }
        k = k + 1;
    }
    proof {
        lemma_leading_digits(s@, k as int);
    }
    k
}

/// The value of the first `k` characters of `s`, all digits, if it fits in
/// an `i64`.
fn decimal_prefix(s: &str, k: usize) -> (r: Option<i64>)
    requires
        k <= s@.len(),
        forall|j: int| 0 <= j < k ==> is_digit(#[trigger] s@[j]),
    ensures
        match r {
            Some(v) => v == decimal(s@.take(k as int)),
            None => decimal(s@.take(k as int)) > i64::MAX,
        },
{
    let mut value: i64 = 0;
    let mut i: usize = 0;
    assert(s@.take(0) =~= Seq::<char>::empty());
    while i < k
        invariant
            i <= k <= s@.len(),
            forall|j: int| 0 <= j < k ==> is_digit(#[trigger] s@[j]),
            value == decimal(s@.take(i as int)),
        decreases k - i,
    {
        let c = s.get_char(i);
        let d = (c as u32 - '0' as u32) as i64;
        proof {
            let t = s@.take(i + 1);
            assert(t.drop_last() =~= s@.take(i as int));
            assert(t.last() == c);
        }
        let next = match value.checked_mul(10) {
            Some(m) => m.checked_add(d),
            None => None,
        };
        match next {
            Some(v) => {
                value = v;
            },
            None => {
                proof {
                    lemma_decimal_nonneg(s@.take(i as int));
                    lemma_decimal_grows(s@, i + 1, k as int);
                }
                return None;
            },
        }
        i = i + 1;
    }
    Some(value)
}

/// Reads a period: an amount in decimal digits followed by `d` (days), `w`
/// (weeks) or `m` (months of 30 days).
pub fn parse_period(arg: &str) -> (r: Result<Period, String>)
    ensures
        match period_reading(arg@) {
            Ok(d) => (r matches Ok(p) && p.days == d),
            Err(m) => fails_with(r, m),
        },
{
    let n = arg.unicode_len();
    let k = count_leading_digits(arg);
    if k == n {
        return Err(String::from_str(PERIOD_FORMAT_ERROR));
    }
    if k == 0 {
        return Err(String::from_str(PERIOD_NUMBER_ERROR));
    }
    let amount = match decimal_prefix(arg, k) {
        Some(v) => v,
        None => {
            return Err(String::from_str(PERIOD_NUMBER_ERROR));
        },
    };
    let unit = arg.substring_char(k, n);
    assert(unit@ == arg@.skip(k as int));
    proof {
        reveal_strlit("d");
        reveal_strlit("w");
        reveal_strlit("m");
    }
    let days = if text_eq(unit, "d") {
        Some(amount)
    } else if text_eq(unit, "w") {
        amount.checked_mul(7)
    } else if text_eq(unit, "m") {
        amount.checked_mul(30)
    } else {
        return Err(concat3(
            "Invalid period unit: ",
            unit,
            ". Use d (days), w (weeks), or m (months)",
        ));
    };
    proof {
        assert forall|j: int| 0 <= j < k implies is_digit(#[trigger] arg@.take(k as int)[j]) by {
            assert(arg@.take(k as int)[j] == arg@[j]);
        }
        lemma_decimal_nonneg(arg@.take(k as int));
    }
    match days {
        Some(d) => {
            if d > MAX_PERIOD_DAYS {
                Err(String::from_str(PERIOD_TOO_LONG))
            } else {
                Ok(Period { days: d })
            }
        },
        None => Err(String::from_str(PERIOD_TOO_LONG)),
    }
}

// ---------------------------------------------------------------- dates

/// The format of a plain calendar date.
pub const DATE_FORMAT: &'static str = "%Y-%m-%d";

pub const DATE_ERROR: &'static str = "Invalid date format. Use ISO 8601 format (e.g., 2024-01-01 or 2024-01-01T00:00:00Z)";

/// Midnight UTC at the start of day number `days`.
pub open spec fn midnight(days: i32) -> UtcTime {
    UtcTime { secs: (days * SECONDS_PER_DAY) as i64, nanos: 0 }
}

/// Reads an instant: an RFC 3339 date and time, or else a plain date
/// `YYYY-MM-DD`, read as midnight UTC.
pub fn parse_datetime(s: &str) -> (r: Result<UtcTime, String>)
    ensures
        match rfc3339_instant(s@) {
            Some(t) => r == Ok::<UtcTime, String>(t),
            None => match date_epoch_days(s@, DATE_FORMAT@) {
                Some(d) => r == Ok::<UtcTime, String>(midnight(d)),
                None => fails_with(r, DATE_ERROR@),
            },
        },
{
    match parse_rfc3339(s) {
        Some(t) => Ok(t),
        None => match parse_date_days(s, DATE_FORMAT) {
            Some(d) => {
                assert(-2147483648 * 86400 <= d * 86400 <= 2147483647 * 86400) by (nonlinear_arith)
                    requires
                        i32::MIN <= d <= i32::MAX,
                ;
                Ok(UtcTime { secs: d as i64 * SECONDS_PER_DAY, nanos: 0 })
            },
            None => Err(String::from_str(DATE_ERROR)),
        },
    }
}

pub const START_NOT_BEFORE_END: &'static str = "Start date must be before end date";

pub const PERIOD_OR_RANGE: &'static str = "Either specify --period or both --from and --to";

/// The instant `days` whole days before `t`, if it has whole seconds that fit.
pub open spec fn days_before(t: UtcTime, days: i64) -> Option<UtcTime> {
    let secs = t.secs - days * SECONDS_PER_DAY;
    if i64::MIN <= secs <= i64::MAX {
        Some(UtcTime { secs: secs as i64, nanos: t.nanos })
    } else {
        None
    }
}

/// The date range that a period or an explicit range asks for, when the time
/// is `now`: the period counted back from `now`, or `[from, to)` when `from`
/// comes before `to`.
pub open spec fn range_reading(
    period: Option<Period>,
    from: Option<UtcTime>,
    to: Option<UtcTime>,
    now: UtcTime,
) -> Result<(UtcTime, UtcTime), Seq<char>> {
    match (period, from, to) {
        (Some(p), None, None) => match days_before(now, p.days) {
            Some(start) => Ok((start, now)),
            None => Err(PERIOD_OUT_OF_RANGE@),
        },
        (None, Some(f), Some(t)) => if earlier(f, t) {
            Ok((f, t))
        } else {
            Err(START_NOT_BEFORE_END@)
        },
        _ => Err(PERIOD_OR_RANGE@),
    }
}

pub open spec fn range_result_is(
    r: Result<(UtcTime, UtcTime), String>,
    expected: Result<(UtcTime, UtcTime), Seq<char>>,
) -> bool {
    match expected {
        Ok(range) => r == Ok::<(UtcTime, UtcTime), String>(range),
        Err(m) => fails_with(r, m),
    }
}

fn shift_back(t: UtcTime, days: i64) -> (r: Option<UtcTime>)
    ensures
        r == days_before(t, days),
{
    assert(-9223372036854775808 * 86400 <= days * 86400 <= 9223372036854775807 * 86400)
        by (nonlinear_arith)
        requires
            i64::MIN <= days <= i64::MAX,
    ;
    let secs: i128 = t.secs as i128 - days as i128 * SECONDS_PER_DAY as i128;
    if i64::MIN as i128 <= secs && secs <= i64::MAX as i128 {
        Some(UtcTime { secs: secs as i64, nanos: t.nanos })
    } else {
        None
    }
}

/// The date range of a period counted back from `now`, or of an explicit
/// `[from, to)`; exactly one of the two must be given.
pub fn date_range_at(
    period: Option<Period>,
    from: Option<UtcTime>,
    to: Option<UtcTime>,
    now: UtcTime,
) -> (r: Result<(UtcTime, UtcTime), String>)
    ensures
        range_result_is(r, range_reading(period, from, to, now)),
{
    match (period, from, to) {
        (Some(p), None, None) => match shift_back(now, p.days) {
            Some(start) => Ok((start, now)),
            None => Err(String::from_str(PERIOD_OUT_OF_RANGE)),
        },
        (None, Some(f), Some(t)) => {
            if f.is_before(&t) {
                Ok((f, t))
            } else {
                Err(String::from_str(START_NOT_BEFORE_END))
            }
        },
        _ => Err(String::from_str(PERIOD_OR_RANGE)),
    }
}

/// The arguments of one retrieval.
#[derive(Debug, Clone)]
pub struct Args {
    pub username: GitHubUsername,
    /// A period counted back from now; excludes `from` and `to`.
    pub period: Option<Period>,
    pub from: Option<UtcTime>,
    pub to: Option<UtcTime>,
    /// Keep only this repository ("owner/repo").
    pub repo: Option<String>,
    /// Keep only repositories of this organization.
    pub org: Option<String>,
    pub format: OutputFormat,
}

impl Args {
    /// The date range to query: the period counted back from the current
    /// time, or `[from, to)`.
    pub fn get_date_range(&self) -> (r: Result<(UtcTime, UtcTime), String>)
        ensures
            self.period is None ==> range_result_is(
                r,
                range_reading(None, self.from, self.to, UtcTime { secs: 0, nanos: 0 }),
            ),
            self.period is Some && (self.from is Some || self.to is Some) ==> fails_with(
                r,
                PERIOD_OR_RANGE@,
            ),
            self.period is Some && self.from is None && self.to is None ==> match r {
                Ok((start, end)) => days_before(end, self.period->Some_0.days) == Some(start),
                Err(m) => m@ == PERIOD_OUT_OF_RANGE@,
            },
    {
        match (self.period, self.from, self.to) {
            (Some(_), None, None) => date_range_at(self.period, None, None, now()),
            _ => date_range_at(self.period, self.from, self.to, UtcTime { secs: 0, nanos: 0 }),
        }
    }
}

} // verus!
