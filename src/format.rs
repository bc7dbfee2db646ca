//! Rendering a retrieval as a plain text or Markdown report.
//!
//! Each report is specified line by line: [`plain_report`] and
//! [`markdown_report`] give its exact text, and the renderers are proved to
//! write exactly that.
use vstd::prelude::*;
use vstd::string::*;
use crate::activity::{
    CalendarWeek, ContributionDay, ContributionsCollection, IssueContribution,
    PullRequestContribution, PullRequestReviewContribution, RepositoryContribution, ResponseData,
};

verus! {

// ---------------------------------------------------------------- text pieces

/// The characters of a list of items, each written by `f`, in order.
pub open spec fn concat_map<A>(s: Seq<A>, f: spec_fn(A) -> Seq<char>) -> Seq<char>
    decreases s.len(),
{
    if s.len() == 0 {
        Seq::empty()
    } else {
        concat_map(s.drop_last(), f) + f(s.last())
    }
}

proof fn lemma_concat_map_step<A>(s: Seq<A>, i: int, f: spec_fn(A) -> Seq<char>)
    requires
        0 <= i < s.len(),
    ensures
        concat_map(s.take(i + 1), f) == concat_map(s.take(i), f) + f(s[i]),
{
    assert(s.take(i + 1).drop_last() =~= s.take(i));
}

proof fn lemma_concat_map_all<A>(s: Seq<A>, f: spec_fn(A) -> Seq<char>)
    ensures
        concat_map(s.take(s.len() as int), f) == concat_map(s, f),
{
    assert(s.take(s.len() as int) =~= s);
}

pub open spec fn digit_char(d: nat) -> char {
    if d == 0 { '0' }
    else if d == 1 { '1' }
    else if d == 2 { '2' }
    else if d == 3 { '3' }
    else if d == 4 { '4' }
    else if d == 5 { '5' }
    else if d == 6 { '6' }
    else if d == 7 { '7' }
    else if d == 8 { '8' }
    else { '9' }
}

/// The decimal digits of `n`, without leading zeros.
pub open spec fn digits_of(n: nat) -> Seq<char>
    decreases n,
{
    if n < 10 {
        seq![digit_char(n)]
    } else {
        digits_of(n / 10) + seq![digit_char(n % 10)]
    }
}

/// The decimal text of an integer, with a minus sign when negative.
pub open spec fn int_text(n: int) -> Seq<char> {
    if n < 0 {
        seq!['-'] + digits_of((-n) as nat)
    } else {
        digits_of(n as nat)
    }
}

pub open spec fn bool_text(b: bool) -> Seq<char> {
    if b {
        "true"@
    } else {
        "false"@
    }
}

/// The quoted, escaped form in which `Debug` writes a text.
pub uninterp spec fn debug_quoted(s: Seq<char>) -> Seq<char>;

/// How `Debug` writes an optional text.
pub open spec fn debug_option(o: Option<String>) -> Seq<char> {
    match o {
        Some(s) => "Some("@ + debug_quoted(s@) + ")"@,
        None => "None"@,
    }
}

/// An optional text, or `N/A` when absent.
pub open spec fn or_na(o: Option<String>) -> Seq<char> {
    match o {
        Some(s) => s@,
        None => "N/A"@,
    }
}

pub open spec fn spaces(n: nat) -> Seq<char> {
    Seq::new(n, |i: int| ' ')
}

/// `s` followed by spaces up to `width` characters.
pub open spec fn pad_right(s: Seq<char>, width: nat) -> Seq<char> {
    if s.len() < width {
        s + spaces((width - s.len()) as nat)
    } else {
        s
    }
}

/// `s` preceded by spaces up to `width` characters.
pub open spec fn pad_left(s: Seq<char>, width: nat) -> Seq<char> {
    if s.len() < width {
        spaces((width - s.len()) as nat) + s
    } else {
        s
    }
}

/// The nodes of an optional list, none when absent.
pub open spec fn listed<T>(o: Option<Vec<T>>) -> Seq<T> {
    match o {
        Some(v) => v@,
        None => Seq::empty(),
    }
}

/// Relies on `<str as Debug>::fmt`: the quoted, escaped text, which depends
/// on the characters alone.
#[verifier::external_body]
fn debug_text(s: &str) -> (r: String)
    ensures
        r@ == debug_quoted(s@),
{
    format!("{:?}", s)
}

fn digit_text(d: u64) -> (r: &'static str)
    requires
        d < 10,
    ensures
        r@ == seq![digit_char(d as nat)],
{
    proof {
        reveal_strlit("0");
        reveal_strlit("1");
        reveal_strlit("2");
        reveal_strlit("3");
        reveal_strlit("4");
        reveal_strlit("5");
        reveal_strlit("6");
        reveal_strlit("7");
        reveal_strlit("8");
        reveal_strlit("9");
    }
    if d == 0 { "0" }
    else if d == 1 { "1" }
    else if d == 2 { "2" }
    else if d == 3 { "3" }
    else if d == 4 { "4" }
    else if d == 5 { "5" }
    else if d == 6 { "6" }
    else if d == 7 { "7" }
    else if d == 8 { "8" }
    else { "9" }
}

/// The decimal text of `n`.
pub fn integer_text(n: i64) -> (r: String)
    ensures
        r@ == int_text(n as int),
{
    let negative = n < 0;
    let mut m: u64 = if negative {
        (0i128 - n as i128) as u64
    } else {
        n as u64
    };
    let ghost whole: nat = m as nat;
    let mut acc = String::new();
    loop
        invariant_except_break
            digits_of(whole) == digits_of(m as nat) + acc@,
        ensures
            digits_of(whole) == acc@,
        decreases m,
    {
        let d = m % 10;
        let piece = String::from_str(digit_text(d));
        let ghost before = acc@;
        acc = piece.concat(acc.as_str());
        if m < 10 {
            assert(acc@ =~= digits_of(m as nat) + before);
            break;
        }
        assert(digits_of(m as nat) == digits_of((m / 10) as nat) + seq![digit_char(d as nat)]);
        m = m / 10;
        assert(digits_of(whole) =~= digits_of(m as nat) + acc@);
    }
    if negative {
        proof {
            reveal_strlit("-");
        }
        String::from_str("-").concat(acc.as_str())
    } else {
        acc
    }
}

fn bool_string(b: bool) -> (r: &'static str)
    ensures
        r@ == bool_text(b),
{
    if b {
        "true"
    } else {
        "false"
    }
}

fn debug_option_text(o: &Option<String>) -> (r: String)
    ensures
        r@ == debug_option(*o),
{
    match o {
        Some(s) => String::from_str("Some(").concat(debug_text(s.as_str()).as_str()).concat(")"),
        None => String::from_str("None"),
    }
}

fn or_na_text(o: &Option<String>) -> (r: &str)
    ensures
        r@ == or_na(*o),
{
    match o {
        Some(s) => s.as_str(),
        None => "N/A",
    }
}

fn spaces_text(n: usize) -> (r: String)
    ensures
        r@ == spaces(n as nat),
{
    let mut r = String::new();
    let mut i: usize = 0;
    while i < n
        invariant
            i <= n,
            r@ == spaces(i as nat),
        decreases n - i,
    {
        proof {
            reveal_strlit(" ");
        }
        r.append(" ");
        assert(r@ =~= spaces((i + 1) as nat));
        i = i + 1;
    }
    r
}

fn padded_right(s: &str, width: usize) -> (r: String)
    ensures
        r@ == pad_right(s@, width as nat),
{
    let n = s.unicode_len();
    if n < width {
        String::from_str(s).concat(spaces_text(width - n).as_str())
    } else {
        String::from_str(s)
    }
}

fn padded_left(s: &str, width: usize) -> (r: String)
    ensures
        r@ == pad_left(s@, width as nat),
{
    let n = s.unicode_len();
    if n < width {
        spaces_text(width - n).concat(s)
    } else {
        String::from_str(s)
    }
}

// ---------------------------------------------------------------- lines

/// The line (or lines) that a report writes for one day.
pub open spec fn day_line(markdown: bool, d: ContributionDay) -> Seq<char> {
    if markdown {
        "* "@ + d.date@ + ": "@ + int_text(d.contribution_count as int)
            + " contributions (weekday "@ + int_text(d.weekday as int) + ")\n"@
    } else {
        "    "@ + d.date@ + ": "@ + int_text(d.contribution_count as int)
            + " contributions (weekday "@ + int_text(d.weekday as int) + ")\n"@
    }
}

pub open spec fn day_fn(markdown: bool) -> spec_fn(ContributionDay) -> Seq<char> {
    |d: ContributionDay| day_line(markdown, d)
}

fn day_text(markdown: bool, d: &ContributionDay) -> (s: String)
    ensures
        s@ == day_line(markdown, *d),
{
    if markdown {
        let s = String::from_str("* ");
        let s = s.concat(d.date.as_str());
        let s = s.concat(": ");
        let s = s.concat(integer_text(d.contribution_count).as_str());
        let s = s.concat(" contributions (weekday ");
        let s = s.concat(integer_text(d.weekday).as_str());
        let s = s.concat(")\n");
        s
    } else {
        let s = String::from_str("    ");
        let s = s.concat(d.date.as_str());
        let s = s.concat(": ");
        let s = s.concat(integer_text(d.contribution_count).as_str());
        let s = s.concat(" contributions (weekday ");
        let s = s.concat(integer_text(d.weekday).as_str());
        let s = s.concat(")\n");
        s
    }
}

/// The line (or lines) that a report writes for one repo.
pub open spec fn repo_line(markdown: bool, r: RepositoryContribution) -> Seq<char> {
    if markdown {
        "| "@ + pad_right(r.repository.name_with_owner@, 22) + " | "@
            + pad_left(int_text(r.contributions.total_count as int), 7) + " |\n"@
    } else {
        "- "@ + r.repository.name_with_owner@ + ": "@ + int_text(r.contributions.total_count as int)
            + " commits\n"@
    }
}

pub open spec fn repo_fn(markdown: bool) -> spec_fn(RepositoryContribution) -> Seq<char> {
    |r: RepositoryContribution| repo_line(markdown, r)
}

fn repo_text(markdown: bool, r: &RepositoryContribution) -> (s: String)
    ensures
        s@ == repo_line(markdown, *r),
{
    if markdown {
        let s = String::from_str("| ");
        let s = s.concat(padded_right(r.repository.name_with_owner.as_str(), 22).as_str());
        let s = s.concat(" | ");
        let count = integer_text(r.contributions.total_count);
        let s = s.concat(padded_left(count.as_str(), 7).as_str());
        let s = s.concat(" |\n");
        s
    } else {
        let s = String::from_str("- ");
        let s = s.concat(r.repository.name_with_owner.as_str());
        let s = s.concat(": ");
        let s = s.concat(integer_text(r.contributions.total_count).as_str());
        let s = s.concat(" commits\n");
        s
    }
}

/// The line (or lines) that a report writes for one issue.
pub open spec fn issue_line(markdown: bool, n: IssueContribution) -> Seq<char> {
    if markdown {
        "| "@ + int_text(n.issue.number as int) + " | "@ + n.issue.title@ + " | "@ + n.issue.url@
            + " | "@ + n.issue.created_at@ + " | "@ + n.issue.state@ + " | "@
            + or_na(n.issue.closed_at) + " |\n"@
    } else {
        "- Issue #"@ + int_text(n.issue.number as int) + ": "@ + n.issue.title@ + "\n  URL: "@
            + n.issue.url@ + "\n  Created: "@ + n.issue.created_at@ + "\n  State: "@
            + n.issue.state@ + "\n  Closed: "@ + debug_option(n.issue.closed_at) + "\n"@
    }
}

pub open spec fn issue_fn(markdown: bool) -> spec_fn(IssueContribution) -> Seq<char> {
    |n: IssueContribution| issue_line(markdown, n)
}

fn issue_text(markdown: bool, n: &IssueContribution) -> (s: String)
    ensures
        s@ == issue_line(markdown, *n),
{
    if markdown {
        let s = String::from_str("| ");
        let s = s.concat(integer_text(n.issue.number).as_str());
        let s = s.concat(" | ");
        let s = s.concat(n.issue.title.as_str());
        let s = s.concat(" | ");
        let s = s.concat(n.issue.url.as_str());
        let s = s.concat(" | ");
        let s = s.concat(n.issue.created_at.as_str());
        let s = s.concat(" | ");
        let s = s.concat(n.issue.state.as_str());
        let s = s.concat(" | ");
        let s = s.concat(or_na_text(&n.issue.closed_at));
        let s = s.concat(" |\n");
        s
    } else {
        let s = String::from_str("- Issue #");
        let s = s.concat(integer_text(n.issue.number).as_str());
        let s = s.concat(": ");
        let s = s.concat(n.issue.title.as_str());
        let s = s.concat("\n  URL: ");
        let s = s.concat(n.issue.url.as_str());
        let s = s.concat("\n  Created: ");
        let s = s.concat(n.issue.created_at.as_str());
        let s = s.concat("\n  State: ");
        let s = s.concat(n.issue.state.as_str());
        let s = s.concat("\n  Closed: ");
        let s = s.concat(debug_option_text(&n.issue.closed_at).as_str());
        let s = s.concat("\n");
        s
    }
}

/// The line (or lines) that a report writes for one pull request.
pub open spec fn pull_request_line(markdown: bool, n: PullRequestContribution) -> Seq<char> {
    if markdown {
        "| "@ + int_text(n.pull_request.number as int) + " | "@ + n.pull_request.title@ + " | "@
            + n.pull_request.url@ + " | "@ + n.pull_request.created_at@ + " | "@
            + n.pull_request.state@ + " | "@ + bool_text(n.pull_request.merged) + " | "@
            + or_na(n.pull_request.merged_at) + " | "@ + or_na(n.pull_request.closed_at) + " |\n"@
    } else {
        "- PR #"@ + int_text(n.pull_request.number as int) + ": "@ + n.pull_request.title@
            + "\n  URL: "@ + n.pull_request.url@ + "\n  Created: "@ + n.pull_request.created_at@
            + "\n  State: "@ + n.pull_request.state@ + "\n  Merged: "@
            + bool_text(n.pull_request.merged) + "\n  Merged At: "@
            + debug_option(n.pull_request.merged_at) + "\n  Closed: "@
            + debug_option(n.pull_request.closed_at) + "\n"@
    }
}

pub open spec fn pull_request_fn(markdown: bool) -> spec_fn(PullRequestContribution) -> Seq<char> {
    |n: PullRequestContribution| pull_request_line(markdown, n)
}

fn pull_request_text(markdown: bool, n: &PullRequestContribution) -> (s: String)
    ensures
        s@ == pull_request_line(markdown, *n),
{
    if markdown {
        let s = String::from_str("| ");
        let s = s.concat(integer_text(n.pull_request.number).as_str());
        let s = s.concat(" | ");
        let s = s.concat(n.pull_request.title.as_str());
        let s = s.concat(" | ");
        let s = s.concat(n.pull_request.url.as_str());
        let s = s.concat(" | ");
        let s = s.concat(n.pull_request.created_at.as_str());
        let s = s.concat(" | ");
        let s = s.concat(n.pull_request.state.as_str());
        let s = s.concat(" | ");
        let s = s.concat(bool_string(n.pull_request.merged));
        let s = s.concat(" | ");
        let s = s.concat(or_na_text(&n.pull_request.merged_at));
        let s = s.concat(" | ");
        let s = s.concat(or_na_text(&n.pull_request.closed_at));
        let s = s.concat(" |\n");
        s
    } else {
        let s = String::from_str("- PR #");
        let s = s.concat(integer_text(n.pull_request.number).as_str());
        let s = s.concat(": ");
        let s = s.concat(n.pull_request.title.as_str());
        let s = s.concat("\n  URL: ");
        let s = s.concat(n.pull_request.url.as_str());
        let s = s.concat("\n  Created: ");
        let s = s.concat(n.pull_request.created_at.as_str());
        let s = s.concat("\n  State: ");
        let s = s.concat(n.pull_request.state.as_str());
        let s = s.concat("\n  Merged: ");
        let s = s.concat(bool_string(n.pull_request.merged));
        let s = s.concat("\n  Merged At: ");
        let s = s.concat(debug_option_text(&n.pull_request.merged_at).as_str());
        let s = s.concat("\n  Closed: ");
        let s = s.concat(debug_option_text(&n.pull_request.closed_at).as_str());
        let s = s.concat("\n");
        s
    }
}

/// The line (or lines) that a report writes for one review.
pub open spec fn review_line(markdown: bool, n: PullRequestReviewContribution) -> Seq<char> {
    if markdown {
        "| "@ + int_text(n.pull_request_review.pull_request.number as int) + " | "@
            + n.pull_request_review.pull_request.title@ + " | "@
            + n.pull_request_review.pull_request.url@ + " | "@ + n.occurred_at@ + " |\n"@
    } else {
        "- PR Review for PR #"@ + int_text(n.pull_request_review.pull_request.number as int) + ": "@
            + n.pull_request_review.pull_request.title@ + "\n  URL: "@
            + n.pull_request_review.pull_request.url@ + "\n  Occurred At: "@ + n.occurred_at@
            + "\n"@
    }
}

pub open spec fn review_fn(markdown: bool) -> spec_fn(PullRequestReviewContribution) -> Seq<char> {
    |n: PullRequestReviewContribution| review_line(markdown, n)
}

fn review_text(markdown: bool, n: &PullRequestReviewContribution) -> (s: String)
    ensures
        s@ == review_line(markdown, *n),
{
    if markdown {
        let s = String::from_str("| ");
        let s = s.concat(integer_text(n.pull_request_review.pull_request.number).as_str());
        let s = s.concat(" | ");
        let s = s.concat(n.pull_request_review.pull_request.title.as_str());
        let s = s.concat(" | ");
        let s = s.concat(n.pull_request_review.pull_request.url.as_str());
        let s = s.concat(" | ");
        let s = s.concat(n.occurred_at.as_str());
        let s = s.concat(" |\n");
        s
    } else {
        let s = String::from_str("- PR Review for PR #");
        let s = s.concat(integer_text(n.pull_request_review.pull_request.number).as_str());
        let s = s.concat(": ");
        let s = s.concat(n.pull_request_review.pull_request.title.as_str());
        let s = s.concat("\n  URL: ");
        let s = s.concat(n.pull_request_review.pull_request.url.as_str());
        let s = s.concat("\n  Occurred At: ");
        let s = s.concat(n.occurred_at.as_str());
        let s = s.concat("\n");
        s
    }
}

fn append_repo_lines(out: &mut String, repos: &Vec<RepositoryContribution>, markdown: bool)
    ensures
        final(out)@ == old(out)@ + concat_map(repos@, repo_fn(markdown)),
{
    let ghost start = out@;
    let items = repos;
    let mut i: usize = 0;
    assert(start + concat_map(items@.take(0), repo_fn(markdown)) =~= start);
    while i < items.len()
        invariant
            i <= items@.len(),
            items@ == repos@,
            out@ == start + concat_map(items@.take(i as int), repo_fn(markdown)),
        decreases items@.len() - i,
    {
        let line = repo_text(markdown, &items[i]);
        out.append(line.as_str());
        proof {
            lemma_concat_map_step(items@, i as int, repo_fn(markdown));
        }
        i = i + 1;
    }
    proof {
        lemma_concat_map_all(items@, repo_fn(markdown));
    }
}

fn append_issue_lines(out: &mut String, nodes: &Option<Vec<IssueContribution>>, markdown: bool)
    ensures
        final(out)@ == old(out)@ + concat_map(listed(*nodes), issue_fn(markdown)),
{
    let ghost start = out@;
    let empty: Vec<IssueContribution> = Vec::new();
    let items = match nodes {
        Some(v) => v,
        None => &empty,
    };
    let mut i: usize = 0;
    assert(start + concat_map(items@.take(0), issue_fn(markdown)) =~= start);
    while i < items.len()
        invariant
            i <= items@.len(),
            items@ == listed(*nodes),
            out@ == start + concat_map(items@.take(i as int), issue_fn(markdown)),
        decreases items@.len() - i,
    {
        let line = issue_text(markdown, &items[i]);
        out.append(line.as_str());
        proof {
            lemma_concat_map_step(items@, i as int, issue_fn(markdown));
        }
        i = i + 1;
    }
    proof {
        lemma_concat_map_all(items@, issue_fn(markdown));
    }
}

fn append_pull_request_lines(
    out: &mut String,
    nodes: &Option<Vec<PullRequestContribution>>,
    markdown: bool,
)
    ensures
        final(out)@ == old(out)@ + concat_map(listed(*nodes), pull_request_fn(markdown)),
{
    let ghost start = out@;
    let empty: Vec<PullRequestContribution> = Vec::new();
    let items = match nodes {
        Some(v) => v,
        None => &empty,
    };
    let mut i: usize = 0;
    assert(start + concat_map(items@.take(0), pull_request_fn(markdown)) =~= start);
    while i < items.len()
        invariant
            i <= items@.len(),
            items@ == listed(*nodes),
            out@ == start + concat_map(items@.take(i as int), pull_request_fn(markdown)),
        decreases items@.len() - i,
    {
        let line = pull_request_text(markdown, &items[i]);
        out.append(line.as_str());
        proof {
            lemma_concat_map_step(items@, i as int, pull_request_fn(markdown));
        }
        i = i + 1;
    }
    proof {
        lemma_concat_map_all(items@, pull_request_fn(markdown));
    }
}

fn append_review_lines(
    out: &mut String,
    nodes: &Option<Vec<PullRequestReviewContribution>>,
    markdown: bool,
)
    ensures
        final(out)@ == old(out)@ + concat_map(listed(*nodes), review_fn(markdown)),
{
    let ghost start = out@;
    let empty: Vec<PullRequestReviewContribution> = Vec::new();
    let items = match nodes {
        Some(v) => v,
        None => &empty,
    };
    let mut i: usize = 0;
    assert(start + concat_map(items@.take(0), review_fn(markdown)) =~= start);
    while i < items.len()
        invariant
            i <= items@.len(),
            items@ == listed(*nodes),
            out@ == start + concat_map(items@.take(i as int), review_fn(markdown)),
        decreases items@.len() - i,
    {
        let line = review_text(markdown, &items[i]);
        out.append(line.as_str());
        proof {
            lemma_concat_map_step(items@, i as int, review_fn(markdown));
        }
        i = i + 1;
    }
    proof {
        lemma_concat_map_all(items@, review_fn(markdown));
    }
}

pub open spec fn week_fn(markdown: bool) -> spec_fn(CalendarWeek) -> Seq<char> {
    |w: CalendarWeek| concat_map(w.contribution_days@, day_fn(markdown))
}

fn append_calendar_lines(out: &mut String, weeks: &Vec<CalendarWeek>, markdown: bool)
    ensures
        final(out)@ == old(out)@ + concat_map(weeks@, week_fn(markdown)),
{
    let ghost start = out@;
    let mut i: usize = 0;
    assert(start + concat_map(weeks@.take(0), week_fn(markdown)) =~= start);
    while i < weeks.len()
        invariant
            i <= weeks@.len(),
            out@ == start + concat_map(weeks@.take(i as int), week_fn(markdown)),
        decreases weeks@.len() - i,
    {
        let days = &weeks[i].contribution_days;
        let ghost week_start = out@;
        let mut j: usize = 0;
        assert(week_start + concat_map(days@.take(0), day_fn(markdown)) =~= week_start);
        while j < days.len()
            invariant
                j <= days@.len(),
                out@ == week_start + concat_map(days@.take(j as int), day_fn(markdown)),
            decreases days@.len() - j,
        {
            let line = day_text(markdown, &days[j]);
            out.append(line.as_str());
            proof {
                lemma_concat_map_step(days@, j as int, day_fn(markdown));
            }
            j = j + 1;
        }
        proof {
            lemma_concat_map_all(days@, day_fn(markdown));
            lemma_concat_map_step(weeks@, i as int, week_fn(markdown));
            assert(out@ =~= start + concat_map(weeks@.take(i + 1), week_fn(markdown)));
        }
        i = i + 1;
    }
    proof {
        lemma_concat_map_all(weeks@, week_fn(markdown));
    }
}

/// The plain text report of one user's contributions.
pub open spec fn plain_body(
    c: ContributionsCollection,
    from: Seq<char>,
    to: Seq<char>,
    user: Seq<char>,
) -> Seq<char> {
        "User: "@
        + user
        + "\n"@
        + "Time Period: "@
        + from
        + " to "@
        + to
        + "\n"@
        + "Total Commit Contributions: "@
        + int_text(c.total_commit_contributions as int)
        + "\n"@
        + "Total Issue Contributions: "@
        + int_text(c.total_issue_contributions as int)
        + "\n"@
        + "Total Pull Request Contributions: "@
        + int_text(c.total_pull_request_contributions as int)
        + "\n"@
        + "Total Pull Request Review Contributions: "@
        + int_text(c.total_pull_request_review_contributions as int)
        + "\n\n"@
        + "Contribution Calendar:\n"@
        + "  Total Contributions: "@
        + int_text(c.contribution_calendar.total_contributions as int)
        + "\n"@
        + concat_map(c.contribution_calendar.weeks@, week_fn(false))
        + "\n"@
        + "Repository Contributions:\n"@
        + concat_map(c.commit_contributions_by_repository@, repo_fn(false))
        + "\n"@
        + "Issue Contributions:\n"@
        + concat_map(listed(c.issue_contributions.nodes), issue_fn(false))
        + "\n"@
        + "Pull Request Contributions:\n"@
        + concat_map(listed(c.pull_request_contributions.nodes), pull_request_fn(false))
        + "\n"@
        + "Pull Request Review Contributions:\n"@
        + concat_map(listed(c.pull_request_review_contributions.nodes), review_fn(false))
}

fn plain_body_text(
    c: &ContributionsCollection,
    start_date: &str,
    end_date: &str,
    username: &str,
) -> (r: String)
    ensures
        r@ == plain_body(*c, start_date@, end_date@, username@),
{
    let mut out = String::from_str("User: ");
    out.append(username);
    out.append("\n");
    out.append("Time Period: ");
    out.append(start_date);
    out.append(" to ");
    out.append(end_date);
    out.append("\n");
    out.append("Total Commit Contributions: ");
    out.append(integer_text(c.total_commit_contributions).as_str());
    out.append("\n");
    out.append("Total Issue Contributions: ");
    out.append(integer_text(c.total_issue_contributions).as_str());
    out.append("\n");
    out.append("Total Pull Request Contributions: ");
    out.append(integer_text(c.total_pull_request_contributions).as_str());
    out.append("\n");
    out.append("Total Pull Request Review Contributions: ");
    out.append(integer_text(c.total_pull_request_review_contributions).as_str());
    out.append("\n\n");
    out.append("Contribution Calendar:\n");
    out.append("  Total Contributions: ");
    out.append(integer_text(c.contribution_calendar.total_contributions).as_str());
    out.append("\n");
    append_calendar_lines(&mut out, &c.contribution_calendar.weeks, false);
    out.append("\n");
    out.append("Repository Contributions:\n");
    append_repo_lines(&mut out, &c.commit_contributions_by_repository, false);
    out.append("\n");
    out.append("Issue Contributions:\n");
    append_issue_lines(&mut out, &c.issue_contributions.nodes, false);
    out.append("\n");
    out.append("Pull Request Contributions:\n");
    append_pull_request_lines(&mut out, &c.pull_request_contributions.nodes, false);
    out.append("\n");
    out.append("Pull Request Review Contributions:\n");
    append_review_lines(&mut out, &c.pull_request_review_contributions.nodes, false);
    out
}

/// The Markdown report of one user's contributions.
pub open spec fn markdown_body(
    c: ContributionsCollection,
    from: Seq<char>,
    to: Seq<char>,
    user: Seq<char>,
) -> Seq<char> {
        "# GitHub Activity Report for "@
        + user
        + "\n\n"@
        + "**Time Period:** "@
        + from
        + " to "@
        + to
        + "\n\n"@
        + "## Summary\n\n"@
        + "- **Total Commit Contributions:** "@
        + int_text(c.total_commit_contributions as int)
        + "\n"@
        + "- **Total Issue Contributions:** "@
        + int_text(c.total_issue_contributions as int)
        + "\n"@
        + "- **Total Pull Request Contributions:** "@
        + int_text(c.total_pull_request_contributions as int)
        + "\n"@
        + "- **Total Pull Request Review Contributions:** "@
        + int_text(c.total_pull_request_review_contributions as int)
        + "\n\n"@
        + "## Contribution Calendar\n\n"@
        + "**Total Contributions:** "@
        + int_text(c.contribution_calendar.total_contributions as int)
        + "\n\n"@
        + concat_map(c.contribution_calendar.weeks@, week_fn(true))
        + "\n"@
        + "## Repository Contributions\n\n"@
        + "| Repository             | Commits |\n"@
        + "|------------------------|---------|\n"@
        + concat_map(c.commit_contributions_by_repository@, repo_fn(true))
        + "\n"@
        + "## Issue Contributions\n\n"@
        + "| Issue # | Title | URL | Created At | State | Closed At |\n"@
        + "|---------|-------|-----|------------|-------|-----------|\n"@
        + concat_map(listed(c.issue_contributions.nodes), issue_fn(true))
        + "\n"@
        + "## Pull Request Contributions\n\n"@
        + "| PR # | Title | URL | Created At | State | Merged | Merged At | Closed At |\n"@
        + "|------|-------|-----|------------|-------|--------|-----------|-----------|\n"@
        + concat_map(listed(c.pull_request_contributions.nodes), pull_request_fn(true))
        + "\n"@
        + "## Pull Request Review Contributions\n\n"@
        + "| PR # | Title | URL | Occurred At |\n"@
        + "|------|-------|-----|-------------|\n"@
        + concat_map(listed(c.pull_request_review_contributions.nodes), review_fn(true))
}

fn markdown_body_text(
    c: &ContributionsCollection,
    start_date: &str,
    end_date: &str,
    username: &str,
) -> (r: String)
    ensures
        r@ == markdown_body(*c, start_date@, end_date@, username@),
{
    let mut out = String::from_str("# GitHub Activity Report for ");
    out.append(username);
    out.append("\n\n");
    out.append("**Time Period:** ");
    out.append(start_date);
    out.append(" to ");
    out.append(end_date);
    out.append("\n\n");
    out.append("## Summary\n\n");
    out.append("- **Total Commit Contributions:** ");
    out.append(integer_text(c.total_commit_contributions).as_str());
    out.append("\n");
    out.append("- **Total Issue Contributions:** ");
    out.append(integer_text(c.total_issue_contributions).as_str());
    out.append("\n");
    out.append("- **Total Pull Request Contributions:** ");
    out.append(integer_text(c.total_pull_request_contributions).as_str());
    out.append("\n");
    out.append("- **Total Pull Request Review Contributions:** ");
    out.append(integer_text(c.total_pull_request_review_contributions).as_str());
    out.append("\n\n");
    out.append("## Contribution Calendar\n\n");
    out.append("**Total Contributions:** ");
    out.append(integer_text(c.contribution_calendar.total_contributions).as_str());
    out.append("\n\n");
    append_calendar_lines(&mut out, &c.contribution_calendar.weeks, true);
    out.append("\n");
    out.append("## Repository Contributions\n\n");
    out.append("| Repository             | Commits |\n");
    out.append("|------------------------|---------|\n");
    append_repo_lines(&mut out, &c.commit_contributions_by_repository, true);
    out.append("\n");
    out.append("## Issue Contributions\n\n");
    out.append("| Issue # | Title | URL | Created At | State | Closed At |\n");
    out.append("|---------|-------|-----|------------|-------|-----------|\n");
    append_issue_lines(&mut out, &c.issue_contributions.nodes, true);
    out.append("\n");
    out.append("## Pull Request Contributions\n\n");
    out.append("| PR # | Title | URL | Created At | State | Merged | Merged At | Closed At |\n");
    out.append("|------|-------|-----|------------|-------|--------|-----------|-----------|\n");
    append_pull_request_lines(&mut out, &c.pull_request_contributions.nodes, true);
    out.append("\n");
    out.append("## Pull Request Review Contributions\n\n");
    out.append("| PR # | Title | URL | Occurred At |\n");
    out.append("|------|-------|-----|-------------|\n");
    append_review_lines(&mut out, &c.pull_request_review_contributions.nodes, true);
    out
}

/// The text of a report for an activity without a user.
pub open spec fn no_user_text() -> Seq<char> {
    "No user data available.\n"@
}

/// The plain text report of an activity over `[from, to)` (both in RFC 3339).
pub open spec fn plain_report(
    a: ResponseData,
    from: Seq<char>,
    to: Seq<char>,
    user: Seq<char>,
) -> Seq<char> {
    match a.user {
        Some(u) => plain_body(u.contributions_collection, from, to, user),
        None => no_user_text(),
    }
}

/// The Markdown report of an activity over `[from, to)` (both in RFC 3339).
pub open spec fn markdown_report(
    a: ResponseData,
    from: Seq<char>,
    to: Seq<char>,
    user: Seq<char>,
) -> Seq<char> {
    match a.user {
        Some(u) => markdown_body(u.contributions_collection, from, to, user),
        None => no_user_text(),
    }
}

/// Writes activity data as a report, given the range (in RFC 3339) and the
/// user it covers.
pub trait FormatData {
    /// The text of the report of `a` over `[from, to)` for `user`.
    spec fn report(&self, a: ResponseData, from: Seq<char>, to: Seq<char>, user: Seq<char>) -> Seq<
        char,
    >;

    fn format(
        &self,
        activity: &ResponseData,
        start_date: &str,
        end_date: &str,
        username: &str,
    ) -> (r: String)
        ensures
            r@ == self.report(*activity, start_date@, end_date@, username@),
    ;
}

/// Writes the plain text report.
pub struct PlainTextFormatter;

/// Writes the Markdown report.
pub struct MarkdownFormatter;

/// The plain text report: a header with the user and range, the counters,
/// the calendar, the repositories, then one entry per issue, pull request
/// and review.
pub fn plain_text_report(
    activity: &ResponseData,
    start_date: &str,
    end_date: &str,
    username: &str,
) -> (r: String)
    ensures
        r@ == plain_report(*activity, start_date@, end_date@, username@),
{
    match &activity.user {
        Some(u) => plain_body_text(&u.contributions_collection, start_date, end_date, username),
        None => String::from_str("No user data available.\n"),
    }
}

/// The Markdown report: the same content as the plain text report, with
/// headings and tables.
pub fn markdown_text_report(
    activity: &ResponseData,
    start_date: &str,
    end_date: &str,
    username: &str,
) -> (r: String)
    ensures
        r@ == markdown_report(*activity, start_date@, end_date@, username@),
{
    match &activity.user {
        Some(u) => markdown_body_text(&u.contributions_collection, start_date, end_date, username),
        None => String::from_str("No user data available.\n"),
    }
}

impl FormatData for PlainTextFormatter {
    open spec fn report(
        &self,
        a: ResponseData,
        from: Seq<char>,
        to: Seq<char>,
        user: Seq<char>,
    ) -> Seq<char> {
        plain_report(a, from, to, user)
    }

    fn format(
        &self,
        activity: &ResponseData,
        start_date: &str,
        end_date: &str,
        username: &str,
    ) -> (r: String) {
        plain_text_report(activity, start_date, end_date, username)
    }
}

impl FormatData for MarkdownFormatter {
    open spec fn report(
        &self,
        a: ResponseData,
        from: Seq<char>,
        to: Seq<char>,
        user: Seq<char>,
    ) -> Seq<char> {
        markdown_report(a, from, to, user)
    }

    fn format(
        &self,
        activity: &ResponseData,
        start_date: &str,
        end_date: &str,
        username: &str,
    ) -> (r: String) {
        markdown_text_report(activity, start_date, end_date, username)
    }
}

} // verus!
