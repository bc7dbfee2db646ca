//! The activity query and the variables of each request.
//!
//! Every request carries all three `(first, after)` pairs; only the connection
//! being drained carries a cursor, the others ask for their first page.
use vstd::prelude::*;
use vstd::string::*;
use crate::time::{rfc3339_of, rfc3339_text, UtcTime};

verus! {

/// The number of nodes asked for per page of each connection.
pub const PAGE_SIZE: i64 = 10;

/// The operation name under which the query is sent.
pub const OPERATION_NAME: &'static str = "UserActivity";

/// The query document sent with every request.
pub const QUERY: &'static str = "query UserActivity($username: String!, $from: DateTime!, $to: DateTime!, $issuesFirst: Int!, $issuesAfter: String, $prsFirst: Int!, $prsAfter: String, $prReviewsFirst: Int!, $prReviewsAfter: String) {
  user(login: $username) {
    contributionsCollection(from: $from, to: $to) {
      totalCommitContributions
      totalIssueContributions
      totalPullRequestContributions
      totalPullRequestReviewContributions
      contributionCalendar {
        totalContributions
        weeks { contributionDays { date contributionCount weekday } }
      }
      commitContributionsByRepository {
        repository { nameWithOwner updatedAt }
        contributions { totalCount }
      }
      issueContributions(first: $issuesFirst, after: $issuesAfter) {
        totalCount
        pageInfo { endCursor hasNextPage }
        nodes { issue { number title url createdAt state closedAt } }
      }
      pullRequestContributions(first: $prsFirst, after: $prsAfter) {
        totalCount
        pageInfo { endCursor hasNextPage }
        nodes { pullRequest { number title url createdAt state merged mergedAt closedAt } }
      }
      pullRequestReviewContributions(first: $prReviewsFirst, after: $prReviewsAfter) {
        totalCount
        pageInfo { endCursor hasNextPage }
        nodes { occurredAt pullRequestReview { pullRequest { number title url } } }
      }
    }
  }
}
";

/// The three paginated connections of the query.
#[derive(Debug, Clone, Copy, PartialEq, Eq)]
pub enum ConnectionKind {
    Issues,
    PullRequests,
    PullRequestReviews,
}

/// The variables of one request.
#[derive(Debug, Clone)]
pub struct Variables {
    pub username: String,
    pub from: String,
    pub to: String,
    pub issues_first: i64,
    pub issues_after: Option<String>,
    pub prs_first: i64,
    pub prs_after: Option<String>,
    pub pr_reviews_first: i64,
    pub pr_reviews_after: Option<String>,
}

/// The body of one request: the query document and its variables.
#[derive(Debug, Clone)]
pub struct QueryBody {
    pub variables: Variables,
    pub query: String,
    pub operation_name: String,
}

/// The queried user and the range `[from, to)`, both ends in RFC 3339.
#[derive(Debug, Clone)]
pub struct QueryTarget {
    pub username: String,
    pub from: String,
    pub to: String,
}

pub open spec fn text_of(c: Option<String>) -> Option<Seq<char>> {
    match c {
        Some(s) => Some(s@),
        None => None,
    }
}

/// Whether `v` asks, for target `t`, for the page after `cursor` of
/// connection `kind` and for the first page of every other connection
/// (of all three when `kind` is absent).
pub open spec fn asks_for(
    v: Variables,
    t: QueryTarget,
    kind: Option<ConnectionKind>,
    cursor: Option<Seq<char>>,
) -> bool {
    &&& v.username@ == t.username@
    &&& v.from@ == t.from@
    &&& v.to@ == t.to@
    &&& v.issues_first == PAGE_SIZE
    &&& v.prs_first == PAGE_SIZE
    &&& v.pr_reviews_first == PAGE_SIZE
    &&& text_of(v.issues_after) == (if kind == Some(ConnectionKind::Issues) {
        cursor
    } else {
        None
    })
    &&& text_of(v.prs_after) == (if kind == Some(ConnectionKind::PullRequests) {
        cursor
    } else {
        None
    })
    &&& text_of(v.pr_reviews_after) == (if kind == Some(ConnectionKind::PullRequestReviews) {
        cursor
    } else {
        None
    })
}

fn copy_text(c: &Option<String>) -> (r: Option<String>)
    ensures
        text_of(r) == text_of(*c),
{
    match c {
        Some(s) => Some(s.clone()),
        None => None,
    }
}

impl QueryTarget {
    /// The target for `username` over `[start, end)`, when the calendar
    /// library can write both ends in RFC 3339.
    pub fn new(username: &str, start: &UtcTime, end: &UtcTime) -> (r: Option<QueryTarget>)
        ensures
            match (rfc3339_of(start.secs, start.nanos), rfc3339_of(end.secs, end.nanos)) {
                (Some(f), Some(t)) => (r matches Some(q) && q.username@ == username@ && q.from@ == f
                    && q.to@ == t),
                _ => r is None,
            },
    {
        let from = match rfc3339_text(start) {
            Some(s) => s,
            None => {
                return None;
            },
        };
        let to = match rfc3339_text(end) {
            Some(s) => s,
            None => {
                return None;
            },
        };
        Some(QueryTarget { username: String::from_str(username), from, to })
    }

    /// The variables of the summary request: the first page of every connection.
    pub fn summary_variables(&self) -> (v: Variables)
        ensures
            asks_for(v, *self, None, None),
    {
        self.page_variables(None, &None)
    }

    /// The variables of a request for the page after `cursor` of connection
    /// `kind` (of no connection in particular when `kind` is absent).
    pub fn page_variables(&self, kind: Option<ConnectionKind>, cursor: &Option<String>) -> (v:
        Variables)
        ensures
            asks_for(v, *self, kind, if kind is Some { text_of(*cursor) } else { None }),
    {
        let issues_after = match kind {
            Some(ConnectionKind::Issues) => copy_text(cursor),
            _ => None,
        };
        let prs_after = match kind {
            Some(ConnectionKind::PullRequests) => copy_text(cursor),
            _ => None,
        };
        let pr_reviews_after = match kind {
            Some(ConnectionKind::PullRequestReviews) => copy_text(cursor),
            _ => None,
        };
        Variables {
            username: self.username.clone(),
            from: self.from.clone(),
            to: self.to.clone(),
            issues_first: PAGE_SIZE,
            issues_after,
            prs_first: PAGE_SIZE,
            prs_after,
            pr_reviews_first: PAGE_SIZE,
            pr_reviews_after,
        }
    }
}

/// The activity query.
pub struct UserActivity;

impl UserActivity {
    /// The request body that sends the query with `variables`.
    pub fn build_query(variables: Variables) -> (b: QueryBody)
        ensures
            b.variables == variables,
            b.query@ == QUERY@,
            b.operation_name@ == OPERATION_NAME@,
    {
        QueryBody {
            variables,
            query: String::from_str(QUERY),
            operation_name: String::from_str(OPERATION_NAME),
        }
    }
}

} // verus!
