//! The decoded reply of the activity query: a summary of a user's
//! contributions and three paginated connections.
use vstd::prelude::*;

verus! {

/// The server's pagination record that ends each page of a connection.
#[derive(Debug, Clone, PartialEq, Eq)]
pub struct PageInfo {
    /// Opaque continuation token; only ever threaded into the next request.
    pub end_cursor: Option<String>,
    pub has_next_page: bool,
}

/// A paginated list: the nodes of one page (possibly absent) and its page record.
#[derive(Debug, Clone)]
pub struct Connection<T> {
    pub total_count: i64,
    pub page_info: PageInfo,
    pub nodes: Option<Vec<T>>,
}

impl<T> Connection<T> {
    /// The nodes of this page, with an absent list read as no nodes.
    pub open spec fn node_seq(&self) -> Seq<T> {
        match self.nodes {
            Some(v) => v@,
            None => Seq::empty(),
        }
    }
}

#[derive(Debug, Clone)]
pub struct ContributionDay {
    pub date: String,
    pub contribution_count: i64,
    pub weekday: i64,
}

#[derive(Debug, Clone)]
pub struct CalendarWeek {
    pub contribution_days: Vec<ContributionDay>,
}

#[derive(Debug, Clone)]
pub struct ContributionCalendar {
    pub total_contributions: i64,
    pub weeks: Vec<CalendarWeek>,
}

#[derive(Debug, Clone)]
pub struct RepositoryRef {
    pub name_with_owner: String,
    pub updated_at: String,
}

#[derive(Debug, Clone)]
pub struct CommitCount {
    pub total_count: i64,
}

/// Commits of the user in one repository (first entries only, never paginated).
#[derive(Debug, Clone)]
pub struct RepositoryContribution {
    pub repository: RepositoryRef,
    pub contributions: CommitCount,
}

#[derive(Debug, Clone)]
pub struct Issue {
    pub number: i64,
    pub title: String,
    pub url: String,
    pub created_at: String,
    pub state: String,
    pub closed_at: Option<String>,
}

#[derive(Debug, Clone)]
pub struct IssueContribution {
    pub issue: Issue,
}

#[derive(Debug, Clone)]
pub struct PullRequest {
    pub number: i64,
    pub title: String,
    pub url: String,
    pub created_at: String,
    pub state: String,
    pub merged: bool,
    pub merged_at: Option<String>,
    pub closed_at: Option<String>,
}

#[derive(Debug, Clone)]
pub struct PullRequestContribution {
    pub pull_request: PullRequest,
}

#[derive(Debug, Clone)]
pub struct ReviewedPullRequest {
    pub number: i64,
    pub title: String,
    pub url: String,
}

#[derive(Debug, Clone)]
pub struct PullRequestReview {
    pub pull_request: ReviewedPullRequest,
}

#[derive(Debug, Clone)]
pub struct PullRequestReviewContribution {
    pub pull_request_review: PullRequestReview,
    pub occurred_at: String,
}

/// Everything the query asks of one user over the date range.
#[derive(Debug, Clone)]
pub struct ContributionsCollection {
    pub total_commit_contributions: i64,
    pub total_issue_contributions: i64,
    pub total_pull_request_contributions: i64,
    pub total_pull_request_review_contributions: i64,
    pub contribution_calendar: ContributionCalendar,
    pub commit_contributions_by_repository: Vec<RepositoryContribution>,
    pub issue_contributions: Connection<IssueContribution>,
    pub pull_request_contributions: Connection<PullRequestContribution>,
    pub pull_request_review_contributions: Connection<PullRequestReviewContribution>,
}

#[derive(Debug, Clone)]
pub struct ActivityUser {
    pub contributions_collection: ContributionsCollection,
}

/// The `data` part of a reply to the activity query; `user` is absent when
/// the server knows no such user.
#[derive(Debug, Clone)]
pub struct ResponseData {
    pub user: Option<ActivityUser>,
}

} // verus!
