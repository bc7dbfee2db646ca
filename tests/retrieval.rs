use github_activity::activity::{
    ActivityUser, CalendarWeek, CommitCount, Connection, ContributionCalendar, ContributionDay,
    ContributionsCollection, Issue, IssueContribution, PageInfo, PullRequest,
    PullRequestContribution, PullRequestReview, PullRequestReviewContribution,
    RepositoryContribution, RepositoryRef, ResponseData, ReviewedPullRequest,
};
use github_activity::error::{ActivityError, FetchError, Phase, ProtocolError};
use github_activity::orchestrator::{
    merge_activity, receive_summary, select_issue_page, select_pull_request_page,
    select_review_page,
};
use github_activity::pagination::{Drain, DrainStep, Page, Reply, Response};
use github_activity::query::{ConnectionKind, QueryTarget, UserActivity, PAGE_SIZE, QUERY};
use github_activity::time::UtcTime;

fn issue(number: i64) -> IssueContribution {
    IssueContribution {
        issue: Issue {
            number,
            title: format!("Issue {}", number),
            url: format!("http://example.com/issue{}", number),
            created_at: "2025-03-01T00:00:00Z".to_string(),
            state: "open".to_string(),
            closed_at: None,
        },
    }
}

fn pull_request(number: i64) -> PullRequestContribution {
    PullRequestContribution {
        pull_request: PullRequest {
            number,
            title: format!("PR {}", number),
            url: format!("http://example.com/pr{}", number),
            created_at: "2025-03-01T00:00:00Z".to_string(),
            state: "open".to_string(),
            merged: false,
            merged_at: None,
            closed_at: None,
        },
    }
}

fn review(number: i64) -> PullRequestReviewContribution {
    PullRequestReviewContribution {
        pull_request_review: PullRequestReview {
            pull_request: ReviewedPullRequest {
                number,
                title: format!("Review {}", number),
                url: format!("http://example.com/prreview{}", number),
            },
        },
        occurred_at: "2025-03-01T00:00:00Z".to_string(),
    }
}

fn conn<T>(nodes: Vec<T>, cursor: Option<String>, next: bool) -> Connection<T> {
    Connection {
        total_count: nodes.len() as i64,
        page_info: PageInfo { end_cursor: cursor, has_next_page: next },
        nodes: Some(nodes),
    }
}

fn data(
    total_commits: i64,
    issues: Connection<IssueContribution>,
    prs: Connection<PullRequestContribution>,
    reviews: Connection<PullRequestReviewContribution>,
) -> ResponseData {
    ResponseData {
        user: Some(ActivityUser {
            contributions_collection: ContributionsCollection {
                total_commit_contributions: total_commits,
                total_issue_contributions: 0,
                total_pull_request_contributions: 0,
                total_pull_request_review_contributions: 0,
                contribution_calendar: ContributionCalendar {
                    total_contributions: total_commits,
                    weeks: vec![CalendarWeek {
                        contribution_days: vec![ContributionDay {
                            date: "2025-03-11T00:00:00Z".to_string(),
                            contribution_count: total_commits,
                            weekday: 2,
                        }],
                    }],
                },
                commit_contributions_by_repository: vec![RepositoryContribution {
                    repository: RepositoryRef {
                        name_with_owner: "owner/repo1".to_string(),
                        updated_at: "2025-03-01T00:00:00Z".to_string(),
                    },
                    contributions: CommitCount { total_count: total_commits },
                }],
                issue_contributions: issues,
                pull_request_contributions: prs,
                pull_request_review_contributions: reviews,
            },
        }),
    }
}

fn ok(d: ResponseData) -> Reply<ResponseData> {
    Reply::Received(Response { data: Some(d), errors: None })
}

fn empty() -> (Connection<IssueContribution>, Connection<PullRequestContribution>, Connection<PullRequestReviewContribution>) {
    (conn(vec![], None, false), conn(vec![], None, false), conn(vec![], None, false))
}

/// Serves a drain from a list of replies; counts the requests it makes.
fn drain_over<T>(
    replies: Vec<Reply<ResponseData>>,
    select: fn(Reply<ResponseData>) -> Reply<Page<T>>,
    requests: &mut usize,
) -> Result<Vec<T>, FetchError> {
    let mut drain = Drain::new();
    for reply in replies {
        let _cursor = drain.cursor();
        *requests += 1;
        match drain.receive(select(reply)) {
            DrainStep::Next(d) => drain = d,
            DrainStep::Done(v) => return Ok(v),
            DrainStep::Failed(e) => return Err(e),
        }
    }
    panic!("the drain asked for more pages than were served");
}

/// A run of `pages` pages for one connection, `size` nodes each but the last,
/// which has `last`; the other two connections show an empty first page.
fn issue_run(pages: usize, size: usize, last: usize) -> Vec<Reply<ResponseData>> {
    let mut out = Vec::new();
    let mut n = 0;
    for k in 0..pages {
        let count = if k + 1 == pages { last } else { size };
        let nodes = (0..count).map(|_| { n += 1; issue(n) }).collect();
        let next = k + 1 < pages;
        let (_, p, r) = empty();
        out.push(ok(data(0, conn(nodes, if next { Some(format!("i{}", k)) } else { None }, next), p, r)));
    }
    out
}

fn pr_run(pages: usize, size: usize, last: usize) -> Vec<Reply<ResponseData>> {
    let mut out = Vec::new();
    let mut n = 0;
    for k in 0..pages {
        let count = if k + 1 == pages { last } else { size };
        let nodes = (0..count).map(|_| { n += 1; pull_request(n) }).collect();
        let next = k + 1 < pages;
        let (i, _, r) = empty();
        out.push(ok(data(0, i, conn(nodes, if next { Some(format!("p{}", k)) } else { None }, next), r)));
    }
    out
}

fn review_run(pages: usize, size: usize, last: usize) -> Vec<Reply<ResponseData>> {
    let mut out = Vec::new();
    let mut n = 0;
    for k in 0..pages {
        let count = if k + 1 == pages { last } else { size };
        let nodes = (0..count).map(|_| { n += 1; review(n) }).collect();
        let next = k + 1 < pages;
        let (i, p, _) = empty();
        out.push(ok(data(0, i, p, conn(nodes, if next { Some(format!("r{}", k)) } else { None }, next))));
    }
    out
}

#[test]
fn retrieval_merges_three_drains_into_the_summary() {
    let mut requests = 0;
    let (i, p, r) = empty();
    requests += 1;
    let base = receive_summary(ok(data(5, i, p, r))).unwrap();
    let issues = drain_over(issue_run(2, 10, 4), select_issue_page, &mut requests);
    let prs = drain_over(pr_run(1, 10, 7), select_pull_request_page, &mut requests);
    let reviews = drain_over(review_run(3, 10, 1), select_review_page, &mut requests);
    assert_eq!(requests, 1 + 2 + 1 + 3);
    let merged = merge_activity(base, issues, prs, reviews).unwrap();
    let c = merged.user.unwrap().contributions_collection;
    assert_eq!(c.total_commit_contributions, 5);
    assert_eq!(c.contribution_calendar.total_contributions, 5);
    assert_eq!(c.commit_contributions_by_repository.len(), 1);
    assert_eq!(c.issue_contributions.nodes.unwrap().len(), 10 + 4);
    assert_eq!(c.pull_request_contributions.nodes.unwrap().len(), 7);
    let reviews = c.pull_request_review_contributions.nodes.unwrap();
    assert_eq!(reviews.len(), 2 * 10 + 1);
    assert_eq!(reviews[20].pull_request_review.pull_request.number, 21);
}

#[test]
fn retrieval_fails_when_the_review_drain_fails() {
    let mut requests = 0;
    let (i, p, r) = empty();
    let base = receive_summary(ok(data(5, i, p, r))).unwrap();
    let issues = drain_over(issue_run(2, 10, 3), select_issue_page, &mut requests);
    let prs = drain_over(pr_run(1, 10, 2), select_pull_request_page, &mut requests);
    let mut replies = review_run(2, 10, 1);
    replies[1] = Reply::Received(Response { data: None, errors: Some(vec!["boom".to_string()]) });
    let reviews = drain_over(replies, select_review_page, &mut requests);
    assert!(issues.is_ok() && prs.is_ok());
    let result = merge_activity(base, issues, prs, reviews);
    assert_eq!(
        result.unwrap_err(),
        ActivityError {
            phase: Phase::PullRequestReviews,
            error: FetchError::Protocol(ProtocolError::Messages(vec!["boom".to_string()])),
        }
    );
}

#[test]
fn retrieval_reports_the_first_failed_drain() {
    let (i, p, r) = empty();
    let base = receive_summary(ok(data(1, i, p, r))).unwrap();
    let result = merge_activity(base, Ok(vec![issue(1)]), Err(FetchError::Cancelled), Err(FetchError::Integrity));
    assert_eq!(result.unwrap_err(), ActivityError { phase: Phase::PullRequests, error: FetchError::Cancelled });
}

#[test]
fn github_test_fetch_activity_base_error() {
    let reply: Reply<ResponseData> = Reply::Received(Response {
        data: None,
        errors: Some(vec!["Base request error".to_string()]),
    });
    let result = receive_summary(reply);
    assert!(result.is_err(), "Expected fetch_activity to fail due to base query errors");
    let err = result.unwrap_err();
    assert_eq!(err.phase, Phase::Summary);
    let err_str = format!("{:?}", err);
    assert!(err_str.contains("Base request error"), "Error message did not contain expected text: {}", err_str);
}

#[test]
fn tests_test_fetch_activity_base_error() {
    let reply: Reply<ResponseData> = Reply::Received(Response {
        data: None,
        errors: Some(vec!["Base request error".to_string()]),
    });
    let err = receive_summary(reply).unwrap_err();
    assert_eq!(
        err,
        ActivityError {
            phase: Phase::Summary,
            error: FetchError::Protocol(ProtocolError::Messages(vec!["Base request error".to_string()])),
        }
    );
}

#[test]
fn summary_without_data_or_errors_is_an_integrity_failure() {
    let reply: Reply<ResponseData> = Reply::Received(Response { data: None, errors: None });
    assert_eq!(
        receive_summary(reply).unwrap_err(),
        ActivityError { phase: Phase::Summary, error: FetchError::Integrity }
    );
}

fn merge_data_scenario() -> ResponseData {
    let mut requests = 0;
    let (i, p, r) = empty();
    let base = receive_summary(ok(data(5, i, p, r))).unwrap();
    let issues = drain_over(issue_run(1, 10, 1), select_issue_page, &mut requests);
    let prs = drain_over(pr_run(1, 10, 1), select_pull_request_page, &mut requests);
    let reviews = drain_over(review_run(1, 10, 1), select_review_page, &mut requests);
    assert_eq!(requests, 3);
    merge_activity(base, issues, prs, reviews).expect("fetch_activity failed")
}

#[test]
fn github_test_fetch_activity_merge_data() {
    let merged_data = merge_data_scenario();
    let contributions = merged_data.user.expect("Expected user data").contributions_collection;
    let issue_nodes = contributions.issue_contributions.nodes.expect("Expected issue nodes");
    let pr_nodes = contributions.pull_request_contributions.nodes.expect("Expected PR nodes");
    let pr_review_nodes = contributions.pull_request_review_contributions.nodes.expect("Expected PR review nodes");
    assert_eq!(issue_nodes.len(), 1, "Expected 1 issue node");
    assert_eq!(pr_nodes.len(), 1, "Expected 1 PR node");
    assert_eq!(pr_review_nodes.len(), 1, "Expected 1 PR review node");
}

#[test]
fn tests_test_fetch_activity_merge_data() {
    let contributions = merge_data_scenario().user.unwrap().contributions_collection;
    assert_eq!(contributions.total_commit_contributions, 5);
    assert_eq!(contributions.issue_contributions.nodes.unwrap()[0].issue.title, "Issue 1");
    assert_eq!(contributions.pull_request_contributions.nodes.unwrap()[0].pull_request.number, 1);
    assert_eq!(contributions.pull_request_review_contributions.nodes.unwrap().len(), 1);
}

#[test]
fn merge_without_a_user_changes_nothing() {
    let merged = merge_activity(ResponseData { user: None }, Ok(vec![issue(1)]), Ok(vec![]), Ok(vec![])).unwrap();
    assert!(merged.user.is_none());
}

fn target() -> QueryTarget {
    QueryTarget::new("dummy", &UtcTime { secs: 1_704_067_200, nanos: 0 }, &UtcTime { secs: 1_704_844_800, nanos: 0 }).unwrap()
}

#[test]
fn target_writes_its_range_in_rfc3339() {
    let t = target();
    assert_eq!(t.username, "dummy");
    assert_eq!(t.from, "2024-01-01T00:00:00+00:00");
    assert_eq!(t.to, "2024-01-10T00:00:00+00:00");
    assert!(QueryTarget::new("dummy", &UtcTime { secs: i64::MAX, nanos: 0 }, &UtcTime { secs: 0, nanos: 0 }).is_none());
}

#[test]
fn every_request_carries_all_three_pairs() {
    let t = target();
    let v = t.summary_variables();
    assert_eq!((v.issues_first, v.prs_first, v.pr_reviews_first), (PAGE_SIZE, PAGE_SIZE, PAGE_SIZE));
    assert_eq!(PAGE_SIZE, 10);
    assert_eq!((v.issues_after, v.prs_after, v.pr_reviews_after), (None, None, None));
    let cursor = Some("abc".to_string());
    let v = t.page_variables(Some(ConnectionKind::PullRequests), &cursor);
    assert_eq!(v.username, "dummy");
    assert_eq!(v.from, "2024-01-01T00:00:00+00:00");
    assert_eq!((v.issues_after, v.prs_after, v.pr_reviews_after), (None, cursor.clone(), None));
    let v = t.page_variables(Some(ConnectionKind::Issues), &cursor);
    assert_eq!((v.issues_after, v.prs_after, v.pr_reviews_after), (cursor.clone(), None, None));
    let v = t.page_variables(Some(ConnectionKind::PullRequestReviews), &None);
    assert_eq!((v.issues_after, v.prs_after, v.pr_reviews_after), (None, None, None));
    let v = t.page_variables(Some(ConnectionKind::PullRequestReviews), &cursor);
    assert_eq!(v.pr_reviews_after, cursor);
}

#[test]
fn query_body_carries_the_document() {
    let body = UserActivity::build_query(target().summary_variables());
    assert_eq!(body.query, QUERY);
    assert_eq!(body.operation_name, "UserActivity");
    assert_eq!(body.variables.to, "2024-01-10T00:00:00+00:00");
}
