use chrono::{TimeZone, Utc};
use github_activity::activity::{
    ActivityUser, CalendarWeek, CommitCount, Connection, ContributionCalendar, ContributionDay,
    ContributionsCollection, Issue, IssueContribution, PageInfo, PullRequest,
    PullRequestContribution, PullRequestReview, PullRequestReviewContribution,
    RepositoryContribution, RepositoryRef, ResponseData, ReviewedPullRequest,
};
use github_activity::format::{
    integer_text, markdown_text_report, plain_text_report, FormatData, MarkdownFormatter,
    PlainTextFormatter,
};

fn done() -> PageInfo {
    PageInfo { end_cursor: None, has_next_page: false }
}

fn dummy_response_data() -> ResponseData {
    ResponseData {
        user: Some(ActivityUser {
            contributions_collection: ContributionsCollection {
                total_commit_contributions: 10,
                total_issue_contributions: 5,
                total_pull_request_contributions: 3,
                total_pull_request_review_contributions: 2,
                contribution_calendar: ContributionCalendar {
                    total_contributions: 20,
                    weeks: vec![CalendarWeek {
                        contribution_days: vec![ContributionDay {
                            date: "2025-03-11T00:00:00Z".into(),
                            contribution_count: 1,
                            weekday: 2,
                        }],
                    }],
                },
                commit_contributions_by_repository: vec![RepositoryContribution {
                    repository: RepositoryRef {
                        name_with_owner: "owner/repo".into(),
                        updated_at: "2025-03-10T00:00:00Z".into(),
                    },
                    contributions: CommitCount { total_count: 5 },
                }],
                issue_contributions: Connection {
                    total_count: 1,
                    page_info: done(),
                    nodes: Some(vec![IssueContribution {
                        issue: Issue {
                            number: 42,
                            title: "Test Issue".into(),
                            url: "http://example.com/issue".into(),
                            created_at: "2025-03-09T00:00:00Z".into(),
                            state: "open".into(),
                            closed_at: None,
                        },
                    }]),
                },
                pull_request_contributions: Connection {
                    total_count: 1,
                    page_info: done(),
                    nodes: Some(vec![PullRequestContribution {
                        pull_request: PullRequest {
                            number: 101,
                            title: "Test PR".into(),
                            url: "http://example.com/pr".into(),
                            created_at: "2025-03-08T00:00:00Z".into(),
                            state: "closed".into(),
                            merged: false,
                            merged_at: None,
                            closed_at: None,
                        },
                    }]),
                },
                pull_request_review_contributions: Connection {
                    total_count: 1,
                    page_info: done(),
                    nodes: Some(vec![PullRequestReviewContribution {
                        pull_request_review: PullRequestReview {
                            pull_request: ReviewedPullRequest {
                                number: 202,
                                title: "Test PR Review".into(),
                                url: "http://example.com/pr_review".into(),
                            },
                        },
                        occurred_at: "2025-03-07T00:00:00Z".into(),
                    }]),
                },
            },
        }),
    }
}

#[test]
fn test_format_plain_contains_required_data() {
    let start_date = Utc.with_ymd_and_hms(2025, 3, 1, 0, 0, 0).unwrap();
    let end_date = Utc.with_ymd_and_hms(2025, 3, 12, 0, 0, 0).unwrap();
    let data = dummy_response_data();
    let output = PlainTextFormatter.format(&data, &start_date.to_rfc3339(), &end_date.to_rfc3339(), "dummy");

    assert!(output.contains("User: dummy"));
    assert!(output.contains("Time Period:"));
    assert!(output.contains(&format!("{} to {}", start_date.to_rfc3339(), end_date.to_rfc3339())));
    assert!(output.contains("Total Commit Contributions: 10"));
    assert!(output.contains("Total Issue Contributions: 5"));
    assert!(output.contains("Total Pull Request Contributions: 3"));
    assert!(output.contains("Total Pull Request Review Contributions: 2"));
    assert!(output.contains("Contribution Calendar:"));
    assert!(output.contains("Total Contributions: 20"));
    assert!(output.contains("2025-03-11T00:00:00Z: 1 contributions (weekday 2)"));
    assert!(output.contains("Repository Contributions:"));
    assert!(output.contains("owner/repo"));
    assert!(output.contains("5 commits"));
    assert!(output.contains("Issue Contributions:"));
    assert!(output.contains("Issue #42: Test Issue"));
    assert!(output.contains("http://example.com/issue"));
    assert!(output.contains("Pull Request Contributions:"));
    assert!(output.contains("PR #101: Test PR"));
    assert!(output.contains("http://example.com/pr"));
    assert!(output.contains("Pull Request Review Contributions:"));
    assert!(output.contains("PR Review for PR #202: Test PR Review"));
    assert!(output.contains("http://example.com/pr_review"));
}

#[test]
fn test_format_markdown_contains_required_data() {
    let start_date = Utc.with_ymd_and_hms(2025, 3, 1, 0, 0, 0).unwrap();
    let end_date = Utc.with_ymd_and_hms(2025, 3, 12, 0, 0, 0).unwrap();
    let data = dummy_response_data();
    let output = MarkdownFormatter.format(&data, &start_date.to_rfc3339(), &end_date.to_rfc3339(), "dummy");

    assert!(output.contains("# GitHub Activity Report for dummy"));
    assert!(output.contains("**Time Period:**"));
    assert!(output.contains(&format!("{} to {}", start_date.to_rfc3339(), end_date.to_rfc3339())));
    assert!(output.contains("- **Total Commit Contributions:** 10"));
    assert!(output.contains("- **Total Issue Contributions:** 5"));
    assert!(output.contains("- **Total Pull Request Contributions:** 3"));
    assert!(output.contains("- **Total Pull Request Review Contributions:** 2"));
    assert!(output.contains("## Contribution Calendar"));
    assert!(output.contains("**Total Contributions:** 20"));
    assert!(output.contains("* 2025-03-11T00:00:00Z: 1 contributions (weekday 2)"));
    assert!(output.contains("## Repository Contributions"));
    assert!(output.contains("| Repository"));
    assert!(output.contains("owner/repo"));
    assert!(output.contains("5"));
    assert!(output.contains("## Issue Contributions"));
    assert!(output.contains("| Issue #"));
    assert!(output.contains("Test Issue"));
    assert!(output.contains("http://example.com/issue"));
    assert!(output.contains("## Pull Request Contributions"));
    assert!(output.contains("| PR #"));
    assert!(output.contains("Test PR"));
    assert!(output.contains("http://example.com/pr"));
    assert!(output.contains("## Pull Request Review Contributions"));
    assert!(output.contains("Test PR Review"));
    assert!(output.contains("http://example.com/pr_review"));
}

#[test]
fn plain_report_is_exact() {
    let mut data = dummy_response_data();
    let c = &mut data.user.as_mut().unwrap().contributions_collection;
    c.issue_contributions.nodes.as_mut().unwrap()[0].issue.closed_at = Some("say \"done\"".into());
    let output = plain_text_report(&data, "A", "B", "dummy");
    let expected = "User: dummy\n\
Time Period: A to B\n\
Total Commit Contributions: 10\n\
Total Issue Contributions: 5\n\
Total Pull Request Contributions: 3\n\
Total Pull Request Review Contributions: 2\n\n\
Contribution Calendar:\n  Total Contributions: 20\n    2025-03-11T00:00:00Z: 1 contributions (weekday 2)\n\n\
Repository Contributions:\n- owner/repo: 5 commits\n\n\
Issue Contributions:\n- Issue #42: Test Issue\n  URL: http://example.com/issue\n  Created: 2025-03-09T00:00:00Z\n  State: open\n  Closed: Some(\"say \\\"done\\\"\")\n\n\
Pull Request Contributions:\n- PR #101: Test PR\n  URL: http://example.com/pr\n  Created: 2025-03-08T00:00:00Z\n  State: closed\n  Merged: false\n  Merged At: None\n  Closed: None\n\n\
Pull Request Review Contributions:\n- PR Review for PR #202: Test PR Review\n  URL: http://example.com/pr_review\n  Occurred At: 2025-03-07T00:00:00Z\n";
    assert_eq!(output, expected);
}

#[test]
fn markdown_report_is_exact() {
    let output = markdown_text_report(&dummy_response_data(), "A", "B", "dummy");
    let expected = "# GitHub Activity Report for dummy\n\n\
**Time Period:** A to B\n\n\
## Summary\n\n\
- **Total Commit Contributions:** 10\n\
- **Total Issue Contributions:** 5\n\
- **Total Pull Request Contributions:** 3\n\
- **Total Pull Request Review Contributions:** 2\n\n\
## Contribution Calendar\n\n\
**Total Contributions:** 20\n\n\
* 2025-03-11T00:00:00Z: 1 contributions (weekday 2)\n\n\
## Repository Contributions\n\n\
| Repository             | Commits |\n\
|------------------------|---------|\n\
| owner/repo             |       5 |\n\n\
## Issue Contributions\n\n\
| Issue # | Title | URL | Created At | State | Closed At |\n\
|---------|-------|-----|------------|-------|-----------|\n\
| 42 | Test Issue | http://example.com/issue | 2025-03-09T00:00:00Z | open | N/A |\n\n\
## Pull Request Contributions\n\n\
| PR # | Title | URL | Created At | State | Merged | Merged At | Closed At |\n\
|------|-------|-----|------------|-------|--------|-----------|-----------|\n\
| 101 | Test PR | http://example.com/pr | 2025-03-08T00:00:00Z | closed | false | N/A | N/A |\n\n\
## Pull Request Review Contributions\n\n\
| PR # | Title | URL | Occurred At |\n\
|------|-------|-----|-------------|\n\
| 202 | Test PR Review | http://example.com/pr_review | 2025-03-07T00:00:00Z |\n";
    assert_eq!(output, expected);
}

#[test]
fn reports_without_a_user() {
    let none = ResponseData { user: None };
    assert_eq!(plain_text_report(&none, "A", "B", "u"), "No user data available.\n");
    assert_eq!(markdown_text_report(&none, "A", "B", "u"), "No user data available.\n");
}

#[test]
fn integers_are_written_in_decimal() {
    for n in [0i64, 7, 10, 42, -5, 1_000_000, i64::MAX, i64::MIN] {
        assert_eq!(integer_text(n), n.to_string());
    }
}

#[test]
fn long_repository_names_are_not_cut() {
    let mut data = dummy_response_data();
    let c = &mut data.user.as_mut().unwrap().contributions_collection;
    c.commit_contributions_by_repository[0].repository.name_with_owner = "an-organization/a-long-repository".into();
    c.commit_contributions_by_repository[0].contributions.total_count = 123456789;
    let output = markdown_text_report(&data, "A", "B", "u");
    assert!(output.contains("| an-organization/a-long-repository | 123456789 |\n"));
}
