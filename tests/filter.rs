use github_activity::activity::{
    ActivityUser, CommitCount, Connection, ContributionCalendar, ContributionsCollection, PageInfo,
    RepositoryContribution, RepositoryRef, ResponseData,
};
use github_activity::filter::filter_activity;

fn repo(name: &str, updated_at: &str, total_count: i64) -> RepositoryContribution {
    RepositoryContribution {
        repository: RepositoryRef { name_with_owner: name.to_string(), updated_at: updated_at.to_string() },
        contributions: CommitCount { total_count },
    }
}

fn empty_connection<T>() -> Connection<T> {
    Connection { total_count: 0, page_info: PageInfo { end_cursor: None, has_next_page: false }, nodes: None }
}

fn dummy_response_data_for_filtering() -> ResponseData {
    let repo1 = repo("org1/repo1", "2025-03-10T00:00:00Z", 10);
    let repo2 = repo("org2/repo2", "2025-03-11T00:00:00Z", 5);
    let repo3 = repo("org1/repo3", "2025-03-12T00:00:00Z", 3);
    ResponseData {
        user: Some(ActivityUser {
            contributions_collection: ContributionsCollection {
                total_commit_contributions: 0,
                total_issue_contributions: 0,
                total_pull_request_contributions: 0,
                total_pull_request_review_contributions: 0,
                contribution_calendar: ContributionCalendar { total_contributions: 0, weeks: vec![] },
                commit_contributions_by_repository: vec![repo1, repo2, repo3],
                issue_contributions: empty_connection(),
                pull_request_contributions: empty_connection(),
                pull_request_review_contributions: empty_connection(),
            },
        }),
    }
}

fn names(data: ResponseData) -> Vec<String> {
    data.user
        .unwrap()
        .contributions_collection
        .commit_contributions_by_repository
        .into_iter()
        .map(|r| r.repository.name_with_owner)
        .collect()
}

#[test]
fn test_filter_no_filter() {
    let data = dummy_response_data_for_filtering();
    let filtered = filter_activity(data.clone(), &None, &None);
    let repos = filtered.user.unwrap().contributions_collection.commit_contributions_by_repository;
    assert_eq!(repos.len(), 3);
}

#[test]
fn test_filter_repo_only() {
    let data = dummy_response_data_for_filtering();
    let repo_filter = Some("org1/repo1".to_string());
    let filtered = filter_activity(data, &repo_filter, &None);
    let repos = filtered.user.unwrap().contributions_collection.commit_contributions_by_repository;
    assert_eq!(repos.len(), 1);
    assert_eq!(repos[0].repository.name_with_owner, "org1/repo1");
}

#[test]
fn test_filter_org_only() {
    let data = dummy_response_data_for_filtering();
    let org_filter = Some("org1".to_string());
    let filtered = filter_activity(data, &None, &org_filter);
    let repos = filtered.user.unwrap().contributions_collection.commit_contributions_by_repository;
    assert_eq!(repos.len(), 2);
    let names: Vec<_> = repos.into_iter().map(|r| r.repository.name_with_owner).collect();
    assert!(names.contains(&"org1/repo1".to_string()));
    assert!(names.contains(&"org1/repo3".to_string()));
}

#[test]
fn test_filter_repo_and_org() {
    let data = dummy_response_data_for_filtering();
    let repo_filter = Some("org1/repo3".to_string());
    let org_filter = Some("org1".to_string());
    let filtered = filter_activity(data, &repo_filter, &org_filter);
    let repos = filtered.user.unwrap().contributions_collection.commit_contributions_by_repository;
    assert_eq!(repos.len(), 1);
    assert_eq!(repos[0].repository.name_with_owner, "org1/repo3");
}

#[test]
fn test_filter_conflicting_filters() {
    let data = dummy_response_data_for_filtering();
    let repo_filter = Some("org2/repo2".to_string());
    let org_filter = Some("org1".to_string());
    let filtered = filter_activity(data, &repo_filter, &org_filter);
    let repos = filtered.user.unwrap().contributions_collection.commit_contributions_by_repository;
    assert_eq!(repos.len(), 0);
}

#[test]
fn filter_keeps_order_and_needs_the_slash() {
    let data = dummy_response_data_for_filtering();
    assert_eq!(
        names(filter_activity(data.clone(), &None, &Some("org1".to_string()))),
        vec!["org1/repo1".to_string(), "org1/repo3".to_string()]
    );
    assert!(names(filter_activity(data.clone(), &None, &Some("org".to_string()))).is_empty());
    assert!(names(filter_activity(data.clone(), &None, &Some("org1/repo1".to_string()))).is_empty());
    assert!(names(filter_activity(data, &Some("org1".to_string()), &None)).is_empty());
    let nobody = filter_activity(ResponseData { user: None }, &Some("x/y".to_string()), &None);
    assert!(nobody.user.is_none());
}

#[test]
fn filter_leaves_counters_alone() {
    let mut data = dummy_response_data_for_filtering();
    data.user.as_mut().unwrap().contributions_collection.total_commit_contributions = 18;
    let c = filter_activity(data, &Some("org2/repo2".to_string()), &None)
        .user
        .unwrap()
        .contributions_collection;
    assert_eq!(c.total_commit_contributions, 18);
    assert_eq!(c.commit_contributions_by_repository.len(), 1);
    assert_eq!(c.commit_contributions_by_repository[0].contributions.total_count, 5);
}
