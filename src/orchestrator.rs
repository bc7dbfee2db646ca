//! A whole retrieval: one summary request, then three independent drains,
//! then an all-or-nothing merge.
//!
//! The summary reply is the base of the result: its counters and calendar are
//! kept as they came. Each drain starts from no cursor and runs on its own;
//! once all three are done their complete node lists replace the first-page
//! lists of the base. If any drain failed, the retrieval fails with the first
//! failure in the order issues, pull requests, reviews.
use vstd::prelude::*;
use crate::activity::{
    ActivityUser, Connection, ContributionsCollection, IssueContribution, PullRequestContribution,
    PullRequestReviewContribution, ResponseData,
};
use crate::error::{ActivityError, FetchError, Phase, ProtocolError};
use crate::pagination::{
    advance, complete_run, delivered, delivers, drain_start, into_outcome, joined_pages,
    lemma_drain_joins_pages, lemma_drain_requests_once_per_page, replay, reply_outcome, reports_errors,
    requests_made, DrainState, Page, Reply, Response,
};

verus! {

/// What the summary reply amounts to: the base of the merge, or the failure
/// of the retrieval.
pub open spec fn summary_outcome(r: Reply<ResponseData>) -> Result<ResponseData, ActivityError> {
    match reply_outcome(r) {
        Ok(d) => Ok(d),
        Err(e) => Err(ActivityError { phase: Phase::Summary, error: e }),
    }
}

/// Takes the summary reply. Nothing else may be requested unless it is `Ok`.
pub fn receive_summary(reply: Reply<ResponseData>) -> (r: Result<ResponseData, ActivityError>)
    ensures
        r == summary_outcome(reply),
{
    match into_outcome(reply) {
        Ok(d) => Ok(d),
        Err(e) => Err(ActivityError { phase: Phase::Summary, error: e }),
    }
}

/// A reply read as a reply about one connection: its data becomes that
/// connection's page, and data without a user becomes no data.
pub open spec fn select_reply<T>(r: Reply<ResponseData>, page: Option<Page<T>>) -> Reply<Page<T>> {
    match r {
        Reply::Received(resp) => Reply::Received(Response { data: page, errors: resp.errors }),
        Reply::TransportFailed(m) => Reply::TransportFailed(m),
        Reply::DecodeFailed(m) => Reply::DecodeFailed(m),
        Reply::Cancelled => Reply::Cancelled,
    }
}

pub open spec fn page_of<T>(c: Connection<T>) -> Page<T> {
    Page { nodes: c.nodes, page_info: c.page_info }
}

pub open spec fn issue_page_of(r: Reply<ResponseData>) -> Option<Page<IssueContribution>> {
    match r {
        Reply::Received(resp) => match resp.data {
            Some(ResponseData { user: Some(u) }) => Some(
                page_of(u.contributions_collection.issue_contributions),
            ),
            _ => None,
        },
        _ => None,
    }
}

pub open spec fn pull_request_page_of(r: Reply<ResponseData>) -> Option<
    Page<PullRequestContribution>,
> {
    match r {
        Reply::Received(resp) => match resp.data {
            Some(ResponseData { user: Some(u) }) => Some(
                page_of(u.contributions_collection.pull_request_contributions),
            ),
            _ => None,
        },
        _ => None,
    }
}

pub open spec fn review_page_of(r: Reply<ResponseData>) -> Option<
    Page<PullRequestReviewContribution>,
> {
    match r {
        Reply::Received(resp) => match resp.data {
            Some(ResponseData { user: Some(u) }) => Some(
                page_of(u.contributions_collection.pull_request_review_contributions),
            ),
            _ => None,
        },
        _ => None,
    }
}

fn into_page<T>(c: Connection<T>) -> (p: Page<T>)
    ensures
        p == page_of(c),
{
    Page { nodes: c.nodes, page_info: c.page_info }
}

/// The issue page of a reply, for the issue drain.
pub fn select_issue_page(reply: Reply<ResponseData>) -> (r: Reply<Page<IssueContribution>>)
    ensures
        r == select_reply(reply, issue_page_of(reply)),
{
    match reply {
        Reply::Received(resp) => {
            let page = match resp.data {
                Some(ResponseData { user: Some(u) }) => Some(
                    into_page(u.contributions_collection.issue_contributions),
                ),
                _ => None,
            };
            Reply::Received(Response { data: page, errors: resp.errors })
        },
        Reply::TransportFailed(m) => Reply::TransportFailed(m),
        Reply::DecodeFailed(m) => Reply::DecodeFailed(m),
        Reply::Cancelled => Reply::Cancelled,
    }
}

/// The pull request page of a reply, for the pull request drain.
pub fn select_pull_request_page(reply: Reply<ResponseData>) -> (r: Reply<
    Page<PullRequestContribution>,
>)
    ensures
        r == select_reply(reply, pull_request_page_of(reply)),
{
    match reply {
        Reply::Received(resp) => {
            let page = match resp.data {
                Some(ResponseData { user: Some(u) }) => Some(
                    into_page(u.contributions_collection.pull_request_contributions),
                ),
                _ => None,
            };
            Reply::Received(Response { data: page, errors: resp.errors })
        },
        Reply::TransportFailed(m) => Reply::TransportFailed(m),
        Reply::DecodeFailed(m) => Reply::DecodeFailed(m),
        Reply::Cancelled => Reply::Cancelled,
    }
}

/// The review page of a reply, for the review drain.
pub fn select_review_page(reply: Reply<ResponseData>) -> (r: Reply<
    Page<PullRequestReviewContribution>,
>)
    ensures
        r == select_reply(reply, review_page_of(reply)),
{
    match reply {
        Reply::Received(resp) => {
            let page = match resp.data {
                Some(ResponseData { user: Some(u) }) => Some(
                    into_page(u.contributions_collection.pull_request_review_contributions),
                ),
                _ => None,
            };
            Reply::Received(Response { data: page, errors: resp.errors })
        },
        Reply::TransportFailed(m) => Reply::TransportFailed(m),
        Reply::DecodeFailed(m) => Reply::DecodeFailed(m),
        Reply::Cancelled => Reply::Cancelled,
    }
}

/// The summary data with its three node lists replaced by the drained lists;
/// every other field as the summary gave it. Without a user there is nothing
/// to replace.
pub open spec fn merged(
    base: ResponseData,
    issues: Vec<IssueContribution>,
    prs: Vec<PullRequestContribution>,
    reviews: Vec<PullRequestReviewContribution>,
) -> ResponseData {
    match base.user {
        Some(u) => {
            let c = u.contributions_collection;
            ResponseData {
                user: Some(
                    ActivityUser {
                        contributions_collection: ContributionsCollection {
                            issue_contributions: Connection {
                                nodes: Some(issues),
                                ..c.issue_contributions
                            },
                            pull_request_contributions: Connection {
                                nodes: Some(prs),
                                ..c.pull_request_contributions
                            },
                            pull_request_review_contributions: Connection {
                                nodes: Some(reviews),
                                ..c.pull_request_review_contributions
                            },
                            ..c
                        },
                    },
                ),
            }
        },
        None => base,
    }
}

/// The result of a retrieval once its three drains have ended.
pub open spec fn merge_outcome(
    base: ResponseData,
    issues: Result<Vec<IssueContribution>, FetchError>,
    prs: Result<Vec<PullRequestContribution>, FetchError>,
    reviews: Result<Vec<PullRequestReviewContribution>, FetchError>,
) -> Result<ResponseData, ActivityError> {
    match (issues, prs, reviews) {
        (Err(e), _, _) => Err(ActivityError { phase: Phase::Issues, error: e }),
        (Ok(_), Err(e), _) => Err(ActivityError { phase: Phase::PullRequests, error: e }),
        (Ok(_), Ok(_), Err(e)) => Err(ActivityError { phase: Phase::PullRequestReviews, error: e }),
        (Ok(i), Ok(p), Ok(v)) => Ok(merged(base, i, p, v)),
    }
}

/// Merges the ended drains into the summary data; fails as a whole, naming
/// the connection, if any drain failed.
pub fn merge_activity(
    base: ResponseData,
    issues: Result<Vec<IssueContribution>, FetchError>,
    prs: Result<Vec<PullRequestContribution>, FetchError>,
    reviews: Result<Vec<PullRequestReviewContribution>, FetchError>,
) -> (r: Result<ResponseData, ActivityError>)
    ensures
        r == merge_outcome(base, issues, prs, reviews),
{
    let issues = match issues {
        Ok(v) => v,
        Err(e) => {
            return Err(ActivityError { phase: Phase::Issues, error: e });
        },
    };
    let prs = match prs {
        Ok(v) => v,
        Err(e) => {
            return Err(ActivityError { phase: Phase::PullRequests, error: e });
        },
    };
    let reviews = match reviews {
        Ok(v) => v,
        Err(e) => {
            return Err(ActivityError { phase: Phase::PullRequestReviews, error: e });
        },
    };
    let mut base = base;
    match base.user {
        Some(u) => {
            let mut c = u.contributions_collection;
            c.issue_contributions.nodes = Some(issues);
            c.pull_request_contributions.nodes = Some(prs);
            c.pull_request_review_contributions.nodes = Some(reviews);
            base = ResponseData { user: Some(ActivityUser { contributions_collection: c }) };
        },
        None => {},
    }
    Ok(base)
}

/// After a summary reply whose data holds a user, and three drains that each
/// took a complete run of pages, the retrieval succeeds: the summary's
/// counters, calendar and repository list come out unchanged, each node list
/// is exactly its drain's nodes, and the requests made number one for the
/// summary plus one per page of each connection.
pub proof fn lemma_retrieval_merges_drains(
    summary: Reply<ResponseData>,
    issue_replies: Seq<Reply<Page<IssueContribution>>>,
    pr_replies: Seq<Reply<Page<PullRequestContribution>>>,
    review_replies: Seq<Reply<Page<PullRequestReviewContribution>>>,
    issues: Vec<IssueContribution>,
    prs: Vec<PullRequestContribution>,
    reviews: Vec<PullRequestReviewContribution>,
)
    requires
        summary_outcome(summary) matches Ok(base) && base.user is Some,
        complete_run(issue_replies),
        complete_run(pr_replies),
        complete_run(review_replies),
        issues@ == joined_pages(issue_replies),
        prs@ == joined_pages(pr_replies),
        reviews@ == joined_pages(review_replies),
    ensures
        ({
            let base = summary_outcome(summary)->Ok_0;
            let before = base.user->Some_0.contributions_collection;
            let after = merged(base, issues, prs, reviews).user->Some_0.contributions_collection;
            &&& replay(drain_start(), issue_replies) == DrainState::Done(issues@)
            &&& replay(drain_start(), pr_replies) == DrainState::Done(prs@)
            &&& replay(drain_start(), review_replies) == DrainState::Done(reviews@)
            &&& merge_outcome(base, Ok(issues), Ok(prs), Ok(reviews)) == Ok::<
                ResponseData,
                ActivityError,
            >(merged(base, issues, prs, reviews))
            &&& after.total_commit_contributions == before.total_commit_contributions
            &&& after.total_issue_contributions == before.total_issue_contributions
            &&& after.total_pull_request_contributions == before.total_pull_request_contributions
            &&& after.total_pull_request_review_contributions
                == before.total_pull_request_review_contributions
            &&& after.contribution_calendar == before.contribution_calendar
            &&& after.commit_contributions_by_repository
                == before.commit_contributions_by_repository
            &&& after.issue_contributions.node_seq() == joined_pages(issue_replies)
            &&& after.pull_request_contributions.node_seq() == joined_pages(pr_replies)
            &&& after.pull_request_review_contributions.node_seq() == joined_pages(
                review_replies,
            )
            &&& 1 + requests_made(drain_start(), issue_replies) + requests_made(
                drain_start(),
                pr_replies,
            ) + requests_made(drain_start(), review_replies) == 1 + issue_replies.len()
                + pr_replies.len() + review_replies.len()
        }),
{
    lemma_drain_joins_pages(issue_replies);
    lemma_drain_joins_pages(pr_replies);
    lemma_drain_joins_pages(review_replies);
    lemma_drain_requests_once_per_page(issue_replies, Seq::empty());
    lemma_drain_requests_once_per_page(pr_replies, Seq::empty());
    lemma_drain_requests_once_per_page(review_replies, Seq::empty());
    assert(issue_replies + Seq::empty() =~= issue_replies);
    assert(pr_replies + Seq::empty() =~= pr_replies);
    assert(review_replies + Seq::empty() =~= review_replies);
}

/// If the review drain fails on its second request after a first page that
/// announced more, while the other two drains succeed, the retrieval fails
/// with that failure, naming the review connection, and yields no data.
pub proof fn lemma_review_failure_fails_retrieval(
    base: ResponseData,
    issues: Vec<IssueContribution>,
    prs: Vec<PullRequestContribution>,
    first: Reply<Page<PullRequestReviewContribution>>,
    failing: Reply<Page<PullRequestReviewContribution>>,
)
    requires
        delivers(first),
        delivered(first).page_info.has_next_page,
        delivered(first).page_info.end_cursor is Some,
        reply_outcome(failing) is Err,
    ensures
        ({
            let e = reply_outcome(failing)->Err_0;
            &&& replay(drain_start(), seq![first, failing])
                == DrainState::<PullRequestReviewContribution>::Failed(e)
            &&& merge_outcome(base, Ok(issues), Ok(prs), Err(e)) == Err::<
                ResponseData,
                ActivityError,
            >(ActivityError { phase: Phase::PullRequestReviews, error: e })
        }),
{
    let rs = seq![first, failing];
    let s1 = advance(drain_start(), first);
    assert(rs.drop_first() =~= seq![failing]);
    assert(seq![failing].drop_first() =~= Seq::<Reply<Page<PullRequestReviewContribution>>>::empty());
    let e = reply_outcome(failing)->Err_0;
    assert(s1 is Pending);
    assert(rs[0] == first);
    assert(seq![failing][0] == failing);
    assert(advance(s1, failing) == DrainState::<PullRequestReviewContribution>::Failed(e));
    assert(replay(advance(s1, failing), Seq::<Reply<Page<PullRequestReviewContribution>>>::empty())
        == advance(s1, failing));
    assert(replay(s1, seq![failing]) == replay(advance(s1, failing), seq![failing].drop_first()));
    assert(replay(drain_start(), rs) == replay(s1, rs.drop_first()));
}

/// A summary reply that reports errors fails the whole retrieval with those
/// messages before any drain starts; one with neither data nor errors fails
/// it as an integrity error. Either way no data comes out.
pub proof fn lemma_failed_summary_fails_retrieval(resp: Response<ResponseData>)
    ensures
        reports_errors(resp.errors) ==> summary_outcome(Reply::Received(resp)) == Err::<
            ResponseData,
            ActivityError,
        >(
            ActivityError {
                phase: Phase::Summary,
                error: FetchError::Protocol(ProtocolError::Messages(resp.errors->Some_0)),
            },
        ),
        resp.data is None && resp.errors is None ==> summary_outcome(Reply::Received(resp))
            == Err::<ResponseData, ActivityError>(
            ActivityError { phase: Phase::Summary, error: FetchError::Integrity },
        ),
{
}

/// If any drain fails, the retrieval fails with the failure of the first
/// failed drain (issues, then pull requests, then reviews), naming its
/// connection, and no data comes out.
pub proof fn lemma_failed_drain_fails_retrieval(
    base: ResponseData,
    issues: Result<Vec<IssueContribution>, FetchError>,
    prs: Result<Vec<PullRequestContribution>, FetchError>,
    reviews: Result<Vec<PullRequestReviewContribution>, FetchError>,
)
    requires
        issues is Err || prs is Err || reviews is Err,
    ensures
        merge_outcome(base, issues, prs, reviews) is Err,
        issues matches Err(e) ==> merge_outcome(base, issues, prs, reviews) == Err::<
            ResponseData,
            ActivityError,
        >(ActivityError { phase: Phase::Issues, error: e }),
        issues is Ok ==> (prs matches Err(e) ==> merge_outcome(base, issues, prs, reviews)
            == Err::<ResponseData, ActivityError>(
            ActivityError { phase: Phase::PullRequests, error: e },
        )),
        issues is Ok && prs is Ok ==> (reviews matches Err(e) ==> merge_outcome(
            base,
            issues,
            prs,
            reviews,
        ) == Err::<ResponseData, ActivityError>(
            ActivityError { phase: Phase::PullRequestReviews, error: e },
        )),
{
}

} // verus!
