//! Narrowing the per-repository commit list to one repository or one
//! organization.
use vstd::prelude::*;
use crate::activity::{ActivityUser, ContributionsCollection, RepositoryContribution, ResponseData};

verus! {

/// Whether a repository named `name` ("owner/repo") passes the filters: equal
/// to `repo` when that is given, and under `org/` when that is given.
pub open spec fn passes(name: Seq<char>, repo: Option<Seq<char>>, org: Option<Seq<char>>) -> bool {
    &&& (repo matches Some(r) ==> name == r)
    &&& (org matches Some(o) ==> o.push('/').is_prefix_of(name))
}

pub open spec fn opt_text(s: Option<String>) -> Option<Seq<char>> {
    match s {
        Some(t) => Some(t@),
        None => None,
    }
}

/// The entries of `rs` that pass the filters, in their order.
pub open spec fn retained(
    rs: Seq<RepositoryContribution>,
    repo: Option<Seq<char>>,
    org: Option<Seq<char>>,
) -> Seq<RepositoryContribution>
    decreases rs.len(),
{
    if rs.len() == 0 {
        Seq::empty()
    } else {
        let rest = retained(rs.drop_first(), repo, org);
        if passes(rs[0].repository.name_with_owner@, repo, org) {
            seq![rs[0]] + rest
        } else {
            rest
        }
    }
}

/// Whether `name` starts with `org` followed by a slash.
fn under_organization(name: &str, org: &str) -> (r: bool)
    ensures
        r == org@.push('/').is_prefix_of(name@),
{
    let n = name.unicode_len();
    let o = org.unicode_len();
    if o >= n {
        return false;
    }
    let mut i: usize = 0;
    while i < o
        invariant
            i <= o < n,
            n == name@.len(),
            o == org@.len(),
            forall|j: int| 0 <= j < i ==> org@[j] == name@[j],
        decreases o - i,
    {
        if org.get_char(i) != name.get_char(i) {
            assert(org@.push('/')[i as int] != name@.subrange(0, o + 1)[i as int]);
            return false;
        }
        i = i + 1;
    }
    let slash = name.get_char(o) == '/';
    if !slash {
        assert(org@.push('/')[o as int] != name@.subrange(0, o + 1)[o as int]);
    } else {
        assert(org@.push('/') =~= name@.subrange(0, o + 1));
    }
    slash
}

fn keeps(c: &RepositoryContribution, repo: &Option<String>, org: &Option<String>) -> (r: bool)
    ensures
        r == passes(c.repository.name_with_owner@, opt_text(*repo), opt_text(*org)),
{
    let name = &c.repository.name_with_owner;
    let repo_ok = match repo {
        Some(r) => *name == *r,
        None => true,
    };
    let org_ok = match org {
        Some(o) => under_organization(name.as_str(), o.as_str()),
        None => true,
    };
    repo_ok && org_ok
}

fn retain_passing(
    rs: Vec<RepositoryContribution>,
    repo: &Option<String>,
    org: &Option<String>,
) -> (kept: Vec<RepositoryContribution>)
    ensures
        kept@ == retained(rs@, opt_text(*repo), opt_text(*org)),
{
    let ghost all = rs@;
    let mut rest = rs;
    let mut kept: Vec<RepositoryContribution> = Vec::new();
    while rest.len() > 0
        invariant
            retained(all, opt_text(*repo), opt_text(*org)) == kept@ + retained(
                rest@,
                opt_text(*repo),
                opt_text(*org),
            ),
        decreases rest.len(),
    {
        let ghost before = rest@;
        let c = rest.remove(0);
        assert(rest@ =~= before.drop_first());
        if keeps(&c, repo, org) {
            kept.push(c);
            assert(kept@ + retained(rest@, opt_text(*repo), opt_text(*org)) =~= kept@.drop_last()
                + (seq![before[0]] + retained(rest@, opt_text(*repo), opt_text(*org))));
        }
    }
    assert(kept@ + Seq::<RepositoryContribution>::empty() =~= kept@);
    kept
}

/// Keeps, of the per-repository commit list, only the repositories that pass
/// the filters: named `repo_filter` when given, under `org_filter/` when given.
/// The order of the list and every other field are kept as they are.
pub fn filter_activity(
    activity: ResponseData,
    repo_filter: &Option<String>,
    org_filter: &Option<String>,
) -> (r: ResponseData)
    ensures
        match (activity.user, r.user) {
            (None, None) => true,
            (Some(a), Some(b)) => {
                let (ca, cb) = (a.contributions_collection, b.contributions_collection);
                &&& cb.commit_contributions_by_repository@ == retained(
                    ca.commit_contributions_by_repository@,
                    opt_text(*repo_filter),
                    opt_text(*org_filter),
                )
                &&& cb == (ContributionsCollection {
                    commit_contributions_by_repository: cb.commit_contributions_by_repository,
                    ..ca
                })
            },
            _ => false,
        },
{
    match activity.user {
        None => ResponseData { user: None },
        Some(u) => {
            let ContributionsCollection {
                total_commit_contributions,
                total_issue_contributions,
                total_pull_request_contributions,
                total_pull_request_review_contributions,
                contribution_calendar,
                commit_contributions_by_repository,
                issue_contributions,
                pull_request_contributions,
                pull_request_review_contributions,
            } = u.contributions_collection;
            let c = ContributionsCollection {
                total_commit_contributions,
                total_issue_contributions,
                total_pull_request_contributions,
                total_pull_request_review_contributions,
                contribution_calendar,
                commit_contributions_by_repository: retain_passing(
                    commit_contributions_by_repository,
                    repo_filter,
                    org_filter,
                ),
                issue_contributions,
                pull_request_contributions,
                pull_request_review_contributions,
            };
            ResponseData { user: Some(ActivityUser { contributions_collection: c }) }
        },
    }
}

} // verus!
