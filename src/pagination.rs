//! The reply of one request, and the drain of one paginated connection.
//!
//! A drain starts with no cursor and no nodes. The caller asks it for the
//! cursor of the next request, performs that request and hands the reply to
//! [`Drain::receive`], which either yields the drain that waits for the next
//! page, the complete node list, or the failure that ends the drain.
use vstd::prelude::*;
use crate::activity::PageInfo;
use crate::error::{FetchError, ProtocolError};

verus! {

/// The decoded envelope of a reply: `{data, errors}`.
#[derive(Debug, Clone)]
pub struct Response<D> {
    pub data: Option<D>,
    pub errors: Option<Vec<String>>,
}

/// The outcome of one request, as the transport saw it.
#[derive(Debug, Clone)]
pub enum Reply<D> {
    /// A well-formed reply body.
    Received(Response<D>),
    /// The request failed at the network layer (connection, timeout).
    TransportFailed(String),
    /// The reply body could not be decoded.
    DecodeFailed(String),
    /// The request was abandoned on a cancellation signal.
    Cancelled,
}

/// Whether an `errors` field reports at least one error.
pub open spec fn reports_errors(errors: Option<Vec<String>>) -> bool {
    errors matches Some(es) && es@.len() > 0
}

/// What a reply amounts to: its data, or the failure it stands for.
pub open spec fn reply_outcome<D>(r: Reply<D>) -> Result<D, FetchError> {
    match r {
        Reply::Received(resp) => {
            if reports_errors(resp.errors) {
                Err(FetchError::Protocol(ProtocolError::Messages(resp.errors->Some_0)))
            } else {
                match resp.data {
                    Some(d) => Ok(d),
                    None => Err(FetchError::Integrity),
                }
            }
        },
        Reply::TransportFailed(m) => Err(FetchError::Transport(m)),
        Reply::DecodeFailed(m) => Err(FetchError::Decode(m)),
        Reply::Cancelled => Err(FetchError::Cancelled),
    }
}

/// Classifies a reply: errors reported by the server come first, then a
/// missing `data`; otherwise the data is handed back.
pub fn into_outcome<D>(r: Reply<D>) -> (res: Result<D, FetchError>)
    ensures
        res == reply_outcome(r),
{
    match r {
        Reply::Received(resp) => {
            let Response { data, errors } = resp;
            match errors {
                Some(es) => {
                    if es.len() > 0 {
                        return Err(FetchError::Protocol(ProtocolError::Messages(es)));
                    }
                },
                None => {},
            }
            match data {
                Some(d) => Ok(d),
                None => Err(FetchError::Integrity),
            }
        },
        Reply::TransportFailed(m) => Err(FetchError::Transport(m)),
        Reply::DecodeFailed(m) => Err(FetchError::Decode(m)),
        Reply::Cancelled => Err(FetchError::Cancelled),
    }
}

/// One page of one connection, selected from a reply.
#[derive(Debug, Clone)]
pub struct Page<T> {
    pub nodes: Option<Vec<T>>,
    pub page_info: PageInfo,
}

/// The nodes of a page, with an absent list read as no nodes.
pub open spec fn page_nodes<T>(p: Page<T>) -> Seq<T> {
    match p.nodes {
        Some(v) => v@,
        None => Seq::empty(),
    }
}

/// Where a drain stands: waiting for the page after `cursor` with `nodes`
/// gathered so far, finished with all nodes, or failed.
pub enum DrainState<T> {
    Pending { nodes: Seq<T>, cursor: Option<Seq<char>> },
    Done(Seq<T>),
    Failed(FetchError),
}

/// The state in which every drain starts: no cursor, no nodes.
pub open spec fn drain_start<T>() -> DrainState<T> {
    DrainState::Pending { nodes: Seq::empty(), cursor: None }
}

/// The effect of one reply on a drain. A finished or failed drain takes no
/// more replies; a pending one appends the page's nodes and follows the
/// page's cursor while the server reports a next page.
pub open spec fn advance<T>(s: DrainState<T>, r: Reply<Page<T>>) -> DrainState<T> {
    match s {
        DrainState::Pending { nodes, cursor } => match reply_outcome(r) {
            Err(e) => DrainState::Failed(e),
            Ok(page) => {
                let all = nodes + page_nodes(page);
                if !page.page_info.has_next_page {
                    DrainState::Done(all)
                } else {
                    match page.page_info.end_cursor {
                        Some(c) => DrainState::Pending { nodes: all, cursor: Some(c@) },
                        None => DrainState::Failed(FetchError::Protocol(ProtocolError::MissingCursor)),
                    }
                }
            },
        },
        _ => s,
    }
}

/// The state after a sequence of replies, in arrival order.
pub open spec fn replay<T>(s: DrainState<T>, rs: Seq<Reply<Page<T>>>) -> DrainState<T>
    decreases rs.len(),
{
    if rs.len() == 0 {
        s
    } else {
        replay(advance(s, rs[0]), rs.drop_first())
    }
}

/// The drain of one connection while it waits for its next page.
pub struct Drain<T> {
    cursor: Option<String>,
    nodes: Vec<T>,
}

/// What a drain becomes after a reply.
pub enum DrainStep<T> {
    /// More pages remain; request the next one with this drain's cursor.
    Next(Drain<T>),
    /// The connection is exhausted; these are all its nodes in arrival order.
    Done(Vec<T>),
    /// The drain failed; nothing gathered so far is kept.
    Failed(FetchError),
}

impl<T> Drain<T> {
    /// Where this drain stands; always pending.
    pub closed spec fn state(&self) -> DrainState<T> {
        DrainState::Pending {
            nodes: self.nodes@,
            cursor: match self.cursor {
                Some(c) => Some(c@),
                None => None,
            },
        }
    }

    /// A drain is pending until a reply ends it.
    pub proof fn lemma_pending(&self)
        ensures
            self.state() is Pending,
    {
    }

    pub fn new() -> (d: Drain<T>)
        ensures
            d.state() == drain_start::<T>(),
    {
        Drain { cursor: None, nodes: Vec::new() }
    }

    /// The cursor to send with the next request; absent for the first page.
    pub fn cursor(&self) -> (c: Option<String>)
        ensures
            c matches Some(s) ==> self.state()->cursor == Some(s@),
            c is None ==> self.state()->cursor is None,
    {
        match &self.cursor {
            Some(s) => Some(s.clone()),
            None => None,
        }
    }

    /// Takes the reply to the request made with [`Drain::cursor`].
    pub fn receive(self, reply: Reply<Page<T>>) -> (step: DrainStep<T>)
        ensures
            step.state() == advance(self.state(), reply),
            step is Next <==> advance(self.state(), reply) is Pending,
            step is Done <==> advance(self.state(), reply) is Done,
            step is Failed <==> advance(self.state(), reply) is Failed,
    {
        let Drain { cursor: _, nodes } = self;
        let mut nodes = nodes;
        match into_outcome(reply) {
            Err(e) => DrainStep::Failed(e),
            Ok(page) => {
                let Page { nodes: page_nodes_opt, page_info } = page;
                match page_nodes_opt {
                    Some(v) => {
                        let mut v = v;
                        nodes.append(&mut v);
                    },
                    None => {},
                }
                if !page_info.has_next_page {
                    DrainStep::Done(nodes)
                } else {
                    match page_info.end_cursor {
                        Some(c) => DrainStep::Next(Drain { cursor: Some(c), nodes }),
                        None => DrainStep::Failed(
                            FetchError::Protocol(ProtocolError::MissingCursor),
                        ),
                    }
                }
            },
        }
    }
}

impl<T> DrainStep<T> {
    pub open spec fn state(&self) -> DrainState<T> {
        match self {
            DrainStep::Next(d) => d.state(),
            DrainStep::Done(v) => DrainState::Done(v@),
            DrainStep::Failed(e) => DrainState::Failed(*e),
        }
    }
}

/// Whether a reply delivers a page: no reported errors, and data present.
pub open spec fn delivers<T>(r: Reply<Page<T>>) -> bool {
    reply_outcome(r) is Ok
}

/// The page that a delivering reply carries.
pub open spec fn delivered<T>(r: Reply<Page<T>>) -> Page<T> {
    reply_outcome(r)->Ok_0
}

/// The nodes of a sequence of delivering replies, joined in arrival order.
pub open spec fn joined_pages<T>(rs: Seq<Reply<Page<T>>>) -> Seq<T>
    decreases rs.len(),
{
    if rs.len() == 0 {
        Seq::empty()
    } else {
        page_nodes(delivered(rs[0])) + joined_pages(rs.drop_first())
    }
}

/// A connection served as a run of pages: each reply delivers a page, every
/// page but the last announces a next page with a cursor, the last none.
pub open spec fn complete_run<T>(rs: Seq<Reply<Page<T>>>) -> bool {
    &&& rs.len() > 0
    &&& forall|i: int| 0 <= i < rs.len() ==> #[trigger] delivers(rs[i])
    &&& forall|i: int|
        0 <= i < rs.len() - 1 ==> {
            &&& (#[trigger] delivered(rs[i])).page_info.has_next_page
            &&& delivered(rs[i]).page_info.end_cursor is Some
        }
    &&& !delivered(rs[rs.len() - 1]).page_info.has_next_page
}

/// A drain that has finished or failed stays as it is, whatever arrives.
pub proof fn lemma_settled_drain_stays<T>(s: DrainState<T>, rs: Seq<Reply<Page<T>>>)
    requires
        !(s is Pending),
    ensures
        replay(s, rs) == s,
    decreases rs.len(),
{
    if rs.len() > 0 {
        lemma_settled_drain_stays(advance(s, rs[0]), rs.drop_first());
    }
}

proof fn lemma_run_from<T>(nodes: Seq<T>, cursor: Option<Seq<char>>, rs: Seq<Reply<Page<T>>>)
    requires
        complete_run(rs),
    ensures
        replay(DrainState::Pending { nodes, cursor }, rs) == DrainState::Done(
            nodes + joined_pages(rs),
        ),
    decreases rs.len(),
{
    let s = DrainState::Pending { nodes, cursor };
    assert(delivers(rs[0]));
    let page = delivered(rs[0]);
    let rest = rs.drop_first();
    assert(replay(s, rs) == replay(advance(s, rs[0]), rest));
    if rs.len() == 1 {
        assert(rest.len() == 0);
        assert(!page.page_info.has_next_page);
        assert(advance(s, rs[0]) == DrainState::Done(nodes + page_nodes(page)));
        assert(joined_pages(rest) == Seq::<T>::empty());
        assert(nodes + page_nodes(page) + Seq::<T>::empty() =~= nodes + page_nodes(page));
    } else {
        assert(delivered(rs[0]).page_info.has_next_page);
        assert forall|i: int| 0 <= i < rest.len() implies #[trigger] delivers(rest[i]) by {
            assert(rest[i] == rs[i + 1]);
            assert(delivers(rs[i + 1]));
        }
        assert forall|i: int| 0 <= i < rest.len() - 1 implies {
            &&& (#[trigger] delivered(rest[i])).page_info.has_next_page
            &&& delivered(rest[i]).page_info.end_cursor is Some
        } by {
            assert(rest[i] == rs[i + 1]);
            assert(delivered(rs[i + 1]).page_info.has_next_page);
        }
        assert(rest[rest.len() - 1] == rs[rs.len() - 1]);
        let c = page.page_info.end_cursor->Some_0;
        assert(advance(s, rs[0]) == DrainState::Pending {
            nodes: nodes + page_nodes(page),
            cursor: Some(c@),
        });
        lemma_run_from(nodes + page_nodes(page), Some(c@), rest);
        assert(nodes + page_nodes(page) + joined_pages(rest) =~= nodes + (page_nodes(page)
            + joined_pages(rest)));
    }
}

/// A connection served over a complete run of pages drains to exactly the
/// nodes of all its pages, joined in the order the pages arrived.
pub proof fn lemma_drain_joins_pages<T>(rs: Seq<Reply<Page<T>>>)
    requires
        complete_run(rs),
    ensures
        replay(drain_start(), rs) == DrainState::Done(joined_pages(rs)),
{
    lemma_run_from(Seq::<T>::empty(), None, rs);
    assert(Seq::<T>::empty() + joined_pages(rs) =~= joined_pages(rs));
}

proof fn lemma_joined_len<T>(rs: Seq<Reply<Page<T>>>, n: nat, r: nat)
    requires
        rs.len() > 0,
        forall|i: int| 0 <= i < rs.len() - 1 ==> (#[trigger] page_nodes(delivered(rs[i]))).len() == n,
        page_nodes(delivered(rs[rs.len() - 1])).len() == r,
    ensures
        joined_pages(rs).len() == (rs.len() - 1) * n + r,
    decreases rs.len(),
{
    let rest = rs.drop_first();
    if rs.len() == 1 {
        assert(joined_pages(rest) == Seq::<T>::empty());
    } else {
        assert forall|i: int| 0 <= i < rest.len() - 1 implies (#[trigger] page_nodes(
            delivered(rest[i]),
        )).len() == n by {
            assert(rest[i] == rs[i + 1]);
        }
        assert(rest[rest.len() - 1] == rs[rs.len() - 1]);
        lemma_joined_len(rest, n, r);
        assert(page_nodes(delivered(rs[0])).len() == n);
        let k = rs.len() as int;
        assert(n + ((k - 1) - 1) * n + r == (k - 1) * n + r) by (nonlinear_arith);
    }
}

/// A connection served as `k` pages, each but the last holding `n` nodes and
/// the last `r < n`, drains to exactly `(k - 1) * n + r` nodes, in arrival order.
pub proof fn lemma_drain_counts_pages<T>(rs: Seq<Reply<Page<T>>>, n: nat, r: nat)
    requires
        complete_run(rs),
        r < n,
        forall|i: int| 0 <= i < rs.len() - 1 ==> (#[trigger] page_nodes(delivered(rs[i]))).len() == n,
        page_nodes(delivered(rs[rs.len() - 1])).len() == r,
    ensures
        replay(drain_start(), rs) == DrainState::Done(joined_pages(rs)),
        joined_pages(rs).len() == (rs.len() - 1) * n + r,
{
    lemma_drain_joins_pages(rs);
    lemma_joined_len(rs, n, r);
}

/// When the first page reports no next page, the drain is done after that one
/// request with exactly that page's nodes, and no later reply changes it.
pub proof fn lemma_single_page_drain<T>(r: Reply<Page<T>>, later: Seq<Reply<Page<T>>>)
    requires
        delivers(r),
        !delivered(r).page_info.has_next_page,
    ensures
        advance(drain_start(), r) == DrainState::<T>::Done(page_nodes(delivered(r))),
        replay(advance(drain_start(), r), later) == DrainState::<T>::Done(page_nodes(delivered(r))),
        requests_made(drain_start(), seq![r] + later) == 1,
{
    let rs = seq![r];
    assert(complete_run(rs));
    lemma_drain_requests_once_per_page(rs, later);
    assert(Seq::<T>::empty() + page_nodes(delivered(r)) =~= page_nodes(delivered(r)));
    lemma_settled_drain_stays(advance(drain_start(), r), later);
}

/// A reply with a non-empty `errors` list fails a pending drain with those
/// messages, whatever it had gathered, and the drain stays failed: none of
/// its nodes ever come out.
pub proof fn lemma_errors_fail_drain<T>(
    nodes: Seq<T>,
    cursor: Option<Seq<char>>,
    resp: Response<Page<T>>,
    later: Seq<Reply<Page<T>>>,
)
    requires
        reports_errors(resp.errors),
    ensures
        replay(DrainState::Pending { nodes, cursor }, seq![Reply::Received(resp)] + later)
            == DrainState::<T>::Failed(
            FetchError::Protocol(ProtocolError::Messages(resp.errors->Some_0)),
        ),
{
    let rs = seq![Reply::Received(resp)] + later;
    assert(rs[0] == Reply::Received(resp));
    assert(rs.drop_first() =~= later);
    lemma_settled_drain_stays(advance(DrainState::Pending { nodes, cursor }, rs[0]), later);
}

/// A reply with neither data nor errors fails a pending drain as an
/// integrity error.
pub proof fn lemma_empty_reply_fails_drain<T>(nodes: Seq<T>, cursor: Option<Seq<char>>)
    ensures
        advance(
            DrainState::Pending { nodes, cursor },
            Reply::Received(Response::<Page<T>> { data: None, errors: None }),
        ) == DrainState::<T>::Failed(FetchError::Integrity),
{
}

/// The number of requests a drain makes while the replies arrive: one for
/// each reply it takes while pending, none once it has finished or failed.
pub open spec fn requests_made<T>(s: DrainState<T>, rs: Seq<Reply<Page<T>>>) -> nat
    decreases rs.len(),
{
    if rs.len() == 0 {
        0
    } else if s is Pending {
        1 + requests_made(advance(s, rs[0]), rs.drop_first())
    } else {
        0
    }
}

proof fn lemma_settled_drain_requests_nothing<T>(s: DrainState<T>, rs: Seq<Reply<Page<T>>>)
    requires
        !(s is Pending),
    ensures
        requests_made(s, rs) == 0,
{
}

proof fn lemma_run_requests_from<T>(
    nodes: Seq<T>,
    cursor: Option<Seq<char>>,
    rs: Seq<Reply<Page<T>>>,
    later: Seq<Reply<Page<T>>>,
)
    requires
        complete_run(rs),
    ensures
        requests_made(DrainState::Pending { nodes, cursor }, rs + later) == rs.len(),
    decreases rs.len(),
{
    let s = DrainState::Pending { nodes, cursor };
    let all = rs + later;
    assert(all[0] == rs[0]);
    assert(delivers(rs[0]));
    let page = delivered(rs[0]);
    let rest = rs.drop_first();
    assert(all.drop_first() =~= rest + later);
    if rs.len() == 1 {
        assert(!page.page_info.has_next_page);
        assert(advance(s, all[0]) == DrainState::Done(nodes + page_nodes(page)));
        lemma_settled_drain_requests_nothing(advance(s, all[0]), all.drop_first());
    } else {
        assert(delivered(rs[0]).page_info.has_next_page);
        assert forall|i: int| 0 <= i < rest.len() implies #[trigger] delivers(rest[i]) by {
            assert(rest[i] == rs[i + 1]);
            assert(delivers(rs[i + 1]));
        }
        assert forall|i: int| 0 <= i < rest.len() - 1 implies {
            &&& (#[trigger] delivered(rest[i])).page_info.has_next_page
            &&& delivered(rest[i]).page_info.end_cursor is Some
        } by {
            assert(rest[i] == rs[i + 1]);
            assert(delivered(rs[i + 1]).page_info.has_next_page);
        }
        assert(rest[rest.len() - 1] == rs[rs.len() - 1]);
        let c = page.page_info.end_cursor->Some_0;
        assert(advance(s, all[0]) == DrainState::Pending {
            nodes: nodes + page_nodes(page),
            cursor: Some(c@),
        });
        lemma_run_requests_from(nodes + page_nodes(page), Some(c@), rest, later);
    }
}

/// A drain over a complete run of `k` pages makes exactly `k` requests, and
/// none more whatever would arrive after the last page.
pub proof fn lemma_drain_requests_once_per_page<T>(
    rs: Seq<Reply<Page<T>>>,
    later: Seq<Reply<Page<T>>>,
)
    requires
        complete_run(rs),
    ensures
        requests_made(drain_start(), rs + later) == rs.len(),
{
    lemma_run_requests_from(Seq::<T>::empty(), None, rs, later);
}

} // verus!
