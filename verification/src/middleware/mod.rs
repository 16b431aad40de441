//! Middleware: hooks that see every request before it is handled and every
//! response after, in the order of their priorities.

pub mod log;

use crate::request::HttpRequest;
use crate::response::HttpResponse;
use crate::router::flow::RequestFlow;
use std::sync::Arc;
use vstd::prelude::*;

verus! {

/// When a middleware runs among the others, from first to last.
#[derive(Debug, Clone, Copy, PartialEq, Eq, PartialOrd, Ord, Structural)]
pub enum MiddlewarePriority {
    Earliest,
    Early,
    Standard,
    Late,
    Latest,
    Monitor,
}

impl MiddlewarePriority {
    /// The place of a priority in the order of priorities.
    pub open spec fn rank(self) -> nat {
        match self {
            MiddlewarePriority::Earliest => 0,
            MiddlewarePriority::Early => 1,
            MiddlewarePriority::Standard => 2,
            MiddlewarePriority::Late => 3,
            MiddlewarePriority::Latest => 4,
            MiddlewarePriority::Monitor => 5,
        }
    }

    pub fn level(&self) -> (n: u8)
        ensures
            n == self.rank(),
    {
        match self {
            MiddlewarePriority::Earliest => 0,
            MiddlewarePriority::Early => 1,
            MiddlewarePriority::Standard => 2,
            MiddlewarePriority::Late => 3,
            MiddlewarePriority::Latest => 4,
            MiddlewarePriority::Monitor => 5,
        }
    }
}

/// The rank by which a middleware is ordered: that of its priority, and
/// behind all of them without one.
pub open spec fn priority_rank(priority: Option<MiddlewarePriority>) -> nat {
    match priority {
        Some(p) => p.rank(),
        None => 6,
    }
}

/// A hook around the handling of requests.
pub trait Middleware {
    /// The priority in the phase before handling; none keeps the middleware
    /// out of that phase.
    spec fn spec_before_priority(&self) -> Option<MiddlewarePriority>;

    fn before_priority(&self) -> (p: Option<MiddlewarePriority>)
        ensures
            p == self.spec_before_priority(),
    ;

    /// The priority in the phase after handling; none keeps the middleware
    /// out of that phase.
    spec fn spec_after_priority(&self) -> Option<MiddlewarePriority>;

    fn after_priority(&self) -> (p: Option<MiddlewarePriority>)
        ensures
            p == self.spec_after_priority(),
    ;

    /// What the middleware may make of a request.
    spec fn acts_before(&self, given: HttpRequest, made: HttpRequest) -> bool;

    /// Acts on a request before it is handled. What the router binds to the
    /// request, its flow and its path values, is not for middleware to
    /// change.
    fn act_before(&self, req: &mut HttpRequest)
        ensures
            self.acts_before(*old(req), *final(req)),
            final(req).flow == old(req).flow,
            final(req).path_values == old(req).path_values,
    ;

    /// What the middleware may make of a response.
    spec fn acts_after(&self, flow: RequestFlow, given: HttpResponse, made: HttpResponse) -> bool;

    /// Acts on a response after the request was handled.
    fn act_after(&self, flow: &Arc<RequestFlow>, response: &mut HttpResponse)
        ensures
            self.acts_after(**flow, *old(response), *final(response)),
    ;
}

/// The phases in which middleware runs.
#[derive(Debug, Clone, Copy, PartialEq, Eq, Structural)]
pub enum Phase {
    Before,
    After,
}

/// The places below `n` of the middlewares that are in the phase and have
/// the rank `rank`, in ascending order.
pub open spec fn bucket<M: Middleware>(chain: Seq<M>, phase: Phase, rank: nat, n: int) -> Seq<int>
    decreases n,
{
    if n <= 0 || n > chain.len() {
        Seq::empty()
    } else {
        let rest = bucket(chain, phase, rank, n - 1);
        if in_phase(chain[n - 1], phase) && rank_of(chain[n - 1]) == rank {
            rest.push(n - 1)
        } else {
            rest
        }
    }
}

/// Whether a middleware takes part in a phase.
pub open spec fn in_phase<M: Middleware>(middleware: M, phase: Phase) -> bool {
    match phase {
        Phase::Before => middleware.spec_before_priority() is Some,
        Phase::After => middleware.spec_after_priority() is Some,
    }
}

/// The places of the middlewares of a phase whose rank is below `ranks`, in
/// the order of their ranks; those of one rank in the order in which they
/// were added.
pub open spec fn order_upto<M: Middleware>(chain: Seq<M>, phase: Phase, ranks: int) -> Seq<int>
    decreases ranks,
{
    if ranks <= 0 {
        Seq::empty()
    } else {
        order_upto(chain, phase, ranks - 1) + bucket(
            chain,
            phase,
            (ranks - 1) as nat,
            chain.len() as int,
        )
    }
}

/// The order in which the middlewares of a phase run: by the rank of their
/// priority before handling, in both phases. A middleware that has no
/// priority for the phase does not run in it.
pub open spec fn run_order<M: Middleware>(chain: Seq<M>, phase: Phase) -> Seq<int> {
    order_upto(chain, phase, 7)
}

/// Whether `made` can come of `given` by letting the first `n` middlewares
/// of the order act before handling, one after the other.
pub open spec fn ran_before<M: Middleware>(
    chain: Seq<M>,
    order: Seq<int>,
    n: int,
    given: HttpRequest,
    made: HttpRequest,
) -> bool
    decreases n,
{
    if n <= 0 || n > order.len() {
        made == given
    } else {
        exists|mid: HttpRequest|
            ran_before(chain, order, n - 1, given, mid) && #[trigger] chain[order[n
                - 1]].acts_before(mid, made)
    }
}

/// Whether `made` can come of `given` by letting the first `n` middlewares
/// of the order act after handling, one after the other.
pub open spec fn ran_after<M: Middleware>(
    chain: Seq<M>,
    order: Seq<int>,
    n: int,
    flow: RequestFlow,
    given: HttpResponse,
    made: HttpResponse,
) -> bool
    decreases n,
{
    if n <= 0 || n > order.len() {
        made == given
    } else {
        exists|mid: HttpResponse|
            ran_after(chain, order, n - 1, flow, given, mid) && #[trigger] chain[order[n
                - 1]].acts_after(flow, mid, made)
    }
}

/// The rank by which a middleware is ordered.
pub open spec fn rank_of<M: Middleware>(middleware: M) -> nat {
    priority_rank(middleware.spec_before_priority())
}

/// Whether the middleware at the place `a` runs before the one at `b`: its
/// rank is lower, or the ranks are the same and it was added first.
pub open spec fn runs_before<M: Middleware>(chain: Seq<M>, a: int, b: int) -> bool {
    rank_of(chain[a]) < rank_of(chain[b]) || (rank_of(chain[a]) == rank_of(chain[b]) && a < b)
}

/// What a bucket holds: the places below `n` of the middlewares of the
/// phase with the rank, each once, in ascending order.
pub proof fn lemma_bucket<M: Middleware>(chain: Seq<M>, phase: Phase, rank: nat, n: int)
    requires
        0 <= n <= chain.len(),
    ensures
        forall|k: int|
            0 <= k < bucket(chain, phase, rank, n).len() ==> {
                let v = #[trigger] bucket(chain, phase, rank, n)[k];
                0 <= v < n && in_phase(chain[v], phase) && rank_of(chain[v]) == rank
            },
        forall|i: int, j: int|
            0 <= i < j < bucket(chain, phase, rank, n).len() ==> bucket(chain, phase, rank, n)[i]
                < bucket(chain, phase, rank, n)[j],
        forall|v: int|
            0 <= v < n && in_phase(#[trigger] chain[v], phase) && rank_of(chain[v]) == rank
                ==> bucket(chain, phase, rank, n).contains(v),
    decreases n,
{
    if n > 0 {
        lemma_bucket(chain, phase, rank, n - 1);
        let rest = bucket(chain, phase, rank, n - 1);
        let all = bucket(chain, phase, rank, n);
        assert forall|v: int|
            0 <= v < n && in_phase(#[trigger] chain[v], phase) && rank_of(chain[v])
                == rank implies all.contains(v) by {
            if v < n - 1 {
                assert(rest.contains(v));
                let k = choose|k: int| 0 <= k < rest.len() && rest[k] == v;
                assert(all[k] == v);
            } else {
                assert(all[all.len() - 1] == v);
            }
        }
    }
}

/// The order in which the middlewares of a phase run is the order of a
/// stable sort by rank: it holds the places of exactly the middlewares of
/// the phase, each once, those of lower rank first and those of one rank in
/// the order in which they were added.
pub proof fn lemma_order<M: Middleware>(chain: Seq<M>, phase: Phase, ranks: int)
    requires
        0 <= ranks,
    ensures
        forall|k: int|
            0 <= k < order_upto(chain, phase, ranks).len() ==> {
                let v = #[trigger] order_upto(chain, phase, ranks)[k];
                0 <= v < chain.len() && in_phase(chain[v], phase) && rank_of(chain[v]) < ranks
            },
        forall|i: int, j: int|
            0 <= i < j < order_upto(chain, phase, ranks).len() ==> runs_before(
                chain,
                #[trigger] order_upto(chain, phase, ranks)[i],
                #[trigger] order_upto(chain, phase, ranks)[j],
            ),
        forall|v: int|
            0 <= v < chain.len() && in_phase(#[trigger] chain[v], phase) && rank_of(chain[v])
                < ranks ==> order_upto(chain, phase, ranks).contains(v),
    decreases ranks,
{
    if ranks > 0 {
        lemma_order(chain, phase, ranks - 1);
        lemma_bucket(chain, phase, (ranks - 1) as nat, chain.len() as int);
        let before = order_upto(chain, phase, ranks - 1);
        let last = bucket(chain, phase, (ranks - 1) as nat, chain.len() as int);
        let all = order_upto(chain, phase, ranks);
        assert(all == before + last);
        assert forall|k: int| 0 <= k < all.len() implies {
            let v = #[trigger] all[k];
            0 <= v < chain.len() && in_phase(chain[v], phase) && rank_of(chain[v]) < ranks
        } by {
            if k < before.len() {
                assert(all[k] == before[k]);
            } else {
                assert(all[k] == last[k - before.len()]);
            }
        }
        assert forall|i: int, j: int| 0 <= i < j < all.len() implies runs_before(
            chain,
            #[trigger] all[i],
            #[trigger] all[j],
        ) by {
            if j < before.len() {
                assert(all[i] == before[i] && all[j] == before[j]);
            } else if i < before.len() {
                assert(all[i] == before[i] && all[j] == last[j - before.len()]);
            } else {
                assert(all[i] == last[i - before.len()] && all[j] == last[j - before.len()]);
            }
        }
        assert forall|v: int|
            0 <= v < chain.len() && in_phase(#[trigger] chain[v], phase) && rank_of(chain[v])
                < ranks implies all.contains(v) by {
            if rank_of(chain[v]) < ranks - 1 {
                assert(before.contains(v));
                let k = choose|k: int| 0 <= k < before.len() && before[k] == v;
                assert(all[k] == v);
            } else {
                assert(last.contains(v));
                let k = choose|k: int| 0 <= k < last.len() && last[k] == v;
                assert(all[before.len() + k] == v);
            }
        }
    }
}

/// Every middleware of a phase runs in it, once, after those of lower rank
/// and after those of its own rank that were added before it; no other
/// middleware runs.
pub proof fn lemma_run_order_is_stable_sort<M: Middleware>(chain: Seq<M>, phase: Phase)
    ensures
        forall|k: int|
            0 <= k < run_order(chain, phase).len() ==> {
                let v = #[trigger] run_order(chain, phase)[k];
                0 <= v < chain.len() && in_phase(chain[v], phase)
            },
        forall|i: int, j: int|
            0 <= i < j < run_order(chain, phase).len() ==> runs_before(
                chain,
                #[trigger] run_order(chain, phase)[i],
                #[trigger] run_order(chain, phase)[j],
            ),
        forall|v: int|
            0 <= v < chain.len() && in_phase(#[trigger] chain[v], phase) ==> run_order(
                chain,
                phase,
            ).contains(v),
{
    lemma_order(chain, phase, 7);
}

/// The middlewares of a router, in the order in which they were added.
pub struct MiddlewareChain<M> {
    chain: Vec<M>,
}

impl<M: Middleware> MiddlewareChain<M> {
    /// The middlewares in the order in which they were added.
    pub closed spec fn view(&self) -> Seq<M> {
        self.chain@
    }

    pub fn new() -> (chain: Self)
        ensures
            chain@ == Seq::<M>::empty(),
    {
        MiddlewareChain { chain: Vec::new() }
    }

    pub fn add_middleware(&mut self, middleware: M)
        ensures
            final(self)@ == old(self)@.push(middleware),
    {
        self.chain.push(middleware);
    }

    /// The places of the middlewares of a phase, in the order in which they
    /// run.
    pub fn sort_middlewares(&self, phase: Phase) -> (order: Vec<usize>)
        ensures
            order@.len() == run_order(self@, phase).len(),
            forall|k: int| 0 <= k < order@.len() ==> order@[k] == #[trigger] run_order(self@, phase)[k],
            forall|k: int| 0 <= k < order@.len() ==> (#[trigger] order@[k]) < self@.len(),
    {
        let mut order: Vec<usize> = Vec::new();
        let mut rank: u8 = 0;
        while rank < 7
            invariant
                rank <= 7,
                order@.len() == order_upto(self@, phase, rank as int).len(),
                forall|k: int|
                    0 <= k < order@.len() ==> order@[k] == #[trigger] order_upto(
                        self@,
                        phase,
                        rank as int,
                    )[k],
                forall|k: int| 0 <= k < order@.len() ==> (#[trigger] order@[k]) < self@.len(),
            decreases 7 - rank,
        {
            let ghost done = order@;
            let mut i: usize = 0;
            while i < self.chain.len()
                invariant
                    i <= self.chain@.len(),
                    rank < 7,
                    done.len() == order_upto(self@, phase, rank as int).len(),
                    forall|k: int|
                        0 <= k < done.len() ==> done[k] == #[trigger] order_upto(
                            self@,
                            phase,
                            rank as int,
                        )[k],
                    order@.len() == done.len() + bucket(self@, phase, rank as nat, i as int).len(),
                    forall|k: int| 0 <= k < done.len() ==> #[trigger] order@[k] == done[k],
                    forall|k: int|
                        done.len() <= k < order@.len() ==> #[trigger] order@[k] == bucket(
                            self@,
                            phase,
                            rank as nat,
                            i as int,
                        )[k - done.len()],
                    forall|k: int| 0 <= k < order@.len() ==> (#[trigger] order@[k]) < self@.len(),
                decreases self.chain@.len() - i,
            {
                let middleware = &self.chain[i];
                let before = middleware.before_priority();
                let included = match phase {
                    Phase::Before => before.is_some(),
                    Phase::After => middleware.after_priority().is_some(),
                };
                let level: u8 = match before {
                    Some(p) => p.level(),
                    None => 6,
                };
                if included && level == rank {
                    order.push(i);
                }
                i += 1;
            }
            rank += 1;
        }
        order
    }

    /// Lets the middlewares of the phase before handling act on a request,
    /// in the order of their priorities.
    pub fn apply_before(&self, req: &mut HttpRequest)
        ensures
            ran_before(
                self@,
                run_order(self@, Phase::Before),
                run_order(self@, Phase::Before).len() as int,
                *old(req),
                *final(req),
            ),
            final(req).flow == old(req).flow,
            final(req).path_values == old(req).path_values,
    {
        let order = self.sort_middlewares(Phase::Before);
        let ghost wanted = run_order(self@, Phase::Before);
        let mut k: usize = 0;
        while k < order.len()
            invariant
                k <= order@.len(),
                wanted == run_order(self@, Phase::Before),
                order@.len() == wanted.len(),
                forall|j: int| 0 <= j < order@.len() ==> order@[j] == #[trigger] wanted[j],
                forall|j: int| 0 <= j < order@.len() ==> (#[trigger] order@[j]) < self@.len(),
                ran_before(self@, wanted, k as int, *old(req), *req),
                req.flow == old(req).flow,
                req.path_values == old(req).path_values,
            decreases order@.len() - k,
        {
            let ghost mid = *req;
            assert(order@[k as int] < self@.len());
            self.chain[order[k]].act_before(req);
            k += 1;
            assert(ran_before(self@, wanted, k - 1, *old(req), mid));
            assert(self@[wanted[k - 1]].acts_before(mid, *req));
            assert(ran_before(self@, wanted, k as int, *old(req), *req));
        }
    }

    /// Lets the middlewares of the phase after handling act on a response,
    /// in the order of their priorities before handling.
    pub fn apply_after(&self, flow: &Arc<RequestFlow>, response: &mut HttpResponse)
        ensures
            ran_after(
                self@,
                run_order(self@, Phase::After),
                run_order(self@, Phase::After).len() as int,
                **flow,
                *old(response),
                *final(response),
            ),
    {
        let order = self.sort_middlewares(Phase::After);
        let ghost wanted = run_order(self@, Phase::After);
        let mut k: usize = 0;
        while k < order.len()
            invariant
                k <= order@.len(),
                wanted == run_order(self@, Phase::After),
                order@.len() == wanted.len(),
                forall|j: int| 0 <= j < order@.len() ==> order@[j] == #[trigger] wanted[j],
                forall|j: int| 0 <= j < order@.len() ==> (#[trigger] order@[j]) < self@.len(),
                ran_after(self@, wanted, k as int, **flow, *old(response), *response),
            decreases order@.len() - k,
        {
            let ghost mid = *response;
            assert(order@[k as int] < self@.len());
            self.chain[order[k]].act_after(flow, response);
            k += 1;
            assert(ran_after(self@, wanted, k - 1, **flow, *old(response), mid));
            assert(self@[wanted[k - 1]].acts_after(**flow, mid, *response));
            assert(ran_after(self@, wanted, k as int, **flow, *old(response), *response));
        }
    }
}

} // verus!
