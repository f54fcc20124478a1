use vstd::prelude::*;

use crate::error::NetError;

verus! {

/// Where a walk over the candidate addresses stands.
#[derive(Debug)]
pub enum ConnectState<X> {
    /// Candidate `next` is to be tried; `last` is the error of the one before.
    Trying { next: usize, last: Option<X> },
    /// Candidate `index` accepted the connection.
    Connected { index: usize },
    /// The walk ended without a connection.
    Failed { error: NetError<X> },
}

/// The outcome of connecting through the candidates from `i` on, in order,
/// given each one's attempt outcome and the error carried from before `i`:
/// the first candidate that accepts is used, and when none does the error is
/// that of the last attempt (or a resolution failure when there was none).
pub open spec fn walk<X>(outcomes: Seq<Result<(), X>>, i: int, last: Option<X>) -> ConnectState<X>
    decreases outcomes.len() - i,
{
    if i < 0 || i >= outcomes.len() {
        match last {
            Some(e) => ConnectState::Failed { error: NetError::ConnectFailure(e) },
            None => ConnectState::Failed { error: NetError::ResolutionFailure },
        }
    } else {
        match outcomes[i] {
            Ok(()) => ConnectState::Connected { index: i as usize },
            Err(e) => walk(outcomes, i + 1, Some(e)),
        }
    }
}

/// The state of a walk over the candidates, given the outcomes of the attempts
/// made so far, continued to its end.
pub open spec fn resume<X>(outcomes: Seq<Result<(), X>>, s: ConnectState<X>) -> ConnectState<X> {
    match s {
        ConnectState::Trying { next, last } => walk(outcomes, next as int, last),
        _ => s,
    }
}

impl<X> ConnectState<X> {
    /// The walk over `total` candidates before any attempt: nothing to try
    /// when there are none.
    pub fn start(total: usize) -> (r: Self)
        ensures
            total == 0 ==> r == (ConnectState::<X>::Failed { error: NetError::ResolutionFailure }),
            total > 0 ==> r == (ConnectState::<X>::Trying { next: 0, last: None }),
    {
        if total == 0 {
            ConnectState::Failed { error: NetError::ResolutionFailure }
        } else {
            ConnectState::Trying { next: 0, last: None }
        }
    }

    /// The index of the candidate to try next, if the walk is not over.
    pub fn candidate(&self) -> (r: Option<usize>)
        ensures
            r == (match *self {
                ConnectState::Trying { next, .. } => Some(next),
                _ => None::<usize>,
            }),
    {
        match self {
            ConnectState::Trying { next, .. } => Some(*next),
            _ => None,
        }
    }

    /// The walk after the attempt on the current candidate, one of `total`,
    /// came out as `outcome`. Each step moves to the next candidate or ends,
    /// so a walk makes at most `total` attempts.
    pub fn step(self, total: usize, outcome: Result<(), X>) -> (r: Self)
        requires
            self matches ConnectState::Trying { next, .. } && next < total,
        ensures
            ({
                let next = self->next;
                match outcome {
                    Ok(()) => r == (ConnectState::<X>::Connected { index: next }),
                    Err(e) => if next + 1 < total {
                        r == (ConnectState::Trying { next: (next + 1) as usize, last: Some(e) })
                    } else {
                        r == (ConnectState::<X>::Failed { error: NetError::ConnectFailure(e) })
                    },
                }
            }),
            forall|outcomes: Seq<Result<(), X>>|
                outcomes.len() == total && #[trigger] outcomes[self->next as int] == outcome
                ==> resume(outcomes, r) == resume(outcomes, self),
    {
        let ghost old_self = self;
        match self {
            ConnectState::Trying { next, last } => {
                let r = match outcome {
                    Ok(()) => ConnectState::Connected { index: next },
                    Err(e) => if next + 1 < total {
                        ConnectState::Trying { next: next + 1, last: Some(e) }
                    } else {
                        ConnectState::Failed { error: NetError::ConnectFailure(e) }
                    },
                };
                assert forall|outcomes: Seq<Result<(), X>>|
                    outcomes.len() == total && #[trigger] outcomes[next as int] == outcome
                    implies resume(outcomes, r) == resume(outcomes, old_self) by {
                    assert(resume(outcomes, old_self) == walk(outcomes, next as int, last));
                    if next + 1 >= total && outcome is Err {
                        assert(walk(outcomes, next + 1, Some(outcome->Err_0))
                            == ConnectState::<X>::Failed { error: NetError::ConnectFailure(outcome->Err_0) });
                    }
                }
                r
            },
            _ => self,
        }
    }
}

/// Where exactly one candidate accepts, the walk connects to it, wherever it
/// stands in the order.
pub proof fn lemma_single_reachable_connects<X>(outcomes: Seq<Result<(), X>>, k: int)
    requires
        0 <= k < outcomes.len(),
        outcomes[k] is Ok,
        forall|j: int| 0 <= j < outcomes.len() && j != k ==> outcomes[j] is Err,
    ensures
        walk(outcomes, 0, None) == (ConnectState::<X>::Connected { index: k as usize }),
{
    lemma_walk_skips_failures(outcomes, 0, None, k);
}

/// A walk from `i` passes over failing candidates up to the first that
/// accepts.
pub proof fn lemma_walk_skips_failures<X>(outcomes: Seq<Result<(), X>>, i: int, last: Option<X>, k: int)
    requires
        0 <= i <= k < outcomes.len(),
        outcomes[k] is Ok,
        forall|j: int| i <= j < k ==> outcomes[j] is Err,
    ensures
        walk(outcomes, i, last) == (ConnectState::<X>::Connected { index: k as usize }),
    decreases k - i,
{
    if i < k {
        lemma_walk_skips_failures(outcomes, i + 1, Some(outcomes[i]->Err_0), k);
    }
}

/// Where no candidate accepts, the walk fails with the error of the last
/// attempt; where there is no candidate, with a resolution failure.
pub proof fn lemma_none_reachable_fails<X>(outcomes: Seq<Result<(), X>>)
    requires
        forall|j: int| 0 <= j < outcomes.len() ==> outcomes[j] is Err,
    ensures
        outcomes.len() == 0 ==> walk(outcomes, 0, None)
            == (ConnectState::<X>::Failed { error: NetError::ResolutionFailure }),
        outcomes.len() > 0 ==> walk(outcomes, 0, None) == (ConnectState::<X>::Failed {
            error: NetError::ConnectFailure(outcomes.last()->Err_0),
        }),
{
    if outcomes.len() > 0 {
        lemma_walk_all_fail(outcomes, 0, None);
    }
}

/// A walk from `i` over candidates that all fail ends with the last error.
pub proof fn lemma_walk_all_fail<X>(outcomes: Seq<Result<(), X>>, i: int, last: Option<X>)
    requires
        0 <= i < outcomes.len(),
        forall|j: int| i <= j < outcomes.len() ==> outcomes[j] is Err,
    ensures
        walk(outcomes, i, last) == (ConnectState::<X>::Failed {
            error: NetError::ConnectFailure(outcomes.last()->Err_0),
        }),
    decreases outcomes.len() - i,
{
    if i + 1 < outcomes.len() {
        lemma_walk_all_fail(outcomes, i + 1, Some(outcomes[i]->Err_0));
    } else {
        assert(walk(outcomes, i + 1, Some(outcomes[i]->Err_0)) == (ConnectState::<X>::Failed {
            error: NetError::ConnectFailure(outcomes[i]->Err_0),
        }));
    }
}

} // verus!
