//! Carrying out a plan: the transactions go out one by one, in order, and
//! the first one that fails ends the plan.

use crate::protocol::BusRequest;
use vstd::prelude::*;

verus! {

/// How far a plan has come.
pub struct Progress {
    /// The transactions of the plan, in order.
    pub plan: Seq<BusRequest>,
    /// Number of transactions that have been carried out.
    pub done: nat,
    /// Whether the transaction behind those has failed.
    pub failed: bool,
}

/// Where a plan stands.
#[derive(Debug, Clone, Copy, PartialEq, Eq)]
pub enum PlanStatus {
    /// There is a transaction to perform.
    Pending,
    /// Every transaction has been carried out.
    Completed,
    /// A transaction has failed; those behind it are not attempted.
    Failed,
}

/// A plan of which nothing has been attempted yet.
pub open spec fn progress_init(plan: Seq<BusRequest>) -> Progress {
    Progress { plan, done: 0, failed: false }
}

/// The transaction to perform next, if there is one: the first that has not
/// been carried out, unless one has failed.
pub open spec fn next_request(p: Progress) -> Option<BusRequest> {
    if !p.failed && p.done < p.plan.len() {
        Some(p.plan[p.done as int])
    } else {
        None
    }
}

/// Where a plan stands.
pub open spec fn status_of(p: Progress) -> PlanStatus {
    if p.failed {
        PlanStatus::Failed
    } else if p.done < p.plan.len() {
        PlanStatus::Pending
    } else {
        PlanStatus::Completed
    }
}

/// The plan once the outcome of the pending transaction is known. A plan
/// with nothing pending stays as it is.
pub open spec fn progress_after(p: Progress, succeeded: bool) -> Progress {
    if next_request(p) is None {
        p
    } else if succeeded {
        Progress { done: p.done + 1, ..p }
    } else {
        Progress { failed: true, ..p }
    }
}

/// The transactions that have been attempted so far: those carried out,
/// and behind them the one that failed.
pub open spec fn attempted(p: Progress) -> Seq<BusRequest> {
    if p.failed {
        p.plan.take(p.done as int + 1)
    } else {
        p.plan.take(p.done as int)
    }
}

/// What holds of every plan on its way: no more is done than there is to
/// do, and a transaction that has failed is one of the plan.
pub open spec fn progress_inv(p: Progress) -> bool {
    &&& p.done <= p.plan.len()
    &&& p.failed ==> p.done < p.plan.len()
}

/// Each outcome concerns the pending transaction and no other: it is added
/// to those attempted, and nothing that was attempted before changes. Once
/// a transaction has failed, or all are carried out, nothing is pending and
/// nothing more is attempted.
pub proof fn lemma_plan_stops_at_first_failure(p: Progress, succeeded: bool)
    requires
        progress_inv(p),
    ensures
        progress_inv(progress_after(p, succeeded)),
        progress_after(p, succeeded).plan == p.plan,
        next_request(p) matches Some(request) ==> attempted(progress_after(p, succeeded))
            == attempted(p).push(request),
        next_request(p) is None ==> progress_after(p, succeeded) == p,
        status_of(p) is Failed || status_of(p) is Completed <==> next_request(p) is None,
        next_request(p) is Some && !succeeded ==> next_request(progress_after(p, succeeded))
            is None && status_of(progress_after(p, succeeded)) is Failed,
        status_of(p) is Completed ==> attempted(p) == p.plan,
{
    let q = progress_after(p, succeeded);
    if let Some(request) = next_request(p) {
        assert(attempted(q) =~= attempted(p).push(request));
    }
    if status_of(p) is Completed {
        assert(attempted(p) =~= p.plan);
    }
}

/// A plan that is being carried out.
pub struct PlanRun {
    plan: Vec<BusRequest>,
    done: usize,
    failed: bool,
}

impl View for PlanRun {
    type V = Progress;

    closed spec fn view(&self) -> Progress {
        Progress { plan: self.plan@, done: self.done as nat, failed: self.failed }
    }
}

impl PlanRun {
    #[verifier::type_invariant]
    closed spec fn well_formed(self) -> bool {
        progress_inv(self@)
    }

    /// Sets out to carry out `plan`.
    pub fn new(plan: Vec<BusRequest>) -> (run: Self)
        ensures
            run@ == progress_init(plan@),
    {
        PlanRun { plan, done: 0, failed: false }
    }

    /// The transaction to perform now, or nothing when the plan has ended.
    pub fn next(&self) -> (request: Option<BusRequest>)
        ensures
            request == next_request(self@),
            progress_inv(self@),
    {
        proof {
            use_type_invariant(self);
        }
        if !self.failed && self.done < self.plan.len() {
            Some(self.plan[self.done])
        } else {
            None
        }
    }

    /// Takes note of how the pending transaction fared.
    pub fn report(&mut self, succeeded: bool)
        ensures
            final(self)@ == progress_after(old(self)@, succeeded),
            progress_inv(final(self)@),
        no_unwind
    {
        proof {
            use_type_invariant(&*self);
        }
        if !self.failed && self.done < self.plan.len() {
            if succeeded {
                self.done = self.done + 1;
            } else {
                self.failed = true;
            }
        }
    }

    /// Where the plan stands.
    pub fn status(&self) -> (status: PlanStatus)
        ensures
            status == status_of(self@),
    {
        if self.failed {
            PlanStatus::Failed
        } else if self.done < self.plan.len() {
            PlanStatus::Pending
        } else {
            PlanStatus::Completed
        }
    }

    /// Number of transactions that have been carried out.
    pub fn done(&self) -> (done: usize)
        ensures
            done == self@.done,
    {
        self.done
    }
}

} // verus!
