//! The concurrency scheduler: fans a batch of descriptors out to at most
//! `concurrency` simultaneously running executors and collects one
//! outcome per descriptor, index-aligned with the input batch no matter
//! in which order the transfers finish.
//!
//! The scheduler decides which slot may start and records what finished;
//! a driver runs the executors.  Its invariant keeps the number of
//! running transfers at or under the concurrency bound at every step,
//! and its aggregate progress counter advances by one exactly when a
//! transfer reaches a terminal state.

use vstd::prelude::*;
use vstd::pervasive::VecAdditionalExecFns;

use crate::download::Summary;

verus! {

/// Where one descriptor of the batch stands.
#[derive(Debug)]
pub enum SlotState {
    /// Not yet handed to an executor.
    Pending,
    /// An executor is running it (negotiating or transferring).
    Active,
    /// Finished; the outcome is recorded.
    Done(Summary),
}

/// How many slots of `s` are `Active`.
pub open spec fn count_active(s: Seq<SlotState>) -> int
    decreases s.len(),
{
    if s.len() == 0 {
        0
    } else {
        count_active(s.drop_last()) + (if s.last() is Active {
            1int
        } else {
            0int
        })
    }
}

/// How many slots of `s` are `Done`.
pub open spec fn count_done(s: Seq<SlotState>) -> int
    decreases s.len(),
{
    if s.len() == 0 {
        0
    } else {
        count_done(s.drop_last()) + (if s.last() is Done {
            1int
        } else {
            0int
        })
    }
}

/// Replacing one slot changes the counts by exactly the difference the
/// old and new slot contribute.
pub proof fn lemma_counts_update(s: Seq<SlotState>, i: int, v: SlotState)
    requires
        0 <= i < s.len(),
    ensures
        count_active(s.update(i, v)) == count_active(s) - (if s[i] is Active {
            1int
        } else {
            0int
        }) + (if v is Active {
            1int
        } else {
            0int
        }),
        count_done(s.update(i, v)) == count_done(s) - (if s[i] is Done {
            1int
        } else {
            0int
        }) + (if v is Done {
            1int
        } else {
            0int
        }),
    decreases s.len(),
{
    if i == s.len() - 1 {
        assert(s.update(i, v).drop_last() =~= s.drop_last());
    } else {
        lemma_counts_update(s.drop_last(), i, v);
        assert(s.update(i, v).drop_last() =~= s.drop_last().update(i, v));
    }
}

/// Both counts lie between zero and the batch size, and a count of
/// `Done` slots equal to the batch size means every slot is `Done`.
pub proof fn lemma_counts_bounds(s: Seq<SlotState>)
    ensures
        0 <= count_active(s) <= s.len(),
        0 <= count_done(s) <= s.len(),
        count_done(s) == s.len() ==> forall|i: int| 0 <= i < s.len() ==> s[i] is Done,
    decreases s.len(),
{
    if s.len() > 0 {
        lemma_counts_bounds(s.drop_last());
        if count_done(s) == s.len() {
            assert forall|i: int| 0 <= i < s.len() implies s[i] is Done by {
                if i < s.len() - 1 {
                    assert(s.drop_last()[i] == s[i]);
                }
            }
        }
    }
}

/// An `Active` slot contributes one to the active count and none to the
/// done count.
pub proof fn lemma_counts_active_at(s: Seq<SlotState>, i: int)
    requires
        0 <= i < s.len(),
        s[i] is Active,
    ensures
        count_active(s) >= 1,
        count_done(s) <= s.len() - 1,
    decreases s.len(),
{
    lemma_counts_bounds(s.drop_last());
    if i < s.len() - 1 {
        lemma_counts_active_at(s.drop_last(), i);
    }
}

/// Fans descriptors out to bounded-parallel executors and collects their
/// outcomes by input index.
#[derive(Debug)]
pub struct Scheduler {
    /// One slot per descriptor, in input order.
    pub slots: Vec<SlotState>,
    /// The bound on simultaneously running transfers.
    pub concurrency: usize,
    /// How many slots are `Active` right now.
    pub active: usize,
    /// The aggregate progress counter: how many slots are `Done`.
    pub completed: usize,
}

impl Scheduler {
    /// The scheduler invariant: the counters track the slots, and the
    /// number of running transfers never exceeds the concurrency bound.
    pub open spec fn wf(self) -> bool {
        &&& self.concurrency >= 1
        &&& self.active == count_active(self.slots@)
        &&& self.completed == count_done(self.slots@)
        &&& self.active <= self.concurrency
    }

    /// A scheduler for a batch of `n` descriptors under the given
    /// concurrency bound; every slot starts out pending.
    pub fn new(n: usize, concurrency: usize) -> (r: Scheduler)
        requires
            concurrency >= 1,
        ensures
            r.wf(),
            r.slots@.len() == n,
            forall|i: int| 0 <= i < n ==> r.slots@[i] is Pending,
            r.concurrency == concurrency,
            r.active == 0,
            r.completed == 0,
    {
        let mut slots: Vec<SlotState> = Vec::new();
        let mut k: usize = 0;
        while k < n
            invariant
                k <= n,
                slots@.len() == k,
                forall|i: int| 0 <= i < k ==> slots@[i] is Pending,
                count_active(slots@) == 0,
                count_done(slots@) == 0,
            decreases n - k,
        {
            let ghost s0 = slots@;
            slots.push(SlotState::Pending);
            proof {
                assert(slots@.drop_last() =~= s0);
            }
            k = k + 1;
        }
        Scheduler { slots, concurrency, active: 0, completed: 0 }
    }

    /// The batch size.
    pub fn len(&self) -> (r: usize)
        ensures
            r == self.slots@.len(),
    {
        self.slots.len()
    }

    /// Whether a concurrency slot is free, so that the next pending
    /// descriptor may be dispatched.
    pub fn can_start(&self) -> (r: bool)
        ensures
            r == (self.active < self.concurrency),
    {
        self.active < self.concurrency
    }

    /// The lowest input index that has not been dispatched yet.
    pub fn next_pending(&self) -> (r: Option<usize>)
        ensures
            (r matches Some(i) ==> i < self.slots@.len() && self.slots@[i as int] is Pending
                && (forall|j: int| 0 <= j < i ==> !(self.slots@[j] is Pending))),
            (r is None ==> forall|i: int|
                0 <= i < self.slots@.len() ==> !(self.slots@[i] is Pending)),
    {
        let mut k: usize = 0;
        while k < self.slots.len()
            invariant
                k <= self.slots@.len(),
                forall|i: int| 0 <= i < k ==> !(self.slots@[i] is Pending),
            decreases self.slots@.len() - k,
        {
            match &self.slots[k] {
                SlotState::Pending => {
                    return Some(k);
                },
                _ => {},
            }
            k = k + 1;
        }
        None
    }

    /// Dispatch the pending descriptor at `i`: it now occupies one of the
    /// at most `concurrency` slots.  Requires a free slot, so the number
    /// of running transfers stays at or under the bound.
    pub fn start(&mut self, i: usize)
        requires
            old(self).wf(),
            i < old(self).slots@.len(),
            old(self).slots@[i as int] is Pending,
            old(self).active < old(self).concurrency,
        ensures
            final(self).wf(),
            final(self).slots@ == old(self).slots@.update(i as int, SlotState::Active),
            final(self).active == old(self).active + 1,
            final(self).completed == old(self).completed,
            final(self).concurrency == old(self).concurrency,
            final(self).active <= final(self).concurrency,
    {
        proof {
            lemma_counts_update(self.slots@, i as int, SlotState::Active);
        }
        self.slots.set(i, SlotState::Active);
        self.active = self.active + 1;
    }

    /// Record the outcome of the transfer running at `i`.  The slot
    /// frees, and the aggregate progress counter advances by one, as it
    /// does for every terminal state — success, skip or failure alike.
    pub fn finish(&mut self, i: usize, outcome: Summary)
        requires
            old(self).wf(),
            i < old(self).slots@.len(),
            old(self).slots@[i as int] is Active,
        ensures
            final(self).wf(),
            final(self).slots@ == old(self).slots@.update(i as int, SlotState::Done(outcome)),
            final(self).active == old(self).active - 1,
            final(self).completed == old(self).completed + 1,
            final(self).concurrency == old(self).concurrency,
    {
        let n = self.slots.len();
        proof {
            lemma_counts_update(self.slots@, i as int, SlotState::Done(outcome));
            lemma_counts_bounds(self.slots@);
            lemma_counts_active_at(self.slots@, i as int);
            assert(self.completed < n);
        }
        self.slots.set(i, SlotState::Done(outcome));
        self.active = self.active - 1;
        self.completed = self.completed + 1;
    }

    /// Whether every descriptor of the batch has reached a terminal
    /// state.
    pub fn all_done(&self) -> (r: bool)
        requires
            self.wf(),
        ensures
            r == (self.completed == self.slots@.len()),
            r ==> forall|i: int| 0 <= i < self.slots@.len() ==> self.slots@[i] is Done,
    {
        proof {
            lemma_counts_bounds(self.slots@);
        }
        self.completed == self.slots.len()
    }

    /// The collected outcomes, one per descriptor and in input order:
    /// position `i` holds exactly the outcome that was recorded for
    /// input index `i`, however the transfers interleaved.
    pub fn outcomes(&self) -> (r: Vec<Summary>)
        requires
            self.wf(),
            forall|i: int| 0 <= i < self.slots@.len() ==> self.slots@[i] is Done,
        ensures
            r@.len() == self.slots@.len(),
            forall|i: int| 0 <= i < r@.len() ==> self.slots@[i] == SlotState::Done(r@[i]),
    {
        let mut r: Vec<Summary> = Vec::new();
        let mut k: usize = 0;
        while k < self.slots.len()
            invariant
                k <= self.slots@.len(),
                r@.len() == k,
                self.wf(),
                forall|i: int| 0 <= i < self.slots@.len() ==> self.slots@[i] is Done,
                forall|i: int| 0 <= i < k ==> self.slots@[i] == SlotState::Done(r@[i]),
            decreases self.slots@.len() - k,
        {
            match &self.slots[k] {
                SlotState::Done(s) => {
                    r.push(s.clone());
                },
                _ => {
                    unreached::<()>();
                },
            }
            k = k + 1;
        }
        r
    }
}

/// At every reachable scheduler state, the number of descriptors being
/// worked on — negotiating or transferring — is at most the
/// concurrency bound.
pub proof fn lemma_active_bounded(s: Scheduler)
    requires
        s.wf(),
    ensures
        count_active(s.slots@) <= s.concurrency,
{
}

/// Recording two outcomes at different indices commutes: the collected
/// batch result does not depend on the order in which transfers finish.
pub proof fn lemma_finish_order_immaterial(
    s: Seq<SlotState>,
    i: int,
    j: int,
    a: Summary,
    b: Summary,
)
    requires
        0 <= i < s.len(),
        0 <= j < s.len(),
        i != j,
    ensures
        s.update(i, SlotState::Done(a)).update(j, SlotState::Done(b)) == s.update(
            j,
            SlotState::Done(b),
        ).update(i, SlotState::Done(a)),
{
    assert(s.update(i, SlotState::Done(a)).update(j, SlotState::Done(b)) =~= s.update(
        j,
        SlotState::Done(b),
    ).update(i, SlotState::Done(a)));
}

} // verus!
