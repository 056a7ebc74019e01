//! The eviction schedule of disconnected recordings: a queue of deadlines,
//! earliest first, and the single timer that waits for the earliest one.

use vstd::prelude::*;
use vstd::seq_lib::{to_multiset_insert, to_multiset_remove};

verus! {

/// Milliseconds between a disconnection and the eviction check of its
/// recording.
pub const DISCONNECTED_TTL_MILLIS: u64 = 10_000;

/// A pending eviction check: the session, and when (milliseconds on a
/// monotonic clock) to check it.
#[derive(Debug, Clone, Copy, PartialEq, Eq)]
pub struct DisconnectedTtl {
    pub deadline: u64,
    pub id: u128,
}

/// The order in which checks are due: earliest deadline first, ties broken
/// by ascending session identifier.
pub open spec fn due_before(a: DisconnectedTtl, b: DisconnectedTtl) -> bool {
    a.deadline < b.deadline || (a.deadline == b.deadline && a.id <= b.id)
}

/// Whether `s` is in the order in which its checks are due.
pub open spec fn in_due_order(s: Seq<DisconnectedTtl>) -> bool {
    forall|i: int, j: int| 0 <= i < j < s.len() ==> due_before(#[trigger] s[i], #[trigger] s[j])
}

/// Whether `a` comes strictly before `b` in due order.
fn strictly_before(a: &DisconnectedTtl, b: &DisconnectedTtl) -> (r: bool)
    ensures
        r == !due_before(*b, *a),
{
    a.deadline < b.deadline || (a.deadline == b.deadline && a.id < b.id)
}

/// The pending eviction checks and the deadline that the timer is armed
/// with; the timer is disarmed when nothing is pending.
pub struct EvictionSchedule {
    queue: Vec<DisconnectedTtl>,
    armed: Option<u64>,
}

impl EvictionSchedule {
    /// The pending checks, in due order.
    pub closed spec fn pending(&self) -> Seq<DisconnectedTtl> {
        self.queue@
    }

    /// The deadline that the timer is armed with, if any.
    pub closed spec fn timer(&self) -> Option<u64> {
        self.armed
    }

    /// The checks are kept in due order, and the timer is armed exactly when
    /// a check is pending, with the earliest deadline.
    pub open spec fn wf(&self) -> bool {
        &&& in_due_order(self.pending())
        &&& self.timer() == if self.pending().len() == 0 {
            None::<u64>
        } else {
            Some(self.pending()[0].deadline)
        }
    }

    /// An empty schedule with a disarmed timer.
    pub fn new() -> (r: EvictionSchedule)
        ensures
            r.wf(),
            r.pending() == Seq::<DisconnectedTtl>::empty(),
    {
        EvictionSchedule { queue: Vec::new(), armed: None }
    }

    /// Whether the timer is armed, that is, whether a check is pending.
    pub fn timer_enabled(&self) -> (r: bool)
        requires
            self.wf(),
        ensures
            r == (self.pending().len() > 0),
            r == self.timer() is Some,
    {
        self.queue.len() > 0
    }

    /// The deadline that the timer is armed with, if any.
    pub fn armed_deadline(&self) -> (r: Option<u64>)
        ensures
            r == self.timer(),
    {
        self.armed
    }

    /// Schedules the eviction check of session `id`, disconnected at
    /// `now` (milliseconds), one time-to-live later. Returns the new deadline
    /// of the timer when it must be re-armed: when it was disarmed or armed
    /// later than the new check.
    pub fn schedule(&mut self, id: u128, now: u64) -> (reset: Option<u64>)
        requires
            old(self).wf(),
            now + DISCONNECTED_TTL_MILLIS <= u64::MAX,
        ensures
            final(self).wf(),
            final(self).pending().to_multiset() == old(self).pending().to_multiset().insert(
                DisconnectedTtl { deadline: (now + DISCONNECTED_TTL_MILLIS) as u64, id },
            ),
            final(self).pending().len() == old(self).pending().len() + 1,
            reset == (match old(self).timer() {
                None => Some((now + DISCONNECTED_TTL_MILLIS) as u64),
                Some(d) => if now + DISCONNECTED_TTL_MILLIS < d {
                    Some((now + DISCONNECTED_TTL_MILLIS) as u64)
                } else {
                    None
                },
            }),
            reset matches Some(d) ==> final(self).timer() == Some(d),
            final(self).timer() matches Some(d) && d <= now + DISCONNECTED_TTL_MILLIS,
    {
        let entry = DisconnectedTtl { deadline: now + DISCONNECTED_TTL_MILLIS, id };
        let n = self.queue.len();
        let mut i: usize = 0;
        while i < n && !strictly_before(&entry, &self.queue[i])
            invariant
                n == self.queue@.len(),
                self.queue@ == old(self).queue@,
                i <= n,
                forall|k: int| 0 <= k < i ==> due_before(#[trigger] self.queue@[k], entry),
            decreases n - i,
        {
            i = i + 1;
        }
        proof {
            to_multiset_insert(self.queue@, i as int, entry);
        }
        self.queue.insert(i, entry);
        assert(in_due_order(self.queue@)) by {
            assert forall|a: int, b: int| 0 <= a < b < self.queue@.len() implies due_before(
                #[trigger] self.queue@[a],
                #[trigger] self.queue@[b],
            ) by {
                if a < i && b > i {
                    assert(due_before(old(self).queue@[a], entry));
                    assert(due_before(entry, old(self).queue@[i as int]));
                    assert(due_before(old(self).queue@[i as int], old(self).queue@[b - 1]) || i
                        == b - 1);
                } else if a == i && b > i + 1 {
                    assert(due_before(old(self).queue@[i as int], old(self).queue@[b - 1]));
                }
            }
        }
        let reset = match self.armed {
            None => Some(entry.deadline),
            Some(d) => if entry.deadline < d {
                Some(entry.deadline)
            } else {
                None
            },
        };
        self.armed = Some(self.queue[0].deadline);
        assert(self.queue@[i as int] == entry);
        assert(i == 0 || due_before(self.queue@[0], self.queue@[i as int]));
        reset
    }

    /// When the timer fires: takes the earliest pending check and re-arms the
    /// timer with the next deadline, or disarms it. Returns the session to
    /// check and the timer's new deadline.
    pub fn pop_due(&mut self) -> (r: (u128, Option<u64>))
        requires
            old(self).wf(),
            old(self).pending().len() > 0,
        ensures
            final(self).wf(),
            r.0 == old(self).pending()[0].id,
            final(self).pending() == old(self).pending().subrange(1, old(self).pending().len() as int),
            forall|k: int|
                0 <= k < old(self).pending().len() ==> due_before(
                    old(self).pending()[0],
                    #[trigger] old(self).pending()[k],
                ),
            r.1 == final(self).timer(),
    {
        proof {
            to_multiset_remove(self.queue@, 0);
        }
        let first = self.queue.remove(0);
        assert(self.queue@ =~= old(self).queue@.subrange(1, old(self).queue@.len() as int));
        assert forall|k: int| 0 <= k < old(self).queue@.len() implies due_before(
            old(self).queue@[0],
            #[trigger] old(self).queue@[k],
        ) by {
            if k > 0 {
                assert(due_before(old(self).queue@[0], old(self).queue@[k]));
            }
        }
        if self.queue.len() > 0 {
            self.armed = Some(self.queue[0].deadline);
        } else {
            self.armed = None;
        }
        (first.id, self.armed)
    }
}

/// The timer is never armed later than any pending check: whatever is
/// pending is taken, earliest first, once the timer's deadline passes.
pub proof fn lemma_timer_not_later_than_pending(s: &EvictionSchedule)
    requires
        s.wf(),
    ensures
        forall|k: int|
            0 <= k < s.pending().len() ==> (s.timer() matches Some(d) && d <= #[trigger] s.pending()[k].deadline),
{
    assert forall|k: int| 0 <= k < s.pending().len() implies (s.timer() matches Some(d) && d
        <= #[trigger] s.pending()[k].deadline) by {
        if k > 0 {
            assert(due_before(s.pending()[0], s.pending()[k]));
        }
    }
}

} // verus!
