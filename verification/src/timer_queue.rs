//! The pending-timer structure: deadline-ordered, ties broken by
//! registration order, so the run loop always wakes at the earliest
//! pending deadline and fires timers in deadline order.

use vstd::prelude::*;
use vstd::multiset::Multiset;
use crate::tokens::TimerToken;
use crate::tokens::WindowId;

verus! {

/// One pending timer: a `Timer(token)` event is owed to `window` at or
/// after `deadline`, and at most once.
#[derive(Clone, Copy, Debug, PartialEq, Eq, Hash, Structural)]
pub struct TimerEntry {
    /// Absolute wake instant, in backend ticks.
    pub deadline: u64,
    /// Registration order: later registrations carry larger values.
    pub seq: u64,
    /// The window the timer belongs to.
    pub window: WindowId,
    /// The token handed back by the registration.
    pub token: TimerToken,
}

/// The dispatch order of two pending timers: earlier deadline first,
/// ties broken by registration order.
pub open spec fn entry_lt(a: TimerEntry, b: TimerEntry) -> bool {
    a.deadline < b.deadline || (a.deadline == b.deadline && a.seq < b.seq)
}

/// All pending timers, kept sorted in dispatch order.
#[derive(Clone, Debug)]
pub struct TimerQueue {
    /// The pending entries, sorted by `entry_lt`.
    pub entries: Vec<TimerEntry>,
    /// The registration number the next `register` call will take.
    pub next_seq: u64,
}

impl TimerQueue {
    /// The queue is well formed while its entries are strictly sorted
    /// in dispatch order and every registration number lies below the
    /// next one to be handed out.
    pub open spec fn wf(self) -> bool {
        &&& forall|i: int, j: int|
            0 <= i < j < self.entries@.len() ==> entry_lt(self.entries@[i], self.entries@[j])
        &&& forall|i: int| 0 <= i < self.entries@.len() ==> #[trigger] self.entries@[i].seq < self.next_seq
    }

    /// An empty queue: nothing pending.
    pub fn new() -> (q: TimerQueue)
        ensures
            q.wf(),
            q.entries@.len() == 0,
            q.next_seq == 0,
    {
        TimerQueue { entries: Vec::new(), next_seq: 0 }
    }

    /// How many timers are pending.
    pub fn len(&self) -> (n: usize)
        ensures
            n == self.entries@.len(),
    {
        self.entries.len()
    }

    /// Add one pending timer. Exactly one entry enters the queue; it
    /// carries the deadline, window and token given and the next
    /// registration number, so it dispatches after every already-pending
    /// timer with the same deadline.
    pub fn register(&mut self, deadline: u64, window: WindowId, token: TimerToken)
        requires
            old(self).wf(),
            old(self).next_seq < u64::MAX,
            old(self).entries@.len() < usize::MAX,
        ensures
            final(self).wf(),
            final(self).entries@.len() == old(self).entries@.len() + 1,
            final(self).entries@.to_multiset() == old(self).entries@.to_multiset().insert(
                (TimerEntry { deadline, seq: old(self).next_seq, window, token }),
            ),
            final(self).next_seq == old(self).next_seq + 1,
    {
        let entry = TimerEntry { deadline, seq: self.next_seq, window, token };
        let ghost s = self.entries@;
        let mut i: usize = 0;
        while i < self.entries.len() && self.entries[i].deadline <= deadline
            invariant
                0 <= i <= s.len(),
                self.entries@ == s,
                forall|j: int| 0 <= j < i ==> #[trigger] s[j].deadline <= deadline,
            decreases s.len() - i,
        {
            i = i + 1;
        }
        self.entries.insert(i, entry);
        self.next_seq = self.next_seq + 1;
        proof {
            vstd::seq_lib::to_multiset_insert(s, i as int, entry);
            assert forall|a: int, b: int|
                0 <= a < b < self.entries@.len() implies entry_lt(
                self.entries@[a],
                self.entries@[b],
            ) by {
                if b < i {
                } else if a < i && b == i {
                    assert(self.entries@[a] == s[a]);
                } else if a < i && b > i {
                    assert(self.entries@[a] == s[a] && self.entries@[b] == s[b - 1]);
                } else if a == i {
                    assert(self.entries@[b] == s[b - 1]);
                    assert(i <= b - 1 < s.len());
                    assert(s[i as int].deadline > deadline);
                    if b - 1 > i {
                        assert(entry_lt(s[i as int], s[b - 1]));
                    }
                } else {
                    assert(self.entries@[a] == s[a - 1] && self.entries@[b] == s[b - 1]);
                }
            }
        }
    }

    /// The instant the loop must wake at next: the deadline of the
    /// first pending entry, which is the minimum over all of them, or
    /// nothing when no timer is pending (the loop then waits
    /// indefinitely).
    pub fn next_deadline(&self) -> (r: Option<u64>)
        requires
            self.wf(),
        ensures
            match r {
                Option::Some(d) => {
                    &&& self.entries@.len() > 0
                    &&& d == self.entries@[0].deadline
                    &&& forall|i: int|
                        0 <= i < self.entries@.len() ==> d <= #[trigger] self.entries@[i].deadline
                },
                Option::None => self.entries@.len() == 0,
            },
    {
        if self.entries.len() == 0 {
            None
        } else {
            let d = self.entries[0].deadline;
            proof {
                assert forall|i: int|
                    0 <= i < self.entries@.len() implies d <= #[trigger] self.entries@[i].deadline by {
                    if i > 0 {
                        assert(entry_lt(self.entries@[0], self.entries@[i]));
                    }
                }
            }
            Some(d)
        }
    }

    /// Fire the earliest pending timer if its deadline has been
    /// reached: exactly that one entry leaves the queue, no timer fires
    /// before its deadline, and every remaining entry dispatches no
    /// earlier than the fired one.
    pub fn fire_due(&mut self, now: u64) -> (r: Option<TimerEntry>)
        requires
            old(self).wf(),
        ensures
            final(self).wf(),
            final(self).next_seq == old(self).next_seq,
            match r {
                Option::Some(e) => {
                    &&& old(self).entries@.len() > 0
                    &&& e == old(self).entries@[0]
                    &&& e.deadline <= now
                    &&& final(self).entries@ == old(self).entries@.remove(0)
                    &&& final(self).entries@.to_multiset() == old(
                        self,
                    ).entries@.to_multiset().remove(e)
                    &&& forall|i: int|
                        0 <= i < old(self).entries@.len() ==> e.deadline <= #[trigger] old(
                            self,
                        ).entries@[i].deadline
                },
                Option::None => {
                    &&& *final(self) == *old(self)
                    &&& (old(self).entries@.len() == 0 || old(self).entries@[0].deadline > now)
                },
            },
    {
        if self.entries.len() == 0 {
            return None;
        }
        if self.entries[0].deadline > now {
            return None;
        }
        let ghost s = self.entries@;
        let e = self.entries.remove(0);
        proof {
            vstd::seq_lib::to_multiset_remove(s, 0);
            assert forall|i: int| 0 <= i < s.len() implies e.deadline <= #[trigger] s[i].deadline by {
                if i > 0 {
                    assert(entry_lt(s[0], s[i]));
                }
            }
        }
        Some(e)
    }
}

/// Timer ordering: the queue holds its entries in dispatch order, so
/// timers registered with deadlines `d1 < d2 < d3` — in whatever
/// registration order — fire in deadline order, and timers sharing a
/// deadline fire in registration order.
pub proof fn lemma_dispatch_order(q: TimerQueue, i: int, j: int)
    requires
        q.wf(),
        0 <= i < j < q.entries@.len(),
    ensures
        q.entries@[i].deadline <= q.entries@[j].deadline,
        q.entries@[i].deadline == q.entries@[j].deadline ==> q.entries@[i].seq < q.entries@[j].seq,
{
    assert(entry_lt(q.entries@[i], q.entries@[j]));
}


/// One request, one fire: registering a timer raises its entry's
/// multiplicity by exactly one and touches no other entry, and firing
/// it lowers it back by one — so a request yields exactly one `Timer`
/// event, never zero, never more, whatever deadline it carries.
pub proof fn lemma_one_request_one_fire(m: Multiset<TimerEntry>, e: TimerEntry)
    ensures
        m.insert(e).count(e) == m.count(e) + 1,
        forall|x: TimerEntry| x != e ==> m.insert(e).count(x) == m.count(x),
        m.insert(e).remove(e) =~= m,
{
    broadcast use vstd::multiset::group_multiset_axioms;

}

} // verus!
