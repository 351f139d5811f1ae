//! The set of pending waits.
//!
//! Each wait holds the value of the monotonic clock at which it is over and the
//! message to answer then. The set keeps its waits ordered by deadline, and waits
//! of one deadline in the order in which they came, so that the wait that is over
//! first is always the first one.

use crate::message::MessageId;
use vstd::prelude::*;

verus! {

/// A pending wait: the message `message_id` is answered once the monotonic clock
/// has reached `deadline`.
#[derive(Clone, Copy, Debug, PartialEq, Eq, Structural)]
pub struct Timer {
    pub deadline: u128,
    pub message_id: MessageId,
}

/// No timer stands before one with an earlier deadline.
pub open spec fn sorted_by_deadline(timers: Seq<Timer>) -> bool {
    forall|i: int, j: int| 0 <= i <= j < timers.len() ==> timers[i].deadline <= timers[j].deadline
}

/// The number of timers at the front of `timers` whose deadline is not later than
/// `deadline`: the place where a new timer with that deadline goes.
pub open spec fn insertion_index(timers: Seq<Timer>, deadline: u128) -> nat
    decreases timers.len(),
{
    if timers.len() == 0 || timers[0].deadline > deadline {
        0
    } else {
        1 + insertion_index(timers.drop_first(), deadline)
    }
}

/// `timers` with `timer` put in behind every timer whose deadline is not later.
pub open spec fn schedule(timers: Seq<Timer>, timer: Timer) -> Seq<Timer> {
    timers.insert(insertion_index(timers, timer.deadline) as int, timer)
}

/// The deadline that is reached first, if there is a timer at all.
pub open spec fn earliest_deadline(timers: Seq<Timer>) -> Option<u128> {
    if timers.len() == 0 {
        None
    } else {
        Some(timers[0].deadline)
    }
}

/// Whether the first timer is over at the clock value `now`.
pub open spec fn has_expired(timers: Seq<Timer>, now: u128) -> bool {
    timers.len() > 0 && timers[0].deadline <= now
}

/// The insertion index lies within the sequence, every timer before it has a
/// deadline that is not later, and the timer at it, if any, has a later one.
pub proof fn lemma_insertion_index(timers: Seq<Timer>, deadline: u128)
    ensures
        insertion_index(timers, deadline) <= timers.len(),
        forall|i: int|
            0 <= i < insertion_index(timers, deadline) ==> timers[i].deadline <= deadline,
        insertion_index(timers, deadline) < timers.len() ==> timers[insertion_index(
            timers,
            deadline,
        ) as int].deadline > deadline,
    decreases timers.len(),
{
    if timers.len() == 0 || timers[0].deadline > deadline {
    } else {
        let rest = timers.drop_first();
        lemma_insertion_index(rest, deadline);
        let k = insertion_index(rest, deadline) as int;
        assert forall|i: int| 0 <= i < k + 1 implies timers[i].deadline <= deadline by {
            if i > 0 {
                assert(timers[i] == rest[i - 1]);
            }
        }
        if k < rest.len() {
            assert(timers[k + 1] == rest[k]);
        }
    }
}

/// A place that has only deadlines that are not later before it, and a later one
/// at it or nothing, is the insertion index.
pub proof fn lemma_insertion_index_unique(timers: Seq<Timer>, deadline: u128, index: nat)
    requires
        index <= timers.len(),
        forall|i: int| 0 <= i < index ==> timers[i].deadline <= deadline,
        index < timers.len() ==> timers[index as int].deadline > deadline,
    ensures
        insertion_index(timers, deadline) == index,
    decreases timers.len(),
{
    if index > 0 {
        let rest = timers.drop_first();
        assert forall|i: int| 0 <= i < index - 1 implies rest[i].deadline <= deadline by {
            assert(rest[i] == timers[i + 1]);
        }
        if index - 1 < rest.len() {
            assert(rest[index - 1] == timers[index as int]);
        }
        lemma_insertion_index_unique(rest, deadline, (index - 1) as nat);
    }
}

/// Scheduling a timer keeps the order by deadline, keeps every timer that was
/// there, and adds exactly the new one.
pub proof fn lemma_schedule(timers: Seq<Timer>, timer: Timer)
    requires
        sorted_by_deadline(timers),
    ensures
        sorted_by_deadline(schedule(timers, timer)),
        schedule(timers, timer).len() == timers.len() + 1,
        schedule(timers, timer).to_multiset() == timers.to_multiset().insert(timer),
{
    let index = insertion_index(timers, timer.deadline) as int;
    lemma_insertion_index(timers, timer.deadline);
    let after = schedule(timers, timer);
    assert forall|i: int, j: int| 0 <= i <= j < after.len() implies after[i].deadline
        <= after[j].deadline by {
        if i < index && j > index {
            assert(after[i] == timers[i]);
            assert(after[j] == timers[j - 1]);
        } else if i == index && j > index {
            assert(after[j] == timers[j - 1]);
            assert(timers[index].deadline <= timers[j - 1].deadline);
        }
    }
    vstd::seq_lib::to_multiset_insert(timers, index, timer);
}

/// The pending waits, ordered by deadline.
pub struct TimerSet {
    timers: Vec<Timer>,
}

impl View for TimerSet {
    type V = Seq<Timer>;

    closed spec fn view(&self) -> Seq<Timer> {
        self.timers@
    }
}

impl TimerSet {
    /// The invariant of the set: its timers are ordered by deadline.
    pub open spec fn wf(&self) -> bool {
        sorted_by_deadline(self@)
    }

    /// A set without timers.
    pub fn new() -> (set: TimerSet)
        ensures
            set.wf(),
            set@ == Seq::<Timer>::empty(),
    {
        TimerSet { timers: Vec::new() }
    }

    /// The number of pending waits.
    pub fn len(&self) -> (len: usize)
        ensures
            len == self@.len(),
    {
        self.timers.len()
    }

    /// The deadline that is reached first, or `None` where nothing is pending.
    pub fn next_deadline(&self) -> (deadline: Option<u128>)
        ensures
            deadline == earliest_deadline(self@),
    {
        if self.timers.len() == 0 {
            None
        } else {
            Some(self.timers[0].deadline)
        }
    }

    /// Adds a wait for `message_id` that is over at `deadline`. It goes behind the
    /// waits that are over no later, and before those that are over later.
    pub fn insert(&mut self, deadline: u128, message_id: MessageId)
        requires
            old(self).wf(),
        ensures
            final(self).wf(),
            final(self)@ == schedule(old(self)@, Timer { deadline, message_id }),
    {
        let timer = Timer { deadline, message_id };
        let mut index: usize = 0;
        while index < self.timers.len() && self.timers[index].deadline <= deadline
            invariant
                self.timers@ == old(self).timers@,
                index <= self.timers.len(),
                forall|i: int| 0 <= i < index ==> self.timers[i].deadline <= deadline,
            decreases self.timers.len() - index,
        {
            index = index + 1;
        }
        proof {
            lemma_insertion_index_unique(self.timers@, deadline, index as nat);
            lemma_schedule(self.timers@, timer);
        }
        self.timers.insert(index, timer);
    }

    /// Takes out the wait that is over first, if it is over at the clock value
    /// `now`, and gives the message to answer. Leaves the set as it is otherwise.
    pub fn pop_expired(&mut self, now: u128) -> (fired: Option<MessageId>)
        requires
            old(self).wf(),
        ensures
            final(self).wf(),
            has_expired(old(self)@, now) ==> fired == Some(old(self)@[0].message_id)
                && final(self)@ == old(self)@.drop_first(),
            !has_expired(old(self)@, now) ==> fired.is_none() && final(self)@ == old(self)@,
    {
        if self.timers.len() > 0 && self.timers[0].deadline <= now {
            let ghost before = self.timers@;
            let timer = self.timers.remove(0);
            assert(self.timers@ =~= before.drop_first());
            Some(timer.message_id)
        } else {
            None
        }
    }
}

} // verus!
