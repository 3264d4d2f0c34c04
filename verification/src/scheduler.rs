//! The precise one-shot task queue.
//!
//! Tasks are kept ordered by their fire instant; among tasks with the
//! same instant, the one queued first leaves first.  The queue lives
//! only in process memory: the periodic sweep is the durability
//! backstop for tasks lost in a restart.

use vstd::prelude::*;

verus! {

/// What a fired task does; the worker that pops it performs the
/// matching transition on the store and the transport.
#[derive(Clone, Copy, Debug, PartialEq, Eq, Structural)]
pub enum TaskAction {
    /// Deliver the reminder for the event with this row id.
    Remind(i32),
    /// Retire the event with this row id.
    Retire(i32),
}

/// The ordering key of the task queue.
#[derive(Clone, Copy, Debug, PartialEq, Eq, Structural)]
pub struct SchedulerKey {
    /// The instant (seconds since the Unix epoch, UTC) at or after
    /// which the task may run.
    pub fire_at: i64,
}

/// A queued one-shot task.
#[derive(Clone, Copy, Debug, PartialEq, Eq, Structural)]
pub struct ScheduledTask {
    /// When the task becomes due.
    pub key: SchedulerKey,
    /// What the task does.
    pub action: TaskAction,
}

/// Queue order: earlier fire instants first.
pub open spec fn key_le(a: SchedulerKey, b: SchedulerKey) -> bool {
    a.fire_at <= b.fire_at
}

/// The tasks stand in fire order.
pub open spec fn sorted_by_key(s: Seq<ScheduledTask>) -> bool {
    forall|i: int, j: int| 0 <= i < j < s.len() ==> key_le(#[trigger] s[i].key, #[trigger] s[j].key)
}

/// The time-ordered one-shot task queue.
pub struct PrecisionScheduler {
    tasks: Vec<ScheduledTask>,
}

impl View for PrecisionScheduler {
    type V = Seq<ScheduledTask>;

    closed spec fn view(&self) -> Seq<ScheduledTask> {
        self.tasks@
    }
}

impl PrecisionScheduler {
    /// The queue invariant.
    pub closed spec fn wf(self) -> bool {
        sorted_by_key(self.tasks@)
    }

    /// An empty queue.
    pub fn new() -> (s: Self)
        ensures
            s.wf(),
            s@ == Seq::<ScheduledTask>::empty(),
    {
        let s = PrecisionScheduler { tasks: Vec::new() };
        proof {
            assert(s.tasks@ =~= Seq::<ScheduledTask>::empty());
        }
        s
    }

    /// How many tasks are pending.
    pub fn len(&self) -> (n: usize)
        ensures
            n == self@.len(),
    {
        self.tasks.len()
    }

    /// The earliest pending fire instant, if any task is queued.
    pub fn peek_fire_at(&self) -> (r: Option<i64>)
        ensures
            match r {
                Some(t) => self@.len() > 0 && t == self@[0].key.fire_at,
                None => self@.len() == 0,
            },
    {
        if self.tasks.len() > 0 {
            Some(self.tasks[0].key.fire_at)
        } else {
            None
        }
    }

    /// Queue a one-shot task.  A task whose instant already passed is
    /// still queued and will come out on the next poll, never dropped.
    pub fn schedule(&mut self, fire_at: i64, action: TaskAction)
        requires
            old(self).wf(),
            old(self)@.len() < usize::MAX,
        ensures
            final(self).wf(),
            exists|i: int|
                0 <= i <= old(self)@.len() && final(self)@ == old(self)@.insert(
                    i,
                    ScheduledTask { key: SchedulerKey { fire_at }, action },
                ) && (forall|k: int|
                    0 <= k < i ==> (#[trigger] old(self)@[k]).key.fire_at <= fire_at) && (i < old(
                    self,
                )@.len() ==> old(self)@[i as int].key.fire_at > fire_at),
    {
        let task = ScheduledTask { key: SchedulerKey { fire_at }, action };
        let ghost s0 = self.tasks@;
        let mut i: usize = 0;
        while i < self.tasks.len() && self.tasks[i].key.fire_at <= fire_at
            invariant
                self.tasks@ == s0,
                sorted_by_key(s0),
                0 <= i <= s0.len(),
                forall|k: int| 0 <= k < i ==> (#[trigger] s0[k].key).fire_at <= fire_at,
            decreases s0.len() - i,
        {
            i = i + 1;
        }
        self.tasks.insert(i, task);
        proof {
            let s1 = self.tasks@;
            assert forall|a: int, b: int| 0 <= a < b < s1.len() implies key_le(
                s1[a].key,
                s1[b].key,
            ) by {
                if b < i {
                    assert(s1[a] == s0[a] && s1[b] == s0[b]);
                } else if b == i {
                    assert(s1[a] == s0[a] && s1[b] == task);
                    assert(s0[a].key.fire_at <= fire_at);
                } else if a > i {
                    assert(s1[a] == s0[a - 1] && s1[b] == s0[b - 1]);
                } else if a == i {
                    assert(s1[a] == task && s1[b] == s0[b - 1]);
                    assert(i < s0.len());
                    assert(s0[i as int].key.fire_at > fire_at);
                    assert(key_le(s0[i as int].key, s0[b - 1].key) || b - 1 == i);
                } else {
                    assert(s1[a] == s0[a] && s1[b] == s0[b - 1]);
                    assert(a < b - 1);
                }
            }
        }
    }

    /// Pop the earliest task if its instant has arrived.  The returned
    /// task is removed: the queue hands each task out exactly once.
    pub fn pop_due(&mut self, now: i64) -> (r: Option<ScheduledTask>)
        requires
            old(self).wf(),
        ensures
            final(self).wf(),
            match r {
                Some(t) => old(self)@.len() > 0 && t == old(self)@[0] && t.key.fire_at <= now
                    && final(self)@ == old(self)@.drop_first(),
                None => *final(self) == *old(self) && (old(self)@.len() == 0 || old(
                    self,
                )@[0].key.fire_at > now),
            },
    {
        if self.tasks.len() > 0 && self.tasks[0].key.fire_at <= now {
            let t = self.tasks.remove(0);
            proof {
                assert(self.tasks@ =~= old(self).tasks@.drop_first());
            }
            Some(t)
        } else {
            None
        }
    }
}

} // verus!
