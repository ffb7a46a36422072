//! Worker-pool accounting: the concurrency clamp and the bounded-dispatch
//! state machine that the download shell drives.

use vstd::prelude::*;

verus! {

/// Lowest concurrency the pool accepts.
pub const MIN_CONCURRENCY: u64 = 1;

/// Highest concurrency the pool accepts.
pub const MAX_CONCURRENCY: u64 = 16;

/// Clamps a requested concurrency into `[MIN_CONCURRENCY, MAX_CONCURRENCY]`.
///
/// Returns the effective concurrency together with `true` when the request
/// was out of range, so the caller can surface a warning (never an error).
pub fn clamp_concurrency(requested: u64) -> (r: (u64, bool))
    ensures
        requested < MIN_CONCURRENCY ==> r.0 == MIN_CONCURRENCY && r.1,
        requested > MAX_CONCURRENCY ==> r.0 == MAX_CONCURRENCY && r.1,
        MIN_CONCURRENCY <= requested <= MAX_CONCURRENCY ==> r.0 == requested && !r.1,
{
    if requested < MIN_CONCURRENCY {
        (MIN_CONCURRENCY, true)
    } else if requested > MAX_CONCURRENCY {
        (MAX_CONCURRENCY, true)
    } else {
        (requested, false)
    }
}

/// The lifecycle of one task in a batch: queued, handed to a worker, or
/// finished with a success flag.
#[derive(Clone, Copy, Debug, PartialEq, Eq, Structural)]
pub enum TaskState {
    Queued,
    Running,
    Done(bool),
}

/// How many tasks of `s` are currently running.
pub open spec fn count_running(s: Seq<TaskState>) -> nat
    decreases s.len(),
{
    if s.len() == 0 {
        0
    } else {
        count_running(s.drop_last()) + if s.last() is Running {
            1nat
        } else {
            0nat
        }
    }
}

proof fn lemma_count_running_update(s: Seq<TaskState>, i: int, v: TaskState)
    requires
        0 <= i < s.len(),
    ensures
        count_running(s.update(i, v)) == count_running(s) - (if s[i] is Running {
            1int
        } else {
            0int
        }) + (if v is Running {
            1int
        } else {
            0int
        }),
    decreases s.len(),
{
    let t = s.update(i, v);
    if i == s.len() - 1 {
        assert(t.drop_last() =~= s.drop_last());
    } else {
        assert(t.drop_last() =~= s.drop_last().update(i, v));
        assert(t.last() == s.last());
        lemma_count_running_update(s.drop_last(), i, v);
    }
}

proof fn lemma_count_running_pos(s: Seq<TaskState>, i: int)
    requires
        0 <= i < s.len(),
        s[i] is Running,
    ensures
        count_running(s) >= 1,
    decreases s.len(),
{
    if i < s.len() - 1 {
        lemma_count_running_pos(s.drop_last(), i);
    }
}

/// Bounded-concurrency dispatch for one batch of tasks.
///
/// The runner accounts for a batch of `total` tasks by index.  The shell
/// asks it which task to start next and reports each finished task back; the
/// runner never hands out a task while `limit` tasks are in flight, so at
/// most `limit` downloads run simultaneously, and a finished task frees its
/// slot at once.  Each task's outcome is recorded independently of its
/// siblings.
pub struct BatchRunner {
    limit: u64,
    states: Vec<TaskState>,
    next: usize,
    running: u64,
}

impl BatchRunner {
    /// The concurrency ceiling of this batch.
    pub closed spec fn spec_limit(&self) -> u64 {
        self.limit
    }

    /// The per-task states, by task index.
    pub closed spec fn spec_states(&self) -> Seq<TaskState> {
        self.states@
    }

    /// How many tasks have been handed out so far.
    pub closed spec fn spec_next(&self) -> usize {
        self.next
    }

    /// How many tasks are in flight right now.
    pub closed spec fn spec_running(&self) -> u64 {
        self.running
    }

    /// The runner's invariant: the ceiling is in range and respected, the
    /// in-flight count matches the task states, tasks are handed out in
    /// order, and no handed-out task is still queued.
    pub open spec fn inv(&self) -> bool {
        &&& MIN_CONCURRENCY <= self.spec_limit() <= MAX_CONCURRENCY
        &&& self.spec_next() <= self.spec_states().len()
        &&& self.spec_running() as nat == count_running(self.spec_states())
        &&& self.spec_running() <= self.spec_limit()
        &&& forall|i: int|
            self.spec_next() <= i < self.spec_states().len() ==> self.spec_states()[i] is Queued
        &&& forall|i: int| 0 <= i < self.spec_next() ==> !(self.spec_states()[i] is Queued)
    }

    /// Whether every task has been handed out and has come back.
    pub open spec fn spec_finished(&self) -> bool {
        self.spec_next() == self.spec_states().len() && self.spec_running() == 0
    }

    /// A fresh runner for a batch of `total` tasks under ceiling `limit`.
    pub fn new(limit: u64, total: usize) -> (r: BatchRunner)
        requires
            MIN_CONCURRENCY <= limit <= MAX_CONCURRENCY,
        ensures
            r.inv(),
            r.spec_limit() == limit,
            r.spec_states().len() == total,
            r.spec_next() == 0,
            r.spec_running() == 0,
    {
        let mut states: Vec<TaskState> = Vec::new();
        let mut i: usize = 0;
        while i < total
            invariant
                i <= total,
                states@.len() == i,
                forall|j: int| 0 <= j < i ==> states@[j] is Queued,
                count_running(states@) == 0,
            decreases total - i,
        {
            let ghost prev = states@;
            states.push(TaskState::Queued);
            proof {
                assert(states@.drop_last() =~= prev);
            }
            i = i + 1;
        }
        BatchRunner { limit, states, next: 0, running: 0 }
    }

    /// Number of tasks in this batch.
    pub fn total(&self) -> (r: usize)
        ensures
            r == self.spec_states().len(),
    {
        self.states.len()
    }

    /// Hands out the next task index, or `None` when the batch is exhausted
    /// or `limit` tasks are already in flight — the caller must then record
    /// an outcome before more work is dispatched.
    pub fn try_dispatch(&mut self) -> (r: Option<usize>)
        requires
            old(self).inv(),
        ensures
            final(self).inv(),
            final(self).spec_limit() == old(self).spec_limit(),
            old(self).spec_running() < old(self).spec_limit() && old(self).spec_next() < old(
                self,
            ).spec_states().len() ==> {
                &&& r == Some(old(self).spec_next())
                &&& final(self).spec_states() == old(self).spec_states().update(
                    old(self).spec_next() as int,
                    TaskState::Running,
                )
                &&& final(self).spec_next() == old(self).spec_next() + 1
                &&& final(self).spec_running() == old(self).spec_running() + 1
            },
            !(old(self).spec_running() < old(self).spec_limit() && old(self).spec_next() < old(
                self,
            ).spec_states().len()) ==> {
                &&& r is None
                &&& final(self).spec_states() == old(self).spec_states()
                &&& final(self).spec_next() == old(self).spec_next()
                &&& final(self).spec_running() == old(self).spec_running()
            },
    {
        if self.running < self.limit && self.next < self.states.len() {
            let i = self.next;
            proof {
                lemma_count_running_update(self.states@, i as int, TaskState::Running);
            }
            self.states.set(i, TaskState::Running);
            self.next = i + 1;
            self.running = self.running + 1;
            Some(i)
        } else {
            None
        }
    }

    /// Whether task `i` is currently in flight; the shell checks this before
    /// recording an outcome.
    pub fn is_running(&self, i: usize) -> (r: bool)
        requires
            i < self.spec_states().len(),
        ensures
            r == (self.spec_states()[i as int] is Running),
    {
        matches!(self.states[i], TaskState::Running)
    }

    /// Records the outcome of a finished task, freeing its slot.  Only the
    /// recorded task's state changes: one task's failure never touches its
    /// siblings.
    pub fn record_outcome(&mut self, i: usize, ok: bool)
        requires
            old(self).inv(),
            i < old(self).spec_states().len(),
            old(self).spec_states()[i as int] is Running,
        ensures
            final(self).inv(),
            final(self).spec_limit() == old(self).spec_limit(),
            final(self).spec_states() == old(self).spec_states().update(
                i as int,
                TaskState::Done(ok),
            ),
            final(self).spec_next() == old(self).spec_next(),
            final(self).spec_running() == old(self).spec_running() - 1,
    {
        proof {
            lemma_count_running_pos(self.states@, i as int);
            lemma_count_running_update(self.states@, i as int, TaskState::Done(ok));
        }
        self.states.set(i, TaskState::Done(ok));
        self.running = self.running - 1;
    }

    /// Whether the whole batch has been dispatched and has come back.
    pub fn finished(&self) -> (r: bool)
        ensures
            r == self.spec_finished(),
    {
        self.next == self.states.len() && self.running == 0
    }

    /// The per-task outcomes of a finished batch, by task index: `true`
    /// exactly for the tasks that succeeded.
    pub fn outcomes(&self) -> (r: Vec<bool>)
        requires
            self.inv(),
            self.spec_finished(),
        ensures
            r@.len() == self.spec_states().len(),
            forall|i: int|
                0 <= i < r@.len() ==> r@[i] == (self.spec_states()[i] == TaskState::Done(true)),
    {
        let n = self.states.len();
        let mut r: Vec<bool> = Vec::new();
        let mut i: usize = 0;
        while i < n
            invariant
                self.inv(),
                self.spec_finished(),
                n == self.spec_states().len(),
                i <= n,
                r@.len() == i,
                forall|j: int|
                    0 <= j < i ==> r@[j] == (self.spec_states()[j] == TaskState::Done(true)),
            decreases n - i,
        {
            match self.states[i] {
                TaskState::Done(ok) => r.push(ok),
                _ => {
                    proof {
                        lemma_count_running_pos(self.spec_states(), i as int);
                    }
                    r.push(false);
                },
            }
            i = i + 1;
        }
        r
    }
}

} // verus!
