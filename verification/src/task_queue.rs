//! The scheduling core of a native `XTaskQueue`.
//!
//! A task queue is the GDK's callback scheduler: every asynchronous API does its work on a
//! queue's *work port* and delivers the caller's completion on its *completion port*. A port
//! is an ordered list of pending callbacks; a queue is a pair of ports plus monitors; a
//! *composite* queue borrows its ports from other queues, so several queue contexts can share
//! one port.
//!
//! This module holds the decisions - which callback runs next, what a submission does, what
//! terminating one context cancels - as state transitions over plain values. Callers bring the
//! clock (milliseconds on a monotonic clock), the threads and the locks, run the callbacks the
//! transitions hand back, and report back when they are done.
use vstd::prelude::*;
use std::collections::VecDeque;
use crate::handle_table::{HandleTable, handle_lookup};

verus! {

broadcast use vstd::std_specs::hash::group_hash_axioms;

/// `XTaskQueueDispatchMode`: how the callbacks on a port get run.
#[derive(Clone, Copy, Debug, PartialEq, Eq, Structural)]
pub enum DispatchMode {
    /// Callbacks only run when the game calls `XTaskQueueDispatch`.
    Manual,
    /// Callbacks run on background threads, possibly several at once.
    ThreadPool,
    /// Callbacks run on a background thread, one at a time and in order.
    SerializedThreadPool,
    /// Callbacks run inline, on whichever thread submitted them.
    Immediate,
}

/// The dispatch mode a raw `XTaskQueueDispatchMode` value names, if any.
pub open spec fn dispatch_mode_of(value: u64) -> Option<DispatchMode> {
    if value == 0 {
        Some(DispatchMode::Manual)
    } else if value == 1 {
        Some(DispatchMode::ThreadPool)
    } else if value == 2 {
        Some(DispatchMode::SerializedThreadPool)
    } else if value == 3 {
        Some(DispatchMode::Immediate)
    } else {
        None
    }
}

impl DispatchMode {
    /// Decodes a raw `XTaskQueueDispatchMode`; values outside `0..=3` name no mode.
    pub fn from_raw(value: u64) -> (mode: Option<Self>)
        ensures
            mode == dispatch_mode_of(value),
    {
        if value == 0 {
            Some(DispatchMode::Manual)
        } else if value == 1 {
            Some(DispatchMode::ThreadPool)
        } else if value == 2 {
            Some(DispatchMode::SerializedThreadPool)
        } else if value == 3 {
            Some(DispatchMode::Immediate)
        } else {
            None
        }
    }
}

/// `XTaskQueuePort`: which half of a queue an operation refers to.
#[derive(Clone, Copy, Debug, PartialEq, Eq, Structural)]
pub enum PortKind {
    Work,
    Completion,
}

/// The port kind a raw `XTaskQueuePort` value names, if any.
pub open spec fn port_kind_of(value: u64) -> Option<PortKind> {
    if value == 0 {
        Some(PortKind::Work)
    } else if value == 1 {
        Some(PortKind::Completion)
    } else {
        None
    }
}

/// The raw `XTaskQueuePort` value of a port kind.
pub open spec fn port_kind_raw(kind: PortKind) -> u32 {
    match kind {
        PortKind::Work => 0,
        PortKind::Completion => 1,
    }
}

impl PortKind {
    /// Decodes a raw `XTaskQueuePort`; values other than `0` and `1` name no port.
    pub fn from_raw(value: u64) -> (kind: Option<Self>)
        ensures
            kind == port_kind_of(value),
    {
        if value == 0 {
            Some(PortKind::Work)
        } else if value == 1 {
            Some(PortKind::Completion)
        } else {
            None
        }
    }

    /// The raw `XTaskQueuePort` value, as handed to monitors.
    pub fn as_raw(self) -> (raw: u32)
        ensures
            raw == port_kind_raw(self),
            port_kind_of(raw as u64) == Some(self),
    {
        match self {
            PortKind::Work => 0,
            PortKind::Completion => 1,
        }
    }
}

/// One pending callback: what to run, which queue context submitted it, and when it becomes
/// due (`None` for "as soon as possible").
pub struct Task<T> {
    pub payload: T,
    pub owner: u64,
    pub due: Option<u64>,
}

/// Where a task sorts: "as soon as possible" before every deadline, deadlines in time order.
pub open spec fn due_key(due: Option<u64>) -> int {
    match due {
        None => -1,
        Some(at) => at as int,
    }
}

/// Whether a task with this deadline may run at `now`.
pub open spec fn is_ready(due: Option<u64>, now: u64) -> bool {
    match due {
        None => true,
        Some(at) => at <= now,
    }
}

/// Whether a task was submitted by the context `owner`.
pub open spec fn submitted_by<T>(owner: u64) -> spec_fn(Task<T>) -> bool {
    |t: Task<T>| t.owner == owner
}

/// Whether a task was submitted by some context other than `owner`.
pub open spec fn not_submitted_by<T>(owner: u64) -> spec_fn(Task<T>) -> bool {
    |t: Task<T>| t.owner != owner
}

/// Pending callbacks are kept in deadline order.
pub open spec fn deadline_ordered<T>(tasks: Seq<Task<T>>) -> bool {
    forall|i: int, j: int|
        0 <= i <= j < tasks.len() ==> #[trigger] due_key(tasks[i].due) <= #[trigger] due_key(
            tasks[j].due,
        )
}

/// The first index at or after `from` whose task sorts strictly after `key`.
pub open spec fn position_after<T>(tasks: Seq<Task<T>>, key: int, from: int) -> int
    decreases tasks.len() - from,
{
    if from < 0 || from >= tasks.len() {
        tasks.len() as int
    } else if due_key(tasks[from].due) > key {
        from
    } else {
        position_after(tasks, key, from + 1)
    }
}

/// Where a task sorting at `key` is inserted: after every task that sorts at or before it, so
/// tasks with equal deadlines keep their submission order.
pub open spec fn insert_position<T>(tasks: Seq<Task<T>>, key: int) -> int {
    position_after(tasks, key, 0)
}

/// The deadline of a callback submitted at `now` with `delay_ms` of delay.
pub open spec fn deadline_for(now: u64, delay_ms: u64) -> Option<u64> {
    if delay_ms == 0 {
        None
    } else {
        Some((now + delay_ms) as u64)
    }
}

/// Computes the deadline of a callback submitted at `now` with `delay_ms` of delay.
pub fn due_at(now: u64, delay_ms: u64) -> (due: Option<u64>)
    requires
        now + delay_ms <= u64::MAX,
    ensures
        due == deadline_for(now, delay_ms),
{
    if delay_ms == 0 {
        None
    } else {
        Some(now + delay_ms)
    }
}

impl<T> Task<T> {
    /// Whether the callback may run at `now`.
    pub fn ready_at(&self, now: u64) -> (ready: bool)
        ensures
            ready == is_ready(self.due, now),
    {
        match self.due {
            None => true,
            Some(at) => at <= now,
        }
    }
}

/// How many worker threads a port of this mode starts on first use, given the machine's
/// available parallelism if known.
pub open spec fn worker_count(mode: DispatchMode, parallelism: Option<usize>) -> usize {
    match mode {
        DispatchMode::SerializedThreadPool => 1,
        DispatchMode::ThreadPool => match parallelism {
            Some(n) => if n < 4 {
                n
            } else {
                4
            },
            None => 2,
        },
        _ => 0,
    }
}

/// A pool port asks for worker threads the first time work is queued on it: a serialized pool
/// for exactly one, so its callbacks run one at a time; a thread pool for one per available
/// core, at most four, or two when the core count is unknown. Either way at least one thread
/// runs what is queued (the core count the platform reports is never zero). Manual and
/// immediate ports ask for none.
pub proof fn lemma_pool_ports_ask_for_workers(mode: DispatchMode, parallelism: Option<usize>)
    ensures
        mode == DispatchMode::SerializedThreadPool ==> worker_count(mode, parallelism) == 1,
        mode == DispatchMode::ThreadPool && parallelism is None ==> worker_count(mode, parallelism)
            == 2,
        forall|n: usize|
            mode == DispatchMode::ThreadPool && parallelism == Some(n) ==> #[trigger] worker_count(
                mode,
                Some(n),
            ) <= 4 && worker_count(mode, Some(n)) <= n && (worker_count(mode, Some(n)) == n
                || worker_count(mode, Some(n)) == 4),
        has_workers(mode) && (parallelism is None || parallelism->0 >= 1) ==> 1 <= worker_count(
            mode,
            parallelism,
        ) <= 4,
        mode == DispatchMode::Manual || mode == DispatchMode::Immediate ==> worker_count(
            mode,
            parallelism,
        ) == 0 && !has_workers(mode),
{
}

/// Whether a port of this mode is served by worker threads.
pub open spec fn has_workers(mode: DispatchMode) -> bool {
    mode == DispatchMode::ThreadPool || mode == DispatchMode::SerializedThreadPool
}

/// The state of one port, as its lock guards it.
pub struct PortState<T> {
    tasks: VecDeque<Task<T>>,
    submitted: u64,
    dispatched: u64,
    last_dispatch_ms: Option<u64>,
    terminated: bool,
    active_contexts: usize,
    in_flight: usize,
    workers_started: bool,
}

/// The abstract state of a port.
pub struct PortView<T> {
    /// Pending callbacks, in the order they will run.
    pub tasks: Seq<Task<T>>,
    /// Callbacks ever accepted onto the queue (wrapping).
    pub submitted: u64,
    /// Callbacks ever reported finished (wrapping).
    pub dispatched: u64,
    /// When a dispatch last finished at least one callback.
    pub last_dispatch_ms: Option<u64>,
    /// Set once the last context referencing the port terminates; never cleared.
    pub terminated: bool,
    /// How many queue contexts currently reference the port.
    pub active_contexts: nat,
    /// Callbacks handed out to run and not yet reported finished.
    pub in_flight: nat,
    /// Whether worker threads have been started.
    pub workers_started: bool,
}

impl<T> View for PortState<T> {
    type V = PortView<T>;

    closed spec fn view(&self) -> PortView<T> {
        PortView {
            tasks: self.tasks@,
            submitted: self.submitted,
            dispatched: self.dispatched,
            last_dispatch_ms: self.last_dispatch_ms,
            terminated: self.terminated,
            active_contexts: self.active_contexts as nat,
            in_flight: self.in_flight as nat,
            workers_started: self.workers_started,
        }
    }
}

/// What a submission asks the caller to do.
pub enum SubmitAction<T> {
    /// The port or the submitting context is terminated; the task comes back unrun.
    Refused(Task<T>),
    /// An immediate port runs an undelayed callback on the submitting thread, now. It is
    /// counted in flight; report it finished when it returns.
    RunInline(Task<T>),
    /// An immediate port cannot queue a delayed callback; it waits out its deadline on a
    /// thread of its own and runs canceled if the port has terminated by then.
    RunDetached(Task<T>),
    /// Queued in deadline order. Start this many worker threads (often none).
    Queued(usize),
}

/// What the thread waiting on a port should do next.
pub enum WaitStep<T> {
    /// The port is terminated: stop waiting.
    Stopped,
    /// Run this callback; it is counted in flight.
    Took(Task<T>),
    /// The caller's deadline has passed with nothing ready.
    TimedOut,
    /// A deadline fell due between readings of the clock; look again.
    Recheck,
    /// Sleep at most this many milliseconds, or until notified.
    Sleep(u64),
    /// Nothing can become ready by itself: sleep until notified.
    SleepUntilNotified,
}

/// The time a waiter wakes at: the earlier of the caller's deadline and the next task's.
pub open spec fn wake_time(deadline: Option<u64>, next_due: Option<u64>) -> Option<u64> {
    match (deadline, next_due) {
        (Some(a), Some(b)) => Some(
            if a <= b {
                a
            } else {
                b
            },
        ),
        (Some(a), None) => Some(a),
        (None, Some(b)) => Some(b),
        (None, None) => None,
    }
}

impl<T> PortState<T> {
    /// Pending callbacks are in deadline order.
    pub open spec fn wf(&self) -> bool {
        deadline_ordered(self@.tasks)
    }

    /// A fresh port: nothing queued, no contexts yet, nothing counted.
    pub fn new() -> (port: Self)
        ensures
            port.wf(),
            port@ == (PortView::<T> {
                tasks: Seq::empty(),
                submitted: 0,
                dispatched: 0,
                last_dispatch_ms: None,
                terminated: false,
                active_contexts: 0,
                in_flight: 0,
                workers_started: false,
            }),
    {
        PortState {
            tasks: VecDeque::new(),
            submitted: 0,
            dispatched: 0,
            last_dispatch_ms: None,
            terminated: false,
            active_contexts: 0,
            in_flight: 0,
            workers_started: false,
        }
    }

    /// Whether the port is terminated.
    pub fn is_terminated(&self) -> (terminated: bool)
        ensures
            terminated == self@.terminated,
    {
        self.terminated
    }

    /// How many callbacks are pending.
    pub fn depth(&self) -> (depth: usize)
        ensures
            depth == self@.tasks.len(),
    {
        self.tasks.len()
    }

    /// How many callbacks are running.
    pub fn in_flight(&self) -> (count: usize)
        ensures
            count == self@.in_flight,
    {
        self.in_flight
    }

    /// How many queue contexts reference the port.
    pub fn active_contexts(&self) -> (count: usize)
        ensures
            count == self@.active_contexts,
    {
        self.active_contexts
    }

    /// Callbacks ever accepted onto the queue.
    pub fn submitted(&self) -> (count: u64)
        ensures
            count == self@.submitted,
    {
        self.submitted
    }

    /// Callbacks ever reported finished.
    pub fn dispatched(&self) -> (count: u64)
        ensures
            count == self@.dispatched,
    {
        self.dispatched
    }

    /// When a dispatch last finished at least one callback.
    pub fn last_dispatch_ms(&self) -> (at: Option<u64>)
        ensures
            at == self@.last_dispatch_ms,
    {
        self.last_dispatch_ms
    }

    /// Registers one more queue context on this port: a port shared by several queues is only
    /// terminated when its last context terminates.
    pub fn add_context(&mut self)
        requires
            old(self)@.active_contexts < usize::MAX,
        ensures
            final(self)@ == (PortView { active_contexts: old(self)@.active_contexts + 1, ..old(self)@ }),
    {
        self.active_contexts = self.active_contexts + 1;
    }

    /// Finds where a task sorting at `key` goes: after every task that sorts at or before it.
    fn insertion_index(&self, key: Option<u64>) -> (index: usize)
        ensures
            index == insert_position(self@.tasks, due_key(key)),
            index <= self@.tasks.len(),
    {
        let len = self.tasks.len();
        let mut i: usize = 0;
        while i < len
            invariant
                len == self@.tasks.len(),
                i <= len,
                insert_position(self@.tasks, due_key(key)) == position_after(
                    self@.tasks,
                    due_key(key),
                    i as int,
                ),
            decreases len - i,
        {
            let later = match (self.tasks[i].due, key) {
                (Some(queued), Some(new)) => queued > new,
                (Some(_), None) => true,
                _ => false,
            };
            if later {
                return i;
            }
            i = i + 1;
        }
        i
    }

    /// Submits `task` on behalf of a context that is terminated if `owner_terminated`.
    ///
    /// A terminated port or context refuses it. An immediate port runs an undelayed callback
    /// inline and a delayed one detached. Otherwise the task is queued in deadline order,
    /// after any task with the same deadline, and a pool port starts its workers on first use.
    pub fn submit(
        &mut self,
        mode: DispatchMode,
        owner_terminated: bool,
        task: Task<T>,
        parallelism: Option<usize>,
    ) -> (action: SubmitAction<T>)
        requires
            old(self).wf(),
            old(self)@.in_flight < usize::MAX,
        ensures
            final(self).wf(),
            old(self)@.terminated || owner_terminated ==> action == SubmitAction::Refused(task)
                && final(self)@ == old(self)@,
            !old(self)@.terminated && !owner_terminated && mode == DispatchMode::Immediate
                && task.due is None ==> action == SubmitAction::RunInline(task) && final(self)@
                == (PortView { in_flight: old(self)@.in_flight + 1, ..old(self)@ }),
            !old(self)@.terminated && !owner_terminated && mode == DispatchMode::Immediate
                && task.due is Some ==> action == SubmitAction::RunDetached(task)
                && final(self)@ == old(self)@,
            !old(self)@.terminated && !owner_terminated && mode != DispatchMode::Immediate ==> {
                &&& action == SubmitAction::<T>::Queued(
                    if !old(self)@.workers_started && has_workers(mode) {
                        worker_count(mode, parallelism)
                    } else {
                        0
                    },
                )
                &&& final(self)@ == (PortView {
                    tasks: old(self)@.tasks.insert(
                        insert_position(old(self)@.tasks, due_key(task.due)),
                        task,
                    ),
                    submitted: old(self)@.submitted.wrapping_add(1),
                    workers_started: old(self)@.workers_started || has_workers(mode),
                    ..old(self)@
                })
            },
    {
        if self.terminated || owner_terminated {
            return SubmitAction::Refused(task);
        }
        if mode == DispatchMode::Immediate {
            if task.due.is_none() {
                self.in_flight = self.in_flight + 1;
                return SubmitAction::RunInline(task);
            }
            return SubmitAction::RunDetached(task);
        }
        self.submitted = self.submitted.wrapping_add(1);
        let index = self.insertion_index(task.due);
        proof {
            lemma_insert_keeps_deadline_order(self@.tasks, task, index as int);
        }
        self.tasks.insert(index, task);
        if self.workers_started {
            return SubmitAction::Queued(0);
        }
        let count: usize = match mode {
            DispatchMode::SerializedThreadPool => 1,
            DispatchMode::ThreadPool => match parallelism {
                Some(n) => if n < 4 {
                    n
                } else {
                    4
                },
                None => 2,
            },
            _ => return SubmitAction::Queued(0),
        };
        self.workers_started = true;
        SubmitAction::Queued(count)
    }

    /// Terminates the queue context `owner`: takes out exactly the callbacks it submitted, in
    /// order, to be run canceled, and leaves every other context's callbacks queued. If it was
    /// the last live context, the port itself terminates and everything still queued comes
    /// out too, to be run canceled after the first batch.
    pub fn terminate_context(&mut self, owner: u64) -> (batches: (Vec<Task<T>>, Vec<Task<T>>))
        requires
            old(self).wf(),
        ensures
            final(self).wf(),
            ({
                let remaining_contexts: nat = if old(self)@.active_contexts > 0 {
                    (old(self)@.active_contexts - 1) as nat
                } else {
                    0
                };
                let last = remaining_contexts == 0 && !old(self)@.terminated;
                let others = old(self)@.tasks.filter(not_submitted_by::<T>(owner));
                &&& batches.0@ == old(self)@.tasks.filter(submitted_by::<T>(owner))
                &&& batches.1@ == if last {
                    others
                } else {
                    Seq::empty()
                }
                &&& final(self)@ == (PortView {
                    tasks: if last {
                        Seq::empty()
                    } else {
                        others
                    },
                    active_contexts: remaining_contexts,
                    terminated: old(self)@.terminated || remaining_contexts == 0,
                    ..old(self)@
                })
            }),
    {
        if self.active_contexts > 0 {
            self.active_contexts = self.active_contexts - 1;
        }
        let ghost initial = self@.tasks;
        let ghost before = self@;
        let mut pending: VecDeque<Task<T>> = VecDeque::new();
        std::mem::swap(&mut pending, &mut self.tasks);
        let mut own: Vec<Task<T>> = Vec::new();
        let ghost mut taken: int = 0;
        while pending.len() > 0
            invariant
                initial.len() == taken + pending@.len(),
                0 <= taken <= initial.len(),
                pending@ == initial.skip(taken),
                deadline_ordered(initial),
                own@ == initial.take(taken).filter(submitted_by::<T>(owner)),
                self@.tasks == initial.take(taken).filter(not_submitted_by::<T>(owner)),
                deadline_ordered(self@.tasks),
                self@ == (PortView { tasks: self@.tasks, ..before }),
                forall|k: int, j: int|
                    0 <= k < self@.tasks.len() && taken <= j < initial.len() ==> due_key(
                        #[trigger] self@.tasks[k].due,
                    ) <= due_key(#[trigger] initial[j].due),
            decreases pending@.len(),
        {
            let front = pending.pop_front();
            let task = match front {
                Some(task) => task,
                None => {
                    return (own, Vec::new());
                },
            };
            proof {
                assert(task == initial[taken]);
                reveal_with_fuel(Seq::<_>::filter, 1);
                assert(initial.take(taken + 1).drop_last() =~= initial.take(taken));
                assert(initial.take(taken + 1).last() == initial[taken]);
            }
            if task.owner == owner {
                own.push(task);
            } else {
                self.tasks.push_back(task);
            }
            proof {
                taken = taken + 1;
                assert(pending@ =~= initial.skip(taken));
            }
        }
        proof {
            assert(initial.take(taken) =~= initial);
        }
        let mut rest: Vec<Task<T>> = Vec::new();
        if self.active_contexts == 0 && !self.terminated {
            self.terminated = true;
            let ghost kept = self@.tasks;
            let ghost settled = self@;
            while self.tasks.len() > 0
                invariant
                    kept == rest@ + self@.tasks,
                    self@ == (PortView { tasks: self@.tasks, ..settled }),
                decreases self@.tasks.len(),
            {
                let front = self.tasks.pop_front();
                match front {
                    Some(task) => {
                        rest.push(task);
                    },
                    None => {},
                }
                proof {
                    assert(kept =~= rest@ + self@.tasks);
                }
            }
            proof {
                assert(rest@ =~= kept);
            }
        } else if self.active_contexts == 0 {
            self.terminated = true;
        }
        proof {
            let others = initial.filter(not_submitted_by::<T>(owner));
            assert(own@ == initial.filter(submitted_by::<T>(owner)));
            assert(self@.active_contexts == before.active_contexts);
            assert(self@.terminated == (old(self)@.terminated || before.active_contexts == 0));
            assert(self@.submitted == old(self)@.submitted);
            assert(self@.in_flight == old(self)@.in_flight);
            assert(self@.last_dispatch_ms == old(self)@.last_dispatch_ms);
            let last = before.active_contexts == 0 && !old(self)@.terminated;
            if last {
                assert(rest@ == others);
                assert(self@.tasks == Seq::<Task<T>>::empty());
            } else {
                assert(rest@ == Seq::<Task<T>>::empty());
                assert(self@.tasks == others);
            }
        }
        (own, rest)
    }

    /// One pass of waiting for work at time `now`, with an optional caller deadline.
    ///
    /// A terminated port stops the waiter. A ready head task is handed out. Otherwise the
    /// waiter sleeps until the earlier of its deadline and the head task's deadline, or until
    /// notified if there is neither.
    pub fn next_step(&mut self, now: u64, deadline: Option<u64>) -> (step: WaitStep<T>)
        requires
            old(self).wf(),
            old(self)@.in_flight < usize::MAX,
        ensures
            final(self).wf(),
            old(self)@.terminated ==> step is Stopped && final(self)@ == old(self)@,
            !old(self)@.terminated && old(self)@.tasks.len() > 0 && is_ready(
                old(self)@.tasks[0].due,
                now,
            ) ==> step == WaitStep::Took(old(self)@.tasks[0]) && final(self)@ == (PortView {
                tasks: old(self)@.tasks.drop_first(),
                in_flight: old(self)@.in_flight + 1,
                ..old(self)@
            }),
            !old(self)@.terminated && !(old(self)@.tasks.len() > 0 && is_ready(
                old(self)@.tasks[0].due,
                now,
            )) ==> final(self)@ == old(self)@ && ({
                let next_due = if old(self)@.tasks.len() > 0 {
                    old(self)@.tasks[0].due
                } else {
                    None
                };
                match wake_time(deadline, next_due) {
                    Some(until) => if until <= now {
                        if deadline is Some && deadline->0 <= now {
                            step is TimedOut
                        } else {
                            step is Recheck
                        }
                    } else {
                        step == WaitStep::<T>::Sleep((until - now) as u64)
                    },
                    None => step is SleepUntilNotified,
                }
            }),
    {
        if self.terminated {
            return WaitStep::Stopped;
        }
        let ready = self.tasks.len() > 0 && self.tasks[0].ready_at(now);
        if ready {
            let front = self.tasks.pop_front();
            match front {
                Some(task) => {
                    self.in_flight = self.in_flight + 1;
                    proof {
                        assert(self@.tasks =~= old(self)@.tasks.drop_first());
                    }
                    return WaitStep::Took(task);
                },
                None => {
                    return WaitStep::Stopped;
                },
            }
        }
        let next_due = if self.tasks.len() > 0 {
            self.tasks[0].due
        } else {
            None
        };
        let until = match (deadline, next_due) {
            (Some(a), Some(b)) => Some(
                if a <= b {
                    a
                } else {
                    b
                },
            ),
            (Some(a), None) => Some(a),
            (None, Some(b)) => Some(b),
            (None, None) => None,
        };
        match until {
            Some(until) => {
                if until <= now {
                    match deadline {
                        Some(d) => if d <= now {
                            WaitStep::TimedOut
                        } else {
                            WaitStep::Recheck
                        },
                        None => WaitStep::Recheck,
                    }
                } else {
                    WaitStep::Sleep(until - now)
                }
            },
            None => WaitStep::SleepUntilNotified,
        }
    }

    /// Takes out every callback that is ready at `now`, in order, all under one hold of the
    /// lock; they are counted in flight. What remains starts with a task that is not ready.
    pub fn drain_ready(&mut self, now: u64) -> (batch: Vec<Task<T>>)
        requires
            old(self).wf(),
            old(self)@.in_flight + old(self)@.tasks.len() <= usize::MAX,
        ensures
            final(self).wf(),
            old(self)@.tasks == batch@ + final(self)@.tasks,
            forall|i: int| 0 <= i < batch@.len() ==> is_ready(#[trigger] batch@[i].due, now),
            final(self)@.tasks.len() > 0 ==> !is_ready(final(self)@.tasks[0].due, now),
            final(self)@ == (PortView {
                tasks: final(self)@.tasks,
                in_flight: old(self)@.in_flight + batch@.len(),
                ..old(self)@
            }),
    {
        let ghost initial = self@.tasks;
        let mut batch: Vec<Task<T>> = Vec::new();
        while self.tasks.len() > 0 && self.tasks[0].ready_at(now)
            invariant
                initial == batch@ + self@.tasks,
                forall|i: int| 0 <= i < batch@.len() ==> is_ready(#[trigger] batch@[i].due, now),
                deadline_ordered(initial),
                self@.in_flight == old(self)@.in_flight + batch@.len(),
                old(self)@.in_flight + initial.len() <= usize::MAX,
                self@ == (PortView {
                    tasks: self@.tasks,
                    in_flight: self@.in_flight,
                    ..old(self)@
                }),
            decreases self@.tasks.len(),
        {
            let front = self.tasks.pop_front();
            match front {
                Some(task) => {
                    batch.push(task);
                    self.in_flight = self.in_flight + 1;
                },
                None => {},
            }
            proof {
                assert(initial =~= batch@ + self@.tasks);
            }
        }
        proof {
            assert forall|i: int, j: int|
                0 <= i <= j < self@.tasks.len() implies #[trigger] due_key(self@.tasks[i].due)
                <= #[trigger] due_key(self@.tasks[j].due) by {
                assert(self@.tasks[i] == initial[batch@.len() + i]);
                assert(self@.tasks[j] == initial[batch@.len() + j]);
            }
        }
        batch
    }

    /// Reports `count` handed-out callbacks finished at `now_ms`.
    pub fn finish(&mut self, count: usize, now_ms: u64)
        requires
            old(self)@.in_flight >= count,
        ensures
            count == 0 ==> final(self)@ == old(self)@,
            count > 0 ==> final(self)@ == (PortView {
                dispatched: old(self)@.dispatched.wrapping_add(count as u64),
                last_dispatch_ms: Some(now_ms),
                in_flight: (old(self)@.in_flight - count) as nat,
                ..old(self)@
            }),
            old(self).wf() ==> final(self).wf(),
    {
        if count == 0 {
            return;
        }
        self.dispatched = self.dispatched.wrapping_add(count as u64);
        self.last_dispatch_ms = Some(now_ms);
        self.in_flight = self.in_flight - count;
    }
}

/// Inserting a task where `insert_position` puts it keeps the pending list in deadline order.
pub proof fn lemma_insert_keeps_deadline_order<T>(tasks: Seq<Task<T>>, task: Task<T>, index: int)
    requires
        deadline_ordered(tasks),
        index == insert_position(tasks, due_key(task.due)),
    ensures
        0 <= index <= tasks.len(),
        deadline_ordered(tasks.insert(index, task)),
{
    let key = due_key(task.due);
    lemma_position_after_bounds(tasks, key, 0);
    let result = tasks.insert(index, task);
    assert forall|i: int, j: int| 0 <= i <= j < result.len() implies #[trigger] due_key(
        result[i].due,
    ) <= #[trigger] due_key(result[j].due) by {
        if j < index {
        } else if i > index {
            assert(result[i] == tasks[i - 1]);
            assert(result[j] == tasks[j - 1]);
        } else if i == index && j == index {
        } else if i == index {
            assert(result[j] == tasks[j - 1]);
            assert(due_key(tasks[index].due) > key);
        } else {
            assert(i < index);
            if j == index {
                assert(due_key(tasks[i].due) <= key);
            } else {
                assert(result[j] == tasks[j - 1]);
            }
        }
    }
}

/// Where `PortState::submit` queues a task on a deadline-ordered port: after every pending
/// task that is due no later than it (so undelayed tasks stay first, and tasks with equal
/// deadlines keep their submission order) and before every task due later. The list stays in
/// deadline order, and taking the new task out again gives back the old list.
pub proof fn lemma_submit_queues_after_no_later_tasks<T>(tasks: Seq<Task<T>>, task: Task<T>)
    requires
        deadline_ordered(tasks),
    ensures
        ({
            let at = insert_position(tasks, due_key(task.due));
            let queued = tasks.insert(at, task);
            &&& 0 <= at <= tasks.len()
            &&& queued[at] == task
            &&& forall|j: int| 0 <= j < at ==> due_key(#[trigger] queued[j].due) <= due_key(task.due)
            &&& forall|j: int| at < j < queued.len() ==> due_key(#[trigger] queued[j].due) > due_key(
                task.due,
            )
            &&& deadline_ordered(queued)
            &&& queued.remove(at) == tasks
        }),
{
    let key = due_key(task.due);
    let at = insert_position(tasks, key);
    lemma_position_after_bounds(tasks, key, 0);
    lemma_insert_keeps_deadline_order(tasks, task, at);
    let queued = tasks.insert(at, task);
    assert forall|j: int| at < j < queued.len() implies due_key(#[trigger] queued[j].due) > key by {
        assert(queued[j] == tasks[j - 1]);
    }
    assert(queued.remove(at) =~= tasks);
}

/// `position_after` scans forward: everything it passes sorts at or before `key`, and what it
/// stops at (if anything) sorts after it.
pub proof fn lemma_position_after_bounds<T>(tasks: Seq<Task<T>>, key: int, from: int)
    requires
        0 <= from <= tasks.len(),
        deadline_ordered(tasks),
    ensures
        from <= position_after(tasks, key, from) <= tasks.len(),
        forall|j: int|
            from <= j < position_after(tasks, key, from) ==> due_key(#[trigger] tasks[j].due)
                <= key,
        forall|j: int|
            position_after(tasks, key, from) <= j < tasks.len() ==> due_key(
                #[trigger] tasks[j].due,
            ) > key,
    decreases tasks.len() - from,
{
    if from < tasks.len() {
        if due_key(tasks[from].due) > key {
            assert forall|j: int| from <= j < tasks.len() implies due_key(
                #[trigger] tasks[j].due,
            ) > key by {
                assert(due_key(tasks[from].due) <= due_key(tasks[j].due));
            }
        } else {
            lemma_position_after_bounds(tasks, key, from + 1);
        }
    }
}

/// The head of a deadline-ordered list is the callback that is due first.
pub proof fn lemma_head_is_due_first<T>(tasks: Seq<Task<T>>)
    requires
        deadline_ordered(tasks),
        tasks.len() > 0,
    ensures
        forall|i: int| 0 <= i < tasks.len() ==> due_key(tasks[0].due) <= due_key(#[trigger] tasks[i].due),
{
    assert forall|i: int| 0 <= i < tasks.len() implies due_key(tasks[0].due) <= due_key(
        #[trigger] tasks[i].due,
    ) by {
        assert(due_key(tasks[0].due) <= due_key(tasks[i].due));
    }
}

/// Once a drain has stopped at a task that is not ready, nothing left on the port is ready:
/// a later deadline is never ready before an earlier one.
pub proof fn lemma_nothing_ready_after_drain<T>(tasks: Seq<Task<T>>, now: u64)
    requires
        deadline_ordered(tasks),
        tasks.len() > 0 ==> !is_ready(tasks[0].due, now),
    ensures
        forall|i: int| 0 <= i < tasks.len() ==> !is_ready(#[trigger] tasks[i].due, now),
{
    assert forall|i: int| 0 <= i < tasks.len() implies !is_ready(#[trigger] tasks[i].due, now) by {
        assert(due_key(tasks[0].due) <= due_key(tasks[i].due));
    }
}

/// Terminating a context never cancels a callback another context submitted: every task of
/// another owner survives, in its initial order.
pub proof fn lemma_termination_spares_other_owners<T>(
    tasks: Seq<Task<T>>,
    owner: u64,
    other: u64,
)
    requires
        other != owner,
    ensures
        tasks.filter(submitted_by::<T>(other)) == tasks.filter(not_submitted_by::<T>(owner)).filter(
            submitted_by::<T>(other),
        ),
    decreases tasks.len(),
{
    reveal_with_fuel(Seq::<_>::filter, 1);
    if tasks.len() > 0 {
        lemma_termination_spares_other_owners(tasks.drop_last(), owner, other);
        let kept = tasks.drop_last().filter(not_submitted_by::<T>(owner));
        if tasks.last().owner != owner {
            assert(kept.push(tasks.last()).drop_last() =~= kept);
        }
    }
}

/// The monitors registered on one queue, each with the token that unregisters it.
pub struct MonitorList<M> {
    next_token: u64,
    monitors: Vec<(u64, M)>,
}

impl<M> MonitorList<M> {
    /// The token the next registration gets.
    pub closed spec fn next_token(&self) -> u64 {
        self.next_token
    }

    /// The registered monitors, in registration order.
    pub closed spec fn entries(&self) -> Seq<(u64, M)> {
        self.monitors@
    }

    /// Tokens start at 1 and every registered token is below the next one.
    pub closed spec fn wf(&self) -> bool {
        &&& 1 <= self.next_token
        &&& forall|i: int|
            0 <= i < self.monitors@.len() ==> 1 <= (#[trigger] self.monitors@[i]).0
                < self.next_token
    }

    /// No monitors yet; the first token will be 1.
    pub fn new() -> (list: Self)
        ensures
            list.wf(),
            list.entries() == Seq::<(u64, M)>::empty(),
            list.next_token() == 1,
    {
        MonitorList { next_token: 1, monitors: Vec::new() }
    }

    /// Whether another monitor can be given a token.
    pub fn can_register(&self) -> (ok: bool)
        ensures
            ok == (self.next_token() < u64::MAX),
    {
        self.next_token < u64::MAX
    }

    /// Registers `monitor` and returns its token, which no registered monitor already has.
    pub fn register(&mut self, monitor: M) -> (token: u64)
        requires
            old(self).wf(),
            old(self).next_token() < u64::MAX,
        ensures
            final(self).wf(),
            token == old(self).next_token(),
            token != 0,
            forall|i: int|
                0 <= i < old(self).entries().len() ==> (#[trigger] old(self).entries()[i]).0
                    != token,
            final(self).entries() == old(self).entries().push((token, monitor)),
            final(self).next_token() == old(self).next_token() + 1,
    {
        let token = self.next_token;
        self.next_token = token + 1;
        self.monitors.push((token, monitor));
        token
    }

    /// Removes every monitor registered under `token`, keeping the rest in order.
    pub fn unregister(&mut self, token: u64)
        requires
            old(self).wf(),
        ensures
            final(self).wf(),
            final(self).entries() == old(self).entries().filter(|e: (u64, M)| e.0 != token),
            final(self).next_token() == old(self).next_token(),
    {
        let ghost initial = self.monitors@;
        let ghost mut consumed: int = 0;
        let mut i: usize = 0;
        while i < self.monitors.len()
            invariant
                0 <= consumed <= initial.len(),
                i == initial.take(consumed).filter(|e: (u64, M)| e.0 != token).len(),
                self.monitors@ == initial.take(consumed).filter(|e: (u64, M)| e.0 != token)
                    + initial.skip(consumed),
                self.next_token == old(self).next_token,
                forall|k: int|
                    0 <= k < initial.len() ==> 1 <= (#[trigger] initial[k]).0
                        < self.next_token,
                forall|k: int|
                    0 <= k < self.monitors@.len() ==> 1 <= (#[trigger] self.monitors@[k]).0
                        < self.next_token,
            decreases self.monitors@.len() - i,
        {
            let ghost prefix = initial.take(consumed).filter(|e: (u64, M)| e.0 != token);
            proof {
                assert(self.monitors@[i as int] == initial[consumed]);
                reveal_with_fuel(Seq::<_>::filter, 1);
                assert(initial.take(consumed + 1).drop_last() =~= initial.take(consumed));
            }
            if self.monitors[i].0 == token {
                self.monitors.remove(i);
                proof {
                    consumed = consumed + 1;
                    assert(self.monitors@ =~= prefix + initial.skip(consumed));
                }
            } else {
                i = i + 1;
                proof {
                    consumed = consumed + 1;
                    assert(self.monitors@ =~= prefix.push(initial[consumed - 1]) + initial.skip(
                        consumed,
                    ));
                }
            }
        }
        proof {
            assert(self.monitors@.len() == i);
            assert(consumed == initial.len()) by {
                if consumed < initial.len() {
                    assert(initial.skip(consumed).len() > 0);
                }
            }
            assert(initial.take(consumed) =~= initial);
            assert(self.monitors@ =~= initial.filter(|e: (u64, M)| e.0 != token));
        }
    }

    /// Whether any monitor is registered.
    pub fn is_empty(&self) -> (empty: bool)
        ensures
            empty == (self.entries().len() == 0),
    {
        self.monitors.len() == 0
    }

    /// The registered monitors, in registration order, to be notified in that order.
    pub fn monitors(&self) -> (list: &[(u64, M)])
        ensures
            list@ == self.entries(),
    {
        self.monitors.as_slice()
    }
}

/// An unregistered monitor is never notified again: no entry with its token survives, and
/// every other monitor does.
pub proof fn lemma_unregistered_monitor_is_gone<M>(
    entries: Seq<(u64, M)>,
    token: u64,
    kept: Seq<(u64, M)>,
)
    requires
        kept == entries.filter(|e: (u64, M)| e.0 != token),
    ensures
        forall|i: int| 0 <= i < kept.len() ==> (#[trigger] kept[i]).0 != token,
        forall|i: int|
            0 <= i < entries.len() && (#[trigger] entries[i]).0 != token ==> kept.contains(
                entries[i],
            ),
{
    assert forall|i: int| 0 <= i < kept.len() implies (#[trigger] kept[i]).0 != token by {
        entries.lemma_filter_pred(|e: (u64, M)| e.0 != token, i);
    }
    assert forall|i: int|
        0 <= i < entries.len() && (#[trigger] entries[i]).0 != token implies kept.contains(
        entries[i],
    ) by {
        entries.lemma_filter_contains(|e: (u64, M)| e.0 != token, i);
    }
}

/// The table of live queue handles. Each handle owns a reference to its queue, so a
/// duplicated handle is a distinct value that keeps the queue alive on its own.
pub struct QueueHandle<Q> {
    table: HandleTable<Q>,
}

impl<Q> View for QueueHandle<Q> {
    type V = Map<u64, Q>;

    closed spec fn view(&self) -> Map<u64, Q> {
        self.table@
    }
}

impl<Q> QueueHandle<Q> {
    /// The table is well formed.
    pub closed spec fn wf(&self) -> bool {
        self.table.wf()
    }

    /// The id the next handle gets.
    pub closed spec fn next_id(&self) -> u64 {
        self.table.next_id()
    }

    /// No queue handles yet; the first one will be `1`.
    pub fn new() -> (handles: Self)
        ensures
            handles.wf(),
            handles@ == Map::<u64, Q>::empty(),
            handles.next_id() == 1,
    {
        QueueHandle { table: HandleTable::new() }
    }

    /// Whether another handle can still be allocated.
    pub fn can_create(&self) -> (ok: bool)
        ensures
            ok == (self.next_id() < u64::MAX),
    {
        self.table.next_handle() < u64::MAX
    }

    /// A fresh, nonzero handle for `queue`.
    pub fn create(&mut self, queue: Q) -> (handle: u64)
        requires
            old(self).wf(),
            old(self).next_id() < u64::MAX,
        ensures
            final(self).wf(),
            handle == old(self).next_id(),
            handle != 0,
            !old(self)@.contains_key(handle),
            final(self)@ == old(self)@.insert(handle, queue),
            final(self).next_id() == old(self).next_id() + 1,
    {
        self.table.create(queue)
    }

    /// Closes `handle`; `0` and unknown handles change nothing.
    pub fn close(&mut self, handle: u64)
        requires
            old(self).wf(),
        ensures
            final(self).wf(),
            final(self)@ == old(self)@.remove(handle),
            final(self).next_id() == old(self).next_id(),
    {
        self.table.close(handle)
    }
}

impl<Q: Clone> QueueHandle<Q> {
    /// The queue `handle` refers to, if it is live.
    pub fn get(&self, handle: u64) -> (queue: Option<Q>)
        ensures
            queue is Some <==> handle_lookup(self@, handle) is Some,
            queue is Some ==> cloned(handle_lookup(self@, handle)->0, queue->0),
    {
        self.table.get(handle)
    }
}

/// The table of port handles that `XTaskQueueGetPort` hands out and
/// `XTaskQueueCreateComposite` consumes.
pub struct PortHandle<P> {
    table: HandleTable<P>,
}

impl<P> View for PortHandle<P> {
    type V = Map<u64, P>;

    closed spec fn view(&self) -> Map<u64, P> {
        self.table@
    }
}

impl<P> PortHandle<P> {
    /// The table is well formed.
    pub closed spec fn wf(&self) -> bool {
        self.table.wf()
    }

    /// The id the next handle gets.
    pub closed spec fn next_id(&self) -> u64 {
        self.table.next_id()
    }

    /// No port handles yet; the first one will be `1`.
    pub fn new() -> (handles: Self)
        ensures
            handles.wf(),
            handles@ == Map::<u64, P>::empty(),
            handles.next_id() == 1,
    {
        PortHandle { table: HandleTable::new() }
    }

    /// Whether another handle can still be allocated.
    pub fn can_create(&self) -> (ok: bool)
        ensures
            ok == (self.next_id() < u64::MAX),
    {
        self.table.next_handle() < u64::MAX
    }

    /// A fresh, nonzero handle for `port`.
    pub fn create(&mut self, port: P) -> (handle: u64)
        requires
            old(self).wf(),
            old(self).next_id() < u64::MAX,
        ensures
            final(self).wf(),
            handle == old(self).next_id(),
            handle != 0,
            !old(self)@.contains_key(handle),
            final(self)@ == old(self)@.insert(handle, port),
            final(self).next_id() == old(self).next_id() + 1,
    {
        self.table.create(port)
    }
}

impl<P: Clone> PortHandle<P> {
    /// The port `handle` refers to, if it is live.
    pub fn get(&self, handle: u64) -> (port: Option<P>)
        ensures
            port is Some <==> handle_lookup(self@, handle) is Some,
            port is Some ==> cloned(handle_lookup(self@, handle)->0, port->0),
    {
        self.table.get(handle)
    }
}

/// The process task queue, once installed or lazily created, and the stable handle cached
/// for it.
pub struct ProcessQueueSlot<Q> {
    pub queue: Option<Q>,
    pub handle: Option<u64>,
}

impl<Q> ProcessQueueSlot<Q> {
    /// The cached handle, if any, is a live, nonzero handle in `handles`, and a process queue
    /// is set. The handle may refer to an earlier process queue: installing another queue
    /// keeps the cached handle.
    pub open spec fn tracks(&self, handles: Map<u64, Q>) -> bool {
        self.handle matches Some(h) ==> h != 0 && handles.contains_key(h) && self.queue is Some
    }

    /// No process queue and no cached handle.
    pub fn new() -> (slot: Self)
        ensures
            slot.queue is None,
            slot.handle is None,
    {
        ProcessQueueSlot { queue: None, handle: None }
    }
}

/// Whether a process queue has been set or lazily created. Reports it rather than creating
/// one.
pub fn has_process_queue<Q>(slot: &ProcessQueueSlot<Q>) -> (present: bool)
    ensures
        present == slot.queue is Some,
{
    slot.queue.is_some()
}

/// The process queue, creating it with `make` if none is set yet.
pub fn default_process_queue<Q: Clone, F: FnOnce() -> Q>(
    slot: &mut ProcessQueueSlot<Q>,
    make: F,
) -> (queue: Q)
    requires
        old(slot).queue is None ==> make.requires(()),
    ensures
        final(slot).handle == old(slot).handle,
        final(slot).queue is Some,
        old(slot).queue is Some ==> final(slot).queue == old(slot).queue,
        old(slot).queue is None ==> make.ensures((), final(slot).queue->0),
        cloned(final(slot).queue->0, queue),
        forall|handles: Map<u64, Q>| old(slot).tracks(handles) ==> #[trigger] final(slot).tracks(handles),
{
    match &slot.queue {
        Some(queue) => {
            return queue.clone();
        },
        None => {},
    }
    let created = make();
    let queue = created.clone();
    slot.queue = Some(created);
    queue
}

/// Installs `queue` as the process queue. Clearing it also drops the cached handle, so a later
/// re-initialisation allocates a fresh one.
pub fn set_process_queue<Q>(slot: &mut ProcessQueueSlot<Q>, queue: Option<Q>)
    ensures
        final(slot).queue == queue,
        final(slot).handle == if queue is None {
            None
        } else {
            old(slot).handle
        },
        forall|handles: Map<u64, Q>| old(slot).tracks(handles) ==> #[trigger] final(slot).tracks(handles),
{
    let clearing = queue.is_none();
    slot.queue = queue;
    if clearing {
        slot.handle = None;
    }
}

/// A stable handle for the process queue, allocated once and cached. The handle owns a table
/// reference, so it stays valid for as long as the cache holds it.
pub fn process_queue_handle<Q: Clone, F: FnOnce() -> Q>(
    slot: &mut ProcessQueueSlot<Q>,
    handles: &mut QueueHandle<Q>,
    make: F,
) -> (handle: u64)
    requires
        old(handles).wf(),
        old(slot).handle is None ==> old(handles).next_id() < u64::MAX,
        old(slot).handle is None && old(slot).queue is None ==> make.requires(()),
    ensures
        final(handles).wf(),
        final(slot).handle == Some(handle),
        old(slot).handle is None || old(slot).tracks(old(handles)@) ==> final(slot).tracks(final(handles)@),
        old(slot).handle is Some ==> handle == old(slot).handle->0 && *final(slot) == *old(slot)
            && final(handles)@ == old(handles)@ && final(handles).next_id() == old(handles).next_id(),
        old(slot).handle is None ==> {
            &&& handle == old(handles).next_id()
            &&& final(handles).next_id() == old(handles).next_id() + 1
            &&& handle != 0
            &&& !old(handles)@.contains_key(handle)
            &&& final(slot).handle == Some(handle)
            &&& final(slot).queue is Some
            &&& old(slot).queue is Some ==> final(slot).queue == old(slot).queue
            &&& old(slot).queue is None ==> make.ensures((), final(slot).queue->0)
            &&& final(handles)@.contains_key(handle)
            &&& cloned(final(slot).queue->0, final(handles)@[handle])
            &&& final(handles)@.remove(handle) == old(handles)@
        },
{
    match slot.handle {
        Some(handle) => {
            return handle;
        },
        None => {},
    }
    let queue = default_process_queue(slot, make);
    let handle = handles.create(queue);
    slot.handle = Some(handle);
    proof {
        assert(handles@.remove(handle) =~= old(handles)@);
    }
    handle
}

} // verus!
