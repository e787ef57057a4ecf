use vstd::prelude::*;

verus! {

/// One of two values, produced by racing two operations.
pub enum Either<L, R> {
    Left(L),
    Right(R),
}

/// The outcome handed to a task's completion callback.
pub enum TaskResult<T> {
    Completed(T),
    Cancelled,
}

impl<T> TaskResult<T> {
    pub fn is_cancelled(&self) -> (r: bool)
        ensures
            r == (self is Cancelled),
    {
        match self {
            TaskResult::Cancelled => true,
            TaskResult::Completed(_) => false,
        }
    }

    pub fn is_completed(&self) -> (r: bool)
        ensures
            r == (self is Completed),
    {
        !self.is_cancelled()
    }
}

/// What a two-armed select yields in one poll, given which arms are ready.
/// The left arm wins whenever it is ready.
pub open spec fn select_spec<L, R>(left: Option<L>, right: Option<R>) -> Option<Either<L, R>> {
    match left {
        Some(l) => Some(Either::Left(l)),
        None => match right {
            Some(r) => Some(Either::Right(r)),
            None => None,
        },
    }
}

/// Decides one poll of a two-armed select: `None` while neither arm is ready,
/// the left value when the left arm is ready (also when both are), otherwise
/// the right value.
pub fn select_ready<L, R>(left: Option<L>, right: Option<R>) -> (r: Option<Either<L, R>>)
    ensures
        r == select_spec(left, right),
{
    match left {
        Some(l) => Some(Either::Left(l)),
        None => match right {
            Some(v) => Some(Either::Right(v)),
            None => None,
        },
    }
}

/// When both arms are ready in the same poll, the left one wins; the right
/// one wins only when the left is not ready.
pub proof fn lemma_left_wins_ties<L, R>(l: L, r: R)
    ensures
        select_spec(Some(l), Some(r)) == Some(Either::<L, R>::Left(l)),
        select_spec(None::<L>, Some(r)) == Some(Either::<L, R>::Right(r)),
{
}

/// The outcome of racing the stop signal (left) against a task's future (right).
pub open spec fn race_outcome_spec<S, T>(r: Either<S, T>) -> TaskResult<T> {
    match r {
        Either::Left(_) => TaskResult::Cancelled,
        Either::Right(v) => TaskResult::Completed(v),
    }
}

/// Turns the winner of the race between the stop signal and a task's future
/// into the result that the task's callback receives.
pub fn race_outcome<S, T>(r: Either<S, T>) -> (res: TaskResult<T>)
    ensures
        res == race_outcome_spec(r),
        r is Left ==> res is Cancelled,
        r matches Either::Right(v) ==> res == TaskResult::<T>::Completed(v),
{
    match r {
        Either::Left(_) => TaskResult::Cancelled,
        Either::Right(v) => TaskResult::Completed(v),
    }
}

/// The stages of one spawned task: racing its future against the stop signal,
/// running its callback, and done (the callback returned, completion signalled).
pub enum TaskPhase {
    Racing,
    InCallback,
    Done,
}

/// An event in the life of one spawned task.
pub enum TaskEvent {
    /// The race settled and the callback was invoked.
    Settle,
    /// The callback returned.
    Finish,
}

/// The phase after an event, or `None` where the event cannot happen.
pub open spec fn task_step(p: TaskPhase, e: TaskEvent) -> Option<TaskPhase> {
    match (p, e) {
        (TaskPhase::Racing, TaskEvent::Settle) => Some(TaskPhase::InCallback),
        (TaskPhase::InCallback, TaskEvent::Finish) => Some(TaskPhase::Done),
        _ => None,
    }
}

/// The phase reached from `p` by the events in order, if each can happen.
pub open spec fn task_run(p: TaskPhase, events: Seq<TaskEvent>) -> Option<TaskPhase>
    decreases events.len(),
{
    if events.len() == 0 {
        Some(p)
    } else {
        match task_step(p, events[0]) {
            Some(q) => task_run(q, events.drop_first()),
            None => None,
        }
    }
}

/// How many times the callback was invoked along the events.
pub open spec fn callback_invocations(events: Seq<TaskEvent>) -> nat
    decreases events.len(),
{
    if events.len() == 0 {
        0
    } else {
        (if events[0] is Settle {
            1nat
        } else {
            0nat
        }) + callback_invocations(events.drop_first())
    }
}

/// How many callback invocations a phase has already seen.
pub open spec fn invocations_before(p: TaskPhase) -> nat {
    match p {
        TaskPhase::Racing => 0,
        _ => 1,
    }
}

proof fn lemma_run_invocations(p: TaskPhase, events: Seq<TaskEvent>)
    requires
        task_run(p, events) is Some,
    ensures
        invocations_before(p) + callback_invocations(events) == invocations_before(
            task_run(p, events)->0,
        ),
    decreases events.len(),
{
    if events.len() > 0 {
        let q = task_step(p, events[0])->0;
        lemma_run_invocations(q, events.drop_first());
    }
}

/// Along every possible life of a spawned task, its callback is invoked at
/// most once, and a task that has reached the end invoked it exactly once.
pub proof fn lemma_callback_runs_once(events: Seq<TaskEvent>)
    requires
        task_run(TaskPhase::Racing, events) is Some,
    ensures
        callback_invocations(events) <= 1,
        task_run(TaskPhase::Racing, events) == Some(TaskPhase::Done) ==> callback_invocations(
            events,
        ) == 1,
{
    lemma_run_invocations(TaskPhase::Racing, events);
}

/// The life of one spawned task as its driver goes through it.
pub struct TaskLifecycle {
    phase: TaskPhase,
}

impl TaskLifecycle {
    pub closed spec fn phase(&self) -> TaskPhase {
        self.phase
    }

    pub fn new() -> (r: Self)
        ensures
            r.phase() == TaskPhase::Racing,
    {
        TaskLifecycle { phase: TaskPhase::Racing }
    }

    /// Records that the race settled, and gives the callback's argument.
    pub fn settle<S, T>(&mut self, r: Either<S, T>) -> (res: TaskResult<T>)
        requires
            old(self).phase() == TaskPhase::Racing,
        ensures
            Some(final(self).phase()) == task_step(old(self).phase(), TaskEvent::Settle),
            res == race_outcome_spec(r),
    {
        self.phase = TaskPhase::InCallback;
        race_outcome(r)
    }

    /// Records that the callback returned.
    pub fn finish(&mut self)
        requires
            old(self).phase() == TaskPhase::InCallback,
        ensures
            Some(final(self).phase()) == task_step(old(self).phase(), TaskEvent::Finish),
    {
        self.phase = TaskPhase::Done;
    }

    pub fn is_done(&self) -> (r: bool)
        ensures
            r == (self.phase() == TaskPhase::Done),
    {
        match self.phase {
            TaskPhase::Done => true,
            _ => false,
        }
    }
}

/// The handlers a task group tracks, in the order they were spawned.
/// Cancellation drains them from the most recent one back.
pub struct TaskList<H> {
    tasks: Vec<H>,
}

impl<H> View for TaskList<H> {
    type V = Seq<H>;

    closed spec fn view(&self) -> Seq<H> {
        self.tasks@
    }
}

impl<H> TaskList<H> {
    pub fn new() -> (r: Self)
        ensures
            r@ == Seq::<H>::empty(),
    {
        TaskList { tasks: Vec::new() }
    }

    /// Tracks one more handler.
    pub fn push(&mut self, h: H)
        ensures
            final(self)@ == old(self)@.push(h),
    {
        self.tasks.push(h);
    }

    pub fn len(&self) -> (r: usize)
        ensures
            r == self@.len(),
    {
        self.tasks.len()
    }

    pub fn is_empty(&self) -> (r: bool)
        ensures
            r == (self@.len() == 0),
    {
        self.tasks.len() == 0
    }

    /// Hands out the next handler to await while draining: the most recently
    /// spawned one still tracked, or `None` once nothing is left.
    pub fn pop_next(&mut self) -> (r: Option<H>)
        ensures
            r == pop_spec(old(self)@).0,
            final(self)@ == pop_spec(old(self)@).1,
    {
        self.tasks.pop()
    }
}

/// One step of the drain: the handler handed out and what stays tracked.
pub open spec fn pop_spec<H>(s: Seq<H>) -> (Option<H>, Seq<H>) {
    if s.len() == 0 {
        (None, s)
    } else {
        (Some(s.last()), s.drop_last())
    }
}

/// The handlers handed out by draining `s` until nothing is left, in order.
pub open spec fn drain_spec<H>(s: Seq<H>) -> Seq<H>
    decreases s.len(),
{
    if s.len() == 0 {
        Seq::empty()
    } else {
        seq![s.last()].add(drain_spec(s.drop_last()))
    }
}

/// Draining a task list hands out every tracked handler exactly once (so each
/// task is awaited once), the most recent first, and leaves the list empty.
pub proof fn lemma_drain_awaits_each_once<H>(s: Seq<H>)
    ensures
        drain_spec(s) == s.reverse(),
        drain_spec(s).to_multiset() == s.to_multiset(),
        drain_spec(s).len() == s.len(),
    decreases s.len(),
{
    if s.len() > 0 {
        lemma_drain_awaits_each_once(s.drop_last());
        assert(s.reverse() =~= seq![s.last()].add(s.drop_last().reverse()));
    }
    s.lemma_reverse_to_multiset();
    assert(drain_spec(s).len() == s.reverse().len());
}

/// A handler tracked while a drain is under way is handed out by the very next
/// step, so the drain still awaits it before it ends.
pub proof fn lemma_spawn_during_drain<H>(s: Seq<H>, h: H)
    ensures
        pop_spec(s.push(h)) == (Some(h), s),
        drain_spec(s.push(h)) == seq![h].add(drain_spec(s)),
{
    assert(s.push(h).drop_last() =~= s);
}

/// What stays tracked once a drain has popped until nothing was left.
pub open spec fn after_drain<H>(s: Seq<H>) -> Seq<H>
    decreases s.len(),
{
    if s.len() == 0 {
        s
    } else {
        after_drain(pop_spec(s).1)
    }
}

/// Draining again after a drain hands out nothing and changes nothing:
/// cancelling twice is safe, and the second time does no work.
pub proof fn lemma_second_drain_is_noop<H>(s: Seq<H>)
    ensures
        after_drain(s).len() == 0,
        pop_spec(after_drain(s)) == (Option::<H>::None, after_drain(s)),
        drain_spec(after_drain(s)) == Seq::<H>::empty(),
        after_drain(after_drain(s)) == after_drain(s),
    decreases s.len(),
{
    if s.len() > 0 {
        lemma_second_drain_is_noop(s.drop_last());
    }
}

} // verus!
