//! Tasks: an invocation together with its scheduling state and the cycles
//! it has run for.
use vstd::prelude::*;
use crate::ext::GeneratorState;

verus! {

/// The standard mutual-exclusion lock, carried through as an opaque value.
#[verifier::external_type_specification]
#[verifier::external_body]
#[verifier::reject_recursive_types(T)]
pub struct ExMutex<T: ?Sized>(std::sync::Mutex<T>);

/// The sending half of a standard channel, carried through as an opaque value.
#[verifier::external_type_specification]
#[verifier::external_body]
#[verifier::reject_recursive_types(T)]
pub struct ExSender<T>(std::sync::mpsc::Sender<T>);

/// A request to run an extension, with the channel on which its result is sent.
pub struct Invoke {
    /// Where the result is sent.
    pub tx: std::sync::Mutex<std::sync::mpsc::Sender<String>>,
    /// The request as the client sent it.
    pub req: String,
}


/// The scheduling state of a task.
#[derive(Clone, Copy, Debug, PartialEq, Eq, Structural)]
pub enum TaskState {
    /// A task is in this state when it has just been created, but has not
    /// had a chance to execute on the CPU yet.
    INITIALIZED,
    /// A task is in this state when it is currently running on the CPU.
    RUNNING,
    /// A task is in this state when it has got a chance to run on the CPU at
    /// least once, but has yielded to the scheduler, and is currently not
    /// executing on the CPU.
    YIELDED,
    /// A task is in this state when it has finished executing completely, and
    /// its results are ready.
    COMPLETED,
    /// A task is in this state when it has been stopped without completion; after
    /// setting this state, the pushback mechanism will run.
    STOPPED,
    /// A task is in this state when it has been suspended due to IO. On the client side
    /// the task can wait for the native operation responses.
    WAITING,
}

/// The byte by which each state is represented.
pub open spec fn state_code(s: TaskState) -> u8 {
    match s {
        TaskState::INITIALIZED => 0x01,
        TaskState::RUNNING => 0x02,
        TaskState::YIELDED => 0x03,
        TaskState::COMPLETED => 0x04,
        TaskState::STOPPED => 0x05,
        TaskState::WAITING => 0x06,
    }
}

impl TaskState {
    /// The byte by which this state is represented (`0x01` to `0x06`, in
    /// declaration order).
    pub fn code(&self) -> (c: u8)
        ensures
            c == state_code(*self),
    {
        match self {
            TaskState::INITIALIZED => 0x01,
            TaskState::RUNNING => 0x02,
            TaskState::YIELDED => 0x03,
            TaskState::COMPLETED => 0x04,
            TaskState::STOPPED => 0x05,
            TaskState::WAITING => 0x06,
        }
    }
}

/// Distinct states have distinct codes.
pub proof fn state_code_injective(a: TaskState, b: TaskState)
    ensures
        state_code(a) == state_code(b) <==> a == b,
{
}

/// What came of resuming a task's computation once.
#[derive(Clone, Copy, Debug, PartialEq, Eq, Structural)]
pub enum Resumed {
    /// The computation suspended itself, handing out a value.
    Yielded(u64),
    /// The computation ran to its end, returning a value.
    Complete(u64),
    /// The computation panicked (or there was none to resume); the panic was caught.
    Panicked,
}

/// The outcome of a resume that gave `g`.
pub open spec fn resumed_from(g: GeneratorState) -> Resumed {
    match g {
        GeneratorState::Yielded(v) => Resumed::Yielded(v),
        GeneratorState::Complete(v) => Resumed::Complete(v),
    }
}

impl Resumed {
    /// The outcome of a resume that gave `g`.
    pub fn from_generator(g: GeneratorState) -> (r: Resumed)
        ensures
            r == resumed_from(g),
            g matches GeneratorState::Yielded(v) ==> r == Resumed::Yielded(v),
            g matches GeneratorState::Complete(v) ==> r == Resumed::Complete(v),
    {
        match g {
            GeneratorState::Yielded(v) => Resumed::Yielded(v),
            GeneratorState::Complete(v) => Resumed::Complete(v),
        }
    }
}

/// Whether a task in state `s` is resumed when it is run.
pub open spec fn resumable(s: TaskState) -> bool {
    s == TaskState::INITIALIZED || s == TaskState::YIELDED
}

/// The state of a task after a resume of its computation had outcome `r`.
pub open spec fn state_after(r: Resumed) -> TaskState {
    match r {
        Resumed::Yielded(_) => TaskState::YIELDED,
        Resumed::Complete(_) => TaskState::COMPLETED,
        Resumed::Panicked => TaskState::RUNNING,
    }
}

/// The state of a task in state `s` after one run, in which the computation,
/// if it is resumed, has outcome `r`.
pub open spec fn run_state(s: TaskState, r: Resumed) -> TaskState {
    if resumable(s) {
        state_after(r)
    } else {
        s
    }
}

/// An invocation with its scheduling state and the cycles it has executed for.
pub struct Task {
    state: TaskState,
    time: u64,
    inv: Box<Invoke>,
}

impl Task {
    /// The task's current state.
    pub closed spec fn spec_state(&self) -> TaskState {
        self.state
    }

    /// The total number of cycles the task has executed for.
    pub closed spec fn spec_time(&self) -> u64 {
        self.time
    }

    /// The invocation the task serves.
    pub closed spec fn spec_invoke(&self) -> Invoke {
        *self.inv
    }

    /// A new task for `inv`: not yet run, with no time spent.
    pub fn new(inv: Box<Invoke>) -> (t: Task)
        ensures
            t.spec_state() == TaskState::INITIALIZED,
            t.spec_time() == 0,
            t.spec_invoke() == *inv,
    {
        Task { state: TaskState::INITIALIZED, time: 0, inv }
    }

    /// The task's current state.
    pub fn state(&self) -> (s: TaskState)
        ensures
            s == self.spec_state(),
    {
        self.state
    }

    /// The total number of cycles the task has executed for.
    pub fn time(&self) -> (t: u64)
        ensures
            t == self.spec_time(),
    {
        self.time
    }

    /// The invocation the task serves.
    pub fn invoke(&self) -> (inv: &Invoke)
        ensures
            *inv == self.spec_invoke(),
    {
        &self.inv
    }

    /// Opens a run of the task. The computation is to be resumed exactly
    /// when the task is fresh or has yielded; the task is then marked
    /// running. Otherwise nothing changes.
    pub fn begin_run(&mut self) -> (resume: bool)
        ensures
            resume == resumable(old(self).spec_state()),
            final(self).spec_state() == (if resume {
                TaskState::RUNNING
            } else {
                old(self).spec_state()
            }),
            final(self).spec_time() == old(self).spec_time(),
            final(self).spec_invoke() == old(self).spec_invoke(),
    {
        if self.state == TaskState::INITIALIZED || self.state == TaskState::YIELDED {
            self.state = TaskState::RUNNING;
            true
        } else {
            false
        }
    }

    /// Records what came of the resume that `begin_run` asked for: a yield
    /// leaves the task yielded, completion leaves it completed, and a caught
    /// panic leaves it running.
    pub fn record_resume(&mut self, r: Resumed)
        requires
            old(self).spec_state() == TaskState::RUNNING,
        ensures
            final(self).spec_state() == state_after(r),
            r is Yielded ==> final(self).spec_state() == TaskState::YIELDED,
            r is Complete ==> final(self).spec_state() == TaskState::COMPLETED,
            r is Panicked ==> final(self).spec_state() == TaskState::RUNNING,
            final(self).spec_time() == old(self).spec_time(),
            final(self).spec_invoke() == old(self).spec_invoke(),
    {
        match r {
            Resumed::Yielded(_) => {
                self.state = TaskState::YIELDED;
            },
            Resumed::Complete(_) => {
                self.state = TaskState::COMPLETED;
            },
            Resumed::Panicked => {},
        }
    }

    /// Closes a run that took `exec` cycles: adds them to the task's total
    /// and hands back the task's state with `exec`.
    pub fn end_run(&mut self, exec: u64) -> (res: (TaskState, u64))
        requires
            old(self).spec_time() + exec <= u64::MAX,
        ensures
            final(self).spec_time() == old(self).spec_time() + exec,
            final(self).spec_state() == old(self).spec_state(),
            final(self).spec_invoke() == old(self).spec_invoke(),
            res == (old(self).spec_state(), exec),
    {
        self.time = self.time + exec;
        (self.state, exec)
    }
}

/// A run takes a resumable task to the state its computation's outcome
/// dictates, and leaves any other task's state as it was.
pub proof fn run_moves_state(s: TaskState, r: Resumed)
    ensures
        resumable(s) ==> run_state(s, r) == state_after(r),
        !resumable(s) ==> run_state(s, r) == s,
        run_state(s, r) != TaskState::INITIALIZED,
{
}

/// A resume's outcome keeps both what the computation did (yield or
/// complete) and the value it handed out.
pub proof fn resume_outcome_keeps_variant_and_value(v: u64)
    ensures
        resumed_from(GeneratorState::Yielded(v)) == Resumed::Yielded(v),
        resumed_from(GeneratorState::Complete(v)) == Resumed::Complete(v),
        resumed_from(GeneratorState::Yielded(v)) != resumed_from(GeneratorState::Complete(v)),
{
}

/// Whatever value a computation yields, the task is left yielded (and is
/// resumed on its next run); whatever it returns, the task is completed
/// (and never resumed again); a caught panic leaves it running.
pub proof fn outcome_decides_state(v: u64)
    ensures
        state_after(Resumed::Yielded(v)) == TaskState::YIELDED,
        resumable(state_after(Resumed::Yielded(v))),
        state_after(Resumed::Complete(v)) == TaskState::COMPLETED,
        !resumable(state_after(Resumed::Complete(v))),
        state_after(Resumed::Panicked) == TaskState::RUNNING,
{
}

/// Exactly fresh and yielded tasks are resumed when run.
pub proof fn resumable_exactly_fresh_or_yielded(s: TaskState)
    ensures
        resumable(s) <==> (s == TaskState::INITIALIZED || s == TaskState::YIELDED),
{
}

/// A completed task stays completed, whatever its computation would do.
pub proof fn completed_is_final(r: Resumed)
    ensures
        run_state(TaskState::COMPLETED, r) == TaskState::COMPLETED,
{
}

} // verus!
