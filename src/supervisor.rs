//! Registry of background tasks and the shutdown sequence: stop accepting
//! new tasks, raise cancellation, then wait until every registered task
//! has ended.
use vstd::prelude::*;

verus! {

/// A registered task, as `spawn` hands it out.
#[derive(Clone, Copy, Debug, PartialEq, Eq, Structural)]
pub struct TaskHandle {
    pub id: usize,
}

/// Lifecycle of the registry.
#[derive(Clone, Copy, Debug, PartialEq, Eq, Structural)]
pub enum Phase {
    /// New tasks are accepted.
    Running,
    /// Cancellation is raised and no task is accepted any more.
    Draining,
}

/// Which tasks were registered, in order, and which of them have ended.
#[derive(Clone, Debug)]
pub struct TaskSupervisor {
    phase: Phase,
    finished: Vec<bool>,
}

pub struct SupervisorView {
    pub phase: Phase,
    pub finished: Seq<bool>,
}

impl View for TaskSupervisor {
    type V = SupervisorView;

    closed spec fn view(&self) -> SupervisorView {
        SupervisorView { phase: self.phase, finished: self.finished@ }
    }
}

impl SupervisorView {
    /// The task behind `h` was registered and has ended.
    pub open spec fn terminated(self, h: TaskHandle) -> bool {
        h.id < self.finished.len() && self.finished[h.id as int]
    }

    /// Every registered task has ended.
    pub open spec fn drained(self) -> bool {
        forall|i: int| 0 <= i < self.finished.len() ==> #[trigger] self.finished[i]
    }

    /// Shutdown has completed: cancellation raised and everything drained.
    pub open spec fn shut_down(self) -> bool {
        self.phase == Phase::Draining && self.drained()
    }
}

impl TaskSupervisor {
    pub fn new() -> (r: TaskSupervisor)
        ensures
            r@.phase == Phase::Running,
            r@.finished.len() == 0,
    {
        TaskSupervisor { phase: Phase::Running, finished: Vec::new() }
    }

    /// Registers a task. While running it is given the next handle; once
    /// shutdown has begun it is refused and nothing changes.
    pub fn spawn(&mut self) -> (r: Option<TaskHandle>)
        ensures
            old(self)@.phase == Phase::Running ==> r == Some(
                TaskHandle { id: old(self)@.finished.len() as usize },
            ) && final(self)@.finished == old(self)@.finished.push(false) && final(self)@.phase
                == Phase::Running,
            old(self)@.phase == Phase::Draining ==> r is None && final(self)@ == old(self)@,
    {
        match self.phase {
            Phase::Running => {
                let id = self.finished.len();
                self.finished.push(false);
                Some(TaskHandle { id })
            },
            Phase::Draining => None,
        }
    }

    /// Records that the task behind `h` has ended, whether it returned,
    /// failed or was cancelled.
    pub fn task_finished(&mut self, h: TaskHandle)
        ensures
            final(self)@.phase == old(self)@.phase,
            h.id < old(self)@.finished.len() ==> final(self)@.finished == old(
                self,
            )@.finished.update(h.id as int, true),
            h.id >= old(self)@.finished.len() ==> final(self)@ == old(self)@,
    {
        if h.id < self.finished.len() {
            self.finished.set(h.id, true);
        }
    }

    /// Begins shutdown: no task is accepted any more and cancellation is
    /// raised for every running one.
    pub fn begin_shutdown(&mut self)
        ensures
            final(self)@.phase == Phase::Draining,
            final(self)@.finished == old(self)@.finished,
    {
        self.phase = Phase::Draining;
    }

    /// Whether cancellation has been raised.
    pub fn is_cancelled(&self) -> (r: bool)
        ensures
            r == (self@.phase == Phase::Draining),
    {
        self.phase == Phase::Draining
    }

    /// Whether the task behind `h` has ended.
    pub fn is_terminated(&self, h: TaskHandle) -> (r: bool)
        ensures
            r == self@.terminated(h),
    {
        h.id < self.finished.len() && self.finished[h.id]
    }

    /// Whether every registered task has ended.
    pub fn is_drained(&self) -> (r: bool)
        ensures
            r == self@.drained(),
    {
        let mut i: usize = 0;
        while i < self.finished.len()
            invariant
                0 <= i <= self@.finished.len(),
                self@.finished == self.finished@,
                forall|j: int| 0 <= j < i ==> #[trigger] self@.finished[j],
            decreases self@.finished.len() - i,
        {
            if !self.finished[i] {
                return false;
            }
            i = i + 1;
        }
        true
    }

    /// Whether shutdown has completed.
    pub fn is_shut_down(&self) -> (r: bool)
        ensures
            r == self@.shut_down(),
    {
        self.is_cancelled() && self.is_drained()
    }
}

/// Once shutdown has completed, every handle that `spawn` ever returned
/// reports its task terminated, and that stays so: a later spawn is refused
/// and changes nothing.
pub proof fn lemma_shutdown_terminates_all(s: SupervisorView, h: TaskHandle)
    requires
        s.shut_down(),
        h.id < s.finished.len(),
    ensures
        s.terminated(h),
{
}

} // verus!
