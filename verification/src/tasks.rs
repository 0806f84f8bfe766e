//! The background-task coordinator and the task views.
//!
//! Blocking work (opening a file, a bulk diagnostic scan) runs on a worker
//! owned by the caller; this module holds the per-kind state machine the
//! render loop drives once per frame — Idle to Running at start, Running
//! to Finished when the worker is seen done, Finished back to Idle when
//! the result has been taken — and the progress view shown meanwhile.

use vstd::prelude::*;

verus! {

/// The two concurrently distinguishable kinds of background work.
#[derive(Clone, Copy, Debug, PartialEq, Eq, Structural)]
pub enum TaskKind {
    FileLoad,
    Diagnostic,
}

/// Where one task kind stands.
#[derive(Clone, Copy, Debug, PartialEq, Eq, Structural)]
pub enum TaskState {
    Idle,
    Running,
    Finished,
}

/// One state machine per task kind.  Starting a kind that is already
/// running is a logic error, ruled out by contract rather than checked at
/// run time.
pub struct BackgroundTaskCoordinator {
    pub load: TaskState,
    pub diag: TaskState,
}

impl BackgroundTaskCoordinator {
    /// Both kinds idle.
    pub fn new() -> (c: Self)
        ensures
            c.load == TaskState::Idle,
            c.diag == TaskState::Idle,
    {
        BackgroundTaskCoordinator { load: TaskState::Idle, diag: TaskState::Idle }
    }

    /// Where the given kind stands.
    pub open spec fn state_of(self, kind: TaskKind) -> TaskState {
        match kind {
            TaskKind::FileLoad => self.load,
            TaskKind::Diagnostic => self.diag,
        }
    }

    /// Where the given kind stands.
    pub fn state(&self, kind: TaskKind) -> (s: TaskState)
        ensures
            s == self.state_of(kind),
    {
        match kind {
            TaskKind::FileLoad => self.load,
            TaskKind::Diagnostic => self.diag,
        }
    }

    /// Mark a kind started; only an idle kind may start.
    pub fn start(&mut self, kind: TaskKind)
        requires
            old(self).state_of(kind) == TaskState::Idle,
        ensures
            final(self).state_of(kind) == TaskState::Running,
            kind != TaskKind::FileLoad ==> final(self).load == old(self).load,
            kind != TaskKind::Diagnostic ==> final(self).diag == old(self).diag,
    {
        match kind {
            TaskKind::FileLoad => {
                self.load = TaskState::Running;
            },
            TaskKind::Diagnostic => {
                self.diag = TaskState::Running;
            },
        }
    }

    /// One non-blocking poll: told whether the worker has finished, move a
    /// running kind on; any other state is left alone.
    pub fn poll(&mut self, kind: TaskKind, worker_done: bool) -> (now_finished: bool)
        ensures
            now_finished == (old(self).state_of(kind) == TaskState::Running && worker_done),
            final(self).state_of(kind) == (if now_finished {
                TaskState::Finished
            } else {
                old(self).state_of(kind)
            }),
            kind != TaskKind::FileLoad ==> final(self).load == old(self).load,
            kind != TaskKind::Diagnostic ==> final(self).diag == old(self).diag,
    {
        let running = match self.state(kind) {
            TaskState::Running => true,
            _ => false,
        };
        if running && worker_done {
            match kind {
                TaskKind::FileLoad => {
                    self.load = TaskState::Finished;
                },
                TaskKind::Diagnostic => {
                    self.diag = TaskState::Finished;
                },
            }
            true
        } else {
            false
        }
    }

    /// Take note that the finished result has been retrieved; the kind
    /// returns to idle.  A result is retrieved exactly once.
    pub fn acknowledge(&mut self, kind: TaskKind)
        requires
            old(self).state_of(kind) == TaskState::Finished,
        ensures
            final(self).state_of(kind) == TaskState::Idle,
            kind != TaskKind::FileLoad ==> final(self).load == old(self).load,
            kind != TaskKind::Diagnostic ==> final(self).diag == old(self).diag,
    {
        match kind {
            TaskKind::FileLoad => {
                self.load = TaskState::Idle;
            },
            TaskKind::Diagnostic => {
                self.diag = TaskState::Idle;
            },
        }
    }
}

/// The panel offering the diagnostic scans; it holds no state of its own.
pub struct TasksToolViewModel {}

/// The transient view shown while a background task runs: the task's name
/// and the most recent progress message.
pub struct TaskRunningViewModel {
    pub task_name: String,
    pub last_sub_msg: String,
}

impl TaskRunningViewModel {
    pub fn new(task_name: String) -> (vm: Self)
        ensures
            vm.task_name == task_name,
            vm.last_sub_msg@ == Seq::<char>::empty(),
    {
        TaskRunningViewModel { task_name, last_sub_msg: String::new() }
    }

    /// Record the most recent progress message.
    pub fn set_progress(&mut self, msg: String)
        ensures
            final(self).task_name == old(self).task_name,
            final(self).last_sub_msg == msg,
    {
        self.last_sub_msg = msg;
    }
}

} // verus!
