//! A reducer that tracks the progress of one background task at a time.
use vstd::prelude::*;

verus! {

/// Media types
#[derive(Debug, Clone, Copy, PartialEq, Eq, Structural)]
pub enum MediaType {
    Photo,
    Video,
}

/// Different kinds of background task that have a progress bar.
/// Some background tasks just have a banner and spinner.
#[derive(Debug, Clone, Copy, PartialEq, Eq, Structural)]
pub enum TaskName {
    Thumbnail(MediaType),
    Transcode,
    /// No task is active.
    Idle,
}

#[derive(Debug, Clone, Copy, PartialEq, Eq, Structural)]
pub enum ProgressMonitorInput {
    Start(TaskName, usize),
    Advance,
    Complete,
    Idle,
}

/// Monitors the progress of a task and informs subscribers about changes.
#[derive(Debug, Clone, Copy)]
pub struct ProgressMonitor {
    /// Background task the progress is for; `Idle` when none is active.
    pub task_name: TaskName,
    /// Current progress
    pub current_count: usize,
    /// Final progress
    pub end_count: usize,
}

/// What a monitor shows: the task, how far it has come and where it ends.
pub struct ProgressState {
    pub task_name: TaskName,
    pub current_count: nat,
    pub end_count: nat,
}

/// The state that one input leads to from `m`.
pub open spec fn reduced(m: ProgressState, input: ProgressMonitorInput) -> ProgressState {
    match input {
        ProgressMonitorInput::Start(task_name, end_count) => ProgressState {
            task_name,
            current_count: 0,
            end_count: end_count as nat,
        },
        ProgressMonitorInput::Advance => ProgressState { current_count: m.current_count + 1, ..m },
        ProgressMonitorInput::Complete => ProgressState { current_count: m.end_count, ..m },
        ProgressMonitorInput::Idle => ProgressState {
            task_name: TaskName::Idle,
            current_count: 0,
            end_count: 0,
        },
    }
}

/// The inputs on which `reduce` is defined: an advance must not run the
/// counter past the largest `usize`.
pub open spec fn accepts(m: ProgressState, input: ProgressMonitorInput) -> bool {
    input == ProgressMonitorInput::Advance ==> m.current_count < usize::MAX
}

/// The state after `n` advances from `m`.
pub open spec fn advanced(m: ProgressState, n: nat) -> ProgressState
    decreases n,
{
    if n == 0 {
        m
    } else {
        reduced(advanced(m, (n - 1) as nat), ProgressMonitorInput::Advance)
    }
}

/// The idle state: no task, nothing counted.
pub open spec fn is_idle(m: ProgressState) -> bool {
    m.task_name == TaskName::Idle && m.current_count == 0 && m.end_count == 0
}

impl ProgressMonitor {
    pub open spec fn view(&self) -> ProgressState {
        ProgressState {
            task_name: self.task_name,
            current_count: self.current_count as nat,
            end_count: self.end_count as nat,
        }
    }

    /// A monitor with no task active.
    pub fn init() -> (r: Self)
        ensures
            is_idle(r.view()),
    {
        ProgressMonitor { task_name: TaskName::Idle, current_count: 0, end_count: 0 }
    }

    /// Final progress of the current task.
    pub fn end_count(&self) -> (r: usize)
        ensures
            r == self.view().end_count,
    {
        self.end_count
    }

    /// Applies one input; returns whether subscribers are to be notified,
    /// which every input is.
    pub fn reduce(&mut self, input: ProgressMonitorInput) -> (r: bool)
        requires
            accepts(old(self).view(), input),
        ensures
            final(self).view() == reduced(old(self).view(), input),
            r,
    {
        match input {
            ProgressMonitorInput::Start(task_name, end_count) => {
                self.task_name = task_name;
                self.end_count = end_count;
                self.current_count = 0;
            },
            ProgressMonitorInput::Advance => {
                self.current_count = self.current_count + 1;
            },
            ProgressMonitorInput::Complete => {
                self.current_count = self.end_count;
            },
            ProgressMonitorInput::Idle => {
                self.task_name = TaskName::Idle;
                self.end_count = 0;
                self.current_count = 0;
            },
        }
        true
    }
}

/// Each advance adds one to the count and leaves task and end alone.
pub proof fn lemma_advanced(m: ProgressState, n: nat)
    ensures
        advanced(m, n) == (ProgressState { current_count: m.current_count + n, ..m }),
    decreases n,
{
    if n > 0 {
        lemma_advanced(m, (n - 1) as nat);
    }
}

/// A task started with end count `n` and advanced `n` times has reached its
/// end (every one of those advances being accepted); an idle input then
/// returns the monitor to the idle state.
pub proof fn lemma_start_advance_idle(m: ProgressState, task_name: TaskName, n: usize)
    ensures
        forall|k: nat|
            k < n ==> accepts(
                #[trigger] advanced(reduced(m, ProgressMonitorInput::Start(task_name, n)), k),
                ProgressMonitorInput::Advance,
            ),
        advanced(reduced(m, ProgressMonitorInput::Start(task_name, n)), n as nat) == (ProgressState {
            task_name,
            current_count: n as nat,
            end_count: n as nat,
        }),
        is_idle(
            reduced(
                advanced(reduced(m, ProgressMonitorInput::Start(task_name, n)), n as nat),
                ProgressMonitorInput::Idle,
            ),
        ),
{
    let started = reduced(m, ProgressMonitorInput::Start(task_name, n));
    assert forall|k: nat| k < n implies accepts(
        #[trigger] advanced(started, k),
        ProgressMonitorInput::Advance,
    ) by {
        lemma_advanced(started, k);
    }
    lemma_advanced(started, n as nat);
}

} // verus!
