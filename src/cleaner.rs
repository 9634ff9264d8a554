use vstd::prelude::*;
use std::sync::atomic::{AtomicBool, Ordering};
use std::sync::Arc;
use crate::naming::{candidate_name, file_name, NAME_ATTEMPTS};
use crate::scan::{collect_files, files_of, views, ListedEntry};

verus! {

/// One clearing job: the folder to clear, and a cancellation flag shared
/// with whoever may cancel the job.
#[derive(Debug, Clone)]
pub struct ClearProcess {
    path: String,
    canceled: Arc<AtomicBool>,
}

impl ClearProcess {
    /// The folder that the job clears.
    pub closed spec fn folder(&self) -> Seq<char> {
        self.path@
    }

    /// A job on `path` that has not been canceled.
    pub fn new(path: String) -> (r: Self)
        ensures
            r.folder() == path@,
    {
        Self { path, canceled: Arc::new(AtomicBool::new(false)) }
    }

    /// Whether cancellation has been requested. Another holder of the job
    /// may request it at any time, so nothing is known of the answer.
    pub fn is_canceled(&self) -> bool {
        self.canceled.load(Ordering::SeqCst)
    }

    /// Requests cancellation; every holder of the job observes it.
    pub fn cancel(&self) {
        self.canceled.store(true, Ordering::SeqCst)
    }

    /// The folder that the job clears.
    pub fn path(&self) -> (r: &String)
        ensures
            r@ == self.folder(),
    {
        &self.path
    }
}

/// What one step of the clearing process reports.
#[derive(Debug, Clone, Copy, PartialEq, Eq, Structural)]
pub enum Progress {
    Started { total: usize },
    Advanced { renamed: usize, cleared: usize },
    Canceled,
    Finished,
    Errored,
}

/// Where the work on the current entry stands.
#[derive(Debug, Clone, Copy, PartialEq, Eq, Structural)]
pub enum Phase {
    /// No entry is in hand.
    Idle,
    /// Waiting to learn whether the entry is still a regular file.
    Checking,
    /// Waiting to learn whether candidate name number `attempt` is taken.
    Probing { attempt: usize },
    /// Waiting for the rename to candidate name number `attempt`.
    Renaming { attempt: usize },
    /// Waiting for the renamed file, named by candidate `attempt`, to be emptied.
    Clearing { attempt: usize },
}

/// The state of the clearing process, threaded through its steps.
#[derive(Debug)]
pub enum State {
    Ready(ClearProcess),
    Process {
        renamed: usize,
        cleared: usize,
        process: ClearProcess,
        /// The paths of the regular files found by the scan, in scan order.
        entries: Vec<String>,
        /// How many entries have been taken in hand so far.
        next: usize,
        phase: Phase,
    },
    Finished,
}

/// What the driver tells the process.
#[derive(Debug)]
pub enum Event {
    /// The driver asks for the next progress report; `canceled` is the
    /// job's cancellation flag as the driver read it.
    Poll { canceled: bool },
    /// The listing of the folder, or `None` where it could not be listed.
    Scanned(Option<Vec<ListedEntry>>),
    /// Whether the entry in hand is still a regular file.
    Checked(bool),
    /// Whether the probed name is taken in the folder.
    Probed(bool),
    /// Whether the requested rename or emptying succeeded.
    Done(bool),
}

/// What the process asks the driver to do next.
#[derive(Debug, Clone, PartialEq, Eq)]
pub enum Action {
    /// List the job's folder and answer with `Scanned`.
    Scan,
    /// Tell whether `path` is a regular file, with `Checked`.
    CheckFile { path: String },
    /// Tell whether the folder holds an entry called `name`, with `Probed`.
    Probe { name: String },
    /// Rename the file at `from` to `to` within the folder; answer with `Done`.
    Rename { from: String, to: String },
    /// Empty the file called `name` in the folder; answer with `Done`.
    Clear { name: String },
    /// Hand this report to the consumer; the next event is a `Poll`.
    Report(Progress),
    /// Nothing more will ever be reported.
    Halt,
}

/// The mathematical state of the clearing process.
pub enum StateView {
    Ready,
    Running { renamed: nat, cleared: nat, entries: Seq<Seq<char>>, next: nat, phase: Phase },
    Finished,
}

pub enum EventView {
    Poll { canceled: bool },
    Scanned(Option<Seq<ListedEntry>>),
    Checked(bool),
    Probed(bool),
    Done(bool),
}

pub enum ActionView {
    Scan,
    CheckFile { path: Seq<char> },
    Probe { name: Seq<char> },
    Rename { from: Seq<char>, to: Seq<char> },
    Clear { name: Seq<char> },
    Report(Progress),
    Halt,
}

impl View for State {
    type V = StateView;

    open spec fn view(&self) -> StateView {
        match self {
            State::Ready(_) => StateView::Ready,
            State::Process { renamed, cleared, entries, next, phase, .. } => StateView::Running {
                renamed: *renamed as nat,
                cleared: *cleared as nat,
                entries: views(entries@),
                next: *next as nat,
                phase: *phase,
            },
            State::Finished => StateView::Finished,
        }
    }
}

impl View for Event {
    type V = EventView;

    open spec fn view(&self) -> EventView {
        match self {
            Event::Poll { canceled } => EventView::Poll { canceled: *canceled },
            Event::Scanned(l) => EventView::Scanned(
                match l {
                    Some(v) => Some(v@),
                    None => None,
                },
            ),
            Event::Checked(b) => EventView::Checked(*b),
            Event::Probed(b) => EventView::Probed(*b),
            Event::Done(b) => EventView::Done(*b),
        }
    }
}

impl View for Action {
    type V = ActionView;

    open spec fn view(&self) -> ActionView {
        match self {
            Action::Scan => ActionView::Scan,
            Action::CheckFile { path } => ActionView::CheckFile { path: path@ },
            Action::Probe { name } => ActionView::Probe { name: name@ },
            Action::Rename { from, to } => ActionView::Rename { from: from@, to: to@ },
            Action::Clear { name } => ActionView::Clear { name: name@ },
            Action::Report(p) => ActionView::Report(*p),
            Action::Halt => ActionView::Halt,
        }
    }
}

impl StateView {
    /// The counters stay ordered and within the entries taken in hand.
    pub open spec fn wf(self) -> bool {
        match self {
            StateView::Running { renamed, cleared, entries, next, phase } => {
                &&& next <= entries.len()
                &&& entries.len() <= usize::MAX
                &&& match phase {
                    Phase::Idle => cleared <= renamed <= next,
                    Phase::Checking => 1 <= next && cleared <= renamed < next,
                    Phase::Probing { attempt } => 1 <= next && cleared <= renamed < next
                        && attempt < NAME_ATTEMPTS,
                    Phase::Renaming { attempt } => 1 <= next && cleared <= renamed < next
                        && attempt < NAME_ATTEMPTS,
                    Phase::Clearing { attempt } => 1 <= next && cleared < renamed <= next
                        && attempt < NAME_ATTEMPTS,
                }
            },
            _ => true,
        }
    }

    /// The same running state in another phase.
    pub open spec fn with_phase(self, phase: Phase) -> StateView {
        match self {
            StateView::Running { renamed, cleared, entries, next, .. } => StateView::Running {
                renamed,
                cleared,
                entries,
                next,
                phase,
            },
            _ => self,
        }
    }

    /// The report of a step that leaves the counters as they are.
    pub open spec fn advanced(self) -> ActionView {
        match self {
            StateView::Running { renamed, cleared, .. } => ActionView::Report(
                Progress::Advanced { renamed: renamed as usize, cleared: cleared as usize },
            ),
            _ => ActionView::Halt,
        }
    }
}

/// The running state right after a scan that listed `listing`.
pub open spec fn started(listing: Seq<ListedEntry>) -> StateView {
    StateView::Running {
        renamed: 0,
        cleared: 0,
        entries: files_of(listing),
        next: 0,
        phase: Phase::Idle,
    }
}

/// One transition of the clearing process: the next state, and what the
/// driver is asked to do. An event that the state does not wait for leaves
/// the state as it is and asks for nothing.
pub open spec fn step(s: StateView, e: EventView) -> (StateView, ActionView) {
    match s {
        StateView::Ready => match e {
            EventView::Poll { .. } => (s, ActionView::Scan),
            EventView::Scanned(None) => (StateView::Finished, ActionView::Report(Progress::Errored)),
            EventView::Scanned(Some(l)) => (
                started(l),
                ActionView::Report(Progress::Started { total: files_of(l).len() as usize }),
            ),
            _ => (s, ActionView::Halt),
        },
        StateView::Running { renamed, cleared, entries, next, phase } => match phase {
            Phase::Idle => match e {
                EventView::Poll { canceled } => if canceled {
                    (StateView::Finished, ActionView::Report(Progress::Canceled))
                } else if next >= entries.len() {
                    (StateView::Finished, ActionView::Report(Progress::Finished))
                } else {
                    (
                        StateView::Running {
                            renamed,
                            cleared,
                            entries,
                            next: next + 1,
                            phase: Phase::Checking,
                        },
                        ActionView::CheckFile { path: entries[next as int] },
                    )
                },
                _ => (s, ActionView::Halt),
            },
            Phase::Checking => match e {
                EventView::Checked(true) => (
                    s.with_phase(Phase::Probing { attempt: 0 }),
                    ActionView::Probe { name: file_name((next - 1) as nat, 0) },
                ),
                EventView::Checked(false) => (s.with_phase(Phase::Idle), s.advanced()),
                _ => (s, ActionView::Halt),
            },
            Phase::Probing { attempt } => match e {
                EventView::Probed(true) => if attempt + 1 < NAME_ATTEMPTS {
                    (
                        s.with_phase(Phase::Probing { attempt: (attempt + 1) as usize }),
                        ActionView::Probe { name: file_name((next - 1) as nat, (attempt + 1) as nat) },
                    )
                } else {
                    (s.with_phase(Phase::Idle), s.advanced())
                },
                EventView::Probed(false) => (
                    s.with_phase(Phase::Renaming { attempt }),
                    ActionView::Rename {
                        from: entries[next - 1],
                        to: file_name((next - 1) as nat, attempt as nat),
                    },
                ),
                _ => (s, ActionView::Halt),
            },
            Phase::Renaming { attempt } => match e {
                EventView::Done(true) => (
                    StateView::Running {
                        renamed: renamed + 1,
                        cleared,
                        entries,
                        next,
                        phase: Phase::Clearing { attempt },
                    },
                    ActionView::Clear { name: file_name((next - 1) as nat, attempt as nat) },
                ),
                EventView::Done(false) => (s.with_phase(Phase::Idle), s.advanced()),
                _ => (s, ActionView::Halt),
            },
            Phase::Clearing { attempt } => match e {
                EventView::Done(true) => (
                    StateView::Running {
                        renamed,
                        cleared: cleared + 1,
                        entries,
                        next,
                        phase: Phase::Idle,
                    },
                    ActionView::Report(
                        Progress::Advanced {
                            renamed: renamed as usize,
                            cleared: (cleared + 1) as usize,
                        },
                    ),
                ),
                EventView::Done(false) => (s.with_phase(Phase::Idle), s.advanced()),
                _ => (s, ActionView::Halt),
            },
        },
        StateView::Finished => (s, ActionView::Halt),
    }
}

/// A transition keeps the state well formed.
pub proof fn lemma_step_wf(s: StateView, e: EventView)
    requires
        s.wf(),
        !(s is Ready),
    ensures
        step(s, e).0.wf(),
{
}

impl State {
    /// The job that the process works for, until it finishes.
    pub open spec fn job(&self) -> Option<ClearProcess> {
        match self {
            State::Ready(p) => Some(*p),
            State::Process { process, .. } => Some(*process),
            State::Finished => None,
        }
    }

    /// A process that has not yet scanned the folder of `process`.
    pub fn new(process: ClearProcess) -> (r: Self)
        ensures
            r@ == StateView::Ready,
            r.job() == Some(process),
    {
        State::Ready(process)
    }

    /// Reads the cancellation flag of the job; a finished process has none.
    pub fn cancel_requested(&self) -> (r: bool)
        ensures
            self.job() is None ==> !r,
    {
        match self {
            State::Ready(p) => p.is_canceled(),
            State::Process { process, .. } => process.is_canceled(),
            State::Finished => false,
        }
    }

    /// Advances the process by one transition on `event`.
    pub fn advance(self, event: Event) -> (r: (State, Action))
        requires
            self@.wf(),
        ensures
            (r.0@, r.1@) == step(self@, event@),
            r.0@.wf(),
            r.0.job() is Some ==> r.0.job() == self.job(),
    {
        match self {
            State::Ready(process) => match event {
                Event::Poll { .. } => (State::Ready(process), Action::Scan),
                Event::Scanned(None) => (State::Finished, Action::Report(Progress::Errored)),
                Event::Scanned(Some(listing)) => {
                    let entries = collect_files(&listing);
                    let total = entries.len();
                    (
                        State::Process {
                            renamed: 0,
                            cleared: 0,
                            process,
                            entries,
                            next: 0,
                            phase: Phase::Idle,
                        },
                        Action::Report(Progress::Started { total }),
                    )
                },
                _ => (State::Ready(process), Action::Halt),
            },
            State::Process { renamed, cleared, process, entries, next, phase } => {
                proof {
                    lemma_step_wf(self@, event@);
                }
                let (phase2, renamed2, cleared2, next2, action) = match phase {
                    Phase::Idle => match event {
                        Event::Poll { canceled } => {
                            if canceled {
                                return (State::Finished, Action::Report(Progress::Canceled));
                            }
                            if next >= entries.len() {
                                return (State::Finished, Action::Report(Progress::Finished));
                            }
                            let path = entries[next].clone();
                            (Phase::Checking, renamed, cleared, next + 1, Action::CheckFile { path })
                        },
                        _ => (phase, renamed, cleared, next, Action::Halt),
                    },
                    Phase::Checking => match event {
                        Event::Checked(true) => {
                            let name = candidate_name(next - 1, 0);
                            (Phase::Probing { attempt: 0 }, renamed, cleared, next, Action::Probe { name })
                        },
                        Event::Checked(false) => (
                            Phase::Idle,
                            renamed,
                            cleared,
                            next,
                            Action::Report(Progress::Advanced { renamed, cleared }),
                        ),
                        _ => (phase, renamed, cleared, next, Action::Halt),
                    },
                    Phase::Probing { attempt } => match event {
                        Event::Probed(true) => {
                            if attempt + 1 < NAME_ATTEMPTS {
                                let name = candidate_name(next - 1, attempt + 1);
                                (
                                    Phase::Probing { attempt: attempt + 1 },
                                    renamed,
                                    cleared,
                                    next,
                                    Action::Probe { name },
                                )
                            } else {
                                (
                                    Phase::Idle,
                                    renamed,
                                    cleared,
                                    next,
                                    Action::Report(Progress::Advanced { renamed, cleared }),
                                )
                            }
                        },
                        Event::Probed(false) => {
                            let from = entries[next - 1].clone();
                            let to = candidate_name(next - 1, attempt);
                            (Phase::Renaming { attempt }, renamed, cleared, next, Action::Rename { from, to })
                        },
                        _ => (phase, renamed, cleared, next, Action::Halt),
                    },
                    Phase::Renaming { attempt } => match event {
                        Event::Done(true) => {
                            let name = candidate_name(next - 1, attempt);
                            (Phase::Clearing { attempt }, renamed + 1, cleared, next, Action::Clear { name })
                        },
                        Event::Done(false) => (
                            Phase::Idle,
                            renamed,
                            cleared,
                            next,
                            Action::Report(Progress::Advanced { renamed, cleared }),
                        ),
                        _ => (phase, renamed, cleared, next, Action::Halt),
                    },
                    Phase::Clearing { attempt } => match event {
                        Event::Done(true) => (
                            Phase::Idle,
                            renamed,
                            cleared + 1,
                            next,
                            Action::Report(Progress::Advanced { renamed, cleared: cleared + 1 }),
                        ),
                        Event::Done(false) => (
                            Phase::Idle,
                            renamed,
                            cleared,
                            next,
                            Action::Report(Progress::Advanced { renamed, cleared }),
                        ),
                        _ => (phase, renamed, cleared, next, Action::Halt),
                    },
                };
                (
                    State::Process {
                        renamed: renamed2,
                        cleared: cleared2,
                        process,
                        entries,
                        next: next2,
                        phase: phase2,
                    },
                    action,
                )
            },
            State::Finished => (State::Finished, Action::Halt),
        }
    }
}

} // verus!
