use vstd::prelude::*;
use crate::cleaner::{ClearProcess, Progress};
use crate::naming::{decimal, push_decimal};

verus! {

/// What the window says about the job.
#[derive(Debug, Clone, Copy, PartialEq, Eq, Structural)]
pub enum RutabagaState {
    SelectFolder,
    Processed,
    Finished,
    Canceled,
    Errored,
}

/// The progress counters that the window shows.
#[derive(Debug, Clone, Copy, PartialEq, Eq, Structural)]
pub struct Counters {
    pub renamed: usize,
    pub cleared: usize,
    pub total: usize,
}

/// Which of the window's three buttons can be pressed.
#[derive(Debug, Clone, Copy, PartialEq, Eq, Structural)]
pub struct Controls {
    pub select_folder: bool,
    pub stop: bool,
    pub start: bool,
}

/// What the user or the clearing process tells the window.
#[derive(Debug, Clone)]
pub enum Message {
    PathInputChanged(String),
    SelectFolder,
    SelectedFolder(Option<String>),
    Clear,
    ProcessStart,
    ProcessCancel,
    Process(Progress),
}

/// What the window asks its shell to do after a message.
#[derive(Debug, Clone, Copy, PartialEq, Eq, Structural)]
pub enum Command {
    /// Nothing.
    Idle,
    /// Send `Message::Clear` back.
    Clear,
    /// Open the folder picker and send its answer as `Message::SelectedFolder`.
    PickFolder,
}

/// The window's own state, apart from its widgets.
#[derive(Debug)]
pub struct Screen {
    pub path_folder: String,
    pub current_state: RutabagaState,
    pub progress: Counters,
    pub controls: Controls,
    pub process: Option<ClearProcess>,
}

/// Which buttons can be pressed, given whether a folder is chosen and what
/// the window says about the job. The path button is disabled only while a
/// job runs; without a chosen folder nothing can be started or stopped.
pub open spec fn controls_for(path_empty: bool, state: RutabagaState) -> Controls {
    match state {
        RutabagaState::SelectFolder => Controls {
            select_folder: true,
            stop: !path_empty,
            start: !path_empty,
        },
        RutabagaState::Processed => Controls { select_folder: false, stop: true, start: false },
        _ => Controls { select_folder: true, stop: true, start: true },
    }
}

pub open spec fn zero_counters() -> Counters {
    Counters { renamed: 0, cleared: 0, total: 0 }
}

/// The text `<label><done>/<total>` of a progress line.
pub open spec fn progress_text(label: Seq<char>, done: nat, total: nat) -> Seq<char> {
    label + decimal(done) + seq!['/'] + decimal(total)
}

/// Builds the text `<label><done>/<total>` of a progress line.
pub fn progress_line(label: &str, done: usize, total: usize) -> (r: String)
    ensures
        r@ == progress_text(label@, done as nat, total as nat),
{
    let mut s = String::from_str(label);
    push_decimal(&mut s, done);
    s.append("/");
    proof { reveal_strlit("/"); }
    push_decimal(&mut s, total);
    assert(s@ =~= progress_text(label@, done as nat, total as nat));
    s
}

/// The label of the state indicator and its color as red, green and blue.
pub fn state_indicator(state: RutabagaState) -> (r: (&'static str, (u8, u8, u8)))
    ensures
        r == match state {
            RutabagaState::SelectFolder => ("Please select a folder", (38u8, 38u8, 38u8)),
            RutabagaState::Processed => ("In process...", (229u8, 178u8, 72u8)),
            RutabagaState::Finished => ("Completed", (93u8, 202u8, 107u8)),
            RutabagaState::Errored => ("Error", (227u8, 72u8, 72u8)),
            RutabagaState::Canceled => ("Canceled", (227u8, 72u8, 72u8)),
        },
{
    match state {
        RutabagaState::SelectFolder => ("Please select a folder", (38, 38, 38)),
        RutabagaState::Processed => ("In process...", (229, 178, 72)),
        RutabagaState::Finished => ("Completed", (93, 202, 107)),
        RutabagaState::Errored => ("Error", (227, 72, 72)),
        RutabagaState::Canceled => ("Canceled", (227, 72, 72)),
    }
}

/// The window's title.
pub fn title() -> (r: String)
    ensures
        r@ == "Rutabaga"@,
{
    String::from_str("Rutabaga")
}

impl Screen {
    /// A window with no folder chosen, and the command that resets it.
    pub fn new() -> (r: (Screen, Command))
        ensures
            r.0.path_folder@.len() == 0,
            r.0.current_state == RutabagaState::SelectFolder,
            r.0.progress == zero_counters(),
            r.0.controls == (Controls { select_folder: false, stop: false, start: false }),
            r.0.process is None,
            r.1 == Command::Clear,
    {
        (
            Screen {
                path_folder: String::new(),
                current_state: RutabagaState::SelectFolder,
                progress: Counters { renamed: 0, cleared: 0, total: 0 },
                controls: Controls { select_folder: false, stop: false, start: false },
                process: None,
            },
            Command::Clear,
        )
    }

    /// Sets which buttons can be pressed from the chosen folder and the state.
    pub fn change_enabled(&mut self)
        ensures
            final(self).controls == controls_for(
                old(self).path_folder@.len() == 0,
                old(self).current_state,
            ),
            final(self).path_folder == old(self).path_folder,
            final(self).current_state == old(self).current_state,
            final(self).progress == old(self).progress,
            final(self).process == old(self).process,
    {
        let empty = self.path_folder.as_str().is_empty();
        self.controls = match self.current_state {
            RutabagaState::SelectFolder => Controls { select_folder: true, stop: !empty, start: !empty },
            RutabagaState::Processed => Controls { select_folder: false, stop: true, start: false },
            _ => Controls { select_folder: true, stop: true, start: true },
        };
    }

    /// Sets all progress counters to zero.
    pub fn clear_progress(&mut self)
        ensures
            final(self).progress == zero_counters(),
            final(self).path_folder == old(self).path_folder,
            final(self).current_state == old(self).current_state,
            final(self).controls == old(self).controls,
            final(self).process == old(self).process,
    {
        self.progress = Counters { renamed: 0, cleared: 0, total: 0 };
    }

    /// Handles one message and says what the shell should do next.
    pub fn update(&mut self, message: Message) -> (r: Command)
        ensures
            match message {
                Message::PathInputChanged(v) => {
                    &&& final(self).path_folder@ == v@
                    &&& final(self).current_state == old(self).current_state
                    &&& final(self).progress == old(self).progress
                    &&& final(self).controls == old(self).controls
                    &&& final(self).process == old(self).process
                    &&& r == Command::Idle
                },
                Message::Clear => {
                    &&& final(self).path_folder@.len() == 0
                    &&& final(self).current_state == RutabagaState::SelectFolder
                    &&& final(self).progress == old(self).progress
                    &&& final(self).controls == controls_for(true, RutabagaState::SelectFolder)
                    &&& final(self).process is None
                    &&& r == Command::Idle
                },
                Message::SelectFolder => {
                    &&& final(self).path_folder == old(self).path_folder
                    &&& final(self).current_state == old(self).current_state
                    &&& final(self).progress == old(self).progress
                    &&& final(self).controls == old(self).controls
                    &&& final(self).process == old(self).process
                    &&& r == Command::PickFolder
                },
                Message::SelectedFolder(p) => {
                    &&& final(self).path_folder@ == match p {
                        Some(v) => v@,
                        None => old(self).path_folder@,
                    }
                    &&& final(self).current_state == old(self).current_state
                    &&& final(self).progress == old(self).progress
                    &&& final(self).controls == controls_for(
                        final(self).path_folder@.len() == 0,
                        old(self).current_state,
                    )
                    &&& final(self).process == old(self).process
                    &&& r == Command::Idle
                },
                Message::ProcessStart => {
                    &&& final(self).path_folder == old(self).path_folder
                    &&& final(self).current_state == old(self).current_state
                    &&& final(self).progress == old(self).progress
                    &&& final(self).controls == old(self).controls
                    &&& final(self).process matches Some(job) && job.folder() == old(
                        self,
                    ).path_folder@
                    &&& r == Command::Idle
                },
                Message::ProcessCancel => {
                    &&& final(self).path_folder == old(self).path_folder
                    &&& final(self).current_state == old(self).current_state
                    &&& final(self).progress == zero_counters()
                    &&& final(self).controls == old(self).controls
                    &&& final(self).process == old(self).process
                    &&& r == Command::Clear
                },
                Message::Process(p) => {
                    &&& final(self).path_folder == old(self).path_folder
                    &&& r == Command::Idle
                    &&& match p {
                        Progress::Started { total } => {
                            &&& final(self).current_state == RutabagaState::Processed
                            &&& final(self).progress == (Counters { total, ..old(self).progress })
                            &&& final(self).controls == controls_for(
                                old(self).path_folder@.len() == 0,
                                RutabagaState::Processed,
                            )
                            &&& final(self).process == old(self).process
                        },
                        Progress::Advanced { renamed, cleared } => {
                            &&& final(self).current_state == old(self).current_state
                            &&& final(self).progress == (Counters {
                                renamed,
                                cleared,
                                total: old(self).progress.total,
                            })
                            &&& final(self).controls == old(self).controls
                            &&& final(self).process == old(self).process
                        },
                        Progress::Finished => {
                            &&& final(self).current_state == RutabagaState::Finished
                            &&& final(self).progress == old(self).progress
                            &&& final(self).controls == controls_for(
                                old(self).path_folder@.len() == 0,
                                RutabagaState::Finished,
                            )
                            &&& final(self).process is None
                        },
                        Progress::Errored => {
                            &&& final(self).current_state == RutabagaState::Errored
                            &&& final(self).progress == old(self).progress
                            &&& final(self).controls == controls_for(
                                old(self).path_folder@.len() == 0,
                                RutabagaState::Errored,
                            )
                            &&& final(self).process is None
                        },
                        Progress::Canceled => {
                            &&& final(self).current_state == RutabagaState::Canceled
                            &&& final(self).progress == zero_counters()
                            &&& final(self).controls == controls_for(
                                old(self).path_folder@.len() == 0,
                                RutabagaState::Canceled,
                            )
                            &&& final(self).process is None
                        },
                    }
                },
            },
    {
        match message {
            Message::PathInputChanged(val) => {
                self.path_folder = val;
            },
            Message::Clear => {
                self.path_folder = String::new();
                self.current_state = RutabagaState::SelectFolder;
                self.process = None;
                self.change_enabled();
            },
            Message::SelectFolder => {
                return Command::PickFolder;
            },
            Message::SelectedFolder(path) => {
                match path {
                    None => {},
                    Some(path) => {
                        self.path_folder = path;
                    },
                }
                self.change_enabled();
            },
            Message::ProcessStart => {
                let process = ClearProcess::new(self.path_folder.clone());
                self.process = Some(process);
            },
            Message::ProcessCancel => {
                match &self.process {
                    Some(process) => process.cancel(),
                    None => {},
                }
                self.clear_progress();
                return Command::Clear;
            },
            Message::Process(progress) => match progress {
                Progress::Started { total } => {
                    self.progress.total = total;
                    self.current_state = RutabagaState::Processed;
                    self.change_enabled();
                },
                Progress::Advanced { renamed, cleared } => {
                    self.progress.renamed = renamed;
                    self.progress.cleared = cleared;
                },
                Progress::Finished => {
                    self.process = None;
                    self.current_state = RutabagaState::Finished;
                    self.change_enabled();
                },
                Progress::Errored => {
                    self.process = None;
                    self.current_state = RutabagaState::Errored;
                    self.change_enabled();
                },
                Progress::Canceled => {
                    self.process = None;
                    self.current_state = RutabagaState::Canceled;
                    self.change_enabled();
                    self.clear_progress();
                },
            },
        }
        Command::Idle
    }
}

} // verus!
