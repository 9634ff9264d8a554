use vstd::prelude::*;

pub mod cleaner;
pub mod error;
pub mod laws;
pub mod naming;
pub mod scan;
pub mod screen;

pub use cleaner::{Action, ClearProcess, Event, Phase, Progress, State};
pub use error::{ClearProcessError, ErrorKind};
pub use naming::{candidate_name, NAME_ATTEMPTS};
pub use scan::{collect_files, count_file_in_folder, scan_folder, ListedEntry};
pub use screen::{Command, Controls, Counters, Message, RutabagaState, Screen};

verus! {

} // verus!
