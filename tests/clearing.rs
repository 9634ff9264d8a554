use rutabaga::{
    candidate_name, collect_files, count_file_in_folder, scan_folder, Action, ClearProcess,
    ErrorKind, Event, ListedEntry, Progress, State, NAME_ATTEMPTS,
};

/// A folder held in memory, answering the requests of the clearing process.
struct Folder {
    listing: Option<Vec<ListedEntry>>,
    names: Vec<String>,
    not_files: Vec<String>,
    failing_renames: Vec<String>,
    failing_clears: Vec<String>,
    cancel_after_reports: Option<usize>,
}

struct Outcome {
    reports: Vec<Progress>,
    renames: Vec<(String, String)>,
    cleared: Vec<String>,
    checked: Vec<String>,
}

fn file(path: &str) -> ListedEntry {
    ListedEntry::Found { path: path.to_string(), is_file: true }
}

fn dir(path: &str) -> ListedEntry {
    ListedEntry::Found { path: path.to_string(), is_file: false }
}

fn base_name(path: &str) -> String {
    path.rsplit('/').next().unwrap().to_string()
}

fn folder(listing: Vec<ListedEntry>) -> Folder {
    let names = listing
        .iter()
        .filter_map(|e| match e {
            ListedEntry::Found { path, .. } => Some(base_name(path)),
            ListedEntry::Unreadable => None,
        })
        .collect();
    Folder {
        listing: Some(listing),
        names,
        not_files: vec![],
        failing_renames: vec![],
        failing_clears: vec![],
        cancel_after_reports: None,
    }
}

fn drive(f: &mut Folder) -> Outcome {
    let process = ClearProcess::new("/d".to_string());
    let mut state = State::new(process.clone());
    let mut out = Outcome { reports: vec![], renames: vec![], cleared: vec![], checked: vec![] };
    if f.cancel_after_reports == Some(0) {
        process.cancel();
    }
    let mut event = Event::Poll { canceled: state.cancel_requested() };
    for _ in 0..100_000 {
        let (next, action) = state.advance(event);
        state = next;
        event = match action {
            Action::Scan => Event::Scanned(f.listing.clone()),
            Action::CheckFile { path } => {
                out.checked.push(path.clone());
                Event::Checked(!f.not_files.contains(&path))
            }
            Action::Probe { name } => Event::Probed(f.names.contains(&name)),
            Action::Rename { from, to } => {
                if f.failing_renames.contains(&from) {
                    Event::Done(false)
                } else {
                    let old = base_name(&from);
                    f.names.retain(|n| *n != old);
                    f.names.push(to.clone());
                    out.renames.push((from, to));
                    Event::Done(true)
                }
            }
            Action::Clear { name } => {
                if f.failing_clears.contains(&name) {
                    Event::Done(false)
                } else {
                    out.cleared.push(name);
                    Event::Done(true)
                }
            }
            Action::Report(p) => {
                out.reports.push(p);
                if f.cancel_after_reports == Some(out.reports.len()) {
                    process.cancel();
                }
                Event::Poll { canceled: state.cancel_requested() }
            }
            Action::Halt => return out,
        };
    }
    panic!("the process did not halt");
}

fn advanced(renamed: usize, cleared: usize) -> Progress {
    Progress::Advanced { renamed, cleared }
}

#[test]
fn candidate_names_follow_the_scheme() {
    assert_eq!(candidate_name(0, 0), "File0.txt");
    assert_eq!(candidate_name(7, 0), "File7.txt");
    assert_eq!(candidate_name(12, 3), "File12(3).txt");
    assert_eq!(candidate_name(0, 10), "File0(10).txt");
    assert_eq!(candidate_name(1909, 0), "File1909.txt");
}

#[test]
fn collect_files_keeps_regular_files_in_order() {
    let listing = vec![
        file("/d/b.png"),
        dir("/d/sub"),
        ListedEntry::Unreadable,
        file("/d/a.jpg"),
    ];
    assert_eq!(collect_files(&listing), vec!["/d/b.png".to_string(), "/d/a.jpg".to_string()]);
    assert_eq!(collect_files(&vec![]), Vec::<String>::new());
}

#[test]
fn count_of_files() {
    let listing = vec![file("/d/a"), dir("/d/s"), file("/d/b"), ListedEntry::Unreadable];
    assert_eq!(count_file_in_folder(&Some(listing)), 2);
    assert_eq!(count_file_in_folder(&Some(vec![])), 0);
    assert_eq!(count_file_in_folder(&None), 0);
}

#[test]
fn scan_of_missing_folder_is_an_error() {
    let err = scan_folder(None).unwrap_err();
    assert_eq!(err.kind(), ErrorKind::ScanFolderError);
    let ok = scan_folder(Some(vec![file("/d/a"), dir("/d/s")])).unwrap();
    assert_eq!(ok, vec!["/d/a".to_string()]);
}

#[test]
fn two_files_and_a_subdirectory() {
    let mut f = folder(vec![file("/d/a.jpg"), file("/d/b.png"), dir("/d/sub")]);
    let out = drive(&mut f);
    assert_eq!(
        out.reports,
        vec![Progress::Started { total: 2 }, advanced(1, 1), advanced(2, 2), Progress::Finished]
    );
    assert_eq!(
        out.renames,
        vec![
            ("/d/a.jpg".to_string(), "File0.txt".to_string()),
            ("/d/b.png".to_string(), "File1.txt".to_string()),
        ]
    );
    assert_eq!(out.cleared, vec!["File0.txt".to_string(), "File1.txt".to_string()]);
}

#[test]
fn prior_output_makes_the_name_fall_back() {
    let mut f = folder(vec![file("/d/new.doc")]);
    f.names.push("File0.txt".to_string());
    let out = drive(&mut f);
    assert_eq!(out.renames, vec![("/d/new.doc".to_string(), "File0(1).txt".to_string())]);
    assert_eq!(out.reports.last(), Some(&Progress::Finished));
}

#[test]
fn missing_folder_reports_errored_only() {
    let mut f = folder(vec![]);
    f.listing = None;
    let out = drive(&mut f);
    assert_eq!(out.reports, vec![Progress::Errored]);
    assert!(out.renames.is_empty());
}

#[test]
fn cancel_before_first_step_still_scans() {
    let mut f = folder(vec![file("/d/a"), file("/d/b")]);
    f.cancel_after_reports = Some(0);
    let out = drive(&mut f);
    assert_eq!(out.reports, vec![Progress::Started { total: 2 }, Progress::Canceled]);
    assert!(out.renames.is_empty());
    assert!(out.cleared.is_empty());
    assert!(out.checked.is_empty());
}

#[test]
fn completed_run_reports_once_per_file() {
    let mut f = folder(vec![file("/d/a"), dir("/d/x"), file("/d/b"), dir("/d/y"), file("/d/c")]);
    let out = drive(&mut f);
    assert_eq!(out.reports[0], Progress::Started { total: 3 });
    let n_advanced = out.reports.iter().filter(|p| matches!(p, Progress::Advanced { .. })).count();
    assert_eq!(n_advanced, 3);
    assert_eq!(out.reports.last(), Some(&Progress::Finished));
    assert_eq!(out.reports[out.reports.len() - 2], advanced(3, 3));
}

#[test]
fn empty_folder_finishes_at_once() {
    let mut f = folder(vec![]);
    let out = drive(&mut f);
    assert_eq!(out.reports, vec![Progress::Started { total: 0 }, Progress::Finished]);
}

#[test]
fn second_run_never_collides_with_first() {
    let mut f = folder(vec![file("/d/a"), file("/d/b")]);
    let first = drive(&mut f);
    let first_names: Vec<String> = first.renames.iter().map(|(_, to)| to.clone()).collect();
    assert_eq!(first_names, vec!["File0.txt".to_string(), "File1.txt".to_string()]);
    let mut listing: Vec<ListedEntry> =
        f.names.iter().map(|n| file(&format!("/d/{}", n))).collect();
    listing.push(file("/d/c"));
    let mut g = folder(listing);
    let second = drive(&mut g);
    for (_, to) in &second.renames {
        assert!(!first_names.contains(to), "{} was taken", to);
    }
    assert_eq!(second.renames.len(), 3);
    assert_eq!(second.renames[0].1, "File0(1).txt");
}

#[test]
fn cancel_mid_run_leaves_later_entries() {
    let mut f = folder(vec![file("/d/a"), file("/d/b"), file("/d/c")]);
    f.cancel_after_reports = Some(2);
    let out = drive(&mut f);
    assert_eq!(
        out.reports,
        vec![Progress::Started { total: 3 }, advanced(1, 1), Progress::Canceled]
    );
    assert_eq!(out.renames, vec![("/d/a".to_string(), "File0.txt".to_string())]);
    assert_eq!(out.checked, vec!["/d/a".to_string()]);
}

#[test]
fn failures_do_not_stop_the_run() {
    let mut f = folder(vec![file("/d/a"), file("/d/b"), file("/d/c")]);
    f.failing_renames.push("/d/a".to_string());
    f.failing_clears.push("File1.txt".to_string());
    let out = drive(&mut f);
    assert_eq!(
        out.reports,
        vec![
            Progress::Started { total: 3 },
            advanced(0, 0),
            advanced(1, 0),
            advanced(2, 1),
            Progress::Finished,
        ]
    );
    assert_eq!(out.cleared, vec!["File2.txt".to_string()]);
}

#[test]
fn entry_that_is_no_longer_a_file_is_skipped() {
    let mut f = folder(vec![file("/d/a"), file("/d/b")]);
    f.not_files.push("/d/a".to_string());
    let out = drive(&mut f);
    assert_eq!(
        out.reports,
        vec![Progress::Started { total: 2 }, advanced(0, 0), advanced(1, 1), Progress::Finished]
    );
    assert_eq!(out.renames, vec![("/d/b".to_string(), "File1.txt".to_string())]);
}

#[test]
fn exhausted_names_skip_the_entry() {
    let mut state = State::new(ClearProcess::new("/d".to_string()));
    let (s, _) = state.advance(Event::Poll { canceled: false });
    state = s;
    let (s, _) = state.advance(Event::Scanned(Some(vec![file("/d/a")])));
    state = s;
    let (s, a) = state.advance(Event::Poll { canceled: false });
    state = s;
    assert_eq!(a, Action::CheckFile { path: "/d/a".to_string() });
    let (s, mut a) = state.advance(Event::Checked(true));
    state = s;
    let mut probes = 0usize;
    while let Action::Probe { name } = a {
        probes += 1;
        if probes == 2 {
            assert_eq!(name, "File0(1).txt");
        }
        let (s, next) = state.advance(Event::Probed(true));
        state = s;
        a = next;
    }
    assert_eq!(probes, NAME_ATTEMPTS);
    assert_eq!(a, Action::Report(advanced(0, 0)));
    let (_, a) = state.advance(Event::Poll { canceled: false });
    assert_eq!(a, Action::Report(Progress::Finished));
}

#[test]
fn finished_and_unexpected_events_halt() {
    let state = State::new(ClearProcess::new("/d".to_string()));
    let (state, a) = state.advance(Event::Done(true));
    assert_eq!(a, Action::Halt);
    let (state, a) = state.advance(Event::Scanned(None));
    assert_eq!(a, Action::Report(Progress::Errored));
    let (state, a) = state.advance(Event::Poll { canceled: false });
    assert_eq!(a, Action::Halt);
    assert!(!state.cancel_requested());
}

#[test]
fn cancel_is_seen_by_every_holder() {
    let process = ClearProcess::new("/some/folder".to_string());
    let other = process.clone();
    assert!(!other.is_canceled());
    process.cancel();
    assert!(other.is_canceled());
    assert!(process.is_canceled());
    assert_eq!(other.path(), "/some/folder");
}
