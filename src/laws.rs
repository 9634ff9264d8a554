use vstd::prelude::*;
use crate::cleaner::{lemma_step_wf, step, started, ActionView, EventView, Phase, Progress, StateView};
use crate::naming::file_name;
use crate::scan::{files_of, non_files_of, ListedEntry};

verus! {

/// The states and requests of the process when it is fed `evs` from `s`.
pub open spec fn run(s: StateView, evs: Seq<EventView>) -> (StateView, Seq<ActionView>)
    decreases evs.len(),
{
    if evs.len() == 0 {
        (s, Seq::empty())
    } else {
        let (s1, a) = step(s, evs[0]);
        let (s2, rest) = run(s1, evs.drop_first());
        (s2, seq![a] + rest)
    }
}

pub open spec fn is_advanced(a: ActionView) -> bool {
    a matches ActionView::Report(Progress::Advanced { .. })
}

/// An `Advanced` report, if `a` is one, has `cleared <= renamed <= n`.
pub open spec fn advanced_within(a: ActionView, n: nat) -> bool {
    a matches ActionView::Report(Progress::Advanced { renamed, cleared }) ==> cleared <= renamed
        <= n
}

pub open spec fn is_started(a: ActionView) -> bool {
    a matches ActionView::Report(Progress::Started { .. })
}

/// How many `Advanced` reports `acts` holds.
pub open spec fn advanced_count(acts: Seq<ActionView>) -> nat
    decreases acts.len(),
{
    if acts.len() == 0 {
        0
    } else {
        (if is_advanced(acts[0]) { 1nat } else { 0nat }) + advanced_count(acts.drop_first())
    }
}

/// How many `Started` reports `acts` holds.
pub open spec fn started_count(acts: Seq<ActionView>) -> nat
    decreases acts.len(),
{
    if acts.len() == 0 {
        0
    } else {
        (if is_started(acts[0]) { 1nat } else { 0nat }) + started_count(acts.drop_first())
    }
}

/// The number of entries whose work is over in a running state.
pub open spec fn entries_done(s: StateView) -> nat {
    match s {
        StateView::Running { next, phase, .. } => if phase == Phase::Idle {
            next
        } else {
            (next - 1) as nat
        },
        _ => 0,
    }
}

pub open spec fn entry_count(s: StateView) -> nat {
    match s {
        StateView::Running { entries, .. } => entries.len(),
        _ => 0,
    }
}

proof fn lemma_cons<A>(a: A, rest: Seq<A>)
    ensures
        (seq![a] + rest).len() == rest.len() + 1,
        (seq![a] + rest)[0] == a,
        (seq![a] + rest).drop_first() == rest,
        forall|i: int| 0 <= i < rest.len() ==> (seq![a] + rest)[i + 1] == rest[i],
{
    assert((seq![a] + rest).drop_first() =~= rest);
}

/// A finished process asks for nothing more.
proof fn lemma_finished_halts(evs: Seq<EventView>)
    ensures
        run(StateView::Finished, evs).0 == StateView::Finished,
        forall|i: int| 0 <= i < evs.len() ==> run(StateView::Finished, evs).1[i] == ActionView::Halt,
        run(StateView::Finished, evs).1.len() == evs.len(),
    decreases evs.len(),
{
    if evs.len() > 0 {
        lemma_finished_halts(evs.drop_first());
        lemma_cons(ActionView::Halt, run(StateView::Finished, evs.drop_first()).1);
    }
}

proof fn lemma_run_len(s: StateView, evs: Seq<EventView>)
    ensures
        run(s, evs).1.len() == evs.len(),
    decreases evs.len(),
{
    if evs.len() > 0 {
        let (s1, a) = step(s, evs[0]);
        lemma_run_len(s1, evs.drop_first());
        lemma_cons(a, run(s1, evs.drop_first()).1);
    }
}

proof fn lemma_run_counts(s: StateView, evs: Seq<EventView>)
    requires
        s.wf(),
        !(s is Ready),
    ensures
        started_count(run(s, evs).1) == 0,
        run(s, evs).1.contains(ActionView::Report(Progress::Finished)) ==> advanced_count(
            run(s, evs).1,
        ) + entries_done(s) == entry_count(s),
        forall|i: int|
            0 <= i < run(s, evs).1.len() ==> #[trigger] advanced_within(run(s, evs).1[i], entry_count(s)),
    decreases evs.len(),
{
    if evs.len() == 0 {
        return;
    }
    let (s1, a) = step(s, evs[0]);
    let rest = run(s1, evs.drop_first()).1;
    let acts = run(s, evs).1;
    lemma_cons(a, rest);
    assert(acts == seq![a] + rest);
    if s1 is Finished {
        lemma_finished_halts(evs.drop_first());
        assert(advanced_count(rest) == 0 && started_count(rest) == 0) by {
            lemma_halts_count(rest);
        }
        if acts.contains(ActionView::Report(Progress::Finished)) {
            let j = choose|j: int| 0 <= j < acts.len() && acts[j] == ActionView::Report(Progress::Finished);
            if j > 0 {
                assert(rest[j - 1] == ActionView::Halt);
            }
        }
    } else {
        lemma_step_wf(s, evs[0]);
        lemma_run_counts(s1, evs.drop_first());
        assert(entry_count(s1) == entry_count(s));
        assert(advanced_within(a, entry_count(s)));
        if acts.contains(ActionView::Report(Progress::Finished)) {
            let j = choose|j: int| 0 <= j < acts.len() && acts[j] == ActionView::Report(Progress::Finished);
            assert(j > 0);
            assert(rest[j - 1] == ActionView::Report(Progress::Finished));
            assert(rest.contains(ActionView::Report(Progress::Finished)));
        }
        assert forall|i: int|
            0 <= i < acts.len() implies advanced_within(acts[i], entry_count(s)) by {
            if i > 0 {
                assert(acts[i] == rest[i - 1]);
            }
        }
    }
}

proof fn lemma_halts_count(acts: Seq<ActionView>)
    requires
        forall|i: int| 0 <= i < acts.len() ==> acts[i] == ActionView::Halt,
    ensures
        advanced_count(acts) == 0,
        started_count(acts) == 0,
    decreases acts.len(),
{
    if acts.len() > 0 {
        lemma_halts_count(acts.drop_first());
    }
}

/// A run over a folder whose listing has `N` regular files and `M` other
/// entries, which ends with a `Finished` report, reports `Started` exactly
/// once with total `N`, reports `Advanced` exactly `N` times (so `N + M`
/// times where the folder holds nothing but regular files), and every
/// `Advanced` report has `cleared <= renamed <= N`.
pub proof fn law_completed_run(listing: Seq<ListedEntry>, evs: Seq<EventView>)
    requires
        listing.len() <= usize::MAX,
        run(StateView::Ready, seq![EventView::Scanned(Some(listing))] + evs).1.contains(
            ActionView::Report(Progress::Finished),
        ),
    ensures
        ({
            let acts = run(StateView::Ready, seq![EventView::Scanned(Some(listing))] + evs).1;
            let n = files_of(listing).len();
            &&& acts[0] == ActionView::Report(Progress::Started { total: n as usize })
            &&& started_count(acts) == 1
            &&& advanced_count(acts) == n
            &&& non_files_of(listing) == 0 ==> advanced_count(acts) == n + non_files_of(listing)
            &&& forall|i: int|
                0 <= i < acts.len() ==> advanced_within(acts[i], n)
        }),
{
    let all = seq![EventView::Scanned(Some(listing))] + evs;
    lemma_cons(EventView::Scanned(Some(listing)), evs);
    let s1 = started(listing);
    let a = ActionView::Report(Progress::Started { total: files_of(listing).len() as usize });
    assert(step(StateView::Ready, all[0]) == (s1, a));
    let rest = run(s1, evs).1;
    let acts = run(StateView::Ready, all).1;
    lemma_cons(a, rest);
    assert(acts == seq![a] + rest);
    crate::scan::lemma_files_and_non_files(listing);
    lemma_run_counts(s1, evs);
    assert(acts.contains(ActionView::Report(Progress::Finished)));
    let j = choose|j: int| 0 <= j < acts.len() && acts[j] == ActionView::Report(Progress::Finished);
    assert(j > 0);
    assert(rest[j - 1] == ActionView::Report(Progress::Finished));
    assert(rest.contains(ActionView::Report(Progress::Finished)));
    assert forall|i: int|
        0 <= i < acts.len() implies advanced_within(acts[i], files_of(listing).len()) by {
        if i > 0 {
            assert(acts[i] == rest[i - 1]);
        }
    }
}

/// Whether `e` is the kind of answer that request `a` waits for.
pub open spec fn answers(a: ActionView, e: EventView) -> bool {
    match a {
        ActionView::Scan => e is Scanned,
        ActionView::CheckFile { .. } => e is Checked,
        ActionView::Probe { .. } => e is Probed,
        ActionView::Rename { .. } => e is Done,
        ActionView::Clear { .. } => e is Done,
        ActionView::Report(_) => e is Poll,
        ActionView::Halt => false,
    }
}

/// A driver that answers every request of the run with the kind of event
/// that the request waits for.
pub open spec fn faithful(evs: Seq<EventView>, acts: Seq<ActionView>) -> bool {
    forall|k: int| 0 <= k && k + 1 < evs.len() ==> #[trigger] answers(acts[k], evs[k + 1])
}

/// A rename request `a`, made on event `e` right after request `prev`,
/// renames to a name that `prev` probed and that `e` reported free.
pub open spec fn follows_free_probe(prev: ActionView, a: ActionView, e: EventView) -> bool {
    a matches ActionView::Rename { to, .. } ==> prev == ActionView::Probe { name: to } && e
        == EventView::Probed(false)
}

/// While the process waits on a probe, the last request was that probe.
pub open spec fn probe_pending(s: StateView, last: ActionView) -> bool {
    s matches StateView::Running { next, phase: Phase::Probing { attempt }, .. } ==> last
        == ActionView::Probe { name: file_name((next - 1) as nat, attempt as nat) }
}

proof fn lemma_renames_follow_probes(s: StateView, last: ActionView, evs: Seq<EventView>)
    requires
        probe_pending(s, last),
        faithful(evs, run(s, evs).1),
    ensures
        forall|k: int|
            0 <= k < evs.len() ==> #[trigger] follows_free_probe(
                (seq![last] + run(s, evs).1)[k],
                run(s, evs).1[k],
                evs[k],
            ),
    decreases evs.len(),
{
    if evs.len() == 0 {
        return;
    }
    let (s1, a) = step(s, evs[0]);
    let rest = run(s1, evs.drop_first()).1;
    let acts = run(s, evs).1;
    lemma_cons(a, rest);
    assert(acts == seq![a] + rest);
    lemma_run_len(s, evs);
    lemma_run_len(s1, evs.drop_first());
    assert(follows_free_probe(last, a, evs[0]));
    if evs.len() == 1 {
        assert(evs.len() == 1);
        return;
    }
    assert(answers(acts[0], evs[1]));
    assert(probe_pending(s1, a));
    assert(faithful(evs.drop_first(), rest)) by {
        assert forall|k: int| 0 <= k && k + 1 < evs.drop_first().len() implies #[trigger] answers(
            rest[k],
            evs.drop_first()[k + 1],
        ) by {
            let j = k + 1;
            assert(answers(acts[j], evs[j + 1]));
            assert(evs[j + 1] == evs.drop_first()[k + 1]);
        }
    }
    lemma_renames_follow_probes(s1, a, evs.drop_first());
    assert forall|k: int| 0 <= k < evs.len() implies #[trigger] follows_free_probe(
        (seq![last] + acts)[k],
        acts[k],
        evs[k],
    ) by {
        if k > 0 {
            assert((seq![last] + acts)[k] == (seq![a] + rest)[k - 1]);
            assert(acts[k] == rest[k - 1]);
            assert(evs[k] == evs.drop_first()[k - 1]);
            assert(follows_free_probe((seq![a] + rest)[k - 1], rest[k - 1], evs.drop_first()[k - 1]));
        }
    }
}

/// Renaming never picks a name that is taken: in a run from `Ready` driven
/// faithfully, every rename request renames to the name that the request
/// just before it probed, on the answer that the name is free in the folder.
/// So a second run over a folder that the first run filled never renames
/// onto one of the first run's files that the folder still holds.
pub proof fn law_rename_targets_were_free(evs: Seq<EventView>)
    requires
        faithful(evs, run(StateView::Ready, evs).1),
    ensures
        ({
            let acts = run(StateView::Ready, evs).1;
            &&& acts.len() == evs.len()
            &&& evs.len() > 0 ==> !(acts[0] is Rename)
            &&& forall|k: int|
                0 < k < acts.len() ==> #[trigger] follows_free_probe(acts[k - 1], acts[k], evs[k])
        }),
{
    let acts = run(StateView::Ready, evs).1;
    lemma_run_len(StateView::Ready, evs);
    lemma_renames_follow_probes(StateView::Ready, ActionView::Halt, evs);
    if evs.len() > 0 {
        assert(follows_free_probe((seq![ActionView::Halt] + acts)[0], acts[0], evs[0]));
    }
    assert forall|k: int| 0 < k < acts.len() implies #[trigger] follows_free_probe(
        acts[k - 1],
        acts[k],
        evs[k],
    ) by {
        assert(follows_free_probe((seq![ActionView::Halt] + acts)[k], acts[k], evs[k]));
        assert((seq![ActionView::Halt] + acts)[k] == acts[k - 1]);
    }
}

pub open spec fn next_of(s: StateView) -> nat {
    match s {
        StateView::Running { next, .. } => next,
        _ => 0,
    }
}

pub open spec fn entries_of(s: StateView) -> Seq<Seq<char>> {
    match s {
        StateView::Running { entries, .. } => entries,
        _ => Seq::empty(),
    }
}

/// Every poll in `evs` reads the cancellation flag as set.
pub open spec fn polls_canceled(evs: Seq<EventView>) -> bool {
    forall|i: int| 0 <= i < evs.len() ==> (#[trigger] evs[i] matches EventView::Poll { canceled } ==> canceled)
}

/// Request `a` takes no entry in hand, and renames or empties, if it does,
/// only the entry at position `k - 1` of `entries`.
pub open spec fn stays_before(a: ActionView, entries: Seq<Seq<char>>, k: nat) -> bool {
    &&& !(a is CheckFile)
    &&& a matches ActionView::Rename { from, .. } ==> from == entries[k - 1]
    &&& a matches ActionView::Clear { name } ==> exists|attempt: nat|
        name == #[trigger] file_name((k - 1) as nat, attempt)
}

proof fn lemma_canceled_run(s: StateView, evs: Seq<EventView>, entries: Seq<Seq<char>>, k: nat)
    requires
        s is Finished || (s is Running && next_of(s) == k && entries_of(s) == entries),
        polls_canceled(evs),
    ensures
        forall|i: int| 0 <= i < evs.len() ==> #[trigger] stays_before(run(s, evs).1[i], entries, k),
        run(s, evs).0 is Finished || (run(s, evs).0 is Running && next_of(run(s, evs).0) == k),
    decreases evs.len(),
{
    if evs.len() == 0 {
        return;
    }
    let (s1, a) = step(s, evs[0]);
    let rest = run(s1, evs.drop_first()).1;
    let acts = run(s, evs).1;
    lemma_cons(a, rest);
    assert(acts == seq![a] + rest);
    assert(evs[0] matches EventView::Poll { canceled } ==> canceled);
    assert(stays_before(a, entries, k));
    assert(polls_canceled(evs.drop_first())) by {
        assert forall|i: int| 0 <= i < evs.drop_first().len() implies (
        #[trigger] evs.drop_first()[i] matches EventView::Poll { canceled } ==> canceled) by {
            assert(evs.drop_first()[i] == evs[i + 1]);
        }
    }
    lemma_canceled_run(s1, evs.drop_first(), entries, k);
    lemma_run_len(s1, evs.drop_first());
    assert forall|i: int| 0 <= i < evs.len() implies #[trigger] stays_before(acts[i], entries, k) by {
        if i > 0 {
            assert(acts[i] == rest[i - 1]);
        }
    }
}

/// Once cancellation is requested, that is, every later poll reads the flag
/// as set, a running process that has taken `k` entries in hand takes no
/// further entry in hand and renames or empties none but the entry at
/// position `k - 1` that it may hold; when it holds none, the first poll reports `Canceled`.
pub proof fn law_cancel_stops_at_entry(s: StateView, evs: Seq<EventView>)
    requires
        s is Running,
        polls_canceled(evs),
    ensures
        ({
            let acts = run(s, evs).1;
            &&& forall|i: int| 0 <= i < acts.len() ==> #[trigger] stays_before(acts[i], entries_of(s), next_of(s))
            &&& run(s, evs).0 is Finished || next_of(run(s, evs).0) == next_of(s)
            &&& (s matches StateView::Running { phase: Phase::Idle, .. } && evs.len() > 0
                && evs[0] is Poll) ==> acts[0] == ActionView::Report(Progress::Canceled)
        }),
{
    lemma_canceled_run(s, evs, entries_of(s), next_of(s));
    lemma_run_len(s, evs);
    if evs.len() > 0 {
        let (s1, a) = step(s, evs[0]);
        lemma_cons(a, run(s1, evs.drop_first()).1);
        assert(evs[0] matches EventView::Poll { canceled } ==> canceled);
    }
}

pub open spec fn renamed_of(s: StateView) -> nat {
    match s {
        StateView::Running { renamed, .. } => renamed,
        _ => 0,
    }
}

pub open spec fn cleared_of(s: StateView) -> nat {
    match s {
        StateView::Running { cleared, .. } => cleared,
        _ => 0,
    }
}

/// A failed rename or emptying of the entry in hand is absorbed: the
/// counters stay as they were and are reported, and the next poll, if the
/// job is not canceled, goes on with the following entry.
pub proof fn law_failure_isolated(s: StateView)
    requires
        s matches StateView::Running { phase, .. } && (phase is Renaming || phase is Clearing),
    ensures
        ({
            let (s1, a) = step(s, EventView::Done(false));
            &&& s1 == s.with_phase(Phase::Idle)
            &&& a == s.advanced()
            &&& next_of(s) < entries_of(s).len() ==> step(s1, EventView::Poll { canceled: false })
                == (
                StateView::Running {
                    renamed: renamed_of(s),
                    cleared: cleared_of(s),
                    entries: entries_of(s),
                    next: next_of(s) + 1,
                    phase: Phase::Checking,
                },
                ActionView::CheckFile { path: entries_of(s)[next_of(s) as int] },
            )
        }),
{
}

/// No transition of a running process lowers its counters, forgets its
/// entries or takes back an entry taken in hand.
pub proof fn law_counts_never_decrease(s: StateView, e: EventView)
    requires
        s is Running,
    ensures
        step(s, e).0 is Running ==> {
            &&& renamed_of(s) <= renamed_of(step(s, e).0)
            &&& cleared_of(s) <= cleared_of(step(s, e).0)
            &&& next_of(s) <= next_of(step(s, e).0)
            &&& entries_of(step(s, e).0) == entries_of(s)
        },
{
}

} // verus!
