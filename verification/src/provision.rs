//! The order of one provisioning run.
//!
//! A run is a conversation between this module and a host. The host reports
//! what happened as an `Event`; `step` answers with the next `State`, the
//! `ProgressEvent` to publish, if any, and the `Action` to carry out next.
//! All file system and network work is the host's; every decision is made
//! here.

use vstd::prelude::*;
use crate::progress::{clone_percent, percent_of, PipelineError, ProgressEvent};
use crate::staging::Config;
use crate::library::WalkEntry;
use crate::migration::{progress_after, progress_is_monotonic, step_for};

verus! {

/// The stage a run is in.
#[derive(Debug, Clone, Copy, PartialEq, Eq)]
pub enum State {
    /// No run has begun.
    Idle,
    /// The library directory is being listed to see whether it has images.
    CheckingLibrary,
    /// A staging directory left by an earlier run is being deleted.
    ResettingStaging,
    /// The remote collection is being transferred into the staging directory.
    Fetching,
    /// The library directory is being emptied and created anew.
    PreparingLibrary,
    /// The files of the staging tree are being copied into the library.
    Migrating,
    /// All `count` files are copied; the staging directory is being deleted.
    RemovingStaging { count: usize },
    /// The library directory is being listed after a migration.
    Rescanning,
    /// The run ended with the images that were already there.
    DoneExisting,
    /// The run ended with freshly fetched images.
    DoneFresh,
    /// The run ended with an error.
    Failed,
}

/// What the host reports.
#[derive(Debug, Clone, PartialEq, Eq)]
pub enum Event {
    /// A run is asked for.
    Start,
    /// A listing of the library directory is there.
    Scanned { paths: Vec<String> },
    /// The staging directory is gone, or was never there.
    StagingReset,
    /// The transfer has received `received` objects out of `total`.
    FetchProgress { received: usize, total: usize },
    /// The transfer is complete.
    Fetched,
    /// The library directory exists and is empty.
    LibraryPrepared,
    /// One entry of the staging tree has been dealt with.
    EntryMigrated { percent: usize },
    /// Every file of the staging tree has been copied.
    FilesCopied { count: usize },
    /// The staging directory has been deleted after the copies.
    StagingRemoved,
    /// The work in hand failed.
    Failed { error: PipelineError },
}

/// What the host is to do next.
#[derive(Debug, Clone, PartialEq, Eq)]
pub enum Action {
    /// List the image files under `dir` and report `Scanned`.
    Scan { dir: String },
    /// Delete `dir` with all it holds, if it exists, and report `StagingReset`.
    ResetStaging { dir: String },
    /// Transfer the collection at `url` into `dest`, reporting
    /// `FetchProgress` on the way and `Fetched` at the end.
    Fetch { url: String, dest: String },
    /// Delete `dir` if it exists, create it empty, and report `LibraryPrepared`.
    PrepareLibrary { dir: String },
    /// Copy the files under `from` into `to` as planned, reporting
    /// `EntryMigrated` after each entry and `FilesCopied` at the end.
    Migrate { from: String, to: String },
    /// Delete `dir` with all it holds and report `StagingRemoved`.
    RemoveStaging { dir: String },
    /// Start nothing new: the work in hand goes on, or there is none.
    Wait,
    /// The run is over.
    Stop,
}

/// The answer to one event.
#[derive(Debug, Clone, PartialEq, Eq)]
pub struct Step {
    pub next: State,
    pub emit: Option<ProgressEvent>,
    pub action: Action,
}

/// Whether a run is under way in this state.
pub open spec fn is_running(state: State) -> bool {
    !(state is Idle || state is DoneExisting || state is DoneFresh || state is Failed)
}

/// The answer to an event that the state has no use for: nothing changes.
pub open spec fn ignored(state: State) -> Step {
    Step { next: state, emit: None, action: Action::Wait }
}

/// The answer to `event` in `state`.
///
/// A run begins with `Start`, from any state in which none is under way; a
/// `Start` during a run is turned down. A failure during a run ends it. Every
/// other event moves the run on only in the one state that waits for it.
pub open spec fn transition(config: Config, state: State, event: Event) -> Step {
    match (event, state) {
        (Event::Start, _) => if is_running(state) {
            ignored(state)
        } else {
            Step {
                next: State::CheckingLibrary,
                emit: None,
                action: Action::Scan { dir: config.library_dir },
            }
        },
        (Event::Failed { error }, _) => if is_running(state) {
            Step {
                next: State::Failed,
                emit: Some(ProgressEvent::Failed { error }),
                action: Action::Stop,
            }
        } else {
            ignored(state)
        },
        (Event::Scanned { paths }, State::CheckingLibrary) => if paths@.len() > 0 {
            Step {
                next: State::DoneExisting,
                emit: Some(ProgressEvent::ImagesLoaded { paths }),
                action: Action::Stop,
            }
        } else {
            Step {
                next: State::ResettingStaging,
                emit: None,
                action: Action::ResetStaging { dir: config.staging_dir },
            }
        },
        (Event::StagingReset, State::ResettingStaging) => Step {
            next: State::Fetching,
            emit: None,
            action: Action::Fetch { url: config.source_url, dest: config.staging_dir },
        },
        (Event::FetchProgress { received, total }, State::Fetching) => Step {
            next: State::Fetching,
            emit: Some(
                ProgressEvent::ClonePercent {
                    percent: percent_of(received as nat, total as nat) as usize,
                    received,
                    total,
                },
            ),
            action: Action::Wait,
        },
        (Event::Fetched, State::Fetching) => Step {
            next: State::PreparingLibrary,
            emit: Some(ProgressEvent::RepoCloned { source: config.source_url }),
            action: Action::PrepareLibrary { dir: config.library_dir },
        },
        (Event::LibraryPrepared, State::PreparingLibrary) => Step {
            next: State::Migrating,
            emit: None,
            action: Action::Migrate { from: config.staging_dir, to: config.library_dir },
        },
        (Event::EntryMigrated { percent }, State::Migrating) => Step {
            next: State::Migrating,
            emit: Some(ProgressEvent::MoveProgress { percent }),
            action: Action::Wait,
        },
        (Event::FilesCopied { count }, State::Migrating) => Step {
            next: State::RemovingStaging { count },
            emit: None,
            action: Action::RemoveStaging { dir: config.staging_dir },
        },
        (Event::StagingRemoved, State::RemovingStaging { count }) => Step {
            next: State::Rescanning,
            emit: Some(ProgressEvent::ImagesMoved { count }),
            action: Action::Scan { dir: config.library_dir },
        },
        (Event::Scanned { paths }, State::Rescanning) => Step {
            next: State::DoneFresh,
            emit: Some(ProgressEvent::ImagesLoaded { paths }),
            action: Action::Stop,
        },
        _ => ignored(state),
    }
}

/// The answers to a sequence of events, one after the other, from `state`.
pub open spec fn run(config: Config, state: State, events: Seq<Event>) -> Seq<Step>
    decreases events.len(),
{
    if events.len() == 0 {
        Seq::empty()
    } else {
        let first = transition(config, state, events[0]);
        seq![first] + run(config, first.next, events.drop_first())
    }
}

/// How far a run has come: each stage of a run has a higher rank than the
/// stages before it.
pub open spec fn stage_rank(state: State) -> nat {
    match state {
        State::Idle => 0,
        State::CheckingLibrary => 1,
        State::ResettingStaging => 2,
        State::Fetching => 3,
        State::PreparingLibrary => 4,
        State::Migrating => 5,
        State::RemovingStaging { .. } => 6,
        State::Rescanning => 7,
        State::DoneExisting => 8,
        State::DoneFresh => 8,
        State::Failed => 8,
    }
}

/// The place of a progress event in the order in which a run publishes them:
/// transfer percentages, then the end of the transfer, then migration
/// percentages, then the end of the migration, then the listing.
pub open spec fn event_rank(event: ProgressEvent) -> nat {
    match event {
        ProgressEvent::ClonePercent { .. } => 3,
        ProgressEvent::RepoCloned { .. } => 4,
        ProgressEvent::MoveProgress { .. } => 5,
        ProgressEvent::ImagesMoved { .. } => 7,
        ProgressEvent::ImagesLoaded { .. } => 8,
        ProgressEvent::Failed { .. } => 8,
    }
}

/// While no run is under way, every event but `Start` is ignored.
pub proof fn at_rest_until_started(config: Config, state: State, events: Seq<Event>)
    requires
        !is_running(state),
        forall|i: int| 0 <= i < events.len() ==> !((#[trigger] events[i]) is Start),
    ensures
        run(config, state, events).len() == events.len(),
        forall|k: int|
            0 <= k < events.len() ==> (#[trigger] run(config, state, events)[k]) == ignored(state),
    decreases events.len(),
{
    if events.len() > 0 {
        let rest = events.drop_first();
        assert(!(events[0] is Start));
        assert(transition(config, state, events[0]) == ignored(state));
        assert forall|i: int| 0 <= i < rest.len() implies !((#[trigger] rest[i]) is Start) by {
            assert(rest[i] == events[i + 1]);
        }
        at_rest_until_started(config, state, rest);
        assert forall|k: int| 0 <= k < events.len() implies (#[trigger] run(
            config,
            state,
            events,
        )[k]) == ignored(state) by {
            if k > 0 {
                assert(run(config, state, events)[k] == run(config, state, rest)[k - 1]);
            }
        }
    }
}

/// A library that already holds images is used as it is: the run lists it,
/// publishes that listing unchanged and ends. Nothing is reset, fetched or
/// migrated, and nothing more is published, whatever the host reports
/// afterwards, until a new run is asked for.
pub proof fn cached_library_is_reused(
    config: Config,
    state: State,
    paths: Vec<String>,
    later: Seq<Event>,
)
    requires
        !is_running(state),
        paths@.len() > 0,
        forall|i: int| 0 <= i < later.len() ==> !((#[trigger] later[i]) is Start),
    ensures
        ({
            let steps = run(config, state, seq![Event::Start, Event::Scanned { paths }] + later);
            &&& steps.len() == later.len() + 2
            &&& steps[0] == (Step {
                next: State::CheckingLibrary,
                emit: None,
                action: Action::Scan { dir: config.library_dir },
            })
            &&& steps[1] == (Step {
                next: State::DoneExisting,
                emit: Some(ProgressEvent::ImagesLoaded { paths }),
                action: Action::Stop,
            })
            &&& forall|k: int|
                2 <= k < steps.len() ==> (#[trigger] steps[k]) == ignored(State::DoneExisting)
        }),
{
    let events = seq![Event::Start, Event::Scanned { paths }] + later;
    let tail = seq![Event::Scanned { paths }] + later;
    assert(events[0] == Event::Start);
    assert(events.drop_first() =~= tail);
    assert(tail[0] == Event::Scanned { paths });
    assert(tail.drop_first() =~= later);
    at_rest_until_started(config, State::DoneExisting, later);
    let steps = run(config, state, events);
    assert(run(config, State::CheckingLibrary, tail).len() == later.len() + 1);
    assert forall|k: int| 2 <= k < steps.len() implies (#[trigger] steps[k]) == ignored(
        State::DoneExisting,
    ) by {
        assert(steps[k] == run(config, State::CheckingLibrary, tail)[k - 1]);
        assert(steps[k] == run(config, State::DoneExisting, later)[k - 2]);
    }
}

/// A fetch is asked for only in answer to the report that the staging
/// directory is gone, and that deletion is asked for only once the library
/// directory was listed and held no image. So whatever an earlier run left in
/// the staging directory is deleted before a transfer begins.
pub proof fn fetch_follows_reset(config: Config, state: State, event: Event)
    ensures
        ({
            let out = transition(config, state, event);
            &&& out.action is Fetch ==> state is ResettingStaging && event is StagingReset
                && out.action == (Action::Fetch {
                url: config.source_url,
                dest: config.staging_dir,
            })
            &&& out.next is Fetching ==> state is Fetching || out.action is Fetch
            &&& out.action is ResetStaging <==> out.next is ResettingStaging && !(state
                is ResettingStaging)
            &&& out.action is ResetStaging ==> state is CheckingLibrary && out.action
                == (Action::ResetStaging { dir: config.staging_dir }) && (event matches Event::Scanned {
                paths,
            } && paths@.len() == 0)
        }),
{
}

/// The staging directory is deleted after a migration only once every file
/// has been copied, and the end of the migration is published only once the
/// directory is gone. A failure during a run ends it with nothing deleted,
/// and nothing is asked for afterwards until a new run begins.
pub proof fn staging_outlives_failure(config: Config, state: State, event: Event)
    ensures
        ({
            let out = transition(config, state, event);
            &&& out.action is RemoveStaging ==> state is Migrating && event is FilesCopied
                && out.action == (Action::RemoveStaging { dir: config.staging_dir })
            &&& out.emit matches Some(ProgressEvent::ImagesMoved { count }) ==> event
                is StagingRemoved && state == (State::RemovingStaging { count })
            &&& is_running(state) && event is Failed ==> out.next is Failed && out.action is Stop
                && out.emit == Some(ProgressEvent::Failed { error: event->error })
            &&& state is Failed && !(event is Start) ==> out == ignored(state)
        }),
{
}

/// Within a run no event moves the stage backwards, and whatever is
/// published belongs between the stage before and the stage after.
pub proof fn run_advances(config: Config, state: State, event: Event)
    requires
        !(event is Start),
    ensures
        ({
            let out = transition(config, state, event);
            &&& stage_rank(state) <= stage_rank(out.next)
            &&& out.emit matches Some(e) ==> stage_rank(state) <= event_rank(e) <= stage_rank(
                out.next,
            )
        }),
{
}

/// Nothing that a run publishes comes before the stage the run was in.
proof fn published_after_stage(config: Config, state: State, events: Seq<Event>, k: int)
    requires
        forall|i: int| 0 <= i < events.len() ==> !((#[trigger] events[i]) is Start),
        0 <= k < events.len(),
    ensures
        run(config, state, events).len() == events.len(),
        run(config, state, events)[k].emit matches Some(e) ==> stage_rank(state) <= event_rank(e),
    decreases events.len(),
{
    let rest = events.drop_first();
    let first = transition(config, state, events[0]);
    assert(!(events[0] is Start));
    run_advances(config, state, events[0]);
    assert forall|i: int| 0 <= i < rest.len() implies !((#[trigger] rest[i]) is Start) by {
        assert(rest[i] == events[i + 1]);
    }
    run_length(config, first.next, rest);
    if k > 0 {
        published_after_stage(config, first.next, rest, k - 1);
        assert(run(config, state, events)[k] == run(config, first.next, rest)[k - 1]);
    }
}

/// Every event is answered by one step.
pub proof fn run_length(config: Config, state: State, events: Seq<Event>)
    ensures
        run(config, state, events).len() == events.len(),
    decreases events.len(),
{
    if events.len() > 0 {
        run_length(config, transition(config, state, events[0]).next, events.drop_first());
    }
}

/// The state a run is in once the events were answered one after the other.
pub open spec fn stage_after(config: Config, state: State, events: Seq<Event>) -> State
    decreases events.len(),
{
    if events.len() == 0 {
        state
    } else {
        stage_after(config, transition(config, state, events[0]).next, events.drop_first())
    }
}

/// One more event moves the run on from where the events before left it.
pub proof fn stage_after_one_more(config: Config, state: State, events: Seq<Event>, event: Event)
    ensures
        stage_after(config, state, events.push(event)) == transition(
            config,
            stage_after(config, state, events),
            event,
        ).next,
    decreases events.len(),
{
    let longer = events.push(event);
    if events.len() == 0 {
        assert(longer.drop_first() =~= Seq::<Event>::empty());
        assert(longer[0] == event);
        assert(stage_after(config, transition(config, state, event).next, longer.drop_first())
            == transition(config, state, event).next);
    } else {
        assert(longer.drop_first() =~= events.drop_first().push(event));
        assert(longer[0] == events[0]);
        stage_after_one_more(
            config,
            transition(config, state, events[0]).next,
            events.drop_first(),
            event,
        );
    }
}

/// Each event is answered from the state that the events before it led to.
pub proof fn answer_at(config: Config, state: State, events: Seq<Event>, k: int)
    requires
        0 <= k < events.len(),
    ensures
        run(config, state, events).len() == events.len(),
        run(config, state, events)[k] == transition(
            config,
            stage_after(config, state, events.take(k)),
            events[k],
        ),
    decreases events.len(),
{
    let first = transition(config, state, events[0]);
    let rest = events.drop_first();
    run_length(config, state, events);
    run_length(config, first.next, rest);
    if k == 0 {
        assert(events.take(0).len() == 0);
    } else {
        answer_at(config, first.next, rest, k - 1);
        assert(events.take(k).drop_first() =~= rest.take(k - 1));
        assert(events.take(k)[0] == events[0]);
        assert(rest[k - 1] == events[k]);
        assert(run(config, state, events)[k] == run(config, first.next, rest)[k - 1]);
    }
}

/// A run that waits for the staging directory to be deleted has asked for
/// that deletion.
proof fn reset_was_asked(config: Config, state: State, events: Seq<Event>, k: int)
    requires
        0 <= k <= events.len(),
        !(state is ResettingStaging),
        stage_after(config, state, events.take(k)) is ResettingStaging,
    ensures
        exists|j: int|
            0 <= j < k && (#[trigger] run(config, state, events)[j]).action
                == (Action::ResetStaging { dir: config.staging_dir }),
    decreases k,
{
    if k == 0 {
        assert(events.take(0).len() == 0);
    } else {
        let before = stage_after(config, state, events.take(k - 1));
        assert(events.take(k) =~= events.take(k - 1).push(events[k - 1]));
        stage_after_one_more(config, state, events.take(k - 1), events[k - 1]);
        answer_at(config, state, events, k - 1);
        fetch_follows_reset(config, before, events[k - 1]);
        if before is ResettingStaging {
            reset_was_asked(config, state, events, k - 1);
        } else {
            assert(run(config, state, events)[k - 1].action == (Action::ResetStaging {
                dir: config.staging_dir,
            }));
        }
    }
}

/// Whatever the host reports, and from whatever state outside that one
/// stage: before a fetch is asked for, the deletion of the staging directory
/// was asked for, and the fetch answers the report that it is gone.
pub proof fn reset_precedes_fetch(config: Config, state: State, events: Seq<Event>, k: int)
    requires
        0 <= k < events.len(),
        !(state is ResettingStaging),
        run(config, state, events)[k].action is Fetch,
    ensures
        events[k] is StagingReset,
        exists|j: int|
            0 <= j < k && (#[trigger] run(config, state, events)[j]).action
                == (Action::ResetStaging { dir: config.staging_dir }),
{
    answer_at(config, state, events, k);
    fetch_follows_reset(config, stage_after(config, state, events.take(k)), events[k]);
    reset_was_asked(config, state, events, k);
}

/// A run that waits for the staging directory to be removed after the
/// copies has asked for that removal.
proof fn removal_was_asked(config: Config, state: State, events: Seq<Event>, k: int)
    requires
        0 <= k <= events.len(),
        !(state is RemovingStaging),
        stage_after(config, state, events.take(k)) is RemovingStaging,
    ensures
        exists|j: int|
            0 <= j < k && (#[trigger] run(config, state, events)[j]).action
                == (Action::RemoveStaging { dir: config.staging_dir }) && events[j] is FilesCopied,
    decreases k,
{
    if k == 0 {
        assert(events.take(0).len() == 0);
    } else {
        let before = stage_after(config, state, events.take(k - 1));
        assert(events.take(k) =~= events.take(k - 1).push(events[k - 1]));
        stage_after_one_more(config, state, events.take(k - 1), events[k - 1]);
        answer_at(config, state, events, k - 1);
        if before is RemovingStaging {
            removal_was_asked(config, state, events, k - 1);
        } else {
            assert(run(config, state, events)[k - 1].action == (Action::RemoveStaging {
                dir: config.staging_dir,
            }));
        }
    }
}

/// Whatever the host reports: the end of a migration is published only
/// after every file was reported copied and the removal of the staging
/// directory was asked for, and it answers the report that the directory is
/// gone.
pub proof fn cleanup_precedes_moved(config: Config, state: State, events: Seq<Event>, k: int)
    requires
        0 <= k < events.len(),
        !(state is RemovingStaging),
        run(config, state, events)[k].emit matches Some(ProgressEvent::ImagesMoved { .. }),
    ensures
        events[k] is StagingRemoved,
        exists|j: int|
            0 <= j < k && (#[trigger] run(config, state, events)[j]).action
                == (Action::RemoveStaging { dir: config.staging_dir }) && events[j] is FilesCopied,
{
    answer_at(config, state, events, k);
    staging_outlives_failure(config, stage_after(config, state, events.take(k)), events[k]);
    removal_was_asked(config, state, events, k);
}

/// What one run publishes comes in the order of the stages: transfer
/// percentages, the end of the transfer, migration percentages, the end of
/// the migration, the listing.
pub proof fn published_in_order(
    config: Config,
    state: State,
    events: Seq<Event>,
    i: int,
    j: int,
)
    requires
        forall|k: int| 0 <= k < events.len() ==> !((#[trigger] events[k]) is Start),
        0 <= i <= j < events.len(),
    ensures
        run(config, state, events).len() == events.len(),
        ({
            let steps = run(config, state, events);
            steps[i].emit is Some && steps[j].emit is Some ==> event_rank(steps[i].emit->0)
                <= event_rank(steps[j].emit->0)
        }),
    decreases events.len(),
{
    let rest = events.drop_first();
    let first = transition(config, state, events[0]);
    assert(!(events[0] is Start));
    run_advances(config, state, events[0]);
    run_length(config, state, events);
    run_length(config, first.next, rest);
    assert forall|k: int| 0 <= k < rest.len() implies !((#[trigger] rest[k]) is Start) by {
        assert(rest[k] == events[k + 1]);
    }
    if i == 0 {
        if j > 0 {
            published_after_stage(config, first.next, rest, j - 1);
            assert(run(config, state, events)[j] == run(config, first.next, rest)[j - 1]);
        }
    } else {
        published_in_order(config, first.next, rest, i - 1, j - 1);
        assert(run(config, state, events)[i] == run(config, first.next, rest)[i - 1]);
        assert(run(config, state, events)[j] == run(config, first.next, rest)[j - 1]);
    }
}

/// While every event leaves the state as it is, each is answered as if it
/// were the first.
pub proof fn run_in_place(config: Config, state: State, events: Seq<Event>)
    requires
        forall|k: int|
            0 <= k < events.len() ==> transition(config, state, #[trigger] events[k]).next == state,
    ensures
        run(config, state, events).len() == events.len(),
        forall|k: int|
            0 <= k < events.len() ==> (#[trigger] run(config, state, events)[k]) == transition(
                config,
                state,
                events[k],
            ),
    decreases events.len(),
{
    if events.len() > 0 {
        let rest = events.drop_first();
        assert(transition(config, state, events[0]).next == state);
        assert forall|k: int| 0 <= k < rest.len() implies transition(
            config,
            state,
            #[trigger] rest[k],
        ).next == state by {
            assert(rest[k] == events[k + 1]);
        }
        run_in_place(config, state, rest);
        assert forall|k: int| 0 <= k < events.len() implies (#[trigger] run(
            config,
            state,
            events,
        )[k]) == transition(config, state, events[k]) by {
            if k > 0 {
                assert(run(config, state, events)[k] == run(config, state, rest)[k - 1]);
                assert(rest[k - 1] == events[k]);
            }
        }
    }
}

/// What the host reports while it carries out the plan for a walk: after
/// each entry, the percentage of that entry's step.
pub open spec fn migration_reports(entries: Seq<WalkEntry>) -> Seq<Event> {
    Seq::new(
        entries.len(),
        |i: int| Event::EntryMigrated { percent: step_for(entries, i).percent },
    )
}

/// While the plan for a walk is carried out, the run stays in the migrating
/// stage and publishes one percentage per entry: the files copied so far
/// against all entries. From one entry to a later one the published
/// percentage never decreases, and it never exceeds 100.
pub proof fn migration_progress_rises(config: Config, entries: Seq<WalkEntry>, i: int, j: int)
    requires
        0 <= i <= j < entries.len(),
    ensures
        ({
            let steps = run(config, State::Migrating, migration_reports(entries));
            &&& steps.len() == entries.len()
            &&& steps[i] == (Step {
                next: State::Migrating,
                emit: Some(ProgressEvent::MoveProgress { percent: progress_after(entries, i) as usize }),
                action: Action::Wait,
            })
            &&& steps[j] == (Step {
                next: State::Migrating,
                emit: Some(ProgressEvent::MoveProgress { percent: progress_after(entries, j) as usize }),
                action: Action::Wait,
            })
            &&& progress_after(entries, i) <= progress_after(entries, j) <= 100
        }),
{
    run_in_place(config, State::Migrating, migration_reports(entries));
    progress_is_monotonic(entries, i, j);
}

fn ignore(state: State) -> (out: Step)
    ensures
        out == ignored(state),
{
    Step { next: state, emit: None, action: Action::Wait }
}

fn running(state: State) -> (yes: bool)
    ensures
        yes == is_running(state),
{
    match state {
        State::Idle | State::DoneExisting | State::DoneFresh | State::Failed => false,
        _ => true,
    }
}

/// Answers one event of the host: the state the run is in afterwards, the
/// progress event to publish, and what to do next.
pub fn step(config: &Config, state: State, event: Event) -> (out: Step)
    requires
        state is Fetching ==> (event matches Event::FetchProgress { received, total }
            ==> percent_of(received as nat, total as nat) <= usize::MAX),
    ensures
        out == transition(*config, state, event),
{
    match event {
        Event::Start => {
            if running(state) {
                ignore(state)
            } else {
                Step {
                    next: State::CheckingLibrary,
                    emit: None,
                    action: Action::Scan { dir: config.library_dir.clone() },
                }
            }
        },
        Event::Failed { error } => {
            if running(state) {
                Step {
                    next: State::Failed,
                    emit: Some(ProgressEvent::Failed { error }),
                    action: Action::Stop,
                }
            } else {
                ignore(state)
            }
        },
        Event::Scanned { paths } => match state {
            State::CheckingLibrary => {
                if paths.len() > 0 {
                    Step {
                        next: State::DoneExisting,
                        emit: Some(ProgressEvent::ImagesLoaded { paths }),
                        action: Action::Stop,
                    }
                } else {
                    Step {
                        next: State::ResettingStaging,
                        emit: None,
                        action: Action::ResetStaging { dir: config.staging_dir.clone() },
                    }
                }
            },
            State::Rescanning => Step {
                next: State::DoneFresh,
                emit: Some(ProgressEvent::ImagesLoaded { paths }),
                action: Action::Stop,
            },
            _ => ignore(state),
        },
        Event::StagingReset => match state {
            State::ResettingStaging => Step {
                next: State::Fetching,
                emit: None,
                action: Action::Fetch {
                    url: config.source_url.clone(),
                    dest: config.staging_dir.clone(),
                },
            },
            _ => ignore(state),
        },
        Event::FetchProgress { received, total } => match state {
            State::Fetching => Step {
                next: State::Fetching,
                emit: Some(
                    ProgressEvent::ClonePercent {
                        percent: clone_percent(received, total),
                        received,
                        total,
                    },
                ),
                action: Action::Wait,
            },
            _ => ignore(state),
        },
        Event::Fetched => match state {
            State::Fetching => Step {
                next: State::PreparingLibrary,
                emit: Some(ProgressEvent::RepoCloned { source: config.source_url.clone() }),
                action: Action::PrepareLibrary { dir: config.library_dir.clone() },
            },
            _ => ignore(state),
        },
        Event::LibraryPrepared => match state {
            State::PreparingLibrary => Step {
                next: State::Migrating,
                emit: None,
                action: Action::Migrate {
                    from: config.staging_dir.clone(),
                    to: config.library_dir.clone(),
                },
            },
            _ => ignore(state),
        },
        Event::EntryMigrated { percent } => match state {
            State::Migrating => Step {
                next: State::Migrating,
                emit: Some(ProgressEvent::MoveProgress { percent }),
                action: Action::Wait,
            },
            _ => ignore(state),
        },
        Event::FilesCopied { count } => match state {
            State::Migrating => Step {
                next: State::RemovingStaging { count },
                emit: None,
                action: Action::RemoveStaging { dir: config.staging_dir.clone() },
            },
            _ => ignore(state),
        },
        Event::StagingRemoved => match state {
            State::RemovingStaging { count } => Step {
                next: State::Rescanning,
                emit: Some(ProgressEvent::ImagesMoved { count }),
                action: Action::Scan { dir: config.library_dir.clone() },
            },
            _ => ignore(state),
        },
    }
}

} // verus!
