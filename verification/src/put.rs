//! Putting an item in the trash.
//!
//! The steps, in order: resolve the path; create the directories of the
//! trash; create the metadata record under the first free identifier; write
//! the record; move the item to the files directory. The record exists and is
//! written before the item moves, so that a crash in between leaves a record
//! without a payload rather than a payload that nothing describes. Once the
//! record is created, a step that fails has the record removed before the
//! failure is reported: a failed put leaves nothing behind but directories.

use vstd::prelude::*;
use vstd::string::*;

use crate::actions::{Action, ActionView, Event, EventView};
use crate::identifier::{
    candidate,
    lemma_candidates_distinct,
    spec_candidate,
    spec_identifier,
    try_identifier,
};
use crate::info::{TrashInfo, TrashInfoView};
use crate::paths::file_name_of;
use crate::timestamp::{Timestamp, TimestampView};
use crate::trash::{ReportView, Trash, TrashPutReport, TrashView};

verus! {

/// How far the trashing of an item has come: what the caller is doing.
#[derive(Clone, Copy, Debug, PartialEq, Eq, Structural)]
pub enum PutStage {
    Canonicalizing,
    CreatingBaseDir,
    CreatingInfoDir,
    CreatingFilesDir,
    Allocating,
    Writing,
    Moving,
    /// The record is being removed, after the failure that is to be reported.
    Discarding(PutError),
}

/// Why an item was not trashed.
#[derive(Clone, Copy, Debug, PartialEq, Eq, Structural)]
pub enum PutError {
    /// The path could not be resolved: most likely nothing exists there.
    PathNotFound,
    /// The resolved path has no file name.
    NoFileName,
    /// A directory of the trash could not be created.
    CannotCreateDir,
    /// The metadata record could not be created, for another reason than
    /// that it exists already.
    CannotCreateRecord,
    /// Every identifier for the item's file name is taken.
    NoIdentifierLeft,
    /// The metadata record could not be written.
    CannotWriteRecord,
    /// The item could not be moved to the files directory.
    CannotMove,
    /// The event is none that the action before it can give.
    UnexpectedEvent,
}

/// What the trashing of an item in progress holds.
pub struct PutView {
    pub stage: PutStage,
    /// The path of the item: as given at first, canonical once resolved.
    pub path: Seq<char>,
    pub deletion_time: TimestampView,
    /// The file name of the canonical path.
    pub base_identifier: Seq<char>,
    /// The number of the identifier that is being tried.
    pub number: u16,
}

impl PutView {
    /// The identifier that is being tried.
    pub open spec fn identifier(self) -> Seq<char> {
        spec_candidate(self.base_identifier, self.number as nat)
    }

    /// The metadata record of the item.
    pub open spec fn info(self) -> TrashInfoView {
        TrashInfoView { path: self.path, deletion_time: self.deletion_time }
    }
}

/// The trashing of an item in progress.
#[derive(Debug)]
pub struct Put {
    stage: PutStage,
    path: String,
    deletion_time: Timestamp,
    base_identifier: String,
    number: u16,
}

impl View for Put {
    type V = PutView;

    closed spec fn view(&self) -> PutView {
        PutView {
            stage: self.stage,
            path: self.path@,
            deletion_time: self.deletion_time@,
            base_identifier: self.base_identifier@,
            number: self.number,
        }
    }
}

/// What comes next in the trashing of an item.
#[derive(Debug)]
pub enum PutStep {
    /// The caller performs the action and resumes the state with the event.
    Perform { state: Put, action: Action },
    /// The item is in the trash.
    Done { report: TrashPutReport },
    /// The item was not trashed.
    Failed { error: PutError },
}

/// What a step in the trashing of an item holds.
pub enum PutStepView {
    Perform { state: PutView, action: ActionView },
    Done { report: ReportView },
    Failed { error: PutError },
}

impl View for PutStep {
    type V = PutStepView;

    open spec fn view(&self) -> PutStepView {
        match *self {
            PutStep::Perform { state, action } => PutStepView::Perform {
                state: state@,
                action: action@,
            },
            PutStep::Done { report } => PutStepView::Done { report: report@ },
            PutStep::Failed { error } => PutStepView::Failed { error },
        }
    }
}

/// The first step in the trashing of an item: to resolve its path.
pub open spec fn spec_put(path: Seq<char>, now: TimestampView) -> PutStepView {
    PutStepView::Perform {
        state: PutView {
            stage: PutStage::Canonicalizing,
            path,
            deletion_time: now,
            base_identifier: Seq::empty(),
            number: 0,
        },
        action: ActionView::Canonicalize { path },
    }
}

/// The step that removes the record that was created, before the given
/// failure is reported.
pub open spec fn spec_discard(trash: TrashView, state: PutView, error: PutError) -> PutStepView {
    PutStepView::Perform {
        state: PutView { stage: PutStage::Discarding(error), ..state },
        action: ActionView::RemoveFile { path: trash.record_path(state.identifier()) },
    }
}

/// The step that follows an event.
pub open spec fn spec_resume(trash: TrashView, state: PutView, event: EventView) -> PutStepView {
    match state.stage {
        PutStage::Canonicalizing => match event {
            EventView::Canonicalized { path } => if file_name_of(path) is None {
                PutStepView::Failed { error: PutError::NoFileName }
            } else {
                PutStepView::Perform {
                    state: PutView {
                        stage: PutStage::CreatingBaseDir,
                        path,
                        base_identifier: spec_identifier(path),
                        ..state
                    },
                    action: ActionView::CreateDirs { path: trash.base_dir },
                }
            },
            EventView::Failed => PutStepView::Failed { error: PutError::PathNotFound },
            _ => PutStepView::Failed { error: PutError::UnexpectedEvent },
        },
        PutStage::CreatingBaseDir => match event {
            EventView::Done => PutStepView::Perform {
                state: PutView { stage: PutStage::CreatingInfoDir, ..state },
                action: ActionView::CreateDirs { path: trash.info_dir },
            },
            EventView::Failed => PutStepView::Failed { error: PutError::CannotCreateDir },
            _ => PutStepView::Failed { error: PutError::UnexpectedEvent },
        },
        PutStage::CreatingInfoDir => match event {
            EventView::Done => PutStepView::Perform {
                state: PutView { stage: PutStage::CreatingFilesDir, ..state },
                action: ActionView::CreateDirs { path: trash.files_dir },
            },
            EventView::Failed => PutStepView::Failed { error: PutError::CannotCreateDir },
            _ => PutStepView::Failed { error: PutError::UnexpectedEvent },
        },
        PutStage::CreatingFilesDir => match event {
            EventView::Done => PutStepView::Perform {
                state: PutView { stage: PutStage::Allocating, ..state },
                action: ActionView::CreateRecord { path: trash.record_path(state.identifier()) },
            },
            EventView::Failed => PutStepView::Failed { error: PutError::CannotCreateDir },
            _ => PutStepView::Failed { error: PutError::UnexpectedEvent },
        },
        PutStage::Allocating => match event {
            // The trashinfo file could be created
            EventView::Done => PutStepView::Perform {
                state: PutView { stage: PutStage::Writing, ..state },
                action: ActionView::WriteRecord {
                    path: trash.record_path(state.identifier()),
                    contents: state.info().bytes(),
                },
            },
            // A trashinfo file already exists for the identifier
            EventView::AlreadyExists => if state.number == u16::MAX {
                PutStepView::Failed { error: PutError::NoIdentifierLeft }
            } else {
                PutStepView::Perform {
                    state: PutView { number: (state.number + 1) as u16, ..state },
                    action: ActionView::CreateRecord {
                        path: trash.record_path(
                            spec_candidate(state.base_identifier, state.number as nat + 1),
                        ),
                    },
                }
            },
            // Another error occurred
            EventView::Failed => PutStepView::Failed { error: PutError::CannotCreateRecord },
            _ => PutStepView::Failed { error: PutError::UnexpectedEvent },
        },
        PutStage::Writing => match event {
            EventView::Done => PutStepView::Perform {
                state: PutView { stage: PutStage::Moving, ..state },
                action: ActionView::Rename {
                    from: state.path,
                    to: trash.payload_path(state.identifier()),
                },
            },
            EventView::Failed => spec_discard(trash, state, PutError::CannotWriteRecord),
            _ => spec_discard(trash, state, PutError::UnexpectedEvent),
        },
        PutStage::Moving => match event {
            EventView::Done => PutStepView::Done {
                report: ReportView { path: state.path, deletion_time: state.deletion_time },
            },
            EventView::Failed => spec_discard(trash, state, PutError::CannotMove),
            _ => spec_discard(trash, state, PutError::UnexpectedEvent),
        },
        // Whatever came of the removal, the failure before it is reported
        PutStage::Discarding(error) => PutStepView::Failed { error },
    }
}

/// The step that a run ends in: each event in turn resumes the step before
/// it, until the events or the steps to perform run out.
pub open spec fn spec_outcome(
    trash: TrashView,
    step: PutStepView,
    events: Seq<EventView>,
) -> PutStepView
    decreases events.len(),
{
    match step {
        PutStepView::Perform { state, .. } => if events.len() == 0 {
            step
        } else {
            spec_outcome(trash, spec_resume(trash, state, events[0]), events.drop_first())
        },
        _ => step,
    }
}

/// The actions that a run asks for, in order. The event at an index, if
/// there is one, is what came of the action at that index.
pub open spec fn spec_asked(
    trash: TrashView,
    step: PutStepView,
    events: Seq<EventView>,
) -> Seq<ActionView>
    decreases events.len(),
{
    match step {
        PutStepView::Perform { state, action } => if events.len() == 0 {
            seq![action]
        } else {
            seq![action] + spec_asked(
                trash,
                spec_resume(trash, state, events[0]),
                events.drop_first(),
            )
        },
        _ => Seq::empty(),
    }
}

/// True when a step that asks for a record to be created is trying the
/// identifier of that record.
pub open spec fn creates_what_it_tries(trash: TrashView, step: PutStepView) -> bool {
    step matches PutStepView::Perform { state, action } ==> (action is CreateRecord
        ==> state.stage == PutStage::Allocating && action == (ActionView::CreateRecord {
        path: trash.record_path(state.identifier()),
    }))
}

/// A run that fails while it holds a record that it created has asked for
/// the removal of that record.
proof fn lemma_held_record_is_removed(
    trash: TrashView,
    state: PutView,
    action: ActionView,
    events: Seq<EventView>,
)
    requires
        state.stage == PutStage::Writing || state.stage == PutStage::Moving,
        spec_outcome(trash, PutStepView::Perform { state, action }, events) is Failed,
    ensures
        exists|removed: int|
            1 <= removed < spec_asked(trash, PutStepView::Perform { state, action }, events).len()
                && #[trigger] spec_asked(
                trash,
                PutStepView::Perform { state, action },
                events,
            )[removed] == (ActionView::RemoveFile { path: trash.record_path(state.identifier()) }),
    decreases events.len(),
{
    reveal_with_fuel(spec_outcome, 2);
    reveal_with_fuel(spec_asked, 2);
    let asked = spec_asked(trash, PutStepView::Perform { state, action }, events);
    let next = spec_resume(trash, state, events[0]);
    let rest = events.drop_first();
    let asked_next = spec_asked(trash, next, rest);
    assert(events.len() > 0);
    assert(asked == seq![action] + asked_next);
    if state.stage == PutStage::Writing && events[0] == EventView::Done {
        let moving = next->Perform_state;
        lemma_held_record_is_removed(trash, moving, next->Perform_action, rest);
        let found = choose|removed: int|
            1 <= removed < asked_next.len() && #[trigger] asked_next[removed]
                == (ActionView::RemoveFile { path: trash.record_path(moving.identifier()) });
        assert(asked[found + 1] == asked_next[found]);
    } else {
        assert(asked_next[0] == (ActionView::RemoveFile {
            path: trash.record_path(state.identifier()),
        }));
        assert(asked[1] == asked_next[0]);
    }
}

/// Every step that follows an event creates what it tries.
proof fn lemma_resume_creates_what_it_tries(trash: TrashView, state: PutView, event: EventView)
    ensures
        creates_what_it_tries(trash, spec_resume(trash, state, event)),
{
}

/// A run that fails after a record was created has asked for the removal of
/// that record, from whatever step it started that creates what it tries.
proof fn lemma_created_record_is_removed(
    trash: TrashView,
    step: PutStepView,
    events: Seq<EventView>,
    created: int,
)
    requires
        creates_what_it_tries(trash, step),
        0 <= created < events.len(),
        created < spec_asked(trash, step, events).len(),
        spec_asked(trash, step, events)[created] is CreateRecord,
        events[created] == EventView::Done,
        spec_outcome(trash, step, events) is Failed,
    ensures
        exists|removed: int|
            created < removed < spec_asked(trash, step, events).len() && #[trigger] spec_asked(
                trash,
                step,
                events,
            )[removed] == (ActionView::RemoveFile {
                path: spec_asked(trash, step, events)[created]->CreateRecord_path,
            }),
    decreases events.len(),
{
    reveal_with_fuel(spec_outcome, 2);
    reveal_with_fuel(spec_asked, 2);
    let asked = spec_asked(trash, step, events);
    let state = step->Perform_state;
    let action = step->Perform_action;
    let next = spec_resume(trash, state, events[0]);
    let rest = events.drop_first();
    let asked_next = spec_asked(trash, next, rest);
    assert(step is Perform);
    assert(asked == seq![action] + asked_next);
    if created == 0 {
        let writing = next->Perform_state;
        lemma_held_record_is_removed(trash, writing, next->Perform_action, rest);
        let found = choose|removed: int|
            1 <= removed < asked_next.len() && #[trigger] asked_next[removed]
                == (ActionView::RemoveFile { path: trash.record_path(writing.identifier()) });
        assert(asked[found + 1] == asked_next[found]);
    } else {
        assert(asked[created] == asked_next[created - 1]);
        assert(rest[created - 1] == events[created]);
        lemma_resume_creates_what_it_tries(trash, state, events[0]);
        lemma_created_record_is_removed(trash, next, rest, created - 1);
        let found = choose|removed: int|
            created - 1 < removed < asked_next.len() && #[trigger] asked_next[removed]
                == (ActionView::RemoveFile { path: asked_next[created - 1]->CreateRecord_path });
        assert(asked[found + 1] == asked_next[found]);
    }
}

/// A failed put leaves no record behind: in every run that ends in a
/// failure, whatever the events, each record whose creation went through is
/// asked to be removed afterwards.
pub proof fn lemma_put_removes_record(
    trash: TrashView,
    path: Seq<char>,
    now: TimestampView,
    events: Seq<EventView>,
    created: int,
)
    requires
        0 <= created < events.len(),
        created < spec_asked(trash, spec_put(path, now), events).len(),
        spec_asked(trash, spec_put(path, now), events)[created] is CreateRecord,
        events[created] == EventView::Done,
        spec_outcome(trash, spec_put(path, now), events) is Failed,
    ensures
        exists|removed: int|
            created < removed < spec_asked(trash, spec_put(path, now), events).len()
                && #[trigger] spec_asked(trash, spec_put(path, now), events)[removed]
                == (ActionView::RemoveFile {
                path: spec_asked(trash, spec_put(path, now), events)[created]->CreateRecord_path,
            }),
{
    lemma_created_record_is_removed(trash, spec_put(path, now), events, created);
}

/// Trashing a path that cannot be resolved fails before anything is changed:
/// the first action changes nothing, and its failure ends the operation.
pub proof fn lemma_put_unresolved_path(trash: TrashView, path: Seq<char>, now: TimestampView)
    ensures
        spec_put(path, now) matches PutStepView::Perform { state, action } && !action.mutates()
            && spec_resume(trash, state, EventView::Failed) == (PutStepView::Failed {
            error: PutError::PathNotFound,
        }),
{
}

/// No step moves the item unless the step before it wrote the record; none
/// writes the record unless the step before it created the record; none
/// creates a record unless the directories of the trash were made just
/// before, or the identifier tried just before is taken; and none removes a
/// record unless the writing of that record or the move of the item did not
/// go through.
pub proof fn lemma_put_order(trash: TrashView, state: PutView, event: EventView)
    ensures
        spec_resume(trash, state, event) matches PutStepView::Perform { state: next, action }
            ==> {
            &&& action is Rename ==> state.stage == PutStage::Writing && event
                == EventView::Done
            &&& action is WriteRecord ==> state.stage == PutStage::Allocating && event
                == EventView::Done
            &&& action is CreateRecord ==> (state.stage == PutStage::CreatingFilesDir && event
                == EventView::Done) || (state.stage == PutStage::Allocating && event
                == EventView::AlreadyExists)
            &&& action is RemoveFile ==> (state.stage == PutStage::Writing || state.stage
                == PutStage::Moving) && event != EventView::Done && action
                == (ActionView::RemoveFile { path: trash.record_path(state.identifier()) })
        },
{
}

/// The identifiers are tried in order: first the file name itself, and after
/// each one that is taken the file name with the next number, which differs
/// from every identifier tried before.
pub proof fn lemma_put_candidates(trash: TrashView, state: PutView)
    requires
        state.number < u16::MAX,
    ensures
        state.stage == PutStage::CreatingFilesDir && state.number == 0 ==> spec_resume(
            trash,
            state,
            EventView::Done,
        ) == (PutStepView::Perform {
            state: PutView { stage: PutStage::Allocating, ..state },
            action: ActionView::CreateRecord { path: trash.record_path(state.base_identifier) },
        }),
        state.stage == PutStage::Allocating ==> spec_resume(
            trash,
            state,
            EventView::AlreadyExists,
        ) == (PutStepView::Perform {
            state: PutView { number: (state.number + 1) as u16, ..state },
            action: ActionView::CreateRecord {
                path: trash.record_path(
                    spec_candidate(state.base_identifier, state.number as nat + 1),
                ),
            },
        }),
        forall|earlier: nat|
            earlier <= state.number ==> #[trigger] spec_candidate(state.base_identifier, earlier)
                != spec_candidate(state.base_identifier, state.number as nat + 1),
        state.number == 0 ==> spec_candidate(state.base_identifier, 1) == state.base_identifier
            + seq!['_', '1'],
{
    assert forall|earlier: nat| earlier <= state.number implies #[trigger] spec_candidate(
        state.base_identifier,
        earlier,
    ) != spec_candidate(state.base_identifier, state.number as nat + 1) by {
        lemma_candidates_distinct(state.base_identifier, earlier, state.number as nat + 1);
    }
    lemma_candidates_distinct(state.base_identifier, 0, 1);
}

impl Trash {
    /// Start to put the item at the given path in the trash, with the current
    /// local time as its deletion time.
    pub fn put(&self, path: &str, now: Timestamp) -> (step: PutStep)
        ensures
            step@ == spec_put(path@, now@),
    {
        PutStep::Perform {
            state: Put {
                stage: PutStage::Canonicalizing,
                path: path.to_owned(),
                deletion_time: now,
                base_identifier: String::new(),
                number: 0,
            },
            action: Action::Canonicalize { path: path.to_owned() },
        }
    }
}

impl Put {
    /// Return the next step, given what came of the action of the last one.
    ///
    /// The base identifier that a resolved path gives is not empty and holds
    /// no `/`.
    pub fn resume(self, trash: &Trash, event: Event) -> (step: PutStep)
        ensures
            step@ == spec_resume(trash@, self@, event@),
            self@.stage == PutStage::Canonicalizing ==> (step@ matches PutStepView::Perform {
                state,
                ..
            } ==> state.base_identifier.len() > 0 && !state.base_identifier.contains('/')),
    {
        let Put { stage, path, deletion_time, base_identifier, number } = self;
        match stage {
            PutStage::Canonicalizing => match event {
                Event::Canonicalized { path: canonical } => match try_identifier(
                    canonical.as_str(),
                ) {
                    Some(base_identifier) => PutStep::Perform {
                        state: Put {
                            stage: PutStage::CreatingBaseDir,
                            path: canonical,
                            deletion_time,
                            base_identifier,
                            number,
                        },
                        action: Action::CreateDirs { path: trash.base_dir().to_owned() },
                    },
                    None => PutStep::Failed { error: PutError::NoFileName },
                },
                Event::Failed => PutStep::Failed { error: PutError::PathNotFound },
                _ => PutStep::Failed { error: PutError::UnexpectedEvent },
            },
            PutStage::CreatingBaseDir => match event {
                Event::Done => PutStep::Perform {
                    state: Put {
                        stage: PutStage::CreatingInfoDir,
                        path,
                        deletion_time,
                        base_identifier,
                        number,
                    },
                    action: Action::CreateDirs { path: trash.info_dir().to_owned() },
                },
                Event::Failed => PutStep::Failed { error: PutError::CannotCreateDir },
                _ => PutStep::Failed { error: PutError::UnexpectedEvent },
            },
            PutStage::CreatingInfoDir => match event {
                Event::Done => PutStep::Perform {
                    state: Put {
                        stage: PutStage::CreatingFilesDir,
                        path,
                        deletion_time,
                        base_identifier,
                        number,
                    },
                    action: Action::CreateDirs { path: trash.files_dir().to_owned() },
                },
                Event::Failed => PutStep::Failed { error: PutError::CannotCreateDir },
                _ => PutStep::Failed { error: PutError::UnexpectedEvent },
            },
            PutStage::CreatingFilesDir => match event {
                Event::Done => {
                    let identifier = candidate(base_identifier.as_str(), number);
                    let record_path = trash.record_path(identifier.as_str());
                    PutStep::Perform {
                        state: Put {
                            stage: PutStage::Allocating,
                            path,
                            deletion_time,
                            base_identifier,
                            number,
                        },
                        action: Action::CreateRecord { path: record_path },
                    }
                },
                Event::Failed => PutStep::Failed { error: PutError::CannotCreateDir },
                _ => PutStep::Failed { error: PutError::UnexpectedEvent },
            },
            PutStage::Allocating => match event {
                // The trashinfo file could be created
                Event::Done => {
                    let identifier = candidate(base_identifier.as_str(), number);
                    let record_path = trash.record_path(identifier.as_str());
                    let contents = TrashInfo::new(path.as_str(), deletion_time).write_to();
                    PutStep::Perform {
                        state: Put {
                            stage: PutStage::Writing,
                            path,
                            deletion_time,
                            base_identifier,
                            number,
                        },
                        action: Action::WriteRecord { path: record_path, contents },
                    }
                },
                // A trashinfo file already exists for the identifier
                Event::AlreadyExists => {
                    if number == u16::MAX {
                        PutStep::Failed { error: PutError::NoIdentifierLeft }
                    } else {
                        let identifier = candidate(base_identifier.as_str(), number + 1);
                        let record_path = trash.record_path(identifier.as_str());
                        PutStep::Perform {
                            state: Put {
                                stage: PutStage::Allocating,
                                path,
                                deletion_time,
                                base_identifier,
                                number: number + 1,
                            },
                            action: Action::CreateRecord { path: record_path },
                        }
                    }
                },
                // Another error occurred
                Event::Failed => PutStep::Failed { error: PutError::CannotCreateRecord },
                _ => PutStep::Failed { error: PutError::UnexpectedEvent },
            },
            PutStage::Writing => match event {
                Event::Done => {
                    let identifier = candidate(base_identifier.as_str(), number);
                    let file_path = trash.payload_path(identifier.as_str());
                    let from = path.clone();
                    PutStep::Perform {
                        state: Put {
                            stage: PutStage::Moving,
                            path,
                            deletion_time,
                            base_identifier,
                            number,
                        },
                        action: Action::Rename { from, to: file_path },
                    }
                },
                Event::Failed => Put::discard(
                    trash,
                    Put { stage, path, deletion_time, base_identifier, number },
                    PutError::CannotWriteRecord,
                ),
                _ => Put::discard(
                    trash,
                    Put { stage, path, deletion_time, base_identifier, number },
                    PutError::UnexpectedEvent,
                ),
            },
            PutStage::Moving => match event {
                Event::Done => PutStep::Done { report: TrashPutReport { path, deletion_time } },
                Event::Failed => Put::discard(
                    trash,
                    Put { stage, path, deletion_time, base_identifier, number },
                    PutError::CannotMove,
                ),
                _ => Put::discard(
                    trash,
                    Put { stage, path, deletion_time, base_identifier, number },
                    PutError::UnexpectedEvent,
                ),
            },
            // Whatever came of the removal, the failure before it is reported
            PutStage::Discarding(error) => PutStep::Failed { error },
        }
    }

    /// Return the step that removes the record that was created, before the
    /// given failure is reported.
    fn discard(trash: &Trash, state: Put, error: PutError) -> (step: PutStep)
        ensures
            step@ == spec_discard(trash@, state@, error),
    {
        let Put { stage: _, path, deletion_time, base_identifier, number } = state;
        let identifier = candidate(base_identifier.as_str(), number);
        let record_path = trash.record_path(identifier.as_str());
        PutStep::Perform {
            state: Put {
                stage: PutStage::Discarding(error),
                path,
                deletion_time,
                base_identifier,
                number,
            },
            action: Action::RemoveFile { path: record_path },
        }
    }
}

} // verus!
