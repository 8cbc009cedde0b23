//! Emptying the trash.
//!
//! The steps, in order: remove every metadata record of the info directory;
//! remove every payload of the files directory, with all that it holds;
//! remove the `directorysizes` file. The first failure ends the operation,
//! and what was removed before it stays removed.

use vstd::prelude::*;
use vstd::string::*;

use crate::actions::{dir_entries, Action, ActionView, DirEntry, DirEntryView, Event, EventView};
use crate::paths::{join, joined_path};
use crate::text::texts;
use crate::trash::{spec_is_trashinfo_file, Trash, TrashEmptyReport, TrashView};

verus! {

/// How far the emptying of the trash has come: what the caller is doing.
#[derive(Clone, Copy, Debug, PartialEq, Eq, Structural)]
pub enum EmptyStage {
    ListingRecords,
    RemovingRecords,
    ListingPayloads,
    RemovingPayloads,
    RemovingDirectorySizes,
}

/// Why the trash was not emptied, or not wholly.
#[derive(Clone, Copy, Debug, PartialEq, Eq, Structural)]
pub enum EmptyError {
    /// The info directory exists and could not be listed.
    CannotListRecords,
    /// A metadata record could not be removed.
    CannotRemoveRecord,
    /// The files directory could not be listed.
    CannotListPayloads,
    /// A payload could not be removed.
    CannotRemovePayload,
    /// The `directorysizes` file could not be removed.
    CannotRemoveDirectorySizes,
    /// The event is none that the action before it can give.
    UnexpectedEvent,
}

/// What the emptying of the trash in progress holds.
pub struct EmptyView {
    pub stage: EmptyStage,
    /// The file names to remove at this stage, in order.
    pub pending: Seq<Seq<char>>,
    /// How many of them were removed; once the payloads are gone, their number.
    pub removed: usize,
}

/// The emptying of the trash in progress.
#[derive(Debug)]
pub struct Empty {
    stage: EmptyStage,
    pending: Vec<String>,
    removed: usize,
}

impl View for Empty {
    type V = EmptyView;

    closed spec fn view(&self) -> EmptyView {
        EmptyView { stage: self.stage, pending: texts(self.pending@), removed: self.removed }
    }
}

/// What comes next in the emptying of the trash.
#[derive(Debug)]
pub enum EmptyStep {
    /// The caller performs the action and resumes the state with the event.
    Perform { state: Empty, action: Action },
    /// The trash is empty.
    Done { report: TrashEmptyReport },
    /// The trash was not emptied, or not wholly.
    Failed { error: EmptyError },
}

/// What a step in the emptying of the trash holds.
pub enum EmptyStepView {
    Perform { state: EmptyView, action: ActionView },
    Done { report: TrashEmptyReport },
    Failed { error: EmptyError },
}

impl View for EmptyStep {
    type V = EmptyStepView;

    open spec fn view(&self) -> EmptyStepView {
        match *self {
            EmptyStep::Perform { state, action } => EmptyStepView::Perform {
                state: state@,
                action: action@,
            },
            EmptyStep::Done { report } => EmptyStepView::Done { report },
            EmptyStep::Failed { error } => EmptyStepView::Failed { error },
        }
    }
}

/// The file names of the metadata records among the entries of a directory,
/// in their order.
pub open spec fn record_names(entries: Seq<DirEntryView>) -> Seq<Seq<char>>
    decreases entries.len(),
{
    if entries.len() == 0 {
        Seq::empty()
    } else if spec_is_trashinfo_file(entries.last()) {
        record_names(entries.drop_last()).push(entries.last().file_name)
    } else {
        record_names(entries.drop_last())
    }
}

/// The file names of the entries of a directory, in their order.
pub open spec fn entry_names(entries: Seq<DirEntryView>) -> Seq<Seq<char>> {
    Seq::new(entries.len(), |i: int| entries[i].file_name)
}

/// The first step in the emptying of the trash: to list the info directory.
pub open spec fn spec_empty(trash: TrashView) -> EmptyStepView {
    EmptyStepView::Perform {
        state: EmptyView { stage: EmptyStage::ListingRecords, pending: Seq::empty(), removed: 0 },
        action: ActionView::ListRecords { dir: trash.info_dir },
    }
}

/// The step that removes the next metadata record, or lists the files
/// directory once none is left.
pub open spec fn spec_next_record(
    trash: TrashView,
    pending: Seq<Seq<char>>,
    removed: usize,
) -> EmptyStepView {
    if removed < pending.len() {
        EmptyStepView::Perform {
            state: EmptyView { stage: EmptyStage::RemovingRecords, pending, removed },
            action: ActionView::RemoveFile {
                path: joined_path(trash.info_dir, pending[removed as int]),
            },
        }
    } else {
        EmptyStepView::Perform {
            state: EmptyView {
                stage: EmptyStage::ListingPayloads,
                pending: Seq::empty(),
                removed: 0,
            },
            action: ActionView::ListPayloads { dir: trash.files_dir },
        }
    }
}

/// The step that removes the next payload, or the `directorysizes` file once
/// none is left.
pub open spec fn spec_next_payload(
    trash: TrashView,
    pending: Seq<Seq<char>>,
    removed: usize,
) -> EmptyStepView {
    if removed < pending.len() {
        EmptyStepView::Perform {
            state: EmptyView { stage: EmptyStage::RemovingPayloads, pending, removed },
            action: ActionView::RemoveTree {
                path: joined_path(trash.files_dir, pending[removed as int]),
            },
        }
    } else {
        EmptyStepView::Perform {
            state: EmptyView { stage: EmptyStage::RemovingDirectorySizes, pending, removed },
            action: ActionView::RemoveFile { path: trash.directorysizes_file },
        }
    }
}

/// The step that follows an event.
pub open spec fn spec_resume(trash: TrashView, state: EmptyView, event: EventView) -> EmptyStepView {
    match state.stage {
        EmptyStage::ListingRecords => match event {
            EventView::Listed { entries } => spec_next_record(trash, record_names(entries), 0),
            EventView::Failed => EmptyStepView::Failed { error: EmptyError::CannotListRecords },
            _ => EmptyStepView::Failed { error: EmptyError::UnexpectedEvent },
        },
        // Remove trashinfo files
        EmptyStage::RemovingRecords => match event {
            EventView::Done => if state.removed < state.pending.len() {
                spec_next_record(trash, state.pending, (state.removed + 1) as usize)
            } else {
                EmptyStepView::Failed { error: EmptyError::UnexpectedEvent }
            },
            EventView::Failed => EmptyStepView::Failed { error: EmptyError::CannotRemoveRecord },
            _ => EmptyStepView::Failed { error: EmptyError::UnexpectedEvent },
        },
        EmptyStage::ListingPayloads => match event {
            EventView::Listed { entries } => spec_next_payload(trash, entry_names(entries), 0),
            EventView::Failed => EmptyStepView::Failed { error: EmptyError::CannotListPayloads },
            _ => EmptyStepView::Failed { error: EmptyError::UnexpectedEvent },
        },
        // Remove trash files
        EmptyStage::RemovingPayloads => match event {
            EventView::Done => if state.removed < state.pending.len() {
                spec_next_payload(trash, state.pending, (state.removed + 1) as usize)
            } else {
                EmptyStepView::Failed { error: EmptyError::UnexpectedEvent }
            },
            EventView::Failed => EmptyStepView::Failed { error: EmptyError::CannotRemovePayload },
            _ => EmptyStepView::Failed { error: EmptyError::UnexpectedEvent },
        },
        // Remove dir sizes file
        EmptyStage::RemovingDirectorySizes => match event {
            EventView::Done => EmptyStepView::Done {
                report: TrashEmptyReport { entry_count: state.removed, size: 0 },
            },
            EventView::Failed => EmptyStepView::Failed {
                error: EmptyError::CannotRemoveDirectorySizes,
            },
            _ => EmptyStepView::Failed { error: EmptyError::UnexpectedEvent },
        },
    }
}

/// The step that is reached when a number of actions in a row went through.
pub open spec fn spec_after(trash: TrashView, step: EmptyStepView, count: nat) -> EmptyStepView
    decreases count,
{
    if count == 0 {
        step
    } else {
        match step {
            EmptyStepView::Perform { state, .. } => spec_after(
                trash,
                spec_resume(trash, state, EventView::Done),
                (count - 1) as nat,
            ),
            _ => step,
        }
    }
}

/// Once the metadata records are listed and every removal goes through, each
/// record is removed in turn, and then the files directory is listed.
pub proof fn lemma_empty_removes_records(trash: TrashView, pending: Seq<Seq<char>>, removed: usize)
    requires
        removed <= pending.len() <= usize::MAX,
    ensures
        removed < pending.len() ==> spec_next_record(trash, pending, removed)
            == (EmptyStepView::Perform {
            state: EmptyView { stage: EmptyStage::RemovingRecords, pending, removed },
            action: ActionView::RemoveFile {
                path: joined_path(trash.info_dir, pending[removed as int]),
            },
        }),
        spec_after(
            trash,
            spec_next_record(trash, pending, removed),
            (pending.len() - removed) as nat,
        ) == (EmptyStepView::Perform {
            state: EmptyView {
                stage: EmptyStage::ListingPayloads,
                pending: Seq::empty(),
                removed: 0,
            },
            action: ActionView::ListPayloads { dir: trash.files_dir },
        }),
    decreases pending.len() - removed,
{
    if removed < pending.len() {
        lemma_empty_removes_records(trash, pending, (removed + 1) as usize);
    }
}

/// Once the payloads are listed and every removal goes through, each payload
/// is removed in turn, then the `directorysizes` file is removed, and the
/// report counts the payloads.
pub proof fn lemma_empty_removes_payloads(trash: TrashView, pending: Seq<Seq<char>>, removed: usize)
    requires
        removed <= pending.len() <= usize::MAX,
    ensures
        removed < pending.len() ==> spec_next_payload(trash, pending, removed)
            == (EmptyStepView::Perform {
            state: EmptyView { stage: EmptyStage::RemovingPayloads, pending, removed },
            action: ActionView::RemoveTree {
                path: joined_path(trash.files_dir, pending[removed as int]),
            },
        }),
        spec_after(
            trash,
            spec_next_payload(trash, pending, removed),
            (pending.len() - removed) as nat,
        ) == (EmptyStepView::Perform {
            state: EmptyView {
                stage: EmptyStage::RemovingDirectorySizes,
                pending,
                removed: pending.len() as usize,
            },
            action: ActionView::RemoveFile { path: trash.directorysizes_file },
        }),
        spec_after(
            trash,
            spec_next_payload(trash, pending, removed),
            (pending.len() - removed + 1) as nat,
        ) == (EmptyStepView::Done {
            report: TrashEmptyReport { entry_count: pending.len() as usize, size: 0 },
        }),
    decreases pending.len() - removed,
{
    if removed < pending.len() {
        lemma_empty_removes_payloads(trash, pending, (removed + 1) as usize);
    } else {
        let last = spec_next_payload(trash, pending, removed);
        assert(spec_after(trash, last, 1) == spec_after(
            trash,
            spec_resume(trash, last->Perform_state, EventView::Done),
            0,
        ));
    }
}

/// Return the step that removes the next metadata record, or lists the files
/// directory once none is left.
fn next_record(trash: &Trash, pending: Vec<String>, removed: usize) -> (step: EmptyStep)
    ensures
        step@ == spec_next_record(trash@, texts(pending@), removed),
{
    if removed < pending.len() {
        let trashinfo_path = join(trash.info_dir(), pending[removed].as_str());
        EmptyStep::Perform {
            state: Empty { stage: EmptyStage::RemovingRecords, pending, removed },
            action: Action::RemoveFile { path: trashinfo_path },
        }
    } else {
        let state = Empty { stage: EmptyStage::ListingPayloads, pending: Vec::new(), removed: 0 };
        assert(state@.pending =~= Seq::<Seq<char>>::empty());
        EmptyStep::Perform {
            state,
            action: Action::ListPayloads { dir: trash.files_dir().to_owned() },
        }
    }
}

/// Return the step that removes the next payload, or the `directorysizes`
/// file once none is left.
fn next_payload(trash: &Trash, pending: Vec<String>, removed: usize) -> (step: EmptyStep)
    ensures
        step@ == spec_next_payload(trash@, texts(pending@), removed),
{
    if removed < pending.len() {
        let file_path = join(trash.files_dir(), pending[removed].as_str());
        EmptyStep::Perform {
            state: Empty { stage: EmptyStage::RemovingPayloads, pending, removed },
            action: Action::RemoveTree { path: file_path },
        }
    } else {
        EmptyStep::Perform {
            state: Empty { stage: EmptyStage::RemovingDirectorySizes, pending, removed },
            action: Action::RemoveFile { path: trash.directorysizes_file().to_owned() },
        }
    }
}

/// Return the file names of the metadata records among the entries of a
/// directory.
fn trashinfo_names(entries: &Vec<DirEntry>) -> (names: Vec<String>)
    ensures
        texts(names@) == record_names(dir_entries(entries@)),
{
    let mut names: Vec<String> = Vec::new();
    let mut i: usize = 0;
    assert(dir_entries(entries@).take(0) =~= Seq::<DirEntryView>::empty());
    assert(texts(names@) =~= Seq::<Seq<char>>::empty());
    while i < entries.len()
        invariant
            i <= entries@.len(),
            texts(names@) == record_names(dir_entries(entries@).take(i as int)),
        decreases entries@.len() - i,
    {
        let ghost prefix = dir_entries(entries@).take(i + 1);
        assert(prefix.drop_last() =~= dir_entries(entries@).take(i as int));
        assert(prefix.last() == entries@[i as int]@);
        if Trash::is_trashinfo_file(&entries[i]) {
            let ghost before = texts(names@);
            names.push(entries[i].file_name.clone());
            assert(texts(names@) =~= before.push(entries@[i as int]@.file_name));
        }
        i += 1;
    }
    assert(dir_entries(entries@).take(entries@.len() as int) =~= dir_entries(entries@));
    names
}

/// Return the file names of the entries of a directory.
fn all_names(entries: &Vec<DirEntry>) -> (names: Vec<String>)
    ensures
        texts(names@) == entry_names(dir_entries(entries@)),
{
    let mut names: Vec<String> = Vec::new();
    let mut i: usize = 0;
    while i < entries.len()
        invariant
            i <= entries@.len(),
            names@.len() == i,
            forall|j: int| 0 <= j < i ==> (#[trigger] names@[j])@ == entries@[j]@.file_name,
        decreases entries@.len() - i,
    {
        names.push(entries[i].file_name.clone());
        i += 1;
    }
    assert(texts(names@) =~= entry_names(dir_entries(entries@)));
    names
}

impl Trash {
    /// Start to empty the trash.
    pub fn empty(&self) -> (step: EmptyStep)
        ensures
            step@ == spec_empty(self@),
    {
        let state = Empty { stage: EmptyStage::ListingRecords, pending: Vec::new(), removed: 0 };
        assert(state@.pending =~= Seq::<Seq<char>>::empty());
        EmptyStep::Perform { state, action: Action::ListRecords { dir: self.info_dir().to_owned() } }
    }
}

impl Empty {
    /// Return the next step, given what came of the action of the last one.
    pub fn resume(self, trash: &Trash, event: Event) -> (step: EmptyStep)
        ensures
            step@ == spec_resume(trash@, self@, event@),
    {
        let Empty { stage, pending, removed } = self;
        match stage {
            EmptyStage::ListingRecords => match event {
                Event::Listed { entries } => next_record(trash, trashinfo_names(&entries), 0),
                Event::Failed => EmptyStep::Failed { error: EmptyError::CannotListRecords },
                _ => EmptyStep::Failed { error: EmptyError::UnexpectedEvent },
            },
            // Remove trashinfo files
            EmptyStage::RemovingRecords => match event {
                Event::Done => if removed < pending.len() {
                    next_record(trash, pending, removed + 1)
                } else {
                    EmptyStep::Failed { error: EmptyError::UnexpectedEvent }
                },
                Event::Failed => EmptyStep::Failed { error: EmptyError::CannotRemoveRecord },
                _ => EmptyStep::Failed { error: EmptyError::UnexpectedEvent },
            },
            EmptyStage::ListingPayloads => match event {
                Event::Listed { entries } => next_payload(trash, all_names(&entries), 0),
                Event::Failed => EmptyStep::Failed { error: EmptyError::CannotListPayloads },
                _ => EmptyStep::Failed { error: EmptyError::UnexpectedEvent },
            },
            // Remove trash files
            EmptyStage::RemovingPayloads => match event {
                Event::Done => if removed < pending.len() {
                    next_payload(trash, pending, removed + 1)
                } else {
                    EmptyStep::Failed { error: EmptyError::UnexpectedEvent }
                },
                Event::Failed => EmptyStep::Failed { error: EmptyError::CannotRemovePayload },
                _ => EmptyStep::Failed { error: EmptyError::UnexpectedEvent },
            },
            // Remove dir sizes file
            EmptyStage::RemovingDirectorySizes => match event {
                Event::Done => EmptyStep::Done {
                    // NOTE: The size is not computed
                    report: TrashEmptyReport { entry_count: removed, size: 0 },
                },
                Event::Failed => EmptyStep::Failed {
                    error: EmptyError::CannotRemoveDirectorySizes,
                },
                _ => EmptyStep::Failed { error: EmptyError::UnexpectedEvent },
            },
        }
    }
}

} // verus!
