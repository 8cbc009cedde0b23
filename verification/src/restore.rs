//! Restoring an item from the trash.
//!
//! The steps, in order: read the metadata record; make sure that nothing
//! exists at the original path; make sure that the payload exists; move the
//! payload to the original path; remove the record. Nothing is changed before
//! both checks have passed, and the record is removed only once the payload
//! is back in place.

use vstd::prelude::*;
use vstd::string::*;

use crate::actions::{Action, ActionView, Event, EventView};
use crate::info;
use crate::info::{MalformedRecord, TrashInfo, TrashInfoView};
use crate::trash::{ReportView, Trash, TrashRestoreReport, TrashView};

verus! {

/// How far the restoring of an item has come: what the caller is doing.
#[derive(Clone, Copy, Debug, PartialEq, Eq, Structural)]
pub enum RestoreStage {
    Reading,
    CheckingOriginalPath,
    CheckingPayload,
    Moving,
    Removing,
}

/// Why an item was not restored.
#[derive(Clone, Copy, Debug, PartialEq, Eq, Structural)]
pub enum RestoreError {
    /// The metadata record could not be read.
    CannotReadRecord,
    /// The metadata record is malformed.
    Malformed(MalformedRecord),
    /// Something exists at the original path already.
    OriginalPathExists,
    /// The payload is missing.
    PayloadNotFound,
    /// The payload could not be moved to the original path.
    CannotMove,
    /// The metadata record could not be removed.
    CannotRemoveRecord,
    /// The event is none that the action before it can give.
    UnexpectedEvent,
}

/// What the restoring of an item in progress holds.
pub struct RestoreView {
    pub stage: RestoreStage,
    pub identifier: Seq<char>,
    /// The metadata record, once it was read.
    pub info: Option<TrashInfoView>,
}

/// The restoring of an item in progress.
#[derive(Debug)]
pub struct Restore {
    stage: RestoreStage,
    identifier: String,
    info: Option<TrashInfo>,
}

impl View for Restore {
    type V = RestoreView;

    closed spec fn view(&self) -> RestoreView {
        RestoreView {
            stage: self.stage,
            identifier: self.identifier@,
            info: match self.info {
                Some(info) => Some(info@),
                None => None,
            },
        }
    }
}

/// What comes next in the restoring of an item.
#[derive(Debug)]
pub enum RestoreStep {
    /// The caller performs the action and resumes the state with the event.
    Perform { state: Restore, action: Action },
    /// The item is back at its original path.
    Done { report: TrashRestoreReport },
    /// The item was not restored.
    Failed { error: RestoreError },
}

/// What a step in the restoring of an item holds.
pub enum RestoreStepView {
    Perform { state: RestoreView, action: ActionView },
    Done { report: ReportView },
    Failed { error: RestoreError },
}

impl View for RestoreStep {
    type V = RestoreStepView;

    open spec fn view(&self) -> RestoreStepView {
        match *self {
            RestoreStep::Perform { state, action } => RestoreStepView::Perform {
                state: state@,
                action: action@,
            },
            RestoreStep::Done { report } => RestoreStepView::Done { report: report@ },
            RestoreStep::Failed { error } => RestoreStepView::Failed { error },
        }
    }
}

/// The first step in the restoring of an item: to read its metadata record.
pub open spec fn spec_restore(trash: TrashView, identifier: Seq<char>) -> RestoreStepView {
    RestoreStepView::Perform {
        state: RestoreView { stage: RestoreStage::Reading, identifier, info: None },
        action: ActionView::ReadRecord { path: trash.record_path(identifier) },
    }
}

/// The step that follows an event, once the metadata record was read.
pub open spec fn spec_resume_with(
    trash: TrashView,
    state: RestoreView,
    info: TrashInfoView,
    event: EventView,
) -> RestoreStepView {
    match state.stage {
        RestoreStage::Reading => RestoreStepView::Failed { error: RestoreError::UnexpectedEvent },
        // Check if original path is available
        RestoreStage::CheckingOriginalPath => match event {
            EventView::Exists { exists } => if exists {
                RestoreStepView::Failed { error: RestoreError::OriginalPathExists }
            } else {
                RestoreStepView::Perform {
                    state: RestoreView { stage: RestoreStage::CheckingPayload, ..state },
                    action: ActionView::CheckExists {
                        path: trash.payload_path(state.identifier),
                    },
                }
            },
            _ => RestoreStepView::Failed { error: RestoreError::UnexpectedEvent },
        },
        // Determine trash file
        RestoreStage::CheckingPayload => match event {
            EventView::Exists { exists } => if !exists {
                RestoreStepView::Failed { error: RestoreError::PayloadNotFound }
            } else {
                RestoreStepView::Perform {
                    state: RestoreView { stage: RestoreStage::Moving, ..state },
                    action: ActionView::Rename {
                        from: trash.payload_path(state.identifier),
                        to: info.path,
                    },
                }
            },
            _ => RestoreStepView::Failed { error: RestoreError::UnexpectedEvent },
        },
        // Move trash file to original path
        RestoreStage::Moving => match event {
            EventView::Done => RestoreStepView::Perform {
                state: RestoreView { stage: RestoreStage::Removing, ..state },
                action: ActionView::RemoveFile { path: trash.record_path(state.identifier) },
            },
            EventView::Failed => RestoreStepView::Failed { error: RestoreError::CannotMove },
            _ => RestoreStepView::Failed { error: RestoreError::UnexpectedEvent },
        },
        // Remove trashinfo file
        RestoreStage::Removing => match event {
            EventView::Done => RestoreStepView::Done {
                report: ReportView { path: info.path, deletion_time: info.deletion_time },
            },
            EventView::Failed => RestoreStepView::Failed {
                error: RestoreError::CannotRemoveRecord,
            },
            _ => RestoreStepView::Failed { error: RestoreError::UnexpectedEvent },
        },
    }
}

/// The step that follows an event.
pub open spec fn spec_resume(
    trash: TrashView,
    state: RestoreView,
    event: EventView,
) -> RestoreStepView {
    match state.info {
        None => match state.stage {
            // Read trashinfo
            RestoreStage::Reading => match event {
                EventView::Contents { bytes } => match info::spec_read_from(bytes) {
                    Ok(info) => RestoreStepView::Perform {
                        state: RestoreView {
                            stage: RestoreStage::CheckingOriginalPath,
                            info: Some(info),
                            ..state
                        },
                        action: ActionView::CheckExists { path: info.path },
                    },
                    Err(error) => RestoreStepView::Failed {
                        error: RestoreError::Malformed(error),
                    },
                },
                EventView::Failed => RestoreStepView::Failed {
                    error: RestoreError::CannotReadRecord,
                },
                _ => RestoreStepView::Failed { error: RestoreError::UnexpectedEvent },
            },
            _ => RestoreStepView::Failed { error: RestoreError::UnexpectedEvent },
        },
        Some(info) => spec_resume_with(trash, state, info, event),
    }
}

/// Restoring fails, and has changed nothing, when something exists at the
/// original path: the actions up to the check change nothing, and the check
/// ends the operation.
pub proof fn lemma_restore_existing_path(
    trash: TrashView,
    identifier: Seq<char>,
    bytes: Seq<u8>,
)
    requires
        info::spec_read_from(bytes) is Ok,
    ensures
        ({
            let info = info::spec_read_from(bytes).unwrap();
            let reading = RestoreView { stage: RestoreStage::Reading, identifier, info: None };
            let checking = RestoreView {
                stage: RestoreStage::CheckingOriginalPath,
                info: Some(info),
                ..reading
            };
            let read = ActionView::ReadRecord { path: trash.record_path(identifier) };
            let check = ActionView::CheckExists { path: info.path };
            &&& spec_restore(trash, identifier) == (RestoreStepView::Perform {
                state: reading,
                action: read,
            })
            &&& !read.mutates()
            &&& spec_resume(trash, reading, EventView::Contents { bytes })
                == (RestoreStepView::Perform { state: checking, action: check })
            &&& !check.mutates()
            &&& spec_resume(trash, checking, EventView::Exists { exists: true })
                == (RestoreStepView::Failed { error: RestoreError::OriginalPathExists })
        }),
{
}

/// Restoring succeeds when nothing exists at the original path, the payload
/// exists and the two changes go through: the payload is moved to the
/// original path that the record holds, then the record is removed.
pub proof fn lemma_restore_free_path(trash: TrashView, identifier: Seq<char>, bytes: Seq<u8>)
    requires
        info::spec_read_from(bytes) is Ok,
    ensures
        ({
            let info = info::spec_read_from(bytes).unwrap();
            let reading = RestoreView { stage: RestoreStage::Reading, identifier, info: None };
            let checking = RestoreView {
                stage: RestoreStage::CheckingOriginalPath,
                info: Some(info),
                ..reading
            };
            let looking = RestoreView { stage: RestoreStage::CheckingPayload, ..checking };
            let moving = RestoreView { stage: RestoreStage::Moving, ..checking };
            let removing = RestoreView { stage: RestoreStage::Removing, ..checking };
            &&& spec_resume(trash, reading, EventView::Contents { bytes })
                == (RestoreStepView::Perform {
                state: checking,
                action: ActionView::CheckExists { path: info.path },
            })
            &&& spec_resume(trash, checking, EventView::Exists { exists: false })
                == (RestoreStepView::Perform {
                state: looking,
                action: ActionView::CheckExists { path: trash.payload_path(identifier) },
            })
            &&& spec_resume(trash, looking, EventView::Exists { exists: true })
                == (RestoreStepView::Perform {
                state: moving,
                action: ActionView::Rename {
                    from: trash.payload_path(identifier),
                    to: info.path,
                },
            })
            &&& spec_resume(trash, moving, EventView::Done) == (RestoreStepView::Perform {
                state: removing,
                action: ActionView::RemoveFile { path: trash.record_path(identifier) },
            })
            &&& spec_resume(trash, removing, EventView::Done) == (RestoreStepView::Done {
                report: ReportView { path: info.path, deletion_time: info.deletion_time },
            })
        }),
{
}

impl Trash {
    /// Start to restore the item of the given identifier.
    pub fn restore(&self, identifier: &str) -> (step: RestoreStep)
        ensures
            step@ == spec_restore(self@, identifier@),
    {
        RestoreStep::Perform {
            state: Restore {
                stage: RestoreStage::Reading,
                identifier: identifier.to_owned(),
                info: None,
            },
            action: Action::ReadRecord { path: self.record_path(identifier) },
        }
    }
}

impl Restore {
    /// Return the next step, given what came of the action of the last one.
    pub fn resume(self, trash: &Trash, event: Event) -> (step: RestoreStep)
        ensures
            step@ == spec_resume(trash@, self@, event@),
    {
        let Restore { stage, identifier, info } = self;
        let trashinfo = match info {
            Some(trashinfo) => trashinfo,
            None => {
                return match stage {
                    // Read trashinfo
                    RestoreStage::Reading => match event {
                        Event::Contents { bytes } => match TrashInfo::read_from(bytes.as_slice()) {
                            Ok(trashinfo) => {
                                let original_path = trashinfo.path().to_owned();
                                RestoreStep::Perform {
                                    state: Restore {
                                        stage: RestoreStage::CheckingOriginalPath,
                                        identifier,
                                        info: Some(trashinfo),
                                    },
                                    action: Action::CheckExists { path: original_path },
                                }
                            },
                            Err(error) => RestoreStep::Failed {
                                error: RestoreError::Malformed(error),
                            },
                        },
                        Event::Failed => RestoreStep::Failed {
                            error: RestoreError::CannotReadRecord,
                        },
                        _ => RestoreStep::Failed { error: RestoreError::UnexpectedEvent },
                    },
                    _ => RestoreStep::Failed { error: RestoreError::UnexpectedEvent },
                };
            },
        };
        match stage {
            RestoreStage::Reading => RestoreStep::Failed { error: RestoreError::UnexpectedEvent },
            // Check if original path is available
            RestoreStage::CheckingOriginalPath => match event {
                Event::Exists { exists } => if exists {
                    RestoreStep::Failed { error: RestoreError::OriginalPathExists }
                } else {
                    let file_path = trash.payload_path(identifier.as_str());
                    RestoreStep::Perform {
                        state: Restore {
                            stage: RestoreStage::CheckingPayload,
                            identifier,
                            info: Some(trashinfo),
                        },
                        action: Action::CheckExists { path: file_path },
                    }
                },
                _ => RestoreStep::Failed { error: RestoreError::UnexpectedEvent },
            },
            // Determine trash file
            RestoreStage::CheckingPayload => match event {
                Event::Exists { exists } => if !exists {
                    RestoreStep::Failed { error: RestoreError::PayloadNotFound }
                } else {
                    let file_path = trash.payload_path(identifier.as_str());
                    let original_path = trashinfo.path().to_owned();
                    RestoreStep::Perform {
                        state: Restore {
                            stage: RestoreStage::Moving,
                            identifier,
                            info: Some(trashinfo),
                        },
                        action: Action::Rename { from: file_path, to: original_path },
                    }
                },
                _ => RestoreStep::Failed { error: RestoreError::UnexpectedEvent },
            },
            // Move trash file to original path
            RestoreStage::Moving => match event {
                Event::Done => {
                    let trashinfo_path = trash.record_path(identifier.as_str());
                    RestoreStep::Perform {
                        state: Restore {
                            stage: RestoreStage::Removing,
                            identifier,
                            info: Some(trashinfo),
                        },
                        action: Action::RemoveFile { path: trashinfo_path },
                    }
                },
                Event::Failed => RestoreStep::Failed { error: RestoreError::CannotMove },
                _ => RestoreStep::Failed { error: RestoreError::UnexpectedEvent },
            },
            // Remove trashinfo file
            RestoreStage::Removing => match event {
                Event::Done => RestoreStep::Done {
                    report: TrashRestoreReport {
                        path: trashinfo.path().to_owned(),
                        deletion_time: *trashinfo.deletion_time(),
                    },
                },
                Event::Failed => RestoreStep::Failed { error: RestoreError::CannotRemoveRecord },
                _ => RestoreStep::Failed { error: RestoreError::UnexpectedEvent },
            },
        }
    }
}

} // verus!
