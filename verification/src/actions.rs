//! Filesystem operations and what comes of them.
//!
//! The library touches no file. Where an operation of the trash needs the
//! filesystem, the library names the next thing to do as an [`Action`]; its
//! caller performs it and hands back what came of it as an [`Event`].

use vstd::prelude::*;

verus! {

/// Something for the caller to do on the filesystem.
#[derive(Clone, Debug, PartialEq, Eq)]
pub enum Action {
    /// Resolve the path to an absolute path without symbolic links.
    Canonicalize { path: String },
    /// Create the directory and its missing parents.
    CreateDirs { path: String },
    /// Create the file and fail if it exists already, in one step.
    CreateRecord { path: String },
    /// Write the contents to the file that was just created.
    WriteRecord { path: String, contents: Vec<u8> },
    /// Move the file or directory.
    Rename { from: String, to: String },
    /// Read the file.
    ReadRecord { path: String },
    /// Find out whether anything exists at the path.
    CheckExists { path: String },
    /// Remove the file.
    RemoveFile { path: String },
    /// Remove the file, or the directory with all that it holds.
    RemoveTree { path: String },
    /// List the directory, as empty if it does not exist.
    ListRecords { dir: String },
    /// List the directory.
    ListPayloads { dir: String },
}

/// What an action holds.
pub enum ActionView {
    Canonicalize { path: Seq<char> },
    CreateDirs { path: Seq<char> },
    CreateRecord { path: Seq<char> },
    WriteRecord { path: Seq<char>, contents: Seq<u8> },
    Rename { from: Seq<char>, to: Seq<char> },
    ReadRecord { path: Seq<char> },
    CheckExists { path: Seq<char> },
    RemoveFile { path: Seq<char> },
    RemoveTree { path: Seq<char> },
    ListRecords { dir: Seq<char> },
    ListPayloads { dir: Seq<char> },
}

impl View for Action {
    type V = ActionView;

    open spec fn view(&self) -> ActionView {
        match *self {
            Action::Canonicalize { path } => ActionView::Canonicalize { path: path@ },
            Action::CreateDirs { path } => ActionView::CreateDirs { path: path@ },
            Action::CreateRecord { path } => ActionView::CreateRecord { path: path@ },
            Action::WriteRecord { path, contents } => ActionView::WriteRecord {
                path: path@,
                contents: contents@,
            },
            Action::Rename { from, to } => ActionView::Rename { from: from@, to: to@ },
            Action::ReadRecord { path } => ActionView::ReadRecord { path: path@ },
            Action::CheckExists { path } => ActionView::CheckExists { path: path@ },
            Action::RemoveFile { path } => ActionView::RemoveFile { path: path@ },
            Action::RemoveTree { path } => ActionView::RemoveTree { path: path@ },
            Action::ListRecords { dir } => ActionView::ListRecords { dir: dir@ },
            Action::ListPayloads { dir } => ActionView::ListPayloads { dir: dir@ },
        }
    }
}

impl ActionView {
    /// True of the actions that change the filesystem.
    pub open spec fn mutates(self) -> bool {
        match self {
            ActionView::Canonicalize { .. } => false,
            ActionView::ReadRecord { .. } => false,
            ActionView::CheckExists { .. } => false,
            ActionView::ListRecords { .. } => false,
            ActionView::ListPayloads { .. } => false,
            _ => true,
        }
    }
}

impl Action {
    /// True when the action changes the filesystem.
    pub fn mutates(&self) -> (mutates: bool)
        ensures
            mutates == self@.mutates(),
    {
        match self {
            Action::Canonicalize { .. } => false,
            Action::ReadRecord { .. } => false,
            Action::CheckExists { .. } => false,
            Action::ListRecords { .. } => false,
            Action::ListPayloads { .. } => false,
            _ => true,
        }
    }
}

/// An entry of a directory.
#[derive(Clone, Debug, PartialEq, Eq)]
pub struct DirEntry {
    /// The file name of the entry.
    pub file_name: String,
    /// True when the entry is a regular file, or a symbolic link to one.
    pub is_file: bool,
}

/// What a directory entry holds.
pub struct DirEntryView {
    pub file_name: Seq<char>,
    pub is_file: bool,
}

impl View for DirEntry {
    type V = DirEntryView;

    open spec fn view(&self) -> DirEntryView {
        DirEntryView { file_name: self.file_name@, is_file: self.is_file }
    }
}

/// The directory entries as values.
pub open spec fn dir_entries(entries: Seq<DirEntry>) -> Seq<DirEntryView> {
    Seq::new(entries.len(), |i: int| entries[i]@)
}

/// What came of an action.
#[derive(Clone, Debug, PartialEq, Eq)]
pub enum Event {
    /// The action was performed.
    Done,
    /// The file could not be created because it exists already.
    AlreadyExists,
    /// The action failed.
    Failed,
    /// The path was resolved.
    Canonicalized { path: String },
    /// The file was read.
    Contents { bytes: Vec<u8> },
    /// It is known whether anything exists at the path.
    Exists { exists: bool },
    /// The directory was listed.
    Listed { entries: Vec<DirEntry> },
}

/// What an event holds.
pub enum EventView {
    Done,
    AlreadyExists,
    Failed,
    Canonicalized { path: Seq<char> },
    Contents { bytes: Seq<u8> },
    Exists { exists: bool },
    Listed { entries: Seq<DirEntryView> },
}

impl View for Event {
    type V = EventView;

    open spec fn view(&self) -> EventView {
        match *self {
            Event::Done => EventView::Done,
            Event::AlreadyExists => EventView::AlreadyExists,
            Event::Failed => EventView::Failed,
            Event::Canonicalized { path } => EventView::Canonicalized { path: path@ },
            Event::Contents { bytes } => EventView::Contents { bytes: bytes@ },
            Event::Exists { exists } => EventView::Exists { exists },
            Event::Listed { entries } => EventView::Listed { entries: dir_entries(entries@) },
        }
    }
}

} // verus!
