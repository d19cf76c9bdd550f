//! The steps of every operation on the log, free of file handling.
//!
//! An operation never touches a file. It says what is to be asked of the
//! storage layer next and waits for the answer: a `Progress` value holds the
//! request together with the state that takes the answer. Whoever holds the
//! files carries the request out and hands the answer to `resume`, until the
//! operation is `Done`.

use vstd::prelude::*;
use crate::entry::{RecoveryResult, RecoveryResultView, WalEntry, WalEntryView, WalStatus};
use crate::error::{WalError, WalErrorView};

verus! {

/// The largest number of entries with which a vault's directory still counts
/// as not yet filled: it is empty, or holds the one file that creation puts
/// there first.
pub const SPARSE_DIR_LIMIT: usize = 1;

/// What a look at a directory found.
#[derive(Clone, Copy, Debug, PartialEq, Eq, Structural)]
pub enum DirListing {
    /// Nothing exists at the path.
    Missing,
    /// Something exists at the path, but its entries cannot be listed.
    Unreadable,
    /// A directory with this many entries.
    Entries(usize),
}

impl DirListing {
    /// The directory exists and holds no more than `SPARSE_DIR_LIMIT` entries.
    pub open spec fn sparse(self) -> bool {
        self matches DirListing::Entries(count) && count <= SPARSE_DIR_LIMIT
    }

    /// Whether the directory exists and holds no more than `SPARSE_DIR_LIMIT` entries.
    pub fn is_sparse(&self) -> (b: bool)
        ensures
            b == self.sparse(),
    {
        match self {
            DirListing::Entries(count) => *count <= SPARSE_DIR_LIMIT,
            _ => false,
        }
    }
}

/// What is to be changed in the entry that the log holds.
#[derive(Debug, PartialEq, Eq)]
pub enum Change {
    /// The status is replaced.
    Status(WalStatus),
    /// The entry is marked as rolled back, for this reason.
    Failed(String),
}

/// A `Change` as a mathematical value.
pub enum ChangeView {
    Status(WalStatus),
    Failed(Seq<char>),
}

impl View for Change {
    type V = ChangeView;

    open spec fn view(&self) -> ChangeView {
        match self {
            Change::Status(status) => ChangeView::Status(*status),
            Change::Failed(reason) => ChangeView::Failed(reason@),
        }
    }
}

impl ChangeView {
    /// The entry after the change.
    pub open spec fn apply(self, entry: WalEntryView) -> WalEntryView {
        match self {
            ChangeView::Status(status) => entry.with_status(status),
            ChangeView::Failed(reason) => entry.failed(reason),
        }
    }
}

impl Change {
    /// Makes the change to an entry.
    pub fn apply(self, entry: WalEntry) -> (changed: WalEntry)
        ensures
            changed@ == self@.apply(entry@),
    {
        match self {
            Change::Status(status) => entry.with_status(status),
            Change::Failed(reason) => entry.failed(reason),
        }
    }
}

/// What follows once a change to the log, or its removal, is through.
#[derive(Debug, PartialEq, Eq)]
pub enum After {
    /// Nothing: the operation is done.
    Finish,
    /// The log's file is removed, and then the result of recovery is reported.
    Commit(RecoveryResult),
    /// The result of recovery is reported.
    Report(RecoveryResult),
}

/// An `After` as a mathematical value.
pub enum AfterView {
    Finish,
    Commit(RecoveryResultView),
    Report(RecoveryResultView),
}

impl View for After {
    type V = AfterView;

    open spec fn view(&self) -> AfterView {
        match self {
            After::Finish => AfterView::Finish,
            After::Commit(result) => AfterView::Commit(result@),
            After::Report(result) => AfterView::Report(result@),
        }
    }
}

/// How an operation ended.
#[derive(Debug, PartialEq, Eq)]
pub enum Outcome {
    /// A transaction began; this is its identifier.
    Started(String),
    /// The log was changed or removed, or there was nothing to change or remove.
    Finished,
    /// Whether the log holds a transaction.
    Active(bool),
    /// The entry that the log holds, if it holds one.
    Current(Option<WalEntry>),
    /// What recovery found and did.
    Recovered(RecoveryResult),
    /// The operation failed.
    Failed(WalError),
}

/// An `Outcome` as a mathematical value.
pub enum OutcomeView {
    Started(Seq<char>),
    Finished,
    Active(bool),
    Current(Option<WalEntryView>),
    Recovered(RecoveryResultView),
    Failed(WalErrorView),
}

impl View for Outcome {
    type V = OutcomeView;

    open spec fn view(&self) -> OutcomeView {
        match self {
            Outcome::Started(id) => OutcomeView::Started(id@),
            Outcome::Finished => OutcomeView::Finished,
            Outcome::Active(present) => OutcomeView::Active(*present),
            Outcome::Current(entry) => OutcomeView::Current(
                match entry {
                    Some(entry) => Some(entry@),
                    None => None,
                },
            ),
            Outcome::Recovered(result) => OutcomeView::Recovered(result@),
            Outcome::Failed(error) => OutcomeView::Failed(error@),
        }
    }
}

} // verus!

verus! {

/// A state that waits to learn whether the log's file exists.
#[derive(Debug, PartialEq, Eq)]
pub enum AwaitPresence {
    /// A transaction is to begin with this entry.
    Begin { entry: WalEntry },
    /// The entry in the log is to be changed.
    Amend { change: Change, after: After },
    /// The log's file is to be removed.
    Commit { after: After },
    /// The caller asked whether a transaction is logged.
    Query,
    /// The caller asked for the entry in the log.
    Current,
    /// Recovery has just started.
    Recover,
}

/// A state that waits for the entry read from the log's file.
#[derive(Debug, PartialEq, Eq)]
pub enum AwaitEntry {
    /// The entry is to be changed and written back.
    Amend { change: Change, after: After },
    /// The caller asked for the entry.
    Current,
    /// Recovery goes by the entry's status and operation.
    Recover,
}

/// A state that waits for an entry to be written to the log's file.
#[derive(Debug, PartialEq, Eq)]
pub enum AwaitWrite {
    /// The entry opens the transaction with this identifier.
    Begin { id: String },
    /// The entry is the changed one.
    Amend { after: After },
}

/// The state that waits for the log's file to be removed.
#[derive(Debug, PartialEq, Eq)]
pub struct AwaitRemoval {
    pub after: After,
}

/// The state of recovery that waits for the registry to be written back.
#[derive(Debug, PartialEq, Eq)]
pub struct AwaitRestore {
    /// What recovery reports if it gets through.
    pub result: RecoveryResult,
}

/// The state of recovery that waits for a look at a vault's directory.
#[derive(Debug, PartialEq, Eq)]
pub struct AwaitListing {
    /// The directory that is looked at.
    pub path: String,
    /// What recovery reports if it gets through.
    pub result: RecoveryResult,
}

/// The state of recovery that waits for a vault's directory to be removed.
#[derive(Debug, PartialEq, Eq)]
pub struct AwaitDirRemoval {
    /// What recovery reports if it gets through.
    pub result: RecoveryResult,
}

/// What an operation asks of the storage layer next, with the state that
/// takes the answer; or how the operation ended.
#[derive(Debug, PartialEq, Eq)]
pub enum Progress {
    /// Does the log's file exist?
    Probe(AwaitPresence),
    /// Read the log's file and decode the entry in it.
    Read(AwaitEntry),
    /// Encode the entry and write it durably to the log's file, in place of
    /// what the file held.
    Write(WalEntry, AwaitWrite),
    /// Delete the log's file.
    Remove(AwaitRemoval),
    /// Write the text durably to the registry's file, in place of what the
    /// file held.
    Restore(String, AwaitRestore),
    /// Look at the directory at this path: is it there, and how many entries
    /// does it hold?
    Inspect(String, AwaitListing),
    /// Delete the directory at this path with all that is in it.
    RemoveDir(String, AwaitDirRemoval),
    /// The operation is over.
    Done(Outcome),
}

/// An `AwaitPresence` as a mathematical value.
pub enum AwaitPresenceView {
    Begin { entry: WalEntryView },
    Amend { change: ChangeView, after: AfterView },
    Commit { after: AfterView },
    Query,
    Current,
    Recover,
}

/// An `AwaitEntry` as a mathematical value.
pub enum AwaitEntryView {
    Amend { change: ChangeView, after: AfterView },
    Current,
    Recover,
}

/// An `AwaitWrite` as a mathematical value.
pub enum AwaitWriteView {
    Begin { id: Seq<char> },
    Amend { after: AfterView },
}

/// An `AwaitRemoval` as a mathematical value.
pub struct AwaitRemovalView {
    pub after: AfterView,
}

/// An `AwaitRestore` as a mathematical value.
pub struct AwaitRestoreView {
    pub result: RecoveryResultView,
}

/// An `AwaitListing` as a mathematical value.
pub struct AwaitListingView {
    pub path: Seq<char>,
    pub result: RecoveryResultView,
}

/// An `AwaitDirRemoval` as a mathematical value.
pub struct AwaitDirRemovalView {
    pub result: RecoveryResultView,
}

/// A `Progress` as a mathematical value.
pub enum ProgressView {
    Probe(AwaitPresenceView),
    Read(AwaitEntryView),
    Write(WalEntryView, AwaitWriteView),
    Remove(AwaitRemovalView),
    Restore(Seq<char>, AwaitRestoreView),
    Inspect(Seq<char>, AwaitListingView),
    RemoveDir(Seq<char>, AwaitDirRemovalView),
    Done(OutcomeView),
}

impl View for AwaitPresence {
    type V = AwaitPresenceView;

    open spec fn view(&self) -> AwaitPresenceView {
        match self {
            AwaitPresence::Begin { entry } => AwaitPresenceView::Begin { entry: entry@ },
            AwaitPresence::Amend { change, after } => AwaitPresenceView::Amend {
                change: change@,
                after: after@,
            },
            AwaitPresence::Commit { after } => AwaitPresenceView::Commit { after: after@ },
            AwaitPresence::Query => AwaitPresenceView::Query,
            AwaitPresence::Current => AwaitPresenceView::Current,
            AwaitPresence::Recover => AwaitPresenceView::Recover,
        }
    }
}

impl View for AwaitEntry {
    type V = AwaitEntryView;

    open spec fn view(&self) -> AwaitEntryView {
        match self {
            AwaitEntry::Amend { change, after } => AwaitEntryView::Amend {
                change: change@,
                after: after@,
            },
            AwaitEntry::Current => AwaitEntryView::Current,
            AwaitEntry::Recover => AwaitEntryView::Recover,
        }
    }
}

impl View for AwaitWrite {
    type V = AwaitWriteView;

    open spec fn view(&self) -> AwaitWriteView {
        match self {
            AwaitWrite::Begin { id } => AwaitWriteView::Begin { id: id@ },
            AwaitWrite::Amend { after } => AwaitWriteView::Amend { after: after@ },
        }
    }
}

impl View for AwaitRemoval {
    type V = AwaitRemovalView;

    open spec fn view(&self) -> AwaitRemovalView {
        AwaitRemovalView { after: self.after@ }
    }
}

impl View for AwaitRestore {
    type V = AwaitRestoreView;

    open spec fn view(&self) -> AwaitRestoreView {
        AwaitRestoreView { result: self.result@ }
    }
}

impl View for AwaitListing {
    type V = AwaitListingView;

    open spec fn view(&self) -> AwaitListingView {
        AwaitListingView { path: self.path@, result: self.result@ }
    }
}

impl View for AwaitDirRemoval {
    type V = AwaitDirRemovalView;

    open spec fn view(&self) -> AwaitDirRemovalView {
        AwaitDirRemovalView { result: self.result@ }
    }
}

impl View for Progress {
    type V = ProgressView;

    open spec fn view(&self) -> ProgressView {
        match self {
            Progress::Probe(state) => ProgressView::Probe(state@),
            Progress::Read(state) => ProgressView::Read(state@),
            Progress::Write(entry, state) => ProgressView::Write(entry@, state@),
            Progress::Remove(state) => ProgressView::Remove(state@),
            Progress::Restore(text, state) => ProgressView::Restore(text@, state@),
            Progress::Inspect(path, state) => ProgressView::Inspect(path@, state@),
            Progress::RemoveDir(path, state) => ProgressView::RemoveDir(path@, state@),
            Progress::Done(outcome) => ProgressView::Done(outcome@),
        }
    }
}

} // verus!
