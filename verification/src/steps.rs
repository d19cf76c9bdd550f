//! How each waiting state goes on when the answer of the storage layer is in.

use vstd::prelude::*;
use crate::entry::{RecoveryResult, RecoveryResultView, WalEntry, WalEntryView};
use crate::error::{result_view, WalError, WalErrorView};
use crate::protocol::{
    After, AfterView, AwaitDirRemoval, AwaitDirRemovalView, AwaitEntry, AwaitEntryView,
    AwaitListing, AwaitListingView, AwaitPresence, AwaitPresenceView, AwaitRemoval,
    AwaitRemovalView, AwaitRestore, AwaitRestoreView, AwaitWrite, AwaitWriteView, DirListing,
    Outcome, OutcomeView, Progress, ProgressView,
};
use crate::recovery::{
    mark_rolled_back, recover_entry, spec_mark_rolled_back, spec_recover_entry,
};

verus! {

impl AfterView {
    /// What is done next.
    pub open spec fn proceed(self) -> ProgressView {
        match self {
            AfterView::Finish => ProgressView::Done(OutcomeView::Finished),
            AfterView::Commit(result) => ProgressView::Probe(
                AwaitPresenceView::Commit { after: AfterView::Report(result) },
            ),
            AfterView::Report(result) => ProgressView::Done(OutcomeView::Recovered(result)),
        }
    }
}

impl AwaitPresenceView {
    /// The next step, once it is known whether the log's file exists.
    ///
    /// A transaction begins only where there is no file. A change and a
    /// removal have nothing to do where there is none. A failure to find out
    /// ends the operation.
    pub open spec fn resume(self, present: Result<bool, WalErrorView>) -> ProgressView {
        match present {
            Err(error) => ProgressView::Done(OutcomeView::Failed(error)),
            Ok(present) => match self {
                AwaitPresenceView::Begin { entry } => if present {
                    ProgressView::Done(OutcomeView::Failed(WalErrorView::Conflict))
                } else {
                    ProgressView::Write(entry, AwaitWriteView::Begin { id: entry.id })
                },
                AwaitPresenceView::Amend { change, after } => if present {
                    ProgressView::Read(AwaitEntryView::Amend { change, after })
                } else {
                    after.proceed()
                },
                AwaitPresenceView::Commit { after } => if present {
                    ProgressView::Remove(AwaitRemovalView { after })
                } else {
                    after.proceed()
                },
                AwaitPresenceView::Query => ProgressView::Done(OutcomeView::Active(present)),
                AwaitPresenceView::Current => if present {
                    ProgressView::Read(AwaitEntryView::Current)
                } else {
                    ProgressView::Done(OutcomeView::Current(None))
                },
                AwaitPresenceView::Recover => if present {
                    ProgressView::Read(AwaitEntryView::Recover)
                } else {
                    ProgressView::Done(OutcomeView::Recovered(RecoveryResultView::nothing()))
                },
            },
        }
    }
}

impl AwaitEntryView {
    /// The next step, once the log's file is read.
    ///
    /// A file that cannot be read, or that holds no entry, ends the operation.
    pub open spec fn resume(self, read: Result<WalEntryView, WalErrorView>) -> ProgressView {
        match read {
            Err(error) => ProgressView::Done(OutcomeView::Failed(error)),
            Ok(entry) => match self {
                AwaitEntryView::Amend { change, after } => ProgressView::Write(
                    change.apply(entry),
                    AwaitWriteView::Amend { after },
                ),
                AwaitEntryView::Current => ProgressView::Done(OutcomeView::Current(Some(entry))),
                AwaitEntryView::Recover => spec_recover_entry(entry),
            },
        }
    }
}

impl AwaitWriteView {
    /// The next step, once the entry is written to the log's file.
    pub open spec fn resume(self, written: Result<(), WalErrorView>) -> ProgressView {
        match written {
            Err(error) => ProgressView::Done(OutcomeView::Failed(error)),
            Ok(_) => match self {
                AwaitWriteView::Begin { id } => ProgressView::Done(OutcomeView::Started(id)),
                AwaitWriteView::Amend { after } => after.proceed(),
            },
        }
    }
}

impl AwaitRemovalView {
    /// The next step, once the log's file is removed.
    pub open spec fn resume(self, removed: Result<(), WalErrorView>) -> ProgressView {
        match removed {
            Err(error) => ProgressView::Done(OutcomeView::Failed(error)),
            Ok(_) => self.after.proceed(),
        }
    }
}

impl AwaitRestoreView {
    /// The next step, once the registry is written back.
    ///
    /// Where the write failed, recovery ends there: the log is neither
    /// changed nor removed, so that a later recovery finds it again.
    pub open spec fn resume(self, restored: Result<(), WalErrorView>) -> ProgressView {
        match restored {
            Err(error) => ProgressView::Done(OutcomeView::Failed(error)),
            Ok(_) => spec_mark_rolled_back(self.result),
        }
    }
}

impl AwaitListingView {
    /// The next step, once the vault's directory is looked at.
    ///
    /// A sparse directory is removed. Any other is left as it is: it is
    /// missing, cannot be listed, or holds enough to show that the vault was
    /// all but created, or that its owner has put something there.
    pub open spec fn resume(self, listing: DirListing) -> ProgressView {
        if listing.sparse() {
            ProgressView::RemoveDir(self.path, AwaitDirRemovalView { result: self.result })
        } else {
            spec_mark_rolled_back(self.result)
        }
    }
}

impl AwaitDirRemovalView {
    /// The next step, once the removal of the vault's directory was tried.
    /// Recovery goes on whether or not the directory could be removed, so
    /// the state takes no answer.
    pub open spec fn resume(self) -> ProgressView {
        spec_mark_rolled_back(self.result)
    }
}

impl After {
    /// Does what is next.
    pub fn proceed(self) -> (next: Progress)
        ensures
            next@ == self@.proceed(),
    {
        match self {
            After::Finish => Progress::Done(Outcome::Finished),
            After::Commit(result) => Progress::Probe(
                AwaitPresence::Commit { after: After::Report(result) },
            ),
            After::Report(result) => Progress::Done(Outcome::Recovered(result)),
        }
    }
}

impl AwaitPresence {
    /// Goes on, now that it is known whether the log's file exists.
    pub fn resume(self, present: Result<bool, WalError>) -> (next: Progress)
        ensures
            next@ == self@.resume(result_view(present)),
    {
        let present = match present {
            Ok(present) => present,
            Err(error) => {
                return Progress::Done(Outcome::Failed(error));
            },
        };
        match self {
            AwaitPresence::Begin { entry } => if present {
                Progress::Done(Outcome::Failed(WalError::Conflict))
            } else {
                let id = entry.id.clone();
                Progress::Write(entry, AwaitWrite::Begin { id })
            },
            AwaitPresence::Amend { change, after } => if present {
                Progress::Read(AwaitEntry::Amend { change, after })
            } else {
                after.proceed()
            },
            AwaitPresence::Commit { after } => if present {
                Progress::Remove(AwaitRemoval { after })
            } else {
                after.proceed()
            },
            AwaitPresence::Query => Progress::Done(Outcome::Active(present)),
            AwaitPresence::Current => if present {
                Progress::Read(AwaitEntry::Current)
            } else {
                Progress::Done(Outcome::Current(None))
            },
            AwaitPresence::Recover => if present {
                Progress::Read(AwaitEntry::Recover)
            } else {
                Progress::Done(Outcome::Recovered(RecoveryResult::nothing()))
            },
        }
    }
}

impl AwaitEntry {
    /// Goes on, now that the log's file is read.
    pub fn resume(self, read: Result<WalEntry, WalError>) -> (next: Progress)
        ensures
            next@ == self@.resume(result_view(read)),
    {
        let entry = match read {
            Ok(entry) => entry,
            Err(error) => {
                return Progress::Done(Outcome::Failed(error));
            },
        };
        match self {
            AwaitEntry::Amend { change, after } => Progress::Write(
                change.apply(entry),
                AwaitWrite::Amend { after },
            ),
            AwaitEntry::Current => Progress::Done(Outcome::Current(Some(entry))),
            AwaitEntry::Recover => recover_entry(entry),
        }
    }
}

impl AwaitWrite {
    /// Goes on, now that the entry is written to the log's file.
    pub fn resume(self, written: Result<(), WalError>) -> (next: Progress)
        ensures
            next@ == self@.resume(result_view(written)),
    {
        match written {
            Err(error) => Progress::Done(Outcome::Failed(error)),
            Ok(_) => match self {
                AwaitWrite::Begin { id } => Progress::Done(Outcome::Started(id)),
                AwaitWrite::Amend { after } => after.proceed(),
            },
        }
    }
}

impl AwaitRemoval {
    /// Goes on, now that the log's file is removed.
    pub fn resume(self, removed: Result<(), WalError>) -> (next: Progress)
        ensures
            next@ == self@.resume(result_view(removed)),
    {
        match removed {
            Err(error) => Progress::Done(Outcome::Failed(error)),
            Ok(_) => self.after.proceed(),
        }
    }
}

impl AwaitRestore {
    /// Goes on, now that the registry is written back.
    pub fn resume(self, restored: Result<(), WalError>) -> (next: Progress)
        ensures
            next@ == self@.resume(result_view(restored)),
    {
        match restored {
            Err(error) => Progress::Done(Outcome::Failed(error)),
            Ok(_) => mark_rolled_back(self.result),
        }
    }
}

impl AwaitListing {
    /// Goes on, now that the vault's directory is looked at.
    pub fn resume(self, listing: DirListing) -> (next: Progress)
        ensures
            next@ == self@.resume(listing),
    {
        if listing.is_sparse() {
            Progress::RemoveDir(self.path, AwaitDirRemoval { result: self.result })
        } else {
            mark_rolled_back(self.result)
        }
    }
}

impl AwaitDirRemoval {
    /// Goes on, now that the removal of the vault's directory was tried,
    /// whether or not the directory could be removed.
    pub fn resume(self) -> (next: Progress)
        ensures
            next@ == self@.resume(),
    {
        mark_rolled_back(self.result)
    }
}

} // verus!
