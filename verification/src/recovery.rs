//! Recovery: what is done at startup about a log that is still there.

use vstd::prelude::*;
use vstd::string::StringExecFns;
use crate::entry::{
    RecoveryResult, RecoveryResultView, WalEntry, WalEntryView, WalOperation, WalOperationView,
};
use crate::protocol::{
    After, AfterView, AwaitListing, AwaitListingView, AwaitPresence, AwaitPresenceView,
    AwaitRestore, AwaitRestoreView, Change, ChangeView, Progress, ProgressView,
};
use crate::driver::run;
use crate::error::{result_view, CodecStep, WalError, WalErrorView};
use crate::protocol::{Outcome, OutcomeView};
use crate::storage::{Storage, StorageView, WalFileView};
use crate::text::{decimal, decimal_text};

verus! {

/// The reason that recovery writes into the entry of an operation it has undone.
pub open spec fn spec_recovery_reason() -> Seq<char> {
    "Recovered from interrupted operation"@
}

/// What recovery says of a log whose operation had come to an end.
pub open spec fn spec_cleanup_message() -> Seq<char> {
    "Cleaned up completed transaction"@
}

/// What recovery says of an operation that it has undone.
pub open spec fn rollback_message(operation: WalOperationView) -> Seq<char> {
    match operation {
        WalOperationView::DeleteVault { vault_id, .. } => {
            "Rolled back incomplete vault deletion: "@ + vault_id
        },
        WalOperationView::CreateVault { vault_id, .. } => {
            "Cleaned up incomplete vault creation: "@ + vault_id
        },
        WalOperationView::CleanupBrokenVaults { vault_ids, .. } => {
            "Rolled back incomplete cleanup of "@ + decimal(vault_ids.len()) + " broken vaults"@
        },
    }
}

impl RecoveryResultView {
    /// The report that there was no log.
    pub open spec fn nothing() -> RecoveryResultView {
        RecoveryResultView { recovered: false, message: None, operation_type: None }
    }

    /// The report that a log was removed whose operation had come to an end.
    pub open spec fn cleaned_up() -> RecoveryResultView {
        RecoveryResultView {
            recovered: false,
            message: Some(spec_cleanup_message()),
            operation_type: None,
        }
    }

    /// The report that an interrupted operation was undone.
    pub open spec fn undone(operation: WalOperationView) -> RecoveryResultView {
        RecoveryResultView {
            recovered: true,
            message: Some(rollback_message(operation)),
            operation_type: Some(operation.kind()),
        }
    }
}

impl RecoveryResult {
    /// The report that there was no log.
    pub fn nothing() -> (result: RecoveryResult)
        ensures
            result@ == RecoveryResultView::nothing(),
    {
        RecoveryResult { recovered: false, message: None, operation_type: None }
    }

    /// The report that a log was removed whose operation had come to an end.
    pub fn cleaned_up() -> (result: RecoveryResult)
        ensures
            result@ == RecoveryResultView::cleaned_up(),
    {
        RecoveryResult {
            recovered: false,
            message: Some(String::from_str("Cleaned up completed transaction")),
            operation_type: None,
        }
    }

    /// The report that an interrupted operation was undone.
    pub fn undone(operation: &WalOperation) -> (result: RecoveryResult)
        ensures
            result@ == RecoveryResultView::undone(operation@),
    {
        let message = match operation {
            WalOperation::DeleteVault { vault_id, .. } => String::from_str(
                "Rolled back incomplete vault deletion: ",
            ).concat(vault_id.as_str()),
            WalOperation::CreateVault { vault_id, .. } => String::from_str(
                "Cleaned up incomplete vault creation: ",
            ).concat(vault_id.as_str()),
            WalOperation::CleanupBrokenVaults { vault_ids, .. } => {
                let count = decimal_text(vault_ids.len());
                assert(vault_ids.deep_view().len() == vault_ids.len());
                String::from_str("Rolled back incomplete cleanup of ").concat(
                    count.as_str(),
                ).concat(" broken vaults")
            },
        };
        RecoveryResult {
            recovered: true,
            message: Some(message),
            operation_type: Some(String::from_str(operation.kind())),
        }
    }
}

/// The step that follows the undoing: the entry in the log is marked as
/// rolled back, then the log is removed, then `result` is reported.
pub open spec fn spec_mark_rolled_back(result: RecoveryResultView) -> ProgressView {
    ProgressView::Probe(
        AwaitPresenceView::Amend {
            change: ChangeView::Failed(spec_recovery_reason()),
            after: AfterView::Commit(result),
        },
    )
}

/// The first step of undoing the operation of an entry.
///
/// A deletion and a cleanup are undone by writing the registry back as the
/// entry holds it. A creation is undone by removing the vault's directory,
/// which is decided by a look at it.
pub open spec fn spec_rollback_operation(entry: WalEntryView) -> ProgressView {
    let result = RecoveryResultView::undone(entry.operation);
    match entry.operation {
        WalOperationView::DeleteVault { registry_backup, .. } => ProgressView::Restore(
            registry_backup,
            AwaitRestoreView { result },
        ),
        WalOperationView::CreateVault { vault_path, .. } => ProgressView::Inspect(
            vault_path,
            AwaitListingView { path: vault_path, result },
        ),
        WalOperationView::CleanupBrokenVaults { registry_backup, .. } => ProgressView::Restore(
            registry_backup,
            AwaitRestoreView { result },
        ),
    }
}

/// What recovery does with the entry it found in the log.
///
/// An operation that was cut short is undone. One that had come to an end,
/// finished or rolled back, left nothing to undo: only the log is removed.
pub open spec fn spec_recover_entry(entry: WalEntryView) -> ProgressView {
    if entry.status.interrupted() {
        spec_rollback_operation(entry)
    } else {
        ProgressView::Probe(
            AwaitPresenceView::Commit { after: AfterView::Report(RecoveryResultView::cleaned_up()) },
        )
    }
}

/// Goes on to mark the entry in the log as rolled back.
pub fn mark_rolled_back(result: RecoveryResult) -> (next: Progress)
    ensures
        next@ == spec_mark_rolled_back(result@),
{
    Progress::Probe(
        AwaitPresence::Amend {
            change: Change::Failed(String::from_str("Recovered from interrupted operation")),
            after: After::Commit(result),
        },
    )
}

/// Starts to undo the operation of an entry.
pub fn rollback_operation(entry: WalEntry) -> (next: Progress)
    ensures
        next@ == spec_rollback_operation(entry@),
{
    let result = RecoveryResult::undone(&entry.operation);
    match entry.operation {
        WalOperation::DeleteVault { registry_backup, .. } => Progress::Restore(
            registry_backup,
            AwaitRestore { result },
        ),
        WalOperation::CreateVault { vault_path, .. } => {
            let path = vault_path.clone();
            Progress::Inspect(path, AwaitListing { path: vault_path, result })
        },
        WalOperation::CleanupBrokenVaults { registry_backup, .. } => Progress::Restore(
            registry_backup,
            AwaitRestore { result },
        ),
    }
}

/// Decides what recovery does with the entry it found in the log.
pub fn recover_entry(entry: WalEntry) -> (next: Progress)
    ensures
        next@ == spec_recover_entry(entry@),
{
    if entry.status.is_interrupted() {
        rollback_operation(entry)
    } else {
        Progress::Probe(AwaitPresence::Commit { after: After::Report(RecoveryResult::cleaned_up()) })
    }
}

} // verus!

verus! {

impl StorageView {
    /// The storage once the operation of `entry` is undone.
    ///
    /// A deletion and a cleanup are undone by the registry as the entry holds
    /// it; files that were deleted stay deleted. A creation is undone by
    /// removing the vault's directory, where that is sparse.
    pub open spec fn rolled_back(self, entry: WalEntryView) -> StorageView {
        match entry.operation {
            WalOperationView::DeleteVault { registry_backup, .. } => self.with_registry(
                registry_backup,
            ),
            WalOperationView::CreateVault { vault_path, .. } => if self.listing(
                vault_path,
            ).sparse() {
                self.without_dir(vault_path)
            } else {
                self
            },
            WalOperationView::CleanupBrokenVaults { registry_backup, .. } => self.with_registry(
                registry_backup,
            ),
        }
    }

    /// The storage after recovery, and what recovery reports.
    ///
    /// Without a log there is nothing to do. A log that cannot be decoded
    /// stops recovery and stays. An operation that was cut short is undone
    /// and its log removed. The log of an operation that had come to an end
    /// is removed, and nothing else is touched.
    pub open spec fn recover(self) -> (StorageView, Result<RecoveryResultView, WalErrorView>) {
        match self.wal {
            WalFileView::Absent => (self, Ok(RecoveryResultView::nothing())),
            WalFileView::Corrupt(complaint) => (
                self,
                Err(WalErrorView::Serialization { direction: CodecStep::Decode, cause: complaint }),
            ),
            WalFileView::Holds(entry) => if entry.status.interrupted() {
                (
                    self.rolled_back(entry).without_wal(),
                    Ok(RecoveryResultView::undone(entry.operation)),
                )
            } else {
                (self.without_wal(), Ok(RecoveryResultView::cleaned_up()))
            },
        }
    }
}

/// Run to its end, recovery does to the storage what `StorageView::recover` says.
pub proof fn lemma_run_recover(storage: StorageView)
    ensures
        storage.run(ProgressView::recover()) == (
            storage.recover().0,
            match storage.recover().1 {
                Ok(result) => OutcomeView::Recovered(result),
                Err(error) => OutcomeView::Failed(error),
            },
        ),
{
    reveal_with_fuel(StorageView::run, 10);
}

/// Looks for a log that an earlier run left behind, and undoes the operation
/// in it where that was cut short.
///
/// Fails, and leaves everything as it is, where the log cannot be decoded.
pub fn recover_incomplete(storage: &mut Storage) -> (result: Result<RecoveryResult, WalError>)
    ensures
        (final(storage)@, result_view(result)) == old(storage)@.recover(),
{
    proof {
        lemma_run_recover(storage@);
    }
    match run(Progress::recover(), storage) {
        Outcome::Recovered(result) => Ok(result),
        Outcome::Failed(error) => Err(error),
        _ => vstd::pervasive::unreached(),
    }
}

} // verus!
