//! What holds of the operations taken together.
//!
//! Each law is stated over the mathematical values by which the operations'
//! own contracts speak, so it holds of every call that meets those contracts.

use vstd::prelude::*;
use crate::entry::{RecoveryResultView, WalEntryView, WalOperationView, WalStatus};
use crate::error::WalErrorView;
use crate::protocol::{ChangeView, DirListing, OutcomeView, ProgressView, SPARSE_DIR_LIMIT};
use crate::storage::{lemma_listing_without, StorageView, WalFileView};

verus! {

/// A transaction that has begun is there to see: the log is active and holds
/// the very entry that was written, with the operation as given and in status
/// `Pending`; the registry and the directories are as before.
pub proof fn law_begun_transaction_is_current(
    storage: StorageView,
    id: Seq<char>,
    operation: WalOperationView,
    started_at: Seq<char>,
)
    requires
        storage.begin(WalEntryView::pending(id, operation, started_at)).1 is Ok,
    ensures
        ({
            let (after, result) = storage.begin(WalEntryView::pending(id, operation, started_at));
            &&& result == Ok::<Seq<char>, WalErrorView>(id)
            &&& after.has_active_transaction()
            &&& after.current_entry() matches Ok(Some(entry))
            &&& entry == WalEntryView::pending(id, operation, started_at)
            &&& entry.operation == operation
            &&& entry.status == WalStatus::Pending
            &&& after.registry == storage.registry
            &&& after.dirs == storage.dirs
        }),
{
}

/// A transaction begins exactly where none is active.
pub proof fn law_begin_succeeds_on_free_slot(storage: StorageView, entry: WalEntryView)
    ensures
        storage.begin(entry).1 is Ok <==> !storage.has_active_transaction(),
        storage.begin(entry).1 is Err ==> storage.begin(entry).1 == Err::<
            Seq<char>,
            WalErrorView,
        >(WalErrorView::Conflict),
{
}

/// After a commit no transaction is active and the log's file is gone,
/// whatever stood there; after a transaction that had just begun, too.
pub proof fn law_commit_frees_slot(storage: StorageView, entry: WalEntryView)
    ensures
        !storage.commit().has_active_transaction(),
        storage.commit().wal == WalFileView::Absent,
        storage.commit().current_entry() == Ok::<Option<WalEntryView>, WalErrorView>(None),
        !storage.begin(entry).0.commit().has_active_transaction(),
        storage.begin(entry).0.commit().wal == WalFileView::Absent,
{
}

/// While a transaction is active, a second one cannot begin: the attempt
/// fails with a conflict and the storage, the log with it, stays as it was.
pub proof fn law_second_begin_conflicts(
    storage: StorageView,
    first: WalEntryView,
    second: WalEntryView,
)
    requires
        storage.begin(first).1 is Ok,
    ensures
        storage.begin(first).0.begin(second) == (
            storage.begin(first).0,
            Err::<Seq<char>, WalErrorView>(WalErrorView::Conflict),
        ),
{
}

/// A change to the entry touches nothing but status and error: identifier,
/// operation and time of start stay.
pub proof fn law_amend_keeps_identity(storage: StorageView, status: WalStatus, reason: Seq<char>)
    requires
        storage.wal is Holds,
    ensures
        ({
            let entry = storage.wal->Holds_0;
            let moved = storage.amend(ChangeView::Status(status)).0;
            let failed = storage.amend(ChangeView::Failed(reason)).0;
            &&& moved.current_entry() matches Ok(Some(after))
            &&& after == (WalEntryView { status, ..entry })
            &&& failed.current_entry() matches Ok(Some(marked))
            &&& marked == (WalEntryView {
                status: WalStatus::RolledBack,
                error: Some(reason),
                ..entry
            })
        }),
{
}

/// An interrupted deletion or cleanup is undone: after recovery the registry
/// holds the text that the entry carried, character for character, the log
/// is gone, and the report says that, and which kind of operation, was undone.
pub proof fn law_recovery_restores_registry(storage: StorageView)
    requires
        storage.wal matches WalFileView::Holds(entry) && entry.status.interrupted() && !(
        entry.operation is CreateVault),
    ensures
        ({
            let entry = storage.wal->Holds_0;
            let backup = match entry.operation {
                WalOperationView::DeleteVault { registry_backup, .. } => registry_backup,
                WalOperationView::CleanupBrokenVaults { registry_backup, .. } => registry_backup,
                WalOperationView::CreateVault { .. } => arbitrary(),
            };
            let (after, result) = storage.recover();
            &&& after.registry == Some(backup)
            &&& after.wal == WalFileView::Absent
            &&& after.dirs == storage.dirs
            &&& result matches Ok(report)
            &&& report.recovered
            &&& report.operation_type == Some(entry.operation.kind())
        }),
{
}

/// The log of an operation that had come to an end, finished or rolled back,
/// is removed by recovery; nothing is undone and nothing else is touched.
pub proof fn law_recovery_cleans_finished(storage: StorageView)
    requires
        storage.wal matches WalFileView::Holds(entry) && !entry.status.interrupted(),
    ensures
        ({
            let (after, result) = storage.recover();
            &&& after == storage.without_wal()
            &&& after.registry == storage.registry
            &&& after.dirs == storage.dirs
            &&& result == Ok::<RecoveryResultView, WalErrorView>(RecoveryResultView::cleaned_up())
            &&& !RecoveryResultView::cleaned_up().recovered
        }),
{
}

/// An interrupted creation is undone by the vault's directory alone, and by
/// its number of entries: with no more than `SPARSE_DIR_LIMIT` it is removed
/// whole, with more it stays as it is. No other directory and no registry is
/// touched, and the log is gone.
pub proof fn law_recovery_removes_sparse_dir(storage: StorageView, other: Seq<char>)
    requires
        storage.wal matches WalFileView::Holds(entry) && entry.status.interrupted()
            && entry.operation is CreateVault,
    ensures
        ({
            let path = storage.wal->Holds_0.operation->CreateVault_vault_path;
            let (after, result) = storage.recover();
            &&& storage.listing(path).sparse() ==> after.listing(path) == DirListing::Missing
            &&& !storage.listing(path).sparse() ==> after == storage.without_wal()
            &&& forall|count: usize|
                #[trigger] DirListing::Entries(count).sparse() <==> count <= SPARSE_DIR_LIMIT
            &&& !DirListing::Missing.sparse() && !DirListing::Unreadable.sparse()
            &&& other != path ==> after.listing(other) == storage.listing(other)
            &&& after.registry == storage.registry
            &&& after.wal == WalFileView::Absent
            &&& result matches Ok(report)
            &&& report.recovered
        }),
{
    let path = storage.wal->Holds_0.operation->CreateVault_vault_path;
    lemma_listing_without(storage.dirs, path, path);
    lemma_listing_without(storage.dirs, path, other);
}

/// Recovery that got through leaves nothing for a second recovery: the
/// second finds no log, changes nothing and reports that nothing was undone.
pub proof fn law_recovery_is_idempotent(storage: StorageView)
    requires
        storage.recover().1 is Ok,
    ensures
        ({
            let once = storage.recover().0;
            &&& !once.has_active_transaction()
            &&& once.recover() == (
                once,
                Ok::<RecoveryResultView, WalErrorView>(RecoveryResultView::nothing()),
            )
            &&& !RecoveryResultView::nothing().recovered
        }),
{
}

/// Where the registry cannot be written back, recovery stops at that point:
/// up to then it has only looked at the log, and it asks for nothing more,
/// so the log stays for the next recovery.
pub proof fn law_failed_restore_keeps_log(storage: StorageView, failure: WalErrorView)
    requires
        storage.wal matches WalFileView::Holds(entry) && entry.status.interrupted() && !(
        entry.operation is CreateVault),
    ensures
        ({
            let (probed, read) = storage.answer(ProgressView::recover());
            let (looked, restore) = probed.answer(read);
            &&& looked == storage
            &&& restore matches ProgressView::Restore(_, waiting)
            &&& waiting.resume(Err(failure)) == ProgressView::Done(OutcomeView::Failed(failure))
        }),
{
}

} // verus!
