//! The transaction manager: one slot for one transaction.
//!
//! The log's file is the slot. A transaction holds the slot from
//! `begin_transaction` until `commit`, and no second one can begin meanwhile.

use vstd::prelude::*;
use crate::driver::run;
use crate::entry::{WalEntry, WalEntryView, WalOperation, WalStatus};
use crate::error::{result_view, CodecStep, WalError, WalErrorView};
use crate::protocol::{
    After, AfterView, AwaitPresence, AwaitPresenceView, Change, ChangeView, Outcome, OutcomeView,
    Progress, ProgressView,
};
use crate::stamp::{current_timestamp, fresh_transaction_id, TRANSACTION_ID_LEN};
use crate::storage::{Storage, StorageView, WalFileView};

verus! {

impl ProgressView {
    /// The first step of beginning a transaction with `entry`.
    pub open spec fn begin(entry: WalEntryView) -> ProgressView {
        ProgressView::Probe(AwaitPresenceView::Begin { entry })
    }

    /// The first step of changing the entry in the log.
    pub open spec fn amend(change: ChangeView) -> ProgressView {
        ProgressView::Probe(AwaitPresenceView::Amend { change, after: AfterView::Finish })
    }

    /// The first step of removing the log.
    pub open spec fn commit() -> ProgressView {
        ProgressView::Probe(AwaitPresenceView::Commit { after: AfterView::Finish })
    }

    /// The one step of asking whether a transaction is logged.
    pub open spec fn query() -> ProgressView {
        ProgressView::Probe(AwaitPresenceView::Query)
    }

    /// The first step of fetching the entry in the log.
    pub open spec fn current() -> ProgressView {
        ProgressView::Probe(AwaitPresenceView::Current)
    }

    /// The first step of recovery.
    pub open spec fn recover() -> ProgressView {
        ProgressView::Probe(AwaitPresenceView::Recover)
    }
}

impl Progress {
    /// Starts to begin a transaction with `entry`.
    pub fn begin(entry: WalEntry) -> (first: Progress)
        ensures
            first@ == ProgressView::begin(entry@),
    {
        Progress::Probe(AwaitPresence::Begin { entry })
    }

    /// Starts to begin a transaction for `operation`, under a fresh
    /// identifier and with the time of the call.
    pub fn begin_now(operation: WalOperation) -> (first: Progress)
        ensures
            exists|id: Seq<char>, started_at: Seq<char>|
                id.len() == TRANSACTION_ID_LEN && #[trigger] ProgressView::begin(
                    WalEntryView::pending(id, operation@, started_at),
                ) == first@,
    {
        let id = fresh_transaction_id();
        let started_at = current_timestamp();
        let first = Progress::begin(WalEntry::pending(id, operation, started_at));
        assert(ProgressView::begin(WalEntryView::pending(id@, operation@, started_at@)) == first@);
        first
    }

    /// Starts to change the entry in the log.
    pub fn amend(change: Change) -> (first: Progress)
        ensures
            first@ == ProgressView::amend(change@),
    {
        Progress::Probe(AwaitPresence::Amend { change, after: After::Finish })
    }

    /// Starts to remove the log.
    pub fn commit() -> (first: Progress)
        ensures
            first@ == ProgressView::commit(),
    {
        Progress::Probe(AwaitPresence::Commit { after: After::Finish })
    }

    /// Asks whether a transaction is logged.
    pub fn query() -> (first: Progress)
        ensures
            first@ == ProgressView::query(),
    {
        Progress::Probe(AwaitPresence::Query)
    }

    /// Starts to fetch the entry in the log.
    pub fn current() -> (first: Progress)
        ensures
            first@ == ProgressView::current(),
    {
        Progress::Probe(AwaitPresence::Current)
    }

    /// Starts recovery.
    pub fn recover() -> (first: Progress)
        ensures
            first@ == ProgressView::recover(),
    {
        Progress::Probe(AwaitPresence::Recover)
    }
}

impl StorageView {
    /// Whether a transaction holds the slot.
    pub open spec fn has_active_transaction(self) -> bool {
        self.present()
    }

    /// The entry in the log, if there is a log; a log that cannot be decoded
    /// is an error.
    pub open spec fn current_entry(self) -> Result<Option<WalEntryView>, WalErrorView> {
        match self.wal {
            WalFileView::Absent => Ok(None),
            WalFileView::Corrupt(complaint) => Err(
                WalErrorView::Serialization { direction: CodecStep::Decode, cause: complaint },
            ),
            WalFileView::Holds(entry) => Ok(Some(entry)),
        }
    }

    /// The storage after a transaction was to begin with `entry`, and the
    /// transaction's identifier. Where the slot is taken, nothing changes and
    /// the attempt fails.
    pub open spec fn begin(self, entry: WalEntryView) -> (
        StorageView,
        Result<Seq<char>, WalErrorView>,
    ) {
        if self.present() {
            (self, Err(WalErrorView::Conflict))
        } else {
            (self.with_entry(entry), Ok(entry.id))
        }
    }

    /// The storage after the entry in the log was to be changed. Where there
    /// is no log, nothing changes and that is no failure. Where the log
    /// cannot be decoded, nothing changes and the attempt fails.
    pub open spec fn amend(self, change: ChangeView) -> (StorageView, Result<(), WalErrorView>) {
        match self.wal {
            WalFileView::Absent => (self, Ok(())),
            WalFileView::Corrupt(complaint) => (
                self,
                Err(WalErrorView::Serialization { direction: CodecStep::Decode, cause: complaint }),
            ),
            WalFileView::Holds(entry) => (self.with_entry(change.apply(entry)), Ok(())),
        }
    }

    /// The storage after a commit: the slot is free.
    pub open spec fn commit(self) -> StorageView {
        self.without_wal()
    }
}

} // verus!

verus! {

/// Run to its end, the beginning of a transaction does to the storage what
/// `StorageView::begin` says.
pub proof fn lemma_run_begin(storage: StorageView, entry: WalEntryView)
    ensures
        storage.run(ProgressView::begin(entry)) == (
            storage.begin(entry).0,
            match storage.begin(entry).1 {
                Ok(id) => OutcomeView::Started(id),
                Err(error) => OutcomeView::Failed(error),
            },
        ),
{
    reveal_with_fuel(StorageView::run, 3);
}

/// Run to its end, a change to the entry does to the storage what
/// `StorageView::amend` says.
pub proof fn lemma_run_amend(storage: StorageView, change: ChangeView)
    ensures
        storage.run(ProgressView::amend(change)) == (
            storage.amend(change).0,
            match storage.amend(change).1 {
                Ok(_) => OutcomeView::Finished,
                Err(error) => OutcomeView::Failed(error),
            },
        ),
{
    reveal_with_fuel(StorageView::run, 4);
}

/// Run to its end, a commit leaves the storage without the log and does not fail.
pub proof fn lemma_run_commit(storage: StorageView)
    ensures
        storage.run(ProgressView::commit()) == (storage.commit(), OutcomeView::Finished),
{
    reveal_with_fuel(StorageView::run, 3);
}

/// Run to its end, the question whether a transaction is logged leaves the
/// storage as it is and is answered by `StorageView::has_active_transaction`.
pub proof fn lemma_run_query(storage: StorageView)
    ensures
        storage.run(ProgressView::query()) == (
            storage,
            OutcomeView::Active(storage.has_active_transaction()),
        ),
{
    reveal_with_fuel(StorageView::run, 2);
}

/// Run to its end, the fetching of the entry leaves the storage as it is and
/// gives what `StorageView::current_entry` says.
pub proof fn lemma_run_current(storage: StorageView)
    ensures
        storage.run(ProgressView::current()) == (
            storage,
            match storage.current_entry() {
                Ok(entry) => OutcomeView::Current(entry),
                Err(error) => OutcomeView::Failed(error),
            },
        ),
{
    reveal_with_fuel(StorageView::run, 3);
}

} // verus!

verus! {

/// Begins a transaction for `operation` under the identifier and the time
/// given, and returns the identifier.
///
/// Fails with `WalError::Conflict`, and leaves the log as it is, where the
/// log still holds a transaction. Else the log holds the new entry, in status
/// `Pending` and without an error, before the call returns.
pub fn begin_transaction_with(
    storage: &mut Storage,
    operation: WalOperation,
    id: String,
    started_at: String,
) -> (result: Result<String, WalError>)
    ensures
        (final(storage)@, result_view(result)) == old(storage)@.begin(
            WalEntryView::pending(id@, operation@, started_at@),
        ),
{
    let entry = WalEntry::pending(id, operation, started_at);
    proof {
        lemma_run_begin(storage@, entry@);
    }
    match run(Progress::begin(entry), storage) {
        Outcome::Started(id) => Ok(id),
        Outcome::Failed(error) => Err(error),
        _ => vstd::pervasive::unreached(),
    }
}

/// Begins a transaction for `operation` and returns its identifier, which
/// is made anew; the entry records the time of the call.
///
/// Fails with `WalError::Conflict`, and leaves the log as it is, where the
/// log still holds a transaction.
pub fn begin_transaction(storage: &mut Storage, operation: WalOperation) -> (result: Result<
    String,
    WalError,
>)
    ensures
        exists|id: Seq<char>, started_at: Seq<char>|
            id.len() == TRANSACTION_ID_LEN && (final(storage)@, result_view(result)) == old(
                storage,
            )@.begin(#[trigger] WalEntryView::pending(id, operation@, started_at)),
{
    let id = fresh_transaction_id();
    let started_at = current_timestamp();
    let ghost entry = WalEntryView::pending(id@, operation@, started_at@);
    let result = begin_transaction_with(storage, operation, id, started_at);
    assert((storage@, result_view(result)) == old(storage)@.begin(entry));
    result
}

/// Puts the entry in the log into another status.
///
/// Does nothing, and does not fail, where there is no log.
pub fn update_status(storage: &mut Storage, status: WalStatus) -> (result: Result<(), WalError>)
    ensures
        (final(storage)@, result_view(result)) == old(storage)@.amend(ChangeView::Status(status)),
{
    proof {
        lemma_run_amend(storage@, ChangeView::Status(status));
    }
    match run(Progress::amend(Change::Status(status)), storage) {
        Outcome::Finished => Ok(()),
        Outcome::Failed(error) => Err(error),
        _ => vstd::pervasive::unreached(),
    }
}

/// Marks the entry in the log as rolled back, for the reason given.
///
/// Does nothing, and does not fail, where there is no log.
pub fn mark_failed(storage: &mut Storage, error_msg: &str) -> (result: Result<(), WalError>)
    ensures
        (final(storage)@, result_view(result)) == old(storage)@.amend(
            ChangeView::Failed(error_msg@),
        ),
{
    proof {
        lemma_run_amend(storage@, ChangeView::Failed(error_msg@));
    }
    let reason = error_msg.to_owned();
    match run(Progress::amend(Change::Failed(reason)), storage) {
        Outcome::Finished => Ok(()),
        Outcome::Failed(error) => Err(error),
        _ => vstd::pervasive::unreached(),
    }
}

/// Ends the transaction: removes the log, if there is one.
pub fn commit(storage: &mut Storage) -> (result: Result<(), WalError>)
    ensures
        result is Ok,
        final(storage)@ == old(storage)@.commit(),
{
    proof {
        lemma_run_commit(storage@);
    }
    match run(Progress::commit(), storage) {
        Outcome::Finished => Ok(()),
        _ => vstd::pervasive::unreached(),
    }
}

/// Whether the log holds a transaction.
pub fn has_active_transaction(storage: &Storage) -> (result: Result<bool, WalError>)
    ensures
        result == Ok::<bool, WalError>(storage@.has_active_transaction()),
{
    match Progress::query() {
        Progress::Probe(state) => match state.resume(Ok(storage.wal_exists())) {
            Progress::Done(Outcome::Active(present)) => Ok(present),
            _ => vstd::pervasive::unreached(),
        },
        _ => vstd::pervasive::unreached(),
    }
}

/// The entry in the log, if there is a log.
///
/// Fails where the log cannot be decoded.
pub fn get_current_entry(storage: &Storage) -> (result: Result<Option<WalEntry>, WalError>)
    ensures
        match storage@.current_entry() {
            Ok(Some(entry)) => result matches Ok(Some(found)) && found@ == entry,
            Ok(None) => result matches Ok(None),
            Err(error) => result matches Err(failure) && failure@ == error,
        },
{
    let asked = match Progress::current() {
        Progress::Probe(state) => state.resume(Ok(storage.wal_exists())),
        _ => vstd::pervasive::unreached(),
    };
    let answered = match asked {
        Progress::Read(state) => state.resume(storage.read_wal()),
        done => done,
    };
    match answered {
        Progress::Done(Outcome::Current(entry)) => Ok(entry),
        Progress::Done(Outcome::Failed(error)) => Err(error),
        _ => vstd::pervasive::unreached(),
    }
}

} // verus!
