//! Running an operation against a `Storage`, request by request.

use vstd::prelude::*;
use crate::protocol::{
    AfterView, AwaitEntryView, AwaitPresenceView, AwaitWriteView, Outcome, OutcomeView, Progress,
    ProgressView,
};
use crate::storage::{Storage, StorageView};

verus! {

impl AfterView {
    /// The number of requests that are still made at most.
    pub open spec fn steps_left(self) -> nat {
        match self {
            AfterView::Finish => 0,
            AfterView::Commit(_) => 2,
            AfterView::Report(_) => 0,
        }
    }
}

impl ProgressView {
    /// The number of requests, this one counted, that are still made at most.
    pub open spec fn steps_left(self) -> nat {
        match self {
            ProgressView::Probe(AwaitPresenceView::Begin { .. }) => 2,
            ProgressView::Probe(AwaitPresenceView::Amend { after, .. }) => 3 + after.steps_left(),
            ProgressView::Probe(AwaitPresenceView::Commit { after }) => 2 + after.steps_left(),
            ProgressView::Probe(AwaitPresenceView::Query) => 1,
            ProgressView::Probe(AwaitPresenceView::Current) => 2,
            ProgressView::Probe(AwaitPresenceView::Recover) => 9,
            ProgressView::Read(AwaitEntryView::Amend { after, .. }) => 2 + after.steps_left(),
            ProgressView::Read(AwaitEntryView::Current) => 1,
            ProgressView::Read(AwaitEntryView::Recover) => 8,
            ProgressView::Write(_, AwaitWriteView::Begin { .. }) => 1,
            ProgressView::Write(_, AwaitWriteView::Amend { after }) => 1 + after.steps_left(),
            ProgressView::Remove(state) => 1 + state.after.steps_left(),
            ProgressView::Restore(_, _) => 6,
            ProgressView::Inspect(_, _) => 7,
            ProgressView::RemoveDir(_, _) => 6,
            ProgressView::Done(_) => 0,
        }
    }
}

impl StorageView {
    /// The storage once the request of `progress` is carried out, and the
    /// step that the answer leads to.
    pub open spec fn answer(self, progress: ProgressView) -> (StorageView, ProgressView) {
        match progress {
            ProgressView::Probe(state) => (self, state.resume(Ok(self.present()))),
            ProgressView::Read(state) => (self, state.resume(self.read())),
            ProgressView::Write(entry, state) => (self.with_entry(entry), state.resume(Ok(()))),
            ProgressView::Remove(state) => (self.without_wal(), state.resume(self.removal())),
            ProgressView::Restore(text, state) => (self.with_registry(text), state.resume(Ok(()))),
            ProgressView::Inspect(path, state) => (self, state.resume(self.listing(path))),
            ProgressView::RemoveDir(path, state) => (self.without_dir(path), state.resume()),
            ProgressView::Done(_) => (self, progress),
        }
    }

    /// The storage and the outcome once the operation has run to its end.
    pub open spec fn run(self, progress: ProgressView) -> (StorageView, OutcomeView)
        decreases progress.steps_left(),
    {
        match progress {
            ProgressView::Done(outcome) => (self, outcome),
            _ => {
                let (storage, next) = self.answer(progress);
                if next.steps_left() < progress.steps_left() {
                    storage.run(next)
                } else {
                    arbitrary()
                }
            },
        }
    }
}

/// Every answer brings an operation nearer to its end.
pub proof fn lemma_answer_decreases(storage: StorageView, progress: ProgressView)
    requires
        !(progress is Done),
    ensures
        storage.answer(progress).1.steps_left() < progress.steps_left(),
{
}

/// Carries out one request of an operation.
pub fn answer(progress: Progress, storage: &mut Storage) -> (next: Progress)
    ensures
        (final(storage)@, next@) == old(storage)@.answer(progress@),
{
    match progress {
        Progress::Probe(state) => {
            let present = storage.wal_exists();
            state.resume(Ok(present))
        },
        Progress::Read(state) => {
            let read = storage.read_wal();
            state.resume(read)
        },
        Progress::Write(entry, state) => {
            storage.write_wal(entry);
            state.resume(Ok(()))
        },
        Progress::Remove(state) => {
            let removed = storage.remove_wal();
            state.resume(removed)
        },
        Progress::Restore(text, state) => {
            storage.write_registry(text);
            state.resume(Ok(()))
        },
        Progress::Inspect(path, state) => {
            let listing = storage.inspect_dir(&path);
            state.resume(listing)
        },
        Progress::RemoveDir(path, state) => {
            storage.remove_dir_tree(&path);
            state.resume()
        },
        Progress::Done(outcome) => Progress::Done(outcome),
    }
}

/// Runs an operation to its end.
pub fn run(progress: Progress, storage: &mut Storage) -> (outcome: Outcome)
    ensures
        (final(storage)@, outcome@) == old(storage)@.run(progress@),
{
    let ghost end = storage@.run(progress@);
    let mut current = progress;
    loop
        invariant
            storage@.run(current@) == end,
            end == old(storage)@.run(progress@),
        decreases current@.steps_left(),
    {
        let ghost now = current@;
        match current {
            Progress::Done(outcome) => {
                assert(now == ProgressView::Done(outcome@));
                return outcome;
            },
            waiting => {
                assert(waiting@ == now);
                proof {
                    lemma_answer_decreases(storage@, now);
                }
                current = answer(waiting, storage);
            },
        }
    }
}

} // verus!
