//! A write-ahead log that makes destructive vault operations atomic.
//!
//! Before a vault is deleted or created, or broken vaults are struck from the
//! registry, the operation is written to a single file together with what is
//! needed to undo it. The file is removed when the operation is through. A file
//! that is still there at the next start tells of an operation that was cut
//! short, and recovery undoes it.
//!
//! The library touches no file itself. Every operation is a short run of
//! requests to a storage layer (`protocol`, `steps`), and `Storage` is the
//! reference for what the requests mean: the operations of `manager` and
//! `recovery` run against it, and `laws` states what holds of them together.

pub mod driver;
pub mod entry;
pub mod error;
pub mod laws;
pub mod manager;
pub mod paths;
pub mod protocol;
pub mod recovery;
pub mod stamp;
pub mod steps;
pub mod storage;
pub mod text;

pub use driver::{answer, run};
pub use entry::{RecoveryResult, WalEntry, WalOperation, WalStatus};
pub use error::{CodecStep, IoStep, WalError};
pub use manager::{
    begin_transaction, begin_transaction_with, commit, get_current_entry, has_active_transaction,
    mark_failed, update_status,
};
pub use paths::{registry_file_name, wal_file_name};
pub use protocol::{
    After, AwaitDirRemoval, AwaitEntry, AwaitListing, AwaitPresence, AwaitRemoval, AwaitRestore,
    AwaitWrite, Change, DirListing, Outcome, Progress, SPARSE_DIR_LIMIT,
};
pub use recovery::{recover_incomplete, rollback_operation};
pub use stamp::TRANSACTION_ID_LEN;
pub use storage::{Storage, VaultDir, WalFile};
