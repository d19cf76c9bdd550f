//! The record that the log keeps of one operation.

use vstd::prelude::*;

verus! {

/// How far a logged operation has come.
#[derive(Clone, Copy, Debug, PartialEq, Eq, Structural)]
pub enum WalStatus {
    /// The operation is about to start.
    Pending,
    /// The operation is under way.
    InProgress,
    /// The operation finished.
    Completed,
    /// The operation was undone after a failure.
    RolledBack,
}

impl WalStatus {
    /// An entry in this status records an operation that was cut short.
    pub open spec fn interrupted(self) -> bool {
        self == WalStatus::Pending || self == WalStatus::InProgress
    }

    /// Whether an entry in this status records an operation that was cut short.
    pub fn is_interrupted(&self) -> (b: bool)
        ensures
            b == self.interrupted(),
    {
        match self {
            WalStatus::Pending | WalStatus::InProgress => true,
            WalStatus::Completed | WalStatus::RolledBack => false,
        }
    }
}

/// An operation that the log protects, with what is needed to undo it.
#[derive(Debug, PartialEq, Eq)]
pub enum WalOperation {
    /// A vault is deleted, with or without its files.
    DeleteVault {
        vault_id: String,
        vault_path: String,
        delete_files: bool,
        /// The registry's text as it was before the operation.
        registry_backup: String,
    },
    /// A vault is created.
    CreateVault { vault_id: String, vault_path: String },
    /// Broken vaults are struck from the registry.
    CleanupBrokenVaults {
        /// The registry's text as it was before the operation.
        registry_backup: String,
        /// The vaults that are struck.
        vault_ids: Vec<String>,
    },
}

/// A `WalOperation` as a mathematical value.
pub enum WalOperationView {
    DeleteVault {
        vault_id: Seq<char>,
        vault_path: Seq<char>,
        delete_files: bool,
        registry_backup: Seq<char>,
    },
    CreateVault { vault_id: Seq<char>, vault_path: Seq<char> },
    CleanupBrokenVaults { registry_backup: Seq<char>, vault_ids: Seq<Seq<char>> },
}

impl View for WalOperation {
    type V = WalOperationView;

    open spec fn view(&self) -> WalOperationView {
        match self {
            WalOperation::DeleteVault { vault_id, vault_path, delete_files, registry_backup } => {
                WalOperationView::DeleteVault {
                    vault_id: vault_id@,
                    vault_path: vault_path@,
                    delete_files: *delete_files,
                    registry_backup: registry_backup@,
                }
            },
            WalOperation::CreateVault { vault_id, vault_path } => WalOperationView::CreateVault {
                vault_id: vault_id@,
                vault_path: vault_path@,
            },
            WalOperation::CleanupBrokenVaults { registry_backup, vault_ids } => {
                WalOperationView::CleanupBrokenVaults {
                    registry_backup: registry_backup@,
                    vault_ids: vault_ids.deep_view(),
                }
            },
        }
    }
}

impl WalOperationView {
    /// The name under which operations of this kind are reported.
    pub open spec fn kind(self) -> Seq<char> {
        match self {
            WalOperationView::DeleteVault { .. } => "delete_vault"@,
            WalOperationView::CreateVault { .. } => "create_vault"@,
            WalOperationView::CleanupBrokenVaults { .. } => "cleanup_broken"@,
        }
    }
}

impl WalOperation {
    /// The name under which operations of this kind are reported.
    pub fn kind(&self) -> (name: &'static str)
        ensures
            name@ == self@.kind(),
    {
        match self {
            WalOperation::DeleteVault { .. } => "delete_vault",
            WalOperation::CreateVault { .. } => "create_vault",
            WalOperation::CleanupBrokenVaults { .. } => "cleanup_broken",
        }
    }
}

impl Clone for WalOperation {
    fn clone(&self) -> (copy: Self)
        ensures
            copy@ == self@,
    {
        match self {
            WalOperation::DeleteVault { vault_id, vault_path, delete_files, registry_backup } => {
                WalOperation::DeleteVault {
                    vault_id: vault_id.clone(),
                    vault_path: vault_path.clone(),
                    delete_files: *delete_files,
                    registry_backup: registry_backup.clone(),
                }
            },
            WalOperation::CreateVault { vault_id, vault_path } => WalOperation::CreateVault {
                vault_id: vault_id.clone(),
                vault_path: vault_path.clone(),
            },
            WalOperation::CleanupBrokenVaults { registry_backup, vault_ids } => {
                let ids = vault_ids.clone();
                assert(ids.deep_view() =~= vault_ids.deep_view());
                WalOperation::CleanupBrokenVaults {
                    registry_backup: registry_backup.clone(),
                    vault_ids: ids,
                }
            },
        }
    }
}

/// What the log's file holds: one operation, and how far it has come.
#[derive(Debug, PartialEq, Eq)]
pub struct WalEntry {
    /// The transaction's identifier, made anew for each transaction.
    pub id: String,
    /// The operation that is logged.
    pub operation: WalOperation,
    /// When the transaction began.
    pub started_at: String,
    /// How far the operation has come.
    pub status: WalStatus,
    /// Why the operation failed, where it did.
    pub error: Option<String>,
}

/// A `WalEntry` as a mathematical value.
pub struct WalEntryView {
    pub id: Seq<char>,
    pub operation: WalOperationView,
    pub started_at: Seq<char>,
    pub status: WalStatus,
    pub error: Option<Seq<char>>,
}

impl View for WalEntry {
    type V = WalEntryView;

    open spec fn view(&self) -> WalEntryView {
        WalEntryView {
            id: self.id@,
            operation: self.operation@,
            started_at: self.started_at@,
            status: self.status,
            error: self.error.deep_view(),
        }
    }
}

impl WalEntryView {
    /// The entry that opens a transaction: nothing done yet, nothing failed.
    pub open spec fn pending(
        id: Seq<char>,
        operation: WalOperationView,
        started_at: Seq<char>,
    ) -> WalEntryView {
        WalEntryView { id, operation, started_at, status: WalStatus::Pending, error: None }
    }

    /// The same entry in another status.
    pub open spec fn with_status(self, status: WalStatus) -> WalEntryView {
        WalEntryView { status, ..self }
    }

    /// The same entry, rolled back for the reason given.
    pub open spec fn failed(self, reason: Seq<char>) -> WalEntryView {
        WalEntryView { status: WalStatus::RolledBack, error: Some(reason), ..self }
    }
}

impl Clone for WalEntry {
    fn clone(&self) -> (copy: Self)
        ensures
            copy@ == self@,
    {
        let error = match &self.error {
            Some(reason) => Some(reason.clone()),
            None => None,
        };
        WalEntry {
            id: self.id.clone(),
            operation: self.operation.clone(),
            started_at: self.started_at.clone(),
            status: self.status,
            error,
        }
    }
}

impl WalEntry {
    /// The entry that opens a transaction.
    pub fn pending(id: String, operation: WalOperation, started_at: String) -> (entry: WalEntry)
        ensures
            entry@ == WalEntryView::pending(id@, operation@, started_at@),
    {
        WalEntry { id, operation, started_at, status: WalStatus::Pending, error: None }
    }

    /// Puts the entry into another status; nothing else changes.
    pub fn with_status(self, status: WalStatus) -> (entry: WalEntry)
        ensures
            entry@ == self@.with_status(status),
    {
        WalEntry { status, ..self }
    }

    /// Marks the entry as rolled back for the reason given; nothing else changes.
    pub fn failed(self, reason: String) -> (entry: WalEntry)
        ensures
            entry@ == self@.failed(reason@),
    {
        WalEntry { status: WalStatus::RolledBack, error: Some(reason), ..self }
    }
}

/// What a recovery pass found and did.
#[derive(Debug, PartialEq, Eq)]
pub struct RecoveryResult {
    /// Whether an interrupted operation was undone.
    pub recovered: bool,
    /// What was done, in words.
    pub message: Option<String>,
    /// The kind of the operation that was undone.
    pub operation_type: Option<String>,
}

/// A `RecoveryResult` as a mathematical value.
pub struct RecoveryResultView {
    pub recovered: bool,
    pub message: Option<Seq<char>>,
    pub operation_type: Option<Seq<char>>,
}

impl View for RecoveryResult {
    type V = RecoveryResultView;

    open spec fn view(&self) -> RecoveryResultView {
        RecoveryResultView {
            recovered: self.recovered,
            message: self.message.deep_view(),
            operation_type: self.operation_type.deep_view(),
        }
    }
}

impl Clone for RecoveryResult {
    fn clone(&self) -> (copy: Self)
        ensures
            copy@ == self@,
    {
        let message = match &self.message {
            Some(text) => Some(text.clone()),
            None => None,
        };
        let operation_type = match &self.operation_type {
            Some(kind) => Some(kind.clone()),
            None => None,
        };
        RecoveryResult { recovered: self.recovered, message, operation_type }
    }
}

} // verus!
