use vault_wal::text::decimal_text;
use vault_wal::{
    begin_transaction, begin_transaction_with, commit, get_current_entry, has_active_transaction,
    mark_failed, update_status, CodecStep, IoStep, Storage, WalEntry, WalError, WalFile,
    WalOperation, WalStatus, TRANSACTION_ID_LEN,
};

fn delete_op(backup: &str) -> WalOperation {
    WalOperation::DeleteVault {
        vault_id: "vault-1".to_string(),
        vault_path: "/vaults/one".to_string(),
        delete_files: true,
        registry_backup: backup.to_string(),
    }
}

fn create_op() -> WalOperation {
    WalOperation::CreateVault { vault_id: "vault-2".to_string(), vault_path: "/vaults/two".to_string() }
}

#[test]
fn begin_makes_transaction_active_and_current() {
    let mut storage = Storage::new();
    assert_eq!(has_active_transaction(&storage), Ok(false));
    assert_eq!(get_current_entry(&storage), Ok(None));

    let id = begin_transaction(&mut storage, delete_op("{\"vaults\":[]}")).unwrap();

    assert_eq!(has_active_transaction(&storage), Ok(true));
    let entry = get_current_entry(&storage).unwrap().unwrap();
    assert_eq!(entry.id, id);
    assert_eq!(entry.operation, delete_op("{\"vaults\":[]}"));
    assert_eq!(entry.status, WalStatus::Pending);
    assert_eq!(entry.error, None);
    assert_eq!(storage.registry, None);
    assert!(storage.dirs.is_empty());
}

#[test]
fn begin_with_given_id_and_time_writes_exactly_that_entry() {
    let mut storage = Storage::new();
    let id = begin_transaction_with(
        &mut storage,
        create_op(),
        "tx-7".to_string(),
        "2024-05-01T10:00:00+00:00".to_string(),
    );
    assert_eq!(id, Ok("tx-7".to_string()));
    assert_eq!(
        storage.wal,
        WalFile::Holds(WalEntry {
            id: "tx-7".to_string(),
            operation: create_op(),
            started_at: "2024-05-01T10:00:00+00:00".to_string(),
            status: WalStatus::Pending,
            error: None,
        })
    );
}

#[test]
fn fresh_identifiers_are_hyphenated_and_differ() {
    let mut first = Storage::new();
    let mut second = Storage::new();
    let a = begin_transaction(&mut first, create_op()).unwrap();
    let b = begin_transaction(&mut second, create_op()).unwrap();
    assert_ne!(a, b);
    for id in [&a, &b] {
        assert_eq!(id.chars().count(), TRANSACTION_ID_LEN);
        assert_eq!(TRANSACTION_ID_LEN, 36);
        for (at, c) in id.chars().enumerate() {
            if at == 8 || at == 13 || at == 18 || at == 23 {
                assert_eq!(c, '-');
            } else {
                assert!(c.is_ascii_hexdigit() && !c.is_ascii_uppercase());
            }
        }
    }
}

#[test]
fn start_time_is_an_rfc3339_text() {
    let mut storage = Storage::new();
    begin_transaction(&mut storage, create_op()).unwrap();
    let entry = get_current_entry(&storage).unwrap().unwrap();
    let parsed = chrono::DateTime::parse_from_rfc3339(&entry.started_at);
    assert!(parsed.is_ok());
    assert_eq!(parsed.unwrap().offset().local_minus_utc(), 0);
}

#[test]
fn commit_after_begin_frees_the_slot() {
    let mut storage = Storage::new();
    begin_transaction(&mut storage, create_op()).unwrap();
    assert_eq!(commit(&mut storage), Ok(()));
    assert_eq!(has_active_transaction(&storage), Ok(false));
    assert_eq!(storage.wal, WalFile::Absent);
    assert_eq!(get_current_entry(&storage), Ok(None));
}

#[test]
fn commit_without_log_is_no_failure() {
    let mut storage = Storage::new();
    assert_eq!(commit(&mut storage), Ok(()));
    assert_eq!(storage, Storage::new());
}

#[test]
fn commit_removes_a_log_that_cannot_be_decoded() {
    let mut storage = Storage::new();
    storage.wal = WalFile::Corrupt("expected value at line 1 column 1".to_string());
    assert_eq!(has_active_transaction(&storage), Ok(true));
    assert_eq!(commit(&mut storage), Ok(()));
    assert_eq!(storage.wal, WalFile::Absent);
}

#[test]
fn second_begin_conflicts_and_leaves_log_alone() {
    let mut storage = Storage::new();
    begin_transaction(&mut storage, delete_op("R0")).unwrap();
    let before = storage.wal.clone();

    let second = begin_transaction(&mut storage, create_op());

    assert_eq!(second, Err(WalError::Conflict));
    assert_eq!(storage.wal, before);
    assert_eq!(
        second.unwrap_err().message(),
        "Cannot start new transaction: previous transaction still in progress. Please restart the application to recover."
    );
}

#[test]
fn begin_conflicts_with_a_log_that_cannot_be_decoded() {
    let mut storage = Storage::new();
    storage.wal = WalFile::Corrupt("garbage".to_string());
    assert_eq!(begin_transaction(&mut storage, create_op()), Err(WalError::Conflict));
    assert_eq!(storage.wal, WalFile::Corrupt("garbage".to_string()));
}

#[test]
fn update_status_rewrites_only_the_status() {
    let mut storage = Storage::new();
    begin_transaction_with(&mut storage, delete_op("R0"), "tx-1".to_string(), "t0".to_string())
        .unwrap();

    assert_eq!(update_status(&mut storage, WalStatus::InProgress), Ok(()));

    assert_eq!(
        get_current_entry(&storage),
        Ok(Some(WalEntry {
            id: "tx-1".to_string(),
            operation: delete_op("R0"),
            started_at: "t0".to_string(),
            status: WalStatus::InProgress,
            error: None,
        }))
    );
    assert_eq!(update_status(&mut storage, WalStatus::Completed), Ok(()));
    assert_eq!(get_current_entry(&storage).unwrap().unwrap().status, WalStatus::Completed);
}

#[test]
fn update_status_without_log_does_nothing() {
    let mut storage = Storage::new();
    storage.registry = Some("R".to_string());
    assert_eq!(update_status(&mut storage, WalStatus::Completed), Ok(()));
    assert_eq!(storage.wal, WalFile::Absent);
    assert_eq!(storage.registry, Some("R".to_string()));
}

#[test]
fn update_status_fails_on_a_log_that_cannot_be_decoded() {
    let mut storage = Storage::new();
    storage.wal = WalFile::Corrupt("EOF while parsing".to_string());
    let result = update_status(&mut storage, WalStatus::Completed);
    assert_eq!(
        result,
        Err(WalError::Serialization {
            direction: CodecStep::Decode,
            cause: "EOF while parsing".to_string()
        })
    );
    assert_eq!(result.unwrap_err().message(), "Failed to parse WAL: EOF while parsing");
    assert_eq!(storage.wal, WalFile::Corrupt("EOF while parsing".to_string()));
}

#[test]
fn mark_failed_rolls_back_and_records_the_reason() {
    let mut storage = Storage::new();
    begin_transaction_with(&mut storage, create_op(), "tx-2".to_string(), "t1".to_string())
        .unwrap();
    update_status(&mut storage, WalStatus::InProgress).unwrap();

    assert_eq!(mark_failed(&mut storage, "disk full"), Ok(()));

    assert_eq!(
        get_current_entry(&storage),
        Ok(Some(WalEntry {
            id: "tx-2".to_string(),
            operation: create_op(),
            started_at: "t1".to_string(),
            status: WalStatus::RolledBack,
            error: Some("disk full".to_string()),
        }))
    );
}

#[test]
fn mark_failed_without_log_does_nothing() {
    let mut storage = Storage::new();
    assert_eq!(mark_failed(&mut storage, "whatever"), Ok(()));
    assert_eq!(storage, Storage::new());
}

#[test]
fn get_current_entry_fails_on_a_log_that_cannot_be_decoded() {
    let mut storage = Storage::new();
    storage.wal = WalFile::Corrupt("bad".to_string());
    assert_eq!(
        get_current_entry(&storage),
        Err(WalError::Serialization { direction: CodecStep::Decode, cause: "bad".to_string() })
    );
}

#[test]
fn every_failure_has_its_words() {
    let io = |step| WalError::Io { step, cause: "denied".to_string() }.message();
    assert_eq!(io(IoStep::ResolveDataDir), "Failed to get app data dir: denied");
    assert_eq!(io(IoStep::CreateDirectory), "Failed to create directory: denied");
    assert_eq!(io(IoStep::CreateFile), "Failed to create file: denied");
    assert_eq!(io(IoStep::WriteFile), "Failed to write file: denied");
    assert_eq!(io(IoStep::OpenForSync), "Failed to open file for sync: denied");
    assert_eq!(io(IoStep::SyncFile), "Failed to sync file: denied");
    assert_eq!(io(IoStep::ReadLog), "Failed to read WAL: denied");
    assert_eq!(io(IoStep::RemoveLog), "Failed to remove WAL file: denied");
    let codec = |direction| WalError::Serialization { direction, cause: "odd".to_string() }.message();
    assert_eq!(codec(CodecStep::Encode), "Failed to serialize WAL entry: odd");
    assert_eq!(codec(CodecStep::Decode), "Failed to parse WAL: odd");
}

#[test]
fn numbers_are_written_in_decimal() {
    assert_eq!(decimal_text(0), "0");
    assert_eq!(decimal_text(7), "7");
    assert_eq!(decimal_text(10), "10");
    assert_eq!(decimal_text(409), "409");
    assert_eq!(decimal_text(1234567890), "1234567890");
    assert_eq!(decimal_text(usize::MAX), usize::MAX.to_string());
}

#[test]
fn status_tells_whether_the_operation_was_cut_short() {
    assert!(WalStatus::Pending.is_interrupted());
    assert!(WalStatus::InProgress.is_interrupted());
    assert!(!WalStatus::Completed.is_interrupted());
    assert!(!WalStatus::RolledBack.is_interrupted());
}
