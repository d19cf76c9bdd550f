use vault_wal::{
    answer, registry_file_name, rollback_operation, run, wal_file_name, After, AwaitEntry,
    AwaitPresence, AwaitWrite, Change, CodecStep, DirListing, IoStep, Outcome, Progress,
    RecoveryResult, Storage, WalEntry, WalError, WalFile, WalOperation, WalStatus,
};

fn entry_with(operation: WalOperation, status: WalStatus) -> WalEntry {
    WalEntry {
        id: "tx".to_string(),
        operation,
        started_at: "t0".to_string(),
        status,
        error: None,
    }
}

fn delete_vault() -> WalOperation {
    WalOperation::DeleteVault {
        vault_id: "vault-1".to_string(),
        vault_path: "/vaults/one".to_string(),
        delete_files: false,
        registry_backup: "R0".to_string(),
    }
}

fn create_vault() -> WalOperation {
    WalOperation::CreateVault { vault_id: "vault-2".to_string(), vault_path: "/vaults/two".to_string() }
}

fn io(step: IoStep, cause: &str) -> WalError {
    WalError::Io { step, cause: cause.to_string() }
}

fn undone_delete() -> RecoveryResult {
    RecoveryResult {
        recovered: true,
        message: Some("Rolled back incomplete vault deletion: vault-1".to_string()),
        operation_type: Some("delete_vault".to_string()),
    }
}

fn undone_create() -> RecoveryResult {
    RecoveryResult {
        recovered: true,
        message: Some("Cleaned up incomplete vault creation: vault-2".to_string()),
        operation_type: Some("create_vault".to_string()),
    }
}

#[test]
fn files_have_their_names() {
    assert_eq!(wal_file_name(), "operation.wal");
    assert_eq!(registry_file_name(), "vaults.json");
}

#[test]
fn begin_asks_for_presence_then_writes() {
    let entry = entry_with(create_vault(), WalStatus::Pending);
    let first = Progress::begin(entry.clone());
    let probe = match first {
        Progress::Probe(state) => state,
        other => panic!("unexpected first step {:?}", other),
    };
    let write = probe.resume(Ok(false));
    match write {
        Progress::Write(written, state) => {
            assert_eq!(written, entry);
            assert_eq!(state.resume(Ok(())), Progress::Done(Outcome::Started("tx".to_string())));
        }
        other => panic!("unexpected step {:?}", other),
    }
}

#[test]
fn begin_now_prepares_a_pending_entry() {
    match Progress::begin_now(delete_vault()) {
        Progress::Probe(AwaitPresence::Begin { entry }) => {
            assert_eq!(entry.operation, delete_vault());
            assert_eq!(entry.status, WalStatus::Pending);
            assert_eq!(entry.error, None);
            assert_eq!(entry.id.len(), 36);
            assert!(chrono::DateTime::parse_from_rfc3339(&entry.started_at).is_ok());
        }
        other => panic!("unexpected first step {:?}", other),
    }
}

#[test]
fn failed_probe_ends_every_operation() {
    let starts = vec![
        Progress::begin(entry_with(create_vault(), WalStatus::Pending)),
        Progress::amend(Change::Status(WalStatus::Completed)),
        Progress::commit(),
        Progress::query(),
        Progress::current(),
        Progress::recover(),
    ];
    for start in starts {
        match start {
            Progress::Probe(state) => assert_eq!(
                state.resume(Err(io(IoStep::ResolveDataDir, "no home"))),
                Progress::Done(Outcome::Failed(io(IoStep::ResolveDataDir, "no home")))
            ),
            other => panic!("unexpected first step {:?}", other),
        }
    }
}

#[test]
fn failed_write_fails_the_begin() {
    let state = AwaitWrite::Begin { id: "tx".to_string() };
    assert_eq!(
        state.resume(Err(io(IoStep::SyncFile, "disk full"))),
        Progress::Done(Outcome::Failed(io(IoStep::SyncFile, "disk full")))
    );
    let encode = WalError::Serialization { direction: CodecStep::Encode, cause: "odd".to_string() };
    assert_eq!(
        AwaitWrite::Amend { after: After::Finish }.resume(Err(encode.clone())),
        Progress::Done(Outcome::Failed(encode))
    );
}

#[test]
fn failed_read_fails_the_change() {
    let state = AwaitEntry::Amend { change: Change::Failed("x".to_string()), after: After::Finish };
    assert_eq!(
        state.resume(Err(io(IoStep::ReadLog, "denied"))),
        Progress::Done(Outcome::Failed(io(IoStep::ReadLog, "denied")))
    );
}

#[test]
fn failed_removal_fails_the_commit() {
    let asked = match Progress::commit() {
        Progress::Probe(state) => state.resume(Ok(true)),
        other => panic!("unexpected first step {:?}", other),
    };
    match asked {
        Progress::Remove(state) => assert_eq!(
            state.resume(Err(io(IoStep::RemoveLog, "busy"))),
            Progress::Done(Outcome::Failed(io(IoStep::RemoveLog, "busy")))
        ),
        other => panic!("unexpected step {:?}", other),
    }
}

#[test]
fn rollback_of_delete_asks_for_the_registry_to_be_restored() {
    match rollback_operation(entry_with(delete_vault(), WalStatus::Pending)) {
        Progress::Restore(text, state) => {
            assert_eq!(text, "R0");
            assert_eq!(state.result, undone_delete());
        }
        other => panic!("unexpected step {:?}", other),
    }
}

#[test]
fn failed_restore_stops_recovery_before_the_log_is_touched() {
    let mut storage = Storage::new();
    storage.registry = Some("broken".to_string());
    storage.wal = WalFile::Holds(entry_with(delete_vault(), WalStatus::Pending));
    let before = storage.clone();

    let read = answer(Progress::recover(), &mut storage);
    let restore = answer(read, &mut storage);
    assert_eq!(storage, before);
    match restore {
        Progress::Restore(_, state) => assert_eq!(
            state.resume(Err(io(IoStep::WriteFile, "read-only file system"))),
            Progress::Done(Outcome::Failed(io(IoStep::WriteFile, "read-only file system")))
        ),
        other => panic!("unexpected step {:?}", other),
    }
    assert_eq!(storage.wal, before.wal);
}

#[test]
fn recovery_marks_the_entry_before_it_removes_the_log() {
    let mut storage = Storage::new();
    storage.wal = WalFile::Holds(entry_with(delete_vault(), WalStatus::InProgress));
    let mut progress = Progress::recover();
    let mut requests = Vec::new();
    let mut marked = None;
    loop {
        let name = match &progress {
            Progress::Probe(_) => "probe",
            Progress::Read(_) => "read",
            Progress::Write(entry, _) => {
                marked = Some(entry.clone());
                "write"
            }
            Progress::Remove(_) => "remove",
            Progress::Restore(_, _) => "restore",
            Progress::Inspect(_, _) => "inspect",
            Progress::RemoveDir(_, _) => "remove-dir",
            Progress::Done(_) => break,
        };
        requests.push(name);
        progress = answer(progress, &mut storage);
    }
    assert_eq!(
        requests,
        vec!["probe", "read", "restore", "probe", "read", "write", "probe", "remove"]
    );
    let marked = marked.unwrap();
    assert_eq!(marked.status, WalStatus::RolledBack);
    assert_eq!(marked.error, Some("Recovered from interrupted operation".to_string()));
    assert_eq!(marked.operation, delete_vault());
    assert_eq!(progress, Progress::Done(Outcome::Recovered(undone_delete())));
}

#[test]
fn rollback_of_create_looks_at_the_directory_first() {
    match rollback_operation(entry_with(create_vault(), WalStatus::Pending)) {
        Progress::Inspect(path, state) => {
            assert_eq!(path, "/vaults/two");
            assert_eq!(state.path, "/vaults/two");
            assert_eq!(state.result, undone_create());
            match state.resume(DirListing::Entries(1)) {
                Progress::RemoveDir(path, _) => assert_eq!(path, "/vaults/two"),
                other => panic!("unexpected step {:?}", other),
            }
        }
        other => panic!("unexpected step {:?}", other),
    }
}

#[test]
fn populated_or_missing_directory_is_not_removed() {
    for listing in [DirListing::Entries(2), DirListing::Missing, DirListing::Unreadable] {
        match rollback_operation(entry_with(create_vault(), WalStatus::InProgress)) {
            Progress::Inspect(_, state) => match state.resume(listing) {
                Progress::Probe(AwaitPresence::Amend { change, after }) => {
                    assert_eq!(
                        change,
                        Change::Failed("Recovered from interrupted operation".to_string())
                    );
                    assert_eq!(after, After::Commit(undone_create()));
                }
                other => panic!("unexpected step {:?}", other),
            },
            other => panic!("unexpected step {:?}", other),
        }
    }
}

#[test]
fn directory_removal_leads_on_to_marking_the_entry() {
    let inspect = rollback_operation(entry_with(create_vault(), WalStatus::Pending));
    let remove = match inspect {
        Progress::Inspect(_, state) => state.resume(DirListing::Entries(0)),
        other => panic!("unexpected step {:?}", other),
    };
    match remove {
        Progress::RemoveDir(_, state) => {
            match state.resume() {
                Progress::Probe(AwaitPresence::Amend { after, .. }) => {
                    assert_eq!(after, After::Commit(undone_create()))
                }
                other => panic!("unexpected step {:?}", other),
            }
        }
        other => panic!("unexpected step {:?}", other),
    }
}

#[test]
fn run_gives_the_outcome_of_each_operation() {
    let mut storage = Storage::new();
    assert_eq!(run(Progress::query(), &mut storage), Outcome::Active(false));
    assert_eq!(run(Progress::current(), &mut storage), Outcome::Current(None));
    assert_eq!(run(Progress::commit(), &mut storage), Outcome::Finished);
    let entry = entry_with(create_vault(), WalStatus::Pending);
    assert_eq!(
        run(Progress::begin(entry.clone()), &mut storage),
        Outcome::Started("tx".to_string())
    );
    assert_eq!(run(Progress::query(), &mut storage), Outcome::Active(true));
    assert_eq!(run(Progress::current(), &mut storage), Outcome::Current(Some(entry.clone())));
    assert_eq!(
        run(Progress::begin(entry), &mut storage),
        Outcome::Failed(WalError::Conflict)
    );
    assert_eq!(
        run(Progress::amend(Change::Status(WalStatus::Completed)), &mut storage),
        Outcome::Finished
    );
    assert_eq!(
        run(Progress::recover(), &mut storage),
        Outcome::Recovered(RecoveryResult {
            recovered: false,
            message: Some("Cleaned up completed transaction".to_string()),
            operation_type: None,
        })
    );
    assert_eq!(storage, Storage::new());
}

#[test]
fn reading_or_deleting_a_missing_log_fails_in_storage() {
    let mut storage = Storage::new();
    assert_eq!(storage.read_wal(), Err(io(IoStep::ReadLog, "file not found")));
    assert_eq!(storage.remove_wal(), Err(io(IoStep::RemoveLog, "file not found")));
    assert_eq!(storage, Storage::new());
}

#[test]
fn copies_are_equal_to_their_origin() {
    let entry = entry_with(
        WalOperation::CleanupBrokenVaults {
            registry_backup: "R".to_string(),
            vault_ids: vec!["a".to_string(), "b".to_string()],
        },
        WalStatus::InProgress,
    );
    assert_eq!(entry.clone(), entry);
    assert_eq!(delete_vault().clone(), delete_vault());
    assert_eq!(undone_delete().clone(), undone_delete());
    assert_eq!(delete_vault().kind(), "delete_vault");
    assert_eq!(create_vault().kind(), "create_vault");
    assert_eq!(entry.operation.kind(), "cleanup_broken");
}
