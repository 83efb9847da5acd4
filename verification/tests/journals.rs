use std::collections::BTreeMap;

use winsched_logic::cleanup::combined_cleanup_error;
use winsched_logic::cleanup::finish_placement_cleanup;
use winsched_logic::cleanup::CleanupReport;
use winsched_logic::controller::exit_cleanup_error;
use winsched_logic::controller::CleanupResult;
use winsched_logic::efficiency::ManagedBackgroundProcess;
use winsched_logic::efficiency::ProcessEcoQosState;
use winsched_logic::efficiency::ProcessEfficiencyOwnership;
use winsched_logic::efficiency::ProcessEfficiencyState;
use winsched_logic::efficiency::ProcessMemoryPriority;
use winsched_logic::journal::background_records;
use winsched_logic::journal::journal_format;
use winsched_logic::journal::load_background_state;
use winsched_logic::journal::load_managed_state;
use winsched_logic::journal::managed_records;
use winsched_logic::journal::BackgroundDocument;
use winsched_logic::journal::JournalError;
use winsched_logic::journal::JournalFormat;
use winsched_logic::journal::LegacyManagedBackgroundProcess;
use winsched_logic::journal::LegacyManagedProcess;
use winsched_logic::journal::ManagedDocument;
use winsched_logic::journal::ManagedPlacement;
use winsched_logic::journal::ManagedProcess;
use winsched_logic::observations::ControllerMode;
use winsched_logic::observed::LlcDomainKey;
use winsched_logic::process::KeyMap;
use winsched_logic::process::ProcessKey;
use winsched_logic::provision::backup_recovered;
use winsched_logic::provision::load_runtime_state;
use winsched_logic::provision::state_source;
use winsched_logic::provision::RuntimeState;
use winsched_logic::provision::StateSource;

fn key(pid: u32, creation_time_100ns: u64) -> ProcessKey {
    ProcessKey { pid, creation_time_100ns }
}

fn domain(index: u8) -> LlcDomainKey {
    LlcDomainKey { group: 0, last_level_cache_index: index }
}

fn placement(anchor_domain: LlcDomainKey, cpu_set_ids: &[u32]) -> ManagedPlacement {
    ManagedPlacement { anchor_domain, cpu_set_ids: cpu_set_ids.to_vec() }
}

fn state(eco_qos: ProcessEcoQosState, memory_priority: ProcessMemoryPriority) -> ProcessEfficiencyState {
    ProcessEfficiencyState { eco_qos, memory_priority }
}

#[test]
fn managed_state_round_trips_and_replaces_atomically() {
    let process = key(77, 123);
    let mut managed: KeyMap<ManagedPlacement> = KeyMap::new();
    managed.insert(process, placement(domain(2), &[300, 301]));

    let loaded = load_managed_state(&Some(ManagedDocument::Current(managed_records(&managed))));
    assert_eq!(loaded.len(), 1);
    assert_eq!(loaded.get(process).unwrap().anchor_domain, domain(2));
    assert_eq!(loaded.get(process).unwrap().cpu_set_ids, vec![300, 301]);
    let empty: KeyMap<ManagedPlacement> = KeyMap::new();
    let loaded = load_managed_state(&Some(ManagedDocument::Current(managed_records(&empty))));
    assert_eq!(loaded.len(), 0);
    assert_eq!(load_managed_state(&None).len(), 0);
}

#[test]
fn background_journal_round_trips_pending_and_external_block_state() {
    let process = key(91, 910);
    let original = state(ProcessEcoQosState::Unset, ProcessMemoryPriority::Normal);
    let desired = state(ProcessEcoQosState::Enabled, ProcessMemoryPriority::Normal);
    let record = ManagedBackgroundProcess {
        key: process,
        original,
        applied: original,
        ownership: ProcessEfficiencyOwnership::between(original, desired),
        pending: Some(desired),
        pending_ownership: Some(ProcessEfficiencyOwnership::between(original, desired)),
        blocked_by_external_override: ProcessEfficiencyOwnership {
            eco_qos: false,
            memory_priority: true,
        },
    };
    let mut managed: KeyMap<ManagedBackgroundProcess> = KeyMap::new();
    managed.insert(process, record);

    let records = background_records(&managed);
    assert_eq!(records, vec![record]);
    let loaded = load_background_state(Some(BackgroundDocument::Current(records))).unwrap();
    assert_eq!(loaded.len(), 1);
    assert_eq!(loaded.get(process), Some(&record));
    let empty: KeyMap<ManagedBackgroundProcess> = KeyMap::new();
    let records = background_records(&empty);
    assert_eq!(load_background_state(Some(BackgroundDocument::Current(records))).unwrap().len(), 0);
    assert_eq!(load_background_state(None).unwrap().len(), 0);
}

#[test]
fn schema_one_background_journal_migrates_to_property_ownership() {
    let legacy = |pid: u32, blocked: bool| LegacyManagedBackgroundProcess {
        key: key(pid, u64::from(pid) * 10),
        original: state(ProcessEcoQosState::Unset, ProcessMemoryPriority::Normal),
        applied: state(ProcessEcoQosState::Enabled, ProcessMemoryPriority::BelowNormal),
        pending: Some(state(ProcessEcoQosState::Enabled, ProcessMemoryPriority::Low)),
        blocked_by_external_override: blocked,
    };
    let document = BackgroundDocument::Legacy(vec![legacy(91, false), legacy(92, true)]);

    let migrated = load_background_state(Some(document)).unwrap();
    let record = migrated.get(key(91, 910)).unwrap();
    assert_eq!(
        record.ownership,
        ProcessEfficiencyOwnership { eco_qos: true, memory_priority: true }
    );
    assert_eq!(record.pending_ownership, Some(record.ownership));
    assert!(record.blocked_by_external_override.is_empty());
    let blocked = migrated.get(key(92, 920)).unwrap();
    assert!(blocked.ownership.is_empty());
    assert!(blocked.pending.is_none());
    assert!(blocked.pending_ownership.is_none());
    assert_eq!(
        blocked.blocked_by_external_override,
        ProcessEfficiencyOwnership { eco_qos: true, memory_priority: true }
    );
}

#[test]
fn schema_one_managed_state_migrates_to_exact_partition_records() {
    let process = key(78, 124);
    let document = ManagedDocument::Legacy(vec![LegacyManagedProcess {
        key: process,
        domain: domain(2),
    }]);

    let managed = load_managed_state(&Some(document));
    assert_eq!(managed.get(process).unwrap().anchor_domain, domain(2));
    assert!(managed.get(process).unwrap().cpu_set_ids.is_empty());
    let records = managed_records(&managed);
    assert_eq!(records.len(), 1);
    assert_eq!(records[0].key, process);
    assert!(records[0].placement.cpu_set_ids.is_empty());
}

#[test]
fn cleanup_retains_failed_assignments_in_the_journal() {
    let first = key(70, 700);
    let second = key(80, 800);
    let mut managed: KeyMap<ManagedPlacement> = KeyMap::new();
    managed.insert(first, placement(domain(1), &[300, 301]));
    managed.insert(second, placement(domain(1), &[300, 301]));

    let mut cleared = Vec::new();
    for at in 0..managed.len() {
        cleared.push(managed.key_at(at) == first);
    }
    let report = finish_placement_cleanup(&mut managed, &cleared);

    assert_eq!(report, CleanupReport { attempted: 2, cleared: 1, failed: 1 });
    assert_eq!(managed.len(), 1);
    assert_eq!(managed.get(second).unwrap().cpu_set_ids, vec![300, 301]);
    let loaded = load_managed_state(&Some(ManagedDocument::Current(managed_records(&managed))));
    assert_eq!(loaded.len(), 1);
    assert_eq!(loaded.get(second).unwrap().anchor_domain, domain(1));
}

#[test]
fn cleanup_persistence_failure_keeps_uncleared_ownership_in_memory() {
    let process = key(90, 900);
    let mut managed: KeyMap<ManagedPlacement> = KeyMap::new();
    managed.insert(process, placement(domain(1), &[300, 301]));

    // The directory of the journal is missing, so nothing can be written.
    let persist = |_: Vec<ManagedProcess>| -> Result<(), String> {
        Err("the system cannot find the path specified".to_owned())
    };

    let report = finish_placement_cleanup(&mut managed, &vec![false]);
    assert_eq!(report.failed, 1);
    let result = match persist(managed_records(&managed)) {
        Ok(()) => CleanupResult::Done(report),
        Err(error) => CleanupResult::Failed(error),
    };
    assert!(matches!(result, CleanupResult::Failed(_)));
    assert_eq!(managed.len(), 1);
    assert_eq!(managed.get(process).unwrap().anchor_domain, domain(1));
    assert_eq!(managed.get(process).unwrap().cpu_set_ids, vec![300, 301]);
    let clean = CleanupResult::Done(CleanupReport { attempted: 0, cleared: 0, failed: 0 });
    assert!(exit_cleanup_error(&result, &clean)
        .unwrap()
        .contains("the system cannot find the path specified"));
}

#[test]
fn runtime_state_defaults_from_mode_and_persists_user_choice() {
    let schema = 1;
    let initial = |mode: ControllerMode| RuntimeState {
        schema_version: schema,
        scheduling_enabled: mode == ControllerMode::Auto,
    };
    assert!(
        load_runtime_state(None, schema, initial(ControllerMode::Auto)).unwrap().scheduling_enabled
    );
    assert!(
        !load_runtime_state(None, schema, initial(ControllerMode::Observe))
            .unwrap()
            .scheduling_enabled
    );

    let disabled = RuntimeState { schema_version: schema, scheduling_enabled: false };
    assert_eq!(
        load_runtime_state(Some(disabled), schema, initial(ControllerMode::Auto)),
        Ok(disabled)
    );
    let foreign = RuntimeState { schema_version: 9, scheduling_enabled: false };
    assert_eq!(load_runtime_state(Some(foreign), schema, initial(ControllerMode::Auto)), Err(9));
}

#[test]
fn interrupted_legacy_atomic_write_recovers_the_backup_file() {
    let mut files: BTreeMap<&str, &'static str> = BTreeMap::from([("state.bak", "durable journal")]);
    let read = |files: &mut BTreeMap<&str, &'static str>, movable: bool| {
        let there = files.contains_key("state.json");
        match state_source(there, files.contains_key("state.bak")) {
            StateSource::Nothing => Ok(None),
            StateSource::File => Ok(Some(files["state.json"])),
            StateSource::Backup => {
                let contents = files["state.bak"];
                if movable {
                    files.remove("state.bak");
                    files.insert("state.json", contents);
                }
                if backup_recovered(movable, files.contains_key("state.json")) {
                    Ok(Some(contents))
                } else {
                    Err("access is denied")
                }
            }
        }
    };

    assert_eq!(read(&mut files, false), Err("access is denied"));
    assert_eq!(read(&mut files, true), Ok(Some("durable journal")));
    assert_eq!(files, BTreeMap::from([("state.json", "durable journal")]));
    assert_eq!(read(&mut files, true), Ok(Some("durable journal")));
    files.insert("state.bak", "older");
    assert_eq!(read(&mut files, true), Ok(Some("durable journal")));
    assert_eq!(read(&mut BTreeMap::new(), true), Ok(None));
    assert!(backup_recovered(false, true));
}

#[test]
fn broken_journals_are_refused() {
    assert_eq!(journal_format(1), Ok(JournalFormat::Legacy));
    assert_eq!(journal_format(2), Ok(JournalFormat::Current));
    assert_eq!(journal_format(3), Err(JournalError::StateSchema(3)));

    let original = state(ProcessEcoQosState::Unset, ProcessMemoryPriority::Normal);
    let desired = state(ProcessEcoQosState::Enabled, ProcessMemoryPriority::Low);
    let eco = ProcessEfficiencyOwnership { eco_qos: true, memory_priority: false };
    let sound = ManagedBackgroundProcess {
        key: key(1, 10),
        original,
        applied: desired,
        ownership: eco,
        pending: None,
        pending_ownership: None,
        blocked_by_external_override: ProcessEfficiencyOwnership::default(),
    };
    let load = |record: ManagedBackgroundProcess| {
        load_background_state(Some(BackgroundDocument::Current(vec![record])))
    };
    assert!(load(sound).is_ok());
    let broken = ManagedBackgroundProcess { pending: Some(desired), ..sound };
    assert!(matches!(load(broken), Err(JournalError::PendingWithoutItsOwnership)));
    let broken = ManagedBackgroundProcess {
        ownership: ProcessEfficiencyOwnership::default(),
        pending: Some(desired),
        pending_ownership: Some(ProcessEfficiencyOwnership::default()),
        ..sound
    };
    assert!(matches!(load(broken), Err(JournalError::PendingWithoutOwnership)));
    let broken = ManagedBackgroundProcess { blocked_by_external_override: eco, ..sound };
    assert!(matches!(load(broken), Err(JournalError::OwnedAndBlocked)));
    let memory = ProcessEfficiencyOwnership { eco_qos: false, memory_priority: true };
    let broken = ManagedBackgroundProcess {
        pending: Some(desired),
        pending_ownership: Some(memory),
        blocked_by_external_override: memory,
        ..sound
    };
    assert!(matches!(load(broken), Err(JournalError::PendingAndBlocked)));
    assert!(JournalError::StateSchema(3).message().contains('3'));
}

#[test]
fn cleanup_failures_are_told_together() {
    let done = CleanupReport { attempted: 2, cleared: 2, failed: 0 };
    let failed = CleanupReport { attempted: 2, cleared: 1, failed: 1 };
    assert_eq!(combined_cleanup_error(done, done), None);
    assert!(combined_cleanup_error(failed, done).is_some());
    assert!(combined_cleanup_error(done, failed).is_some());
}

#[test]
fn key_maps_keep_their_entries_in_order() {
    let mut map: KeyMap<u64> = KeyMap::new();
    for pid in [5, 1, 3, 2, 4] {
        map.insert(key(pid, 1), u64::from(pid) * 100);
    }
    map.insert(key(3, 1), 7);
    assert_eq!(map.len(), 5);
    let pids: Vec<u32> = (0..map.len()).map(|at| map.key_at(at).pid).collect();
    assert_eq!(pids, vec![1, 2, 3, 4, 5]);
    assert_eq!(map.get(key(3, 1)), Some(&7));
    map.remove(key(2, 1));
    assert!(!map.contains(key(2, 1)));
    map.retain_flagged(&vec![true, false, true, false]);
    let pids: Vec<u32> = (0..map.len()).map(|at| map.key_at(at).pid).collect();
    assert_eq!(pids, vec![1, 4]);
}
