use winsched_logic::background::memory_pressure;
use winsched_logic::background::owning_records;
use winsched_logic::background::retain_live;
use winsched_logic::background::BackgroundReconcileReport;
use winsched_logic::background::BackgroundRun;
use winsched_logic::background::PressureAnswer;
use winsched_logic::cleanup::finish_background_cleanup;
use winsched_logic::cleanup::CleanupReport;
use winsched_logic::cleanup::RestoreAnswer;
use winsched_logic::efficiency::apply_restore_report_to_record;
use winsched_logic::efficiency::configured_background_ownership;
use winsched_logic::efficiency::desired_background_state;
use winsched_logic::efficiency::external_override_mask;
use winsched_logic::efficiency::lower_memory_priority;
use winsched_logic::efficiency::rebase_unowned_efficiency;
use winsched_logic::efficiency::relinquish_external_overrides;
use winsched_logic::efficiency::BackgroundPolicy;
use winsched_logic::efficiency::ManagedBackgroundProcess;
use winsched_logic::efficiency::ProcessEcoQosState;
use winsched_logic::efficiency::ProcessEfficiencyOwnership;
use winsched_logic::efficiency::ProcessEfficiencyState;
use winsched_logic::efficiency::ProcessMemoryPriority;
use winsched_logic::efficiency::RestoreOutcome;
use winsched_logic::interactive::interactive_sessions;
use winsched_logic::interactive::interactive_state;
use winsched_logic::interactive::same_interactive_state_content;
use winsched_logic::interactive::should_send_report;
use winsched_logic::interactive::InteractiveActivity;
use winsched_logic::interactive::InteractiveActivityState;
use winsched_logic::interactive::SessionActivity;
use winsched_logic::journal::load_background_state;
use winsched_logic::journal::BackgroundDocument;
use winsched_logic::journal::LegacyManagedBackgroundProcess;
use winsched_logic::observed::ObservedProcess;
use winsched_logic::process::KeyMap;
use winsched_logic::process::ProcessKey;
use winsched_logic::protection::background_protection;
use winsched_logic::protection::expand_protected_descendants;
use winsched_logic::protection::BackgroundProtection;
use winsched_logic::turn::ApplyAnswer;
use winsched_logic::turn::QueryAnswer;
use winsched_logic::turn::TurnAction;
use winsched_logic::turn::TurnEvent;
use winsched_logic::turn::TurnNote;

const BOTH: ProcessEfficiencyOwnership =
    ProcessEfficiencyOwnership { eco_qos: true, memory_priority: true };

fn background_policy() -> BackgroundPolicy {
    BackgroundPolicy {
        eco_qos_enabled: true,
        memory_priority_enabled: true,
        memory_pressure_guard_enabled: true,
        protect_foreground: true,
        protect_visible: true,
        protect_audio: true,
    }
}

fn process(pid: u32, image: &str, cpu_time_100ns: u64) -> ObservedProcess {
    ObservedProcess {
        key: ProcessKey { pid, creation_time_100ns: u64::from(pid) * 10 },
        parent_pid: 0,
        session_id: Some(1),
        thread_count: 1,
        image_name: image.to_owned(),
        image_path: None,
        priority_class: None,
        cpu_time_100ns,
        default_cpu_set_ids: Vec::new(),
        current_domain: None,
        exclusion: None,
    }
}

fn activity_state(
    session_id: u32,
    foreground_pid: Option<u32>,
    visible_pids: Vec<u32>,
    audible_pids: Vec<u32>,
) -> InteractiveActivityState {
    InteractiveActivityState {
        schema_version: 1,
        session_id,
        source_pid: 900,
        source_creation_time_100ns: 9_000,
        window_probe_available: true,
        audio_probe_available: true,
        foreground_pid,
        visible_pids,
        audible_pids,
        updated_at_unix_ms: 1_000,
    }
}

fn sessions_of(states: Vec<InteractiveActivityState>) -> Vec<SessionActivity> {
    let fresh = vec![true; states.len()];
    interactive_sessions(&states, &fresh)
}

fn state(eco_qos: ProcessEcoQosState, memory_priority: ProcessMemoryPriority) -> ProcessEfficiencyState {
    ProcessEfficiencyState { eco_qos, memory_priority }
}

#[test]
fn interactive_guards_fail_closed_and_protect_the_exact_rule_cohort() {
    let policy = background_policy();
    let mut foreground = process(10, "worker.exe", 100);
    foreground.session_id = Some(2);
    let mut helper = process(20, "worker.exe", 100);
    helper.session_id = Some(2);
    helper.parent_pid = foreground.key.pid;
    let processes = vec![foreground, helper];

    let missing = sessions_of(Vec::new());
    assert_eq!(
        background_protection(&policy, &processes[1], &processes, &missing),
        Some(BackgroundProtection::ProbeUnavailable)
    );

    let sessions = sessions_of(vec![activity_state(2, Some(10), vec![10], Vec::new())]);
    assert_eq!(
        background_protection(&policy, &processes[1], &processes, &sessions),
        Some(BackgroundProtection::Foreground)
    );

    let sessions = sessions_of(vec![activity_state(2, Some(99), vec![99], Vec::new())]);
    assert_eq!(background_protection(&policy, &processes[1], &processes, &sessions), None);
}

#[test]
fn incomplete_audio_probe_blocks_background_policy() {
    let policy = background_policy();
    let mut worker = process(10, "worker.exe", 100);
    worker.session_id = Some(2);
    let mut state = activity_state(2, Some(99), vec![99], Vec::new());
    state.audio_probe_available = false;
    let sessions = sessions_of(vec![state]);
    let processes = vec![worker];
    assert_eq!(
        background_protection(&policy, &processes[0], &processes, &sessions),
        Some(BackgroundProtection::ProbeUnavailable)
    );
}

#[test]
fn stale_reports_say_nothing() {
    let policy = background_policy();
    let mut worker = process(10, "worker.exe", 100);
    worker.session_id = Some(2);
    let processes = vec![worker];
    let states = vec![activity_state(2, Some(99), vec![99], Vec::new())];
    let sessions = interactive_sessions(&states, &vec![false]);
    assert_eq!(
        background_protection(&policy, &processes[0], &processes, &sessions),
        Some(BackgroundProtection::ProbeUnavailable)
    );
}

#[test]
fn visible_and_audible_processes_are_protected_with_their_children() {
    let policy = background_policy();
    let mut parent = process(10, "player.exe", 100);
    parent.session_id = Some(2);
    let mut child = process(20, "codec.exe", 100);
    child.session_id = Some(2);
    child.parent_pid = 10;
    let mut grandchild = process(30, "mixer.exe", 100);
    grandchild.session_id = Some(2);
    grandchild.parent_pid = 20;
    let processes = vec![parent, child, grandchild];
    let sessions = sessions_of(vec![activity_state(2, Some(99), vec![10], Vec::new())]);
    assert_eq!(
        background_protection(&policy, &processes[2], &processes, &sessions),
        Some(BackgroundProtection::Visible)
    );
    let sessions = sessions_of(vec![activity_state(2, Some(99), Vec::new(), vec![20])]);
    assert_eq!(background_protection(&policy, &processes[0], &processes, &sessions), None);
    assert_eq!(
        background_protection(&policy, &processes[1], &processes, &sessions),
        Some(BackgroundProtection::Audio)
    );

    let mut protected = vec![10];
    expand_protected_descendants(&processes, 2, &mut protected);
    protected.sort_unstable();
    assert_eq!(protected, vec![10, 20, 30]);
}

#[test]
fn memory_pressure_only_strengthens_owned_background_memory_priority() {
    let policy = background_policy();
    let original = state(ProcessEcoQosState::Unset, ProcessMemoryPriority::Normal);
    assert_eq!(
        desired_background_state(policy, original, false),
        state(ProcessEcoQosState::Enabled, ProcessMemoryPriority::BelowNormal)
    );
    assert_eq!(
        desired_background_state(policy, original, true).memory_priority,
        ProcessMemoryPriority::Low
    );
}

#[test]
fn background_memory_priority_never_raises_an_existing_lower_priority() {
    let policy = background_policy();
    let cases = [
        (
            ProcessMemoryPriority::VeryLow,
            ProcessMemoryPriority::VeryLow,
            ProcessMemoryPriority::VeryLow,
        ),
        (ProcessMemoryPriority::Low, ProcessMemoryPriority::Low, ProcessMemoryPriority::Low),
        (ProcessMemoryPriority::Medium, ProcessMemoryPriority::Medium, ProcessMemoryPriority::Low),
        (
            ProcessMemoryPriority::BelowNormal,
            ProcessMemoryPriority::BelowNormal,
            ProcessMemoryPriority::Low,
        ),
        (
            ProcessMemoryPriority::Normal,
            ProcessMemoryPriority::BelowNormal,
            ProcessMemoryPriority::Low,
        ),
    ];
    for (original_priority, normal_pressure, low_pressure) in cases {
        let original = state(ProcessEcoQosState::Unset, original_priority);
        assert_eq!(
            desired_background_state(policy, original, false).memory_priority,
            normal_pressure
        );
        assert_eq!(desired_background_state(policy, original, true).memory_priority, low_pressure);
    }
}

#[test]
fn properties_that_are_off_are_left_alone() {
    let policy = BackgroundPolicy { memory_priority_enabled: false, ..background_policy() };
    let original = state(ProcessEcoQosState::Disabled, ProcessMemoryPriority::Normal);
    assert_eq!(
        desired_background_state(policy, original, true),
        state(ProcessEcoQosState::Enabled, ProcessMemoryPriority::Normal)
    );
    assert_eq!(
        configured_background_ownership(policy),
        ProcessEfficiencyOwnership { eco_qos: true, memory_priority: false }
    );
    assert_eq!(
        lower_memory_priority(ProcessMemoryPriority::Low, ProcessMemoryPriority::BelowNormal),
        ProcessMemoryPriority::Low
    );
}

#[test]
fn partial_restore_releases_the_successful_property_only() {
    let key = ProcessKey { pid: 93, creation_time_100ns: 930 };
    let original = state(ProcessEcoQosState::Unset, ProcessMemoryPriority::Normal);
    let applied = state(ProcessEcoQosState::Enabled, ProcessMemoryPriority::Low);
    let mut record = ManagedBackgroundProcess {
        key,
        original,
        applied,
        ownership: BOTH,
        pending: None,
        pending_ownership: None,
        blocked_by_external_override: ProcessEfficiencyOwnership::default(),
    };
    let outcome = RestoreOutcome {
        observed: state(original.eco_qos, applied.memory_priority),
        external_eco_qos_preserved: false,
        external_memory_priority_preserved: false,
        unrestored_ownership: ProcessEfficiencyOwnership { eco_qos: false, memory_priority: true },
    };

    let overridden = apply_restore_report_to_record(&mut record, &outcome);
    assert!(overridden.is_empty());
    assert_eq!(
        record.ownership,
        ProcessEfficiencyOwnership { eco_qos: false, memory_priority: true }
    );
    assert_eq!(record.original.eco_qos, ProcessEcoQosState::Unset);
    assert_eq!(record.original.memory_priority, ProcessMemoryPriority::Normal);
    assert_eq!(record.applied.memory_priority, ProcessMemoryPriority::Low);
}

#[test]
fn changes_of_others_are_let_go() {
    let key = ProcessKey { pid: 94, creation_time_100ns: 940 };
    let original = state(ProcessEcoQosState::Unset, ProcessMemoryPriority::Normal);
    let applied = state(ProcessEcoQosState::Enabled, ProcessMemoryPriority::Low);
    let mut record = ManagedBackgroundProcess {
        key,
        original,
        applied,
        ownership: BOTH,
        pending: None,
        pending_ownership: None,
        blocked_by_external_override: ProcessEfficiencyOwnership::default(),
    };
    let observed = state(ProcessEcoQosState::Enabled, ProcessMemoryPriority::Medium);
    let changed = external_override_mask(record.applied, observed, record.ownership);
    assert_eq!(changed, ProcessEfficiencyOwnership { eco_qos: false, memory_priority: true });
    relinquish_external_overrides(&mut record, observed, changed);
    assert_eq!(
        record.ownership,
        ProcessEfficiencyOwnership { eco_qos: true, memory_priority: false }
    );
    assert!(record.blocked_by_external_override.memory_priority);
    let later = state(ProcessEcoQosState::Disabled, ProcessMemoryPriority::VeryLow);
    rebase_unowned_efficiency(&mut record, later);
    assert_eq!(record.original.eco_qos, ProcessEcoQosState::Unset);
    assert_eq!(record.original.memory_priority, ProcessMemoryPriority::VeryLow);
}

/// One process and its efficiency settings.
struct Machine {
    state: ProcessEfficiencyState,
    alive: bool,
    writable: bool,
}

impl Machine {
    fn restore_one(&self, current: bool) -> bool {
        current && self.writable
    }

    fn answer(&mut self, action: &TurnAction) -> TurnEvent {
        match *action {
            TurnAction::Query => TurnEvent::Queried(if self.alive {
                QueryAnswer::Known(self.state)
            } else {
                QueryAnswer::Gone
            }),
            TurnAction::Save => TurnEvent::Saved,
            TurnAction::Restore { original, applied, ownership, pending } => {
                if !self.alive {
                    return TurnEvent::Restored(None);
                }
                let expected = pending.unwrap_or(applied);
                let mut outcome = RestoreOutcome {
                    observed: self.state,
                    external_eco_qos_preserved: false,
                    external_memory_priority_preserved: false,
                    unrestored_ownership: ProcessEfficiencyOwnership::default(),
                };
                if ownership.eco_qos {
                    let ours = self.state.eco_qos == applied.eco_qos
                        || self.state.eco_qos == expected.eco_qos;
                    if self.restore_one(ours) {
                        self.state.eco_qos = original.eco_qos;
                    } else if ours {
                        outcome.unrestored_ownership.eco_qos = true;
                    } else {
                        outcome.external_eco_qos_preserved = true;
                    }
                }
                if ownership.memory_priority {
                    let ours = self.state.memory_priority == applied.memory_priority
                        || self.state.memory_priority == expected.memory_priority;
                    if self.restore_one(ours) {
                        self.state.memory_priority = original.memory_priority;
                    } else if ours {
                        outcome.unrestored_ownership.memory_priority = true;
                    } else {
                        outcome.external_memory_priority_preserved = true;
                    }
                }
                outcome.observed = self.state;
                TurnEvent::Restored(Some(outcome))
            }
            TurnAction::Apply { current, desired, .. } => TurnEvent::Applied(if !self.writable {
                ApplyAnswer::Failed
            } else if self.state == current {
                self.state = desired;
                ApplyAnswer::Applied(desired)
            } else {
                ApplyAnswer::OwnershipChanged
            }),
            TurnAction::Finish => unreachable!("nothing follows the end"),
        }
    }
}

struct Evaluation {
    report: BackgroundReconcileReport,
    actions: Vec<TurnAction>,
    notes: Vec<TurnNote>,
}

fn reconcile(
    machine: &mut Machine,
    processes: Vec<ObservedProcess>,
    rule: Vec<bool>,
    states: Vec<InteractiveActivityState>,
    active: bool,
    kept: &mut (KeyMap<u8>, KeyMap<ManagedBackgroundProcess>),
) -> Evaluation {
    let streaks = std::mem::replace(&mut kept.0, KeyMap::new());
    let journal = std::mem::replace(&mut kept.1, KeyMap::new());
    let (mut run, _save) = BackgroundRun::begin(
        background_policy(),
        1,
        active,
        processes,
        rule,
        sessions_of(states),
        Some(false),
        true,
        streaks,
        journal,
    );
    let mut actions = Vec::new();
    let mut notes = Vec::new();
    while let Some(mut action) = run.begin_process() {
        while !matches!(action, TurnAction::Finish) {
            actions.push(action);
            let event = machine.answer(&action);
            let (next, note) = run.resume(event, Some("injected".to_owned()));
            action = next;
            notes.push(note);
        }
    }
    let (report, journal, streaks) = run.finish();
    kept.0 = streaks;
    kept.1 = journal;
    Evaluation { report, actions, notes }
}

#[test]
fn sensor_status_counts_only_ready_required_sessions() {
    let mut required = process(10, "worker.exe", 100);
    required.session_id = Some(1);
    let unrelated = activity_state(2, Some(99), vec![99], Vec::new());
    let mut kept = (KeyMap::new(), KeyMap::new());
    let mut machine = Machine {
        state: state(ProcessEcoQosState::Unset, ProcessMemoryPriority::Normal),
        alive: true,
        writable: true,
    };
    let evaluation = reconcile(
        &mut machine,
        vec![required],
        vec![true],
        vec![unrelated],
        true,
        &mut kept,
    );
    assert_eq!(evaluation.report.status.required_probe_sessions, 1);
    assert_eq!(evaluation.report.status.interactive_probe_sessions, 0);
    assert_eq!(evaluation.report.status.protected_processes, 1);
}

#[test]
fn background_reconciler_applies_then_restores_a_real_owned_child() {
    let pid = 4_242;
    let original = state(ProcessEcoQosState::Unset, ProcessMemoryPriority::Normal);
    let mut machine = Machine { state: original, alive: true, writable: true };
    let mut kept = (KeyMap::new(), KeyMap::new());
    let clear = || vec![activity_state(1, Some(u32::MAX), Vec::new(), Vec::new())];
    let child = || vec![process(pid, "cmd.exe", 100)];

    reconcile(&mut machine, child(), vec![true], clear(), true, &mut kept);
    assert_eq!(kept.1.len(), 0);
    let applied = reconcile(&mut machine, child(), vec![true], clear(), true, &mut kept);
    assert_eq!(applied.report.status.managed_processes, 1);
    assert_eq!(machine.state.eco_qos, ProcessEcoQosState::Enabled);
    assert_eq!(machine.state.memory_priority, ProcessMemoryPriority::BelowNormal);
    let save = applied.actions.iter().position(|action| matches!(action, TurnAction::Save));
    let apply = applied.actions.iter().position(|action| matches!(action, TurnAction::Apply { .. }));
    assert!(save.unwrap() < apply.unwrap());
    assert_eq!(owning_records(&kept.1), 1);

    let visible = vec![activity_state(1, Some(pid), vec![pid], Vec::new())];
    let restored = reconcile(&mut machine, child(), vec![true], visible, true, &mut kept);
    assert_eq!(restored.report.status.protected_processes, 1);
    assert_eq!(kept.1.len(), 0);
    assert_eq!(machine.state, original);
}

#[test]
fn external_memory_override_survives_visible_veto_and_eco_reapply() {
    let pid = 4_243;
    let original = state(ProcessEcoQosState::Unset, ProcessMemoryPriority::Normal);
    let mut machine = Machine { state: original, alive: true, writable: true };
    let mut kept = (KeyMap::new(), KeyMap::new());
    let clear = || vec![activity_state(1, Some(u32::MAX), Vec::new(), Vec::new())];
    let child = || vec![process(pid, "cmd.exe", 100)];
    for _ in 0..2 {
        reconcile(&mut machine, child(), vec![true], clear(), true, &mut kept);
    }
    assert_eq!(machine.state.memory_priority, ProcessMemoryPriority::BelowNormal);
    machine.state.memory_priority = ProcessMemoryPriority::Medium;
    reconcile(&mut machine, child(), vec![true], clear(), true, &mut kept);
    let visible = vec![activity_state(1, Some(pid), vec![pid], Vec::new())];
    reconcile(&mut machine, child(), vec![true], visible, true, &mut kept);

    let key = ProcessKey { pid, creation_time_100ns: u64::from(pid) * 10 };
    let blocked = *kept.1.get(key).unwrap();
    assert!(blocked.ownership.is_empty());
    assert!(blocked.blocked_by_external_override.memory_priority);
    assert_eq!(machine.state.eco_qos, original.eco_qos);
    assert_eq!(machine.state.memory_priority, ProcessMemoryPriority::Medium);

    for expected_eco in [original.eco_qos, ProcessEcoQosState::Enabled] {
        reconcile(&mut machine, child(), vec![true], clear(), true, &mut kept);
        assert_eq!(machine.state.eco_qos, expected_eco);
        assert_eq!(machine.state.memory_priority, ProcessMemoryPriority::Medium);
    }
    let record = *kept.1.get(key).unwrap();
    let event = machine.answer(&TurnAction::Restore {
        original: record.original,
        applied: record.applied,
        ownership: record.ownership,
        pending: record.pending,
    });
    let TurnEvent::Restored(Some(outcome)) = event else {
        panic!("a living process is restored");
    };
    let report = finish_background_cleanup(&mut kept.1, &vec![RestoreAnswer::Restored(outcome)]);
    assert_eq!(report.failed, 0);
    assert_eq!(machine.state.eco_qos, original.eco_qos);
    assert_eq!(machine.state.memory_priority, ProcessMemoryPriority::Medium);
}

#[test]
fn evaluations_that_may_not_change_anything_never_apply() {
    let original = state(ProcessEcoQosState::Unset, ProcessMemoryPriority::Normal);
    let mut machine = Machine { state: original, alive: true, writable: true };
    let mut kept = (KeyMap::new(), KeyMap::new());
    for _ in 0..4 {
        let evaluation = reconcile(
            &mut machine,
            vec![process(7, "worker.exe", 1)],
            vec![true],
            vec![activity_state(1, Some(u32::MAX), Vec::new(), Vec::new())],
            false,
            &mut kept,
        );
        assert!(!evaluation.actions.iter().any(|action| matches!(action, TurnAction::Apply { .. })));
    }
    assert_eq!(machine.state, original);
}

#[test]
fn failed_restores_stay_in_the_journal() {
    let mut machine = Machine {
        state: state(ProcessEcoQosState::Unset, ProcessMemoryPriority::Normal),
        alive: true,
        writable: true,
    };
    let mut kept = (KeyMap::new(), KeyMap::new());
    let clear = || vec![activity_state(1, Some(u32::MAX), Vec::new(), Vec::new())];
    for _ in 0..2 {
        reconcile(&mut machine, vec![process(7, "a.exe", 1)], vec![true], clear(), true, &mut kept);
    }
    machine.writable = false;
    let evaluation =
        reconcile(&mut machine, vec![process(7, "a.exe", 1)], vec![false], clear(), true, &mut kept);
    assert!(evaluation.notes.iter().any(|note| matches!(
        note,
        TurnNote::Released { complete: false, .. }
    )));
    let key = ProcessKey { pid: 7, creation_time_100ns: 70 };
    assert_eq!(kept.1.get(key).unwrap().ownership, BOTH);

    let report = finish_background_cleanup(&mut kept.1, &vec![RestoreAnswer::Failed]);
    assert_eq!(report, CleanupReport { attempted: 1, cleared: 0, failed: 1 });
    assert_eq!(kept.1.len(), 1);
    let report = finish_background_cleanup(&mut kept.1, &vec![RestoreAnswer::Gone]);
    assert_eq!(report, CleanupReport { attempted: 1, cleared: 1, failed: 0 });
    assert_eq!(kept.1.len(), 0);
}

#[test]
fn dead_processes_are_forgotten() {
    let mut machine = Machine {
        state: state(ProcessEcoQosState::Unset, ProcessMemoryPriority::Normal),
        alive: true,
        writable: true,
    };
    let mut kept = (KeyMap::new(), KeyMap::new());
    let clear = || vec![activity_state(1, Some(u32::MAX), Vec::new(), Vec::new())];
    for _ in 0..2 {
        reconcile(&mut machine, vec![process(7, "a.exe", 1)], vec![true], clear(), true, &mut kept);
    }
    assert_eq!(kept.1.len(), 1);
    reconcile(&mut machine, Vec::new(), Vec::new(), clear(), true, &mut kept);
    assert_eq!(kept.1.len(), 0);
}

#[test]
fn reports_are_sent_when_they_change_and_as_heartbeats() {
    let source = ProcessKey { pid: 5, creation_time_100ns: 50 };
    let activity = InteractiveActivity {
        session_id: 1,
        window_probe_available: true,
        audio_probe_available: true,
        foreground_pid: Some(3),
        visible_pids: vec![9, 3, 9],
        audible_pids: vec![4, 4],
    };
    let first = interactive_state(&activity, &source, 1, 100);
    assert_eq!(first.visible_pids, vec![3, 9]);
    assert_eq!(first.audible_pids, vec![4]);
    assert_eq!(first.source_pid, 5);
    let later = interactive_state(&activity, &source, 1, 200);
    assert!(same_interactive_state_content(&first, &later));
    assert!(should_send_report(None, &first, 0, 1_000));
    assert!(!should_send_report(Some(&first), &later, 999, 1_000));
    assert!(should_send_report(Some(&first), &later, 1_000, 1_000));
    let moved = InteractiveActivity { foreground_pid: Some(9), ..activity };
    let moved = interactive_state(&moved, &source, 1, 300);
    assert!(should_send_report(Some(&first), &moved, 0, 1_000));
}

#[test]
fn announcements_that_change_nothing_are_dropped() {
    let pid = 42;
    let key = ProcessKey { pid, creation_time_100ns: u64::from(pid) * 10 };
    let normal = state(ProcessEcoQosState::Unset, ProcessMemoryPriority::Normal);
    let journal = load_background_state(Some(BackgroundDocument::Legacy(vec![
        LegacyManagedBackgroundProcess {
            key,
            original: normal,
            applied: normal,
            pending: Some(normal),
            blocked_by_external_override: false,
        },
    ])))
    .unwrap();
    assert!(journal.get(key).unwrap().ownership.is_empty());
    let mut machine = Machine { state: normal, alive: true, writable: true };
    let mut kept = (KeyMap::new(), journal);
    let seen = reconcile(
        &mut machine,
        vec![process(pid, "cmd.exe", 100)],
        vec![true],
        vec![activity_state(1, Some(u32::MAX), Vec::new(), Vec::new())],
        true,
        &mut kept,
    );
    assert!(seen.actions.contains(&TurnAction::Save));
    assert!(!seen.actions.iter().any(|action| matches!(action, TurnAction::Apply { .. })));
    assert_eq!(kept.1.get(key).unwrap().pending, None);
}

#[test]
fn a_failed_reading_of_the_memory_keeps_the_last_one() {
    let mut last = None;
    assert_eq!(memory_pressure(PressureAnswer::Failed, &mut last), (None, false));
    assert_eq!(memory_pressure(PressureAnswer::Read(true), &mut last), (Some(true), true));
    assert_eq!(memory_pressure(PressureAnswer::Failed, &mut last), (Some(true), false));
    assert_eq!(memory_pressure(PressureAnswer::NoMonitor, &mut last), (None, false));
    assert_eq!(last, Some(true));
}

#[test]
fn only_the_entries_of_living_processes_are_kept() {
    let mut times = KeyMap::new();
    for pid in [1u32, 2, 3] {
        times.insert(ProcessKey { pid, creation_time_100ns: u64::from(pid) * 10 }, pid);
    }
    retain_live(&mut times, &vec![process(3, "c.exe", 1), process(1, "a.exe", 1)]);
    assert_eq!(times.len(), 2);
    assert_eq!(times.get(ProcessKey { pid: 3, creation_time_100ns: 30 }), Some(&3));
    assert!(!times.contains(ProcessKey { pid: 2, creation_time_100ns: 20 }));
}
