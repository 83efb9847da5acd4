use std::time::Duration;

use winsched_logic::efficiency::ProcessEcoQosState;
use winsched_logic::efficiency::ProcessEfficiencyState;
use winsched_logic::efficiency::ProcessMemoryPriority;
use winsched_logic::language::detect_language;
use winsched_logic::language::Language;
use winsched_logic::monitor::activation_event_name;
use winsched_logic::monitor::monitor_launch_options;
use winsched_logic::monitor::query_service_state;
use winsched_logic::monitor::read_managed_keys;
use winsched_logic::monitor::sampling_active;
use winsched_logic::monitor::service_label;
use winsched_logic::monitor::session_filter;
use winsched_logic::monitor::settings_launch_error;
use winsched_logic::monitor::settings_parameters;
use winsched_logic::monitor::snapshot_self_test;
use winsched_logic::monitor::startup_error;
use winsched_logic::monitor::HeaderStatus;
use winsched_logic::monitor::LaunchChoice;
use winsched_logic::monitor::LaunchFault;
use winsched_logic::monitor::MonitoredService;
use winsched_logic::monitor::ProcessMonitor;
use winsched_logic::monitor::ServiceAnswer;
use winsched_logic::monitor::Snapshot;
use winsched_logic::monitor::WindowProgram;
use winsched_logic::observations::ControllerMode;
use winsched_logic::observations::EnforcementMode;
use winsched_logic::observations::PlacementMode;
use winsched_logic::observations::ResolvedRule;
use winsched_logic::observations::WorkloadProfile;
use winsched_logic::observed::ExclusionReason;
use winsched_logic::observed::LlcDomainKey;
use winsched_logic::observed::ObservedProcess;
use winsched_logic::panel::ItemKind;
use winsched_logic::process::ProcessKey;
use winsched_logic::process_rows::column_titles;
use winsched_logic::process_rows::cpu_basis_points;
use winsched_logic::process_rows::format_mib;
use winsched_logic::process_rows::priority_label;
use winsched_logic::process_rows::process_scope_label;
use winsched_logic::process_rows::process_table;
use winsched_logic::process_rows::row_cells;
use winsched_logic::process_rows::row_matches;
use winsched_logic::process_rows::row_menu;
use winsched_logic::process_rows::MonitoredProcess;
use winsched_logic::provision::ServiceState;
use winsched_logic::rules::ProcessRule;
use winsched_logic::rules::RuleMode;

#[test]
fn cpu_percent_uses_one_core_capacity_and_rejects_regression() {
    assert_eq!(
        cpu_basis_points(10_000_000, 15_000_000, Duration::from_secs(1).as_nanos()),
        Some(5_000)
    );
    assert_eq!(
        cpu_basis_points(15_000_000, 10_000_000, Duration::from_secs(1).as_nanos()),
        None
    );
    assert_eq!(cpu_basis_points(1, 2, 0), None);
    assert_eq!(cpu_basis_points(0, u64::MAX, 1), Some(u32::MAX));
}

fn worker_rule() -> ProcessRule {
    ProcessRule {
        image: "worker.exe".to_owned(),
        mode: RuleMode::Auto,
        profile: WorkloadProfile::Memory,
        group: None,
        llc: None,
    }
}

#[test]
fn exact_rule_label_takes_precedence() {
    let rules = vec![worker_rule()];
    assert_eq!(
        process_scope_label(true, rules.first(), None, None),
        "Exact: Auto/Memory"
    );
    assert_eq!(
        process_scope_label(true, rules.first(), None, Some(ExclusionReason::SystemProcess)),
        "Excluded: SystemProcess"
    );
    assert_eq!(process_scope_label(false, None, None, None), "Config unavailable");
    assert_eq!(process_scope_label(true, None, None, None), "Out of scope");
    let strict = ResolvedRule {
        placement: PlacementMode::Strict(LlcDomainKey { group: 1, last_level_cache_index: 2 }),
        enforcement: EnforcementMode::Apply,
        profile: WorkloadProfile::Balanced,
    };
    assert_eq!(
        process_scope_label(true, None, Some(strict), None),
        "Default: Strict(LlcDomainKey { group: 1, last_level_cache_index: 2 })/Balanced"
    );
}

#[test]
fn process_sampling_requires_a_focused_visible_window() {
    assert!(sampling_active(Some(true), Some(false), Some(false)));
    assert!(!sampling_active(Some(false), Some(false), Some(false)));
    assert!(!sampling_active(Some(true), Some(true), Some(false)));
    assert!(!sampling_active(Some(true), Some(false), Some(true)));
    assert!(!sampling_active(None, Some(false), Some(false)));
}

fn monitored(pid: u32, image: &str, cpu_time_100ns: u64) -> MonitoredProcess {
    MonitoredProcess {
        process: ObservedProcess {
            key: ProcessKey { pid, creation_time_100ns: 1 },
            parent_pid: 0,
            session_id: Some(1),
            thread_count: 4,
            image_name: image.to_owned(),
            image_path: None,
            priority_class: Some(0x20),
            cpu_time_100ns,
            default_cpu_set_ids: Vec::new(),
            current_domain: Some(LlcDomainKey { group: 0, last_level_cache_index: 3 }),
            exclusion: None,
        },
        working_set_bytes: Some(1_572_864),
        efficiency: Some(ProcessEfficiencyState {
            eco_qos: ProcessEcoQosState::Enabled,
            memory_priority: ProcessMemoryPriority::Low,
        }),
    }
}

fn snapshot(captured_ns: u64, processes: Vec<MonitoredProcess>) -> Snapshot {
    let resolved = processes.iter().map(|_| None).collect();
    Snapshot {
        captured_ns,
        service: MonitoredService::Running,
        status: None,
        rules: Some(vec![worker_rule()]),
        managed: vec![ProcessKey { pid: 1, creation_time_100ns: 1 }],
        processes,
        resolved,
    }
}

#[test]
fn rows_are_ordered_by_use_then_name_then_number() {
    let mut monitor = ProcessMonitor::new(Language::English, 0);
    let first = vec![
        monitored(1, "b.exe", 0),
        monitored(2, "a.exe", 0),
        monitored(4, "WORKER.exe", 0),
        monitored(3, "a.exe", 0),
    ];
    monitor.apply_snapshot(snapshot(0, first), 0);
    let pids: Vec<u32> = monitor.rows().iter().map(|row| row.key.pid).collect();
    assert_eq!(pids, vec![4, 2, 3, 1]);
    assert!(monitor.rows().iter().all(|row| row.cpu_basis_points.is_none()));

    let mut second = vec![
        monitored(1, "b.exe", 5_000_000),
        monitored(2, "a.exe", 0),
        monitored(4, "WORKER.exe", 10_000_000),
        monitored(9, "new.exe", 10_000_000),
    ];
    second[1].process.default_cpu_set_ids = vec![256, 257];
    monitor.apply_snapshot(snapshot(1_000_000_000, second), 1_000);
    let rows = monitor.rows();
    let pids: Vec<u32> = rows.iter().map(|row| row.key.pid).collect();
    assert_eq!(pids, vec![4, 1, 2, 9]);
    assert_eq!(rows[0].cpu_basis_points, Some(10_000));
    assert!(rows[0].has_exact_rule);
    assert_eq!(rows[0].scope, "Exact: Auto/Memory");
    assert_eq!(rows[1].assignment, "WinSched");
    assert_eq!(rows[2].assignment, "External");
    assert_eq!(rows[3].assignment, "None");
    assert_eq!(rows[3].cpu_basis_points, None);
    assert_eq!(
        row_cells(&rows[1]),
        vec![
            "b.exe", "1", "1", "50.00", "1.5 MiB", "4", "Normal", "\u{2014}", "0:3", "Enabled",
            "Low", "Out of scope", "WinSched"
        ]
    );
    assert_eq!(row_cells(&rows[2])[7], "256,257");
    assert_eq!(column_titles(Language::English).len(), row_cells(&rows[0]).len());
    assert_eq!(column_titles(Language::Russian)[0], "Процесс");

    assert!(row_matches(&rows[0], " worker "));
    assert!(row_matches(&rows[0], "4"));
    assert!(row_matches(&rows[0], "  "));
    assert!(!row_matches(&rows[0], "b.exe"));

    let lines = process_table(rows, "EXE", Language::English);
    assert_eq!(lines.len(), 4);
    let lines = process_table(rows, "W", Language::English);
    let shown: Vec<&str> = lines.iter().map(|line| line.cells[0].as_str()).collect();
    assert_eq!(shown, vec!["WORKER.exe", "new.exe"]);
    assert_eq!(lines[0].menu.label, "Edit exact rule\u{2026}");
}

#[test]
fn rules_are_offered_unless_a_process_is_excluded() {
    let mut monitor = ProcessMonitor::new(Language::English, 0);
    let mut excluded = monitored(1, "csrss.exe", 0);
    excluded.process.exclusion = Some(ExclusionReason::ProtectedProcess);
    monitor.apply_snapshot(
        snapshot(0, vec![excluded, monitored(2, "worker.exe", 0), monitored(3, "x.exe", 0)]),
        0,
    );
    let menu = row_menu(&monitor.rows()[0], Language::English);
    assert!(!menu.allowed);
    assert!(menu.refusal.is_some());
    let menu = row_menu(&monitor.rows()[1], Language::English);
    assert!(menu.allowed);
    assert_eq!(menu.label, "Edit exact rule\u{2026}");
    let menu = row_menu(&monitor.rows()[2], Language::Russian);
    assert_eq!(menu.label, "Создать точное правило\u{2026}");
    assert!(menu.refusal.is_none());
}

#[test]
fn only_active_windows_look_at_processes() {
    let mut monitor = ProcessMonitor::new(Language::English, 100);
    assert!(!monitor.tick(true, 99));
    assert!(monitor.tick(true, 100));
    assert!(monitor.start_refresh());
    assert!(!monitor.start_refresh());
    assert!(!monitor.tick(true, 200));
    monitor.take_failure("no".to_owned(), 300);
    assert!(!monitor.tick(true, 1_299));
    assert!(monitor.tick(true, 1_300));
    assert!(!monitor.tick(false, 1_400));
    assert!(monitor.tick(true, 1_400));
    monitor.start_refresh();
    assert_eq!(monitor.snapshots_started(), 2);
    monitor.take_disconnect(2_000);
    assert!(!monitor.is_pending());
    let (_, details) = monitor.status_header(0);
    assert_eq!(details.items[0].text, "snapshot worker exited without a result");
    monitor.start_refresh();
    monitor.note_start_failure("full");
    assert!(!monitor.is_pending());
    let (_, details) = monitor.status_header(0);
    assert_eq!(details.items[0].text, "cannot start snapshot worker: full");
}

fn header_status() -> HeaderStatus {
    HeaderStatus {
        schema_version: 6,
        scheduling_enabled: true,
        managed_processes: 3,
        configured_mode: ControllerMode::Auto,
        updated_at_unix_ms: 1_000,
        reserved_physical_cores: 2,
        physical_core_count: 16,
        p99_lateness_us: 250,
        background_managed: 4,
        background_protected: 5,
        last_activity: None,
        last_error: Some("late".to_owned()),
    }
}

#[test]
fn the_header_tells_of_the_service() {
    let mut monitor = ProcessMonitor::new(Language::English, 0);
    let mut seen = snapshot(0, Vec::new());
    seen.status = Some(header_status());
    monitor.apply_snapshot(seen, 0);
    let (line, details) = monitor.status_header(76_001);
    let texts: Vec<&str> = line.items.iter().map(|item| item.text.as_str()).collect();
    assert_eq!(
        texts,
        vec![
            "WinSched Processes",
            "Service: Running",
            "Scheduling: Enabled",
            "Managed: 3",
            "Mode: Auto",
            "Snapshots: 1"
        ]
    );
    let texts: Vec<&str> = details.items.iter().map(|item| item.text.as_str()).collect();
    assert_eq!(
        texts,
        vec![
            "Service status heartbeat is stale.",
            "System reserve: 2/16 cores",
            "Scheduler p99: 250 µs",
            "Background: 4 managed / 5 protected",
            "Last activity: \u{2014}",
            "Error: late"
        ]
    );
    assert!(matches!(details.items[0].kind, ItemKind::Warning));
    assert!(matches!(details.items[5].kind, ItemKind::Failure));
    let (_, fresh) = monitor.status_header(76_000);
    assert_eq!(fresh.items.len(), 5);
    assert_eq!(service_label(MonitoredService::Missing, Language::Russian), "Не установлена");
}

#[test]
fn priorities_are_named_or_numbered() {
    assert_eq!(priority_label(None), "\u{2014}");
    assert_eq!(priority_label(Some(0x100)), "Realtime");
    assert_eq!(priority_label(Some(0x4000)), "Below Normal");
    assert_eq!(priority_label(Some(0xbeef)), "0xBEEF");
    assert_eq!(priority_label(Some(0)), "0x0");
    assert_eq!(format_mib(0), "0.0 MiB");
    assert_eq!(format_mib(u64::MAX), "1759218604441.5 MiB");
}

#[test]
fn arguments_are_understood_or_refused() {
    assert_eq!(monitor_launch_options(None, 0), Ok(LaunchChoice::Window));
    assert_eq!(
        monitor_launch_options(Some("--snapshot-self-test"), 1),
        Ok(LaunchChoice::SnapshotSelfTest)
    );
    assert_eq!(
        monitor_launch_options(Some("--test-observation-file"), 1),
        Ok(LaunchChoice::TestObservation)
    );
    assert_eq!(
        monitor_launch_options(Some("--help"), 1),
        Err(LaunchFault::UnsupportedArgument)
    );
    assert_eq!(
        monitor_launch_options(Some("--snapshot-self-test"), 0),
        Err(LaunchFault::OutputMissing)
    );
    assert_eq!(
        monitor_launch_options(Some("--snapshot-self-test"), 2),
        Err(LaunchFault::ArgumentsLeft)
    );
    assert_eq!(
        LaunchFault::OutputMissing.message(),
        "Process Monitor test option requires an output path"
    );
}

#[test]
fn self_tests_need_some_process_details() {
    let mut bare = monitored(1, "a.exe", 0);
    bare.working_set_bytes = None;
    bare.efficiency = None;
    let receipt = snapshot_self_test(&snapshot(0, vec![bare, monitored(2, "b.exe", 0)]));
    assert!(receipt.passed);
    assert_eq!(receipt.result, "PASS");
    assert_eq!((receipt.processes, receipt.working_set_available), (2, 1));
    assert_eq!((receipt.efficiency_available, receipt.cpu_set_assignments), (1, 0));
    assert_eq!(receipt.service, "Running");
    assert_eq!(receipt.status_schema, None);
    let mut told = snapshot(0, Vec::new());
    told.status = Some(header_status());
    assert_eq!(snapshot_self_test(&told).status_schema, Some(6));
    let receipt = snapshot_self_test(&snapshot(0, Vec::new()));
    assert_eq!(receipt.result, "FAIL");
}

#[test]
fn small_answers_of_the_monitor() {
    assert_eq!(session_filter(true, 4), None);
    assert_eq!(session_filter(false, 4), Some(4));
    let key = ProcessKey { pid: 1, creation_time_100ns: 2 };
    assert_eq!(read_managed_keys(Some((2, vec![key]))), vec![key]);
    assert!(read_managed_keys(Some((1, vec![key]))).is_empty());
    assert!(read_managed_keys(None).is_empty());
    assert_eq!(
        settings_parameters(Some("game.exe")),
        Some("--rule-image \"game.exe\"".to_owned())
    );
    assert_eq!(settings_parameters(None), None);
    assert_eq!(settings_launch_error(33), None);
    assert_eq!(
        settings_launch_error(-1),
        Some("ShellExecuteW failed with code -1".to_owned())
    );
    assert_eq!(
        activation_event_name(WindowProgram::Monitor, 3),
        "Local\\WinSchedMonitorActivate-3"
    );
    assert_eq!(
        activation_event_name(WindowProgram::Settings, 12),
        "Local\\WinSchedSettingsActivate-12"
    );
    assert_eq!(
        query_service_state(ServiceAnswer::State(ServiceState::PausePending)),
        MonitoredService::Other
    );
    assert_eq!(
        query_service_state(ServiceAnswer::Refused(Some(1060))),
        MonitoredService::Missing
    );
    assert_eq!(query_service_state(ServiceAnswer::Refused(None)), MonitoredService::Error);
}

#[test]
fn russian_is_spoken_where_any_locale_names_it() {
    let none: Vec<String> = Vec::new();
    assert_eq!(detect_language(&none, None), Language::English);
    assert_eq!(detect_language(&none, Some("RU-ru")), Language::Russian);
    assert_eq!(
        detect_language(&vec!["en_US".to_owned(), "Ru_RU.UTF-8".to_owned()], Some("en-US")),
        Language::Russian
    );
    assert_eq!(detect_language(&vec!["r".to_owned()], Some("de-DE")), Language::English);
}

#[test]
fn programs_that_cannot_start_say_so() {
    let (title, text) = startup_error(WindowProgram::Settings, "no display");
    assert_eq!(title, "WinSched Settings / Настройки WinSched");
    assert_eq!(
        text,
        "WinSched Settings could not start. / Не удалось запустить настройки WinSched.\n\nno display"
    );
    let (title, text) = startup_error(WindowProgram::Monitor, "");
    assert_eq!(title, "WinSched Process Monitor / Монитор процессов WinSched");
    assert!(text.ends_with("\n\n"));
}
