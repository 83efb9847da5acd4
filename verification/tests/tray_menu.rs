use winsched_logic::background::BackgroundEfficiencyStatus;
use winsched_logic::controller::AppliedSettings;
use winsched_logic::controller::ConfigReloadResult;
use winsched_logic::controller::ControllerPhase;
use winsched_logic::controller::ControllerStatus;
use winsched_logic::controller::ResponsivenessSettings;
use winsched_logic::efficiency::BackgroundPolicy;
use winsched_logic::icon::icon_of;
use winsched_logic::icon::load_icon;
use winsched_logic::icon::IconError;
use winsched_logic::observations::ControllerMode;
use winsched_logic::provision::ServiceState;
use winsched_logic::responsiveness_log::ResponsivenessPressure;
use winsched_logic::settings_config::BackgroundSettings;
use winsched_logic::settings_config::LoggingLevel;
use winsched_logic::settings_config::LoggingSettings;
use winsched_logic::tray::about_details;
use winsched_logic::tray::build_menu_model;
use winsched_logic::tray::lock_is_taken;
use winsched_logic::tray::latency_line;
use winsched_logic::tray::menu_command;
use winsched_logic::tray::menu_text;
use winsched_logic::tray::query_service_state;
use winsched_logic::tray::reserve_line;
use winsched_logic::tray::shell_error;
use winsched_logic::tray::stale_error;
use winsched_logic::tray::status_read_error;
use winsched_logic::tray::visible_error;
use winsched_logic::tray::MenuCommand;
use winsched_logic::tray::GITHUB_URL;
use winsched_logic::tray::ServiceQuery;
use winsched_logic::tray::ServiceViewState;
use winsched_logic::tray::StatusRead;

fn applied(mode: ControllerMode) -> AppliedSettings {
    AppliedSettings {
        mode,
        fingerprint: 5,
        logging: LoggingSettings {
            level: LoggingLevel::Normal,
            max_file_size_mib: 10,
            retained_archives: 3,
        },
        background_efficiency: BackgroundSettings {
            enabled: false,
            policy: BackgroundPolicy {
                eco_qos_enabled: true,
                memory_priority_enabled: true,
                memory_pressure_guard_enabled: true,
                protect_foreground: true,
                protect_visible: true,
                protect_audio: true,
            },
        },
        responsiveness: ResponsivenessSettings {
            enabled: false,
            latency_guard_enabled: true,
            latency_target_p99_us: 2_000,
            latency_recovery_p99_us: 1_000,
            adjustment_stability_samples: 3,
            system_reserve_percent: 5,
            minimum_reserved_cores: 1,
            maximum_reserved_cores: 4,
            memory_minimum_physical_cores: 2,
            memory_maximum_physical_cores: 28,
            memory_use_smt: false,
            memory_resize_cooldown_ms: 30_000,
        },
    }
}

fn status(enabled: bool, mode: ControllerMode) -> ControllerStatus {
    ControllerStatus {
        phase: if enabled { ControllerPhase::Running } else { ControllerPhase::Disabled },
        configured_mode: mode,
        applied: applied(mode),
        scheduling_enabled: enabled,
        iteration: 7,
        managed_processes: 3,
        background_efficiency: BackgroundEfficiencyStatus::empty(),
        last_activity: Some("assigned game.exe to LLC 1".to_owned()),
        last_error: None,
        config_reload_sequence: 0,
        config_reload_result: ConfigReloadResult::Initial,
        config_reload_error: None,
        maximum_dpc_time_bps: 0,
        maximum_interrupt_time_bps: 0,
        memory_profile_physical_cores: 8,
        responsiveness_pressure: ResponsivenessPressure::Unknown,
        last_responsiveness_adjustment: None,
    }
}

#[test]
fn running_auto_service_exposes_disable_and_stop_actions() {
    let status = status(true, ControllerMode::Auto);
    let model = build_menu_model(&ServiceViewState::Running, Some(&status), None);
    assert_eq!(model.scheduling_action, "Disable Scheduling");
    assert!(model.scheduling_action_enabled);
    assert_eq!(model.service_action, "Stop Service");
    assert!(model.header.contains("Scheduling enabled"));
    assert_eq!(model.managed, "Managed processes: 3");
    assert_eq!(model.header, "WinSched \u{2014} Service running / Scheduling enabled");
    assert_eq!(model.activity, "Last activity: assigned game.exe to LLC 1");
    assert_eq!(model.tooltip, "WinSched: Service running; Scheduling enabled; managed 3");
}

#[test]
fn disabled_runtime_exposes_enable_without_losing_configured_mode() {
    let status = status(false, ControllerMode::Auto);
    let model = build_menu_model(&ServiceViewState::Running, Some(&status), None);
    assert_eq!(model.scheduling_action, "Enable Scheduling");
    assert_eq!(model.mode, "Mode: Auto");
    assert!(model.header.contains("Scheduling disabled"));
}

#[test]
fn stopped_service_only_exposes_start() {
    let model = build_menu_model(&ServiceViewState::Stopped, None, None);
    assert!(!model.scheduling_action_enabled);
    assert_eq!(model.service_action, "Start Service");
    assert!(model.service_action_enabled);
}

#[test]
fn ui_error_takes_precedence_and_is_bounded() {
    let long = "failure ".repeat(30);
    let model = build_menu_model(&ServiceViewState::Error("SCM".to_owned()), None, Some(&long));
    assert!(model.error.starts_with("Last error: failure"));
    assert!(model.error.ends_with('\u{2026}'));
    assert!(model.error.chars().count() <= "Last error: ".chars().count() + 96);
}

#[test]
fn modes_that_do_not_place_offer_no_scheduling() {
    let off = status(true, ControllerMode::Off);
    let model = build_menu_model(&ServiceViewState::Running, Some(&off), None);
    assert_eq!(model.scheduling_action, "Scheduling Disabled (Off Mode)");
    assert!(!model.scheduling_action_enabled);
    let observe = status(true, ControllerMode::Observe);
    let model = build_menu_model(&ServiceViewState::Running, Some(&observe), None);
    assert_eq!(model.scheduling_action, "Scheduling Disabled (Observe Mode)");
    assert!(model.header.ends_with("Observe only"));
    let model = build_menu_model(&ServiceViewState::Error("SCM".to_owned()), None, None);
    assert_eq!(model.error, "Last error: SCM");
    assert_eq!(model.scheduling_action, "Scheduling Unavailable");
}

#[test]
fn menu_lines_are_compact_and_short() {
    assert_eq!(menu_text("  a \n b\t\tc ", 96), "a b c");
    assert_eq!(menu_text("abcdef", 6), "abcdef");
    assert_eq!(menu_text("abcdefg", 6), "abcde\u{2026}");
    assert_eq!(menu_text("abc", 0), "\u{2026}");
}

#[test]
fn old_statuses_of_a_running_service_are_told() {
    let stale = Some("Service status heartbeat is stale");
    assert_eq!(stale_error(&ServiceViewState::Running, Some(0), 75_001), stale);
    assert_eq!(stale_error(&ServiceViewState::Running, Some(0), 75_000), None);
    assert_eq!(stale_error(&ServiceViewState::Stopped, Some(0), 75_001), None);
    assert_eq!(stale_error(&ServiceViewState::Running, None, 75_001), None);
    assert_eq!(stale_error(&ServiceViewState::Running, Some(100), 0), None);
}

#[test]
fn the_latest_action_is_heard_first() {
    assert_eq!(visible_error(Some("a"), Some("b"), Some("c")), Some("a"));
    assert_eq!(visible_error(None, Some("b"), Some("c")), Some("b"));
    assert_eq!(visible_error(None, None, Some("c")), Some("c"));
    assert_eq!(visible_error(None, None, None), None);
}

#[test]
fn statuses_of_other_versions_are_refused() {
    assert_eq!(status_read_error(&StatusRead::Absent, 7), None);
    assert_eq!(status_read_error(&StatusRead::Read { schema_version: 7 }, 7), None);
    assert_eq!(
        status_read_error(&StatusRead::Read { schema_version: 6 }, 7),
        Some("Unsupported status schema 6; expected 7".to_owned())
    );
    assert_eq!(
        status_read_error(&StatusRead::Failed { error: "gone".to_owned() }, 7),
        Some("Cannot read service status: gone".to_owned())
    );
}

#[test]
fn menu_entries_ask_for_what_they_say() {
    let running = ServiceViewState::Running;
    assert_eq!(
        menu_command("scheduling", &running, true),
        Some(MenuCommand::SetScheduling { enabled: false })
    );
    assert_eq!(menu_command("service", &running, true), Some(MenuCommand::StopService));
    assert_eq!(
        menu_command("service", &ServiceViewState::Stopped, true),
        Some(MenuCommand::StartService)
    );
    assert_eq!(
        menu_command("service", &ServiceViewState::Missing, true),
        Some(MenuCommand::RefuseServiceChange)
    );
    assert_eq!(menu_command("exit", &running, true), Some(MenuCommand::Exit));
    assert_eq!(menu_command("refresh", &running, true), Some(MenuCommand::Refresh));
    assert_eq!(menu_command("other", &running, true), None);
}

#[test]
fn the_state_of_the_service_is_seen() {
    assert_eq!(
        query_service_state(&ServiceQuery::State(ServiceState::Running)),
        ServiceViewState::Running
    );
    assert_eq!(
        query_service_state(&ServiceQuery::State(ServiceState::Paused)),
        ServiceViewState::Other("Paused".to_owned())
    );
    assert_eq!(
        query_service_state(&ServiceQuery::Failed {
            os_error: Some(1060),
            text: "no such service".to_owned()
        }),
        ServiceViewState::Missing
    );
    assert_eq!(
        query_service_state(&ServiceQuery::Failed {
            os_error: Some(5),
            text: "access denied".to_owned()
        }),
        ServiceViewState::Error("Windows service error: access denied".to_owned())
    );
}

#[test]
fn answers_of_the_system_are_read() {
    assert!(lock_is_taken(Some(32)));
    assert!(lock_is_taken(Some(33)));
    assert!(!lock_is_taken(Some(5)));
    assert!(!lock_is_taken(None));
    assert_eq!(shell_error("notepad", 33), None);
    assert_eq!(
        shell_error("notepad", 2),
        Some("ShellExecuteW failed for notepad with code 2".to_owned())
    );
}

#[test]
fn icons_are_decoded_to_their_pixels() {
    let png: Vec<u8> = vec![
        137, 80, 78, 71, 13, 10, 26, 10, 0, 0, 0, 13, 73, 72, 68, 82, 0, 0, 0, 2, 0, 0, 0, 1, 8,
        6, 0, 0, 0, 244, 34, 127, 138, 0, 0, 0, 17, 73, 68, 65, 84, 120, 218, 99, 248, 207, 192,
        240, 159, 161, 225, 191, 3, 0, 16, 186, 3, 190, 58, 121, 191, 190, 0, 0, 0, 0, 73, 69, 78,
        68, 174, 66, 96, 130
    ];
    let icon = load_icon(&png).unwrap();
    assert_eq!((icon.width, icon.height), (2, 1));
    assert_eq!(icon.rgba, vec![255, 0, 0, 255, 0, 128, 255, 64]);
    let broken = load_icon(&png[..20].to_vec());
    assert!(matches!(broken, Err(IconError::Undecodable(_))));
    assert!(matches!(icon_of(vec![0; 7], 2, 1), Err(IconError::WrongSize)));
}

#[test]
fn the_menu_tells_of_the_background_policies() {
    let mut told = status(true, ControllerMode::Auto);
    told.background_efficiency.managed_processes = 4;
    told.background_efficiency.protected_processes = 2;
    told.background_efficiency.memory_pressure_monitor_available = true;
    told.background_efficiency.interactive_probe_sessions = 1;
    told.background_efficiency.required_probe_sessions = 3;
    let line = |told: &ControllerStatus| {
        build_menu_model(&ServiceViewState::Running, Some(told), None).background
    };
    assert_eq!(
        line(&told),
        "Background QoS: 4 active, 2 protected; memory normal; sensors 1 of 3"
    );
    told.background_efficiency.low_memory_condition = true;
    assert_eq!(line(&told), "Background QoS: 4 active, 2 protected; memory low; sensors 1 of 3");
    told.background_efficiency.memory_pressure_monitor_available = false;
    assert_eq!(
        line(&told),
        "Background QoS: 4 active, 2 protected; memory low (unmonitored); sensors 1 of 3"
    );
    assert_eq!(
        line(&status(true, ControllerMode::Auto)),
        "Background QoS: 0 active, 0 protected; memory unmonitored; sensors 0 of 0"
    );
    let model = build_menu_model(&ServiceViewState::Running, None, None);
    assert_eq!(model.background, "Background QoS: unavailable");
}

#[test]
fn the_menu_tells_of_the_reserve_and_the_latency() {
    assert_eq!(reserve_line(None), "System reserve: unavailable");
    assert_eq!(reserve_line(Some((2, 32))), "System reserve: 2/32 cores");
    assert_eq!(latency_line(None), "Latency guard: unavailable");
    assert_eq!(latency_line(Some((true, 980))), "Latency guard: p99 980 us");
    assert_eq!(latency_line(Some((false, 980))), "Latency guard: disabled");
}

#[test]
fn the_program_says_what_it_is() {
    let details = about_details("1.2.3");
    assert_eq!(details.name, "WinSched");
    assert_eq!(details.version, "1.2.3");
    assert_eq!(details.comments, "Windows 11 LLC-aware CPU placement controller");
    assert_eq!(details.license, "MIT");
    assert_eq!(details.website, "https://github.com/woffko/WinSched");
    assert_eq!(details.website, GITHUB_URL);
    assert_eq!(details.website_label, "GitHub Repository");
}
