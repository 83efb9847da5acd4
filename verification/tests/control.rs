use std::sync::mpsc;

use winsched_logic::background::BackgroundEfficiencyStatus;
use winsched_logic::background::BackgroundReconcileReport;
use winsched_logic::cleanup::finish_placement_cleanup;
use winsched_logic::cleanup::CleanupReport;
use winsched_logic::controller::applied_settings;
use winsched_logic::controller::apply_reload_status;
use winsched_logic::controller::maximum_interrupt_loads;
use winsched_logic::controller::reload_event_name;
use winsched_logic::controller::width_adjustment_summary;
use winsched_logic::controller::AppliedSettings;
use winsched_logic::controller::CleanupResult;
use winsched_logic::controller::ConfigReload;
use winsched_logic::controller::ConfigReloadResult;
use winsched_logic::controller::Controller;
use winsched_logic::controller::ControllerPhase;
use winsched_logic::controller::ControllerStatus;
use winsched_logic::controller::InterruptLoad;
use winsched_logic::controller::LoopEvent;
use winsched_logic::controller::ResponsivenessSettings;
use winsched_logic::controller::WidthAdjustment;
use winsched_logic::efficiency::BackgroundPolicy;
use winsched_logic::event_logger::EventSink;
use winsched_logic::event_logger::LoggingConfig;
use winsched_logic::event_logger::SinkTask;
use winsched_logic::observations::ControllerMode;
use winsched_logic::observations::WorkloadProfile;
use winsched_logic::process::KeyMap;
use winsched_logic::process::ProcessKey;
use winsched_logic::provision::ensure_service_running;
use winsched_logic::provision::ensure_service_stopped;
use winsched_logic::provision::handle_service_control;
use winsched_logic::provision::is_missing_service_error;
use winsched_logic::provision::is_service_marked_for_delete_error;
use winsched_logic::provision::journal_plan;
use winsched_logic::provision::poll_absence;
use winsched_logic::provision::poll_state;
use winsched_logic::provision::provision_receipt;
use winsched_logic::provision::record_recovery_result;
use winsched_logic::provision::recovery_error;
use winsched_logic::provision::registration_allowed;
use winsched_logic::provision::rollback_existing_service;
use winsched_logic::provision::service_config_restore_args;
use winsched_logic::provision::stable_prior_service_state;
use winsched_logic::provision::with_transaction_recovery;
use winsched_logic::provision::ControlReply;
use winsched_logic::provision::JournalPlan;
use winsched_logic::provision::Poll;
use winsched_logic::provision::PriorServiceState;
use winsched_logic::provision::RestoreFault;
use winsched_logic::provision::RollbackStep;
use winsched_logic::provision::ServiceConfig;
use winsched_logic::provision::ServiceControl;
use winsched_logic::provision::ServiceDependency;
use winsched_logic::provision::ServiceErrorControl;
use winsched_logic::provision::ServiceOp;
use winsched_logic::provision::ServiceStartType;
use winsched_logic::provision::ServiceState;
use winsched_logic::recovery::cleanup_created_service;
use winsched_logic::recovery::journal_load_error;
use winsched_logic::recovery::recover_controller_initialization;
use winsched_logic::recovery::unreadable_journals_error;
use winsched_logic::recovery::RemovalStep;
use winsched_logic::reload::fail_closed_settings;
use winsched_logic::reload::next_reload;
use winsched_logic::reload::reload_config_if_changed;
use winsched_logic::reload::settle_reload;
use winsched_logic::reload::ReloadAttempt;
use winsched_logic::reload::ReloadStep;
use winsched_logic::reload::SettingsInUse;
use winsched_logic::responsiveness_log::ResponsivenessPressure;
use winsched_logic::rules::ProcessRule;
use winsched_logic::rules::RuleMode;
use winsched_logic::sc_output::command_failure_text;
use winsched_logic::sc_output::failure_text;
use winsched_logic::sc_output::parse_sc_description;
use winsched_logic::sc_output::parse_sc_sddl;
use winsched_logic::schedule::background_rule_active;
use winsched_logic::schedule::controller_elapsed_ms;
use winsched_logic::schedule::controller_evaluation_active;
use winsched_logic::schedule::controller_mutations_active;
use winsched_logic::schedule::controller_wait_interval;
use winsched_logic::schedule::evaluation_due;
use winsched_logic::schedule::settle_further;
use winsched_logic::schedule::settle_wait;
use winsched_logic::schedule::BACKGROUND_SAFETY_INTERVAL_NS;
use winsched_logic::schedule::ControllerCommand;
use winsched_logic::schedule::LoopAction;
use winsched_logic::schedule::LoopOutcome;
use winsched_logic::schedule::Received;
use winsched_logic::schedule::Settled;
use winsched_logic::schedule::WakeGate;
use winsched_logic::settings_config::BackgroundSettings;
use winsched_logic::settings_config::ControllerConfig;
use winsched_logic::settings_config::ControllerValues;
use winsched_logic::settings_config::LoggingLevel;
use winsched_logic::settings_config::LoggingSettings;
use winsched_logic::settings_config::PolicySettings;

const SERVICE_NAME: &str = "WinSched";

fn wait_for_command(receiver: &mpsc::Receiver<ControllerCommand>) -> ControllerCommand {
    let received = match receiver.try_recv() {
        Ok(command) => Received::Command(command),
        Err(mpsc::TryRecvError::Empty) => Received::Timeout,
        Err(mpsc::TryRecvError::Disconnected) => Received::Disconnected,
    };
    let mut settled = settle_wait(received);
    loop {
        match settled {
            Settled::Take(command) => return command,
            Settled::LookForMore => settled = settle_further(receiver.try_recv().ok()),
        }
    }
}

#[test]
fn queued_ticks_are_drained_without_hiding_control_commands() {
    let (sender, receiver) = mpsc::channel();
    sender.send(ControllerCommand::Tick).unwrap();
    sender.send(ControllerCommand::Tick).unwrap();
    sender.send(ControllerCommand::Disable).unwrap();
    assert_eq!(wait_for_command(&receiver), ControllerCommand::Disable);
}

#[test]
fn control_channel_delivers_enable_disable_and_stop_without_polling() {
    let (sender, receiver) = mpsc::channel();
    sender.send(ControllerCommand::Enable).unwrap();
    sender.send(ControllerCommand::Disable).unwrap();
    sender.send(ControllerCommand::Stop).unwrap();
    assert_eq!(wait_for_command(&receiver), ControllerCommand::Enable);
    assert_eq!(wait_for_command(&receiver), ControllerCommand::Disable);
    assert_eq!(wait_for_command(&receiver), ControllerCommand::Stop);
}

#[test]
fn silence_is_a_tick_and_a_lost_sender_a_stop() {
    let (sender, receiver) = mpsc::channel();
    assert_eq!(wait_for_command(&receiver), ControllerCommand::Tick);
    drop(sender);
    assert_eq!(wait_for_command(&receiver), ControllerCommand::Stop);
}

#[test]
fn interactive_wake_enqueues_at_most_one_outstanding_tick() {
    let (sender, receiver) = mpsc::channel();
    let mut gate = WakeGate { pending: false };
    let mut wake = |gate: &mut WakeGate| {
        if gate.request() && sender.send(ControllerCommand::Tick).is_err() {
            gate.note_unsent();
        }
    };
    for _ in 0..100 {
        wake(&mut gate);
    }
    assert_eq!(receiver.try_recv(), Ok(ControllerCommand::Tick));
    assert!(matches!(receiver.try_recv(), Err(mpsc::TryRecvError::Empty)));

    gate.take();
    wake(&mut gate);
    assert_eq!(receiver.try_recv(), Ok(ControllerCommand::Tick));
}

fn prior_service_config() -> ServiceConfig {
    ServiceConfig {
        own_process: true,
        start_type: ServiceStartType::OnDemand,
        error_control: ServiceErrorControl::Severe,
        executable_path: r#""C:\Old WinSched\winsched-service.exe" service --config "C:\ProgramData\WinSched\old config.toml""#.to_owned(),
        load_order_group: None,
        tag_id: 0,
        dependencies: vec![
            ServiceDependency::Service("RpcSs".to_owned()),
            ServiceDependency::Group("NetworkProvider".to_owned()),
        ],
        account_name: Some("LocalSystem".to_owned()),
        display_name: "Prior WinSched display name".to_owned(),
    }
}

#[test]
fn restore_mapping_preserves_raw_image_path_and_service_metadata() {
    let config = prior_service_config();
    let args = service_config_restore_args(&config, SERVICE_NAME).unwrap();

    assert_eq!(args[0], "config");
    assert_eq!(args[1], SERVICE_NAME);
    assert_eq!(
        args[2..10],
        [
            "type=",
            "own",
            "start=",
            "demand",
            "error=",
            "severe",
            "binPath=",
            r#""C:\Old WinSched\winsched-service.exe" service --config "C:\ProgramData\WinSched\old config.toml""#
        ]
    );
    assert_eq!(args[10], "depend=");
    assert_eq!(args[11], "RpcSs/+NetworkProvider");
    assert_eq!(args[12], "obj=");
    assert_eq!(args[13], "LocalSystem");
    assert_eq!(args[14], "DisplayName=");
    assert_eq!(args[15], "Prior WinSched display name");
}

#[test]
fn restore_mapping_preserves_independent_delayed_auto_start_state() {
    let mut config = prior_service_config();
    config.start_type = ServiceStartType::AutoStart;

    let args = service_config_restore_args(&config, SERVICE_NAME).unwrap();
    assert!(!args.iter().any(|argument| argument == "start="));
    assert!(args.iter().any(|argument| argument == "binPath="));
}

#[test]
fn restore_mapping_refuses_an_account_that_cannot_be_restored_without_a_password() {
    let mut config = prior_service_config();
    config.account_name = Some(r"CONTOSO\service-user".to_owned());

    assert_eq!(
        service_config_restore_args(&config, SERVICE_NAME).map_err(|fault| fault.message()),
        Err("the existing WinSched service must run as LocalSystem")
    );

    config.account_name = None;
    assert_eq!(
        service_config_restore_args(&config, SERVICE_NAME).map_err(|fault| fault.message()),
        Err("the existing WinSched service must run as LocalSystem")
    );
}

#[test]
fn services_that_cannot_be_put_back_are_refused() {
    let mut config = prior_service_config();
    config.own_process = false;
    assert_eq!(
        service_config_restore_args(&config, SERVICE_NAME),
        Err(RestoreFault::NotOwnProcess)
    );
    let mut config = prior_service_config();
    config.load_order_group = Some("Network".to_owned());
    assert_eq!(
        service_config_restore_args(&config, SERVICE_NAME),
        Err(RestoreFault::LoadOrderGroup)
    );
    let mut config = prior_service_config();
    config.start_type = ServiceStartType::BootStart;
    assert_eq!(service_config_restore_args(&config, SERVICE_NAME), Err(RestoreFault::DriverStart));
}

#[test]
fn sc_snapshot_parsers_extract_description_and_complete_sddl() {
    let description = b"[SC] QueryServiceConfig2 SUCCESS\r\n\r\nSERVICE_NAME: WinSched\r\n        DESCRIPTION: Prior description: retained\r\n".to_vec();
    let sddl = b"[SC] QueryServiceObjectSecurity SUCCESS\r\n\r\nO:SYG:SYD:(A;;CCLCSWLOCRRC;;;IU)S:(AU;FA;CCDCLCSWRPWPDTLOCRSDRCWDWO;;;WD)\r\n".to_vec();

    assert_eq!(
        parse_sc_description(&description),
        Some("Prior description: retained".to_owned())
    );
    assert_eq!(
        parse_sc_sddl(&sddl),
        Some("O:SYG:SYD:(A;;CCLCSWLOCRRC;;;IU)S:(AU;FA;CCDCLCSWRPWPDTLOCRSDRCWDWO;;;WD)".to_owned())
    );

    assert_eq!(parse_sc_description(&b"SERVICE_NAME: WinSched\r\n".to_vec()), None);
    assert_eq!(
        parse_sc_description(
            &b"SERVICE_NAME: WinSched\r\n        DESCRIPTION:     \r\n".to_vec()
        ),
        Some(String::new())
    );
}

#[test]
fn texts_that_are_no_unicode_are_refused_or_mended() {
    let mut description = b"        DESCRIPTION: ".to_vec();
    description.push(0xff);
    description.extend_from_slice(b"\r\n");
    assert_eq!(parse_sc_description(&description), None);
    assert_eq!(command_failure_text(&vec![b' ', b'a', 0xff, b' '], &Vec::new()), "a\u{fffd}");
    assert_eq!(command_failure_text(&Vec::new(), &b" out \r\n".to_vec()), "out");
    assert_eq!(failure_text("  ", "said"), "said");
}

fn applied() -> AppliedSettings {
    applied_settings(&settings(ControllerMode::Auto, NORMAL_LOGGING), 1)
}

fn status() -> ControllerStatus {
    Controller::start(
        applied(),
        true,
        None,
        0,
        0,
        8,
        ResponsivenessPressure::Unknown,
    )
    .status
}

#[test]
fn reload_receipt_is_persisted_for_success_and_rejection() {
    let logging =
        LoggingSettings { level: LoggingLevel::Off, max_file_size_mib: 2, retained_archives: 0 };
    let config = settings(ControllerMode::Auto, logging);
    let in_use = applied_settings(&config, 77);
    let mut status = status();
    assert_ne!(status.applied, in_use);

    let reload = ConfigReload::Reloaded;
    assert!(apply_reload_status(&mut status, &in_use, &reload));
    assert_eq!(reload_event_name(&reload), Some("config_reloaded"));
    assert_eq!(status.config_reload_sequence, 1);
    assert_eq!(status.config_reload_result, ConfigReloadResult::Reloaded);
    assert_eq!(status.config_reload_error, None);
    assert_eq!(status.applied.fingerprint, 77);
    assert_eq!(status.applied.logging, logging);
    assert_eq!(status.applied.background_efficiency, config.values.background_efficiency);
    assert_eq!(status.applied.responsiveness, config.values.responsiveness);
    assert_eq!(status.configured_mode, ControllerMode::Auto);

    let reload = ConfigReload::Rejected {
        error: "injected invalid configuration".to_owned(),
        fail_closed: true,
    };
    assert!(apply_reload_status(&mut status, &in_use, &reload));
    // Runtime cleanup and enforcement may update the generic error independently.
    status.last_error = None;
    assert_eq!(reload_event_name(&reload), Some("config_rejected_fail_closed"));
    assert_eq!(status.config_reload_sequence, 2);
    assert_eq!(status.config_reload_result, ConfigReloadResult::Rejected);
    assert_eq!(status.config_reload_error.as_deref(), Some("injected invalid configuration"));
    assert_eq!(status.applied.logging, logging);
    assert_eq!(status.last_error, None);

    assert!(!apply_reload_status(&mut status, &in_use, &ConfigReload::Unchanged));
    assert_eq!(reload_event_name(&ConfigReload::Unchanged), None);
    assert_eq!(status.config_reload_sequence, 2);
    assert_eq!(status.applied, in_use);
}

fn settings(mode: ControllerMode, logging: LoggingSettings) -> ControllerConfig {
    ControllerConfig {
        values: ControllerValues {
            schema_version: 2,
            controller_mode: mode,
            sample_interval_ms: 2_000,
            minimum_process_utilization_bps: 100,
            all_user_processes: mode == ControllerMode::Auto,
            default_rule_mode: RuleMode::Auto,
            default_workload_profile: WorkloadProfile::Balanced,
            policy: PolicySettings {
                overload_threshold_bps: 8_000,
                minimum_improvement_bps: 1_000,
                stability_samples: 3,
                minimum_residency_ms: 5_000,
                cooldown_ms: 10_000,
                max_mutations_per_evaluation: 4,
            },
            logging,
            responsiveness: ResponsivenessSettings {
                enabled: true,
                latency_guard_enabled: true,
                latency_target_p99_us: 2_000,
                latency_recovery_p99_us: 1_000,
                adjustment_stability_samples: 3,
                system_reserve_percent: 5,
                minimum_reserved_cores: 1,
                maximum_reserved_cores: 4,
                memory_minimum_physical_cores: 2,
                memory_maximum_physical_cores: 28,
                memory_use_smt: false,
                memory_resize_cooldown_ms: 30_000,
            },
            background_efficiency: BackgroundSettings {
                enabled: true,
                policy: BackgroundPolicy {
                    eco_qos_enabled: true,
                    memory_priority_enabled: true,
                    memory_pressure_guard_enabled: true,
                    protect_foreground: true,
                    protect_visible: true,
                    protect_audio: true,
                },
            },
        },
        rules: Vec::new(),
    }
}

fn rule(image: &str) -> ProcessRule {
    ProcessRule {
        image: image.to_owned(),
        mode: RuleMode::Auto,
        profile: WorkloadProfile::Balanced,
        group: None,
        llc: None,
    }
}

const NORMAL_LOGGING: LoggingSettings =
    LoggingSettings { level: LoggingLevel::Normal, max_file_size_mib: 10, retained_archives: 3 };

#[test]
fn invalid_reload_preserves_last_known_good_disabled_logging() {
    let logging =
        LoggingSettings { level: LoggingLevel::Off, max_file_size_mib: 3, retained_archives: 0 };
    let applied = LoggingConfig { enabled: false, max_file_size_mib: 3, retained_archives: 0 };
    let (sink, task) = EventSink::service(applied).unwrap();
    assert_eq!(task, SinkTask::Nothing);
    let mut in_use =
        SettingsInUse { settings: settings(ControllerMode::Auto, logging), modified: Some(0) };
    let mut managed = KeyMap::new();

    let modified = Some(1_700_000_000_000_000_000);
    let mut step = reload_config_if_changed(true, in_use.modified, modified);
    assert_eq!(step, ReloadStep::Load);
    step = next_reload(step, false);
    assert_eq!(step, ReloadStep::GiveBack);
    let cleanup = CleanupResult::Done(finish_placement_cleanup(&mut managed, &Vec::new()));
    step = next_reload(step, true);
    assert_eq!(step, ReloadStep::FailClosed);
    let reload = settle_reload(
        &mut in_use,
        modified,
        ReloadAttempt::Unreadable {
            error: "sample_interval_ms is out of range".to_owned(),
            cleanup,
            defaults: settings(ControllerMode::Observe, NORMAL_LOGGING),
        },
    );

    assert!(matches!(reload, ConfigReload::Rejected { fail_closed: true, .. }));
    assert_eq!(in_use.settings.values.controller_mode, ControllerMode::Observe);
    assert_eq!(in_use.settings.values.logging, logging);
    assert!(!in_use.settings.values.all_user_processes);
    assert_eq!(managed.len(), 0);
    assert_eq!(sink.applied_logging(), Some(applied));
    assert_eq!(
        reload_config_if_changed(true, in_use.modified, modified),
        ReloadStep::Finished
    );
}

#[test]
fn usable_settings_are_adopted_after_policy_and_log() {
    let step = next_reload(ReloadStep::Load, true);
    assert_eq!(step, ReloadStep::MakePolicy);
    assert_eq!(next_reload(step, false), ReloadStep::RefusePolicy);
    let step = next_reload(step, true);
    assert_eq!(step, ReloadStep::FollowLog);
    assert_eq!(next_reload(step, false), ReloadStep::RefuseLog);
    assert_eq!(next_reload(step, true), ReloadStep::Adopt);
    assert_eq!(next_reload(ReloadStep::Adopt, true), ReloadStep::Finished);

    let mut updated = settings(ControllerMode::Auto, NORMAL_LOGGING);
    updated.rules.push(rule("game.exe"));
    let mut in_use = SettingsInUse {
        settings: settings(ControllerMode::Observe, NORMAL_LOGGING),
        modified: Some(0),
    };
    let reload = settle_reload(&mut in_use, Some(5), ReloadAttempt::Usable { settings: updated });
    assert!(matches!(reload, ConfigReload::Reloaded));
    assert_eq!(in_use.settings.rules, vec![rule("game.exe")]);
    assert_eq!(in_use.settings.values.controller_mode, ControllerMode::Auto);
    assert_eq!(in_use.modified, Some(5));

    let refused = ReloadAttempt::NoPolicy { error: "no".to_owned() };
    let reload = settle_reload(&mut in_use, None, refused);
    assert!(matches!(reload, ConfigReload::Rejected { fail_closed: false, .. }));
    assert_eq!(in_use.settings.rules, vec![rule("game.exe")]);
    assert_eq!(in_use.modified, None);
    assert_eq!(reload_config_if_changed(true, None, None), ReloadStep::Finished);
    assert_eq!(reload_config_if_changed(true, Some(5), None), ReloadStep::Load);
    assert_eq!(reload_config_if_changed(false, Some(5), Some(6)), ReloadStep::Finished);
}

#[test]
fn unreadable_settings_drop_the_rules() {
    let mut prior = settings(ControllerMode::Auto, NORMAL_LOGGING);
    prior.rules.push(rule("game.exe"));
    let trace =
        LoggingSettings { level: LoggingLevel::Trace, max_file_size_mib: 1, retained_archives: 1 };
    let after = fail_closed_settings(settings(ControllerMode::Observe, trace), &prior);
    assert!(after.rules.is_empty());
    assert_eq!(after.values.logging, NORMAL_LOGGING);
    assert_eq!(after.values.controller_mode, ControllerMode::Observe);
}

#[test]
fn controllers_start_with_nothing_to_say() {
    let started = Controller::start(
        applied(),
        true,
        Some(2),
        3,
        4,
        8,
        ResponsivenessPressure::Unknown,
    );
    assert_eq!(started.status.background_efficiency.managed_processes, 4);
    assert_eq!(started.status.background_efficiency.protected_processes, 0);
    assert_eq!(started.status.maximum_dpc_time_bps, 0);
    assert_eq!(started.background_before.managed_processes, 0);
    assert!(!started.adjusted);
    assert!(!started.important);
}

#[test]
fn failed_logging_reconfigure_rejects_reload_and_persists_prior_policy() {
    let prior = LoggingConfig { enabled: false, max_file_size_mib: 2, retained_archives: 0 };
    let prior_logging =
        LoggingSettings { level: LoggingLevel::Off, max_file_size_mib: 2, retained_archives: 0 };
    let updated = LoggingConfig { enabled: true, max_file_size_mib: 1, retained_archives: 1 };
    let (mut sink, _) = EventSink::service(prior).unwrap();
    let mut in_use = SettingsInUse {
        settings: settings(ControllerMode::Auto, prior_logging),
        modified: Some(0),
    };

    let modified = Some(1);
    let mut step = reload_config_if_changed(true, in_use.modified, modified);
    step = next_reload(step, true);
    assert_eq!(step, ReloadStep::MakePolicy);
    step = next_reload(step, true);
    assert_eq!(step, ReloadStep::FollowLog);
    let task = sink.begin_reconfigure(updated).unwrap();
    assert_eq!(task, SinkTask::OpenWriter { max_bytes: 1_048_576, retained_archives: 1 });
    step = next_reload(step, false);
    assert_eq!(step, ReloadStep::RefuseLog);
    let failed = ReloadAttempt::LogFailed { error: "not a directory".to_owned() };
    let reload = settle_reload(&mut in_use, modified, failed);
    assert!(matches!(reload, ConfigReload::Rejected { fail_closed: false, .. }));
    assert_eq!(in_use.settings.values.controller_mode, ControllerMode::Auto);
    assert_eq!(in_use.settings.values.logging, prior_logging);
    assert_eq!(sink.applied_logging(), Some(prior));

    let mut status = status();
    let retained = applied_settings(&in_use.settings, 42);
    assert!(apply_reload_status(&mut status, &retained, &reload));
    assert_eq!(reload_event_name(&reload), Some("config_rejected"));
    assert_eq!(status.config_reload_sequence, 1);
    assert_eq!(status.config_reload_result, ConfigReloadResult::Rejected);
    assert_eq!(status.applied.fingerprint, 42);
    assert_eq!(status.applied.logging, prior_logging);
    assert_eq!(
        status.config_reload_error.as_deref(),
        Some("failed to apply logging configuration; prior configuration retained: not a directory")
    );
}

#[test]
fn unreadable_settings_tell_what_could_not_be_given_back() {
    let said = |cleanup| {
        let mut in_use = SettingsInUse {
            settings: settings(ControllerMode::Auto, NORMAL_LOGGING),
            modified: Some(0),
        };
        let attempt = ReloadAttempt::Unreadable {
            error: "bad".to_owned(),
            cleanup,
            defaults: settings(ControllerMode::Observe, NORMAL_LOGGING),
        };
        match settle_reload(&mut in_use, Some(1), attempt) {
            ConfigReload::Rejected { error, .. } => error,
            _ => panic!("unreadable settings are rejected"),
        }
    };
    assert_eq!(
        said(CleanupResult::Done(CleanupReport { attempted: 3, cleared: 1, failed: 2 })),
        "bad; 2 managed assignment(s) await cleanup retry"
    );
    assert_eq!(
        said(CleanupResult::Failed("disk".to_owned())),
        "bad; managed-assignment cleanup failed: disk"
    );
}

#[test]
fn background_guard_wakes_quickly_without_accelerating_cpu_policy() {
    let mut config = settings(ControllerMode::Auto, NORMAL_LOGGING);
    config.values.sample_interval_ms = 60_000;
    config.rules.push(ProcessRule { profile: WorkloadProfile::Background, ..rule("worker.exe") });
    let owned = KeyMap::new();
    let wait = |config: &ControllerConfig, enabled: bool, owned: &KeyMap<u32>| {
        let applies: Vec<bool> = config
            .rules
            .iter()
            .map(|rule| {
                config.values.background_efficiency.enabled
                    && rule.profile == WorkloadProfile::Background
            })
            .collect();
        let active = background_rule_active(config.values.controller_mode, enabled, &applies);
        controller_wait_interval(config.values.sample_interval_ms, 0, active, owned.len() != 0)
    };

    assert!(wait(&config, true, &owned) <= BACKGROUND_SAFETY_INTERVAL_NS);
    // Nothing is changed where scheduling is disabled, so nothing needs the guard.
    assert!(wait(&config, false, &owned) > 59_000_000_000);

    config.values.background_efficiency.enabled = false;
    assert!(wait(&config, true, &owned) > 59_000_000_000);

    let mut owned = KeyMap::new();
    owned.insert(ProcessKey { pid: 42, creation_time_100ns: 420 }, 0);
    assert!(wait(&config, true, &owned) <= BACKGROUND_SAFETY_INTERVAL_NS);
    assert!(!background_rule_active(ControllerMode::Auto, true, &vec![false, false]));
    assert!(background_rule_active(ControllerMode::Auto, true, &vec![false, true]));
    assert!(!background_rule_active(ControllerMode::Observe, true, &vec![true]));
    assert!(!evaluation_due(60_000, BACKGROUND_SAFETY_INTERVAL_NS));
    assert!(evaluation_due(60_000, 60_000_000_000));
    assert_eq!(controller_elapsed_ms(1_999_999), 1);
}

#[test]
fn observe_evaluates_without_enabling_mutations() {
    assert!(controller_evaluation_active(ControllerMode::Observe, false));
    assert!(!controller_mutations_active(ControllerMode::Observe, false));

    assert!(!controller_evaluation_active(ControllerMode::Auto, false));
    assert!(controller_evaluation_active(ControllerMode::Auto, true));
    assert!(controller_mutations_active(ControllerMode::Auto, true));
    assert!(!controller_evaluation_active(ControllerMode::Off, true));
}

fn clean() -> CleanupReport {
    CleanupReport { attempted: 0, cleared: 0, failed: 0 }
}

fn quiet_tick() -> LoopEvent {
    LoopEvent::Ticked {
        managed: 0,
        report: BackgroundReconcileReport {
            status: BackgroundEfficiencyStatus::empty(),
            last_error: None,
        },
    }
}

/// Answers every action as if all went well.
fn well(action: LoopAction, commands: &mut Vec<ControllerCommand>) -> LoopEvent {
    match action {
        LoopAction::CleanUp => LoopEvent::CleanedUp {
            placement: clean(),
            background: clean(),
            managed: 0,
            managed_background: 0,
        },
        LoopAction::Publish { .. } => LoopEvent::Published,
        LoopAction::Prime => LoopEvent::Primed,
        LoopAction::Wait => {
            LoopEvent::Command(if commands.is_empty() {
                ControllerCommand::Stop
            } else {
                commands.remove(0)
            })
        }
        LoopAction::SaveRuntime { .. } => LoopEvent::RuntimeSaved,
        LoopAction::Reload => LoopEvent::Reloaded {
            applied: applied(),
            reload: ConfigReload::Unchanged,
            memory_profile_physical_cores: 8,
            pressure: ResponsivenessPressure::Normal,
        },
        LoopAction::CheckClock => LoopEvent::Clock { due: true },
        LoopAction::SafetyTick => quiet_tick(),
        LoopAction::Sample => LoopEvent::Sampled {
            maximum_dpc_time_bps: 1,
            maximum_interrupt_time_bps: 2,
        },
        LoopAction::EvaluateWidth => LoopEvent::WidthEvaluated {
            adjustment: None,
            memory_profile_physical_cores: 8,
            pressure: ResponsivenessPressure::Normal,
        },
        LoopAction::NextDecision => LoopEvent::DecisionsDone { managed: 0 },
        LoopAction::Enforce => LoopEvent::Enforced { failure: None },
        LoopAction::CleanUpAtExit => LoopEvent::ExitCleanedUp {
            placement_result: CleanupResult::Done(clean()),
            background_result: CleanupResult::Done(clean()),
            managed: 0,
            managed_background: 0,
        },
        LoopAction::PublishAtExit => LoopEvent::ExitPublished { done: true },
        LoopAction::End(_) => panic!("nothing follows the end"),
    }
}

fn drive(
    controller: &mut Controller,
    commands: Vec<ControllerCommand>,
) -> (Vec<LoopAction>, LoopOutcome) {
    let mut commands = commands;
    let mut action = controller.core.next_action(false);
    let mut seen = Vec::new();
    loop {
        if let LoopAction::End(outcome) = action {
            return (seen, outcome);
        }
        seen.push(action);
        assert!(seen.len() < 10_000);
        let event = well(action, &mut commands);
        action = controller.take(event);
    }
}

#[test]
fn stopping_cleans_up_and_publishes_the_end() {
    let mut controller = Controller::start(
        applied(),
        true,
        None,
        0,
        0,
        8,
        ResponsivenessPressure::Unknown,
    );
    let (seen, outcome) =
        drive(&mut controller, vec![ControllerCommand::Tick, ControllerCommand::Stop]);
    assert_eq!(outcome, LoopOutcome::Completed);
    assert_eq!(controller.status.phase, ControllerPhase::Stopped);
    assert_eq!(controller.status.iteration, 1);
    let cleanup = seen.iter().position(|action| *action == LoopAction::CleanUpAtExit).unwrap();
    let publish = seen.iter().position(|action| *action == LoopAction::PublishAtExit).unwrap();
    assert!(cleanup < publish);
    assert!(seen.contains(&LoopAction::Sample));
}

#[test]
fn disabling_cleans_up_before_anything_else_is_decided() {
    let mut controller = Controller::start(
        applied(),
        true,
        None,
        0,
        0,
        8,
        ResponsivenessPressure::Unknown,
    );
    let (seen, _) = drive(
        &mut controller,
        vec![ControllerCommand::Disable, ControllerCommand::Enable, ControllerCommand::Stop],
    );
    let disabled = seen
        .iter()
        .position(|action| *action == LoopAction::SaveRuntime { enabled: false })
        .unwrap();
    assert!(seen[disabled..].contains(&LoopAction::CleanUp));
    assert!(seen.contains(&LoopAction::SaveRuntime { enabled: true }));
    assert!(controller.status.scheduling_enabled);
}

#[test]
fn bounded_runs_end_by_themselves() {
    let mut controller = Controller::start(
        applied(),
        true,
        Some(2),
        0,
        0,
        8,
        ResponsivenessPressure::Unknown,
    );
    let (_, outcome) = drive(&mut controller, vec![ControllerCommand::Tick; 50]);
    assert_eq!(outcome, LoopOutcome::Completed);
    assert_eq!(controller.status.iteration, 2);
}

#[test]
fn width_changes_are_told_in_words() {
    assert_eq!(
        width_adjustment_summary(WidthAdjustment::Shrunk { from: 8, to: 7 }),
        "Memory profile reduced from 8 to 7 physical cores"
    );
    assert_eq!(
        width_adjustment_summary(WidthAdjustment::Expanded { from: 7, to: 8 }),
        "Memory profile expanded from 7 to 8 physical cores"
    );
}

#[test]
fn services_are_brought_into_the_wanted_state() {
    assert_eq!(ensure_service_running(ServiceState::Running), Vec::new());
    assert_eq!(
        ensure_service_running(ServiceState::Stopped),
        vec![ServiceOp::Start, ServiceOp::WaitUntilRunning]
    );
    assert_eq!(
        ensure_service_stopped(ServiceState::Running),
        vec![ServiceOp::Stop, ServiceOp::WaitUntilStopped]
    );
    assert_eq!(
        stable_prior_service_state(ServiceState::Running),
        Some((PriorServiceState::Running, None))
    );
    assert_eq!(
        stable_prior_service_state(ServiceState::StopPending),
        Some((PriorServiceState::Stopped, Some(ServiceOp::WaitUntilStopped)))
    );
    assert_eq!(stable_prior_service_state(ServiceState::Paused), None);
    let steps = rollback_existing_service(PriorServiceState::Stopped, ServiceStartType::OnDemand);
    assert_eq!(steps[0], RollbackStep::StopReplacement);
    assert!(steps.contains(&RollbackStep::RestoreStopped));
    assert!(!steps.contains(&RollbackStep::RestoreRunning));
}

#[test]
fn failed_recoveries_are_told_together() {
    let mut failures = Vec::new();
    record_recovery_result(&mut failures, "first", None);
    assert_eq!(recovery_error(&failures), None);
    record_recovery_result(&mut failures, "first", Some("a"));
    record_recovery_result(&mut failures, "second", Some("b"));
    let error = recovery_error(&failures);
    assert_eq!(error.as_deref(), Some("first: a; second: b"));
    assert_eq!(
        with_transaction_recovery("operation", &error),
        "service provisioning failed: operation; recovery also failed: first: a; second: b"
    );
    assert_eq!(with_transaction_recovery("operation", &None), "operation");
}

#[test]
fn the_service_manager_is_answered() {
    assert!(is_missing_service_error(Some(1060)));
    assert!(!is_missing_service_error(Some(5)));
    assert!(is_service_marked_for_delete_error(Some(1072)));
    assert_eq!(poll_state(true, true), Poll::Reached);
    assert_eq!(poll_state(false, false), Poll::Again);
    assert_eq!(poll_state(false, true), Poll::TimedOut);
    assert_eq!(poll_absence(Some(Some(1060)), false), Poll::Reached);
    assert_eq!(
        handle_service_control(ServiceControl::Stop, 128, 129),
        (Some(ControllerCommand::Stop), ControlReply::NoError)
    );
    assert_eq!(
        handle_service_control(ServiceControl::UserEvent(128), 128, 129),
        (Some(ControllerCommand::Enable), ControlReply::NoError)
    );
    assert_eq!(
        handle_service_control(ServiceControl::UserEvent(200), 128, 129),
        (None, ControlReply::NotImplemented)
    );
    assert_eq!(
        handle_service_control(ServiceControl::Interrogate, 128, 129),
        (None, ControlReply::NoError)
    );
    assert_eq!(journal_plan(true, true), JournalPlan::Run);
    assert!(registration_allowed(ControllerMode::Observe, false));
    assert!(!registration_allowed(ControllerMode::Auto, false));
    assert!(registration_allowed(ControllerMode::Auto, true));
    assert!(provision_receipt(Some("bad")).contains("bad"));
}

#[test]
fn failed_starts_tell_what_is_left_behind() {
    let clean = CleanupReport { attempted: 2, cleared: 2, failed: 0 };
    let left = CleanupReport { attempted: 2, cleared: 1, failed: 1 };
    assert_eq!(
        recover_controller_initialization(
            "no topology",
            &CleanupResult::Done(clean),
            &CleanupResult::Done(clean)
        ),
        "no topology"
    );
    assert_eq!(
        recover_controller_initialization(
            "no topology",
            &CleanupResult::Done(left),
            &CleanupResult::Failed("denied".to_owned())
        ),
        "service provisioning failed: no topology; recovery also failed: ownership cleanup after \
         initialization failure: placement=Ok(CleanupReport { attempted: 2, cleared: 1, failed: 1 }), \
         background=Err(denied)"
    );
    assert_eq!(
        journal_load_error(JournalPlan::CleanPlacements, "bad", &CleanupResult::Done(clean)),
        "bad"
    );
    assert!(journal_load_error(JournalPlan::CleanBackground, "bad", &CleanupResult::Done(left))
        .contains("background cleanup after placement journal load failure: Ok(CleanupReport {"));
    assert_eq!(
        unreadable_journals_error("one", "two"),
        "service provisioning failed: one; recovery also failed: background journal also failed \
         to load: two"
    );
    assert_eq!(
        cleanup_created_service(),
        vec![RemovalStep::Stop, RemovalStep::Delete, RemovalStep::AwaitAbsence]
    );
    assert_eq!(RemovalStep::Delete.label(), "delete newly created service");
}

#[test]
fn the_largest_loads_are_told() {
    let load = |dpc_time_bps, interrupt_time_bps| InterruptLoad {
        dpc_time_bps,
        interrupt_time_bps,
    };
    assert_eq!(maximum_interrupt_loads(&Vec::new()), load(0, 0));
    assert_eq!(maximum_interrupt_loads(&vec![load(3, 9), load(5, 1), load(4, 2)]), load(5, 9));
}
