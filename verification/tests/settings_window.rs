use std::collections::BTreeMap;
use std::path::Path;

use winsched_logic::background::BackgroundEfficiencyStatus;
use winsched_logic::controller::ConfigReloadResult;
use winsched_logic::controller::ResponsivenessSettings;
use winsched_logic::diagnostics::diagnostic_finding_text;
use winsched_logic::diagnostics::diagnostic_metrics;
use winsched_logic::diagnostics::finding_identifier;
use winsched_logic::diagnostics::format_gib;
use winsched_logic::diagnostics::DiagnosticFindingCode;
use winsched_logic::diagnostics::DiagnosticReport;
use winsched_logic::diagnostics::DiagnosticSeverity;
use winsched_logic::editor::ApplyStep;
use winsched_logic::editor::BannerKind;
use winsched_logic::editor::Confirmation;
use winsched_logic::editor::DiagnosticOutcome;
use winsched_logic::editor::PendingDiagnostic;
use winsched_logic::editor::ReloadReceipt;
use winsched_logic::editor::SaveState;
use winsched_logic::editor::SavedConfig;
use winsched_logic::editor::SettingsEditor;
use winsched_logic::editor::SettingsTab;
use winsched_logic::efficiency::BackgroundPolicy;
use winsched_logic::language::Language;
use winsched_logic::observations::ControllerMode;
use winsched_logic::observations::WorkloadProfile;
use winsched_logic::panel::ItemKind;
use winsched_logic::responsiveness_log::ResponsivenessPressure;
use winsched_logic::rules::choose_mode;
use winsched_logic::rules::ensure_exact_rule_draft;
use winsched_logic::rules::rule_mode_choices;
use winsched_logic::rules::rule_mode_name;
use winsched_logic::rules::workload_profile_choices;
use winsched_logic::rules::workload_profile_name;
use winsched_logic::rules::ProcessRule;
use winsched_logic::rules::RuleMode;
use winsched_logic::settings_config::BackgroundSettings;
use winsched_logic::settings_config::ControllerConfig;
use winsched_logic::settings_config::ControllerValues;
use winsched_logic::settings_config::EditorLimits;
use winsched_logic::settings_config::Field;
use winsched_logic::settings_config::LoggingLevel;
use winsched_logic::settings_config::LoggingSettings;
use winsched_logic::settings_config::PolicySettings;
use winsched_logic::settings_files::config_reload_wait_ms;
use winsched_logic::settings_files::next_autostart;
use winsched_logic::settings_files::next_save;
use winsched_logic::settings_files::parse_launch_request;
use winsched_logic::settings_files::save_config_atomic;
use winsched_logic::settings_files::set_tray_autostart;
use winsched_logic::settings_files::take_activation_request;
use winsched_logic::settings_files::validate_rule_image;
use winsched_logic::settings_files::AutostartAction;
use winsched_logic::settings_files::FileAnswer;
use winsched_logic::settings_files::RequestFault;
use winsched_logic::settings_files::SaveAction;
use winsched_logic::settings_files::SettingsActivationRequest;
use winsched_logic::settings_files::SettingsError;
use winsched_logic::settings_files::SettingsPaths;
use winsched_logic::settings_panels::adaptive_tab;
use winsched_logic::settings_panels::background_efficiency_tab;
use winsched_logic::settings_panels::controller_efficiency_status;
use winsched_logic::settings_panels::diagnostic_progress;
use winsched_logic::settings_panels::discard_panels;
use winsched_logic::settings_panels::general_tab;
use winsched_logic::settings_panels::logging_tab;
use winsched_logic::settings_panels::responsiveness_live_status;
use winsched_logic::settings_panels::responsiveness_memory_controls;
use winsched_logic::settings_panels::responsiveness_reserve_controls;
use winsched_logic::settings_panels::save_state_text;
use winsched_logic::settings_panels::PhysicalCore;
use winsched_logic::settings_panels::ReserveStatus;
use winsched_logic::settings_panels::ServiceProcessUse;
use winsched_logic::settings_panels::ServiceTelemetry;
use winsched_logic::settings_panels::ServiceWork;
use winsched_logic::settings_window::banner_label;
use winsched_logic::settings_window::bottom_bar;
use winsched_logic::settings_window::change_rules;
use winsched_logic::settings_window::diagnostics_tab;
use winsched_logic::settings_window::rules_tab;
use winsched_logic::settings_window::settings_tabs;
use winsched_logic::settings_window::tab_label;
use winsched_logic::settings_window::BarButton;
use winsched_logic::settings_window::DiagnosticButton;
use winsched_logic::settings_window::DiagnosticFinding;
use winsched_logic::settings_window::RuleEntry;
use winsched_logic::settings_window::RuleField;
use winsched_logic::telemetry::EvaluationTelemetry;

#[test]
fn reload_wait_covers_the_old_interval_when_the_new_interval_is_shorter() {
    assert_eq!(config_reload_wait_ms(60_000, 1_000), 65_000);
    assert_eq!(config_reload_wait_ms(1_000, 60_000), 65_000);
    assert_eq!(config_reload_wait_ms(u64::MAX, 1), u64::MAX);
}

#[test]
fn settings_paths_target_the_common_start_menu_and_startup_folders() {
    let paths = SettingsPaths::under_program_data("ProgramData", '/');

    assert!(Path::new(&paths.tray_shortcut).ends_with(Path::new(
        "Microsoft/Windows/Start Menu/Programs/WinSched/WinSched.lnk"
    )));
    assert!(Path::new(&paths.tray_startup_shortcut).ends_with(Path::new(
        "Microsoft/Windows/Start Menu/Programs/Startup/WinSched Tray.lnk"
    )));
    assert!(Path::new(&paths.log).ends_with(Path::new("WinSched/winsched.log")));
    let default = SettingsPaths::discover(None, '\\');
    assert_eq!(default.config, "C:\\ProgramData\\WinSched\\winsched.toml");
    assert_eq!(SettingsPaths::discover(Some("D:\\"), '\\').status, "D:\\WinSched\\status.json");
    // A bare drive names the directory that is current on it.
    assert_eq!(SettingsPaths::discover(Some("C:"), '\\').status, "C:WinSched\\status.json");
    assert_eq!(SettingsPaths::discover(Some("C:"), '/').status, "C:/WinSched/status.json");
}

/// The shortcuts in memory.
struct Shortcuts {
    files: BTreeMap<&'static str, Vec<u8>>,
    read: Vec<u8>,
}

impl Shortcuts {
    fn new(source: Option<&[u8]>, startup: Option<&[u8]>) -> Self {
        let mut files = BTreeMap::new();
        if let Some(source) = source {
            files.insert("source", source.to_vec());
        }
        if let Some(startup) = startup {
            files.insert("startup", startup.to_vec());
        }
        Self { files, read: Vec::new() }
    }

    fn set(&mut self, enabled: bool) -> bool {
        let mut action = set_tray_autostart(enabled);
        loop {
            let answer = match action {
                AutostartAction::Finished => return true,
                AutostartAction::Failed => return false,
                AutostartAction::RemoveStartup => match self.files.remove("startup") {
                    Some(_) => FileAnswer::Done,
                    None => FileAnswer::NotFound,
                },
                AutostartAction::ReadSource => match self.files.get("source") {
                    Some(contents) => {
                        self.read = contents.clone();
                        FileAnswer::Done
                    }
                    None => FileAnswer::NotFound,
                },
                AutostartAction::CreateStartupFolder => FileAnswer::Done,
                AutostartAction::WriteStartup => {
                    self.files.insert("startup", self.read.clone());
                    FileAnswer::Done
                }
            };
            action = next_autostart(action, answer);
        }
    }
}

#[test]
fn tray_autostart_enable_copies_installed_shortcut_atomically() {
    let mut shortcuts = Shortcuts::new(Some(b"shortcut payload"), None);
    assert!(shortcuts.set(true));
    assert_eq!(shortcuts.files["startup"], b"shortcut payload");
}

#[test]
fn tray_autostart_disable_is_idempotent_and_preserves_source() {
    let mut shortcuts = Shortcuts::new(Some(b"source"), Some(b"startup"));
    assert!(shortcuts.set(false));
    assert!(shortcuts.set(false));
    assert!(!shortcuts.files.contains_key("startup"));
    assert_eq!(shortcuts.files["source"], b"source");
}

#[test]
fn missing_installed_shortcut_does_not_replace_existing_startup_entry() {
    let mut shortcuts = Shortcuts::new(None, Some(b"existing startup shortcut"));
    assert!(!shortcuts.set(true));
    assert_eq!(shortcuts.files["startup"], b"existing startup shortcut");
}

#[test]
fn validation_failure_does_not_replace_existing_file() {
    let mut file = "original contents".to_owned();
    let mut action = save_config_atomic();
    while !matches!(action, SaveAction::Saved | SaveAction::Failed) {
        if action == SaveAction::Write {
            file = "replaced".to_owned();
        }
        action = next_save(action, action != SaveAction::Validate);
    }
    assert_eq!(action, SaveAction::Failed);
    assert_eq!(file, "original contents");
}

#[test]
fn saves_check_encode_and_then_write() {
    let mut action = save_config_atomic();
    let mut seen = Vec::new();
    while !matches!(action, SaveAction::Saved | SaveAction::Failed) {
        seen.push(action);
        action = next_save(action, true);
    }
    assert_eq!(
        seen,
        vec![
            SaveAction::Validate,
            SaveAction::Encode,
            SaveAction::CreateFolder,
            SaveAction::Write
        ]
    );
    assert_eq!(next_save(SaveAction::Write, false), SaveAction::Failed);
    assert_eq!(
        SettingsError::Config("bad".to_owned()).message(),
        "invalid WinSched configuration: bad"
    );
    assert_eq!(
        SettingsError::Io("bad".to_owned()).message(),
        "failed to read or write settings: bad"
    );
    assert_eq!(
        SettingsError::Encode("bad".to_owned()).message(),
        "failed to encode WinSched configuration: bad"
    );
}

#[test]
fn exact_rule_handoff_creates_one_unsaved_case_insensitive_draft() {
    let mut rules = Vec::new();
    assert!(ensure_exact_rule_draft(&mut rules, "worker.exe"));
    assert_eq!(rules.len(), 1);
    assert_eq!(rules[0].image, "worker.exe");
    assert_eq!(rules[0].mode, RuleMode::Auto);
    assert_eq!(rules[0].profile, WorkloadProfile::Balanced);
    assert!(!ensure_exact_rule_draft(&mut rules, "WORKER.EXE"));
    assert_eq!(rules.len(), 1);
}

#[test]
fn rule_handoff_rejects_paths_and_empty_names() {
    assert!(validate_rule_image(Some("game.exe")).is_ok());
    assert!(validate_rule_image(Some("C:\\game.exe")).is_err());
    assert!(validate_rule_image(Some("../game.exe")).is_err());
    assert!(validate_rule_image(Some("  ")).is_err());
    assert_eq!(validate_rule_image(Some(" game.exe ")), Ok("game.exe".to_owned()));
    assert_eq!(validate_rule_image(None), Err(RequestFault::NotUnicode));
}

#[test]
fn launch_requests_are_understood_or_refused() {
    assert_eq!(parse_launch_request(None, None, 0), Ok(None));
    assert_eq!(
        parse_launch_request(Some("--rule-image"), Some("a.exe"), 1),
        Ok(Some("a.exe".to_owned()))
    );
    assert_eq!(
        parse_launch_request(Some("--other"), Some("a.exe"), 1),
        Err(RequestFault::UnsupportedArgument)
    );
    assert_eq!(
        parse_launch_request(Some("--rule-image"), None, 0),
        Err(RequestFault::ImageMissing)
    );
    assert_eq!(
        parse_launch_request(Some("--rule-image"), Some("a.exe"), 2),
        Err(RequestFault::ArgumentsLeft)
    );
    assert_eq!(
        parse_launch_request(Some("--rule-image"), None, 1),
        Err(RequestFault::NotUnicode)
    );
    assert_eq!(
        parse_launch_request(Some("--rule-image"), Some("a/b.exe"), 1),
        Err(RequestFault::NotAFileName)
    );
    assert_eq!(
        RequestFault::NotAFileName.message(),
        "rule image must be one executable file name without a path"
    );
}

#[test]
fn only_fresh_requests_are_heeded() {
    let request = SettingsActivationRequest {
        schema_version: 1,
        rule_image: "a.exe".to_owned(),
        created_at_unix_ms: 1_000,
    };
    assert!(take_activation_request(&request, 1_000));
    assert!(take_activation_request(&request, 61_000));
    assert!(!take_activation_request(&request, 61_001));
    assert!(!take_activation_request(&request, 999));
    let other = SettingsActivationRequest { schema_version: 2, ..request.clone() };
    assert!(!take_activation_request(&other, 1_000));
    let path = SettingsActivationRequest { rule_image: "c\\a.exe".to_owned(), ..request };
    assert!(!take_activation_request(&path, 1_000));
}

fn limits() -> EditorLimits {
    EditorLimits {
        min_reserve_percent: 5,
        max_reserve_percent: 50,
        max_physical_cores: 256,
        min_latency_us: 100,
        max_latency_us: 1_000_000,
        max_stability_samples: 60,
        min_resize_cooldown_ms: 1_000,
        max_resize_cooldown_ms: 600_000,
    }
}

fn values() -> ControllerValues {
    ControllerValues {
        schema_version: 4,
        controller_mode: ControllerMode::Observe,
        sample_interval_ms: 2_000,
        minimum_process_utilization_bps: 500,
        all_user_processes: false,
        default_rule_mode: RuleMode::Auto,
        default_workload_profile: WorkloadProfile::Balanced,
        policy: PolicySettings {
            overload_threshold_bps: 8_000,
            minimum_improvement_bps: 1_000,
            stability_samples: 3,
            minimum_residency_ms: 10_000,
            cooldown_ms: 30_000,
            max_mutations_per_evaluation: 1,
        },
        logging: LoggingSettings {
            level: LoggingLevel::Normal,
            max_file_size_mib: 10,
            retained_archives: 1,
        },
        responsiveness: ResponsivenessSettings {
            enabled: true,
            latency_guard_enabled: true,
            latency_target_p99_us: 10_000,
            latency_recovery_p99_us: 5_000,
            adjustment_stability_samples: 3,
            system_reserve_percent: 10,
            minimum_reserved_cores: 1,
            maximum_reserved_cores: 4,
            memory_minimum_physical_cores: 8,
            memory_maximum_physical_cores: 28,
            memory_use_smt: false,
            memory_resize_cooldown_ms: 30_000,
        },
        background_efficiency: BackgroundSettings {
            enabled: false,
            policy: BackgroundPolicy {
                eco_qos_enabled: false,
                memory_priority_enabled: false,
                memory_pressure_guard_enabled: true,
                protect_foreground: true,
                protect_visible: true,
                protect_audio: true,
            },
        },
    }
}

fn config() -> ControllerConfig {
    ControllerConfig { values: values(), rules: Vec::new() }
}

fn editor() -> SettingsEditor {
    SettingsEditor::new(config(), false, Language::English)
}

fn message(editor: &SettingsEditor) -> (BannerKind, String) {
    let banner = editor.banner.as_ref().unwrap();
    (banner.kind, banner.message.clone())
}

fn saved(editor: &SettingsEditor, now_ms: u64) -> SavedConfig {
    SavedConfig {
        validated: editor.config.copy(),
        fingerprint: 77,
        baseline: Some((42, 7)),
        not_before_unix_ms: 5,
        wait_ms: 7_000,
        now_ms,
    }
}

fn receipt(editor: &SettingsEditor) -> ReloadReceipt {
    ReloadReceipt {
        newer: true,
        result: ConfigReloadResult::Reloaded,
        configured_mode: editor.config.values.controller_mode,
        applied_config_fingerprint: 77,
        applied_logging: editor.config.values.logging,
        error: None,
    }
}

#[test]
fn settings_are_saved_and_confirmed_by_the_service() {
    let mut editor = editor();
    assert!(!editor.is_dirty());
    assert!(!editor.can_apply());
    editor.enter(Field::SampleInterval, 3_000, &limits());
    assert!(editor.is_dirty());
    assert_eq!(editor.save_state(), SaveState::Unsaved);
    assert!(editor.can_apply());
    assert_eq!(editor.apply(None), ApplyStep::Save { wait_ms: 8_000 });
    let outcome = saved(&editor, 1_000);
    editor.apply_saved(outcome);
    assert!(!editor.is_dirty());
    assert!(!editor.can_apply());
    assert_eq!(
        message(&editor).1,
        "Configuration saved atomically. Waiting for the service to reload it..."
    );

    assert_eq!(editor.poll_reload(None, 1_000), Some(250));
    let answer = receipt(&editor);
    assert_eq!(editor.poll_reload(Some(&answer), 1_100), Some(150));
    assert_eq!(editor.poll_reload(Some(&answer), 1_250), None);
    assert_eq!(
        message(&editor),
        (
            BannerKind::Success,
            "Configuration applied and reloaded by the WinSched service.".to_owned()
        )
    );
    assert_eq!(editor.save_state(), SaveState::Saved);
}

#[test]
fn refused_and_unanswered_settings_can_be_applied_again() {
    let mut editor = editor();
    editor.choose_option(Field::ControllerMode, 2);
    editor.apply(None);
    let outcome = saved(&editor, 0);
    editor.apply_saved(outcome);
    let mut answer = receipt(&editor);
    answer.result = ConfigReloadResult::Rejected;
    answer.error = Some("bad rule".to_owned());
    assert_eq!(editor.poll_reload(Some(&answer), 0), None);
    assert_eq!(
        message(&editor),
        (BannerKind::Error, "Service rejected the configuration: bad rule".to_owned())
    );
    assert_eq!(editor.save_state(), SaveState::SavedNotTaken);
    assert!(editor.can_apply());
    assert!(matches!(editor.apply(None), ApplyStep::Save { .. }));
    let outcome = saved(&editor, 10);
    editor.apply_saved(outcome);

    let mut other = receipt(&editor);
    other.applied_config_fingerprint = 78;
    assert_eq!(editor.poll_reload(Some(&other), 10), Some(250));
    assert_eq!(editor.poll_reload(Some(&other), 7_010), None);
    assert!(message(&editor).1.contains("did not match"));
    assert!(editor.can_apply());

    let outcome = saved(&editor, 20_000);
    editor.apply_saved(outcome);
    other.newer = false;
    assert_eq!(editor.poll_reload(Some(&other), 27_000), None);
    assert!(message(&editor).1.contains("did not publish a newer reload receipt"));
    let outcome = saved(&editor, 30_000);
    editor.apply_saved(outcome);
    answer.error = None;
    editor.poll_reload(Some(&answer), 30_000);
    assert!(message(&editor).1.ends_with("the service did not provide an error"));
}

#[test]
fn failed_applies_keep_the_changes() {
    let mut editor = editor();
    editor.toggle(Field::TrayAutostart, true);
    editor.toggle(Field::AllUserProcesses, true);
    assert_eq!(editor.apply(Some("out of range")), ApplyStep::Finished);
    assert_eq!(message(&editor).1, "Validation failed: out of range");
    assert!(editor.is_dirty());
    assert_eq!(editor.apply(None), ApplyStep::SetAutostart { enabled: true });
    assert_eq!(editor.apply_after_autostart(Some("denied")), ApplyStep::Finished);
    assert_eq!(message(&editor).1, "Could not update tray autostart: denied");
    assert!(matches!(editor.apply_after_autostart(None), ApplyStep::Save { .. }));
    assert_eq!(editor.apply_not_saved(), ApplyStep::RollBackAutostart { enabled: false });
    editor.report_config_save_failure("disk full", Some("denied"));
    assert_eq!(
        message(&editor).1,
        "Apply failed: disk full; tray autostart rollback also failed: denied"
    );
    editor.report_config_save_failure("disk full", None);
    assert_eq!(message(&editor).1, "Apply failed: disk full");
    assert!(editor.is_dirty());
}

#[test]
fn a_change_of_the_start_alone_writes_no_settings() {
    let mut editor = editor();
    editor.toggle(Field::TrayAutostart, true);
    assert_eq!(editor.apply(None), ApplyStep::SetAutostart { enabled: true });
    assert_eq!(editor.apply_after_autostart(None), ApplyStep::Finished);
    assert_eq!(message(&editor), (BannerKind::Success, "Tray autostart enabled.".to_owned()));
    assert!(!editor.is_dirty());
    assert_eq!(editor.apply_not_saved(), ApplyStep::Finished);
}

#[test]
fn unsaved_changes_are_not_lost_unasked() {
    let mut editor = editor();
    assert!(!editor.close_requested());
    editor.add_rule();
    assert!(editor.close_requested());
    assert_eq!(editor.confirmation, Confirmation::Close);
    assert!(!editor.close());
    editor.ask(Confirmation::Nothing);
    editor.discard_and_close();
    assert!(!editor.close_requested());
    editor.discard_changes();
    assert!(!editor.is_dirty());
    assert!(editor.close());
}

#[test]
fn defaults_and_reloads_replace_what_is_edited() {
    let mut editor = editor();
    let mut defaults = config();
    defaults.values.controller_mode = ControllerMode::Auto;
    editor.ask(Confirmation::RestoreDefaults);
    editor.restore_defaults(Ok(defaults));
    assert_eq!(editor.confirmation, Confirmation::Nothing);
    assert!(editor.tray_autostart);
    assert!(editor.is_dirty());
    editor.restore_defaults(Err("broken".to_owned()));
    assert_eq!(message(&editor).1, "Could not load product defaults: broken");
    editor.reload_from_disk(Err("gone".to_owned()));
    assert_eq!(message(&editor).1, "Reload failed: gone");
    assert!(editor.is_dirty());
    editor.reload_from_disk(Ok((config(), true)));
    assert!(!editor.is_dirty());
    assert_eq!(message(&editor).1, "Configuration reloaded from disk.");
}

#[test]
fn requested_rules_are_opened_once() {
    let mut editor = editor();
    editor.open_rule_request("game.exe");
    assert_eq!(editor.tab, SettingsTab::Rules);
    assert_eq!(
        message(&editor).1,
        "Exact-rule draft created: game.exe. Review it and choose Apply to save."
    );
    editor.open_rule_request("GAME.EXE");
    assert_eq!(message(&editor).1, "Existing exact rule opened: GAME.EXE");
    assert_eq!(editor.config.rules.len(), 1);
    assert_eq!(editor.take_rule_focus(), Some(0));
    assert_eq!(editor.take_rule_focus(), None);
    editor.edit_rule(0, "new.exe", RuleMode::Strict, WorkloadProfile::Memory, 9, 9);
    assert_eq!(editor.config.rules[0].group, Some(0));
    editor.edit_rule(0, "new.exe", RuleMode::Strict, WorkloadProfile::Memory, 1, 2);
    assert_eq!(editor.config.rules[0].group, Some(1));
    assert_eq!(editor.config.rules[0].llc, Some(2));
    editor.remove_rule(0);
    assert!(editor.config.rules.is_empty());
}

#[test]
fn diagnostics_end_in_one_way() {
    let mut editor = editor();
    assert!(!editor.cancel_diagnostic());
    assert!(editor.may_start_diagnostic());
    editor.start_diagnostic(Some("no thread"), 5);
    assert_eq!(message(&editor).1, "Could not start diagnostic worker: no thread");
    editor.start_diagnostic(None, 5);
    assert!(!editor.may_start_diagnostic());
    assert!(editor.cancel_diagnostic());
    assert!(editor.pending_diagnostic.unwrap().cancelling);
    editor.poll_diagnostic(DiagnosticOutcome::Failed("diagnostic cancelled".to_owned()));
    assert_eq!(message(&editor).1, "Diagnostic cancelled.");
    assert_eq!(editor.diagnostic_error, None);
    editor.poll_diagnostic(DiagnosticOutcome::Failed("broken".to_owned()));
    assert_eq!(editor.diagnostic_error.as_deref(), Some("broken"));
    editor.poll_diagnostic(DiagnosticOutcome::Lost);
    assert_eq!(
        editor.diagnostic_error.as_deref(),
        Some("Diagnostic worker exited without a result.")
    );
    editor.poll_diagnostic(DiagnosticOutcome::Completed);
    assert_eq!(editor.diagnostic_error, None);
    editor.save_diagnostic_report(Ok("C:\\a.json"));
    assert_eq!(message(&editor).1, "Diagnostic report saved to C:\\a.json");
    editor.save_diagnostic_report(Err("full"));
    assert_eq!(message(&editor).1, "Could not save diagnostic report: full");
    editor.note_no_profile();
    assert_eq!(message(&editor).0, BannerKind::Error);
}

#[test]
fn numbers_stay_within_their_bounds() {
    let mut editor = editor();
    editor.enter(Field::SampleInterval, 999, &limits());
    assert_eq!(editor.config.values.sample_interval_ms, 1_000);
    editor.enter(Field::SampleInterval, u64::MAX, &limits());
    assert_eq!(editor.config.values.sample_interval_ms, 60_000);
    editor.enter(Field::LogArchives, 300, &limits());
    assert_eq!(editor.config.values.logging.retained_archives, 10);
    editor.enter(Field::ReservePercent, 7, &limits());
    assert_eq!(editor.config.values.responsiveness.system_reserve_percent, 7);
    editor.choose_option(Field::LoggingLevel, 0);
    assert_eq!(editor.config.values.logging.level, LoggingLevel::Off);
    editor.choose_option(Field::DefaultRuleMode, 1);
    assert_eq!(editor.config.values.default_rule_mode, RuleMode::Sticky);
    editor.choose_option(Field::DefaultRuleMode, 5);
    assert_eq!(editor.config.values.default_rule_mode, RuleMode::Sticky);
    editor.choose_option(Field::DefaultWorkloadProfile, 2);
    assert_eq!(editor.config.values.default_workload_profile, WorkloadProfile::Compute);
}

#[test]
fn only_strict_rules_have_a_domain() {
    let mut rule = ProcessRule {
        image: "a.exe".to_owned(),
        mode: RuleMode::Auto,
        profile: WorkloadProfile::Balanced,
        group: None,
        llc: None,
    };
    choose_mode(&mut rule, RuleMode::Strict);
    assert_eq!((rule.group, rule.llc), (Some(0), Some(0)));
    rule.group = Some(3);
    choose_mode(&mut rule, RuleMode::Strict);
    assert_eq!(rule.group, Some(3));
    choose_mode(&mut rule, RuleMode::Off);
    assert_eq!((rule.group, rule.llc), (None, None));
    assert_eq!(rule_mode_choices(false).len(), 5);
    assert_eq!(rule_mode_choices(true)[5], RuleMode::Strict);
    assert_eq!(workload_profile_choices().len(), 5);
    assert_eq!(rule_mode_name(RuleMode::Strict, Language::English), "Strict domain");
    assert_eq!(workload_profile_name(WorkloadProfile::Background, Language::Russian), "Фоновый");
}

#[test]
fn pages_show_the_settings() {
    let page = general_tab(Language::English, &values(), &limits(), true, 4);
    assert_eq!(page.items[0].text, "Controller behavior");
    assert!(page.items.iter().any(|item| matches!(
        item.kind,
        ItemKind::Choice { field: Field::ControllerMode, at: 1, chosen: true }
    )));
    assert!(page.items.iter().any(|item| item.text == "Default process rule mode: Auto"));
    assert!(page.items.iter().any(|item| {
        item.help == "The service currently supports schema version 4. This field is read-only."
    }));
    for (label, picker) in [
        ("Default process rule mode", Field::DefaultRuleMode),
        ("Default workload profile", Field::DefaultWorkloadProfile),
    ] {
        let at = page.items.iter().position(|item| item.text == label).unwrap();
        assert!(!page.items[at].help.is_empty());
        assert!(matches!(
            page.items[at + 1].kind,
            ItemKind::Picker { field } if field == picker
        ));
        assert_eq!(page.items[at + 1].help, page.items[at].help);
    }
    let page = adaptive_tab(Language::English, &values(), &limits());
    assert!(page.items.iter().any(|item| matches!(
        item.kind,
        ItemKind::Row {
            field: Field::OverloadThreshold,
            value: 8_000,
            min: 0,
            max: 10_000,
            enabled: true
        }
    )));
    let page = logging_tab(Language::English, &values(), &limits(), "C:\\winsched.log");
    assert!(page.items.iter().any(|item| item.text == "C:\\winsched.log"));
    assert!(page.items.iter().any(|item| {
        item.text == "Estimated maximum log storage: 20 MiB (10 MiB per file, 2 files)."
    }));
    let mut off = values();
    off.logging.level = LoggingLevel::Off;
    let page = logging_tab(Language::Russian, &off, &limits(), "x");
    assert!(page.items.iter().all(|item| !matches!(
        item.kind,
        ItemKind::Row { enabled: true, .. }
    )));
    assert!(page.items.iter().any(|item| item.unit == " МиБ"));
    let page = responsiveness_reserve_controls(Language::English, &values(), &limits());
    assert!(page.items.iter().any(|item| item.unit == "%"));
    let page = responsiveness_memory_controls(Language::English, &values(), &limits());
    assert_eq!(page.items.len(), 6);
}

#[test]
fn the_background_page_follows_its_switches() {
    let settings = values().background_efficiency;
    let page = background_efficiency_tab(Language::English, &settings, None, 9);
    for item in &page.items {
        if let ItemKind::Toggle { field, enabled, .. } = item.kind {
            assert_eq!(enabled, field == Field::BackgroundEfficiency);
        }
    }
    assert_eq!(
        page.items.last().unwrap().text,
        "Live background-efficiency information is unavailable until a status-schema-9 service is running."
    );
    let settings = BackgroundSettings { enabled: true, ..settings };
    let status = BackgroundEfficiencyStatus {
        eligible_processes: 3,
        managed_processes: 2,
        protected_processes: 1,
        required_probe_sessions: 1,
        interactive_probe_sessions: 1,
        memory_pressure_monitor_available: true,
        low_memory_condition: false,
        last_action: Some("applied".to_owned()),
    };
    let page = background_efficiency_tab(Language::English, &settings, Some(&status), 9);
    let texts: Vec<&str> = page.items.iter().map(|item| item.text.as_str()).collect();
    assert!(texts.contains(&"Eligible: 3. Managed: 2. Protected: 1."));
    assert!(texts.contains(
        &"Interactive sensors: 1 available / 1 required sessions. Memory monitor: available. Pressure: normal."
    ));
    assert!(texts.contains(&"Last transition: applied"));
    assert!(page.items.iter().any(|item| matches!(
        item.kind,
        ItemKind::Toggle { field: Field::MemoryPressureGuard, enabled: false, .. }
    )));
}

#[test]
fn live_pages_tell_what_the_service_does() {
    let status = ReserveStatus {
        physical_core_count: 16,
        reserved_cores: vec![
            PhysicalCore { group: 0, core_index: 0 },
            PhysicalCore { group: 1, core_index: 12 },
        ],
        reserved_cpu_sets: 4,
        covered_llc_domains: 2,
        latency_guard: true,
        window_samples: 60,
        p95_lateness_us: 100,
        p99_lateness_us: 200,
        maximum_lateness_us: 300,
        maximum_dpc_time_bps: 105,
        maximum_interrupt_time_bps: 7,
        memory_profile_physical_cores: 8,
        pressure: ResponsivenessPressure::Elevated,
        last_adjustment: None,
    };
    let page = responsiveness_live_status(Language::English, Some(&status), 9);
    let texts: Vec<&str> = page.items.iter().map(|item| item.text.as_str()).collect();
    assert_eq!(
        texts,
        vec![
            "Live service plan",
            "Physical cores: 16. Reserved: 2 cores / 4 CPU Sets across 2 LLC domains.",
            "G0:C0, G1:C12",
            "Scheduling latency guard: enabled. Window: 60 samples; p95 100 us, p99 200 us, maximum 300 us.",
            "Maximum LLC telemetry: DPC 1.05%, interrupts 0.07%.",
            "Memory-profile width: 8 physical cores; responsiveness pressure: elevated.",
        ]
    );
    let page = responsiveness_live_status(Language::Russian, None, 9);
    assert_eq!(page.items.len(), 2);

    let telemetry = ServiceTelemetry {
        evaluation: EvaluationTelemetry { completed_total: 5, ..EvaluationTelemetry::default() },
        records_written: 10,
        bytes_written: 4_095,
        write_errors: 0,
        status_writes: 3,
        placement_attempted: 1,
        placement_succeeded: 2,
        placement_failed: 3,
        background_attempted: 4,
        background_succeeded: 5,
        background_failed: 6,
        service_process: Some(ServiceProcessUse {
            cpu_time_100ns: 1_234_000,
            uptime_ms: 10_000,
            working_set_bytes: 1_048_577,
        }),
    };
    let work = ServiceWork::Known { telemetry, managed_processes: 4 };
    let page = controller_efficiency_status(Language::English, &work, 9);
    let texts: Vec<&str> = page.items.iter().map(|item| item.text.as_str()).collect();
    assert_eq!(
        texts,
        vec![
            "Controller efficiency",
            "Evaluations: 5 total, 0 in the rolling window. Last/mean/p95/max: 0/0/0/0 us.",
            "Last pass: 0 scanned, 0 eligible, 0 decisions, 4 currently managed.",
            "File log since service start: 10 records / 3 KiB, 0 write errors. Status writes: 3.",
            "Mutations: placement 1/2/3 and Background 4/5/6 attempted/succeeded/failed.",
            "Service process: 1.23% of one core average, 2 MiB working set, uptime 10 s.",
        ]
    );
    let page = controller_efficiency_status(Language::English, &ServiceWork::Unpublished, 9);
    assert_eq!(
        page.items[1].text,
        "The running service has not published self-observability yet."
    );
    let page = controller_efficiency_status(Language::English, &ServiceWork::Unavailable, 9);
    assert!(page.items[1].text.contains("status-schema-9"));
}

#[test]
fn questions_have_two_answers() {
    assert!(discard_panels(Confirmation::Nothing, Language::English).is_none());
    let question = discard_panels(Confirmation::Close, Language::English).unwrap();
    assert_eq!(question.question, "Close and permanently discard unsaved changes?");
    assert_eq!((question.yes, question.no), ("Discard changes and close", "Keep editing"));
    let question = discard_panels(Confirmation::RestoreDefaults, Language::English).unwrap();
    assert_eq!(question.no, "Keep current settings");
    assert_eq!(save_state_text(SaveState::Unsaved, Language::English), "Unsaved changes");
    assert_eq!(
        diagnostic_progress(Language::English, false, "1.5"),
        "Collecting passive samples... 1.5 s"
    );
    assert_eq!(diagnostic_progress(Language::Russian, true, "1.5"), "Отмена...");
}

fn report() -> DiagnosticReport {
    DiagnosticReport {
        average_cpu_utilization_bps: 1_234,
        maximum_processor_queue_length: 5,
        p99_lateness_us: 300,
        maximum_dpc_time_bps: 5,
        maximum_interrupt_time_bps: 10,
        minimum_available_memory_bytes: 1_610_612_736,
        total_physical_memory_bytes: 68_719_476_736,
        taskbar_p50_response_us: 100,
        taskbar_p95_response_us: 200,
        taskbar_timeout_samples: 0,
        explorer_processes: 1,
        explorer_windows: 2,
        explorer_threads: 50,
        launch_folders_in_separate_process: Some(false),
        wsl_processes: 0,
        vmware_vm_processes: 1,
        wsl_config_present: false,
        resource_pressure_observed: true,
        recommended_memory_bytes: Some(8_589_934_592),
        recommended_processors: None,
    }
}

#[test]
fn measurements_are_told_in_words() {
    let readings = diagnostic_metrics(&report(), Language::English);
    let values: Vec<&str> = readings.items.iter().map(|reading| reading.value.as_str()).collect();
    assert_eq!(
        values,
        vec![
            "12.34%",
            "5",
            "300 us",
            "0.05% / 0.10%",
            "1.5 GiB / 64.0 GiB",
            "100 / 200 us; 0 timeouts",
            "1 / 2 (50 threads)",
            "disabled",
            "0 / 1",
            "not present; WSL defaults apply",
            "Review only; memory 8.0 GiB, processors -. No automatic changes.",
        ]
    );
    assert_eq!(readings.items[0].label, "Average CPU utilization");
    let calm = DiagnosticReport { resource_pressure_observed: false, ..report() };
    assert_eq!(diagnostic_metrics(&calm, Language::Russian).items.len(), 10);
    assert_eq!(format_gib(1_073_741_823), "0.9");
    let (finding, advice) =
        diagnostic_finding_text(DiagnosticFindingCode::MemoryPressure, Language::English);
    assert_eq!(finding, "Available physical memory is low.");
    assert_eq!(advice, "Reduce memory pressure and inspect hard-fault activity.");
    assert_eq!(finding_identifier(DiagnosticFindingCode::CpuSaturation), "CpuSaturation");
}

#[test]
fn the_page_on_diagnostics_follows_the_diagnostic() {
    let work = ServiceWork::Unavailable;
    let page = diagnostics_tab(Language::English, &work, 9, None, "", None, None);
    assert_eq!(page.service.items[0].text, "Passive diagnostics");
    assert_eq!(page.service.items.len(), 4);
    assert_eq!(page.controls.items.len(), 1);
    assert!(matches!(
        page.controls.items[0].kind,
        ItemKind::Button { field: DiagnosticButton::Run, enabled: true }
    ));
    assert!(page.readings.is_none());
    assert!(page.findings.items.is_empty());

    let running = PendingDiagnostic { started_ms: 0, cancelling: true };
    let findings = vec![DiagnosticFinding {
        code: DiagnosticFindingCode::MemoryPressure,
        severity: DiagnosticSeverity::Critical,
    }];
    let page = diagnostics_tab(
        Language::English,
        &work,
        9,
        Some(running),
        "1.5",
        Some("broken"),
        Some((&report(), &findings)),
    );
    let texts: Vec<&str> = page.controls.items.iter().map(|item| item.text.as_str()).collect();
    assert_eq!(texts, vec!["Cancelling...", "Cancel", "broken"]);
    assert!(matches!(
        page.controls.items[1].kind,
        ItemKind::Button { field: DiagnosticButton::Cancel, enabled: false }
    ));
    assert_eq!(page.readings.unwrap().items.len(), 11);
    let texts: Vec<&str> = page.findings.items.iter().map(|item| item.text.as_str()).collect();
    assert_eq!(
        texts,
        vec![
            "Findings",
            "MemoryPressure",
            "Available physical memory is low.",
            "Reduce memory pressure and inspect hard-fault activity.",
            "Copy JSON",
            "Save JSON to Downloads"
        ]
    );
    assert!(matches!(page.findings.items[1].kind, ItemKind::Failure));
}

#[test]
fn the_page_with_the_rules_shows_domains_of_strict_rules() {
    let page = rules_tab(Language::English, &Vec::new());
    assert_eq!(page.items.len(), 5);
    assert_eq!(page.items[3].text, "No explicit process rules are configured.");
    let strict = ProcessRule {
        image: "a.exe".to_owned(),
        mode: RuleMode::Strict,
        profile: WorkloadProfile::Balanced,
        group: Some(1),
        llc: None,
    };
    let page = rules_tab(Language::English, &vec![strict]);
    let texts: Vec<&str> = page.items.iter().skip(3).map(|item| item.text.as_str()).collect();
    assert_eq!(
        texts,
        vec![
            "Rule 1",
            "Remove rule 1",
            "Executable image name",
            "a.exe",
            "Placement mode",
            "Rule 1 \u{2014} placement mode: Strict domain",
            "Workload profile",
            "Rule 1 \u{2014} workload profile: Balanced",
            "Processor group",
            "Last-level cache index",
            "Strict pins the process to the specified processor group and cache domain."
        ]
    );
    assert!(!page.items[8].help.is_empty());
    assert!(!page.items[10].help.is_empty());
    assert!(matches!(
        page.items[11].kind,
        ItemKind::Number { field: RuleField::Group { at: 0 }, value: 1, max: 65_535, .. }
    ));
}

#[test]
fn strict_rules_get_a_domain_before_their_page_is_shown() {
    let mut editor = editor();
    editor.add_rule();
    editor.add_rule();
    editor.config.rules[0].mode = RuleMode::Strict;
    editor.config.rules[0].llc = Some(7);
    editor.complete_rules();
    assert_eq!((editor.config.rules[0].group, editor.config.rules[0].llc), (Some(0), Some(7)));
    assert_eq!((editor.config.rules[1].group, editor.config.rules[1].llc), (None, None));
    let page = rules_tab(Language::English, &editor.config.rules);
    assert!(page.items.iter().any(|item| matches!(
        item.kind,
        ItemKind::Number { field: RuleField::Domain { at: 0 }, value: 7, .. }
    )));
}

#[test]
fn buttons_follow_the_changes() {
    let mut editor = editor();
    let bar = bottom_bar(&editor);
    let enabled: Vec<bool> = bar
        .items
        .iter()
        .map(|item| matches!(item.kind, ItemKind::Button { enabled: true, .. }))
        .collect();
    assert_eq!(enabled, vec![true, true, false, true, false]);
    editor.add_rule();
    let bar = bottom_bar(&editor);
    assert!(matches!(
        bar.items[4].kind,
        ItemKind::Button { field: BarButton::Apply, enabled: true }
    ));
    assert_eq!(bar.items[4].text, "Apply");
    let tabs = settings_tabs();
    assert_eq!(tabs.len(), 7);
    assert_eq!(tabs[0], SettingsTab::General);
    assert_eq!(tabs[6], SettingsTab::Diagnostics);
    assert_eq!(tab_label(SettingsTab::Rules, Language::English), "Process rules");
    assert_eq!(tab_label(SettingsTab::Logging, Language::Russian), "Журнал");
    assert_eq!(banner_label(BannerKind::Success, Language::English), "Success");
}

#[test]
fn rule_fields_are_changed_one_by_one() {
    let mut editor = editor();
    change_rules(&mut editor, RuleField::Add, RuleEntry::Pressed);
    change_rules(&mut editor, RuleField::Add, RuleEntry::Pressed);
    change_rules(&mut editor, RuleField::Add, RuleEntry::Number(1));
    assert_eq!(editor.config.rules.len(), 2);
    let image = RuleEntry::Text("game.exe".to_owned());
    change_rules(&mut editor, RuleField::Image { at: 1 }, image);
    change_rules(&mut editor, RuleField::Group { at: 1 }, RuleEntry::Number(3));
    assert_eq!(editor.config.rules[1].group, None);
    change_rules(&mut editor, RuleField::Mode { at: 1 }, RuleEntry::Picked(5));
    change_rules(&mut editor, RuleField::Profile { at: 1 }, RuleEntry::Picked(3));
    change_rules(&mut editor, RuleField::Group { at: 1 }, RuleEntry::Number(3));
    change_rules(&mut editor, RuleField::Domain { at: 1 }, RuleEntry::Number(255));
    change_rules(&mut editor, RuleField::Domain { at: 1 }, RuleEntry::Number(256));
    change_rules(&mut editor, RuleField::Mode { at: 1 }, RuleEntry::Picked(6));
    let expected = ProcessRule {
        image: "game.exe".to_owned(),
        mode: RuleMode::Strict,
        profile: WorkloadProfile::Background,
        group: Some(3),
        llc: Some(255),
    };
    assert_eq!(editor.config.rules[1], expected);
    change_rules(&mut editor, RuleField::Remove { at: 2 }, RuleEntry::Pressed);
    change_rules(&mut editor, RuleField::Remove { at: 0 }, RuleEntry::Pressed);
    assert_eq!(editor.config.rules, vec![expected]);
}
