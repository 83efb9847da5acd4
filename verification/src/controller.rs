//! What the controller does and publishes, step by step.
use vstd::prelude::*;

use crate::background::copy_optional_text;
use crate::background::same_optional_text;
use crate::background::BackgroundEfficiencyStatus;
use crate::background::BackgroundReconcileReport;
use crate::background::BackgroundStatusView;
use crate::cleanup::combined_cleanup_error;
use crate::cleanup::CleanupReport;
use crate::observations::ControllerMode;
use crate::responsiveness_log::ResponsivenessPressure;
use crate::schedule::controller_evaluation_active;
use crate::schedule::ControllerCommand;
use crate::schedule::LoopAction;
use crate::schedule::LoopCore;
use crate::schedule::LoopSignal;
use crate::schedule::LoopStage;
use crate::settings_config::BackgroundSettings;
use crate::settings_config::ControllerConfig;
use crate::settings_config::LoggingSettings;
use crate::text::push_decimal;
use crate::text::text_starts_with;

verus! {

/// What the controller is doing.
#[derive(Debug, Clone, Copy, PartialEq, Eq, Structural)]
pub enum ControllerPhase {
    Running,
    Disabled,
    Stopping,
    Stopped,
    Error,
}

/// What came of the last look at the settings file.
#[derive(Debug, Clone, Copy, PartialEq, Eq, Structural)]
pub enum ConfigReloadResult {
    Initial,
    Reloaded,
    Rejected,
}

/// A look at the settings file.
#[derive(Debug, Clone)]
pub enum ConfigReload {
    Unchanged,
    Reloaded,
    /// The settings could not be used: the former ones stay, or with
    /// `fail_closed` those that do nothing take their place.
    Rejected { error: String, fail_closed: bool },
}

/// A change of the width of the memory profile.
#[derive(Debug, Clone, Copy, PartialEq, Eq, Structural)]
pub enum WidthAdjustment {
    Shrunk { from: u16, to: u16 },
    Expanded { from: u16, to: u16 },
}

/// What is published about the settings in use.
#[derive(Debug, Clone, Copy, PartialEq, Eq, Structural)]
pub struct AppliedSettings {
    pub mode: ControllerMode,
    /// The number that stands for all settings, with the rules.
    pub fingerprint: u64,
    pub logging: LoggingSettings,
    pub background_efficiency: BackgroundSettings,
    pub responsiveness: ResponsivenessSettings,
}

/// Says what is published about settings, with the number that stands for
/// them.
pub fn applied_settings(config: &ControllerConfig, fingerprint: u64) -> (applied: AppliedSettings)
    ensures
        applied == (AppliedSettings {
            mode: config.values.controller_mode,
            fingerprint,
            logging: config.values.logging,
            background_efficiency: config.values.background_efficiency,
            responsiveness: config.values.responsiveness,
        }),
{
    AppliedSettings {
        mode: config.values.controller_mode,
        fingerprint,
        logging: config.values.logging,
        background_efficiency: config.values.background_efficiency,
        responsiveness: config.values.responsiveness,
    }
}

/// What is published about the controller.
#[derive(Debug)]
pub struct ControllerStatus {
    pub phase: ControllerPhase,
    pub configured_mode: ControllerMode,
    pub applied: AppliedSettings,
    pub scheduling_enabled: bool,
    pub iteration: u64,
    pub managed_processes: usize,
    pub background_efficiency: BackgroundEfficiencyStatus,
    pub last_activity: Option<String>,
    pub last_error: Option<String>,
    pub config_reload_sequence: u64,
    pub config_reload_result: ConfigReloadResult,
    pub config_reload_error: Option<String>,
    pub maximum_dpc_time_bps: u32,
    pub maximum_interrupt_time_bps: u32,
    pub memory_profile_physical_cores: u16,
    pub responsiveness_pressure: ResponsivenessPressure,
    pub last_responsiveness_adjustment: Option<String>,
}

/// What is published about the controller, with its texts as sequences.
#[verifier::ext_equal]
pub struct StatusView {
    pub phase: ControllerPhase,
    pub configured_mode: ControllerMode,
    pub applied: AppliedSettings,
    pub scheduling_enabled: bool,
    pub iteration: u64,
    pub managed_processes: usize,
    pub background_efficiency: BackgroundStatusView,
    pub last_activity: Option<Seq<char>>,
    pub last_error: Option<Seq<char>>,
    pub config_reload_sequence: u64,
    pub config_reload_result: ConfigReloadResult,
    pub config_reload_error: Option<Seq<char>>,
    pub maximum_dpc_time_bps: u32,
    pub maximum_interrupt_time_bps: u32,
    pub memory_profile_physical_cores: u16,
    pub responsiveness_pressure: ResponsivenessPressure,
    pub last_responsiveness_adjustment: Option<Seq<char>>,
}

impl View for ControllerStatus {
    type V = StatusView;

    open spec fn view(&self) -> StatusView {
        StatusView {
            phase: self.phase,
            configured_mode: self.configured_mode,
            applied: self.applied,
            scheduling_enabled: self.scheduling_enabled,
            iteration: self.iteration,
            managed_processes: self.managed_processes,
            background_efficiency: self.background_efficiency@,
            last_activity: self.last_activity.deep_view(),
            last_error: self.last_error.deep_view(),
            config_reload_sequence: self.config_reload_sequence,
            config_reload_result: self.config_reload_result,
            config_reload_error: self.config_reload_error.deep_view(),
            maximum_dpc_time_bps: self.maximum_dpc_time_bps,
            maximum_interrupt_time_bps: self.maximum_interrupt_time_bps,
            memory_profile_physical_cores: self.memory_profile_physical_cores,
            responsiveness_pressure: self.responsiveness_pressure,
            last_responsiveness_adjustment: self.last_responsiveness_adjustment.deep_view(),
        }
    }
}

/// The words for a change of width.
pub open spec fn width_words(adjustment: WidthAdjustment) -> Seq<char> {
    match adjustment {
        WidthAdjustment::Shrunk { from, to } => "Memory profile reduced from "@
            + crate::text::decimal(from as nat) + " to "@ + crate::text::decimal(to as nat)
            + " physical cores"@,
        WidthAdjustment::Expanded { from, to } => "Memory profile expanded from "@
            + crate::text::decimal(from as nat) + " to "@ + crate::text::decimal(to as nat)
            + " physical cores"@,
    }
}

/// Puts a change of width into words.
pub fn width_adjustment_summary(adjustment: WidthAdjustment) -> (text: String)
    ensures
        text@ == width_words(adjustment),
{
    let (start, from, to) = match adjustment {
        WidthAdjustment::Shrunk { from, to } => ("Memory profile reduced from ", from, to),
        WidthAdjustment::Expanded { from, to } => ("Memory profile expanded from ", from, to),
    };
    let mut text = start.to_owned();
    push_decimal(&mut text, from as u64);
    text.append(" to ");
    push_decimal(&mut text, to as u64);
    text.append(" physical cores");
    text
}

/// The settings of the guard on the width of the memory profile.
#[derive(Debug, Clone, Copy, PartialEq, Eq, Structural)]
pub struct AdaptiveWidthConfig {
    pub enabled: bool,
    pub minimum_physical_cores: u16,
    pub maximum_physical_cores: u16,
    pub latency_target_p99_us: u64,
    pub latency_recovery_p99_us: u64,
    pub stability_samples: u16,
    pub resize_cooldown_ms: u64,
}

/// The settings on responsiveness.
#[derive(Debug, Clone, Copy, PartialEq, Eq, Structural)]
pub struct ResponsivenessSettings {
    pub enabled: bool,
    pub latency_guard_enabled: bool,
    pub latency_target_p99_us: u64,
    pub latency_recovery_p99_us: u64,
    pub adjustment_stability_samples: u16,
    pub system_reserve_percent: u8,
    pub minimum_reserved_cores: u16,
    pub maximum_reserved_cores: u16,
    pub memory_minimum_physical_cores: u16,
    pub memory_maximum_physical_cores: u16,
    pub memory_use_smt: bool,
    pub memory_resize_cooldown_ms: u64,
}

/// The width is kept within the settings and within the cores that there are.
pub fn adaptive_width_config(
    settings: &ResponsivenessSettings,
    assignable_physical_cores: usize,
) -> (config: AdaptiveWidthConfig)
    ensures
        config.enabled == (settings.enabled && settings.latency_guard_enabled),
        config.latency_target_p99_us == settings.latency_target_p99_us,
        config.latency_recovery_p99_us == settings.latency_recovery_p99_us,
        config.stability_samples == settings.adjustment_stability_samples,
        config.resize_cooldown_ms == settings.memory_resize_cooldown_ms,
        config.maximum_physical_cores == if settings.memory_maximum_physical_cores
            <= assignable_physical_cores {
            settings.memory_maximum_physical_cores as usize
        } else {
            assignable_physical_cores
        },
        config.minimum_physical_cores == if settings.memory_minimum_physical_cores
            <= config.maximum_physical_cores {
            settings.memory_minimum_physical_cores
        } else {
            config.maximum_physical_cores
        },
        config == width_guard(*settings, assignable_physical_cores),
{
    let available: u16 = if assignable_physical_cores > u16::MAX as usize {
        u16::MAX
    } else {
        assignable_physical_cores as u16
    };
    let maximum_physical_cores: u16 = if settings.memory_maximum_physical_cores <= available {
        settings.memory_maximum_physical_cores
    } else {
        available
    };
    let minimum_physical_cores: u16 = if settings.memory_minimum_physical_cores
        <= maximum_physical_cores {
        settings.memory_minimum_physical_cores
    } else {
        maximum_physical_cores
    };
    AdaptiveWidthConfig {
        enabled: settings.enabled && settings.latency_guard_enabled,
        minimum_physical_cores,
        maximum_physical_cores,
        latency_target_p99_us: settings.latency_target_p99_us,
        latency_recovery_p99_us: settings.latency_recovery_p99_us,
        stability_samples: settings.adjustment_stability_samples,
        resize_cooldown_ms: settings.memory_resize_cooldown_ms,
    }
}

/// How many cores are to be reserved for the system: none while
/// responsiveness is not looked after. The numbers are the percentage, the
/// least and the most.
pub fn system_reserve_request(settings: &ResponsivenessSettings) -> (request: (u8, u16, u16))
    ensures
        request == if settings.enabled {
            (
                settings.system_reserve_percent,
                settings.minimum_reserved_cores,
                settings.maximum_reserved_cores,
            )
        } else {
            (0u8, 0u16, 0u16)
        },
        request == reserve_asked(*settings),
{
    if settings.enabled {
        (
            settings.system_reserve_percent,
            settings.minimum_reserved_cores,
            settings.maximum_reserved_cores,
        )
    } else {
        (0, 0, 0)
    }
}

/// The status after a look at the settings file.
pub open spec fn status_reloaded(
    status: StatusView,
    applied: AppliedSettings,
    reload: ConfigReload,
) -> StatusView {
    let sequence = if status.config_reload_sequence < u64::MAX {
        (status.config_reload_sequence + 1) as u64
    } else {
        u64::MAX
    };
    let configured = StatusView { configured_mode: applied.mode, applied, ..status };
    match reload {
        ConfigReload::Unchanged => configured,
        ConfigReload::Reloaded => StatusView {
            config_reload_sequence: sequence,
            config_reload_result: ConfigReloadResult::Reloaded,
            config_reload_error: None,
            last_activity: Some("Configuration reloaded"@),
            last_error: None,
            ..configured
        },
        ConfigReload::Rejected { error, fail_closed } => StatusView {
            config_reload_sequence: sequence,
            config_reload_result: ConfigReloadResult::Rejected,
            config_reload_error: Some(error@),
            last_activity: Some(
                if fail_closed {
                    "Configuration rejected; fail-closed"@
                } else {
                    "Configuration rejected; prior configuration retained"@
                },
            ),
            last_error: Some(error@),
            ..configured
        },
    }
}

/// Notes a look at the settings file. Returns whether a receipt is owed.
pub fn apply_reload_status(
    status: &mut ControllerStatus,
    applied: &AppliedSettings,
    reload: &ConfigReload,
) -> (receipt: bool)
    ensures
        final(status)@ == status_reloaded(old(status)@, *applied, *reload),
        receipt == (reload !is Unchanged),
{
    status.configured_mode = applied.mode;
    status.applied = *applied;
    match reload {
        ConfigReload::Unchanged => false,
        ConfigReload::Reloaded => {
            status.config_reload_sequence = status.config_reload_sequence.saturating_add(1);
            status.config_reload_result = ConfigReloadResult::Reloaded;
            status.config_reload_error = None;
            status.last_activity = Some("Configuration reloaded".to_owned());
            status.last_error = None;
            true
        },
        ConfigReload::Rejected { error, fail_closed } => {
            status.config_reload_sequence = status.config_reload_sequence.saturating_add(1);
            status.config_reload_result = ConfigReloadResult::Rejected;
            status.config_reload_error = Some(error.as_str().to_owned());
            status.last_activity = Some(
                if *fail_closed {
                    "Configuration rejected; fail-closed".to_owned()
                } else {
                    "Configuration rejected; prior configuration retained".to_owned()
                },
            );
            status.last_error = Some(error.as_str().to_owned());
            true
        },
    }
}

/// The name under which a look at the settings file is logged, if it is.
pub fn reload_event_name(reload: &ConfigReload) -> (name: Option<&'static str>)
    ensures
        name is None == (reload is Unchanged),
        name matches Some(name) ==> name@ == match *reload {
            ConfigReload::Rejected { fail_closed: true, .. } => "config_rejected_fail_closed"@,
            ConfigReload::Rejected { .. } => "config_rejected"@,
            _ => "config_reloaded"@,
        },
{
    match reload {
        ConfigReload::Unchanged => None,
        ConfigReload::Reloaded => Some("config_reloaded"),
        ConfigReload::Rejected { fail_closed, .. } => if *fail_closed {
            Some("config_rejected_fail_closed")
        } else {
            Some("config_rejected")
        },
    }
}

/// How a cleanup ended.
#[derive(Debug)]
pub enum CleanupResult {
    Done(CleanupReport),
    Failed(String),
}

/// The status after an evaluation of the background policies. What was done
/// last stays until something else is done; an error of the policies goes
/// when they have none any more.
pub open spec fn status_ticked(status: StatusView, report: BackgroundReconcileReport) -> StatusView {
    let background = report.status@;
    StatusView {
        background_efficiency: BackgroundStatusView {
            last_action: if background.last_action is None {
                status.background_efficiency.last_action
            } else {
                background.last_action
            },
            ..background
        },
        last_error: match report.last_error.deep_view() {
            Some(error) => Some("Background efficiency: "@ + error),
            None => if status.last_error matches Some(error) && crate::text::starts_with(
                error,
                "Background efficiency:"@,
            ) {
                None
            } else {
                status.last_error
            },
        },
        ..status
    }
}

/// Notes an evaluation of the background policies.
pub fn apply_background_tick(
    status: &mut ControllerStatus,
    report: BackgroundReconcileReport,
) -> (error: Option<String>)
    ensures
        final(status)@ == status_ticked(old(status)@, report),
        error.deep_view() == report.last_error.deep_view(),
{
    let ghost before = status@;
    let ghost reported = report;
    let mut background = report.status;
    if background.last_action.is_none() {
        background.last_action = copy_optional_text(&status.background_efficiency.last_action);
    }
    status.background_efficiency = background;
    match &report.last_error {
        Some(error) => {
            let mut text = "Background efficiency: ".to_owned();
            text.append(error.as_str());
            status.last_error = Some(text);
        },
        None => {
            let ours = match &status.last_error {
                Some(error) => text_starts_with(error.as_str(), "Background efficiency:"),
                None => false,
            };
            if ours {
                status.last_error = None;
            }
        },
    }
    proof {
        assert(status@ =~= status_ticked(before, reported));
    }
    report.last_error
}

/// The words for disabled scheduling.
pub open spec fn disabled_words(placement: CleanupReport, background: CleanupReport) -> Seq<char> {
    if placement.failed == 0 && background.failed == 0 {
        "Scheduling disabled; managed assignments and background policies cleared"@
    } else {
        "Scheduling disabled; "@ + crate::text::decimal(placement.failed as nat)
            + " CPU assignment(s) and "@ + crate::text::decimal(background.failed as nat)
            + " background policy(s) await cleanup retry"@
    }
}

fn disabled_text(placement: &CleanupReport, background: &CleanupReport) -> (text: String)
    ensures
        text@ == disabled_words(*placement, *background),
{
    if placement.failed == 0 && background.failed == 0 {
        "Scheduling disabled; managed assignments and background policies cleared".to_owned()
    } else {
        let mut text = "Scheduling disabled; ".to_owned();
        push_decimal(&mut text, placement.failed as u64);
        text.append(" CPU assignment(s) and ");
        push_decimal(&mut text, background.failed as u64);
        text.append(" background policy(s) await cleanup retry");
        text
    }
}

/// The error of the last cleanup: that of the placements first, then that of
/// the background policies, then what could not be given back.
pub open spec fn exit_error(placement: CleanupResult, background: CleanupResult) -> Option<
    Seq<char>,
> {
    match (placement, background) {
        (CleanupResult::Failed(said), _) => Some(said@),
        (CleanupResult::Done(_), CleanupResult::Failed(said)) => Some(said@),
        (CleanupResult::Done(placement), CleanupResult::Done(background)) => {
            if placement.failed != 0 || background.failed != 0 {
                let count = if placement.failed + background.failed > usize::MAX {
                    usize::MAX as nat
                } else {
                    (placement.failed + background.failed) as nat
                };
                Some(
                    "failed to restore "@ + crate::text::decimal(count)
                        + " managed process state record(s)"@,
                )
            } else {
                None
            }
        },
    }
}

/// Describes what went wrong in the last cleanup.
pub fn exit_cleanup_error(placement: &CleanupResult, background: &CleanupResult) -> (error: Option<
    String,
>)
    ensures
        error.deep_view() == exit_error(*placement, *background),
{
    match placement {
        CleanupResult::Failed(said) => Some(said.as_str().to_owned()),
        CleanupResult::Done(placement) => match background {
            CleanupResult::Failed(said) => Some(said.as_str().to_owned()),
            CleanupResult::Done(background) => {
                if placement.failed != 0 || background.failed != 0 {
                    let mut text = "failed to restore ".to_owned();
                    push_decimal(
                        &mut text,
                        placement.failed.saturating_add(background.failed) as u64,
                    );
                    text.append(" managed process state record(s)");
                    Some(text)
                } else {
                    None
                }
            },
        },
    }
}

/// What came of the last action, with what it brought.
#[derive(Debug)]
pub enum LoopEvent {
    CleanedUp {
        placement: CleanupReport,
        background: CleanupReport,
        /// How many records are left.
        managed: usize,
        managed_background: usize,
    },
    Published,
    Primed,
    Command(ControllerCommand),
    RuntimeSaved,
    Reloaded {
        applied: AppliedSettings,
        reload: ConfigReload,
        memory_profile_physical_cores: u16,
        pressure: ResponsivenessPressure,
    },
    Clock { due: bool },
    Ticked { managed: usize, report: BackgroundReconcileReport },
    Sampled { maximum_dpc_time_bps: u32, maximum_interrupt_time_bps: u32 },
    SampleFailed { error: String },
    WidthEvaluated {
        adjustment: Option<WidthAdjustment>,
        memory_profile_physical_cores: u16,
        pressure: ResponsivenessPressure,
    },
    Decision { summary: String, enforce: bool },
    Enforced { failure: Option<String> },
    DecisionsDone { managed: usize },
    Failed { error: String },
    ExitCleanedUp {
        placement_result: CleanupResult,
        background_result: CleanupResult,
        managed: usize,
        managed_background: usize,
    },
    ExitPublished { done: bool },
}

impl LoopEvent {
    /// What the order of work depends on.
    pub open spec fn signal(self) -> LoopSignal {
        match self {
            LoopEvent::CleanedUp { .. } => LoopSignal::CleanedUp,
            LoopEvent::Published => LoopSignal::Published,
            LoopEvent::Primed => LoopSignal::Primed,
            LoopEvent::Command(command) => LoopSignal::Command(command),
            LoopEvent::RuntimeSaved => LoopSignal::RuntimeSaved,
            LoopEvent::Reloaded { applied, reload, .. } => LoopSignal::Reloaded {
                mode: applied.mode,
                receipt: reload !is Unchanged,
            },
            LoopEvent::Clock { due } => LoopSignal::Clock { due },
            LoopEvent::Ticked { .. } => LoopSignal::Ticked,
            LoopEvent::Sampled { .. } => LoopSignal::Sampled,
            LoopEvent::SampleFailed { .. } => LoopSignal::SampleFailed,
            LoopEvent::WidthEvaluated { .. } => LoopSignal::WidthEvaluated,
            LoopEvent::Decision { enforce, .. } => LoopSignal::Decision { enforce },
            LoopEvent::Enforced { .. } => LoopSignal::Enforced,
            LoopEvent::DecisionsDone { .. } => LoopSignal::DecisionsDone,
            LoopEvent::Failed { .. } => LoopSignal::Failed,
            LoopEvent::ExitCleanedUp { placement_result, background_result, .. } =>
                LoopSignal::ExitCleanedUp {
                    complete: exit_error(placement_result, background_result) is None,
                },
            LoopEvent::ExitPublished { done } => LoopSignal::ExitPublished { done },
        }
    }
}

/// The controller with what it publishes.
#[derive(Debug)]
pub struct Controller {
    pub core: LoopCore,
    pub status: ControllerStatus,
    /// The last error when the present evaluation began.
    pub error_before: Option<String>,
    /// What was published about the background policies before their last
    /// evaluation.
    pub background_before: BackgroundEfficiencyStatus,
    /// The error of their last evaluation.
    pub background_error: Option<String>,
    /// Whether the present evaluation changed the width of the memory profile.
    pub adjusted: bool,
    /// Whether the status has changed in a way that must be published.
    pub important: bool,
    /// The error that ended the loop.
    pub loop_error: Option<String>,
}

/// The controller with its texts as sequences.
#[verifier::ext_equal]
pub struct ControllerView {
    pub core: LoopCore,
    pub status: StatusView,
    pub error_before: Option<Seq<char>>,
    pub background_before: BackgroundStatusView,
    pub background_error: Option<Seq<char>>,
    pub adjusted: bool,
    pub important: bool,
    pub loop_error: Option<Seq<char>>,
}

impl View for Controller {
    type V = ControllerView;

    open spec fn view(&self) -> ControllerView {
        ControllerView {
            core: self.core,
            status: self.status@,
            error_before: self.error_before.deep_view(),
            background_before: self.background_before@,
            background_error: self.background_error.deep_view(),
            adjusted: self.adjusted,
            important: self.important,
            loop_error: self.loop_error.deep_view(),
        }
    }
}

/// The status with the numbers of records that are left.
pub open spec fn with_counts(status: StatusView, managed: usize, managed_background: usize) -> StatusView {
    StatusView {
        managed_processes: managed,
        background_efficiency: BackgroundStatusView {
            managed_processes: managed_background,
            ..status.background_efficiency
        },
        ..status
    }
}

/// The status of enabled scheduling.
pub open spec fn status_enabled(status: StatusView) -> StatusView {
    StatusView {
        scheduling_enabled: true,
        phase: ControllerPhase::Running,
        last_activity: Some("Scheduling enabled from tray or CLI"@),
        last_error: None,
        ..status
    }
}

/// What is published where nothing is known of the background policies.
pub open spec fn no_background() -> BackgroundStatusView {
    BackgroundStatusView {
        eligible_processes: 0,
        managed_processes: 0,
        protected_processes: 0,
        required_probe_sessions: 0,
        interactive_probe_sessions: 0,
        memory_pressure_monitor_available: false,
        low_memory_condition: false,
        last_action: None,
    }
}

impl ControllerView {
    /// A controller that begins its loop. Nothing but the numbers of records
    /// and the width of the memory profile is known yet.
    pub open spec fn first(
        applied: AppliedSettings,
        scheduling_enabled: bool,
        max_iterations: Option<u16>,
        managed: usize,
        managed_background: usize,
        memory_profile_physical_cores: u16,
        pressure: ResponsivenessPressure,
    ) -> ControllerView {
        ControllerView {
            core: LoopCore::first(applied.mode, scheduling_enabled, max_iterations),
            status: StatusView {
                phase: if controller_evaluation_active(applied.mode, scheduling_enabled) {
                    ControllerPhase::Running
                } else {
                    ControllerPhase::Disabled
                },
                configured_mode: applied.mode,
                applied,
                scheduling_enabled,
                iteration: 0,
                managed_processes: managed,
                background_efficiency: BackgroundStatusView {
                    managed_processes: managed_background,
                    ..no_background()
                },
                last_activity: None,
                last_error: None,
                config_reload_sequence: 0,
                config_reload_result: ConfigReloadResult::Initial,
                config_reload_error: None,
                maximum_dpc_time_bps: 0,
                maximum_interrupt_time_bps: 0,
                memory_profile_physical_cores,
                responsiveness_pressure: pressure,
                last_responsiveness_adjustment: None,
            },
            error_before: None,
            background_before: no_background(),
            background_error: None,
            adjusted: false,
            important: false,
            loop_error: None,
        }
    }

    /// The status after a cleanup in the loop.
    pub open spec fn cleaned_up(
        self,
        placement: CleanupReport,
        background: CleanupReport,
        managed: usize,
        managed_background: usize,
    ) -> ControllerView {
        let error = crate::cleanup::cleanup_error_words(placement, background);
        let counted = with_counts(self.status, managed, managed_background);
        match self.core.stage {
            LoopStage::StartupCleanup => ControllerView {
                status: StatusView {
                    last_error: if error is Some {
                        error
                    } else {
                        counted.last_error
                    },
                    ..counted
                },
                ..self
            },
            LoopStage::DisableCleanup => ControllerView {
                status: StatusView {
                    scheduling_enabled: false,
                    phase: ControllerPhase::Disabled,
                    last_activity: Some(disabled_words(placement, background)),
                    last_error: error,
                    ..counted
                },
                ..self
            },
            _ => ControllerView {
                status: StatusView {
                    phase: ControllerPhase::Disabled,
                    last_error: error,
                    iteration: self.core.counted().iteration,
                    ..counted
                },
                important: error != self.status.last_error,
                ..self
            },
        }
    }

    /// The status after the background policies were evaluated.
    pub open spec fn ticked(self, managed: usize, report: BackgroundReconcileReport) -> ControllerView {
        let status = status_ticked(self.status, report);
        let noted = ControllerView {
            status,
            background_before: self.status.background_efficiency,
            background_error: report.last_error.deep_view(),
            ..self
        };
        match self.core.stage {
            LoopStage::GuardTick => ControllerView {
                status: StatusView {
                    managed_processes: managed,
                    phase: ControllerPhase::Running,
                    ..status
                },
                important: status.last_error != self.error_before || status.background_efficiency
                    != self.status.background_efficiency,
                ..noted
            },
            LoopStage::SkippedTick => ControllerView {
                status: StatusView { iteration: self.core.counted().iteration, ..status },
                important: true,
                ..noted
            },
            _ => noted,
        }
    }

    /// The status after a placement evaluation.
    pub open spec fn evaluated(self, managed: usize) -> ControllerView {
        let error = match self.background_error {
            Some(error) => Some("Background efficiency: "@ + error),
            None => self.status.last_error,
        };
        ControllerView {
            status: StatusView {
                last_error: error,
                iteration: self.core.counted().iteration,
                managed_processes: managed,
                phase: ControllerPhase::Running,
                ..self.status
            },
            important: self.adjusted || error != self.error_before
                || self.status.background_efficiency != self.background_before,
            ..self
        }
    }

    /// The status after the last cleanup.
    pub open spec fn exited(
        self,
        placement: CleanupResult,
        background: CleanupResult,
        managed: usize,
        managed_background: usize,
    ) -> ControllerView {
        let counted = with_counts(self.status, managed, managed_background);
        let error = exit_error(placement, background);
        ControllerView {
            status: StatusView {
                phase: if self.loop_error is None && error is None {
                    ControllerPhase::Stopped
                } else {
                    ControllerPhase::Error
                },
                last_error: if self.loop_error is Some {
                    self.loop_error
                } else if error is Some {
                    error
                } else {
                    counted.last_error
                },
                ..counted
            },
            ..self
        }
    }

    /// What an event makes of the status, before the loop moves on.
    pub open spec fn told(self, event: LoopEvent) -> ControllerView {
        match event {
            LoopEvent::CleanedUp { placement, background, managed, managed_background } =>
                self.cleaned_up(placement, background, managed, managed_background),
            LoopEvent::Command(ControllerCommand::Stop) => ControllerView {
                status: StatusView { phase: ControllerPhase::Stopping, ..self.status },
                ..self
            },
            LoopEvent::Command(ControllerCommand::Enable) => if self.core.scheduling_enabled {
                ControllerView { status: status_enabled(self.status), ..self }
            } else {
                self
            },
            LoopEvent::RuntimeSaved => if self.core.stage is EnableSave {
                ControllerView { status: status_enabled(self.status), ..self }
            } else {
                self
            },
            LoopEvent::Reloaded { applied, reload, memory_profile_physical_cores, pressure } =>
                ControllerView {
                    status: StatusView {
                        memory_profile_physical_cores,
                        responsiveness_pressure: pressure,
                        ..status_reloaded(self.status, applied, reload)
                    },
                    ..self
                },
            LoopEvent::Clock { .. } => ControllerView {
                error_before: self.status.last_error,
                ..self
            },
            LoopEvent::Ticked { managed, report } => self.ticked(managed, report),
            LoopEvent::Sampled { maximum_dpc_time_bps, maximum_interrupt_time_bps } =>
                ControllerView {
                    error_before: self.status.last_error,
                    status: StatusView {
                        maximum_dpc_time_bps,
                        maximum_interrupt_time_bps,
                        last_error: if self.status.last_error matches Some(error) && crate::text::starts_with(
                            error,
                            "Load telemetry sample skipped:"@,
                        ) {
                            None
                        } else {
                            self.status.last_error
                        },
                        ..self.status
                    },
                    ..self
                },
            LoopEvent::SampleFailed { error } => ControllerView {
                status: StatusView {
                    last_activity: Some("Load telemetry sample skipped"@),
                    last_error: Some("Load telemetry sample skipped: "@ + error@),
                    ..self.status
                },
                ..self
            },
            LoopEvent::WidthEvaluated { adjustment, memory_profile_physical_cores, pressure } =>
                ControllerView {
                    adjusted: adjustment is Some,
                    status: StatusView {
                        memory_profile_physical_cores,
                        responsiveness_pressure: pressure,
                        last_responsiveness_adjustment: match adjustment {
                            Some(adjustment) => Some(width_words(adjustment)),
                            None => self.status.last_responsiveness_adjustment,
                        },
                        ..self.status
                    },
                    ..self
                },
            LoopEvent::Decision { summary, .. } => ControllerView {
                status: StatusView { last_activity: Some(summary@), ..self.status },
                ..self
            },
            LoopEvent::Enforced { failure } => ControllerView {
                status: StatusView { last_error: failure.deep_view(), ..self.status },
                ..self
            },
            LoopEvent::DecisionsDone { managed } => self.evaluated(managed),
            LoopEvent::Failed { error } => ControllerView { loop_error: Some(error@), ..self },
            LoopEvent::ExitCleanedUp {
                placement_result,
                background_result,
                managed,
                managed_background,
            } => self.exited(placement_result, background_result, managed, managed_background),
            _ => self,
        }
    }

    /// The controller after an event.
    pub open spec fn after(self, event: LoopEvent) -> ControllerView {
        ControllerView { core: self.core.follows(event.signal()), ..self.told(event) }
    }
}

impl Controller {
    /// A controller that begins its loop.
    pub fn start(
        applied: AppliedSettings,
        scheduling_enabled: bool,
        max_iterations: Option<u16>,
        managed: usize,
        managed_background: usize,
        memory_profile_physical_cores: u16,
        pressure: ResponsivenessPressure,
    ) -> (controller: Controller)
        ensures
            controller@ == ControllerView::first(
                applied,
                scheduling_enabled,
                max_iterations,
                managed,
                managed_background,
                memory_profile_physical_cores,
                pressure,
            ),
    {
        let mut background_efficiency = BackgroundEfficiencyStatus::empty();
        background_efficiency.managed_processes = managed_background;
        Controller {
            core: LoopCore::start(applied.mode, scheduling_enabled, max_iterations),
            status: ControllerStatus {
                phase: if controller_evaluation_active(applied.mode, scheduling_enabled) {
                    ControllerPhase::Running
                } else {
                    ControllerPhase::Disabled
                },
                configured_mode: applied.mode,
                applied,
                scheduling_enabled,
                iteration: 0,
                managed_processes: managed,
                background_efficiency,
                last_activity: None,
                last_error: None,
                config_reload_sequence: 0,
                config_reload_result: ConfigReloadResult::Initial,
                config_reload_error: None,
                maximum_dpc_time_bps: 0,
                maximum_interrupt_time_bps: 0,
                memory_profile_physical_cores,
                responsiveness_pressure: pressure,
                last_responsiveness_adjustment: None,
            },
            error_before: None,
            background_before: BackgroundEfficiencyStatus::empty(),
            background_error: None,
            adjusted: false,
            important: false,
            loop_error: None,
        }
    }

    fn note_cleanup(
        &mut self,
        placement: CleanupReport,
        background: CleanupReport,
        managed: usize,
        managed_background: usize,
    )
        ensures
            final(self)@ == old(self)@.cleaned_up(
                placement,
                background,
                managed,
                managed_background,
            ),
    {
        let ghost before = self@;
        let error = combined_cleanup_error(placement, background);
        self.status.managed_processes = managed;
        self.status.background_efficiency.managed_processes = managed_background;
        match self.core.stage {
            LoopStage::StartupCleanup => {
                if error.is_some() {
                    self.status.last_error = error;
                }
            },
            LoopStage::DisableCleanup => {
                self.status.scheduling_enabled = false;
                self.status.phase = ControllerPhase::Disabled;
                self.status.last_activity = Some(disabled_text(&placement, &background));
                self.status.last_error = error;
            },
            _ => {
                self.status.phase = ControllerPhase::Disabled;
                self.important = !same_optional_text(&error, &self.status.last_error);
                self.status.last_error = error;
                self.status.iteration = self.core.iteration.saturating_add(1);
            },
        }
        proof {
            assert(self@ =~= before.cleaned_up(
                placement,
                background,
                managed,
                managed_background,
            ));
        }
    }

    fn note_tick(&mut self, managed: usize, report: BackgroundReconcileReport)
        ensures
            final(self)@ == old(self)@.ticked(managed, report),
    {
        let ghost before = self@;
        let ghost reported = report;
        self.background_before = self.status.background_efficiency.copy();
        self.background_error = apply_background_tick(&mut self.status, report);
        match self.core.stage {
            LoopStage::GuardTick => {
                self.status.managed_processes = managed;
                self.status.phase = ControllerPhase::Running;
                self.important = !same_optional_text(&self.status.last_error, &self.error_before)
                    || !self.status.background_efficiency.same(&self.background_before);
            },
            LoopStage::SkippedTick => {
                self.status.iteration = self.core.iteration.saturating_add(1);
                self.important = true;
            },
            _ => {},
        }
        proof {
            assert(self@ =~= before.ticked(managed, reported));
        }
    }

    fn note_evaluation(&mut self, managed: usize)
        ensures
            final(self)@ == old(self)@.evaluated(managed),
    {
        let ghost before = self@;
        if let Some(error) = &self.background_error {
            let mut text = "Background efficiency: ".to_owned();
            text.append(error.as_str());
            self.status.last_error = Some(text);
        }
        self.status.iteration = self.core.iteration.saturating_add(1);
        self.status.managed_processes = managed;
        self.status.phase = ControllerPhase::Running;
        self.important = self.adjusted || !same_optional_text(
            &self.status.last_error,
            &self.error_before,
        ) || !self.status.background_efficiency.same(&self.background_before);
        proof {
            assert(self@ =~= before.evaluated(managed));
        }
    }

    fn note_exit(
        &mut self,
        placement: &CleanupResult,
        background: &CleanupResult,
        managed: usize,
        managed_background: usize,
    ) -> (complete: bool)
        ensures
            final(self)@ == old(self)@.exited(*placement, *background, managed, managed_background),
            complete == (exit_error(*placement, *background) is None),
    {
        let ghost before = self@;
        let error = exit_cleanup_error(placement, background);
        let complete = error.is_none();
        self.status.managed_processes = managed;
        self.status.background_efficiency.managed_processes = managed_background;
        self.status.phase =
        if self.loop_error.is_none() && complete {
            ControllerPhase::Stopped
        } else {
            ControllerPhase::Error
        };
        if self.loop_error.is_some() {
            self.status.last_error = copy_optional_text(&self.loop_error);
        } else if error.is_some() {
            self.status.last_error = error;
        }
        proof {
            assert(self@ =~= before.exited(
                *placement,
                *background,
                managed,
                managed_background,
            ));
        }
        complete
    }

    fn note_enabled(&mut self)
        ensures
            final(self)@ == (ControllerView {
                status: status_enabled(old(self)@.status),
                ..old(self)@
            }),
    {
        self.status.scheduling_enabled = true;
        self.status.phase = ControllerPhase::Running;
        self.status.last_activity = Some("Scheduling enabled from tray or CLI".to_owned());
        self.status.last_error = None;
    }

    fn note_sample(&mut self, maximum_dpc_time_bps: u32, maximum_interrupt_time_bps: u32)
        ensures
            final(self)@ == old(self)@.told(
                LoopEvent::Sampled { maximum_dpc_time_bps, maximum_interrupt_time_bps },
            ),
    {
        self.error_before = copy_optional_text(&self.status.last_error);
        let skipped = match &self.status.last_error {
            Some(error) => text_starts_with(error.as_str(), "Load telemetry sample skipped:"),
            None => false,
        };
        if skipped {
            self.status.last_error = None;
        }
        self.status.maximum_dpc_time_bps = maximum_dpc_time_bps;
        self.status.maximum_interrupt_time_bps = maximum_interrupt_time_bps;
    }

    fn note_reload(
        &mut self,
        applied: AppliedSettings,
        reload: ConfigReload,
        memory_profile_physical_cores: u16,
        pressure: ResponsivenessPressure,
    ) -> (receipt: bool)
        ensures
            final(self)@ == old(self)@.told(
                LoopEvent::Reloaded { applied, reload, memory_profile_physical_cores, pressure },
            ),
            receipt == (reload !is Unchanged),
    {
        let receipt = apply_reload_status(&mut self.status, &applied, &reload);
        self.status.memory_profile_physical_cores = memory_profile_physical_cores;
        self.status.responsiveness_pressure = pressure;
        receipt
    }

    /// Takes what came of the last action into the status, and says what the
    /// order of work depends on.
    #[verifier::rlimit(40)]
    fn note(&mut self, event: LoopEvent) -> (signal: LoopSignal)
        ensures
            final(self)@ == old(self)@.told(event),
            signal == event.signal(),
    {
        let ghost before = self@;
        match event {
            LoopEvent::CleanedUp { placement, background, managed, managed_background } => {
                self.note_cleanup(placement, background, managed, managed_background);
                LoopSignal::CleanedUp
            },
            LoopEvent::Published => LoopSignal::Published,
            LoopEvent::Primed => LoopSignal::Primed,
            LoopEvent::Command(command) => {
                match command {
                    ControllerCommand::Stop => {
                        self.status.phase = ControllerPhase::Stopping;
                    },
                    ControllerCommand::Enable => {
                        if self.core.scheduling_enabled {
                            self.note_enabled();
                        }
                    },
                    ControllerCommand::Disable | ControllerCommand::Tick => {},
                }
                LoopSignal::Command(command)
            },
            LoopEvent::RuntimeSaved => {
                if matches!(self.core.stage, LoopStage::EnableSave) {
                    self.note_enabled();
                }
                LoopSignal::RuntimeSaved
            },
            LoopEvent::Reloaded { applied, reload, memory_profile_physical_cores, pressure } => {
                let mode = applied.mode;
                let receipt = self.note_reload(
                    applied,
                    reload,
                    memory_profile_physical_cores,
                    pressure,
                );
                LoopSignal::Reloaded { mode, receipt }
            },
            LoopEvent::Clock { due } => {
                self.error_before = copy_optional_text(&self.status.last_error);
                LoopSignal::Clock { due }
            },
            LoopEvent::Ticked { managed, report } => {
                self.note_tick(managed, report);
                LoopSignal::Ticked
            },
            LoopEvent::Sampled { maximum_dpc_time_bps, maximum_interrupt_time_bps } => {
                self.note_sample(maximum_dpc_time_bps, maximum_interrupt_time_bps);
                LoopSignal::Sampled
            },
            LoopEvent::SampleFailed { error } => {
                let mut text = "Load telemetry sample skipped: ".to_owned();
                text.append(error.as_str());
                self.status.last_activity = Some("Load telemetry sample skipped".to_owned());
                self.status.last_error = Some(text);
                LoopSignal::SampleFailed
            },
            LoopEvent::WidthEvaluated { adjustment, memory_profile_physical_cores, pressure } => {
                self.adjusted = adjustment.is_some();
                if let Some(adjustment) = adjustment {
                    self.status.last_responsiveness_adjustment = Some(
                        width_adjustment_summary(adjustment),
                    );
                }
                self.status.memory_profile_physical_cores = memory_profile_physical_cores;
                self.status.responsiveness_pressure = pressure;
                LoopSignal::WidthEvaluated
            },
            LoopEvent::Decision { summary, enforce } => {
                self.status.last_activity = Some(summary);
                LoopSignal::Decision { enforce }
            },
            LoopEvent::Enforced { failure } => {
                self.status.last_error = failure;
                LoopSignal::Enforced
            },
            LoopEvent::DecisionsDone { managed } => {
                self.note_evaluation(managed);
                LoopSignal::DecisionsDone
            },
            LoopEvent::Failed { error } => {
                self.loop_error = Some(error);
                LoopSignal::Failed
            },
            LoopEvent::ExitCleanedUp {
                placement_result,
                background_result,
                managed,
                managed_background,
            } => {
                let complete = self.note_exit(
                    &placement_result,
                    &background_result,
                    managed,
                    managed_background,
                );
                LoopSignal::ExitCleanedUp { complete }
            },
            LoopEvent::ExitPublished { done } => LoopSignal::ExitPublished { done },
        }
    }

    /// Takes what came of the last action and says what to do next.
    pub fn take(&mut self, event: LoopEvent) -> (action: LoopAction)
        requires
            old(self).core.awaits(event.signal()),
        ensures
            final(self)@ == old(self)@.after(event),
            action == final(self).core.action(final(self).important),
    {
        let signal = self.note(event);
        self.core.advance(signal);
        self.core.next_action(self.important)
    }
}

/// Whatever the loop is told, the published iteration is the counted one when
/// an iteration is published.
pub proof fn published_iterations_are_counted(view: ControllerView, event: LoopEvent)
    requires
        view.core.awaits(event.signal()),
        view.after(event).core.stage is IterationPublish,
    ensures
        view.after(event).status.iteration == view.after(event).core.iteration,
{
}

/// A loop that ended without an error, after a complete cleanup, is said to
/// have stopped; any other is said to have failed.
pub proof fn the_last_phase_tells_the_outcome(view: ControllerView, event: LoopEvent)
    requires
        view.core.stage == (LoopStage::ExitCleanup { failed: view.loop_error is Some }),
        view.core.awaits(event.signal()),
    ensures
        view.after(event).status.phase == ControllerPhase::Stopped <==> view.after(event).core.stage
            == (LoopStage::ExitPublish { failed: false, cleaned: true }),
        view.after(event).status.phase == ControllerPhase::Stopped || view.after(
            event,
        ).status.phase == ControllerPhase::Error,
{
}

/// A refused settings file is answered with a receipt that says why and holds
/// the settings in use, and the receipt is published before anything else is
/// done.
pub proof fn refused_settings_are_answered(
    view: ControllerView,
    applied: AppliedSettings,
    error: String,
    fail_closed: bool,
    cores: u16,
    pressure: ResponsivenessPressure,
)
    requires
        view.core.stage is Reloading,
    ensures
        ({
            let after = view.after(
                LoopEvent::Reloaded {
                    applied,
                    reload: ConfigReload::Rejected { error, fail_closed },
                    memory_profile_physical_cores: cores,
                    pressure,
                },
            );
            &&& after.status.config_reload_result == ConfigReloadResult::Rejected
            &&& after.status.config_reload_error == Some(error@)
            &&& after.status.last_error == Some(error@)
            &&& after.status.applied == applied
            &&& after.core.action(after.important) == LoopAction::Publish { force: true }
            &&& view.status.config_reload_sequence < u64::MAX
                ==> after.status.config_reload_sequence == view.status.config_reload_sequence + 1
        }),
{
}

/// Settings that are taken over are answered with a receipt that holds them.
pub proof fn accepted_settings_are_answered(
    view: ControllerView,
    applied: AppliedSettings,
    cores: u16,
    pressure: ResponsivenessPressure,
)
    requires
        view.core.stage is Reloading,
    ensures
        ({
            let after = view.after(
                LoopEvent::Reloaded {
                    applied,
                    reload: ConfigReload::Reloaded,
                    memory_profile_physical_cores: cores,
                    pressure,
                },
            );
            &&& after.status.config_reload_result == ConfigReloadResult::Reloaded
            &&& after.status.config_reload_error is None
            &&& after.status.configured_mode == applied.mode
            &&& after.status.applied == applied
            &&& after.status.last_error is None
            &&& after.core.action(after.important) == LoopAction::Publish { force: true }
        }),
{
}

/// A changed error is published at once, also while nothing is evaluated.
pub proof fn changed_errors_are_published_at_once(
    view: ControllerView,
    placement: CleanupReport,
    background: CleanupReport,
    managed: usize,
    managed_background: usize,
)
    requires
        view.core.stage is InactiveCleanup,
        crate::cleanup::cleanup_error_words(placement, background) != view.status.last_error,
    ensures
        ({
            let after = view.after(
                LoopEvent::CleanedUp { placement, background, managed, managed_background },
            );
            after.core.action(after.important) == LoopAction::Publish { force: true }
        }),
{
}

/// The load of a domain that is looked at for interrupts.
#[derive(Debug, Clone, Copy, PartialEq, Eq, Structural)]
pub struct InterruptLoad {
    pub dpc_time_bps: u32,
    pub interrupt_time_bps: u32,
}

/// Whether a number is the largest of a measure over the domains, or 0 where
/// there are none.
pub open spec fn is_largest(
    loads: Seq<InterruptLoad>,
    measure: spec_fn(InterruptLoad) -> u32,
    largest: u32,
) -> bool {
    &&& forall|at: int| 0 <= at < loads.len() ==> measure(#[trigger] loads[at]) <= largest
    &&& loads.len() == 0 ==> largest == 0
    &&& loads.len() > 0 ==> exists|at: int|
        0 <= at < loads.len() && measure(#[trigger] loads[at]) == largest
}

/// The largest shares of time that deferred calls and interrupts took in a
/// domain.
pub fn maximum_interrupt_loads(loads: &Vec<InterruptLoad>) -> (largest: InterruptLoad)
    ensures
        is_largest(loads@, |load: InterruptLoad| load.dpc_time_bps, largest.dpc_time_bps),
        is_largest(
            loads@,
            |load: InterruptLoad| load.interrupt_time_bps,
            largest.interrupt_time_bps,
        ),
{
    let mut largest = InterruptLoad { dpc_time_bps: 0, interrupt_time_bps: 0 };
    let mut at: usize = 0;
    while at < loads.len()
        invariant
            at <= loads.len(),
            is_largest(
                loads@.take(at as int),
                |load: InterruptLoad| load.dpc_time_bps,
                largest.dpc_time_bps,
            ),
            is_largest(
                loads@.take(at as int),
                |load: InterruptLoad| load.interrupt_time_bps,
                largest.interrupt_time_bps,
            ),
        decreases loads.len() - at,
    {
        let load = loads[at];
        let ghost before = largest;
        let ghost seen = loads@.take(at as int);
        let ghost more = loads@.take(at + 1);
        if load.dpc_time_bps > largest.dpc_time_bps {
            largest.dpc_time_bps = load.dpc_time_bps;
        }
        if load.interrupt_time_bps > largest.interrupt_time_bps {
            largest.interrupt_time_bps = load.interrupt_time_bps;
        }
        proof {
            assert(more =~= seen.push(load));
            assert(more[at as int] == load);
            larger_stays_largest(
                seen,
                load,
                |load: InterruptLoad| load.dpc_time_bps,
                before.dpc_time_bps,
            );
            larger_stays_largest(
                seen,
                load,
                |load: InterruptLoad| load.interrupt_time_bps,
                before.interrupt_time_bps,
            );
        }
        at = at + 1;
    }
    proof {
        assert(loads@.take(at as int) =~= loads@);
    }
    largest
}

proof fn larger_stays_largest(
    loads: Seq<InterruptLoad>,
    load: InterruptLoad,
    measure: spec_fn(InterruptLoad) -> u32,
    largest: u32,
)
    requires
        is_largest(loads, measure, largest),
    ensures
        is_largest(
            loads.push(load),
            measure,
            if measure(load) > largest {
                measure(load)
            } else {
                largest
            },
        ),
{
    let more = loads.push(load);
    assert(more[loads.len() as int] == load);
    assert forall|at: int| 0 <= at < more.len() implies measure(#[trigger] more[at]) <= if measure(
        load,
    ) > largest {
        measure(load)
    } else {
        largest
    } by {
        if at < loads.len() {
            assert(more[at] == loads[at]);
        }
    }
    if measure(load) <= largest && loads.len() > 0 {
        let at = choose|at: int| 0 <= at < loads.len() && measure(#[trigger] loads[at]) == largest;
        assert(more[at] == loads[at]);
    }
}

/// A look at the settings file that found nothing new leaves no trace but the
/// settings in use; any other raises the number of the receipt by one, says
/// what came of it, and why where the settings were refused.
pub proof fn reloads_leave_their_receipt(
    status: StatusView,
    applied: AppliedSettings,
    reload: ConfigReload,
)
    ensures
        ({
            let after = status_reloaded(status, applied, reload);
            &&& after.applied == applied
            &&& after.configured_mode == applied.mode
            &&& after.phase == status.phase
            &&& after.scheduling_enabled == status.scheduling_enabled
            &&& after.iteration == status.iteration
            &&& after.managed_processes == status.managed_processes
            &&& after.background_efficiency == status.background_efficiency
            &&& reload is Unchanged ==> {
                &&& after.config_reload_sequence == status.config_reload_sequence
                &&& after.config_reload_result == status.config_reload_result
                &&& after.config_reload_error == status.config_reload_error
                &&& after.last_activity == status.last_activity
                &&& after.last_error == status.last_error
            }
            &&& reload !is Unchanged && status.config_reload_sequence < u64::MAX
                ==> after.config_reload_sequence == status.config_reload_sequence + 1
            &&& reload is Reloaded ==> {
                &&& after.config_reload_result == ConfigReloadResult::Reloaded
                &&& after.config_reload_error is None
                &&& after.last_error is None
            }
            &&& reload matches ConfigReload::Rejected { error, fail_closed } ==> {
                &&& after.config_reload_result == ConfigReloadResult::Rejected
                &&& after.config_reload_error == Some(error@)
                &&& after.last_error == Some(error@)
                &&& fail_closed ==> after.last_activity == Some(
                    "Configuration rejected; fail-closed"@,
                )
                &&& !fail_closed ==> after.last_activity == Some(
                    "Configuration rejected; prior configuration retained"@,
                )
            }
        }),
{
}

proof fn starts_are_found(start: Seq<char>, rest: Seq<char>, whole: Seq<char>)
    requires
        start + rest == whole,
    ensures
        crate::text::starts_with(whole, start),
{
    assert(whole.take(start.len() as int) =~= start);
}

/// An error of the background policies is published while they have it, and
/// goes with it. It does not outlive the evaluation after it, and no other
/// error goes with it. What was done last is said until something else is
/// done.
pub proof fn background_errors_come_and_go(
    status: StatusView,
    failed: BackgroundReconcileReport,
    fine: BackgroundReconcileReport,
)
    requires
        failed.last_error is Some,
        fine.last_error is None,
    ensures
        ({
            let after = status_ticked(status, failed);
            let later = status_ticked(after, fine);
            let never = status_ticked(status, fine);
            let done = status.background_efficiency.last_action;
            &&& after.last_error == Some("Background efficiency: "@ + failed.last_error->0@)
            &&& later.last_error is None
            &&& status.last_error is None ==> never.last_error is None
            &&& (status.last_error matches Some(error) && !crate::text::starts_with(
                error,
                "Background efficiency:"@,
            )) ==> never.last_error == status.last_error
            &&& fine.status.last_action is None ==> never.background_efficiency.last_action == done
            &&& fine.status.last_action matches Some(action)
                ==> never.background_efficiency.last_action == Some(action@)
            &&& never.background_efficiency.eligible_processes == fine.status.eligible_processes
            &&& never.background_efficiency.managed_processes == fine.status.managed_processes
            &&& never.background_efficiency.protected_processes == fine.status.protected_processes
            &&& never.background_efficiency.low_memory_condition
                == fine.status.low_memory_condition
            &&& never.phase == status.phase && never.iteration == status.iteration
                && never.managed_processes == status.managed_processes && never.last_activity
                == status.last_activity
        }),
{
    reveal_strlit("Background efficiency:");
    reveal_strlit("Background efficiency: ");
    let said = failed.last_error->0@;
    assert("Background efficiency: "@ =~= "Background efficiency:"@ + seq![' ']);
    assert("Background efficiency: "@ + said =~= "Background efficiency:"@ + (seq![' '] + said));
    starts_are_found(
        "Background efficiency:"@,
        seq![' '] + said,
        "Background efficiency: "@ + said,
    );
}

/// A sample that failed is told until the next one succeeds; no other error
/// goes with it.
pub proof fn skipped_samples_are_told_until_the_next(
    view: ControllerView,
    error: String,
    maximum_dpc_time_bps: u32,
    maximum_interrupt_time_bps: u32,
)
    ensures
        ({
            let sampled = LoopEvent::Sampled { maximum_dpc_time_bps, maximum_interrupt_time_bps };
            let skipped = view.told(LoopEvent::SampleFailed { error });
            let resumed = skipped.told(sampled);
            let never = view.told(sampled);
            &&& skipped.status.last_error == Some("Load telemetry sample skipped: "@ + error@)
            &&& skipped.status.last_activity == Some("Load telemetry sample skipped"@)
            &&& resumed.status.last_error is None
            &&& resumed.error_before == skipped.status.last_error
            &&& never.error_before == view.status.last_error
            &&& view.status.last_error is None ==> never.status.last_error is None
            &&& (view.status.last_error matches Some(other) && !crate::text::starts_with(
                other,
                "Load telemetry sample skipped:"@,
            )) ==> never.status.last_error == view.status.last_error
            &&& never.status.maximum_dpc_time_bps == maximum_dpc_time_bps
            &&& never.status.maximum_interrupt_time_bps == maximum_interrupt_time_bps
        }),
{
    reveal_strlit("Load telemetry sample skipped:");
    reveal_strlit("Load telemetry sample skipped: ");
    assert("Load telemetry sample skipped: "@ =~= "Load telemetry sample skipped:"@ + seq![' ']);
    assert("Load telemetry sample skipped: "@ + error@ =~= "Load telemetry sample skipped:"@ + (
    seq![' '] + error@));
    starts_are_found(
        "Load telemetry sample skipped:"@,
        seq![' '] + error@,
        "Load telemetry sample skipped: "@ + error@,
    );
}

/// What is published at once: a changed width, an error that came, went or
/// changed since the evaluation began, and news of the background policies.
/// An evaluation without any of these is not important.
pub proof fn evaluations_with_news_are_important(view: ControllerView, managed: usize)
    ensures
        ({
            let after = view.told(LoopEvent::DecisionsDone { managed });
            let news = after.status.last_error != view.error_before
                || view.status.background_efficiency != view.background_before;
            &&& view.adjusted ==> after.important
            &&& news ==> after.important
            &&& !view.adjusted && !news ==> !after.important
            &&& after.status.managed_processes == managed
            &&& after.status.phase == ControllerPhase::Running
            &&& view.core.iteration < u64::MAX ==> after.status.iteration == view.core.iteration + 1
            &&& view.background_error is None ==> after.status.last_error == view.status.last_error
            &&& view.background_error matches Some(error) ==> after.status.last_error == Some(
                "Background efficiency: "@ + error,
            )
            &&& after.status.background_efficiency == view.status.background_efficiency
            &&& after.status.last_activity == view.status.last_activity
        }),
{
}

/// A tick between evaluations is important where it brings news: an error that
/// is not the one before, or another state of the background policies. One in
/// place of a failed evaluation always is, and one within an evaluation leaves
/// that to the evaluation.
pub proof fn ticks_with_news_are_important(
    view: ControllerView,
    managed: usize,
    report: BackgroundReconcileReport,
)
    ensures
        ({
            let after = view.told(LoopEvent::Ticked { managed, report });
            let ticked = status_ticked(view.status, report);
            &&& after.background_before == view.status.background_efficiency
            &&& after.background_error == report.last_error.deep_view()
            &&& after.status.background_efficiency == ticked.background_efficiency
            &&& after.status.last_error == ticked.last_error
            &&& view.core.stage is GuardTick ==> {
                &&& after.important <==> (after.status.last_error != view.error_before
                    || after.status.background_efficiency != view.status.background_efficiency)
                &&& after.status.managed_processes == managed
                &&& after.status.phase == ControllerPhase::Running
                &&& after.status.iteration == view.status.iteration
            }
            &&& view.core.stage is SkippedTick ==> {
                &&& after.important
                &&& view.core.iteration < u64::MAX ==> after.status.iteration == view.core.iteration
                    + 1
                &&& after.status.phase == view.status.phase
            }
            &&& view.core.stage is EvaluationTick ==> after.important == view.important
                && after.status.phase == view.status.phase && after.status.iteration
                == view.status.iteration
        }),
{
}

/// A change of the width is told, and remembered until the next one; without a
/// change the last one stays told.
pub proof fn width_changes_are_told(
    view: ControllerView,
    adjustment: Option<WidthAdjustment>,
    memory_profile_physical_cores: u16,
    pressure: ResponsivenessPressure,
)
    ensures
        ({
            let after = view.told(
                LoopEvent::WidthEvaluated { adjustment, memory_profile_physical_cores, pressure },
            );
            &&& after.adjusted <==> adjustment is Some
            &&& after.status.memory_profile_physical_cores == memory_profile_physical_cores
            &&& after.status.responsiveness_pressure == pressure
            &&& adjustment is None ==> after.status.last_responsiveness_adjustment
                == view.status.last_responsiveness_adjustment
            &&& adjustment matches Some(WidthAdjustment::Shrunk { from, to }) ==> (
            "Memory profile reduced from "@ + crate::text::decimal(from as nat) + " to "@
                + crate::text::decimal(to as nat)).is_prefix_of(
                after.status.last_responsiveness_adjustment->0,
            )
            &&& adjustment matches Some(WidthAdjustment::Expanded { from, to }) ==> (
            "Memory profile expanded from "@ + crate::text::decimal(from as nat) + " to "@
                + crate::text::decimal(to as nat)).is_prefix_of(
                after.status.last_responsiveness_adjustment->0,
            )
            &&& after.status.last_error == view.status.last_error
        }),
{
    if let Some(adjustment) = adjustment {
        match adjustment {
            WidthAdjustment::Shrunk { from, to } => {
                let start = "Memory profile reduced from "@ + crate::text::decimal(from as nat)
                    + " to "@ + crate::text::decimal(to as nat);
                assert(width_words(adjustment).subrange(0, start.len() as int) =~= start);
            },
            WidthAdjustment::Expanded { from, to } => {
                let start = "Memory profile expanded from "@ + crate::text::decimal(from as nat)
                    + " to "@ + crate::text::decimal(to as nat);
                assert(width_words(adjustment).subrange(0, start.len() as int) =~= start);
            },
        }
    }
}

/// The phases follow the commands: enabled scheduling runs and has no error
/// left, disabled scheduling is said to be disabled, and a stop is said before
/// it is carried out. A command to enable what is enabled already says so at
/// once; any other waits until the choice was written.
#[verifier::spinoff_prover]
#[verifier::rlimit(40)]
pub proof fn phases_follow_the_commands(
    view: ControllerView,
    placement: CleanupReport,
    background: CleanupReport,
    managed: usize,
    managed_background: usize,
)
    ensures
        ({
            let stopped = view.told(LoopEvent::Command(ControllerCommand::Stop));
            let enabled = view.told(LoopEvent::Command(ControllerCommand::Enable));
            let saved = view.told(LoopEvent::RuntimeSaved);
            let cleaned = view.told(
                LoopEvent::CleanedUp { placement, background, managed, managed_background },
            );
            &&& stopped.status.phase == ControllerPhase::Stopping
            &&& stopped.status.scheduling_enabled == view.status.scheduling_enabled
            &&& stopped.status.last_error == view.status.last_error
            &&& view.core.scheduling_enabled ==> enabled.status.phase == ControllerPhase::Running
                && enabled.status.scheduling_enabled && enabled.status.last_error is None
            &&& !view.core.scheduling_enabled ==> enabled == view
            &&& view.core.stage is EnableSave ==> saved.status.phase == ControllerPhase::Running
                && saved.status.scheduling_enabled && saved.status.last_error is None
            &&& view.core.stage !is EnableSave ==> saved == view
            &&& view.core.stage is DisableCleanup ==> cleaned.status.phase
                == ControllerPhase::Disabled && !cleaned.status.scheduling_enabled
            &&& view.core.stage is InactiveCleanup ==> cleaned.status.phase
                == ControllerPhase::Disabled && cleaned.status.scheduling_enabled
                == view.status.scheduling_enabled
            &&& view.core.stage is StartupCleanup ==> cleaned.status.phase == view.status.phase
            &&& view.told(LoopEvent::Command(ControllerCommand::Disable)) == view
            &&& view.told(LoopEvent::Command(ControllerCommand::Tick)) == view
        }),
{
}

/// A cleanup is told with what it left: the numbers of the records, and an
/// error exactly where something could not be given back. The error of the
/// first cleanup adds to what there is, that of any other takes its place.
#[verifier::spinoff_prover]
#[verifier::rlimit(40)]
pub proof fn cleanups_are_told(
    view: ControllerView,
    placement: CleanupReport,
    background: CleanupReport,
    managed: usize,
    managed_background: usize,
)
    ensures
        ({
            let after = view.told(
                LoopEvent::CleanedUp { placement, background, managed, managed_background },
            );
            let failed = placement.failed > 0 || background.failed > 0;
            &&& after.status.managed_processes == managed
            &&& after.status.background_efficiency.managed_processes == managed_background
            &&& failed ==> after.status.last_error is Some
            &&& !failed && view.core.stage is StartupCleanup ==> after.status.last_error
                == view.status.last_error
            &&& !failed && view.core.stage !is StartupCleanup ==> after.status.last_error is None
            &&& view.core.stage is DisableCleanup && !failed ==> after.status.last_activity == Some(
                "Scheduling disabled; managed assignments and background policies cleared"@,
            )
            &&& view.core.stage is DisableCleanup && failed ==> (after.status.last_activity
                matches Some(words) && ("Scheduling disabled; "@ + crate::text::decimal(
                placement.failed as nat,
            ) + " CPU assignment(s) and "@ + crate::text::decimal(
                background.failed as nat,
            )).is_prefix_of(words))
            &&& view.core.stage is InactiveCleanup ==> {
                &&& after.important <==> after.status.last_error != view.status.last_error
                &&& view.core.iteration < u64::MAX ==> after.status.iteration == view.core.iteration
                    + 1
            }
            &&& after.status.background_efficiency.last_action
                == view.status.background_efficiency.last_action
        }),
{
    let start = "Scheduling disabled; "@ + crate::text::decimal(placement.failed as nat)
        + " CPU assignment(s) and "@ + crate::text::decimal(background.failed as nat);
    let words = disabled_words(placement, background);
    if placement.failed > 0 || background.failed > 0 {
        assert(words.subrange(0, start.len() as int) =~= start);
    }
}

/// The last cleanup fails where one of its parts failed or left something
/// over, and is told by the first of them.
pub proof fn last_cleanups_tell_the_first_failure(
    view: ControllerView,
    placement: CleanupResult,
    background: CleanupResult,
    managed: usize,
    managed_background: usize,
)
    ensures
        ({
            let event = LoopEvent::ExitCleanedUp {
                placement_result: placement,
                background_result: background,
                managed,
                managed_background,
            };
            let after = view.told(event);
            let clean = (placement matches CleanupResult::Done(report) && report.failed == 0) && (
            background matches CleanupResult::Done(report) && report.failed == 0);
            &&& event.signal() == LoopSignal::ExitCleanedUp { complete: clean }
            &&& after.status.phase == ControllerPhase::Stopped <==> view.loop_error is None && clean
            &&& after.status.phase != ControllerPhase::Stopped ==> after.status.phase
                == ControllerPhase::Error
            &&& view.loop_error is Some ==> after.status.last_error == view.loop_error
            &&& view.loop_error is None && clean ==> after.status.last_error
                == view.status.last_error
            &&& view.loop_error is None ==> (placement matches CleanupResult::Failed(said)
                ==> after.status.last_error == Some(said@))
            &&& view.loop_error is None && placement is Done ==> (background
                matches CleanupResult::Failed(said) ==> after.status.last_error == Some(said@))
            &&& view.loop_error is None && !clean ==> after.status.last_error is Some
            &&& after.status.managed_processes == managed
            &&& after.status.background_efficiency.managed_processes == managed_background
        }),
{
}

/// Each part of the status changes only with what it tells: the receipt with
/// the settings, the samples with samples, the width with its evaluation, the
/// iteration with what counts one.
#[verifier::spinoff_prover]
#[verifier::rlimit(40)]
pub proof fn the_status_changes_with_its_news(view: ControllerView, event: LoopEvent)
    ensures
        ({
            let before = view.status;
            let after = view.told(event).status;
            &&& event !is Reloaded ==> {
                &&& after.applied == before.applied
                &&& after.configured_mode == before.configured_mode
                &&& after.config_reload_sequence == before.config_reload_sequence
                &&& after.config_reload_result == before.config_reload_result
                &&& after.config_reload_error == before.config_reload_error
            }
            &&& event !is Sampled ==> {
                &&& after.maximum_dpc_time_bps == before.maximum_dpc_time_bps
                &&& after.maximum_interrupt_time_bps == before.maximum_interrupt_time_bps
            }
            &&& event !is Reloaded && event !is WidthEvaluated ==> {
                &&& after.memory_profile_physical_cores == before.memory_profile_physical_cores
                &&& after.responsiveness_pressure == before.responsiveness_pressure
            }
            &&& event !is WidthEvaluated ==> after.last_responsiveness_adjustment
                == before.last_responsiveness_adjustment
            &&& event !is CleanedUp && event !is Ticked && event !is DecisionsDone
                ==> after.iteration == before.iteration
            &&& event !is Ticked && event !is CleanedUp && event !is ExitCleanedUp
                ==> after.background_efficiency == before.background_efficiency
            &&& event !is CleanedUp && event !is Ticked && event !is DecisionsDone && event
                !is ExitCleanedUp ==> after.managed_processes == before.managed_processes
            &&& event matches LoopEvent::Failed { error } ==> view.told(event).loop_error == Some(
                error@,
            ) && after == before
            &&& event !is Failed ==> view.told(event).loop_error == view.loop_error
            &&& event matches LoopEvent::Decision { summary, .. } ==> after.last_activity == Some(
                summary@,
            ) && after.last_error == before.last_error
            &&& event matches LoopEvent::Enforced { failure } ==> after.last_error
                == failure.deep_view() && after.last_activity == before.last_activity
            &&& event is Clock ==> view.told(event).error_before == before.last_error && after
                == before
        }),
{
}

/// The loop moves on what happened: each event tells it what it is, and what
/// matters of it.
pub proof fn events_tell_the_loop_what_happened(event: LoopEvent)
    ensures
        event matches LoopEvent::Command(command) ==> event.signal() == LoopSignal::Command(
            command,
        ),
        event matches LoopEvent::Clock { due } ==> event.signal() == (LoopSignal::Clock { due }),
        event matches LoopEvent::Decision { enforce, .. } ==> event.signal() == (
        LoopSignal::Decision { enforce }),
        event matches LoopEvent::ExitPublished { done } ==> event.signal() == (
        LoopSignal::ExitPublished { done }),
        event matches LoopEvent::Reloaded { applied, reload, .. } ==> (event.signal()
            matches LoopSignal::Reloaded { mode, receipt } && mode == applied.mode && (receipt
            <==> reload is Reloaded || reload is Rejected)),
        event is CleanedUp <==> event.signal() is CleanedUp,
        event is Published <==> event.signal() is Published,
        event is Primed <==> event.signal() is Primed,
        event is RuntimeSaved <==> event.signal() is RuntimeSaved,
        event is Ticked <==> event.signal() is Ticked,
        event is Sampled <==> event.signal() is Sampled,
        event is SampleFailed <==> event.signal() is SampleFailed,
        event is WidthEvaluated <==> event.signal() is WidthEvaluated,
        event is Enforced <==> event.signal() is Enforced,
        event is DecisionsDone <==> event.signal() is DecisionsDone,
        event is Failed <==> event.signal() is Failed,
{
}

/// A controller begins with what is on disk and what is set: it runs where the
/// mode and the choice of the user let it, and nothing has happened yet.
pub proof fn controllers_begin_without_a_past(
    applied: AppliedSettings,
    scheduling_enabled: bool,
    max_iterations: Option<u16>,
    managed: usize,
    managed_background: usize,
    cores: u16,
    pressure: ResponsivenessPressure,
)
    ensures
        ({
            let first = ControllerView::first(
                applied,
                scheduling_enabled,
                max_iterations,
                managed,
                managed_background,
                cores,
                pressure,
            );
            let runs = applied.mode == ControllerMode::Observe || (applied.mode
                == ControllerMode::Auto && scheduling_enabled);
            &&& runs ==> first.status.phase == ControllerPhase::Running
            &&& !runs ==> first.status.phase == ControllerPhase::Disabled
            &&& first.status.applied == applied
            &&& first.status.configured_mode == applied.mode
            &&& first.status.scheduling_enabled == scheduling_enabled
            &&& first.core.scheduling_enabled == scheduling_enabled
            &&& first.core.mode == applied.mode
            &&& first.status.managed_processes == managed
            &&& first.status.background_efficiency.managed_processes == managed_background
            &&& first.status.background_efficiency.eligible_processes == 0
            &&& first.status.background_efficiency.protected_processes == 0
            &&& first.status.iteration == 0 && first.core.iteration == 0
            &&& first.status.config_reload_sequence == 0
            &&& first.status.config_reload_result == ConfigReloadResult::Initial
            &&& first.status.memory_profile_physical_cores == cores
            &&& first.status.responsiveness_pressure == pressure
            &&& first.status.last_error is None && first.status.last_activity is None
                && first.loop_error is None && first.error_before is None
                && first.background_error is None
            &&& !first.important && !first.adjusted
        }),
{
}

/// The guard on the width that settings ask for, with the cores that there
/// are.
pub open spec fn width_guard(
    settings: ResponsivenessSettings,
    assignable_physical_cores: usize,
) -> AdaptiveWidthConfig {
    let most = if settings.memory_maximum_physical_cores <= assignable_physical_cores {
        settings.memory_maximum_physical_cores
    } else {
        assignable_physical_cores as u16
    };
    AdaptiveWidthConfig {
        enabled: settings.enabled && settings.latency_guard_enabled,
        minimum_physical_cores: if settings.memory_minimum_physical_cores <= most {
            settings.memory_minimum_physical_cores
        } else {
            most
        },
        maximum_physical_cores: most,
        latency_target_p99_us: settings.latency_target_p99_us,
        latency_recovery_p99_us: settings.latency_recovery_p99_us,
        stability_samples: settings.adjustment_stability_samples,
        resize_cooldown_ms: settings.memory_resize_cooldown_ms,
    }
}

/// The width stays within what is set and what there is; it is as set where
/// there is room, and a guard is at work only where it and the reserve are
/// switched on.
pub proof fn widths_fit_the_machine(settings: ResponsivenessSettings, cores: usize)
    ensures
        ({
            let guard = width_guard(settings, cores);
            &&& guard.minimum_physical_cores <= guard.maximum_physical_cores <= cores
            &&& guard.maximum_physical_cores <= settings.memory_maximum_physical_cores
            &&& guard.minimum_physical_cores <= settings.memory_minimum_physical_cores
            &&& settings.memory_minimum_physical_cores <= settings.memory_maximum_physical_cores
                <= cores ==> guard.maximum_physical_cores == settings.memory_maximum_physical_cores
                && guard.minimum_physical_cores == settings.memory_minimum_physical_cores
            &&& cores < settings.memory_maximum_physical_cores ==> guard.maximum_physical_cores
                == cores
            &&& guard.maximum_physical_cores < settings.memory_minimum_physical_cores
                ==> guard.minimum_physical_cores == guard.maximum_physical_cores
            &&& guard.enabled <==> settings.enabled && settings.latency_guard_enabled
            &&& guard.latency_target_p99_us == settings.latency_target_p99_us
            &&& guard.latency_recovery_p99_us == settings.latency_recovery_p99_us
            &&& guard.stability_samples == settings.adjustment_stability_samples
            &&& guard.resize_cooldown_ms == settings.memory_resize_cooldown_ms
        }),
{
}

/// The cores that settings ask to reserve: a percentage, the least and the
/// most.
pub open spec fn reserve_asked(settings: ResponsivenessSettings) -> (u8, u16, u16) {
    if settings.enabled {
        (
            settings.system_reserve_percent,
            settings.minimum_reserved_cores,
            settings.maximum_reserved_cores,
        )
    } else {
        (0u8, 0u16, 0u16)
    }
}

/// Nothing is reserved while the reserve is off, and exactly what is set while
/// it is on.
pub proof fn reserves_are_asked_for_while_on(settings: ResponsivenessSettings)
    ensures
        !settings.enabled ==> reserve_asked(settings) == (0u8, 0u16, 0u16),
        settings.enabled ==> reserve_asked(settings).0 == settings.system_reserve_percent,
        settings.enabled ==> reserve_asked(settings).1 == settings.minimum_reserved_cores,
        settings.enabled ==> reserve_asked(settings).2 == settings.maximum_reserved_cores,
{
}

/// The largest loads are reached, and none is larger.
pub proof fn largest_loads_are_reached(
    loads: Seq<InterruptLoad>,
    measure: spec_fn(InterruptLoad) -> u32,
    one: u32,
    other: u32,
)
    requires
        is_largest(loads, measure, one),
        is_largest(loads, measure, other),
    ensures
        one == other,
        forall|at: int| 0 <= at < loads.len() ==> measure(#[trigger] loads[at]) <= one,
        loads.len() == 0 ==> one == 0,
{
}

} // verus!
