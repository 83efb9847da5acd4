//! The settings of the controller as the settings program edits them.
use vstd::prelude::*;

use crate::controller::ResponsivenessSettings;
use crate::efficiency::BackgroundPolicy;
use crate::event_logger::MAX_LOG_FILE_SIZE_MIB;
use crate::event_logger::MAX_RETAINED_LOG_ARCHIVES;
use crate::event_logger::MIN_LOG_FILE_SIZE_MIB;
use crate::observations::ControllerMode;
use crate::observations::WorkloadProfile;
use crate::rules::copy_rules;
use crate::rules::pick_mode;
use crate::rules::pick_profile;
use crate::rules::same_rules;
use crate::rules::ProcessRule;
use crate::rules::RuleMode;
use crate::rules::RuleView;

verus! {

/// How much is written to the event log.
#[derive(Debug, Clone, Copy, PartialEq, Eq, Structural)]
pub enum LoggingLevel {
    Off,
    Normal,
    Trace,
}

/// The settings of the event log.
#[derive(Debug, Clone, Copy, PartialEq, Eq, Structural)]
pub struct LoggingSettings {
    pub level: LoggingLevel,
    pub max_file_size_mib: u16,
    pub retained_archives: u8,
}

/// The settings of the placement policy.
#[derive(Debug, Clone, Copy, PartialEq, Eq, Structural)]
pub struct PolicySettings {
    pub overload_threshold_bps: u16,
    pub minimum_improvement_bps: u16,
    pub stability_samples: u16,
    pub minimum_residency_ms: u64,
    pub cooldown_ms: u64,
    pub max_mutations_per_evaluation: u16,
}

/// The settings of the background policies.
#[derive(Debug, Clone, Copy, PartialEq, Eq, Structural)]
pub struct BackgroundSettings {
    pub enabled: bool,
    pub policy: BackgroundPolicy,
}

/// All settings but the rules.
#[derive(Debug, Clone, Copy, PartialEq, Eq, Structural)]
pub struct ControllerValues {
    pub schema_version: u32,
    pub controller_mode: ControllerMode,
    pub sample_interval_ms: u64,
    pub minimum_process_utilization_bps: u16,
    pub all_user_processes: bool,
    pub default_rule_mode: RuleMode,
    pub default_workload_profile: WorkloadProfile,
    pub policy: PolicySettings,
    pub logging: LoggingSettings,
    pub responsiveness: ResponsivenessSettings,
    pub background_efficiency: BackgroundSettings,
}

/// The settings of the controller.
#[derive(Debug)]
pub struct ControllerConfig {
    pub values: ControllerValues,
    pub rules: Vec<ProcessRule>,
}

/// The settings of the controller, with their texts as sequences.
#[verifier::ext_equal]
pub struct ConfigView {
    pub values: ControllerValues,
    pub rules: Seq<RuleView>,
}

impl View for ControllerConfig {
    type V = ConfigView;

    open spec fn view(&self) -> ConfigView {
        ConfigView { values: self.values, rules: crate::rules::rule_views(self.rules@) }
    }
}

impl ControllerConfig {
    /// Whether two settings are the same.
    pub fn same(&self, other: &ControllerConfig) -> (same: bool)
        ensures
            same == (self@ == other@),
    {
        self.values == other.values && same_rules(&self.rules, &other.rules)
    }

    /// A copy of the settings.
    pub fn copy(&self) -> (copy: ControllerConfig)
        ensures
            copy@ == self@,
    {
        ControllerConfig { values: self.values, rules: copy_rules(&self.rules) }
    }
}

/// Between which bounds some settings must be.
#[derive(Debug, Clone, Copy, PartialEq, Eq, Structural)]
pub struct EditorLimits {
    pub min_reserve_percent: u8,
    pub max_reserve_percent: u8,
    pub max_physical_cores: u16,
    pub min_latency_us: u64,
    pub max_latency_us: u64,
    pub max_stability_samples: u16,
    pub min_resize_cooldown_ms: u64,
    pub max_resize_cooldown_ms: u64,
}

/// A setting that the windows show.
#[derive(Debug, Clone, Copy, PartialEq, Eq, Structural)]
pub enum Field {
    ControllerMode,
    DefaultRuleMode,
    DefaultWorkloadProfile,
    LoggingLevel,
    AllUserProcesses,
    TrayAutostart,
    Responsiveness,
    LatencyGuard,
    MemorySmt,
    BackgroundEfficiency,
    EcoQos,
    MemoryPriority,
    MemoryPressureGuard,
    ProtectForeground,
    ProtectVisible,
    ProtectAudio,
    SampleInterval,
    MinimumUtilization,
    OverloadThreshold,
    MinimumImprovement,
    StabilitySamples,
    MinimumResidency,
    Cooldown,
    MaxMutations,
    LogSize,
    LogArchives,
    ReservePercent,
    MinimumReservedCores,
    MaximumReservedCores,
    LatencyTarget,
    LatencyRecovery,
    AdjustmentSamples,
    MemoryMinimumCores,
    MemoryMaximumCores,
    MemoryResizeCooldown,
}

/// The smallest and the largest number that a setting can be given.
pub open spec fn bounds_of(field: Field, limits: EditorLimits) -> (u64, u64) {
    match field {
        Field::SampleInterval => (1_000, 60_000),
        Field::MinimumUtilization => (0, 10_000),
        Field::OverloadThreshold => (0, 10_000),
        Field::MinimumImprovement => (0, 10_000),
        Field::StabilitySamples => (1, u16::MAX as u64),
        Field::MaxMutations => (1, u16::MAX as u64),
        Field::LogSize => (MIN_LOG_FILE_SIZE_MIB as u64, MAX_LOG_FILE_SIZE_MIB as u64),
        Field::LogArchives => (0, MAX_RETAINED_LOG_ARCHIVES as u64),
        Field::ReservePercent => (
            limits.min_reserve_percent as u64,
            limits.max_reserve_percent as u64,
        ),
        Field::MinimumReservedCores => (1, limits.max_physical_cores as u64),
        Field::MaximumReservedCores => (1, limits.max_physical_cores as u64),
        Field::LatencyTarget => (limits.min_latency_us, limits.max_latency_us),
        Field::LatencyRecovery => (limits.min_latency_us, limits.max_latency_us),
        Field::AdjustmentSamples => (1, limits.max_stability_samples as u64),
        Field::MemoryMinimumCores => (1, limits.max_physical_cores as u64),
        Field::MemoryMaximumCores => (1, limits.max_physical_cores as u64),
        Field::MemoryResizeCooldown => (
            limits.min_resize_cooldown_ms,
            limits.max_resize_cooldown_ms,
        ),
        _ => (0, u64::MAX),
    }
}

/// The smallest and the largest number that a setting can be given.
pub fn number_bounds(field: Field, limits: &EditorLimits) -> (bounds: (u64, u64))
    ensures
        bounds == bounds_of(field, *limits),
{
    match field {
        Field::SampleInterval => (1_000, 60_000),
        Field::MinimumUtilization => (0, 10_000),
        Field::OverloadThreshold => (0, 10_000),
        Field::MinimumImprovement => (0, 10_000),
        Field::StabilitySamples => (1, u16::MAX as u64),
        Field::MaxMutations => (1, u16::MAX as u64),
        Field::LogSize => (MIN_LOG_FILE_SIZE_MIB as u64, MAX_LOG_FILE_SIZE_MIB as u64),
        Field::LogArchives => (0, MAX_RETAINED_LOG_ARCHIVES as u64),
        Field::ReservePercent => (
            limits.min_reserve_percent as u64,
            limits.max_reserve_percent as u64,
        ),
        Field::MinimumReservedCores => (1, limits.max_physical_cores as u64),
        Field::MaximumReservedCores => (1, limits.max_physical_cores as u64),
        Field::LatencyTarget => (limits.min_latency_us, limits.max_latency_us),
        Field::LatencyRecovery => (limits.min_latency_us, limits.max_latency_us),
        Field::AdjustmentSamples => (1, limits.max_stability_samples as u64),
        Field::MemoryMinimumCores => (1, limits.max_physical_cores as u64),
        Field::MemoryMaximumCores => (1, limits.max_physical_cores as u64),
        Field::MemoryResizeCooldown => (
            limits.min_resize_cooldown_ms,
            limits.max_resize_cooldown_ms,
        ),
        _ => (0, u64::MAX),
    }
}

/// A number brought between two bounds.
pub open spec fn bounded(value: u64, bounds: (u64, u64)) -> u64 {
    if value < bounds.0 {
        bounds.0
    } else if value > bounds.1 {
        bounds.1
    } else {
        value
    }
}

/// The settings with one number replaced. Fields that hold no number change
/// nothing.
pub open spec fn with_number(values: ControllerValues, field: Field, value: u64) -> ControllerValues {
    let policy = values.policy;
    let reserve = values.responsiveness;
    match field {
        Field::SampleInterval => ControllerValues { sample_interval_ms: value, ..values },
        Field::MinimumUtilization => ControllerValues {
            minimum_process_utilization_bps: value as u16,
            ..values
        },
        Field::OverloadThreshold => ControllerValues {
            policy: PolicySettings { overload_threshold_bps: value as u16, ..policy },
            ..values
        },
        Field::MinimumImprovement => ControllerValues {
            policy: PolicySettings { minimum_improvement_bps: value as u16, ..policy },
            ..values
        },
        Field::StabilitySamples => ControllerValues {
            policy: PolicySettings { stability_samples: value as u16, ..policy },
            ..values
        },
        Field::MinimumResidency => ControllerValues {
            policy: PolicySettings { minimum_residency_ms: value, ..policy },
            ..values
        },
        Field::Cooldown => ControllerValues {
            policy: PolicySettings { cooldown_ms: value, ..policy },
            ..values
        },
        Field::MaxMutations => ControllerValues {
            policy: PolicySettings { max_mutations_per_evaluation: value as u16, ..policy },
            ..values
        },
        Field::LogSize => ControllerValues {
            logging: LoggingSettings { max_file_size_mib: value as u16, ..values.logging },
            ..values
        },
        Field::LogArchives => ControllerValues {
            logging: LoggingSettings { retained_archives: value as u8, ..values.logging },
            ..values
        },
        Field::ReservePercent => ControllerValues {
            responsiveness: ResponsivenessSettings {
                system_reserve_percent: value as u8,
                ..reserve
            },
            ..values
        },
        Field::MinimumReservedCores => ControllerValues {
            responsiveness: ResponsivenessSettings {
                minimum_reserved_cores: value as u16,
                ..reserve
            },
            ..values
        },
        Field::MaximumReservedCores => ControllerValues {
            responsiveness: ResponsivenessSettings {
                maximum_reserved_cores: value as u16,
                ..reserve
            },
            ..values
        },
        Field::LatencyTarget => ControllerValues {
            responsiveness: ResponsivenessSettings { latency_target_p99_us: value, ..reserve },
            ..values
        },
        Field::LatencyRecovery => ControllerValues {
            responsiveness: ResponsivenessSettings { latency_recovery_p99_us: value, ..reserve },
            ..values
        },
        Field::AdjustmentSamples => ControllerValues {
            responsiveness: ResponsivenessSettings {
                adjustment_stability_samples: value as u16,
                ..reserve
            },
            ..values
        },
        Field::MemoryMinimumCores => ControllerValues {
            responsiveness: ResponsivenessSettings {
                memory_minimum_physical_cores: value as u16,
                ..reserve
            },
            ..values
        },
        Field::MemoryMaximumCores => ControllerValues {
            responsiveness: ResponsivenessSettings {
                memory_maximum_physical_cores: value as u16,
                ..reserve
            },
            ..values
        },
        Field::MemoryResizeCooldown => ControllerValues {
            responsiveness: ResponsivenessSettings {
                memory_resize_cooldown_ms: value,
                ..reserve
            },
            ..values
        },
        _ => values,
    }
}

/// The number that a setting holds.
pub open spec fn number_of(values: ControllerValues, field: Field) -> u64 {
    match field {
        Field::SampleInterval => values.sample_interval_ms,
        Field::MinimumUtilization => values.minimum_process_utilization_bps as u64,
        Field::OverloadThreshold => values.policy.overload_threshold_bps as u64,
        Field::MinimumImprovement => values.policy.minimum_improvement_bps as u64,
        Field::StabilitySamples => values.policy.stability_samples as u64,
        Field::MinimumResidency => values.policy.minimum_residency_ms,
        Field::Cooldown => values.policy.cooldown_ms,
        Field::MaxMutations => values.policy.max_mutations_per_evaluation as u64,
        Field::LogSize => values.logging.max_file_size_mib as u64,
        Field::LogArchives => values.logging.retained_archives as u64,
        Field::ReservePercent => values.responsiveness.system_reserve_percent as u64,
        Field::MinimumReservedCores => values.responsiveness.minimum_reserved_cores as u64,
        Field::MaximumReservedCores => values.responsiveness.maximum_reserved_cores as u64,
        Field::LatencyTarget => values.responsiveness.latency_target_p99_us,
        Field::LatencyRecovery => values.responsiveness.latency_recovery_p99_us,
        Field::AdjustmentSamples => values.responsiveness.adjustment_stability_samples as u64,
        Field::MemoryMinimumCores => values.responsiveness.memory_minimum_physical_cores as u64,
        Field::MemoryMaximumCores => values.responsiveness.memory_maximum_physical_cores as u64,
        Field::MemoryResizeCooldown => values.responsiveness.memory_resize_cooldown_ms,
        _ => 0,
    }
}

/// The number that a setting holds.
pub fn field_number(values: &ControllerValues, field: Field) -> (value: u64)
    ensures
        value == number_of(*values, field),
{
    match field {
        Field::SampleInterval => values.sample_interval_ms,
        Field::MinimumUtilization => values.minimum_process_utilization_bps as u64,
        Field::OverloadThreshold => values.policy.overload_threshold_bps as u64,
        Field::MinimumImprovement => values.policy.minimum_improvement_bps as u64,
        Field::StabilitySamples => values.policy.stability_samples as u64,
        Field::MinimumResidency => values.policy.minimum_residency_ms,
        Field::Cooldown => values.policy.cooldown_ms,
        Field::MaxMutations => values.policy.max_mutations_per_evaluation as u64,
        Field::LogSize => values.logging.max_file_size_mib as u64,
        Field::LogArchives => values.logging.retained_archives as u64,
        Field::ReservePercent => values.responsiveness.system_reserve_percent as u64,
        Field::MinimumReservedCores => values.responsiveness.minimum_reserved_cores as u64,
        Field::MaximumReservedCores => values.responsiveness.maximum_reserved_cores as u64,
        Field::LatencyTarget => values.responsiveness.latency_target_p99_us,
        Field::LatencyRecovery => values.responsiveness.latency_recovery_p99_us,
        Field::AdjustmentSamples => values.responsiveness.adjustment_stability_samples as u64,
        Field::MemoryMinimumCores => values.responsiveness.memory_minimum_physical_cores as u64,
        Field::MemoryMaximumCores => values.responsiveness.memory_maximum_physical_cores as u64,
        Field::MemoryResizeCooldown => values.responsiveness.memory_resize_cooldown_ms,
        _ => 0,
    }
}

/// Gives a setting a number, which is brought between its bounds first.
pub fn set_number(values: &mut ControllerValues, field: Field, value: u64, limits: &EditorLimits)
    ensures
        *final(values) == with_number(
            *old(values),
            field,
            bounded(value, bounds_of(field, *limits)),
        ),
{
    let bounds = number_bounds(field, limits);
    let value: u64 = if value < bounds.0 {
        bounds.0
    } else if value > bounds.1 {
        bounds.1
    } else {
        value
    };
    match field {
        Field::SampleInterval => values.sample_interval_ms = value,
        Field::MinimumUtilization => values.minimum_process_utilization_bps = value as u16,
        Field::OverloadThreshold => values.policy.overload_threshold_bps = value as u16,
        Field::MinimumImprovement => values.policy.minimum_improvement_bps = value as u16,
        Field::StabilitySamples => values.policy.stability_samples = value as u16,
        Field::MinimumResidency => values.policy.minimum_residency_ms = value,
        Field::Cooldown => values.policy.cooldown_ms = value,
        Field::MaxMutations => values.policy.max_mutations_per_evaluation = value as u16,
        Field::LogSize => values.logging.max_file_size_mib = value as u16,
        Field::LogArchives => values.logging.retained_archives = value as u8,
        Field::ReservePercent => values.responsiveness.system_reserve_percent = value as u8,
        Field::MinimumReservedCores => {
            values.responsiveness.minimum_reserved_cores = value as u16
        },
        Field::MaximumReservedCores => {
            values.responsiveness.maximum_reserved_cores = value as u16
        },
        Field::LatencyTarget => values.responsiveness.latency_target_p99_us = value,
        Field::LatencyRecovery => values.responsiveness.latency_recovery_p99_us = value,
        Field::AdjustmentSamples => {
            values.responsiveness.adjustment_stability_samples = value as u16
        },
        Field::MemoryMinimumCores => {
            values.responsiveness.memory_minimum_physical_cores = value as u16
        },
        Field::MemoryMaximumCores => {
            values.responsiveness.memory_maximum_physical_cores = value as u16
        },
        Field::MemoryResizeCooldown => values.responsiveness.memory_resize_cooldown_ms = value,
        _ => {},
    }
}

/// Whether a setting holds a number.
pub open spec fn is_number(field: Field) -> bool {
    match field {
        Field::ControllerMode => false,
        Field::DefaultRuleMode => false,
        Field::DefaultWorkloadProfile => false,
        Field::LoggingLevel => false,
        Field::AllUserProcesses => false,
        Field::TrayAutostart => false,
        Field::Responsiveness => false,
        Field::LatencyGuard => false,
        Field::MemorySmt => false,
        Field::BackgroundEfficiency => false,
        Field::EcoQos => false,
        Field::MemoryPriority => false,
        Field::MemoryPressureGuard => false,
        Field::ProtectForeground => false,
        Field::ProtectVisible => false,
        Field::ProtectAudio => false,
        _ => true,
    }
}

/// A number that a setting was given is the number that it holds, within its
/// bounds, and no other number changes by it.
pub proof fn numbers_are_kept_within_bounds(
    values: ControllerValues,
    field: Field,
    other: Field,
    value: u64,
    limits: EditorLimits,
)
    requires
        is_number(field),
        other != field,
    ensures
        number_of(
            with_number(values, field, bounded(value, bounds_of(field, limits))),
            field,
        ) == bounded(value, bounds_of(field, limits)),
        bounds_of(field, limits).0 <= bounds_of(field, limits).1 ==> bounds_of(field, limits).0
            <= bounded(value, bounds_of(field, limits)) <= bounds_of(field, limits).1,
        number_of(
            with_number(values, field, bounded(value, bounds_of(field, limits))),
            other,
        ) == number_of(values, other),
{
}

/// The settings with one switch turned. Fields that hold no switch change
/// nothing.
pub open spec fn with_toggle(values: ControllerValues, field: Field, on: bool) -> ControllerValues {
    let background = values.background_efficiency;
    let policy = background.policy;
    match field {
        Field::AllUserProcesses => ControllerValues { all_user_processes: on, ..values },
        Field::Responsiveness => ControllerValues {
            responsiveness: ResponsivenessSettings { enabled: on, ..values.responsiveness },
            ..values
        },
        Field::LatencyGuard => ControllerValues {
            responsiveness: ResponsivenessSettings {
                latency_guard_enabled: on,
                ..values.responsiveness
            },
            ..values
        },
        Field::MemorySmt => ControllerValues {
            responsiveness: ResponsivenessSettings {
                memory_use_smt: on,
                ..values.responsiveness
            },
            ..values
        },
        Field::BackgroundEfficiency => ControllerValues {
            background_efficiency: BackgroundSettings { enabled: on, ..background },
            ..values
        },
        Field::EcoQos => ControllerValues {
            background_efficiency: BackgroundSettings {
                policy: BackgroundPolicy { eco_qos_enabled: on, ..policy },
                ..background
            },
            ..values
        },
        Field::MemoryPriority => ControllerValues {
            background_efficiency: BackgroundSettings {
                policy: BackgroundPolicy { memory_priority_enabled: on, ..policy },
                ..background
            },
            ..values
        },
        Field::MemoryPressureGuard => ControllerValues {
            background_efficiency: BackgroundSettings {
                policy: BackgroundPolicy { memory_pressure_guard_enabled: on, ..policy },
                ..background
            },
            ..values
        },
        Field::ProtectForeground => ControllerValues {
            background_efficiency: BackgroundSettings {
                policy: BackgroundPolicy { protect_foreground: on, ..policy },
                ..background
            },
            ..values
        },
        Field::ProtectVisible => ControllerValues {
            background_efficiency: BackgroundSettings {
                policy: BackgroundPolicy { protect_visible: on, ..policy },
                ..background
            },
            ..values
        },
        Field::ProtectAudio => ControllerValues {
            background_efficiency: BackgroundSettings {
                policy: BackgroundPolicy { protect_audio: on, ..policy },
                ..background
            },
            ..values
        },
        _ => values,
    }
}

/// Turns a switch.
pub fn set_toggle(values: &mut ControllerValues, field: Field, on: bool)
    ensures
        *final(values) == with_toggle(*old(values), field, on),
{
    match field {
        Field::AllUserProcesses => values.all_user_processes = on,
        Field::Responsiveness => values.responsiveness.enabled = on,
        Field::LatencyGuard => values.responsiveness.latency_guard_enabled = on,
        Field::MemorySmt => values.responsiveness.memory_use_smt = on,
        Field::BackgroundEfficiency => values.background_efficiency.enabled = on,
        Field::EcoQos => values.background_efficiency.policy.eco_qos_enabled = on,
        Field::MemoryPriority => values.background_efficiency.policy.memory_priority_enabled = on,
        Field::MemoryPressureGuard => {
            values.background_efficiency.policy.memory_pressure_guard_enabled = on
        },
        Field::ProtectForeground => values.background_efficiency.policy.protect_foreground = on,
        Field::ProtectVisible => values.background_efficiency.policy.protect_visible = on,
        Field::ProtectAudio => values.background_efficiency.policy.protect_audio = on,
        _ => {},
    }
}

/// The settings with one of several choices taken, by its place among them.
/// For the mode of the controller and the log, places behind the last take the
/// last; for what holds of processes without a rule, they change nothing.
pub open spec fn with_choice(values: ControllerValues, field: Field, at: u64) -> ControllerValues {
    match field {
        Field::ControllerMode => ControllerValues {
            controller_mode: if at == 0 {
                ControllerMode::Off
            } else if at == 1 {
                ControllerMode::Observe
            } else {
                ControllerMode::Auto
            },
            ..values
        },
        Field::LoggingLevel => ControllerValues {
            logging: LoggingSettings {
                level: if at == 0 {
                    LoggingLevel::Off
                } else if at == 1 {
                    LoggingLevel::Normal
                } else {
                    LoggingLevel::Trace
                },
                ..values.logging
            },
            ..values
        },
        Field::DefaultRuleMode => ControllerValues {
            default_rule_mode: crate::rules::picked(
                crate::rules::offered_modes(false),
                at,
                values.default_rule_mode,
            ),
            ..values
        },
        Field::DefaultWorkloadProfile => ControllerValues {
            default_workload_profile: crate::rules::picked(
                crate::rules::offered_profiles(),
                at,
                values.default_workload_profile,
            ),
            ..values
        },
        _ => values,
    }
}

/// Takes one of several choices.
pub fn set_choice(values: &mut ControllerValues, field: Field, at: u64)
    ensures
        *final(values) == with_choice(*old(values), field, at),
{
    match field {
        Field::ControllerMode => {
            values.controller_mode =
            if at == 0 {
                ControllerMode::Off
            } else if at == 1 {
                ControllerMode::Observe
            } else {
                ControllerMode::Auto
            }
        },
        Field::LoggingLevel => {
            values.logging.level =
            if at == 0 {
                LoggingLevel::Off
            } else if at == 1 {
                LoggingLevel::Normal
            } else {
                LoggingLevel::Trace
            }
        },
        Field::DefaultRuleMode => {
            values.default_rule_mode = pick_mode(false, at, values.default_rule_mode);
        },
        Field::DefaultWorkloadProfile => {
            values.default_workload_profile = pick_profile(at, values.default_workload_profile);
        },
        _ => {},
    }
}

/// Whether a switch is on. Settings that are no switches are not.
pub open spec fn switch_of(values: ControllerValues, field: Field) -> bool {
    let policy = values.background_efficiency.policy;
    match field {
        Field::AllUserProcesses => values.all_user_processes,
        Field::Responsiveness => values.responsiveness.enabled,
        Field::LatencyGuard => values.responsiveness.latency_guard_enabled,
        Field::MemorySmt => values.responsiveness.memory_use_smt,
        Field::BackgroundEfficiency => values.background_efficiency.enabled,
        Field::EcoQos => policy.eco_qos_enabled,
        Field::MemoryPriority => policy.memory_priority_enabled,
        Field::MemoryPressureGuard => policy.memory_pressure_guard_enabled,
        Field::ProtectForeground => policy.protect_foreground,
        Field::ProtectVisible => policy.protect_visible,
        Field::ProtectAudio => policy.protect_audio,
        _ => false,
    }
}

/// Whether a setting is one of several choices.
pub open spec fn is_choice(field: Field) -> bool {
    field == Field::ControllerMode || field == Field::LoggingLevel || field
        == Field::DefaultRuleMode || field == Field::DefaultWorkloadProfile
}

/// Whether a setting is a switch. The one for the start of the tray is no
/// part of these settings.
pub open spec fn is_switch(field: Field) -> bool {
    !is_number(field) && !is_choice(field) && field != Field::TrayAutostart
}

/// Two settings agree in all but one setting.
pub open spec fn differ_only_in(a: ControllerValues, b: ControllerValues, field: Field) -> bool {
    &&& forall|other: Field| other != field ==> #[trigger] number_of(a, other) == number_of(b, other)
    &&& forall|other: Field| other != field ==> #[trigger] switch_of(a, other) == switch_of(b, other)
    &&& field != Field::ControllerMode ==> a.controller_mode == b.controller_mode
    &&& field != Field::LoggingLevel ==> a.logging.level == b.logging.level
    &&& field != Field::DefaultRuleMode ==> a.default_rule_mode == b.default_rule_mode
    &&& field != Field::DefaultWorkloadProfile ==> a.default_workload_profile
        == b.default_workload_profile
    &&& a.schema_version == b.schema_version
}

/// Each number stands for its own setting: where the setting alone is
/// changed, that number shows it, and no other setting changes.
pub proof fn numbers_show_their_settings(values: ControllerValues, long: u64, short: u16, byte: u8)
    ensures
        ({
            let changed = ControllerValues { sample_interval_ms: long, ..values };
            number_of(changed, Field::SampleInterval) == long && differ_only_in(
                changed,
                values,
                Field::SampleInterval,
            )
        }),
        ({
            let changed = ControllerValues { minimum_process_utilization_bps: short, ..values };
            number_of(changed, Field::MinimumUtilization) == short && differ_only_in(
                changed,
                values,
                Field::MinimumUtilization,
            )
        }),
        ({
            let policy = PolicySettings { overload_threshold_bps: short, ..values.policy };
            let changed = ControllerValues { policy, ..values };
            number_of(changed, Field::OverloadThreshold) == short && differ_only_in(
                changed,
                values,
                Field::OverloadThreshold,
            )
        }),
        ({
            let policy = PolicySettings { minimum_improvement_bps: short, ..values.policy };
            let changed = ControllerValues { policy, ..values };
            number_of(changed, Field::MinimumImprovement) == short && differ_only_in(
                changed,
                values,
                Field::MinimumImprovement,
            )
        }),
        ({
            let policy = PolicySettings { stability_samples: short, ..values.policy };
            let changed = ControllerValues { policy, ..values };
            number_of(changed, Field::StabilitySamples) == short && differ_only_in(
                changed,
                values,
                Field::StabilitySamples,
            )
        }),
        ({
            let policy = PolicySettings { minimum_residency_ms: long, ..values.policy };
            let changed = ControllerValues { policy, ..values };
            number_of(changed, Field::MinimumResidency) == long && differ_only_in(
                changed,
                values,
                Field::MinimumResidency,
            )
        }),
        ({
            let policy = PolicySettings { cooldown_ms: long, ..values.policy };
            let changed = ControllerValues { policy, ..values };
            number_of(changed, Field::Cooldown) == long && differ_only_in(
                changed,
                values,
                Field::Cooldown,
            )
        }),
        ({
            let policy = PolicySettings { max_mutations_per_evaluation: short, ..values.policy };
            let changed = ControllerValues { policy, ..values };
            number_of(changed, Field::MaxMutations) == short && differ_only_in(
                changed,
                values,
                Field::MaxMutations,
            )
        }),
        ({
            let logging = LoggingSettings { max_file_size_mib: short, ..values.logging };
            let changed = ControllerValues { logging, ..values };
            number_of(changed, Field::LogSize) == short && differ_only_in(
                changed,
                values,
                Field::LogSize,
            )
        }),
        ({
            let logging = LoggingSettings { retained_archives: byte, ..values.logging };
            let changed = ControllerValues { logging, ..values };
            number_of(changed, Field::LogArchives) == byte && differ_only_in(
                changed,
                values,
                Field::LogArchives,
            )
        }),
{
}

/// Each number of the reserve and of the memory profile stands for its own
/// setting.
pub proof fn reserve_numbers_show_their_settings(
    values: ControllerValues,
    long: u64,
    short: u16,
    byte: u8,
)
    ensures
        ({
            let responsiveness = ResponsivenessSettings {
                system_reserve_percent: byte,
                ..values.responsiveness
            };
            let changed = ControllerValues { responsiveness, ..values };
            number_of(changed, Field::ReservePercent) == byte && differ_only_in(
                changed,
                values,
                Field::ReservePercent,
            )
        }),
        ({
            let responsiveness = ResponsivenessSettings {
                minimum_reserved_cores: short,
                ..values.responsiveness
            };
            let changed = ControllerValues { responsiveness, ..values };
            number_of(changed, Field::MinimumReservedCores) == short && differ_only_in(
                changed,
                values,
                Field::MinimumReservedCores,
            )
        }),
        ({
            let responsiveness = ResponsivenessSettings {
                maximum_reserved_cores: short,
                ..values.responsiveness
            };
            let changed = ControllerValues { responsiveness, ..values };
            number_of(changed, Field::MaximumReservedCores) == short && differ_only_in(
                changed,
                values,
                Field::MaximumReservedCores,
            )
        }),
        ({
            let responsiveness = ResponsivenessSettings {
                latency_target_p99_us: long,
                ..values.responsiveness
            };
            let changed = ControllerValues { responsiveness, ..values };
            number_of(changed, Field::LatencyTarget) == long && differ_only_in(
                changed,
                values,
                Field::LatencyTarget,
            )
        }),
        ({
            let responsiveness = ResponsivenessSettings {
                latency_recovery_p99_us: long,
                ..values.responsiveness
            };
            let changed = ControllerValues { responsiveness, ..values };
            number_of(changed, Field::LatencyRecovery) == long && differ_only_in(
                changed,
                values,
                Field::LatencyRecovery,
            )
        }),
        ({
            let responsiveness = ResponsivenessSettings {
                adjustment_stability_samples: short,
                ..values.responsiveness
            };
            let changed = ControllerValues { responsiveness, ..values };
            number_of(changed, Field::AdjustmentSamples) == short && differ_only_in(
                changed,
                values,
                Field::AdjustmentSamples,
            )
        }),
        ({
            let responsiveness = ResponsivenessSettings {
                memory_minimum_physical_cores: short,
                ..values.responsiveness
            };
            let changed = ControllerValues { responsiveness, ..values };
            number_of(changed, Field::MemoryMinimumCores) == short && differ_only_in(
                changed,
                values,
                Field::MemoryMinimumCores,
            )
        }),
        ({
            let responsiveness = ResponsivenessSettings {
                memory_maximum_physical_cores: short,
                ..values.responsiveness
            };
            let changed = ControllerValues { responsiveness, ..values };
            number_of(changed, Field::MemoryMaximumCores) == short && differ_only_in(
                changed,
                values,
                Field::MemoryMaximumCores,
            )
        }),
        ({
            let responsiveness = ResponsivenessSettings {
                memory_resize_cooldown_ms: long,
                ..values.responsiveness
            };
            let changed = ControllerValues { responsiveness, ..values };
            number_of(changed, Field::MemoryResizeCooldown) == long && differ_only_in(
                changed,
                values,
                Field::MemoryResizeCooldown,
            )
        }),
{
}

#[verifier::opaque]
spec fn given_back(values: ControllerValues, field: Field, first: u64, value: u64) -> bool {
    &&& with_number(with_number(values, field, value), field, number_of(values, field)) == values
    &&& with_number(with_number(values, field, first), field, value) == with_number(
        values,
        field,
        value,
    )
    &&& !is_number(field) ==> with_number(values, field, value) == values
}

#[verifier::spinoff_prover]
proof fn numbers_are_given_back(values: ControllerValues, field: Field, first: u64, value: u64)
    ensures
        given_back(values, field, first, value),
{
    match field {
        Field::ControllerMode => {
            assert(given_back(values, Field::ControllerMode, first, value)) by {
                reveal(given_back);
            }
        },
        Field::DefaultRuleMode => {
            assert(given_back(values, Field::DefaultRuleMode, first, value)) by {
                reveal(given_back);
            }
        },
        Field::DefaultWorkloadProfile => {
            assert(given_back(values, Field::DefaultWorkloadProfile, first, value)) by {
                reveal(given_back);
            }
        },
        Field::LoggingLevel => {
            assert(given_back(values, Field::LoggingLevel, first, value)) by {
                reveal(given_back);
            }
        },
        Field::AllUserProcesses => {
            assert(given_back(values, Field::AllUserProcesses, first, value)) by {
                reveal(given_back);
            }
        },
        Field::TrayAutostart => {
            assert(given_back(values, Field::TrayAutostart, first, value)) by {
                reveal(given_back);
            }
        },
        Field::Responsiveness => {
            assert(given_back(values, Field::Responsiveness, first, value)) by {
                reveal(given_back);
            }
        },
        Field::LatencyGuard => {
            assert(given_back(values, Field::LatencyGuard, first, value)) by {
                reveal(given_back);
            }
        },
        Field::MemorySmt => {
            assert(given_back(values, Field::MemorySmt, first, value)) by {
                reveal(given_back);
            }
        },
        Field::BackgroundEfficiency => {
            assert(given_back(values, Field::BackgroundEfficiency, first, value)) by {
                reveal(given_back);
            }
        },
        Field::EcoQos => {
            assert(given_back(values, Field::EcoQos, first, value)) by {
                reveal(given_back);
            }
        },
        Field::MemoryPriority => {
            assert(given_back(values, Field::MemoryPriority, first, value)) by {
                reveal(given_back);
            }
        },
        Field::MemoryPressureGuard => {
            assert(given_back(values, Field::MemoryPressureGuard, first, value)) by {
                reveal(given_back);
            }
        },
        Field::ProtectForeground => {
            assert(given_back(values, Field::ProtectForeground, first, value)) by {
                reveal(given_back);
            }
        },
        Field::ProtectVisible => {
            assert(given_back(values, Field::ProtectVisible, first, value)) by {
                reveal(given_back);
            }
        },
        Field::ProtectAudio => {
            assert(given_back(values, Field::ProtectAudio, first, value)) by {
                reveal(given_back);
            }
        },
        Field::SampleInterval => {
            assert(given_back(values, Field::SampleInterval, first, value)) by {
                reveal(given_back);
            }
        },
        Field::MinimumUtilization => {
            assert(given_back(values, Field::MinimumUtilization, first, value)) by {
                reveal(given_back);
            }
        },
        Field::OverloadThreshold => {
            assert(given_back(values, Field::OverloadThreshold, first, value)) by {
                reveal(given_back);
            }
        },
        Field::MinimumImprovement => {
            assert(given_back(values, Field::MinimumImprovement, first, value)) by {
                reveal(given_back);
            }
        },
        Field::StabilitySamples => {
            assert(given_back(values, Field::StabilitySamples, first, value)) by {
                reveal(given_back);
            }
        },
        Field::MinimumResidency => {
            assert(given_back(values, Field::MinimumResidency, first, value)) by {
                reveal(given_back);
            }
        },
        Field::Cooldown => {
            assert(given_back(values, Field::Cooldown, first, value)) by {
                reveal(given_back);
            }
        },
        Field::MaxMutations => {
            assert(given_back(values, Field::MaxMutations, first, value)) by {
                reveal(given_back);
            }
        },
        Field::LogSize => {
            assert(given_back(values, Field::LogSize, first, value)) by {
                reveal(given_back);
            }
        },
        Field::LogArchives => {
            assert(given_back(values, Field::LogArchives, first, value)) by {
                reveal(given_back);
            }
        },
        Field::ReservePercent => {
            assert(given_back(values, Field::ReservePercent, first, value)) by {
                reveal(given_back);
            }
        },
        Field::MinimumReservedCores => {
            assert(given_back(values, Field::MinimumReservedCores, first, value)) by {
                reveal(given_back);
            }
        },
        Field::MaximumReservedCores => {
            assert(given_back(values, Field::MaximumReservedCores, first, value)) by {
                reveal(given_back);
            }
        },
        Field::LatencyTarget => {
            assert(given_back(values, Field::LatencyTarget, first, value)) by {
                reveal(given_back);
            }
        },
        Field::LatencyRecovery => {
            assert(given_back(values, Field::LatencyRecovery, first, value)) by {
                reveal(given_back);
            }
        },
        Field::AdjustmentSamples => {
            assert(given_back(values, Field::AdjustmentSamples, first, value)) by {
                reveal(given_back);
            }
        },
        Field::MemoryMinimumCores => {
            assert(given_back(values, Field::MemoryMinimumCores, first, value)) by {
                reveal(given_back);
            }
        },
        Field::MemoryMaximumCores => {
            assert(given_back(values, Field::MemoryMaximumCores, first, value)) by {
                reveal(given_back);
            }
        },
        Field::MemoryResizeCooldown => {
            assert(given_back(values, Field::MemoryResizeCooldown, first, value)) by {
                reveal(given_back);
            }
        },
    }
}

/// Giving a setting a number changes nothing else: giving it back the number
/// that it had undoes it. Of two numbers the later one holds.
#[verifier::spinoff_prover]
pub proof fn entered_numbers_can_be_taken_back(
    values: ControllerValues,
    field: Field,
    first: u64,
    value: u64,
)
    ensures
        with_number(with_number(values, field, value), field, number_of(values, field)) == values,
        with_number(with_number(values, field, first), field, value) == with_number(
            values,
            field,
            value,
        ),
        !is_number(field) ==> with_number(values, field, value) == values,
{
    numbers_are_given_back(values, field, first, value);
    reveal(given_back);
}

/// A number within the bounds is taken as it is, one outside them is brought
/// to the nearer bound.
pub proof fn bounds_are_kept(value: u64, low: u64, high: u64)
    requires
        low <= high,
    ensures
        low <= value <= high ==> bounded(value, (low, high)) == value,
        value <= low ==> bounded(value, (low, high)) == low,
        value >= high ==> bounded(value, (low, high)) == high,
{
}

/// What a setting can be given is what the service takes: a sample interval
/// from a second to a minute, shares of at most the whole, at least one of
/// what is counted, and otherwise what the limits say. Where a setting has
/// two ends, both have the same bounds.
pub proof fn bounds_fit_their_settings(limits: EditorLimits)
    ensures
        bounds_of(Field::SampleInterval, limits) == (1_000u64, 60_000u64),
        bounds_of(Field::MinimumUtilization, limits) == (0u64, 10_000u64),
        bounds_of(Field::OverloadThreshold, limits) == bounds_of(
            Field::MinimumUtilization,
            limits,
        ),
        bounds_of(Field::MinimumImprovement, limits) == bounds_of(
            Field::MinimumUtilization,
            limits,
        ),
        bounds_of(Field::StabilitySamples, limits).0 == 1,
        bounds_of(Field::MaxMutations, limits).0 == 1,
        bounds_of(Field::AdjustmentSamples, limits) == (1u64, limits.max_stability_samples as u64),
        bounds_of(Field::MinimumReservedCores, limits) == (1u64, limits.max_physical_cores as u64),
        bounds_of(Field::MaximumReservedCores, limits) == bounds_of(
            Field::MinimumReservedCores,
            limits,
        ),
        bounds_of(Field::MemoryMinimumCores, limits) == bounds_of(
            Field::MinimumReservedCores,
            limits,
        ),
        bounds_of(Field::MemoryMaximumCores, limits) == bounds_of(
            Field::MinimumReservedCores,
            limits,
        ),
        bounds_of(Field::LatencyTarget, limits) == (limits.min_latency_us, limits.max_latency_us),
        bounds_of(Field::LatencyRecovery, limits) == bounds_of(Field::LatencyTarget, limits),
        bounds_of(Field::ReservePercent, limits) == (
            limits.min_reserve_percent as u64,
            limits.max_reserve_percent as u64,
        ),
        bounds_of(Field::MemoryResizeCooldown, limits) == (
            limits.min_resize_cooldown_ms,
            limits.max_resize_cooldown_ms,
        ),
        bounds_of(Field::LogArchives, limits).0 == 0,
        bounds_of(Field::MinimumResidency, limits) == (0u64, u64::MAX),
        bounds_of(Field::Cooldown, limits) == (0u64, u64::MAX),
{
}

/// A switch is on exactly where it was turned on, and nothing else changes by
/// it: turning it back undoes it.
#[verifier::spinoff_prover]
#[verifier::rlimit(80)]
pub proof fn turned_switches_can_be_turned_back(values: ControllerValues, field: Field, on: bool)
    ensures
        is_switch(field) ==> switch_of(with_toggle(values, field, on), field) == on,
        !is_switch(field) ==> with_toggle(values, field, on) == values,
        with_toggle(with_toggle(values, field, on), field, switch_of(values, field)) == values,
{
}

/// Each switch turns its own setting.
pub proof fn switches_turn_their_settings(values: ControllerValues, on: bool)
    ensures
        with_toggle(values, Field::AllUserProcesses, on).all_user_processes == on,
        with_toggle(values, Field::Responsiveness, on).responsiveness.enabled == on,
        with_toggle(values, Field::LatencyGuard, on).responsiveness.latency_guard_enabled == on,
        with_toggle(values, Field::MemorySmt, on).responsiveness.memory_use_smt == on,
        with_toggle(values, Field::BackgroundEfficiency, on).background_efficiency.enabled == on,
        with_toggle(values, Field::EcoQos, on).background_efficiency.policy.eco_qos_enabled == on,
        with_toggle(
            values,
            Field::MemoryPriority,
            on,
        ).background_efficiency.policy.memory_priority_enabled == on,
        with_toggle(
            values,
            Field::MemoryPressureGuard,
            on,
        ).background_efficiency.policy.memory_pressure_guard_enabled == on,
        with_toggle(
            values,
            Field::ProtectForeground,
            on,
        ).background_efficiency.policy.protect_foreground == on,
        with_toggle(
            values,
            Field::ProtectVisible,
            on,
        ).background_efficiency.policy.protect_visible == on,
        with_toggle(values, Field::ProtectAudio, on).background_efficiency.policy.protect_audio
            == on,
{
}

/// Taking a choice changes that choice and nothing else, and of two choices
/// the later one holds. Different places take different choices, as far as
/// there are any.
pub proof fn taken_choices_change_nothing_else(
    values: ControllerValues,
    field: Field,
    first: u64,
    at: u64,
)
    ensures
        ({
            let taken = with_choice(values, field, at);
            &&& differ_only_in(taken, values, field)
            &&& !is_choice(field) ==> taken == values
            &&& at < 3 ==> with_choice(with_choice(values, field, first), field, at) == taken
            &&& is_choice(field) && first < 3 && at < 3 && first != at ==> with_choice(
                values,
                field,
                first,
            ) != taken
        }),
{
}

} // verus!
