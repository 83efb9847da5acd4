//! The pages of the settings window.
use vstd::prelude::*;

use crate::background::BackgroundEfficiencyStatus;
use crate::background::BackgroundStatusView;
use crate::editor::Confirmation;
use crate::editor::SaveState;
use crate::language::Language;
use crate::observations::ControllerMode;
use crate::panel::ItemKind;
use crate::panel::ItemView;
use crate::panel::Panel;
use crate::responsiveness_log::ResponsivenessPressure;
use crate::rules::rule_mode_name;
use crate::rules::workload_profile_name;
use crate::settings_config::field_number;
use crate::settings_config::number_bounds;
use crate::settings_config::BackgroundSettings;
use crate::settings_config::ControllerValues;
use crate::settings_config::EditorLimits;
use crate::settings_config::Field;
use crate::settings_config::LoggingLevel;
use crate::settings_texts::ADAPTIVE_HEADING;
use crate::settings_texts::ADAPTIVE_INTRO;
use crate::settings_texts::ADJUSTMENT_HELP;
use crate::settings_texts::ADJUSTMENT_LABEL;
use crate::settings_texts::ALL_PROCESSES;
use crate::settings_texts::ALL_PROCESSES_HELP;
use crate::settings_texts::ALL_PROCESSES_NOTE;
use crate::settings_texts::AUDIO_HELP;
use crate::settings_texts::AUDIO_TOGGLE;
use crate::settings_texts::AUTOSTART;
use crate::settings_texts::AUTOSTART_HELP;
use crate::settings_texts::AUTOSTART_NOTE;
use crate::settings_texts::BACKGROUND_HEADING;
use crate::settings_texts::BACKGROUND_HELP;
use crate::settings_texts::BACKGROUND_SCOPE;
use crate::settings_texts::BACKGROUND_SIGNALS;
use crate::settings_texts::BACKGROUND_TOGGLE;
use crate::settings_texts::CANCELLING;
use crate::settings_texts::CANCEL_NOTE;
use crate::settings_texts::CANCEL_QUESTION;
use crate::settings_texts::CANCEL_YES;
use crate::settings_texts::CLOSE_NOTE;
use crate::settings_texts::CLOSE_QUESTION;
use crate::settings_texts::CLOSE_YES;
use crate::settings_texts::COLLECTING;
use crate::settings_texts::CONTROLLER_HEADING;
use crate::settings_texts::CONTROLLER_HELP;
use crate::settings_texts::CONTROLLER_INTRO;
use crate::settings_texts::CONTROLLER_MODE;
use crate::settings_texts::COOLDOWN_HELP;
use crate::settings_texts::COOLDOWN_LABEL;
use crate::settings_texts::DEFAULT_MODE_LABEL;
use crate::settings_texts::DEFAULT_PROFILE_LABEL;
use crate::settings_texts::ECO_QOS_HELP;
use crate::settings_texts::ECO_QOS_TOGGLE;
use crate::settings_texts::EFFICIENCY_HEADING;
use crate::settings_texts::EFFICIENCY_UNAVAILABLE;
use crate::settings_texts::EFFICIENCY_UNPUBLISHED;
use crate::settings_texts::EMERGENCY_NOTE;
use crate::settings_texts::EVALUATIONS;
use crate::settings_texts::FOREGROUND_HELP;
use crate::settings_texts::FOREGROUND_TOGGLE;
use crate::settings_texts::GUARDS_TITLE;
use crate::settings_texts::GUARD_HELP;
use crate::settings_texts::GUARD_TOGGLE;
use crate::settings_texts::IMPROVEMENT_HELP;
use crate::settings_texts::IMPROVEMENT_LABEL;
use crate::settings_texts::KEEP_EDITING;
use crate::settings_texts::LAST_PASS;
use crate::settings_texts::LEVEL_NORMAL;
use crate::settings_texts::LEVEL_OFF;
use crate::settings_texts::LEVEL_TRACE;
use crate::settings_texts::LIVE_COUNTS;
use crate::settings_texts::LIVE_HEADING;
use crate::settings_texts::LIVE_SENSORS;
use crate::settings_texts::LIVE_TRANSITION;
use crate::settings_texts::LIVE_UNAVAILABLE;
use crate::settings_texts::LOGGING_HEADING;
use crate::settings_texts::LOGGING_HELP;
use crate::settings_texts::LOGGING_INTRO;
use crate::settings_texts::LOGGING_LEVEL;
use crate::settings_texts::LOGGING_NORMAL_NOTE;
use crate::settings_texts::LOGGING_OFF_NOTE;
use crate::settings_texts::LOGGING_TRACE_NOTE;
use crate::settings_texts::LOG_ARCHIVES_HELP;
use crate::settings_texts::LOG_ARCHIVES_LABEL;
use crate::settings_texts::LOG_PATH_NOTE;
use crate::settings_texts::LOG_SIZE_HELP;
use crate::settings_texts::LOG_SIZE_LABEL;
use crate::settings_texts::LOG_STORAGE;
use crate::settings_texts::LOG_TOTALS;
use crate::settings_texts::MAX_RESERVED_HELP;
use crate::settings_texts::MAX_RESERVED_LABEL;
use crate::settings_texts::MEBIBYTE_UNIT;
use crate::settings_texts::MEMORY_HEADING;
use crate::settings_texts::MEMORY_HELP;
use crate::settings_texts::MEMORY_MAX_HELP;
use crate::settings_texts::MEMORY_MAX_LABEL;
use crate::settings_texts::MEMORY_MIN_HELP;
use crate::settings_texts::MEMORY_MIN_LABEL;
use crate::settings_texts::MEMORY_TOGGLE;
use crate::settings_texts::MIN_RESERVED_HELP;
use crate::settings_texts::MIN_RESERVED_LABEL;
use crate::settings_texts::MODE_AUTO;
use crate::settings_texts::MODE_OBSERVE;
use crate::settings_texts::MODE_OFF;
use crate::settings_texts::MUTATIONS_HELP;
use crate::settings_texts::MUTATIONS_LABEL;
use crate::settings_texts::MUTATION_TOTALS;
use crate::settings_texts::OVERLOAD_HELP;
use crate::settings_texts::OVERLOAD_LABEL;
use crate::settings_texts::PERCENT_HELP;
use crate::settings_texts::PERCENT_LABEL;
use crate::settings_texts::PLAN_ADJUSTMENT;
use crate::settings_texts::PLAN_CORES;
use crate::settings_texts::PLAN_HEADING;
use crate::settings_texts::PLAN_LATENCY;
use crate::settings_texts::PLAN_TELEMETRY;
use crate::settings_texts::PLAN_UNAVAILABLE;
use crate::settings_texts::PLAN_WIDTH;
use crate::settings_texts::PRESSURE_HELP;
use crate::settings_texts::PRESSURE_TOGGLE;
use crate::settings_texts::RECOVERY_HELP;
use crate::settings_texts::RECOVERY_LABEL;
use crate::settings_texts::RESERVE_HEADING;
use crate::settings_texts::RESERVE_HELP;
use crate::settings_texts::RESERVE_INTRO;
use crate::settings_texts::RESERVE_NOTE;
use crate::settings_texts::RESERVE_TOGGLE;
use crate::settings_texts::RESIDENCY_HELP;
use crate::settings_texts::RESIDENCY_LABEL;
use crate::settings_texts::RESIZE_HELP;
use crate::settings_texts::RESIZE_LABEL;
use crate::settings_texts::RESTORE_NO;
use crate::settings_texts::RESTORE_NOTE;
use crate::settings_texts::RESTORE_QUESTION;
use crate::settings_texts::RESTORE_YES;
use crate::settings_texts::RULE_MODE_HELP;
use crate::settings_texts::SAMPLE_HELP;
use crate::settings_texts::SAMPLE_LABEL;
use crate::settings_texts::SCHEMA_HELP;
use crate::settings_texts::SCHEMA_LABEL;
use crate::settings_texts::SERVICE_PROCESS;
use crate::settings_texts::SERVICE_PROCESS_UNKNOWN;
use crate::settings_texts::SMT_HELP;
use crate::settings_texts::SMT_NOTE;
use crate::settings_texts::SMT_TOGGLE;
use crate::settings_texts::STABILITY_HELP;
use crate::settings_texts::STABILITY_LABEL;
use crate::settings_texts::STATE_NOT_TAKEN;
use crate::settings_texts::STATE_SAVED;
use crate::settings_texts::STATE_UNSAVED;
use crate::settings_texts::TARGET_HELP;
use crate::settings_texts::TARGET_LABEL;
use crate::settings_texts::UTILIZATION_HELP;
use crate::settings_texts::UTILIZATION_LABEL;
use crate::settings_texts::VISIBLE_HELP;
use crate::settings_texts::VISIBLE_TOGGLE;
use crate::settings_texts::WORKLOAD_PROFILE_HELP;
use crate::telemetry::EvaluationTelemetry;
use crate::template::fill;
use crate::template::Blanks;
use crate::text::push_decimal;

verus! {

pub const NO_UNIT: (&'static str, &'static str) = ("", "");

pub const PERCENT_UNIT: (&'static str, &'static str) = ("%", "%");

/// A heading.
pub open spec fn heading(language: Language, phrase: (&'static str, &'static str)) -> ItemView<
    Field,
> {
    crate::panel::saying(ItemKind::Heading, language.words(phrase))
}

/// A line of text.
pub open spec fn label(language: Language, phrase: (&'static str, &'static str)) -> ItemView<
    Field,
> {
    crate::panel::saying(ItemKind::Label, language.words(phrase))
}

/// A line of text that explains itself when pointed at.
pub open spec fn note(
    language: Language,
    phrase: (&'static str, &'static str),
    help: (&'static str, &'static str),
) -> ItemView<Field> {
    crate::panel::explained(ItemKind::Label, language.words(phrase), language.words(help))
}

/// A line of text with values in it.
pub open spec fn sentence(
    language: Language,
    template: (&'static str, &'static str),
    values: Seq<Seq<char>>,
) -> ItemView<Field> {
    crate::panel::saying(
        ItemKind::Label,
        crate::template::filled(language.words(template), values),
    )
}

/// A switch.
pub open spec fn switch(
    field: Field,
    on: bool,
    enabled: bool,
    language: Language,
    phrase: (&'static str, &'static str),
    help: (&'static str, &'static str),
) -> ItemView<Field> {
    crate::panel::explained(
        ItemKind::Toggle { field, on, enabled },
        language.words(phrase),
        language.words(help),
    )
}

/// One of several choices.
pub open spec fn option(
    field: Field,
    at: u64,
    chosen: bool,
    language: Language,
    phrase: (&'static str, &'static str),
    help: (&'static str, &'static str),
) -> ItemView<Field> {
    crate::panel::explained(
        ItemKind::Choice { field, at, chosen },
        language.words(phrase),
        language.words(help),
    )
}

/// A number within the bounds of its setting.
pub open spec fn number(
    values: ControllerValues,
    limits: EditorLimits,
    field: Field,
    enabled: bool,
    language: Language,
    phrase: (&'static str, &'static str),
    help: (&'static str, &'static str),
    unit: (&'static str, &'static str),
) -> ItemView<Field> {
    crate::panel::measured(
        ItemKind::Number {
            field,
            value: crate::settings_config::number_of(values, field),
            min: crate::settings_config::bounds_of(field, limits).0,
            max: crate::settings_config::bounds_of(field, limits).1,
            enabled,
        },
        language.words(phrase),
        language.words(help),
        language.words(unit),
    )
}

/// A number within the bounds of its setting, with its explanation.
pub open spec fn row(
    values: ControllerValues,
    limits: EditorLimits,
    field: Field,
    enabled: bool,
    language: Language,
    phrase: (&'static str, &'static str),
    help: (&'static str, &'static str),
    unit: (&'static str, &'static str),
) -> ItemView<Field> {
    crate::panel::measured(
        ItemKind::Row {
            field,
            value: crate::settings_config::number_of(values, field),
            min: crate::settings_config::bounds_of(field, limits).0,
            max: crate::settings_config::bounds_of(field, limits).1,
            enabled,
        },
        language.words(phrase),
        language.words(help),
        language.words(unit),
    )
}

/// A list to pick from, with what is picked.
pub open spec fn picker(
    field: Field,
    language: Language,
    phrase: (&'static str, &'static str),
    help: (&'static str, &'static str),
    picked: Seq<char>,
) -> ItemView<Field> {
    crate::panel::explained(
        ItemKind::Picker { field },
        language.words(phrase) + ": "@ + picked,
        language.words(help),
    )
}

/// The version of the settings file, with the version that the service
/// supports.
pub open spec fn schema_item(language: Language, schema_version: u32, supported: u32) -> ItemView<
    Field,
> {
    crate::panel::explained(
        ItemKind::Fixed { value: schema_version as u64 },
        language.words(SCHEMA_LABEL),
        crate::template::filled(
            language.words(SCHEMA_HELP),
            Seq::empty().push(crate::text::decimal(supported as nat)),
        ),
    )
}

/// What is said of a level of the event log.
pub open spec fn level_note(language: Language, level: LoggingLevel) -> ItemView<Field> {
    match level {
        LoggingLevel::Off => label(language, LOGGING_OFF_NOTE),
        LoggingLevel::Normal => label(language, LOGGING_NORMAL_NOTE),
        LoggingLevel::Trace => crate::panel::saying(
            ItemKind::Warning,
            language.words(LOGGING_TRACE_NOTE),
        ),
    }
}

fn put_heading(panel: &mut Panel<Field>, language: Language, phrase: (&'static str, &'static str))
    ensures
        final(panel)@ == old(panel)@.push(heading(language, phrase)),
{
    panel.say(ItemKind::Heading, language.phrase(phrase));
}

fn put_label(panel: &mut Panel<Field>, language: Language, phrase: (&'static str, &'static str))
    ensures
        final(panel)@ == old(panel)@.push(label(language, phrase)),
{
    panel.say(ItemKind::Label, language.phrase(phrase));
}

fn put_note(
    panel: &mut Panel<Field>,
    language: Language,
    phrase: (&'static str, &'static str),
    help: (&'static str, &'static str),
)
    ensures
        final(panel)@ == old(panel)@.push(note(language, phrase, help)),
{
    panel.explain(ItemKind::Label, language.phrase(phrase), language.phrase(help));
}

fn put_sentence(
    panel: &mut Panel<Field>,
    language: Language,
    template: (&'static str, &'static str),
    blanks: &Blanks,
)
    ensures
        final(panel)@ == old(panel)@.push(sentence(language, template, blanks@)),
{
    panel.say(ItemKind::Label, fill(language.phrase(template), blanks).as_str());
}

fn put_switch(
    panel: &mut Panel<Field>,
    field: Field,
    on: bool,
    enabled: bool,
    language: Language,
    phrase: (&'static str, &'static str),
    help: (&'static str, &'static str),
)
    ensures
        final(panel)@ == old(panel)@.push(switch(field, on, enabled, language, phrase, help)),
{
    panel.explain(
        ItemKind::Toggle { field, on, enabled },
        language.phrase(phrase),
        language.phrase(help),
    );
}

fn put_option(
    panel: &mut Panel<Field>,
    field: Field,
    at: u64,
    chosen: bool,
    language: Language,
    phrase: (&'static str, &'static str),
    help: (&'static str, &'static str),
)
    ensures
        final(panel)@ == old(panel)@.push(option(field, at, chosen, language, phrase, help)),
{
    panel.explain(
        ItemKind::Choice { field, at, chosen },
        language.phrase(phrase),
        language.phrase(help),
    );
}

fn put_number(
    panel: &mut Panel<Field>,
    values: &ControllerValues,
    limits: &EditorLimits,
    field: Field,
    enabled: bool,
    language: Language,
    phrase: (&'static str, &'static str),
    help: (&'static str, &'static str),
    unit: (&'static str, &'static str),
)
    ensures
        final(panel)@ == old(panel)@.push(
            number(*values, *limits, field, enabled, language, phrase, help, unit),
        ),
{
    let bounds = number_bounds(field, limits);
    panel.put(
        ItemKind::Number {
            field,
            value: field_number(values, field),
            min: bounds.0,
            max: bounds.1,
            enabled,
        },
        language.phrase(phrase),
        language.phrase(help),
        language.phrase(unit),
    );
}

fn put_row(
    panel: &mut Panel<Field>,
    values: &ControllerValues,
    limits: &EditorLimits,
    field: Field,
    enabled: bool,
    language: Language,
    phrase: (&'static str, &'static str),
    help: (&'static str, &'static str),
    unit: (&'static str, &'static str),
)
    ensures
        final(panel)@ == old(panel)@.push(
            row(*values, *limits, field, enabled, language, phrase, help, unit),
        ),
{
    let bounds = number_bounds(field, limits);
    panel.put(
        ItemKind::Row {
            field,
            value: field_number(values, field),
            min: bounds.0,
            max: bounds.1,
            enabled,
        },
        language.phrase(phrase),
        language.phrase(help),
        language.phrase(unit),
    );
}

fn put_picker(
    panel: &mut Panel<Field>,
    field: Field,
    language: Language,
    phrase: (&'static str, &'static str),
    help: (&'static str, &'static str),
    picked: &str,
)
    ensures
        final(panel)@ == old(panel)@.push(picker(field, language, phrase, help, picked@)),
{
    let mut text = language.phrase(phrase).to_owned();
    text.append(": ");
    text.append(picked);
    panel.explain(ItemKind::Picker { field }, text.as_str(), language.phrase(help));
}

fn put_schema(panel: &mut Panel<Field>, language: Language, schema_version: u32, supported: u32)
    ensures
        final(panel)@ == old(panel)@.push(schema_item(language, schema_version, supported)),
{
    panel.explain(
        ItemKind::Fixed { value: schema_version as u64 },
        language.phrase(SCHEMA_LABEL),
        fill(language.phrase(SCHEMA_HELP), &Blanks::new().number(supported as u64)).as_str(),
    );
}

fn put_level_note(panel: &mut Panel<Field>, language: Language, level: LoggingLevel)
    ensures
        final(panel)@ == old(panel)@.push(level_note(language, level)),
{
    match level {
        LoggingLevel::Off => put_label(panel, language, LOGGING_OFF_NOTE),
        LoggingLevel::Normal => put_label(panel, language, LOGGING_NORMAL_NOTE),
        LoggingLevel::Trace => panel.say(ItemKind::Warning, language.phrase(LOGGING_TRACE_NOTE)),
    }
}

/// A physical core by its group and its number in it.
#[derive(Debug, Clone, Copy, PartialEq, Eq, Structural)]
pub struct PhysicalCore {
    pub group: u16,
    pub core_index: u32,
}

/// What the service says of the reserve.
#[derive(Debug)]
pub struct ReserveStatus {
    pub physical_core_count: u64,
    pub reserved_cores: Vec<PhysicalCore>,
    pub reserved_cpu_sets: u64,
    pub covered_llc_domains: u64,
    pub latency_guard: bool,
    pub window_samples: u64,
    pub p95_lateness_us: u64,
    pub p99_lateness_us: u64,
    pub maximum_lateness_us: u64,
    pub maximum_dpc_time_bps: u32,
    pub maximum_interrupt_time_bps: u32,
    pub memory_profile_physical_cores: u16,
    pub pressure: ResponsivenessPressure,
    pub last_adjustment: Option<String>,
}

/// What the service says of the reserve, with its text as a sequence.
#[verifier::ext_equal]
pub struct ReserveStatusView {
    pub physical_core_count: u64,
    pub reserved_cores: Seq<PhysicalCore>,
    pub reserved_cpu_sets: u64,
    pub covered_llc_domains: u64,
    pub latency_guard: bool,
    pub window_samples: u64,
    pub p95_lateness_us: u64,
    pub p99_lateness_us: u64,
    pub maximum_lateness_us: u64,
    pub maximum_dpc_time_bps: u32,
    pub maximum_interrupt_time_bps: u32,
    pub memory_profile_physical_cores: u16,
    pub pressure: ResponsivenessPressure,
    pub last_adjustment: Option<Seq<char>>,
}

impl View for ReserveStatus {
    type V = ReserveStatusView;

    open spec fn view(&self) -> ReserveStatusView {
        ReserveStatusView {
            physical_core_count: self.physical_core_count,
            reserved_cores: self.reserved_cores@,
            reserved_cpu_sets: self.reserved_cpu_sets,
            covered_llc_domains: self.covered_llc_domains,
            latency_guard: self.latency_guard,
            window_samples: self.window_samples,
            p95_lateness_us: self.p95_lateness_us,
            p99_lateness_us: self.p99_lateness_us,
            maximum_lateness_us: self.maximum_lateness_us,
            maximum_dpc_time_bps: self.maximum_dpc_time_bps,
            maximum_interrupt_time_bps: self.maximum_interrupt_time_bps,
            memory_profile_physical_cores: self.memory_profile_physical_cores,
            pressure: self.pressure,
            last_adjustment: self.last_adjustment.deep_view(),
        }
    }
}

/// One core in words.
pub open spec fn one_core(core: PhysicalCore) -> Seq<char> {
    "G"@ + crate::text::decimal(core.group as nat) + ":C"@ + crate::text::decimal(
        core.core_index as nat,
    )
}

/// Cores in words, with commas between them.
pub open spec fn core_words(cores: Seq<PhysicalCore>) -> Seq<char>
    decreases cores.len(),
{
    if cores.len() == 0 {
        ""@
    } else if cores.len() == 1 {
        one_core(cores[0])
    } else {
        core_words(cores.drop_last()) + ", "@ + one_core(cores.last())
    }
}

fn core_text(cores: &Vec<PhysicalCore>) -> (text: String)
    ensures
        text@ == core_words(cores@),
{
    let mut text = "".to_owned();
    let mut at: usize = 0;
    while at < cores.len()
        invariant
            at <= cores.len(),
            text@ == core_words(cores@.take(at as int)),
        decreases cores.len() - at,
    {
        if at > 0 {
            text.append(", ");
        }
        let ghost before = text@;
        text.append("G");
        push_decimal(&mut text, cores[at].group as u64);
        text.append(":C");
        push_decimal(&mut text, cores[at].core_index as u64);
        proof {
            let more = cores@.take(at + 1);
            assert(more.drop_last() =~= cores@.take(at as int));
            assert(more.last() == cores@[at as int]);
            assert(text@ =~= before + one_core(cores@[at as int]));
            if at == 0 {
                reveal_strlit("");
                assert(more.len() == 1);
                assert(text@ =~= one_core(cores@[0]));
            }
        }
        at = at + 1;
    }
    proof {
        assert(cores@.take(at as int) =~= cores@);
    }
    text
}

/// Whether the latency guard watches, in a word.
pub open spec fn guard_word(language: Language, on: bool) -> Seq<char> {
    if on {
        language.said("enabled"@, "включён"@)
    } else {
        language.said("disabled"@, "выключен"@)
    }
}

fn guard_text(language: Language, on: bool) -> (text: &'static str)
    ensures
        text@ == guard_word(language, on),
{
    if on {
        language.text("enabled", "включён")
    } else {
        language.text("disabled", "выключен")
    }
}

/// The pressure on responsiveness, in words.
pub open spec fn pressure_word(language: Language, pressure: ResponsivenessPressure) -> Seq<char> {
    match pressure {
        ResponsivenessPressure::Unknown => language.said("unknown"@, "нет данных"@),
        ResponsivenessPressure::Normal => language.said("normal"@, "норма"@),
        ResponsivenessPressure::Elevated => language.said("elevated"@, "повышено"@),
    }
}

fn pressure_text(language: Language, pressure: ResponsivenessPressure) -> (text: &'static str)
    ensures
        text@ == pressure_word(language, pressure),
{
    match pressure {
        ResponsivenessPressure::Unknown => language.text("unknown", "нет данных"),
        ResponsivenessPressure::Normal => language.text("normal", "норма"),
        ResponsivenessPressure::Elevated => language.text("elevated", "повышено"),
    }
}

/// Whether the memory is watched, in a word.
pub open spec fn monitor_word(language: Language, available: bool) -> Seq<char> {
    if available {
        language.said("available"@, "доступен"@)
    } else {
        language.said("unavailable"@, "недоступен"@)
    }
}

fn monitor_text(language: Language, available: bool) -> (text: &'static str)
    ensures
        text@ == monitor_word(language, available),
{
    if available {
        language.text("available", "доступен")
    } else {
        language.text("unavailable", "недоступен")
    }
}

/// Whether memory is short, in words.
pub open spec fn memory_word(language: Language, low: bool) -> Seq<char> {
    if low {
        language.said("low memory"@, "нехватка памяти"@)
    } else {
        language.said("normal"@, "норма"@)
    }
}

fn memory_text(language: Language, low: bool) -> (text: &'static str)
    ensures
        text@ == memory_word(language, low),
{
    if low {
        language.text("low memory", "нехватка памяти")
    } else {
        language.text("normal", "норма")
    }
}

/// What the process of the service has used.
#[derive(Debug, Clone, Copy, PartialEq, Eq, Structural)]
pub struct ServiceProcessUse {
    pub cpu_time_100ns: u64,
    pub uptime_ms: u64,
    pub working_set_bytes: u64,
}

/// What the service says of its own work.
#[derive(Debug, Clone, Copy, PartialEq, Eq, Structural)]
pub struct ServiceTelemetry {
    pub evaluation: EvaluationTelemetry,
    pub records_written: u64,
    pub bytes_written: u64,
    pub write_errors: u64,
    pub status_writes: u64,
    pub placement_attempted: u64,
    pub placement_succeeded: u64,
    pub placement_failed: u64,
    pub background_attempted: u64,
    pub background_succeeded: u64,
    pub background_failed: u64,
    pub service_process: Option<ServiceProcessUse>,
}

/// The share of one processor that the service used, in basis points.
pub open spec fn one_core_share(process: ServiceProcessUse) -> u64 {
    if process.uptime_ms == 0 {
        0
    } else {
        process.cpu_time_100ns / process.uptime_ms
    }
}

fn one_core_bps(process: &ServiceProcessUse) -> (share: u64)
    ensures
        share == one_core_share(*process),
{
    if process.uptime_ms == 0 {
        0
    } else {
        process.cpu_time_100ns / process.uptime_ms
    }
}

/// A number of bytes in mebibytes, rounded up.
pub open spec fn mebibytes_up(bytes: u64) -> u64 {
    if bytes % 1_048_576 == 0 {
        bytes / 1_048_576
    } else {
        (bytes / 1_048_576 + 1) as u64
    }
}

fn round_up_to_mebibytes(bytes: u64) -> (mebibytes: u64)
    ensures
        mebibytes == mebibytes_up(bytes),
{
    if bytes % 1_048_576 == 0 {
        bytes / 1_048_576
    } else {
        bytes / 1_048_576 + 1
    }
}

/// The page on the controller as a whole.
pub open spec fn general_items(
    language: Language,
    values: ControllerValues,
    limits: EditorLimits,
    tray_autostart: bool,
    supported_schema: u32,
) -> Seq<ItemView<Field>> {
    let panel = Seq::empty();
    let panel = panel.push(heading(language, CONTROLLER_HEADING));
    let panel = panel.push(label(language, CONTROLLER_INTRO));
    let panel = panel.push(
        crate::panel::explained(
            ItemKind::Strong,
            language.words(CONTROLLER_MODE),
            language.words(CONTROLLER_HELP),
        ),
    );
    let panel = panel.push(
        option(
            Field::ControllerMode,
            0,
            values.controller_mode == ControllerMode::Off,
            language,
            MODE_OFF,
            CONTROLLER_HELP,
        ),
    );
    let panel = panel.push(
        option(
            Field::ControllerMode,
            1,
            values.controller_mode == ControllerMode::Observe,
            language,
            MODE_OBSERVE,
            CONTROLLER_HELP,
        ),
    );
    let panel = panel.push(
        option(
            Field::ControllerMode,
            2,
            values.controller_mode == ControllerMode::Auto,
            language,
            MODE_AUTO,
            CONTROLLER_HELP,
        ),
    );
    let panel = panel.push(schema_item(language, values.schema_version, supported_schema));
    let panel = panel.push(
        number(
            values,
            limits,
            Field::SampleInterval,
            true,
            language,
            SAMPLE_LABEL,
            SAMPLE_HELP,
            NO_UNIT,
        ),
    );
    let panel = panel.push(
        number(
            values,
            limits,
            Field::MinimumUtilization,
            true,
            language,
            UTILIZATION_LABEL,
            UTILIZATION_HELP,
            NO_UNIT,
        ),
    );
    let panel = panel.push(note(language, DEFAULT_MODE_LABEL, RULE_MODE_HELP));
    let panel = panel.push(
        picker(
            Field::DefaultRuleMode,
            language,
            DEFAULT_MODE_LABEL,
            RULE_MODE_HELP,
            crate::rules::mode_name(values.default_rule_mode, language),
        ),
    );
    let panel = panel.push(note(language, DEFAULT_PROFILE_LABEL, WORKLOAD_PROFILE_HELP));
    let panel = panel.push(
        picker(
            Field::DefaultWorkloadProfile,
            language,
            DEFAULT_PROFILE_LABEL,
            WORKLOAD_PROFILE_HELP,
            crate::rules::profile_name(values.default_workload_profile, language),
        ),
    );
    let panel = panel.push(
        switch(
            Field::AllUserProcesses,
            values.all_user_processes,
            true,
            language,
            ALL_PROCESSES,
            ALL_PROCESSES_HELP,
        ),
    );
    let panel = panel.push(note(language, ALL_PROCESSES_NOTE, ALL_PROCESSES_HELP));
    let panel = panel.push(
        switch(Field::TrayAutostart, tray_autostart, true, language, AUTOSTART, AUTOSTART_HELP),
    );
    let panel = panel.push(note(language, AUTOSTART_NOTE, AUTOSTART_HELP));
    panel
}

/// The page on the controller as a whole.
pub fn general_tab(
    language: Language,
    values: &ControllerValues,
    limits: &EditorLimits,
    tray_autostart: bool,
    supported_schema: u32,
) -> (panel: Panel<Field>)
    ensures
        panel@ == general_items(language, *values, *limits, tray_autostart, supported_schema),
{
    let mut panel: Panel<Field> = Panel::new();
    put_heading(&mut panel, language, CONTROLLER_HEADING);
    put_label(&mut panel, language, CONTROLLER_INTRO);
    panel.explain(
        ItemKind::Strong,
        language.phrase(CONTROLLER_MODE),
        language.phrase(CONTROLLER_HELP),
    );
    put_option(
        &mut panel,
        Field::ControllerMode,
        0,
        values.controller_mode == ControllerMode::Off,
        language,
        MODE_OFF,
        CONTROLLER_HELP,
    );
    put_option(
        &mut panel,
        Field::ControllerMode,
        1,
        values.controller_mode == ControllerMode::Observe,
        language,
        MODE_OBSERVE,
        CONTROLLER_HELP,
    );
    put_option(
        &mut panel,
        Field::ControllerMode,
        2,
        values.controller_mode == ControllerMode::Auto,
        language,
        MODE_AUTO,
        CONTROLLER_HELP,
    );
    put_schema(&mut panel, language, values.schema_version, supported_schema);
    put_number(
        &mut panel,
        values,
        limits,
        Field::SampleInterval,
        true,
        language,
        SAMPLE_LABEL,
        SAMPLE_HELP,
        NO_UNIT,
    );
    put_number(
        &mut panel,
        values,
        limits,
        Field::MinimumUtilization,
        true,
        language,
        UTILIZATION_LABEL,
        UTILIZATION_HELP,
        NO_UNIT,
    );
    put_note(&mut panel, language, DEFAULT_MODE_LABEL, RULE_MODE_HELP);
    put_picker(
        &mut panel,
        Field::DefaultRuleMode,
        language,
        DEFAULT_MODE_LABEL,
        RULE_MODE_HELP,
        rule_mode_name(values.default_rule_mode, language),
    );
    put_note(&mut panel, language, DEFAULT_PROFILE_LABEL, WORKLOAD_PROFILE_HELP);
    put_picker(
        &mut panel,
        Field::DefaultWorkloadProfile,
        language,
        DEFAULT_PROFILE_LABEL,
        WORKLOAD_PROFILE_HELP,
        workload_profile_name(values.default_workload_profile, language),
    );
    put_switch(
        &mut panel,
        Field::AllUserProcesses,
        values.all_user_processes,
        true,
        language,
        ALL_PROCESSES,
        ALL_PROCESSES_HELP,
    );
    put_note(&mut panel, language, ALL_PROCESSES_NOTE, ALL_PROCESSES_HELP);
    put_switch(
        &mut panel,
        Field::TrayAutostart,
        tray_autostart,
        true,
        language,
        AUTOSTART,
        AUTOSTART_HELP,
    );
    put_note(&mut panel, language, AUTOSTART_NOTE, AUTOSTART_HELP);
    panel
}

/// The page on the placement policy.
pub open spec fn adaptive_items(
    language: Language,
    values: ControllerValues,
    limits: EditorLimits,
) -> Seq<ItemView<Field>> {
    let panel = Seq::empty();
    let panel = panel.push(heading(language, ADAPTIVE_HEADING));
    let panel = panel.push(label(language, ADAPTIVE_INTRO));
    let panel = panel.push(
        row(
            values,
            limits,
            Field::OverloadThreshold,
            true,
            language,
            OVERLOAD_LABEL,
            OVERLOAD_HELP,
            NO_UNIT,
        ),
    );
    let panel = panel.push(
        row(
            values,
            limits,
            Field::MinimumImprovement,
            true,
            language,
            IMPROVEMENT_LABEL,
            IMPROVEMENT_HELP,
            NO_UNIT,
        ),
    );
    let panel = panel.push(
        row(
            values,
            limits,
            Field::StabilitySamples,
            true,
            language,
            STABILITY_LABEL,
            STABILITY_HELP,
            NO_UNIT,
        ),
    );
    let panel = panel.push(
        row(
            values,
            limits,
            Field::MinimumResidency,
            true,
            language,
            RESIDENCY_LABEL,
            RESIDENCY_HELP,
            NO_UNIT,
        ),
    );
    let panel = panel.push(
        row(
            values,
            limits,
            Field::Cooldown,
            true,
            language,
            COOLDOWN_LABEL,
            COOLDOWN_HELP,
            NO_UNIT,
        ),
    );
    let panel = panel.push(
        row(
            values,
            limits,
            Field::MaxMutations,
            true,
            language,
            MUTATIONS_LABEL,
            MUTATIONS_HELP,
            NO_UNIT,
        ),
    );
    panel
}

/// The page on the placement policy.
pub fn adaptive_tab(
    language: Language,
    values: &ControllerValues,
    limits: &EditorLimits,
) -> (panel: Panel<Field>)
    ensures
        panel@ == adaptive_items(language, *values, *limits),
{
    let mut panel: Panel<Field> = Panel::new();
    put_heading(&mut panel, language, ADAPTIVE_HEADING);
    put_label(&mut panel, language, ADAPTIVE_INTRO);
    put_row(
        &mut panel,
        values,
        limits,
        Field::OverloadThreshold,
        true,
        language,
        OVERLOAD_LABEL,
        OVERLOAD_HELP,
        NO_UNIT,
    );
    put_row(
        &mut panel,
        values,
        limits,
        Field::MinimumImprovement,
        true,
        language,
        IMPROVEMENT_LABEL,
        IMPROVEMENT_HELP,
        NO_UNIT,
    );
    put_row(
        &mut panel,
        values,
        limits,
        Field::StabilitySamples,
        true,
        language,
        STABILITY_LABEL,
        STABILITY_HELP,
        NO_UNIT,
    );
    put_row(
        &mut panel,
        values,
        limits,
        Field::MinimumResidency,
        true,
        language,
        RESIDENCY_LABEL,
        RESIDENCY_HELP,
        NO_UNIT,
    );
    put_row(
        &mut panel,
        values,
        limits,
        Field::Cooldown,
        true,
        language,
        COOLDOWN_LABEL,
        COOLDOWN_HELP,
        NO_UNIT,
    );
    put_row(
        &mut panel,
        values,
        limits,
        Field::MaxMutations,
        true,
        language,
        MUTATIONS_LABEL,
        MUTATIONS_HELP,
        NO_UNIT,
    );
    panel
}

/// The page on the event log.
pub open spec fn logging_items(
    language: Language,
    values: ControllerValues,
    limits: EditorLimits,
    log_path: Seq<char>,
) -> Seq<ItemView<Field>> {
    let level = values.logging.level;
    let enabled = level != LoggingLevel::Off;
    let files = values.logging.retained_archives + 1;
    let panel = Seq::empty();
    let panel = panel.push(heading(language, LOGGING_HEADING));
    let panel = panel.push(label(language, LOGGING_INTRO));
    let panel = panel.push(note(language, LOGGING_LEVEL, LOGGING_HELP));
    let panel = panel.push(
        option(
            Field::LoggingLevel,
            0,
            level == LoggingLevel::Off,
            language,
            LEVEL_OFF,
            LOGGING_HELP,
        ),
    );
    let panel = panel.push(
        option(
            Field::LoggingLevel,
            1,
            level == LoggingLevel::Normal,
            language,
            LEVEL_NORMAL,
            LOGGING_HELP,
        ),
    );
    let panel = panel.push(
        option(
            Field::LoggingLevel,
            2,
            level == LoggingLevel::Trace,
            language,
            LEVEL_TRACE,
            LOGGING_HELP,
        ),
    );
    let panel = panel.push(note(language, LOG_PATH_NOTE, LOGGING_HELP));
    let panel = panel.push(crate::panel::saying(ItemKind::Code, log_path));
    let panel = panel.push(level_note(language, level));
    let panel = panel.push(
        row(
            values,
            limits,
            Field::LogSize,
            enabled,
            language,
            LOG_SIZE_LABEL,
            LOG_SIZE_HELP,
            MEBIBYTE_UNIT,
        ),
    );
    let panel = panel.push(
        row(
            values,
            limits,
            Field::LogArchives,
            enabled,
            language,
            LOG_ARCHIVES_LABEL,
            LOG_ARCHIVES_HELP,
            NO_UNIT,
        ),
    );
    let panel = panel.push(
        sentence(
            language,
            LOG_STORAGE,
            Seq::empty()
                .push(crate::text::decimal((values.logging.max_file_size_mib * files) as nat))
                .push(crate::text::decimal(values.logging.max_file_size_mib as nat))
                .push(crate::text::decimal(files as nat)),
        ),
    );
    let panel = panel.push(label(language, EMERGENCY_NOTE));
    panel
}

/// The page on the event log.
pub fn logging_tab(
    language: Language,
    values: &ControllerValues,
    limits: &EditorLimits,
    log_path: &str,
) -> (panel: Panel<Field>)
    ensures
        panel@ == logging_items(language, *values, *limits, log_path@),
{
    let level = values.logging.level;
    let enabled = level != LoggingLevel::Off;
    let files: u64 = values.logging.retained_archives as u64 + 1;
    let size: u64 = values.logging.max_file_size_mib as u64;
    proof {
        assert(size * files <= 0xffff * 256) by (nonlinear_arith)
            requires
                size <= 0xffff,
                files <= 256,
        ;
    }
    let mut panel: Panel<Field> = Panel::new();
    put_heading(&mut panel, language, LOGGING_HEADING);
    put_label(&mut panel, language, LOGGING_INTRO);
    put_note(&mut panel, language, LOGGING_LEVEL, LOGGING_HELP);
    put_option(
        &mut panel,
        Field::LoggingLevel,
        0,
        level == LoggingLevel::Off,
        language,
        LEVEL_OFF,
        LOGGING_HELP,
    );
    put_option(
        &mut panel,
        Field::LoggingLevel,
        1,
        level == LoggingLevel::Normal,
        language,
        LEVEL_NORMAL,
        LOGGING_HELP,
    );
    put_option(
        &mut panel,
        Field::LoggingLevel,
        2,
        level == LoggingLevel::Trace,
        language,
        LEVEL_TRACE,
        LOGGING_HELP,
    );
    put_note(&mut panel, language, LOG_PATH_NOTE, LOGGING_HELP);
    panel.say(ItemKind::Code, log_path);
    put_level_note(&mut panel, language, level);
    put_row(
        &mut panel,
        values,
        limits,
        Field::LogSize,
        enabled,
        language,
        LOG_SIZE_LABEL,
        LOG_SIZE_HELP,
        MEBIBYTE_UNIT,
    );
    put_row(
        &mut panel,
        values,
        limits,
        Field::LogArchives,
        enabled,
        language,
        LOG_ARCHIVES_LABEL,
        LOG_ARCHIVES_HELP,
        NO_UNIT,
    );
    put_sentence(
        &mut panel,
        language,
        LOG_STORAGE,
        &Blanks::new().number((size * files) as u64).number(size as u64).number(files as u64),
    );
    put_label(&mut panel, language, EMERGENCY_NOTE);
    panel
}

/// The controls of the system reserve.
pub open spec fn reserve_items(
    language: Language,
    values: ControllerValues,
    limits: EditorLimits,
) -> Seq<ItemView<Field>> {
    let enabled = values.responsiveness.enabled;
    let panel = Seq::empty();
    let panel = panel.push(heading(language, RESERVE_HEADING));
    let panel = panel.push(label(language, RESERVE_INTRO));
    let panel = panel.push(
        switch(Field::Responsiveness, enabled, true, language, RESERVE_TOGGLE, RESERVE_HELP),
    );
    let panel = panel.push(note(language, RESERVE_NOTE, RESERVE_HELP));
    let panel = panel.push(
        row(
            values,
            limits,
            Field::ReservePercent,
            enabled,
            language,
            PERCENT_LABEL,
            PERCENT_HELP,
            PERCENT_UNIT,
        ),
    );
    let panel = panel.push(
        row(
            values,
            limits,
            Field::MinimumReservedCores,
            enabled,
            language,
            MIN_RESERVED_LABEL,
            MIN_RESERVED_HELP,
            NO_UNIT,
        ),
    );
    let panel = panel.push(
        row(
            values,
            limits,
            Field::MaximumReservedCores,
            enabled,
            language,
            MAX_RESERVED_LABEL,
            MAX_RESERVED_HELP,
            NO_UNIT,
        ),
    );
    let panel = panel.push(
        switch(
            Field::LatencyGuard,
            values.responsiveness.latency_guard_enabled,
            enabled,
            language,
            GUARD_TOGGLE,
            GUARD_HELP,
        ),
    );
    let panel = panel.push(
        row(
            values,
            limits,
            Field::LatencyTarget,
            enabled,
            language,
            TARGET_LABEL,
            TARGET_HELP,
            NO_UNIT,
        ),
    );
    let panel = panel.push(
        row(
            values,
            limits,
            Field::LatencyRecovery,
            enabled,
            language,
            RECOVERY_LABEL,
            RECOVERY_HELP,
            NO_UNIT,
        ),
    );
    let panel = panel.push(
        row(
            values,
            limits,
            Field::AdjustmentSamples,
            enabled,
            language,
            ADJUSTMENT_LABEL,
            ADJUSTMENT_HELP,
            NO_UNIT,
        ),
    );
    panel
}

/// The controls of the system reserve.
pub fn responsiveness_reserve_controls(
    language: Language,
    values: &ControllerValues,
    limits: &EditorLimits,
) -> (panel: Panel<Field>)
    ensures
        panel@ == reserve_items(language, *values, *limits),
{
    let enabled = values.responsiveness.enabled;
    let mut panel: Panel<Field> = Panel::new();
    put_heading(&mut panel, language, RESERVE_HEADING);
    put_label(&mut panel, language, RESERVE_INTRO);
    put_switch(
        &mut panel,
        Field::Responsiveness,
        enabled,
        true,
        language,
        RESERVE_TOGGLE,
        RESERVE_HELP,
    );
    put_note(&mut panel, language, RESERVE_NOTE, RESERVE_HELP);
    put_row(
        &mut panel,
        values,
        limits,
        Field::ReservePercent,
        enabled,
        language,
        PERCENT_LABEL,
        PERCENT_HELP,
        PERCENT_UNIT,
    );
    put_row(
        &mut panel,
        values,
        limits,
        Field::MinimumReservedCores,
        enabled,
        language,
        MIN_RESERVED_LABEL,
        MIN_RESERVED_HELP,
        NO_UNIT,
    );
    put_row(
        &mut panel,
        values,
        limits,
        Field::MaximumReservedCores,
        enabled,
        language,
        MAX_RESERVED_LABEL,
        MAX_RESERVED_HELP,
        NO_UNIT,
    );
    put_switch(
        &mut panel,
        Field::LatencyGuard,
        values.responsiveness.latency_guard_enabled,
        enabled,
        language,
        GUARD_TOGGLE,
        GUARD_HELP,
    );
    put_row(
        &mut panel,
        values,
        limits,
        Field::LatencyTarget,
        enabled,
        language,
        TARGET_LABEL,
        TARGET_HELP,
        NO_UNIT,
    );
    put_row(
        &mut panel,
        values,
        limits,
        Field::LatencyRecovery,
        enabled,
        language,
        RECOVERY_LABEL,
        RECOVERY_HELP,
        NO_UNIT,
    );
    put_row(
        &mut panel,
        values,
        limits,
        Field::AdjustmentSamples,
        enabled,
        language,
        ADJUSTMENT_LABEL,
        ADJUSTMENT_HELP,
        NO_UNIT,
    );
    panel
}

/// The controls of the profile for memory-bound work.
pub open spec fn memory_items(
    language: Language,
    values: ControllerValues,
    limits: EditorLimits,
) -> Seq<ItemView<Field>> {
    let enabled = values.responsiveness.enabled;
    let panel = Seq::empty();
    let panel = panel.push(heading(language, MEMORY_HEADING));
    let panel = panel.push(
        switch(
            Field::MemorySmt,
            values.responsiveness.memory_use_smt,
            enabled,
            language,
            SMT_TOGGLE,
            SMT_HELP,
        ),
    );
    let panel = panel.push(note(language, SMT_NOTE, SMT_HELP));
    let panel = panel.push(
        row(
            values,
            limits,
            Field::MemoryMinimumCores,
            enabled,
            language,
            MEMORY_MIN_LABEL,
            MEMORY_MIN_HELP,
            NO_UNIT,
        ),
    );
    let panel = panel.push(
        row(
            values,
            limits,
            Field::MemoryMaximumCores,
            enabled,
            language,
            MEMORY_MAX_LABEL,
            MEMORY_MAX_HELP,
            NO_UNIT,
        ),
    );
    let panel = panel.push(
        row(
            values,
            limits,
            Field::MemoryResizeCooldown,
            enabled,
            language,
            RESIZE_LABEL,
            RESIZE_HELP,
            NO_UNIT,
        ),
    );
    panel
}

/// The controls of the profile for memory-bound work.
pub fn responsiveness_memory_controls(
    language: Language,
    values: &ControllerValues,
    limits: &EditorLimits,
) -> (panel: Panel<Field>)
    ensures
        panel@ == memory_items(language, *values, *limits),
{
    let enabled = values.responsiveness.enabled;
    let mut panel: Panel<Field> = Panel::new();
    put_heading(&mut panel, language, MEMORY_HEADING);
    put_switch(
        &mut panel,
        Field::MemorySmt,
        values.responsiveness.memory_use_smt,
        enabled,
        language,
        SMT_TOGGLE,
        SMT_HELP,
    );
    put_note(&mut panel, language, SMT_NOTE, SMT_HELP);
    put_row(
        &mut panel,
        values,
        limits,
        Field::MemoryMinimumCores,
        enabled,
        language,
        MEMORY_MIN_LABEL,
        MEMORY_MIN_HELP,
        NO_UNIT,
    );
    put_row(
        &mut panel,
        values,
        limits,
        Field::MemoryMaximumCores,
        enabled,
        language,
        MEMORY_MAX_LABEL,
        MEMORY_MAX_HELP,
        NO_UNIT,
    );
    put_row(
        &mut panel,
        values,
        limits,
        Field::MemoryResizeCooldown,
        enabled,
        language,
        RESIZE_LABEL,
        RESIZE_HELP,
        NO_UNIT,
    );
    panel
}

/// What the service says of the reserve.
pub open spec fn reserve_status_items(
    language: Language,
    status: ReserveStatusView,
) -> Seq<ItemView<Field>> {
    let panel = Seq::empty();
    let panel = panel.push(
        sentence(
            language,
            PLAN_CORES,
            Seq::empty()
                .push(crate::text::decimal(status.physical_core_count as nat))
                .push(crate::text::decimal(status.reserved_cores.len() as nat))
                .push(crate::text::decimal(status.reserved_cpu_sets as nat))
                .push(crate::text::decimal(status.covered_llc_domains as nat)),
        ),
    );
    let panel = if status.reserved_cores.len() > 0 {
        let panel = panel.push(
            crate::panel::saying(ItemKind::Code, core_words(status.reserved_cores)),
        );
        panel
    } else {
        panel
    };
    let panel = panel.push(
        sentence(
            language,
            PLAN_LATENCY,
            Seq::empty()
                .push(guard_word(language, status.latency_guard))
                .push(crate::text::decimal(status.window_samples as nat))
                .push(crate::text::decimal(status.p95_lateness_us as nat))
                .push(crate::text::decimal(status.p99_lateness_us as nat))
                .push(crate::text::decimal(status.maximum_lateness_us as nat)),
        ),
    );
    let panel = panel.push(
        sentence(
            language,
            PLAN_TELEMETRY,
            Seq::empty()
                .push(crate::template::hundredths(status.maximum_dpc_time_bps as nat))
                .push(crate::template::hundredths(status.maximum_interrupt_time_bps as nat)),
        ),
    );
    let panel = panel.push(
        sentence(
            language,
            PLAN_WIDTH,
            Seq::empty()
                .push(crate::text::decimal(status.memory_profile_physical_cores as nat))
                .push(pressure_word(language, status.pressure)),
        ),
    );
    let panel = match status.last_adjustment {
        Some(adjustment) => panel.push(
            sentence(language, PLAN_ADJUSTMENT, Seq::empty().push(adjustment)),
        ),
        None => panel,
    };
    panel
}

/// What the service says of the reserve.
pub fn reserve_status(language: Language, status: &ReserveStatus) -> (panel: Panel<Field>)
    ensures
        panel@ == reserve_status_items(language, status@),
{
    let mut panel: Panel<Field> = Panel::new();
    put_sentence(
        &mut panel,
        language,
        PLAN_CORES,
        &Blanks::new()
            .number(status.physical_core_count as u64)
            .number(status.reserved_cores.len() as u64)
            .number(status.reserved_cpu_sets as u64)
            .number(status.covered_llc_domains as u64),
    );
    if status.reserved_cores.len() > 0 {
        panel.say(ItemKind::Code, core_text(&status.reserved_cores).as_str());
    }
    put_sentence(
        &mut panel,
        language,
        PLAN_LATENCY,
        &Blanks::new()
            .text(guard_text(language, status.latency_guard))
            .number(status.window_samples as u64)
            .number(status.p95_lateness_us as u64)
            .number(status.p99_lateness_us as u64)
            .number(status.maximum_lateness_us as u64),
    );
    put_sentence(
        &mut panel,
        language,
        PLAN_TELEMETRY,
        &Blanks::new()
            .percent(status.maximum_dpc_time_bps as u64)
            .percent(status.maximum_interrupt_time_bps as u64),
    );
    put_sentence(
        &mut panel,
        language,
        PLAN_WIDTH,
        &Blanks::new()
            .number(status.memory_profile_physical_cores as u64)
            .text(pressure_text(language, status.pressure)),
    );
    if let Some(adjustment) = &status.last_adjustment {
        put_sentence(
            &mut panel,
            language,
            PLAN_ADJUSTMENT,
            &Blanks::new().text(adjustment.as_str()),
        );
    }
    panel
}

/// The controls of the background policies.
pub open spec fn background_items(
    language: Language,
    settings: BackgroundSettings,
) -> Seq<ItemView<Field>> {
    let enabled = settings.enabled;
    let policy = settings.policy;
    let guarded = enabled && policy.memory_priority_enabled;
    let panel = Seq::empty();
    let panel = panel.push(heading(language, BACKGROUND_HEADING));
    let panel = panel.push(label(language, BACKGROUND_SCOPE));
    let panel = panel.push(label(language, BACKGROUND_SIGNALS));
    let panel = panel.push(
        switch(
            Field::BackgroundEfficiency,
            enabled,
            true,
            language,
            BACKGROUND_TOGGLE,
            BACKGROUND_HELP,
        ),
    );
    let panel = panel.push(
        switch(
            Field::EcoQos,
            policy.eco_qos_enabled,
            enabled,
            language,
            ECO_QOS_TOGGLE,
            ECO_QOS_HELP,
        ),
    );
    let panel = panel.push(
        switch(
            Field::MemoryPriority,
            policy.memory_priority_enabled,
            enabled,
            language,
            MEMORY_TOGGLE,
            MEMORY_HELP,
        ),
    );
    let panel = panel.push(
        switch(
            Field::MemoryPressureGuard,
            policy.memory_pressure_guard_enabled,
            guarded,
            language,
            PRESSURE_TOGGLE,
            PRESSURE_HELP,
        ),
    );
    let panel = panel.push(crate::panel::saying(ItemKind::Strong, language.words(GUARDS_TITLE)));
    let panel = panel.push(
        switch(
            Field::ProtectForeground,
            policy.protect_foreground,
            enabled,
            language,
            FOREGROUND_TOGGLE,
            FOREGROUND_HELP,
        ),
    );
    let panel = panel.push(
        switch(
            Field::ProtectVisible,
            policy.protect_visible,
            enabled,
            language,
            VISIBLE_TOGGLE,
            VISIBLE_HELP,
        ),
    );
    let panel = panel.push(
        switch(
            Field::ProtectAudio,
            policy.protect_audio,
            enabled,
            language,
            AUDIO_TOGGLE,
            AUDIO_HELP,
        ),
    );
    panel
}

/// The controls of the background policies.
pub fn background_efficiency_controls(
    language: Language,
    settings: &BackgroundSettings,
) -> (panel: Panel<Field>)
    ensures
        panel@ == background_items(language, *settings),
{
    let enabled = settings.enabled;
    let policy = settings.policy;
    let guarded = enabled && policy.memory_priority_enabled;
    let mut panel: Panel<Field> = Panel::new();
    put_heading(&mut panel, language, BACKGROUND_HEADING);
    put_label(&mut panel, language, BACKGROUND_SCOPE);
    put_label(&mut panel, language, BACKGROUND_SIGNALS);
    put_switch(
        &mut panel,
        Field::BackgroundEfficiency,
        enabled,
        true,
        language,
        BACKGROUND_TOGGLE,
        BACKGROUND_HELP,
    );
    put_switch(
        &mut panel,
        Field::EcoQos,
        policy.eco_qos_enabled,
        enabled,
        language,
        ECO_QOS_TOGGLE,
        ECO_QOS_HELP,
    );
    put_switch(
        &mut panel,
        Field::MemoryPriority,
        policy.memory_priority_enabled,
        enabled,
        language,
        MEMORY_TOGGLE,
        MEMORY_HELP,
    );
    put_switch(
        &mut panel,
        Field::MemoryPressureGuard,
        policy.memory_pressure_guard_enabled,
        guarded,
        language,
        PRESSURE_TOGGLE,
        PRESSURE_HELP,
    );
    panel.say(ItemKind::Strong, language.phrase(GUARDS_TITLE));
    put_switch(
        &mut panel,
        Field::ProtectForeground,
        policy.protect_foreground,
        enabled,
        language,
        FOREGROUND_TOGGLE,
        FOREGROUND_HELP,
    );
    put_switch(
        &mut panel,
        Field::ProtectVisible,
        policy.protect_visible,
        enabled,
        language,
        VISIBLE_TOGGLE,
        VISIBLE_HELP,
    );
    put_switch(
        &mut panel,
        Field::ProtectAudio,
        policy.protect_audio,
        enabled,
        language,
        AUDIO_TOGGLE,
        AUDIO_HELP,
    );
    panel
}

/// What the service says of the background policies.
pub open spec fn background_status_items(
    language: Language,
    status: BackgroundStatusView,
) -> Seq<ItemView<Field>> {
    let panel = Seq::empty();
    let panel = panel.push(
        sentence(
            language,
            LIVE_COUNTS,
            Seq::empty()
                .push(crate::text::decimal(status.eligible_processes as nat))
                .push(crate::text::decimal(status.managed_processes as nat))
                .push(crate::text::decimal(status.protected_processes as nat)),
        ),
    );
    let panel = panel.push(
        sentence(
            language,
            LIVE_SENSORS,
            Seq::empty()
                .push(crate::text::decimal(status.interactive_probe_sessions as nat))
                .push(crate::text::decimal(status.required_probe_sessions as nat))
                .push(monitor_word(language, status.memory_pressure_monitor_available))
                .push(memory_word(language, status.low_memory_condition)),
        ),
    );
    let panel = match status.last_action {
        Some(action) => panel.push(
            sentence(language, LIVE_TRANSITION, Seq::empty().push(action)),
        ),
        None => panel,
    };
    panel
}

/// What the service says of the background policies.
pub fn background_status(
    language: Language,
    status: &BackgroundEfficiencyStatus,
) -> (panel: Panel<Field>)
    ensures
        panel@ == background_status_items(language, status@),
{
    let mut panel: Panel<Field> = Panel::new();
    put_sentence(
        &mut panel,
        language,
        LIVE_COUNTS,
        &Blanks::new()
            .number(status.eligible_processes as u64)
            .number(status.managed_processes as u64)
            .number(status.protected_processes as u64),
    );
    put_sentence(
        &mut panel,
        language,
        LIVE_SENSORS,
        &Blanks::new()
            .number(status.interactive_probe_sessions as u64)
            .number(status.required_probe_sessions as u64)
            .text(monitor_text(language, status.memory_pressure_monitor_available))
            .text(memory_text(language, status.low_memory_condition)),
    );
    if let Some(action) = &status.last_action {
        put_sentence(&mut panel, language, LIVE_TRANSITION, &Blanks::new().text(action.as_str()));
    }
    panel
}

/// What the service says of its own work.
pub open spec fn telemetry_items(
    language: Language,
    telemetry: ServiceTelemetry,
    managed_processes: usize,
) -> Seq<ItemView<Field>> {
    let evaluation = telemetry.evaluation;
    let panel = Seq::empty();
    let panel = panel.push(
        sentence(
            language,
            EVALUATIONS,
            Seq::empty()
                .push(crate::text::decimal(evaluation.completed_total as nat))
                .push(crate::text::decimal(evaluation.window_samples as nat))
                .push(crate::text::decimal(evaluation.last_duration_us as nat))
                .push(crate::text::decimal(evaluation.rolling_mean_us as nat))
                .push(crate::text::decimal(evaluation.rolling_p95_us as nat))
                .push(crate::text::decimal(evaluation.rolling_max_us as nat)),
        ),
    );
    let panel = panel.push(
        sentence(
            language,
            LAST_PASS,
            Seq::empty()
                .push(crate::text::decimal(evaluation.last_scanned_processes as nat))
                .push(crate::text::decimal(evaluation.last_eligible_processes as nat))
                .push(crate::text::decimal(evaluation.last_decisions as nat))
                .push(crate::text::decimal(managed_processes as nat)),
        ),
    );
    let panel = panel.push(
        sentence(
            language,
            LOG_TOTALS,
            Seq::empty()
                .push(crate::text::decimal(telemetry.records_written as nat))
                .push(crate::text::decimal((telemetry.bytes_written / 1024) as nat))
                .push(crate::text::decimal(telemetry.write_errors as nat))
                .push(crate::text::decimal(telemetry.status_writes as nat)),
        ),
    );
    let panel = panel.push(
        sentence(
            language,
            MUTATION_TOTALS,
            Seq::empty()
                .push(crate::text::decimal(telemetry.placement_attempted as nat))
                .push(crate::text::decimal(telemetry.placement_succeeded as nat))
                .push(crate::text::decimal(telemetry.placement_failed as nat))
                .push(crate::text::decimal(telemetry.background_attempted as nat))
                .push(crate::text::decimal(telemetry.background_succeeded as nat))
                .push(crate::text::decimal(telemetry.background_failed as nat)),
        ),
    );
    let panel = match telemetry.service_process {
        Some(process) => panel.push(
            sentence(
                language,
                SERVICE_PROCESS,
                Seq::empty().push(crate::template::hundredths(one_core_share(process) as nat)).push(
                    crate::text::decimal(mebibytes_up(process.working_set_bytes) as nat),
                ).push(crate::text::decimal((process.uptime_ms / 1000) as nat)),
            ),
        ),
        None => panel.push(label(language, SERVICE_PROCESS_UNKNOWN)),
    };
    panel
}

/// What the service says of its own work.
pub fn telemetry_status(
    language: Language,
    telemetry: &ServiceTelemetry,
    managed_processes: usize,
) -> (panel: Panel<Field>)
    ensures
        panel@ == telemetry_items(language, *telemetry, managed_processes),
{
    let evaluation = telemetry.evaluation;
    let mut panel: Panel<Field> = Panel::new();
    put_sentence(
        &mut panel,
        language,
        EVALUATIONS,
        &Blanks::new()
            .number(evaluation.completed_total as u64)
            .number(evaluation.window_samples as u64)
            .number(evaluation.last_duration_us as u64)
            .number(evaluation.rolling_mean_us as u64)
            .number(evaluation.rolling_p95_us as u64)
            .number(evaluation.rolling_max_us as u64),
    );
    put_sentence(
        &mut panel,
        language,
        LAST_PASS,
        &Blanks::new()
            .number(evaluation.last_scanned_processes as u64)
            .number(evaluation.last_eligible_processes as u64)
            .number(evaluation.last_decisions as u64)
            .number(managed_processes as u64),
    );
    put_sentence(
        &mut panel,
        language,
        LOG_TOTALS,
        &Blanks::new()
            .number(telemetry.records_written as u64)
            .number((telemetry.bytes_written / 1024) as u64)
            .number(telemetry.write_errors as u64)
            .number(telemetry.status_writes as u64),
    );
    put_sentence(
        &mut panel,
        language,
        MUTATION_TOTALS,
        &Blanks::new()
            .number(telemetry.placement_attempted as u64)
            .number(telemetry.placement_succeeded as u64)
            .number(telemetry.placement_failed as u64)
            .number(telemetry.background_attempted as u64)
            .number(telemetry.background_succeeded as u64)
            .number(telemetry.background_failed as u64),
    );
    match telemetry.service_process {
        Some(process) => {
            put_sentence(
                &mut panel,
                language,
                SERVICE_PROCESS,
                &Blanks::new().percent(one_core_bps(&process)).number(
                    round_up_to_mebibytes(process.working_set_bytes),
                ).number(process.uptime_ms / 1000),
            );
        },
        None => {
            put_label(&mut panel, language, SERVICE_PROCESS_UNKNOWN);
        },
    }
    panel
}

/// The part of the page on responsiveness that shows what the service does.
pub open spec fn live_reserve_items(
    language: Language,
    status: Option<ReserveStatusView>,
    supported_schema: u32,
) -> Seq<ItemView<Field>> {
    let start = Seq::empty().push(heading(language, PLAN_HEADING));
    match status {
        Some(status) => start + reserve_status_items(language, status),
        None => start.push(
            sentence(
                language,
                PLAN_UNAVAILABLE,
                Seq::empty().push(crate::text::decimal(supported_schema as nat)),
            ),
        ),
    }
}

/// The part of the page on responsiveness that shows what the service does,
/// as far as it says so.
pub fn responsiveness_live_status(
    language: Language,
    status: Option<&ReserveStatus>,
    supported_schema: u32,
) -> (panel: Panel<Field>)
    ensures
        panel@ == live_reserve_items(
            language,
            match status {
                Some(status) => Some(status@),
                None => None,
            },
            supported_schema,
        ),
{
    let mut panel: Panel<Field> = Panel::new();
    put_heading(&mut panel, language, PLAN_HEADING);
    match status {
        Some(status) => {
            panel.append(reserve_status(language, status));
        },
        None => {
            put_sentence(
                &mut panel,
                language,
                PLAN_UNAVAILABLE,
                &Blanks::new().number(supported_schema as u64),
            );
        },
    }
    panel
}

/// The page on the background policies.
pub open spec fn background_page(
    language: Language,
    settings: BackgroundSettings,
    status: Option<BackgroundStatusView>,
    supported_schema: u32,
) -> Seq<ItemView<Field>> {
    let start = background_items(language, settings).push(heading(language, LIVE_HEADING));
    match status {
        Some(status) => start + background_status_items(language, status),
        None => start.push(
            sentence(
                language,
                LIVE_UNAVAILABLE,
                Seq::empty().push(crate::text::decimal(supported_schema as nat)),
            ),
        ),
    }
}

/// The page on the background policies, with what the service says of them.
pub fn background_efficiency_tab(
    language: Language,
    settings: &BackgroundSettings,
    status: Option<&BackgroundEfficiencyStatus>,
    supported_schema: u32,
) -> (panel: Panel<Field>)
    ensures
        panel@ == background_page(
            language,
            *settings,
            match status {
                Some(status) => Some(status@),
                None => None,
            },
            supported_schema,
        ),
{
    let mut panel = background_efficiency_controls(language, settings);
    put_heading(&mut panel, language, LIVE_HEADING);
    match status {
        Some(status) => {
            panel.append(background_status(language, status));
        },
        None => {
            put_sentence(
                &mut panel,
                language,
                LIVE_UNAVAILABLE,
                &Blanks::new().number(supported_schema as u64),
            );
        },
    }
    panel
}

/// What is known of the work of the service.
#[derive(Debug, Clone, Copy, PartialEq, Eq, Structural)]
pub enum ServiceWork {
    /// There is no status of the supported version.
    Unavailable,
    /// The status says nothing of it.
    Unpublished,
    Known { telemetry: ServiceTelemetry, managed_processes: usize },
}

/// The part of the page on diagnostics that shows how the service works.
pub open spec fn efficiency_items(
    language: Language,
    work: ServiceWork,
    supported_schema: u32,
) -> Seq<ItemView<Field>> {
    let start = Seq::empty().push(heading(language, EFFICIENCY_HEADING));
    match work {
        ServiceWork::Unavailable => start.push(
            sentence(
                language,
                EFFICIENCY_UNAVAILABLE,
                Seq::empty().push(crate::text::decimal(supported_schema as nat)),
            ),
        ),
        ServiceWork::Unpublished => start.push(label(language, EFFICIENCY_UNPUBLISHED)),
        ServiceWork::Known { telemetry, managed_processes } => start + telemetry_items(
            language,
            telemetry,
            managed_processes,
        ),
    }
}

/// The part of the page on diagnostics that shows how the service works.
pub fn controller_efficiency_status(
    language: Language,
    work: &ServiceWork,
    supported_schema: u32,
) -> (panel: Panel<Field>)
    ensures
        panel@ == efficiency_items(language, *work, supported_schema),
{
    let mut panel: Panel<Field> = Panel::new();
    put_heading(&mut panel, language, EFFICIENCY_HEADING);
    match work {
        ServiceWork::Unavailable => {
            put_sentence(
                &mut panel,
                language,
                EFFICIENCY_UNAVAILABLE,
                &Blanks::new().number(supported_schema as u64),
            );
        },
        ServiceWork::Unpublished => {
            put_label(&mut panel, language, EFFICIENCY_UNPUBLISHED);
        },
        ServiceWork::Known { telemetry, managed_processes } => {
            panel.append(telemetry_status(language, telemetry, *managed_processes));
        },
    }
    panel
}

/// What is said while a diagnostic runs, with the seconds since its start.
pub fn diagnostic_progress(language: Language, cancelling: bool, elapsed_seconds: &str) -> (text:
    String)
    ensures
        text@ == if cancelling {
            language.words(CANCELLING)
        } else {
            crate::template::filled(
                language.words(COLLECTING),
                Seq::empty().push(elapsed_seconds@),
            )
        },
{
    if cancelling {
        language.phrase(CANCELLING).to_owned()
    } else {
        fill(language.phrase(COLLECTING), &Blanks::new().text(elapsed_seconds))
    }
}

/// What the title line says of unsaved changes.
pub fn save_state_text(state: SaveState, language: Language) -> (text: &'static str)
    ensures
        text@ == language.words(
            match state {
                SaveState::Unsaved => STATE_UNSAVED,
                SaveState::SavedNotTaken => STATE_NOT_TAKEN,
                SaveState::Saved => STATE_SAVED,
            },
        ),
{
    match state {
        SaveState::Unsaved => language.phrase(STATE_UNSAVED),
        SaveState::SavedNotTaken => language.phrase(STATE_NOT_TAKEN),
        SaveState::Saved => language.phrase(STATE_SAVED),
    }
}

/// A question to the user with its two answers.
#[derive(Debug, Clone, Copy)]
pub struct Question {
    pub question: &'static str,
    pub note: &'static str,
    pub yes: &'static str,
    pub no: &'static str,
}

/// What the user is asked: the question, what is said below it, and the two
/// answers.
pub open spec fn question_phrases(confirmation: Confirmation) -> Option<
    (
        (&'static str, &'static str),
        (&'static str, &'static str),
        (&'static str, &'static str),
        (&'static str, &'static str),
    ),
> {
    match confirmation {
        Confirmation::Nothing => None,
        Confirmation::RestoreDefaults => Some(
            (RESTORE_QUESTION, RESTORE_NOTE, RESTORE_YES, RESTORE_NO),
        ),
        Confirmation::CancelChanges => Some(
            (CANCEL_QUESTION, CANCEL_NOTE, CANCEL_YES, KEEP_EDITING),
        ),
        Confirmation::Close => Some((CLOSE_QUESTION, CLOSE_NOTE, CLOSE_YES, KEEP_EDITING)),
    }
}

/// Says what the user is asked, if anything.
pub fn discard_panels(confirmation: Confirmation, language: Language) -> (question: Option<
    Question,
>)
    ensures
        match question_phrases(confirmation) {
            None => question is None,
            Some((asked, note, yes, no)) => question matches Some(question) && question.question@
                == language.words(asked) && question.note@ == language.words(note)
                && question.yes@ == language.words(yes) && question.no@ == language.words(no),
        },
{
    let (asked, note, yes, no) = match confirmation {
        Confirmation::Nothing => {
            return None;
        },
        Confirmation::RestoreDefaults => (
            RESTORE_QUESTION,
            RESTORE_NOTE,
            RESTORE_YES,
            RESTORE_NO,
        ),
        Confirmation::CancelChanges => (CANCEL_QUESTION, CANCEL_NOTE, CANCEL_YES, KEEP_EDITING),
        Confirmation::Close => (CLOSE_QUESTION, CLOSE_NOTE, CLOSE_YES, KEEP_EDITING),
    };
    Some(
        Question {
            question: language.phrase(asked),
            note: language.phrase(note),
            yes: language.phrase(yes),
            no: language.phrase(no),
        },
    )
}

/// While the background policies are off, none of their other switches can be
/// turned, and the memory guard can be turned only where memory priorities
/// are lowered.
pub proof fn disabled_policies_cannot_be_tuned(
    language: Language,
    settings: BackgroundSettings,
    at: int,
)
    requires
        0 <= at < background_items(language, settings).len(),
    ensures
        background_items(language, settings)[at].kind matches ItemKind::Toggle {
            field,
            on,
            enabled,
        } ==> {
            &&& field != Field::BackgroundEfficiency && !settings.enabled ==> !enabled
            &&& field == Field::MemoryPressureGuard && !settings.policy.memory_priority_enabled
                ==> !enabled
        },
{
}

/// While the event log is off, its limits cannot be changed.
pub proof fn disabled_logs_cannot_be_tuned(
    language: Language,
    values: ControllerValues,
    limits: EditorLimits,
    log_path: Seq<char>,
    at: int,
)
    requires
        values.logging.level == LoggingLevel::Off,
        0 <= at < logging_items(language, values, limits, log_path).len(),
    ensures
        logging_items(language, values, limits, log_path)[at].kind matches ItemKind::Row {
            field,
            value,
            min,
            max,
            enabled,
        } ==> !enabled,
{
}

/// Whether a page has an item of a kind with a text.
pub open spec fn shows(page: Seq<ItemView<Field>>, kind: ItemKind<Field>, text: Seq<char>) -> bool {
    exists|i: int| 0 <= i < page.len() && (#[trigger] page[i]).kind == kind && page[i].text == text
}

/// The mode of the controller that is taken is the one that the page shows
/// taken, under the words for it, and the only one.
pub proof fn the_taken_mode_is_shown(
    language: Language,
    values: ControllerValues,
    limits: EditorLimits,
    tray_autostart: bool,
    supported_schema: u32,
    at: u64,
    i: int,
)
    requires
        at < 3,
    ensures
        ({
            let taken = crate::settings_config::with_choice(values, Field::ControllerMode, at);
            let page = general_items(language, taken, limits, tray_autostart, supported_schema);
            let words = language.words(
                if taken.controller_mode == ControllerMode::Off {
                    MODE_OFF
                } else if taken.controller_mode == ControllerMode::Observe {
                    MODE_OBSERVE
                } else {
                    MODE_AUTO
                },
            );
            &&& shows(
                page,
                ItemKind::Choice { field: Field::ControllerMode, at, chosen: true },
                words,
            )
            &&& 0 <= i < page.len() ==> (page[i].kind matches ItemKind::Choice {
                field,
                at: place,
                chosen,
            } ==> field == Field::ControllerMode && chosen == (place == at))
        }),
{
    let taken = crate::settings_config::with_choice(values, Field::ControllerMode, at);
    let page = general_items(language, taken, limits, tray_autostart, supported_schema);
    assert(page[3 + at].kind == (ItemKind::Choice {
        field: Field::ControllerMode,
        at,
        chosen: true,
    }));
}

/// Whether a page offers a place of a choice under a text, taken or not.
pub open spec fn offers_place(
    page: Seq<ItemView<Field>>,
    field: Field,
    at: u64,
    chosen: bool,
    text: Seq<char>,
) -> bool {
    shows(page, ItemKind::Choice { field, at, chosen }, text)
}

/// The words for a mode of the controller lead to that mode: where a place is
/// offered under them, taking it sets the mode, and it is shown taken exactly
/// where the mode holds. Each of the three modes is offered.
pub proof fn modes_stand_under_their_words(
    language: Language,
    values: ControllerValues,
    limits: EditorLimits,
    tray_autostart: bool,
    supported_schema: u32,
    mode: ControllerMode,
) -> (at: u64)
    ensures
        ({
            let page = general_items(language, values, limits, tray_autostart, supported_schema);
            let words = language.words(
                match mode {
                    ControllerMode::Off => MODE_OFF,
                    ControllerMode::Observe => MODE_OBSERVE,
                    ControllerMode::Auto => MODE_AUTO,
                },
            );
            &&& offers_place(
                page,
                Field::ControllerMode,
                at,
                values.controller_mode == mode,
                words,
            )
            &&& crate::settings_config::with_choice(
                values,
                Field::ControllerMode,
                at,
            ).controller_mode == mode
        }),
{
    let page = general_items(language, values, limits, tray_autostart, supported_schema);
    let at: u64 = match mode {
        ControllerMode::Off => 0,
        ControllerMode::Observe => 1,
        ControllerMode::Auto => 2,
    };
    assert(page[3 + at].kind == (ItemKind::Choice {
        field: Field::ControllerMode,
        at,
        chosen: values.controller_mode == mode,
    }));
    at
}

/// The words for a level of the log lead to that level: where a place is
/// offered under them, taking it sets the level, and it is shown taken exactly
/// where the level holds. Each of the three levels is offered.
pub proof fn levels_stand_under_their_words(
    language: Language,
    values: ControllerValues,
    limits: EditorLimits,
    log_path: Seq<char>,
    level: LoggingLevel,
) -> (at: u64)
    ensures
        ({
            let page = logging_items(language, values, limits, log_path);
            let words = language.words(
                match level {
                    LoggingLevel::Off => LEVEL_OFF,
                    LoggingLevel::Normal => LEVEL_NORMAL,
                    LoggingLevel::Trace => LEVEL_TRACE,
                },
            );
            &&& offers_place(
                page,
                Field::LoggingLevel,
                at,
                values.logging.level == level,
                words,
            )
            &&& crate::settings_config::with_choice(
                values,
                Field::LoggingLevel,
                at,
            ).logging.level == level
        }),
{
    let page = logging_items(language, values, limits, log_path);
    let at: u64 = match level {
        LoggingLevel::Off => 0,
        LoggingLevel::Normal => 1,
        LoggingLevel::Trace => 2,
    };
    assert(page[3 + at].kind == (ItemKind::Choice {
        field: Field::LoggingLevel,
        at,
        chosen: values.logging.level == level,
    }));
    at
}

/// The level of the log that is taken is the one that the page shows taken,
/// under the words for it, and the only one; and what is said of it is said
/// of that level.
pub proof fn the_taken_level_is_shown(
    language: Language,
    values: ControllerValues,
    limits: EditorLimits,
    log_path: Seq<char>,
    at: u64,
    i: int,
)
    requires
        at < 3,
    ensures
        ({
            let taken = crate::settings_config::with_choice(values, Field::LoggingLevel, at);
            let page = logging_items(language, taken, limits, log_path);
            let level = taken.logging.level;
            &&& shows(
                page,
                ItemKind::Choice { field: Field::LoggingLevel, at, chosen: true },
                language.words(
                    if level == LoggingLevel::Off {
                        LEVEL_OFF
                    } else if level == LoggingLevel::Normal {
                        LEVEL_NORMAL
                    } else {
                        LEVEL_TRACE
                    },
                ),
            )
            &&& level == LoggingLevel::Off ==> shows(
                page,
                ItemKind::Label,
                language.words(LOGGING_OFF_NOTE),
            )
            &&& level == LoggingLevel::Normal ==> shows(
                page,
                ItemKind::Label,
                language.words(LOGGING_NORMAL_NOTE),
            )
            &&& level == LoggingLevel::Trace ==> shows(
                page,
                ItemKind::Warning,
                language.words(LOGGING_TRACE_NOTE),
            )
            &&& 0 <= i < page.len() ==> (page[i].kind matches ItemKind::Choice {
                field,
                at: place,
                chosen,
            } ==> field == Field::LoggingLevel && chosen == (place == at))
        }),
{
    let taken = crate::settings_config::with_choice(values, Field::LoggingLevel, at);
    let page = logging_items(language, taken, limits, log_path);
    assert(page[3 + at].kind == (ItemKind::Choice {
        field: Field::LoggingLevel,
        at,
        chosen: true,
    }));
    assert(page[8] == level_note(language, taken.logging.level));
}

/// What is picked for processes without a rule is what was offered at that
/// place, and the page names it.
pub proof fn the_picked_defaults_are_shown(
    language: Language,
    values: ControllerValues,
    limits: EditorLimits,
    tray_autostart: bool,
    supported_schema: u32,
    at: u64,
)
    requires
        at < 5,
    ensures
        ({
            let mode = crate::settings_config::with_choice(values, Field::DefaultRuleMode, at);
            let profile = crate::settings_config::with_choice(
                values,
                Field::DefaultWorkloadProfile,
                at,
            );
            &&& mode.default_rule_mode == crate::rules::offered_modes(false)[at as int]
            &&& profile.default_workload_profile == crate::rules::offered_profiles()[at as int]
            &&& shows(
                general_items(language, mode, limits, tray_autostart, supported_schema),
                ItemKind::Picker { field: Field::DefaultRuleMode },
                language.words(DEFAULT_MODE_LABEL) + ": "@ + crate::rules::mode_name(
                    mode.default_rule_mode,
                    language,
                ),
            )
            &&& shows(
                general_items(language, profile, limits, tray_autostart, supported_schema),
                ItemKind::Picker { field: Field::DefaultWorkloadProfile },
                language.words(DEFAULT_PROFILE_LABEL) + ": "@ + crate::rules::profile_name(
                    profile.default_workload_profile,
                    language,
                ),
            )
        }),
{
    let mode = crate::settings_config::with_choice(values, Field::DefaultRuleMode, at);
    let profile = crate::settings_config::with_choice(values, Field::DefaultWorkloadProfile, at);
    assert(general_items(language, mode, limits, tray_autostart, supported_schema)[10].kind == (
    ItemKind::Picker { field: Field::DefaultRuleMode }));
    assert(general_items(language, profile, limits, tray_autostart, supported_schema)[12].kind
        == (ItemKind::Picker { field: Field::DefaultWorkloadProfile }));
}

/// The name of a number or a switch.
pub open spec fn name_of(field: Field) -> (&'static str, &'static str) {
    match field {
        Field::AllUserProcesses => ALL_PROCESSES,
        Field::TrayAutostart => AUTOSTART,
        Field::Responsiveness => RESERVE_TOGGLE,
        Field::LatencyGuard => GUARD_TOGGLE,
        Field::MemorySmt => SMT_TOGGLE,
        Field::BackgroundEfficiency => BACKGROUND_TOGGLE,
        Field::EcoQos => ECO_QOS_TOGGLE,
        Field::MemoryPriority => MEMORY_TOGGLE,
        Field::MemoryPressureGuard => PRESSURE_TOGGLE,
        Field::ProtectForeground => FOREGROUND_TOGGLE,
        Field::ProtectVisible => VISIBLE_TOGGLE,
        Field::ProtectAudio => AUDIO_TOGGLE,
        Field::SampleInterval => SAMPLE_LABEL,
        Field::MinimumUtilization => UTILIZATION_LABEL,
        Field::OverloadThreshold => OVERLOAD_LABEL,
        Field::MinimumImprovement => IMPROVEMENT_LABEL,
        Field::StabilitySamples => STABILITY_LABEL,
        Field::MinimumResidency => RESIDENCY_LABEL,
        Field::Cooldown => COOLDOWN_LABEL,
        Field::MaxMutations => MUTATIONS_LABEL,
        Field::LogSize => LOG_SIZE_LABEL,
        Field::LogArchives => LOG_ARCHIVES_LABEL,
        Field::ReservePercent => PERCENT_LABEL,
        Field::MinimumReservedCores => MIN_RESERVED_LABEL,
        Field::MaximumReservedCores => MAX_RESERVED_LABEL,
        Field::LatencyTarget => TARGET_LABEL,
        Field::LatencyRecovery => RECOVERY_LABEL,
        Field::AdjustmentSamples => ADJUSTMENT_LABEL,
        Field::MemoryMinimumCores => MEMORY_MIN_LABEL,
        Field::MemoryMaximumCores => MEMORY_MAX_LABEL,
        Field::MemoryResizeCooldown => RESIZE_LABEL,
        Field::ControllerMode => CONTROLLER_MODE,
        Field::LoggingLevel => LOGGING_LEVEL,
        Field::DefaultRuleMode => DEFAULT_MODE_LABEL,
        Field::DefaultWorkloadProfile => DEFAULT_PROFILE_LABEL,
    }
}

/// An item shows its setting as it is: a switch is on where the setting is,
/// a number is the number of the setting within its bounds, and both bear the
/// name of the setting.
pub open spec fn shows_its_setting(
    item: ItemView<Field>,
    language: Language,
    values: ControllerValues,
    limits: EditorLimits,
    tray_autostart: bool,
) -> bool {
    match item.kind {
        ItemKind::Toggle { field, on, .. } => {
            &&& on == if field == Field::TrayAutostart {
                tray_autostart
            } else {
                crate::settings_config::switch_of(values, field)
            }
            &&& item.text == language.words(name_of(field))
        },
        ItemKind::Number { field, value, min, max, .. } | ItemKind::Row {
            field,
            value,
            min,
            max,
            ..
        } => {
            &&& value == crate::settings_config::number_of(values, field)
            &&& (min, max) == crate::settings_config::bounds_of(field, limits)
            &&& item.text == language.words(name_of(field))
        },
        _ => true,
    }
}

/// Every switch and every number on the first page shows its setting.
#[verifier::spinoff_prover]
#[verifier::rlimit(40)]
pub proof fn the_general_page_shows_its_settings(
    language: Language,
    values: ControllerValues,
    limits: EditorLimits,
    tray_autostart: bool,
    supported_schema: u32,
    i: int,
)
    requires
        0 <= i < general_items(language, values, limits, tray_autostart, supported_schema).len(),
    ensures
        shows_its_setting(
            general_items(language, values, limits, tray_autostart, supported_schema)[i],
            language,
            values,
            limits,
            tray_autostart,
        ),
{
}

/// Every switch and every number on the page on the adaptive controller shows its setting.
#[verifier::spinoff_prover]
#[verifier::rlimit(40)]
pub proof fn the_adaptive_page_shows_its_settings(
    language: Language,
    values: ControllerValues,
    limits: EditorLimits,
    tray_autostart: bool,
    i: int,
)
    requires
        0 <= i < adaptive_items(language, values, limits).len(),
    ensures
        shows_its_setting(
            adaptive_items(language, values, limits)[i],
            language,
            values,
            limits,
            tray_autostart,
        ),
{
}

/// Every switch and every number on the page on the log shows its setting.
#[verifier::spinoff_prover]
#[verifier::rlimit(40)]
pub proof fn the_logging_page_shows_its_settings(
    language: Language,
    values: ControllerValues,
    limits: EditorLimits,
    tray_autostart: bool,
    log_path: Seq<char>,
    i: int,
)
    requires
        0 <= i < logging_items(language, values, limits, log_path).len(),
    ensures
        shows_its_setting(
            logging_items(language, values, limits, log_path)[i],
            language,
            values,
            limits,
            tray_autostart,
        ),
{
}

/// Every switch and every number on the page on the reserve shows its setting.
#[verifier::spinoff_prover]
#[verifier::rlimit(40)]
pub proof fn the_reserve_page_shows_its_settings(
    language: Language,
    values: ControllerValues,
    limits: EditorLimits,
    tray_autostart: bool,
    i: int,
)
    requires
        0 <= i < reserve_items(language, values, limits).len(),
    ensures
        shows_its_setting(
            reserve_items(language, values, limits)[i],
            language,
            values,
            limits,
            tray_autostart,
        ),
{
}

/// Every switch and every number on the part on memory-bound processes shows its setting.
#[verifier::spinoff_prover]
#[verifier::rlimit(40)]
pub proof fn the_memory_part_shows_its_settings(
    language: Language,
    values: ControllerValues,
    limits: EditorLimits,
    tray_autostart: bool,
    i: int,
)
    requires
        0 <= i < memory_items(language, values, limits).len(),
    ensures
        shows_its_setting(
            memory_items(language, values, limits)[i],
            language,
            values,
            limits,
            tray_autostart,
        ),
{
}

/// Every switch and every number on the page on background processes shows its setting.
#[verifier::spinoff_prover]
#[verifier::rlimit(40)]
pub proof fn the_background_page_shows_its_settings(
    language: Language,
    values: ControllerValues,
    limits: EditorLimits,
    tray_autostart: bool,
    i: int,
)
    requires
        0 <= i < background_items(language, values.background_efficiency).len(),
    ensures
        shows_its_setting(
            background_items(language, values.background_efficiency)[i],
            language,
            values,
            limits,
            tray_autostart,
        ),
{
}

/// Whether a page has an item with which a setting is changed.
pub open spec fn offers(page: Seq<ItemView<Field>>, wanted: Field) -> bool {
    exists|i: int|
        0 <= i < page.len() && match (#[trigger] page[i]).kind {
            ItemKind::Toggle { field, .. } => field == wanted,
            ItemKind::Choice { field, .. } => field == wanted,
            ItemKind::Number { field, .. } => field == wanted,
            ItemKind::Row { field, .. } => field == wanted,
            ItemKind::Picker { field } => field == wanted,
            _ => false,
        }
}

/// Every setting can be changed on the page it belongs to.
pub proof fn every_setting_can_be_changed(
    language: Language,
    values: ControllerValues,
    limits: EditorLimits,
    tray_autostart: bool,
    supported_schema: u32,
    log_path: Seq<char>,
)
    ensures
        ({
            let page = general_items(language, values, limits, tray_autostart, supported_schema);
            &&& offers(page, Field::ControllerMode)
            &&& offers(page, Field::SampleInterval)
            &&& offers(page, Field::MinimumUtilization)
            &&& offers(page, Field::DefaultRuleMode)
            &&& offers(page, Field::DefaultWorkloadProfile)
            &&& offers(page, Field::AllUserProcesses)
            &&& offers(page, Field::TrayAutostart)
        }),
        ({
            let page = adaptive_items(language, values, limits);
            &&& offers(page, Field::OverloadThreshold)
            &&& offers(page, Field::MinimumImprovement)
            &&& offers(page, Field::StabilitySamples)
            &&& offers(page, Field::MinimumResidency)
            &&& offers(page, Field::Cooldown)
            &&& offers(page, Field::MaxMutations)
        }),
        ({
            let page = logging_items(language, values, limits, log_path);
            &&& offers(page, Field::LoggingLevel)
            &&& offers(page, Field::LogSize)
            &&& offers(page, Field::LogArchives)
            &&& shows(page, ItemKind::Code, log_path)
        }),
        ({
            let page = reserve_items(language, values, limits);
            &&& offers(page, Field::Responsiveness)
            &&& offers(page, Field::ReservePercent)
            &&& offers(page, Field::MinimumReservedCores)
            &&& offers(page, Field::MaximumReservedCores)
            &&& offers(page, Field::LatencyGuard)
            &&& offers(page, Field::LatencyTarget)
            &&& offers(page, Field::LatencyRecovery)
            &&& offers(page, Field::AdjustmentSamples)
        }),
        ({
            let page = memory_items(language, values, limits);
            &&& offers(page, Field::MemorySmt)
            &&& offers(page, Field::MemoryMinimumCores)
            &&& offers(page, Field::MemoryMaximumCores)
            &&& offers(page, Field::MemoryResizeCooldown)
        }),
        ({
            let page = background_items(language, values.background_efficiency);
            &&& offers(page, Field::BackgroundEfficiency)
            &&& offers(page, Field::EcoQos)
            &&& offers(page, Field::MemoryPriority)
            &&& offers(page, Field::MemoryPressureGuard)
            &&& offers(page, Field::ProtectForeground)
            &&& offers(page, Field::ProtectVisible)
            &&& offers(page, Field::ProtectAudio)
        }),
{
    let general = general_items(language, values, limits, tray_autostart, supported_schema);
    assert(general[3].kind is Choice);
    assert(general[7].kind is Number);
    assert(general[8].kind is Number);
    assert(general[10].kind is Picker);
    assert(general[12].kind is Picker);
    assert(general[13].kind is Toggle);
    assert(general[15].kind is Toggle);
    let adaptive = adaptive_items(language, values, limits);
    assert(adaptive[2].kind is Row);
    assert(adaptive[3].kind is Row);
    assert(adaptive[4].kind is Row);
    assert(adaptive[5].kind is Row);
    assert(adaptive[6].kind is Row);
    assert(adaptive[7].kind is Row);
    let logging = logging_items(language, values, limits, log_path);
    assert(logging[3].kind is Choice);
    assert(logging[7].kind is Code);
    assert(logging[9].kind is Row);
    assert(logging[10].kind is Row);
    let reserve = reserve_items(language, values, limits);
    assert(reserve[2].kind is Toggle);
    assert(reserve[4].kind is Row);
    assert(reserve[5].kind is Row);
    assert(reserve[6].kind is Row);
    assert(reserve[7].kind is Toggle);
    assert(reserve[8].kind is Row);
    assert(reserve[9].kind is Row);
    assert(reserve[10].kind is Row);
    let memory = memory_items(language, values, limits);
    assert(memory[1].kind is Toggle);
    assert(memory[3].kind is Row);
    assert(memory[4].kind is Row);
    assert(memory[5].kind is Row);
    let background = background_items(language, values.background_efficiency);
    assert(background[3].kind is Toggle);
    assert(background[4].kind is Toggle);
    assert(background[5].kind is Toggle);
    assert(background[6].kind is Toggle);
    assert(background[8].kind is Toggle);
    assert(background[9].kind is Toggle);
    assert(background[10].kind is Toggle);
}

/// What belongs to the reserve and to the memory profile can be changed
/// exactly while the reserve is on; so with the background policies, whose
/// answer to short memory also needs the memory priority; and with the sizes
/// of the log, which need a log.
pub proof fn settings_can_be_changed_where_they_matter(
    language: Language,
    values: ControllerValues,
    limits: EditorLimits,
    log_path: Seq<char>,
    i: int,
)
    ensures
        ({
            let page = reserve_items(language, values, limits);
            0 <= i < page.len() ==> match page[i].kind {
                ItemKind::Toggle { field, enabled, .. } => enabled == (field
                    == Field::Responsiveness || values.responsiveness.enabled),
                ItemKind::Row { enabled, .. } => enabled == values.responsiveness.enabled,
                _ => true,
            }
        }),
        ({
            let page = memory_items(language, values, limits);
            0 <= i < page.len() ==> match page[i].kind {
                ItemKind::Toggle { enabled, .. } | ItemKind::Row { enabled, .. } => enabled
                    == values.responsiveness.enabled,
                _ => true,
            }
        }),
        ({
            let page = background_items(language, values.background_efficiency);
            let on = values.background_efficiency.enabled;
            0 <= i < page.len() ==> (page[i].kind matches ItemKind::Toggle { field, enabled, .. }
                ==> enabled == if field == Field::BackgroundEfficiency {
                true
            } else if field == Field::MemoryPressureGuard {
                on && values.background_efficiency.policy.memory_priority_enabled
            } else {
                on
            })
        }),
        ({
            let page = logging_items(language, values, limits, log_path);
            0 <= i < page.len() ==> (page[i].kind matches ItemKind::Row { enabled, .. } ==> enabled
                == (values.logging.level != LoggingLevel::Off))
        }),
        ({
            let page = adaptive_items(language, values, limits);
            0 <= i < page.len() ==> (page[i].kind matches ItemKind::Row { enabled, .. }
                ==> enabled)
        }),
{
}

/// What stands on the first page matters always, and can always be changed.
#[verifier::spinoff_prover]
pub proof fn general_settings_can_always_be_changed(
    language: Language,
    values: ControllerValues,
    limits: EditorLimits,
    tray_autostart: bool,
    supported_schema: u32,
    i: int,
)
    ensures
        ({
            let page = general_items(language, values, limits, tray_autostart, supported_schema);
            0 <= i < page.len() ==> match page[i].kind {
                ItemKind::Toggle { enabled, .. } => enabled,
                ItemKind::Number { enabled, .. } => enabled,
                ItemKind::Row { enabled, .. } => enabled,
                _ => true,
            }
        }),
{
}

} // verus!
