//! What the passive diagnostics say.
use vstd::prelude::*;

use crate::language::Language;
use crate::template::fill;
use crate::template::hundredths_text;
use crate::template::Blanks;
use crate::text::decimal_text;
use crate::text::push_decimal;

verus! {

/// What a diagnostic can find.
#[derive(Debug, Clone, Copy, PartialEq, Eq, Structural)]
pub enum DiagnosticFindingCode {
    Healthy,
    CpuSaturation,
    SchedulerLatency,
    DpcOrInterruptPressure,
    MemoryPressure,
    ShellLatencyWithSpareCpu,
    ExplorerFanout,
    WslResourcePressure,
    ServiceStatusUnavailable,
}

/// How serious a finding is.
#[derive(Debug, Clone, Copy, PartialEq, Eq, Structural)]
pub enum DiagnosticSeverity {
    Information,
    Warning,
    Critical,
}

pub const HEALTHY_FINDING: (&'static str, &'static str) = (
    "No supported responsiveness pressure signal was detected.",
    "Поддерживаемые признаки давления на отзывчивость не обнаружены.",
);

pub const HEALTHY_ADVICE: (&'static str, &'static str) = (
    "Repeat the diagnostic while the symptom is occurring if delays persist.",
    "Если задержки сохраняются, повторите диагностику непосредственно во время проблемы.",
);

pub const CPU_SATURATION_FINDING: (&'static str, &'static str) = (
    "CPU capacity or runnable-queue pressure is elevated.",
    "Повышена загрузка CPU или очередь готовых потоков.",
);

pub const CPU_SATURATION_ADVICE: (&'static str, &'static str) = (
    "Reduce or contain compute-heavy workloads before changing shell placement.",
    "Сначала ограничьте вычислительные нагрузки, не меняя размещение оболочки.",
);

pub const SCHEDULER_LATENCY_FINDING: (&'static str, &'static str) = (
    "Normal-priority scheduler wake latency is elevated.",
    "Повышена задержка пробуждения потоков обычного приоритета.",
);

pub const SCHEDULER_LATENCY_ADVICE: (&'static str, &'static str) = (
    "Inspect sustained CPU, virtualization, DPC, and interrupt pressure.",
    "Проверьте устойчивую нагрузку CPU, виртуализацию, DPC и прерывания.",
);

pub const DPC_OR_INTERRUPT_PRESSURE_FINDING: (&'static str, &'static str) = (
    "DPC or interrupt processing is elevated.",
    "Повышена нагрузка DPC или аппаратных прерываний.",
);

pub const DPC_OR_INTERRUPT_PRESSURE_ADVICE: (&'static str, &'static str) = (
    "Investigate drivers and devices before applying CPU Set changes.",
    "Проверьте драйверы и устройства до изменения CPU Sets.",
);

pub const MEMORY_PRESSURE_FINDING: (&'static str, &'static str) = (
    "Available physical memory is low.",
    "Доступной физической памяти осталось мало.",
);

pub const MEMORY_PRESSURE_ADVICE: (&'static str, &'static str) = (
    "Reduce memory pressure and inspect hard-fault activity.",
    "Уменьшите давление на память и проверьте hard faults.",
);

pub const SHELL_LATENCY_WITH_SPARE_CPU_FINDING: (&'static str, &'static str) = (
    "The taskbar is slow while CPU capacity remains available.",
    "Панель задач отвечает медленно при наличии свободного CPU.",
);

pub const SHELL_LATENCY_WITH_SPARE_CPU_ADVICE: (&'static str, &'static str) = (
    "Inspect Explorer integrations and GUI clients; more reserved cores are unlikely to help.",
    "Проверьте интеграции Explorer и GUI-клиенты; дополнительный резерв ядер вряд ли поможет.",
);

pub const EXPLORER_FANOUT_FINDING: (&'static str, &'static str) = (
    "Many Explorer processes or folder windows are active.",
    "Активно много процессов Explorer или окон папок.",
);

pub const EXPLORER_FANOUT_ADVICE: (&'static str, &'static str) = (
    "Treat this only as context; test fewer windows or shell extensions without changing SeparateProcess automatically.",
    "Считайте это только контекстом: проверьте меньше окон или расширений, не меняя SeparateProcess автоматически.",
);

pub const WSL_RESOURCE_PRESSURE_FINDING: (&'static str, &'static str) = (
    "WSL is active while the host is under measurable resource pressure.",
    "WSL активен при измеримом давлении ресурсов на хосте.",
);

pub const WSL_RESOURCE_PRESSURE_ADVICE: (&'static str, &'static str) = (
    "Review .wslconfig limits; never apply process CPU Sets to vmmemWSL.",
    "Проверьте ограничения .wslconfig; никогда не применяйте CPU Sets процесса к vmmemWSL.",
);

pub const SERVICE_STATUS_UNAVAILABLE_FINDING: (&'static str, &'static str) = (
    "WinSched service status is unavailable.",
    "Статус службы WinSched недоступен.",
);

pub const SERVICE_STATUS_UNAVAILABLE_ADVICE: (&'static str, &'static str) = (
    "Start or update the service to include live policy context.",
    "Запустите или обновите службу для получения данных действующей политики.",
);

/// What a finding means, and what to do about it, in both languages.
pub open spec fn finding_phrases(code: DiagnosticFindingCode) -> (
    (&'static str, &'static str),
    (&'static str, &'static str),
) {
    match code {
        DiagnosticFindingCode::Healthy => (HEALTHY_FINDING, HEALTHY_ADVICE),
        DiagnosticFindingCode::CpuSaturation => (CPU_SATURATION_FINDING, CPU_SATURATION_ADVICE),
        DiagnosticFindingCode::SchedulerLatency => (SCHEDULER_LATENCY_FINDING, SCHEDULER_LATENCY_ADVICE),
        DiagnosticFindingCode::DpcOrInterruptPressure => (DPC_OR_INTERRUPT_PRESSURE_FINDING, DPC_OR_INTERRUPT_PRESSURE_ADVICE),
        DiagnosticFindingCode::MemoryPressure => (MEMORY_PRESSURE_FINDING, MEMORY_PRESSURE_ADVICE),
        DiagnosticFindingCode::ShellLatencyWithSpareCpu => (SHELL_LATENCY_WITH_SPARE_CPU_FINDING, SHELL_LATENCY_WITH_SPARE_CPU_ADVICE),
        DiagnosticFindingCode::ExplorerFanout => (EXPLORER_FANOUT_FINDING, EXPLORER_FANOUT_ADVICE),
        DiagnosticFindingCode::WslResourcePressure => (WSL_RESOURCE_PRESSURE_FINDING, WSL_RESOURCE_PRESSURE_ADVICE),
        DiagnosticFindingCode::ServiceStatusUnavailable => (SERVICE_STATUS_UNAVAILABLE_FINDING, SERVICE_STATUS_UNAVAILABLE_ADVICE),
    }
}

/// Says what a finding means, and what to do about it.
pub fn diagnostic_finding_text(code: DiagnosticFindingCode, language: Language) -> (texts: (
    &'static str,
    &'static str,
))
    ensures
        texts.0@ == language.words(finding_phrases(code).0),
        texts.1@ == language.words(finding_phrases(code).1),
{
    let (finding, advice) = match code {
        DiagnosticFindingCode::Healthy => (HEALTHY_FINDING, HEALTHY_ADVICE),
        DiagnosticFindingCode::CpuSaturation => (CPU_SATURATION_FINDING, CPU_SATURATION_ADVICE),
        DiagnosticFindingCode::SchedulerLatency => (SCHEDULER_LATENCY_FINDING, SCHEDULER_LATENCY_ADVICE),
        DiagnosticFindingCode::DpcOrInterruptPressure => (DPC_OR_INTERRUPT_PRESSURE_FINDING, DPC_OR_INTERRUPT_PRESSURE_ADVICE),
        DiagnosticFindingCode::MemoryPressure => (MEMORY_PRESSURE_FINDING, MEMORY_PRESSURE_ADVICE),
        DiagnosticFindingCode::ShellLatencyWithSpareCpu => (SHELL_LATENCY_WITH_SPARE_CPU_FINDING, SHELL_LATENCY_WITH_SPARE_CPU_ADVICE),
        DiagnosticFindingCode::ExplorerFanout => (EXPLORER_FANOUT_FINDING, EXPLORER_FANOUT_ADVICE),
        DiagnosticFindingCode::WslResourcePressure => (WSL_RESOURCE_PRESSURE_FINDING, WSL_RESOURCE_PRESSURE_ADVICE),
        DiagnosticFindingCode::ServiceStatusUnavailable => (SERVICE_STATUS_UNAVAILABLE_FINDING, SERVICE_STATUS_UNAVAILABLE_ADVICE),
    };
    (language.phrase(finding), language.phrase(advice))
}

/// The plain word for a finding.
pub open spec fn identifier(code: DiagnosticFindingCode) -> Seq<char> {
    match code {
        DiagnosticFindingCode::Healthy => "Healthy"@,
        DiagnosticFindingCode::CpuSaturation => "CpuSaturation"@,
        DiagnosticFindingCode::SchedulerLatency => "SchedulerLatency"@,
        DiagnosticFindingCode::DpcOrInterruptPressure => "DpcOrInterruptPressure"@,
        DiagnosticFindingCode::MemoryPressure => "MemoryPressure"@,
        DiagnosticFindingCode::ShellLatencyWithSpareCpu => "ShellLatencyWithSpareCpu"@,
        DiagnosticFindingCode::ExplorerFanout => "ExplorerFanout"@,
        DiagnosticFindingCode::WslResourcePressure => "WslResourcePressure"@,
        DiagnosticFindingCode::ServiceStatusUnavailable => "ServiceStatusUnavailable"@,
    }
}

/// Says the plain word for a finding.
pub fn finding_identifier(code: DiagnosticFindingCode) -> (text: &'static str)
    ensures
        text@ == identifier(code),
{
    match code {
        DiagnosticFindingCode::Healthy => "Healthy",
        DiagnosticFindingCode::CpuSaturation => "CpuSaturation",
        DiagnosticFindingCode::SchedulerLatency => "SchedulerLatency",
        DiagnosticFindingCode::DpcOrInterruptPressure => "DpcOrInterruptPressure",
        DiagnosticFindingCode::MemoryPressure => "MemoryPressure",
        DiagnosticFindingCode::ShellLatencyWithSpareCpu => "ShellLatencyWithSpareCpu",
        DiagnosticFindingCode::ExplorerFanout => "ExplorerFanout",
        DiagnosticFindingCode::WslResourcePressure => "WslResourcePressure",
        DiagnosticFindingCode::ServiceStatusUnavailable => "ServiceStatusUnavailable",
    }
}

/// What a diagnostic measured.
#[derive(Debug, Clone, Copy, PartialEq, Eq, Structural)]
pub struct DiagnosticReport {
    pub average_cpu_utilization_bps: u64,
    pub maximum_processor_queue_length: u64,
    pub p99_lateness_us: u64,
    pub maximum_dpc_time_bps: u64,
    pub maximum_interrupt_time_bps: u64,
    pub minimum_available_memory_bytes: u64,
    pub total_physical_memory_bytes: u64,
    pub taskbar_p50_response_us: u64,
    pub taskbar_p95_response_us: u64,
    pub taskbar_timeout_samples: u64,
    pub explorer_processes: u64,
    pub explorer_windows: u64,
    pub explorer_threads: u64,
    pub launch_folders_in_separate_process: Option<bool>,
    pub wsl_processes: u64,
    pub vmware_vm_processes: u64,
    pub wsl_config_present: bool,
    pub resource_pressure_observed: bool,
    pub recommended_memory_bytes: Option<u64>,
    pub recommended_processors: Option<u64>,
}

/// One measurement: what it is, and how much.
#[derive(Debug)]
pub struct Reading {
    pub label: String,
    pub value: String,
}

/// Measurements in their order.
#[derive(Debug)]
pub struct Readings {
    pub items: Vec<Reading>,
}

impl View for Readings {
    type V = Seq<(Seq<char>, Seq<char>)>;

    open spec fn view(&self) -> Seq<(Seq<char>, Seq<char>)> {
        self.items@.map_values(|reading: Reading| (reading.label@, reading.value@))
    }
}

impl Readings {
    pub fn new() -> (readings: Self)
        ensures
            readings@ == Seq::<(Seq<char>, Seq<char>)>::empty(),
    {
        let readings = Readings { items: Vec::new() };
        proof {
            assert(readings@ =~= Seq::<(Seq<char>, Seq<char>)>::empty());
        }
        readings
    }

    /// Adds a measurement.
    pub fn note(&mut self, label: &str, value: &str)
        ensures
            final(self)@ == old(self)@.push((label@, value@)),
    {
        self.items.push(Reading { label: label.to_owned(), value: value.to_owned() });
        proof {
            assert(self@ =~= old(self)@.push((label@, value@)));
        }
    }
}

/// A number of bytes in gibibytes with one digit behind the point.
pub open spec fn gibibytes(bytes: u64) -> Seq<char> {
    let gib = 1_073_741_824nat;
    crate::text::decimal(bytes as nat / gib) + "."@ + crate::text::decimal(
        bytes as nat % gib * 10 / gib,
    )
}

/// Writes a number of bytes in gibibytes.
pub fn format_gib(bytes: u64) -> (text: String)
    ensures
        text@ == gibibytes(bytes),
{
    let gib: u64 = 1_073_741_824;
    let mut text = decimal_text(bytes / gib);
    text.append(".");
    push_decimal(&mut text, bytes % gib * 10 / gib);
    text
}

pub const CPU_LABEL: (&'static str, &'static str) = (
    "Average CPU utilization",
    "Средняя загрузка CPU",
);

pub const QUEUE_LABEL: (&'static str, &'static str) = (
    "Maximum processor queue",
    "Максимальная очередь CPU",
);

pub const WAKE_LABEL: (&'static str, &'static str) = (
    "Scheduler wake p99",
    "Пробуждение планировщика p99",
);

pub const INTERRUPT_LABEL: (&'static str, &'static str) = (
    "Maximum DPC / interrupt",
    "Максимум DPC / прерываний",
);

pub const MEMORY_LABEL: (&'static str, &'static str) = (
    "Minimum available memory",
    "Минимум доступной памяти",
);

pub const TASKBAR_LABEL: (&'static str, &'static str) = (
    "Taskbar response p50 / p95",
    "Ответ taskbar p50 / p95",
);

pub const EXPLORER_LABEL: (&'static str, &'static str) = (
    "Explorer processes / windows",
    "Процессы / окна Explorer",
);

pub const SEPARATE_LABEL: (&'static str, &'static str) = (
    "Separate Explorer processes",
    "Отдельные процессы Explorer",
);

pub const SEPARATE_ON: (&'static str, &'static str) = ("enabled", "включены");

pub const SEPARATE_OFF: (&'static str, &'static str) = ("disabled", "выключены");

pub const SEPARATE_UNKNOWN: (&'static str, &'static str) = ("unknown", "неизвестно");

pub const MACHINES_LABEL: (&'static str, &'static str) = (
    "WSL / VMware VM processes",
    "Процессы WSL / VMware VM",
);

pub const WSL_CONFIG_PRESENT: (&'static str, &'static str) = (
    "present (read-only analysis)",
    "найден (только чтение)",
);

pub const WSL_CONFIG_ABSENT: (&'static str, &'static str) = (
    "not present; WSL defaults apply",
    "не найден; действуют настройки WSL по умолчанию",
);

pub const WSL_ADVICE_LABEL: (&'static str, &'static str) = ("WSL advisory", "Рекомендация WSL");

pub const WSL_ADVICE: (&'static str, &'static str) = (
    "Review only; memory {}, processors {}. No automatic changes.",
    "Только для проверки: память {}, процессоры {}. Автоматических изменений нет.",
);

/// Whether folders are opened in processes of their own, in words.
pub open spec fn separate_words(language: Language, separate: Option<bool>) -> Seq<char> {
    language.words(
        match separate {
            Some(true) => SEPARATE_ON,
            Some(false) => SEPARATE_OFF,
            None => SEPARATE_UNKNOWN,
        },
    )
}

/// What is advised on the limits of WSL.
pub open spec fn wsl_advice(report: DiagnosticReport, language: Language) -> Seq<char> {
    crate::template::filled(
        language.words(WSL_ADVICE),
        Seq::empty().push(
            match report.recommended_memory_bytes {
                Some(bytes) => gibibytes(bytes) + " GiB"@,
                None => "-"@,
            },
        ).push(
            match report.recommended_processors {
                Some(processors) => crate::text::decimal(processors as nat),
                None => "-"@,
            },
        ),
    )
}

/// The measurements of a report.
pub open spec fn metrics(report: DiagnosticReport, language: Language) -> Seq<
    (Seq<char>, Seq<char>),
> {
    let measured = Seq::empty().push(
        (
            language.words(CPU_LABEL),
            crate::template::hundredths(report.average_cpu_utilization_bps as nat) + "%"@,
        ),
    ).push(
        (
            language.words(QUEUE_LABEL),
            crate::text::decimal(report.maximum_processor_queue_length as nat),
        ),
    ).push(
        (
            language.words(WAKE_LABEL),
            crate::text::decimal(report.p99_lateness_us as nat) + " us"@,
        ),
    ).push(
        (
            language.words(INTERRUPT_LABEL),
            crate::template::hundredths(report.maximum_dpc_time_bps as nat) + "% / "@
                + crate::template::hundredths(report.maximum_interrupt_time_bps as nat) + "%"@,
        ),
    ).push(
        (
            language.words(MEMORY_LABEL),
            gibibytes(report.minimum_available_memory_bytes) + " GiB / "@ + gibibytes(
                report.total_physical_memory_bytes,
            ) + " GiB"@,
        ),
    ).push(
        (
            language.words(TASKBAR_LABEL),
            crate::text::decimal(report.taskbar_p50_response_us as nat) + " / "@
                + crate::text::decimal(report.taskbar_p95_response_us as nat) + " us; "@
                + crate::text::decimal(report.taskbar_timeout_samples as nat) + " timeouts"@,
        ),
    ).push(
        (
            language.words(EXPLORER_LABEL),
            crate::text::decimal(report.explorer_processes as nat) + " / "@ + crate::text::decimal(
                report.explorer_windows as nat,
            ) + " ("@ + crate::text::decimal(report.explorer_threads as nat) + " threads)"@,
        ),
    ).push(
        (
            language.words(SEPARATE_LABEL),
            separate_words(language, report.launch_folders_in_separate_process),
        ),
    ).push(
        (
            language.words(MACHINES_LABEL),
            crate::text::decimal(report.wsl_processes as nat) + " / "@ + crate::text::decimal(
                report.vmware_vm_processes as nat,
            ),
        ),
    ).push(
        (
            ".wslconfig"@,
            language.words(
                if report.wsl_config_present {
                    WSL_CONFIG_PRESENT
                } else {
                    WSL_CONFIG_ABSENT
                },
            ),
        ),
    );
    if report.resource_pressure_observed {
        measured.push((language.words(WSL_ADVICE_LABEL), wsl_advice(report, language)))
    } else {
        measured
    }
}

fn wsl_advice_text(report: &DiagnosticReport, language: Language) -> (text: String)
    ensures
        text@ == wsl_advice(*report, language),
{
    let memory = match report.recommended_memory_bytes {
        Some(bytes) => {
            let mut text = format_gib(bytes);
            text.append(" GiB");
            text
        },
        None => "-".to_owned(),
    };
    let processors = match report.recommended_processors {
        Some(processors) => decimal_text(processors),
        None => "-".to_owned(),
    };
    fill(
        language.phrase(WSL_ADVICE),
        &Blanks::new().text(memory.as_str()).text(processors.as_str()),
    )
}

/// Says what a report measured.
pub fn diagnostic_metrics(report: &DiagnosticReport, language: Language) -> (readings: Readings)
    ensures
        readings@ == metrics(*report, language),
{
    let mut readings = Readings::new();
    let mut cpu = hundredths_text(report.average_cpu_utilization_bps);
    cpu.append("%");
    readings.note(language.phrase(CPU_LABEL), cpu.as_str());
    readings.note(
        language.phrase(QUEUE_LABEL),
        decimal_text(report.maximum_processor_queue_length).as_str(),
    );
    let mut wake = decimal_text(report.p99_lateness_us);
    wake.append(" us");
    readings.note(language.phrase(WAKE_LABEL), wake.as_str());
    let mut interrupts = hundredths_text(report.maximum_dpc_time_bps);
    interrupts.append("% / ");
    interrupts.append(hundredths_text(report.maximum_interrupt_time_bps).as_str());
    interrupts.append("%");
    readings.note(language.phrase(INTERRUPT_LABEL), interrupts.as_str());
    let mut memory = format_gib(report.minimum_available_memory_bytes);
    memory.append(" GiB / ");
    memory.append(format_gib(report.total_physical_memory_bytes).as_str());
    memory.append(" GiB");
    readings.note(language.phrase(MEMORY_LABEL), memory.as_str());
    let mut taskbar = decimal_text(report.taskbar_p50_response_us);
    taskbar.append(" / ");
    push_decimal(&mut taskbar, report.taskbar_p95_response_us);
    taskbar.append(" us; ");
    push_decimal(&mut taskbar, report.taskbar_timeout_samples);
    taskbar.append(" timeouts");
    readings.note(language.phrase(TASKBAR_LABEL), taskbar.as_str());
    let mut explorer = decimal_text(report.explorer_processes);
    explorer.append(" / ");
    push_decimal(&mut explorer, report.explorer_windows);
    explorer.append(" (");
    push_decimal(&mut explorer, report.explorer_threads);
    explorer.append(" threads)");
    readings.note(language.phrase(EXPLORER_LABEL), explorer.as_str());
    let separate = match report.launch_folders_in_separate_process {
        Some(true) => language.phrase(SEPARATE_ON),
        Some(false) => language.phrase(SEPARATE_OFF),
        None => language.phrase(SEPARATE_UNKNOWN),
    };
    readings.note(language.phrase(SEPARATE_LABEL), separate);
    let mut machines = decimal_text(report.wsl_processes);
    machines.append(" / ");
    push_decimal(&mut machines, report.vmware_vm_processes);
    readings.note(language.phrase(MACHINES_LABEL), machines.as_str());
    let wsl_config = if report.wsl_config_present {
        language.phrase(WSL_CONFIG_PRESENT)
    } else {
        language.phrase(WSL_CONFIG_ABSENT)
    };
    readings.note(".wslconfig", wsl_config);
    if report.resource_pressure_observed {
        readings.note(
            language.phrase(WSL_ADVICE_LABEL),
            wsl_advice_text(report, language).as_str(),
        );
    }
    readings
}

/// No two findings have the same plain word.
pub proof fn identifiers_differ(a: DiagnosticFindingCode, b: DiagnosticFindingCode)
    requires
        a != b,
    ensures
        identifier(a) != identifier(b),
{
    reveal_strlit("Healthy");
    reveal_strlit("CpuSaturation");
    reveal_strlit("SchedulerLatency");
    reveal_strlit("DpcOrInterruptPressure");
    reveal_strlit("MemoryPressure");
    reveal_strlit("ShellLatencyWithSpareCpu");
    reveal_strlit("ExplorerFanout");
    reveal_strlit("WslResourcePressure");
    reveal_strlit("ServiceStatusUnavailable");
    assert("Healthy"@.len() == 7);
    assert("CpuSaturation"@.len() == 13);
    assert("SchedulerLatency"@.len() == 16);
    assert("DpcOrInterruptPressure"@.len() == 22);
    assert("MemoryPressure"@.len() == 14);
    assert("ShellLatencyWithSpareCpu"@.len() == 24);
    assert("ExplorerFanout"@.len() == 14);
    assert("WslResourcePressure"@.len() == 19);
    assert("ServiceStatusUnavailable"@.len() == 24);
    assert("MemoryPressure"@[0] == 'M');
    assert("ExplorerFanout"@[0] == 'E');
    assert("ShellLatencyWithSpareCpu"@[1] == 'h');
    assert("ServiceStatusUnavailable"@[1] == 'e');
}

/// Every finding is explained and advised on by its own phrases: whoever reads
/// one of them knows which finding it is of.
pub proof fn findings_are_explained_by_their_own_phrases(code: DiagnosticFindingCode)
    ensures
        code == DiagnosticFindingCode::Healthy ==> finding_phrases(code) == (
            HEALTHY_FINDING,
            HEALTHY_ADVICE,
        ),
        code == DiagnosticFindingCode::CpuSaturation ==> finding_phrases(code) == (
            CPU_SATURATION_FINDING,
            CPU_SATURATION_ADVICE,
        ),
        code == DiagnosticFindingCode::SchedulerLatency ==> finding_phrases(code) == (
            SCHEDULER_LATENCY_FINDING,
            SCHEDULER_LATENCY_ADVICE,
        ),
        code == DiagnosticFindingCode::DpcOrInterruptPressure ==> finding_phrases(code) == (
            DPC_OR_INTERRUPT_PRESSURE_FINDING,
            DPC_OR_INTERRUPT_PRESSURE_ADVICE,
        ),
        code == DiagnosticFindingCode::MemoryPressure ==> finding_phrases(code) == (
            MEMORY_PRESSURE_FINDING,
            MEMORY_PRESSURE_ADVICE,
        ),
        code == DiagnosticFindingCode::ShellLatencyWithSpareCpu ==> finding_phrases(code) == (
            SHELL_LATENCY_WITH_SPARE_CPU_FINDING,
            SHELL_LATENCY_WITH_SPARE_CPU_ADVICE,
        ),
        code == DiagnosticFindingCode::ExplorerFanout ==> finding_phrases(code) == (
            EXPLORER_FANOUT_FINDING,
            EXPLORER_FANOUT_ADVICE,
        ),
        code == DiagnosticFindingCode::WslResourcePressure ==> finding_phrases(code) == (
            WSL_RESOURCE_PRESSURE_FINDING,
            WSL_RESOURCE_PRESSURE_ADVICE,
        ),
        code == DiagnosticFindingCode::ServiceStatusUnavailable ==> finding_phrases(code) == (
            SERVICE_STATUS_UNAVAILABLE_FINDING,
            SERVICE_STATUS_UNAVAILABLE_ADVICE,
        ),
{
}

/// Whether a list of measurements has one with a label and a value.
pub open spec fn tells(
    readings: Seq<(Seq<char>, Seq<char>)>,
    label: Seq<char>,
    value: Seq<char>,
) -> bool {
    readings.contains((label, value))
}

/// Every measurement stands under its own label. Where two belong together,
/// the deferred calls come before the interrupts, the free before the whole
/// memory, the median before the slow responses, and processes before windows.
/// WSL is advised on exactly where it is under pressure.
pub proof fn measurements_stand_under_their_labels(report: DiagnosticReport, language: Language)
    ensures
        ({
            let readings = metrics(report, language);
            &&& tells(
                readings,
                language.words(CPU_LABEL),
                crate::template::hundredths(report.average_cpu_utilization_bps as nat) + "%"@,
            )
            &&& tells(
                readings,
                language.words(QUEUE_LABEL),
                crate::text::decimal(report.maximum_processor_queue_length as nat),
            )
            &&& tells(
                readings,
                language.words(WAKE_LABEL),
                crate::text::decimal(report.p99_lateness_us as nat) + " us"@,
            )
            &&& tells(
                readings,
                language.words(INTERRUPT_LABEL),
                crate::template::hundredths(report.maximum_dpc_time_bps as nat) + "% / "@
                    + crate::template::hundredths(report.maximum_interrupt_time_bps as nat) + "%"@,
            )
            &&& tells(
                readings,
                language.words(MEMORY_LABEL),
                gibibytes(report.minimum_available_memory_bytes) + " GiB / "@ + gibibytes(
                    report.total_physical_memory_bytes,
                ) + " GiB"@,
            )
            &&& tells(
                readings,
                language.words(TASKBAR_LABEL),
                crate::text::decimal(report.taskbar_p50_response_us as nat) + " / "@
                    + crate::text::decimal(report.taskbar_p95_response_us as nat) + " us; "@
                    + crate::text::decimal(report.taskbar_timeout_samples as nat) + " timeouts"@,
            )
            &&& tells(
                readings,
                language.words(EXPLORER_LABEL),
                crate::text::decimal(report.explorer_processes as nat) + " / "@
                    + crate::text::decimal(report.explorer_windows as nat) + " ("@
                    + crate::text::decimal(report.explorer_threads as nat) + " threads)"@,
            )
            &&& tells(
                readings,
                language.words(MACHINES_LABEL),
                crate::text::decimal(report.wsl_processes as nat) + " / "@ + crate::text::decimal(
                    report.vmware_vm_processes as nat,
                ),
            )
            &&& report.wsl_config_present ==> tells(
                readings,
                ".wslconfig"@,
                language.words(WSL_CONFIG_PRESENT),
            )
            &&& !report.wsl_config_present ==> tells(
                readings,
                ".wslconfig"@,
                language.words(WSL_CONFIG_ABSENT),
            )
            &&& report.launch_folders_in_separate_process == Some(true) ==> tells(
                readings,
                language.words(SEPARATE_LABEL),
                language.words(SEPARATE_ON),
            )
            &&& report.launch_folders_in_separate_process == Some(false) ==> tells(
                readings,
                language.words(SEPARATE_LABEL),
                language.words(SEPARATE_OFF),
            )
            &&& report.launch_folders_in_separate_process is None ==> tells(
                readings,
                language.words(SEPARATE_LABEL),
                language.words(SEPARATE_UNKNOWN),
            )
            &&& report.resource_pressure_observed ==> readings.len() == 11 && readings.last()
                == (language.words(WSL_ADVICE_LABEL), wsl_advice(report, language))
            &&& !report.resource_pressure_observed ==> readings.len() == 10
        }),
{
    let readings = metrics(report, language);
    assert(readings[0].0 == language.words(CPU_LABEL));
    assert(readings[1].0 == language.words(QUEUE_LABEL));
    assert(readings[2].0 == language.words(WAKE_LABEL));
    assert(readings[3].0 == language.words(INTERRUPT_LABEL));
    assert(readings[4].0 == language.words(MEMORY_LABEL));
    assert(readings[5].0 == language.words(TASKBAR_LABEL));
    assert(readings[6].0 == language.words(EXPLORER_LABEL));
    assert(readings[7].0 == language.words(SEPARATE_LABEL));
    assert(readings[8].0 == language.words(MACHINES_LABEL));
    assert(readings[9].0 == ".wslconfig"@);
}

/// The advice on WSL names the memory before the processors, and a dash for
/// what is not advised on.
pub proof fn advice_names_memory_first(report: DiagnosticReport, language: Language)
    ensures
        (report.recommended_memory_bytes is Some && report.recommended_processors is Some)
            ==> wsl_advice(report, language) == crate::template::filled(
            language.words(WSL_ADVICE),
            seq![
                gibibytes(report.recommended_memory_bytes->0) + " GiB"@,
                crate::text::decimal(report.recommended_processors->0 as nat),
            ],
        ),
        (report.recommended_memory_bytes is None && report.recommended_processors is None)
            ==> wsl_advice(report, language) == crate::template::filled(
            language.words(WSL_ADVICE),
            seq!["-"@, "-"@],
        ),
{
    if let Some(bytes) = report.recommended_memory_bytes {
        if let Some(processors) = report.recommended_processors {
            let memory = gibibytes(bytes) + " GiB"@;
            let count = crate::text::decimal(processors as nat);
            assert(Seq::<Seq<char>>::empty().push(memory).push(count) =~= seq![memory, count]);
        }
    }
    assert(Seq::<Seq<char>>::empty().push("-"@).push("-"@) =~= seq!["-"@, "-"@]);
}

/// Bytes are told in whole gibibytes and full tenths of one.
pub proof fn bytes_are_told_in_gibibytes(bytes: u64)
    ensures
        exists|whole: nat, tenths: nat|
            tenths < 10 && (whole * 10 + tenths) * 1_073_741_824 <= bytes * 10 && bytes * 10 < (whole
                * 10 + tenths + 1) * 1_073_741_824 && gibibytes(bytes) == #[trigger]
            crate::text::decimal(whole) + "."@ + #[trigger] crate::text::decimal(tenths),
{
    let gib: int = 1_073_741_824;
    let whole = (bytes / 1_073_741_824) as nat;
    let rest: int = bytes as int % gib;
    let tenths = (rest * 10 / gib) as nat;
    assert(gibibytes(bytes) == crate::text::decimal(whole) + "."@ + crate::text::decimal(tenths));
}

} // verus!
