//! What the settings window says, in both languages.
use vstd::prelude::*;

verus! {

pub const CONTROLLER_HEADING: (&'static str, &'static str) = (
    "Controller behavior",
    "Режим контроллера",
);

pub const CONTROLLER_INTRO: (&'static str, &'static str) = (
    "Choose whether WinSched observes decisions, applies them, or stays off.",
    "Выберите, будет ли WinSched только наблюдать, применять решения или останется выключенным.",
);

pub const CONTROLLER_HELP: (&'static str, &'static str) = (
    "Off stops evaluation, Observe reports decisions without changing CPU Sets, and Auto applies validated placement decisions.",
    "«Выключен» останавливает оценку, «Наблюдение» показывает решения без изменения CPU Sets, а Auto применяет проверенные решения размещения.",
);

pub const CONTROLLER_MODE: (&'static str, &'static str) = ("Controller mode", "Режим контроллера");

pub const MODE_OFF: (&'static str, &'static str) = (
    "Off — do not observe or change process placement",
    "Выключен — не наблюдать и не изменять размещение процессов",
);

pub const MODE_OBSERVE: (&'static str, &'static str) = (
    "Observe — calculate and report decisions without applying them",
    "Наблюдение — рассчитывать и показывать решения без их применения",
);

pub const MODE_AUTO: (&'static str, &'static str) = (
    "Auto — apply validated CPU placement decisions",
    "Авто — применять проверенные решения по размещению на CPU",
);

pub const ALL_PROCESSES_HELP: (&'static str, &'static str) = (
    "When enabled, eligible interactive user processes may be managed even without an explicit rule. Safety exclusions and the utilization threshold still apply.",
    "Если включено, подходящие интерактивные процессы пользователя могут управляться без явного правила. Защитные исключения и порог загрузки продолжают действовать.",
);

pub const ALL_PROCESSES: (&'static str, &'static str) = (
    "Manage all eligible user processes, not only explicitly listed rules",
    "Управлять всеми подходящими пользовательскими процессами, а не только указанными в правилах",
);

pub const ALL_PROCESSES_NOTE: (&'static str, &'static str) = (
    "When disabled, a process must have an exact executable-name rule before WinSched considers it.",
    "Если флажок снят, WinSched рассматривает процесс только при наличии правила с точным именем исполняемого файла.",
);

pub const AUTOSTART_HELP: (&'static str, &'static str) = (
    "Controls the machine-wide Startup shortcut. It starts the non-elevated tray after interactive sign-in; the service starts independently with Windows.",
    "Управляет общесистемным ярлыком автозагрузки. Он запускает трей без повышения прав после интерактивного входа; служба запускается с Windows независимо.",
);

pub const AUTOSTART: (&'static str, &'static str) = (
    "Start the WinSched tray automatically when a user signs in",
    "Автоматически запускать WinSched в области уведомлений при входе пользователя",
);

pub const AUTOSTART_NOTE: (&'static str, &'static str) = (
    "This manages the machine-wide WinSched Tray shortcut in the Windows Startup folder.",
    "Этот параметр управляет общесистемным ярлыком WinSched Tray в папке автозагрузки Windows.",
);

pub const SCHEMA_LABEL: (&'static str, &'static str) = (
    "Configuration schema version",
    "Версия схемы конфигурации",
);

pub const SCHEMA_HELP: (&'static str, &'static str) = (
    "The service currently supports schema version {}. This field is read-only.",
    "Служба сейчас поддерживает схему версии {}. Это поле доступно только для чтения.",
);

pub const SAMPLE_LABEL: (&'static str, &'static str) = (
    "Sample interval (milliseconds)",
    "Интервал опроса (миллисекунды)",
);

pub const SAMPLE_HELP: (&'static str, &'static str) = (
    "How often the service samples process and CPU activity. Lower values react faster but add more telemetry work.",
    "Как часто служба измеряет активность процессов и CPU. Меньшие значения ускоряют реакцию, но увеличивают объём телеметрии.",
);

pub const UTILIZATION_LABEL: (&'static str, &'static str) = (
    "Minimum process utilization (basis points)",
    "Минимальная загрузка процесса (базисные пункты)",
);

pub const UTILIZATION_HELP: (&'static str, &'static str) = (
    "Minimum CPU activity required before an implicitly scoped process is managed. 100 basis points equal 1% of one logical CPU.",
    "Минимальная активность CPU для управления неявно выбранным процессом. 100 базисных пунктов равны 1% одного логического CPU.",
);

pub const DEFAULT_MODE_LABEL: (&'static str, &'static str) = (
    "Default process rule mode",
    "Режим правила процессов по умолчанию",
);

pub const RULE_MODE_HELP: (&'static str, &'static str) = (
    "Controls placement behavior: Off excludes the process, Sticky keeps its first assignment, Auto may move it after policy safeguards, Performance/Efficiency filter CPU classes, and Strict targets one LLC domain.",
    "Определяет размещение: «Выключен» исключает процесс, Sticky сохраняет первое назначение, Auto может перемещать после проверок политики, Performance/Efficiency фильтруют классы CPU, а Strict выбирает один домен LLC.",
);

pub const DEFAULT_PROFILE_LABEL: (&'static str, &'static str) = (
    "Default workload profile",
    "Профиль нагрузки по умолчанию",
);

pub const WORKLOAD_PROFILE_HELP: (&'static str, &'static str) = (
    "Interactive stays on one LLC, Memory spreads one thread per physical core by default, Compute uses both SMT siblings, and Background can opt an exact rule into reversible EcoQoS/memory handling. Balanced retains standard LLC-aware adaptive behavior.",
    "Interactive остаётся в одном LLC, Memory по умолчанию распределяет по одному потоку на физическое ядро, Compute использует оба SMT-потока, а Background может включить для точного правила обратимое управление EcoQoS/памятью. Balanced сохраняет обычное адаптивное LLC-размещение.",
);

pub const ADAPTIVE_HEADING: (&'static str, &'static str) = (
    "Adaptive placement policy",
    "Политика адаптивного размещения",
);

pub const ADAPTIVE_INTRO: (&'static str, &'static str) = (
    "These safeguards control when an overloaded process may move between last-level cache domains.",
    "Эти ограничения определяют, когда загруженный процесс можно перемещать между доменами кеша последнего уровня.",
);

pub const OVERLOAD_LABEL: (&'static str, &'static str) = (
    "Overload threshold (basis points)",
    "Порог перегрузки (базисные пункты)",
);

pub const OVERLOAD_HELP: (&'static str, &'static str) = (
    "A domain is considered overloaded at or above this utilization.",
    "Домен считается перегруженным при достижении этой загрузки.",
);

pub const IMPROVEMENT_LABEL: (&'static str, &'static str) = (
    "Minimum improvement (basis points)",
    "Минимальное улучшение (базисные пункты)",
);

pub const IMPROVEMENT_HELP: (&'static str, &'static str) = (
    "Required load advantage before moving to another domain.",
    "Необходимая разница в загрузке перед перемещением в другой домен.",
);

pub const STABILITY_LABEL: (&'static str, &'static str) = (
    "Stability samples",
    "Стабильные измерения",
);

pub const STABILITY_HELP: (&'static str, &'static str) = (
    "Consecutive overloaded samples required before a move.",
    "Число последовательных измерений перегрузки перед перемещением.",
);

pub const RESIDENCY_LABEL: (&'static str, &'static str) = (
    "Minimum residency (milliseconds)",
    "Минимальное время размещения (миллисекунды)",
);

pub const RESIDENCY_HELP: (&'static str, &'static str) = (
    "Minimum time a process remains in its assigned domain.",
    "Минимальное время нахождения процесса в назначенном домене.",
);

pub const COOLDOWN_LABEL: (&'static str, &'static str) = (
    "Cooldown (milliseconds)",
    "Пауза между перемещениями (миллисекунды)",
);

pub const COOLDOWN_HELP: (&'static str, &'static str) = (
    "Minimum delay between moves of the same process.",
    "Минимальная задержка между перемещениями одного процесса.",
);

pub const MUTATIONS_LABEL: (&'static str, &'static str) = (
    "Maximum mutations per evaluation",
    "Максимум изменений за одну оценку",
);

pub const MUTATIONS_HELP: (&'static str, &'static str) = (
    "Rate limit for placement changes during one evaluation.",
    "Ограничение числа изменений размещения за одну оценку.",
);

pub const LOGGING_HEADING: (&'static str, &'static str) = (
    "Diagnostic logging",
    "Диагностический журнал",
);

pub const LOGGING_INTRO: (&'static str, &'static str) = (
    "Control how much service diagnostic history is kept on this computer.",
    "Настройте объём истории диагностики службы, сохраняемой на этом компьютере.",
);

pub const LOGGING_HELP: (&'static str, &'static str) = (
    "Off performs no routine log writes. Normal records changes, failures, and one aggregated decision summary per minute. Trace additionally writes every per-process policy decision and can generate substantial disk I/O.",
    "Off отключает обычные записи. Normal записывает изменения, ошибки и одну агрегированную сводку решений в минуту. Trace дополнительно записывает каждое решение по процессу и может создавать значительный дисковый I/O.",
);

pub const LOGGING_LEVEL: (&'static str, &'static str) = (
    "Log detail level",
    "Уровень детализации журнала",
);

pub const LEVEL_OFF: (&'static str, &'static str) = ("Off", "Выключен");

pub const LEVEL_NORMAL: (&'static str, &'static str) = (
    "Normal (recommended)",
    "Обычный (рекомендуется)",
);

pub const LEVEL_TRACE: (&'static str, &'static str) = ("Trace", "Трассировка");

pub const LOG_PATH_NOTE: (&'static str, &'static str) = (
    "Diagnostic events are written as JSON lines to:",
    "Диагностические события записываются строками JSON в:",
);

pub const LOGGING_OFF_NOTE: (&'static str, &'static str) = (
    "Routine logging is off. Existing log and archive files are preserved.",
    "Обычный журнал выключен. Существующие файлы журнала и архивы сохраняются.",
);

pub const LOGGING_NORMAL_NOTE: (&'static str, &'static str) = (
    "Normal records important events immediately and coalesces unchanged process decisions into a one-minute summary.",
    "Normal немедленно записывает важные события и объединяет неизменившиеся решения по процессам в минутную сводку.",
);

pub const LOGGING_TRACE_NOTE: (&'static str, &'static str) = (
    "Trace is intended only for short diagnostics and may rotate the log frequently.",
    "Trace предназначен только для короткой диагностики и может часто ротировать журнал.",
);

pub const LOG_SIZE_LABEL: (&'static str, &'static str) = (
    "Maximum active log size (MiB)",
    "Максимальный размер активного журнала (МиБ)",
);

pub const LOG_SIZE_HELP: (&'static str, &'static str) = (
    "The active log is rotated before a new diagnostic record would exceed this size.",
    "Активный журнал ротируется до записи диагностического события, которое превысило бы этот размер.",
);

pub const MEBIBYTE_UNIT: (&'static str, &'static str) = (" MiB", " МиБ");

pub const LOG_ARCHIVES_LABEL: (&'static str, &'static str) = (
    "Retained circular archives",
    "Сохраняемые циклические архивы",
);

pub const LOG_ARCHIVES_HELP: (&'static str, &'static str) = (
    "0 reuses the active file without archives. Otherwise winsched.log.1 is newest and the oldest retained archive is removed.",
    "0 означает повторное использование активного файла без архивов. В остальных случаях winsched.log.1 — самый новый архив, а самый старый сохраняемый архив удаляется.",
);

pub const LOG_STORAGE: (&'static str, &'static str) = (
    "Estimated maximum log storage: {} MiB ({} MiB per file, {} files).",
    "Расчётный максимальный объём журнала: {} МиБ (размер файла {} МиБ, файлов: {}).",
);

pub const EMERGENCY_NOTE: (&'static str, &'static str) = (
    "Critical startup failures may still be written to the separate winsched-emergency.log file.",
    "Критические ошибки запуска могут по-прежнему записываться в отдельный файл winsched-emergency.log.",
);

pub const RESERVE_HEADING: (&'static str, &'static str) = (
    "System responsiveness reserve",
    "Системный резерв отзывчивости",
);

pub const RESERVE_INTRO: (&'static str, &'static str) = (
    "Keep whole physical cores available to Windows by excluding their CPU Sets only from managed application assignments.",
    "Оставляет целые физические ядра доступными Windows, исключая их CPU Sets только из назначений управляемых приложений.",
);

pub const RESERVE_HELP: (&'static str, &'static str) = (
    "Excludes complete physical-core CPU Sets from managed application plans while leaving Windows and protected system processes unrestricted.",
    "Исключает CPU Sets целых физических ядер из планов управляемых приложений, не ограничивая Windows и защищённые системные процессы.",
);

pub const RESERVE_TOGGLE: (&'static str, &'static str) = (
    "Enable topology-aware system reserve",
    "Включить топологический системный резерв",
);

pub const RESERVE_NOTE: (&'static str, &'static str) = (
    "Protected system processes remain unrestricted and are never pinned to the reserve. The reserve is spread over LLC domains and always includes complete SMT sibling pairs.",
    "Защищённые системные процессы остаются без ограничений и не закрепляются за резервом. Резерв распределяется по LLC и всегда включает полные пары SMT-потоков.",
);

pub const PERCENT_LABEL: (&'static str, &'static str) = (
    "System reserve percent",
    "Процент системного резерва",
);

pub const PERCENT_HELP: (&'static str, &'static str) = (
    "The percentage is calculated from physical cores and rounded upward.",
    "Процент рассчитывается от физических ядер и округляется вверх.",
);

pub const MIN_RESERVED_LABEL: (&'static str, &'static str) = (
    "Minimum reserved cores",
    "Минимум резервных ядер",
);

pub const MIN_RESERVED_HELP: (&'static str, &'static str) = (
    "Lower bound for small and medium processors.",
    "Нижняя граница для процессоров с небольшим и средним числом ядер.",
);

pub const MAX_RESERVED_LABEL: (&'static str, &'static str) = (
    "Maximum reserved cores",
    "Максимум резервных ядер",
);

pub const MAX_RESERVED_HELP: (&'static str, &'static str) = (
    "Upper bound that prevents a percentage from consuming too much capacity.",
    "Верхняя граница, не позволяющая проценту занять слишком большую часть CPU.",
);

pub const GUARD_TOGGLE: (&'static str, &'static str) = (
    "Enable scheduling latency guard",
    "Включить контроль задержки планирования",
);

pub const GUARD_HELP: (&'static str, &'static str) = (
    "Measures normal-priority scheduler wake lateness. Sustained p99, DPC, or interrupt pressure can reduce Memory-profile concurrency within the configured bounds.",
    "Измеряет задержку пробуждения планировщика с обычным приоритетом. Устойчивое давление p99, DPC или прерываний может уменьшить параллелизм Memory-профиля в заданных границах.",
);

pub const TARGET_LABEL: (&'static str, &'static str) = (
    "Latency target p99 (microseconds)",
    "Целевая задержка p99 (мкс)",
);

pub const TARGET_HELP: (&'static str, &'static str) = (
    "Sustained values above this threshold shrink memory-profile concurrency.",
    "Устойчивые значения выше этого порога уменьшают параллелизм memory-профиля.",
);

pub const RECOVERY_LABEL: (&'static str, &'static str) = (
    "Latency recovery p99 (microseconds)",
    "Порог восстановления p99 (мкс)",
);

pub const RECOVERY_HELP: (&'static str, &'static str) = (
    "Sustained values at or below this threshold restore one physical core after cooldown.",
    "Устойчивые значения не выше этого порога возвращают одно физическое ядро после cooldown.",
);

pub const ADJUSTMENT_LABEL: (&'static str, &'static str) = (
    "Adjustment stability samples",
    "Стабильные измерения перед изменением",
);

pub const ADJUSTMENT_HELP: (&'static str, &'static str) = (
    "Consecutive service evaluations required before changing memory width.",
    "Число последовательных оценок службы перед изменением ширины memory-профиля.",
);

pub const MEMORY_HEADING: (&'static str, &'static str) = (
    "Memory-bound workload profile",
    "Профиль нагрузок, ограниченных памятью",
);

pub const SMT_HELP: (&'static str, &'static str) = (
    "Off keeps one logical processor per physical core, which is recommended for bandwidth-bound workloads. On permits both SMT siblings and can help compute-heavy mixed workloads.",
    "В выключенном состоянии остаётся один логический процессор на физическое ядро, что рекомендуется для нагрузок, ограниченных памятью. Включение разрешает оба SMT-потока и может помочь смешанным вычислительным нагрузкам.",
);

pub const SMT_TOGGLE: (&'static str, &'static str) = (
    "Allow both SMT threads per physical core",
    "Разрешить оба SMT-потока физического ядра",
);

pub const SMT_NOTE: (&'static str, &'static str) = (
    "Off is recommended for bandwidth-bound workloads on this Threadripper; the profile keeps one logical processor per physical core.",
    "Для ограниченных памятью нагрузок на этом Threadripper рекомендуется выключить: профиль оставляет один логический процессор на физическое ядро.",
);

pub const MEMORY_MIN_LABEL: (&'static str, &'static str) = (
    "Minimum memory-profile cores",
    "Минимум ядер memory-профиля",
);

pub const MEMORY_MIN_HELP: (&'static str, &'static str) = (
    "The adaptive width will never shrink below this value.",
    "Адаптивная ширина никогда не уменьшится ниже этого значения.",
);

pub const MEMORY_MAX_LABEL: (&'static str, &'static str) = (
    "Maximum memory-profile cores",
    "Максимум ядер memory-профиля",
);

pub const MEMORY_MAX_HELP: (&'static str, &'static str) = (
    "The adaptive width will never grow beyond this value.",
    "Адаптивная ширина никогда не вырастет выше этого значения.",
);

pub const RESIZE_LABEL: (&'static str, &'static str) = (
    "Memory resize cooldown (milliseconds)",
    "Пауза изменения ширины memory-профиля (миллисекунды)",
);

pub const RESIZE_HELP: (&'static str, &'static str) = (
    "Prevents rapid concurrency oscillation and cache churn.",
    "Предотвращает частые изменения параллелизма и вытеснение кеша.",
);

pub const PLAN_HEADING: (&'static str, &'static str) = ("Live service plan", "Текущий план службы");

pub const PLAN_CORES: (&'static str, &'static str) = (
    "Physical cores: {}. Reserved: {} cores / {} CPU Sets across {} LLC domains.",
    "Физических ядер: {}. Резерв: {} ядер / {} CPU Sets в {} доменах LLC.",
);

pub const PLAN_LATENCY: (&'static str, &'static str) = (
    "Scheduling latency guard: {}. Window: {} samples; p95 {} us, p99 {} us, maximum {} us.",
    "Контроль задержки планирования: {}. Окно: {} измерений; p95 {} мкс, p99 {} мкс, максимум {} мкс.",
);

pub const PLAN_TELEMETRY: (&'static str, &'static str) = (
    "Maximum LLC telemetry: DPC {}%, interrupts {}%.",
    "Максимум по LLC: DPC {}%, прерывания {}%.",
);

pub const PLAN_WIDTH: (&'static str, &'static str) = (
    "Memory-profile width: {} physical cores; responsiveness pressure: {}.",
    "Ширина memory-профиля: {} физических ядер; давление на отзывчивость: {}.",
);

pub const PLAN_ADJUSTMENT: (&'static str, &'static str) = (
    "Last adjustment: {}",
    "Последнее изменение: {}",
);

pub const PLAN_UNAVAILABLE: (&'static str, &'static str) = (
    "Live reserve information is unavailable until a status-schema-{} service is running.",
    "Информация о резерве появится после запуска службы со схемой статуса {}.",
);

pub const BACKGROUND_HEADING: (&'static str, &'static str) = (
    "Background efficiency",
    "Эффективность фоновых задач",
);

pub const BACKGROUND_SCOPE: (&'static str, &'static str) = (
    "Applies only to an exact process rule whose workload profile is Background. Broad process scope and the default profile never opt a process into this policy.",
    "Применяется только к точному правилу процесса с профилем нагрузки Background. Общий охват процессов и профиль по умолчанию никогда не включают эту политику.",
);

pub const BACKGROUND_SIGNALS: (&'static str, &'static str) = (
    "The non-elevated tray supplies foreground, visible-window, and active-audio veto signals. Missing or stale signals request a safe restore on the bounded safety cadence.",
    "Трей без повышения прав передаёт запрещающие сигналы foreground, видимых окон и активного аудио. При отсутствии или устаревании сигналов безопасное восстановление выполняется в пределах ограниченного защитного интервала.",
);

pub const BACKGROUND_HELP: (&'static str, &'static str) = (
    "Enables journaled process-level EcoQoS and memory-priority handling for explicitly marked background processes. Both mutations are off by default: native acceptance confirmed that a parent's memory priority propagates to children created later, and parent rollback does not restore those live children. Enable a property only for a known leaf workload.",
    "Включает журналируемое управление EcoQoS и приоритетом памяти на уровне процесса для явно отмеченных фоновых процессов. Оба изменения по умолчанию выключены: native-тест подтвердил передачу приоритета памяти новым дочерним процессам, а восстановление родителя не восстанавливает уже работающих детей. Включайте параметр только для заведомо конечной фоновой задачи без дочерних процессов.",
);

pub const BACKGROUND_TOGGLE: (&'static str, &'static str) = (
    "Enable background efficiency",
    "Включить эффективность фоновых задач",
);

pub const ECO_QOS_TOGGLE: (&'static str, &'static str) = ("Apply EcoQoS", "Применять EcoQoS");

pub const ECO_QOS_HELP: (&'static str, &'static str) = (
    "Opt-in for known leaf workloads. The validated cmd-to-ping case did not inherit EcoQoS, but process-wide behavior must still be tested across the target application's complete child tree. WinSched never forces HighQoS.",
    "Только для проверенных конечных фоновых задач. В тесте cmd→ping EcoQoS не наследовался, но поведение конкретного приложения всё равно нужно проверить по всему дереву дочерних процессов. WinSched никогда не навязывает HighQoS.",
);

pub const MEMORY_TOGGLE: (&'static str, &'static str) = (
    "Lower background memory priority",
    "Понижать приоритет памяти фоновых задач",
);

pub const MEMORY_HELP: (&'static str, &'static str) = (
    "Opt-in for known leaf workloads. Uses Below Normal as the process default for pages added to its working set. Windows propagated this value to a later child in native acceptance; restoring the parent neither restores that child nor immediately retags pages populated meanwhile.",
    "Только для проверенных конечных фоновых задач. Задаёт Below Normal как приоритет процесса по умолчанию для новых страниц working set. Native-тест подтвердил передачу значения новому дочернему процессу; восстановление родителя не восстанавливает ребёнка и не меняет мгновенно метки уже загруженных страниц.",
);

pub const PRESSURE_TOGGLE: (&'static str, &'static str) = (
    "React to Windows low-memory notifications",
    "Реагировать на уведомления Windows о нехватке памяти",
);

pub const PRESSURE_HELP: (&'static str, &'static str) = (
    "Changes owned background memory priority from Below Normal to Low only while Windows reports low-memory pressure, with system hysteresis.",
    "Меняет управляемый приоритет фоновой памяти с Below Normal на Low только пока Windows сообщает о нехватке памяти, с системным гистерезисом.",
);

pub const GUARDS_TITLE: (&'static str, &'static str) = ("Safety guards", "Защитные условия");

pub const FOREGROUND_TOGGLE: (&'static str, &'static str) = (
    "Protect the foreground application",
    "Защищать приложение foreground",
);

pub const FOREGROUND_HELP: (&'static str, &'static str) = (
    "A foreground process and its matching process cohort are restored immediately.",
    "Процесс foreground и связанные процессы с тем же правилом немедленно восстанавливаются.",
);

pub const VISIBLE_TOGGLE: (&'static str, &'static str) = (
    "Protect visible and minimized applications",
    "Защищать видимые и свёрнутые приложения",
);

pub const VISIBLE_HELP: (&'static str, &'static str) = (
    "Includes minimized top-level windows so restoring Firefox or Explorer from the taskbar is never delayed by this policy.",
    "Включает свёрнутые окна верхнего уровня, чтобы эта политика не задерживала восстановление Firefox или Explorer с панели задач.",
);

pub const AUDIO_TOGGLE: (&'static str, &'static str) = (
    "Protect applications with active audio",
    "Защищать приложения с активным аудио",
);

pub const AUDIO_HELP: (&'static str, &'static str) = (
    "Protects active render and capture sessions, including playback, calls, and recording.",
    "Защищает активные сессии воспроизведения и захвата, включая видео, звонки и запись.",
);

pub const LIVE_HEADING: (&'static str, &'static str) = (
    "Live service state",
    "Текущее состояние службы",
);

pub const LIVE_COUNTS: (&'static str, &'static str) = (
    "Eligible: {}. Managed: {}. Protected: {}.",
    "Подходят: {}. Управляются: {}. Защищены: {}.",
);

pub const LIVE_SENSORS: (&'static str, &'static str) = (
    "Interactive sensors: {} available / {} required sessions. Memory monitor: {}. Pressure: {}.",
    "Интерактивные датчики: доступно {} / требуется {} сессий. Контроль памяти: {}. Давление: {}.",
);

pub const LIVE_TRANSITION: (&'static str, &'static str) = (
    "Last transition: {}",
    "Последний переход: {}",
);

pub const LIVE_UNAVAILABLE: (&'static str, &'static str) = (
    "Live background-efficiency information is unavailable until a status-schema-{} service is running.",
    "Информация об эффективности фоновых задач появится после запуска службы со схемой статуса {}.",
);

pub const EFFICIENCY_HEADING: (&'static str, &'static str) = (
    "Controller efficiency",
    "Эффективность контроллера",
);

pub const EFFICIENCY_UNAVAILABLE: (&'static str, &'static str) = (
    "Self-observability is available when a status-schema-{} service is running.",
    "Самодиагностика доступна после запуска службы со схемой статуса {}.",
);

pub const EFFICIENCY_UNPUBLISHED: (&'static str, &'static str) = (
    "The running service has not published self-observability yet.",
    "Запущенная служба ещё не опубликовала самодиагностику.",
);

pub const EVALUATIONS: (&'static str, &'static str) = (
    "Evaluations: {} total, {} in the rolling window. Last/mean/p95/max: {}/{}/{}/{} us.",
    "Оценки: всего {}, в скользящем окне {}. Последняя/средняя/p95/максимум: {}/{}/{}/{} мкс.",
);

pub const LAST_PASS: (&'static str, &'static str) = (
    "Last pass: {} scanned, {} eligible, {} decisions, {} currently managed.",
    "Последний проход: просмотрено {}, подходят {}, решений {}, сейчас управляются {}.",
);

pub const LOG_TOTALS: (&'static str, &'static str) = (
    "File log since service start: {} records / {} KiB, {} write errors. Status writes: {}.",
    "Файловый журнал с запуска службы: {} записей / {} КиБ, ошибок записи: {}. Записей status: {}.",
);

pub const MUTATION_TOTALS: (&'static str, &'static str) = (
    "Mutations: placement {}/{}/{} and Background {}/{}/{} attempted/succeeded/failed.",
    "Изменения: размещение {}/{}/{} и Background {}/{}/{} попыток/успешно/ошибок.",
);

pub const SERVICE_PROCESS: (&'static str, &'static str) = (
    "Service process: {}% of one core average, {} MiB working set, uptime {} s.",
    "Процесс службы: в среднем {}% одного ядра, working set {} МиБ, uptime {} с.",
);

pub const SERVICE_PROCESS_UNKNOWN: (&'static str, &'static str) = (
    "Service process resource counters are unavailable.",
    "Счётчики ресурсов процесса службы недоступны.",
);

pub const DIAGNOSTICS_HEADING: (&'static str, &'static str) = (
    "Passive diagnostics",
    "Пассивная диагностика",
);

pub const DIAGNOSTICS_INTRO: (&'static str, &'static str) = (
    "Measures scheduler, CPU, memory, taskbar, Explorer, WSL, and VMware signals for 10 seconds. It never clicks, moves the pointer, changes focus, edits .wslconfig, or changes CPU Sets.",
    "В течение 10 секунд измеряет планировщик, CPU, память, панель задач, Explorer, WSL и VMware. Диагностика не нажимает кнопки, не двигает указатель, не меняет фокус, не редактирует .wslconfig и не изменяет CPU Sets.",
);

pub const CANCELLING: (&'static str, &'static str) = ("Cancelling...", "Отмена...");

pub const COLLECTING: (&'static str, &'static str) = (
    "Collecting passive samples... {} s",
    "Сбор пассивных измерений... {} с",
);

pub const RULES_HEADING: (&'static str, &'static str) = ("Process rules", "Правила процессов");

pub const RULES_INTRO: (&'static str, &'static str) = (
    "Rules match an executable file name exactly and case-insensitively. Paths are not allowed.",
    "Правила сопоставляются с точным именем исполняемого файла без учёта регистра. Пути не допускаются.",
);

pub const NO_RULES: (&'static str, &'static str) = (
    "No explicit process rules are configured.",
    "Явные правила процессов не настроены.",
);

pub const NO_RULES_HINT: (&'static str, &'static str) = (
    "Use Add process rule to create one.",
    "Нажмите «Добавить правило процесса», чтобы создать его.",
);

pub const STATE_UNSAVED: (&'static str, &'static str) = (
    "Unsaved changes",
    "Есть несохранённые изменения",
);

pub const STATE_NOT_TAKEN: (&'static str, &'static str) = (
    "Saved; Apply to retry service",
    "Сохранено; нажмите «Применить» для повтора",
);

pub const STATE_SAVED: (&'static str, &'static str) = ("Saved", "Сохранено");

pub const RESTORE_QUESTION: (&'static str, &'static str) = (
    "Restore every setting and remove all process rules?",
    "Восстановить все настройки и удалить все правила процессов?",
);

pub const RESTORE_NOTE: (&'static str, &'static str) = (
    "Defaults are loaded into the editor first; Apply is still required to save them.",
    "Сначала значения по умолчанию будут загружены в редактор; для сохранения всё равно потребуется нажать «Применить».",
);

pub const RESTORE_YES: (&'static str, &'static str) = (
    "Confirm restore defaults",
    "Подтвердить восстановление",
);

pub const RESTORE_NO: (&'static str, &'static str) = (
    "Keep current settings",
    "Оставить текущие настройки",
);

pub const CANCEL_QUESTION: (&'static str, &'static str) = (
    "Discard every unsaved change in the editor?",
    "Отменить все несохранённые изменения в редакторе?",
);

pub const CANCEL_NOTE: (&'static str, &'static str) = (
    "The saved configuration on disk will remain unchanged.",
    "Сохранённая на диске конфигурация не изменится.",
);

pub const CANCEL_YES: (&'static str, &'static str) = (
    "Discard editor changes",
    "Отменить изменения редактора",
);

pub const KEEP_EDITING: (&'static str, &'static str) = (
    "Keep editing",
    "Продолжить редактирование",
);

pub const CLOSE_QUESTION: (&'static str, &'static str) = (
    "Close and permanently discard unsaved changes?",
    "Закрыть окно и безвозвратно отменить несохранённые изменения?",
);

pub const CLOSE_NOTE: (&'static str, &'static str) = (
    "Choose Apply first if you want to keep these edits.",
    "Если изменения нужно сохранить, сначала нажмите «Применить».",
);

pub const CLOSE_YES: (&'static str, &'static str) = (
    "Discard changes and close",
    "Отменить изменения и закрыть",
);

pub const RULE_TITLE: (&'static str, &'static str) = ("Rule", "Правило");

pub const REMOVE_RULE: (&'static str, &'static str) = ("Remove rule", "Удалить правило");

pub const STRICT_NOTE: (&'static str, &'static str) = (
    "Strict pins the process to the specified processor group and cache domain.",
    "Строгий режим закрепляет процесс за указанной группой процессоров и доменом кеша.",
);

pub const IMAGE_LABEL: (&'static str, &'static str) = (
    "Executable image name",
    "Имя исполняемого файла",
);

pub const IMAGE_HELP: (&'static str, &'static str) = (
    "Enter only the executable file name, for example game.exe. Matching is exact and case-insensitive; paths and wildcards are rejected.",
    "Укажите только имя исполняемого файла, например game.exe. Сопоставление точное и без учёта регистра; пути и маски не допускаются.",
);

pub const PLACEMENT_LABEL: (&'static str, &'static str) = ("Placement mode", "Режим размещения");

pub const PROFILE_LABEL: (&'static str, &'static str) = ("Workload profile", "Профиль нагрузки");

pub const STRICT_HELP: (&'static str, &'static str) = (
    "Strict mode uses this Windows processor group and LLC index exactly. Use winsched topology to discover valid values.",
    "Строгий режим точно использует эту группу процессоров Windows и индекс LLC. Допустимые значения можно узнать командой winsched topology.",
);

pub const GROUP_LABEL: (&'static str, &'static str) = ("Processor group", "Группа процессоров");

pub const LLC_LABEL: (&'static str, &'static str) = (
    "Last-level cache index",
    "Индекс кеша последнего уровня",
);

pub const ADD_RULE: (&'static str, &'static str) = (
    "Add process rule",
    "Добавить правило процесса",
);

pub const RULE_MODE_PART: (&'static str, &'static str) = ("placement mode", "режим размещения");

pub const RULE_PROFILE_PART: (&'static str, &'static str) = (
    "workload profile",
    "профиль нагрузки",
);

pub const TAB_GENERAL: (&'static str, &'static str) = ("General", "Основные");

pub const TAB_ADAPTIVE: (&'static str, &'static str) = ("Adaptive", "Адаптивный режим");

pub const TAB_RESPONSIVENESS: (&'static str, &'static str) = ("Responsiveness", "Отзывчивость");

pub const TAB_BACKGROUND: (&'static str, &'static str) = ("Background", "Фоновые задачи");

pub const TAB_LOGGING: (&'static str, &'static str) = ("Logging", "Журнал");

pub const TAB_DIAGNOSTICS: (&'static str, &'static str) = ("Diagnostics", "Диагностика");

pub const BANNER_INFORMATION: (&'static str, &'static str) = ("Information", "Информация");

pub const BANNER_SUCCESS: (&'static str, &'static str) = ("Success", "Готово");

pub const BANNER_ERROR: (&'static str, &'static str) = ("Error", "Ошибка");

pub const RELOAD_BUTTON: (&'static str, &'static str) = (
    "Reload from disk",
    "Перезагрузить с диска",
);

pub const RESTORE_BUTTON: (&'static str, &'static str) = (
    "Restore defaults...",
    "Восстановить значения по умолчанию...",
);

pub const CANCEL_BUTTON: (&'static str, &'static str) = ("Cancel changes", "Отменить изменения");

pub const CLOSE_BUTTON: (&'static str, &'static str) = ("Close", "Закрыть");

pub const APPLY_BUTTON: (&'static str, &'static str) = ("Apply", "Применить");

pub const RUN_BUTTON: (&'static str, &'static str) = (
    "Run passive 10-second diagnostic",
    "Запустить пассивную диагностику на 10 секунд",
);

pub const RUN_HELP: (&'static str, &'static str) = (
    "Runs in a background worker so the Settings window remains responsive.",
    "Выполняется в фоновом потоке, поэтому окно настроек остаётся отзывчивым.",
);

pub const STOP_BUTTON: (&'static str, &'static str) = ("Cancel", "Отменить");

pub const STOP_HELP: (&'static str, &'static str) = (
    "Stops after the current bounded sample.",
    "Останавливает диагностику после текущего ограниченного измерения.",
);

pub const MEASUREMENTS_HEADING: (&'static str, &'static str) = ("Measurements", "Измерения");

pub const FINDINGS_HEADING: (&'static str, &'static str) = ("Findings", "Выводы");

pub const COPY_BUTTON: (&'static str, &'static str) = ("Copy JSON", "Копировать JSON");

pub const COPY_HELP: (&'static str, &'static str) = (
    "Copies the privacy-safe report without window titles or user paths.",
    "Копирует безопасный отчёт без заголовков окон и пользовательских путей.",
);

pub const SAVE_BUTTON: (&'static str, &'static str) = (
    "Save JSON to Downloads",
    "Сохранить JSON в Загрузки",
);

pub const SAVE_HELP: (&'static str, &'static str) = (
    "Writes one report only after this explicit action.",
    "Записывает один отчёт только после этого явного действия.",
);

pub const WINDOW_TITLE: (&'static str, &'static str) = ("WinSched Settings", "Настройки WinSched");

pub const LANGUAGE_LABEL: (&'static str, &'static str) = ("Language", "Язык");

} // verus!
