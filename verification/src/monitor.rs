//! The window of the process monitor.
use vstd::prelude::*;

use crate::language::Language;
use crate::observations::ControllerMode;
use crate::observations::ResolvedRule;
use crate::panel::ItemKind;
use crate::panel::ItemView;
use crate::panel::Panel;
use crate::process::KeyMap;
use crate::process::ProcessKey;
use crate::process_rows::build_rows;
use crate::process_rows::collect_cpu_times;
use crate::process_rows::MonitoredProcess;
use crate::process_rows::ProcessRow;
use crate::process_rows::RowContext;
use crate::process_rows::RowView;
use crate::provision::is_missing_service_error;
use crate::provision::ServiceState;
use crate::rules::ProcessRule;
use crate::template::fill;
use crate::template::Blanks;
use crate::text::push_decimal;
use crate::text::push_signed;
use crate::text::same_text;
use crate::tray::mode_label;

verus! {

/// After how many milliseconds the processes are looked at again.
pub const REFRESH_INTERVAL_MS: u64 = 1_000;

/// After how many milliseconds an active window is drawn again.
pub const ACTIVE_REPAINT_INTERVAL_MS: u64 = 100;

/// After how many milliseconds without an update a status is old.
pub const STATUS_STALE_AFTER_MS: u64 = 75_000;

/// The version of the journal of placed processes that the monitor reads.
pub const MANAGED_STATE_SCHEMA_VERSION: u32 = 2;

/// Whether the processes are looked at: the window has the focus, and is
/// neither minimised nor hidden.
pub open spec fn is_sampling(
    focused: Option<bool>,
    minimized: Option<bool>,
    occluded: Option<bool>,
) -> bool {
    focused == Some(true) && minimized != Some(true) && occluded != Some(true)
}

/// Whether the processes are looked at.
pub fn sampling_active(focused: Option<bool>, minimized: Option<bool>, occluded: Option<bool>) -> (
active: bool)
    ensures
        active == is_sampling(focused, minimized, occluded),
{
    matches!(focused, Some(true)) && !matches!(minimized, Some(true)) && !matches!(
        occluded,
        Some(true)
    )
}

/// What the monitor knows of the service.
#[derive(Debug, Clone, Copy, PartialEq, Eq, Structural)]
pub enum MonitoredService {
    Missing,
    Stopped,
    Running,
    StartPending,
    StopPending,
    Other,
    Error,
}

/// What asking for the state of the service gave.
#[derive(Debug, Clone, Copy, PartialEq, Eq, Structural)]
pub enum ServiceAnswer {
    State(ServiceState),
    /// The operating system refused with this error, if it gave one.
    Refused(Option<i32>),
}

/// What an answer says of the service.
pub open spec fn service_of(answer: ServiceAnswer) -> MonitoredService {
    match answer {
        ServiceAnswer::State(ServiceState::Stopped) => MonitoredService::Stopped,
        ServiceAnswer::State(ServiceState::Running) => MonitoredService::Running,
        ServiceAnswer::State(ServiceState::StartPending) => MonitoredService::StartPending,
        ServiceAnswer::State(ServiceState::StopPending) => MonitoredService::StopPending,
        ServiceAnswer::State(_) => MonitoredService::Other,
        ServiceAnswer::Refused(error) => if error == Some(1060i32) {
            MonitoredService::Missing
        } else {
            MonitoredService::Error
        },
    }
}

/// Says what an answer says of the service.
pub fn query_service_state(answer: ServiceAnswer) -> (service: MonitoredService)
    ensures
        service == service_of(answer),
{
    match answer {
        ServiceAnswer::State(ServiceState::Stopped) => MonitoredService::Stopped,
        ServiceAnswer::State(ServiceState::Running) => MonitoredService::Running,
        ServiceAnswer::State(ServiceState::StartPending) => MonitoredService::StartPending,
        ServiceAnswer::State(ServiceState::StopPending) => MonitoredService::StopPending,
        ServiceAnswer::State(_) => MonitoredService::Other,
        ServiceAnswer::Refused(error) => if is_missing_service_error(error) {
            MonitoredService::Missing
        } else {
            MonitoredService::Error
        },
    }
}

/// The word for the state of the service.
pub open spec fn service_word(state: MonitoredService, language: Language) -> Seq<char> {
    match state {
        MonitoredService::Missing => language.said("Missing"@, "Не установлена"@),
        MonitoredService::Stopped => language.said("Stopped"@, "Остановлена"@),
        MonitoredService::Running => language.said("Running"@, "Работает"@),
        MonitoredService::StartPending => language.said("Starting"@, "Запускается"@),
        MonitoredService::StopPending => language.said("Stopping"@, "Останавливается"@),
        MonitoredService::Other => language.said("Other"@, "Другое"@),
        MonitoredService::Error => language.said("Unavailable"@, "Недоступна"@),
    }
}

/// The word for the state of the service.
pub fn service_label(state: MonitoredService, language: Language) -> (text: &'static str)
    ensures
        text@ == service_word(state, language),
{
    match state {
        MonitoredService::Missing => language.text("Missing", "Не установлена"),
        MonitoredService::Stopped => language.text("Stopped", "Остановлена"),
        MonitoredService::Running => language.text("Running", "Работает"),
        MonitoredService::StartPending => language.text("Starting", "Запускается"),
        MonitoredService::StopPending => language.text("Stopping", "Останавливается"),
        MonitoredService::Other => language.text("Other", "Другое"),
        MonitoredService::Error => language.text("Unavailable", "Недоступна"),
    }
}

/// The plain word for the state of the service.
pub open spec fn service_identifier(state: MonitoredService) -> Seq<char> {
    match state {
        MonitoredService::Missing => "Missing"@,
        MonitoredService::Stopped => "Stopped"@,
        MonitoredService::Running => "Running"@,
        MonitoredService::StartPending => "StartPending"@,
        MonitoredService::StopPending => "StopPending"@,
        MonitoredService::Other => "Other"@,
        MonitoredService::Error => "Error"@,
    }
}

fn service_identifier_text(state: MonitoredService) -> (text: &'static str)
    ensures
        text@ == service_identifier(state),
{
    match state {
        MonitoredService::Missing => "Missing",
        MonitoredService::Stopped => "Stopped",
        MonitoredService::Running => "Running",
        MonitoredService::StartPending => "StartPending",
        MonitoredService::StopPending => "StopPending",
        MonitoredService::Other => "Other",
        MonitoredService::Error => "Error",
    }
}

/// What the monitor shows of the status of the controller.
#[derive(Debug)]
pub struct HeaderStatus {
    pub schema_version: u32,
    pub scheduling_enabled: bool,
    pub managed_processes: usize,
    pub configured_mode: ControllerMode,
    pub updated_at_unix_ms: u64,
    pub reserved_physical_cores: usize,
    pub physical_core_count: usize,
    pub p99_lateness_us: u64,
    pub background_managed: usize,
    pub background_protected: usize,
    pub last_activity: Option<String>,
    pub last_error: Option<String>,
}

/// The status of the controller, with its texts as sequences.
#[verifier::ext_equal]
pub struct HeaderStatusView {
    pub schema_version: u32,
    pub scheduling_enabled: bool,
    pub managed_processes: usize,
    pub configured_mode: ControllerMode,
    pub updated_at_unix_ms: u64,
    pub reserved_physical_cores: usize,
    pub physical_core_count: usize,
    pub p99_lateness_us: u64,
    pub background_managed: usize,
    pub background_protected: usize,
    pub last_activity: Option<Seq<char>>,
    pub last_error: Option<Seq<char>>,
}

impl View for HeaderStatus {
    type V = HeaderStatusView;

    open spec fn view(&self) -> HeaderStatusView {
        HeaderStatusView {
            schema_version: self.schema_version,
            scheduling_enabled: self.scheduling_enabled,
            managed_processes: self.managed_processes,
            configured_mode: self.configured_mode,
            updated_at_unix_ms: self.updated_at_unix_ms,
            reserved_physical_cores: self.reserved_physical_cores,
            physical_core_count: self.physical_core_count,
            p99_lateness_us: self.p99_lateness_us,
            background_managed: self.background_managed,
            background_protected: self.background_protected,
            last_activity: self.last_activity.deep_view(),
            last_error: self.last_error.deep_view(),
        }
    }
}

/// Nothing in the header can be changed.
#[derive(Debug, Clone, Copy, PartialEq, Eq, Structural)]
pub struct NoField;

pub const MONITOR_TITLE: (&'static str, &'static str) = (
    "WinSched Process Monitor",
    "Монитор процессов WinSched",
);

pub const SETTINGS_ENTRY: (&'static str, &'static str) = ("Settings…", "Настройки…");

pub const REFRESH_ENTRY: (&'static str, &'static str) = ("Refresh", "Обновить");

pub const FILTER_LABEL: (&'static str, &'static str) = ("Filter", "Фильтр");

pub const ALL_SESSIONS_LABEL: (&'static str, &'static str) = (
    "Show all sessions and system processes",
    "Показывать все сеансы и системные процессы",
);

pub const PAUSED_NOTE: (&'static str, &'static str) = (
    "Sampling paused while the window is inactive.",
    "Опрос приостановлен, пока окно неактивно.",
);

pub const MONITOR_HEADING: (&'static str, &'static str) = ("WinSched Processes", "Процессы WinSched");

pub const SERVICE_LINE: (&'static str, &'static str) = ("Service: {}", "Служба: {}");

pub const SCHEDULING_LINE: (&'static str, &'static str) = ("Scheduling: {}", "Планирование: {}");

pub const SCHEDULING_ON: (&'static str, &'static str) = ("Enabled", "Включено");

pub const SCHEDULING_OFF: (&'static str, &'static str) = ("Disabled", "Выключено");

pub const MANAGED_LINE: (&'static str, &'static str) = ("Managed: {}", "Управляются: {}");

pub const MODE_LINE: (&'static str, &'static str) = ("Mode: {}", "Режим: {}");

pub const SNAPSHOTS_LINE: (&'static str, &'static str) = ("Snapshots: {}", "Снимки: {}");

pub const STALE_LINE: (&'static str, &'static str) = (
    "Service status heartbeat is stale.",
    "Данные службы устарели.",
);

pub const RESERVE_LINE: (&'static str, &'static str) = (
    "System reserve: {}/{} cores",
    "Системный резерв: {}/{} ядер",
);

pub const LATENCY_LINE: (&'static str, &'static str) = (
    "Scheduler p99: {} µs",
    "Scheduler p99: {} µs",
);

pub const BACKGROUND_LINE: (&'static str, &'static str) = (
    "Background: {} managed / {} protected",
    "Background: {} управляются / {} защищены",
);

pub const ACTIVITY_LINE: (&'static str, &'static str) = (
    "Last activity: {}",
    "Последняя активность: {}",
);

pub const ERROR_LINE: (&'static str, &'static str) = ("Error: {}", "Ошибка: {}");

/// One value for a template.
pub open spec fn one(value: Seq<char>) -> Seq<Seq<char>> {
    Seq::empty().push(value)
}

/// Two values for a template.
pub open spec fn two(first: Seq<char>, second: Seq<char>) -> Seq<Seq<char>> {
    Seq::empty().push(first).push(second)
}

/// The first line of the header.
pub open spec fn header_line(
    language: Language,
    service: MonitoredService,
    status: Option<HeaderStatusView>,
    snapshot_count: u64,
) -> Seq<ItemView<NoField>> {
    let start = Seq::empty().push(
        crate::panel::saying(ItemKind::Heading, language.words(MONITOR_HEADING)),
    ).push(
        crate::panel::saying(
            ItemKind::Label,
            crate::template::filled(
                language.words(SERVICE_LINE),
                one(service_word(service, language)),
            ),
        ),
    );
    let known = match status {
        Some(status) => start.push(
            crate::panel::saying(
                ItemKind::Label,
                crate::template::filled(
                    language.words(SCHEDULING_LINE),
                    one(
                        language.words(
                            if status.scheduling_enabled {
                                SCHEDULING_ON
                            } else {
                                SCHEDULING_OFF
                            },
                        ),
                    ),
                ),
            ),
        ).push(
            crate::panel::saying(
                ItemKind::Label,
                crate::template::filled(
                    language.words(MANAGED_LINE),
                    one(crate::text::decimal(status.managed_processes as nat)),
                ),
            ),
        ).push(
            crate::panel::saying(
                ItemKind::Label,
                crate::template::filled(
                    language.words(MODE_LINE),
                    one(crate::tray::mode_word(status.configured_mode)),
                ),
            ),
        ),
        None => start,
    };
    known.push(
        crate::panel::saying(
            ItemKind::Label,
            crate::template::filled(
                language.words(SNAPSHOTS_LINE),
                one(crate::text::decimal(snapshot_count as nat)),
            ),
        ),
    )
}

/// What stands below the first line of the header.
pub open spec fn header_details(
    language: Language,
    status: Option<HeaderStatusView>,
    own_error: Option<Seq<char>>,
    now_unix_ms: u64,
) -> Seq<ItemView<NoField>> {
    let known = match status {
        None => Seq::empty(),
        Some(status) => {
            let start = if now_unix_ms > status.updated_at_unix_ms && now_unix_ms
                - status.updated_at_unix_ms > STATUS_STALE_AFTER_MS {
                Seq::empty().push(
                    crate::panel::saying(ItemKind::Warning, language.words(STALE_LINE)),
                )
            } else {
                Seq::empty()
            };
            let said = start.push(
                crate::panel::saying(
                    ItemKind::Label,
                    crate::template::filled(
                        language.words(RESERVE_LINE),
                        two(
                            crate::text::decimal(status.reserved_physical_cores as nat),
                            crate::text::decimal(status.physical_core_count as nat),
                        ),
                    ),
                ),
            ).push(
                crate::panel::saying(
                    ItemKind::Label,
                    crate::template::filled(
                        language.words(LATENCY_LINE),
                        one(crate::text::decimal(status.p99_lateness_us as nat)),
                    ),
                ),
            ).push(
                crate::panel::saying(
                    ItemKind::Label,
                    crate::template::filled(
                        language.words(BACKGROUND_LINE),
                        two(
                            crate::text::decimal(status.background_managed as nat),
                            crate::text::decimal(status.background_protected as nat),
                        ),
                    ),
                ),
            ).push(
                crate::panel::saying(
                    ItemKind::Label,
                    crate::template::filled(
                        language.words(ACTIVITY_LINE),
                        one(
                            match status.last_activity {
                                Some(activity) => activity,
                                None => "\u{2014}"@,
                            },
                        ),
                    ),
                ),
            );
            match status.last_error {
                Some(error) => said.push(
                    crate::panel::saying(
                        ItemKind::Failure,
                        crate::template::filled(language.words(ERROR_LINE), one(error)),
                    ),
                ),
                None => said,
            }
        },
    };
    match own_error {
        Some(error) => known.push(crate::panel::saying(ItemKind::Failure, error)),
        None => known,
    }
}

/// The status as far as it is known, with its texts as sequences.
pub open spec fn known_status(status: Option<HeaderStatus>) -> Option<HeaderStatusView> {
    match status {
        Some(status) => Some(status@),
        None => None,
    }
}

fn build_header_line(
    language: Language,
    service: MonitoredService,
    status: &Option<HeaderStatus>,
    snapshot_count: u64,
) -> (panel: Panel<NoField>)
    ensures
        panel@ == header_line(language, service, known_status(*status), snapshot_count),
{
    let mut panel: Panel<NoField> = Panel::new();
    panel.say(ItemKind::Heading, language.phrase(MONITOR_HEADING));
    panel.say(
        ItemKind::Label,
        fill(
            language.phrase(SERVICE_LINE),
            &Blanks::new().text(service_label(service, language)),
        ).as_str(),
    );
    if let Some(status) = status {
        let scheduling = if status.scheduling_enabled {
            language.phrase(SCHEDULING_ON)
        } else {
            language.phrase(SCHEDULING_OFF)
        };
        panel.say(
            ItemKind::Label,
            fill(language.phrase(SCHEDULING_LINE), &Blanks::new().text(scheduling)).as_str(),
        );
        panel.say(
            ItemKind::Label,
            fill(
                language.phrase(MANAGED_LINE),
                &Blanks::new().number(status.managed_processes as u64),
            ).as_str(),
        );
        panel.say(
            ItemKind::Label,
            fill(
                language.phrase(MODE_LINE),
                &Blanks::new().text(mode_label(status.configured_mode)),
            ).as_str(),
        );
    }
    panel.say(
        ItemKind::Label,
        fill(language.phrase(SNAPSHOTS_LINE), &Blanks::new().number(snapshot_count)).as_str(),
    );
    panel
}

fn build_header_details(
    language: Language,
    status: &Option<HeaderStatus>,
    own_error: &Option<String>,
    now_unix_ms: u64,
) -> (panel: Panel<NoField>)
    ensures
        panel@ == header_details(
            language,
            known_status(*status),
            own_error.deep_view(),
            now_unix_ms,
        ),
{
    let mut panel: Panel<NoField> = Panel::new();
    if let Some(status) = status {
        if now_unix_ms.saturating_sub(status.updated_at_unix_ms) > STATUS_STALE_AFTER_MS {
            panel.say(ItemKind::Warning, language.phrase(STALE_LINE));
        }
        panel.say(
            ItemKind::Label,
            fill(
                language.phrase(RESERVE_LINE),
                &Blanks::new().number(status.reserved_physical_cores as u64).number(
                    status.physical_core_count as u64,
                ),
            ).as_str(),
        );
        panel.say(
            ItemKind::Label,
            fill(
                language.phrase(LATENCY_LINE),
                &Blanks::new().number(status.p99_lateness_us),
            ).as_str(),
        );
        panel.say(
            ItemKind::Label,
            fill(
                language.phrase(BACKGROUND_LINE),
                &Blanks::new().number(status.background_managed as u64).number(
                    status.background_protected as u64,
                ),
            ).as_str(),
        );
        let activity = match &status.last_activity {
            Some(activity) => activity.as_str(),
            None => "\u{2014}",
        };
        panel.say(
            ItemKind::Label,
            fill(language.phrase(ACTIVITY_LINE), &Blanks::new().text(activity)).as_str(),
        );
        if let Some(error) = &status.last_error {
            panel.say(
                ItemKind::Failure,
                fill(language.phrase(ERROR_LINE), &Blanks::new().text(error.as_str())).as_str(),
            );
        }
    }
    if let Some(error) = own_error {
        panel.say(ItemKind::Failure, error.as_str());
    }
    panel
}

/// What was seen when the processes were looked at.
#[derive(Debug)]
pub struct Snapshot {
    pub captured_ns: u64,
    pub service: MonitoredService,
    pub status: Option<HeaderStatus>,
    /// The rules, where the settings could be read.
    pub rules: Option<Vec<ProcessRule>>,
    pub managed: Vec<ProcessKey>,
    pub processes: Vec<MonitoredProcess>,
    /// What the settings make of each process.
    pub resolved: Vec<Option<ResolvedRule>>,
}

impl Snapshot {
    /// Whether the settings were asked about each process.
    pub open spec fn complete(&self) -> bool {
        self.resolved.len() == self.processes.len()
    }
}

/// The window of the monitor.
#[derive(Debug)]
pub struct ProcessMonitor {
    language: Language,
    rows: Vec<ProcessRow>,
    service: MonitoredService,
    status: Option<HeaderStatus>,
    pending: bool,
    next_refresh_ms: u64,
    last_capture_ns: Option<u64>,
    prior_cpu: KeyMap<u64>,
    last_error: Option<String>,
    last_active: bool,
    snapshot_count: u64,
    snapshots_started: u64,
}

/// The window of the monitor, with its texts as sequences.
#[verifier::ext_equal]
pub struct MonitorView {
    pub language: Language,
    pub rows: Seq<RowView>,
    pub service: MonitoredService,
    pub status: Option<HeaderStatusView>,
    /// Whether the processes are being looked at.
    pub pending: bool,
    pub next_refresh_ms: u64,
    pub last_capture_ns: Option<u64>,
    pub prior_cpu: Map<ProcessKey, u64>,
    pub last_error: Option<Seq<char>>,
    pub last_active: bool,
    pub snapshot_count: u64,
    pub snapshots_started: u64,
}

impl View for ProcessMonitor {
    type V = MonitorView;

    closed spec fn view(&self) -> MonitorView {
        MonitorView {
            language: self.language,
            rows: crate::process_rows::row_views(self.rows@),
            service: self.service,
            status: known_status(self.status),
            pending: self.pending,
            next_refresh_ms: self.next_refresh_ms,
            last_capture_ns: self.last_capture_ns,
            prior_cpu: self.prior_cpu@,
            last_error: self.last_error.deep_view(),
            last_active: self.last_active,
            snapshot_count: self.snapshot_count,
            snapshots_started: self.snapshots_started,
        }
    }
}

/// The time of the next look, if the last one ended now.
pub open spec fn next_look(now_ms: u64) -> u64 {
    if now_ms + REFRESH_INTERVAL_MS > u64::MAX {
        u64::MAX
    } else {
        (now_ms + REFRESH_INTERVAL_MS) as u64
    }
}

/// A number that is one more, as far as it can be.
pub open spec fn counted_up(count: u64) -> u64 {
    if count == u64::MAX {
        u64::MAX
    } else {
        (count + 1) as u64
    }
}

/// Whether the processes are to be looked at now: the window is active, no
/// look is under way and the time has come.
pub open spec fn starts_look(view: MonitorView, active: bool, now_ms: u64) -> bool {
    active && !view.pending && now_ms >= view.next_refresh_ms
}

/// The window after the time was looked at. A window that has just become
/// inactive looks at the processes at once when it is active again.
pub open spec fn looked(view: MonitorView, active: bool, now_ms: u64) -> MonitorView {
    MonitorView {
        next_refresh_ms: if !active && view.last_active {
            now_ms
        } else {
            view.next_refresh_ms
        },
        last_active: active,
        ..view
    }
}

/// The window after a look began.
pub open spec fn look_begun(view: MonitorView) -> MonitorView {
    if view.pending {
        view
    } else {
        MonitorView {
            pending: true,
            snapshots_started: counted_up(view.snapshots_started),
            ..view
        }
    }
}

/// The window after a look failed.
pub open spec fn look_failed(view: MonitorView, error: Seq<char>, now_ms: u64) -> MonitorView {
    MonitorView {
        pending: false,
        last_error: Some(error),
        next_refresh_ms: next_look(now_ms),
        ..view
    }
}

/// How long before this snapshot the last one was taken, if there was one.
pub open spec fn elapsed_since(last_capture_ns: Option<u64>, captured_ns: u64) -> Option<u128> {
    match last_capture_ns {
        Some(previous) => Some(
            if captured_ns > previous {
                (captured_ns - previous) as u128
            } else {
                0
            },
        ),
        None => None,
    }
}

/// The window after a look succeeded.
pub open spec fn look_done(view: MonitorView, snapshot: Snapshot, now_ms: u64) -> MonitorView {
    MonitorView {
        rows: crate::process_rows::table(
            RowContext {
                elapsed_ns: elapsed_since(view.last_capture_ns, snapshot.captured_ns),
                prior_cpu: view.prior_cpu,
                managed: snapshot.managed@,
                rules: match snapshot.rules {
                    Some(rules) => Some(crate::rules::rule_views(rules@)),
                    None => None,
                },
                resolved: snapshot.resolved@,
            },
            snapshot.processes@,
        ),
        service: snapshot.service,
        status: known_status(snapshot.status),
        pending: false,
        next_refresh_ms: next_look(now_ms),
        last_capture_ns: Some(snapshot.captured_ns),
        prior_cpu: crate::process_rows::cpu_times(snapshot.processes@),
        last_error: None,
        snapshot_count: counted_up(view.snapshot_count),
        ..view
    }
}

impl ProcessMonitor {
    pub closed spec fn wf(&self) -> bool {
        self.prior_cpu.wf()
    }

    /// A window that has seen nothing yet.
    pub fn new(language: Language, now_ms: u64) -> (monitor: Self)
        ensures
            monitor.wf(),
            monitor@ == (MonitorView {
                language,
                rows: Seq::empty(),
                service: MonitoredService::Error,
                status: None,
                pending: false,
                next_refresh_ms: now_ms,
                last_capture_ns: None,
                prior_cpu: Map::empty(),
                last_error: None,
                last_active: true,
                snapshot_count: 0,
                snapshots_started: 0,
            }),
    {
        let monitor = ProcessMonitor {
            language,
            rows: Vec::new(),
            service: MonitoredService::Error,
            status: None,
            pending: false,
            next_refresh_ms: now_ms,
            last_capture_ns: None,
            prior_cpu: KeyMap::new(),
            last_error: None,
            last_active: true,
            snapshot_count: 0,
            snapshots_started: 0,
        };
        proof {
            assert(monitor@.rows =~= Seq::<RowView>::empty());
        }
        monitor
    }

    /// Says whether the processes are to be looked at now.
    pub fn tick(&mut self, active: bool, now_ms: u64) -> (start: bool)
        requires
            old(self).wf(),
        ensures
            final(self).wf(),
            start == starts_look(old(self)@, active, now_ms),
            final(self)@ == looked(old(self)@, active, now_ms),
    {
        let mut start = false;
        if active {
            start = !self.pending && now_ms >= self.next_refresh_ms;
        } else if self.last_active {
            self.next_refresh_ms = now_ms;
        }
        self.last_active = active;
        start
    }

    /// Begins a look, unless one is under way, and says whether it did.
    pub fn start_refresh(&mut self) -> (started: bool)
        requires
            old(self).wf(),
        ensures
            final(self).wf(),
            started == !old(self)@.pending,
            final(self)@ == look_begun(old(self)@),
    {
        if self.pending {
            return false;
        }
        self.pending = true;
        self.snapshots_started = self.snapshots_started.saturating_add(1);
        true
    }

    /// Takes an error that stops nothing.
    pub fn note_error(&mut self, error: String)
        requires
            old(self).wf(),
        ensures
            final(self).wf(),
            final(self)@ == (MonitorView { last_error: Some(error@), ..old(self)@ }),
    {
        self.last_error = Some(error);
    }

    /// Takes that the file for the test observer could not be written.
    pub fn note_observation_failure(&mut self, error: &str)
        requires
            old(self).wf(),
        ensures
            final(self).wf(),
            final(self)@ == (MonitorView {
                last_error: Some("cannot write test observation: "@ + error@),
                ..old(self)@
            }),
    {
        let mut text = "cannot write test observation: ".to_owned();
        text.append(error);
        self.last_error = Some(text);
    }

    /// Takes that a look could not be begun after all.
    pub fn note_start_failure(&mut self, error: &str)
        requires
            old(self).wf(),
        ensures
            final(self).wf(),
            final(self)@ == (MonitorView {
                pending: false,
                last_error: Some("cannot start snapshot worker: "@ + error@),
                ..old(self)@
            }),
    {
        let mut text = "cannot start snapshot worker: ".to_owned();
        text.append(error);
        self.pending = false;
        self.last_error = Some(text);
    }

    /// Takes that a look failed.
    pub fn take_failure(&mut self, error: String, now_ms: u64)
        requires
            old(self).wf(),
        ensures
            final(self).wf(),
            final(self)@ == look_failed(old(self)@, error@, now_ms),
    {
        self.pending = false;
        self.last_error = Some(error);
        self.next_refresh_ms = now_ms.saturating_add(REFRESH_INTERVAL_MS);
    }

    /// Takes that a look ended without saying how.
    pub fn take_disconnect(&mut self, now_ms: u64)
        requires
            old(self).wf(),
        ensures
            final(self).wf(),
            final(self)@ == look_failed(
                old(self)@,
                "snapshot worker exited without a result"@,
                now_ms,
            ),
    {
        self.take_failure("snapshot worker exited without a result".to_owned(), now_ms);
    }

    /// Takes what was seen.
    pub fn apply_snapshot(&mut self, snapshot: Snapshot, now_ms: u64)
        requires
            old(self).wf(),
            snapshot.complete(),
        ensures
            final(self).wf(),
            final(self)@ == look_done(old(self)@, snapshot, now_ms),
    {
        let elapsed_ns: Option<u128> = match self.last_capture_ns {
            Some(previous) => Some(snapshot.captured_ns.saturating_sub(previous) as u128),
            None => None,
        };
        self.rows =
        build_rows(
            &snapshot.processes,
            elapsed_ns,
            &self.prior_cpu,
            &snapshot.managed,
            snapshot.rules.as_ref(),
            &snapshot.resolved,
        );
        self.prior_cpu = collect_cpu_times(&snapshot.processes);
        self.last_capture_ns = Some(snapshot.captured_ns);
        self.service = snapshot.service;
        self.status = snapshot.status;
        self.pending = false;
        self.last_error = None;
        self.snapshot_count = self.snapshot_count.saturating_add(1);
        self.next_refresh_ms = now_ms.saturating_add(REFRESH_INTERVAL_MS);
    }

    /// Asks for a look as soon as possible.
    pub fn request_refresh(&mut self, now_ms: u64)
        requires
            old(self).wf(),
        ensures
            final(self).wf(),
            final(self)@ == (MonitorView { next_refresh_ms: now_ms, ..old(self)@ }),
    {
        self.next_refresh_ms = now_ms;
    }

    /// The lines of the table.
    pub fn rows(&self) -> (rows: &Vec<ProcessRow>)
        ensures
            crate::process_rows::row_views(rows@) == self@.rows,
    {
        &self.rows
    }

    /// Whether a look is under way.
    pub fn is_pending(&self) -> (pending: bool)
        ensures
            pending == self@.pending,
    {
        self.pending
    }

    /// Whether the window was active when last looked at.
    pub fn was_active(&self) -> (active: bool)
        ensures
            active == self@.last_active,
    {
        self.last_active
    }

    /// How many looks were begun.
    pub fn snapshots_started(&self) -> (count: u64)
        ensures
            count == self@.snapshots_started,
    {
        self.snapshots_started
    }

    /// The first line of the header, and what stands below it.
    pub fn status_header(&self, now_unix_ms: u64) -> (header: (Panel<NoField>, Panel<NoField>))
        ensures
            header.0@ == header_line(
                self@.language,
                self@.service,
                self@.status,
                self@.snapshot_count,
            ),
            header.1@ == header_details(
                self@.language,
                self@.status,
                self@.last_error,
                now_unix_ms,
            ),
    {
        (
            build_header_line(self.language, self.service, &self.status, self.snapshot_count),
            build_header_details(self.language, &self.status, &self.last_error, now_unix_ms),
        )
    }
}

/// A window that is not active never looks at the processes, and one that
/// looks does not begin another look.
pub proof fn looks_need_an_active_window(view: MonitorView, active: bool, now_ms: u64)
    ensures
        !active ==> !starts_look(view, active, now_ms),
        view.pending ==> !starts_look(view, active, now_ms) && look_begun(view) == view,
        !starts_look(look_begun(view), active, now_ms),
{
}

/// A window that was left looks at the processes at once when it is active
/// again, unless it is still looking.
pub proof fn returning_windows_look_at_once(view: MonitorView, left_ms: u64, back_ms: u64)
    requires
        view.last_active,
        !view.pending,
        left_ms <= back_ms,
    ensures
        starts_look(looked(view, false, left_ms), true, back_ms),
{
}

/// While the window stays active, looks are begun no sooner than a refresh
/// interval after the last one ended.
pub proof fn looks_keep_their_distance(
    view: MonitorView,
    snapshot: Snapshot,
    error: Seq<char>,
    ended_ms: u64,
    now_ms: u64,
)
    requires
        ended_ms + REFRESH_INTERVAL_MS <= u64::MAX,
    ensures
        starts_look(look_done(view, snapshot, ended_ms), true, now_ms) <==> now_ms >= ended_ms
            + REFRESH_INTERVAL_MS,
        starts_look(look_failed(view, error, ended_ms), true, now_ms) <==> now_ms >= ended_ms
            + REFRESH_INTERVAL_MS,
{
}

/// The sessions whose processes are looked at: all, or only the own one.
pub fn session_filter(show_all_sessions: bool, current_session: u32) -> (only: Option<u32>)
    ensures
        only == if show_all_sessions {
            None
        } else {
            Some(current_session)
        },
{
    if show_all_sessions {
        None
    } else {
        Some(current_session)
    }
}

/// The keys of the placed processes, by the version of the journal that holds
/// them. A journal of another version says nothing.
pub fn read_managed_keys(document: Option<(u32, Vec<ProcessKey>)>) -> (keys: Vec<ProcessKey>)
    ensures
        keys@ == match document {
            Some((schema_version, keys)) => if schema_version == MANAGED_STATE_SCHEMA_VERSION {
                keys@
            } else {
                Seq::empty()
            },
            None => Seq::empty(),
        },
{
    match document {
        Some((schema_version, keys)) => if schema_version == MANAGED_STATE_SCHEMA_VERSION {
            keys
        } else {
            Vec::new()
        },
        None => Vec::new(),
    }
}

/// How the monitor was started.
#[derive(Debug, Clone, Copy, PartialEq, Eq, Structural)]
pub enum LaunchChoice {
    /// With its window.
    Window,
    /// To look once at the processes and write to a file what it saw.
    SnapshotSelfTest,
    /// With its window, and a file for a test observer.
    TestObservation,
}

/// What is wrong with the arguments of the monitor.
#[derive(Debug, Clone, Copy, PartialEq, Eq, Structural)]
pub enum LaunchFault {
    UnsupportedArgument,
    OutputMissing,
    ArgumentsLeft,
}

impl LaunchFault {
    pub open spec fn words(self) -> Seq<char> {
        match self {
            LaunchFault::UnsupportedArgument => "unsupported Process Monitor command-line argument"@,
            LaunchFault::OutputMissing => "Process Monitor test option requires an output path"@,
            LaunchFault::ArgumentsLeft => "unexpected arguments after Process Monitor test option"@,
        }
    }

    /// Says what is wrong.
    pub fn message(self) -> (text: &'static str)
        ensures
            text@ == self.words(),
    {
        match self {
            LaunchFault::UnsupportedArgument => "unsupported Process Monitor command-line argument",
            LaunchFault::OutputMissing => "Process Monitor test option requires an output path",
            LaunchFault::ArgumentsLeft => "unexpected arguments after Process Monitor test option",
        }
    }
}

/// What the arguments ask for, by the first of them and by how many follow
/// it.
pub open spec fn launch_choice(first: Option<Seq<char>>, following: usize) -> Result<
    LaunchChoice,
    LaunchFault,
> {
    match first {
        None => Ok(LaunchChoice::Window),
        Some(option) => if option != "--snapshot-self-test"@ && option
            != "--test-observation-file"@ {
            Err(LaunchFault::UnsupportedArgument)
        } else if following == 0 {
            Err(LaunchFault::OutputMissing)
        } else if following > 1 {
            Err(LaunchFault::ArgumentsLeft)
        } else if option == "--snapshot-self-test"@ {
            Ok(LaunchChoice::SnapshotSelfTest)
        } else {
            Ok(LaunchChoice::TestObservation)
        },
    }
}

/// Says what the arguments ask for. The argument behind the first is the path
/// of the file to write.
pub fn monitor_launch_options(first: Option<&str>, following: usize) -> (choice: Result<
    LaunchChoice,
    LaunchFault,
>)
    ensures
        choice == launch_choice(
            match first {
                Some(option) => Some(option@),
                None => None,
            },
            following,
        ),
{
    let Some(option) = first else {
        return Ok(LaunchChoice::Window);
    };
    let self_test = same_text(option, "--snapshot-self-test");
    if !self_test && !same_text(option, "--test-observation-file") {
        return Err(LaunchFault::UnsupportedArgument);
    }
    if following == 0 {
        return Err(LaunchFault::OutputMissing);
    }
    if following > 1 {
        return Err(LaunchFault::ArgumentsLeft);
    }
    if self_test {
        Ok(LaunchChoice::SnapshotSelfTest)
    } else {
        Ok(LaunchChoice::TestObservation)
    }
}

/// What a self-test saw.
#[derive(Debug, Clone, Copy)]
pub struct SnapshotSelfTestReceipt {
    pub passed: bool,
    pub result: &'static str,
    pub processes: usize,
    pub working_set_available: usize,
    pub efficiency_available: usize,
    pub cpu_set_assignments: usize,
    pub service: &'static str,
    /// The version of the status that was read, if one was.
    pub status_schema: Option<u32>,
}

/// How many processes show a working set.
pub open spec fn with_working_set(processes: Seq<MonitoredProcess>) -> nat
    decreases processes.len(),
{
    if processes.len() == 0 {
        0
    } else {
        with_working_set(processes.drop_last()) + if processes.last().working_set_bytes is Some {
            1nat
        } else {
            0nat
        }
    }
}

/// How many processes show their efficiency settings.
pub open spec fn with_efficiency(processes: Seq<MonitoredProcess>) -> nat
    decreases processes.len(),
{
    if processes.len() == 0 {
        0
    } else {
        with_efficiency(processes.drop_last()) + if processes.last().efficiency is Some {
            1nat
        } else {
            0nat
        }
    }
}

/// How many processes are placed.
pub open spec fn with_cpu_sets(processes: Seq<MonitoredProcess>) -> nat
    decreases processes.len(),
{
    if processes.len() == 0 {
        0
    } else {
        with_cpu_sets(processes.drop_last())
            + if processes.last().process.default_cpu_set_ids@.len() > 0 {
            1nat
        } else {
            0nat
        }
    }
}

/// Says what a self-test saw. It passes where some process shows a working
/// set and some process its efficiency settings.
pub fn snapshot_self_test(snapshot: &Snapshot) -> (receipt: SnapshotSelfTestReceipt)
    ensures
        receipt.processes == snapshot.processes.len(),
        receipt.working_set_available == with_working_set(snapshot.processes@),
        receipt.efficiency_available == with_efficiency(snapshot.processes@),
        receipt.cpu_set_assignments == with_cpu_sets(snapshot.processes@),
        receipt.passed == (snapshot.processes.len() > 0 && with_working_set(snapshot.processes@) > 0
            && with_efficiency(snapshot.processes@) > 0),
        receipt.result@ == if receipt.passed {
            "PASS"@
        } else {
            "FAIL"@
        },
        receipt.service@ == service_identifier(snapshot.service),
        receipt.status_schema == match snapshot.status {
            Some(status) => Some(status.schema_version),
            None => None,
        },
{
    let mut working_set_available: usize = 0;
    let mut efficiency_available: usize = 0;
    let mut cpu_set_assignments: usize = 0;
    let mut at: usize = 0;
    while at < snapshot.processes.len()
        invariant
            at <= snapshot.processes.len(),
            working_set_available <= at,
            efficiency_available <= at,
            cpu_set_assignments <= at,
            working_set_available == with_working_set(snapshot.processes@.take(at as int)),
            efficiency_available == with_efficiency(snapshot.processes@.take(at as int)),
            cpu_set_assignments == with_cpu_sets(snapshot.processes@.take(at as int)),
        decreases snapshot.processes.len() - at,
    {
        let process = &snapshot.processes[at];
        proof {
            let more = snapshot.processes@.take(at + 1);
            assert(more.drop_last() =~= snapshot.processes@.take(at as int));
            assert(more.last() == snapshot.processes@[at as int]);
        }
        if process.working_set_bytes.is_some() {
            working_set_available = working_set_available + 1;
        }
        if process.efficiency.is_some() {
            efficiency_available = efficiency_available + 1;
        }
        if process.process.default_cpu_set_ids.len() > 0 {
            cpu_set_assignments = cpu_set_assignments + 1;
        }
        at = at + 1;
    }
    proof {
        assert(snapshot.processes@.take(at as int) =~= snapshot.processes@);
    }
    let passed = snapshot.processes.len() > 0 && working_set_available > 0 && efficiency_available
        > 0;
    SnapshotSelfTestReceipt {
        passed,
        result: if passed {
            "PASS"
        } else {
            "FAIL"
        },
        processes: snapshot.processes.len(),
        working_set_available,
        efficiency_available,
        cpu_set_assignments,
        service: service_identifier_text(snapshot.service),
        status_schema: match &snapshot.status {
            Some(status) => Some(status.schema_version),
            None => None,
        },
    }
}

/// The parameters that open the settings at the rule of an executable.
pub fn settings_parameters(rule_image: Option<&str>) -> (parameters: Option<String>)
    ensures
        parameters.deep_view() == match rule_image {
            Some(image) => Some("--rule-image \""@ + image@ + "\""@),
            None => None,
        },
{
    match rule_image {
        Some(image) => {
            let mut text = "--rule-image \"".to_owned();
            text.append(image);
            text.append("\"");
            Some(text)
        },
        None => None,
    }
}

/// Says what is wrong with what the shell answered when it was asked to open
/// the settings: answers above 32 mean success.
pub fn settings_launch_error(code: i64) -> (error: Option<String>)
    ensures
        error.deep_view() == if code > 32 {
            None
        } else {
            Some("ShellExecuteW failed with code "@ + crate::text::signed_decimal(code as int))
        },
{
    if code > 32 {
        return None;
    }
    let mut text = "ShellExecuteW failed with code ".to_owned();
    push_signed(&mut text, code);
    Some(text)
}

/// A program with a window, of which one runs in each session.
#[derive(Debug, Clone, Copy, PartialEq, Eq, Structural)]
pub enum WindowProgram {
    Monitor,
    Settings,
}

/// How often a program that finds itself running tries to call the other one.
pub const SIGNAL_ATTEMPTS: u32 = 20;

/// How many milliseconds it waits between two tries.
pub const SIGNAL_PAUSE_MS: u64 = 50;

/// The name of the event that calls the window of a program to the front.
pub open spec fn activation_event(program: WindowProgram, session: u32) -> Seq<char> {
    (match program {
        WindowProgram::Monitor => "Local\\WinSchedMonitorActivate-"@,
        WindowProgram::Settings => "Local\\WinSchedSettingsActivate-"@,
    }) + crate::text::decimal(session as nat)
}

/// The name of the event that calls the window of a program to the front.
pub fn activation_event_name(program: WindowProgram, session: u32) -> (name: String)
    ensures
        name@ == activation_event(program, session),
{
    let mut name = match program {
        WindowProgram::Monitor => "Local\\WinSchedMonitorActivate-".to_owned(),
        WindowProgram::Settings => "Local\\WinSchedSettingsActivate-".to_owned(),
    };
    push_decimal(&mut name, session as u64);
    name
}

/// What is said where the program that runs already could not be called.
pub fn signal_failure(program: WindowProgram) -> (text: &'static str)
    ensures
        text@ == match program {
            WindowProgram::Monitor =>
                "existing Process Monitor did not publish its activation event"@,
            WindowProgram::Settings =>
                "existing Settings instance did not publish its activation event"@,
        },
{
    match program {
        WindowProgram::Monitor => "existing Process Monitor did not publish its activation event",
        WindowProgram::Settings =>
            "existing Settings instance did not publish its activation event",
    }
}

/// What is said, under which title, where a program could not start.
pub open spec fn startup_error_words(program: WindowProgram, error: Seq<char>) -> (
    Seq<char>,
    Seq<char>,
) {
    match program {
        WindowProgram::Monitor => (
            "WinSched Process Monitor / Монитор процессов WinSched"@,
            "WinSched Process Monitor could not start. / Не удалось запустить монитор процессов WinSched.\n\n"@
                + error,
        ),
        WindowProgram::Settings => (
            "WinSched Settings / Настройки WinSched"@,
            "WinSched Settings could not start. / Не удалось запустить настройки WinSched.\n\n"@
                + error,
        ),
    }
}

/// Says, and under which title, that a program could not start.
pub fn startup_error(program: WindowProgram, error: &str) -> (message: (&'static str, String))
    ensures
        (message.0@, message.1@) == startup_error_words(program, error@),
{
    let (title, mut text) = match program {
        WindowProgram::Monitor => (
            "WinSched Process Monitor / Монитор процессов WinSched",
            "WinSched Process Monitor could not start. / Не удалось запустить монитор процессов WinSched.\n\n".to_owned(),
        ),
        WindowProgram::Settings => (
            "WinSched Settings / Настройки WinSched",
            "WinSched Settings could not start. / Не удалось запустить настройки WinSched.\n\n".to_owned(),
        ),
    };
    text.append(error);
    (title, text)
}

/// The processes are looked at while the window has the focus and can be seen;
/// what is not known of it does not hinder that, but for the focus.
pub proof fn looks_need_a_window_in_front(
    focused: Option<bool>,
    minimized: Option<bool>,
    occluded: Option<bool>,
)
    ensures
        is_sampling(Some(true), None, None),
        is_sampling(Some(true), Some(false), Some(false)),
        focused != Some(true) ==> !is_sampling(focused, minimized, occluded),
        minimized == Some(true) ==> !is_sampling(focused, minimized, occluded),
        occluded == Some(true) ==> !is_sampling(focused, minimized, occluded),
        focused == Some(true) && minimized != Some(true) && occluded != Some(true) ==> is_sampling(
            focused,
            minimized,
            occluded,
        ),
{
}

/// The service is seen as it answers: it is missing exactly where the system
/// says that there is no such service, and any other refusal is an error.
pub proof fn answers_show_the_service(answer: ServiceAnswer)
    ensures
        service_of(answer) == MonitoredService::Running <==> answer == ServiceAnswer::State(
            ServiceState::Running,
        ),
        service_of(answer) == MonitoredService::Stopped <==> answer == ServiceAnswer::State(
            ServiceState::Stopped,
        ),
        service_of(answer) == MonitoredService::StartPending <==> answer == ServiceAnswer::State(
            ServiceState::StartPending,
        ),
        service_of(answer) == MonitoredService::StopPending <==> answer == ServiceAnswer::State(
            ServiceState::StopPending,
        ),
        service_of(answer) == MonitoredService::Missing <==> answer == ServiceAnswer::Refused(
            Some(1060i32),
        ),
        service_of(answer) == MonitoredService::Error <==> answer is Refused && answer
            != ServiceAnswer::Refused(Some(1060i32)),
{
}

/// A look that succeeded shows what it saw and forgets the last error; the
/// next one measures from its time and its times. One that failed keeps what
/// was seen, and tells why. Both let the next look begin after a second.
pub proof fn looks_show_what_they_saw(
    view: MonitorView,
    snapshot: Snapshot,
    error: Seq<char>,
    now_ms: u64,
)
    ensures
        ({
            let done = look_done(view, snapshot, now_ms);
            let failed = look_failed(view, error, now_ms);
            &&& !done.pending && !failed.pending
            &&& done.last_error is None
            &&& done.service == snapshot.service
            &&& done.status == known_status(snapshot.status)
            &&& done.last_capture_ns == Some(snapshot.captured_ns)
            &&& done.prior_cpu == crate::process_rows::cpu_times(snapshot.processes@)
            &&& view.snapshot_count < u64::MAX ==> done.snapshot_count == view.snapshot_count + 1
            &&& done.snapshots_started == view.snapshots_started
            &&& done.language == view.language && done.last_active == view.last_active
            &&& failed.last_error == Some(error)
            &&& failed.rows == view.rows
            &&& failed.service == view.service
            &&& failed.status == view.status
            &&& failed.snapshot_count == view.snapshot_count
            &&& failed.last_capture_ns == view.last_capture_ns
            &&& failed.prior_cpu == view.prior_cpu
            &&& now_ms + 1_000 <= u64::MAX ==> done.next_refresh_ms == now_ms + 1_000
                && failed.next_refresh_ms == now_ms + 1_000
        }),
{
}

/// A look that begins is counted once, and only one is under way at a time; an
/// inactive window puts the next look at the moment it was left, and time
/// alone changes nothing else.
pub proof fn looks_are_begun_once(view: MonitorView, active: bool, now_ms: u64)
    ensures
        ({
            let begun = look_begun(view);
            let after = looked(view, active, now_ms);
            &&& begun.pending
            &&& !view.pending && view.snapshots_started < u64::MAX ==> begun.snapshots_started
                == view.snapshots_started + 1
            &&& look_begun(begun) == begun
            &&& begun.next_refresh_ms == view.next_refresh_ms
            &&& after.last_active == active
            &&& active || !view.last_active ==> after.next_refresh_ms == view.next_refresh_ms
            &&& !active && view.last_active ==> after.next_refresh_ms == now_ms
            &&& after.pending == view.pending && after.rows == view.rows && after.last_error
                == view.last_error
            &&& starts_look(view, active, now_ms) <==> active && !view.pending && now_ms
                >= view.next_refresh_ms
        }),
{
}

/// Shares are measured over the time from the last look to this one; the first
/// look has nothing to measure from, and a clock that went back measures
/// nothing.
pub proof fn time_is_measured_from_the_last_look(previous: u64, captured_ns: u64)
    ensures
        elapsed_since(None, captured_ns) is None,
        elapsed_since(Some(previous), captured_ns) is Some,
        captured_ns >= previous ==> previous + elapsed_since(Some(previous), captured_ns)->0
            == captured_ns,
        captured_ns < previous ==> elapsed_since(Some(previous), captured_ns) == Some(0u128),
{
}

/// The header says how the service is, whether processes are placed, how many
/// are managed and in which mode, as far as a status is known, and how many
/// looks there were.
pub proof fn headers_say_how_it_is(
    language: Language,
    service: MonitoredService,
    status: HeaderStatusView,
    snapshot_count: u64,
)
    ensures
        ({
            let line = header_line(language, service, Some(status), snapshot_count);
            let short = header_line(language, service, None, snapshot_count);
            &&& line.len() == 6 && short.len() == 3
            &&& line[1].text == crate::template::filled(
                language.words(SERVICE_LINE),
                seq![service_word(service, language)],
            )
            &&& status.scheduling_enabled ==> line[2].text == crate::template::filled(
                language.words(SCHEDULING_LINE),
                seq![language.words(SCHEDULING_ON)],
            )
            &&& !status.scheduling_enabled ==> line[2].text == crate::template::filled(
                language.words(SCHEDULING_LINE),
                seq![language.words(SCHEDULING_OFF)],
            )
            &&& line[3].text == crate::template::filled(
                language.words(MANAGED_LINE),
                seq![crate::text::decimal(status.managed_processes as nat)],
            )
            &&& line[4].text == crate::template::filled(
                language.words(MODE_LINE),
                seq![crate::tray::mode_word(status.configured_mode)],
            )
            &&& line.last() == short.last()
            &&& line.last().text == crate::template::filled(
                language.words(SNAPSHOTS_LINE),
                seq![crate::text::decimal(snapshot_count as nat)],
            )
        }),
{
    let word = service_word(service, language);
    assert(one(word) =~= seq![word]);
    assert(one(language.words(SCHEDULING_ON)) =~= seq![language.words(SCHEDULING_ON)]);
    assert(one(language.words(SCHEDULING_OFF)) =~= seq![language.words(SCHEDULING_OFF)]);
    let managed = crate::text::decimal(status.managed_processes as nat);
    assert(one(managed) =~= seq![managed]);
    let mode = crate::tray::mode_word(status.configured_mode);
    assert(one(mode) =~= seq![mode]);
    let count = crate::text::decimal(snapshot_count as nat);
    assert(one(count) =~= seq![count]);
}

/// Below it stand a warning exactly where the status is older than 75 seconds,
/// the reserved cores before all cores, the managed before the protected
/// background processes, and every error: that of the controller before that of
/// the monitor.
pub proof fn details_tell_old_statuses_and_errors(
    language: Language,
    status: HeaderStatusView,
    own_error: Option<Seq<char>>,
    now_unix_ms: u64,
)
    ensures
        ({
            let details = header_details(language, Some(status), own_error, now_unix_ms);
            let old = now_unix_ms > status.updated_at_unix_ms + 75_000;
            let at = if old {
                1int
            } else {
                0int
            };
            &&& old <==> details[0] == crate::panel::saying(
                ItemKind::<NoField>::Warning,
                language.words(STALE_LINE),
            )
            &&& details[at].text == crate::template::filled(
                language.words(RESERVE_LINE),
                seq![
                    crate::text::decimal(status.reserved_physical_cores as nat),
                    crate::text::decimal(status.physical_core_count as nat),
                ],
            )
            &&& details[at + 1].text == crate::template::filled(
                language.words(LATENCY_LINE),
                seq![crate::text::decimal(status.p99_lateness_us as nat)],
            )
            &&& details[at + 2].text == crate::template::filled(
                language.words(BACKGROUND_LINE),
                seq![
                    crate::text::decimal(status.background_managed as nat),
                    crate::text::decimal(status.background_protected as nat),
                ],
            )
            &&& status.last_activity matches Some(activity) ==> details[at + 3].text
                == crate::template::filled(language.words(ACTIVITY_LINE), seq![activity])
            &&& status.last_error matches Some(error) ==> details[at + 4]
                == crate::panel::saying(
                ItemKind::<NoField>::Failure,
                crate::template::filled(language.words(ERROR_LINE), seq![error]),
            )
            &&& own_error matches Some(error) ==> details.last() == crate::panel::saying(
                ItemKind::<NoField>::Failure,
                error,
            )
        }),
{
    let reserved = crate::text::decimal(status.reserved_physical_cores as nat);
    let cores = crate::text::decimal(status.physical_core_count as nat);
    assert(two(reserved, cores) =~= seq![reserved, cores]);
    let late = crate::text::decimal(status.p99_lateness_us as nat);
    assert(one(late) =~= seq![late]);
    let managed = crate::text::decimal(status.background_managed as nat);
    let protected = crate::text::decimal(status.background_protected as nat);
    assert(two(managed, protected) =~= seq![managed, protected]);
    if let Some(activity) = status.last_activity {
        assert(one(activity) =~= seq![activity]);
    }
    if let Some(error) = status.last_error {
        assert(one(error) =~= seq![error]);
    }
}

/// The monitor is started with its window, or with one of two options and one
/// file. Anything else is refused for what is wrong with it.
pub proof fn launches_are_as_asked(first: Option<Seq<char>>, following: usize)
    ensures
        ({
            let choice = launch_choice(first, following);
            let test = first == Some("--snapshot-self-test"@);
            let observed = first == Some("--test-observation-file"@);
            &&& first is None <==> choice == Ok::<LaunchChoice, LaunchFault>(LaunchChoice::Window)
            &&& test && following == 1 <==> choice == Ok::<LaunchChoice, LaunchFault>(
                LaunchChoice::SnapshotSelfTest,
            )
            &&& observed && following == 1 <==> choice == Ok::<LaunchChoice, LaunchFault>(
                LaunchChoice::TestObservation,
            )
            &&& (test || observed) && following == 0 <==> choice == Err::<
                LaunchChoice,
                LaunchFault,
            >(LaunchFault::OutputMissing)
            &&& (test || observed) && following > 1 <==> choice == Err::<LaunchChoice, LaunchFault>(
                LaunchFault::ArgumentsLeft,
            )
        }),
{
    reveal_strlit("--snapshot-self-test");
    reveal_strlit("--test-observation-file");
    assert("--snapshot-self-test"@.len() == 20);
    assert("--test-observation-file"@.len() == 23);
}

/// A process counts where it shows something, and only for what it shows.
pub proof fn shown_values_are_counted(
    processes: Seq<MonitoredProcess>,
    process: MonitoredProcess,
)
    ensures
        with_working_set(processes.push(process)) == with_working_set(processes)
            + if process.working_set_bytes is Some {
            1nat
        } else {
            0nat
        },
        with_efficiency(processes.push(process)) == with_efficiency(processes)
            + if process.efficiency is Some {
            1nat
        } else {
            0nat
        },
        with_cpu_sets(processes.push(process)) == with_cpu_sets(processes)
            + if process.process.default_cpu_set_ids@.len() > 0 {
            1nat
        } else {
            0nat
        },
{
    assert(processes.push(process).drop_last() =~= processes);
}

/// Each program is called in its own session by its own event.
pub proof fn programs_are_called_by_their_own_event(
    a: WindowProgram,
    b: WindowProgram,
    session: u32,
    other: u32,
)
    ensures
        a != b ==> activation_event(a, session) != activation_event(b, other),
        session != other ==> activation_event(a, session) != activation_event(a, other),
{
    reveal_strlit("Local\\WinSchedMonitorActivate-");
    reveal_strlit("Local\\WinSchedSettingsActivate-");
    let one = activation_event(a, session);
    if a != b {
        let two = activation_event(b, other);
        assert(one[14] == 'M' || one[14] == 'S');
        assert(two[14] == 'M' || two[14] == 'S');
        assert(one[14] != two[14]);
    }
    if session != other {
        let two = activation_event(a, other);
        crate::text::numbers_are_read_back(session as nat);
        crate::text::numbers_are_read_back(other as nat);
        let start = match a {
            WindowProgram::Monitor => "Local\\WinSchedMonitorActivate-"@,
            WindowProgram::Settings => "Local\\WinSchedSettingsActivate-"@,
        };
        assert(one.skip(start.len() as int) =~= crate::text::decimal(session as nat));
        assert(two.skip(start.len() as int) =~= crate::text::decimal(other as nat));
    }
}

/// A program that could not start says why, under its own name.
pub proof fn failed_starts_say_why(program: WindowProgram, error: Seq<char>)
    ensures
        error.is_suffix_of(startup_error_words(program, error).1),
        program == WindowProgram::Monitor ==> "WinSched Process Monitor"@.is_prefix_of(
            startup_error_words(program, error).0,
        ) && "WinSched Process Monitor"@.is_prefix_of(startup_error_words(program, error).1),
        program == WindowProgram::Settings ==> "WinSched Settings"@.is_prefix_of(
            startup_error_words(program, error).0,
        ) && "WinSched Settings"@.is_prefix_of(startup_error_words(program, error).1),
{
    let words = startup_error_words(program, error);
    reveal_strlit("WinSched Process Monitor");
    reveal_strlit("WinSched Settings");
    reveal_strlit("WinSched Process Monitor / Монитор процессов WinSched");
    reveal_strlit("WinSched Settings / Настройки WinSched");
    reveal_strlit(
        "WinSched Process Monitor could not start. / Не удалось запустить монитор процессов WinSched.\n\n",
    );
    reveal_strlit(
        "WinSched Settings could not start. / Не удалось запустить настройки WinSched.\n\n",
    );
    assert(words.1.subrange(words.1.len() - error.len(), words.1.len() as int) =~= error);
}

} // verus!
