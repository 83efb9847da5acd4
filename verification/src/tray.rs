//! What the notification area shows and does.
use vstd::prelude::*;

use crate::controller::ControllerPhase;
use crate::controller::ControllerStatus;
use crate::observations::ControllerMode;
use crate::provision::is_missing_service_error;
use crate::provision::ServiceState;
use crate::text::compact_text;
use crate::text::push_decimal;
use crate::text::push_signed;
use crate::text::same_text;
use crate::text::text_of;

verus! {

/// What is known of the service.
#[derive(Debug, Clone, PartialEq, Eq)]
pub enum ServiceViewState {
    Missing,
    Stopped,
    Running,
    StartPending,
    StopPending,
    Other(String),
    Error(String),
}

/// What the menu shows.
#[derive(Debug, Clone, PartialEq, Eq)]
pub struct MenuModel {
    pub header: String,
    pub scheduling_action: String,
    pub scheduling_action_enabled: bool,
    pub service_action: String,
    pub service_action_enabled: bool,
    pub mode: String,
    pub managed: String,
    pub background: String,
    pub activity: String,
    pub error: String,
    pub tooltip: String,
}

/// How many characters of an activity or an error the menu shows.
pub const MENU_LINE_CHARS: usize = 96;

/// How many characters the tooltip has.
pub const TOOLTIP_CHARS: usize = 120;

/// A text in one line of at most `max_chars` characters. What is left out is
/// marked by an ellipsis, which takes one of them.
pub open spec fn menu_words(value: Seq<char>, max_chars: usize) -> Seq<char> {
    let line = crate::text::compact(value);
    if line.len() <= max_chars {
        line
    } else if max_chars == 0 {
        seq!['\u{2026}']
    } else {
        line.take(max_chars - 1).push('\u{2026}')
    }
}

/// Puts a text into one line of at most `max_chars` characters.
pub fn menu_text(value: &str, max_chars: usize) -> (text: String)
    ensures
        text@ == menu_words(value@, max_chars),
{
    let line = compact_text(value);
    if line.len() <= max_chars {
        proof {
            assert(line@.subrange(0, line@.len() as int) =~= line@);
        }
        return text_of(&line, 0, line.len());
    }
    let keep: usize = if max_chars == 0 {
        0
    } else {
        max_chars - 1
    };
    let mut text = text_of(&line, 0, keep);
    proof {
        assert(line@.subrange(0, keep as int) =~= line@.take(keep as int));
    }
    text.push('\u{2026}');
    proof {
        if max_chars == 0 {
            assert(text@ =~= seq!['\u{2026}']);
        }
    }
    text
}

/// A menu line is never longer than it may be, and a short text in one line
/// stays as it is.
pub proof fn menu_lines_are_bounded(value: Seq<char>, max_chars: usize)
    ensures
        max_chars > 0 ==> menu_words(value, max_chars).len() <= max_chars,
        crate::text::compact(value).len() <= max_chars ==> menu_words(value, max_chars)
            == crate::text::compact(value),
{
}

/// The words for the state of the service.
pub open spec fn service_words(service: ServiceViewState) -> Seq<char> {
    match service {
        ServiceViewState::Missing => "Service not installed"@,
        ServiceViewState::Stopped => "Service stopped"@,
        ServiceViewState::Running => "Service running"@,
        ServiceViewState::StartPending => "Service starting"@,
        ServiceViewState::StopPending => "Service stopping"@,
        ServiceViewState::Other(state) => "Service "@ + state@,
        ServiceViewState::Error(_) => "Service status error"@,
    }
}

/// Puts the state of the service into words.
pub fn service_label(service: &ServiceViewState) -> (text: String)
    ensures
        text@ == service_words(*service),
{
    match service {
        ServiceViewState::Missing => "Service not installed".to_owned(),
        ServiceViewState::Stopped => "Service stopped".to_owned(),
        ServiceViewState::Running => "Service running".to_owned(),
        ServiceViewState::StartPending => "Service starting".to_owned(),
        ServiceViewState::StopPending => "Service stopping".to_owned(),
        ServiceViewState::Other(state) => {
            let mut text = "Service ".to_owned();
            text.append(state.as_str());
            text
        },
        ServiceViewState::Error(_) => "Service status error".to_owned(),
    }
}

/// The words for what the controller is doing.
pub open spec fn effective_words(status: ControllerStatus) -> Seq<char> {
    if !status.scheduling_enabled || status.phase == ControllerPhase::Disabled {
        "Scheduling disabled"@
    } else {
        match status.configured_mode {
            ControllerMode::Off => "Configured off"@,
            ControllerMode::Observe => "Observe only"@,
            ControllerMode::Auto => "Scheduling enabled"@,
        }
    }
}

/// Puts what the controller is doing into words.
pub fn effective_label(status: &ControllerStatus) -> (text: &'static str)
    ensures
        text@ == effective_words(*status),
{
    if !status.scheduling_enabled || status.phase == ControllerPhase::Disabled {
        return "Scheduling disabled";
    }
    match status.configured_mode {
        ControllerMode::Off => "Configured off",
        ControllerMode::Observe => "Observe only",
        ControllerMode::Auto => "Scheduling enabled",
    }
}

/// The word for a mode.
pub open spec fn mode_word(mode: ControllerMode) -> Seq<char> {
    match mode {
        ControllerMode::Off => "Off"@,
        ControllerMode::Observe => "Observe"@,
        ControllerMode::Auto => "Auto"@,
    }
}

/// The word for a mode.
pub fn mode_label(mode: ControllerMode) -> (text: &'static str)
    ensures
        text@ == mode_word(mode),
{
    match mode {
        ControllerMode::Off => "Off",
        ControllerMode::Observe => "Observe",
        ControllerMode::Auto => "Auto",
    }
}

/// What the service entry of the menu says, and whether it can be chosen.
pub open spec fn service_entry(service: ServiceViewState) -> (Seq<char>, bool) {
    match service {
        ServiceViewState::Running => ("Stop Service"@, true),
        ServiceViewState::Stopped => ("Start Service"@, true),
        ServiceViewState::Missing => ("Service Not Installed"@, false),
        ServiceViewState::StartPending => ("Service Starting..."@, false),
        ServiceViewState::StopPending => ("Service Stopping..."@, false),
        ServiceViewState::Other(_) | ServiceViewState::Error(_) => ("Service Unavailable"@, false),
    }
}

/// What the scheduling entry of the menu says.
pub open spec fn scheduling_entry(status: Option<ControllerStatus>) -> Seq<char> {
    match status {
        None => "Scheduling Unavailable"@,
        Some(status) => match status.configured_mode {
            ControllerMode::Off => "Scheduling Disabled (Off Mode)"@,
            ControllerMode::Observe => "Scheduling Disabled (Observe Mode)"@,
            ControllerMode::Auto => if status.scheduling_enabled {
                "Disable Scheduling"@
            } else {
                "Enable Scheduling"@
            },
        },
    }
}

/// The error that the menu shows: that of the program itself first, then that
/// of the controller, then that of looking at the service.
pub open spec fn menu_error(
    service: ServiceViewState,
    status: Option<ControllerStatus>,
    ui_error: Option<Seq<char>>,
) -> Option<Seq<char>> {
    if ui_error is Some {
        ui_error
    } else if status is Some && (status->0).last_error is Some {
        (status->0).last_error.deep_view()
    } else {
        match service {
            ServiceViewState::Error(error) => Some(error@),
            _ => None,
        }
    }
}

/// What the menu shows, with its texts as sequences.
#[verifier::ext_equal]
pub struct MenuView {
    pub header: Seq<char>,
    pub scheduling_action: Seq<char>,
    pub scheduling_action_enabled: bool,
    pub service_action: Seq<char>,
    pub service_action_enabled: bool,
    pub mode: Seq<char>,
    pub managed: Seq<char>,
    pub background: Seq<char>,
    pub activity: Seq<char>,
    pub error: Seq<char>,
    pub tooltip: Seq<char>,
}

impl View for MenuModel {
    type V = MenuView;

    open spec fn view(&self) -> MenuView {
        MenuView {
            header: self.header@,
            scheduling_action: self.scheduling_action@,
            scheduling_action_enabled: self.scheduling_action_enabled,
            service_action: self.service_action@,
            service_action_enabled: self.service_action_enabled,
            mode: self.mode@,
            managed: self.managed@,
            background: self.background@,
            activity: self.activity@,
            error: self.error@,
            tooltip: self.tooltip@,
        }
    }
}

/// The words for what the controller is doing, as far as it is known.
pub open spec fn known_effective_words(status: Option<ControllerStatus>) -> Seq<char> {
    match status {
        Some(status) => effective_words(status),
        None => "Status unavailable"@,
    }
}

/// How many processes are managed, as far as it is known.
pub open spec fn known_managed(status: Option<ControllerStatus>) -> nat {
    match status {
        Some(status) => status.managed_processes as nat,
        None => 0,
    }
}

/// The words for how much memory is free. Where that is not watched, the last
/// low condition still counts.
pub open spec fn memory_state_words(monitored: bool, low: bool) -> Seq<char> {
    match (monitored, low) {
        (true, true) => "low"@,
        (true, false) => "normal"@,
        (false, true) => "low (unmonitored)"@,
        (false, false) => "unmonitored"@,
    }
}

/// The line on the background policies: how many processes they are active
/// on, how many are protected from them, how much memory is free, and in how
/// many of the sessions that need one a sensor reports.
pub open spec fn background_line(status: Option<ControllerStatus>) -> Seq<char> {
    match status {
        None => "Background QoS: unavailable"@,
        Some(status) => {
            let background = status.background_efficiency;
            "Background QoS: "@ + crate::text::decimal(background.managed_processes as nat)
                + " active, "@ + crate::text::decimal(background.protected_processes as nat)
                + " protected; memory "@ + memory_state_words(
                background.memory_pressure_monitor_available,
                background.low_memory_condition,
            ) + "; sensors "@ + crate::text::decimal(background.interactive_probe_sessions as nat)
                + " of "@ + crate::text::decimal(background.required_probe_sessions as nat)
        },
    }
}

/// What the menu shows of the service, the controller and an error.
pub open spec fn menu_view(
    service: ServiceViewState,
    status: Option<ControllerStatus>,
    ui_error: Option<Seq<char>>,
) -> MenuView {
    let doing = known_effective_words(status);
    MenuView {
        header: "WinSched \u{2014} "@ + service_words(service) + " / "@ + doing,
        scheduling_action: scheduling_entry(status),
        scheduling_action_enabled: service is Running && (status matches Some(status)
            && status.configured_mode == ControllerMode::Auto),
        service_action: service_entry(service).0,
        service_action_enabled: service_entry(service).1,
        mode: "Mode: "@ + match status {
            Some(status) => mode_word(status.configured_mode),
            None => "Unknown"@,
        },
        managed: "Managed processes: "@ + crate::text::decimal(known_managed(status)),
        background: background_line(status),
        activity: match status {
            Some(status) => match status.last_activity.deep_view() {
                Some(activity) => "Last activity: "@ + menu_words(activity, MENU_LINE_CHARS),
                None => "Last activity: none"@,
            },
            None => "Last activity: none"@,
        },
        error: "Last error: "@ + match menu_error(service, status, ui_error) {
            Some(error) => menu_words(error, MENU_LINE_CHARS),
            None => "none"@,
        },
        tooltip: menu_words(
            "WinSched: "@ + service_words(service) + "; "@ + doing + "; managed "@
                + crate::text::decimal(known_managed(status)),
            TOOLTIP_CHARS,
        ),
    }
}

fn scheduling_text(status: Option<&ControllerStatus>) -> (text: &'static str)
    ensures
        text@ == scheduling_entry(
            match status {
                Some(status) => Some(*status),
                None => None,
            },
        ),
{
    match status {
        None => "Scheduling Unavailable",
        Some(status) => match status.configured_mode {
            ControllerMode::Off => "Scheduling Disabled (Off Mode)",
            ControllerMode::Observe => "Scheduling Disabled (Observe Mode)",
            ControllerMode::Auto => if status.scheduling_enabled {
                "Disable Scheduling"
            } else {
                "Enable Scheduling"
            },
        },
    }
}

fn background_text(status: Option<&ControllerStatus>) -> (text: String)
    ensures
        text@ == background_line(
            match status {
                Some(status) => Some(*status),
                None => None,
            },
        ),
{
    let Some(status) = status else {
        return "Background QoS: unavailable".to_owned();
    };
    let background = &status.background_efficiency;
    let mut text = "Background QoS: ".to_owned();
    push_decimal(&mut text, background.managed_processes as u64);
    text.append(" active, ");
    push_decimal(&mut text, background.protected_processes as u64);
    text.append(" protected; memory ");
    text.append(
        match (background.memory_pressure_monitor_available, background.low_memory_condition) {
            (true, true) => "low",
            (true, false) => "normal",
            (false, true) => "low (unmonitored)",
            (false, false) => "unmonitored",
        },
    );
    text.append("; sensors ");
    push_decimal(&mut text, background.interactive_probe_sessions as u64);
    text.append(" of ");
    push_decimal(&mut text, background.required_probe_sessions as u64);
    text
}

/// The line on the cores that are kept for the system: how many of how many.
pub fn reserve_line(reserve: Option<(u64, u64)>) -> (text: String)
    ensures
        text@ == match reserve {
            None => "System reserve: unavailable"@,
            Some((reserved, cores)) => "System reserve: "@ + crate::text::decimal(reserved as nat)
                + "/"@ + crate::text::decimal(cores as nat) + " cores"@,
        },
{
    let Some((reserved, cores)) = reserve else {
        return "System reserve: unavailable".to_owned();
    };
    let mut text = "System reserve: ".to_owned();
    push_decimal(&mut text, reserved);
    text.append("/");
    push_decimal(&mut text, cores);
    text.append(" cores");
    text
}

/// The line on the latency guard: whether it is on, and how late the system
/// wakes threads in the slowest hundredth, in microseconds.
pub fn latency_line(latency: Option<(bool, u64)>) -> (text: String)
    ensures
        text@ == match latency {
            None => "Latency guard: unavailable"@,
            Some((enabled, p99_us)) => if enabled {
                "Latency guard: p99 "@ + crate::text::decimal(p99_us as nat) + " us"@
            } else {
                "Latency guard: disabled"@
            },
        },
{
    let Some((enabled, p99_us)) = latency else {
        return "Latency guard: unavailable".to_owned();
    };
    if !enabled {
        return "Latency guard: disabled".to_owned();
    }
    let mut text = "Latency guard: p99 ".to_owned();
    push_decimal(&mut text, p99_us);
    text.append(" us");
    text
}

/// Where the project is found.
pub const GITHUB_URL: &'static str = "https://github.com/woffko/WinSched";

/// What is said about the program.
#[derive(Debug, Clone, PartialEq, Eq)]
pub struct AboutDetails {
    pub name: &'static str,
    pub version: String,
    pub comments: &'static str,
    pub license: &'static str,
    pub website: &'static str,
    pub website_label: &'static str,
}

/// Says what the program is: its version, what it does, its license and where
/// it is found.
pub fn about_details(version: &str) -> (details: AboutDetails)
    ensures
        details.name@ == "WinSched"@,
        details.version@ == version@,
        details.comments@ == "Windows 11 LLC-aware CPU placement controller"@,
        details.license@ == "MIT"@,
        details.website@ == GITHUB_URL@,
        details.website_label@ == "GitHub Repository"@,
{
    AboutDetails {
        name: "WinSched",
        version: version.to_owned(),
        comments: "Windows 11 LLC-aware CPU placement controller",
        license: "MIT",
        website: GITHUB_URL,
        website_label: "GitHub Repository",
    }
}

fn error_text(
    service: &ServiceViewState,
    status: Option<&ControllerStatus>,
    ui_error: Option<&str>,
) -> (text: String)
    ensures
        text@ == "Last error: "@ + match menu_error(
            *service,
            match status {
                Some(status) => Some(*status),
                None => None,
            },
            match ui_error {
                Some(error) => Some(error@),
                None => None,
            },
        ) {
            Some(error) => menu_words(error, MENU_LINE_CHARS),
            None => "none"@,
        },
{
    let mut text = "Last error: ".to_owned();
    let of_status: Option<&String> = match status {
        Some(status) => status.last_error.as_ref(),
        None => None,
    };
    match ui_error {
        Some(error) => {
            text.append(menu_text(error, MENU_LINE_CHARS).as_str());
        },
        None => match of_status {
            Some(error) => {
                text.append(menu_text(error.as_str(), MENU_LINE_CHARS).as_str());
            },
            None => match service {
                ServiceViewState::Error(error) => {
                    text.append(menu_text(error.as_str(), MENU_LINE_CHARS).as_str());
                },
                _ => {
                    text.append("none");
                },
            },
        },
    }
    text
}

/// Says what the menu shows.
pub fn build_menu_model(
    service: &ServiceViewState,
    status: Option<&ControllerStatus>,
    ui_error: Option<&str>,
) -> (model: MenuModel)
    ensures
        model@ == menu_view(
            *service,
            match status {
                Some(status) => Some(*status),
                None => None,
            },
            match ui_error {
                Some(error) => Some(error@),
                None => None,
            },
        ),
{
    let (service_action, service_action_enabled) = match service {
        ServiceViewState::Running => ("Stop Service", true),
        ServiceViewState::Stopped => ("Start Service", true),
        ServiceViewState::Missing => ("Service Not Installed", false),
        ServiceViewState::StartPending => ("Service Starting...", false),
        ServiceViewState::StopPending => ("Service Stopping...", false),
        ServiceViewState::Other(_) | ServiceViewState::Error(_) => ("Service Unavailable", false),
    };
    let running = matches!(service, ServiceViewState::Running);
    let configured = match status {
        Some(status) => matches!(status.configured_mode, ControllerMode::Auto),
        None => false,
    };
    let service_text = service_label(service);
    let doing = match status {
        Some(status) => effective_label(status),
        None => "Status unavailable",
    };
    let managed_count: usize = match status {
        Some(status) => status.managed_processes,
        None => 0,
    };

    let mut header = "WinSched \u{2014} ".to_owned();
    header.append(service_text.as_str());
    header.append(" / ");
    header.append(doing);

    let mut mode = "Mode: ".to_owned();
    mode.append(
        match status {
            Some(status) => mode_label(status.configured_mode),
            None => "Unknown",
        },
    );

    let mut managed = "Managed processes: ".to_owned();
    push_decimal(&mut managed, managed_count as u64);

    let activity = match status {
        Some(status) => match &status.last_activity {
            Some(activity) => {
                let mut text = "Last activity: ".to_owned();
                text.append(menu_text(activity.as_str(), MENU_LINE_CHARS).as_str());
                text
            },
            None => "Last activity: none".to_owned(),
        },
        None => "Last activity: none".to_owned(),
    };

    let mut tip = "WinSched: ".to_owned();
    tip.append(service_text.as_str());
    tip.append("; ");
    tip.append(doing);
    tip.append("; managed ");
    push_decimal(&mut tip, managed_count as u64);

    MenuModel {
        header,
        scheduling_action: scheduling_text(status).to_owned(),
        scheduling_action_enabled: running && configured,
        service_action: service_action.to_owned(),
        service_action_enabled,
        mode,
        managed,
        background: background_text(status),
        activity,
        error: error_text(service, status, ui_error),
        tooltip: menu_text(tip.as_str(), TOOLTIP_CHARS),
    }
}

/// The scheduling entry can be chosen only where it changes something: the
/// service runs and its settings let it place processes.
pub proof fn scheduling_needs_a_running_service(
    service: ServiceViewState,
    status: Option<ControllerStatus>,
    ui_error: Option<Seq<char>>,
)
    ensures
        menu_view(service, status, ui_error).scheduling_action_enabled ==> service is Running
            && menu_view(service, status, ui_error).service_action == "Stop Service"@,
        status is None ==> !menu_view(service, status, ui_error).scheduling_action_enabled,
{
}

/// After how many milliseconds without an update a running service is taken
/// to hang.
pub const STATUS_STALE_AFTER_MS: u64 = 75_000;

/// Whether a status is too old for a running service.
pub open spec fn is_stale(service: ServiceViewState, updated_at_ms: u64, now_ms: u64) -> bool {
    service is Running && now_ms > updated_at_ms && now_ms - updated_at_ms > STATUS_STALE_AFTER_MS
}

/// Says what is wrong with a status that is too old for a running service.
pub fn stale_error(service: &ServiceViewState, updated_at_ms: Option<u64>, now_ms: u64) -> (error:
    Option<&'static str>)
    ensures
        error is Some == (updated_at_ms matches Some(updated) && is_stale(
            *service,
            updated,
            now_ms,
        )),
        error matches Some(text) ==> text@ == "Service status heartbeat is stale"@,
{
    let running = matches!(service, ServiceViewState::Running);
    match updated_at_ms {
        Some(updated) if running && now_ms.saturating_sub(updated) > STATUS_STALE_AFTER_MS => Some(
            "Service status heartbeat is stale",
        ),
        _ => None,
    }
}

/// The error that is shown of three: that of the last action, then that of
/// reading the status, then that of an old status.
pub fn visible_error<'a>(
    action: Option<&'a str>,
    status: Option<&'a str>,
    stale: Option<&'a str>,
) -> (error: Option<&'a str>)
    ensures
        error == if action is Some {
            action
        } else if status is Some {
            status
        } else {
            stale
        },
{
    if action.is_some() {
        action
    } else if status.is_some() {
        status
    } else {
        stale
    }
}

/// What reading the status gave.
#[derive(Debug)]
pub enum StatusRead {
    /// There is no status file.
    Absent,
    /// It was read, and has this version.
    Read { schema_version: u32 },
    Failed { error: String },
}

/// Says what is wrong with a status that was read, if anything is. The status
/// is used only where nothing is, and where there is one.
pub fn status_read_error(read: &StatusRead, supported: u32) -> (error: Option<String>)
    ensures
        error.deep_view() == match *read {
            StatusRead::Absent => None::<Seq<char>>,
            StatusRead::Read { schema_version } => if schema_version == supported {
                None
            } else {
                Some(
                    "Unsupported status schema "@ + crate::text::decimal(schema_version as nat)
                        + "; expected "@ + crate::text::decimal(supported as nat),
                )
            },
            StatusRead::Failed { error } => Some("Cannot read service status: "@ + error@),
        },
{
    match read {
        StatusRead::Absent => None,
        StatusRead::Read { schema_version } => {
            if *schema_version == supported {
                return None;
            }
            let mut text = "Unsupported status schema ".to_owned();
            push_decimal(&mut text, *schema_version as u64);
            text.append("; expected ");
            push_decimal(&mut text, supported as u64);
            Some(text)
        },
        StatusRead::Failed { error } => {
            let mut text = "Cannot read service status: ".to_owned();
            text.append(error.as_str());
            Some(text)
        },
    }
}

/// What a menu entry asks for.
#[derive(Debug, Clone, Copy, PartialEq, Eq, Structural)]
pub enum MenuCommand {
    SetScheduling { enabled: bool },
    StartService,
    StopService,
    /// The service is neither running nor stopped.
    RefuseServiceChange,
    OpenSettings,
    OpenConfiguration,
    OpenLogs,
    Refresh,
    OpenRepository,
    Exit,
}

/// What the service entry asks for.
pub open spec fn service_change(service: ServiceViewState) -> MenuCommand {
    match service {
        ServiceViewState::Running => MenuCommand::StopService,
        ServiceViewState::Stopped => MenuCommand::StartService,
        _ => MenuCommand::RefuseServiceChange,
    }
}

/// What an entry asks for. Unknown entries ask for nothing.
pub open spec fn command_of(
    id: Seq<char>,
    service: ServiceViewState,
    scheduling_enabled: bool,
) -> Option<MenuCommand> {
    if id == "scheduling"@ {
        Some(MenuCommand::SetScheduling { enabled: !scheduling_enabled })
    } else if id == "service"@ {
        Some(service_change(service))
    } else if id == "settings"@ {
        Some(MenuCommand::OpenSettings)
    } else if id == "open-config"@ {
        Some(MenuCommand::OpenConfiguration)
    } else if id == "open-logs"@ {
        Some(MenuCommand::OpenLogs)
    } else if id == "refresh"@ {
        Some(MenuCommand::Refresh)
    } else if id == "github"@ {
        Some(MenuCommand::OpenRepository)
    } else if id == "exit"@ {
        Some(MenuCommand::Exit)
    } else {
        None
    }
}

/// Says what an entry asks for.
pub fn menu_command(id: &str, service: &ServiceViewState, scheduling_enabled: bool) -> (command:
    Option<MenuCommand>)
    ensures
        command == command_of(id@, *service, scheduling_enabled),
{
    if same_text(id, "scheduling") {
        Some(MenuCommand::SetScheduling { enabled: !scheduling_enabled })
    } else if same_text(id, "service") {
        Some(
            match service {
                ServiceViewState::Running => MenuCommand::StopService,
                ServiceViewState::Stopped => MenuCommand::StartService,
                _ => MenuCommand::RefuseServiceChange,
            },
        )
    } else if same_text(id, "settings") {
        Some(MenuCommand::OpenSettings)
    } else if same_text(id, "open-config") {
        Some(MenuCommand::OpenConfiguration)
    } else if same_text(id, "open-logs") {
        Some(MenuCommand::OpenLogs)
    } else if same_text(id, "refresh") {
        Some(MenuCommand::Refresh)
    } else if same_text(id, "github") {
        Some(MenuCommand::OpenRepository)
    } else if same_text(id, "exit") {
        Some(MenuCommand::Exit)
    } else {
        None
    }
}

/// What asking for the state of the service gave.
#[derive(Debug)]
pub enum ServiceQuery {
    State(ServiceState),
    /// It failed with this error of the operating system, if it gave one, and
    /// this text.
    Failed { os_error: Option<i32>, text: String },
}

/// The words for a failure of the service manager.
pub open spec fn service_error_words(error: Seq<char>) -> Seq<char> {
    "Windows service error: "@ + error
}

/// Puts a failure of the service manager into words.
pub fn format_service_error(error: &str) -> (text: String)
    ensures
        text@ == service_error_words(error@),
{
    let mut text = "Windows service error: ".to_owned();
    text.append(error);
    text
}

/// Whether a view of the service says what asking for its state gave.
pub open spec fn views_query(view: ServiceViewState, query: ServiceQuery) -> bool {
    match query {
        ServiceQuery::State(ServiceState::Stopped) => view is Stopped,
        ServiceQuery::State(ServiceState::Running) => view is Running,
        ServiceQuery::State(ServiceState::StartPending) => view is StartPending,
        ServiceQuery::State(ServiceState::StopPending) => view is StopPending,
        ServiceQuery::State(state) => view matches ServiceViewState::Other(text) && text@
            == match state {
            ServiceState::ContinuePending => "ContinuePending"@,
            ServiceState::PausePending => "PausePending"@,
            _ => "Paused"@,
        },
        ServiceQuery::Failed { os_error, text } => if os_error == Some(
            crate::provision::ERROR_SERVICE_DOES_NOT_EXIST,
        ) {
            view is Missing
        } else {
            view matches ServiceViewState::Error(error) && error@ == service_error_words(text@)
        },
    }
}

/// Says what asking for the state of the service gave.
pub fn query_service_state(query: &ServiceQuery) -> (view: ServiceViewState)
    ensures
        views_query(view, *query),
{
    match query {
        ServiceQuery::State(state) => match state {
            ServiceState::Stopped => ServiceViewState::Stopped,
            ServiceState::Running => ServiceViewState::Running,
            ServiceState::StartPending => ServiceViewState::StartPending,
            ServiceState::StopPending => ServiceViewState::StopPending,
            ServiceState::ContinuePending => ServiceViewState::Other("ContinuePending".to_owned()),
            ServiceState::PausePending => ServiceViewState::Other("PausePending".to_owned()),
            ServiceState::Paused => ServiceViewState::Other("Paused".to_owned()),
        },
        ServiceQuery::Failed { os_error, text } => if is_missing_service_error(*os_error) {
            ServiceViewState::Missing
        } else {
            ServiceViewState::Error(format_service_error(text.as_str()))
        },
    }
}

/// Whether an error of opening a lock file says that another process has it
/// open.
pub fn lock_is_taken(os_error: Option<i32>) -> (taken: bool)
    ensures
        taken == (os_error == Some(32i32) || os_error == Some(33i32)),
{
    match os_error {
        Some(code) => code == 32 || code == 33,
        None => false,
    }
}

/// Says what is wrong with what the shell answered: answers above 32 mean
/// success.
pub fn shell_error(target: &str, code: i64) -> (error: Option<String>)
    ensures
        error.deep_view() == if code > 32 {
            None
        } else {
            Some(
                "ShellExecuteW failed for "@ + target@ + " with code "@
                    + crate::text::signed_decimal(code as int),
            )
        },
{
    if code > 32 {
        return None;
    }
    let mut text = "ShellExecuteW failed for ".to_owned();
    text.append(target);
    text.append(" with code ");
    push_signed(&mut text, code);
    Some(text)
}

/// The service entry does what it says: it stops a service that runs and
/// starts one that is stopped; in every other state it cannot be chosen, and
/// choosing it is refused.
pub proof fn the_service_entry_does_what_it_says(
    service: ServiceViewState,
    status: Option<ControllerStatus>,
    ui_error: Option<Seq<char>>,
    scheduling_enabled: bool,
)
    ensures
        ({
            let menu = menu_view(service, status, ui_error);
            let command = command_of("service"@, service, scheduling_enabled);
            &&& service is Running ==> menu.service_action == "Stop Service"@ && command == Some(
                MenuCommand::StopService,
            )
            &&& service is Stopped ==> menu.service_action == "Start Service"@ && command == Some(
                MenuCommand::StartService,
            )
            &&& menu.service_action_enabled <==> service is Running || service is Stopped
            &&& !menu.service_action_enabled ==> command == Some(MenuCommand::RefuseServiceChange)
            &&& service is Missing ==> menu.service_action == "Service Not Installed"@
        }),
{
    entries_differ();
}

proof fn entries_differ()
    ensures
        "scheduling"@ != "service"@,
        "scheduling"@ != "settings"@,
        "scheduling"@ != "open-config"@,
        "scheduling"@ != "open-logs"@,
        "scheduling"@ != "refresh"@,
        "scheduling"@ != "github"@,
        "scheduling"@ != "exit"@,
        "service"@ != "settings"@,
        "service"@ != "open-config"@,
        "service"@ != "open-logs"@,
        "service"@ != "refresh"@,
        "service"@ != "github"@,
        "service"@ != "exit"@,
        "settings"@ != "open-config"@,
        "settings"@ != "open-logs"@,
        "settings"@ != "refresh"@,
        "settings"@ != "github"@,
        "settings"@ != "exit"@,
        "open-config"@ != "open-logs"@,
        "open-config"@ != "refresh"@,
        "open-config"@ != "github"@,
        "open-config"@ != "exit"@,
        "open-logs"@ != "refresh"@,
        "open-logs"@ != "github"@,
        "open-logs"@ != "exit"@,
        "refresh"@ != "github"@,
        "refresh"@ != "exit"@,
        "github"@ != "exit"@,
{
    reveal_strlit("scheduling");
    reveal_strlit("service");
    reveal_strlit("settings");
    reveal_strlit("open-config");
    reveal_strlit("open-logs");
    reveal_strlit("refresh");
    reveal_strlit("github");
    reveal_strlit("exit");
    assert("scheduling"@.len() == 10 && "service"@.len() == 7 && "settings"@.len() == 8);
    assert("open-config"@.len() == 11 && "open-logs"@.len() == 9 && "refresh"@.len() == 7);
    assert("github"@.len() == 6 && "exit"@.len() == 4);
    assert("service"@[0] == 's' && "refresh"@[0] == 'r');
}

/// The scheduling entry turns scheduling to what it is not: it says so where
/// the settings let it, and can be chosen there while the service runs. Where
/// the settings do not, it says that they do not.
pub proof fn the_scheduling_entry_turns_scheduling_over(
    service: ServiceViewState,
    status: ControllerStatus,
    ui_error: Option<Seq<char>>,
)
    ensures
        ({
            let menu = menu_view(service, Some(status), ui_error);
            let command = command_of("scheduling"@, service, status.scheduling_enabled);
            let automatic = status.configured_mode == ControllerMode::Auto;
            &&& command == Some(MenuCommand::SetScheduling { enabled: !status.scheduling_enabled })
            &&& automatic && status.scheduling_enabled ==> menu.scheduling_action
                == "Disable Scheduling"@
            &&& automatic && !status.scheduling_enabled ==> menu.scheduling_action
                == "Enable Scheduling"@
            &&& status.configured_mode == ControllerMode::Off ==> menu.scheduling_action
                == "Scheduling Disabled (Off Mode)"@
            &&& status.configured_mode == ControllerMode::Observe ==> menu.scheduling_action
                == "Scheduling Disabled (Observe Mode)"@
            &&& menu.scheduling_action_enabled <==> automatic && service is Running
        }),
{
}

/// Each entry asks for its own thing, and anything else for nothing.
pub proof fn entries_ask_for_their_own(
    id: Seq<char>,
    service: ServiceViewState,
    scheduling_enabled: bool,
)
    ensures
        command_of("settings"@, service, scheduling_enabled) == Some(MenuCommand::OpenSettings),
        command_of("open-config"@, service, scheduling_enabled) == Some(
            MenuCommand::OpenConfiguration,
        ),
        command_of("open-logs"@, service, scheduling_enabled) == Some(MenuCommand::OpenLogs),
        command_of("refresh"@, service, scheduling_enabled) == Some(MenuCommand::Refresh),
        command_of("github"@, service, scheduling_enabled) == Some(MenuCommand::OpenRepository),
        command_of("exit"@, service, scheduling_enabled) == Some(MenuCommand::Exit),
        command_of(id, service, scheduling_enabled) == Some(MenuCommand::Exit) ==> id == "exit"@,
        command_of(id, service, scheduling_enabled) == Some(MenuCommand::StopService) ==> id
            == "service"@ && service is Running,
        command_of(id, service, scheduling_enabled) == Some(MenuCommand::StartService) ==> id
            == "service"@ && service is Stopped,
        (command_of(id, service, scheduling_enabled) matches Some(
            MenuCommand::SetScheduling { .. },
        )) ==> id == "scheduling"@,
{
    entries_differ();
}

/// The menu says what is going on: the state of the service and what the
/// controller does in its header, the mode, how many processes are managed, and
/// the last activity, each as the status has it.
pub proof fn the_menu_says_what_is_going_on(
    service: ServiceViewState,
    status: ControllerStatus,
    ui_error: Option<Seq<char>>,
)
    ensures
        ({
            let menu = menu_view(service, Some(status), ui_error);
            let off = !status.scheduling_enabled || status.phase == ControllerPhase::Disabled;
            &&& effective_words(status).is_suffix_of(menu.header)
            &&& crate::text::decimal(status.managed_processes as nat).is_suffix_of(menu.managed)
            &&& mode_word(status.configured_mode).is_suffix_of(menu.mode)
            &&& off ==> effective_words(status) == "Scheduling disabled"@
            &&& !off && status.configured_mode == ControllerMode::Auto ==> effective_words(status)
                == "Scheduling enabled"@
            &&& !off && status.configured_mode == ControllerMode::Observe ==> effective_words(
                status,
            ) == "Observe only"@
            &&& !off && status.configured_mode == ControllerMode::Off ==> effective_words(status)
                == "Configured off"@
            &&& status.last_activity matches Some(activity) ==> menu_words(
                activity@,
                96,
            ).is_suffix_of(menu.activity)
        }),
{
    let menu = menu_view(service, Some(status), ui_error);
    let doing = effective_words(status);
    let count = crate::text::decimal(status.managed_processes as nat);
    let mode = mode_word(status.configured_mode);
    assert(menu.header.subrange(
        menu.header.len() - doing.len(),
        menu.header.len() as int,
    ) =~= doing);
    assert(menu.managed.subrange(
        menu.managed.len() - count.len(),
        menu.managed.len() as int,
    ) =~= count);
    assert(menu.mode.subrange(menu.mode.len() - mode.len(), menu.mode.len() as int) =~= mode);
    if let Some(activity) = status.last_activity {
        let line = menu_words(activity@, 96);
        assert(menu.activity.subrange(
            menu.activity.len() - line.len(),
            menu.activity.len() as int,
        ) =~= line);
    }
}

/// Of several errors the menu shows one: that of the menu itself, else that of
/// the controller, else that of the service; and none where there is none.
pub proof fn the_nearest_error_is_shown(
    service: ServiceViewState,
    status: Option<ControllerStatus>,
    ui_error: Option<Seq<char>>,
)
    ensures
        ({
            let shown = menu_error(service, status, ui_error);
            let told = status matches Some(status) && status.last_error is Some;
            &&& ui_error is Some ==> shown == ui_error
            &&& ui_error is None && told ==> shown == Some((status->0).last_error->0@)
            &&& ui_error is None && !told ==> (service matches ServiceViewState::Error(error)
                ==> shown == Some(error@))
            &&& ui_error is None && !told && !(service is Error) ==> shown is None
            &&& shown matches Some(error) ==> menu_words(error, 96).is_suffix_of(
                menu_view(service, status, ui_error).error,
            )
        }),
{
    if let Some(error) = menu_error(service, status, ui_error) {
        let line = menu_words(error, 96);
        let said = menu_view(service, status, ui_error).error;
        assert(said.subrange(said.len() - line.len(), said.len() as int) =~= line);
    }
}

/// What is cut off a line is marked, and what is left is its beginning.
pub proof fn cut_lines_are_marked(value: Seq<char>, max_chars: usize)
    requires
        max_chars > 0,
        crate::text::compact(value).len() > max_chars,
    ensures
        menu_words(value, max_chars).len() == max_chars,
        menu_words(value, max_chars).last() == '\u{2026}',
        menu_words(value, max_chars).drop_last() == crate::text::compact(value).take(max_chars - 1),
{
    assert(menu_words(value, max_chars).drop_last() =~= crate::text::compact(value).take(
        max_chars - 1,
    ));
}

/// The line on the background policies counts those that are active before
/// those that are protected, and the sensors that report before those that are
/// needed; memory is said to be low exactly where it is.
pub proof fn background_lines_count_in_order(status: ControllerStatus)
    ensures
        ({
            let line = background_line(Some(status));
            let background = status.background_efficiency;
            &&& ("Background QoS: "@ + crate::text::decimal(background.managed_processes as nat)
                + " active, "@ + crate::text::decimal(background.protected_processes as nat)
                + " protected"@).is_prefix_of(line)
            &&& ("; sensors "@ + crate::text::decimal(background.interactive_probe_sessions as nat)
                + " of "@ + crate::text::decimal(
                background.required_probe_sessions as nat,
            )).is_suffix_of(line)
            &&& memory_state_words(true, true) == "low"@
            &&& memory_state_words(true, false) == "normal"@
            &&& memory_state_words(false, false) == "unmonitored"@
            &&& memory_state_words(false, true) == "low (unmonitored)"@
        }),
{
    let line = background_line(Some(status));
    let background = status.background_efficiency;
    reveal_strlit(" protected");
    reveal_strlit(" protected; memory ");
    let start = "Background QoS: "@ + crate::text::decimal(background.managed_processes as nat)
        + " active, "@ + crate::text::decimal(background.protected_processes as nat)
        + " protected"@;
    let end = "; sensors "@ + crate::text::decimal(background.interactive_probe_sessions as nat)
        + " of "@ + crate::text::decimal(background.required_probe_sessions as nat);
    assert(line.subrange(0, start.len() as int) =~= start);
    assert(line.subrange(line.len() - end.len(), line.len() as int) =~= end);
}

/// A status is too old only for a service that runs, and only when more than
/// 75 seconds have passed since it was written.
pub proof fn running_services_keep_their_status_fresh(
    service: ServiceViewState,
    updated_at_ms: u64,
    now_ms: u64,
)
    ensures
        is_stale(service, updated_at_ms, now_ms) <==> service is Running && now_ms > updated_at_ms
            + 75_000,
{
}

/// The words for each known state of the service are its own, and a state that
/// is not known is told as it is.
pub proof fn service_states_are_told(service: ServiceViewState)
    ensures
        service matches ServiceViewState::Other(state) ==> state@.is_suffix_of(
            service_words(service),
        ),
        service is Running ==> service_words(service) == "Service running"@,
        service is Stopped ==> service_words(service) == "Service stopped"@,
        service is StartPending ==> service_words(service) == "Service starting"@,
        service is StopPending ==> service_words(service) == "Service stopping"@,
        service is Missing ==> service_words(service) == "Service not installed"@,
        service is Error ==> service_words(service) == "Service status error"@,
{
    if let ServiceViewState::Other(state) = service {
        let words = service_words(service);
        assert(words.subrange(words.len() - state@.len(), words.len() as int) =~= state@);
    }
}

/// The service is seen as it answers; one that does not exist is seen as
/// missing, and any other failure as an error that tells it.
pub proof fn services_are_seen_as_they_answer(view: ServiceViewState, query: ServiceQuery)
    requires
        views_query(view, query),
    ensures
        query == ServiceQuery::State(ServiceState::Running) <==> view is Running,
        query == ServiceQuery::State(ServiceState::Stopped) <==> view is Stopped,
        query == ServiceQuery::State(ServiceState::StartPending) <==> view is StartPending,
        query == ServiceQuery::State(ServiceState::StopPending) <==> view is StopPending,
        view is Missing <==> (query matches ServiceQuery::Failed { os_error, .. } && os_error
            == Some(1060i32)),
        view is Error ==> (query matches ServiceQuery::Failed { text, .. } && text@.is_suffix_of(
            view->Error_0@,
        )),
{
    if let ServiceViewState::Error(error) = view {
        if let ServiceQuery::Failed { text, .. } = query {
            assert(error@.subrange(error@.len() - text@.len(), error@.len() as int) =~= text@);
        }
    }
}

} // verus!
