//! Registering the service, and undoing a registration that failed.
use vstd::prelude::*;

use crate::observations::ControllerMode;
use crate::schedule::ControllerCommand;
use crate::text::eq_ignore_ascii_case;

verus! {

/// The name under which the service is shown.
pub const SERVICE_DISPLAY_NAME: &'static str = "WinSched LLC-aware placement controller";

/// What is said of the service.
pub const SERVICE_DESCRIPTION: &'static str =
    "Supported-API-only, fail-closed LLC-aware CPU Set controller for Windows 11";

/// Who may do what with the service: the system and the administrators all,
/// the interactive users look at it, start it, stop it and control it.
pub const INTERACTIVE_SERVICE_SDDL: &'static str =
    "D:(A;;CCDCLCSWRPWPDTLOCRSDRCWDWO;;;SY)(A;;CCDCLCSWRPWPDTLOCRSDRCWDWO;;;BA)(A;;CCLCSWRPWPLOCRRC;;;IU)";

/// When the service is started.
#[derive(Debug, Clone, Copy, PartialEq, Eq, Structural)]
pub enum ServiceStartType {
    BootStart,
    SystemStart,
    AutoStart,
    OnDemand,
    Disabled,
}

/// What happens when the service does not start.
#[derive(Debug, Clone, Copy, PartialEq, Eq, Structural)]
pub enum ServiceErrorControl {
    Ignore,
    Normal,
    Severe,
    Critical,
}

/// What a service needs.
#[derive(Debug)]
pub enum ServiceDependency {
    Service(String),
    Group(String),
}

/// The registration of a service.
#[derive(Debug)]
pub struct ServiceConfig {
    /// Whether the service runs in a process of its own.
    pub own_process: bool,
    pub start_type: ServiceStartType,
    pub error_control: ServiceErrorControl,
    pub executable_path: String,
    pub load_order_group: Option<String>,
    pub tag_id: u32,
    pub dependencies: Vec<ServiceDependency>,
    pub account_name: Option<String>,
    pub display_name: String,
}

/// Why a registration cannot be restored.
#[derive(Debug, Clone, Copy, PartialEq, Eq, Structural)]
pub enum RestoreFault {
    NotOwnProcess,
    LoadOrderGroup,
    DriverStart,
    Account,
}

impl RestoreFault {
    /// Describes the fault.
    pub fn message(&self) -> (text: &'static str)
        ensures
            text@ == match *self {
                RestoreFault::NotOwnProcess =>
                    "only an OWN_PROCESS WinSched service is supported"@,
                RestoreFault::LoadOrderGroup =>
                    "load-order groups are not supported for WinSched"@,
                RestoreFault::DriverStart =>
                    "driver start types are not supported for WinSched"@,
                RestoreFault::Account =>
                    "the existing WinSched service must run as LocalSystem"@,
            },
    {
        match self {
            RestoreFault::NotOwnProcess => "only an OWN_PROCESS WinSched service is supported",
            RestoreFault::LoadOrderGroup => "load-order groups are not supported for WinSched",
            RestoreFault::DriverStart => "driver start types are not supported for WinSched",
            RestoreFault::Account => "the existing WinSched service must run as LocalSystem",
        }
    }
}

/// The name under which the service control program knows a start type.
pub open spec fn start_word(start_type: ServiceStartType) -> Seq<char> {
    match start_type {
        ServiceStartType::BootStart => "boot"@,
        ServiceStartType::SystemStart => "system"@,
        ServiceStartType::AutoStart => "auto"@,
        ServiceStartType::OnDemand => "demand"@,
        ServiceStartType::Disabled => "disabled"@,
    }
}

/// The name under which the service control program knows a start type.
pub fn sc_start_type(start_type: ServiceStartType) -> (word: &'static str)
    ensures
        word@ == start_word(start_type),
{
    match start_type {
        ServiceStartType::BootStart => "boot",
        ServiceStartType::SystemStart => "system",
        ServiceStartType::AutoStart => "auto",
        ServiceStartType::OnDemand => "demand",
        ServiceStartType::Disabled => "disabled",
    }
}

/// The name under which the service control program knows an error control.
pub open spec fn error_word(error_control: ServiceErrorControl) -> Seq<char> {
    match error_control {
        ServiceErrorControl::Ignore => "ignore"@,
        ServiceErrorControl::Normal => "normal"@,
        ServiceErrorControl::Severe => "severe"@,
        ServiceErrorControl::Critical => "critical"@,
    }
}

/// The name under which the service control program knows an error control.
pub fn sc_error_control(error_control: ServiceErrorControl) -> (word: &'static str)
    ensures
        word@ == error_word(error_control),
{
    match error_control {
        ServiceErrorControl::Ignore => "ignore",
        ServiceErrorControl::Normal => "normal",
        ServiceErrorControl::Severe => "severe",
        ServiceErrorControl::Critical => "critical",
    }
}

/// Whether an account is the one of the local system.
pub open spec fn is_local_system(account: Option<Seq<char>>) -> bool {
    account matches Some(name) && (crate::text::same_ignoring_case(name, "LocalSystem"@)
        || crate::text::same_ignoring_case(name, "NT AUTHORITY\\SYSTEM"@))
}

/// Whether an account is the one of the local system.
pub fn is_local_system_account(account: &Option<String>) -> (local: bool)
    ensures
        local == is_local_system(account.deep_view()),
{
    match account {
        None => false,
        Some(name) => eq_ignore_ascii_case(name.as_str(), "LocalSystem") || eq_ignore_ascii_case(
            name.as_str(),
            "NT AUTHORITY\\SYSTEM",
        ),
    }
}

/// The name of a dependency: that of a group has a plus sign before it.
pub open spec fn dependency_word(dependency: ServiceDependency) -> Seq<char> {
    match dependency {
        ServiceDependency::Service(name) => name@,
        ServiceDependency::Group(name) => "+"@ + name@,
    }
}

/// The names of dependencies, with a slash between two of them. A name that
/// follows nothing but empty names has no slash before it.
pub open spec fn dependency_words(dependencies: Seq<ServiceDependency>) -> Seq<char>
    decreases dependencies.len(),
{
    if dependencies.len() == 0 {
        Seq::empty()
    } else {
        let before = dependency_words(dependencies.drop_last());
        if before.len() == 0 {
            before + dependency_word(dependencies.last())
        } else {
            before + "/"@ + dependency_word(dependencies.last())
        }
    }
}

fn dependency_text(dependencies: &Vec<ServiceDependency>) -> (text: String)
    ensures
        text@ == dependency_words(dependencies@),
{
    let mut text = String::new();
    let mut at: usize = 0;
    while at < dependencies.len()
        invariant
            at <= dependencies.len(),
            text@ == dependency_words(dependencies@.take(at as int)),
        decreases dependencies.len() - at,
    {
        proof {
            assert(dependencies@.take(at + 1).drop_last() =~= dependencies@.take(at as int));
            assert(dependencies@.take(at + 1).last() == dependencies@[at as int]);
        }
        let ghost before = text@;
        if !text.as_str().is_empty() {
            text.append("/");
        }
        let ghost mid = text@;
        match &dependencies[at] {
            ServiceDependency::Service(name) => {
                text.append(name.as_str());
            },
            ServiceDependency::Group(name) => {
                text.append("+");
                text.append(name.as_str());
                proof {
                    assert(text@ =~= mid + ("+"@ + name@));
                }
            },
        }
        at = at + 1;
    }
    proof {
        assert(dependencies@.take(at as int) =~= dependencies@);
    }
    text
}

/// The first thing that keeps a registration from being restored.
pub open spec fn restore_fault(config: ServiceConfig) -> Option<RestoreFault> {
    if !config.own_process {
        Some(RestoreFault::NotOwnProcess)
    } else if config.load_order_group is Some || config.tag_id != 0 {
        Some(RestoreFault::LoadOrderGroup)
    } else if config.start_type is BootStart || config.start_type is SystemStart {
        Some(RestoreFault::DriverStart)
    } else if !is_local_system(config.account_name.deep_view()) {
        Some(RestoreFault::Account)
    } else {
        None
    }
}

/// The arguments with which the service control program restores a
/// registration. An automatic start is not named, so that a delayed one stays
/// delayed.
pub open spec fn restore_words(config: ServiceConfig, service_name: Seq<char>) -> Seq<Seq<char>> {
    let start = if config.start_type is AutoStart {
        Seq::<Seq<char>>::empty()
    } else {
        seq!["start="@, start_word(config.start_type)]
    };
    seq!["config"@, service_name, "type="@, "own"@] + start + seq![
        "error="@,
        error_word(config.error_control),
        "binPath="@,
        config.executable_path@,
        "depend="@,
        dependency_words(config.dependencies@),
        "obj="@,
        "LocalSystem"@,
        "DisplayName="@,
        config.display_name@,
    ]
}

/// The texts of a list.
pub open spec fn texts(list: Seq<String>) -> Seq<Seq<char>> {
    list.map_values(|text: String| text@)
}

fn push_text(list: &mut Vec<String>, text: &str)
    ensures
        texts(final(list)@) == texts(old(list)@).push(text@),
{
    list.push(text.to_owned());
    proof {
        assert(texts(list@) =~= texts(old(list)@).push(text@));
    }
}

/// Gives the arguments with which the service control program restores a
/// registration, or says why it cannot.
pub fn service_config_restore_args(config: &ServiceConfig, service_name: &str) -> (args: Result<
    Vec<String>,
    RestoreFault,
>)
    ensures
        match restore_fault(*config) {
            Some(fault) => args == Err::<Vec<String>, _>(fault),
            None => args matches Ok(args) && texts(args@) == restore_words(
                *config,
                service_name@,
            ),
        },
{
    if !config.own_process {
        return Err(RestoreFault::NotOwnProcess);
    }
    if config.load_order_group.is_some() || config.tag_id != 0 {
        return Err(RestoreFault::LoadOrderGroup);
    }
    match config.start_type {
        ServiceStartType::BootStart | ServiceStartType::SystemStart => {
            return Err(RestoreFault::DriverStart);
        },
        _ => {},
    }
    if !is_local_system_account(&config.account_name) {
        return Err(RestoreFault::Account);
    }
    let dependencies = dependency_text(&config.dependencies);
    let mut args: Vec<String> = Vec::new();
    push_text(&mut args, "config");
    push_text(&mut args, service_name);
    push_text(&mut args, "type=");
    push_text(&mut args, "own");
    match config.start_type {
        ServiceStartType::AutoStart => {},
        _ => {
            push_text(&mut args, "start=");
            push_text(&mut args, sc_start_type(config.start_type));
        },
    }
    push_text(&mut args, "error=");
    push_text(&mut args, sc_error_control(config.error_control));
    push_text(&mut args, "binPath=");
    push_text(&mut args, config.executable_path.as_str());
    push_text(&mut args, "depend=");
    push_text(&mut args, dependencies.as_str());
    push_text(&mut args, "obj=");
    push_text(&mut args, "LocalSystem");
    push_text(&mut args, "DisplayName=");
    push_text(&mut args, config.display_name.as_str());
    proof {
        assert(texts(args@) =~= restore_words(*config, service_name@));
    }
    Ok(args)
}

/// Whether the service ran before it was changed.
#[derive(Debug, Clone, Copy, PartialEq, Eq, Structural)]
pub enum PriorServiceState {
    Running,
    Stopped,
}

/// What a service does.
#[derive(Debug, Clone, Copy, PartialEq, Eq, Structural)]
pub enum ServiceState {
    Stopped,
    StartPending,
    StopPending,
    Running,
    ContinuePending,
    PausePending,
    Paused,
}

/// An operation on the service.
#[derive(Debug, Clone, Copy, PartialEq, Eq, Structural)]
pub enum ServiceOp {
    Start,
    Stop,
    WaitUntilRunning,
    WaitUntilStopped,
}

/// What brings a service to run.
pub open spec fn ops_to_run(state: ServiceState) -> Seq<ServiceOp> {
    match state {
        ServiceState::Running => seq![],
        ServiceState::StartPending => seq![ServiceOp::WaitUntilRunning],
        ServiceState::StopPending => seq![
            ServiceOp::WaitUntilStopped,
            ServiceOp::Start,
            ServiceOp::WaitUntilRunning,
        ],
        _ => seq![ServiceOp::Start, ServiceOp::WaitUntilRunning],
    }
}

/// What brings a service to stop.
pub open spec fn ops_to_stop(state: ServiceState) -> Seq<ServiceOp> {
    match state {
        ServiceState::Stopped => seq![],
        ServiceState::StopPending => seq![ServiceOp::WaitUntilStopped],
        ServiceState::StartPending => seq![
            ServiceOp::WaitUntilRunning,
            ServiceOp::Stop,
            ServiceOp::WaitUntilStopped,
        ],
        _ => seq![ServiceOp::Stop, ServiceOp::WaitUntilStopped],
    }
}

/// Says what brings a service to run.
pub fn ensure_service_running(state: ServiceState) -> (ops: Vec<ServiceOp>)
    ensures
        ops@ == ops_to_run(state),
{
    let mut ops: Vec<ServiceOp> = Vec::new();
    match state {
        ServiceState::Running => {},
        ServiceState::StartPending => {
            ops.push(ServiceOp::WaitUntilRunning);
        },
        ServiceState::StopPending => {
            ops.push(ServiceOp::WaitUntilStopped);
            ops.push(ServiceOp::Start);
            ops.push(ServiceOp::WaitUntilRunning);
        },
        _ => {
            ops.push(ServiceOp::Start);
            ops.push(ServiceOp::WaitUntilRunning);
        },
    }
    ops
}

/// Says what brings a service to stop.
pub fn ensure_service_stopped(state: ServiceState) -> (ops: Vec<ServiceOp>)
    ensures
        ops@ == ops_to_stop(state),
{
    let mut ops: Vec<ServiceOp> = Vec::new();
    match state {
        ServiceState::Stopped => {},
        ServiceState::StopPending => {
            ops.push(ServiceOp::WaitUntilStopped);
        },
        ServiceState::StartPending => {
            ops.push(ServiceOp::WaitUntilRunning);
            ops.push(ServiceOp::Stop);
            ops.push(ServiceOp::WaitUntilStopped);
        },
        _ => {
            ops.push(ServiceOp::Stop);
            ops.push(ServiceOp::WaitUntilStopped);
        },
    }
    ops
}

/// Whether operations end with a wait for a state, or are not needed in it.
pub open spec fn ends_in(ops: Seq<ServiceOp>, state: ServiceState, wanted: ServiceState, wait: ServiceOp) -> bool {
    if ops.len() == 0 {
        state == wanted
    } else {
        ops.last() == wait
    }
}

/// Whatever a service does, it runs, or is stopped, when all operations are
/// done.
pub proof fn services_reach_the_wanted_state(state: ServiceState)
    ensures
        ends_in(
            ops_to_run(state),
            state,
            ServiceState::Running,
            ServiceOp::WaitUntilRunning,
        ),
        ends_in(
            ops_to_stop(state),
            state,
            ServiceState::Stopped,
            ServiceOp::WaitUntilStopped,
        ),
{
}

/// What to wait for before a service is changed, and what it then did before.
/// There is no answer for a service that is neither to run nor to stop.
pub fn stable_prior_service_state(state: ServiceState) -> (prior: Option<
    (PriorServiceState, Option<ServiceOp>),
>)
    ensures
        prior == match state {
            ServiceState::Running => Some((PriorServiceState::Running, None::<ServiceOp>)),
            ServiceState::Stopped => Some((PriorServiceState::Stopped, None)),
            ServiceState::StartPending => Some(
                (PriorServiceState::Running, Some(ServiceOp::WaitUntilRunning)),
            ),
            ServiceState::StopPending => Some(
                (PriorServiceState::Stopped, Some(ServiceOp::WaitUntilStopped)),
            ),
            _ => None,
        },
{
    match state {
        ServiceState::Running => Some((PriorServiceState::Running, None)),
        ServiceState::Stopped => Some((PriorServiceState::Stopped, None)),
        ServiceState::StartPending => Some(
            (PriorServiceState::Running, Some(ServiceOp::WaitUntilRunning)),
        ),
        ServiceState::StopPending => Some(
            (PriorServiceState::Stopped, Some(ServiceOp::WaitUntilStopped)),
        ),
        _ => None,
    }
}

/// A step of undoing a changed registration.
#[derive(Debug, Clone, Copy, PartialEq, Eq, Structural)]
pub enum RollbackStep {
    StopReplacement,
    RestoreConfiguration,
    RestoreDescription,
    RestoreFailureActions,
    RestoreNonCrashFlag,
    RestoreAcl,
    EnableTemporarily,
    RestoreRunning,
    RestoreStopped,
    RestoreDisabledStart,
}

impl RollbackStep {
    /// The words for a step.
    pub fn label(&self) -> (text: &'static str)
        ensures
            text@ == match *self {
                RollbackStep::StopReplacement => "stop replacement service"@,
                RollbackStep::RestoreConfiguration => "restore service configuration"@,
                RollbackStep::RestoreDescription => "restore service description"@,
                RollbackStep::RestoreFailureActions => "restore service failure actions"@,
                RollbackStep::RestoreNonCrashFlag => "restore non-crash failure flag"@,
                RollbackStep::RestoreAcl => "restore service ACL"@,
                RollbackStep::EnableTemporarily => "temporarily enable prior disabled service"@,
                RollbackStep::RestoreRunning => "restore service state"@,
                RollbackStep::RestoreStopped => "restore service state"@,
                RollbackStep::RestoreDisabledStart => "restore disabled start type"@,
            },
    {
        match self {
            RollbackStep::StopReplacement => "stop replacement service",
            RollbackStep::RestoreConfiguration => "restore service configuration",
            RollbackStep::RestoreDescription => "restore service description",
            RollbackStep::RestoreFailureActions => "restore service failure actions",
            RollbackStep::RestoreNonCrashFlag => "restore non-crash failure flag",
            RollbackStep::RestoreAcl => "restore service ACL",
            RollbackStep::EnableTemporarily => "temporarily enable prior disabled service",
            RollbackStep::RestoreRunning => "restore service state",
            RollbackStep::RestoreStopped => "restore service state",
            RollbackStep::RestoreDisabledStart => "restore disabled start type",
        }
    }
}

/// The steps of undoing a changed registration. The service is stopped first,
/// so that a service that ran before runs its own program again; one that ran
/// although it was disabled is enabled while it is started.
pub open spec fn rollback_steps(prior: PriorServiceState, start_type: ServiceStartType) -> Seq<
    RollbackStep,
> {
    let common = seq![
        RollbackStep::StopReplacement,
        RollbackStep::RestoreConfiguration,
        RollbackStep::RestoreDescription,
        RollbackStep::RestoreFailureActions,
        RollbackStep::RestoreNonCrashFlag,
        RollbackStep::RestoreAcl,
    ];
    if prior is Running && start_type is Disabled {
        common + seq![
            RollbackStep::EnableTemporarily,
            RollbackStep::RestoreRunning,
            RollbackStep::RestoreDisabledStart,
        ]
    } else if prior is Running {
        common.push(RollbackStep::RestoreRunning)
    } else {
        common.push(RollbackStep::RestoreStopped)
    }
}

/// Says how a changed registration is undone. Every step is tried, whatever
/// came of the ones before.
pub fn rollback_existing_service(prior: PriorServiceState, start_type: ServiceStartType) -> (steps:
    Vec<RollbackStep>)
    ensures
        steps@ == rollback_steps(prior, start_type),
{
    let mut steps: Vec<RollbackStep> = Vec::new();
    steps.push(RollbackStep::StopReplacement);
    steps.push(RollbackStep::RestoreConfiguration);
    steps.push(RollbackStep::RestoreDescription);
    steps.push(RollbackStep::RestoreFailureActions);
    steps.push(RollbackStep::RestoreNonCrashFlag);
    steps.push(RollbackStep::RestoreAcl);
    match prior {
        PriorServiceState::Running => {
            if matches!(start_type, ServiceStartType::Disabled) {
                steps.push(RollbackStep::EnableTemporarily);
                steps.push(RollbackStep::RestoreRunning);
                steps.push(RollbackStep::RestoreDisabledStart);
            } else {
                steps.push(RollbackStep::RestoreRunning);
            }
        },
        PriorServiceState::Stopped => {
            steps.push(RollbackStep::RestoreStopped);
        },
    }
    proof {
        assert(steps@ =~= rollback_steps(prior, start_type));
    }
    steps
}

/// Undoing a registration begins by stopping the service and ends with the
/// service as it was: running only if it ran, and disabled if it was.
pub proof fn rollback_restores_the_state(prior: PriorServiceState, start_type: ServiceStartType)
    ensures
        rollback_steps(prior, start_type)[0] == RollbackStep::StopReplacement,
        rollback_steps(prior, start_type).contains(RollbackStep::RestoreRunning) <==> prior
            is Running,
        rollback_steps(prior, start_type).contains(RollbackStep::EnableTemporarily)
            ==> rollback_steps(prior, start_type).last() == RollbackStep::RestoreDisabledStart,
{
    let steps = rollback_steps(prior, start_type);
    if prior is Running {
        if start_type is Disabled {
            assert(steps[7] == RollbackStep::RestoreRunning);
        } else {
            assert(steps[6] == RollbackStep::RestoreRunning);
        }
    }
}

/// Notes a step of a recovery that failed.
pub fn record_recovery_result(failures: &mut Vec<String>, action: &str, error: Option<&str>)
    ensures
        texts(final(failures)@) == match error {
            Some(error) => texts(old(failures)@).push(action@ + ": "@ + error@),
            None => texts(old(failures)@),
        },
{
    if let Some(error) = error {
        let mut text = action.to_owned();
        text.append(": ");
        text.append(error);
        failures.push(text);
        proof {
            assert(texts(failures@) =~= texts(old(failures)@).push(action@ + ": "@ + error@));
        }
    }
}

/// Texts with a semicolon and a space between two of them.
pub open spec fn joined(list: Seq<Seq<char>>) -> Seq<char>
    decreases list.len(),
{
    if list.len() == 0 {
        Seq::empty()
    } else if list.len() == 1 {
        list[0]
    } else {
        joined(list.drop_last()) + "; "@ + list.last()
    }
}

/// Joins texts with a semicolon and a space.
pub fn join_texts(list: &Vec<String>) -> (text: String)
    ensures
        text@ == joined(texts(list@)),
{
    let ghost all = texts(list@);
    if list.len() == 0 {
        return String::new();
    }
    let mut text = list[0].as_str().to_owned();
    let mut at: usize = 1;
    while at < list.len()
        invariant
            1 <= at <= list.len(),
            all == texts(list@),
            text@ == joined(all.take(at as int)),
        decreases list.len() - at,
    {
        proof {
            assert(all.take(at + 1).drop_last() =~= all.take(at as int));
            assert(all.take(at + 1).last() == list@[at as int]@);
        }
        text.append("; ");
        text.append(list[at].as_str());
        at = at + 1;
    }
    proof {
        assert(all.take(at as int) =~= all);
    }
    text
}

/// What a recovery comes to: nothing when all of it worked.
pub fn recovery_error(failures: &Vec<String>) -> (error: Option<String>)
    ensures
        error.deep_view() == if failures@.len() == 0 {
            None
        } else {
            Some(joined(texts(failures@)))
        },
{
    if failures.len() == 0 {
        None
    } else {
        Some(join_texts(failures))
    }
}

/// The error of a failed registration, with that of its recovery.
pub fn with_transaction_recovery(operation: &str, recovery: &Option<String>) -> (error: String)
    ensures
        error@ == match recovery.deep_view() {
            None => operation@,
            Some(recovery) => "service provisioning failed: "@ + operation@
                + "; recovery also failed: "@ + recovery,
        },
{
    match recovery {
        None => operation.to_owned(),
        Some(recovery) => {
            let mut text = "service provisioning failed: ".to_owned();
            text.append(operation);
            text.append("; recovery also failed: ");
            text.append(recovery.as_str());
            text
        },
    }
}

/// What opening the service gave.
#[derive(Debug, Clone, Copy, PartialEq, Eq, Structural)]
pub enum OpenAnswer {
    Opened,
    Missing,
    Failed,
}

/// Where the registration came from.
#[derive(Debug, Clone, Copy, PartialEq, Eq, Structural)]
pub enum ServiceOrigin {
    Created,
    Existing,
}

/// How a registration goes on.
#[derive(Debug, Clone, Copy, PartialEq, Eq, Structural)]
pub enum RegistrationStep {
    /// Try to open the service.
    Open,
    /// Take down the present registration, then change it.
    CaptureAndChange,
    Create,
    /// Apply the settings that go with a registration.
    ApplySettings,
    /// Undo the change.
    RollBack,
    /// Remove what was created.
    RemoveCreated,
    /// Give up with the error that came.
    GiveUp,
    Done,
}

/// How a registration begins: an existing service is looked for only where it
/// may be changed.
pub fn begin_registration(allow_existing: bool) -> (step: RegistrationStep)
    ensures
        step == registration_begun(allow_existing),
        step == if allow_existing {
            RegistrationStep::Open
        } else {
            RegistrationStep::Create
        },
{
    if allow_existing {
        RegistrationStep::Open
    } else {
        RegistrationStep::Create
    }
}

/// How a registration goes on once the service was looked for.
pub fn registration_after_open(answer: OpenAnswer) -> (step: RegistrationStep)
    ensures
        step == registration_opened(answer),
        step == match answer {
            OpenAnswer::Opened => RegistrationStep::CaptureAndChange,
            OpenAnswer::Missing => RegistrationStep::Create,
            OpenAnswer::Failed => RegistrationStep::GiveUp,
        },
{
    match answer {
        OpenAnswer::Opened => RegistrationStep::CaptureAndChange,
        OpenAnswer::Missing => RegistrationStep::Create,
        OpenAnswer::Failed => RegistrationStep::GiveUp,
    }
}

/// How a registration goes on once it was changed or created. A change that
/// failed is undone; nothing is left to undo of a creation that failed.
pub fn registration_after_change(origin: ServiceOrigin, changed: bool) -> (step: RegistrationStep)
    ensures
        step == registration_changed(origin, changed),
        step == if changed {
            RegistrationStep::ApplySettings
        } else {
            match origin {
                ServiceOrigin::Existing => RegistrationStep::RollBack,
                ServiceOrigin::Created => RegistrationStep::GiveUp,
            }
        },
{
    if changed {
        RegistrationStep::ApplySettings
    } else {
        match origin {
            ServiceOrigin::Existing => RegistrationStep::RollBack,
            ServiceOrigin::Created => RegistrationStep::GiveUp,
        }
    }
}

/// How a registration ends: when its settings could not be applied, the
/// service is as it was before, or gone if it was not there.
pub fn registration_after_settings(origin: ServiceOrigin, applied: bool) -> (step: RegistrationStep)
    ensures
        step == registration_settled(origin, applied),
        step == if applied {
            RegistrationStep::Done
        } else {
            match origin {
                ServiceOrigin::Existing => RegistrationStep::RollBack,
                ServiceOrigin::Created => RegistrationStep::RemoveCreated,
            }
        },
{
    if applied {
        RegistrationStep::Done
    } else {
        match origin {
            ServiceOrigin::Existing => RegistrationStep::RollBack,
            ServiceOrigin::Created => RegistrationStep::RemoveCreated,
        }
    }
}

/// Whether settings may be registered: those of a controller that changes
/// processes only with consent.
pub fn registration_allowed(mode: ControllerMode, allow_auto: bool) -> (allowed: bool)
    ensures
        allowed == (mode != ControllerMode::Auto || allow_auto),
{
    mode != ControllerMode::Auto || allow_auto
}

/// The receipt of a provisioning.
pub fn provision_receipt(error: Option<&str>) -> (text: String)
    ensures
        text@ == match error {
            None => "SUCCESS\n"@,
            Some(error) => "ERROR: "@ + error@ + "\n"@,
        },
{
    match error {
        None => "SUCCESS\n".to_owned(),
        Some(error) => {
            let mut text = "ERROR: ".to_owned();
            text.append(error);
            text.append("\n");
            text
        },
    }
}

/// The number of the error that says that a service does not exist.
pub const ERROR_SERVICE_DOES_NOT_EXIST: i32 = 1060;

/// The number of the error that says that a service is marked for deletion.
pub const ERROR_SERVICE_MARKED_FOR_DELETE: i32 = 1072;

/// Whether an error says that a service does not exist.
pub fn is_missing_service_error(os_error: Option<i32>) -> (missing: bool)
    ensures
        missing == (os_error == Some(ERROR_SERVICE_DOES_NOT_EXIST)),
{
    match os_error {
        Some(code) => code == ERROR_SERVICE_DOES_NOT_EXIST,
        None => false,
    }
}

/// Whether an error says that a service is marked for deletion.
pub fn is_service_marked_for_delete_error(os_error: Option<i32>) -> (marked: bool)
    ensures
        marked == (os_error == Some(ERROR_SERVICE_MARKED_FOR_DELETE)),
{
    match os_error {
        Some(code) => code == ERROR_SERVICE_MARKED_FOR_DELETE,
        None => false,
    }
}

/// What opening a service says while its deletion is waited for.
#[derive(Debug, Clone, Copy, PartialEq, Eq, Structural)]
pub enum Poll {
    /// What was waited for is there.
    Reached,
    Again,
    TimedOut,
    /// Looking failed.
    Failed,
}

/// How a wait for a state goes on.
pub fn poll_state(reached: bool, past_deadline: bool) -> (poll: Poll)
    ensures
        poll == if reached {
            Poll::Reached
        } else if past_deadline {
            Poll::TimedOut
        } else {
            Poll::Again
        },
{
    if reached {
        Poll::Reached
    } else if past_deadline {
        Poll::TimedOut
    } else {
        Poll::Again
    }
}

/// How a wait for a deletion goes on. `opened` is the error of opening the
/// service, if there was one, and inside it the number the system gave.
pub fn poll_absence(opened: Option<Option<i32>>, past_deadline: bool) -> (poll: Poll)
    ensures
        poll == match opened {
            Some(os_error) => if os_error == Some(ERROR_SERVICE_DOES_NOT_EXIST) {
                Poll::Reached
            } else if os_error != Some(ERROR_SERVICE_MARKED_FOR_DELETE) {
                Poll::Failed
            } else if past_deadline {
                Poll::TimedOut
            } else {
                Poll::Again
            },
            None => if past_deadline {
                Poll::TimedOut
            } else {
                Poll::Again
            },
        },
{
    if let Some(os_error) = opened {
        if is_missing_service_error(os_error) {
            return Poll::Reached;
        }
        if !is_service_marked_for_delete_error(os_error) {
            return Poll::Failed;
        }
    }
    if past_deadline {
        Poll::TimedOut
    } else {
        Poll::Again
    }
}

/// What the service manager asks of the service.
#[derive(Debug, Clone, Copy, PartialEq, Eq, Structural)]
pub enum ServiceControl {
    Interrogate,
    Stop,
    UserEvent(u32),
    Other,
}

/// What the service answers.
#[derive(Debug, Clone, Copy, PartialEq, Eq, Structural)]
pub enum ControlReply {
    NoError,
    NotImplemented,
}

/// Says which command a control stands for, and what is answered.
pub fn handle_service_control(control: ServiceControl, enable_code: u32, disable_code: u32) -> (
handled: (Option<ControllerCommand>, ControlReply))
    ensures
        handled.0 == controlled(control, enable_code, disable_code),
        handled.1 == ControlReply::NoError <==> handled.0 is Some || control is Interrogate,
        handled == match control {
            ServiceControl::Interrogate => (None::<ControllerCommand>, ControlReply::NoError),
            ServiceControl::Stop => (Some(ControllerCommand::Stop), ControlReply::NoError),
            ServiceControl::UserEvent(code) => if code == enable_code {
                (Some(ControllerCommand::Enable), ControlReply::NoError)
            } else if code == disable_code {
                (Some(ControllerCommand::Disable), ControlReply::NoError)
            } else {
                (None, ControlReply::NotImplemented)
            },
            ServiceControl::Other => (None, ControlReply::NotImplemented),
        },
{
    match control {
        ServiceControl::Interrogate => (None, ControlReply::NoError),
        ServiceControl::Stop => (Some(ControllerCommand::Stop), ControlReply::NoError),
        ServiceControl::UserEvent(code) => if code == enable_code {
            (Some(ControllerCommand::Enable), ControlReply::NoError)
        } else if code == disable_code {
            (Some(ControllerCommand::Disable), ControlReply::NoError)
        } else {
            (None, ControlReply::NotImplemented)
        },
        ServiceControl::Other => (None, ControlReply::NotImplemented),
    }
}

/// What the controller does with the two journals it finds.
#[derive(Debug, Clone, Copy, PartialEq, Eq, Structural)]
pub enum JournalPlan {
    Run,
    /// Give the placements back and end with the error of the other journal.
    CleanPlacements,
    /// Give the background policies back and end with the error of the other
    /// journal.
    CleanBackground,
    GiveUp,
}

/// Says what follows from the two journals: one that can be read is always
/// cleaned up, also when the other cannot.
pub fn journal_plan(managed_loaded: bool, background_loaded: bool) -> (plan: JournalPlan)
    ensures
        plan == planned(managed_loaded, background_loaded),
        plan == match (managed_loaded, background_loaded) {
            (true, true) => JournalPlan::Run,
            (true, false) => JournalPlan::CleanPlacements,
            (false, true) => JournalPlan::CleanBackground,
            (false, false) => JournalPlan::GiveUp,
        },
{
    if managed_loaded {
        if background_loaded {
            JournalPlan::Run
        } else {
            JournalPlan::CleanPlacements
        }
    } else if background_loaded {
        JournalPlan::CleanBackground
    } else {
        JournalPlan::GiveUp
    }
}

/// Whether scheduling is enabled across restarts.
#[derive(Debug, Clone, Copy, PartialEq, Eq, Structural)]
pub struct RuntimeState {
    pub schema_version: u32,
    pub scheduling_enabled: bool,
}

/// Takes over a saved state. A missing one is replaced by `initial`, and one
/// of another version is refused with its version.
pub fn load_runtime_state(
    saved: Option<RuntimeState>,
    schema_version: u32,
    initial: RuntimeState,
) -> (loaded: Result<RuntimeState, u32>)
    ensures
        loaded == match saved {
            None => Ok::<RuntimeState, u32>(initial),
            Some(state) => if state.schema_version == schema_version {
                Ok(state)
            } else {
                Err(state.schema_version)
            },
        },
{
    match saved {
        None => Ok(initial),
        Some(state) => if state.schema_version == schema_version {
            Ok(state)
        } else {
            Err(state.schema_version)
        },
    }
}

/// Which of a state file and its former backup are read.
#[derive(Debug, Clone, Copy, PartialEq, Eq, Structural)]
pub enum StateSource {
    File,
    /// The backup, which then takes the place of the file.
    Backup,
    Nothing,
}

/// Says what is read: the file, and without one the backup.
pub fn state_source(file_exists: bool, backup_exists: bool) -> (source: StateSource)
    ensures
        source == if file_exists {
            StateSource::File
        } else if backup_exists {
            StateSource::Backup
        } else {
            StateSource::Nothing
        },
{
    if file_exists {
        StateSource::File
    } else if backup_exists {
        StateSource::Backup
    } else {
        StateSource::Nothing
    }
}

/// Whether a backup that was read is kept as the state: it took the place of
/// the file, or the file is there after all.
pub fn backup_recovered(renamed: bool, file_exists: bool) -> (recovered: bool)
    ensures
        recovered == (renamed || file_exists),
{
    renamed || file_exists
}

/// The steps that put back what a registration holds.
pub open spec fn puts_back(step: RollbackStep) -> bool {
    step == RollbackStep::RestoreConfiguration || step == RollbackStep::RestoreDescription || step
        == RollbackStep::RestoreFailureActions || step == RollbackStep::RestoreNonCrashFlag || step
        == RollbackStep::RestoreAcl
}

/// Undoing a registration puts everything back that the registration holds,
/// each part once, after the replacement is stopped and before the service is
/// brought to the state that it had. No step is done twice.
pub proof fn rollback_puts_everything_back(
    prior: PriorServiceState,
    start_type: ServiceStartType,
)
    ensures
        ({
            let steps = rollback_steps(prior, start_type);
            &&& steps.no_duplicates()
            &&& steps.contains(RollbackStep::StopReplacement)
            &&& steps.contains(RollbackStep::RestoreConfiguration)
            &&& steps.contains(RollbackStep::RestoreDescription)
            &&& steps.contains(RollbackStep::RestoreFailureActions)
            &&& steps.contains(RollbackStep::RestoreNonCrashFlag)
            &&& steps.contains(RollbackStep::RestoreAcl)
            &&& forall|i: int, j: int|
                #![trigger steps[i], steps[j]]
                0 <= i < steps.len() && 0 <= j < steps.len() && puts_back(steps[i]) ==> {
                    &&& steps[j] == RollbackStep::StopReplacement ==> j < i
                    &&& steps[j] == RollbackStep::RestoreRunning || steps[j]
                        == RollbackStep::RestoreStopped || steps[j]
                        == RollbackStep::EnableTemporarily || steps[j]
                        == RollbackStep::RestoreDisabledStart ==> i < j
                }
        }),
{
    let steps = rollback_steps(prior, start_type);
    assert(steps[0] == RollbackStep::StopReplacement);
    assert(steps[1] == RollbackStep::RestoreConfiguration);
    assert(steps[2] == RollbackStep::RestoreDescription);
    assert(steps[3] == RollbackStep::RestoreFailureActions);
    assert(steps[4] == RollbackStep::RestoreNonCrashFlag);
    assert(steps[5] == RollbackStep::RestoreAcl);
}

/// A service that ran runs again, and one that was stopped is stopped. A
/// service that ran although it was disabled can only be started while it is
/// enabled, so it is enabled just before, and disabled again just after.
pub proof fn rollback_ends_as_it_was(prior: PriorServiceState, start_type: ServiceStartType)
    ensures
        ({
            let steps = rollback_steps(prior, start_type);
            let lent = prior == PriorServiceState::Running && start_type
                == ServiceStartType::Disabled;
            &&& steps.contains(RollbackStep::RestoreRunning) <==> prior
                == PriorServiceState::Running
            &&& steps.contains(RollbackStep::RestoreStopped) <==> prior
                == PriorServiceState::Stopped
            &&& steps.contains(RollbackStep::EnableTemporarily) <==> lent
            &&& steps.contains(RollbackStep::RestoreDisabledStart) <==> lent
            &&& forall|i: int|
                0 <= i < steps.len() && #[trigger] steps[i] == RollbackStep::RestoreRunning && lent
                    ==> 0 < i < steps.len() - 1 && steps[i - 1] == RollbackStep::EnableTemporarily
                    && steps[i + 1] == RollbackStep::RestoreDisabledStart
        }),
{
    let steps = rollback_steps(prior, start_type);
    if prior is Running && start_type is Disabled {
        assert(steps[6] == RollbackStep::EnableTemporarily);
        assert(steps[7] == RollbackStep::RestoreRunning);
        assert(steps[8] == RollbackStep::RestoreDisabledStart);
    } else if prior is Running {
        assert(steps[6] == RollbackStep::RestoreRunning);
    } else {
        assert(steps[6] == RollbackStep::RestoreStopped);
    }
}

/// What a service does after an operation, where it can be carried out: only
/// a service that neither runs nor starts nor stops is started, only one that
/// is neither stopped nor stopping nor starting is stopped, and only what has
/// begun is waited for.
pub open spec fn carried_out(state: ServiceState, op: ServiceOp) -> Option<ServiceState> {
    match op {
        ServiceOp::Start => if state == ServiceState::Running || state
            == ServiceState::StartPending || state == ServiceState::StopPending {
            None
        } else {
            Some(ServiceState::StartPending)
        },
        ServiceOp::Stop => if state == ServiceState::Stopped || state == ServiceState::StopPending
            || state == ServiceState::StartPending {
            None
        } else {
            Some(ServiceState::StopPending)
        },
        ServiceOp::WaitUntilRunning => if state == ServiceState::StartPending {
            Some(ServiceState::Running)
        } else {
            None
        },
        ServiceOp::WaitUntilStopped => if state == ServiceState::StopPending {
            Some(ServiceState::Stopped)
        } else {
            None
        },
    }
}

/// What a service does after operations, where all can be carried out.
pub open spec fn all_carried_out(state: ServiceState, ops: Seq<ServiceOp>) -> Option<ServiceState>
    decreases ops.len(),
{
    if ops.len() == 0 {
        Some(state)
    } else {
        match carried_out(state, ops[0]) {
            Some(next) => all_carried_out(next, ops.drop_first()),
            None => None,
        }
    }
}

/// Whatever a service does, the operations can be carried out one after the
/// other and bring it where it is to be, and a service that is there already
/// is left alone.
pub proof fn operations_bring_the_service_there(state: ServiceState)
    ensures
        all_carried_out(state, ops_to_run(state)) == Some(ServiceState::Running),
        all_carried_out(state, ops_to_stop(state)) == Some(ServiceState::Stopped),
        ops_to_run(ServiceState::Running).len() == 0,
        ops_to_stop(ServiceState::Stopped).len() == 0,
{
    reveal_with_fuel(all_carried_out, 4);
    let run = ops_to_run(state);
    let stop = ops_to_stop(state);
    if run.len() > 1 {
        assert(run.drop_first()[0] == run[1]);
    }
    if run.len() > 2 {
        assert(run.drop_first().drop_first()[0] == run[2]);
    }
    if stop.len() > 1 {
        assert(stop.drop_first()[0] == stop[1]);
    }
    if stop.len() > 2 {
        assert(stop.drop_first().drop_first()[0] == stop[2]);
    }
}

/// A registration can be restored exactly where the service runs in a process
/// of its own, in no group, is no driver and runs under the account of the
/// system.
pub proof fn only_plain_services_are_restored(config: ServiceConfig)
    ensures
        restore_fault(config) is None <==> {
            &&& config.own_process
            &&& config.load_order_group is None
            &&& config.tag_id == 0
            &&& config.start_type != ServiceStartType::BootStart
            &&& config.start_type != ServiceStartType::SystemStart
            &&& config.account_name.deep_view() matches Some(name) && (
            crate::text::same_ignoring_case(name, "LocalSystem"@)
                || crate::text::same_ignoring_case(name, "NT AUTHORITY\\SYSTEM"@))
        },
        restore_fault(config) == Some(RestoreFault::NotOwnProcess) <==> !config.own_process,
        restore_fault(config) == Some(RestoreFault::LoadOrderGroup) <==> config.own_process && (
        config.load_order_group is Some || config.tag_id != 0),
        restore_fault(config) == Some(RestoreFault::DriverStart) <==> config.own_process
            && config.load_order_group is None && config.tag_id == 0 && (config.start_type
            == ServiceStartType::BootStart || config.start_type == ServiceStartType::SystemStart),
        restore_fault(config) == Some(RestoreFault::Account) ==> config.own_process,
{
}

/// Whether an option stands among the arguments with its value behind it.
pub open spec fn says(words: Seq<Seq<char>>, option: Seq<char>, value: Seq<char>) -> bool {
    exists|i: int| 0 <= i < words.len() - 1 && #[trigger] words[i] == option && words[i + 1] == value
}

/// The restored registration has the program, the dependencies, the name and
/// the answer to errors that it had, and when it is started is said only
/// where that is not automatic.
pub proof fn restored_registrations_are_complete(config: ServiceConfig, service_name: Seq<char>)
    ensures
        ({
            let words = restore_words(config, service_name);
            &&& words[0] == "config"@
            &&& words[1] == service_name
            &&& says(words, "type="@, "own"@)
            &&& says(words, "error="@, error_word(config.error_control))
            &&& says(words, "binPath="@, config.executable_path@)
            &&& says(words, "depend="@, dependency_words(config.dependencies@))
            &&& says(words, "obj="@, "LocalSystem"@)
            &&& says(words, "DisplayName="@, config.display_name@)
            &&& config.start_type != ServiceStartType::AutoStart ==> says(
                words,
                "start="@,
                start_word(config.start_type),
            )
            &&& words.len() == if config.start_type == ServiceStartType::AutoStart {
                14int
            } else {
                16int
            }
        }),
{
    let words = restore_words(config, service_name);
    let shift: int = if config.start_type is AutoStart {
        0
    } else {
        2
    };
    assert(words[2] == "type="@ && words[3] == "own"@);
    if shift == 2 {
        assert(words[4] == "start="@ && words[5] == start_word(config.start_type));
    }
    assert(words[4 + shift] == "error="@);
    assert(words[5 + shift] == error_word(config.error_control));
    assert(words[6 + shift] == "binPath="@);
    assert(words[7 + shift] == config.executable_path@);
    assert(words[8 + shift] == "depend="@);
    assert(words[9 + shift] == dependency_words(config.dependencies@));
    assert(words[10 + shift] == "obj="@);
    assert(words[11 + shift] == "LocalSystem"@);
    assert(words[12 + shift] == "DisplayName="@);
    assert(words[13 + shift] == config.display_name@);
}

/// No two start types, and no two answers to errors, have the same word.
pub proof fn registration_words_differ(
    a: ServiceStartType,
    b: ServiceStartType,
    c: ServiceErrorControl,
    d: ServiceErrorControl,
)
    ensures
        start_word(a) == start_word(b) ==> a == b,
        error_word(c) == error_word(d) ==> c == d,
{
    reveal_strlit("boot");
    reveal_strlit("system");
    reveal_strlit("auto");
    reveal_strlit("demand");
    reveal_strlit("disabled");
    reveal_strlit("ignore");
    reveal_strlit("normal");
    reveal_strlit("severe");
    reveal_strlit("critical");
    assert("boot"@[0] == 'b' && "system"@[0] == 's' && "auto"@[0] == 'a' && "demand"@[1] == 'e'
        && "demand"@[0] == 'd' && "disabled"@[1] == 'i' && "disabled"@[0] == 'd');
    assert("ignore"@[0] == 'i' && "normal"@[0] == 'n' && "severe"@[0] == 's' && "critical"@[0]
        == 'c');
}

/// The dependencies of two lists are named one after the other, with one
/// slash between them; a service is named as it is, and a group with a plus
/// sign before it.
pub proof fn dependencies_are_named_in_order(
    first: Seq<ServiceDependency>,
    second: Seq<ServiceDependency>,
    name: String,
)
    requires
        forall|i: int|
            0 <= i < first.len() ==> dependency_word(#[trigger] first[i]).len() > 0,
        forall|i: int|
            0 <= i < second.len() ==> dependency_word(#[trigger] second[i]).len() > 0,
        first.len() > 0,
        second.len() > 0,
    ensures
        dependency_words(first + second) == dependency_words(first) + "/"@ + dependency_words(
            second,
        ),
        dependency_words(seq![ServiceDependency::Service(name)]) == name@,
        dependency_words(seq![ServiceDependency::Group(name)]) == "+"@ + name@,
    decreases second.len(),
{
    reveal_with_fuel(dependency_words, 2);
    assert(seq![ServiceDependency::Service(name)].drop_last() =~= Seq::empty());
    assert(seq![ServiceDependency::Group(name)].drop_last() =~= Seq::empty());
    assert(Seq::<char>::empty() + name@ =~= name@);
    assert(Seq::<char>::empty() + ("+"@ + name@) =~= "+"@ + name@);
    named_dependencies_are_seen(first);
    named_dependencies_are_seen(second);
    assert((first + second).last() == second.last());
    assert((first + second).drop_last() =~= first + second.drop_last());
    if second.len() == 1 {
        assert(first + second.drop_last() =~= first);
        assert(second.drop_last() =~= Seq::empty());
        assert(Seq::<char>::empty() + dependency_word(second.last()) =~= dependency_word(
            second.last(),
        ));
    } else {
        let rest = second.drop_last();
        assert forall|i: int| 0 <= i < rest.len() implies dependency_word(#[trigger] rest[i]).len()
            > 0 by {
            assert(rest[i] == second[i]);
        }
        dependencies_are_named_in_order(first, rest, name);
        named_dependencies_are_seen(rest);
        assert(dependency_words(first + second) =~= dependency_words(first) + "/"@
            + dependency_words(second));
    }
}

proof fn named_dependencies_are_seen(dependencies: Seq<ServiceDependency>)
    requires
        dependencies.len() > 0,
        forall|i: int|
            0 <= i < dependencies.len() ==> dependency_word(#[trigger] dependencies[i]).len() > 0,
    ensures
        dependency_words(dependencies).len() > 0,
{
    assert(dependency_word(dependencies[dependencies.len() - 1]).len() > 0);
    assert(dependencies.last() == dependencies[dependencies.len() - 1]);
}

/// The failures of two lists are told one after the other, in their order.
pub proof fn failures_are_told_in_order(first: Seq<Seq<char>>, second: Seq<Seq<char>>)
    requires
        first.len() > 0,
        second.len() > 0,
    ensures
        joined(first + second) == joined(first) + "; "@ + joined(second),
        joined(seq![second[0]]) == second[0],
    decreases second.len(),
{
    assert((first + second).last() == second.last());
    assert((first + second).drop_last() =~= first + second.drop_last());
    if second.len() == 1 {
        assert(first + second.drop_last() =~= first);
    } else {
        failures_are_told_in_order(first, second.drop_last());
        assert(joined(first + second) =~= joined(first) + "; "@ + joined(second));
    }
}

/// How a registration begins.
pub open spec fn registration_begun(allow_existing: bool) -> RegistrationStep {
    if allow_existing {
        RegistrationStep::Open
    } else {
        RegistrationStep::Create
    }
}

/// How a registration goes on once the service was looked for.
pub open spec fn registration_opened(answer: OpenAnswer) -> RegistrationStep {
    match answer {
        OpenAnswer::Opened => RegistrationStep::CaptureAndChange,
        OpenAnswer::Missing => RegistrationStep::Create,
        OpenAnswer::Failed => RegistrationStep::GiveUp,
    }
}

/// How a registration goes on once it was changed or created.
pub open spec fn registration_changed(origin: ServiceOrigin, changed: bool) -> RegistrationStep {
    if changed {
        RegistrationStep::ApplySettings
    } else if origin is Existing {
        RegistrationStep::RollBack
    } else {
        RegistrationStep::GiveUp
    }
}

/// How a registration ends.
pub open spec fn registration_settled(origin: ServiceOrigin, applied: bool) -> RegistrationStep {
    if applied {
        RegistrationStep::Done
    } else if origin is Existing {
        RegistrationStep::RollBack
    } else {
        RegistrationStep::RemoveCreated
    }
}

/// A registration is done only where the service was changed or created and
/// its settings were applied. An existing service is touched only where that
/// is allowed, and is put back wherever something fails from then on; a
/// created one is removed again, if it was created at all.
pub proof fn failed_registrations_leave_nothing_behind(
    allow_existing: bool,
    answer: OpenAnswer,
    changed: bool,
    applied: bool,
)
    ensures
        ({
            let looked = if registration_begun(allow_existing) == RegistrationStep::Open {
                registration_opened(answer)
            } else {
                registration_begun(allow_existing)
            };
            let origin = if looked == RegistrationStep::CaptureAndChange {
                ServiceOrigin::Existing
            } else {
                ServiceOrigin::Created
            };
            let made = registration_changed(origin, changed);
            let end = if made == RegistrationStep::ApplySettings {
                registration_settled(origin, applied)
            } else {
                made
            };
            &&& looked == RegistrationStep::CaptureAndChange <==> allow_existing && answer
                == OpenAnswer::Opened
            &&& looked == RegistrationStep::Create <==> !allow_existing || answer
                == OpenAnswer::Missing
            &&& looked == RegistrationStep::GiveUp <==> allow_existing && answer
                == OpenAnswer::Failed
            &&& end == RegistrationStep::Done <==> changed && applied
            &&& end == RegistrationStep::RollBack <==> origin == ServiceOrigin::Existing && !(
            changed && applied)
            &&& end == RegistrationStep::RemoveCreated <==> origin == ServiceOrigin::Created
                && changed && !applied
            &&& end == RegistrationStep::GiveUp <==> origin == ServiceOrigin::Created && !changed
        }),
{
}

/// The command that a control stands for.
pub open spec fn controlled(control: ServiceControl, enable_code: u32, disable_code: u32) -> Option<
    ControllerCommand,
> {
    match control {
        ServiceControl::Stop => Some(ControllerCommand::Stop),
        ServiceControl::UserEvent(code) => if code == enable_code {
            Some(ControllerCommand::Enable)
        } else if code == disable_code {
            Some(ControllerCommand::Disable)
        } else {
            None
        },
        _ => None,
    }
}

/// The service is stopped by the stop control alone, and enabled and disabled
/// by the codes that stand for it alone.
pub proof fn controls_stand_for_their_commands(
    control: ServiceControl,
    enable_code: u32,
    disable_code: u32,
)
    requires
        enable_code != disable_code,
    ensures
        controlled(control, enable_code, disable_code) == Some(ControllerCommand::Stop) <==> control
            == ServiceControl::Stop,
        controlled(control, enable_code, disable_code) == Some(ControllerCommand::Enable)
            <==> control == ServiceControl::UserEvent(enable_code),
        controlled(control, enable_code, disable_code) == Some(ControllerCommand::Disable)
            <==> control == ServiceControl::UserEvent(disable_code),
        controlled(control, enable_code, disable_code) != Some(ControllerCommand::Tick),
{
}

/// What follows from the two journals.
pub open spec fn planned(managed_loaded: bool, background_loaded: bool) -> JournalPlan {
    if managed_loaded && background_loaded {
        JournalPlan::Run
    } else if managed_loaded {
        JournalPlan::CleanPlacements
    } else if background_loaded {
        JournalPlan::CleanBackground
    } else {
        JournalPlan::GiveUp
    }
}

/// The controller runs only with both journals; with one of them it gives
/// back what that one says, and nothing else.
pub proof fn readable_journals_are_cleaned_up(managed_loaded: bool, background_loaded: bool)
    ensures
        planned(managed_loaded, background_loaded) == JournalPlan::Run <==> managed_loaded
            && background_loaded,
        planned(managed_loaded, background_loaded) == JournalPlan::CleanPlacements
            <==> managed_loaded && !background_loaded,
        planned(managed_loaded, background_loaded) == JournalPlan::CleanBackground
            <==> !managed_loaded && background_loaded,
        planned(managed_loaded, background_loaded) == JournalPlan::GiveUp <==> !managed_loaded
            && !background_loaded,
{
}

} // verus!
