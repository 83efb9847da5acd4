//! The order in which the controller does its work.
//!
//! A [`LoopCore`] says what the controller does next and is told what came of
//! it. What is done, and what is published about it, is elsewhere.
use vstd::prelude::*;

use crate::observations::ControllerMode;

verus! {

/// What the controller can be told to do.
#[derive(Debug, Clone, Copy, PartialEq, Eq, Structural)]
pub enum ControllerCommand {
    Stop,
    Enable,
    Disable,
    Tick,
}

/// How the controller ended.
#[derive(Debug, Clone, Copy, PartialEq, Eq, Structural)]
pub enum LoopOutcome {
    Completed,
    /// A step of the loop failed.
    LoopFailed,
    /// Giving everything back failed or was incomplete.
    CleanupFailed,
    /// The last status could not be published.
    StatusFailed,
}

/// What came of the last action.
#[derive(Debug, Clone, Copy, PartialEq, Eq, Structural)]
pub enum LoopSignal {
    CleanedUp,
    Published,
    Primed,
    Command(ControllerCommand),
    RuntimeSaved,
    /// The settings were looked at. `receipt` says whether they changed, or
    /// were to be changed and could not be used.
    Reloaded { mode: ControllerMode, receipt: bool },
    /// Whether the time of the next placement evaluation has come.
    Clock { due: bool },
    Ticked,
    Sampled,
    SampleFailed,
    WidthEvaluated,
    Decision { enforce: bool },
    Enforced,
    DecisionsDone,
    /// The step could not be done.
    Failed,
    ExitCleanedUp { complete: bool },
    ExitPublished { done: bool },
}

/// What to do next.
#[derive(Debug, Clone, Copy, PartialEq, Eq, Structural)]
pub enum LoopAction {
    /// Give every placement and background policy back.
    CleanUp,
    /// Publish the status. Unless it must be, it is published only when a
    /// heartbeat is due.
    Publish { force: bool },
    /// Prime the load telemetry and announce the start.
    Prime,
    Wait,
    /// Save whether scheduling is enabled, and start the policy anew.
    SaveRuntime { enabled: bool },
    Reload,
    CheckClock,
    /// Evaluate the background policies.
    SafetyTick,
    Sample,
    /// Evaluate the width of the memory profile.
    EvaluateWidth,
    /// Take the next placement decision.
    NextDecision,
    /// Carry the decision out.
    Enforce,
    /// Give everything back one last time.
    CleanUpAtExit,
    PublishAtExit,
    End(LoopOutcome),
}

/// What the controller waits for.
#[derive(Debug, Clone, Copy, PartialEq, Eq, Structural)]
pub enum LoopStage {
    StartupCleanup,
    StartupPublish,
    Prime,
    Waiting,
    StopPublish,
    EnableSave,
    CommandPublish,
    DisableSave,
    DisableCleanup,
    Reloading,
    ReceiptPublish,
    CheckingClock,
    InactiveCleanup,
    IterationPublish,
    GuardTick,
    GuardPublish,
    Sampling,
    SkippedTick,
    EvaluatingWidth,
    EvaluationTick,
    Deciding,
    Enforcing,
    ExitCleanup { failed: bool },
    ExitPublish { failed: bool, cleaned: bool },
    Ended(LoopOutcome),
}

/// The controller in its loop.
#[derive(Debug, Clone, Copy, PartialEq, Eq, Structural)]
pub struct LoopCore {
    pub mode: ControllerMode,
    pub scheduling_enabled: bool,
    pub max_iterations: Option<u16>,
    pub iteration: u64,
    pub stage: LoopStage,
}

/// Whether processes are evaluated: never while the controller is off, always
/// while it observes, and while scheduling is enabled otherwise.
#[verifier::allow_in_spec]
pub fn controller_evaluation_active(mode: ControllerMode, scheduling_enabled: bool) -> (active:
    bool)
    returns
        (match mode {
            ControllerMode::Off => false,
            ControllerMode::Observe => true,
            ControllerMode::Auto => scheduling_enabled,
        }),
{
    match mode {
        ControllerMode::Off => false,
        ControllerMode::Observe => true,
        ControllerMode::Auto => scheduling_enabled,
    }
}

/// Whether processes may be changed.
#[verifier::allow_in_spec]
pub fn controller_mutations_active(mode: ControllerMode, scheduling_enabled: bool) -> (active: bool)
    returns
        (mode == ControllerMode::Auto && scheduling_enabled),
{
    matches!(mode, ControllerMode::Auto) && scheduling_enabled
}

/// Nothing is changed where nothing is evaluated, and an observing controller
/// changes nothing.
pub proof fn observing_never_changes(mode: ControllerMode, scheduling_enabled: bool)
    ensures
        controller_mutations_active(mode, scheduling_enabled) ==> controller_evaluation_active(
            mode,
            scheduling_enabled,
        ),
        mode != ControllerMode::Auto ==> !controller_mutations_active(mode, scheduling_enabled),
        mode == ControllerMode::Off ==> !controller_evaluation_active(mode, scheduling_enabled),
{
}

impl LoopCore {
    /// The loop in another stage.
    pub open spec fn at(self, stage: LoopStage) -> LoopCore {
        LoopCore { stage, ..self }
    }

    /// The loop after one more iteration.
    pub open spec fn counted(self) -> LoopCore {
        LoopCore {
            iteration: if self.iteration < u64::MAX {
                (self.iteration + 1) as u64
            } else {
                u64::MAX
            },
            ..self
        }
    }

    /// Whether all iterations are done.
    pub open spec fn exhausted(self) -> bool {
        self.max_iterations matches Some(limit) && self.iteration >= limit
    }

    /// Where a loop begins: what may not be owned is given back first.
    pub open spec fn first(
        mode: ControllerMode,
        scheduling_enabled: bool,
        max_iterations: Option<u16>,
    ) -> LoopCore {
        LoopCore {
            mode,
            scheduling_enabled,
            max_iterations,
            iteration: 0,
            stage: if controller_mutations_active(mode, scheduling_enabled) {
                LoopStage::StartupPublish
            } else {
                LoopStage::StartupCleanup
            },
        }
    }

    /// Whether `signal` answers what the loop waits for.
    pub open spec fn awaits(self, signal: LoopSignal) -> bool {
        match self.stage {
            LoopStage::ExitCleanup { .. } => signal is ExitCleanedUp,
            LoopStage::ExitPublish { .. } => signal is ExitPublished,
            LoopStage::Ended(_) => false,
            _ => signal is Failed || match self.stage {
                LoopStage::StartupCleanup
                | LoopStage::DisableCleanup
                | LoopStage::InactiveCleanup => signal is CleanedUp,
                LoopStage::StartupPublish
                | LoopStage::StopPublish
                | LoopStage::CommandPublish
                | LoopStage::ReceiptPublish
                | LoopStage::IterationPublish
                | LoopStage::GuardPublish => signal is Published,
                LoopStage::Prime => signal is Primed,
                LoopStage::Waiting => signal is Command,
                LoopStage::EnableSave | LoopStage::DisableSave => signal is RuntimeSaved,
                LoopStage::Reloading => signal is Reloaded,
                LoopStage::CheckingClock => signal is Clock,
                LoopStage::GuardTick
                | LoopStage::SkippedTick
                | LoopStage::EvaluationTick => signal is Ticked,
                LoopStage::Sampling => signal is Sampled || signal is SampleFailed,
                LoopStage::EvaluatingWidth => signal is WidthEvaluated,
                LoopStage::Deciding => signal is Decision || signal is DecisionsDone,
                LoopStage::Enforcing => signal is Enforced,
                _ => false,
            },
        }
    }

    /// What follows once the settings are known: a controller that evaluates
    /// nothing gives everything back, any other looks at the clock.
    pub open spec fn settled(self) -> LoopCore {
        if controller_evaluation_active(self.mode, self.scheduling_enabled) {
            self.at(LoopStage::CheckingClock)
        } else {
            self.at(LoopStage::InactiveCleanup)
        }
    }

    /// What follows a command.
    pub open spec fn commanded(self, command: ControllerCommand) -> LoopCore {
        match command {
            ControllerCommand::Stop => self.at(LoopStage::StopPublish),
            ControllerCommand::Enable => if self.scheduling_enabled {
                self.at(LoopStage::CommandPublish)
            } else {
                self.at(LoopStage::EnableSave)
            },
            ControllerCommand::Disable => if self.scheduling_enabled {
                self.at(LoopStage::DisableSave)
            } else {
                self.at(LoopStage::DisableCleanup)
            },
            ControllerCommand::Tick => self.at(LoopStage::Reloading),
        }
    }

    /// Where the loop is after `signal`.
    pub open spec fn follows(self, signal: LoopSignal) -> LoopCore {
        match signal {
            LoopSignal::Failed => self.at(LoopStage::ExitCleanup { failed: true }),
            LoopSignal::CleanedUp => match self.stage {
                LoopStage::StartupCleanup => self.at(LoopStage::StartupPublish),
                LoopStage::DisableCleanup => self.at(LoopStage::CommandPublish),
                _ => self.counted().at(LoopStage::IterationPublish),
            },
            LoopSignal::Published => match self.stage {
                LoopStage::StartupPublish => self.at(LoopStage::Prime),
                LoopStage::StopPublish => self.at(LoopStage::ExitCleanup { failed: false }),
                LoopStage::ReceiptPublish => self.settled(),
                LoopStage::IterationPublish => if self.exhausted() {
                    self.at(LoopStage::ExitCleanup { failed: false })
                } else {
                    self.at(LoopStage::Waiting)
                },
                _ => self.at(LoopStage::Waiting),
            },
            LoopSignal::Primed => self.at(LoopStage::Waiting),
            LoopSignal::Command(command) => self.commanded(command),
            LoopSignal::RuntimeSaved => if self.stage is EnableSave {
                LoopCore { scheduling_enabled: true, stage: LoopStage::CommandPublish, ..self }
            } else {
                LoopCore { scheduling_enabled: false, stage: LoopStage::DisableCleanup, ..self }
            },
            LoopSignal::Reloaded { mode, receipt } => {
                let reloaded = LoopCore { mode, ..self };
                if receipt {
                    reloaded.at(LoopStage::ReceiptPublish)
                } else {
                    reloaded.settled()
                }
            },
            LoopSignal::Clock { due } => self.at(
                if due {
                    LoopStage::Sampling
                } else {
                    LoopStage::GuardTick
                },
            ),
            LoopSignal::Ticked => match self.stage {
                LoopStage::GuardTick => self.at(LoopStage::GuardPublish),
                LoopStage::SkippedTick => self.counted().at(LoopStage::IterationPublish),
                _ => self.at(LoopStage::Deciding),
            },
            LoopSignal::Sampled => self.at(LoopStage::EvaluatingWidth),
            LoopSignal::SampleFailed => self.at(LoopStage::SkippedTick),
            LoopSignal::WidthEvaluated => self.at(LoopStage::EvaluationTick),
            LoopSignal::Decision { enforce } => if enforce {
                self.at(LoopStage::Enforcing)
            } else {
                self
            },
            LoopSignal::Enforced => self.at(LoopStage::Deciding),
            LoopSignal::DecisionsDone => self.counted().at(LoopStage::IterationPublish),
            LoopSignal::ExitCleanedUp { complete } => match self.stage {
                LoopStage::ExitCleanup { failed } => self.at(
                    LoopStage::ExitPublish { failed, cleaned: complete },
                ),
                _ => self,
            },
            LoopSignal::ExitPublished { done } => match self.stage {
                LoopStage::ExitPublish { failed, cleaned } => self.at(
                    LoopStage::Ended(
                        if failed {
                            LoopOutcome::LoopFailed
                        } else if !cleaned {
                            LoopOutcome::CleanupFailed
                        } else if !done {
                            LoopOutcome::StatusFailed
                        } else {
                            LoopOutcome::Completed
                        },
                    ),
                ),
                _ => self,
            },
        }
    }

    /// What the loop does in its stage. `important` says whether the status
    /// has changed in a way that must be published at once.
    pub open spec fn action(self, important: bool) -> LoopAction {
        match self.stage {
            LoopStage::StartupCleanup
            | LoopStage::DisableCleanup
            | LoopStage::InactiveCleanup => LoopAction::CleanUp,
            LoopStage::StartupPublish
            | LoopStage::StopPublish
            | LoopStage::CommandPublish
            | LoopStage::ReceiptPublish => LoopAction::Publish { force: true },
            LoopStage::IterationPublish | LoopStage::GuardPublish => LoopAction::Publish {
                force: important,
            },
            LoopStage::Prime => LoopAction::Prime,
            LoopStage::Waiting => LoopAction::Wait,
            LoopStage::EnableSave => LoopAction::SaveRuntime { enabled: true },
            LoopStage::DisableSave => LoopAction::SaveRuntime { enabled: false },
            LoopStage::Reloading => LoopAction::Reload,
            LoopStage::CheckingClock => LoopAction::CheckClock,
            LoopStage::GuardTick
            | LoopStage::SkippedTick
            | LoopStage::EvaluationTick => LoopAction::SafetyTick,
            LoopStage::Sampling => LoopAction::Sample,
            LoopStage::EvaluatingWidth => LoopAction::EvaluateWidth,
            LoopStage::Deciding => LoopAction::NextDecision,
            LoopStage::Enforcing => LoopAction::Enforce,
            LoopStage::ExitCleanup { .. } => LoopAction::CleanUpAtExit,
            LoopStage::ExitPublish { .. } => LoopAction::PublishAtExit,
            LoopStage::Ended(outcome) => LoopAction::End(outcome),
        }
    }

    /// Begins a loop.
    pub fn start(
        mode: ControllerMode,
        scheduling_enabled: bool,
        max_iterations: Option<u16>,
    ) -> (core: LoopCore)
        ensures
            core == LoopCore::first(mode, scheduling_enabled, max_iterations),
    {
        LoopCore {
            mode,
            scheduling_enabled,
            max_iterations,
            iteration: 0,
            stage: if controller_mutations_active(mode, scheduling_enabled) {
                LoopStage::StartupPublish
            } else {
                LoopStage::StartupCleanup
            },
        }
    }

    fn settle(&mut self)
        ensures
            *final(self) == old(self).settled(),
    {
        self.stage =
        if controller_evaluation_active(self.mode, self.scheduling_enabled) {
            LoopStage::CheckingClock
        } else {
            LoopStage::InactiveCleanup
        };
    }

    fn count_iteration(&mut self)
        ensures
            *final(self) == old(self).counted().at(LoopStage::IterationPublish),
    {
        self.iteration = self.iteration.saturating_add(1);
        self.stage = LoopStage::IterationPublish;
    }

    fn published(&mut self)
        ensures
            *final(self) == old(self).follows(LoopSignal::Published),
    {
        match self.stage {
            LoopStage::StartupPublish => {
                self.stage = LoopStage::Prime;
            },
            LoopStage::StopPublish => {
                self.stage = LoopStage::ExitCleanup { failed: false };
            },
            LoopStage::ReceiptPublish => {
                self.settle();
            },
            LoopStage::IterationPublish => {
                let exhausted = match self.max_iterations {
                    Some(limit) => self.iteration >= limit as u64,
                    None => false,
                };
                self.stage =
                if exhausted {
                    LoopStage::ExitCleanup { failed: false }
                } else {
                    LoopStage::Waiting
                };
            },
            _ => {
                self.stage = LoopStage::Waiting;
            },
        }
    }

    fn command(&mut self, command: ControllerCommand)
        ensures
            *final(self) == old(self).commanded(command),
    {
        self.stage =
        match command {
            ControllerCommand::Stop => LoopStage::StopPublish,
            ControllerCommand::Enable => if self.scheduling_enabled {
                LoopStage::CommandPublish
            } else {
                LoopStage::EnableSave
            },
            ControllerCommand::Disable => if self.scheduling_enabled {
                LoopStage::DisableSave
            } else {
                LoopStage::DisableCleanup
            },
            ControllerCommand::Tick => LoopStage::Reloading,
        };
    }

    /// Takes what came of the last action.
    pub fn advance(&mut self, signal: LoopSignal)
        ensures
            *final(self) == old(self).follows(signal),
    {
        match signal {
            LoopSignal::Failed => {
                self.stage = LoopStage::ExitCleanup { failed: true };
            },
            LoopSignal::CleanedUp => match self.stage {
                LoopStage::StartupCleanup => {
                    self.stage = LoopStage::StartupPublish;
                },
                LoopStage::DisableCleanup => {
                    self.stage = LoopStage::CommandPublish;
                },
                _ => {
                    self.count_iteration();
                },
            },
            LoopSignal::Published => {
                self.published();
            },
            LoopSignal::Primed => {
                self.stage = LoopStage::Waiting;
            },
            LoopSignal::Command(command) => {
                self.command(command);
            },
            LoopSignal::RuntimeSaved => {
                if matches!(self.stage, LoopStage::EnableSave) {
                    self.scheduling_enabled = true;
                    self.stage = LoopStage::CommandPublish;
                } else {
                    self.scheduling_enabled = false;
                    self.stage = LoopStage::DisableCleanup;
                }
            },
            LoopSignal::Reloaded { mode, receipt } => {
                self.mode = mode;
                if receipt {
                    self.stage = LoopStage::ReceiptPublish;
                } else {
                    self.settle();
                }
            },
            LoopSignal::Clock { due } => {
                self.stage =
                if due {
                    LoopStage::Sampling
                } else {
                    LoopStage::GuardTick
                };
            },
            LoopSignal::Ticked => match self.stage {
                LoopStage::GuardTick => {
                    self.stage = LoopStage::GuardPublish;
                },
                LoopStage::SkippedTick => {
                    self.count_iteration();
                },
                _ => {
                    self.stage = LoopStage::Deciding;
                },
            },
            LoopSignal::Sampled => {
                self.stage = LoopStage::EvaluatingWidth;
            },
            LoopSignal::SampleFailed => {
                self.stage = LoopStage::SkippedTick;
            },
            LoopSignal::WidthEvaluated => {
                self.stage = LoopStage::EvaluationTick;
            },
            LoopSignal::Decision { enforce } => {
                if enforce {
                    self.stage = LoopStage::Enforcing;
                }
            },
            LoopSignal::Enforced => {
                self.stage = LoopStage::Deciding;
            },
            LoopSignal::DecisionsDone => {
                self.count_iteration();
            },
            LoopSignal::ExitCleanedUp { complete } => {
                if let LoopStage::ExitCleanup { failed } = self.stage {
                    self.stage = LoopStage::ExitPublish { failed, cleaned: complete };
                }
            },
            LoopSignal::ExitPublished { done } => {
                if let LoopStage::ExitPublish { failed, cleaned } = self.stage {
                    let outcome = if failed {
                        LoopOutcome::LoopFailed
                    } else if !cleaned {
                        LoopOutcome::CleanupFailed
                    } else if !done {
                        LoopOutcome::StatusFailed
                    } else {
                        LoopOutcome::Completed
                    };
                    self.stage = LoopStage::Ended(outcome);
                }
            },
        }
    }

    /// Says what to do now.
    pub fn next_action(&self, important: bool) -> (action: LoopAction)
        ensures
            action == self.action(important),
    {
        match self.stage {
            LoopStage::StartupCleanup
            | LoopStage::DisableCleanup
            | LoopStage::InactiveCleanup => LoopAction::CleanUp,
            LoopStage::StartupPublish
            | LoopStage::StopPublish
            | LoopStage::CommandPublish
            | LoopStage::ReceiptPublish => LoopAction::Publish { force: true },
            LoopStage::IterationPublish | LoopStage::GuardPublish => LoopAction::Publish {
                force: important,
            },
            LoopStage::Prime => LoopAction::Prime,
            LoopStage::Waiting => LoopAction::Wait,
            LoopStage::EnableSave => LoopAction::SaveRuntime { enabled: true },
            LoopStage::DisableSave => LoopAction::SaveRuntime { enabled: false },
            LoopStage::Reloading => LoopAction::Reload,
            LoopStage::CheckingClock => LoopAction::CheckClock,
            LoopStage::GuardTick
            | LoopStage::SkippedTick
            | LoopStage::EvaluationTick => LoopAction::SafetyTick,
            LoopStage::Sampling => LoopAction::Sample,
            LoopStage::EvaluatingWidth => LoopAction::EvaluateWidth,
            LoopStage::Deciding => LoopAction::NextDecision,
            LoopStage::Enforcing => LoopAction::Enforce,
            LoopStage::ExitCleanup { .. } => LoopAction::CleanUpAtExit,
            LoopStage::ExitPublish { .. } => LoopAction::PublishAtExit,
            LoopStage::Ended(outcome) => LoopAction::End(outcome),
        }
    }
}

/// Whatever ends the loop, everything is given back once more before it ends:
/// the end follows the last publication, and that follows the last cleanup.
pub proof fn the_end_follows_a_cleanup(core: LoopCore, signal: LoopSignal)
    requires
        core.awaits(signal),
    ensures
        core.follows(signal).stage is Ended ==> core.stage is ExitPublish,
        core.follows(signal).stage is ExitPublish ==> core.stage is ExitCleanup && signal
            is ExitCleanedUp,
{
}

/// A disabled controller gives everything back before it says that it is
/// disabled.
pub proof fn disabling_cleans_up_first(core: LoopCore)
    requires
        core.stage is Waiting,
    ensures
        ({
            let told = core.follows(LoopSignal::Command(ControllerCommand::Disable));
            let saved = if told.stage is DisableSave {
                told.follows(LoopSignal::RuntimeSaved)
            } else {
                told
            };
            &&& told.action(false) == if core.scheduling_enabled {
                LoopAction::SaveRuntime { enabled: false }
            } else {
                LoopAction::CleanUp
            }
            &&& saved.action(false) == LoopAction::CleanUp
            &&& !saved.scheduling_enabled
            &&& saved.follows(LoopSignal::CleanedUp).action(false) == LoopAction::Publish {
                force: true,
            }
            &&& !controller_mutations_active(saved.mode, saved.scheduling_enabled)
        }),
{
}

/// Placements are decided, and decisions carried out, only by a controller
/// that evaluates: the loop gets there only through the clock, and to the
/// clock only while evaluating.
pub proof fn decisions_need_an_evaluation(core: LoopCore, signal: LoopSignal)
    requires
        core.awaits(signal),
    ensures
        core.follows(signal).stage is CheckingClock ==> controller_evaluation_active(
            core.follows(signal).mode,
            core.follows(signal).scheduling_enabled,
        ),
        core.follows(signal).stage is Sampling ==> core.stage is CheckingClock && core.follows(
            signal,
        ).mode == core.mode && core.follows(signal).scheduling_enabled == core.scheduling_enabled,
        core.follows(signal).stage is Enforcing ==> core.stage is Deciding,
{
}

/// A bounded loop ends after exactly as many iterations as it was given.
pub proof fn bounded_loops_end(core: LoopCore)
    requires
        core.stage is IterationPublish,
    ensures
        core.follows(LoopSignal::Published).stage is ExitCleanup <==> core.exhausted(),
        core.follows(LoopSignal::Published).iteration == core.iteration,
{
}

/// The count of iterations grows by at most one, and only when an iteration
/// is done.
pub proof fn iterations_count_up(core: LoopCore, signal: LoopSignal)
    requires
        core.awaits(signal),
    ensures
        core.follows(signal).iteration == core.iteration || core.follows(signal).iteration
            == core.iteration + 1 && core.follows(signal).stage is IterationPublish,
{
}

/// A controller that evaluates nothing gives everything back on every tick.
pub proof fn inactive_controllers_clean_up(core: LoopCore, mode: ControllerMode)
    requires
        core.stage is Reloading,
        !controller_evaluation_active(mode, core.scheduling_enabled),
    ensures
        core.follows(LoopSignal::Reloaded { mode, receipt: false }).action(false)
            == LoopAction::CleanUp,
        core.follows(LoopSignal::Reloaded { mode, receipt: true }).action(false)
            == (LoopAction::Publish { force: true }),
        core.follows(LoopSignal::Reloaded { mode, receipt: true }).follows(
            LoopSignal::Published,
        ).action(false) == LoopAction::CleanUp,
{
}

/// The loop succeeds only where the loop, the last cleanup and the last
/// publication all did.
pub proof fn success_needs_every_part(core: LoopCore, done: bool)
    requires
        core.stage is ExitPublish,
    ensures
        core.follows(LoopSignal::ExitPublished { done }).stage == LoopStage::Ended(
            LoopOutcome::Completed,
        ) <==> core.stage == (LoopStage::ExitPublish { failed: false, cleaned: true }) && done,
{
}

/// A wake-up for the controller that is asked for and not yet taken.
#[derive(Debug, Clone, Copy, PartialEq, Eq, Structural)]
pub struct WakeGate {
    pub pending: bool,
}

impl WakeGate {
    /// Asks for a wake-up. Returns whether a tick has to be sent: not while
    /// one is outstanding.
    pub fn request(&mut self) -> (send: bool)
        ensures
            send == !old(self).pending,
            final(self).pending,
    {
        let send = !self.pending;
        self.pending = true;
        send
    }

    /// Notes that the tick could not be sent.
    pub fn note_unsent(&mut self)
        ensures
            !final(self).pending,
    {
        self.pending = false;
    }

    /// Notes that the controller woke up for a tick.
    pub fn take(&mut self)
        ensures
            !final(self).pending,
    {
        self.pending = false;
    }
}

/// What waiting for a command gave.
#[derive(Debug, Clone, Copy, PartialEq, Eq, Structural)]
pub enum Received {
    Command(ControllerCommand),
    Timeout,
    Disconnected,
}

/// What to do with what waiting gave.
#[derive(Debug, Clone, Copy, PartialEq, Eq, Structural)]
pub enum Settled {
    /// This is the command.
    Take(ControllerCommand),
    /// Look whether another command has come meanwhile; if none has, this is
    /// a tick.
    LookForMore,
}

/// What a wait comes to. Ticks are taken together, so that another command
/// among them is not put off; a controller that nobody can reach stops.
pub open spec fn settled(received: Received) -> Settled {
    match received {
        Received::Command(ControllerCommand::Tick) => Settled::LookForMore,
        Received::Command(command) => Settled::Take(command),
        Received::Disconnected => Settled::Take(ControllerCommand::Stop),
        Received::Timeout => Settled::Take(ControllerCommand::Tick),
    }
}

/// Says what a wait comes to.
pub fn settle_wait(received: Received) -> (what: Settled)
    ensures
        what == settled(received),
{
    match received {
        Received::Command(ControllerCommand::Tick) => Settled::LookForMore,
        Received::Command(command) => Settled::Take(command),
        Received::Disconnected => Settled::Take(ControllerCommand::Stop),
        Received::Timeout => Settled::Take(ControllerCommand::Tick),
    }
}

/// Says what a further command comes to while ticks are taken together.
pub fn settle_further(further: Option<ControllerCommand>) -> (what: Settled)
    ensures
        what == match further {
            None => Settled::Take(ControllerCommand::Tick),
            Some(ControllerCommand::Tick) => Settled::LookForMore,
            Some(command) => Settled::Take(command),
        },
{
    match further {
        None => Settled::Take(ControllerCommand::Tick),
        Some(ControllerCommand::Tick) => Settled::LookForMore,
        Some(command) => Settled::Take(command),
    }
}

pub const BACKGROUND_SAFETY_INTERVAL_NS: u128 = 1_000_000_000;

/// The time until the next placement evaluation.
pub open spec fn until_evaluation(sample_interval_ms: u64, elapsed_ns: u128) -> nat {
    if sample_interval_ms * 1_000_000 > elapsed_ns {
        (sample_interval_ms * 1_000_000 - elapsed_ns) as nat
    } else {
        0
    }
}

/// A decision is carried out exactly where it is to be enforced; either way
/// the next decision follows, and nothing else of the loop changes.
pub proof fn decisions_are_carried_out_as_asked(core: LoopCore, enforce: bool, important: bool)
    requires
        core.stage is Deciding,
    ensures
        core.action(important) == LoopAction::NextDecision,
        core.follows(LoopSignal::Decision { enforce }).action(important) == LoopAction::Enforce
            <==> enforce,
        core.follows(LoopSignal::Decision { enforce }).action(important)
            == LoopAction::NextDecision <==> !enforce,
        enforce ==> core.follows(LoopSignal::Decision { enforce }).follows(
            LoopSignal::Enforced,
        ) == core,
        !enforce ==> core.follows(LoopSignal::Decision { enforce }) == core,
{
}

/// Carrying a decision out is always followed by the next decision, and only
/// a decision that is to be enforced leads to it.
pub proof fn enforcing_returns_to_the_decisions(core: LoopCore, signal: LoopSignal, important: bool)
    requires
        core.awaits(signal),
    ensures
        core.action(important) == LoopAction::Enforce && signal is Enforced ==> core.follows(
            signal,
        ).action(important) == LoopAction::NextDecision,
        core.follows(signal).action(important) == LoopAction::Enforce <==> signal == (
        LoopSignal::Decision { enforce: true }),
{
}

/// What the loop does and what it can be told go together: every action has
/// its own kinds of answer, and any step before the end can fail.
pub proof fn actions_have_their_answers(core: LoopCore, signal: LoopSignal, important: bool)
    ensures
        core.awaits(signal) <==> match core.action(important) {
            LoopAction::CleanUp => signal is CleanedUp || signal is Failed,
            LoopAction::Publish { .. } => signal is Published || signal is Failed,
            LoopAction::Prime => signal is Primed || signal is Failed,
            LoopAction::Wait => signal is Command || signal is Failed,
            LoopAction::SaveRuntime { .. } => signal is RuntimeSaved || signal is Failed,
            LoopAction::Reload => signal is Reloaded || signal is Failed,
            LoopAction::CheckClock => signal is Clock || signal is Failed,
            LoopAction::SafetyTick => signal is Ticked || signal is Failed,
            LoopAction::Sample => signal is Sampled || signal is SampleFailed || signal is Failed,
            LoopAction::EvaluateWidth => signal is WidthEvaluated || signal is Failed,
            LoopAction::NextDecision => signal is Decision || signal is DecisionsDone
                || signal is Failed,
            LoopAction::Enforce => signal is Enforced || signal is Failed,
            LoopAction::CleanUpAtExit => signal is ExitCleanedUp,
            LoopAction::PublishAtExit => signal is ExitPublished,
            LoopAction::End(_) => false,
        },
{
}

/// A loop that may change processes begins by publishing its status; any
/// other gives back first what an earlier one may have left, and then does
/// the same. The telemetry is primed next, and then the loop waits.
pub proof fn loops_begin_in_order(
    mode: ControllerMode,
    scheduling_enabled: bool,
    max_iterations: Option<u16>,
    important: bool,
)
    ensures
        ({
            let first = LoopCore::first(mode, scheduling_enabled, max_iterations);
            let clean = if mode == ControllerMode::Auto && scheduling_enabled {
                first
            } else {
                first.follows(LoopSignal::CleanedUp)
            };
            let primed = clean.follows(LoopSignal::Published);
            &&& (first.action(important) == LoopAction::CleanUp) == !(mode == ControllerMode::Auto
                && scheduling_enabled)
            &&& clean.action(important) == (LoopAction::Publish { force: true })
            &&& primed.action(important) == LoopAction::Prime
            &&& primed.follows(LoopSignal::Primed).action(important) == LoopAction::Wait
            &&& primed.mode == mode
            &&& primed.scheduling_enabled == scheduling_enabled
            &&& primed.max_iterations == max_iterations
            &&& primed.iteration == 0
        }),
{
}

/// Every command is heeded. Stopping is announced before everything is given
/// back; enabling is saved, unless it holds already, and answered; disabling
/// is saved, unless it holds already, and everything is given back before it
/// is answered; a tick looks at the settings.
pub proof fn commands_are_heeded(core: LoopCore, command: ControllerCommand, important: bool)
    requires
        core.stage is Waiting,
    ensures
        ({
            let told = core.follows(LoopSignal::Command(command));
            let answered = match command {
                ControllerCommand::Enable => if core.scheduling_enabled {
                    told
                } else {
                    told.follows(LoopSignal::RuntimeSaved)
                },
                ControllerCommand::Disable => if core.scheduling_enabled {
                    told.follows(LoopSignal::RuntimeSaved).follows(LoopSignal::CleanedUp)
                } else {
                    told.follows(LoopSignal::CleanedUp)
                },
                _ => told,
            };
            &&& command == ControllerCommand::Tick ==> told.action(important) == LoopAction::Reload
            &&& command == ControllerCommand::Stop ==> told.action(important)
                == LoopAction::Publish { force: true } && told.follows(
                LoopSignal::Published,
            ).action(important) == LoopAction::CleanUpAtExit
            &&& command == ControllerCommand::Enable && !core.scheduling_enabled ==> told.action(
                important,
            ) == (LoopAction::SaveRuntime { enabled: true })
            &&& command == ControllerCommand::Disable && core.scheduling_enabled ==> told.action(
                important,
            ) == LoopAction::SaveRuntime { enabled: false } && told.follows(
                LoopSignal::RuntimeSaved,
            ).action(important) == LoopAction::CleanUp
            &&& command == ControllerCommand::Disable && !core.scheduling_enabled
                ==> told.action(important) == LoopAction::CleanUp
            &&& command == ControllerCommand::Enable || command == ControllerCommand::Disable ==> {
                &&& answered.action(important) == (LoopAction::Publish { force: true })
                &&& answered.scheduling_enabled == (command == ControllerCommand::Enable)
                &&& answered.follows(LoopSignal::Published).action(important) == LoopAction::Wait
            }
            &&& told.scheduling_enabled == core.scheduling_enabled
            &&& answered.mode == core.mode
            &&& answered.iteration == core.iteration
            &&& answered.max_iterations == core.max_iterations
        }),
{
}

/// New settings hold at once. Where there is something to tell of them, that
/// is published first. A controller that is off, or that is to place
/// processes and is disabled, then gives everything back; any other looks at
/// the clock.
pub proof fn ticks_follow_the_settings(
    core: LoopCore,
    mode: ControllerMode,
    receipt: bool,
    important: bool,
)
    requires
        core.stage is Reloading,
    ensures
        ({
            let told = core.follows(LoopSignal::Reloaded { mode, receipt });
            let settled = if receipt {
                told.follows(LoopSignal::Published)
            } else {
                told
            };
            &&& receipt ==> told.action(important) == (LoopAction::Publish { force: true })
            &&& settled.action(important) == if mode == ControllerMode::Observe || mode
                == ControllerMode::Auto && core.scheduling_enabled {
                LoopAction::CheckClock
            } else {
                LoopAction::CleanUp
            }
            &&& settled == (LoopCore { mode, stage: settled.stage, ..core })
            &&& settled.action(important) == LoopAction::CleanUp ==> {
                let cleaned = settled.follows(LoopSignal::CleanedUp);
                &&& cleaned.action(important) == (LoopAction::Publish { force: important })
                &&& cleaned == settled.counted().at(cleaned.stage)
            }
        }),
{
}

/// Between evaluations only the background policies are looked at, and
/// nothing is counted. An evaluation samples the load first: where it could,
/// the width is evaluated, then the background policies, then the placements,
/// and where it could not, only the background policies. An evaluation is
/// counted once, at its end.
pub proof fn evaluations_run_in_order(core: LoopCore, important: bool)
    requires
        core.stage is CheckingClock,
    ensures
        ({
            let guard = core.follows(LoopSignal::Clock { due: false });
            let guarded = guard.follows(LoopSignal::Ticked);
            let due = core.follows(LoopSignal::Clock { due: true });
            let sampled = due.follows(LoopSignal::Sampled);
            let wide = sampled.follows(LoopSignal::WidthEvaluated);
            let deciding = wide.follows(LoopSignal::Ticked);
            let done = deciding.follows(LoopSignal::DecisionsDone);
            let skipping = due.follows(LoopSignal::SampleFailed);
            let skipped = skipping.follows(LoopSignal::Ticked);
            &&& guard.action(important) == LoopAction::SafetyTick
            &&& guarded.action(important) == (LoopAction::Publish { force: important })
            &&& guarded.follows(LoopSignal::Published).action(important) == LoopAction::Wait
            &&& guarded.iteration == core.iteration
            &&& due.action(important) == LoopAction::Sample
            &&& sampled.action(important) == LoopAction::EvaluateWidth
            &&& wide.action(important) == LoopAction::SafetyTick
            &&& deciding.action(important) == LoopAction::NextDecision
            &&& deciding.iteration == core.iteration
            &&& done.action(important) == (LoopAction::Publish { force: important })
            &&& skipping.action(important) == LoopAction::SafetyTick
            &&& skipped.action(important) == (LoopAction::Publish { force: important })
            &&& core.iteration < u64::MAX ==> done.iteration == core.iteration + 1
                && skipped.iteration == core.iteration + 1
            &&& done.follows(LoopSignal::Published).action(important) == LoopAction::Wait
                || done.follows(LoopSignal::Published).action(important)
                == LoopAction::CleanUpAtExit
        }),
{
}

/// A loop with a limit goes on after an iteration exactly while fewer
/// iterations than the limit are done; one without a limit always goes on.
pub proof fn loops_go_on_below_their_limit(core: LoopCore, important: bool)
    requires
        core.stage is IterationPublish,
    ensures
        core.follows(LoopSignal::Published).action(important) == match core.max_iterations {
            Some(limit) => if core.iteration < limit {
                LoopAction::Wait
            } else {
                LoopAction::CleanUpAtExit
            },
            None => LoopAction::Wait,
        },
        core.follows(LoopSignal::Published) == (LoopCore {
            stage: core.follows(LoopSignal::Published).stage,
            ..core
        }),
{
}

/// A step that fails ends the loop: everything is given back, the status is
/// published, and the loop says that it failed, whatever came of the rest.
pub proof fn failures_end_the_loop(core: LoopCore, complete: bool, done: bool, important: bool)
    requires
        core.awaits(LoopSignal::Failed),
    ensures
        ({
            let failed = core.follows(LoopSignal::Failed);
            let cleaned = failed.follows(LoopSignal::ExitCleanedUp { complete });
            &&& failed.action(important) == LoopAction::CleanUpAtExit
            &&& cleaned.action(important) == LoopAction::PublishAtExit
            &&& cleaned.follows(LoopSignal::ExitPublished { done }).action(important)
                == LoopAction::End(LoopOutcome::LoopFailed)
        }),
{
}

/// A loop that was stopped tells the first thing that went wrong at its end,
/// if anything did.
pub proof fn ends_tell_what_went_wrong(core: LoopCore, complete: bool, done: bool, important: bool)
    requires
        core.stage is StopPublish,
    ensures
        ({
            let cleaned = core.follows(LoopSignal::Published).follows(
                LoopSignal::ExitCleanedUp { complete },
            );
            &&& cleaned.action(important) == LoopAction::PublishAtExit
            &&& cleaned.follows(LoopSignal::ExitPublished { done }).action(important)
                == LoopAction::End(
                if !complete {
                    LoopOutcome::CleanupFailed
                } else if !done {
                    LoopOutcome::StatusFailed
                } else {
                    LoopOutcome::Completed
                },
            )
        }),
{
}

/// Only new settings change the mode, only a saved choice changes whether
/// scheduling is enabled, and nothing changes the limit.
pub proof fn loops_keep_what_they_were_told(core: LoopCore, signal: LoopSignal)
    requires
        core.awaits(signal),
    ensures
        core.follows(signal).max_iterations == core.max_iterations,
        core.follows(signal).mode == match signal {
            LoopSignal::Reloaded { mode, .. } => mode,
            _ => core.mode,
        },
        signal !is RuntimeSaved ==> core.follows(signal).scheduling_enabled
            == core.scheduling_enabled,
        signal is RuntimeSaved ==> core.action(false) == (LoopAction::SaveRuntime {
            enabled: core.follows(signal).scheduling_enabled,
        }),
{
}

/// A command is never lost behind ticks, silence is a tick, and a controller
/// that nobody can reach stops.
pub proof fn waits_lose_no_command(command: ControllerCommand)
    ensures
        command != ControllerCommand::Tick ==> settled(Received::Command(command))
            == Settled::Take(command),
        settled(Received::Command(ControllerCommand::Tick)) == Settled::LookForMore,
        settled(Received::Timeout) == Settled::Take(ControllerCommand::Tick),
        settled(Received::Disconnected) == Settled::Take(ControllerCommand::Stop),
{
}

/// The time until the next evaluation and the time since the last one make up
/// the interval; once it has passed, nothing is left to wait for.
pub proof fn waits_make_up_the_interval(sample_interval_ms: u64, elapsed_ns: u128)
    ensures
        elapsed_ns <= sample_interval_ms * 1_000_000 ==> elapsed_ns + until_evaluation(
            sample_interval_ms,
            elapsed_ns,
        ) == sample_interval_ms * 1_000_000,
        elapsed_ns >= sample_interval_ms * 1_000_000 <==> until_evaluation(
            sample_interval_ms,
            elapsed_ns,
        ) == 0,
{
}

/// Whether a rule puts processes under the background policies: processes may
/// be changed, and the policies apply to one of the rules.
pub fn background_rule_active(mode: ControllerMode, enabled: bool, applies: &Vec<bool>) -> (active:
    bool)
    ensures
        active == (controller_mutations_active(mode, enabled) && exists|i: int|
            0 <= i < applies.len() && #[trigger] applies@[i]),
{
    if !controller_mutations_active(mode, enabled) {
        return false;
    }
    let mut at: usize = 0;
    while at < applies.len()
        invariant
            at <= applies.len(),
            controller_mutations_active(mode, enabled),
            forall|i: int| 0 <= i < at ==> !#[trigger] applies@[i],
        decreases applies.len() - at,
    {
        if applies[at] {
            proof {
                assert(applies@[at as int]);
            }
            return true;
        }
        at = at + 1;
    }
    false
}

/// How long the controller waits: until the next placement evaluation, and no
/// longer than a second while there are background policies to watch.
pub fn controller_wait_interval(
    sample_interval_ms: u64,
    elapsed_ns: u128,
    background_rule_active: bool,
    background_managed: bool,
) -> (wait_ns: u128)
    ensures
        wait_ns == if (background_rule_active || background_managed) && until_evaluation(
            sample_interval_ms,
            elapsed_ns,
        ) > BACKGROUND_SAFETY_INTERVAL_NS {
            BACKGROUND_SAFETY_INTERVAL_NS as nat
        } else {
            until_evaluation(sample_interval_ms, elapsed_ns)
        },
{
    let configured: u128 = sample_interval_ms as u128 * 1_000_000;
    let until: u128 = configured.saturating_sub(elapsed_ns);
    if (background_rule_active || background_managed) && until > BACKGROUND_SAFETY_INTERVAL_NS {
        BACKGROUND_SAFETY_INTERVAL_NS
    } else {
        until
    }
}

/// Whether the time of the next placement evaluation has come.
pub fn evaluation_due(sample_interval_ms: u64, elapsed_ns: u128) -> (due: bool)
    ensures
        due == (until_evaluation(sample_interval_ms, elapsed_ns) == 0),
{
    elapsed_ns >= sample_interval_ms as u128 * 1_000_000
}

/// A span of time in whole milliseconds, as far as it can be counted.
pub fn controller_elapsed_ms(elapsed_ns: u128) -> (ms: u64)
    ensures
        ms == if elapsed_ns / 1_000_000 > u64::MAX {
            u64::MAX as u128
        } else {
            elapsed_ns / 1_000_000
        },
{
    let ms: u128 = elapsed_ns / 1_000_000;
    if ms > u64::MAX as u128 {
        u64::MAX
    } else {
        ms as u64
    }
}

} // verus!
