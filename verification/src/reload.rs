//! Taking over settings that were changed while the controller runs.
//!
//! The steps say what is tried and in which order. Settings are adopted only
//! once they were read, make a policy and the log follows them. Settings that
//! cannot be read have everything given back, and those that do nothing take
//! their place.
use vstd::prelude::*;

use crate::controller::CleanupResult;
use crate::controller::ConfigReload;
use crate::observations::ControllerMode;
use crate::settings_config::ConfigView;
use crate::settings_config::ControllerConfig;
use crate::settings_config::ControllerValues;
use crate::text::push_decimal;

verus! {

/// What is done next with the settings file.
#[derive(Debug, Clone, Copy, PartialEq, Eq, Structural)]
pub enum ReloadStep {
    /// Read the settings.
    Load,
    /// Make a policy of what was read.
    MakePolicy,
    /// Have the log follow what was read.
    FollowLog,
    /// Use what was read, and its policy, from now on.
    Adopt,
    /// Say that what was read makes no policy.
    RefusePolicy,
    /// Say that the log could not follow what was read.
    RefuseLog,
    /// Give the placements back.
    GiveBack,
    /// Use the settings that do nothing from now on.
    FailClosed,
    /// There is nothing more to do.
    Finished,
}

/// Where a look at the settings file begins. Times are counted in nanoseconds
/// from the beginning of 1970; a file without one has none.
pub open spec fn first_reload_step(
    watched: bool,
    remembered: Option<i128>,
    modified: Option<i128>,
) -> ReloadStep {
    if watched && modified != remembered {
        ReloadStep::Load
    } else {
        ReloadStep::Finished
    }
}

/// What follows a step, by whether it could be done.
pub open spec fn after_reload(last: ReloadStep, done: bool) -> ReloadStep {
    match last {
        ReloadStep::Load => if done {
            ReloadStep::MakePolicy
        } else {
            ReloadStep::GiveBack
        },
        ReloadStep::MakePolicy => if done {
            ReloadStep::FollowLog
        } else {
            ReloadStep::RefusePolicy
        },
        ReloadStep::FollowLog => if done {
            ReloadStep::Adopt
        } else {
            ReloadStep::RefuseLog
        },
        ReloadStep::GiveBack => ReloadStep::FailClosed,
        _ => ReloadStep::Finished,
    }
}

/// Looks at the settings file, where there is one: it is read where its time
/// is not the one that is remembered.
pub fn reload_config_if_changed(
    watched: bool,
    remembered: Option<i128>,
    modified: Option<i128>,
) -> (step: ReloadStep)
    ensures
        step == first_reload_step(watched, remembered, modified),
{
    let same = match (modified, remembered) {
        (Some(modified), Some(remembered)) => modified == remembered,
        (None, None) => true,
        _ => false,
    };
    if watched && !same {
        ReloadStep::Load
    } else {
        ReloadStep::Finished
    }
}

/// Says what follows a step.
pub fn next_reload(last: ReloadStep, done: bool) -> (step: ReloadStep)
    ensures
        step == after_reload(last, done),
{
    match last {
        ReloadStep::Load => if done {
            ReloadStep::MakePolicy
        } else {
            ReloadStep::GiveBack
        },
        ReloadStep::MakePolicy => if done {
            ReloadStep::FollowLog
        } else {
            ReloadStep::RefusePolicy
        },
        ReloadStep::FollowLog => if done {
            ReloadStep::Adopt
        } else {
            ReloadStep::RefuseLog
        },
        ReloadStep::GiveBack => ReloadStep::FailClosed,
        _ => ReloadStep::Finished,
    }
}

/// What came of reading changed settings.
#[derive(Debug)]
pub enum ReloadAttempt {
    /// They were read, make a policy, and the log follows them.
    Usable { settings: ControllerConfig },
    /// They were read and make no policy.
    NoPolicy { error: String },
    /// They were read, and the log could not follow them.
    LogFailed { error: String },
    /// They could not be read; everything was to be given back. The defaults
    /// are the settings that do nothing.
    Unreadable { error: String, cleanup: CleanupResult, defaults: ControllerConfig },
}

/// The words for settings that could not be read.
pub open spec fn unreadable_words(error: Seq<char>, cleanup: CleanupResult) -> Seq<char> {
    match cleanup {
        CleanupResult::Done(report) => if report.failed == 0 {
            error
        } else {
            error + "; "@ + crate::text::decimal(report.failed as nat)
                + " managed assignment(s) await cleanup retry"@
        },
        CleanupResult::Failed(said) => error + "; managed-assignment cleanup failed: "@ + said@,
    }
}

/// What an attempt to take over changed settings comes to.
pub open spec fn reload_means(attempt: ReloadAttempt, reload: ConfigReload) -> bool {
    match attempt {
        ReloadAttempt::Usable { .. } => reload is Reloaded,
        ReloadAttempt::NoPolicy { error } => reload matches ConfigReload::Rejected {
            error: said,
            fail_closed,
        } && said@ == error@ && !fail_closed,
        ReloadAttempt::LogFailed { error } => reload matches ConfigReload::Rejected {
            error: said,
            fail_closed,
        } && said@
            == "failed to apply logging configuration; prior configuration retained: "@ + error@
            && !fail_closed,
        ReloadAttempt::Unreadable { error, cleanup, .. } => reload matches ConfigReload::Rejected {
            error: said,
            fail_closed,
        } && said@ == unreadable_words(error@, cleanup) && fail_closed,
    }
}

/// Writes what is said of settings that could not be read.
fn unreadable_text(error: &str, cleanup: &CleanupResult) -> (text: String)
    ensures
        text@ == unreadable_words(error@, *cleanup),
{
    let mut text = error.to_owned();
    match cleanup {
        CleanupResult::Done(report) => {
            if report.failed != 0 {
                text.append("; ");
                push_decimal(&mut text, report.failed as u64);
                text.append(" managed assignment(s) await cleanup retry");
            }
        },
        CleanupResult::Failed(said) => {
            text.append("; managed-assignment cleanup failed: ");
            text.append(said.as_str());
        },
    }
    text
}

/// The defaults with the log as it was.
pub open spec fn fail_closed_view(defaults: ConfigView, prior: ConfigView) -> ConfigView {
    ConfigView {
        values: ControllerValues { logging: prior.values.logging, ..defaults.values },
        ..defaults
    }
}

/// The settings that take the place of unreadable ones: the defaults with the
/// log as it was.
pub fn fail_closed_settings(defaults: ControllerConfig, prior: &ControllerConfig) -> (settings:
    ControllerConfig)
    ensures
        settings@ == (ConfigView {
            values: ControllerValues { logging: prior.values.logging, ..defaults.values },
            ..defaults@
        }),
{
    let mut settings = defaults;
    settings.values.logging = prior.values.logging;
    settings
}

/// The settings in use, and the time of the file that they were judged by.
#[derive(Debug)]
pub struct SettingsInUse {
    pub settings: ControllerConfig,
    pub modified: Option<i128>,
}

/// The settings in use after an attempt to take over changed ones.
pub open spec fn settings_after(prior: ConfigView, attempt: ReloadAttempt) -> ConfigView {
    match attempt {
        ReloadAttempt::Usable { settings } => settings@,
        ReloadAttempt::NoPolicy { .. } | ReloadAttempt::LogFailed { .. } => prior,
        ReloadAttempt::Unreadable { defaults, .. } => fail_closed_view(defaults@, prior),
    }
}

/// Ends an attempt to take over changed settings: says what it comes to, puts
/// the settings in place that hold from now on, and remembers the time of the
/// file, so that the same file is not judged twice.
pub fn settle_reload(
    in_use: &mut SettingsInUse,
    modified: Option<i128>,
    attempt: ReloadAttempt,
) -> (reload: ConfigReload)
    ensures
        reload_means(attempt, reload),
        final(in_use).settings@ == settings_after(old(in_use).settings@, attempt),
        final(in_use).modified == modified,
{
    in_use.modified = modified;
    match attempt {
        ReloadAttempt::Usable { settings } => {
            in_use.settings = settings;
            ConfigReload::Reloaded
        },
        ReloadAttempt::NoPolicy { error } => ConfigReload::Rejected { error, fail_closed: false },
        ReloadAttempt::LogFailed { error } => {
            let mut text =
                "failed to apply logging configuration; prior configuration retained: ".to_owned();
            text.append(error.as_str());
            ConfigReload::Rejected { error: text, fail_closed: false }
        },
        ReloadAttempt::Unreadable { error, cleanup, defaults } => {
            in_use.settings = fail_closed_settings(defaults, &in_use.settings);
            ConfigReload::Rejected {
                error: unreadable_text(error.as_str(), &cleanup),
                fail_closed: true,
            }
        },
    }
}

/// New settings are adopted only after they were read, made a policy and the
/// log followed them, and then always.
pub proof fn adoption_needs_every_part(loaded: bool, policy: bool, log: bool)
    ensures
        after_reload(after_reload(after_reload(ReloadStep::Load, loaded), policy), log)
            == ReloadStep::Adopt <==> loaded && policy && log,
{
}

/// Nothing but having the log follow leads to the adoption, and nothing but a
/// policy to the log, and nothing but a reading to the policy.
pub proof fn steps_are_not_skipped(last: ReloadStep, done: bool)
    ensures
        after_reload(last, done) == ReloadStep::Adopt <==> last == ReloadStep::FollowLog && done,
        after_reload(last, done) == ReloadStep::FollowLog <==> last == ReloadStep::MakePolicy
            && done,
        after_reload(last, done) == ReloadStep::MakePolicy <==> last == ReloadStep::Load && done,
{
}

/// Where the settings cannot be read, everything is given back before the
/// settings that do nothing are used, whether or not all of it could be.
pub proof fn unreadable_settings_give_back_first(last: ReloadStep, done: bool)
    ensures
        after_reload(ReloadStep::Load, false) == ReloadStep::GiveBack,
        after_reload(ReloadStep::GiveBack, done) == ReloadStep::FailClosed,
        after_reload(last, done) == ReloadStep::GiveBack <==> last == ReloadStep::Load && !done,
        after_reload(last, done) == ReloadStep::FailClosed <==> last == ReloadStep::GiveBack,
{
}

/// A file whose settings were judged is not judged again until its time
/// changes.
pub proof fn files_are_judged_once(watched: bool, modified: Option<i128>, later: Option<i128>)
    ensures
        first_reload_step(watched, modified, modified) == ReloadStep::Finished,
        watched && later != modified ==> first_reload_step(watched, modified, later)
            == ReloadStep::Load,
{
}

/// Settings that are refused but could be read change nothing; unreadable
/// ones leave the log as it was.
pub proof fn refused_settings_keep_the_log(prior: ConfigView, attempt: ReloadAttempt)
    ensures
        attempt is NoPolicy || attempt is LogFailed ==> settings_after(prior, attempt) == prior,
        !(attempt is Usable) ==> settings_after(prior, attempt).values.logging
            == prior.values.logging,
{
}

/// After unreadable settings no process is changed, whatever was chosen,
/// where the defaults only observe; and no rule holds, where they have none.
pub proof fn unreadable_settings_stop_changes(
    prior: ConfigView,
    attempt: ReloadAttempt,
    scheduling_enabled: bool,
)
    requires
        attempt matches ReloadAttempt::Unreadable { defaults, .. } && defaults@.values.controller_mode
            == ControllerMode::Observe && defaults@.rules.len() == 0,
    ensures
        ({
            let after = settings_after(prior, attempt);
            &&& after.values.controller_mode == ControllerMode::Observe
            &&& after.rules.len() == 0
            &&& !crate::schedule::controller_mutations_active(
                after.values.controller_mode,
                scheduling_enabled,
            )
        }),
{
}

/// Settings that can be used are used, and settings that cannot be read give
/// way to the defaults in everything but the log.
pub proof fn settings_hold_as_they_were_judged(prior: ConfigView, attempt: ReloadAttempt)
    ensures
        attempt matches ReloadAttempt::Usable { settings } ==> settings_after(prior, attempt)
            == settings@,
        attempt matches ReloadAttempt::Unreadable { defaults, .. } ==> {
            let after = settings_after(prior, attempt);
            &&& after.rules == defaults@.rules
            &&& after.values.controller_mode == defaults@.values.controller_mode
            &&& after.values.responsiveness == defaults@.values.responsiveness
            &&& after.values.background_efficiency == defaults@.values.background_efficiency
            &&& after.values == (ControllerValues {
                logging: prior.values.logging,
                ..defaults@.values
            })
        },
{
}

/// A look ends in the settings being taken over exactly where they can be
/// used, and gives everything up exactly where they cannot be read.
pub proof fn reloads_say_what_they_came_to(attempt: ReloadAttempt, reload: ConfigReload)
    requires
        reload_means(attempt, reload),
    ensures
        reload is Reloaded <==> attempt is Usable,
        reload is Rejected <==> !(attempt is Usable),
        reload matches ConfigReload::Rejected { fail_closed, .. } ==> (fail_closed <==> attempt
            is Unreadable),
        reload matches ConfigReload::Rejected { error: said, .. } ==> match attempt {
            ReloadAttempt::NoPolicy { error } => said@ == error@,
            ReloadAttempt::LogFailed { error } => error@.is_suffix_of(said@),
            ReloadAttempt::Unreadable { error, .. } => error@.is_prefix_of(said@),
            _ => false,
        },
{
    match (attempt, reload) {
        (ReloadAttempt::LogFailed { error }, ConfigReload::Rejected { error: said, .. }) => {
            assert(said@.subrange(said@.len() - error@.len(), said@.len() as int) =~= error@);
        },
        (ReloadAttempt::Unreadable { error, .. }, ConfigReload::Rejected { error: said, .. }) => {
            assert(said@.subrange(0, error@.len() as int) =~= error@);
        },
        _ => {},
    }
}

/// What could not be given back is told with the settings that could not be
/// read, and nothing else is.
pub proof fn what_is_left_behind_is_told(error: Seq<char>, cleanup: CleanupResult)
    ensures
        (cleanup matches CleanupResult::Done(report) && report.failed == 0) ==> unreadable_words(
            error,
            cleanup,
        ) == error,
        (cleanup matches CleanupResult::Done(report) && report.failed > 0) ==> (error + "; "@
            + crate::text::decimal(
            cleanup->Done_0.failed as nat,
        )).is_prefix_of(unreadable_words(error, cleanup)),
        cleanup matches CleanupResult::Failed(said) ==> said@.is_suffix_of(
            unreadable_words(error, cleanup),
        ) && unreadable_words(error, cleanup).len() > error.len() + said@.len(),
{
    let words = unreadable_words(error, cleanup);
    match cleanup {
        CleanupResult::Done(report) => {
            let start = error + "; "@ + crate::text::decimal(report.failed as nat);
            if report.failed > 0 {
                assert(words.subrange(0, start.len() as int) =~= start);
            }
        },
        CleanupResult::Failed(said) => {
            reveal_strlit("; managed-assignment cleanup failed: ");
            assert(words.subrange(words.len() - said@.len(), words.len() as int) =~= said@);
        },
    }
}

/// Settings are looked at only where there is a file of them, and every way
/// through the steps comes to its end.
pub proof fn looks_come_to_an_end(
    remembered: Option<i128>,
    modified: Option<i128>,
    last: ReloadStep,
    done: bool,
)
    ensures
        first_reload_step(false, remembered, modified) == ReloadStep::Finished,
        after_reload(ReloadStep::MakePolicy, false) == ReloadStep::RefusePolicy,
        after_reload(ReloadStep::FollowLog, false) == ReloadStep::RefuseLog,
        last == ReloadStep::Adopt || last == ReloadStep::RefusePolicy || last
            == ReloadStep::RefuseLog || last == ReloadStep::FailClosed || last
            == ReloadStep::Finished <==> after_reload(last, done) == ReloadStep::Finished,
{
}

} // verus!
