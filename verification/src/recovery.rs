//! Giving back what an earlier run left behind when the controller cannot
//! start.
use vstd::prelude::*;

use crate::controller::CleanupResult;
use crate::provision::with_transaction_recovery;
use crate::provision::JournalPlan;
use crate::text::push_decimal;

verus! {

/// Whether everything was given back.
pub open spec fn complete(cleanup: CleanupResult) -> bool {
    cleanup matches CleanupResult::Done(report) && report.failed == 0
}

fn is_complete(cleanup: &CleanupResult) -> (all: bool)
    ensures
        all == complete(*cleanup),
{
    match cleanup {
        CleanupResult::Done(report) => report.failed == 0,
        CleanupResult::Failed(_) => false,
    }
}

/// How a cleanup ended, in full.
pub open spec fn cleanup_words(cleanup: CleanupResult) -> Seq<char> {
    match cleanup {
        CleanupResult::Done(report) => "Ok(CleanupReport { attempted: "@ + crate::text::decimal(
            report.attempted as nat,
        ) + ", cleared: "@ + crate::text::decimal(report.cleared as nat) + ", failed: "@
            + crate::text::decimal(report.failed as nat) + " })"@,
        CleanupResult::Failed(said) => "Err("@ + said@ + ")"@,
    }
}

/// Adds how a cleanup ended, in full.
fn push_cleanup(text: &mut String, cleanup: &CleanupResult)
    ensures
        final(text)@ == old(text)@ + cleanup_words(*cleanup),
{
    match cleanup {
        CleanupResult::Done(report) => {
            text.append("Ok(CleanupReport { attempted: ");
            push_decimal(text, report.attempted as u64);
            text.append(", cleared: ");
            push_decimal(text, report.cleared as u64);
            text.append(", failed: ");
            push_decimal(text, report.failed as u64);
            text.append(" })");
        },
        CleanupResult::Failed(said) => {
            text.append("Err(");
            text.append(said.as_str());
            text.append(")");
        },
    }
    proof {
        assert(text@ =~= old(text)@ + cleanup_words(*cleanup));
    }
}

/// The error of something that failed and, where undoing it failed too, of
/// that.
pub open spec fn transaction_words(operation: Seq<char>, recovery: Option<Seq<char>>) -> Seq<char> {
    match recovery {
        None => operation,
        Some(recovery) => "service provisioning failed: "@ + operation
            + "; recovery also failed: "@ + recovery,
    }
}

/// The error of a journal that could not be read, after the journal that could
/// be was cleaned up.
pub open spec fn journal_words(
    plan: JournalPlan,
    operation: Seq<char>,
    cleanup: CleanupResult,
) -> Seq<char> {
    transaction_words(
        operation,
        match plan {
            JournalPlan::CleanPlacements if !complete(cleanup) => Some(
                "placement cleanup after background journal load failure: "@ + cleanup_words(
                    cleanup,
                ),
            ),
            JournalPlan::CleanBackground if !complete(cleanup) => Some(
                "background cleanup after placement journal load failure: "@ + cleanup_words(
                    cleanup,
                ),
            ),
            _ => None,
        },
    )
}

/// Describes a journal that could not be read, after the one that could be was
/// cleaned up.
pub fn journal_load_error(plan: JournalPlan, operation: &str, cleanup: &CleanupResult) -> (error:
    String)
    ensures
        error@ == journal_words(plan, operation@, *cleanup),
{
    if is_complete(cleanup) {
        return operation.to_owned();
    }
    let start = match plan {
        JournalPlan::CleanPlacements => {
            "placement cleanup after background journal load failure: "
        },
        JournalPlan::CleanBackground => {
            "background cleanup after placement journal load failure: "
        },
        _ => {
            return operation.to_owned();
        },
    };
    let mut recovery = start.to_owned();
    push_cleanup(&mut recovery, cleanup);
    with_transaction_recovery(operation, &Some(recovery))
}

/// The error of a start of the controller that failed, after everything was
/// to be given back.
pub open spec fn initialization_words(
    operation: Seq<char>,
    placement: CleanupResult,
    background: CleanupResult,
) -> Seq<char> {
    transaction_words(
        operation,
        if complete(placement) && complete(background) {
            None
        } else {
            Some(
                "ownership cleanup after initialization failure: placement="@ + cleanup_words(
                    placement,
                ) + ", background="@ + cleanup_words(background),
            )
        },
    )
}

/// Describes a start of the controller that failed.
pub fn recover_controller_initialization(
    operation: &str,
    placement: &CleanupResult,
    background: &CleanupResult,
) -> (error: String)
    ensures
        error@ == initialization_words(operation@, *placement, *background),
{
    if is_complete(placement) && is_complete(background) {
        return operation.to_owned();
    }
    let mut recovery =
        "ownership cleanup after initialization failure: placement=".to_owned();
    push_cleanup(&mut recovery, placement);
    recovery.append(", background=");
    push_cleanup(&mut recovery, background);
    with_transaction_recovery(operation, &Some(recovery))
}

/// Describes two journals of which neither could be read.
pub fn unreadable_journals_error(placement: &str, background: &str) -> (error: String)
    ensures
        error@ == transaction_words(
            placement@,
            Some("background journal also failed to load: "@ + background@),
        ),
{
    let mut recovery = "background journal also failed to load: ".to_owned();
    recovery.append(background);
    with_transaction_recovery(placement, &Some(recovery))
}

/// What went wrong at first is told as it is exactly where everything was
/// given back, or where nothing was to be; else what is left behind is told
/// with it.
pub proof fn incomplete_recoveries_are_told(
    operation: Seq<char>,
    placement: CleanupResult,
    background: CleanupResult,
)
    ensures
        complete(placement) && complete(background) ==> initialization_words(
            operation,
            placement,
            background,
        ) == operation,
        !(complete(placement) && complete(background)) ==> initialization_words(
            operation,
            placement,
            background,
        ).len() > operation.len(),
        !complete(placement) ==> journal_words(
            JournalPlan::CleanPlacements,
            operation,
            placement,
        ).len() > operation.len(),
        !complete(background) ==> journal_words(
            JournalPlan::CleanBackground,
            operation,
            background,
        ).len() > operation.len(),
{
    reveal_strlit("service provisioning failed: ");
}

/// A step of removing a service that was just created.
#[derive(Debug, Clone, Copy, PartialEq, Eq, Structural)]
pub enum RemovalStep {
    Stop,
    Delete,
    AwaitAbsence,
}

impl RemovalStep {
    /// What the step is called when it fails.
    pub fn label(self) -> (text: &'static str)
        ensures
            text@ == match self {
                RemovalStep::Stop => "stop newly created service"@,
                RemovalStep::Delete => "delete newly created service"@,
                RemovalStep::AwaitAbsence => "wait for newly created service deletion"@,
            },
    {
        match self {
            RemovalStep::Stop => "stop newly created service",
            RemovalStep::Delete => "delete newly created service",
            RemovalStep::AwaitAbsence => "wait for newly created service deletion",
        }
    }
}

/// Says how a service that was just created is removed. Every step is tried,
/// whatever came of the ones before.
pub fn cleanup_created_service() -> (steps: Vec<RemovalStep>)
    ensures
        steps@ == seq![RemovalStep::Stop, RemovalStep::Delete, RemovalStep::AwaitAbsence],
        steps@ == removal_steps(),
{
    vec![RemovalStep::Stop, RemovalStep::Delete, RemovalStep::AwaitAbsence]
}

/// A cleanup is complete where it could be done and left nothing over.
pub proof fn complete_cleanups_left_nothing(cleanup: CleanupResult)
    ensures
        cleanup is Failed ==> !complete(cleanup),
        cleanup matches CleanupResult::Done(report) ==> (complete(cleanup) <==> report.failed == 0),
{
}

/// What went wrong first is told first, and what went wrong in undoing it
/// last; where undoing it went well, nothing is said of it.
pub proof fn recoveries_are_told_last(operation: Seq<char>, recovery: Seq<char>)
    ensures
        transaction_words(operation, None) == operation,
        recovery.is_suffix_of(transaction_words(operation, Some(recovery))),
        ("service provisioning failed: "@ + operation).is_prefix_of(
            transaction_words(operation, Some(recovery)),
        ),
{
    let words = transaction_words(operation, Some(recovery));
    let start = "service provisioning failed: "@ + operation;
    assert(words.subrange(0, start.len() as int) =~= start);
    assert(words.subrange(words.len() - recovery.len(), words.len() as int) =~= recovery);
}

/// A journal that could not be read is told with how the other one was cleaned
/// up, where that did not go well, under the name of the one that was cleaned.
pub proof fn unreadable_journals_tell_the_other(operation: Seq<char>, cleanup: CleanupResult)
    ensures
        ({
            let placements = journal_words(JournalPlan::CleanPlacements, operation, cleanup);
            let background = journal_words(JournalPlan::CleanBackground, operation, cleanup);
            &&& complete(cleanup) ==> placements == operation && background == operation
            &&& !complete(cleanup) ==> ("placement cleanup after background journal load failure: "@
                + cleanup_words(cleanup)).is_suffix_of(placements)
            &&& !complete(cleanup) ==> ("background cleanup after placement journal load failure: "@
                + cleanup_words(cleanup)).is_suffix_of(background)
        }),
{
    if !complete(cleanup) {
        recoveries_are_told_last(
            operation,
            "placement cleanup after background journal load failure: "@ + cleanup_words(cleanup),
        );
        recoveries_are_told_last(
            operation,
            "background cleanup after placement journal load failure: "@ + cleanup_words(cleanup),
        );
    }
}

/// A start that failed is told with how both cleanups went, the placements
/// first, where not both went well.
pub proof fn failed_starts_tell_both_cleanups(
    operation: Seq<char>,
    placement: CleanupResult,
    background: CleanupResult,
)
    ensures
        complete(placement) && complete(background) ==> initialization_words(
            operation,
            placement,
            background,
        ) == operation,
        !complete(placement) || !complete(background) ==> ("placement="@ + cleanup_words(placement)
            + ", background="@ + cleanup_words(background)).is_suffix_of(
            initialization_words(operation, placement, background),
        ),
{
    if !complete(placement) || !complete(background) {
        let words = initialization_words(operation, placement, background);
        let end = "placement="@ + cleanup_words(placement) + ", background="@ + cleanup_words(
            background,
        );
        reveal_strlit("placement=");
        reveal_strlit("ownership cleanup after initialization failure: placement=");
        assert("ownership cleanup after initialization failure: placement="@.subrange(
            48,
            58,
        ) =~= "placement="@);
        assert(words.subrange(words.len() - end.len(), words.len() as int) =~= end);
    }
}

/// How a cleanup went is told in full: each number under its name, or what was
/// said of its failure.
pub proof fn cleanups_are_told_in_full(cleanup: CleanupResult)
    ensures
        cleanup matches CleanupResult::Done(report) ==> ("Ok(CleanupReport { attempted: "@
            + crate::text::decimal(report.attempted as nat) + ", cleared: "@
            + crate::text::decimal(report.cleared as nat) + ", failed: "@
            + crate::text::decimal(report.failed as nat)).is_prefix_of(cleanup_words(cleanup)),
        cleanup matches CleanupResult::Failed(said) ==> ("Err("@ + said@).is_prefix_of(
            cleanup_words(cleanup),
        ),
{
    let words = cleanup_words(cleanup);
    match cleanup {
        CleanupResult::Done(report) => {
            let start = "Ok(CleanupReport { attempted: "@ + crate::text::decimal(
                report.attempted as nat,
            ) + ", cleared: "@ + crate::text::decimal(report.cleared as nat) + ", failed: "@
                + crate::text::decimal(report.failed as nat);
            assert(words.subrange(0, start.len() as int) =~= start);
        },
        CleanupResult::Failed(said) => {
            let start = "Err("@ + said@;
            assert(words.subrange(0, start.len() as int) =~= start);
        },
    }
}

/// The steps of removing a service.
pub open spec fn removal_steps() -> Seq<RemovalStep> {
    seq![RemovalStep::Stop, RemovalStep::Delete, RemovalStep::AwaitAbsence]
}

/// A service is stopped before it is deleted, and its absence is waited for
/// last; each once.
pub proof fn services_are_removed_in_order(i: int, j: int)
    ensures
        removal_steps().no_duplicates(),
        removal_steps().contains(RemovalStep::Stop),
        removal_steps().contains(RemovalStep::Delete),
        removal_steps().contains(RemovalStep::AwaitAbsence),
        0 <= i < removal_steps().len() && 0 <= j < removal_steps().len() ==> {
            &&& removal_steps()[i] == RemovalStep::Stop && removal_steps()[j]
                == RemovalStep::Delete ==> i < j
            &&& removal_steps()[i] == RemovalStep::Delete && removal_steps()[j]
                == RemovalStep::AwaitAbsence ==> i < j
        },
{
    assert(removal_steps()[0] == RemovalStep::Stop);
    assert(removal_steps()[1] == RemovalStep::Delete);
    assert(removal_steps()[2] == RemovalStep::AwaitAbsence);
}

} // verus!
