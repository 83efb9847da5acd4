//! Giving everything back.
use vstd::prelude::*;

use crate::efficiency::apply_restore_report_to_record;
use crate::efficiency::ManagedBackgroundProcess;
use crate::efficiency::RestoreOutcome;
use crate::process::KeyMap;
use crate::process::ProcessKey;
use crate::text::push_decimal;

verus! {

/// How a cleanup went.
#[derive(Debug, Clone, Copy, PartialEq, Eq, Structural)]
pub struct CleanupReport {
    pub attempted: usize,
    pub cleared: usize,
    pub failed: usize,
}

/// How giving the properties of one process back went.
#[derive(Debug, Clone, Copy, PartialEq, Eq, Structural)]
pub enum RestoreAnswer {
    /// The record owned nothing, so nothing was tried.
    NotNeeded,
    Restored(RestoreOutcome),
    /// The process has ended, or its identifier belongs to another one.
    Gone,
    Failed,
}

/// How many of the flags are set.
pub open spec fn set_flags(flags: Seq<bool>) -> nat
    decreases flags.len(),
{
    if flags.len() == 0 {
        0
    } else {
        set_flags(flags.drop_last()) + if flags.last() {
            1nat
        } else {
            0nat
        }
    }
}

proof fn kept_and_dropped(entries: Seq<(ProcessKey, crate::journal::ManagedPlacement)>, keep: Seq<
    bool,
>)
    requires
        entries.len() == keep.len(),
    ensures
        crate::process::flagged(entries, keep).len() == set_flags(keep),
{
    kept_and_dropped_prefix(entries, keep, entries.len() as int);
    assert(keep.take(keep.len() as int) =~= keep);
    assert(entries.take(entries.len() as int) =~= entries);
}

proof fn kept_and_dropped_prefix(
    entries: Seq<(ProcessKey, crate::journal::ManagedPlacement)>,
    keep: Seq<bool>,
    n: int,
)
    requires
        0 <= n <= entries.len(),
        entries.len() <= keep.len(),
    ensures
        crate::process::flagged(entries.take(n), keep).len() == set_flags(keep.take(n)),
    decreases n,
{
    if n > 0 {
        kept_and_dropped_prefix(entries, keep, n - 1);
        assert(entries.take(n).drop_last() =~= entries.take(n - 1));
        assert(keep.take(n).drop_last() =~= keep.take(n - 1));
        assert(keep.take(n).last() == keep[n - 1]);
    } else {
        assert(entries.take(0).len() == 0);
    }
    assert(entries.take(n).len() == n);
}

/// Settles the cleanup of the placements: `cleared` says, in key order, for
/// which processes the placement was cleared or the process was gone. The
/// others stay, so that they are tried again.
pub fn finish_placement_cleanup(
    managed: &mut KeyMap<crate::journal::ManagedPlacement>,
    cleared: &Vec<bool>,
) -> (report: CleanupReport)
    requires
        old(managed).wf(),
        cleared.len() == old(managed).items().len(),
    ensures
        final(managed).wf(),
        final(managed).items() == crate::process::flagged(
            old(managed).items(),
            cleared@.map_values(|done: bool| !done),
        ),
        report.attempted == old(managed).items().len(),
        report.failed == final(managed).items().len(),
        report.cleared + report.failed == report.attempted,
{
    let mut keep: Vec<bool> = Vec::new();
    let ghost kept = cleared@.map_values(|done: bool| !done);
    let attempted: usize = cleared.len();
    let mut failed: usize = 0;
    let mut at: usize = 0;
    while at < cleared.len()
        invariant
            at <= cleared.len(),
            failed <= at,
            kept == cleared@.map_values(|done: bool| !done),
            keep@ == kept.take(at as int),
            failed == set_flags(kept.take(at as int)),
        decreases cleared.len() - at,
    {
        proof {
            assert(kept.take(at + 1).drop_last() =~= kept.take(at as int));
            assert(kept.take(at + 1).last() == !cleared@[at as int]);
        }
        keep.push(!cleared[at]);
        if !cleared[at] {
            failed = failed + 1;
        }
        at = at + 1;
    }
    proof {
        assert(kept.take(at as int) =~= kept);
        kept_and_dropped(managed.items(), kept);
    }
    managed.retain_flagged(&keep);
    CleanupReport { attempted, cleared: attempted - failed, failed }
}

/// What stays in the journal of a process once its properties were to be
/// given back.
pub open spec fn left_over(
    record: ManagedBackgroundProcess,
    answer: RestoreAnswer,
) -> Option<ManagedBackgroundProcess> {
    if record.ownership.is_empty() {
        None
    } else {
        match answer {
            RestoreAnswer::NotNeeded | RestoreAnswer::Failed => Some(record),
            RestoreAnswer::Gone => None,
            RestoreAnswer::Restored(outcome) => {
                if record.after_restore(outcome).ownership.is_empty() {
                    None
                } else {
                    Some(record.after_restore(outcome))
                }
            },
        }
    }
}

/// The journal after the first `n` entries were to be given back.
pub open spec fn cleaned(
    items: Seq<(ProcessKey, ManagedBackgroundProcess)>,
    answers: Seq<RestoreAnswer>,
    n: nat,
) -> Map<ProcessKey, ManagedBackgroundProcess>
    decreases n,
{
    if n == 0 {
        Map::empty()
    } else {
        let rest = cleaned(items, answers, (n - 1) as nat);
        match left_over(items[n - 1].1, answers[n - 1]) {
            Some(record) => rest.insert(items[n - 1].0, record),
            None => rest,
        }
    }
}

/// How many of the first `n` entries are left over.
pub open spec fn left_over_count(
    items: Seq<(ProcessKey, ManagedBackgroundProcess)>,
    answers: Seq<RestoreAnswer>,
    n: nat,
) -> nat
    decreases n,
{
    if n == 0 {
        0
    } else {
        left_over_count(items, answers, (n - 1) as nat) + if left_over(
            items[n - 1].1,
            answers[n - 1],
        ) is Some {
            1nat
        } else {
            0nat
        }
    }
}

fn settle_record(record: &ManagedBackgroundProcess, answer: &RestoreAnswer) -> (rest: Option<
    ManagedBackgroundProcess,
>)
    ensures
        rest == left_over(*record, *answer),
{
    if record.ownership.is_empty() {
        return None;
    }
    match answer {
        RestoreAnswer::NotNeeded | RestoreAnswer::Failed => Some(*record),
        RestoreAnswer::Gone => None,
        RestoreAnswer::Restored(outcome) => {
            let mut restored = *record;
            let _ = apply_restore_report_to_record(&mut restored, outcome);
            if restored.ownership.is_empty() {
                None
            } else {
                Some(restored)
            }
        },
    }
}

/// Settles the cleanup of the background policies: `answers` says, in key
/// order, how giving the properties back went. What could not be given back
/// stays, so that it is tried again.
pub fn finish_background_cleanup(
    journal: &mut KeyMap<ManagedBackgroundProcess>,
    answers: &Vec<RestoreAnswer>,
) -> (report: CleanupReport)
    requires
        old(journal).wf(),
        answers.len() == old(journal).items().len(),
    ensures
        final(journal).wf(),
        final(journal)@ == cleaned(old(journal).items(), answers@, answers.len() as nat),
        report.attempted == old(journal).items().len(),
        report.failed == left_over_count(old(journal).items(), answers@, answers.len() as nat),
        report.cleared + report.failed == report.attempted,
{
    let ghost items = journal.items();
    let mut rest: KeyMap<ManagedBackgroundProcess> = KeyMap::new();
    let mut failed: usize = 0;
    let mut at: usize = 0;
    while at < answers.len()
        invariant
            at <= answers.len(),
            answers.len() == items.len(),
            items == journal.items(),
            journal.wf(),
            rest.wf(),
            failed <= at,
            rest@ == cleaned(items, answers@, at as nat),
            failed == left_over_count(items, answers@, at as nat),
        decreases answers.len() - at,
    {
        proof {
            reveal_with_fuel(cleaned, 2);
            reveal_with_fuel(left_over_count, 2);
        }
        match settle_record(journal.value_at(at), &answers[at]) {
            Some(record) => {
                rest.insert(journal.key_at(at), record);
                failed = failed + 1;
            },
            None => {},
        }
        at = at + 1;
    }
    let attempted: usize = answers.len();
    *journal = rest;
    CleanupReport { attempted, cleared: attempted - failed, failed }
}

/// The message for an incomplete cleanup.
pub open spec fn cleanup_error_words(placement: CleanupReport, background: CleanupReport) -> Option<
    Seq<char>,
> {
    if placement.failed != 0 || background.failed != 0 {
        Some(
            "failed to restore "@ + crate::text::decimal(placement.failed as nat)
                + " CPU Set assignment(s) and "@ + crate::text::decimal(background.failed as nat)
                + " background policy state(s); retry pending"@,
        )
    } else {
        None
    }
}

/// Describes an incomplete cleanup.
pub fn combined_cleanup_error(placement: CleanupReport, background: CleanupReport) -> (error:
    Option<String>)
    ensures
        error.deep_view() == cleanup_error_words(placement, background),
{
    if placement.failed == 0 && background.failed == 0 {
        return None;
    }
    let mut text = "failed to restore ".to_owned();
    push_decimal(&mut text, placement.failed as u64);
    text.append(" CPU Set assignment(s) and ");
    push_decimal(&mut text, background.failed as u64);
    text.append(" background policy state(s); retry pending");
    Some(text)
}

/// What is left of a sound journal is sound, where each restore left over
/// only what it was asked to restore.
pub proof fn cleanup_keeps_journals_sound(
    journal: KeyMap<ManagedBackgroundProcess>,
    answers: Seq<RestoreAnswer>,
    n: nat,
)
    requires
        journal.wf(),
        crate::journal::sound_journal(journal@),
        answers.len() == journal.items().len(),
        n <= answers.len(),
        forall|i: int, outcome: RestoreOutcome|
            0 <= i < answers.len() && #[trigger] answers[i] == RestoreAnswer::Restored(outcome)
                ==> #[trigger] outcome.fits(journal.items()[i].1.ownership),
    ensures
        crate::journal::sound_journal(cleaned(journal.items(), answers, n)),
    decreases n,
{
    if n > 0 {
        cleanup_keeps_journals_sound(journal, answers, (n - 1) as nat);
        journal.items_are_the_map();
        let item = journal.items()[n - 1];
        assert(journal@.dom().contains(item.0) && journal@[item.0] == item.1);
        if let RestoreAnswer::Restored(outcome) = answers[n - 1] {
            assert(outcome.fits(item.1.ownership));
        }
    }
}

/// A cleanup without failures leaves no background policy behind.
pub proof fn complete_cleanup_leaves_nothing(
    items: Seq<(ProcessKey, ManagedBackgroundProcess)>,
    answers: Seq<RestoreAnswer>,
    n: nat,
)
    requires
        left_over_count(items, answers, n) == 0,
    ensures
        cleaned(items, answers, n) == Map::<ProcessKey, ManagedBackgroundProcess>::empty(),
    decreases n,
{
    if n > 0 {
        complete_cleanup_leaves_nothing(items, answers, (n - 1) as nat);
    }
}

/// What could not be given back stays in the journal, with what is still owed.
pub proof fn failed_restores_are_kept(
    journal: KeyMap<ManagedBackgroundProcess>,
    answers: Seq<RestoreAnswer>,
    n: nat,
    i: int,
)
    requires
        journal.wf(),
        answers.len() == journal.items().len(),
        0 <= i < n <= answers.len(),
        !journal.items()[i].1.ownership.is_empty(),
        answers[i] is Failed,
    ensures
        cleaned(journal.items(), answers, n).dom().contains(journal.items()[i].0),
        cleaned(journal.items(), answers, n)[journal.items()[i].0] == journal.items()[i].1,
    decreases n,
{
    let items = journal.items();
    if i < n - 1 {
        failed_restores_are_kept(journal, answers, (n - 1) as nat, i);
        journal.items_are_the_map();
        assert(items[i].0.before(items[n - 1].0));
    }
}

/// A process stays in the journal with what is still owed to it: nothing where
/// it owned nothing, has ended or got everything back, all of it where giving
/// back failed, and what a restore left over where it was incomplete.
pub proof fn what_is_owed_is_left_over(record: ManagedBackgroundProcess, answer: RestoreAnswer)
    ensures
        ({
            let left = left_over(record, answer);
            &&& record.ownership.is_empty() ==> left is None
            &&& answer is Gone ==> left is None
            &&& !record.ownership.is_empty() && answer is Failed ==> left == Some(record)
            &&& !record.ownership.is_empty() && answer is NotNeeded ==> left == Some(record)
            &&& left matches Some(rest) ==> !rest.ownership.is_empty()
            &&& answer matches RestoreAnswer::Restored(outcome) ==> {
                let rest = record.after_restore(outcome);
                &&& left is Some ==> left == Some(rest)
                &&& !record.ownership.is_empty() && !rest.ownership.is_empty() ==> left is Some
                &&& rest.ownership.is_empty() ==> left is None
            }
        }),
{
}

/// A failure is told exactly where something could not be given back, first
/// how many placements and then how many background policies.
pub proof fn incomplete_cleanups_are_told(placement: CleanupReport, background: CleanupReport)
    ensures
        ({
            let words = cleanup_error_words(placement, background);
            &&& words is Some <==> placement.failed + background.failed > 0
            &&& words matches Some(words) ==> ("failed to restore "@ + crate::text::decimal(
                placement.failed as nat,
            ) + " CPU Set assignment(s) and "@ + crate::text::decimal(
                background.failed as nat,
            )).is_prefix_of(words)
        }),
{
    if placement.failed != 0 || background.failed != 0 {
        let words = cleanup_error_words(placement, background)->0;
        let start = "failed to restore "@ + crate::text::decimal(placement.failed as nat)
            + " CPU Set assignment(s) and "@ + crate::text::decimal(background.failed as nat);
        assert(words.subrange(0, start.len() as int) =~= start);
    }
}

/// What a cleanup leaves in the journal is what it could not give back, and
/// each of it was there before.
pub proof fn cleanups_add_nothing(
    items: Seq<(ProcessKey, ManagedBackgroundProcess)>,
    answers: Seq<RestoreAnswer>,
    n: nat,
    key: ProcessKey,
)
    requires
        cleaned(items, answers, n).dom().contains(key),
    ensures
        exists|i: int|
            0 <= i < n && (#[trigger] items[i]).0 == key && left_over(items[i].1, answers[i])
                is Some,
    decreases n,
{
    if n > 0 {
        if left_over(items[n - 1].1, answers[n - 1]) is Some && items[n - 1].0 == key {
        } else {
            cleanups_add_nothing(items, answers, (n - 1) as nat, key);
        }
    }
}

/// Flags are counted one by one.
pub proof fn flags_are_counted(flags: Seq<bool>, flag: bool)
    ensures
        set_flags(flags.push(flag)) == set_flags(flags) + if flag {
            1nat
        } else {
            0nat
        },
        set_flags(Seq::empty()) == 0,
        set_flags(flags) <= flags.len(),
    decreases flags.len(),
{
    assert(flags.push(flag).drop_last() =~= flags);
    if flags.len() > 0 {
        flags_are_counted(flags.drop_last(), flags.last());
        assert(flags.drop_last().push(flags.last()) =~= flags);
    }
}

} // verus!
