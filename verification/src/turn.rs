//! What happens to the background policy of one process in one evaluation.
//!
//! The outside work (reading, setting and restoring the efficiency state of a
//! process, writing the journal) is done by the caller. A [`BackgroundTurn`]
//! says what to do next and is told how it went.
use vstd::prelude::*;

use crate::efficiency::configured_background_ownership;
use crate::efficiency::desired_background_state;
use crate::efficiency::external_override_mask;
use crate::efficiency::rebase_unowned_efficiency;
use crate::efficiency::relinquish_external_overrides;
use crate::efficiency::apply_restore_report_to_record;
use crate::efficiency::BackgroundPolicy;
use crate::efficiency::EfficiencyProperty;
use crate::efficiency::ManagedBackgroundProcess;
use crate::efficiency::ProcessEfficiencyOwnership;
use crate::efficiency::ProcessEfficiencyState;
use crate::efficiency::RestoreOutcome;
use crate::process::ProcessKey;
use crate::protection::BackgroundProtection;

verus! {

/// In how many evaluations in a row a process must be free of protection
/// before a policy is applied to it.
pub const BACKGROUND_CLEAR_STABILITY_SAMPLES: u8 = 2;

/// What holds of a process throughout its turn.
#[derive(Debug, Clone, Copy, PartialEq, Eq, Structural)]
pub struct TurnFacts {
    pub key: ProcessKey,
    pub policy: BackgroundPolicy,
    pub low_memory: bool,
    /// A rule names this image for background efficiency, and the process is
    /// neither excluded nor outside the signed-in sessions.
    pub exact_background: bool,
    pub protection: Option<BackgroundProtection>,
    pub mutations_active: bool,
}

impl TurnFacts {
    /// Whether the policy may be applied to the process.
    pub open spec fn policy_allowed(self) -> bool {
        self.exact_background && self.protection is None && self.mutations_active
    }

    /// Whether the policy is only put off by a protection.
    pub open spec fn put_off(self) -> bool {
        self.exact_background && self.mutations_active && self.protection is Some
    }

    /// Whether the policy may be applied to the process.
    pub fn desired_allowed(&self) -> (allowed: bool)
        ensures
            allowed == self.policy_allowed(),
    {
        self.exact_background && self.protection.is_none() && self.mutations_active
    }

    /// Whether the policy is only put off by a protection.
    pub fn transient_protection(&self) -> (transient: bool)
        ensures
            transient == self.put_off(),
    {
        self.exact_background && self.mutations_active && self.protection.is_some()
    }
}

/// What the caller answers to [`TurnAction::Query`].
#[derive(Debug, Clone, Copy, PartialEq, Eq, Structural)]
pub enum QueryAnswer {
    Known(ProcessEfficiencyState),
    /// The process has ended, or its identifier belongs to another one.
    Gone,
    Failed,
}

/// What the caller answers to [`TurnAction::Apply`].
#[derive(Debug, Clone, Copy, PartialEq, Eq, Structural)]
pub enum ApplyAnswer {
    Applied(ProcessEfficiencyState),
    /// A property did not have the value it was expected to be changed from.
    OwnershipChanged,
    Failed,
}

/// How the outside work went.
#[derive(Debug, Clone, Copy, PartialEq, Eq, Structural)]
pub enum TurnEvent {
    Queried(QueryAnswer),
    Saved,
    Restored(Option<RestoreOutcome>),
    Applied(ApplyAnswer),
}

/// What the caller has to do next.
#[derive(Debug, Clone, Copy, PartialEq, Eq, Structural)]
pub enum TurnAction {
    /// Read the efficiency state of the process.
    Query,
    /// Write the journal.
    Save,
    /// Give the properties of `ownership` back.
    Restore {
        original: ProcessEfficiencyState,
        applied: ProcessEfficiencyState,
        ownership: ProcessEfficiencyOwnership,
        pending: Option<ProcessEfficiencyState>,
    },
    /// Change the properties of `ownership` from `current` to `desired`.
    Apply {
        current: ProcessEfficiencyState,
        desired: ProcessEfficiencyState,
        ownership: ProcessEfficiencyOwnership,
    },
    /// Nothing: the turn is over.
    Finish,
}

/// What there is to report.
#[derive(Debug, Clone, Copy, PartialEq, Eq, Structural)]
pub enum TurnNote {
    Nothing,
    QueryFailed,
    RecheckFailed,
    PendingRecovered { externally_overridden: ProcessEfficiencyOwnership },
    RecoveryFailed,
    ExternalOverride {
        relinquished: ProcessEfficiencyOwnership,
        observed: ProcessEfficiencyState,
    },
    Released { complete: bool, externally_overridden: ProcessEfficiencyOwnership },
    ReleaseFailed,
    Updated,
    UpdateFailed,
    Unsupported,
    AppliedNew,
    ApplyFailed,
}

/// What the turn waits for.
#[derive(Debug, Clone, Copy, PartialEq, Eq, Structural)]
pub enum TurnStage {
    /// For the present state of a process in the journal.
    Recover,
    /// For the journal with a settled transaction.
    SaveSettled,
    /// For the present state, once a transaction is settled.
    Recheck,
    /// For the restore of an unsettled transaction.
    RestorePending,
    /// For the journal with the given-up properties.
    SaveOverride { current: ProcessEfficiencyState, changed: ProcessEfficiencyOwnership },
    /// For the restore of a process that the policy no longer covers.
    Release,
    /// For the journal that announces an update.
    SaveUpdate {
        desired: ProcessEfficiencyState,
        desired_ownership: ProcessEfficiencyOwnership,
        prior_ownership: ProcessEfficiencyOwnership,
    },
    /// For an update.
    ApplyUpdate {
        desired_ownership: ProcessEfficiencyOwnership,
        prior_ownership: ProcessEfficiencyOwnership,
    },
    /// For the present state after an update met a changed property.
    ExplainUpdate { prior_ownership: ProcessEfficiencyOwnership },
    /// For the present state of a process that is not in the journal.
    QueryNew,
    /// For the journal that announces a first application.
    SaveNew { desired: ProcessEfficiencyState },
    /// For a first application.
    ApplyNew,
    /// For the present state after a first application failed.
    ExplainNew { ownership_changed: bool },
    /// For the journal, with which the turn ends.
    SaveLast { note: TurnNote },
    Over,
}

/// One process in one evaluation.
#[derive(Debug, Clone, Copy, PartialEq, Eq, Structural)]
pub struct BackgroundTurn {
    pub facts: TurnFacts,
    /// The entry of the process in the journal.
    pub record: Option<ManagedBackgroundProcess>,
    /// In how many evaluations in a row the process was free of protection.
    pub streak: Option<u8>,
    /// How many more changes this evaluation may make.
    pub budget: usize,
    pub stage: TurnStage,
}

/// A turn, what to do next, and what to report.
pub struct TurnStep {
    pub turn: BackgroundTurn,
    pub action: TurnAction,
    pub note: TurnNote,
}

impl BackgroundTurn {
    /// Whether the process has been free of protection for long enough.
    pub open spec fn stable(self) -> bool {
        self.streak matches Some(streak) && streak >= BACKGROUND_CLEAR_STABILITY_SAMPLES
    }

    /// Whether `event` answers what the turn waits for.
    pub open spec fn awaits(self, event: TurnEvent) -> bool {
        match self.stage {
            TurnStage::Recover
            | TurnStage::Recheck
            | TurnStage::ExplainUpdate { .. }
            | TurnStage::QueryNew
            | TurnStage::ExplainNew { .. } => event is Queried,
            TurnStage::SaveSettled
            | TurnStage::SaveOverride { .. }
            | TurnStage::SaveUpdate { .. }
            | TurnStage::SaveNew { .. }
            | TurnStage::SaveLast { .. } => event is Saved,
            TurnStage::RestorePending | TurnStage::Release => event is Restored,
            TurnStage::ApplyUpdate { .. } | TurnStage::ApplyNew => event is Applied,
            TurnStage::Over => false,
        }
    }

    /// The turn with the journal entry `record`, once the journal is written
    /// and then at its end.
    pub open spec fn saving(
        self,
        record: Option<ManagedBackgroundProcess>,
        note: TurnNote,
    ) -> TurnStep {
        TurnStep {
            turn: BackgroundTurn { record, stage: TurnStage::SaveLast { note }, ..self },
            action: TurnAction::Save,
            note: TurnNote::Nothing,
        }
    }

    /// The end of the turn.
    pub open spec fn over(self, note: TurnNote) -> TurnStep {
        TurnStep {
            turn: BackgroundTurn { stage: TurnStage::Over, ..self },
            action: TurnAction::Finish,
            note,
        }
    }

    /// The turn in another stage.
    pub open spec fn at(self, stage: TurnStage, action: TurnAction) -> TurnStep {
        TurnStep { turn: BackgroundTurn { stage, ..self }, action, note: TurnNote::Nothing }
    }

    /// The start of a turn.
    pub open spec fn started(self) -> TurnStep {
        if self.record is Some {
            self.at(TurnStage::Recover, TurnAction::Query)
        } else if self.facts.policy_allowed() && self.stable() && self.budget > 0 {
            self.at(TurnStage::QueryNew, TurnAction::Query)
        } else {
            self.over(TurnNote::Nothing)
        }
    }

    /// The properties that the policy would own of a process that goes back
    /// to `original`.
    pub open spec fn wanted(
        self,
        original: ProcessEfficiencyState,
        blocked: ProcessEfficiencyOwnership,
    ) -> ProcessEfficiencyOwnership {
        ProcessEfficiencyOwnership::between(
            original,
            desired_background_state(self.facts.policy, original, self.facts.low_memory),
        ).intersection(configured_background_ownership(self.facts.policy)).without(blocked)
    }

    /// What follows for a process in the journal without a transaction, whose
    /// owned properties have the expected values.
    pub open spec fn judged(self, current: ProcessEfficiencyState) -> TurnStep {
        let record = self.record->0;
        if !self.facts.policy_allowed() {
            if !record.ownership.is_empty() {
                self.at(
                    TurnStage::Release,
                    TurnAction::Restore {
                        original: record.original,
                        applied: record.applied,
                        ownership: record.ownership,
                        pending: None,
                    },
                )
            } else if !self.facts.put_off() || record.blocked_by_external_override.is_empty() {
                self.saving(None, TurnNote::Nothing)
            } else {
                self.saving(Some(record), TurnNote::Nothing)
            }
        } else {
            let rebased = record.rebased(current);
            let desired = desired_background_state(
                self.facts.policy,
                rebased.original,
                self.facts.low_memory,
            );
            let wanted = self.wanted(rebased.original, rebased.blocked_by_external_override);
            let transaction = rebased.ownership.union(wanted);
            if transaction.is_empty() {
                BackgroundTurn { record: Some(rebased), ..self }.over(TurnNote::Nothing)
            } else if transaction.matches(desired, rebased.applied) && rebased.ownership
                == wanted {
                self.over(TurnNote::Nothing)
            } else if rebased.ownership.is_empty() && !self.stable() {
                self.over(TurnNote::Nothing)
            } else if self.budget == 0 {
                self.over(TurnNote::Nothing)
            } else {
                let announced = ManagedBackgroundProcess {
                    pending: Some(desired),
                    pending_ownership: Some(wanted),
                    ownership: transaction,
                    ..rebased
                };
                BackgroundTurn { record: Some(announced), ..self }.at(
                    TurnStage::SaveUpdate {
                        desired,
                        desired_ownership: wanted,
                        prior_ownership: rebased.ownership,
                    },
                    TurnAction::Save,
                )
            }
        }
    }

    /// What follows for a process in the journal without a transaction: first
    /// the owned properties that something else changed are given up.
    pub open spec fn examined(self, current: ProcessEfficiencyState) -> TurnStep {
        let record = self.record->0;
        let changed = external_override_mask(record.applied, current, record.ownership);
        if changed.is_empty() {
            self.judged(current)
        } else {
            BackgroundTurn {
                record: Some(record.relinquished(current, changed)),
                streak: None,
                ..self
            }.at(TurnStage::SaveOverride { current, changed }, TurnAction::Save)
        }
    }

    /// What follows for a process with an announced change, which may or may
    /// not have happened.
    pub open spec fn recovered(
        self,
        pending: ProcessEfficiencyState,
        current: ProcessEfficiencyState,
    ) -> TurnStep {
        let record = self.record->0;
        if record.ownership.is_empty() {
            self.saving(Some(record.settled().rebased(current)), TurnNote::Nothing)
        } else if record.ownership.matches(pending, current) {
            let finished = ManagedBackgroundProcess {
                applied: current,
                ownership: match record.pending_ownership {
                    Some(ownership) => ownership,
                    None => ProcessEfficiencyOwnership::between(record.original, pending),
                },
                ..record.settled()
            };
            BackgroundTurn { record: Some(finished.rebased(current)), ..self }.at(
                TurnStage::SaveSettled,
                TurnAction::Save,
            )
        } else if record.ownership.matches(record.applied, current) {
            let abandoned = ManagedBackgroundProcess {
                ownership: ProcessEfficiencyOwnership::between(
                    record.original,
                    record.applied,
                ).without(record.blocked_by_external_override),
                ..record.settled()
            };
            BackgroundTurn { record: Some(abandoned.rebased(current)), ..self }.at(
                TurnStage::SaveSettled,
                TurnAction::Save,
            )
        } else {
            self.at(
                TurnStage::RestorePending,
                TurnAction::Restore {
                    original: record.original,
                    applied: record.applied,
                    ownership: record.ownership,
                    pending: record.pending,
                },
            )
        }
    }

    /// What follows once the state of a process is read.
    pub open spec fn on_query(self, answer: QueryAnswer) -> TurnStep {
        let record = self.record->0;
        match self.stage {
            TurnStage::Recover => match answer {
                QueryAnswer::Failed => self.over(TurnNote::QueryFailed),
                QueryAnswer::Gone => self.saving(None, TurnNote::Nothing),
                QueryAnswer::Known(current) => match record.pending {
                    Some(pending) => self.recovered(pending, current),
                    None => self.examined(current),
                },
            },
            TurnStage::Recheck => match answer {
                QueryAnswer::Known(current) => self.examined(current),
                _ => self.over(TurnNote::RecheckFailed),
            },
            TurnStage::ExplainUpdate { prior_ownership } => match answer {
                QueryAnswer::Known(current) => {
                    let changed = external_override_mask(
                        record.applied,
                        current,
                        record.ownership,
                    );
                    let given_up = ManagedBackgroundProcess {
                        ownership: prior_ownership,
                        ..record.settled()
                    }.relinquished(current, changed).rebased(current);
                    BackgroundTurn { streak: None, ..self }.saving(
                        Some(given_up),
                        TurnNote::Nothing,
                    )
                },
                _ => self.over(TurnNote::Nothing),
            },
            TurnStage::QueryNew => match answer {
                QueryAnswer::Known(original) => {
                    let wanted = self.wanted(original, crate::efficiency::no_property());
                    let desired = desired_background_state(
                        self.facts.policy,
                        original,
                        self.facts.low_memory,
                    );
                    if wanted.is_empty() {
                        self.over(TurnNote::Nothing)
                    } else {
                        let announced = ManagedBackgroundProcess {
                            key: self.facts.key,
                            original,
                            applied: original,
                            ownership: wanted,
                            pending: Some(desired),
                            pending_ownership: Some(wanted),
                            blocked_by_external_override: crate::efficiency::no_property(),
                        };
                        BackgroundTurn { record: Some(announced), ..self }.at(
                            TurnStage::SaveNew { desired },
                            TurnAction::Save,
                        )
                    }
                },
                _ => self.over(TurnNote::Unsupported),
            },
            TurnStage::ExplainNew { ownership_changed } => match answer {
                QueryAnswer::Known(current) => {
                    if ownership_changed {
                        let given_up = ManagedBackgroundProcess {
                            original: current,
                            applied: current,
                            ownership: crate::efficiency::no_property(),
                            blocked_by_external_override: external_override_mask(
                                record.original,
                                current,
                                record.ownership,
                            ),
                            ..record.settled()
                        };
                        BackgroundTurn { streak: None, ..self }.saving(
                            Some(given_up),
                            TurnNote::Nothing,
                        )
                    } else if record.ownership.matches(record.original, current) {
                        self.saving(None, TurnNote::Nothing)
                    } else {
                        self.over(TurnNote::Nothing)
                    }
                },
                _ => self.over(TurnNote::Nothing),
            },
            _ => self.over(TurnNote::Nothing),
        }
    }

    /// What follows once the journal is written.
    pub open spec fn on_save(self) -> TurnStep {
        let record = self.record->0;
        match self.stage {
            TurnStage::SaveSettled => self.at(TurnStage::Recheck, TurnAction::Query),
            TurnStage::SaveOverride { current, changed } => {
                let step = self.judged(current);
                TurnStep {
                    note: TurnNote::ExternalOverride { relinquished: changed, observed: current },
                    ..step
                }
            },
            TurnStage::SaveUpdate { desired, desired_ownership, prior_ownership } => {
                BackgroundTurn { budget: (self.budget - 1) as usize, ..self }.at(
                    TurnStage::ApplyUpdate { desired_ownership, prior_ownership },
                    TurnAction::Apply {
                        current: record.applied,
                        desired,
                        ownership: record.ownership,
                    },
                )
            },
            TurnStage::SaveNew { desired } => {
                BackgroundTurn { budget: (self.budget - 1) as usize, ..self }.at(
                    TurnStage::ApplyNew,
                    TurnAction::Apply {
                        current: record.applied,
                        desired,
                        ownership: record.ownership,
                    },
                )
            },
            TurnStage::SaveLast { note } => self.over(note),
            _ => self.over(TurnNote::Nothing),
        }
    }

    /// What follows once a restore was tried.
    pub open spec fn on_restore(self, outcome: Option<RestoreOutcome>) -> TurnStep {
        let record = self.record->0;
        match self.stage {
            TurnStage::RestorePending => match outcome {
                Some(outcome) => self.saving(
                    Some(record.after_restore(outcome)),
                    TurnNote::PendingRecovered {
                        externally_overridden: outcome.externally_preserved(),
                    },
                ),
                None => self.over(TurnNote::RecoveryFailed),
            },
            TurnStage::Release => match outcome {
                Some(outcome) => {
                    let restored = record.after_restore(outcome);
                    let kept = !restored.ownership.is_empty() || (self.facts.put_off()
                        && !restored.blocked_by_external_override.is_empty());
                    self.saving(
                        if kept {
                            Some(restored)
                        } else {
                            None
                        },
                        TurnNote::Released {
                            complete: restored.ownership.is_empty(),
                            externally_overridden: outcome.externally_preserved(),
                        },
                    )
                },
                None => self.over(TurnNote::ReleaseFailed),
            },
            _ => self.over(TurnNote::Nothing),
        }
    }

    /// What follows once a change was tried.
    pub open spec fn on_apply(self, answer: ApplyAnswer) -> TurnStep {
        let record = self.record->0;
        match self.stage {
            TurnStage::ApplyUpdate { desired_ownership, prior_ownership } => match answer {
                ApplyAnswer::Applied(observed) => self.saving(
                    Some(
                        ManagedBackgroundProcess {
                            applied: observed,
                            ownership: desired_ownership,
                            ..record.settled()
                        }.rebased(observed),
                    ),
                    TurnNote::Updated,
                ),
                ApplyAnswer::OwnershipChanged => {
                    let step = self.at(
                        TurnStage::ExplainUpdate { prior_ownership },
                        TurnAction::Query,
                    );
                    TurnStep { note: TurnNote::UpdateFailed, ..step }
                },
                ApplyAnswer::Failed => self.over(TurnNote::UpdateFailed),
            },
            TurnStage::ApplyNew => match answer {
                ApplyAnswer::Applied(observed) => self.saving(
                    Some(
                        ManagedBackgroundProcess {
                            applied: observed,
                            ..record.settled()
                        }.rebased(observed),
                    ),
                    TurnNote::AppliedNew,
                ),
                _ => {
                    let step = self.at(
                        TurnStage::ExplainNew {
                            ownership_changed: answer is OwnershipChanged,
                        },
                        TurnAction::Query,
                    );
                    TurnStep { note: TurnNote::ApplyFailed, ..step }
                },
            },
            _ => self.over(TurnNote::Nothing),
        }
    }

    /// What follows `event`.
    #[verifier::opaque]
    pub open spec fn follows(self, event: TurnEvent) -> TurnStep {
        match event {
            TurnEvent::Queried(answer) => self.on_query(answer),
            TurnEvent::Saved => self.on_save(),
            TurnEvent::Restored(outcome) => self.on_restore(outcome),
            TurnEvent::Applied(answer) => self.on_apply(answer),
        }
    }

    /// Whether the journal entry is valid and of the process.
    pub open spec fn sound(self) -> bool {
        self.record matches Some(record) ==> record.valid() && record.key == self.facts.key
    }

    /// What the stages keep: what is announced is in the journal entry, and a
    /// change is only ever announced where the policy is allowed and the
    /// budget lasts.
    #[verifier::opaque]
    pub open spec fn wf(self) -> bool {
        &&& match self.stage {
            TurnStage::Over | TurnStage::SaveLast { .. } | TurnStage::QueryNew => true,
            _ => self.record is Some,
        }
        &&& match self.stage {
            TurnStage::Recheck
            | TurnStage::SaveSettled
            | TurnStage::SaveOverride { .. }
            | TurnStage::Release => (self.record->0).pending is None,
            _ => true,
        }
        &&& match self.stage {
            TurnStage::Release => !self.facts.policy_allowed(),
            TurnStage::QueryNew => self.facts.policy_allowed() && self.stable() && self.budget > 0,
            TurnStage::SaveUpdate { desired, desired_ownership, prior_ownership } => {
                &&& self.facts.policy_allowed()
                &&& self.budget > 0
                &&& prior_ownership.is_empty() ==> self.stable()
                &&& (self.record->0).pending == Some(desired)
                &&& (self.record->0).pending_ownership == Some(desired_ownership)
                &&& (self.record->0).ownership == prior_ownership.union(desired_ownership)
                &&& desired_ownership.within(
                    configured_background_ownership(self.facts.policy),
                )
            },
            TurnStage::SaveNew { desired } => {
                &&& self.facts.policy_allowed()
                &&& self.budget > 0
                &&& self.stable()
                &&& (self.record->0).pending == Some(desired)
                &&& (self.record->0).pending_ownership == Some((self.record->0).ownership)
                &&& (self.record->0).blocked_by_external_override.is_empty()
                &&& (self.record->0).ownership.within(
                    configured_background_ownership(self.facts.policy),
                )
            },
            TurnStage::ApplyUpdate { desired_ownership, prior_ownership } => {
                &&& (self.record->0).pending_ownership == Some(desired_ownership)
                &&& (self.record->0).ownership == prior_ownership.union(desired_ownership)
            },
            TurnStage::ExplainUpdate { prior_ownership } => {
                prior_ownership.within((self.record->0).ownership)
            },
            TurnStage::ApplyNew | TurnStage::ExplainNew { .. } => {
                (self.record->0).blocked_by_external_override.is_empty()
            },
            _ => true,
        }
    }

    /// Whether `event` can have happened: a restore leaves over only what it
    /// was asked to restore.
    pub open spec fn plausible(self, event: TurnEvent) -> bool {
        event matches TurnEvent::Restored(Some(outcome)) ==> (self.record matches Some(record)
            ==> outcome.fits(record.ownership))
    }
}

impl BackgroundTurn {
    /// Whether the process has been free of protection for long enough.
    fn is_stable(&self) -> (stable: bool)
        ensures
            stable == self.stable(),
    {
        match self.streak {
            Some(streak) => streak >= BACKGROUND_CLEAR_STABILITY_SAMPLES,
            None => false,
        }
    }

    fn save_last(&mut self, record: Option<ManagedBackgroundProcess>, note: TurnNote) -> (reply: (
        TurnAction,
        TurnNote,
    ))
        ensures
            *final(self) == old(self).saving(record, note).turn,
            reply.0 == old(self).saving(record, note).action,
            reply.1 == old(self).saving(record, note).note,
    {
        self.record = record;
        self.stage = TurnStage::SaveLast { note };
        (TurnAction::Save, TurnNote::Nothing)
    }

    fn end(&mut self, note: TurnNote) -> (reply: (TurnAction, TurnNote))
        ensures
            *final(self) == old(self).over(note).turn,
            reply.0 == TurnAction::Finish,
            reply.1 == note,
    {
        self.stage = TurnStage::Over;
        (TurnAction::Finish, note)
    }

    /// Begins the turn.
    pub fn start(&mut self) -> (action: TurnAction)
        ensures
            *final(self) == old(self).started().turn,
            action == old(self).started().action,
    {
        if self.record.is_some() {
            self.stage = TurnStage::Recover;
            TurnAction::Query
        } else if self.facts.desired_allowed() && self.is_stable() && self.budget > 0 {
            self.stage = TurnStage::QueryNew;
            TurnAction::Query
        } else {
            self.stage = TurnStage::Over;
            TurnAction::Finish
        }
    }

    fn judge(
        &mut self,
        record: ManagedBackgroundProcess,
        current: ProcessEfficiencyState,
    ) -> (reply: (TurnAction, TurnNote))
        requires
            old(self).record == Some(record),
        ensures
            *final(self) == old(self).judged(current).turn,
            reply.0 == old(self).judged(current).action,
            reply.1 == old(self).judged(current).note,
    {
        if !self.facts.desired_allowed() {
            if record.ownership.is_empty() {
                let kept = if !self.facts.transient_protection()
                    || record.blocked_by_external_override.is_empty() {
                    None
                } else {
                    Some(record)
                };
                return self.save_last(kept, TurnNote::Nothing);
            }
            self.stage = TurnStage::Release;
            return (
                TurnAction::Restore {
                    original: record.original,
                    applied: record.applied,
                    ownership: record.ownership,
                    pending: None,
                },
                TurnNote::Nothing,
            );
        }
        let mut rebased = record;
        rebase_unowned_efficiency(&mut rebased, current);
        let desired = desired_background_state(
            self.facts.policy,
            rebased.original,
            self.facts.low_memory,
        );
        let desired_ownership = ProcessEfficiencyOwnership::between(
            rebased.original,
            desired,
        ).intersection(configured_background_ownership(self.facts.policy)).without(
            rebased.blocked_by_external_override,
        );
        let prior_ownership = rebased.ownership;
        let transaction_ownership = prior_ownership.union(desired_ownership);
        if transaction_ownership.is_empty() {
            self.record = Some(rebased);
            return self.end(TurnNote::Nothing);
        }
        if transaction_ownership.matches(desired, rebased.applied) && prior_ownership
            == desired_ownership {
            return self.end(TurnNote::Nothing);
        }
        if prior_ownership.is_empty() && !self.is_stable() {
            return self.end(TurnNote::Nothing);
        }
        if self.budget == 0 {
            return self.end(TurnNote::Nothing);
        }
        rebased.pending = Some(desired);
        rebased.pending_ownership = Some(desired_ownership);
        rebased.ownership = transaction_ownership;
        self.record = Some(rebased);
        self.stage = TurnStage::SaveUpdate { desired, desired_ownership, prior_ownership };
        (TurnAction::Save, TurnNote::Nothing)
    }

    fn examine(
        &mut self,
        record: ManagedBackgroundProcess,
        current: ProcessEfficiencyState,
    ) -> (reply: (TurnAction, TurnNote))
        requires
            old(self).record == Some(record),
        ensures
            *final(self) == old(self).examined(current).turn,
            reply.0 == old(self).examined(current).action,
            reply.1 == old(self).examined(current).note,
    {
        let changed = external_override_mask(record.applied, current, record.ownership);
        if changed.is_empty() {
            return self.judge(record, current);
        }
        let mut given_up = record;
        relinquish_external_overrides(&mut given_up, current, changed);
        self.record = Some(given_up);
        self.streak = None;
        self.stage = TurnStage::SaveOverride { current, changed };
        (TurnAction::Save, TurnNote::Nothing)
    }

    fn recover(
        &mut self,
        record: ManagedBackgroundProcess,
        pending: ProcessEfficiencyState,
        current: ProcessEfficiencyState,
    ) -> (reply: (TurnAction, TurnNote))
        requires
            old(self).record == Some(record),
        ensures
            *final(self) == old(self).recovered(pending, current).turn,
            reply.0 == old(self).recovered(pending, current).action,
            reply.1 == old(self).recovered(pending, current).note,
    {
        let mut settled = record;
        settled.pending = None;
        settled.pending_ownership = None;
        if record.ownership.is_empty() {
            rebase_unowned_efficiency(&mut settled, current);
            return self.save_last(Some(settled), TurnNote::Nothing);
        }
        if record.ownership.matches(pending, current) {
            settled.applied = current;
            settled.ownership = match record.pending_ownership {
                Some(ownership) => ownership,
                None => ProcessEfficiencyOwnership::between(record.original, pending),
            };
            rebase_unowned_efficiency(&mut settled, current);
            self.record = Some(settled);
            self.stage = TurnStage::SaveSettled;
            (TurnAction::Save, TurnNote::Nothing)
        } else if record.ownership.matches(record.applied, current) {
            settled.ownership = ProcessEfficiencyOwnership::between(
                record.original,
                record.applied,
            ).without(record.blocked_by_external_override);
            rebase_unowned_efficiency(&mut settled, current);
            self.record = Some(settled);
            self.stage = TurnStage::SaveSettled;
            (TurnAction::Save, TurnNote::Nothing)
        } else {
            self.stage = TurnStage::RestorePending;
            (
                TurnAction::Restore {
                    original: record.original,
                    applied: record.applied,
                    ownership: record.ownership,
                    pending: record.pending,
                },
                TurnNote::Nothing,
            )
        }
    }

    fn query_new(&mut self, original: ProcessEfficiencyState) -> (reply: (TurnAction, TurnNote))
        requires
            old(self).stage is QueryNew,
        ensures
            *final(self) == old(self).on_query(QueryAnswer::Known(original)).turn,
            reply.0 == old(self).on_query(QueryAnswer::Known(original)).action,
            reply.1 == old(self).on_query(QueryAnswer::Known(original)).note,
    {
        let desired = desired_background_state(
            self.facts.policy,
            original,
            self.facts.low_memory,
        );
        let ownership = ProcessEfficiencyOwnership::between(original, desired).intersection(
            configured_background_ownership(self.facts.policy),
        );
        if ownership.is_empty() {
            return self.end(TurnNote::Nothing);
        }
        self.record = Some(
            ManagedBackgroundProcess {
                key: self.facts.key,
                original,
                applied: original,
                ownership,
                pending: Some(desired),
                pending_ownership: Some(ownership),
                blocked_by_external_override: ProcessEfficiencyOwnership {
                    eco_qos: false,
                    memory_priority: false,
                },
            },
        );
        self.stage = TurnStage::SaveNew { desired };
        (TurnAction::Save, TurnNote::Nothing)
    }

    fn queried(
        &mut self,
        record: ManagedBackgroundProcess,
        answer: QueryAnswer,
    ) -> (reply: (TurnAction, TurnNote))
        requires
            old(self).record == Some(record),
            old(self).stage !is QueryNew,
        ensures
            *final(self) == old(self).on_query(answer).turn,
            reply.0 == old(self).on_query(answer).action,
            reply.1 == old(self).on_query(answer).note,
    {
        match self.stage {
            TurnStage::Recover => match answer {
                QueryAnswer::Failed => self.end(TurnNote::QueryFailed),
                QueryAnswer::Gone => self.save_last(None, TurnNote::Nothing),
                QueryAnswer::Known(current) => match record.pending {
                    Some(pending) => self.recover(record, pending, current),
                    None => self.examine(record, current),
                },
            },
            TurnStage::Recheck => match answer {
                QueryAnswer::Known(current) => self.examine(record, current),
                _ => self.end(TurnNote::RecheckFailed),
            },
            TurnStage::ExplainUpdate { prior_ownership } => match answer {
                QueryAnswer::Known(current) => {
                    let changed = external_override_mask(
                        record.applied,
                        current,
                        record.ownership,
                    );
                    let mut given_up = record;
                    given_up.ownership = prior_ownership;
                    given_up.pending = None;
                    given_up.pending_ownership = None;
                    relinquish_external_overrides(&mut given_up, current, changed);
                    rebase_unowned_efficiency(&mut given_up, current);
                    self.streak = None;
                    self.save_last(Some(given_up), TurnNote::Nothing)
                },
                _ => self.end(TurnNote::Nothing),
            },
            TurnStage::ExplainNew { ownership_changed } => match answer {
                QueryAnswer::Known(current) => {
                    if ownership_changed {
                        let mut given_up = record;
                        given_up.original = current;
                        given_up.applied = current;
                        given_up.ownership = ProcessEfficiencyOwnership {
                            eco_qos: false,
                            memory_priority: false,
                        };
                        given_up.pending = None;
                        given_up.pending_ownership = None;
                        given_up.blocked_by_external_override = external_override_mask(
                            record.original,
                            current,
                            record.ownership,
                        );
                        self.streak = None;
                        self.save_last(Some(given_up), TurnNote::Nothing)
                    } else if record.ownership.matches(record.original, current) {
                        self.save_last(None, TurnNote::Nothing)
                    } else {
                        self.end(TurnNote::Nothing)
                    }
                },
                _ => self.end(TurnNote::Nothing),
            },
            _ => self.end(TurnNote::Nothing),
        }
    }

    fn saved(&mut self, record: ManagedBackgroundProcess) -> (reply: (TurnAction, TurnNote))
        requires
            old(self).wf(),
            old(self).awaits(TurnEvent::Saved),
            old(self).stage !is SaveLast ==> old(self).record == Some(record),
        ensures
            *final(self) == old(self).on_save().turn,
            reply.0 == old(self).on_save().action,
            reply.1 == old(self).on_save().note,
    {
        proof {
            reveal(BackgroundTurn::wf);
        }
        match self.stage {
            TurnStage::SaveSettled => {
                self.stage = TurnStage::Recheck;
                (TurnAction::Query, TurnNote::Nothing)
            },
            TurnStage::SaveOverride { current, changed } => {
                let (action, _) = self.judge(record, current);
                (action, TurnNote::ExternalOverride { relinquished: changed, observed: current })
            },
            TurnStage::SaveUpdate { desired, desired_ownership, prior_ownership } => {
                self.budget = self.budget - 1;
                self.stage = TurnStage::ApplyUpdate { desired_ownership, prior_ownership };
                (
                    TurnAction::Apply {
                        current: record.applied,
                        desired,
                        ownership: record.ownership,
                    },
                    TurnNote::Nothing,
                )
            },
            TurnStage::SaveNew { desired } => {
                self.budget = self.budget - 1;
                self.stage = TurnStage::ApplyNew;
                (
                    TurnAction::Apply {
                        current: record.applied,
                        desired,
                        ownership: record.ownership,
                    },
                    TurnNote::Nothing,
                )
            },
            TurnStage::SaveLast { note } => self.end(note),
            _ => self.end(TurnNote::Nothing),
        }
    }

    fn restored(
        &mut self,
        record: ManagedBackgroundProcess,
        outcome: Option<RestoreOutcome>,
    ) -> (reply: (TurnAction, TurnNote))
        requires
            old(self).record == Some(record),
        ensures
            *final(self) == old(self).on_restore(outcome).turn,
            reply.0 == old(self).on_restore(outcome).action,
            reply.1 == old(self).on_restore(outcome).note,
    {
        match self.stage {
            TurnStage::RestorePending => match outcome {
                Some(outcome) => {
                    let mut restored = record;
                    let externally_overridden = apply_restore_report_to_record(
                        &mut restored,
                        &outcome,
                    );
                    self.save_last(
                        Some(restored),
                        TurnNote::PendingRecovered { externally_overridden },
                    )
                },
                None => self.end(TurnNote::RecoveryFailed),
            },
            TurnStage::Release => match outcome {
                Some(outcome) => {
                    let mut restored = record;
                    let externally_overridden = apply_restore_report_to_record(
                        &mut restored,
                        &outcome,
                    );
                    let complete = restored.ownership.is_empty();
                    let kept = if !complete || (self.facts.transient_protection()
                        && !restored.blocked_by_external_override.is_empty()) {
                        Some(restored)
                    } else {
                        None
                    };
                    self.save_last(kept, TurnNote::Released { complete, externally_overridden })
                },
                None => self.end(TurnNote::ReleaseFailed),
            },
            _ => self.end(TurnNote::Nothing),
        }
    }

    fn applied(
        &mut self,
        record: ManagedBackgroundProcess,
        answer: ApplyAnswer,
    ) -> (reply: (TurnAction, TurnNote))
        requires
            old(self).record == Some(record),
        ensures
            *final(self) == old(self).on_apply(answer).turn,
            reply.0 == old(self).on_apply(answer).action,
            reply.1 == old(self).on_apply(answer).note,
    {
        match self.stage {
            TurnStage::ApplyUpdate { desired_ownership, prior_ownership } => match answer {
                ApplyAnswer::Applied(observed) => {
                    let mut updated = record;
                    updated.applied = observed;
                    updated.ownership = desired_ownership;
                    updated.pending = None;
                    updated.pending_ownership = None;
                    rebase_unowned_efficiency(&mut updated, observed);
                    self.save_last(Some(updated), TurnNote::Updated)
                },
                ApplyAnswer::OwnershipChanged => {
                    self.stage = TurnStage::ExplainUpdate { prior_ownership };
                    (TurnAction::Query, TurnNote::UpdateFailed)
                },
                ApplyAnswer::Failed => self.end(TurnNote::UpdateFailed),
            },
            TurnStage::ApplyNew => match answer {
                ApplyAnswer::Applied(observed) => {
                    let mut updated = record;
                    updated.applied = observed;
                    updated.pending = None;
                    updated.pending_ownership = None;
                    rebase_unowned_efficiency(&mut updated, observed);
                    self.save_last(Some(updated), TurnNote::AppliedNew)
                },
                ApplyAnswer::OwnershipChanged => {
                    self.stage = TurnStage::ExplainNew { ownership_changed: true };
                    (TurnAction::Query, TurnNote::ApplyFailed)
                },
                ApplyAnswer::Failed => {
                    self.stage = TurnStage::ExplainNew { ownership_changed: false };
                    (TurnAction::Query, TurnNote::ApplyFailed)
                },
            },
            _ => self.end(TurnNote::Nothing),
        }
    }

    /// Takes the answer to the last action and says what to do next.
    pub fn next(&mut self, event: TurnEvent) -> (reply: (TurnAction, TurnNote))
        requires
            old(self).wf(),
            old(self).awaits(event),
        ensures
            *final(self) == old(self).follows(event).turn,
            reply.0 == old(self).follows(event).action,
            reply.1 == old(self).follows(event).note,
            final(self).wf(),
    {
        proof {
            turns_stay_well_formed(*self, event);
            reveal(BackgroundTurn::follows);
            reveal(BackgroundTurn::wf);
        }
        match event {
            TurnEvent::Queried(answer) => match self.record {
                Some(record) if !matches!(self.stage, TurnStage::QueryNew) => self.queried(
                    record,
                    answer,
                ),
                _ => match answer {
                    QueryAnswer::Known(original) => self.query_new(original),
                    _ => self.end(TurnNote::Unsupported),
                },
            },
            TurnEvent::Saved => match self.record {
                Some(record) => self.saved(record),
                None => match self.stage {
                    TurnStage::SaveLast { note } => self.end(note),
                    _ => self.end(TurnNote::Nothing),
                },
            },
            TurnEvent::Restored(outcome) => match self.record {
                Some(record) => self.restored(record, outcome),
                None => self.end(TurnNote::Nothing),
            },
            TurnEvent::Applied(answer) => match self.record {
                Some(record) => self.applied(record, answer),
                None => self.end(TurnNote::Nothing),
            },
        }
    }
}

proof fn judged_stays_well_formed(turn: BackgroundTurn, current: ProcessEfficiencyState)
    requires
        turn.record matches Some(record) && record.pending is None,
    ensures
        turn.judged(current).turn.wf(),
        turn.sound() ==> turn.judged(current).turn.sound(),
        turn.judged(current).turn.facts == turn.facts,
{
    reveal(BackgroundTurn::wf);
}

proof fn examined_stays_well_formed(turn: BackgroundTurn, current: ProcessEfficiencyState)
    requires
        turn.record matches Some(record) && record.pending is None,
    ensures
        turn.examined(current).turn.wf(),
        turn.sound() ==> turn.examined(current).turn.sound(),
        turn.examined(current).turn.facts == turn.facts,
{
    reveal(BackgroundTurn::wf);
    judged_stays_well_formed(turn, current);
}

proof fn recovered_stays_well_formed(
    turn: BackgroundTurn,
    pending: ProcessEfficiencyState,
    current: ProcessEfficiencyState,
)
    requires
        turn.record matches Some(record) && record.pending == Some(pending),
    ensures
        turn.recovered(pending, current).turn.wf(),
        turn.sound() ==> turn.recovered(pending, current).turn.sound(),
        turn.recovered(pending, current).turn.facts == turn.facts,
{
    reveal(BackgroundTurn::wf);
}

#[verifier::spinoff_prover]
proof fn queries_stay_well_formed(turn: BackgroundTurn, answer: QueryAnswer)
    requires
        turn.wf(),
        turn.awaits(TurnEvent::Queried(answer)),
    ensures
        turn.on_query(answer).turn.wf(),
        turn.sound() ==> turn.on_query(answer).turn.sound(),
        turn.on_query(answer).turn.facts == turn.facts,
{
    reveal(BackgroundTurn::wf);
    if let QueryAnswer::Known(current) = answer {
        if let Some(record) = turn.record {
            match turn.stage {
                TurnStage::Recover => {
                    match record.pending {
                        Some(pending) => {
                            recovered_stays_well_formed(turn, pending, current);
                        },
                        None => {
                            examined_stays_well_formed(turn, current);
                        },
                    }
                },
                TurnStage::Recheck => {
                    examined_stays_well_formed(turn, current);
                },
                _ => {},
            }
        }
    }
}

#[verifier::spinoff_prover]
proof fn saves_stay_well_formed(turn: BackgroundTurn)
    requires
        turn.wf(),
        turn.awaits(TurnEvent::Saved),
    ensures
        turn.on_save().turn.wf(),
        turn.sound() ==> turn.on_save().turn.sound(),
        turn.on_save().turn.facts == turn.facts,
{
    reveal(BackgroundTurn::wf);
    if let TurnStage::SaveOverride { current, changed } = turn.stage {
        judged_stays_well_formed(turn, current);
    }
}

#[verifier::spinoff_prover]
proof fn restores_stay_well_formed(turn: BackgroundTurn, outcome: Option<RestoreOutcome>)
    requires
        turn.wf(),
        turn.awaits(TurnEvent::Restored(outcome)),
    ensures
        turn.on_restore(outcome).turn.wf(),
        turn.sound() && turn.plausible(TurnEvent::Restored(outcome)) ==> turn.on_restore(
            outcome,
        ).turn.sound(),
        turn.on_restore(outcome).turn.facts == turn.facts,
{
    reveal(BackgroundTurn::wf);
}

#[verifier::spinoff_prover]
proof fn applies_stay_well_formed(turn: BackgroundTurn, answer: ApplyAnswer)
    requires
        turn.wf(),
        turn.awaits(TurnEvent::Applied(answer)),
    ensures
        turn.on_apply(answer).turn.wf(),
        turn.sound() ==> turn.on_apply(answer).turn.sound(),
        turn.on_apply(answer).turn.facts == turn.facts,
{
    reveal(BackgroundTurn::wf);
}

/// A turn that is begun is well formed, and over exactly when nothing is to be
/// done.
pub proof fn starts_are_well_formed(turn: BackgroundTurn)
    ensures
        turn.started().turn.wf(),
        turn.started().action is Finish <==> turn.started().turn.stage is Over,
        turn.started().turn == (BackgroundTurn { stage: turn.started().turn.stage, ..turn }),
{
    reveal(BackgroundTurn::wf);
}

/// A turn is over exactly when nothing is left to do.
pub proof fn finishing_ends_the_turn(turn: BackgroundTurn, event: TurnEvent)
    requires
        turn.wf(),
        turn.awaits(event),
    ensures
        turn.follows(event).action is Finish <==> turn.follows(event).turn.stage is Over,
{
    reveal(BackgroundTurn::follows);
    reveal(BackgroundTurn::wf);
}

/// Every step keeps what is announced in the journal entry.
pub proof fn turns_stay_well_formed(turn: BackgroundTurn, event: TurnEvent)
    requires
        turn.wf(),
        turn.awaits(event),
    ensures
        turn.follows(event).turn.wf(),
        turn.follows(event).turn.facts == turn.facts,
        turn.sound() && turn.plausible(event) ==> turn.follows(event).turn.sound(),
{
    reveal(BackgroundTurn::follows);
    reveal(BackgroundTurn::wf);
    match event {
        TurnEvent::Queried(answer) => {
            queries_stay_well_formed(turn, answer);
        },
        TurnEvent::Saved => {
            saves_stay_well_formed(turn);
        },
        TurnEvent::Restored(outcome) => {
            restores_stay_well_formed(turn, outcome);
        },
        TurnEvent::Applied(answer) => {
            applies_stay_well_formed(turn, answer);
        },
    }
}

/// Every step keeps the journal entry valid, where a restore leaves over only
/// what it was asked to restore.
pub proof fn turns_keep_valid_entries(turn: BackgroundTurn, event: TurnEvent)
    requires
        turn.wf(),
        turn.sound(),
        turn.awaits(event),
        turn.plausible(event),
    ensures
        turn.follows(event).turn.sound(),
{
    turns_stay_well_formed(turn, event);
}

/// A change is made only after the journal that announces it is written: the
/// journal entry holds, unchanged by the step, the new state, the properties
/// and the state that they go back to.
pub proof fn changes_are_announced_first(turn: BackgroundTurn, event: TurnEvent)
    requires
        turn.wf(),
        turn.awaits(event),
        turn.follows(event).action is Apply,
    ensures
        event is Saved,
        turn.record is Some,
        turn.follows(event).turn.record == turn.record,
        (turn.record->0).pending == Some(turn.follows(event).action->desired),
        (turn.record->0).ownership == turn.follows(event).action->Apply_ownership,
        (turn.record->0).applied == turn.follows(event).action->current,
{
    reveal(BackgroundTurn::follows);
    reveal(BackgroundTurn::wf);
}

/// A change is made only to a process that a rule names, that nothing
/// protects, and while changes are allowed; it uses up one of the changes
/// that the evaluation may make; and it leaves alone what something else
/// changed before.
pub proof fn changes_respect_protection(turn: BackgroundTurn, event: TurnEvent)
    requires
        turn.wf(),
        turn.sound(),
        turn.awaits(event),
        turn.follows(event).action is Apply,
    ensures
        turn.facts.policy_allowed(),
        turn.budget > 0,
        turn.follows(event).turn.budget == turn.budget - 1,
        (turn.follows(event).action->Apply_ownership).intersection(
            (turn.record->0).blocked_by_external_override,
        ).is_empty(),
{
    reveal(BackgroundTurn::follows);
    reveal(BackgroundTurn::wf);
}

/// The first change of a process comes only after enough evaluations in a row
/// in which nothing protected it.
pub proof fn first_changes_wait_for_stability(turn: BackgroundTurn, event: TurnEvent)
    requires
        turn.wf(),
        turn.awaits(event),
        turn.follows(event).action is Apply,
    ensures
        turn.stage is SaveNew ==> turn.stable(),
        turn.stage matches TurnStage::SaveUpdate { desired, desired_ownership, prior_ownership }
            ==> prior_ownership.is_empty() ==> turn.stable(),
        turn.stage is SaveNew || turn.stage is SaveUpdate,
{
    reveal(BackgroundTurn::follows);
    reveal(BackgroundTurn::wf);
}

/// What is given back is what the journal says is owned, to what the journal
/// says it was.
pub proof fn restores_follow_the_journal(turn: BackgroundTurn, event: TurnEvent)
    requires
        turn.wf(),
        turn.awaits(event),
        turn.follows(event).action is Restore,
    ensures
        turn.follows(event).turn.record is Some,
        turn.follows(event).action->original == (turn.follows(event).turn.record->0).original,
        turn.follows(event).action->applied == (turn.follows(event).turn.record->0).applied,
        turn.follows(event).action->Restore_ownership == (turn.follows(
            event,
        ).turn.record->0).ownership,
        !(turn.follows(event).action->Restore_ownership).is_empty(),
{
    reveal(BackgroundTurn::follows);
    reveal(BackgroundTurn::wf);
}

/// A failed restore keeps the journal entry, so that it is tried again.
pub proof fn failed_restores_stay_in_the_journal(turn: BackgroundTurn)
    requires
        turn.wf(),
        turn.awaits(TurnEvent::Restored(None)),
    ensures
        turn.follows(TurnEvent::Restored(None)).turn.record == turn.record,
        turn.follows(TurnEvent::Restored(None)).action is Finish,
{
    reveal(BackgroundTurn::follows);
    reveal(BackgroundTurn::wf);
}

/// A process that the policy does not cover is never changed, only given back.
pub proof fn uncovered_processes_are_only_restored(turn: BackgroundTurn, event: TurnEvent)
    requires
        turn.wf(),
        turn.awaits(event),
        !turn.facts.policy_allowed(),
    ensures
        turn.follows(event).action !is Apply,
{
    reveal(BackgroundTurn::follows);
    reveal(BackgroundTurn::wf);
}

/// Of a process that the policy may change, and whose owned properties are as
/// they were last set, each enabled property that nothing else has taken over
/// is brought to what the policy wants of it, now that memory is short or no
/// longer short: where an owned property has another value, or another
/// property ought to be owned than is, the change is announced in the journal
/// and then made, as long as the evaluation may still change something and a
/// first change has waited long enough. Where everything is as it ought to
/// be, nothing is done.
#[verifier::spinoff_prover]
#[verifier::rlimit(60)]
pub proof fn properties_follow_the_policy(
    turn: BackgroundTurn,
    current: ProcessEfficiencyState,
    property: EfficiencyProperty,
)
    requires
        turn.wf(),
        turn.stage is Recover || turn.stage is Recheck,
        (turn.record->0).pending is None,
        turn.facts.exact_background,
        turn.facts.protection is None,
        turn.facts.mutations_active,
        (turn.record->0).ownership.eco_qos ==> current.eco_qos == (
        turn.record->0).applied.eco_qos,
        (turn.record->0).ownership.memory_priority ==> current.memory_priority == (
        turn.record->0).applied.memory_priority,
    ensures
        ({
            let record = turn.record->0;
            let policy = turn.facts.policy;
            let owned = record.ownership;
            let blocked = record.blocked_by_external_override;
            // What the process goes back to.
            let base = ProcessEfficiencyState {
                eco_qos: if owned.eco_qos {
                    record.original.eco_qos
                } else {
                    current.eco_qos
                },
                memory_priority: if owned.memory_priority {
                    record.original.memory_priority
                } else {
                    current.memory_priority
                },
            };
            let desired = desired_background_state(policy, base, turn.facts.low_memory);
            let eco_qos = policy.eco_qos_enabled && !blocked.eco_qos && desired.eco_qos
                != base.eco_qos;
            let memory_priority = policy.memory_priority_enabled && !blocked.memory_priority
                && desired.memory_priority != base.memory_priority;
            let due = {
                ||| owned.eco_qos != eco_qos
                ||| owned.memory_priority != memory_priority
                ||| owned.eco_qos && record.applied.eco_qos != desired.eco_qos
                ||| owned.memory_priority && record.applied.memory_priority
                    != desired.memory_priority
            };
            let waited = owned.eco_qos || owned.memory_priority || (turn.streak matches Some(
                streak,
            ) && streak >= 2);
            let step = turn.follows(TurnEvent::Queried(QueryAnswer::Known(current)));
            let made = step.turn.follows(TurnEvent::Saved);
            let announced = step.turn.record->0;
            &&& due && waited && turn.budget > 0 ==> {
                &&& step.action is Save
                &&& made.action == (TurnAction::Apply {
                    current,
                    desired,
                    ownership: ProcessEfficiencyOwnership {
                        eco_qos: owned.eco_qos || eco_qos,
                        memory_priority: owned.memory_priority || memory_priority,
                    },
                })
                &&& announced.pending == Some(desired)
                &&& announced.pending_ownership == Some(
                    ProcessEfficiencyOwnership { eco_qos, memory_priority },
                )
                &&& announced.original == base
                &&& announced.blocked_by_external_override == blocked
                &&& announced.key == record.key
            }
            &&& !(due && waited && turn.budget > 0) ==> {
                &&& step.action is Finish
                &&& step.note is Nothing
                &&& step.turn.record is Some
                &&& announced.ownership == owned
                &&& announced.blocked_by_external_override == blocked
                &&& announced.pending is None
                &&& property.is_in(owned) ==> property.agrees(announced.original, record.original)
                    && property.agrees(announced.applied, record.applied)
            }
        }),
{
    reveal(BackgroundTurn::follows);
    reveal(BackgroundTurn::wf);
    let record = turn.record->0;
    let rebased = record.rebased(current);
    let wanted = turn.wanted(rebased.original, rebased.blocked_by_external_override);
    let desired = desired_background_state(
        turn.facts.policy,
        rebased.original,
        turn.facts.low_memory,
    );
    let step = turn.follows(TurnEvent::Queried(QueryAnswer::Known(current)));
    assert(external_override_mask(record.applied, current, record.ownership).is_empty());
    assert(step == turn.judged(current));
    assert(rebased.applied == current);
    assert(rebased.ownership == record.ownership);
    assert(turn.facts.policy_allowed());
    if step.action is Save {
        assert(step.turn.record == Some(
            ManagedBackgroundProcess {
                pending: Some(desired),
                pending_ownership: Some(wanted),
                ownership: record.ownership.union(wanted),
                ..rebased
            },
        ));
        assert(step.turn.follows(TurnEvent::Saved).action == (TurnAction::Apply {
            current: rebased.applied,
            desired,
            ownership: record.ownership.union(wanted),
        }));
    }
}

/// Of a process that the policy may not change, whose owned properties are as
/// they were last set, all that is owned is given back to what it was. Where
/// nothing is owned the process leaves the journal, unless it is only put off
/// by a protection and has properties that are left alone.
#[verifier::spinoff_prover]
pub proof fn uncovered_properties_are_given_back(
    turn: BackgroundTurn,
    current: ProcessEfficiencyState,
)
    requires
        turn.wf(),
        turn.stage is Recover || turn.stage is Recheck,
        (turn.record->0).pending is None,
        !turn.facts.exact_background || turn.facts.protection is Some
            || !turn.facts.mutations_active,
        (turn.record->0).ownership.eco_qos ==> current.eco_qos == (
        turn.record->0).applied.eco_qos,
        (turn.record->0).ownership.memory_priority ==> current.memory_priority == (
        turn.record->0).applied.memory_priority,
    ensures
        ({
            let record = turn.record->0;
            let blocked = record.blocked_by_external_override;
            let step = turn.follows(TurnEvent::Queried(QueryAnswer::Known(current)));
            &&& record.ownership.eco_qos || record.ownership.memory_priority ==> {
                &&& step.action == (TurnAction::Restore {
                    original: record.original,
                    applied: record.applied,
                    ownership: record.ownership,
                    pending: None,
                })
                &&& step.turn.record == turn.record
            }
            &&& !record.ownership.eco_qos && !record.ownership.memory_priority ==> {
                &&& step.action is Save
                &&& step.turn.follows(TurnEvent::Saved).action is Finish
                &&& step.turn.follows(TurnEvent::Saved).turn.record == step.turn.record
                &&& step.turn.record == if turn.facts.exact_background
                    && turn.facts.mutations_active && turn.facts.protection is Some && (
                blocked.eco_qos || blocked.memory_priority) {
                    turn.record
                } else {
                    None
                }
            }
        }),
{
    reveal(BackgroundTurn::follows);
    reveal(BackgroundTurn::wf);
}

/// What was given back is no longer owned, and what could not be given back
/// still is. Once nothing is owned the process leaves the journal, unless it
/// is only put off by a protection and has properties that are left alone.
#[verifier::spinoff_prover]
pub proof fn releases_are_recorded(turn: BackgroundTurn, outcome: RestoreOutcome)
    requires
        turn.wf(),
        turn.stage is Release,
    ensures
        ({
            let record = turn.record->0;
            let step = turn.follows(TurnEvent::Restored(Some(outcome)));
            let left = outcome.unrestored_ownership;
            let blocked = record.blocked_by_external_override;
            let alone = blocked.eco_qos || blocked.memory_priority
                || outcome.external_eco_qos_preserved
                || outcome.external_memory_priority_preserved;
            let put_off = turn.facts.exact_background && turn.facts.mutations_active
                && turn.facts.protection is Some;
            &&& step.action is Save
            &&& step.turn.record is Some <==> left.eco_qos || left.memory_priority || put_off
                && alone
            &&& step.turn.record is Some ==> {
                &&& (step.turn.record->0).ownership == left
                &&& (step.turn.record->0).applied == outcome.observed
                &&& (step.turn.record->0).pending is None
                &&& (step.turn.record->0).key == record.key
            }
            &&& step.turn.follows(TurnEvent::Saved).action is Finish
            &&& step.turn.follows(TurnEvent::Saved).turn.record == step.turn.record
            &&& step.turn.follows(TurnEvent::Saved).note == (TurnNote::Released {
                complete: !left.eco_qos && !left.memory_priority,
                externally_overridden: ProcessEfficiencyOwnership {
                    eco_qos: outcome.external_eco_qos_preserved,
                    memory_priority: outcome.external_memory_priority_preserved,
                },
            })
        }),
{
    reveal(BackgroundTurn::follows);
    reveal(BackgroundTurn::wf);
}

/// An owned property that something else has changed is given up: it is no
/// longer owned, it is left alone from then on, and it goes back to nothing
/// but what was found. That is written to the journal before anything else,
/// and the process has to wait anew.
#[verifier::spinoff_prover]
pub proof fn changed_properties_are_given_up(
    turn: BackgroundTurn,
    current: ProcessEfficiencyState,
    property: EfficiencyProperty,
)
    requires
        turn.wf(),
        turn.stage is Recover || turn.stage is Recheck,
        (turn.record->0).pending is None,
        (turn.record->0).ownership.eco_qos && current.eco_qos != (turn.record->0).applied.eco_qos
            || (turn.record->0).ownership.memory_priority && current.memory_priority != (
        turn.record->0).applied.memory_priority,
    ensures
        ({
            let record = turn.record->0;
            let step = turn.follows(TurnEvent::Queried(QueryAnswer::Known(current)));
            let after = step.turn.record->0;
            let next = step.turn.follows(TurnEvent::Saved);
            let lost = property.is_in(record.ownership) && !property.agrees(
                current,
                record.applied,
            );
            &&& step.action is Save
            &&& step.turn.record is Some
            &&& step.turn.streak is None
            &&& step.turn.budget == turn.budget
            &&& property.is_in(after.ownership) <==> property.is_in(record.ownership) && !lost
            &&& property.is_in(after.blocked_by_external_override) <==> property.is_in(
                record.blocked_by_external_override,
            ) || lost
            &&& lost ==> property.agrees(after.original, current) && property.agrees(
                after.applied,
                current,
            )
            &&& !lost ==> property.agrees(after.original, record.original) && property.agrees(
                after.applied,
                record.applied,
            )
            &&& after.key == record.key
            &&& after.pending is None
            &&& next.note is ExternalOverride
            &&& lost ==> property.is_in(next.note->relinquished)
            &&& next.note->observed == current
            &&& next.action is Restore ==> !lost || !property.is_in(
                next.action->Restore_ownership,
            )
        }),
{
    reveal(BackgroundTurn::follows);
    reveal(BackgroundTurn::wf);
}

/// After something else's changes are in the journal, the rest of the process
/// is treated as that of a process whose owned properties are as they were
/// last set.
#[verifier::spinoff_prover]
pub proof fn given_up_properties_do_not_stop_the_rest(
    turn: BackgroundTurn,
    current: ProcessEfficiencyState,
    changed: ProcessEfficiencyOwnership,
)
    requires
        turn.wf(),
        turn.stage == (TurnStage::SaveOverride { current, changed }),
        (turn.record->0).ownership.eco_qos ==> current.eco_qos == (
        turn.record->0).applied.eco_qos,
        (turn.record->0).ownership.memory_priority ==> current.memory_priority == (
        turn.record->0).applied.memory_priority,
    ensures
        ({
            let read = BackgroundTurn { stage: TurnStage::Recheck, ..turn };
            let next = turn.follows(TurnEvent::Saved);
            let same = read.follows(TurnEvent::Queried(QueryAnswer::Known(current)));
            &&& next.action == same.action
            &&& next.turn == same.turn
        }),
{
    reveal(BackgroundTurn::follows);
    reveal(BackgroundTurn::wf);
}

/// A change that was announced and is found made is taken as made: the
/// process owns what was announced, at the value that it has. One that is
/// found not made is dropped: the process owns what it had been changed in
/// before. Either way the journal is written and the process looked at again.
/// In any other case all that may have been changed is given back.
#[verifier::spinoff_prover]
pub proof fn announced_changes_are_cleared_up(
    turn: BackgroundTurn,
    current: ProcessEfficiencyState,
    property: EfficiencyProperty,
)
    requires
        turn.wf(),
        turn.sound(),
        turn.stage is Recover,
        (turn.record->0).pending is Some,
    ensures
        ({
            let record = turn.record->0;
            let owned = record.ownership;
            let pending = (record.pending->0);
            let made = (owned.eco_qos ==> current.eco_qos == pending.eco_qos) && (
            owned.memory_priority ==> current.memory_priority == pending.memory_priority);
            let unmade = (owned.eco_qos ==> current.eco_qos == record.applied.eco_qos) && (
            owned.memory_priority ==> current.memory_priority
                == record.applied.memory_priority);
            let step = turn.follows(TurnEvent::Queried(QueryAnswer::Known(current)));
            let after = step.turn.record->0;
            &&& made || unmade ==> {
                &&& step.action is Save
                &&& step.turn.record is Some
                &&& after.pending is None
                &&& after.pending_ownership is None
                &&& after.key == record.key
                &&& after.blocked_by_external_override == record.blocked_by_external_override
                &&& property.is_in(after.ownership) ==> property.agrees(
                    after.original,
                    record.original,
                )
                &&& !property.is_in(after.ownership) ==> property.agrees(after.original, current)
                &&& step.turn.follows(TurnEvent::Saved).action is Query
                &&& step.turn.follows(TurnEvent::Saved).turn.record == step.turn.record
            }
            &&& made ==> property.is_in(after.ownership) == property.is_in(
                record.pending_ownership->0,
            ) && property.agrees(after.applied, current)
            &&& !made && unmade ==> property.is_in(after.ownership) == (!property.agrees(
                record.original,
                record.applied,
            ) && !property.is_in(record.blocked_by_external_override))
            &&& !made && unmade && property.is_in(after.ownership) ==> property.agrees(
                after.applied,
                record.applied,
            )
            &&& !made && !unmade ==> step.turn.record == turn.record && step.action == (
            TurnAction::Restore {
                original: record.original,
                applied: record.applied,
                ownership: owned,
                pending: record.pending,
            })
        }),
{
    reveal(BackgroundTurn::follows);
    reveal(BackgroundTurn::wf);
}

/// A restore that cleared up an announced change is recorded: what it could
/// not give back stays owned, and nothing is announced any more.
#[verifier::spinoff_prover]
pub proof fn cleared_up_changes_are_recorded(turn: BackgroundTurn, outcome: RestoreOutcome)
    requires
        turn.wf(),
        turn.stage is RestorePending,
    ensures
        ({
            let step = turn.follows(TurnEvent::Restored(Some(outcome)));
            let after = step.turn.record->0;
            &&& step.action is Save
            &&& step.turn.record is Some
            &&& after.ownership == outcome.unrestored_ownership
            &&& after.applied == outcome.observed
            &&& after.pending is None
            &&& after.key == (turn.record->0).key
            &&& step.turn.follows(TurnEvent::Saved).action is Finish
            &&& step.turn.follows(TurnEvent::Saved).turn.record == step.turn.record
            &&& step.turn.follows(TurnEvent::Saved).note is PendingRecovered
            &&& turn.follows(TurnEvent::Restored(None)).note is RecoveryFailed
        }),
{
    reveal(BackgroundTurn::follows);
    reveal(BackgroundTurn::wf);
}

/// A process in the journal is always looked at. Another one is looked at
/// exactly where a rule names it, nothing protects it, changes are allowed,
/// one more may be made, and nothing protected it in the last evaluation
/// either.
pub proof fn turns_begin_where_something_may_be_done(turn: BackgroundTurn)
    ensures
        turn.started().action is Query || turn.started().action is Finish,
        turn.record is Some ==> turn.started().action is Query,
        turn.record is None ==> (turn.started().action is Query <==> {
            &&& turn.facts.exact_background
            &&& turn.facts.protection is None
            &&& turn.facts.mutations_active
            &&& turn.budget > 0
            &&& turn.streak matches Some(streak) && streak >= 2
        }),
        turn.started().note is Nothing,
        turn.record is Some ==> turn.started().turn.stage is Recover,
        turn.record is None && turn.started().action is Query ==> turn.started().turn.stage
            is QueryNew,
{
}

/// A process that is looked at for the first time is changed in exactly the
/// enabled properties in which it differs from what the policy wants. What
/// it had is in the journal before the change is made; a process that differs
/// in nothing does not come into the journal.
#[verifier::spinoff_prover]
pub proof fn first_changes_are_complete(turn: BackgroundTurn, original: ProcessEfficiencyState)
    requires
        turn.wf(),
        turn.stage is QueryNew,
    ensures
        ({
            let policy = turn.facts.policy;
            let desired = desired_background_state(policy, original, turn.facts.low_memory);
            let changes = ProcessEfficiencyOwnership {
                eco_qos: policy.eco_qos_enabled && desired.eco_qos != original.eco_qos,
                memory_priority: policy.memory_priority_enabled && desired.memory_priority
                    != original.memory_priority,
            };
            let step = turn.follows(TurnEvent::Queried(QueryAnswer::Known(original)));
            let after = step.turn.record->0;
            &&& changes.eco_qos || changes.memory_priority ==> {
                &&& step.action is Save
                &&& step.turn.record is Some
                &&& after.key == turn.facts.key
                &&& after.original == original
                &&& after.applied == original
                &&& after.ownership == changes
                &&& after.pending == Some(desired)
                &&& after.pending_ownership == Some(changes)
                &&& !after.blocked_by_external_override.eco_qos
                &&& !after.blocked_by_external_override.memory_priority
                &&& step.turn.follows(TurnEvent::Saved).action == (TurnAction::Apply {
                    current: original,
                    desired,
                    ownership: changes,
                })
            }
            &&& !changes.eco_qos && !changes.memory_priority ==> step.action is Finish
                && step.turn.record == turn.record && step.note is Nothing
        }),
{
    reveal(BackgroundTurn::follows);
    reveal(BackgroundTurn::wf);
}

/// A change that was made is recorded as made: the process owns what was
/// announced, at the value that was found, and still goes back to what it
/// was; nothing is announced any more. Then the journal is written and the
/// turn is over.
#[verifier::spinoff_prover]
pub proof fn made_changes_are_recorded(
    turn: BackgroundTurn,
    observed: ProcessEfficiencyState,
    property: EfficiencyProperty,
)
    requires
        turn.wf(),
        turn.stage is ApplyUpdate || turn.stage is ApplyNew,
    ensures
        ({
            let record = turn.record->0;
            let step = turn.follows(TurnEvent::Applied(ApplyAnswer::Applied(observed)));
            let after = step.turn.record->0;
            let announced = if turn.stage is ApplyNew {
                record.ownership
            } else {
                record.pending_ownership->0
            };
            &&& step.action is Save
            &&& step.turn.record is Some
            &&& property.is_in(after.ownership) <==> property.is_in(announced)
            &&& property.agrees(after.applied, observed)
            &&& property.is_in(after.ownership) ==> property.agrees(
                after.original,
                record.original,
            )
            &&& !property.is_in(after.ownership) ==> property.agrees(after.original, observed)
            &&& after.pending is None
            &&& after.pending_ownership is None
            &&& after.blocked_by_external_override == record.blocked_by_external_override
            &&& after.key == record.key
            &&& step.turn.follows(TurnEvent::Saved).action is Finish
            &&& step.turn.follows(TurnEvent::Saved).turn.record == step.turn.record
            &&& step.turn.follows(TurnEvent::Saved).note == if turn.stage is ApplyNew {
                TurnNote::AppliedNew
            } else {
                TurnNote::Updated
            }
        }),
{
    reveal(BackgroundTurn::follows);
    reveal(BackgroundTurn::wf);
}

/// An update that failed stays announced, so that it is cleared up in the
/// next evaluation; only one that met a property with another value is looked
/// into at once.
pub proof fn failed_updates_stay_announced(turn: BackgroundTurn)
    requires
        turn.wf(),
        turn.stage is ApplyUpdate,
    ensures
        ({
            let failed = turn.follows(TurnEvent::Applied(ApplyAnswer::Failed));
            let met = turn.follows(TurnEvent::Applied(ApplyAnswer::OwnershipChanged));
            &&& failed.action is Finish
            &&& failed.turn.record == turn.record
            &&& failed.note is UpdateFailed
            &&& met.action is Query
            &&& met.turn.record == turn.record
            &&& met.note is UpdateFailed
        }),
{
    reveal(BackgroundTurn::follows);
    reveal(BackgroundTurn::wf);
}

/// After an update met a property with another value, each property of the
/// update that no longer has the value it was last set to is given up and
/// left alone; of the others, those stay owned that were owned before.
#[verifier::spinoff_prover]
pub proof fn met_properties_are_given_up(
    turn: BackgroundTurn,
    current: ProcessEfficiencyState,
    property: EfficiencyProperty,
)
    requires
        turn.wf(),
        turn.stage is ExplainUpdate,
    ensures
        ({
            let record = turn.record->0;
            let prior = turn.stage->ExplainUpdate_prior_ownership;
            let step = turn.follows(TurnEvent::Queried(QueryAnswer::Known(current)));
            let after = step.turn.record->0;
            let lost = property.is_in(record.ownership) && !property.agrees(
                current,
                record.applied,
            );
            &&& step.action is Save
            &&& step.turn.record is Some
            &&& step.turn.streak is None
            &&& property.is_in(after.ownership) <==> property.is_in(prior) && !lost
            &&& property.is_in(after.blocked_by_external_override) <==> property.is_in(
                record.blocked_by_external_override,
            ) || lost
            &&& property.is_in(after.ownership) ==> property.agrees(
                after.original,
                record.original,
            ) && property.agrees(after.applied, record.applied)
            &&& !property.is_in(after.ownership) ==> property.agrees(after.original, current)
                && property.agrees(after.applied, current)
            &&& after.pending is None
            &&& after.pending_ownership is None
            &&& after.key == record.key
            &&& step.turn.follows(TurnEvent::Saved).action is Finish
            &&& step.turn.follows(TurnEvent::Saved).note is Nothing
        }),
{
    reveal(BackgroundTurn::follows);
    reveal(BackgroundTurn::wf);
}

/// After a first change failed, the process is looked at. Where something
/// else had changed it meanwhile, nothing is owned and what was changed is
/// left alone. Where it is as it was, it leaves the journal. Otherwise, and
/// where it cannot be looked at, the change stays announced.
#[verifier::spinoff_prover]
pub proof fn failed_first_changes_are_cleared_up(
    turn: BackgroundTurn,
    current: ProcessEfficiencyState,
    met: bool,
    property: EfficiencyProperty,
)
    requires
        turn.wf(),
        turn.stage is ApplyNew,
    ensures
        ({
            let record = turn.record->0;
            let owned = record.ownership;
            let failed = turn.follows(
                TurnEvent::Applied(
                    if met {
                        ApplyAnswer::OwnershipChanged
                    } else {
                        ApplyAnswer::Failed
                    },
                ),
            );
            let step = failed.turn.follows(TurnEvent::Queried(QueryAnswer::Known(current)));
            let after = step.turn.record->0;
            let lost = property.is_in(owned) && !property.agrees(current, record.original);
            let unchanged = (owned.eco_qos ==> current.eco_qos == record.original.eco_qos) && (
            owned.memory_priority ==> current.memory_priority
                == record.original.memory_priority);
            &&& failed.action is Query
            &&& failed.note is ApplyFailed
            &&& failed.turn.record == turn.record
            &&& met ==> {
                &&& step.action is Save
                &&& step.turn.record is Some
                &&& step.turn.streak is None
                &&& !property.is_in(after.ownership)
                &&& property.is_in(after.blocked_by_external_override) <==> lost
                &&& after.original == current
                &&& after.applied == current
                &&& after.pending is None
                &&& after.pending_ownership is None
                &&& after.key == record.key
            }
            &&& !met && unchanged ==> step.action is Save && step.turn.record is None
            &&& !met && !unchanged ==> step.action is Finish && step.turn.record == turn.record
            &&& failed.turn.follows(TurnEvent::Queried(QueryAnswer::Failed)).turn.record
                == turn.record
            &&& failed.turn.follows(TurnEvent::Queried(QueryAnswer::Failed)).action is Finish
        }),
{
    reveal(BackgroundTurn::follows);
    reveal(BackgroundTurn::wf);
}

/// A process that has ended leaves the journal. One that cannot be looked at
/// stays in it as it is, and the turn is over.
pub proof fn ended_processes_leave_the_journal(turn: BackgroundTurn, answer: QueryAnswer)
    requires
        turn.wf(),
        turn.awaits(TurnEvent::Queried(answer)),
        answer !is Known,
    ensures
        ({
            let step = turn.follows(TurnEvent::Queried(answer));
            if turn.stage is Recover && answer is Gone {
                step.action is Save && step.turn.record is None && step.turn.follows(
                    TurnEvent::Saved,
                ).action is Finish && step.turn.follows(TurnEvent::Saved).turn.record is None
            } else {
                step.action is Finish && step.turn.record == turn.record
            }
        }),
        turn.stage is Recover && answer is Failed ==> turn.follows(
            TurnEvent::Queried(answer),
        ).note is QueryFailed,
        turn.stage is Recheck ==> turn.follows(TurnEvent::Queried(answer)).note is RecheckFailed,
        turn.stage is QueryNew ==> turn.follows(TurnEvent::Queried(answer)).note is Unsupported,
{
    reveal(BackgroundTurn::follows);
    reveal(BackgroundTurn::wf);
}

/// A turn uses up a change exactly when it makes one, and a process waits
/// anew exactly when something else changed it.
#[verifier::spinoff_prover]
pub proof fn turns_count_their_changes(turn: BackgroundTurn, event: TurnEvent)
    requires
        turn.wf(),
        turn.awaits(event),
    ensures
        ({
            let step = turn.follows(event);
            &&& step.action is Apply ==> step.turn.budget == turn.budget - 1
            &&& step.action !is Apply ==> step.turn.budget == turn.budget
            &&& step.turn.streak == turn.streak || step.turn.streak is None && event is Queried
            &&& step.turn.facts == turn.facts
            &&& event is Saved && turn.stage !is SaveOverride ==> step.turn.record == turn.record
        }),
{
    reveal(BackgroundTurn::follows);
    reveal(BackgroundTurn::wf);
}

/// What the turn does and what it is told go together.
pub proof fn turns_await_what_they_asked_for(turn: BackgroundTurn, event: TurnEvent, answer: TurnEvent)
    requires
        turn.wf(),
        turn.awaits(event),
    ensures
        turn.follows(event).turn.awaits(answer) <==> match turn.follows(event).action {
            TurnAction::Query => answer is Queried,
            TurnAction::Save => answer is Saved,
            TurnAction::Restore { .. } => answer is Restored,
            TurnAction::Apply { .. } => answer is Applied,
            TurnAction::Finish => false,
        },
{
    reveal(BackgroundTurn::follows);
    reveal(BackgroundTurn::wf);
}

/// A process that cannot be looked at is told as what it was looked at for, and
/// a process that can be is never told as one that cannot.
#[verifier::spinoff_prover]
#[verifier::rlimit(40)]
pub proof fn failed_looks_are_told(turn: BackgroundTurn, answer: QueryAnswer)
    requires
        turn.wf(),
        turn.stage is Recover || turn.stage is Recheck || turn.stage is QueryNew || turn.stage
            is ExplainUpdate || turn.stage is ExplainNew,
    ensures
        ({
            let step = turn.follows(TurnEvent::Queried(answer));
            &&& step.note is QueryFailed <==> turn.stage is Recover && answer is Failed
            &&& step.note is RecheckFailed <==> turn.stage is Recheck && !(answer is Known)
            &&& step.note is Unsupported <==> turn.stage is QueryNew && !(answer is Known)
            &&& step.note is QueryFailed || step.note is RecheckFailed || step.note is Unsupported
                ==> step.action is Finish && step.turn.record == turn.record && step.turn.budget
                == turn.budget
        }),
{
    reveal(BackgroundTurn::follows);
    reveal(BackgroundTurn::wf);
}

} // verus!
