//! The two efficiency properties of a process, which of them this controller
//! owns, and the journal record that remembers how to give them back.
use vstd::prelude::*;

use crate::process::ProcessKey;

verus! {

/// Whether the scheduler runs a process in the energy-saving class.
#[derive(Debug, Clone, Copy, PartialEq, Eq, Structural)]
pub enum ProcessEcoQosState {
    Unset,
    Enabled,
    Disabled,
}

/// How early the pages of a process are trimmed, from the earliest on.
#[derive(Debug, Clone, Copy, PartialEq, Eq, Structural)]
pub enum ProcessMemoryPriority {
    VeryLow,
    Low,
    Medium,
    BelowNormal,
    Normal,
}

/// The efficiency properties of a process at one moment.
#[derive(Debug, Clone, Copy, PartialEq, Eq, Structural)]
pub struct ProcessEfficiencyState {
    pub eco_qos: ProcessEcoQosState,
    pub memory_priority: ProcessMemoryPriority,
}

/// A set of efficiency properties.
#[derive(Debug, Clone, Copy, PartialEq, Eq, Structural)]
pub struct ProcessEfficiencyOwnership {
    pub eco_qos: bool,
    pub memory_priority: bool,
}

impl Default for ProcessEfficiencyOwnership {
    fn default() -> (none: ProcessEfficiencyOwnership)
        ensures
            !none.eco_qos,
            !none.memory_priority,
    {
        ProcessEfficiencyOwnership { eco_qos: false, memory_priority: false }
    }
}

/// No property at all.
pub open spec fn no_property() -> ProcessEfficiencyOwnership {
    ProcessEfficiencyOwnership { eco_qos: false, memory_priority: false }
}

impl ProcessEfficiencyOwnership {
    /// The properties in which two states differ.
    #[verifier::allow_in_spec]
    pub fn between(
        one: ProcessEfficiencyState,
        other: ProcessEfficiencyState,
    ) -> (differing: ProcessEfficiencyOwnership)
        returns
            (ProcessEfficiencyOwnership {
                eco_qos: one.eco_qos != other.eco_qos,
                memory_priority: one.memory_priority != other.memory_priority,
            }),
    {
        ProcessEfficiencyOwnership {
            eco_qos: one.eco_qos != other.eco_qos,
            memory_priority: one.memory_priority != other.memory_priority,
        }
    }

    /// The properties in either set.
    #[verifier::allow_in_spec]
    pub fn union(self, other: ProcessEfficiencyOwnership) -> (both: ProcessEfficiencyOwnership)
        returns
            (ProcessEfficiencyOwnership {
                eco_qos: self.eco_qos || other.eco_qos,
                memory_priority: self.memory_priority || other.memory_priority,
            }),
    {
        ProcessEfficiencyOwnership {
            eco_qos: self.eco_qos || other.eco_qos,
            memory_priority: self.memory_priority || other.memory_priority,
        }
    }

    /// The properties in both sets.
    #[verifier::allow_in_spec]
    pub fn intersection(self, other: ProcessEfficiencyOwnership) -> (common:
        ProcessEfficiencyOwnership)
        returns
            (ProcessEfficiencyOwnership {
                eco_qos: self.eco_qos && other.eco_qos,
                memory_priority: self.memory_priority && other.memory_priority,
            }),
    {
        ProcessEfficiencyOwnership {
            eco_qos: self.eco_qos && other.eco_qos,
            memory_priority: self.memory_priority && other.memory_priority,
        }
    }

    /// The properties of this set that are not in the other.
    #[verifier::allow_in_spec]
    pub fn without(self, other: ProcessEfficiencyOwnership) -> (rest: ProcessEfficiencyOwnership)
        returns
            (ProcessEfficiencyOwnership {
                eco_qos: self.eco_qos && !other.eco_qos,
                memory_priority: self.memory_priority && !other.memory_priority,
            }),
    {
        ProcessEfficiencyOwnership {
            eco_qos: self.eco_qos && !other.eco_qos,
            memory_priority: self.memory_priority && !other.memory_priority,
        }
    }

    /// Whether the set holds no property.
    #[verifier::allow_in_spec]
    pub fn is_empty(self) -> (empty: bool)
        returns
            (!self.eco_qos && !self.memory_priority),
    {
        !self.eco_qos && !self.memory_priority
    }

    /// Whether two states agree in every property of the set.
    #[verifier::allow_in_spec]
    pub fn matches(
        self,
        expected: ProcessEfficiencyState,
        observed: ProcessEfficiencyState,
    ) -> (same: bool)
        returns
            ((self.eco_qos ==> expected.eco_qos == observed.eco_qos) && (self.memory_priority
                ==> expected.memory_priority == observed.memory_priority)),
    {
        (!self.eco_qos || expected.eco_qos == observed.eco_qos) && (!self.memory_priority
            || expected.memory_priority == observed.memory_priority)
    }

    /// Whether every property of this set is in the other.
    pub open spec fn within(self, other: ProcessEfficiencyOwnership) -> bool {
        (self.eco_qos ==> other.eco_qos) && (self.memory_priority ==> other.memory_priority)
    }
}

/// The settings that govern background efficiency.
#[derive(Debug, Clone, Copy, PartialEq, Eq, Structural)]
pub struct BackgroundPolicy {
    pub eco_qos_enabled: bool,
    pub memory_priority_enabled: bool,
    pub memory_pressure_guard_enabled: bool,
    pub protect_foreground: bool,
    pub protect_visible: bool,
    pub protect_audio: bool,
}

/// The place of a memory priority in the order from the lowest to the highest.
#[verifier::allow_in_spec]
pub fn memory_priority_rank(priority: ProcessMemoryPriority) -> (rank: u8)
    returns
        (match priority {
            ProcessMemoryPriority::VeryLow => 1u8,
            ProcessMemoryPriority::Low => 2u8,
            ProcessMemoryPriority::Medium => 3u8,
            ProcessMemoryPriority::BelowNormal => 4u8,
            ProcessMemoryPriority::Normal => 5u8,
        }),
{
    match priority {
        ProcessMemoryPriority::VeryLow => 1,
        ProcessMemoryPriority::Low => 2,
        ProcessMemoryPriority::Medium => 3,
        ProcessMemoryPriority::BelowNormal => 4,
        ProcessMemoryPriority::Normal => 5,
    }
}

/// The lower of two memory priorities.
#[verifier::allow_in_spec]
pub fn lower_memory_priority(
    original: ProcessMemoryPriority,
    requested: ProcessMemoryPriority,
) -> (lower: ProcessMemoryPriority)
    returns
        (if memory_priority_rank(original) <= memory_priority_rank(requested) {
            original
        } else {
            requested
        }),
{
    if memory_priority_rank(original) <= memory_priority_rank(requested) {
        original
    } else {
        requested
    }
}

/// The memory priority that the policy asks for.
pub open spec fn requested_memory_priority(
    policy: BackgroundPolicy,
    low_memory: bool,
) -> ProcessMemoryPriority {
    if low_memory && policy.memory_pressure_guard_enabled {
        ProcessMemoryPriority::Low
    } else {
        ProcessMemoryPriority::BelowNormal
    }
}

/// The state that the policy wants for a process that had `original`: each
/// enabled property is changed, and the memory priority is never raised.
#[verifier::allow_in_spec]
pub fn desired_background_state(
    policy: BackgroundPolicy,
    original: ProcessEfficiencyState,
    low_memory: bool,
) -> (desired: ProcessEfficiencyState)
    returns
        (ProcessEfficiencyState {
            eco_qos: if policy.eco_qos_enabled {
                ProcessEcoQosState::Enabled
            } else {
                original.eco_qos
            },
            memory_priority: if policy.memory_priority_enabled {
                lower_memory_priority(
                    original.memory_priority,
                    requested_memory_priority(policy, low_memory),
                )
            } else {
                original.memory_priority
            },
        }),
{
    ProcessEfficiencyState {
        eco_qos: if policy.eco_qos_enabled {
            ProcessEcoQosState::Enabled
        } else {
            original.eco_qos
        },
        memory_priority: if policy.memory_priority_enabled {
            let requested = if low_memory && policy.memory_pressure_guard_enabled {
                ProcessMemoryPriority::Low
            } else {
                ProcessMemoryPriority::BelowNormal
            };
            lower_memory_priority(original.memory_priority, requested)
        } else {
            original.memory_priority
        },
    }
}

/// The properties that the policy may change at all.
#[verifier::allow_in_spec]
pub fn configured_background_ownership(policy: BackgroundPolicy) -> (configured:
    ProcessEfficiencyOwnership)
    returns
        (ProcessEfficiencyOwnership {
            eco_qos: policy.eco_qos_enabled,
            memory_priority: policy.memory_priority_enabled,
        }),
{
    ProcessEfficiencyOwnership {
        eco_qos: policy.eco_qos_enabled,
        memory_priority: policy.memory_priority_enabled,
    }
}

/// The owned properties that no longer have the expected value.
#[verifier::allow_in_spec]
pub fn external_override_mask(
    expected: ProcessEfficiencyState,
    observed: ProcessEfficiencyState,
    ownership: ProcessEfficiencyOwnership,
) -> (changed: ProcessEfficiencyOwnership)
    returns
        ownership.intersection(ProcessEfficiencyOwnership::between(expected, observed)),
{
    ProcessEfficiencyOwnership {
        eco_qos: ownership.eco_qos && expected.eco_qos != observed.eco_qos,
        memory_priority: ownership.memory_priority && expected.memory_priority
            != observed.memory_priority,
    }
}

/// What the journal remembers of a process with a background policy.
#[derive(Debug, Clone, Copy, PartialEq, Eq, Structural)]
pub struct ManagedBackgroundProcess {
    pub key: ProcessKey,
    /// What the owned properties go back to.
    pub original: ProcessEfficiencyState,
    /// What the owned properties were last set to.
    pub applied: ProcessEfficiencyState,
    pub ownership: ProcessEfficiencyOwnership,
    /// A change that was announced and is not yet known to have happened.
    pub pending: Option<ProcessEfficiencyState>,
    pub pending_ownership: Option<ProcessEfficiencyOwnership>,
    /// Properties that something else changed and that are left alone since.
    pub blocked_by_external_override: ProcessEfficiencyOwnership,
}

/// `state` with the properties of `mask` taken from `from`.
pub open spec fn overlay(
    state: ProcessEfficiencyState,
    from: ProcessEfficiencyState,
    mask: ProcessEfficiencyOwnership,
) -> ProcessEfficiencyState {
    ProcessEfficiencyState {
        eco_qos: if mask.eco_qos {
            from.eco_qos
        } else {
            state.eco_qos
        },
        memory_priority: if mask.memory_priority {
            from.memory_priority
        } else {
            state.memory_priority
        },
    }
}

/// Every property.
pub open spec fn every_property() -> ProcessEfficiencyOwnership {
    ProcessEfficiencyOwnership { eco_qos: true, memory_priority: true }
}

impl ManagedBackgroundProcess {
    /// A record that the journal accepts when it is read back.
    pub open spec fn valid(self) -> bool {
        &&& self.pending is Some == self.pending_ownership is Some
        &&& self.pending is Some ==> !self.ownership.is_empty()
        &&& self.ownership.intersection(self.blocked_by_external_override).is_empty()
        &&& self.pending_ownership matches Some(pending)
            ==> pending.intersection(self.blocked_by_external_override).is_empty()
    }

    /// The record with its unowned properties taken from `observed`.
    pub open spec fn rebased(self, observed: ProcessEfficiencyState) -> ManagedBackgroundProcess {
        let unowned = every_property().without(self.ownership);
        ManagedBackgroundProcess {
            original: overlay(self.original, observed, unowned),
            applied: overlay(self.applied, observed, unowned),
            ..self
        }
    }

    /// The record with the properties of `changed` given up and blocked, at
    /// the values of `observed`.
    pub open spec fn relinquished(
        self,
        observed: ProcessEfficiencyState,
        changed: ProcessEfficiencyOwnership,
    ) -> ManagedBackgroundProcess {
        ManagedBackgroundProcess {
            ownership: self.ownership.without(changed),
            blocked_by_external_override: self.blocked_by_external_override.union(changed),
            original: overlay(self.original, observed, changed),
            applied: overlay(self.applied, observed, changed),
            ..self
        }
    }

    /// The record without its announced change.
    pub open spec fn settled(self) -> ManagedBackgroundProcess {
        ManagedBackgroundProcess { pending: None, pending_ownership: None, ..self }
    }

    /// The record after a restore that ended in `outcome`.
    pub open spec fn after_restore(self, outcome: RestoreOutcome) -> ManagedBackgroundProcess {
        ManagedBackgroundProcess {
            applied: outcome.observed,
            original: overlay(
                self.original,
                outcome.observed,
                every_property().without(outcome.unrestored_ownership),
            ),
            ownership: outcome.unrestored_ownership,
            blocked_by_external_override: self.blocked_by_external_override.union(
                outcome.externally_preserved(),
            ),
            ..self.settled()
        }
    }
}

/// Takes the unowned properties of a record from what was observed.
pub fn rebase_unowned_efficiency(
    record: &mut ManagedBackgroundProcess,
    observed: ProcessEfficiencyState,
)
    ensures
        *final(record) == old(record).rebased(observed),
{
    if !record.ownership.eco_qos {
        record.original.eco_qos = observed.eco_qos;
        record.applied.eco_qos = observed.eco_qos;
    }
    if !record.ownership.memory_priority {
        record.original.memory_priority = observed.memory_priority;
        record.applied.memory_priority = observed.memory_priority;
    }
}

/// Gives up the properties that something else changed.
pub fn relinquish_external_overrides(
    record: &mut ManagedBackgroundProcess,
    observed: ProcessEfficiencyState,
    changed: ProcessEfficiencyOwnership,
)
    ensures
        *final(record) == old(record).relinquished(observed, changed),
{
    record.ownership = record.ownership.without(changed);
    record.blocked_by_external_override = record.blocked_by_external_override.union(changed);
    if changed.eco_qos {
        record.original.eco_qos = observed.eco_qos;
        record.applied.eco_qos = observed.eco_qos;
    }
    if changed.memory_priority {
        record.original.memory_priority = observed.memory_priority;
        record.applied.memory_priority = observed.memory_priority;
    }
}

/// What a restore left behind.
#[derive(Debug, Clone, Copy, PartialEq, Eq, Structural)]
pub struct RestoreOutcome {
    pub observed: ProcessEfficiencyState,
    pub external_eco_qos_preserved: bool,
    pub external_memory_priority_preserved: bool,
    /// The properties that still have to be given back.
    pub unrestored_ownership: ProcessEfficiencyOwnership,
}

impl RestoreOutcome {
    /// The properties that were left at a value that something else set.
    pub open spec fn externally_preserved(self) -> ProcessEfficiencyOwnership {
        ProcessEfficiencyOwnership {
            eco_qos: self.external_eco_qos_preserved,
            memory_priority: self.external_memory_priority_preserved,
        }
    }

    /// The outcome of restoring the properties of `ownership`: what is left
    /// to do is among them, and nothing left to do was given up.
    pub open spec fn fits(self, ownership: ProcessEfficiencyOwnership) -> bool {
        &&& self.unrestored_ownership.within(ownership)
        &&& self.unrestored_ownership.intersection(self.externally_preserved()).is_empty()
    }
}

/// Records a restore. Returns the properties that were left at a value that
/// something else set.
pub fn apply_restore_report_to_record(
    record: &mut ManagedBackgroundProcess,
    outcome: &RestoreOutcome,
) -> (externally_overridden: ProcessEfficiencyOwnership)
    ensures
        *final(record) == old(record).after_restore(*outcome),
        externally_overridden == outcome.externally_preserved(),
{
    let externally_overridden = ProcessEfficiencyOwnership {
        eco_qos: outcome.external_eco_qos_preserved,
        memory_priority: outcome.external_memory_priority_preserved,
    };
    record.applied = outcome.observed;
    if !outcome.unrestored_ownership.eco_qos {
        record.original.eco_qos = outcome.observed.eco_qos;
    }
    if !outcome.unrestored_ownership.memory_priority {
        record.original.memory_priority = outcome.observed.memory_priority;
    }
    record.ownership = outcome.unrestored_ownership;
    record.pending = None;
    record.pending_ownership = None;
    record.blocked_by_external_override = record.blocked_by_external_override.union(
        externally_overridden,
    );
    externally_overridden
}

/// A background policy never raises the memory priority of a process.
pub proof fn memory_priority_is_never_raised(
    policy: BackgroundPolicy,
    original: ProcessEfficiencyState,
    low_memory: bool,
)
    ensures
        memory_priority_rank(
            desired_background_state(policy, original, low_memory).memory_priority,
        ) <= memory_priority_rank(original.memory_priority),
{
}

/// Memory pressure only lowers the memory priority further.
pub proof fn memory_pressure_only_strengthens(
    policy: BackgroundPolicy,
    original: ProcessEfficiencyState,
)
    ensures
        memory_priority_rank(desired_background_state(policy, original, true).memory_priority)
            <= memory_priority_rank(
            desired_background_state(policy, original, false).memory_priority,
        ),
        desired_background_state(policy, original, true).eco_qos == desired_background_state(
            policy,
            original,
            false,
        ).eco_qos,
{
}

/// A property that is switched off in the policy is left as it was.
pub proof fn disabled_properties_are_untouched(
    policy: BackgroundPolicy,
    original: ProcessEfficiencyState,
    low_memory: bool,
)
    ensures
        ProcessEfficiencyOwnership::between(
            original,
            desired_background_state(policy, original, low_memory),
        ).within(configured_background_ownership(policy)),
{
}

/// Giving up a property leaves the other one, and what it goes back to, alone.
pub proof fn relinquishing_touches_only_the_changed(
    record: ManagedBackgroundProcess,
    observed: ProcessEfficiencyState,
    changed: ProcessEfficiencyOwnership,
)
    ensures
        every_property().without(changed).matches(
            record.original,
            record.relinquished(observed, changed).original,
        ),
        every_property().without(changed).matches(
            record.applied,
            record.relinquished(observed, changed).applied,
        ),
        record.relinquished(observed, changed).ownership == record.ownership.without(changed),
        changed.within(record.relinquished(observed, changed).blocked_by_external_override),
{
}

/// Giving up properties, rebasing and recording a restore keep a record valid.
pub proof fn record_changes_keep_validity(
    record: ManagedBackgroundProcess,
    observed: ProcessEfficiencyState,
    changed: ProcessEfficiencyOwnership,
    outcome: RestoreOutcome,
)
    requires
        record.valid(),
        outcome.fits(record.ownership),
    ensures
        record.rebased(observed).valid(),
        record.settled().valid(),
        record.settled().relinquished(observed, changed).valid(),
        record.after_restore(outcome).valid(),
{
}

/// A complete restore leaves nothing owned and nothing announced.
pub proof fn complete_restore_releases_everything(
    record: ManagedBackgroundProcess,
    outcome: RestoreOutcome,
)
    requires
        outcome.unrestored_ownership.is_empty(),
    ensures
        record.after_restore(outcome).ownership.is_empty(),
        record.after_restore(outcome).pending is None,
        record.after_restore(outcome).original == outcome.observed,
        record.after_restore(outcome).applied == outcome.observed,
{
}

/// One of the two efficiency properties.
pub enum EfficiencyProperty {
    EcoQos,
    MemoryPriority,
}

impl EfficiencyProperty {
    /// Whether a set holds the property.
    pub open spec fn is_in(self, set: ProcessEfficiencyOwnership) -> bool {
        match self {
            EfficiencyProperty::EcoQos => set.eco_qos,
            EfficiencyProperty::MemoryPriority => set.memory_priority,
        }
    }

    /// Whether two states agree in the property.
    pub open spec fn agrees(self, one: ProcessEfficiencyState, other: ProcessEfficiencyState) -> bool {
        match self {
            EfficiencyProperty::EcoQos => one.eco_qos == other.eco_qos,
            EfficiencyProperty::MemoryPriority => one.memory_priority == other.memory_priority,
        }
    }

    /// Whether a policy changes the property.
    pub open spec fn is_enabled(self, policy: BackgroundPolicy) -> bool {
        match self {
            EfficiencyProperty::EcoQos => policy.eco_qos_enabled,
            EfficiencyProperty::MemoryPriority => policy.memory_priority_enabled,
        }
    }
}

/// The memory priorities stand in the order in which pages are trimmed.
pub proof fn memory_priorities_are_ordered(one: ProcessMemoryPriority, other: ProcessMemoryPriority)
    ensures
        memory_priority_rank(ProcessMemoryPriority::VeryLow) < memory_priority_rank(
            ProcessMemoryPriority::Low,
        ) < memory_priority_rank(ProcessMemoryPriority::Medium) < memory_priority_rank(
            ProcessMemoryPriority::BelowNormal,
        ) < memory_priority_rank(ProcessMemoryPriority::Normal),
        memory_priority_rank(one) == memory_priority_rank(other) <==> one == other,
        memory_priority_rank(lower_memory_priority(one, other)) <= memory_priority_rank(one),
        memory_priority_rank(lower_memory_priority(one, other)) <= memory_priority_rank(other),
        lower_memory_priority(one, other) == one || lower_memory_priority(one, other) == other,
{
}

/// An enabled policy saves energy, and brings the memory priority down to
/// below normal, or to low where memory is short and the policy heeds that;
/// a process that is lower already stays there. What is not enabled stays.
pub proof fn policies_ask_for_the_least_change(
    policy: BackgroundPolicy,
    original: ProcessEfficiencyState,
    low_memory: bool,
)
    ensures
        ({
            let desired = desired_background_state(policy, original, low_memory);
            let short = low_memory && policy.memory_pressure_guard_enabled;
            let ceiling = if short {
                ProcessMemoryPriority::Low
            } else {
                ProcessMemoryPriority::BelowNormal
            };
            &&& policy.eco_qos_enabled ==> desired.eco_qos == ProcessEcoQosState::Enabled
            &&& !policy.eco_qos_enabled ==> desired.eco_qos == original.eco_qos
            &&& !policy.memory_priority_enabled ==> desired.memory_priority
                == original.memory_priority
            &&& policy.memory_priority_enabled && memory_priority_rank(original.memory_priority)
                > memory_priority_rank(ceiling) ==> desired.memory_priority == ceiling
            &&& memory_priority_rank(original.memory_priority) <= memory_priority_rank(ceiling)
                ==> desired.memory_priority == original.memory_priority
        }),
{
}

/// The sets of properties obey the laws of sets.
pub proof fn property_sets_are_sets(
    property: EfficiencyProperty,
    a: ProcessEfficiencyOwnership,
    b: ProcessEfficiencyOwnership,
    one: ProcessEfficiencyState,
    other: ProcessEfficiencyState,
    policy: BackgroundPolicy,
)
    ensures
        property.is_in(a.union(b)) <==> property.is_in(a) || property.is_in(b),
        property.is_in(a.intersection(b)) <==> property.is_in(a) && property.is_in(b),
        property.is_in(a.without(b)) <==> property.is_in(a) && !property.is_in(b),
        property.is_in(ProcessEfficiencyOwnership::between(one, other)) <==> !property.agrees(
            one,
            other,
        ),
        property.is_in(configured_background_ownership(policy)) <==> property.is_enabled(policy),
        property.is_in(external_override_mask(one, other, a)) <==> property.is_in(a)
            && !property.agrees(one, other),
        property.is_in(a) ==> !a.is_empty(),
        a.is_empty() <==> !EfficiencyProperty::EcoQos.is_in(a)
            && !EfficiencyProperty::MemoryPriority.is_in(a),
        a.matches(one, other) && property.is_in(a) ==> property.agrees(one, other),
        a.matches(one, other) <==> a.intersection(
            ProcessEfficiencyOwnership::between(one, other),
        ).is_empty(),
{
}

/// A record takes what it does not own from what is observed, and nothing
/// else.
pub proof fn rebasing_keeps_what_is_owned(
    record: ManagedBackgroundProcess,
    observed: ProcessEfficiencyState,
    property: EfficiencyProperty,
)
    ensures
        ({
            let rebased = record.rebased(observed);
            &&& property.is_in(record.ownership) ==> property.agrees(
                rebased.original,
                record.original,
            ) && property.agrees(rebased.applied, record.applied)
            &&& !property.is_in(record.ownership) ==> property.agrees(rebased.original, observed)
                && property.agrees(rebased.applied, observed)
            &&& rebased == (ManagedBackgroundProcess {
                original: rebased.original,
                applied: rebased.applied,
                ..record
            })
        }),
{
}

/// A property that is given up is no longer owned, is left alone from then
/// on, and is remembered as it was found; the other one stays as it is.
pub proof fn given_up_properties_are_left_alone(
    record: ManagedBackgroundProcess,
    observed: ProcessEfficiencyState,
    changed: ProcessEfficiencyOwnership,
    property: EfficiencyProperty,
)
    ensures
        ({
            let after = record.relinquished(observed, changed);
            &&& property.is_in(changed) ==> !property.is_in(after.ownership) && property.is_in(
                after.blocked_by_external_override,
            ) && property.agrees(after.original, observed) && property.agrees(
                after.applied,
                observed,
            )
            &&& !property.is_in(changed) ==> {
                &&& property.is_in(after.ownership) == property.is_in(record.ownership)
                &&& property.is_in(after.blocked_by_external_override) == property.is_in(
                    record.blocked_by_external_override,
                )
                &&& property.agrees(after.original, record.original)
                &&& property.agrees(after.applied, record.applied)
            }
            &&& after.key == record.key
            &&& after.pending == record.pending
            &&& after.pending_ownership == record.pending_ownership
        }),
{
}

/// A restore leaves owned exactly what it could not give back, which still
/// goes back to what it was; what something else had set is left alone from
/// then on.
pub proof fn restores_are_recorded_as_they_ended(
    record: ManagedBackgroundProcess,
    outcome: RestoreOutcome,
    property: EfficiencyProperty,
)
    ensures
        ({
            let after = record.after_restore(outcome);
            &&& property.is_in(after.ownership) <==> property.is_in(outcome.unrestored_ownership)
            &&& property.is_in(outcome.unrestored_ownership) ==> property.agrees(
                after.original,
                record.original,
            )
            &&& !property.is_in(outcome.unrestored_ownership) ==> property.agrees(
                after.original,
                outcome.observed,
            )
            &&& property.agrees(after.applied, outcome.observed)
            &&& after.pending is None
            &&& after.pending_ownership is None
            &&& after.key == record.key
            &&& after.blocked_by_external_override.eco_qos
                == (record.blocked_by_external_override.eco_qos
                || outcome.external_eco_qos_preserved)
            &&& after.blocked_by_external_override.memory_priority
                == (record.blocked_by_external_override.memory_priority
                || outcome.external_memory_priority_preserved)
        }),
{
}

/// A record is taken up again exactly where its announced change and the
/// properties of that change go together, where something is owned while a
/// change is announced, and where nothing that is left alone is owned or to
/// be owned.
pub proof fn valid_records_contradict_nothing(record: ManagedBackgroundProcess)
    ensures
        ({
            let owned = record.ownership;
            let blocked = record.blocked_by_external_override;
            record.valid() <==> {
                &&& record.pending is Some <==> record.pending_ownership is Some
                &&& record.pending is Some ==> owned.eco_qos || owned.memory_priority
                &&& !(owned.eco_qos && blocked.eco_qos)
                &&& !(owned.memory_priority && blocked.memory_priority)
                &&& record.pending_ownership matches Some(announced) ==> !(announced.eco_qos
                    && blocked.eco_qos) && !(announced.memory_priority && blocked.memory_priority)
            }
        }),
{
}

} // verus!
