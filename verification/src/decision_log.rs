//! Bounded aggregation for high-frequency placement decisions.
use vstd::prelude::*;

use crate::observed::ExclusionReason;
use crate::policy::DecisionReason;
use crate::policy::PolicyAction;
use crate::policy::PolicyDecision;
use crate::process::contains_key;
use crate::process::ProcessKey;
use crate::text::comes_before;

verus! {

pub const DEFAULT_DECISION_SUMMARY_INTERVAL_MS: u64 = 60_000;

pub const MAX_DECISION_SUMMARY_UNIQUE_PROCESSES: usize = 4_096;

/// How many decisions led to which action.
#[derive(Debug, Clone, Copy, PartialEq, Eq, Structural)]
pub struct DecisionActionCounts {
    pub ignore: u64,
    pub keep: u64,
    pub assign: u64,
    pub move_process: u64,
    pub clear: u64,
}

/// How many decisions had one reason.
#[derive(Debug, Clone, Copy, PartialEq, Eq)]
pub struct DecisionReasonCount {
    pub reason: &'static str,
    pub count: u64,
}

/// The decisions of one window, summed up.
#[derive(Debug, Clone, PartialEq, Eq)]
pub struct DecisionLogSummary {
    pub window_duration_ms: u64,
    pub decisions: u64,
    pub unique_processes: usize,
    pub unique_processes_saturated: bool,
    pub enforcement_requested: u64,
    pub actions: DecisionActionCounts,
    pub reasons: Vec<DecisionReasonCount>,
}

/// Sums up decisions and says when a summary is due.
pub struct DecisionSummaryGate {
    summary_interval_ms: u64,
    window_started_ms: Option<u64>,
    decisions: u64,
    unique_processes: Vec<ProcessKey>,
    unique_processes_saturated: bool,
    enforcement_requested: u64,
    actions: DecisionActionCounts,
    reasons: Vec<DecisionReasonCount>,
    window: Ghost<Seq<PolicyDecision>>,
}

/// A count in as many bits as it is kept in.
pub open spec fn saturated(count: nat) -> u64 {
    if count > u64::MAX {
        u64::MAX
    } else {
        count as u64
    }
}

/// How many decisions have a property.
pub open spec fn decided(window: Seq<PolicyDecision>, holds: spec_fn(PolicyDecision) -> bool) -> nat
    decreases window.len(),
{
    if window.len() == 0 {
        0
    } else {
        decided(window.drop_last(), holds) + if holds(window.last()) {
            1nat
        } else {
            0nat
        }
    }
}

/// The processes that the decisions are about.
pub open spec fn processes_of(window: Seq<PolicyDecision>) -> Set<ProcessKey>
    decreases window.len(),
{
    if window.len() == 0 {
        Set::empty()
    } else {
        processes_of(window.drop_last()).insert(window.last().process)
    }
}

/// The name of a reason.
pub open spec fn reason_text(reason: DecisionReason) -> Seq<char> {
    match reason {
        DecisionReason::ModeOff => "mode_off"@,
        DecisionReason::Excluded(ExclusionReason::SystemProcess) => "excluded_system_process"@,
        DecisionReason::Excluded(ExclusionReason::SessionZero) => "excluded_session_zero"@,
        DecisionReason::Excluded(ExclusionReason::ProtectedProcess) =>
            "excluded_protected_process"@,
        DecisionReason::Excluded(ExclusionReason::RealtimeProcess) => "excluded_realtime_process"@,
        DecisionReason::Excluded(ExclusionReason::ExplicitRule) => "excluded_explicit_rule"@,
        DecisionReason::ExternalAssignment => "external_assignment"@,
        DecisionReason::PendingMutation => "pending_mutation"@,
        DecisionReason::PartitionRefresh => "partition_refresh"@,
        DecisionReason::ProfilePartition => "profile_partition"@,
        DecisionReason::ProfilePartitionStable => "profile_partition_stable"@,
        DecisionReason::InitialPlacement => "initial_placement"@,
        DecisionReason::StickyPlacement => "sticky_placement"@,
        DecisionReason::BelowOverloadThreshold => "below_overload_threshold"@,
        DecisionReason::StabilityWindow => "stability_window"@,
        DecisionReason::MinimumResidency => "minimum_residency"@,
        DecisionReason::Cooldown => "cooldown"@,
        DecisionReason::InsufficientImprovement => "insufficient_improvement"@,
        DecisionReason::NoAlternativeDomain => "no_alternative_domain"@,
        DecisionReason::BetterDomain => "better_domain"@,
        DecisionReason::StrictPlacement => "strict_placement"@,
        DecisionReason::AlreadyStrict => "already_strict"@,
        DecisionReason::RateLimited => "rate_limited"@,
    }
}

/// The name of a reason.
pub fn reason_name(reason: DecisionReason) -> (name: &'static str)
    ensures
        name@ == reason_text(reason),
{
    match reason {
        DecisionReason::ModeOff => "mode_off",
        DecisionReason::Excluded(ExclusionReason::SystemProcess) => "excluded_system_process",
        DecisionReason::Excluded(ExclusionReason::SessionZero) => "excluded_session_zero",
        DecisionReason::Excluded(ExclusionReason::ProtectedProcess) => "excluded_protected_process",
        DecisionReason::Excluded(ExclusionReason::RealtimeProcess) => "excluded_realtime_process",
        DecisionReason::Excluded(ExclusionReason::ExplicitRule) => "excluded_explicit_rule",
        DecisionReason::ExternalAssignment => "external_assignment",
        DecisionReason::PendingMutation => "pending_mutation",
        DecisionReason::PartitionRefresh => "partition_refresh",
        DecisionReason::ProfilePartition => "profile_partition",
        DecisionReason::ProfilePartitionStable => "profile_partition_stable",
        DecisionReason::InitialPlacement => "initial_placement",
        DecisionReason::StickyPlacement => "sticky_placement",
        DecisionReason::BelowOverloadThreshold => "below_overload_threshold",
        DecisionReason::StabilityWindow => "stability_window",
        DecisionReason::MinimumResidency => "minimum_residency",
        DecisionReason::Cooldown => "cooldown",
        DecisionReason::InsufficientImprovement => "insufficient_improvement",
        DecisionReason::NoAlternativeDomain => "no_alternative_domain",
        DecisionReason::BetterDomain => "better_domain",
        DecisionReason::StrictPlacement => "strict_placement",
        DecisionReason::AlreadyStrict => "already_strict",
        DecisionReason::RateLimited => "rate_limited",
    }
}

/// How many decisions had a reason of this name.
pub open spec fn named(window: Seq<PolicyDecision>, name: Seq<char>) -> nat {
    decided(window, |decision: PolicyDecision| reason_text(decision.reason) == name)
}

/// Whether the list names a reason.
pub open spec fn lists(reasons: Seq<DecisionReasonCount>, name: Seq<char>) -> bool {
    exists|i: int| 0 <= i < reasons.len() && (#[trigger] reasons[i]).reason@ == name
}

/// The list holds, in the order of their names, each reason that occurred and
/// how often.
pub open spec fn tallies(reasons: Seq<DecisionReasonCount>, window: Seq<PolicyDecision>) -> bool {
    &&& forall|i: int, j: int|
        #![trigger reasons[i], reasons[j]]
        0 <= i < j < reasons.len() ==> crate::text::text_before(
            reasons[i].reason@,
            reasons[j].reason@,
        )
    &&& forall|i: int|
        0 <= i < reasons.len() ==> (#[trigger] reasons[i]).count == saturated(
            named(window, reasons[i].reason@),
        )
    &&& forall|name: Seq<char>| #[trigger] lists(reasons, name) <==> named(window, name) > 0
}

/// The counts of the actions.
pub open spec fn action_counts(window: Seq<PolicyDecision>) -> DecisionActionCounts {
    DecisionActionCounts {
        ignore: saturated(decided(window, |d: PolicyDecision| d.action is Ignore)),
        keep: saturated(decided(window, |d: PolicyDecision| d.action is Keep)),
        assign: saturated(decided(window, |d: PolicyDecision| d.action is Assign)),
        move_process: saturated(decided(window, |d: PolicyDecision| d.action is Move)),
        clear: saturated(decided(window, |d: PolicyDecision| d.action is Clear)),
    }
}

/// What the summary of a window says.
pub open spec fn sums_up(
    summary: DecisionLogSummary,
    window: Seq<PolicyDecision>,
    started_ms: u64,
    now_ms: u64,
) -> bool {
    &&& summary.window_duration_ms == if now_ms >= started_ms {
        now_ms - started_ms
    } else {
        0
    }
    &&& summary.decisions == saturated(window.len())
    &&& summary.unique_processes == if processes_of(window).len()
        <= MAX_DECISION_SUMMARY_UNIQUE_PROCESSES {
        processes_of(window).len()
    } else {
        MAX_DECISION_SUMMARY_UNIQUE_PROCESSES as nat
    }
    &&& summary.unique_processes_saturated == (processes_of(window).len()
        > MAX_DECISION_SUMMARY_UNIQUE_PROCESSES)
    &&& summary.enforcement_requested == saturated(
        decided(window, |d: PolicyDecision| d.enforce),
    )
    &&& summary.actions == action_counts(window)
    &&& tallies(summary.reasons@, window)
}

/// The decisions of a window that is not yet summed up, and when it began.
pub ghost struct OpenWindow {
    pub started_ms: Option<u64>,
    pub decisions: Seq<PolicyDecision>,
}

impl OpenWindow {
    /// Whether the interval has passed since the window began.
    pub open spec fn due(self, interval_ms: u64, now_ms: u64) -> bool {
        self.started_ms matches Some(started) && now_ms >= started && now_ms - started
            >= interval_ms
    }

    /// The window that is open once this one is taken: an empty window is
    /// closed, any other begins anew.
    pub open spec fn taken(self, now_ms: u64) -> OpenWindow {
        OpenWindow {
            started_ms: if self.decisions.len() == 0 {
                None
            } else {
                Some(now_ms)
            },
            decisions: Seq::empty(),
        }
    }

    /// The window that is open after the clock is looked at. A clock that
    /// went back starts the window anew and keeps its decisions.
    pub open spec fn at(self, interval_ms: u64, now_ms: u64) -> OpenWindow {
        if self.due(interval_ms, now_ms) {
            self.taken(now_ms)
        } else if self.started_ms matches Some(started) && now_ms < started {
            OpenWindow { started_ms: Some(now_ms), ..self }
        } else {
            self
        }
    }

    /// The window with one more decision.
    pub open spec fn with(self, now_ms: u64, decision: PolicyDecision) -> OpenWindow {
        OpenWindow {
            started_ms: match self.started_ms {
                Some(started) => Some(started),
                None => Some(now_ms),
            },
            decisions: self.decisions.push(decision),
        }
    }
}

/// The summary that taking a window gives.
pub open spec fn summary_of(
    summary: Option<DecisionLogSummary>,
    window: OpenWindow,
    now_ms: u64,
) -> bool {
    &&& summary is Some <==> window.decisions.len() > 0
    &&& summary matches Some(said) ==> sums_up(
        said,
        window.decisions,
        match window.started_ms {
            Some(started) => started,
            None => now_ms,
        },
        now_ms,
    )
}

proof fn counts_grow(
    window: Seq<PolicyDecision>,
    decision: PolicyDecision,
    holds: spec_fn(PolicyDecision) -> bool,
)
    ensures
        decided(window.push(decision), holds) == decided(window, holds) + if holds(decision) {
            1nat
        } else {
            0nat
        },
{
    assert(window.push(decision).drop_last() =~= window);
}

impl DecisionSummaryGate {
    /// How long a window lasts.
    pub closed spec fn interval(&self) -> u64 {
        self.summary_interval_ms
    }

    /// The window that is open.
    pub closed spec fn open_window(&self) -> OpenWindow {
        OpenWindow { started_ms: self.window_started_ms, decisions: self.window@ }
    }

    pub closed spec fn wf(&self) -> bool {
        let window = self.window@;
        &&& self.summary_interval_ms > 0
        &&& self.decisions == saturated(window.len())
        &&& self.enforcement_requested == saturated(
            decided(window, |d: PolicyDecision| d.enforce),
        )
        &&& self.actions == action_counts(window)
        &&& tallies(self.reasons@, window)
        &&& self.unique_processes@.no_duplicates()
        &&& processes_of(window).finite()
        &&& self.unique_processes.len() <= MAX_DECISION_SUMMARY_UNIQUE_PROCESSES
        &&& self.unique_processes_saturated <==> processes_of(window).len()
            > MAX_DECISION_SUMMARY_UNIQUE_PROCESSES
        &&& if self.unique_processes_saturated {
            self.unique_processes.len() == MAX_DECISION_SUMMARY_UNIQUE_PROCESSES
                && self.unique_processes@.to_set().subset_of(processes_of(window))
        } else {
            self.unique_processes@.to_set() == processes_of(window)
        }
    }

    /// A gate whose windows last `summary_interval_ms`, and at least one
    /// millisecond.
    pub fn new(summary_interval_ms: u64) -> (gate: DecisionSummaryGate)
        ensures
            gate.wf(),
            gate.interval() == if summary_interval_ms == 0 {
                1
            } else {
                summary_interval_ms
            },
            gate.open_window() == (OpenWindow {
                started_ms: None,
                decisions: Seq::<PolicyDecision>::empty(),
            }),
    {
        let gate = DecisionSummaryGate {
            summary_interval_ms: if summary_interval_ms == 0 {
                1
            } else {
                summary_interval_ms
            },
            window_started_ms: None,
            decisions: 0,
            unique_processes: Vec::new(),
            unique_processes_saturated: false,
            enforcement_requested: 0,
            actions: DecisionActionCounts {
                ignore: 0,
                keep: 0,
                assign: 0,
                move_process: 0,
                clear: 0,
            },
            reasons: Vec::new(),
            window: Ghost(Seq::empty()),
        };
        proof {
            assert(gate.unique_processes@.to_set() =~= processes_of(gate.window@));
        }
        gate
    }

    /// Records one decision and returns the summary of the window before it,
    /// if that is due.
    pub fn observe(&mut self, now_ms: u64, decision: &PolicyDecision) -> (summary: Option<
        DecisionLogSummary,
    >)
        requires
            old(self).wf(),
        ensures
            final(self).wf(),
            final(self).interval() == old(self).interval(),
            final(self).open_window() == old(self).open_window().at(
                old(self).interval(),
                now_ms,
            ).with(now_ms, *decision),
            if old(self).open_window().due(old(self).interval(), now_ms) {
                summary_of(summary, old(self).open_window(), now_ms)
            } else {
                summary is None
            },
    {
        let summary = self.flush_if_due(now_ms);
        if self.window_started_ms.is_none() {
            self.window_started_ms = Some(now_ms);
        }
        self.count(decision);
        summary
    }

    /// Adds a decision to the counts.
    fn count(&mut self, decision: &PolicyDecision)
        requires
            old(self).wf(),
        ensures
            final(self).wf(),
            final(self).interval() == old(self).interval(),
            final(self).open_window() == (OpenWindow {
                decisions: old(self).open_window().decisions.push(*decision),
                ..old(self).open_window()
            }),
    {
        let ghost window = self.window@;
        proof {
            counts_grow(window, *decision, |d: PolicyDecision| d.enforce);
            counts_grow(window, *decision, |d: PolicyDecision| d.action is Ignore);
            counts_grow(window, *decision, |d: PolicyDecision| d.action is Keep);
            counts_grow(window, *decision, |d: PolicyDecision| d.action is Assign);
            counts_grow(window, *decision, |d: PolicyDecision| d.action is Move);
            counts_grow(window, *decision, |d: PolicyDecision| d.action is Clear);
            assert(window.push(*decision).drop_last() =~= window);
        }
        self.decisions = self.decisions.saturating_add(1);
        self.note_process(decision.process);
        if decision.enforce {
            self.enforcement_requested = self.enforcement_requested.saturating_add(1);
        }
        match &decision.action {
            PolicyAction::Ignore => {
                self.actions.ignore = self.actions.ignore.saturating_add(1);
            },
            PolicyAction::Keep { .. } => {
                self.actions.keep = self.actions.keep.saturating_add(1);
            },
            PolicyAction::Assign { .. } => {
                self.actions.assign = self.actions.assign.saturating_add(1);
            },
            PolicyAction::Move { .. } => {
                self.actions.move_process = self.actions.move_process.saturating_add(1);
            },
            PolicyAction::Clear { .. } => {
                self.actions.clear = self.actions.clear.saturating_add(1);
            },
        }
        count_reason(&mut self.reasons, decision, Ghost(window));
        self.window = Ghost(window.push(*decision));
    }

    /// Notes the process of one more decision.
    fn note_process(&mut self, process: ProcessKey)
        requires
            old(self).unique_processes@.no_duplicates(),
            processes_of(old(self).window@).finite(),
            old(self).unique_processes.len() <= MAX_DECISION_SUMMARY_UNIQUE_PROCESSES,
            old(self).unique_processes_saturated <==> processes_of(old(self).window@).len()
                > MAX_DECISION_SUMMARY_UNIQUE_PROCESSES,
            if old(self).unique_processes_saturated {
                old(self).unique_processes.len() == MAX_DECISION_SUMMARY_UNIQUE_PROCESSES && old(
                    self,
                ).unique_processes@.to_set().subset_of(processes_of(old(self).window@))
            } else {
                old(self).unique_processes@.to_set() == processes_of(old(self).window@)
            },
        ensures
            *final(self) == (DecisionSummaryGate {
                unique_processes: final(self).unique_processes,
                unique_processes_saturated: final(self).unique_processes_saturated,
                ..*old(self)
            }),
            final(self).unique_processes@.no_duplicates(),
            final(self).unique_processes.len() <= MAX_DECISION_SUMMARY_UNIQUE_PROCESSES,
            ({
                let now = processes_of(old(self).window@).insert(process);
                &&& final(self).unique_processes_saturated <==> now.len()
                    > MAX_DECISION_SUMMARY_UNIQUE_PROCESSES
                &&& if final(self).unique_processes_saturated {
                    final(self).unique_processes.len() == MAX_DECISION_SUMMARY_UNIQUE_PROCESSES
                        && final(self).unique_processes@.to_set().subset_of(now)
                } else {
                    final(self).unique_processes@.to_set() == now
                }
            }),
    {
        let ghost known = processes_of(self.window@);
        let ghost listed = self.unique_processes@;
        proof {
            listed.unique_seq_to_set();
        }
        if contains_key(&self.unique_processes, process) {
            proof {
                assert(listed.to_set().contains(process));
                assert(known.insert(process) =~= known);
            }
        } else if self.unique_processes.len() < MAX_DECISION_SUMMARY_UNIQUE_PROCESSES {
            self.unique_processes.push(process);
            proof {
                let grown = self.unique_processes@;
                assert(!listed.to_set().contains(process));
                assert(grown.to_set() =~= listed.to_set().insert(process)) by {
                    assert forall|key: ProcessKey|
                        grown.to_set().contains(key) <==> listed.to_set().insert(
                            process,
                        ).contains(key) by {
                        if listed.contains(key) {
                            let i = choose|i: int| 0 <= i < listed.len() && listed[i] == key;
                            assert(grown[i] == key);
                        }
                        if key == process {
                            assert(grown[listed.len() as int] == key);
                        }
                        if grown.contains(key) && key != process {
                            let i = choose|i: int| 0 <= i < grown.len() && grown[i] == key;
                            assert(listed[i] == key);
                        }
                    }
                }
                assert forall|i: int, j: int|
                    0 <= i < grown.len() && 0 <= j < grown.len() && i != j implies grown[i]
                    != grown[j] by {
                    if i == listed.len() {
                        assert(listed.contains(listed[j]));
                    } else if j == listed.len() {
                        assert(listed.contains(listed[i]));
                    } else {
                        assert(listed[i] != listed[j]);
                    }
                }
            }
        } else {
            self.unique_processes_saturated = true;
            proof {
                assert(!listed.to_set().contains(process));
                if !old(self).unique_processes_saturated {
                    assert(!known.contains(process));
                } else {
                    assert(known.insert(process).len() >= known.len());
                }
            }
        }
    }

    /// Sums up a window that is not empty, for shutdown or for changed
    /// logging settings.
    pub fn flush(&mut self, now_ms: u64) -> (summary: Option<DecisionLogSummary>)
        requires
            old(self).wf(),
        ensures
            final(self).wf(),
            final(self).interval() == old(self).interval(),
            final(self).open_window() == old(self).open_window().taken(now_ms),
            summary_of(summary, old(self).open_window(), now_ms),
    {
        if self.decisions == 0 {
            self.window_started_ms = None;
            proof {
                assert(self.open_window().decisions =~= Seq::<PolicyDecision>::empty());
            }
            return None;
        }
        let ghost window = self.window@;
        proof {
            self.unique_processes@.unique_seq_to_set();
        }
        let started: u64 = match self.window_started_ms {
            Some(started) => started,
            None => now_ms,
        };
        let unique_processes: usize = self.unique_processes.len();
        let mut reasons: Vec<DecisionReasonCount> = Vec::new();
        std::mem::swap(&mut reasons, &mut self.reasons);
        let summary = DecisionLogSummary {
            window_duration_ms: now_ms.saturating_sub(started),
            decisions: self.decisions,
            unique_processes,
            unique_processes_saturated: self.unique_processes_saturated,
            enforcement_requested: self.enforcement_requested,
            actions: self.actions,
            reasons,
        };
        self.clear();
        self.window_started_ms = Some(now_ms);
        Some(summary)
    }

    /// Sums up a window that is not empty, once the interval has passed.
    pub fn flush_if_due(&mut self, now_ms: u64) -> (summary: Option<DecisionLogSummary>)
        requires
            old(self).wf(),
        ensures
            final(self).wf(),
            final(self).interval() == old(self).interval(),
            final(self).open_window() == old(self).open_window().at(
                old(self).interval(),
                now_ms,
            ),
            if old(self).open_window().due(old(self).interval(), now_ms) {
                summary_of(summary, old(self).open_window(), now_ms)
            } else {
                summary is None
            },
    {
        match self.window_started_ms {
            None => None,
            Some(started) => {
                if now_ms < started {
                    self.window_started_ms = Some(now_ms);
                    None
                } else if now_ms - started < self.summary_interval_ms {
                    None
                } else {
                    self.flush(now_ms)
                }
            },
        }
    }

    /// Forgets the open window.
    pub fn reset(&mut self)
        requires
            old(self).wf(),
        ensures
            final(self).wf(),
            final(self).interval() == old(self).interval(),
            final(self).open_window() == (OpenWindow {
                started_ms: None,
                decisions: Seq::<PolicyDecision>::empty(),
            }),
    {
        self.clear();
        self.window_started_ms = None;
    }

    fn clear(&mut self)
        requires
            old(self).summary_interval_ms > 0,
        ensures
            final(self).wf(),
            final(self).summary_interval_ms == old(self).summary_interval_ms,
            final(self).window_started_ms == old(self).window_started_ms,
            final(self).window@ == Seq::<PolicyDecision>::empty(),
    {
        self.decisions = 0;
        self.unique_processes = Vec::new();
        self.unique_processes_saturated = false;
        self.enforcement_requested = 0;
        self.actions = DecisionActionCounts {
            ignore: 0,
            keep: 0,
            assign: 0,
            move_process: 0,
            clear: 0,
        };
        self.reasons = Vec::new();
        self.window = Ghost(Seq::empty());
        proof {
            assert(self.unique_processes@.to_set() =~= processes_of(self.window@));
        }
    }
}

impl Default for DecisionSummaryGate {
    fn default() -> (gate: DecisionSummaryGate)
        ensures
            gate.wf(),
            gate.interval() == DEFAULT_DECISION_SUMMARY_INTERVAL_MS,
            gate.open_window() == (OpenWindow {
                started_ms: None,
                decisions: Seq::<PolicyDecision>::empty(),
            }),
    {
        DecisionSummaryGate::new(DEFAULT_DECISION_SUMMARY_INTERVAL_MS)
    }
}

/// Counts the reason of one more decision.
fn count_reason(
    reasons: &mut Vec<DecisionReasonCount>,
    decision: &PolicyDecision,
    window: Ghost<Seq<PolicyDecision>>,
)
    requires
        tallies(old(reasons)@, window@),
    ensures
        tallies(final(reasons)@, window@.push(*decision)),
{
    let name = reason_name(decision.reason);
    let ghost before = reasons@;
    let ghost after = window@.push(*decision);
    proof {
        assert forall|other: Seq<char>|
            #![trigger named(after, other)]
            named(after, other) == named(window@, other) + if other == name@ {
                1nat
            } else {
                0nat
            } by {
            counts_grow(
                window@,
                *decision,
                |d: PolicyDecision| reason_text(d.reason) == other,
            );
        }
    }
    let mut at: usize = 0;
    while at < reasons.len() && comes_before(reasons[at].reason, name)
        invariant
            at <= reasons.len(),
            reasons@ == before,
            forall|i: int|
                0 <= i < at ==> crate::text::text_before(
                    (#[trigger] before[i]).reason@,
                    name@,
                ),
        decreases reasons.len() - at,
    {
        at = at + 1;
    }
    let found = at < reasons.len() && crate::text::same_text(reasons[at].reason, name);
    if found {
        let count: u64 = reasons[at].count.saturating_add(1);
        let reason = reasons[at].reason;
        reasons.set(at, DecisionReasonCount { reason, count });
        proof {
            reason_counted(before, reasons@, window@, after, name@, at as int);
        }
    } else {
        reasons.insert(at, DecisionReasonCount { reason: name, count: 1 });
        proof {
            reason_added(before, reasons@, window@, after, name@, at as int);
        }
    }
}

proof fn reason_counted(
    before: Seq<DecisionReasonCount>,
    now: Seq<DecisionReasonCount>,
    window: Seq<PolicyDecision>,
    after: Seq<PolicyDecision>,
    name: Seq<char>,
    at: int,
)
    requires
        tallies(before, window),
        0 <= at < before.len(),
        before[at].reason@ == name,
        now.len() == before.len(),
        now == before.update(at, now[at]),
        now[at].reason == before[at].reason,
        now[at].count == if before[at].count < u64::MAX {
            (before[at].count + 1) as u64
        } else {
            u64::MAX
        },
        forall|other: Seq<char>|
            #![trigger named(after, other)]
            named(after, other) == named(window, other) + if other == name {
                1nat
            } else {
                0nat
            },
    ensures
        tallies(now, after),
{
    assert forall|i: int| 0 <= i < now.len() implies (#[trigger] now[i]).reason@
        == before[i].reason@ by {}
    assert forall|i: int| 0 <= i < now.len() implies (#[trigger] now[i]).count == saturated(
        named(after, now[i].reason@),
    ) by {
        assert(before[i].count == saturated(named(window, before[i].reason@)));
        if i != at {
            if i < at {
                assert(crate::text::text_before(before[i].reason@, before[at].reason@));
            } else {
                assert(crate::text::text_before(before[at].reason@, before[i].reason@));
            }
            crate::text::text_order_is_irreflexive(name);
        }
    }
    assert forall|other: Seq<char>| #[trigger]
        lists(now, other) <==> named(after, other) > 0 by {
        assert(lists(before, other) <==> named(window, other) > 0);
        if lists(before, other) {
            let i = choose|i: int|
                0 <= i < before.len() && (#[trigger] before[i]).reason@ == other;
            assert(now[i].reason@ == other);
        }
        if lists(now, other) {
            let i = choose|i: int| 0 <= i < now.len() && (#[trigger] now[i]).reason@ == other;
            assert(before[i].reason@ == other);
        }
        if other == name {
            assert(now[at].reason@ == other);
        }
    }
}

proof fn reason_added(
    before: Seq<DecisionReasonCount>,
    now: Seq<DecisionReasonCount>,
    window: Seq<PolicyDecision>,
    after: Seq<PolicyDecision>,
    name: Seq<char>,
    at: int,
)
    requires
        tallies(before, window),
        0 <= at <= before.len(),
        forall|i: int|
            0 <= i < at ==> crate::text::text_before((#[trigger] before[i]).reason@, name),
        at < before.len() ==> !crate::text::text_before(before[at].reason@, name)
            && before[at].reason@ != name,
        now.len() == before.len() + 1,
        now[at].reason@ == name,
        now[at].count == 1,
        now == before.insert(at, now[at]),
        forall|other: Seq<char>|
            #![trigger named(after, other)]
            named(after, other) == named(window, other) + if other == name {
                1nat
            } else {
                0nat
            },
    ensures
        tallies(now, after),
{
    assert forall|i: int| at <= i < before.len() implies crate::text::text_before(
        name,
        (#[trigger] before[i]).reason@,
    ) by {
        crate::text::text_order_is_total(name, before[at].reason@);
        if at < i {
            assert(crate::text::text_before(before[at].reason@, before[i].reason@));
            crate::text::text_order_is_transitive(name, before[at].reason@, before[i].reason@);
        }
    }
    crate::text::text_order_is_irreflexive(name);
    assert(!lists(before, name)) by {
        if lists(before, name) {
            let i = choose|i: int|
                0 <= i < before.len() && (#[trigger] before[i]).reason@ == name;
            if i < at {
                assert(crate::text::text_before(before[i].reason@, name));
            } else {
                assert(crate::text::text_before(name, before[i].reason@));
            }
        }
    }
    assert(named(window, name) == 0);
    assert forall|i: int, j: int| 0 <= i < j < now.len() implies crate::text::text_before(
        #[trigger] now[i].reason@,
        #[trigger] now[j].reason@,
    ) by {
        let a = if i < at {
            i
        } else {
            i - 1
        };
        let b = if j < at {
            j
        } else {
            j - 1
        };
        if i != at && j != at {
            assert(now[i] == before[a] && now[j] == before[b]);
            assert(crate::text::text_before(before[a].reason@, before[b].reason@));
        } else if i == at {
            assert(now[j] == before[b]);
        } else {
            assert(now[i] == before[a]);
        }
    }
    assert forall|i: int| 0 <= i < now.len() implies (#[trigger] now[i]).count == saturated(
        named(after, now[i].reason@),
    ) by {
        if i != at {
            let a = if i < at {
                i
            } else {
                i - 1
            };
            assert(now[i] == before[a]);
            assert(before[a].count == saturated(named(window, before[a].reason@)));
            assert(lists(before, before[a].reason@));
        }
    }
    assert forall|other: Seq<char>| #[trigger]
        lists(now, other) <==> named(after, other) > 0 by {
        assert(lists(before, other) <==> named(window, other) > 0);
        if lists(before, other) {
            let i = choose|i: int|
                0 <= i < before.len() && (#[trigger] before[i]).reason@ == other;
            assert(now[if i < at {
                i
            } else {
                i + 1
            }].reason@ == other);
        }
        if other == name {
            assert(now[at].reason@ == other);
        }
        if lists(now, other) && other != name {
            let i = choose|i: int| 0 <= i < now.len() && (#[trigger] now[i]).reason@ == other;
            assert(before[if i < at {
                i
            } else {
                i - 1
            }].reason@ == other);
        }
    }
}

/// No two reasons have the same name.
pub proof fn reason_names_differ(a: DecisionReason, b: DecisionReason)
    requires
        a != b,
    ensures
        reason_text(a) != reason_text(b),
{
    reveal_strlit("mode_off");
    reveal_strlit("excluded_system_process");
    reveal_strlit("excluded_session_zero");
    reveal_strlit("excluded_protected_process");
    reveal_strlit("excluded_realtime_process");
    reveal_strlit("excluded_explicit_rule");
    reveal_strlit("external_assignment");
    reveal_strlit("pending_mutation");
    reveal_strlit("partition_refresh");
    reveal_strlit("profile_partition");
    reveal_strlit("profile_partition_stable");
    reveal_strlit("initial_placement");
    reveal_strlit("sticky_placement");
    reveal_strlit("below_overload_threshold");
    reveal_strlit("stability_window");
    reveal_strlit("minimum_residency");
    reveal_strlit("cooldown");
    reveal_strlit("insufficient_improvement");
    reveal_strlit("no_alternative_domain");
    reveal_strlit("better_domain");
    reveal_strlit("strict_placement");
    reveal_strlit("already_strict");
    reveal_strlit("rate_limited");
    assert("mode_off"@.len() == 8);
    assert("excluded_system_process"@.len() == 23);
    assert("excluded_session_zero"@.len() == 21);
    assert("excluded_protected_process"@.len() == 26);
    assert("excluded_realtime_process"@.len() == 25);
    assert("excluded_explicit_rule"@.len() == 22);
    assert("external_assignment"@.len() == 19);
    assert("pending_mutation"@.len() == 16);
    assert("partition_refresh"@.len() == 17);
    assert("profile_partition"@.len() == 17);
    assert("profile_partition_stable"@.len() == 24);
    assert("initial_placement"@.len() == 17);
    assert("sticky_placement"@.len() == 16);
    assert("below_overload_threshold"@.len() == 24);
    assert("stability_window"@.len() == 16);
    assert("minimum_residency"@.len() == 17);
    assert("cooldown"@.len() == 8);
    assert("insufficient_improvement"@.len() == 24);
    assert("no_alternative_domain"@.len() == 21);
    assert("better_domain"@.len() == 13);
    assert("strict_placement"@.len() == 16);
    assert("already_strict"@.len() == 14);
    assert("rate_limited"@.len() == 12);
    assert("mode_off"@[0] == 'm');
    assert("cooldown"@[0] == 'c');
    assert("excluded_session_zero"@[0] == 'e');
    assert("no_alternative_domain"@[0] == 'n');
    assert("pending_mutation"@[2] == 'n');
    assert("sticky_placement"@[2] == 'i');
    assert("stability_window"@[2] == 'a');
    assert("strict_placement"@[2] == 'r');
    assert("partition_refresh"@[1] == 'a');
    assert("profile_partition"@[1] == 'r');
    assert("initial_placement"@[1] == 'n');
    assert("minimum_residency"@[1] == 'i');
    assert("profile_partition_stable"@[0] == 'p');
    assert("below_overload_threshold"@[0] == 'b');
    assert("insufficient_improvement"@[0] == 'i');
}

/// A decision is counted once, under its action and its reason, and among
/// those to be enforced where it is.
pub proof fn decisions_are_counted_once(window: Seq<PolicyDecision>, decision: PolicyDecision)
    requires
        window.len() < u64::MAX,
    ensures
        ({
            let before = action_counts(window);
            let after = action_counts(window.push(decision));
            &&& after.ignore - before.ignore == if decision.action is Ignore {
                1int
            } else {
                0int
            }
            &&& after.keep - before.keep == if decision.action is Keep {
                1int
            } else {
                0int
            }
            &&& after.assign - before.assign == if decision.action is Assign {
                1int
            } else {
                0int
            }
            &&& after.move_process - before.move_process == if decision.action is Move {
                1int
            } else {
                0int
            }
            &&& after.clear - before.clear == if decision.action is Clear {
                1int
            } else {
                0int
            }
        }),
        named(window.push(decision), reason_text(decision.reason)) == named(
            window,
            reason_text(decision.reason),
        ) + 1,
        processes_of(window.push(decision)) == processes_of(window).insert(decision.process),
{
    counts_grow(window, decision, |d: PolicyDecision| d.action is Ignore);
    counts_grow(window, decision, |d: PolicyDecision| d.action is Keep);
    counts_grow(window, decision, |d: PolicyDecision| d.action is Assign);
    counts_grow(window, decision, |d: PolicyDecision| d.action is Move);
    counts_grow(window, decision, |d: PolicyDecision| d.action is Clear);
    counts_grow(
        window,
        decision,
        |d: PolicyDecision| reason_text(d.reason) == reason_text(decision.reason),
    );
    decided_is_bounded(window, |d: PolicyDecision| d.action is Ignore);
    decided_is_bounded(window, |d: PolicyDecision| d.action is Keep);
    decided_is_bounded(window, |d: PolicyDecision| d.action is Assign);
    decided_is_bounded(window, |d: PolicyDecision| d.action is Move);
    decided_is_bounded(window, |d: PolicyDecision| d.action is Clear);
    assert(window.push(decision).drop_last() =~= window);
}

proof fn decided_is_bounded(window: Seq<PolicyDecision>, holds: spec_fn(PolicyDecision) -> bool)
    ensures
        decided(window, holds) <= window.len(),
    decreases window.len(),
{
    if window.len() > 0 {
        decided_is_bounded(window.drop_last(), holds);
    }
}

/// A window begins with its first decision and lasts for its interval: until
/// then nothing of it is lost, and then it is summed up and the next begins. A
/// clock that went back loses no decision, and begins the interval anew.
pub proof fn windows_last_their_interval(
    window: OpenWindow,
    interval_ms: u64,
    now_ms: u64,
    decision: PolicyDecision,
)
    ensures
        ({
            let after = window.at(interval_ms, now_ms);
            let begun = after.with(now_ms, decision);
            &&& window.started_ms is None ==> after == window && !window.due(interval_ms, now_ms)
                && begun.started_ms == Some(now_ms)
            &&& window.started_ms matches Some(started) ==> {
                &&& started <= now_ms && now_ms - started < interval_ms ==> after == window
                &&& now_ms < started && interval_ms > 0 ==> after.decisions == window.decisions
                    && after.started_ms == Some(now_ms) && !window.due(interval_ms, now_ms)
                &&& now_ms - started >= interval_ms && interval_ms > 0 ==> {
                    &&& window.due(interval_ms, now_ms)
                    &&& after.decisions.len() == 0
                    &&& window.decisions.len() > 0 ==> after.started_ms == Some(now_ms)
                }
            }
            &&& begun.decisions == after.decisions.push(decision)
            &&& after.started_ms is Some ==> begun.started_ms == after.started_ms
            &&& window.taken(now_ms).decisions.len() == 0
        }),
{
}

/// A summary tells how long its window lasted, and how many decisions and
/// processes there were, as far as they are counted.
pub proof fn summaries_tell_their_window(
    summary: DecisionLogSummary,
    window: Seq<PolicyDecision>,
    started_ms: u64,
    now_ms: u64,
)
    requires
        sums_up(summary, window, started_ms, now_ms),
        started_ms <= now_ms,
        window.len() <= u64::MAX,
    ensures
        started_ms + summary.window_duration_ms == now_ms,
        summary.decisions == window.len(),
        summary.unique_processes <= 4_096,
        !summary.unique_processes_saturated ==> summary.unique_processes == processes_of(
            window,
        ).len(),
        summary.unique_processes_saturated ==> summary.unique_processes == 4_096,
        summary.enforcement_requested == decided(window, |d: PolicyDecision| d.enforce),
        summary.actions == action_counts(window),
{
    decided_is_bounded(window, |d: PolicyDecision| d.enforce);
}

} // verus!
