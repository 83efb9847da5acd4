//! Placement decisions, and how they are put into words.
use vstd::prelude::*;

use crate::journal::copy_ids;
use crate::observed::find_process;
use crate::observed::ExclusionReason;
use crate::observed::LlcDomainKey;
use crate::observed::ObservedProcess;
use crate::process::ProcessKey;
use crate::text::push_decimal;

verus! {

/// What is to be done with a process.
#[derive(Debug)]
pub enum PolicyAction {
    Ignore,
    Keep { domain: Option<LlcDomainKey> },
    Assign { target: LlcDomainKey, cpu_set_ids: Vec<u32> },
    Move { source: LlcDomainKey, target: LlcDomainKey, cpu_set_ids: Vec<u32> },
    Clear { source: LlcDomainKey },
}

/// Why it is to be done.
#[derive(Debug, Clone, Copy, PartialEq, Eq, Structural)]
pub enum DecisionReason {
    ModeOff,
    Excluded(ExclusionReason),
    ExternalAssignment,
    PendingMutation,
    PartitionRefresh,
    ProfilePartition,
    ProfilePartitionStable,
    InitialPlacement,
    StickyPlacement,
    BelowOverloadThreshold,
    StabilityWindow,
    MinimumResidency,
    Cooldown,
    InsufficientImprovement,
    NoAlternativeDomain,
    BetterDomain,
    StrictPlacement,
    AlreadyStrict,
    RateLimited,
}

/// A decision about one process.
#[derive(Debug)]
pub struct PolicyDecision {
    pub process: ProcessKey,
    pub action: PolicyAction,
    pub reason: DecisionReason,
    pub enforce: bool,
}

impl PolicyAction {
    /// Whether the action changes the processor sets of a process.
    pub open spec fn mutates(self) -> bool {
        self is Assign || self is Move || self is Clear
    }

    /// Whether the action changes the processor sets of a process.
    pub fn is_mutation(&self) -> (mutation: bool)
        ensures
            mutation == self.mutates(),
    {
        match self {
            PolicyAction::Assign { .. }
            | PolicyAction::Move { .. }
            | PolicyAction::Clear { .. } => true,
            PolicyAction::Ignore | PolicyAction::Keep { .. } => false,
        }
    }
}

/// What has to be done outside to carry out a decision.
#[derive(Debug)]
pub enum Enforcement {
    Nothing,
    Apply { target: LlcDomainKey, cpu_set_ids: Vec<u32> },
    Clear,
}

/// Says what carrying out a decision takes: nothing for one that is not to be
/// enforced or that changes nothing.
pub fn enforcement_of(decision: &PolicyDecision) -> (enforcement: Enforcement)
    ensures
        match enforcement {
            Enforcement::Nothing => !decision.enforce || !decision.action.mutates(),
            Enforcement::Apply { target, cpu_set_ids } => decision.enforce && (match decision.action {
                PolicyAction::Assign { target: wanted, cpu_set_ids: ids } => target == wanted
                    && cpu_set_ids@ == ids@,
                PolicyAction::Move { source, target: wanted, cpu_set_ids: ids } => target == wanted
                    && cpu_set_ids@ == ids@,
                _ => false,
            }),
            Enforcement::Clear => decision.enforce && decision.action is Clear,
        },
        carries_out(*decision, enforcement),
{
    if !decision.enforce {
        return Enforcement::Nothing;
    }
    match &decision.action {
        PolicyAction::Assign { target, cpu_set_ids }
        | PolicyAction::Move { target, cpu_set_ids, .. } => Enforcement::Apply {
            target: *target,
            cpu_set_ids: copy_ids(cpu_set_ids),
        },
        PolicyAction::Clear { .. } => Enforcement::Clear,
        PolicyAction::Ignore | PolicyAction::Keep { .. } => Enforcement::Nothing,
    }
}

/// The words for a reason.
pub fn reason_summary(reason: DecisionReason) -> (text: &'static str)
    ensures
        text@ == reason_words(reason),
{
    match reason {
        DecisionReason::ModeOff => "mode off",
        DecisionReason::Excluded(_) => "fixed safety exclusion",
        DecisionReason::ExternalAssignment => "external assignment preserved",
        DecisionReason::PendingMutation => "mutation awaiting acknowledgement",
        DecisionReason::PartitionRefresh => "refreshing reserved CPU partition",
        DecisionReason::ProfilePartition => "workload profile partition",
        DecisionReason::ProfilePartitionStable => "workload profile partition stable",
        DecisionReason::InitialPlacement => "initial placement",
        DecisionReason::StickyPlacement => "sticky placement",
        DecisionReason::BelowOverloadThreshold => "load below overload threshold",
        DecisionReason::StabilityWindow => "waiting for stability window",
        DecisionReason::MinimumResidency => "minimum residency",
        DecisionReason::Cooldown => "move cooldown",
        DecisionReason::InsufficientImprovement => "insufficient improvement",
        DecisionReason::NoAlternativeDomain => "no alternative LLC",
        DecisionReason::BetterDomain => "better LLC available",
        DecisionReason::StrictPlacement => "strict placement",
        DecisionReason::AlreadyStrict => "already strictly placed",
        DecisionReason::RateLimited => "mutation rate limit",
    }
}

/// The words for a reason.
pub open spec fn reason_words(reason: DecisionReason) -> Seq<char> {
    match reason {
        DecisionReason::ModeOff => "mode off"@,
        DecisionReason::Excluded(_) => "fixed safety exclusion"@,
        DecisionReason::ExternalAssignment => "external assignment preserved"@,
        DecisionReason::PendingMutation => "mutation awaiting acknowledgement"@,
        DecisionReason::PartitionRefresh => "refreshing reserved CPU partition"@,
        DecisionReason::ProfilePartition => "workload profile partition"@,
        DecisionReason::ProfilePartitionStable => "workload profile partition stable"@,
        DecisionReason::InitialPlacement => "initial placement"@,
        DecisionReason::StickyPlacement => "sticky placement"@,
        DecisionReason::BelowOverloadThreshold => "load below overload threshold"@,
        DecisionReason::StabilityWindow => "waiting for stability window"@,
        DecisionReason::MinimumResidency => "minimum residency"@,
        DecisionReason::Cooldown => "move cooldown"@,
        DecisionReason::InsufficientImprovement => "insufficient improvement"@,
        DecisionReason::NoAlternativeDomain => "no alternative LLC"@,
        DecisionReason::BetterDomain => "better LLC available"@,
        DecisionReason::StrictPlacement => "strict placement"@,
        DecisionReason::AlreadyStrict => "already strictly placed"@,
        DecisionReason::RateLimited => "mutation rate limit"@,
    }
}

/// `group:index` of a domain.
pub open spec fn domain_words(domain: LlcDomainKey) -> Seq<char> {
    crate::text::decimal(domain.group as nat) + ":"@ + crate::text::decimal(
        domain.last_level_cache_index as nat,
    )
}

fn push_domain(out: &mut String, domain: &LlcDomainKey)
    ensures
        final(out)@ == old(out)@ + domain_words(*domain),
{
    push_decimal(out, domain.group as u64);
    out.append(":");
    push_decimal(out, domain.last_level_cache_index as u64);
    proof {
        assert(out@ =~= old(out)@ + domain_words(*domain));
    }
}

/// The words for an action.
pub open spec fn action_words(action: PolicyAction) -> Seq<char> {
    match action {
        PolicyAction::Ignore => "ignored"@,
        PolicyAction::Keep { domain: None } => "kept unassigned"@,
        PolicyAction::Keep { domain: Some(domain) } => "kept on LLC "@ + domain_words(domain),
        PolicyAction::Assign { target, cpu_set_ids } => "assigned partition anchored at LLC "@
            + domain_words(target) + " ("@ + crate::text::decimal(cpu_set_ids@.len())
            + " CPU Sets)"@,
        PolicyAction::Move { source, target, cpu_set_ids } => "moved LLC "@ + domain_words(source)
            + " -> partition anchored at "@ + domain_words(target) + " ("@
            + crate::text::decimal(cpu_set_ids@.len()) + " CPU Sets)"@,
        PolicyAction::Clear { source } => "cleared LLC "@ + domain_words(source) + " assignment"@,
    }
}

/// Puts an action into words.
pub fn action_summary(action: &PolicyAction) -> (text: String)
    ensures
        text@ == action_words(*action),
{
    match action {
        PolicyAction::Ignore => "ignored".to_owned(),
        PolicyAction::Keep { domain } => match domain {
            None => "kept unassigned".to_owned(),
            Some(domain) => {
                let mut text = "kept on LLC ".to_owned();
                push_domain(&mut text, domain);
                text
            },
        },
        PolicyAction::Assign { target, cpu_set_ids } => {
            let mut text = "assigned partition anchored at LLC ".to_owned();
            push_domain(&mut text, target);
            text.append(" (");
            push_decimal(&mut text, cpu_set_ids.len() as u64);
            text.append(" CPU Sets)");
            text
        },
        PolicyAction::Move { source, target, cpu_set_ids } => {
            let mut text = "moved LLC ".to_owned();
            push_domain(&mut text, source);
            text.append(" -> partition anchored at ");
            push_domain(&mut text, target);
            text.append(" (");
            push_decimal(&mut text, cpu_set_ids.len() as u64);
            text.append(" CPU Sets)");
            text
        },
        PolicyAction::Clear { source } => {
            let mut text = "cleared LLC ".to_owned();
            push_domain(&mut text, source);
            text.append(" assignment");
            text
        },
    }
}

/// The image name of the process of a decision.
pub open spec fn decided_image(processes: Seq<ObservedProcess>, process: ProcessKey) -> Seq<char> {
    match crate::observed::first_with_key(processes, process) {
        Some(at) => processes[at].image_name@,
        None => "unknown"@,
    }
}

/// Puts a decision into words: `image (PID pid): action; reason`.
pub fn decision_summary(processes: &Vec<ObservedProcess>, decision: &PolicyDecision) -> (text:
    String)
    ensures
        text@ == decided_image(processes@, decision.process) + " (PID "@ + crate::text::decimal(
            decision.process.pid as nat,
        ) + "): "@ + action_words(decision.action) + "; "@ + reason_words(decision.reason),
        text@ == decision_words(processes@, *decision),
{
    let mut text = match find_process(processes, decision.process) {
        Some(at) => processes[at].image_name.as_str().to_owned(),
        None => "unknown".to_owned(),
    };
    text.append(" (PID ");
    push_decimal(&mut text, decision.process.pid as u64);
    text.append("): ");
    text.append(action_summary(&decision.action).as_str());
    text.append("; ");
    text.append(reason_summary(decision.reason));
    text
}

/// Whether doing something outside carries a decision out.
pub open spec fn carries_out(decision: PolicyDecision, enforcement: Enforcement) -> bool {
    match enforcement {
        Enforcement::Nothing => !decision.enforce || !decision.action.mutates(),
        Enforcement::Apply { target, cpu_set_ids } => decision.enforce && (match decision.action {
            PolicyAction::Assign { target: wanted, cpu_set_ids: ids } => target == wanted
                && cpu_set_ids@ == ids@,
            PolicyAction::Move { source, target: wanted, cpu_set_ids: ids } => target == wanted
                && cpu_set_ids@ == ids@,
            _ => false,
        }),
        Enforcement::Clear => decision.enforce && decision.action is Clear,
    }
}

/// A decision that is to be enforced is: what is assigned or moved is set to
/// the processor sets that were decided, what is cleared is cleared. What is
/// only observed, kept or ignored is left alone.
pub proof fn decisions_are_carried_out(decision: PolicyDecision, enforcement: Enforcement)
    requires
        carries_out(decision, enforcement),
    ensures
        !decision.enforce ==> enforcement is Nothing,
        decision.action is Ignore || decision.action is Keep ==> enforcement is Nothing,
        decision.enforce && decision.action is Clear ==> enforcement is Clear,
        decision.enforce ==> (decision.action matches PolicyAction::Assign { target, cpu_set_ids }
            ==> (enforcement matches Enforcement::Apply { target: at, cpu_set_ids: ids } && at
            == target && ids@ == cpu_set_ids@)),
        decision.enforce ==> (decision.action matches PolicyAction::Move {
            target,
            cpu_set_ids,
            ..
        } ==> (enforcement matches Enforcement::Apply { target: at, cpu_set_ids: ids } && at
            == target && ids@ == cpu_set_ids@)),
        decision.action.mutates() <==> !(decision.action is Ignore) && !(decision.action is Keep),
{
}

/// No two reasons have the same words, but for the exclusions, which share
/// theirs.
pub proof fn reason_words_differ(a: DecisionReason, b: DecisionReason)
    requires
        a != b,
        !(a is Excluded && b is Excluded),
    ensures
        reason_words(a) != reason_words(b),
{
    reveal_strlit("mode off");
    reveal_strlit("fixed safety exclusion");
    reveal_strlit("external assignment preserved");
    reveal_strlit("mutation awaiting acknowledgement");
    reveal_strlit("refreshing reserved CPU partition");
    reveal_strlit("workload profile partition");
    reveal_strlit("workload profile partition stable");
    reveal_strlit("initial placement");
    reveal_strlit("sticky placement");
    reveal_strlit("load below overload threshold");
    reveal_strlit("waiting for stability window");
    reveal_strlit("minimum residency");
    reveal_strlit("move cooldown");
    reveal_strlit("insufficient improvement");
    reveal_strlit("no alternative LLC");
    reveal_strlit("better LLC available");
    reveal_strlit("strict placement");
    reveal_strlit("already strictly placed");
    reveal_strlit("mutation rate limit");
    assert("mode off"@.len() == 8);
    assert("fixed safety exclusion"@.len() == 22);
    assert("external assignment preserved"@.len() == 29);
    assert("mutation awaiting acknowledgement"@.len() == 33);
    assert("refreshing reserved CPU partition"@.len() == 33);
    assert("workload profile partition"@.len() == 26);
    assert("workload profile partition stable"@.len() == 33);
    assert("initial placement"@.len() == 17);
    assert("sticky placement"@.len() == 16);
    assert("load below overload threshold"@.len() == 29);
    assert("waiting for stability window"@.len() == 28);
    assert("minimum residency"@.len() == 17);
    assert("move cooldown"@.len() == 13);
    assert("insufficient improvement"@.len() == 24);
    assert("no alternative LLC"@.len() == 18);
    assert("better LLC available"@.len() == 20);
    assert("strict placement"@.len() == 16);
    assert("already strictly placed"@.len() == 23);
    assert("mutation rate limit"@.len() == 19);
    assert("external assignment preserved"@[0] == 'e');
    assert("load below overload threshold"@[0] == 'l');
    assert("mutation awaiting acknowledgement"@[0] == 'm');
    assert("refreshing reserved CPU partition"@[0] == 'r');
    assert("workload profile partition stable"@[0] == 'w');
    assert("initial placement"@[0] == 'i');
    assert("minimum residency"@[0] == 'm');
    assert("sticky placement"@[2] == 'i');
    assert("strict placement"@[2] == 'r');
}

/// The words for an action name the domain that a process is on, or comes
/// from, before the one that it goes to, and how many processor sets it gets.
pub proof fn actions_name_their_domains(action: PolicyAction)
    ensures
        ({
            let words = action_words(action);
            &&& action matches PolicyAction::Keep { domain: Some(domain) } ==> words
                == "kept on LLC "@ + domain_words(domain)
            &&& action matches PolicyAction::Assign { target, cpu_set_ids } ==> (
            "assigned partition anchored at LLC "@ + domain_words(target) + " ("@
                + crate::text::decimal(cpu_set_ids@.len())).is_prefix_of(words)
            &&& action matches PolicyAction::Move { source, target, .. } ==> ("moved LLC "@
                + domain_words(source) + " -> partition anchored at "@ + domain_words(
                target,
            )).is_prefix_of(words)
            &&& action matches PolicyAction::Clear { source } ==> ("cleared LLC "@ + domain_words(
                source,
            )).is_prefix_of(words)
        }),
{
    let words = action_words(action);
    match action {
        PolicyAction::Assign { target, cpu_set_ids } => {
            let start = "assigned partition anchored at LLC "@ + domain_words(target) + " ("@
                + crate::text::decimal(cpu_set_ids@.len());
            assert(words.subrange(0, start.len() as int) =~= start);
        },
        PolicyAction::Move { source, target, .. } => {
            let start = "moved LLC "@ + domain_words(source) + " -> partition anchored at "@
                + domain_words(target);
            assert(words.subrange(0, start.len() as int) =~= start);
        },
        PolicyAction::Clear { source } => {
            let start = "cleared LLC "@ + domain_words(source);
            assert(words.subrange(0, start.len() as int) =~= start);
        },
        _ => {},
    }
}

/// A domain is named by its group and then by its cache.
pub proof fn domains_are_named_by_group_and_cache(domain: LlcDomainKey)
    ensures
        crate::text::decimal(domain.group as nat).is_prefix_of(domain_words(domain)),
        crate::text::decimal(domain.last_level_cache_index as nat).is_suffix_of(
            domain_words(domain),
        ),
{
    let words = domain_words(domain);
    let group = crate::text::decimal(domain.group as nat);
    let cache = crate::text::decimal(domain.last_level_cache_index as nat);
    assert(words.subrange(0, group.len() as int) =~= group);
    assert(words.subrange(words.len() - cache.len(), words.len() as int) =~= cache);
}

/// The words for a decision.
pub open spec fn decision_words(
    processes: Seq<ObservedProcess>,
    decision: PolicyDecision,
) -> Seq<char> {
    decided_image(processes, decision.process) + " (PID "@ + crate::text::decimal(
        decision.process.pid as nat,
    ) + "): "@ + action_words(decision.action) + "; "@ + reason_words(decision.reason)
}

/// The words for a decision name the process first, then what is done with it,
/// and last why. A process that is not observed has no name.
pub proof fn decisions_name_their_process(
    processes: Seq<ObservedProcess>,
    decision: PolicyDecision,
    i: int,
)
    ensures
        (0 <= i < processes.len() && processes[i].key == decision.process && (forall|j: int|
            0 <= j < i ==> (#[trigger] processes[j]).key != decision.process))
            ==> processes[i].image_name@.is_prefix_of(decision_words(processes, decision)),
        !crate::observed::is_live(processes, decision.process) ==> "unknown"@.is_prefix_of(
            decision_words(processes, decision),
        ),
        (action_words(decision.action) + "; "@ + reason_words(decision.reason)).is_suffix_of(
            decision_words(processes, decision),
        ),
{
    let words = decision_words(processes, decision);
    let image = decided_image(processes, decision.process);
    let end = action_words(decision.action) + "; "@ + reason_words(decision.reason);
    crate::observed::first_with_key_is_sound(processes, decision.process);
    assert(words.subrange(0, image.len() as int) =~= image);
    assert(words.subrange(words.len() - end.len(), words.len() as int) =~= end);
    if 0 <= i < processes.len() && processes[i].key == decision.process && (forall|j: int|
        0 <= j < i ==> (#[trigger] processes[j]).key != decision.process) {
        assert(crate::observed::is_live(processes, decision.process));
    }
}

} // verus!
