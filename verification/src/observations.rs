//! Which processes a placement evaluation looks at, in which order, and how.
use vstd::prelude::*;

use crate::journal::ManagedPlacement;
use crate::observed::LlcDomainKey;
use crate::observed::ObservedProcess;
use crate::placement::same_ids;
use crate::process::KeyMap;
use crate::process::ProcessKey;
use crate::text::eq_ignore_ascii_case;

verus! {

/// What the controller as a whole may do.
#[derive(Debug, Clone, Copy, PartialEq, Eq, Structural)]
pub enum ControllerMode {
    Off,
    Observe,
    Auto,
}

/// How a process is placed.
#[derive(Debug, Clone, Copy, PartialEq, Eq, Structural)]
pub enum PlacementMode {
    Off,
    Sticky,
    Auto,
    Performance,
    Efficiency,
    Strict(LlcDomainKey),
}

/// Whether decisions about a process are carried out.
#[derive(Debug, Clone, Copy, PartialEq, Eq, Structural)]
pub enum EnforcementMode {
    Observe,
    Apply,
}

/// What kind of work a process does.
#[derive(Debug, Clone, Copy, PartialEq, Eq, Structural)]
pub enum WorkloadProfile {
    Balanced,
    Interactive,
    Memory,
    Compute,
    Background,
}

/// What the rules say of a process.
#[derive(Debug, Clone, Copy, PartialEq, Eq, Structural)]
pub struct ResolvedRule {
    pub placement: PlacementMode,
    pub enforcement: EnforcementMode,
    pub profile: WorkloadProfile,
}

/// The processor sets of a domain, all of them and those of one class.
#[derive(Debug)]
pub struct DomainCpuSets {
    pub key: LlcDomainKey,
    pub any: Vec<u32>,
    pub fastest: Vec<u32>,
    pub most_efficient: Vec<u32>,
}

/// What the processors offer.
#[derive(Debug)]
pub struct PlacementPlans {
    pub domains: Vec<DomainCpuSets>,
    /// The processor sets of the partition for memory-bound work.
    pub memory: Option<Vec<u32>>,
    /// The processor sets of the partition for compute-bound work.
    pub compute: Option<Vec<u32>>,
}

/// A partition that a process is to be placed on.
#[derive(Debug, Clone, Copy, PartialEq, Eq, Structural)]
pub enum PreferredPartition {
    Memory,
    Compute,
}

/// What a partition is planned over: so many physical cores, as far as there
/// are, with one hardware thread of each or with all of them.
#[derive(Debug, Clone, Copy, PartialEq, Eq, Structural)]
pub struct PartitionRequest {
    pub physical_cores: usize,
    pub use_smt: bool,
}

/// Says what a partition is planned over. Memory-bound work gets as many cores
/// as its present width; compute-bound work gets all hardware threads of all
/// cores.
pub fn partition_request(
    partition: PreferredPartition,
    memory_profile_physical_cores: u16,
    memory_use_smt: bool,
) -> (request: PartitionRequest)
    ensures
        request == match partition {
            PreferredPartition::Memory => PartitionRequest {
                physical_cores: memory_profile_physical_cores as usize,
                use_smt: memory_use_smt,
            },
            PreferredPartition::Compute => PartitionRequest {
                physical_cores: usize::MAX,
                use_smt: true,
            },
        },
{
    match partition {
        PreferredPartition::Memory => PartitionRequest {
            physical_cores: memory_profile_physical_cores as usize,
            use_smt: memory_use_smt,
        },
        PreferredPartition::Compute => PartitionRequest {
            physical_cores: usize::MAX,
            use_smt: true,
        },
    }
}

/// What is said of a process that this controller has placed.
#[derive(Debug, Clone, Copy, PartialEq, Eq, Structural)]
pub struct ManagedObservation {
    pub current_domain: Option<LlcDomainKey>,
    pub refresh_required: bool,
}

/// One process as the placement policy is to look at it.
#[derive(Debug, Clone, Copy, PartialEq, Eq, Structural)]
pub struct RankedObservation {
    pub key: ProcessKey,
    pub mode: PlacementMode,
    pub enforcement: EnforcementMode,
    pub preferred_partition: Option<PreferredPartition>,
    /// Set where this controller has placed the process; otherwise the
    /// process is taken as it shows itself.
    pub managed: Option<ManagedObservation>,
    pub cpu_delta_100ns: u64,
}

/// The settings that the choice of processes depends on.
#[derive(Debug)]
pub struct ObservationSettings {
    pub controller_mode: ControllerMode,
    pub minimum_process_utilization_bps: u16,
    /// The image names of the rules.
    pub rule_images: Vec<String>,
}

/// The share of one processor that a process used, in basis points.
pub open spec fn utilization(cpu_delta_100ns: u64, sample_interval_ms: u64) -> u32 {
    if sample_interval_ms == 0 {
        0
    } else {
        let basis_points = (cpu_delta_100ns as nat * 10_000) / (sample_interval_ms as nat * 10_000);
        if basis_points > u32::MAX {
            u32::MAX
        } else {
            basis_points as u32
        }
    }
}

/// The share of one processor that a process used, in basis points.
pub fn process_utilization_bps(cpu_delta_100ns: u64, sample_interval_ms: u64) -> (bps: u32)
    ensures
        bps == utilization(cpu_delta_100ns, sample_interval_ms),
{
    if sample_interval_ms == 0 {
        return 0;
    }
    let interval_100ns: u128 = sample_interval_ms as u128 * 10_000;
    let basis_points: u128 = cpu_delta_100ns as u128 * 10_000 / interval_100ns;
    if basis_points > u32::MAX as u128 {
        u32::MAX
    } else {
        basis_points as u32
    }
}

/// The processor sets of a domain that a placement mode uses.
pub open spec fn class_sets(domain: DomainCpuSets, placement: PlacementMode) -> Seq<u32> {
    match placement {
        PlacementMode::Performance => domain.fastest@,
        PlacementMode::Efficiency => domain.most_efficient@,
        _ => domain.any@,
    }
}

/// The processor sets of the first domain with a key, or none.
pub open spec fn expected_sets(
    domains: Seq<DomainCpuSets>,
    key: LlcDomainKey,
    placement: PlacementMode,
) -> Seq<u32>
    decreases domains.len(),
{
    if domains.len() == 0 {
        Seq::empty()
    } else if domains[0].key == key {
        class_sets(domains[0], placement)
    } else {
        expected_sets(domains.drop_first(), key, placement)
    }
}

/// The processor sets that a process placed in a domain ought to show.
/// There is no answer when the domain is not known.
pub fn expected_domain_cpu_sets(
    plans: &PlacementPlans,
    domain: LlcDomainKey,
    placement: PlacementMode,
) -> (sets: Option<&Vec<u32>>)
    ensures
        sets matches Some(found) ==> found@ == expected_sets(plans.domains@, domain, placement),
        sets is None ==> expected_sets(plans.domains@, domain, placement).len() == 0,
{
    let mut at: usize = 0;
    proof {
        assert(plans.domains@.skip(0) =~= plans.domains@);
    }
    while at < plans.domains.len()
        invariant
            at <= plans.domains.len(),
            expected_sets(plans.domains@, domain, placement) == expected_sets(
                plans.domains@.skip(at as int),
                domain,
                placement,
            ),
        decreases plans.domains.len() - at,
    {
        let candidate = &plans.domains[at];
        proof {
            assert(plans.domains@.skip(at as int)[0] == *candidate);
            assert(plans.domains@.skip(at as int).drop_first() =~= plans.domains@.skip(at + 1));
        }
        if candidate.key == domain {
            return Some(
                match placement {
                    PlacementMode::Performance => &candidate.fastest,
                    PlacementMode::Efficiency => &candidate.most_efficient,
                    _ => &candidate.any,
                },
            );
        }
        at = at + 1;
    }
    None
}

/// Whether a rule names an image.
pub open spec fn has_rule(images: Seq<String>, image: Seq<char>) -> bool {
    exists|i: int|
        0 <= i < images.len() && crate::text::same_ignoring_case(
            (#[trigger] images[i])@,
            image,
        )
}

/// Whether a rule names an image.
pub fn explicit_rule(images: &Vec<String>, image: &str) -> (named: bool)
    ensures
        named == has_rule(images@, image@),
{
    let mut at: usize = 0;
    while at < images.len()
        invariant
            at <= images.len(),
            forall|i: int|
                0 <= i < at ==> !crate::text::same_ignoring_case((#[trigger] images@[i])@, image@),
        decreases images.len() - at,
    {
        if eq_ignore_ascii_case(images[at].as_str(), image) {
            return true;
        }
        at = at + 1;
    }
    false
}

/// The processor times after the first `n` processes.
pub open spec fn times_after(
    times: Map<ProcessKey, u64>,
    processes: Seq<ObservedProcess>,
    n: nat,
) -> Map<ProcessKey, u64>
    decreases n,
{
    if n == 0 {
        times
    } else {
        times_after(times, processes, (n - 1) as nat).insert(
            processes[n - 1].key,
            processes[n - 1].cpu_time_100ns,
        )
    }
}

/// How much processor time process `i` used since it was last seen.
pub open spec fn delta_of(
    times: Map<ProcessKey, u64>,
    processes: Seq<ObservedProcess>,
    i: int,
) -> u64 {
    let before = times_after(times, processes, i as nat);
    let process = processes[i];
    if before.dom().contains(process.key) && process.cpu_time_100ns > before[process.key] {
        (process.cpu_time_100ns - before[process.key]) as u64
    } else {
        0
    }
}

/// How a process is to be treated, if at all. What was placed stays in view
/// after its rule is gone, or while the controller may not place, so that the
/// placement is cleared.
pub open spec fn treatment(
    mode: ControllerMode,
    placed: bool,
    rule: Option<ResolvedRule>,
) -> Option<ResolvedRule> {
    let clearing = ResolvedRule {
        placement: PlacementMode::Off,
        enforcement: EnforcementMode::Apply,
        profile: WorkloadProfile::Balanced,
    };
    if placed && mode != ControllerMode::Auto {
        Some(clearing)
    } else {
        match rule {
            Some(rule) => if rule.profile == WorkloadProfile::Interactive && rule.placement
                == PlacementMode::Auto {
                Some(ResolvedRule { placement: PlacementMode::Sticky, ..rule })
            } else {
                Some(rule)
            },
            None => if placed {
                Some(clearing)
            } else {
                None
            },
        }
    }
}

/// The partition that a treatment prefers and that there is.
pub open spec fn preferred(plans: PlacementPlans, rule: ResolvedRule) -> Option<
    PreferredPartition,
> {
    if rule.placement is Off || rule.placement is Strict {
        None
    } else if rule.profile is Memory && plans.memory is Some {
        Some(PreferredPartition::Memory)
    } else if rule.profile is Compute && plans.compute is Some {
        Some(PreferredPartition::Compute)
    } else {
        None
    }
}

/// The processor sets of a partition.
pub open spec fn partition_sets(plans: PlacementPlans, partition: PreferredPartition) -> Seq<u32> {
    match partition {
        PreferredPartition::Memory => (plans.memory->0)@,
        PreferredPartition::Compute => (plans.compute->0)@,
    }
}

/// What is said of a process that this controller has placed. Its placement
/// is refreshed when the process shows other processor sets than it ought to;
/// a domain without processor sets is no domain any more.
pub open spec fn managed_observation(
    plans: PlacementPlans,
    anchor: LlcDomainKey,
    rule: ResolvedRule,
    shown: Seq<u32>,
) -> ManagedObservation {
    match preferred(plans, rule) {
        Some(partition) => ManagedObservation {
            current_domain: Some(anchor),
            refresh_required: partition_sets(plans, partition) != shown,
        },
        None => {
            let expected = expected_sets(plans.domains@, anchor, rule.placement);
            if expected.len() == 0 {
                ManagedObservation { current_domain: None, refresh_required: false }
            } else {
                ManagedObservation {
                    current_domain: Some(anchor),
                    refresh_required: expected != shown,
                }
            }
        },
    }
}

/// What is said of a process, if it is looked at: a process that is not
/// placed is left out where no rule covers it, where it is excluded, and,
/// without a rule that names it, where it is not busy.
pub open spec fn observation(
    settings: ObservationSettings,
    rule: Option<ResolvedRule>,
    placed: Option<LlcDomainKey>,
    process: ObservedProcess,
    plans: PlacementPlans,
    cpu_delta_100ns: u64,
    sample_interval_ms: u64,
) -> Option<RankedObservation> {
    match treatment(settings.controller_mode, placed is Some, rule) {
        None => None,
        Some(rule) => {
            let idle = !has_rule(settings.rule_images@, process.image_name@) && utilization(
                cpu_delta_100ns,
                sample_interval_ms,
            ) < settings.minimum_process_utilization_bps as u32;
            if placed is None && (idle || process.exclusion is Some) {
                None
            } else {
                Some(
                    RankedObservation {
                        key: process.key,
                        mode: rule.placement,
                        enforcement: rule.enforcement,
                        preferred_partition: preferred(plans, rule),
                        managed: match placed {
                            Some(anchor) => Some(
                                managed_observation(
                                    plans,
                                    anchor,
                                    rule,
                                    process.default_cpu_set_ids@,
                                ),
                            ),
                            None => None,
                        },
                        cpu_delta_100ns,
                    },
                )
            }
        },
    }
}

/// The domain in which this controller has placed a process.
pub open spec fn anchor_of(managed: Map<ProcessKey, ManagedPlacement>, key: ProcessKey) -> Option<
    LlcDomainKey,
> {
    if managed.dom().contains(key) {
        Some(managed[key].anchor_domain)
    } else {
        None
    }
}

/// What is said of the first `n` processes, in the order in which they were
/// observed.
pub open spec fn observations(
    settings: ObservationSettings,
    rules: Seq<Option<ResolvedRule>>,
    managed: Map<ProcessKey, ManagedPlacement>,
    processes: Seq<ObservedProcess>,
    plans: PlacementPlans,
    times: Map<ProcessKey, u64>,
    sample_interval_ms: u64,
    n: nat,
) -> Seq<RankedObservation>
    decreases n,
{
    if n == 0 {
        Seq::empty()
    } else {
        let before = observations(
            settings,
            rules,
            managed,
            processes,
            plans,
            times,
            sample_interval_ms,
            (n - 1) as nat,
        );
        match observation(
            settings,
            rules[n - 1],
            anchor_of(managed, processes[n - 1].key),
            processes[n - 1],
            plans,
            delta_of(times, processes, n - 1),
            sample_interval_ms,
        ) {
            Some(said) => before.push(said),
            None => before,
        }
    }
}

/// Whether one process comes before another: the busier one first, then by
/// key.
pub open spec fn ranks_before(a: RankedObservation, b: RankedObservation) -> bool {
    a.cpu_delta_100ns > b.cpu_delta_100ns || (a.cpu_delta_100ns == b.cpu_delta_100ns
        && a.key.before(b.key))
}

/// The order of the ranking.
pub open spec fn ranks() -> spec_fn(RankedObservation, RankedObservation) -> bool {
    |a: RankedObservation, b: RankedObservation| ranks_before(a, b)
}

/// The observations in their ranking; equals stay in their order.
pub open spec fn ranking(items: Seq<RankedObservation>) -> Seq<RankedObservation> {
    crate::ranking::ranking(items, ranks())
}

/// Ranking the observations neither adds nor drops any, and puts the busiest
/// first.
pub proof fn ranking_is_the_same_in_order(items: Seq<RankedObservation>)
    ensures
        forall|i: int, j: int|
            #![trigger ranking(items)[i], ranking(items)[j]]
            0 <= i < j < ranking(items).len() ==> !ranks_before(
                ranking(items)[j],
                ranking(items)[i],
            ),
        ranking(items).to_multiset() == items.to_multiset(),
        ranking(items).len() == items.len(),
{
    assert(crate::ranking::orders(ranks()));
    crate::ranking::ranking_is_the_same_in_order(items, ranks());
    assert forall|i: int, j: int|
        #![trigger ranking(items)[i], ranking(items)[j]]
        0 <= i < j < ranking(items).len() implies !ranks_before(
        ranking(items)[j],
        ranking(items)[i],
    ) by {
        assert(!ranks()(ranking(items)[j], ranking(items)[i]));
    }
}

fn is_ranked_before(a: &RankedObservation, b: &RankedObservation) -> (before: bool)
    ensures
        before == ranks_before(*a, *b),
{
    a.cpu_delta_100ns > b.cpu_delta_100ns || (a.cpu_delta_100ns == b.cpu_delta_100ns
        && a.key.is_before(&b.key))
}

/// How a process is to be treated, if at all.
fn treat(mode: ControllerMode, placed: bool, rule: Option<ResolvedRule>) -> (treated: Option<
    ResolvedRule,
>)
    ensures
        treated == treatment(mode, placed, rule),
{
    let clearing = ResolvedRule {
        placement: PlacementMode::Off,
        enforcement: EnforcementMode::Apply,
        profile: WorkloadProfile::Balanced,
    };
    if placed && mode != ControllerMode::Auto {
        return Some(clearing);
    }
    match rule {
        Some(rule) => {
            let mut treated = rule;
            if rule.profile == WorkloadProfile::Interactive && rule.placement
                == PlacementMode::Auto {
                treated.placement = PlacementMode::Sticky;
            }
            Some(treated)
        },
        None => if placed {
            Some(clearing)
        } else {
            None
        },
    }
}

fn prefer(plans: &PlacementPlans, rule: &ResolvedRule) -> (partition: Option<PreferredPartition>)
    ensures
        partition == preferred(*plans, *rule),
{
    match rule.placement {
        PlacementMode::Off | PlacementMode::Strict(_) => None,
        _ => match rule.profile {
            WorkloadProfile::Memory => if plans.memory.is_some() {
                Some(PreferredPartition::Memory)
            } else {
                None
            },
            WorkloadProfile::Compute => if plans.compute.is_some() {
                Some(PreferredPartition::Compute)
            } else {
                None
            },
            _ => None,
        },
    }
}

fn observe_managed(
    plans: &PlacementPlans,
    anchor: LlcDomainKey,
    rule: &ResolvedRule,
    shown: &Vec<u32>,
) -> (said: ManagedObservation)
    ensures
        said == managed_observation(*plans, anchor, *rule, shown@),
{
    let sets = match prefer(plans, rule) {
        Some(PreferredPartition::Memory) => match &plans.memory {
            Some(sets) => Some(sets),
            None => None,
        },
        Some(PreferredPartition::Compute) => match &plans.compute {
            Some(sets) => Some(sets),
            None => None,
        },
        None => match expected_domain_cpu_sets(plans, anchor, rule.placement) {
            Some(sets) => if sets.len() == 0 {
                None
            } else {
                Some(sets)
            },
            None => None,
        },
    };
    match sets {
        Some(sets) => ManagedObservation {
            current_domain: Some(anchor),
            refresh_required: !same_ids(sets, shown),
        },
        None => ManagedObservation { current_domain: None, refresh_required: false },
    }
}

fn observe(
    settings: &ObservationSettings,
    rule: Option<ResolvedRule>,
    placed: Option<LlcDomainKey>,
    process: &ObservedProcess,
    plans: &PlacementPlans,
    cpu_delta_100ns: u64,
    sample_interval_ms: u64,
) -> (said: Option<RankedObservation>)
    ensures
        said == observation(
            *settings,
            rule,
            placed,
            *process,
            *plans,
            cpu_delta_100ns,
            sample_interval_ms,
        ),
{
    let rule = match treat(settings.controller_mode, placed.is_some(), rule) {
        Some(rule) => rule,
        None => {
            return None;
        },
    };
    if placed.is_none() && ((!explicit_rule(&settings.rule_images, process.image_name.as_str())
        && process_utilization_bps(cpu_delta_100ns, sample_interval_ms)
        < settings.minimum_process_utilization_bps as u32) || process.exclusion.is_some()) {
        return None;
    }
    let managed = match placed {
        Some(anchor) => Some(
            observe_managed(plans, anchor, &rule, &process.default_cpu_set_ids),
        ),
        None => None,
    };
    Some(
        RankedObservation {
            key: process.key,
            mode: rule.placement,
            enforcement: rule.enforcement,
            preferred_partition: prefer(plans, &rule),
            managed,
            cpu_delta_100ns,
        },
    )
}

/// Chooses the processes that a placement evaluation looks at, the busiest
/// first. `rules[i]` is what the rules say of process `i`.
pub fn build_ranked_observations(
    settings: &ObservationSettings,
    rules: &Vec<Option<ResolvedRule>>,
    managed: &KeyMap<ManagedPlacement>,
    processes: &Vec<ObservedProcess>,
    plans: &PlacementPlans,
    previous_cpu_times: &mut KeyMap<u64>,
    sample_interval_ms: u64,
) -> (ranked: Vec<RankedObservation>)
    requires
        rules.len() == processes.len(),
        managed.wf(),
        old(previous_cpu_times).wf(),
    ensures
        final(previous_cpu_times).wf(),
        final(previous_cpu_times)@ == times_after(
            old(previous_cpu_times)@,
            processes@,
            processes.len() as nat,
        ),
        ranked@ == ranking(
            observations(
                *settings,
                rules@,
                managed@,
                processes@,
                *plans,
                old(previous_cpu_times)@,
                sample_interval_ms,
                processes.len() as nat,
            ),
        ),
{
    let ghost times = previous_cpu_times@;
    let mut ranked: Vec<RankedObservation> = Vec::new();
    let mut at: usize = 0;
    while at < processes.len()
        invariant
            at <= processes.len(),
            rules.len() == processes.len(),
            managed.wf(),
            previous_cpu_times.wf(),
            previous_cpu_times@ == times_after(times, processes@, at as nat),
            ranked@ == ranking(
                observations(
                    *settings,
                    rules@,
                    managed@,
                    processes@,
                    *plans,
                    times,
                    sample_interval_ms,
                    at as nat,
                ),
            ),
        decreases processes.len() - at,
    {
        let process = &processes[at];
        let cpu_delta: u64 = match previous_cpu_times.get(process.key) {
            Some(previous) => process.cpu_time_100ns.saturating_sub(*previous),
            None => 0,
        };
        proof {
            reveal_with_fuel(times_after, 2);
            assert(cpu_delta == delta_of(times, processes@, at as int));
        }
        previous_cpu_times.insert(process.key, process.cpu_time_100ns);
        let placed = match managed.get(process.key) {
            Some(placement) => Some(placement.anchor_domain),
            None => None,
        };
        let ghost before = observations(
            *settings,
            rules@,
            managed@,
            processes@,
            *plans,
            times,
            sample_interval_ms,
            at as nat,
        );
        if let Some(said) = observe(
            settings,
            rules[at],
            placed,
            process,
            plans,
            cpu_delta,
            sample_interval_ms,
        ) {
            let mut place: usize = ranked.len();
            while place > 0 && is_ranked_before(&said, &ranked[place - 1])
                invariant
                    place <= ranked.len(),
                    forall|i: int|
                        place <= i < ranked.len() ==> ranks_before(said, #[trigger] ranked@[i]),
                decreases place,
            {
                place = place - 1;
            }
            proof {
                assert(forall|i: int|
                    place <= i < ranked.len() ==> ranks()(said, #[trigger] ranked@[i]));
                crate::ranking::ranked_in_at(ranked@, said, place as int, ranks());
                assert(before.push(said).drop_last() =~= before);
            }
            ranked.insert(place, said);
        }
        at = at + 1;
    }
    ranked
}

/// While the controller may not place, whatever it placed before is looked at
/// only to be cleared.
pub proof fn placements_are_cleared_when_not_placing(
    settings: ObservationSettings,
    rule: Option<ResolvedRule>,
    anchor: LlcDomainKey,
    process: ObservedProcess,
    plans: PlacementPlans,
    cpu_delta_100ns: u64,
    sample_interval_ms: u64,
)
    requires
        settings.controller_mode != ControllerMode::Auto,
    ensures
        observation(
            settings,
            rule,
            Some(anchor),
            process,
            plans,
            cpu_delta_100ns,
            sample_interval_ms,
        ) matches Some(said) && said.mode == PlacementMode::Off && said.enforcement
            == EnforcementMode::Apply,
{
}

/// A process that is excluded and was not placed is never looked at.
pub proof fn excluded_processes_are_left_out(
    settings: ObservationSettings,
    rule: Option<ResolvedRule>,
    process: ObservedProcess,
    plans: PlacementPlans,
    cpu_delta_100ns: u64,
    sample_interval_ms: u64,
)
    requires
        process.exclusion is Some,
    ensures
        observation(
            settings,
            rule,
            None,
            process,
            plans,
            cpu_delta_100ns,
            sample_interval_ms,
        ) is None,
{
}

/// A process under the interactive profile stays where it is once placed:
/// automatic placement is sticky for it. Under any other profile, and for any
/// other placement, a process is looked at as its rule says. One that was
/// placed and is no longer to be, because no rule covers it or because the
/// controller does not place, is only looked at to be cleared.
pub proof fn processes_are_treated_by_their_rules(
    settings: ObservationSettings,
    rule: Option<ResolvedRule>,
    placed: Option<LlcDomainKey>,
    process: ObservedProcess,
    plans: PlacementPlans,
    cpu_delta_100ns: u64,
    sample_interval_ms: u64,
)
    ensures
        observation(
            settings,
            rule,
            placed,
            process,
            plans,
            cpu_delta_100ns,
            sample_interval_ms,
        ) matches Some(said) ==> {
            let clearing = placed is Some && (settings.controller_mode != ControllerMode::Auto
                || rule is None);
            &&& clearing ==> said.mode == PlacementMode::Off && said.enforcement
                == EnforcementMode::Apply && said.preferred_partition is None
            &&& !clearing ==> rule is Some && said.enforcement == (rule->0).enforcement
            &&& !clearing && (rule->0).profile == WorkloadProfile::Interactive ==> said.mode
                != PlacementMode::Auto
            &&& !clearing && (rule->0).placement != PlacementMode::Auto ==> said.mode == (
            rule->0).placement
            &&& !clearing && (rule->0).placement == PlacementMode::Auto ==> said.mode == if (
            rule->0).profile == WorkloadProfile::Interactive {
                PlacementMode::Sticky
            } else {
                PlacementMode::Auto
            }
            &&& said.key == process.key
            &&& said.cpu_delta_100ns == cpu_delta_100ns
            &&& said.managed is Some <==> placed is Some
        },
{
}

/// A process that was placed is always looked at. Another one is looked at
/// exactly where a rule covers it, it is not excluded, and it is either named
/// by a rule or as busy as the settings ask for.
pub proof fn only_covered_processes_are_looked_at(
    settings: ObservationSettings,
    rule: Option<ResolvedRule>,
    placed: Option<LlcDomainKey>,
    process: ObservedProcess,
    plans: PlacementPlans,
    cpu_delta_100ns: u64,
    sample_interval_ms: u64,
)
    ensures
        observation(
            settings,
            rule,
            placed,
            process,
            plans,
            cpu_delta_100ns,
            sample_interval_ms,
        ) is Some <==> placed is Some || rule is Some && process.exclusion is None && (has_rule(
            settings.rule_images@,
            process.image_name@,
        ) || utilization(cpu_delta_100ns, sample_interval_ms)
            >= settings.minimum_process_utilization_bps),
{
}

/// Memory-bound and compute-bound work gets its partition, where there is
/// one, unless the process is not to be placed or bound to one domain; other
/// work gets none.
pub proof fn profiles_get_their_partitions(
    settings: ObservationSettings,
    rule: ResolvedRule,
    placed: Option<LlcDomainKey>,
    process: ObservedProcess,
    plans: PlacementPlans,
    cpu_delta_100ns: u64,
    sample_interval_ms: u64,
)
    requires
        placed is None || settings.controller_mode == ControllerMode::Auto,
    ensures
        observation(
            settings,
            Some(rule),
            placed,
            process,
            plans,
            cpu_delta_100ns,
            sample_interval_ms,
        ) matches Some(said) ==> {
            let placing = rule.placement != PlacementMode::Off && rule.placement !is Strict;
            &&& said.preferred_partition == Some(PreferredPartition::Memory) <==> placing
                && rule.profile == WorkloadProfile::Memory && plans.memory is Some
            &&& said.preferred_partition == Some(PreferredPartition::Compute) <==> placing
                && rule.profile == WorkloadProfile::Compute && plans.compute is Some
        },
{
}

/// A placed process that is to be placed is refreshed exactly where it shows
/// other processor sets than it ought to: those of its partition, or else
/// those of its domain. It leaves a domain that has none left for it.
pub proof fn outdated_placements_are_refreshed(
    settings: ObservationSettings,
    rule: ResolvedRule,
    anchor: LlcDomainKey,
    process: ObservedProcess,
    plans: PlacementPlans,
    cpu_delta_100ns: u64,
    sample_interval_ms: u64,
)
    requires
        settings.controller_mode == ControllerMode::Auto,
    ensures
        observation(
            settings,
            Some(rule),
            Some(anchor),
            process,
            plans,
            cpu_delta_100ns,
            sample_interval_ms,
        ) matches Some(said) && {
            let shown = process.default_cpu_set_ids@;
            let ought = if said.preferred_partition == Some(PreferredPartition::Memory) {
                (plans.memory->0)@
            } else if said.preferred_partition == Some(PreferredPartition::Compute) {
                (plans.compute->0)@
            } else {
                expected_sets(plans.domains@, anchor, said.mode)
            };
            let left = said.preferred_partition is None && ought.len() == 0;
            &&& said.managed is Some
            &&& (said.managed->0).current_domain == if left {
                None
            } else {
                Some(anchor)
            }
            &&& (said.managed->0).refresh_required <==> !left && shown != ought
        },
{
}

/// What a process in a domain ought to show are the sets of that domain: the
/// fastest for performance, the most efficient for efficiency, and otherwise
/// all.
pub proof fn domains_offer_their_classes(
    domains: Seq<DomainCpuSets>,
    at: int,
    placement: PlacementMode,
    key: LlcDomainKey,
)
    requires
        0 <= at < domains.len(),
        forall|i: int| 0 <= i < at ==> (#[trigger] domains[i]).key != domains[at].key,
        forall|i: int| 0 <= i < domains.len() ==> (#[trigger] domains[i]).key != key,
    ensures
        expected_sets(domains, domains[at].key, placement) == if placement
            == PlacementMode::Performance {
            domains[at].fastest@
        } else if placement == PlacementMode::Efficiency {
            domains[at].most_efficient@
        } else {
            domains[at].any@
        },
        expected_sets(domains, key, placement) == Seq::<u32>::empty(),
    decreases domains.len(),
{
    let rest = domains.drop_first();
    if at > 0 {
        assert(domains[0].key != domains[at].key);
        assert forall|i: int| 0 <= i < at - 1 implies (#[trigger] rest[i]).key
            != rest[at - 1].key by {
            assert(rest[i] == domains[i + 1]);
        }
        assert forall|i: int| 0 <= i < rest.len() implies (#[trigger] rest[i]).key != key by {
            assert(rest[i] == domains[i + 1]);
        }
        domains_offer_their_classes(rest, at - 1, placement, key);
    } else {
        unknown_domains_offer_nothing(domains, placement, key);
    }
}

proof fn unknown_domains_offer_nothing(
    domains: Seq<DomainCpuSets>,
    placement: PlacementMode,
    key: LlcDomainKey,
)
    requires
        forall|i: int| 0 <= i < domains.len() ==> (#[trigger] domains[i]).key != key,
    ensures
        expected_sets(domains, key, placement) == Seq::<u32>::empty(),
    decreases domains.len(),
{
    if domains.len() > 0 {
        let rest = domains.drop_first();
        assert(domains[0].key != key);
        assert forall|i: int| 0 <= i < rest.len() implies (#[trigger] rest[i]).key != key by {
            assert(rest[i] == domains[i + 1]);
        }
        unknown_domains_offer_nothing(rest, placement, key);
    }
}

/// The share of a processor that a process used, in hundredths of a percent,
/// is the time that it used by the length of the interval, rounded down.
pub proof fn shares_are_times_by_the_interval(cpu_delta_100ns: u64, sample_interval_ms: u64)
    requires
        sample_interval_ms > 0,
    ensures
        utilization(cpu_delta_100ns, sample_interval_ms) < u32::MAX ==> {
            &&& utilization(cpu_delta_100ns, sample_interval_ms) * sample_interval_ms
                <= cpu_delta_100ns
            &&& cpu_delta_100ns < (utilization(cpu_delta_100ns, sample_interval_ms) + 1)
                * sample_interval_ms
        },
        utilization(cpu_delta_100ns, sample_interval_ms) == u32::MAX ==> cpu_delta_100ns
            >= u32::MAX * sample_interval_ms,
        utilization(cpu_delta_100ns, 0) == 0,
{
    let delta = cpu_delta_100ns as int;
    let interval = sample_interval_ms as int;
    let share = (delta * 10_000) / (interval * 10_000);
    assert(share * interval <= delta < (share + 1) * interval) by (nonlinear_arith)
        requires
            interval > 0,
            delta >= 0,
            share == (delta * 10_000) / (interval * 10_000),
    ;
    if share > u32::MAX {
        assert(u32::MAX as int * interval <= share * interval) by (nonlinear_arith)
            requires
                interval > 0,
                share > u32::MAX as int,
        ;
    }
}

/// Every process that is looked at has its observation, and there is no
/// other.
pub proof fn every_process_has_its_observation(
    settings: ObservationSettings,
    rules: Seq<Option<ResolvedRule>>,
    managed: Map<ProcessKey, ManagedPlacement>,
    processes: Seq<ObservedProcess>,
    plans: PlacementPlans,
    times: Map<ProcessKey, u64>,
    sample_interval_ms: u64,
    n: nat,
)
    requires
        rules.len() == processes.len(),
        n <= processes.len(),
    ensures
        forall|said: RankedObservation|
            #![trigger observations(
                settings,
                rules,
                managed,
                processes,
                plans,
                times,
                sample_interval_ms,
                n,
            ).contains(said)]
            observations(settings, rules, managed, processes, plans, times, sample_interval_ms, n)
                .contains(said) <==> exists|i: int|
                #![trigger processes[i]]
                0 <= i < n && observation(
                    settings,
                    rules[i],
                    if managed.dom().contains(processes[i].key) {
                        Some(managed[processes[i].key].anchor_domain)
                    } else {
                        None
                    },
                    processes[i],
                    plans,
                    delta_of(times, processes, i),
                    sample_interval_ms,
                ) == Some(said),
        observations(settings, rules, managed, processes, plans, times, sample_interval_ms, n).len()
            <= n,
    decreases n,
{
    if n > 0 {
        let m = (n - 1) as nat;
        every_process_has_its_observation(
            settings,
            rules,
            managed,
            processes,
            plans,
            times,
            sample_interval_ms,
            m,
        );
        let before = observations(
            settings,
            rules,
            managed,
            processes,
            plans,
            times,
            sample_interval_ms,
            m,
        );
        let all = observations(
            settings,
            rules,
            managed,
            processes,
            plans,
            times,
            sample_interval_ms,
            n,
        );
        let last = observation(
            settings,
            rules[m as int],
            anchor_of(managed, processes[m as int].key),
            processes[m as int],
            plans,
            delta_of(times, processes, m as int),
            sample_interval_ms,
        );
        assert forall|said: RankedObservation| #[trigger] all.contains(said) <==> (before.contains(
            said,
        ) || last == Some(said)) by {
            if last is Some {
                assert(all == before.push(last->0));
                if before.contains(said) {
                    let i = choose|i: int| 0 <= i < before.len() && before[i] == said;
                    assert(all[i] == said);
                }
                if last == Some(said) {
                    assert(all[before.len() as int] == said);
                }
                if all.contains(said) {
                    let i = choose|i: int| 0 <= i < all.len() && all[i] == said;
                    if i < before.len() {
                        assert(before[i] == said);
                    }
                }
            }
        }
        assert forall|said: RankedObservation| #[trigger] all.contains(said) <==> exists|i: int|
            #![trigger processes[i]]
            0 <= i < n && observation(
                settings,
                rules[i],
                if managed.dom().contains(processes[i].key) {
                    Some(managed[processes[i].key].anchor_domain)
                } else {
                    None
                },
                processes[i],
                plans,
                delta_of(times, processes, i),
                sample_interval_ms,
            ) == Some(said) by {
            assert(all.contains(said) <==> before.contains(said) || last == Some(said));
            if last == Some(said) {
                assert(observation(
                    settings,
                    rules[m as int],
                    if managed.dom().contains(processes[m as int].key) {
                        Some(managed[processes[m as int].key].anchor_domain)
                    } else {
                        None
                    },
                    processes[m as int],
                    plans,
                    delta_of(times, processes, m as int),
                    sample_interval_ms,
                ) == Some(said));
            }
        }
    }
}

/// Of processes with different keys, each is remembered with the time that it
/// has used by now, and has used since the last look what that time has grown
/// by; a process that is new, or whose time went back, has used none. Other
/// times stay as they were.
pub proof fn times_are_measured_from_look_to_look(
    times: Map<ProcessKey, u64>,
    processes: Seq<ObservedProcess>,
    n: nat,
    key: ProcessKey,
    at: int,
)
    requires
        n <= processes.len(),
        forall|i: int, j: int|
            0 <= i < j < processes.len() ==> (#[trigger] processes[i]).key != (
            #[trigger] processes[j]).key,
        0 <= at < n,
    ensures
        ({
            let after = times_after(times, processes, n);
            let process = processes[at];
            &&& after.dom().contains(process.key)
            &&& after[process.key] == process.cpu_time_100ns
            &&& (forall|i: int| 0 <= i < n ==> (#[trigger] processes[i]).key != key) ==> (
            after.dom().contains(key) == times.dom().contains(key) && (times.dom().contains(key)
                ==> after[key] == times[key]))
            &&& times.dom().contains(process.key) && process.cpu_time_100ns >= times[process.key]
                ==> delta_of(times, processes, at) + times[process.key] == process.cpu_time_100ns
            &&& !times.dom().contains(process.key) ==> delta_of(times, processes, at) == 0
            &&& times.dom().contains(process.key) && process.cpu_time_100ns < times[process.key]
                ==> delta_of(times, processes, at) == 0
        }),
    decreases n,
{
    let m = (n - 1) as nat;
    if at < m {
        times_are_measured_from_look_to_look(times, processes, m, key, at);
        assert(processes[m as int].key != processes[at].key);
    } else {
        other_times_stay(times, processes, m, processes[at].key);
    }
    if forall|i: int| 0 <= i < n ==> (#[trigger] processes[i]).key != key {
        other_times_stay(times, processes, n, key);
    }
}

proof fn other_times_stay(
    times: Map<ProcessKey, u64>,
    processes: Seq<ObservedProcess>,
    n: nat,
    key: ProcessKey,
)
    requires
        n <= processes.len(),
        forall|i: int| 0 <= i < n ==> (#[trigger] processes[i]).key != key,
    ensures
        times_after(times, processes, n).dom().contains(key) == times.dom().contains(key),
        times.dom().contains(key) ==> times_after(times, processes, n)[key] == times[key],
    decreases n,
{
    if n > 0 {
        other_times_stay(times, processes, (n - 1) as nat, key);
        assert(processes[n - 1].key != key);
    }
}

/// Of two processes, the busier one is looked at first.
pub proof fn busier_processes_come_first(a: RankedObservation, b: RankedObservation)
    ensures
        a.cpu_delta_100ns > b.cpu_delta_100ns ==> ranks_before(a, b) && !ranks_before(b, a),
        a.cpu_delta_100ns == b.cpu_delta_100ns ==> (ranks_before(a, b) <==> a.key.pid < b.key.pid
            || a.key.pid == b.key.pid && a.key.creation_time_100ns < b.key.creation_time_100ns),
{
}

/// A rule names an image whatever the case of its letters, and another rule
/// does not take that away.
pub proof fn rules_name_images_in_any_case(images: Seq<String>, image: Seq<char>, at: int, other: String)
    requires
        0 <= at < images.len(),
    ensures
        has_rule(images, images[at]@),
        has_rule(images, image) ==> has_rule(images.push(other), image),
        has_rule(images.push(other), image) ==> has_rule(images, image)
            || crate::text::same_ignoring_case(other@, image),
{
    assert(crate::text::same_ignoring_case(images[at]@, images[at]@));
    if has_rule(images, image) {
        let i = choose|i: int|
            0 <= i < images.len() && crate::text::same_ignoring_case(
                (#[trigger] images[i])@,
                image,
            );
        assert(images.push(other)[i] == images[i]);
    }
    if has_rule(images.push(other), image) {
        let i = choose|i: int|
            0 <= i < images.push(other).len() && crate::text::same_ignoring_case(
                (#[trigger] images.push(other)[i])@,
                image,
            );
        if i < images.len() {
            assert(images[i] == images.push(other)[i]);
        }
    }
}

} // verus!
