use winsched_logic::controller::adaptive_width_config;
use winsched_logic::controller::system_reserve_request;
use winsched_logic::controller::ResponsivenessSettings;
use winsched_logic::journal::ManagedPlacement;
use winsched_logic::observations::build_ranked_observations;
use winsched_logic::observations::expected_domain_cpu_sets;
use winsched_logic::observations::partition_request;
use winsched_logic::observations::process_utilization_bps;
use winsched_logic::observations::ControllerMode;
use winsched_logic::observations::DomainCpuSets;
use winsched_logic::observations::EnforcementMode;
use winsched_logic::observations::ManagedObservation;
use winsched_logic::observations::ObservationSettings;
use winsched_logic::observations::PartitionRequest;
use winsched_logic::observations::PlacementMode;
use winsched_logic::observations::PlacementPlans;
use winsched_logic::observations::PreferredPartition;
use winsched_logic::observations::ResolvedRule;
use winsched_logic::observations::WorkloadProfile;
use winsched_logic::observed::ExclusionReason;
use winsched_logic::observed::LlcDomainKey;
use winsched_logic::observed::ObservedProcess;
use winsched_logic::placement::finish_exclusions;
use winsched_logic::placement::reconcile_managed;
use winsched_logic::placement::record_enforcement;
use winsched_logic::placement::withdraw_enforcement;
use winsched_logic::policy::action_summary;
use winsched_logic::policy::decision_summary;
use winsched_logic::policy::enforcement_of;
use winsched_logic::policy::DecisionReason;
use winsched_logic::policy::Enforcement;
use winsched_logic::policy::PolicyAction;
use winsched_logic::policy::PolicyDecision;
use winsched_logic::process::KeyMap;
use winsched_logic::process::ProcessKey;

fn process(pid: u32, image: &str, cpu_time_100ns: u64) -> ObservedProcess {
    ObservedProcess {
        key: ProcessKey { pid, creation_time_100ns: u64::from(pid) * 10 },
        parent_pid: 0,
        session_id: Some(1),
        thread_count: 1,
        image_name: image.to_owned(),
        image_path: None,
        priority_class: None,
        cpu_time_100ns,
        default_cpu_set_ids: Vec::new(),
        current_domain: None,
        exclusion: None,
    }
}

fn domain(index: u8) -> LlcDomainKey {
    LlcDomainKey { group: 0, last_level_cache_index: index }
}

fn plans(ids: &[u32]) -> PlacementPlans {
    let domains = if ids.is_empty() {
        Vec::new()
    } else {
        vec![DomainCpuSets {
            key: domain(1),
            any: ids.to_vec(),
            fastest: ids.to_vec(),
            most_efficient: ids.to_vec(),
        }]
    };
    PlacementPlans { domains, memory: None, compute: None }
}

fn settings(minimum: u16, images: &[&str]) -> ObservationSettings {
    ObservationSettings {
        controller_mode: ControllerMode::Auto,
        minimum_process_utilization_bps: minimum,
        rule_images: images.iter().map(|image| (*image).to_owned()).collect(),
    }
}

fn rule(placement: PlacementMode, profile: WorkloadProfile) -> Option<ResolvedRule> {
    Some(ResolvedRule { placement, enforcement: EnforcementMode::Apply, profile })
}

fn placed(anchor_domain: LlcDomainKey, cpu_set_ids: &[u32]) -> ManagedPlacement {
    ManagedPlacement { anchor_domain, cpu_set_ids: cpu_set_ids.to_vec() }
}

#[test]
fn process_ranking_prefers_largest_cpu_delta() {
    let processes = vec![process(10, "a.exe", 120), process(20, "b.exe", 250)];
    let mut previous = KeyMap::new();
    previous.insert(processes[0].key, 100);
    previous.insert(processes[1].key, 100);

    let auto = rule(PlacementMode::Auto, WorkloadProfile::Balanced);
    let ranked = build_ranked_observations(
        &settings(0, &["a.exe", "b.exe"]),
        &vec![auto, auto],
        &KeyMap::new(),
        &processes,
        &plans(&[256, 257]),
        &mut previous,
        1_000,
    );
    assert_eq!(ranked[0].key.pid, 20);
    assert_eq!(ranked[1].key.pid, 10);
    assert_eq!(ranked[0].cpu_delta_100ns, 150);
    assert_eq!(previous.get(processes[1].key), Some(&250));
}

#[test]
fn decision_summary_is_compact_and_user_facing() {
    let observed = process(20, "game.exe", 250);
    let decision = PolicyDecision {
        process: observed.key,
        action: PolicyAction::Keep { domain: Some(domain(2)) },
        reason: DecisionReason::RateLimited,
        enforce: false,
    };
    assert_eq!(
        decision_summary(&vec![observed], &decision),
        "game.exe (PID 20): kept on LLC 0:2; mutation rate limit"
    );
}

#[test]
fn implicit_scope_requires_activity_but_explicit_rules_do_not() {
    let auto = rule(PlacementMode::Auto, WorkloadProfile::Balanced);
    let processes = vec![process(10, "idle.exe", 100), process(20, "busy.exe", 1_000_000)];
    let mut previous = KeyMap::new();
    previous.insert(processes[0].key, 100);
    previous.insert(processes[1].key, 0);
    let ranked = build_ranked_observations(
        &settings(500, &[]),
        &vec![auto, auto],
        &KeyMap::new(),
        &processes,
        &plans(&[256, 257]),
        &mut previous,
        1_000,
    );
    assert_eq!(ranked.len(), 1);
    assert_eq!(ranked[0].key.pid, 20);

    let idle = vec![process(10, "idle.exe", 100)];
    let mut previous = KeyMap::new();
    previous.insert(idle[0].key, 100);
    let ranked = build_ranked_observations(
        &settings(500, &["idle.exe"]),
        &vec![auto],
        &KeyMap::new(),
        &idle,
        &plans(&[256, 257]),
        &mut previous,
        1_000,
    );
    assert_eq!(ranked.len(), 1);
    assert_eq!(ranked[0].key.pid, 10);
}

#[test]
fn recovered_process_removed_from_scope_is_cleared() {
    let mut observed = process(10, "old-rule.exe", 100);
    observed.current_domain = Some(domain(1));
    observed.default_cpu_set_ids = vec![256];
    let mut managed = KeyMap::new();
    managed.insert(observed.key, placed(domain(1), &[256]));
    let ranked = build_ranked_observations(
        &settings(0, &[]),
        &vec![None],
        &managed,
        &vec![observed],
        &plans(&[256, 257]),
        &mut KeyMap::new(),
        1_000,
    );
    assert_eq!(ranked.len(), 1);
    assert_eq!(ranked[0].mode, PlacementMode::Off);
    assert_eq!(ranked[0].enforcement, EnforcementMode::Apply);
    assert!(ranked[0].managed.is_some());
}

#[test]
fn managed_process_is_refreshed_when_a_cpu_set_becomes_reserved() {
    let mut observed = process(10, "interactive.exe", 100);
    observed.current_domain = Some(domain(1));
    observed.default_cpu_set_ids = vec![256, 257];
    let mut managed = KeyMap::new();
    managed.insert(observed.key, placed(domain(1), &[256, 257]));

    let ranked = build_ranked_observations(
        &settings(0, &["interactive.exe"]),
        &vec![rule(PlacementMode::Sticky, WorkloadProfile::Interactive)],
        &managed,
        &vec![observed],
        &plans(&[257]),
        &mut KeyMap::new(),
        1_000,
    );

    assert_eq!(ranked.len(), 1);
    assert_eq!(
        ranked[0].managed,
        Some(ManagedObservation { current_domain: Some(domain(1)), refresh_required: true })
    );
}

#[test]
fn managed_process_leaves_a_domain_that_becomes_fully_reserved() {
    let mut observed = process(10, "interactive.exe", 100);
    observed.current_domain = Some(domain(1));
    observed.default_cpu_set_ids = vec![256, 257];
    let mut managed = KeyMap::new();
    managed.insert(observed.key, placed(domain(1), &[256, 257]));

    let ranked = build_ranked_observations(
        &settings(0, &["interactive.exe"]),
        &vec![rule(PlacementMode::Sticky, WorkloadProfile::Interactive)],
        &managed,
        &vec![observed],
        &plans(&[]),
        &mut KeyMap::new(),
        1_000,
    );

    assert_eq!(ranked.len(), 1);
    assert_eq!(
        ranked[0].managed,
        Some(ManagedObservation { current_domain: None, refresh_required: false })
    );
}

/// Four cores with one hardware thread each for memory-bound work, eight with
/// both for compute-bound work.
fn partitions() -> PlacementPlans {
    PlacementPlans {
        memory: Some(vec![400, 404, 408, 412]),
        compute: Some((400..416).collect()),
        ..plans(&[256])
    }
}

/// Whether a process that shows these processor sets, and was placed by the
/// controller, is placed anew.
fn refreshed(image: &str, profile: WorkloadProfile, shown: Vec<u32>) -> bool {
    let mut observed = process(10, image, 100);
    observed.default_cpu_set_ids = shown.clone();
    let mut managed = KeyMap::new();
    managed.insert(observed.key, placed(domain(1), &shown));
    let ranked = build_ranked_observations(
        &settings(0, &[image]),
        &vec![rule(PlacementMode::Sticky, profile)],
        &managed,
        &vec![observed],
        &partitions(),
        &mut KeyMap::new(),
        1_000,
    );
    let observation = ranked[0].managed.unwrap();
    assert_eq!(observation.current_domain, Some(domain(1)));
    observation.refresh_required
}

#[test]
fn memory_profile_uses_one_smt_thread_across_the_requested_core_width() {
    let ranked = build_ranked_observations(
        &settings(0, &["memory.exe"]),
        &vec![rule(PlacementMode::Sticky, WorkloadProfile::Memory)],
        &KeyMap::new(),
        &vec![process(10, "memory.exe", 100)],
        &partitions(),
        &mut KeyMap::new(),
        1_000,
    );

    let partition = ranked[0].preferred_partition.unwrap();
    assert_eq!(
        partition_request(partition, 4, false),
        PartitionRequest { physical_cores: 4, use_smt: false }
    );
    assert!(!refreshed("memory.exe", WorkloadProfile::Memory, vec![400, 404, 408, 412]));
    assert!(refreshed("memory.exe", WorkloadProfile::Memory, (400..416).collect()));
    assert!(refreshed("memory.exe", WorkloadProfile::Memory, vec![256]));
}

#[test]
fn compute_profile_uses_both_smt_threads_on_every_available_core() {
    let ranked = build_ranked_observations(
        &settings(0, &["compute.exe"]),
        &vec![rule(PlacementMode::Sticky, WorkloadProfile::Compute)],
        &KeyMap::new(),
        &vec![process(10, "compute.exe", 100)],
        &partitions(),
        &mut KeyMap::new(),
        1_000,
    );

    let partition = ranked[0].preferred_partition.unwrap();
    assert_eq!(
        partition_request(partition, 4, false),
        PartitionRequest { physical_cores: usize::MAX, use_smt: true }
    );
    assert!(!refreshed("compute.exe", WorkloadProfile::Compute, (400..416).collect()));
    assert!(refreshed("compute.exe", WorkloadProfile::Compute, vec![400, 404, 408, 412]));
}

fn responsiveness() -> ResponsivenessSettings {
    ResponsivenessSettings {
        enabled: true,
        latency_guard_enabled: true,
        latency_target_p99_us: 10_000,
        latency_recovery_p99_us: 5_000,
        adjustment_stability_samples: 3,
        system_reserve_percent: 10,
        minimum_reserved_cores: 1,
        maximum_reserved_cores: 4,
        memory_minimum_physical_cores: 8,
        memory_maximum_physical_cores: 28,
        memory_use_smt: false,
        memory_resize_cooldown_ms: 30_000,
    }
}

#[test]
fn adaptive_memory_width_is_clamped_to_the_available_placement_topology() {
    let width = adaptive_width_config(&responsiveness(), 0);
    assert_eq!(width.minimum_physical_cores, 0);
    assert_eq!(width.maximum_physical_cores, 0);
    let width = adaptive_width_config(&responsiveness(), 16);
    assert_eq!(width.minimum_physical_cores, 8);
    assert_eq!(width.maximum_physical_cores, 16);
}

#[test]
fn nothing_is_reserved_while_responsiveness_is_off() {
    assert_eq!(system_reserve_request(&responsiveness()), (10, 1, 4));
    let off = ResponsivenessSettings { enabled: false, ..responsiveness() };
    assert_eq!(system_reserve_request(&off), (0, 0, 0));
}

#[test]
fn utilization_is_counted_in_basis_points_of_one_processor() {
    assert_eq!(process_utilization_bps(5_000_000, 1_000), 5_000);
    assert_eq!(process_utilization_bps(1, 0), 0);
    assert_eq!(process_utilization_bps(u64::MAX, 1), u32::MAX);
}

#[test]
fn domains_offer_the_class_that_a_placement_asks_for() {
    let plans = PlacementPlans {
        domains: vec![DomainCpuSets {
            key: domain(1),
            any: vec![1, 2],
            fastest: vec![1],
            most_efficient: vec![2],
        }],
        memory: None,
        compute: None,
    };
    let sets = |placement| expected_domain_cpu_sets(&plans, domain(1), placement).cloned();
    assert_eq!(sets(PlacementMode::Auto), Some(vec![1, 2]));
    assert_eq!(sets(PlacementMode::Performance), Some(vec![1]));
    assert_eq!(sets(PlacementMode::Efficiency), Some(vec![2]));
    assert!(expected_domain_cpu_sets(&plans, domain(9), PlacementMode::Auto).is_none());
}

#[test]
fn foreign_and_excluded_placements_are_given_up() {
    let mut kept = process(1, "kept.exe", 0);
    kept.default_cpu_set_ids = vec![256];
    let mut foreign = process(2, "foreign.exe", 0);
    foreign.default_cpu_set_ids = vec![999];
    let mut excluded = process(3, "excluded.exe", 0);
    excluded.default_cpu_set_ids = vec![256];
    excluded.exclusion = Some(ExclusionReason::ProtectedProcess);
    let processes = vec![kept, foreign, excluded];
    let mut managed = KeyMap::new();
    for process in &processes {
        managed.insert(process.key, placed(domain(1), &[256]));
    }
    managed.insert(ProcessKey { pid: 9, creation_time_100ns: 9 }, placed(domain(1), &[256]));

    let plan = reconcile_managed(&mut managed, &processes);
    assert!(plan.changed);
    assert!(managed.contains(processes[0].key));
    assert!(!managed.contains(processes[1].key));
    assert!(!managed.contains(ProcessKey { pid: 9, creation_time_100ns: 9 }));
    assert_eq!(plan.excluded, vec![processes[2].key]);
    assert!(finish_exclusions(&mut managed, &plan.excluded, &vec![true]));
    assert_eq!(managed.len(), 1);
    let again = reconcile_managed(&mut managed, &processes);
    assert!(!again.changed);
}

#[test]
fn excluded_processes_are_named_once_in_key_order() {
    let mut processes: Vec<ObservedProcess> =
        [30, 10, 20, 10].iter().map(|pid| process(*pid, "a.exe", 0)).collect();
    let mut managed = KeyMap::new();
    for observed in &mut processes {
        observed.exclusion = Some(ExclusionReason::SystemProcess);
        observed.default_cpu_set_ids = vec![256];
        managed.insert(observed.key, placed(domain(1), &[256]));
    }

    let plan = reconcile_managed(&mut managed, &processes);
    assert_eq!(
        plan.excluded.iter().map(|key| key.pid).collect::<Vec<_>>(),
        vec![10, 20, 30]
    );
}

#[test]
fn enforcements_are_recorded_and_withdrawn() {
    let key = ProcessKey { pid: 4, creation_time_100ns: 40 };
    let mut managed = KeyMap::new();
    assert!(record_enforcement(&mut managed, key, Some(domain(2)), Some(vec![7, 8])));
    assert_eq!(managed.get(key).unwrap().cpu_set_ids, vec![7, 8]);
    assert!(withdraw_enforcement(&mut managed, key, Some(domain(2))));
    assert!(!managed.contains(key));
}

#[test]
fn only_enforced_mutations_are_carried_out() {
    let decision = |action, enforce| PolicyDecision {
        process: ProcessKey { pid: 1, creation_time_100ns: 10 },
        action,
        reason: DecisionReason::BetterDomain,
        enforce,
    };
    let assign = PolicyAction::Assign { target: domain(2), cpu_set_ids: vec![5] };
    assert_eq!(action_summary(&assign), "assigned partition anchored at LLC 0:2 (1 CPU Sets)");
    assert!(assign.is_mutation());
    match enforcement_of(&decision(assign, true)) {
        Enforcement::Apply { target, cpu_set_ids } => {
            assert_eq!(target, domain(2));
            assert_eq!(cpu_set_ids, vec![5]);
        }
        _ => panic!("an enforced assignment is applied"),
    }
    assert!(matches!(
        enforcement_of(&decision(PolicyAction::Clear { source: domain(2) }, true)),
        Enforcement::Clear
    ));
    assert!(matches!(
        enforcement_of(&decision(PolicyAction::Keep { domain: None }, true)),
        Enforcement::Nothing
    ));
}
