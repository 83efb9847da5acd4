use winsched_logic::decision_log::reason_name;
use winsched_logic::decision_log::DecisionReasonCount;
use winsched_logic::decision_log::DecisionSummaryGate;
use winsched_logic::decision_log::MAX_DECISION_SUMMARY_UNIQUE_PROCESSES;
use winsched_logic::observed::ExclusionReason;
use winsched_logic::observed::LlcDomainKey;
use winsched_logic::policy::DecisionReason;
use winsched_logic::policy::PolicyAction;
use winsched_logic::policy::PolicyDecision;
use winsched_logic::process::ProcessKey;
use winsched_logic::responsiveness_log::ResponsivenessLogGate;
use winsched_logic::responsiveness_log::ResponsivenessLogReason;
use winsched_logic::responsiveness_log::ResponsivenessPressure;
use winsched_logic::responsiveness_log::ResponsivenessSignature;
use winsched_logic::status_publisher::StatusPublishGate;
use winsched_logic::telemetry::nearest_rank;
use winsched_logic::telemetry::EvaluationAccumulator;
use winsched_logic::telemetry::EvaluationTelemetry;

fn decision(
    pid: u32,
    action: PolicyAction,
    reason: DecisionReason,
    enforce: bool,
) -> PolicyDecision {
    PolicyDecision {
        process: ProcessKey { pid, creation_time_100ns: u64::from(pid) * 10 },
        action,
        reason,
        enforce,
    }
}

fn domain(index: u8) -> LlcDomainKey {
    LlcDomainKey { group: 0, last_level_cache_index: index }
}

#[test]
fn reports_fixed_window_mean_p95_max_and_population_counts() {
    let mut metrics = EvaluationAccumulator::new(4);
    for (duration, scanned, eligible, decisions) in [
        (100, 80, 10, 10),
        (200, 81, 11, 11),
        (300, 82, 12, 12),
        (400, 83, 13, 13),
        (500, 84, 14, 14),
    ] {
        metrics.record(duration, scanned, eligible, decisions);
    }
    let status = metrics.status();
    assert_eq!(status.completed_total, 5);
    assert_eq!(status.window_samples, 4);
    assert_eq!(status.last_duration_us, 500);
    assert_eq!(status.rolling_mean_us, 350);
    assert_eq!(status.rolling_p95_us, 500);
    assert_eq!(status.rolling_max_us, 500);
    assert_eq!(status.last_scanned_processes, 84);
    assert_eq!(status.last_eligible_processes, 14);
    assert_eq!(status.last_decisions, 14);
}

#[test]
fn empty_and_single_sample_windows_are_well_defined() {
    let mut metrics = EvaluationAccumulator::new(0);
    assert_eq!(metrics.status(), EvaluationTelemetry::default());
    metrics.record(123, 4, 3, 2);
    let status = metrics.status();
    assert_eq!(status.completed_total, 1);
    assert_eq!(status.window_samples, 1);
    assert_eq!(status.rolling_mean_us, 123);
    assert_eq!(status.rolling_p95_us, 123);
    assert_eq!(status.rolling_max_us, 123);
}

#[test]
fn samples_are_ranked_whatever_their_order() {
    let mut metrics = EvaluationAccumulator::default();
    for duration in [50, 10, 40, 20, 30] {
        metrics.record(duration, 1, 1, 1);
    }
    let status = metrics.status();
    assert_eq!(status.last_duration_us, 30);
    assert_eq!(status.rolling_mean_us, 30);
    assert_eq!(status.rolling_p95_us, 50);
    assert_eq!(status.rolling_max_us, 50);
    let twenty: Vec<u64> = (1..=20).collect();
    assert_eq!(nearest_rank(&twenty, 95), 19);
    assert_eq!(nearest_rank(&twenty, 50), 10);
    assert_eq!(nearest_rank(&Vec::new(), 95), 0);
}

#[test]
fn long_runs_do_not_overflow_the_mean() {
    let mut metrics = EvaluationAccumulator::new(2);
    metrics.record(u64::MAX, 1, 1, 1);
    metrics.record(u64::MAX, 1, 1, 1);
    assert_eq!(metrics.status().rolling_max_us, u64::MAX);
}

#[test]
fn steady_decisions_emit_one_summary_at_the_interval_boundary() {
    let mut gate = DecisionSummaryGate::new(60_000);
    let keep = decision(
        10,
        PolicyAction::Keep { domain: Some(domain(0)) },
        DecisionReason::BelowOverloadThreshold,
        false,
    );
    assert_eq!(gate.observe(0, &keep), None);
    assert_eq!(gate.observe(59_999, &keep), None);
    let summary = gate.observe(60_000, &keep).unwrap();
    assert_eq!(summary.window_duration_ms, 60_000);
    assert_eq!(summary.decisions, 2);
    assert_eq!(summary.unique_processes, 1);
    assert_eq!(summary.actions.keep, 2);
    assert_eq!(
        summary.reasons,
        vec![DecisionReasonCount { reason: "below_overload_threshold", count: 2 }]
    );
    assert_eq!(gate.flush(60_001).unwrap().decisions, 1);
    assert_eq!(gate.flush(60_002), None);
}

#[test]
fn due_flush_emits_without_requiring_another_process_decision() {
    let mut gate = DecisionSummaryGate::new(60_000);
    let keep = decision(
        10,
        PolicyAction::Keep { domain: None },
        DecisionReason::BelowOverloadThreshold,
        false,
    );
    assert_eq!(gate.observe(1_000, &keep), None);
    assert_eq!(gate.flush_if_due(60_999), None);
    let summary = gate.flush_if_due(61_000).unwrap();
    assert_eq!(summary.window_duration_ms, 60_000);
    assert_eq!(summary.decisions, 1);
    assert_eq!(gate.flush_if_due(121_000), None);
}

#[test]
fn summary_counts_actions_reasons_enforcement_and_unique_processes() {
    let mut gate = DecisionSummaryGate::new(60_000);
    let assign = decision(
        10,
        PolicyAction::Assign { target: domain(8), cpu_set_ids: vec![1, 2] },
        DecisionReason::InitialPlacement,
        true,
    );
    let ignored = decision(
        20,
        PolicyAction::Ignore,
        DecisionReason::Excluded(ExclusionReason::SessionZero),
        false,
    );
    assert_eq!(gate.observe(1_000, &assign), None);
    assert_eq!(gate.observe(2_000, &ignored), None);
    assert_eq!(gate.observe(3_000, &assign), None);
    let summary = gate.flush(4_000).unwrap();
    assert_eq!(summary.decisions, 3);
    assert_eq!(summary.unique_processes, 2);
    assert_eq!(summary.enforcement_requested, 2);
    assert_eq!(summary.actions.assign, 2);
    assert_eq!(summary.actions.ignore, 1);
    assert_eq!(
        summary.reasons,
        vec![
            DecisionReasonCount { reason: "excluded_session_zero", count: 1 },
            DecisionReasonCount { reason: "initial_placement", count: 2 },
        ]
    );
}

#[test]
fn empty_and_reset_windows_do_not_emit() {
    let mut gate = DecisionSummaryGate::default();
    assert_eq!(gate.flush(1_000), None);
    let keep = decision(1, PolicyAction::Keep { domain: None }, DecisionReason::ModeOff, false);
    assert_eq!(gate.observe(2_000, &keep), None);
    gate.reset();
    assert_eq!(gate.flush(100_000), None);
}

#[test]
fn monotonic_regression_starts_a_fresh_bounded_window() {
    let mut gate = DecisionSummaryGate::new(100);
    let keep = decision(1, PolicyAction::Keep { domain: None }, DecisionReason::Cooldown, false);
    assert_eq!(gate.observe(1_000, &keep), None);
    assert_eq!(gate.observe(900, &keep), None);
    assert_eq!(gate.observe(999, &keep), None);
    assert_eq!(gate.observe(1_000, &keep).unwrap().decisions, 3);
}

#[test]
fn high_process_count_coalesces_to_one_bounded_minute_summary() {
    let mut gate = DecisionSummaryGate::default();
    let mut emitted = Vec::new();
    for second in 0..=60u64 {
        for pid in 1..=82 {
            let keep = decision(
                pid,
                PolicyAction::Keep { domain: Some(domain(8)) },
                DecisionReason::BelowOverloadThreshold,
                false,
            );
            if let Some(summary) = gate.observe(second * 1_000, &keep) {
                emitted.push(summary);
            }
        }
    }
    assert_eq!(emitted.len(), 1);
    assert_eq!(emitted[0].decisions, 60 * 82);
    assert_eq!(emitted[0].unique_processes, 82);
    assert_eq!(emitted[0].actions.keep, 60 * 82);
    assert_eq!(gate.flush(60_001).unwrap().decisions, 82);
}

#[test]
fn unique_process_tracking_has_an_explicit_fixed_capacity() {
    let mut gate = DecisionSummaryGate::new(60_000);
    for pid in 1..=u32::try_from(MAX_DECISION_SUMMARY_UNIQUE_PROCESSES + 1).unwrap() {
        let keep = decision(
            pid,
            PolicyAction::Keep { domain: None },
            DecisionReason::BelowOverloadThreshold,
            false,
        );
        assert_eq!(gate.observe(0, &keep), None);
    }
    let summary = gate.flush(1).unwrap();
    assert_eq!(summary.unique_processes, MAX_DECISION_SUMMARY_UNIQUE_PROCESSES);
    assert!(summary.unique_processes_saturated);
}

#[test]
fn reasons_have_names_of_their_own() {
    assert_eq!(reason_name(DecisionReason::RateLimited), "rate_limited");
    assert_eq!(
        reason_name(DecisionReason::Excluded(ExclusionReason::ProtectedProcess)),
        "excluded_protected_process"
    );
}

fn signature(pressure: ResponsivenessPressure, cores: u16) -> ResponsivenessSignature {
    ResponsivenessSignature { pressure, memory_profile_physical_cores: cores }
}

#[test]
fn steady_state_emits_once_per_minute() {
    let normal = signature(ResponsivenessPressure::Normal, 28);
    let mut gate = ResponsivenessLogGate::default();
    assert_eq!(gate.decide(0, normal, false), Some(ResponsivenessLogReason::Initial));
    for now in 1_000..60_000 {
        assert_eq!(gate.decide(now, normal, false), None);
    }
    assert_eq!(gate.decide(60_000, normal, false), Some(ResponsivenessLogReason::Periodic));
}

#[test]
fn pressure_transition_requires_three_stable_samples() {
    let normal = signature(ResponsivenessPressure::Normal, 28);
    let elevated = signature(ResponsivenessPressure::Elevated, 28);
    let mut gate = ResponsivenessLogGate::default();
    assert!(gate.decide(0, normal, false).is_some());
    assert_eq!(gate.decide(1_000, elevated, false), None);
    assert_eq!(gate.decide(2_000, normal, false), None);
    assert_eq!(gate.decide(3_000, elevated, false), None);
    assert_eq!(gate.decide(4_000, elevated, false), None);
    assert_eq!(gate.decide(5_000, elevated, false), Some(ResponsivenessLogReason::Transition));
}

#[test]
fn width_change_emits_immediately() {
    let normal = signature(ResponsivenessPressure::Normal, 28);
    let shrunk = signature(ResponsivenessPressure::Elevated, 25);
    let mut gate = ResponsivenessLogGate::default();
    assert!(gate.decide(0, normal, false).is_some());
    assert_eq!(gate.decide(1_000, shrunk, true), Some(ResponsivenessLogReason::Transition));
    assert_eq!(ResponsivenessLogReason::Transition.as_str(), "transition");
}

#[test]
fn emits_initial_status_and_ten_second_heartbeats() {
    let mut gate = StatusPublishGate::default();
    assert!(gate.should_publish(0, false));
    gate.mark_published(0);
    assert!(!gate.should_publish(9_999, false));
    assert!(gate.should_publish(10_000, false));
    gate.mark_published(10_000);
    assert!(!gate.should_publish(19_999, false));
    assert!(gate.should_publish(20_000, false));
}

#[test]
fn immediate_receipt_resets_heartbeat_deadline_without_double_write() {
    let mut gate = StatusPublishGate::default();
    assert!(gate.should_publish(0, false));
    gate.mark_published(0);
    assert!(gate.should_publish(3_000, true));
    gate.mark_published(3_000);
    assert!(!gate.should_publish(10_000, false));
    assert!(gate.should_publish(13_000, false));
}

#[test]
fn monotonic_jump_after_sleep_forces_next_heartbeat() {
    let mut gate = StatusPublishGate::default();
    assert!(gate.should_publish(1_000, false));
    gate.mark_published(1_000);
    assert!(gate.should_publish(600_000, false));
}
