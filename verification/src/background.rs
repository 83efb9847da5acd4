//! One evaluation of the background policies of all processes.
use vstd::prelude::*;

use crate::efficiency::BackgroundPolicy;
use crate::efficiency::ManagedBackgroundProcess;
use crate::interactive::find_session;
use crate::interactive::SessionActivity;
use crate::observed::lives;
use crate::observed::ObservedProcess;
use crate::process::contains_pid;
use crate::process::KeyMap;
use crate::process::ProcessKey;
use crate::protection::background_protection;
use crate::protection::required_probes_available;
use crate::text::push_decimal;
use crate::turn::BackgroundTurn;
use crate::turn::TurnAction;
use crate::turn::TurnEvent;
use crate::turn::TurnFacts;
use crate::turn::TurnNote;
use crate::turn::TurnStage;
use crate::turn::TurnStep;

verus! {

/// What is published about the background policies.
#[derive(Debug)]
pub struct BackgroundEfficiencyStatus {
    pub eligible_processes: usize,
    pub managed_processes: usize,
    pub protected_processes: usize,
    pub required_probe_sessions: usize,
    pub interactive_probe_sessions: usize,
    pub memory_pressure_monitor_available: bool,
    pub low_memory_condition: bool,
    pub last_action: Option<String>,
}

/// What is published about the background policies, with its text as a
/// sequence.
#[verifier::ext_equal]
pub struct BackgroundStatusView {
    pub eligible_processes: usize,
    pub managed_processes: usize,
    pub protected_processes: usize,
    pub required_probe_sessions: usize,
    pub interactive_probe_sessions: usize,
    pub memory_pressure_monitor_available: bool,
    pub low_memory_condition: bool,
    pub last_action: Option<Seq<char>>,
}

impl View for BackgroundEfficiencyStatus {
    type V = BackgroundStatusView;

    open spec fn view(&self) -> BackgroundStatusView {
        BackgroundStatusView {
            eligible_processes: self.eligible_processes,
            managed_processes: self.managed_processes,
            protected_processes: self.protected_processes,
            required_probe_sessions: self.required_probe_sessions,
            interactive_probe_sessions: self.interactive_probe_sessions,
            memory_pressure_monitor_available: self.memory_pressure_monitor_available,
            low_memory_condition: self.low_memory_condition,
            last_action: self.last_action.deep_view(),
        }
    }
}

/// Whether two pieces of optional text are the same.
pub fn same_optional_text(a: &Option<String>, b: &Option<String>) -> (same: bool)
    ensures
        same == (a.deep_view() == b.deep_view()),
{
    match (a, b) {
        (None, None) => true,
        (Some(a), Some(b)) => crate::text::same_text(a.as_str(), b.as_str()),
        _ => false,
    }
}

/// Copies a piece of optional text.
pub fn copy_optional_text(text: &Option<String>) -> (copy: Option<String>)
    ensures
        copy.deep_view() == text.deep_view(),
{
    match text {
        Some(text) => Some(text.as_str().to_owned()),
        None => None,
    }
}

impl BackgroundEfficiencyStatus {
    /// A status with nothing to say.
    pub fn empty() -> (status: BackgroundEfficiencyStatus)
        ensures
            status@ == (BackgroundStatusView {
                eligible_processes: 0,
                managed_processes: 0,
                protected_processes: 0,
                required_probe_sessions: 0,
                interactive_probe_sessions: 0,
                memory_pressure_monitor_available: false,
                low_memory_condition: false,
                last_action: None,
            }),
    {
        BackgroundEfficiencyStatus {
            eligible_processes: 0,
            managed_processes: 0,
            protected_processes: 0,
            required_probe_sessions: 0,
            interactive_probe_sessions: 0,
            memory_pressure_monitor_available: false,
            low_memory_condition: false,
            last_action: None,
        }
    }

    /// Copies a status.
    pub fn copy(&self) -> (copy: BackgroundEfficiencyStatus)
        ensures
            copy@ == self@,
    {
        BackgroundEfficiencyStatus {
            eligible_processes: self.eligible_processes,
            managed_processes: self.managed_processes,
            protected_processes: self.protected_processes,
            required_probe_sessions: self.required_probe_sessions,
            interactive_probe_sessions: self.interactive_probe_sessions,
            memory_pressure_monitor_available: self.memory_pressure_monitor_available,
            low_memory_condition: self.low_memory_condition,
            last_action: copy_optional_text(&self.last_action),
        }
    }

    /// Whether two statuses say the same.
    pub fn same(&self, other: &BackgroundEfficiencyStatus) -> (same: bool)
        ensures
            same == (self@ == other@),
    {
        self.eligible_processes == other.eligible_processes && self.managed_processes
            == other.managed_processes && self.protected_processes == other.protected_processes
            && self.required_probe_sessions == other.required_probe_sessions
            && self.interactive_probe_sessions == other.interactive_probe_sessions
            && self.memory_pressure_monitor_available == other.memory_pressure_monitor_available
            && self.low_memory_condition == other.low_memory_condition && same_optional_text(
            &self.last_action,
            &other.last_action,
        )
    }
}

/// What is left when an evaluation is done.
#[derive(Debug)]
pub struct BackgroundReconcileReport {
    pub status: BackgroundEfficiencyStatus,
    pub last_error: Option<String>,
}

/// An evaluation in progress.
pub struct BackgroundRun {
    pub policy: BackgroundPolicy,
    pub mutations_active: bool,
    pub low_memory: bool,
    pub processes: Vec<ObservedProcess>,
    /// For each process, whether a rule names its image for background
    /// efficiency.
    pub background_rule: Vec<bool>,
    pub sessions: Vec<SessionActivity>,
    pub journal: KeyMap<ManagedBackgroundProcess>,
    /// For each process that the policy covers, in how many evaluations in a
    /// row nothing protected it.
    pub streaks: KeyMap<u8>,
    /// How many more changes this evaluation may make.
    pub budget: usize,
    /// The process that is, or comes, next.
    pub next: usize,
    pub turn: Option<BackgroundTurn>,
    pub status: BackgroundEfficiencyStatus,
    pub last_error: Option<String>,
    /// The sessions of the processes that a rule names.
    pub required_sessions: Vec<u32>,
}

/// What a map holds for a key.
pub open spec fn lookup<V>(map: Map<ProcessKey, V>, key: ProcessKey) -> Option<V> {
    if map.dom().contains(key) {
        Some(map[key])
    } else {
        None
    }
}

/// A map with the value for a key replaced, or removed.
pub open spec fn with_entry<V>(
    map: Map<ProcessKey, V>,
    key: ProcessKey,
    value: Option<V>,
) -> Map<ProcessKey, V> {
    match value {
        Some(value) => map.insert(key, value),
        None => map.remove(key),
    }
}

/// Whether a journal entry belongs to no process any more. A process whose
/// creation time could not be read stands for every key with its identifier.
pub open spec fn is_dead(processes: Seq<ObservedProcess>, key: ProcessKey) -> bool {
    !crate::observed::is_live(processes, key) && !unidentified(processes, key.pid)
}

/// Whether a process with this identifier has no known creation time.
pub open spec fn unidentified(processes: Seq<ObservedProcess>, pid: u32) -> bool {
    exists|i: int|
        0 <= i < processes.len() && (#[trigger] processes[i]).key.pid == pid
            && processes[i].key.creation_time_100ns == 0
}

/// The entries that belong to a process.
pub open spec fn without_dead<V>(
    map: Map<ProcessKey, V>,
    processes: Seq<ObservedProcess>,
) -> Map<ProcessKey, V> {
    Map::new(
        |key: ProcessKey| map.dom().contains(key) && !is_dead(processes, key),
        |key: ProcessKey| map[key],
    )
}

/// How many elements have a property.
pub open spec fn count_where<T>(items: Seq<T>, holds: spec_fn(T) -> bool) -> nat
    decreases items.len(),
{
    if items.len() == 0 {
        0
    } else {
        count_where(items.drop_last(), holds) + if holds(items.last()) {
            1nat
        } else {
            0nat
        }
    }
}

/// Whether a rule names a process for background efficiency, and the process
/// is neither excluded nor outside the signed-in sessions.
pub open spec fn covered(process: ObservedProcess, background_rule: bool) -> bool {
    background_rule && process.exclusion is None && process.session_id is Some
        && process.session_id != Some(0u32)
}

/// How many of the first `n` processes are covered.
pub open spec fn covered_among(
    processes: Seq<ObservedProcess>,
    background_rule: Seq<bool>,
    n: nat,
) -> nat
    decreases n,
{
    if n == 0 {
        0
    } else {
        covered_among(processes, background_rule, (n - 1) as nat) + if covered(
            processes[n - 1],
            background_rule[n - 1],
        ) {
            1nat
        } else {
            0nat
        }
    }
}

/// Whether one of the first `n` processes is covered and runs in a session.
pub open spec fn session_required(
    processes: Seq<ObservedProcess>,
    background_rule: Seq<bool>,
    n: int,
    session_id: u32,
) -> bool {
    exists|i: int|
        0 <= i < n && #[trigger] covered(processes[i], background_rule[i])
            && processes[i].session_id == Some(session_id)
}

/// `image (PID pid)` between two pieces of text.
pub open spec fn about_process(
    before: Seq<char>,
    image: Seq<char>,
    pid: u32,
    after: Seq<char>,
) -> Seq<char> {
    before + image + " (PID "@ + crate::text::decimal(pid as nat) + ")"@ + after
}

fn about_process_text(before: &str, process: &ObservedProcess, after: &str) -> (text: String)
    ensures
        text@ == about_process(before@, process.image_name@, process.key.pid, after@),
{
    let mut text = before.to_owned();
    text.append(process.image_name.as_str());
    text.append(" (PID ");
    push_decimal(&mut text, process.key.pid as u64);
    text.append(")");
    text.append(after);
    text
}

/// The last error after a step: `detail` is what the outside work said of its
/// failure, or of the properties it failed on.
pub open spec fn error_after(
    before: Option<Seq<char>>,
    event: TurnEvent,
    note: TurnNote,
    process: ObservedProcess,
    detail: Option<Seq<char>>,
) -> Option<Seq<char>> {
    let said = match detail {
        Some(said) => said,
        None => Seq::empty(),
    };
    match note {
        TurnNote::QueryFailed => Some(
            about_process(
                "background state query failed for "@,
                process.image_name@,
                process.key.pid,
                ": "@ + said,
            ),
        ),
        TurnNote::Unsupported => Some(
            about_process(
                "background efficiency unsupported for "@,
                process.image_name@,
                process.key.pid,
                ": "@ + said,
            ),
        ),
        TurnNote::RecheckFailed
        | TurnNote::RecoveryFailed
        | TurnNote::ReleaseFailed
        | TurnNote::UpdateFailed
        | TurnNote::ApplyFailed => Some(said),
        _ => if event matches TurnEvent::Restored(Some(_)) && detail is Some {
            detail
        } else {
            before
        },
    }
}

/// The last action after a step.
pub open spec fn action_after(
    before: Option<Seq<char>>,
    note: TurnNote,
    process: ObservedProcess,
) -> Option<Seq<char>> {
    let image = process.image_name@;
    let pid = process.key.pid;
    match note {
        TurnNote::Released { complete: true, .. } => Some(
            about_process("Restored background policy for "@, image, pid, ""@),
        ),
        TurnNote::Released { complete: false, .. } => Some(
            about_process("Background policy cleanup remains pending for "@, image, pid, ""@),
        ),
        TurnNote::Updated => Some(
            about_process("Updated background policy for "@, image, pid, ""@),
        ),
        TurnNote::AppliedNew => Some(
            about_process("Applied background policy to "@, image, pid, ""@),
        ),
        _ => before,
    }
}

/// What holds of a process in an evaluation.
#[verifier::opaque]
pub open spec fn process_facts(
    policy: BackgroundPolicy,
    mutations_active: bool,
    low_memory: bool,
    processes: Seq<ObservedProcess>,
    background_rule: Seq<bool>,
    sessions: Seq<SessionActivity>,
    i: int,
) -> TurnFacts {
    let exact = covered(processes[i], background_rule[i]);
    TurnFacts {
        key: processes[i].key,
        policy,
        low_memory,
        exact_background: exact,
        protection: if exact {
            crate::protection::protection_of(policy, processes[i], processes, sessions)
        } else {
            None
        },
        mutations_active,
    }
}

/// The facts about a process are about its key.
pub proof fn facts_name_the_process(run: BackgroundRun, i: int)
    ensures
        run.facts_of(i).key == run.processes@[i].key,
{
    reveal(process_facts);
}

/// The covered processes among the first `n`, and their sessions.
#[verifier::opaque]
pub open spec fn tallied(
    processes: Seq<ObservedProcess>,
    background_rule: Seq<bool>,
    n: int,
    eligible: usize,
    required_sessions: Seq<u32>,
) -> bool {
    &&& eligible == covered_among(processes, background_rule, n as nat)
    &&& required_sessions.no_duplicates()
    &&& forall|id: u32| #[trigger]
        required_sessions.contains(id) <==> session_required(processes, background_rule, n, id)
}

impl BackgroundRun {
    /// What holds of a process in this evaluation.
    pub open spec fn facts_of(&self, i: int) -> TurnFacts {
        process_facts(
            self.policy,
            self.mutations_active,
            self.low_memory,
            self.processes@,
            self.background_rule@,
            self.sessions@,
            i,
        )
    }

    /// The process that is, or comes, next.
    pub open spec fn present(&self) -> ObservedProcess {
        self.processes@[self.next as int]
    }

    /// The first step of the next process.
    pub open spec fn first_step(&self) -> TurnStep {
        let facts = self.facts_of(self.next as int);
        (BackgroundTurn {
            facts,
            record: lookup(self.journal@, facts.key),
            streak: streak_after(facts, lookup(self.streaks@, facts.key)),
            budget: self.budget,
            stage: TurnStage::Over,
        }).started()
    }

    /// Where a step leaves the evaluation: at the next process when the turn
    /// is over, and in the turn otherwise.
    pub open spec fn moved_by(&self, before: &BackgroundRun, step: TurnStep) -> bool {
        if step.action is Finish {
            self.turn is None && self.next == before.next + 1
        } else {
            self.turn == Some(step.turn) && self.next == before.next
        }
    }

    /// How many processes have been begun.
    pub open spec fn begun(&self) -> int {
        self.next + if self.turn is Some {
            1int
        } else {
            0int
        }
    }

    #[verifier::opaque]
    pub open spec fn wf(&self) -> bool {
        &&& self.journal.wf()
        &&& self.streaks.wf()
        &&& self.background_rule.len() == self.processes.len()
        &&& self.begun() <= self.processes.len()
        &&& self.turn matches Some(turn) ==> turn_fits(*self, turn)
        &&& tallied(
            self.processes@,
            self.background_rule@,
            self.begun(),
            self.status.eligible_processes,
            self.required_sessions@,
        )
    }

    /// What stays the same throughout an evaluation.
    pub open spec fn same_evaluation(&self, other: &BackgroundRun) -> bool {
        &&& self.policy == other.policy
        &&& self.mutations_active == other.mutations_active
        &&& self.low_memory == other.low_memory
        &&& self.processes == other.processes
        &&& self.background_rule == other.background_rule
        &&& self.sessions == other.sessions
        &&& self.status.low_memory_condition == other.status.low_memory_condition
        &&& self.status.memory_pressure_monitor_available
            == other.status.memory_pressure_monitor_available
    }
}

/// Whether the creation time of a process with this identifier is unknown.
fn is_unidentified(processes: &Vec<ObservedProcess>, pid: u32) -> (found: bool)
    ensures
        found == unidentified(processes@, pid),
{
    let mut at: usize = 0;
    while at < processes.len()
        invariant
            at <= processes.len(),
            forall|i: int|
                0 <= i < at ==> !((#[trigger] processes@[i]).key.pid == pid
                    && processes@[i].key.creation_time_100ns == 0),
        decreases processes.len() - at,
    {
        if processes[at].key.pid == pid && processes[at].key.creation_time_100ns == 0 {
            return true;
        }
        at = at + 1;
    }
    false
}

/// The entries of the processes that live.
pub open spec fn of_living<V>(map: Map<ProcessKey, V>, processes: Seq<ObservedProcess>) -> Map<
    ProcessKey,
    V,
> {
    Map::new(
        |key: ProcessKey| map.dom().contains(key) && crate::observed::is_live(processes, key),
        |key: ProcessKey| map[key],
    )
}

/// Keeps the entries of the processes that live.
pub fn retain_live<V>(map: &mut KeyMap<V>, processes: &Vec<ObservedProcess>)
    requires
        old(map).wf(),
    ensures
        final(map).wf(),
        final(map)@ == of_living(old(map)@, processes@),
{
    let ghost before = map@;
    let ghost items = map.items();
    proof {
        map.items_are_the_map();
    }
    let mut keep: Vec<bool> = Vec::new();
    let mut at: usize = 0;
    while at < map.len()
        invariant
            at <= items.len(),
            items == map.items(),
            map.wf(),
            keep.len() == at,
            forall|i: int|
                0 <= i < at ==> #[trigger] keep@[i] == crate::observed::is_live(
                    processes@,
                    items[i].0,
                ),
        decreases items.len() - at,
    {
        keep.push(lives(processes, map.key_at(at)));
        at = at + 1;
    }
    map.retain_flagged(&keep);
    proof {
        crate::process::flagged_are_entries(items, keep@);
        map.items_are_the_map();
        let kept = map.items();
        assert forall|key: ProcessKey|
            #![trigger map@.dom().contains(key)]
            map@.dom().contains(key) <==> of_living(before, processes@).dom().contains(key) by {
            if map@.dom().contains(key) {
                assert(crate::process::has_key(kept, key));
                let j = crate::process::place_of(kept, key);
                assert(crate::process::kept_among(items, keep@, kept[j]));
                let i = choose|i: int|
                    0 <= i < items.len() && keep@[i] && #[trigger] items[i] == kept[j];
                assert(before.dom().contains(items[i].0));
            }
            if of_living(before, processes@).dom().contains(key) {
                assert(crate::process::has_key(items, key));
                let i = crate::process::place_of(items, key);
                assert(keep@[i]);
                assert(kept.contains(items[i]));
                let j = choose|j: int| 0 <= j < kept.len() && kept[j] == items[i];
                assert(map@.dom().contains(kept[j].0));
            }
        }
        assert forall|key: ProcessKey| map@.dom().contains(key) implies #[trigger] map@[key]
            == before[key] by {
            assert(crate::process::has_key(kept, key));
            let j = crate::process::place_of(kept, key);
            assert(crate::process::kept_among(items, keep@, kept[j]));
            let i = choose|i: int|
                0 <= i < items.len() && keep@[i] && #[trigger] items[i] == kept[j];
            assert(before[items[i].0] == items[i].1);
            assert(map@[kept[j].0] == kept[j].1);
        }
        assert(map@ =~= of_living(before, processes@));
    }
}

/// Drops the entries that belong to no process any more. Returns whether
/// there were any.
pub fn drop_dead<V>(map: &mut KeyMap<V>, processes: &Vec<ObservedProcess>) -> (dropped: bool)
    requires
        old(map).wf(),
    ensures
        final(map).wf(),
        final(map)@ == without_dead(old(map)@, processes@),
        dropped <==> exists|key: ProcessKey|
            old(map)@.dom().contains(key) && #[trigger] is_dead(processes@, key),
{
    let mut dead: Vec<ProcessKey> = Vec::new();
    let ghost before = map@;
    let ghost items = map.items();
    proof {
        map.items_are_the_map();
    }
    let mut at: usize = 0;
    while at < map.len()
        invariant
            at <= items.len(),
            items == map.items(),
            map@ == before,
            forall|i: int| 0 <= i < items.len() ==> before.dom().contains((#[trigger] items[i]).0),
            forall|i: int|
                0 <= i < dead.len() ==> before.dom().contains(#[trigger] dead@[i]) && is_dead(
                    processes@,
                    dead@[i],
                ),
            forall|i: int|
                0 <= i < at && is_dead(processes@, (#[trigger] items[i]).0) ==> dead@.contains(
                    items[i].0,
                ),
            map.wf(),
        decreases items.len() - at,
    {
        let key = map.key_at(at);
        let ghost listed = dead@;
        if !lives(processes, key) && !is_unidentified(processes, key.pid) {
            dead.push(key);
            proof {
                assert(dead@[listed.len() as int] == key);
                assert forall|i: int|
                    0 <= i < at + 1 && is_dead(
                        processes@,
                        (#[trigger] items[i]).0,
                    ) implies dead@.contains(items[i].0) by {
                    if i < at {
                        let j = choose|j: int| 0 <= j < listed.len() && listed[j] == items[i].0;
                        assert(dead@[j] == items[i].0);
                    }
                }
            }
        }
        at = at + 1;
    }
    let mut gone: usize = 0;
    while gone < dead.len()
        invariant
            gone <= dead.len(),
            map.wf(),
            forall|key: ProcessKey| #[trigger]
                map@.dom().contains(key) <==> before.dom().contains(key) && !dead@.take(
                    gone as int,
                ).contains(key),
            forall|key: ProcessKey| #[trigger]
                map@.dom().contains(key) ==> map@[key] == before[key],
        decreases dead.len() - gone,
    {
        map.remove(dead[gone]);
        proof {
            let then = dead@.take(gone as int);
            let now = dead@.take(gone + 1);
            assert forall|key: ProcessKey|
                now.contains(key) <==> then.contains(key) || key == dead@[gone as int] by {
                if then.contains(key) {
                    let i = choose|i: int| 0 <= i < then.len() && then[i] == key;
                    assert(now[i] == key);
                }
                if key == dead@[gone as int] {
                    assert(now[gone as int] == key);
                }
                if now.contains(key) {
                    let i = choose|i: int| 0 <= i < now.len() && now[i] == key;
                    if i < gone {
                        assert(then[i] == key);
                    }
                }
            }
        }
        gone = gone + 1;
    }
    proof {
        assert(dead@.take(gone as int) =~= dead@);
        assert forall|key: ProcessKey| before.dom().contains(key) implies (dead@.contains(key)
            <==> #[trigger] is_dead(processes@, key)) by {
            assert(crate::process::has_key(items, key));
            let i = crate::process::place_of(items, key);
            assert(items[i].0 == key);
        }
        assert(map@ =~= without_dead(before, processes@));
        if dead@.len() > 0 {
            assert(is_dead(processes@, dead@[0]));
        }
        assert forall|key: ProcessKey|
            before.dom().contains(key) && #[trigger] is_dead(processes@, key) implies dead@.len()
            > 0 by {
            assert(dead@.contains(key));
        }
    }
    dead.len() > 0
}

/// The number of protected processes after a process is begun: one more, as
/// far as it can be counted, where the policy covers the process but does not
/// apply to all of its properties.
pub open spec fn protected_after(
    facts: TurnFacts,
    record: Option<ManagedBackgroundProcess>,
    count: usize,
) -> usize {
    let blocked = record matches Some(record) && !record.blocked_by_external_override.is_empty();
    if facts.exact_background && (facts.protection is Some || !facts.mutations_active || blocked)
        && count < usize::MAX {
        (count + 1) as usize
    } else {
        count
    }
}

/// The streak after a process is begun.
pub open spec fn streak_after(facts: TurnFacts, streak: Option<u8>) -> Option<u8> {
    if facts.policy_allowed() {
        Some(
            match streak {
                Some(count) => if count < u8::MAX {
                    (count + 1) as u8
                } else {
                    u8::MAX
                },
                None => 1u8,
            },
        )
    } else {
        None
    }
}

proof fn covered_among_is_bounded(
    processes: Seq<ObservedProcess>,
    background_rule: Seq<bool>,
    n: nat,
)
    ensures
        covered_among(processes, background_rule, n) <= n,
    decreases n,
{
    if n > 0 {
        covered_among_is_bounded(processes, background_rule, (n - 1) as nat);
    }
}

impl BackgroundRun {
    /// Begins an evaluation. The second result says whether journal entries
    /// were dropped because their process has ended, so that the journal has
    /// to be written.
    pub fn begin(
        policy: BackgroundPolicy,
        max_mutations: usize,
        mutations_active: bool,
        processes: Vec<ObservedProcess>,
        background_rule: Vec<bool>,
        sessions: Vec<SessionActivity>,
        low_memory: Option<bool>,
        memory_pressure_monitor_available: bool,
        streaks: KeyMap<u8>,
        journal: KeyMap<ManagedBackgroundProcess>,
    ) -> (begun: (BackgroundRun, bool))
        requires
            background_rule.len() == processes.len(),
            streaks.wf(),
            journal.wf(),
        ensures
            begun.0.wf(),
            begun.0.policy == policy,
            begun.0.mutations_active == mutations_active,
            begun.0.low_memory == (low_memory == Some(true)),
            begun.0.processes == processes,
            begun.0.background_rule == background_rule,
            begun.0.sessions == sessions,
            begun.0.journal@ == without_dead(journal@, processes@),
            begun.0.streaks == streaks,
            begun.0.budget == max_mutations,
            begun.0.next == 0,
            begun.0.turn is None,
            begun.0.last_error is None,
            begun.0.status.eligible_processes == 0,
            begun.0.status.protected_processes == 0,
            begun.0.status.last_action is None,
            begun.0.status.low_memory_condition == (low_memory == Some(true)),
            begun.0.status.memory_pressure_monitor_available == memory_pressure_monitor_available,
            begun.1 <==> exists|key: ProcessKey|
                journal@.dom().contains(key) && #[trigger] is_dead(processes@, key),
    {
        let low_memory_condition = match low_memory {
            Some(low) => low,
            None => false,
        };
        let mut journal = journal;
        let save = drop_dead(&mut journal, &processes);
        let run = BackgroundRun {
            policy,
            mutations_active,
            low_memory: low_memory_condition,
            processes,
            background_rule,
            sessions,
            journal,
            streaks,
            budget: max_mutations,
            next: 0,
            turn: None,
            status: BackgroundEfficiencyStatus {
                eligible_processes: 0,
                managed_processes: 0,
                protected_processes: 0,
                required_probe_sessions: 0,
                interactive_probe_sessions: 0,
                memory_pressure_monitor_available,
                low_memory_condition,
                last_action: None,
            },
            last_error: None,
            required_sessions: Vec::new(),
        };
        proof {
            reveal(tallied);
            reveal(BackgroundRun::wf);
        }
        (run, save)
    }

    /// Begins the turn of the next process and says what to do first. When
    /// that is nothing, the process after it can be begun at once. There is
    /// no answer when no process is left.
    pub fn begin_process(&mut self) -> (action: Option<TurnAction>)
        requires
            old(self).wf(),
            old(self).turn is None,
        ensures
            final(self).wf(),
            final(self).same_evaluation(old(self)),
            final(self).journal@ == old(self).journal@,
            final(self).budget == old(self).budget,
            final(self).last_error == old(self).last_error,
            final(self).status.last_action == old(self).status.last_action,
            old(self).next == old(self).processes.len() ==> {
                &&& action is None
                &&& final(self).turn is None
                &&& final(self).next == old(self).next
                &&& final(self).streaks@ == old(self).streaks@
                &&& final(self).status.protected_processes == old(self).status.protected_processes
            },
            old(self).next < old(self).processes.len() ==> {
                let facts = old(self).facts_of(old(self).next as int);
                &&& action == Some(old(self).first_step().action)
                &&& final(self).moved_by(old(self), old(self).first_step())
                &&& final(self).streaks@ == with_entry(
                    old(self).streaks@,
                    facts.key,
                    streak_after(facts, lookup(old(self).streaks@, facts.key)),
                )
                &&& final(self).status.protected_processes == protected_after(
                    facts,
                    lookup(old(self).journal@, facts.key),
                    old(self).status.protected_processes,
                )
            },
    {
        proof {
            parts_of_wf(*self);
        }
        if self.next >= self.processes.len() {
            return None;
        }
        let facts = self.look_at_next();
        self.count_protected(&facts);
        let action = self.open_turn(facts);
        Some(action)
    }

    /// Counts the process among the protected ones, if it is one.
    fn count_protected(&mut self, facts: &TurnFacts)
        requires
            old(self).journal.wf(),
        ensures
            *final(self) == (BackgroundRun { status: final(self).status, ..*old(self) }),
            final(self).status == (BackgroundEfficiencyStatus {
                protected_processes: final(self).status.protected_processes,
                ..old(self).status
            }),
            final(self).status.protected_processes == protected_after(
                *facts,
                lookup(old(self).journal@, facts.key),
                old(self).status.protected_processes,
            ),
    {
        let externally_blocked = match self.journal.get(facts.key) {
            Some(record) => !record.blocked_by_external_override.is_empty(),
            None => false,
        };
        if facts.exact_background && (facts.protection.is_some() || !facts.mutations_active
            || externally_blocked) {
            self.status.protected_processes = self.status.protected_processes.saturating_add(1);
        }
    }

    /// Begins the turn of the next process.
    fn open_turn(&mut self, facts: TurnFacts) -> (action: TurnAction)
        requires
            old(self).journal.wf(),
            old(self).streaks.wf(),
            old(self).background_rule.len() == old(self).processes.len(),
            old(self).next < old(self).processes.len(),
            old(self).turn is None,
            facts == old(self).facts_of(old(self).next as int),
            facts.key == old(self).present().key,
            tallied(
                old(self).processes@,
                old(self).background_rule@,
                old(self).next + 1,
                old(self).status.eligible_processes,
                old(self).required_sessions@,
            ),
        ensures
            final(self).wf(),
            action == old(self).first_step().action,
            final(self).moved_by(old(self), old(self).first_step()),
            final(self).streaks@ == with_entry(
                old(self).streaks@,
                facts.key,
                streak_after(facts, lookup(old(self).streaks@, facts.key)),
            ),
            final(self).same_evaluation(old(self)),
            final(self).journal == old(self).journal,
            final(self).budget == old(self).budget,
            final(self).last_error == old(self).last_error,
            final(self).status == old(self).status,
    {
        let ghost before = *self;
        let at: usize = self.next;
        let record = match self.journal.get(facts.key) {
            Some(record) => Some(*record),
            None => None,
        };
        let streak = self.count_streak(&facts);
        let mut turn = BackgroundTurn {
            facts,
            record,
            streak,
            budget: self.budget,
            stage: TurnStage::Over,
        };
        proof {
            assert(turn.started() == before.first_step());
            crate::turn::starts_are_well_formed(turn);
        }
        let action = turn.start();
        if matches!(action, TurnAction::Finish) {
            self.next = at + 1;
        } else {
            self.turn = Some(turn);
        }
        proof {
            assert(self.facts_of(at as int) == before.facts_of(at as int));
            wf_from_parts(*self);
        }
        action
    }

    /// Counts the next process among the covered ones, if it is one, and says
    /// what holds of it.
    fn look_at_next(&mut self) -> (facts: TurnFacts)
        requires
            old(self).wf(),
            old(self).turn is None,
            old(self).next < old(self).processes.len(),
        ensures
            facts == old(self).facts_of(old(self).next as int),
            final(self).same_evaluation(old(self)),
            final(self).journal == old(self).journal,
            final(self).streaks == old(self).streaks,
            final(self).budget == old(self).budget,
            final(self).next == old(self).next,
            final(self).turn is None,
            final(self).last_error == old(self).last_error,
            final(self).status.last_action == old(self).status.last_action,
            final(self).status.protected_processes == old(self).status.protected_processes,
            tallied(
                old(self).processes@,
                old(self).background_rule@,
                old(self).next + 1,
                final(self).status.eligible_processes,
                final(self).required_sessions@,
            ),
            facts.key == old(self).processes@[old(self).next as int].key,
    {
        let ghost before = *self;
        let at: usize = self.next;
        proof {
            parts_of_wf(*self);
        }
        let process = &self.processes[at];
        let key = process.key;
        let exact_background = self.background_rule[at] && process.exclusion.is_none()
            && match process.session_id {
            Some(id) => id != 0,
            None => false,
        };
        proof {
            covered_among_is_bounded(
                self.processes@,
                self.background_rule@,
                self.next as nat,
            );
            reveal_with_fuel(covered_among, 2);
            reveal(process_facts);
            reveal(tallied);
        }
        let mut protection = None;
        if exact_background {
            protection = background_protection(
                &self.policy,
                process,
                &self.processes,
                &self.sessions,
            );
            self.status.eligible_processes = self.status.eligible_processes.saturating_add(1);
            if let Some(id) = self.processes[at].session_id {
                if !contains_pid(&self.required_sessions, id) {
                    self.required_sessions.push(id);
                }
            }
        }
        proof {
            sessions_grow(
                before.required_sessions@,
                self.required_sessions@,
                self.processes@,
                self.background_rule@,
                at as int,
            );
        }
        TurnFacts {
            key,
            policy: self.policy,
            low_memory: self.low_memory,
            exact_background,
            protection,
            mutations_active: self.mutations_active,
        }
    }

    /// Counts one more evaluation without protection, or starts over.
    fn count_streak(&mut self, facts: &TurnFacts) -> (streak: Option<u8>)
        requires
            old(self).streaks.wf(),
        ensures
            streak == streak_after(*facts, lookup(old(self).streaks@, facts.key)),
            final(self).streaks.wf(),
            final(self).streaks@ == with_entry(old(self).streaks@, facts.key, streak),
            *final(self) == (BackgroundRun { streaks: final(self).streaks, ..*old(self) }),
    {
        if facts.desired_allowed() {
            let count: u8 = match self.streaks.get(facts.key) {
                Some(count) => count.saturating_add(1),
                None => 1,
            };
            self.streaks.insert(facts.key, count);
            Some(count)
        } else {
            self.streaks.remove(facts.key);
            None
        }
    }

    /// Takes the answer to the last action and says what to do next and what
    /// to report. `detail` is what a failure said, or what a restore said of
    /// the properties it failed on.
    pub fn resume(&mut self, event: TurnEvent, detail: Option<String>) -> (reply: (
        TurnAction,
        TurnNote,
    ))
        requires
            old(self).wf(),
            old(self).turn is Some,
            (old(self).turn->0).awaits(event),
        ensures
            reply.0 == (old(self).turn->0).follows(event).action,
            reply.1 == (old(self).turn->0).follows(event).note,
            final(self).same_evaluation(old(self)),
            final(self).journal@ == with_entry(
                old(self).journal@,
                old(self).present().key,
                (old(self).turn->0).follows(event).turn.record,
            ),
            final(self).streaks@ == with_entry(
                old(self).streaks@,
                old(self).present().key,
                (old(self).turn->0).follows(event).turn.streak,
            ),
            final(self).budget == (old(self).turn->0).follows(event).turn.budget,
            final(self).moved_by(old(self), (old(self).turn->0).follows(event)),
            final(self).last_error.deep_view() == error_after(
                old(self).last_error.deep_view(),
                event,
                reply.1,
                old(self).present(),
                detail.deep_view(),
            ),
            final(self).status.last_action.deep_view() == action_after(
                old(self).status.last_action.deep_view(),
                reply.1,
                old(self).present(),
            ),
            final(self).status.protected_processes == old(self).status.protected_processes,
            final(self).wf(),
    {
        let at: usize = self.next;
        proof {
            parts_of_wf(*self);
        }
        let (action, note) = self.step_turn(event);
        let ghost stepped = *self;
        self.report(at, event, note, detail);
        proof {
            parts_of_wf(stepped);
            assert(self.facts_of(self.next as int) == stepped.facts_of(self.next as int));
            wf_from_parts(*self);
        }
        (action, note)
    }

    /// Takes one step in the turn of the present process.
    fn step_turn(&mut self, event: TurnEvent) -> (reply: (TurnAction, TurnNote))
        requires
            old(self).wf(),
            old(self).turn is Some,
            (old(self).turn->0).awaits(event),
        ensures
            reply.0 == (old(self).turn->0).follows(event).action,
            reply.1 == (old(self).turn->0).follows(event).note,
            final(self).same_evaluation(old(self)),
            final(self).status == old(self).status,
            final(self).last_error == old(self).last_error,
            final(self).journal@ == with_entry(
                old(self).journal@,
                old(self).present().key,
                (old(self).turn->0).follows(event).turn.record,
            ),
            final(self).streaks@ == with_entry(
                old(self).streaks@,
                old(self).present().key,
                (old(self).turn->0).follows(event).turn.streak,
            ),
            final(self).budget == (old(self).turn->0).follows(event).turn.budget,
            final(self).moved_by(old(self), (old(self).turn->0).follows(event)),
            final(self).wf(),
    {
        let ghost before = *self;
        proof {
            parts_of_wf(*self);
        }
        let at: usize = self.next;
        let key = self.processes[at].key;
        let mut turn = match self.turn {
            Some(turn) => turn,
            None => {
                return (TurnAction::Finish, TurnNote::Nothing);
            },
        };
        let ghost started = turn;
        let (action, note) = turn.next(event);
        proof {
            facts_name_the_process(before, at as int);
            crate::turn::finishing_ends_the_turn(started, event);
            crate::turn::turns_stay_well_formed(started, event);
        }
        self.store(key, &turn);
        if matches!(action, TurnAction::Finish) {
            self.turn = None;
            self.next = at + 1;
        } else {
            self.turn = Some(turn);
        }
        proof {
            assert(self.facts_of(at as int) == before.facts_of(at as int));
            wf_from_parts(*self);
        }
        (action, note)
    }

    /// Takes over what a turn made of the journal, the streaks and the budget.
    fn store(&mut self, key: ProcessKey, turn: &BackgroundTurn)
        requires
            old(self).journal.wf(),
            old(self).streaks.wf(),
        ensures
            *final(self) == (BackgroundRun {
                journal: final(self).journal,
                streaks: final(self).streaks,
                budget: turn.budget,
                ..*old(self)
            }),
            final(self).journal.wf(),
            final(self).streaks.wf(),
            final(self).journal@ == with_entry(old(self).journal@, key, turn.record),
            final(self).streaks@ == with_entry(old(self).streaks@, key, turn.streak),
    {
        match turn.record {
            Some(record) => {
                self.journal.insert(key, record);
            },
            None => {
                self.journal.remove(key);
            },
        }
        match turn.streak {
            Some(count) => {
                self.streaks.insert(key, count);
            },
            None => {
                self.streaks.remove(key);
            },
        }
        self.budget = turn.budget;
    }

    /// Notes the last error and the last action.
    fn report(&mut self, at: usize, event: TurnEvent, note: TurnNote, detail: Option<String>)
        requires
            at < old(self).processes.len(),
        ensures
            final(self).last_error.deep_view() == error_after(
                old(self).last_error.deep_view(),
                event,
                note,
                old(self).processes@[at as int],
                detail.deep_view(),
            ),
            final(self).status.last_action.deep_view() == action_after(
                old(self).status.last_action.deep_view(),
                note,
                old(self).processes@[at as int],
            ),
            final(self).same_evaluation(old(self)),
            final(self).journal == old(self).journal,
            final(self).streaks == old(self).streaks,
            final(self).budget == old(self).budget,
            final(self).next == old(self).next,
            final(self).turn == old(self).turn,
            final(self).required_sessions == old(self).required_sessions,
            final(self).status.eligible_processes == old(self).status.eligible_processes,
            final(self).status.protected_processes == old(self).status.protected_processes,
    {
        let process = &self.processes[at];
        match note {
            TurnNote::QueryFailed | TurnNote::Unsupported => {
                let mut after = ": ".to_owned();
                if let Some(said) = &detail {
                    after.append(said.as_str());
                }
                proof {
                    if detail is None {
                        assert(": "@ + Seq::<char>::empty() =~= ": "@);
                    }
                }
                let before = match note {
                    TurnNote::QueryFailed => "background state query failed for ",
                    _ => "background efficiency unsupported for ",
                };
                self.last_error = Some(about_process_text(before, process, after.as_str()));
            },
            TurnNote::RecheckFailed
            | TurnNote::RecoveryFailed
            | TurnNote::ReleaseFailed
            | TurnNote::UpdateFailed
            | TurnNote::ApplyFailed => {
                self.last_error = Some(
                    match detail {
                        Some(said) => said,
                        None => String::new(),
                    },
                );
            },
            TurnNote::Released { complete, .. } => {
                let before = if complete {
                    "Restored background policy for "
                } else {
                    "Background policy cleanup remains pending for "
                };
                self.status.last_action = Some(about_process_text(before, process, ""));
                if let TurnEvent::Restored(Some(_)) = event {
                    if detail.is_some() {
                        self.last_error = detail;
                    }
                }
            },
            TurnNote::Updated | TurnNote::AppliedNew => {
                let before = match note {
                    TurnNote::Updated => "Updated background policy for ",
                    _ => "Applied background policy to ",
                };
                self.status.last_action = Some(about_process_text(before, process, ""));
                if let TurnEvent::Restored(Some(_)) = event {
                    if detail.is_some() {
                        self.last_error = detail;
                    }
                }
            },
            _ => {
                if let TurnEvent::Restored(Some(_)) = event {
                    if detail.is_some() {
                        self.last_error = detail;
                    }
                }
            },
        }
    }

    /// The number of sessions whose activity rests on every needed probe.
    fn probed_sessions(&self) -> (count: usize)
        ensures
            count == count_where(
                self.required_sessions@,
                |id: u32| session_is_probed(self.policy, self.sessions@, id),
            ),
    {
        let ghost probed = |id: u32| session_is_probed(self.policy, self.sessions@, id);
        let mut count: usize = 0;
        let mut at: usize = 0;
        while at < self.required_sessions.len()
            invariant
                at <= self.required_sessions.len(),
                count <= at,
                probed == |id: u32| session_is_probed(self.policy, self.sessions@, id),
                count == count_where(self.required_sessions@.take(at as int), probed),
            decreases self.required_sessions.len() - at,
        {
            let id: u32 = self.required_sessions[at];
            let available = match find_session(&self.sessions, id) {
                Some(place) => required_probes_available(&self.policy, &self.sessions[place]),
                None => false,
            };
            proof {
                let now = self.required_sessions@.take(at + 1);
                assert(now.drop_last() =~= self.required_sessions@.take(at as int));
                assert(now.last() == id);
                assert(probed(id) == available);
            }
            if available {
                count = count + 1;
            }
            at = at + 1;
        }
        proof {
            assert(self.required_sessions@.take(at as int) =~= self.required_sessions@);
        }
        count
    }

    /// Ends an evaluation: hands back what is to be published, the journal
    /// and the streaks.
    pub fn finish(self) -> (ended: (
        BackgroundReconcileReport,
        KeyMap<ManagedBackgroundProcess>,
        KeyMap<u8>,
    ))
        requires
            self.wf(),
            self.turn is None,
            self.next == self.processes.len(),
        ensures
            ended.0.last_error == self.last_error,
            ended.0.status.last_action == self.status.last_action,
            ended.0.status.eligible_processes == covered_among(
                self.processes@,
                self.background_rule@,
                self.processes.len() as nat,
            ),
            ended.0.status.protected_processes == self.status.protected_processes,
            ended.0.status.low_memory_condition == self.status.low_memory_condition,
            ended.0.status.memory_pressure_monitor_available
                == self.status.memory_pressure_monitor_available,
            ended.0.status.required_probe_sessions == self.required_sessions@.len(),
            ended.0.status.interactive_probe_sessions == count_where(
                self.required_sessions@,
                |id: u32| session_is_probed(self.policy, self.sessions@, id),
            ),
            ended.0.status.managed_processes == owned_entries(self.journal.items()),
            ended.1 == self.journal,
            ended.2 == self.streaks,
    {
        proof {
            reveal(tallied);
            reveal(BackgroundRun::wf);
        }
        let required_probe_sessions: usize = self.required_sessions.len();
        let interactive_probe_sessions: usize = self.probed_sessions();
        let managed_processes: usize = owning_records(&self.journal);
        let status = BackgroundEfficiencyStatus {
            eligible_processes: self.status.eligible_processes,
            managed_processes,
            protected_processes: self.status.protected_processes,
            required_probe_sessions,
            interactive_probe_sessions,
            memory_pressure_monitor_available: self.status.memory_pressure_monitor_available,
            low_memory_condition: self.status.low_memory_condition,
            last_action: self.status.last_action,
        };
        (
            BackgroundReconcileReport { status, last_error: self.last_error },
            self.journal,
            self.streaks,
        )
    }
}

/// Whether a session has an activity that rests on every needed probe.
pub open spec fn session_is_probed(
    policy: BackgroundPolicy,
    sessions: Seq<SessionActivity>,
    session_id: u32,
) -> bool {
    crate::interactive::has_session(sessions, session_id) && crate::protection::probes_available(
        policy,
        crate::interactive::session_of(sessions, session_id),
    )
}

/// What the turn of a run has to do with the run.
pub open spec fn turn_fits(run: BackgroundRun, turn: BackgroundTurn) -> bool {
    let key = run.processes@[run.next as int].key;
    &&& turn.wf()
    &&& turn.stage !is Over
    &&& turn.facts == run.facts_of(run.next as int)
    &&& turn.record == lookup(run.journal@, key)
    &&& turn.streak == lookup(run.streaks@, key)
    &&& turn.budget == run.budget
}

proof fn parts_of_wf(run: BackgroundRun)
    requires
        run.wf(),
    ensures
        run.journal.wf(),
        run.streaks.wf(),
        run.background_rule.len() == run.processes.len(),
        run.begun() <= run.processes.len(),
        run.turn matches Some(turn) ==> turn_fits(run, turn),
        tallied(
            run.processes@,
            run.background_rule@,
            run.begun(),
            run.status.eligible_processes,
            run.required_sessions@,
        ),
{
    reveal(BackgroundRun::wf);
}

proof fn wf_from_parts(run: BackgroundRun)
    requires
        run.journal.wf(),
        run.streaks.wf(),
        run.background_rule.len() == run.processes.len(),
        run.begun() <= run.processes.len(),
        run.turn matches Some(turn) ==> turn_fits(run, turn),
        tallied(
            run.processes@,
            run.background_rule@,
            run.begun(),
            run.status.eligible_processes,
            run.required_sessions@,
        ),
    ensures
        run.wf(),
{
    reveal(BackgroundRun::wf);
}

/// How many journal entries own a property.
pub open spec fn owned_entries(items: Seq<(ProcessKey, ManagedBackgroundProcess)>) -> nat {
    count_where(items, |item: (ProcessKey, ManagedBackgroundProcess)| !item.1.ownership.is_empty())
}

/// Counts the journal entries that own a property.
pub fn owning_records(journal: &KeyMap<ManagedBackgroundProcess>) -> (count: usize)
    ensures
        count == owned_entries(journal.items()),
{
    let ghost owns = |item: (ProcessKey, ManagedBackgroundProcess)| !item.1.ownership.is_empty();
    let mut count: usize = 0;
    let mut at: usize = 0;
    while at < journal.len()
        invariant
            at <= journal.items().len(),
            count <= at,
            owns == |item: (ProcessKey, ManagedBackgroundProcess)| !item.1.ownership.is_empty(),
            count == count_where(journal.items().take(at as int), owns),
        decreases journal.items().len() - at,
    {
        let owning = !journal.value_at(at).ownership.is_empty();
        proof {
            let now = journal.items().take(at + 1);
            assert(now.drop_last() =~= journal.items().take(at as int));
            assert(now.last() == journal.items()[at as int]);
            assert(owns(now.last()) == owning);
        }
        if owning {
            count = count + 1;
        }
        at = at + 1;
    }
    proof {
        assert(journal.items().take(at as int) =~= journal.items());
    }
    count
}

/// The required sessions after one more process.
proof fn sessions_grow(
    before: Seq<u32>,
    after: Seq<u32>,
    processes: Seq<ObservedProcess>,
    background_rule: Seq<bool>,
    n: int,
)
    requires
        0 <= n < processes.len(),
        background_rule.len() == processes.len(),
        before.no_duplicates(),
        forall|id: u32| #[trigger]
            before.contains(id) <==> session_required(processes, background_rule, n, id),
        if covered(processes[n], background_rule[n]) && !before.contains(
            processes[n].session_id->0,
        ) {
            after == before.push(processes[n].session_id->0)
        } else {
            after == before
        },
    ensures
        after.no_duplicates(),
        forall|id: u32| #[trigger]
            after.contains(id) <==> session_required(processes, background_rule, n + 1, id),
{
    assert forall|id: u32| #[trigger]
        after.contains(id) <==> session_required(processes, background_rule, n + 1, id) by {
        if before.contains(id) {
            let i = choose|i: int| 0 <= i < before.len() && before[i] == id;
            assert(after[i] == id);
            let j = choose|j: int|
                0 <= j < n && #[trigger] covered(processes[j], background_rule[j])
                    && processes[j].session_id == Some(id);
            assert(covered(processes[j], background_rule[j]));
        }
        if after.contains(id) && !before.contains(id) {
            let i = choose|i: int| 0 <= i < after.len() && after[i] == id;
            if i < before.len() {
                assert(before[i] == id);
            }
            assert(covered(processes[n], background_rule[n]));
        }
        if session_required(processes, background_rule, n + 1, id) && !before.contains(id) {
            let j = choose|j: int|
                0 <= j < n + 1 && #[trigger] covered(processes[j], background_rule[j])
                    && processes[j].session_id == Some(id);
            if j < n {
                assert(session_required(processes, background_rule, n, id));
            }
            assert(after[before.len() as int] == id);
        }
    }
}

/// Dropping the entries of ended processes keeps a journal sound.
pub proof fn begun_evaluations_keep_journals_sound(
    journal: Map<ProcessKey, ManagedBackgroundProcess>,
    processes: Seq<ObservedProcess>,
)
    requires
        crate::journal::sound_journal(journal),
    ensures
        crate::journal::sound_journal(without_dead(journal, processes)),
{
}

/// Every step of an evaluation keeps a sound journal sound, where a restore
/// leaves over only what it was asked to restore.
pub proof fn evaluations_keep_journals_sound(run: BackgroundRun, event: TurnEvent)
    requires
        run.wf(),
        crate::journal::sound_journal(run.journal@),
        run.turn matches Some(turn) && turn.awaits(event) && turn.plausible(event),
    ensures
        crate::journal::sound_journal(
            with_entry(
                run.journal@,
                run.present().key,
                (run.turn->0).follows(event).turn.record,
            ),
        ),
{
    parts_of_wf(run);
    facts_name_the_process(run, run.next as int);
    let turn = run.turn->0;
    assert(turn.sound()) by {
        if turn.record is Some {
            assert(run.journal@.dom().contains(run.present().key));
        }
    }
    crate::turn::turns_stay_well_formed(turn, event);
    crate::turn::turns_keep_valid_entries(turn, event);
}

/// A sound journal that is written during an evaluation reads back as it was
/// written.
pub proof fn journals_of_an_evaluation_read_back(run: BackgroundRun)
    requires
        run.wf(),
        crate::journal::sound_journal(run.journal@),
    ensures
        crate::journal::first_fault(
            run.journal.items().map_values(
                |item: (ProcessKey, ManagedBackgroundProcess)| item.1,
            ),
        ) is None,
        crate::journal::background_map(
            run.journal.items().map_values(
                |item: (ProcessKey, ManagedBackgroundProcess)| item.1,
            ),
        ) == run.journal@,
{
    parts_of_wf(run);
    crate::journal::background_journals_round_trip(run.journal);
}

/// While changes are not allowed, and for a process that no rule names, the
/// policy is not applied: such a process is only ever restored.
pub proof fn inactive_evaluations_never_apply(run: BackgroundRun, i: int)
    requires
        !run.mutations_active || !covered(run.processes@[i], run.background_rule@[i]),
    ensures
        !run.facts_of(i).policy_allowed(),
{
    reveal(process_facts);
}

/// What the monitor of the memory answered.
#[derive(Debug, Clone, Copy, PartialEq, Eq, Structural)]
pub enum PressureAnswer {
    NoMonitor,
    Read(bool),
    Failed,
}

/// What is known of the pressure on the memory, and whether it can be read. A
/// reading that failed leaves the last one in place.
pub fn memory_pressure(answer: PressureAnswer, last: &mut Option<bool>) -> (reading: (
    Option<bool>,
    bool,
))
    ensures
        *final(last) == match answer {
            PressureAnswer::Read(low) => Some(low),
            _ => *old(last),
        },
        reading == match answer {
            PressureAnswer::NoMonitor => (None, false),
            PressureAnswer::Read(low) => (Some(low), true),
            PressureAnswer::Failed => (*old(last), false),
        },
        (reading, *final(last)) == pressure_after(answer, *old(last)),
{
    match answer {
        PressureAnswer::NoMonitor => (None, false),
        PressureAnswer::Read(low) => {
            *last = Some(low);
            (Some(low), true)
        },
        PressureAnswer::Failed => (*last, false),
    }
}

/// A process is covered where a rule names it, nothing excludes it and someone
/// is signed in to its session.
pub proof fn coverage_needs_a_rule_and_a_session(process: ObservedProcess, background_rule: bool)
    ensures
        !background_rule ==> !covered(process, background_rule),
        process.exclusion is Some ==> !covered(process, background_rule),
        process.session_id is None ==> !covered(process, background_rule),
        process.session_id == Some(0u32) ==> !covered(process, background_rule),
        background_rule && process.exclusion is None && (process.session_id matches Some(id) && id
            != 0) ==> covered(process, background_rule),
{
}

/// The policy may be applied to a process in an evaluation exactly where it is
/// covered, nothing protects it and changes are allowed. A process that is not
/// covered is not protected either.
pub proof fn facts_are_those_of_the_process(run: BackgroundRun, i: int)
    ensures
        ({
            let facts = run.facts_of(i);
            let process = run.processes@[i];
            let named = covered(process, run.background_rule@[i]);
            let protection = crate::protection::protection_of(
                run.policy,
                process,
                run.processes@,
                run.sessions@,
            );
            &&& facts.key == process.key
            &&& facts.policy == run.policy
            &&& facts.low_memory == run.low_memory
            &&& facts.exact_background <==> named
            &&& facts.mutations_active == run.mutations_active
            &&& named ==> facts.protection == protection
            &&& !named ==> facts.protection is None
            &&& facts.policy_allowed() <==> named && protection is None && run.mutations_active
        }),
{
    reveal(process_facts);
}

/// The streak counts the evaluations in a row in which the policy was allowed:
/// one that is not starts over, and the count stops where it cannot grow.
pub proof fn streaks_count_allowed_evaluations(facts: TurnFacts, streak: Option<u8>)
    ensures
        ({
            let allowed = facts.exact_background && facts.protection is None
                && facts.mutations_active;
            let now = streak_after(facts, streak);
            &&& now is Some <==> allowed
            &&& allowed && streak is None ==> now == Some(1u8)
            &&& allowed && (streak matches Some(count) && count < 255) ==> (now->0) == (streak->0)
                + 1
            &&& allowed && streak == Some(255u8) ==> now == Some(255u8)
        }),
{
}

/// A covered process is counted as protected where something protects it,
/// where changes are not allowed, or where another program holds one of its
/// properties. No other process is, and each counts once.
pub proof fn protected_processes_are_counted_once(
    facts: TurnFacts,
    record: Option<ManagedBackgroundProcess>,
    count: usize,
)
    requires
        count < usize::MAX,
    ensures
        ({
            let now = protected_after(facts, record, count);
            let held = record is Some && !(record->0).blocked_by_external_override.is_empty();
            &&& now == count || now == count + 1
            &&& !facts.exact_background ==> now == count
            &&& facts.exact_background && facts.protection is Some ==> now == count + 1
            &&& facts.exact_background && !facts.mutations_active ==> now == count + 1
            &&& facts.exact_background && held ==> now == count + 1
            &&& facts.policy_allowed() && !held ==> now == count
        }),
{
}

/// An entry stays while a process has its key, or while the creation time of a
/// process with its identifier is not known; then with what it says. All
/// others go.
pub proof fn entries_stay_with_their_processes<V>(
    map: Map<ProcessKey, V>,
    processes: Seq<ObservedProcess>,
    key: ProcessKey,
    i: int,
)
    ensures
        map.dom().contains(key) && 0 <= i < processes.len() && processes[i].key == key
            ==> without_dead(map, processes).dom().contains(key) && of_living(
            map,
            processes,
        ).dom().contains(key),
        map.dom().contains(key) && 0 <= i < processes.len() && processes[i].key.pid == key.pid
            && processes[i].key.creation_time_100ns == 0 ==> without_dead(
            map,
            processes,
        ).dom().contains(key),
        (forall|j: int|
            0 <= j < processes.len() ==> (#[trigger] processes[j]).key.pid != key.pid)
            ==> !without_dead(map, processes).dom().contains(key) && !of_living(
            map,
            processes,
        ).dom().contains(key),
        (forall|j: int|
            0 <= j < processes.len() ==> (#[trigger] processes[j]).key != key
                && processes[j].key.creation_time_100ns != 0) ==> !without_dead(
            map,
            processes,
        ).dom().contains(key) && !of_living(map, processes).dom().contains(key),
        without_dead(map, processes).dom().contains(key) ==> map.dom().contains(key)
            && without_dead(map, processes)[key] == map[key],
        of_living(map, processes).dom().contains(key) ==> map.dom().contains(key) && of_living(
            map,
            processes,
        )[key] == map[key],
{
}

/// An entry is looked up as it was entered, and entering it touches no other.
pub proof fn entries_are_looked_up_as_entered<V>(
    map: Map<ProcessKey, V>,
    key: ProcessKey,
    value: Option<V>,
    other: ProcessKey,
)
    ensures
        lookup(with_entry(map, key, value), key) == value,
        other != key ==> lookup(with_entry(map, key, value), other) == lookup(map, other),
{
}

/// Failures are told: a step that failed leaves an error that ends in what the
/// failure said, a restore that failed on some properties leaves what was said
/// of them, and any other step leaves the last error in place.
pub proof fn failures_leave_their_error(
    before: Option<Seq<char>>,
    event: TurnEvent,
    note: TurnNote,
    process: ObservedProcess,
    said: Seq<char>,
)
    ensures
        ({
            let failed = note is QueryFailed || note is Unsupported || note is RecheckFailed
                || note is RecoveryFailed || note is ReleaseFailed || note is UpdateFailed || note
                is ApplyFailed;
            let after = error_after(before, event, note, process, Some(said));
            let silent = error_after(before, event, note, process, None);
            &&& failed ==> after is Some && silent is Some && said.is_suffix_of(after->0)
            &&& (note is QueryFailed || note is Unsupported) ==> after->0 != silent->0 || said.len()
                == 0
            &&& !failed && (event matches TurnEvent::Restored(Some(_))) ==> after == Some(said)
            &&& !failed && !(event matches TurnEvent::Restored(Some(_))) ==> after == before
            &&& !failed ==> silent == before
        }),
{
    let after = error_after(before, event, note, process, Some(said));
    let silent = error_after(before, event, note, process, None);
    if note is QueryFailed || note is Unsupported || note is RecheckFailed || note
        is RecoveryFailed || note is ReleaseFailed || note is UpdateFailed || note is ApplyFailed {
        assert(after->0.subrange(after->0.len() - said.len(), after->0.len() as int) =~= said);
        assert(silent->0.len() + said.len() == after->0.len());
    }
}

/// The last action is that of the last step that changed a process, and names
/// the process.
pub proof fn changes_leave_their_action(
    before: Option<Seq<char>>,
    note: TurnNote,
    process: ObservedProcess,
)
    ensures
        ({
            let changed = note is Released || note is Updated || note is AppliedNew;
            let after = action_after(before, note, process);
            let named = process.image_name@ + " (PID "@ + crate::text::decimal(
                process.key.pid as nat,
            ) + ")"@;
            &&& !changed ==> after == before
            &&& changed ==> after is Some && named.is_suffix_of(after->0)
            &&& note is AppliedNew ==> "Applied"@.is_prefix_of(after->0)
            &&& note is Updated ==> "Updated"@.is_prefix_of(after->0)
            &&& (note matches TurnNote::Released { complete, .. } && complete)
                ==> "Restored"@.is_prefix_of(after->0)
            &&& (note matches TurnNote::Released { complete, .. } && !complete)
                ==> "Background policy cleanup remains pending"@.is_prefix_of(after->0)
        }),
{
    let after = action_after(before, note, process);
    let named = process.image_name@ + " (PID "@ + crate::text::decimal(process.key.pid as nat)
        + ")"@;
    reveal_strlit("Applied");
    reveal_strlit("Updated");
    reveal_strlit("Restored");
    reveal_strlit("Background policy cleanup remains pending");
    reveal_strlit("Restored background policy for ");
    reveal_strlit("Background policy cleanup remains pending for ");
    reveal_strlit("Updated background policy for ");
    reveal_strlit("Applied background policy to ");
    reveal_strlit("");
    if note is Released || note is Updated || note is AppliedNew {
        assert(after->0.subrange(after->0.len() - named.len(), after->0.len() as int) =~= named);
    }
}

/// Nothing is counted that is not covered, and everything that is.
pub proof fn covered_processes_are_counted(
    processes: Seq<ObservedProcess>,
    background_rule: Seq<bool>,
    n: nat,
)
    ensures
        covered_among(processes, background_rule, n) <= n,
        (forall|i: int| 0 <= i < n ==> #[trigger] covered(processes[i], background_rule[i]))
            ==> covered_among(processes, background_rule, n) == n,
        (forall|i: int| 0 <= i < n ==> !#[trigger] covered(processes[i], background_rule[i]))
            ==> covered_among(processes, background_rule, n) == 0,
        covered_among(processes, background_rule, n + 1) == covered_among(
            processes,
            background_rule,
            n,
        ) + if covered(processes[n as int], background_rule[n as int]) {
            1nat
        } else {
            0nat
        },
    decreases n,
{
    if n > 0 {
        covered_processes_are_counted(processes, background_rule, (n - 1) as nat);
    }
}

/// What is known of the pressure on the memory after an answer of its monitor,
/// and what of it is kept.
pub open spec fn pressure_after(answer: PressureAnswer, last: Option<bool>) -> (
    (Option<bool>, bool),
    Option<bool>,
) {
    match answer {
        PressureAnswer::NoMonitor => ((None, false), last),
        PressureAnswer::Read(low) => ((Some(low), true), Some(low)),
        PressureAnswer::Failed => ((last, false), last),
    }
}

/// A reading counts until the next one, however often the monitor fails in
/// between; without a monitor nothing is known. Only a reading says that the
/// pressure can be read.
pub proof fn readings_count_until_the_next(low: bool, last: Option<bool>, answer: PressureAnswer)
    ensures
        ({
            let read = pressure_after(PressureAnswer::Read(low), last);
            let failed = pressure_after(PressureAnswer::Failed, read.1);
            let again = pressure_after(PressureAnswer::Failed, failed.1);
            &&& read.0 == (Some(low), true)
            &&& failed.0 == (Some(low), false)
            &&& again == failed
            &&& pressure_after(PressureAnswer::NoMonitor, read.1) == ((None::<bool>, false), Some(
                low,
            ))
            &&& pressure_after(answer, last).0.1 <==> answer is Read
        }),
{
}

} // verus!
