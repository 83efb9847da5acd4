//! Which processes a session's activity protects from background policies.
use vstd::prelude::*;

use crate::efficiency::BackgroundPolicy;
use crate::interactive::find_session;
use crate::interactive::SessionActivity;
use crate::observed::ObservedProcess;
use crate::process::contains_pid;
use crate::text::eq_ignore_ascii_case;

verus! {

/// Why a process keeps its ordinary efficiency state.
#[derive(Debug, Clone, Copy, PartialEq, Eq, Structural)]
pub enum BackgroundProtection {
    ProbeUnavailable,
    Foreground,
    Visible,
    Audio,
}

/// Whether process `i` runs in a session and is a child of `parent`.
pub open spec fn child_in_session(
    processes: Seq<ObservedProcess>,
    session_id: u32,
    parent: u32,
    i: int,
) -> bool {
    0 <= i < processes.len() && processes[i].session_id == Some(session_id)
        && processes[i].parent_pid == parent
}

/// Whether `pid` is one of `roots` or, within a session, at most `n`
/// generations below one of them.
pub open spec fn descends(
    processes: Seq<ObservedProcess>,
    session_id: u32,
    roots: Seq<u32>,
    pid: u32,
    n: nat,
) -> bool
    decreases n,
{
    roots.contains(pid) || (n > 0 && exists|i: int| #[trigger]
        child_in_session(processes, session_id, processes[i].parent_pid, i)
            && processes[i].key.pid == pid && descends(
            processes,
            session_id,
            roots,
            processes[i].parent_pid,
            (n - 1) as nat,
        ))
}

/// Whether `pid` is one of `roots` or, within a session, a descendant of one.
pub open spec fn root_or_descendant(
    processes: Seq<ObservedProcess>,
    session_id: u32,
    roots: Seq<u32>,
    pid: u32,
) -> bool {
    exists|n: nat| #[trigger] descends(processes, session_id, roots, pid, n)
}

/// Whether `pids` holds the children of all of its members.
pub open spec fn closed_under_children(
    processes: Seq<ObservedProcess>,
    session_id: u32,
    pids: Seq<u32>,
) -> bool {
    forall|i: int|
        0 <= i < processes.len() && (#[trigger] processes[i]).session_id == Some(session_id)
            && pids.contains(processes[i].parent_pid) ==> pids.contains(processes[i].key.pid)
}

proof fn closed_holds_descendants(
    processes: Seq<ObservedProcess>,
    session_id: u32,
    roots: Seq<u32>,
    pids: Seq<u32>,
    pid: u32,
    n: nat,
)
    requires
        closed_under_children(processes, session_id, pids),
        forall|p: u32| roots.contains(p) ==> #[trigger] pids.contains(p),
        descends(processes, session_id, roots, pid, n),
    ensures
        pids.contains(pid),
    decreases n,
{
    if !roots.contains(pid) {
        let i = choose|i: int| #[trigger]
            child_in_session(processes, session_id, processes[i].parent_pid, i)
                && processes[i].key.pid == pid && descends(
                processes,
                session_id,
                roots,
                processes[i].parent_pid,
                (n - 1) as nat,
            );
        closed_holds_descendants(
            processes,
            session_id,
            roots,
            pids,
            processes[i].parent_pid,
            (n - 1) as nat,
        );
        assert(processes[i].session_id == Some(session_id));
    }
}

/// How many of the first `n` processes are not in `pids`.
spec fn outside(processes: Seq<ObservedProcess>, pids: Seq<u32>, n: nat) -> nat
    decreases n,
{
    if n == 0 {
        0
    } else {
        outside(processes, pids, (n - 1) as nat) + if pids.contains(
            processes[n - 1].key.pid,
        ) {
            0nat
        } else {
            1nat
        }
    }
}

proof fn outside_shrinks(
    processes: Seq<ObservedProcess>,
    before: Seq<u32>,
    after: Seq<u32>,
    n: nat,
    i: int,
)
    requires
        n <= processes.len(),
        forall|p: u32| before.contains(p) ==> #[trigger] after.contains(p),
    ensures
        outside(processes, after, n) <= outside(processes, before, n),
        0 <= i < n && !before.contains(processes[i].key.pid) && after.contains(processes[i].key.pid)
            ==> outside(processes, after, n) < outside(processes, before, n),
    decreases n,
{
    if n > 0 {
        outside_shrinks(processes, before, after, (n - 1) as nat, i);
    }
}

/// Extends a set of processes by all of their descendants in a session.
pub fn expand_protected_descendants(
    processes: &Vec<ObservedProcess>,
    session_id: u32,
    protected: &mut Vec<u32>,
)
    ensures
        forall|pid: u32| #[trigger]
            final(protected)@.contains(pid) <==> root_or_descendant(
                processes@,
                session_id,
                old(protected)@,
                pid,
            ),
{
    let ghost roots = protected@;
    let mut changed = true;
    proof {
        assert forall|pid: u32| #[trigger] roots.contains(pid) implies root_or_descendant(
            processes@,
            session_id,
            roots,
            pid,
        ) by {
            assert(descends(processes@, session_id, roots, pid, 0));
        }
    }
    while changed
        invariant
            roots == old(protected)@,
            forall|pid: u32| roots.contains(pid) ==> #[trigger] protected@.contains(pid),
            forall|pid: u32| #[trigger]
                protected@.contains(pid) ==> root_or_descendant(
                    processes@,
                    session_id,
                    roots,
                    pid,
                ),
            !changed ==> closed_under_children(processes@, session_id, protected@),
        decreases
                outside(processes@, protected@, processes@.len()) + (if changed {
                    1nat
                } else {
                    0nat
                }),
    {
        changed = false;
        let mut at: usize = 0;
        let ghost pass = protected@;
        while at < processes.len()
            invariant
                at <= processes.len(),
                forall|pid: u32| pass.contains(pid) ==> #[trigger] protected@.contains(pid),
                forall|pid: u32| roots.contains(pid) ==> #[trigger] protected@.contains(pid),
                forall|pid: u32| #[trigger]
                    protected@.contains(pid) ==> root_or_descendant(
                        processes@,
                        session_id,
                        roots,
                        pid,
                    ),
                changed ==> outside(processes@, protected@, processes@.len()) < outside(
                    processes@,
                    pass,
                    processes@.len(),
                ),
                !changed ==> protected@ == pass,
                !changed ==> forall|i: int|
                    0 <= i < at && (#[trigger] processes@[i]).session_id == Some(session_id)
                        && protected@.contains(processes@[i].parent_pid) ==> protected@.contains(
                        processes@[i].key.pid,
                    ),
            decreases processes.len() - at,
        {
            let process = &processes[at];
            let in_session = match process.session_id {
                Some(id) => id == session_id,
                None => false,
            };
            if in_session && contains_pid(protected, process.parent_pid) && !contains_pid(
                protected,
                process.key.pid,
            ) {
                let ghost before = protected@;
                let ghost child = process.key.pid;
                protected.push(process.key.pid);
                changed = true;
                proof {
                    let n = choose|n: nat| #[trigger]
                        descends(processes@, session_id, roots, process.parent_pid, n);
                    assert(child_in_session(
                        processes@,
                        session_id,
                        processes@[at as int].parent_pid,
                        at as int,
                    ));
                    assert(descends(processes@, session_id, roots, child, (n + 1) as nat));
                    assert forall|pid: u32| before.contains(pid) implies #[trigger] protected@.contains(
                        pid,
                    ) by {
                        let i = choose|i: int| 0 <= i < before.len() && before[i] == pid;
                        assert(protected@[i] == pid);
                    }
                    assert(protected@[before.len() as int] == child);
                    assert forall|pid: u32| #[trigger]
                        protected@.contains(pid) implies root_or_descendant(
                        processes@,
                        session_id,
                        roots,
                        pid,
                    ) by {
                        let i = choose|i: int| 0 <= i < protected@.len() && protected@[i] == pid;
                        if i < before.len() {
                            assert(before[i] == pid);
                            assert(before.contains(pid));
                        }
                    }
                    outside_shrinks(processes@, pass, before, processes@.len(), 0);
                    outside_shrinks(
                        processes@,
                        before,
                        protected@,
                        processes@.len(),
                        at as int,
                    );
                }
            }
            at = at + 1;
        }
    }
    proof {
        assert forall|pid: u32| #[trigger]
            protected@.contains(pid) <==> root_or_descendant(
                processes@,
                session_id,
                old(protected)@,
                pid,
            ) by {
            if root_or_descendant(processes@, session_id, roots, pid) {
                let n = choose|n: nat| #[trigger]
                    descends(processes@, session_id, roots, pid, n);
                closed_holds_descendants(processes@, session_id, roots, protected@, pid, n);
            }
        }
    }
}

/// Whether the activity of a session rests on every probe that the policy
/// needs.
pub open spec fn probes_available(policy: BackgroundPolicy, session: SessionActivity) -> bool {
    &&& (policy.protect_foreground || policy.protect_visible) ==> session.window_probe_available
    &&& policy.protect_audio ==> session.audio_probe_available
}

/// Whether one of `roots`, or a descendant of one, runs the image `image` in
/// the session.
pub open spec fn cohort_touches(
    processes: Seq<ObservedProcess>,
    session_id: u32,
    image: Seq<char>,
    roots: Seq<u32>,
) -> bool {
    exists|i: int|
        0 <= i < processes.len() && (#[trigger] processes[i]).session_id == Some(session_id)
            && crate::text::same_ignoring_case(processes[i].image_name@, image)
            && root_or_descendant(processes, session_id, roots, processes[i].key.pid)
}

/// The protection that the sessions give a process. A process without a
/// session has none; where a probe is missing the process is protected.
pub open spec fn protection_of(
    policy: BackgroundPolicy,
    process: ObservedProcess,
    processes: Seq<ObservedProcess>,
    sessions: Seq<SessionActivity>,
) -> Option<BackgroundProtection> {
    match process.session_id {
        None => None,
        Some(id) => {
            let session = crate::interactive::session_of(sessions, id);
            let image = process.image_name@;
            if !crate::interactive::has_session(sessions, id) || !probes_available(
                policy,
                session,
            ) {
                Some(BackgroundProtection::ProbeUnavailable)
            } else if policy.protect_foreground && cohort_touches(
                processes,
                id,
                image,
                session.foreground_pids@,
            ) {
                Some(BackgroundProtection::Foreground)
            } else if policy.protect_visible && cohort_touches(
                processes,
                id,
                image,
                session.visible_pids@,
            ) {
                Some(BackgroundProtection::Visible)
            } else if policy.protect_audio && cohort_touches(
                processes,
                id,
                image,
                session.audible_pids@,
            ) {
                Some(BackgroundProtection::Audio)
            } else {
                None
            }
        },
    }
}

/// Whether the activity of a session rests on every probe that the policy
/// needs.
pub fn required_probes_available(policy: &BackgroundPolicy, session: &SessionActivity) -> (available:
    bool)
    ensures
        available == probes_available(*policy, *session),
{
    (!(policy.protect_foreground || policy.protect_visible) || session.window_probe_available) && (
    !policy.protect_audio || session.audio_probe_available)
}

/// Whether one of `roots`, or a descendant of one, runs the image of
/// `process` in the session.
fn cohort_contains(
    process: &ObservedProcess,
    processes: &Vec<ObservedProcess>,
    session_id: u32,
    roots: &Vec<u32>,
) -> (touched: bool)
    ensures
        touched == cohort_touches(processes@, session_id, process.image_name@, roots@),
{
    let mut protected: Vec<u32> = Vec::new();
    let mut from: usize = 0;
    while from < roots.len()
        invariant
            from <= roots.len(),
            protected@ == roots@.take(from as int),
        decreases roots.len() - from,
    {
        protected.push(roots[from]);
        from = from + 1;
    }
    proof {
        assert(roots@.take(from as int) =~= roots@);
    }
    expand_protected_descendants(processes, session_id, &mut protected);
    let mut at: usize = 0;
    while at < processes.len()
        invariant
            at <= processes.len(),
            forall|pid: u32| #[trigger]
                protected@.contains(pid) <==> root_or_descendant(
                    processes@,
                    session_id,
                    roots@,
                    pid,
                ),
            forall|i: int|
                0 <= i < at && (#[trigger] processes@[i]).session_id == Some(session_id)
                    && crate::text::same_ignoring_case(
                    processes@[i].image_name@,
                    process.image_name@,
                ) ==> !root_or_descendant(processes@, session_id, roots@, processes@[i].key.pid),
        decreases processes.len() - at,
    {
        let candidate = &processes[at];
        let in_session = match candidate.session_id {
            Some(id) => id == session_id,
            None => false,
        };
        if in_session && eq_ignore_ascii_case(
            candidate.image_name.as_str(),
            process.image_name.as_str(),
        ) && contains_pid(&protected, candidate.key.pid) {
            return true;
        }
        at = at + 1;
    }
    false
}

/// Decides whether, and why, a process keeps its ordinary efficiency state.
pub fn background_protection(
    policy: &BackgroundPolicy,
    process: &ObservedProcess,
    processes: &Vec<ObservedProcess>,
    sessions: &Vec<SessionActivity>,
) -> (protection: Option<BackgroundProtection>)
    ensures
        protection == protection_of(*policy, *process, processes@, sessions@),
{
    let session_id: u32 = match process.session_id {
        Some(id) => id,
        None => {
            return None;
        },
    };
    let session = match find_session(sessions, session_id) {
        Some(at) => &sessions[at],
        None => {
            return Some(BackgroundProtection::ProbeUnavailable);
        },
    };
    if !required_probes_available(policy, session) {
        return Some(BackgroundProtection::ProbeUnavailable);
    }
    if policy.protect_foreground && cohort_contains(
        process,
        processes,
        session_id,
        &session.foreground_pids,
    ) {
        Some(BackgroundProtection::Foreground)
    } else if policy.protect_visible && cohort_contains(
        process,
        processes,
        session_id,
        &session.visible_pids,
    ) {
        Some(BackgroundProtection::Visible)
    } else if policy.protect_audio && cohort_contains(
        process,
        processes,
        session_id,
        &session.audible_pids,
    ) {
        Some(BackgroundProtection::Audio)
    } else {
        None
    }
}

/// Where a session has no fresh report, or one of the probes that the policy
/// needs is missing, every process of the session is protected.
pub proof fn missing_probes_protect(
    policy: BackgroundPolicy,
    process: ObservedProcess,
    processes: Seq<ObservedProcess>,
    sessions: Seq<SessionActivity>,
    session_id: u32,
)
    requires
        process.session_id == Some(session_id),
        !crate::interactive::has_session(sessions, session_id) || !probes_available(
            policy,
            crate::interactive::session_of(sessions, session_id),
        ),
    ensures
        protection_of(policy, process, processes, sessions) == Some(
            BackgroundProtection::ProbeUnavailable,
        ),
{
}

/// Every descendant of a protected process is protected with it.
pub proof fn descendants_are_protected(
    processes: Seq<ObservedProcess>,
    session_id: u32,
    roots: Seq<u32>,
    i: int,
)
    requires
        0 <= i < processes.len(),
        processes[i].session_id == Some(session_id),
        root_or_descendant(processes, session_id, roots, processes[i].parent_pid),
    ensures
        root_or_descendant(processes, session_id, roots, processes[i].key.pid),
{
    let n = choose|n: nat| #[trigger]
        descends(processes, session_id, roots, processes[i].parent_pid, n);
    assert(child_in_session(processes, session_id, processes[i].parent_pid, i));
    assert(descends(processes, session_id, roots, processes[i].key.pid, (n + 1) as nat));
}

/// Processes of one session with the same image are protected together.
pub proof fn cohorts_are_protected_together(
    policy: BackgroundPolicy,
    one: ObservedProcess,
    other: ObservedProcess,
    processes: Seq<ObservedProcess>,
    sessions: Seq<SessionActivity>,
)
    requires
        one.session_id == other.session_id,
        crate::text::same_ignoring_case(one.image_name@, other.image_name@),
    ensures
        protection_of(policy, one, processes, sessions) == protection_of(
            policy,
            other,
            processes,
            sessions,
        ),
{
    if let Some(id) = one.session_id {
        let session = crate::interactive::session_of(sessions, id);
        assert forall|roots: Seq<u32>|
            cohort_touches(processes, id, one.image_name@, roots) == #[trigger] cohort_touches(
                processes,
                id,
                other.image_name@,
                roots,
            ) by {}
        assert(cohort_touches(processes, id, one.image_name@, session.foreground_pids@)
            == cohort_touches(processes, id, other.image_name@, session.foreground_pids@));
        assert(cohort_touches(processes, id, one.image_name@, session.visible_pids@)
            == cohort_touches(processes, id, other.image_name@, session.visible_pids@));
        assert(cohort_touches(processes, id, one.image_name@, session.audible_pids@)
            == cohort_touches(processes, id, other.image_name@, session.audible_pids@));
    }
}

/// The probes that matter are those that the policy protects by: windows for
/// what is in front or visible, sound for what is heard.
pub proof fn only_needed_probes_matter(policy: BackgroundPolicy, session: SessionActivity)
    ensures
        session.window_probe_available && session.audio_probe_available ==> probes_available(
            policy,
            session,
        ),
        !policy.protect_foreground && !policy.protect_visible && !policy.protect_audio
            ==> probes_available(policy, session),
        policy.protect_foreground && !session.window_probe_available ==> !probes_available(
            policy,
            session,
        ),
        policy.protect_visible && !session.window_probe_available ==> !probes_available(
            policy,
            session,
        ),
        policy.protect_audio && !session.audio_probe_available ==> !probes_available(
            policy,
            session,
        ),
        !policy.protect_audio && session.window_probe_available ==> probes_available(
            policy,
            session,
        ),
        !policy.protect_foreground && !policy.protect_visible && session.audio_probe_available
            ==> probes_available(policy, session),
{
}

/// What is in front is protected as such; what is not but is visible, as
/// visible; what is neither but is heard, as heard; each only where the policy
/// asks for it. Nothing else is protected in a session that is known.
pub proof fn protections_have_their_reasons(
    policy: BackgroundPolicy,
    process: ObservedProcess,
    processes: Seq<ObservedProcess>,
    sessions: Seq<SessionActivity>,
    session_id: u32,
)
    requires
        process.session_id == Some(session_id),
        crate::interactive::has_session(sessions, session_id),
        probes_available(policy, crate::interactive::session_of(sessions, session_id)),
    ensures
        ({
            let session = crate::interactive::session_of(sessions, session_id);
            let image = process.image_name@;
            let protection = protection_of(policy, process, processes, sessions);
            let in_front = policy.protect_foreground && cohort_touches(
                processes,
                session_id,
                image,
                session.foreground_pids@,
            );
            let seen = policy.protect_visible && cohort_touches(
                processes,
                session_id,
                image,
                session.visible_pids@,
            );
            let heard = policy.protect_audio && cohort_touches(
                processes,
                session_id,
                image,
                session.audible_pids@,
            );
            &&& protection == Some(BackgroundProtection::Foreground) <==> in_front
            &&& protection == Some(BackgroundProtection::Visible) <==> seen && !in_front
            &&& protection == Some(BackgroundProtection::Audio) <==> heard && !seen && !in_front
            &&& protection is None <==> !heard && !seen && !in_front
            &&& protection != Some(BackgroundProtection::ProbeUnavailable)
        }),
{
}

/// A process without a session is not protected by any.
pub proof fn processes_without_a_session_are_not_protected(
    policy: BackgroundPolicy,
    process: ObservedProcess,
    processes: Seq<ObservedProcess>,
    sessions: Seq<SessionActivity>,
)
    requires
        process.session_id is None,
    ensures
        protection_of(policy, process, processes, sessions) is None,
{
}

/// A process that is itself in front, visible or heard is protected where the
/// policy asks for it, with everything below it that runs in its session.
pub proof fn active_processes_are_protected(
    policy: BackgroundPolicy,
    processes: Seq<ObservedProcess>,
    sessions: Seq<SessionActivity>,
    session_id: u32,
    i: int,
)
    requires
        0 <= i < processes.len(),
        processes[i].session_id == Some(session_id),
        ({
            let session = crate::interactive::session_of(sessions, session_id);
            let pid = processes[i].key.pid;
            let parent = processes[i].parent_pid;
            ||| policy.protect_foreground && (session.foreground_pids@.contains(pid)
                || session.foreground_pids@.contains(parent))
            ||| policy.protect_visible && (session.visible_pids@.contains(pid)
                || session.visible_pids@.contains(parent))
            ||| policy.protect_audio && (session.audible_pids@.contains(pid)
                || session.audible_pids@.contains(parent))
        }),
    ensures
        protection_of(policy, processes[i], processes, sessions) is Some,
{
    let session = crate::interactive::session_of(sessions, session_id);
    assert forall|roots: Seq<u32>|
        roots.contains(processes[i].key.pid) || roots.contains(
            processes[i].parent_pid,
        ) implies #[trigger] cohort_touches(
        processes,
        session_id,
        processes[i].image_name@,
        roots,
    ) by {
        if roots.contains(processes[i].key.pid) {
            assert(descends(processes, session_id, roots, processes[i].key.pid, 0));
        } else {
            assert(descends(processes, session_id, roots, processes[i].parent_pid, 0));
            descendants_are_protected(processes, session_id, roots, i);
        }
        assert(root_or_descendant(processes, session_id, roots, processes[i].key.pid));
    }
    let in_front = cohort_touches(
        processes,
        session_id,
        processes[i].image_name@,
        session.foreground_pids@,
    );
    let seen = cohort_touches(
        processes,
        session_id,
        processes[i].image_name@,
        session.visible_pids@,
    );
    let heard = cohort_touches(
        processes,
        session_id,
        processes[i].image_name@,
        session.audible_pids@,
    );
    assert(policy.protect_foreground && in_front || policy.protect_visible && seen
        || policy.protect_audio && heard);
}

/// Only what runs in a session descends from what is active in it.
pub proof fn only_the_session_descends(
    processes: Seq<ObservedProcess>,
    session_id: u32,
    roots: Seq<u32>,
    pid: u32,
)
    requires
        root_or_descendant(processes, session_id, roots, pid),
        !roots.contains(pid),
    ensures
        exists|i: int|
            0 <= i < processes.len() && (#[trigger] processes[i]).session_id == Some(session_id)
                && processes[i].key.pid == pid && root_or_descendant(
                processes,
                session_id,
                roots,
                processes[i].parent_pid,
            ),
{
    let n = choose|n: nat| #[trigger] descends(processes, session_id, roots, pid, n);
    let i = choose|i: int| #[trigger]
        child_in_session(processes, session_id, processes[i].parent_pid, i)
            && processes[i].key.pid == pid && descends(
            processes,
            session_id,
            roots,
            processes[i].parent_pid,
            (n - 1) as nat,
        );
    assert(processes[i].session_id == Some(session_id));
}

/// Where nothing is active, nothing is protected.
pub proof fn idle_sessions_protect_nothing(
    policy: BackgroundPolicy,
    process: ObservedProcess,
    processes: Seq<ObservedProcess>,
    sessions: Seq<SessionActivity>,
    session_id: u32,
)
    requires
        process.session_id == Some(session_id),
        crate::interactive::has_session(sessions, session_id),
        ({
            let session = crate::interactive::session_of(sessions, session_id);
            &&& probes_available(policy, session)
            &&& policy.protect_foreground ==> session.foreground_pids@.len() == 0
            &&& policy.protect_visible ==> session.visible_pids@.len() == 0
            &&& policy.protect_audio ==> session.audible_pids@.len() == 0
        }),
    ensures
        protection_of(policy, process, processes, sessions) is None,
{
    assert forall|roots: Seq<u32>, pid: u32| roots.len() == 0 implies !#[trigger] root_or_descendant(
        processes,
        session_id,
        roots,
        pid,
    ) by {
        if root_or_descendant(processes, session_id, roots, pid) {
            let n = choose|n: nat| #[trigger] descends(processes, session_id, roots, pid, n);
            nothing_descends_from_nothing(processes, session_id, roots, pid, n);
        }
    }
}

proof fn nothing_descends_from_nothing(
    processes: Seq<ObservedProcess>,
    session_id: u32,
    roots: Seq<u32>,
    pid: u32,
    n: nat,
)
    requires
        roots.len() == 0,
    ensures
        !descends(processes, session_id, roots, pid, n),
    decreases n,
{
    if descends(processes, session_id, roots, pid, n) {
        let i = choose|i: int| #[trigger]
            child_in_session(processes, session_id, processes[i].parent_pid, i)
                && processes[i].key.pid == pid && descends(
                processes,
                session_id,
                roots,
                processes[i].parent_pid,
                (n - 1) as nat,
            );
        nothing_descends_from_nothing(
            processes,
            session_id,
            roots,
            processes[i].parent_pid,
            (n - 1) as nat,
        );
    }
}

} // verus!
