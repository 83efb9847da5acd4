//! What the signed-in sessions show and play, and which processes are
//! protected by it.
use vstd::prelude::*;

use crate::process::contains_pid;

verus! {

/// One report of the interactive sensor of a session.
#[derive(Debug, Clone)]
pub struct InteractiveActivityState {
    pub schema_version: u32,
    pub session_id: u32,
    pub source_pid: u32,
    pub source_creation_time_100ns: u64,
    pub window_probe_available: bool,
    pub audio_probe_available: bool,
    pub foreground_pid: Option<u32>,
    pub visible_pids: Vec<u32>,
    pub audible_pids: Vec<u32>,
    pub updated_at_unix_ms: u64,
}

/// What the fresh reports of one session say together.
#[derive(Debug)]
pub struct SessionActivity {
    pub session_id: u32,
    pub publishers: usize,
    pub window_probe_available: bool,
    pub audio_probe_available: bool,
    pub foreground_pids: Vec<u32>,
    pub visible_pids: Vec<u32>,
    pub audible_pids: Vec<u32>,
}

/// Whether report `i` counts for a session: it is fresh and comes from it.
pub open spec fn counts_for(
    states: Seq<InteractiveActivityState>,
    fresh: Seq<bool>,
    session_id: u32,
    i: int,
) -> bool {
    0 <= i < states.len() && fresh[i] && session_id != 0 && states[i].session_id == session_id
}

/// Whether one of the first `n` reports counts for a session.
pub open spec fn reported(
    states: Seq<InteractiveActivityState>,
    fresh: Seq<bool>,
    session_id: u32,
    n: int,
) -> bool {
    exists|i: int| i < n && #[trigger] counts_for(states, fresh, session_id, i)
}

/// How many of the first `n` reports count for a session.
pub open spec fn publishers(
    states: Seq<InteractiveActivityState>,
    fresh: Seq<bool>,
    session_id: u32,
    n: nat,
) -> nat
    decreases n,
{
    if n == 0 {
        0
    } else {
        publishers(states, fresh, session_id, (n - 1) as nat) + if counts_for(
            states,
            fresh,
            session_id,
            n - 1,
        ) {
            1nat
        } else {
            0nat
        }
    }
}

/// The activity that the first `n` reports give a session: a probe is
/// available where every report says so, and a process is shown or heard
/// where any report says so.
pub open spec fn sums_up(
    activity: SessionActivity,
    states: Seq<InteractiveActivityState>,
    fresh: Seq<bool>,
    n: int,
) -> bool {
    let id = activity.session_id;
    &&& activity.publishers == publishers(states, fresh, id, n as nat)
    &&& activity.window_probe_available <==> (forall|i: int|
        i < n && #[trigger] counts_for(states, fresh, id, i) ==> states[i].window_probe_available)
    &&& activity.audio_probe_available <==> (forall|i: int|
        i < n && #[trigger] counts_for(states, fresh, id, i) ==> states[i].audio_probe_available)
    &&& forall|pid: u32| #[trigger]
        activity.foreground_pids@.contains(pid) <==> (exists|i: int|
            i < n && #[trigger] counts_for(states, fresh, id, i) && states[i].foreground_pid
                == Some(pid))
    &&& forall|pid: u32| #[trigger]
        activity.visible_pids@.contains(pid) <==> (exists|i: int|
            i < n && #[trigger] counts_for(states, fresh, id, i)
                && states[i].visible_pids@.contains(pid))
    &&& forall|pid: u32| #[trigger]
        activity.audible_pids@.contains(pid) <==> (exists|i: int|
            i < n && #[trigger] counts_for(states, fresh, id, i)
                && states[i].audible_pids@.contains(pid))
}

/// No two of the activities are of the same session.
pub open spec fn distinct_sessions(sessions: Seq<SessionActivity>) -> bool {
    forall|i: int, j: int|
        #![trigger sessions[i], sessions[j]]
        0 <= i < j < sessions.len() ==> sessions[i].session_id != sessions[j].session_id
}

/// The place of the first activity of a session.
pub open spec fn session_at(sessions: Seq<SessionActivity>, session_id: u32, at: int) -> bool {
    &&& 0 <= at < sessions.len()
    &&& sessions[at].session_id == session_id
    &&& forall|i: int| 0 <= i < at ==> (#[trigger] sessions[i]).session_id != session_id
}

/// Whether a session has an activity.
pub open spec fn has_session(sessions: Seq<SessionActivity>, session_id: u32) -> bool {
    exists|at: int| session_at(sessions, session_id, at)
}

/// The first activity of a session.
pub open spec fn session_of(sessions: Seq<SessionActivity>, session_id: u32) -> SessionActivity {
    sessions[choose|at: int| session_at(sessions, session_id, at)]
}

/// Finds the activity of a session.
pub fn find_session(sessions: &Vec<SessionActivity>, session_id: u32) -> (place: Option<usize>)
    ensures
        place is Some == has_session(sessions@, session_id),
        place matches Some(at) ==> {
            &&& session_at(sessions@, session_id, at as int)
            &&& sessions@[at as int] == session_of(sessions@, session_id)
        },
{
    let mut at: usize = 0;
    while at < sessions.len()
        invariant
            at <= sessions.len(),
            forall|i: int| 0 <= i < at ==> (#[trigger] sessions@[i]).session_id != session_id,
        decreases sessions.len() - at,
    {
        if sessions[at].session_id == session_id {
            proof {
                assert(session_at(sessions@, session_id, at as int));
                let other = choose|i: int| session_at(sessions@, session_id, i);
                assert(session_at(sessions@, session_id, other));
                if other < at {
                    assert(sessions@[other].session_id != session_id);
                } else if at < other {
                    assert(sessions@[at as int].session_id != session_id);
                }
            }
            return Some(at);
        }
        at = at + 1;
    }
    None
}

/// Adds `pid` to a set of identifiers.
fn insert_pid(pids: &mut Vec<u32>, pid: u32)
    ensures
        forall|p: u32| #[trigger] final(pids)@.contains(p) <==> old(pids)@.contains(p) || p == pid,
{
    if !contains_pid(pids, pid) {
        pids.push(pid);
        proof {
            assert forall|p: u32| #[trigger] pids@.contains(p) <==> old(pids)@.contains(p) || p
                == pid by {
                if old(pids)@.contains(p) {
                    let i = choose|i: int| 0 <= i < old(pids)@.len() && old(pids)@[i] == p;
                    assert(pids@[i] == p);
                }
                if p == pid {
                    assert(pids@[pids@.len() - 1] == p);
                }
            }
        }
    }
}

/// Adds the identifiers of `more` to a set of identifiers.
fn insert_pids(pids: &mut Vec<u32>, more: &Vec<u32>)
    ensures
        forall|p: u32| #[trigger]
            final(pids)@.contains(p) <==> old(pids)@.contains(p) || more@.contains(p),
{
    let mut at: usize = 0;
    while at < more.len()
        invariant
            at <= more.len(),
            forall|p: u32| #[trigger]
                pids@.contains(p) <==> old(pids)@.contains(p) || more@.take(at as int).contains(p),
        decreases more.len() - at,
    {
        let ghost before = pids@;
        insert_pid(pids, more[at]);
        proof {
            assert forall|p: u32| #[trigger]
                pids@.contains(p) <==> old(pids)@.contains(p) || more@.take(at + 1).contains(p) by {
                let now = more@.take(at + 1);
                let then = more@.take(at as int);
                assert(before.contains(p) <==> old(pids)@.contains(p) || then.contains(p));
                if then.contains(p) {
                    let i = choose|i: int| 0 <= i < then.len() && then[i] == p;
                    assert(now[i] == p);
                }
                if p == more@[at as int] {
                    assert(now[at as int] == p);
                }
                if now.contains(p) && p != more@[at as int] {
                    let i = choose|i: int| 0 <= i < now.len() && now[i] == p;
                    assert(then[i] == p);
                }
            }
        }
        at = at + 1;
    }
    proof {
        assert(more@.take(at as int) =~= more@);
    }
}

/// Adds one report to the activity of its session.
fn absorb(activity: &mut SessionActivity, state: &InteractiveActivityState)
    requires
        old(activity).publishers < usize::MAX,
    ensures
        final(activity).session_id == old(activity).session_id,
        final(activity).publishers == old(activity).publishers + 1,
        final(activity).window_probe_available == (old(activity).window_probe_available
            && state.window_probe_available),
        final(activity).audio_probe_available == (old(activity).audio_probe_available
            && state.audio_probe_available),
        forall|p: u32| #[trigger]
            final(activity).foreground_pids@.contains(p) <==> old(
                activity,
            ).foreground_pids@.contains(p) || state.foreground_pid == Some(p),
        forall|p: u32| #[trigger]
            final(activity).visible_pids@.contains(p) <==> old(activity).visible_pids@.contains(p)
                || state.visible_pids@.contains(p),
        forall|p: u32| #[trigger]
            final(activity).audible_pids@.contains(p) <==> old(activity).audible_pids@.contains(p)
                || state.audible_pids@.contains(p),
{
    activity.publishers = activity.publishers + 1;
    activity.window_probe_available = activity.window_probe_available
        && state.window_probe_available;
    activity.audio_probe_available = activity.audio_probe_available && state.audio_probe_available;
    if let Some(pid) = state.foreground_pid {
        insert_pid(&mut activity.foreground_pids, pid);
    }
    insert_pids(&mut activity.visible_pids, &state.visible_pids);
    insert_pids(&mut activity.audible_pids, &state.audible_pids);
}

proof fn publishers_bounded(
    states: Seq<InteractiveActivityState>,
    fresh: Seq<bool>,
    session_id: u32,
    n: nat,
)
    ensures
        publishers(states, fresh, session_id, n) <= n,
    decreases n,
{
    if n > 0 {
        publishers_bounded(states, fresh, session_id, (n - 1) as nat);
    }
}

proof fn no_publishers(
    states: Seq<InteractiveActivityState>,
    fresh: Seq<bool>,
    session_id: u32,
    n: nat,
)
    requires
        forall|i: int| i < n ==> !#[trigger] counts_for(states, fresh, session_id, i),
    ensures
        publishers(states, fresh, session_id, n) == 0,
    decreases n,
{
    if n > 0 {
        no_publishers(states, fresh, session_id, (n - 1) as nat);
    }
}

/// Sums up the fresh reports of each session. `fresh[i]` says whether report
/// `i` is recent enough to count.
pub fn interactive_sessions(
    states: &Vec<InteractiveActivityState>,
    fresh: &Vec<bool>,
) -> (sessions: Vec<SessionActivity>)
    requires
        states.len() == fresh.len(),
    ensures
        distinct_sessions(sessions@),
        forall|k: int|
            0 <= k < sessions.len() ==> sums_up(
                #[trigger] sessions@[k],
                states@,
                fresh@,
                states.len() as int,
            ),
        forall|id: u32| #[trigger]
            has_session(sessions@, id) <==> reported(states@, fresh@, id, states.len() as int),
{
    let mut sessions: Vec<SessionActivity> = Vec::new();
    let mut at: usize = 0;
    while at < states.len()
        invariant
            at <= states.len(),
            states.len() == fresh.len(),
            distinct_sessions(sessions@),
            forall|k: int|
                0 <= k < sessions.len() ==> sums_up(
                    #[trigger] sessions@[k],
                    states@,
                    fresh@,
                    at as int,
                ),
            forall|k: int|
                0 <= k < sessions.len() ==> reported(
                    states@,
                    fresh@,
                    (#[trigger] sessions@[k]).session_id,
                    at as int,
                ),
            forall|i: int|
                0 <= i < at && fresh@[i] && (#[trigger] states@[i]).session_id != 0 ==> has_session(
                    sessions@,
                    states@[i].session_id,
                ),
        decreases states.len() - at,
    {
        let state = &states[at];
        let ghost before = sessions@;
        if state.session_id != 0 && fresh[at] {
            let place = match find_session(&sessions, state.session_id) {
                Some(place) => place,
                None => {
                    let place: usize = sessions.len();
                    let ghost id = state.session_id;
                    proof {
                        assert forall|i: int| i < at implies !#[trigger] counts_for(
                            states@,
                            fresh@,
                            id,
                            i,
                        ) by {
                            if counts_for(states@, fresh@, id, i) {
                                assert(states@[i].session_id != 0);
                                assert(has_session(sessions@, id));
                            }
                        }
                        no_publishers(states@, fresh@, id, at as nat);
                        assert forall|i: int| 0 <= i < sessions@.len() implies (
                        #[trigger] sessions@[i]).session_id != id by {
                            if sessions@[i].session_id == id {
                                let j = choose|j: int|
                                    j < at && #[trigger] counts_for(
                                        states@,
                                        fresh@,
                                        sessions@[i].session_id,
                                        j,
                                    );
                                assert(counts_for(states@, fresh@, id, j));
                            }
                        }
                    }
                    let fresh_session = SessionActivity {
                        session_id: state.session_id,
                        publishers: 0,
                        window_probe_available: true,
                        audio_probe_available: true,
                        foreground_pids: Vec::new(),
                        visible_pids: Vec::new(),
                        audible_pids: Vec::new(),
                    };
                    sessions.push(fresh_session);
                    place
                },
            };
            let ghost mid = sessions@;
            proof {
                publishers_bounded(states@, fresh@, state.session_id, at as nat);
                assert(sums_up(mid[place as int], states@, fresh@, at as int));
            }
            absorb(&mut sessions[place], state);
            proof {
                assert(sessions@ =~= mid.update(place as int, sessions@[place as int]));
                let id = state.session_id;
                assert(counts_for(states@, fresh@, id, at as int));
                let then = mid[place as int];
                let now = sessions@[place as int];
                assert(sums_up(now, states@, fresh@, at + 1)) by {
                    reveal_with_fuel(publishers, 2);
                    assert forall|p: u32| #[trigger]
                        now.foreground_pids@.contains(p) <==> (exists|i: int|
                            i < at + 1 && #[trigger] counts_for(states@, fresh@, id, i)
                                && states@[i].foreground_pid == Some(p)) by {
                        assert(then.foreground_pids@.contains(p) <==> (exists|i: int|
                            i < at && #[trigger] counts_for(states@, fresh@, id, i)
                                && states@[i].foreground_pid == Some(p)));
                    }
                    assert forall|p: u32| #[trigger]
                        now.visible_pids@.contains(p) <==> (exists|i: int|
                            i < at + 1 && #[trigger] counts_for(states@, fresh@, id, i)
                                && states@[i].visible_pids@.contains(p)) by {
                        assert(then.visible_pids@.contains(p) <==> (exists|i: int|
                            i < at && #[trigger] counts_for(states@, fresh@, id, i)
                                && states@[i].visible_pids@.contains(p)));
                    }
                    assert forall|p: u32| #[trigger]
                        now.audible_pids@.contains(p) <==> (exists|i: int|
                            i < at + 1 && #[trigger] counts_for(states@, fresh@, id, i)
                                && states@[i].audible_pids@.contains(p)) by {
                        assert(then.audible_pids@.contains(p) <==> (exists|i: int|
                            i < at && #[trigger] counts_for(states@, fresh@, id, i)
                                && states@[i].audible_pids@.contains(p)));
                    }
                }
                assert forall|k: int| 0 <= k < sessions@.len() implies sums_up(
                    #[trigger] sessions@[k],
                    states@,
                    fresh@,
                    at + 1,
                ) by {
                    if k != place {
                        assert(mid[k] == sessions@[k]);
                        assert(sums_up(mid[k], states@, fresh@, at as int));
                        assert(mid[k].session_id != id) by {
                            assert(mid[place as int].session_id == id);
                        }
                        unaffected(mid[k], states@, fresh@, at as int);
                    }
                }
                assert forall|k: int| 0 <= k < sessions@.len() implies reported(
                    states@,
                    fresh@,
                    (#[trigger] sessions@[k]).session_id,
                    at + 1,
                ) by {
                    if k == place {
                        assert(counts_for(states@, fresh@, sessions@[k].session_id, at as int));
                    } else {
                        let i = choose|i: int|
                            i < at && #[trigger] counts_for(
                                states@,
                                fresh@,
                                before[k].session_id,
                                i,
                            );
                        assert(counts_for(states@, fresh@, sessions@[k].session_id, i));
                    }
                }
                assert forall|i: int|
                    0 <= i < at + 1 && fresh@[i] && (#[trigger] states@[i]).session_id
                        != 0 implies has_session(sessions@, states@[i].session_id) by {
                    let wanted = states@[i].session_id;
                    if i < at {
                        let p = choose|p: int| session_at(before, wanted, p);
                        assert(session_at(before, wanted, p));
                        assert(sessions@[p].session_id == wanted);
                        has_session_at_some_place(sessions@, wanted, p);
                    } else {
                        has_session_at_some_place(sessions@, wanted, place as int);
                    }
                }
            }
        } else {
            proof {
                assert forall|k: int| 0 <= k < sessions@.len() implies sums_up(
                    #[trigger] sessions@[k],
                    states@,
                    fresh@,
                    at + 1,
                ) by {
                    unaffected(sessions@[k], states@, fresh@, at as int);
                }
                assert forall|k: int| 0 <= k < sessions@.len() implies reported(
                    states@,
                    fresh@,
                    (#[trigger] sessions@[k]).session_id,
                    at + 1,
                ) by {
                    let i = choose|i: int|
                        i < at && #[trigger] counts_for(
                            states@,
                            fresh@,
                            sessions@[k].session_id,
                            i,
                        );
                    assert(counts_for(states@, fresh@, sessions@[k].session_id, i));
                }
            }
        }
        at = at + 1;
    }
    proof {
        assert forall|id: u32| #[trigger]
            has_session(sessions@, id) <==> reported(
                states@,
                fresh@,
                id,
                states.len() as int,
            ) by {
            if has_session(sessions@, id) {
                let p = choose|p: int| session_at(sessions@, id, p);
                assert(sessions@[p].session_id == id);
            }
        }
    }
    sessions
}

/// A session with an activity anywhere has a first one.
proof fn has_session_at_some_place(sessions: Seq<SessionActivity>, session_id: u32, place: int)
    requires
        0 <= place < sessions.len(),
        sessions[place].session_id == session_id,
    ensures
        has_session(sessions, session_id),
    decreases place,
{
    if session_at(sessions, session_id, place) {
    } else {
        let i = choose|i: int| 0 <= i < place && (#[trigger] sessions[i]).session_id == session_id;
        has_session_at_some_place(sessions, session_id, i);
    }
}

/// A report that does not count for a session leaves its activity alone.
proof fn unaffected(
    activity: SessionActivity,
    states: Seq<InteractiveActivityState>,
    fresh: Seq<bool>,
    n: int,
)
    requires
        0 <= n < states.len(),
        sums_up(activity, states, fresh, n),
        !counts_for(states, fresh, activity.session_id, n),
    ensures
        sums_up(activity, states, fresh, n + 1),
{
    let id = activity.session_id;
    reveal_with_fuel(publishers, 2);
    assert forall|p: u32| #[trigger]
        activity.foreground_pids@.contains(p) <==> (exists|i: int|
            i < n + 1 && #[trigger] counts_for(states, fresh, id, i) && states[i].foreground_pid
                == Some(p)) by {
        assert(activity.foreground_pids@.contains(p) <==> (exists|i: int|
            i < n && #[trigger] counts_for(states, fresh, id, i) && states[i].foreground_pid
                == Some(p)));
    }
    assert forall|p: u32| #[trigger]
        activity.visible_pids@.contains(p) <==> (exists|i: int|
            i < n + 1 && #[trigger] counts_for(states, fresh, id, i)
                && states[i].visible_pids@.contains(p)) by {
        assert(activity.visible_pids@.contains(p) <==> (exists|i: int|
            i < n && #[trigger] counts_for(states, fresh, id, i)
                && states[i].visible_pids@.contains(p)));
    }
    assert forall|p: u32| #[trigger]
        activity.audible_pids@.contains(p) <==> (exists|i: int|
            i < n + 1 && #[trigger] counts_for(states, fresh, id, i)
                && states[i].audible_pids@.contains(p)) by {
        assert(activity.audible_pids@.contains(p) <==> (exists|i: int|
            i < n && #[trigger] counts_for(states, fresh, id, i)
                && states[i].audible_pids@.contains(p)));
    }
}

/// What a sensor saw.
#[derive(Debug)]
pub struct InteractiveActivity {
    pub session_id: u32,
    pub window_probe_available: bool,
    pub audio_probe_available: bool,
    pub foreground_pid: Option<u32>,
    pub visible_pids: Vec<u32>,
    pub audible_pids: Vec<u32>,
}

/// Whether every identifier is greater than the one before.
pub open spec fn is_set_list(pids: Seq<u32>) -> bool {
    forall|i: int, j: int| 0 <= i < j < pids.len() ==> pids[i] < pids[j]
}

/// The identifiers in ascending order, each of them once.
pub fn sorted_unique(pids: &Vec<u32>) -> (list: Vec<u32>)
    ensures
        is_set_list(list@),
        forall|pid: u32| #[trigger] list@.contains(pid) <==> pids@.contains(pid),
{
    let mut list: Vec<u32> = Vec::new();
    let mut at: usize = 0;
    while at < pids.len()
        invariant
            at <= pids.len(),
            is_set_list(list@),
            forall|pid: u32| #[trigger]
                list@.contains(pid) <==> pids@.take(at as int).contains(pid),
        decreases pids.len() - at,
    {
        let pid: u32 = pids[at];
        let ghost before = list@;
        let mut place: usize = 0;
        while place < list.len() && list[place] < pid
            invariant
                place <= list.len(),
                list@ == before,
                forall|i: int| 0 <= i < place ==> list@[i] < pid,
            decreases list.len() - place,
        {
            place = place + 1;
        }
        let known = place < list.len() && list[place] == pid;
        if !known {
            list.insert(place, pid);
        }
        proof {
            let then = pids@.take(at as int);
            let now = pids@.take(at + 1);
            assert(is_set_list(list@)) by {
                if !known {
                    assert forall|i: int, j: int| 0 <= i < j < list@.len() implies list@[i]
                        < list@[j] by {
                        if i < place && place < j {
                            assert(before[i] < before[j - 1]);
                        } else if j < place {
                            assert(before[i] < before[j]);
                        } else if place < i {
                            assert(before[i - 1] < before[j - 1]);
                        } else if i == place && place < before.len() {
                            if j - 1 > place {
                                assert(before[place as int] < before[j - 1]);
                            }
                        }
                    }
                }
            }
            assert forall|p: u32| #[trigger] list@.contains(p) <==> now.contains(p) by {
                assert(before.contains(p) <==> then.contains(p));
                if then.contains(p) {
                    let i = choose|i: int| 0 <= i < then.len() && then[i] == p;
                    assert(now[i] == p);
                }
                if p == pid {
                    assert(now[at as int] == p);
                    assert(list@[place as int] == p);
                }
                if now.contains(p) && p != pid {
                    let i = choose|i: int| 0 <= i < now.len() && now[i] == p;
                    assert(then[i] == p);
                }
                if before.contains(p) {
                    let i = choose|i: int| 0 <= i < before.len() && before[i] == p;
                    if known || i < place {
                        assert(list@[i] == p);
                    } else {
                        assert(list@[i + 1] == p);
                    }
                }
                if list@.contains(p) && p != pid {
                    let i = choose|i: int| 0 <= i < list@.len() && list@[i] == p;
                    if known || i < place {
                        assert(before[i] == p);
                    } else {
                        assert(before[i - 1] == p);
                    }
                }
            }
        }
        at = at + 1;
    }
    proof {
        assert(pids@.take(at as int) =~= pids@);
    }
    list
}

/// What a report says, without when it was made.
#[verifier::ext_equal]
pub struct ActivityContent {
    pub session_id: u32,
    pub source_pid: u32,
    pub source_creation_time_100ns: u64,
    pub window_probe_available: bool,
    pub audio_probe_available: bool,
    pub foreground_pid: Option<u32>,
    pub visible_pids: Seq<u32>,
    pub audible_pids: Seq<u32>,
}

impl InteractiveActivityState {
    /// What the report says, without when it was made.
    pub open spec fn content(&self) -> ActivityContent {
        ActivityContent {
            session_id: self.session_id,
            source_pid: self.source_pid,
            source_creation_time_100ns: self.source_creation_time_100ns,
            window_probe_available: self.window_probe_available,
            audio_probe_available: self.audio_probe_available,
            foreground_pid: self.foreground_pid,
            visible_pids: self.visible_pids@,
            audible_pids: self.audible_pids@,
        }
    }
}

/// Makes a report of what a sensor saw, with the identifiers in order and
/// each of them once.
pub fn interactive_state(
    activity: &InteractiveActivity,
    source: &crate::process::ProcessKey,
    schema_version: u32,
    now_unix_ms: u64,
) -> (state: InteractiveActivityState)
    ensures
        state.schema_version == schema_version,
        state.session_id == activity.session_id,
        state.source_pid == source.pid,
        state.source_creation_time_100ns == source.creation_time_100ns,
        state.window_probe_available == activity.window_probe_available,
        state.audio_probe_available == activity.audio_probe_available,
        state.foreground_pid == activity.foreground_pid,
        is_set_list(state.visible_pids@),
        forall|pid: u32| #[trigger]
            state.visible_pids@.contains(pid) <==> activity.visible_pids@.contains(pid),
        is_set_list(state.audible_pids@),
        forall|pid: u32| #[trigger]
            state.audible_pids@.contains(pid) <==> activity.audible_pids@.contains(pid),
        state.updated_at_unix_ms == now_unix_ms,
{
    InteractiveActivityState {
        schema_version,
        session_id: activity.session_id,
        source_pid: source.pid,
        source_creation_time_100ns: source.creation_time_100ns,
        window_probe_available: activity.window_probe_available,
        audio_probe_available: activity.audio_probe_available,
        foreground_pid: activity.foreground_pid,
        visible_pids: sorted_unique(&activity.visible_pids),
        audible_pids: sorted_unique(&activity.audible_pids),
        updated_at_unix_ms: now_unix_ms,
    }
}

fn same_pids(a: &Vec<u32>, b: &Vec<u32>) -> (same: bool)
    ensures
        same == (a@ == b@),
{
    crate::placement::same_ids(a, b)
}

/// Whether two reports say the same, whenever they were made.
pub fn same_interactive_state_content(
    left: &InteractiveActivityState,
    right: &InteractiveActivityState,
) -> (same: bool)
    ensures
        same == (left.content() == right.content()),
{
    let same_foreground = match (left.foreground_pid, right.foreground_pid) {
        (Some(a), Some(b)) => a == b,
        (None, None) => true,
        _ => false,
    };
    let same = left.session_id == right.session_id && left.source_pid == right.source_pid
        && left.source_creation_time_100ns == right.source_creation_time_100ns
        && left.window_probe_available == right.window_probe_available
        && left.audio_probe_available == right.audio_probe_available && same_foreground
        && same_pids(&left.visible_pids, &right.visible_pids) && same_pids(
        &left.audible_pids,
        &right.audible_pids,
    );
    proof {
        if same {
            assert(left.content() =~= right.content());
        }
    }
    same
}

/// Whether a report is sent: when it says something new, and when the
/// heartbeat is due.
pub fn should_send_report(
    previous: Option<&InteractiveActivityState>,
    state: &InteractiveActivityState,
    since_last_ms: u64,
    heartbeat_ms: u64,
) -> (send: bool)
    ensures
        send == ((match previous {
            None => true,
            Some(previous) => previous.content() != state.content(),
        }) || since_last_ms >= heartbeat_ms),
        send == is_sent(
            match previous {
                None => None,
                Some(previous) => Some(previous.content()),
            },
            state.content(),
            since_last_ms,
            heartbeat_ms,
        ),
{
    let changed = match previous {
        None => true,
        Some(previous) => !same_interactive_state_content(previous, state),
    };
    changed || since_last_ms >= heartbeat_ms
}

/// Two lists in ascending order with the same members are the same list.
pub proof fn set_lists_are_determined(a: Seq<u32>, b: Seq<u32>)
    requires
        is_set_list(a),
        is_set_list(b),
        forall|pid: u32| a.contains(pid) <==> b.contains(pid),
    ensures
        a == b,
    decreases a.len() + b.len(),
{
    if a.len() == 0 {
        if b.len() > 0 {
            assert(b.contains(b[0]));
        }
        assert(a =~= b);
    } else if b.len() == 0 {
        assert(a.contains(a[0]));
    } else {
        assert(a.contains(a.last()) && b.contains(b.last()));
        let i = choose|i: int| 0 <= i < a.len() && a[i] == b.last();
        let j = choose|j: int| 0 <= j < b.len() && b[j] == a.last();
        assert(b.contains(a.last()) && a.contains(b.last()));
        if i < a.len() - 1 {
            assert(a[i] < a[a.len() - 1]);
        }
        if j < b.len() - 1 {
            assert(b[j] < b[b.len() - 1]);
        }
        assert(a.last() == b.last());
        let fewer = a.drop_last();
        let less = b.drop_last();
        assert forall|pid: u32| fewer.contains(pid) <==> less.contains(pid) by {
            if fewer.contains(pid) {
                let k = choose|k: int| 0 <= k < fewer.len() && fewer[k] == pid;
                assert(a[k] == pid && a[k] < a[a.len() - 1]);
                assert(a.contains(pid));
                let m = choose|m: int| 0 <= m < b.len() && b[m] == pid;
                assert(less[m] == pid);
            }
            if less.contains(pid) {
                let k = choose|k: int| 0 <= k < less.len() && less[k] == pid;
                assert(b[k] == pid && b[k] < b[b.len() - 1]);
                assert(b.contains(pid));
                let m = choose|m: int| 0 <= m < a.len() && a[m] == pid;
                assert(fewer[m] == pid);
            }
        }
        assert(is_set_list(fewer)) by {
            assert forall|i: int, j: int| 0 <= i < j < fewer.len() implies fewer[i]
                < fewer[j] by {
                assert(a[i] < a[j]);
            }
        }
        assert(is_set_list(less)) by {
            assert forall|i: int, j: int| 0 <= i < j < less.len() implies less[i] < less[j] by {
                assert(b[i] < b[j]);
            }
        }
        set_lists_are_determined(fewer, less);
        assert(a =~= fewer.push(a.last()));
        assert(b =~= less.push(b.last()));
    }
}

/// A session is what its fresh reports say: a probe that one of them misses is
/// missing, and what one of them shows or plays is shown or played.
pub proof fn every_fresh_report_counts(
    activity: SessionActivity,
    states: Seq<InteractiveActivityState>,
    fresh: Seq<bool>,
    i: int,
    pid: u32,
)
    requires
        sums_up(activity, states, fresh, states.len() as int),
        0 <= i < states.len(),
        fresh[i],
        states[i].session_id == activity.session_id,
        activity.session_id != 0,
    ensures
        !states[i].window_probe_available ==> !activity.window_probe_available,
        !states[i].audio_probe_available ==> !activity.audio_probe_available,
        states[i].foreground_pid == Some(pid) ==> activity.foreground_pids@.contains(pid),
        states[i].visible_pids@.contains(pid) ==> activity.visible_pids@.contains(pid),
        states[i].audible_pids@.contains(pid) ==> activity.audible_pids@.contains(pid),
        activity.publishers > 0,
{
    assert(counts_for(states, fresh, activity.session_id, i));
    a_report_is_a_publisher(states, fresh, activity.session_id, i, states.len());
}

proof fn a_report_is_a_publisher(
    states: Seq<InteractiveActivityState>,
    fresh: Seq<bool>,
    session_id: u32,
    i: int,
    n: nat,
)
    requires
        i < n,
        counts_for(states, fresh, session_id, i),
    ensures
        publishers(states, fresh, session_id, n) > 0,
    decreases n,
{
    if i < n - 1 {
        a_report_is_a_publisher(states, fresh, session_id, i, (n - 1) as nat);
    }
}

/// What no fresh report of a session says, the session does not say: reports
/// that are old, or of another session, count for nothing.
pub proof fn other_reports_do_not_count(
    activity: SessionActivity,
    states: Seq<InteractiveActivityState>,
    fresh: Seq<bool>,
    pid: u32,
)
    requires
        sums_up(activity, states, fresh, states.len() as int),
        forall|i: int|
            0 <= i < states.len() && fresh[i] && (#[trigger] states[i]).session_id
                == activity.session_id ==> {
                &&& states[i].window_probe_available
                &&& states[i].audio_probe_available
                &&& states[i].foreground_pid != Some(pid)
                &&& !states[i].visible_pids@.contains(pid)
                &&& !states[i].audible_pids@.contains(pid)
            },
    ensures
        activity.window_probe_available,
        activity.audio_probe_available,
        !activity.foreground_pids@.contains(pid),
        !activity.visible_pids@.contains(pid),
        !activity.audible_pids@.contains(pid),
{
}

/// Session zero, where nobody is signed in, has no activity.
pub proof fn nobody_is_active_in_session_zero(
    states: Seq<InteractiveActivityState>,
    fresh: Seq<bool>,
)
    ensures
        !reported(states, fresh, 0, states.len() as int),
        publishers(states, fresh, 0, states.len()) == 0,
{
    no_publishers(states, fresh, 0, states.len());
}

/// Two reports say the same where they agree on everything but their version
/// and their time.
pub proof fn contents_leave_out_only_the_time(
    left: InteractiveActivityState,
    right: InteractiveActivityState,
)
    ensures
        left.content() == right.content() <==> {
            &&& left.session_id == right.session_id
            &&& left.source_pid == right.source_pid
            &&& left.source_creation_time_100ns == right.source_creation_time_100ns
            &&& left.window_probe_available == right.window_probe_available
            &&& left.audio_probe_available == right.audio_probe_available
            &&& left.foreground_pid == right.foreground_pid
            &&& left.visible_pids@ == right.visible_pids@
            &&& left.audible_pids@ == right.audible_pids@
        },
{
}

/// Whether a report is sent after another, or as the first.
pub open spec fn is_sent(
    previous: Option<ActivityContent>,
    content: ActivityContent,
    since_last_ms: u64,
    heartbeat_ms: u64,
) -> bool {
    (match previous {
        None => true,
        Some(previous) => previous != content,
    }) || since_last_ms >= heartbeat_ms
}

/// The first report and every change are sent at once; the same again is sent
/// when, and only when, the heartbeat is due.
pub proof fn changes_are_sent_at_once(
    previous: ActivityContent,
    content: ActivityContent,
    since_last_ms: u64,
    heartbeat_ms: u64,
)
    ensures
        is_sent(None, content, since_last_ms, heartbeat_ms),
        previous != content ==> is_sent(Some(previous), content, since_last_ms, heartbeat_ms),
        is_sent(Some(content), content, since_last_ms, heartbeat_ms) <==> since_last_ms
            >= heartbeat_ms,
{
}

} // verus!
