//! What is observed of running processes.
use vstd::prelude::*;

use crate::process::ProcessKey;

verus! {

/// A group of processors that share their last-level cache.
#[derive(Debug, Clone, Copy, PartialEq, Eq, Structural)]
pub struct LlcDomainKey {
    pub group: u16,
    pub last_level_cache_index: u8,
}

/// Why a process is never touched.
#[derive(Debug, Clone, Copy, PartialEq, Eq, Structural)]
pub enum ExclusionReason {
    SystemProcess,
    SessionZero,
    ProtectedProcess,
    RealtimeProcess,
    ExplicitRule,
}

/// One process as a snapshot of the machine shows it.
#[derive(Debug, Clone)]
pub struct ObservedProcess {
    pub key: ProcessKey,
    pub parent_pid: u32,
    pub session_id: Option<u32>,
    pub thread_count: u32,
    pub image_name: String,
    pub image_path: Option<String>,
    pub priority_class: Option<u32>,
    pub cpu_time_100ns: u64,
    pub default_cpu_set_ids: Vec<u32>,
    pub current_domain: Option<LlcDomainKey>,
    pub exclusion: Option<ExclusionReason>,
}

/// Whether some observed process has this key.
pub open spec fn is_live(processes: Seq<ObservedProcess>, key: ProcessKey) -> bool {
    exists|i: int| 0 <= i < processes.len() && (#[trigger] processes[i]).key == key
}

/// Whether some observed process has this key.
pub fn lives(processes: &Vec<ObservedProcess>, key: ProcessKey) -> (live: bool)
    ensures
        live == is_live(processes@, key),
{
    match find_process(processes, key) {
        Some(_) => true,
        None => false,
    }
}

/// The place of the first observed process with this key.
pub open spec fn first_with_key(processes: Seq<ObservedProcess>, key: ProcessKey) -> Option<int>
    decreases processes.len(),
{
    if processes.len() == 0 {
        None
    } else {
        match first_with_key(processes.drop_last(), key) {
            Some(at) => Some(at),
            None => if processes.last().key == key {
                Some(processes.len() - 1)
            } else {
                None
            },
        }
    }
}

/// The first observed process with a key, if there is one, is at a place that
/// exists and has that key.
pub proof fn first_with_key_is_sound(processes: Seq<ObservedProcess>, key: ProcessKey)
    ensures
        first_with_key(processes, key) is Some == is_live(processes, key),
        first_with_key(processes, key) matches Some(at) ==> {
            &&& 0 <= at < processes.len()
            &&& processes[at].key == key
            &&& forall|i: int| 0 <= i < at ==> (#[trigger] processes[i]).key != key
        },
    decreases processes.len(),
{
    if processes.len() > 0 {
        let front = processes.drop_last();
        first_with_key_is_sound(front, key);
        if is_live(processes, key) && !is_live(front, key) {
            let i = choose|i: int|
                0 <= i < processes.len() && (#[trigger] processes[i]).key == key;
            if i < front.len() {
                assert(front[i].key == key);
            }
        }
        if is_live(front, key) {
            let i = choose|i: int| 0 <= i < front.len() && (#[trigger] front[i]).key == key;
            assert(processes[i].key == key);
        }
        match first_with_key(front, key) {
            Some(at) => {
                assert(processes[at] == front[at]);
                assert forall|i: int| 0 <= i < at implies (#[trigger] processes[i]).key != key by {
                    assert(front[i] == processes[i]);
                }
            },
            None => {
                assert forall|i: int| 0 <= i < front.len() implies (#[trigger] processes[i]).key
                    != key by {
                    assert(front[i] == processes[i]);
                }
            },
        }
    }
}

/// The place of the first observed process with this key.
pub fn find_process(processes: &Vec<ObservedProcess>, key: ProcessKey) -> (place: Option<usize>)
    ensures
        place matches Some(at) ==> first_with_key(processes@, key) == Some(at as int),
        place is None ==> first_with_key(processes@, key) is None,
        place is Some == is_live(processes@, key),
        place matches Some(at) ==> at < processes.len() && processes@[at as int].key == key,
{
    let mut at: usize = 0;
    proof {
        first_with_key_is_sound(processes@, key);
    }
    while at < processes.len()
        invariant
            at <= processes.len(),
            forall|i: int| 0 <= i < at ==> (#[trigger] processes@[i]).key != key,
            first_with_key(processes@, key) is Some == is_live(processes@, key),
            first_with_key(processes@, key) matches Some(p) ==> {
                &&& 0 <= p < processes@.len()
                &&& processes@[p].key == key
                &&& forall|i: int| 0 <= i < p ==> (#[trigger] processes@[i]).key != key
            },
        decreases processes.len() - at,
    {
        if processes[at].key == key {
            return Some(at);
        }
        at = at + 1;
    }
    None
}

} // verus!
