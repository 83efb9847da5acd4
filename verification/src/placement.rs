//! Keeping the placement journal in step with what processes show.
use vstd::prelude::*;

use crate::journal::copy_ids;
use crate::journal::ManagedPlacement;
use crate::journal::PlacementView;
use crate::observed::find_process;
use crate::observed::LlcDomainKey;
use crate::observed::ObservedProcess;
use crate::process::KeyMap;
use crate::process::ProcessKey;

verus! {

/// Whether two lists of processor sets are the same.
pub fn same_ids(a: &Vec<u32>, b: &Vec<u32>) -> (same: bool)
    ensures
        same == (a@ == b@),
{
    if a.len() != b.len() {
        return false;
    }
    let mut at: usize = 0;
    while at < a.len()
        invariant
            at <= a.len(),
            a.len() == b.len(),
            forall|i: int| 0 <= i < at ==> a@[i] == b@[i],
        decreases a.len() - at,
    {
        if a[at] != b[at] {
            return false;
        }
        at = at + 1;
    }
    proof {
        assert(a@ =~= b@);
    }
    true
}

/// What stays of a placement: nothing when the process is gone or shows other
/// processor sets than were set. A placement without known processor sets
/// takes those that the process shows in the same domain.
pub open spec fn reconciled(placement: PlacementView, process: Option<ObservedProcess>) -> Option<
    PlacementView,
> {
    match process {
        None => None,
        Some(process) => {
            if placement.cpu_set_ids.len() == 0 {
                if process.current_domain == Some(placement.anchor_domain)
                    && process.default_cpu_set_ids@.len() > 0 {
                    Some(
                        PlacementView { cpu_set_ids: process.default_cpu_set_ids@, ..placement },
                    )
                } else {
                    None
                }
            } else if process.default_cpu_set_ids@ == placement.cpu_set_ids {
                Some(placement)
            } else {
                None
            }
        },
    }
}

/// The first observed process with a key.
pub open spec fn observed_as(processes: Seq<ObservedProcess>, key: ProcessKey) -> Option<
    ObservedProcess,
> {
    match crate::observed::first_with_key(processes, key) {
        Some(at) => Some(processes[at]),
        None => None,
    }
}

/// What is to be done once placements are reconciled.
#[derive(Debug)]
pub struct PlacementPlan {
    /// Whether the journal changed.
    pub changed: bool,
    /// The placements whose process has come to be excluded, to be cleared.
    pub excluded: Vec<ProcessKey>,
}

/// The placements that reconciling leaves of a map.
pub open spec fn reconciled_map(
    map: Map<ProcessKey, PlacementView>,
    processes: Seq<ObservedProcess>,
) -> Map<ProcessKey, PlacementView> {
    Map::new(
        |key: ProcessKey|
            map.dom().contains(key) && reconciled(map[key], observed_as(processes, key)) is Some,
        |key: ProcessKey| reconciled(map[key], observed_as(processes, key))->0,
    )
}

/// Whether the process of a key has come to be excluded.
pub open spec fn is_excluded(processes: Seq<ObservedProcess>, key: ProcessKey) -> bool {
    observed_as(processes, key) matches Some(process) && process.exclusion is Some
}

/// Reconciles one placement. The first result says whether it stays, the
/// second whether it changed.
fn reconcile_placement(
    placement: &ManagedPlacement,
    process: &ObservedProcess,
) -> (rest: Option<ManagedPlacement>)
    ensures
        rest is Some == reconciled(placement@, Some(*process)) is Some,
        rest matches Some(kept) ==> kept@ == reconciled(placement@, Some(*process))->0,
{
    if placement.cpu_set_ids.len() == 0 {
        let same_domain = match process.current_domain {
            Some(domain) => domain == placement.anchor_domain,
            None => false,
        };
        if same_domain && process.default_cpu_set_ids.len() > 0 {
            let kept = ManagedPlacement {
                anchor_domain: placement.anchor_domain,
                cpu_set_ids: copy_ids(&process.default_cpu_set_ids),
            };
            proof {
                assert(kept@ =~= reconciled(placement@, Some(*process))->0);
            }
            Some(kept)
        } else {
            None
        }
    } else if same_ids(&process.default_cpu_set_ids, &placement.cpu_set_ids) {
        let kept = ManagedPlacement {
            anchor_domain: placement.anchor_domain,
            cpu_set_ids: copy_ids(&placement.cpu_set_ids),
        };
        proof {
            assert(kept@ =~= placement@);
        }
        Some(kept)
    } else {
        None
    }
}

/// Drops the placements that no longer hold, completes those whose processor
/// sets were not known, and lists those whose process is excluded.
pub fn reconcile_managed(
    managed: &mut KeyMap<ManagedPlacement>,
    processes: &Vec<ObservedProcess>,
) -> (plan: PlacementPlan)
    requires
        old(managed).wf(),
    ensures
        final(managed).wf(),
        crate::journal::placements(final(managed)@) == reconciled_map(
            crate::journal::placements(old(managed)@),
            processes@,
        ),
        plan.changed == (crate::journal::placements(final(managed)@)
            != crate::journal::placements(old(managed)@)),
        forall|key: ProcessKey| #[trigger]
            plan.excluded@.contains(key) <==> final(managed)@.dom().contains(key) && is_excluded(
                processes@,
                key,
            ),
        plan.excluded@.no_duplicates(),
        forall|i: int, j: int|
            0 <= i < j < plan.excluded.len() ==> (#[trigger] plan.excluded@[i]).before(
                #[trigger] plan.excluded@[j],
            ),
{
    let ghost before = managed@;
    let ghost seen = crate::journal::placements(managed@);
    let ghost items = managed.items();
    let mut rest: KeyMap<ManagedPlacement> = KeyMap::new();
    let mut changed = false;
    let mut excluded: Vec<ProcessKey> = Vec::new();
    let mut at: usize = 0;
    proof {
        managed.items_are_the_map();
    }
    while at < managed.len()
        invariant
            at <= items.len(),
            items == managed.items(),
            managed.wf(),
            managed@ == before,
            seen == crate::journal::placements(before),
            rest.wf(),
            crate::process::in_key_order(items),
            forall|i: int|
                0 <= i < items.len() ==> before.dom().contains((#[trigger] items[i]).0)
                    && before[items[i].0] == items[i].1,
            forall|key: ProcessKey| #[trigger]
                rest@.dom().contains(key) ==> reconciled_map(seen, processes@).dom().contains(key)
                    && rest@[key]@ == reconciled_map(seen, processes@)[key],
            forall|key: ProcessKey| #[trigger]
                rest@.dom().contains(key) ==> exists|i: int|
                    0 <= i < at && (#[trigger] items[i]).0 == key,
            forall|i: int|
                0 <= i < at && reconciled_map(seen, processes@).dom().contains(
                    (#[trigger] items[i]).0,
                ) ==> rest@.dom().contains(items[i].0),
            changed == exists|i: int|
                0 <= i < at && differs(seen, processes@, (#[trigger] items[i]).0),
            forall|key: ProcessKey| #[trigger]
                excluded@.contains(key) <==> rest@.dom().contains(key) && is_excluded(
                    processes@,
                    key,
                ),
            forall|i: int, j: int|
                0 <= i < j < excluded.len() ==> (#[trigger] excluded@[i]).before(
                    #[trigger] excluded@[j],
                ),
        decreases items.len() - at,
    {
        let key = managed.key_at(at);
        let placement = managed.value_at(at);
        let ghost listed = excluded@;
        let ghost kept_before = rest@;
        proof {
            assert(items[at as int].0 == key);
            assert(seen[key] == placement@);
            assert forall|i: int| 0 <= i < at implies (#[trigger] items[i]).0 != key by {
                assert(items[i].0.before(items[at as int].0));
            }
        }
        match find_process(processes, key) {
            None => {
                changed = true;
                proof {
                    assert(differs(seen, processes@, items[at as int].0));
                }
            },
            Some(place) => {
                let process = &processes[place];
                match reconcile_placement(placement, process) {
                    None => {
                        changed = true;
                        proof {
                            assert(differs(seen, processes@, items[at as int].0));
                        }
                    },
                    Some(kept) => {
                        if placement.cpu_set_ids.len() == 0 {
                            changed = true;
                            proof {
                                assert(kept@ != placement@);
                                assert(differs(seen, processes@, items[at as int].0));
                            }
                        } else {
                            proof {
                                assert(!differs(seen, processes@, items[at as int].0));
                            }
                        }
                        rest.insert(key, kept);
                        if process.exclusion.is_some() {
                            excluded.push(key);
                            proof {
                                assert forall|i: int| 0 <= i < listed.len() implies (
                                #[trigger] listed[i]).before(key) by {
                                    assert(listed.contains(listed[i]));
                                    assert(kept_before.dom().contains(listed[i]));
                                    let k = choose|k: int|
                                        0 <= k < at && (#[trigger] items[k]).0 == listed[i];
                                    assert(items[k].0.before(items[at as int].0));
                                }
                                assert(excluded@[listed.len() as int] == key);
                                assert forall|k: ProcessKey| #[trigger]
                                    excluded@.contains(k) <==> listed.contains(k) || k == key by {
                                    if listed.contains(k) {
                                        let i = choose|i: int|
                                            0 <= i < listed.len() && listed[i] == k;
                                        assert(excluded@[i] == k);
                                    }
                                }
                            }
                        }
                    },
                }
            },
        }
        at = at + 1;
    }
    proof {
        assert forall|key: ProcessKey| #[trigger]
            reconciled_map(seen, processes@).dom().contains(key) implies rest@.dom().contains(
            key,
        ) by {
            assert(before.dom().contains(key));
            assert(crate::process::has_key(items, key));
            let i = crate::process::place_of(items, key);
            assert(items[i].0 == key);
        }
        assert(crate::journal::placements(rest@) =~= reconciled_map(seen, processes@));
        if changed {
            let i = choose|i: int|
                0 <= i < items.len() && differs(seen, processes@, (#[trigger] items[i]).0);
            let key = items[i].0;
            assert(seen.dom().contains(key));
            if reconciled_map(seen, processes@).dom().contains(key) {
                assert(reconciled_map(seen, processes@)[key] != seen[key]);
            }
        } else {
            assert forall|key: ProcessKey| #[trigger] seen.dom().contains(key) implies
                reconciled_map(seen, processes@).dom().contains(key) && reconciled_map(
                seen,
                processes@,
            )[key] == seen[key] by {
                assert(crate::process::has_key(items, key));
                let i = crate::process::place_of(items, key);
                assert(items[i].0 == key);
                assert(!differs(seen, processes@, items[i].0));
            }
            assert(reconciled_map(seen, processes@) =~= seen);
        }
    }
    proof {
        assert forall|i: int, j: int|
            0 <= i < excluded.len() && 0 <= j < excluded.len() && i != j implies excluded@[i]
            != excluded@[j] by {
            if i < j {
                assert(excluded@[i].before(excluded@[j]));
            } else {
                assert(excluded@[j].before(excluded@[i]));
            }
        }
    }
    *managed = rest;
    PlacementPlan { changed, excluded }
}

/// Whether reconciling changes or drops the placement of a key.
spec fn differs(
    map: Map<ProcessKey, PlacementView>,
    processes: Seq<ObservedProcess>,
    key: ProcessKey,
) -> bool {
    reconciled(map[key], observed_as(processes, key)) != Some(map[key])
}

/// Drops the excluded placements that were cleared, or whose process was
/// gone. Returns whether there were any.
pub fn finish_exclusions(
    managed: &mut KeyMap<ManagedPlacement>,
    excluded: &Vec<ProcessKey>,
    cleared: &Vec<bool>,
) -> (changed: bool)
    requires
        old(managed).wf(),
        excluded.len() == cleared.len(),
    ensures
        final(managed).wf(),
        final(managed)@ == without_cleared(old(managed)@, excluded@, cleared@, excluded@.len()),
        changed == exists|i: int| 0 <= i < cleared.len() && #[trigger] cleared@[i],
{
    let ghost before = managed@;
    let mut changed = false;
    let mut at: usize = 0;
    while at < excluded.len()
        invariant
            at <= excluded.len(),
            excluded.len() == cleared.len(),
            managed.wf(),
            managed@ == without_cleared(before, excluded@, cleared@, at as nat),
            changed == exists|i: int| 0 <= i < at && #[trigger] cleared@[i],
        decreases excluded.len() - at,
    {
        proof {
            reveal_with_fuel(without_cleared, 2);
        }
        if cleared[at] {
            managed.remove(excluded[at]);
            changed = true;
        }
        at = at + 1;
    }
    changed
}

/// A map without the first `n` keys that were cleared.
pub open spec fn without_cleared<V>(
    map: Map<ProcessKey, V>,
    keys: Seq<ProcessKey>,
    cleared: Seq<bool>,
    n: nat,
) -> Map<ProcessKey, V>
    decreases n,
{
    if n == 0 {
        map
    } else {
        let rest = without_cleared(map, keys, cleared, (n - 1) as nat);
        if cleared[n - 1] {
            rest.remove(keys[n - 1])
        } else {
            rest
        }
    }
}

/// Records that a placement was set, or with no target that it was cleared.
/// `observed` holds the processor sets that the process then showed; without
/// it the attempt failed. Returns whether the journal has to be written.
pub fn record_enforcement(
    managed: &mut KeyMap<ManagedPlacement>,
    process: ProcessKey,
    target: Option<LlcDomainKey>,
    observed: Option<Vec<u32>>,
) -> (save: bool)
    requires
        old(managed).wf(),
    ensures
        final(managed).wf(),
        save == observed is Some,
        observed is None ==> final(managed)@ == old(managed)@,
        observed matches Some(ids) ==> (match target {
            Some(domain) => final(managed)@ == old(managed)@.insert(
                process,
                (ManagedPlacement { anchor_domain: domain, cpu_set_ids: ids }),
            ),
            None => final(managed)@ == old(managed)@.remove(process),
        }),
        crate::journal::placements(final(managed)@) == enforced(
            crate::journal::placements(old(managed)@),
            process,
            target,
            match observed {
                Some(ids) => Some(ids@),
                None => None,
            },
        ),
{
    match observed {
        None => false,
        Some(ids) => {
            match target {
                Some(domain) => {
                    managed.insert(
                        process,
                        ManagedPlacement { anchor_domain: domain, cpu_set_ids: ids },
                    );
                },
                None => {
                    managed.remove(process);
                },
            }
            true
        },
    }
}

/// Takes a placement back whose journal could not be written. Returns whether
/// the processor sets of the process have to be cleared.
pub fn withdraw_enforcement(
    managed: &mut KeyMap<ManagedPlacement>,
    process: ProcessKey,
    target: Option<LlcDomainKey>,
) -> (clear: bool)
    requires
        old(managed).wf(),
    ensures
        final(managed).wf(),
        clear == target is Some,
        final(managed)@ == if target is Some {
            old(managed)@.remove(process)
        } else {
            old(managed)@
        },
        crate::journal::placements(final(managed)@) == withdrawn(
            crate::journal::placements(old(managed)@),
            process,
            target,
        ),
{
    if target.is_some() {
        managed.remove(process);
        true
    } else {
        false
    }
}

/// A placement that something else changed is forgotten, never restored.
pub proof fn foreign_placements_are_forgotten(
    placement: PlacementView,
    process: ObservedProcess,
)
    requires
        placement.cpu_set_ids.len() > 0,
        process.default_cpu_set_ids@ != placement.cpu_set_ids,
    ensures
        reconciled(placement, Some(process)) is None,
{
}

/// Reconciling twice against the same processes changes nothing more.
pub proof fn reconciling_is_idempotent(
    map: Map<ProcessKey, PlacementView>,
    processes: Seq<ObservedProcess>,
)
    ensures
        reconciled_map(reconciled_map(map, processes), processes) == reconciled_map(
            map,
            processes,
        ),
{
    let once = reconciled_map(map, processes);
    assert(reconciled_map(once, processes) =~= once);
}

/// A placement holds while its process runs and shows the processor sets that
/// were set. One whose processor sets are not known takes those that the
/// process shows, where it shows any in the domain of the placement. Nothing
/// else holds, and no placement changes its domain.
pub proof fn placements_hold_while_they_show(
    placement: PlacementView,
    process: ObservedProcess,
)
    ensures
        ({
            let kept = reconciled(placement, Some(process));
            let shown = process.default_cpu_set_ids@;
            &&& reconciled(placement, None) is None
            &&& placement.cpu_set_ids.len() > 0 && shown == placement.cpu_set_ids ==> kept == Some(
                placement,
            )
            &&& placement.cpu_set_ids.len() == 0 && shown.len() > 0 && process.current_domain
                == Some(placement.anchor_domain) ==> (kept matches Some(rest) && rest.cpu_set_ids
                == shown)
            &&& kept matches Some(rest) ==> {
                &&& rest.anchor_domain == placement.anchor_domain
                &&& rest.cpu_set_ids == shown
                &&& rest.cpu_set_ids.len() > 0
                &&& placement.cpu_set_ids.len() > 0 ==> rest == placement
                &&& placement.cpu_set_ids.len() == 0 ==> process.current_domain == Some(
                    placement.anchor_domain,
                )
            }
        }),
{
}

/// The journal after a placement was set, or with no target cleared.
pub open spec fn enforced(
    map: Map<ProcessKey, PlacementView>,
    process: ProcessKey,
    target: Option<LlcDomainKey>,
    observed: Option<Seq<u32>>,
) -> Map<ProcessKey, PlacementView> {
    match observed {
        None => map,
        Some(ids) => match target {
            Some(domain) => map.insert(
                process,
                PlacementView { anchor_domain: domain, cpu_set_ids: ids },
            ),
            None => map.remove(process),
        },
    }
}

/// The journal after a placement was taken back.
pub open spec fn withdrawn(
    map: Map<ProcessKey, PlacementView>,
    process: ProcessKey,
    target: Option<LlcDomainKey>,
) -> Map<ProcessKey, PlacementView> {
    if target is Some {
        map.remove(process)
    } else {
        map
    }
}

/// A placement that was set is in the journal with its domain and what the
/// process showed; one that was cleared is not, and an attempt that failed
/// changes nothing. No other process is touched.
pub proof fn enforced_placements_are_recorded(
    map: Map<ProcessKey, PlacementView>,
    process: ProcessKey,
    domain: LlcDomainKey,
    ids: Seq<u32>,
    other: ProcessKey,
)
    ensures
        ({
            let set = enforced(map, process, Some(domain), Some(ids));
            let cleared = enforced(map, process, None, Some(ids));
            &&& set.dom().contains(process)
            &&& set[process].anchor_domain == domain
            &&& set[process].cpu_set_ids == ids
            &&& !cleared.dom().contains(process)
            &&& enforced(map, process, Some(domain), None) == map
            &&& enforced(map, process, None, None) == map
            &&& other != process ==> {
                &&& set.dom().contains(other) <==> map.dom().contains(other)
                &&& cleared.dom().contains(other) <==> map.dom().contains(other)
                &&& map.dom().contains(other) ==> set[other] == map[other] && cleared[other]
                    == map[other]
            }
        }),
{
}

/// Taking back a placement that could not be written leaves the process
/// unplaced in the journal; where it had no placement before, everything is as
/// it was. A clearing that could not be written stays cleared.
pub proof fn withdrawn_placements_are_gone(
    map: Map<ProcessKey, PlacementView>,
    process: ProcessKey,
    domain: LlcDomainKey,
    ids: Seq<u32>,
)
    ensures
        !withdrawn(
            enforced(map, process, Some(domain), Some(ids)),
            process,
            Some(domain),
        ).dom().contains(process),
        !map.dom().contains(process) ==> withdrawn(
            enforced(map, process, Some(domain), Some(ids)),
            process,
            Some(domain),
        ) == map,
        withdrawn(enforced(map, process, None, Some(ids)), process, None) == enforced(
            map,
            process,
            None,
            Some(ids),
        ),
{
    if !map.dom().contains(process) {
        assert(withdrawn(
            enforced(map, process, Some(domain), Some(ids)),
            process,
            Some(domain),
        ) =~= map);
    }
}

/// What was cleared goes, and nothing else does.
pub proof fn only_cleared_placements_go<V>(
    map: Map<ProcessKey, V>,
    keys: Seq<ProcessKey>,
    cleared: Seq<bool>,
    n: nat,
    key: ProcessKey,
)
    requires
        n <= keys.len(),
        n <= cleared.len(),
    ensures
        without_cleared(map, keys, cleared, n).dom().contains(key) <==> map.dom().contains(key)
            && !(exists|i: int| 0 <= i < n && cleared[i] && #[trigger] keys[i] == key),
        without_cleared(map, keys, cleared, n).dom().contains(key) ==> without_cleared(
            map,
            keys,
            cleared,
            n,
        )[key] == map[key],
    decreases n,
{
    if n > 0 {
        only_cleared_placements_go(map, keys, cleared, (n - 1) as nat, key);
        if cleared[n - 1] && keys[n - 1] == key {
        } else if exists|i: int| 0 <= i < n && cleared[i] && #[trigger] keys[i] == key {
            let i = choose|i: int| 0 <= i < n && cleared[i] && #[trigger] keys[i] == key;
            assert(i < n - 1);
        }
    }
}

/// A placement is cleared for an exclusion exactly where its process is
/// observed and excluded.
pub proof fn exclusions_are_those_observed(
    processes: Seq<ObservedProcess>,
    key: ProcessKey,
    i: int,
)
    ensures
        is_excluded(processes, key) ==> crate::observed::is_live(processes, key),
        0 <= i < processes.len() && processes[i].key == key && (forall|j: int|
            0 <= j < i ==> (#[trigger] processes[j]).key != key) ==> is_excluded(processes, key)
            == (processes[i].exclusion is Some),
{
    crate::observed::first_with_key_is_sound(processes, key);
}

} // verus!
