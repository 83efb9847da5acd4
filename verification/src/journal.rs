//! Reading the journals that remember what has to be given back.
use vstd::prelude::*;

use crate::efficiency::ManagedBackgroundProcess;
use crate::efficiency::ProcessEfficiencyOwnership;
use crate::efficiency::ProcessEfficiencyState;
use crate::observed::LlcDomainKey;
use crate::process::KeyMap;
use crate::process::ProcessKey;

verus! {

pub const LEGACY_STATE_SCHEMA_VERSION: u32 = 1;

pub const STATE_SCHEMA_VERSION: u32 = 2;

pub const BACKGROUND_STATE_SCHEMA_VERSION: u32 = 2;

/// Why a journal is not accepted.
#[derive(Debug, Clone, Copy, PartialEq, Eq, Structural)]
pub enum JournalError {
    StateSchema(u32),
    PendingWithoutItsOwnership,
    PendingWithoutOwnership,
    OwnedAndBlocked,
    PendingAndBlocked,
}

/// How a journal of some version is to be read.
#[derive(Debug, Clone, Copy, PartialEq, Eq, Structural)]
pub enum JournalFormat {
    Legacy,
    Current,
}

/// A background record of the first journal version.
#[derive(Debug, Clone, Copy, PartialEq, Eq, Structural)]
pub struct LegacyManagedBackgroundProcess {
    pub key: ProcessKey,
    pub original: ProcessEfficiencyState,
    pub applied: ProcessEfficiencyState,
    pub pending: Option<ProcessEfficiencyState>,
    pub blocked_by_external_override: bool,
}

/// A placement record of the first journal version.
#[derive(Debug, Clone, Copy, PartialEq, Eq, Structural)]
pub struct LegacyManagedProcess {
    pub key: ProcessKey,
    pub domain: LlcDomainKey,
}

/// Where a process was placed.
#[derive(Debug)]
pub struct ManagedPlacement {
    pub anchor_domain: LlcDomainKey,
    pub cpu_set_ids: Vec<u32>,
}

/// A placement record.
#[derive(Debug)]
pub struct ManagedProcess {
    pub key: ProcessKey,
    pub placement: ManagedPlacement,
}

/// The records of a background journal in either version.
#[derive(Debug)]
pub enum BackgroundDocument {
    Legacy(Vec<LegacyManagedBackgroundProcess>),
    Current(Vec<ManagedBackgroundProcess>),
}

/// The records of a placement journal in either version.
#[derive(Debug)]
pub enum ManagedDocument {
    Legacy(Vec<LegacyManagedProcess>),
    Current(Vec<ManagedProcess>),
}

impl JournalError {
    /// The words for this error.
    pub open spec fn words(self) -> Seq<char> {
        match self {
            JournalError::StateSchema(version) => "unsupported managed-state schema "@
                + crate::text::decimal(version as nat),
            JournalError::PendingWithoutItsOwnership =>
                "invalid background-state journal: pending state and pending ownership must appear together"@,
            JournalError::PendingWithoutOwnership =>
                "invalid background-state journal: pending transaction has an empty ownership mask"@,
            JournalError::OwnedAndBlocked =>
                "invalid background-state journal: owned and externally blocked properties overlap"@,
            JournalError::PendingAndBlocked =>
                "invalid background-state journal: pending ownership includes an externally blocked property"@,
        }
    }

    /// Describes the error.
    pub fn message(&self) -> (text: String)
        ensures
            text@ == self.words(),
    {
        match self {
            JournalError::StateSchema(version) => {
                let mut text = "unsupported managed-state schema ".to_owned();
                crate::text::push_decimal(&mut text, *version as u64);
                text
            },
            JournalError::PendingWithoutItsOwnership =>
                "invalid background-state journal: pending state and pending ownership must appear together".to_owned(),
            JournalError::PendingWithoutOwnership =>
                "invalid background-state journal: pending transaction has an empty ownership mask".to_owned(),
            JournalError::OwnedAndBlocked =>
                "invalid background-state journal: owned and externally blocked properties overlap".to_owned(),
            JournalError::PendingAndBlocked =>
                "invalid background-state journal: pending ownership includes an externally blocked property".to_owned(),
        }
    }
}

/// How a journal of a version is to be read: the first version and the
/// present one are known.
pub open spec fn format_of(schema_version: u32) -> Result<JournalFormat, JournalError> {
    if schema_version == LEGACY_STATE_SCHEMA_VERSION {
        Ok(JournalFormat::Legacy)
    } else if schema_version == STATE_SCHEMA_VERSION {
        Ok(JournalFormat::Current)
    } else {
        Err(JournalError::StateSchema(schema_version))
    }
}

/// Decides how a journal is to be read, whether of placements or of
/// background policies.
pub fn journal_format(schema_version: u32) -> (format: Result<JournalFormat, JournalError>)
    ensures
        format == format_of(schema_version),
{
    if schema_version == LEGACY_STATE_SCHEMA_VERSION {
        Ok(JournalFormat::Legacy)
    } else if schema_version == STATE_SCHEMA_VERSION {
        Ok(JournalFormat::Current)
    } else {
        Err(JournalError::StateSchema(schema_version))
    }
}

/// The first thing wrong with a background record.
pub open spec fn record_fault(record: ManagedBackgroundProcess) -> Option<JournalError> {
    if record.pending is Some != record.pending_ownership is Some {
        Some(JournalError::PendingWithoutItsOwnership)
    } else if record.pending is Some && record.ownership.is_empty() {
        Some(JournalError::PendingWithoutOwnership)
    } else if !record.ownership.intersection(record.blocked_by_external_override).is_empty() {
        Some(JournalError::OwnedAndBlocked)
    } else if record.pending_ownership is Some && !(record.pending_ownership->0).intersection(
        record.blocked_by_external_override,
    ).is_empty() {
        Some(JournalError::PendingAndBlocked)
    } else {
        None
    }
}

/// The first thing wrong with the first faulty record.
pub open spec fn first_fault(records: Seq<ManagedBackgroundProcess>) -> Option<JournalError>
    decreases records.len(),
{
    if records.len() == 0 {
        None
    } else {
        match first_fault(records.drop_last()) {
            Some(fault) => Some(fault),
            None => record_fault(records.last()),
        }
    }
}

/// The records by their keys; of two with one key the later one counts.
pub open spec fn background_map(records: Seq<ManagedBackgroundProcess>) -> Map<
    ProcessKey,
    ManagedBackgroundProcess,
>
    decreases records.len(),
{
    if records.len() == 0 {
        Map::empty()
    } else {
        background_map(records.drop_last()).insert(records.last().key, records.last())
    }
}

/// A record of the first version with its properties told apart: what differs
/// from the original is owned, unless something else changed it.
pub open spec fn migrated(process: LegacyManagedBackgroundProcess) -> ManagedBackgroundProcess {
    if process.blocked_by_external_override {
        ManagedBackgroundProcess {
            key: process.key,
            original: process.original,
            applied: process.applied,
            ownership: crate::efficiency::no_property(),
            pending: None,
            pending_ownership: None,
            blocked_by_external_override: crate::efficiency::every_property(),
        }
    } else {
        let pending_ownership = match process.pending {
            Some(pending) => Some(
                ProcessEfficiencyOwnership::between(process.original, pending),
            ),
            None => None,
        };
        ManagedBackgroundProcess {
            key: process.key,
            original: process.original,
            applied: process.applied,
            ownership: ProcessEfficiencyOwnership::between(
                process.original,
                process.applied,
            ).union(
                match pending_ownership {
                    Some(ownership) => ownership,
                    None => crate::efficiency::no_property(),
                },
            ),
            pending: process.pending,
            pending_ownership,
            blocked_by_external_override: crate::efficiency::no_property(),
        }
    }
}

/// Brings a record of the first version into the present one.
pub fn migrate_background_record(process: &LegacyManagedBackgroundProcess) -> (record:
    ManagedBackgroundProcess)
    ensures
        record == migrated(*process),
{
    let none = ProcessEfficiencyOwnership { eco_qos: false, memory_priority: false };
    let pending = if process.blocked_by_external_override {
        None
    } else {
        process.pending
    };
    let pending_ownership = match pending {
        Some(state) => Some(ProcessEfficiencyOwnership::between(process.original, state)),
        None => None,
    };
    let ownership = if process.blocked_by_external_override {
        none
    } else {
        ProcessEfficiencyOwnership::between(process.original, process.applied).union(
            match pending_ownership {
                Some(ownership) => ownership,
                None => none,
            },
        )
    };
    let blocked_by_external_override = ProcessEfficiencyOwnership {
        eco_qos: process.blocked_by_external_override,
        memory_priority: process.blocked_by_external_override,
    };
    ManagedBackgroundProcess {
        key: process.key,
        original: process.original,
        applied: process.applied,
        ownership,
        pending,
        pending_ownership,
        blocked_by_external_override,
    }
}

/// The records of a document, brought into the present version.
pub open spec fn document_records(document: BackgroundDocument) -> Seq<ManagedBackgroundProcess> {
    match document {
        BackgroundDocument::Legacy(processes) => processes@.map_values(
            |process: LegacyManagedBackgroundProcess| migrated(process),
        ),
        BackgroundDocument::Current(processes) => processes@,
    }
}

/// What is wrong with a document; records of the first version are taken as
/// they are.
pub open spec fn document_fault(document: BackgroundDocument) -> Option<JournalError> {
    match document {
        BackgroundDocument::Legacy(_) => None,
        BackgroundDocument::Current(processes) => first_fault(processes@),
    }
}

fn check_record(record: &ManagedBackgroundProcess) -> (fault: Option<JournalError>)
    ensures
        fault == record_fault(*record),
{
    if record.pending.is_some() != record.pending_ownership.is_some() {
        return Some(JournalError::PendingWithoutItsOwnership);
    }
    if record.pending.is_some() && record.ownership.is_empty() {
        return Some(JournalError::PendingWithoutOwnership);
    }
    if !record.ownership.intersection(record.blocked_by_external_override).is_empty() {
        return Some(JournalError::OwnedAndBlocked);
    }
    if let Some(pending) = record.pending_ownership {
        if !pending.intersection(record.blocked_by_external_override).is_empty() {
            return Some(JournalError::PendingAndBlocked);
        }
    }
    None
}

/// Reads a background journal. A missing one holds nothing.
pub fn load_background_state(document: Option<BackgroundDocument>) -> (loaded: Result<
    KeyMap<ManagedBackgroundProcess>,
    JournalError,
>)
    ensures
        match document {
            None => loaded matches Ok(journal) && journal.wf() && journal@ == Map::<
                ProcessKey,
                ManagedBackgroundProcess,
            >::empty(),
            Some(document) => match document_fault(document) {
                Some(fault) => loaded == Err::<KeyMap<ManagedBackgroundProcess>, _>(fault),
                None => loaded matches Ok(journal) && journal.wf() && journal@ == background_map(
                    document_records(document),
                ),
            },
        },
{
    let mut journal: KeyMap<ManagedBackgroundProcess> = KeyMap::new();
    match document {
        None => {},
        Some(BackgroundDocument::Legacy(processes)) => {
            let ghost records = processes@.map_values(
                |process: LegacyManagedBackgroundProcess| migrated(process),
            );
            let mut at: usize = 0;
            while at < processes.len()
                invariant
                    at <= processes.len(),
                    journal.wf(),
                    records == processes@.map_values(
                        |process: LegacyManagedBackgroundProcess| migrated(process),
                    ),
                    journal@ == background_map(records.take(at as int)),
                decreases processes.len() - at,
            {
                let record = migrate_background_record(&processes[at]);
                journal.insert(record.key, record);
                proof {
                    assert(records.take(at + 1).drop_last() =~= records.take(at as int));
                }
                at = at + 1;
            }
            proof {
                assert(records.take(at as int) =~= records);
            }
        },
        Some(BackgroundDocument::Current(processes)) => {
            let mut at: usize = 0;
            while at < processes.len()
                invariant
                    at <= processes.len(),
                    document == Some(BackgroundDocument::Current(processes)),
                    first_fault(processes@.take(at as int)) is None,
                decreases processes.len() - at,
            {
                proof {
                    assert(processes@.take(at + 1).drop_last() =~= processes@.take(at as int));
                }
                if let Some(fault) = check_record(&processes[at]) {
                    proof {
                        first_fault_of_a_prefix(processes@, at + 1);
                    }
                    return Err(fault);
                }
                at = at + 1;
            }
            proof {
                assert(processes@.take(at as int) =~= processes@);
            }
            let mut from: usize = 0;
            while from < processes.len()
                invariant
                    from <= processes.len(),
                    journal.wf(),
                    journal@ == background_map(processes@.take(from as int)),
                decreases processes.len() - from,
            {
                journal.insert(processes[from].key, processes[from]);
                proof {
                    assert(processes@.take(from + 1).drop_last() =~= processes@.take(from as int));
                }
                from = from + 1;
            }
        },
    }
    Ok(journal)
}

proof fn first_fault_of_a_prefix(records: Seq<ManagedBackgroundProcess>, n: int)
    requires
        0 <= n <= records.len(),
        first_fault(records.take(n)) is Some,
    ensures
        first_fault(records) == first_fault(records.take(n)),
    decreases records.len() - n,
{
    if n == records.len() {
        assert(records.take(n) =~= records);
    } else {
        assert(records.take(n + 1).drop_last() =~= records.take(n));
        first_fault_of_a_prefix(records, n + 1);
    }
}

/// The records that a journal is written with, in key order.
pub fn background_records(journal: &KeyMap<ManagedBackgroundProcess>) -> (records: Vec<
    ManagedBackgroundProcess,
>)
    ensures
        records@ == journal.items().map_values(
            |item: (ProcessKey, ManagedBackgroundProcess)| item.1,
        ),
{
    let mut records: Vec<ManagedBackgroundProcess> = Vec::new();
    let ghost all = journal.items().map_values(
        |item: (ProcessKey, ManagedBackgroundProcess)| item.1,
    );
    let mut at: usize = 0;
    while at < journal.len()
        invariant
            at <= journal.items().len(),
            all == journal.items().map_values(
                |item: (ProcessKey, ManagedBackgroundProcess)| item.1,
            ),
            records@ == all.take(at as int),
        decreases journal.items().len() - at,
    {
        records.push(*journal.value_at(at));
        at = at + 1;
    }
    proof {
        assert(all.take(at as int) =~= all);
    }
    records
}

/// Every record stands under its own key and is valid.
pub open spec fn sound_journal(journal: Map<ProcessKey, ManagedBackgroundProcess>) -> bool {
    forall|key: ProcessKey| #[trigger]
        journal.dom().contains(key) ==> journal[key].key == key && journal[key].valid()
}

/// A record is accepted exactly when it is valid.
pub proof fn valid_records_are_accepted(record: ManagedBackgroundProcess)
    ensures
        record_fault(record) is None <==> record.valid(),
{
}

/// What is read from an accepted journal is sound.
pub proof fn accepted_journals_are_sound(records: Seq<ManagedBackgroundProcess>)
    requires
        first_fault(records) is None,
    ensures
        sound_journal(background_map(records)),
    decreases records.len(),
{
    if records.len() > 0 {
        accepted_journals_are_sound(records.drop_last());
        valid_records_are_accepted(records.last());
    }
}

/// A record of the first version becomes a valid one, except where it
/// announces a change that changes nothing of a process with nothing changed.
pub proof fn migrated_records_are_valid(process: LegacyManagedBackgroundProcess)
    requires
        process.pending == Some(process.original) ==> process.blocked_by_external_override
            || process.applied != process.original,
    ensures
        migrated(process).valid(),
        migrated(process).key == process.key,
{
}

/// A sound journal reads back as it was written.
pub proof fn background_journals_round_trip(journal: KeyMap<ManagedBackgroundProcess>)
    requires
        journal.wf(),
        sound_journal(journal@),
    ensures
        first_fault(
            journal.items().map_values(|item: (ProcessKey, ManagedBackgroundProcess)| item.1),
        ) is None,
        background_map(
            journal.items().map_values(|item: (ProcessKey, ManagedBackgroundProcess)| item.1),
        ) == journal@,
{
    let items = journal.items();
    let records = items.map_values(|item: (ProcessKey, ManagedBackgroundProcess)| item.1);
    journal.items_are_the_map();
    assert forall|i: int| 0 <= i < records.len() implies (#[trigger] records[i]).key == items[i].0
        && records[i].valid() by {
        assert(journal@.dom().contains(items[i].0));
    }
    written_records_have_no_fault(records);
    written_records_map_back(items, records);
    crate::process::ordered_entries_collect(items);
}

proof fn written_records_have_no_fault(records: Seq<ManagedBackgroundProcess>)
    requires
        forall|i: int| 0 <= i < records.len() ==> (#[trigger] records[i]).valid(),
    ensures
        first_fault(records) is None,
    decreases records.len(),
{
    if records.len() > 0 {
        let front = records.drop_last();
        assert forall|i: int| 0 <= i < front.len() implies (#[trigger] front[i]).valid() by {
            assert(front[i] == records[i]);
        }
        written_records_have_no_fault(front);
        valid_records_are_accepted(records.last());
    }
}

proof fn written_records_map_back(
    items: Seq<(ProcessKey, ManagedBackgroundProcess)>,
    records: Seq<ManagedBackgroundProcess>,
)
    requires
        items.len() == records.len(),
        forall|i: int|
            0 <= i < records.len() ==> (#[trigger] records[i]).key == items[i].0 && records[i]
                == items[i].1,
    ensures
        background_map(records) == crate::process::collected(items),
    decreases records.len(),
{
    if records.len() > 0 {
        let front = items.drop_last();
        let fewer = records.drop_last();
        assert forall|i: int| 0 <= i < fewer.len() implies (#[trigger] fewer[i]).key == front[i].0
            && fewer[i] == front[i].1 by {
            assert(fewer[i] == records[i]);
        }
        written_records_map_back(front, fewer);
        assert(records.last() == records[records.len() - 1]);
    }
}

/// Where a process was placed, with its processor sets as a sequence.
#[verifier::ext_equal]
pub struct PlacementView {
    pub anchor_domain: LlcDomainKey,
    pub cpu_set_ids: Seq<u32>,
}

impl View for ManagedPlacement {
    type V = PlacementView;

    open spec fn view(&self) -> PlacementView {
        PlacementView { anchor_domain: self.anchor_domain, cpu_set_ids: self.cpu_set_ids@ }
    }
}

/// The placements of a map.
pub open spec fn placements(map: Map<ProcessKey, ManagedPlacement>) -> Map<
    ProcessKey,
    PlacementView,
> {
    map.map_values(|placement: ManagedPlacement| placement@)
}

/// The entries of a placement document. The first version did not record the
/// processor sets.
pub open spec fn managed_entries(document: ManagedDocument) -> Seq<(ProcessKey, PlacementView)> {
    match document {
        ManagedDocument::Legacy(processes) => processes@.map_values(
            |process: LegacyManagedProcess|
                (
                    process.key,
                    PlacementView {
                        anchor_domain: process.domain,
                        cpu_set_ids: Seq::<u32>::empty(),
                    },
                ),
        ),
        ManagedDocument::Current(processes) => processes@.map_values(
            |process: ManagedProcess| (process.key, process.placement@),
        ),
    }
}

/// Copies a list of processor sets.
pub fn copy_ids(ids: &Vec<u32>) -> (copy: Vec<u32>)
    ensures
        copy@ == ids@,
{
    let mut copy: Vec<u32> = Vec::new();
    let mut at: usize = 0;
    while at < ids.len()
        invariant
            at <= ids.len(),
            copy@ == ids@.take(at as int),
        decreases ids.len() - at,
    {
        copy.push(ids[at]);
        at = at + 1;
    }
    proof {
        assert(ids@.take(at as int) =~= ids@);
    }
    copy
}

/// Reads a placement journal. A missing one holds nothing.
pub fn load_managed_state(document: &Option<ManagedDocument>) -> (managed: KeyMap<ManagedPlacement>)
    ensures
        managed.wf(),
        placements(managed@) == match *document {
            None => Map::<ProcessKey, PlacementView>::empty(),
            Some(document) => crate::process::collected(managed_entries(document)),
        },
{
    let mut managed: KeyMap<ManagedPlacement> = KeyMap::new();
    proof {
        assert(placements(managed@) =~= Map::<ProcessKey, PlacementView>::empty());
    }
    match document {
        None => {},
        Some(ManagedDocument::Legacy(processes)) => {
            let ghost entries = managed_entries(document->0);
            let mut at: usize = 0;
            while at < processes.len()
                invariant
                    at <= processes.len(),
                    managed.wf(),
                    document is Some,
                    document->0 == ManagedDocument::Legacy(*processes),
                    entries == managed_entries(document->0),
                    placements(managed@) == crate::process::collected(entries.take(at as int)),
                decreases processes.len() - at,
            {
                let ghost before = managed@;
                let placement = ManagedPlacement {
                    anchor_domain: processes[at].domain,
                    cpu_set_ids: Vec::new(),
                };
                let ghost seen = placement@;
                managed.insert(processes[at].key, placement);
                proof {
                    assert(entries.take(at + 1).drop_last() =~= entries.take(at as int));
                    assert(seen =~= entries[at as int].1);
                    assert(placements(managed@) =~= placements(before).insert(
                        processes@[at as int].key,
                        seen,
                    ));
                }
                at = at + 1;
            }
            proof {
                assert(entries.take(at as int) =~= entries);
            }
        },
        Some(ManagedDocument::Current(processes)) => {
            let ghost entries = managed_entries(document->0);
            let mut at: usize = 0;
            while at < processes.len()
                invariant
                    at <= processes.len(),
                    managed.wf(),
                    document is Some,
                    document->0 == ManagedDocument::Current(*processes),
                    entries == managed_entries(document->0),
                    placements(managed@) == crate::process::collected(entries.take(at as int)),
                decreases processes.len() - at,
            {
                let ghost before = managed@;
                let placement = ManagedPlacement {
                    anchor_domain: processes[at].placement.anchor_domain,
                    cpu_set_ids: copy_ids(&processes[at].placement.cpu_set_ids),
                };
                let ghost seen = placement@;
                managed.insert(processes[at].key, placement);
                proof {
                    assert(entries.take(at + 1).drop_last() =~= entries.take(at as int));
                    assert(seen =~= entries[at as int].1);
                    assert(placements(managed@) =~= placements(before).insert(
                        processes@[at as int].key,
                        seen,
                    ));
                }
                at = at + 1;
            }
            proof {
                assert(entries.take(at as int) =~= entries);
            }
        },
    }
    managed
}

/// The records that a placement journal is written with, in key order.
pub fn managed_records(managed: &KeyMap<ManagedPlacement>) -> (records: Vec<ManagedProcess>)
    ensures
        managed_entries(ManagedDocument::Current(records)) == managed.items().map_values(
            |item: (ProcessKey, ManagedPlacement)| (item.0, item.1@),
        ),
{
    let mut records: Vec<ManagedProcess> = Vec::new();
    let ghost all = managed.items().map_values(
        |item: (ProcessKey, ManagedPlacement)| (item.0, item.1@),
    );
    let mut at: usize = 0;
    while at < managed.len()
        invariant
            at <= managed.items().len(),
            all == managed.items().map_values(
                |item: (ProcessKey, ManagedPlacement)| (item.0, item.1@),
            ),
            records@.len() == at,
            forall|i: int|
                0 <= i < at ==> ((#[trigger] records@[i]).key, records@[i].placement@) == all[i],
        decreases managed.items().len() - at,
    {
        let placement = managed.value_at(at);
        let ghost copied = *placement;
        let copy = ManagedPlacement {
            anchor_domain: placement.anchor_domain,
            cpu_set_ids: copy_ids(&placement.cpu_set_ids),
        };
        proof {
            assert(copy@ =~= copied@);
        }
        records.push(ManagedProcess { key: managed.key_at(at), placement: copy });
        at = at + 1;
    }
    proof {
        assert(managed_entries(ManagedDocument::Current(records)) =~= all);
    }
    records
}

/// A placement journal reads back as it was written.
pub proof fn placement_journals_round_trip(managed: KeyMap<ManagedPlacement>)
    requires
        managed.wf(),
    ensures
        crate::process::collected(
            managed.items().map_values(
                |item: (ProcessKey, ManagedPlacement)| (item.0, item.1@),
            ),
        ) == placements(managed@),
{
    let items = managed.items();
    let seen = items.map_values(|item: (ProcessKey, ManagedPlacement)| (item.0, item.1@));
    managed.items_are_the_map();
    assert(crate::process::in_key_order(seen)) by {
        assert forall|i: int, j: int| 0 <= i < j < seen.len() implies #[trigger] seen[i].0.before(
        #[trigger] seen[j].0) by {
            assert(items[i].0.before(items[j].0));
        }
    }
    crate::process::ordered_entries_collect(seen);
    let map = crate::process::entries_map(seen);
    assert forall|key: ProcessKey| #[trigger]
        map.dom().contains(key) <==> placements(managed@).dom().contains(key) by {
        if map.dom().contains(key) {
            let i = crate::process::place_of(seen, key);
            assert(items[i].0 == key);
        }
        if managed@.dom().contains(key) {
            let i = crate::process::place_of(items, key);
            assert(seen[i].0 == key);
        }
    }
    assert forall|key: ProcessKey| #[trigger] map.dom().contains(key) implies map[key]
        == placements(managed@)[key] by {
        let i = crate::process::place_of(seen, key);
        assert(seen[i].0 == key && items[i].0 == key);
        assert(managed@[items[i].0] == items[i].1);
    }
    assert(map =~= placements(managed@));
}

/// Journals of the first two versions can be read, each in its own way, and no
/// others; what is refused is told by its version.
pub proof fn known_journals_can_be_read(schema_version: u32)
    ensures
        schema_version == 1 <==> format_of(schema_version) == Ok::<JournalFormat, JournalError>(
            JournalFormat::Legacy,
        ),
        schema_version == 2 <==> format_of(schema_version) == Ok::<JournalFormat, JournalError>(
            JournalFormat::Current,
        ),
        schema_version != 1 && schema_version != 2 ==> format_of(schema_version) == Err::<
            JournalFormat,
            JournalError,
        >(JournalError::StateSchema(schema_version)),
        crate::text::decimal(schema_version as nat).is_suffix_of(
            JournalError::StateSchema(schema_version).words(),
        ),
{
    let words = JournalError::StateSchema(schema_version).words();
    let number = crate::text::decimal(schema_version as nat);
    assert(words.subrange(words.len() - number.len(), words.len() as int) =~= number);
}

/// A record is refused where it contradicts itself: where a change is announced
/// without what it is for or the other way round, where it is announced for
/// nothing, and where a property is both held, or to be held, and given up.
pub proof fn contradicting_records_are_refused(record: ManagedBackgroundProcess)
    ensures
        ({
            let fault = record_fault(record);
            let split = (record.pending is Some) != (record.pending_ownership is Some);
            let aimless = record.pending is Some && !record.ownership.eco_qos
                && !record.ownership.memory_priority;
            let blocked = record.blocked_by_external_override;
            let torn = record.ownership.eco_qos && blocked.eco_qos
                || record.ownership.memory_priority && blocked.memory_priority;
            let doomed = record.pending_ownership matches Some(pending) && (pending.eco_qos
                && blocked.eco_qos || pending.memory_priority && blocked.memory_priority);
            &&& fault == Some(JournalError::PendingWithoutItsOwnership) <==> split
            &&& fault == Some(JournalError::PendingWithoutOwnership) <==> !split && aimless
            &&& fault == Some(JournalError::OwnedAndBlocked) <==> !split && !aimless && torn
            &&& fault == Some(JournalError::PendingAndBlocked) <==> !split && !aimless && !torn
                && doomed
            &&& fault is None <==> !split && !aimless && !torn && !doomed
        }),
{
}

/// The first record with a fault is told, and a journal without one has none.
pub proof fn the_first_fault_is_told(
    records: Seq<ManagedBackgroundProcess>,
    record: ManagedBackgroundProcess,
)
    ensures
        first_fault(records) is Some ==> first_fault(records.push(record)) == first_fault(records),
        first_fault(records) is None ==> first_fault(records.push(record)) == record_fault(record),
        first_fault(Seq::empty()) is None,
{
    assert(records.push(record).drop_last() =~= records);
}

/// A record of the first version keeps what it remembers. Where something else
/// took the process over, everything is given up and nothing announced; else
/// exactly what differs from the original, now or once the announced change is
/// made, is held, and nothing is given up.
pub proof fn old_records_hold_what_they_changed(process: LegacyManagedBackgroundProcess)
    ensures
        ({
            let record = migrated(process);
            let now = process.applied;
            let first = process.original;
            &&& record.key == process.key && record.original == first && record.applied == now
            &&& process.blocked_by_external_override ==> {
                &&& record.blocked_by_external_override.eco_qos
                &&& record.blocked_by_external_override.memory_priority
                &&& !record.ownership.eco_qos && !record.ownership.memory_priority
                &&& record.pending is None && record.pending_ownership is None
            }
            &&& !process.blocked_by_external_override ==> {
                &&& !record.blocked_by_external_override.eco_qos
                &&& !record.blocked_by_external_override.memory_priority
                &&& record.pending == process.pending
                &&& process.pending is None ==> record.pending_ownership is None
                    && record.ownership.eco_qos == (first.eco_qos != now.eco_qos)
                    && record.ownership.memory_priority == (first.memory_priority
                    != now.memory_priority)
                &&& process.pending matches Some(next) ==> {
                    &&& record.pending_ownership matches Some(held) && held.eco_qos == (
                    first.eco_qos != next.eco_qos) && held.memory_priority == (
                    first.memory_priority != next.memory_priority)
                    &&& record.ownership.eco_qos == (first.eco_qos != now.eco_qos || first.eco_qos
                        != next.eco_qos)
                    &&& record.ownership.memory_priority == (first.memory_priority
                        != now.memory_priority || first.memory_priority != next.memory_priority)
                }
            }
        }),
{
}

/// Of records with one key the last one counts.
pub proof fn the_last_record_counts(
    records: Seq<ManagedBackgroundProcess>,
    record: ManagedBackgroundProcess,
    other: ProcessKey,
)
    ensures
        ({
            let before = background_map(records);
            let after = background_map(records.push(record));
            &&& after.dom().contains(record.key) && after[record.key] == record
            &&& other != record.key ==> (after.dom().contains(other) <==> before.dom().contains(
                other,
            ))
            &&& other != record.key && before.dom().contains(other) ==> after[other]
                == before[other]
        }),
{
    assert(records.push(record).drop_last() =~= records);
}

/// Records of the first version are taken over as they are, and those of the
/// present one only where none of them is at fault. Placements of the first
/// version are remembered without their processor sets.
pub proof fn documents_are_read_by_their_version(
    old: Vec<LegacyManagedBackgroundProcess>,
    new: Vec<ManagedBackgroundProcess>,
    placed: Vec<LegacyManagedProcess>,
    placing: Vec<ManagedProcess>,
    i: int,
)
    ensures
        document_fault(BackgroundDocument::Legacy(old)) is None,
        document_fault(BackgroundDocument::Current(new)) == first_fault(new@),
        document_records(BackgroundDocument::Current(new)) == new@,
        0 <= i < old@.len() ==> document_records(BackgroundDocument::Legacy(old))[i] == migrated(
            old@[i],
        ),
        document_records(BackgroundDocument::Legacy(old)).len() == old@.len(),
        0 <= i < placed@.len() ==> {
            let entry = managed_entries(ManagedDocument::Legacy(placed))[i];
            &&& entry.0 == placed@[i].key
            &&& entry.1.anchor_domain == placed@[i].domain
            &&& entry.1.cpu_set_ids.len() == 0
        },
        0 <= i < placing@.len() ==> {
            let entry = managed_entries(ManagedDocument::Current(placing))[i];
            &&& entry.0 == placing@[i].key
            &&& entry.1.anchor_domain == placing@[i].placement.anchor_domain
            &&& entry.1.cpu_set_ids == placing@[i].placement.cpu_set_ids@
        },
{
}

} // verus!
