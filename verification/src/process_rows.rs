//! The table of processes of the monitor.
use vstd::prelude::*;

use crate::efficiency::ProcessEcoQosState;
use crate::efficiency::ProcessEfficiencyState;
use crate::efficiency::ProcessMemoryPriority;
use crate::journal::copy_ids;
use crate::language::Language;
use crate::observations::ResolvedRule;
use crate::observed::ExclusionReason;
use crate::observed::LlcDomainKey;
use crate::observed::ObservedProcess;
use crate::process::contains_key;
use crate::process::KeyMap;
use crate::process::ProcessKey;
use crate::rules::find_rule;
use crate::rules::mode_identifier_text;
use crate::rules::placement_identifier_text;
use crate::rules::profile_identifier_text;
use crate::rules::ProcessRule;
use crate::rules::RuleView;
use crate::template::hundredths_text;
use crate::text::comes_before;
use crate::text::decimal_text;
use crate::text::lower_text;
use crate::text::push_decimal;
use crate::text::push_hexadecimal;
use crate::text::same_text;
use crate::text::text_contains;
use crate::text::text_starts_with;
use crate::text::trim_text;

verus! {

/// One process as the monitor sees it.
#[derive(Debug)]
pub struct MonitoredProcess {
    pub process: ObservedProcess,
    pub working_set_bytes: Option<u64>,
    pub efficiency: Option<ProcessEfficiencyState>,
}

/// One line of the table.
#[derive(Debug)]
pub struct ProcessRow {
    pub key: ProcessKey,
    pub image: String,
    pub session_id: Option<u32>,
    pub cpu_basis_points: Option<u32>,
    pub working_set_bytes: Option<u64>,
    pub thread_count: u32,
    pub priority_class: Option<u32>,
    pub cpu_sets: Vec<u32>,
    pub llc: String,
    pub eco_qos: Option<ProcessEcoQosState>,
    pub memory_priority: Option<ProcessMemoryPriority>,
    pub scope: String,
    pub has_exact_rule: bool,
    pub assignment: String,
    pub exclusion: Option<ExclusionReason>,
}

/// One line of the table, with its texts as sequences.
#[verifier::ext_equal]
pub struct RowView {
    pub key: ProcessKey,
    pub image: Seq<char>,
    pub session_id: Option<u32>,
    pub cpu_basis_points: Option<u32>,
    pub working_set_bytes: Option<u64>,
    pub thread_count: u32,
    pub priority_class: Option<u32>,
    pub cpu_sets: Seq<u32>,
    pub llc: Seq<char>,
    pub eco_qos: Option<ProcessEcoQosState>,
    pub memory_priority: Option<ProcessMemoryPriority>,
    pub scope: Seq<char>,
    pub has_exact_rule: bool,
    pub assignment: Seq<char>,
    pub exclusion: Option<ExclusionReason>,
}

impl View for ProcessRow {
    type V = RowView;

    open spec fn view(&self) -> RowView {
        RowView {
            key: self.key,
            image: self.image@,
            session_id: self.session_id,
            cpu_basis_points: self.cpu_basis_points,
            working_set_bytes: self.working_set_bytes,
            thread_count: self.thread_count,
            priority_class: self.priority_class,
            cpu_sets: self.cpu_sets@,
            llc: self.llc@,
            eco_qos: self.eco_qos,
            memory_priority: self.memory_priority,
            scope: self.scope@,
            has_exact_rule: self.has_exact_rule,
            assignment: self.assignment@,
            exclusion: self.exclusion,
        }
    }
}

/// Lines with their texts as sequences.
pub open spec fn row_views(rows: Seq<ProcessRow>) -> Seq<RowView> {
    rows.map_values(|row: ProcessRow| row@)
}

/// The share of one processor that a process used between two looks, in basis
/// points. There is none where no time has passed or where the processor time
/// went back.
pub open spec fn cpu_share(previous: u64, current: u64, elapsed_ns: u128) -> Option<u32> {
    if current < previous || elapsed_ns == 0 {
        None
    } else {
        let basis_points = ((current - previous) * 1_000_000) / (elapsed_ns as int);
        Some(
            if basis_points > u32::MAX {
                u32::MAX
            } else {
                basis_points as u32
            },
        )
    }
}

/// The share of one processor that a process used between two looks, in basis
/// points.
pub fn cpu_basis_points(previous: u64, current: u64, elapsed_ns: u128) -> (share: Option<u32>)
    ensures
        share == cpu_share(previous, current, elapsed_ns),
{
    if current < previous || elapsed_ns == 0 {
        return None;
    }
    let basis_points: u128 = (current - previous) as u128 * 1_000_000 / elapsed_ns;
    if basis_points > u32::MAX as u128 {
        Some(u32::MAX)
    } else {
        Some(basis_points as u32)
    }
}

/// The plain word for why a process is never touched.
pub open spec fn exclusion_identifier(reason: ExclusionReason) -> Seq<char> {
    match reason {
        ExclusionReason::SystemProcess => "SystemProcess"@,
        ExclusionReason::SessionZero => "SessionZero"@,
        ExclusionReason::ProtectedProcess => "ProtectedProcess"@,
        ExclusionReason::RealtimeProcess => "RealtimeProcess"@,
        ExclusionReason::ExplicitRule => "ExplicitRule"@,
    }
}

fn exclusion_identifier_text(reason: ExclusionReason) -> (text: &'static str)
    ensures
        text@ == exclusion_identifier(reason),
{
    match reason {
        ExclusionReason::SystemProcess => "SystemProcess",
        ExclusionReason::SessionZero => "SessionZero",
        ExclusionReason::ProtectedProcess => "ProtectedProcess",
        ExclusionReason::RealtimeProcess => "RealtimeProcess",
        ExclusionReason::ExplicitRule => "ExplicitRule",
    }
}

/// The words for what the settings say of a process: an exclusion first, then
/// a rule of its own, then what holds for all.
pub open spec fn scope_words(
    config_available: bool,
    exact: Option<RuleView>,
    resolved: Option<ResolvedRule>,
    exclusion: Option<ExclusionReason>,
) -> Seq<char> {
    if exclusion is Some {
        "Excluded: "@ + exclusion_identifier(exclusion->0)
    } else if exact is Some {
        "Exact: "@ + crate::rules::mode_identifier((exact->0).mode) + "/"@
            + crate::rules::profile_identifier((exact->0).profile)
    } else if !config_available {
        "Config unavailable"@
    } else {
        match resolved {
            None => "Out of scope"@,
            Some(rule) => "Default: "@ + crate::rules::placement_identifier(rule.placement) + "/"@
                + crate::rules::profile_identifier(rule.profile),
        }
    }
}

/// Puts into words what the settings say of a process. `resolved` is what they
/// make of its executable.
pub fn process_scope_label(
    config_available: bool,
    exact: Option<&ProcessRule>,
    resolved: Option<ResolvedRule>,
    exclusion: Option<ExclusionReason>,
) -> (text: String)
    ensures
        text@ == scope_words(
            config_available,
            match exact {
                Some(rule) => Some(rule@),
                None => None,
            },
            resolved,
            exclusion,
        ),
{
    if let Some(reason) = exclusion {
        let mut text = "Excluded: ".to_owned();
        text.append(exclusion_identifier_text(reason));
        return text;
    }
    if let Some(rule) = exact {
        let mut text = "Exact: ".to_owned();
        text.append(mode_identifier_text(rule.mode));
        text.append("/");
        text.append(profile_identifier_text(rule.profile));
        return text;
    }
    if !config_available {
        return "Config unavailable".to_owned();
    }
    match resolved {
        None => "Out of scope".to_owned(),
        Some(rule) => {
            let mut text = "Default: ".to_owned();
            text.append(placement_identifier_text(rule.placement).as_str());
            text.append("/");
            text.append(profile_identifier_text(rule.profile));
            text
        },
    }
}

/// Who placed a process.
pub open spec fn assignment_words(managed: bool, cpu_sets: Seq<u32>) -> Seq<char> {
    if managed {
        "WinSched"@
    } else if cpu_sets.len() == 0 {
        "None"@
    } else {
        "External"@
    }
}

/// A cache by its group and its number in it.
pub open spec fn domain_words(domain: Option<LlcDomainKey>) -> Seq<char> {
    match domain {
        None => "\u{2014}"@,
        Some(domain) => crate::text::decimal(domain.group as nat) + ":"@ + crate::text::decimal(
            domain.last_level_cache_index as nat,
        ),
    }
}

fn domain_text(domain: Option<LlcDomainKey>) -> (text: String)
    ensures
        text@ == domain_words(domain),
{
    match domain {
        None => "\u{2014}".to_owned(),
        Some(domain) => {
            let mut text = decimal_text(domain.group as u64);
            text.append(":");
            push_decimal(&mut text, domain.last_level_cache_index as u64);
            text
        },
    }
}

/// What the lines of the table depend on, besides the processes.
pub ghost struct RowContext {
    /// How long ago the table was made before, where it was.
    pub elapsed_ns: Option<u128>,
    pub prior_cpu: Map<ProcessKey, u64>,
    pub managed: Seq<ProcessKey>,
    /// The rules, where the settings could be read.
    pub rules: Option<Seq<RuleView>>,
    /// What the settings make of each process.
    pub resolved: Seq<Option<ResolvedRule>>,
}

/// The line of a process.
pub open spec fn row_of(context: RowContext, process: MonitoredProcess, at: int) -> RowView {
    let observed = process.process;
    let exact = match context.rules {
        Some(rules) => match crate::rules::rule_place(rules, observed.image_name@) {
            Some(place) => Some(rules[place]),
            None => None,
        },
        None => None,
    };
    RowView {
        key: observed.key,
        image: observed.image_name@,
        session_id: observed.session_id,
        cpu_basis_points: if context.elapsed_ns is Some && context.prior_cpu.dom().contains(
            observed.key,
        ) {
            cpu_share(
                context.prior_cpu[observed.key],
                observed.cpu_time_100ns,
                context.elapsed_ns->0,
            )
        } else {
            None
        },
        working_set_bytes: process.working_set_bytes,
        thread_count: observed.thread_count,
        priority_class: observed.priority_class,
        cpu_sets: observed.default_cpu_set_ids@,
        llc: domain_words(observed.current_domain),
        eco_qos: match process.efficiency {
            Some(state) => Some(state.eco_qos),
            None => None,
        },
        memory_priority: match process.efficiency {
            Some(state) => Some(state.memory_priority),
            None => None,
        },
        scope: scope_words(
            context.rules is Some,
            exact,
            context.resolved[at],
            observed.exclusion,
        ),
        has_exact_rule: exact is Some,
        assignment: assignment_words(
            context.managed.contains(observed.key),
            observed.default_cpu_set_ids@,
        ),
        exclusion: observed.exclusion,
    }
}

/// The lines of the processes, in their order.
pub open spec fn unranked_rows(
    context: RowContext,
    processes: Seq<MonitoredProcess>,
    count: nat,
) -> Seq<RowView> {
    Seq::new(count, |i: int| row_of(context, processes[i], i))
}

/// The share of a line, as far as it is known.
pub open spec fn known_share(row: RowView) -> u32 {
    match row.cpu_basis_points {
        Some(share) => share,
        None => 0,
    }
}

/// Whether a line comes before another: the busier process first, then by the
/// name of the executable, then by the number of the process.
pub open spec fn row_before(a: RowView, b: RowView) -> bool {
    ||| known_share(a) > known_share(b)
    ||| known_share(a) == known_share(b) && crate::text::text_before(a.image, b.image)
    ||| known_share(a) == known_share(b) && a.image == b.image && a.key.pid < b.key.pid
}

/// The order of the table.
pub open spec fn row_order() -> spec_fn(RowView, RowView) -> bool {
    |a: RowView, b: RowView| row_before(a, b)
}

/// The lines in the order of the table.
pub open spec fn table(
    context: RowContext,
    processes: Seq<MonitoredProcess>,
) -> Seq<RowView> {
    crate::ranking::ranking(
        unranked_rows(context, processes, processes.len()),
        row_order(),
    )
}

proof fn rows_are_ordered()
    ensures
        crate::ranking::orders(row_order()),
{
    let before = row_order();
    assert forall|a: RowView, b: RowView, c: RowView|
        #![trigger before(b, a), before(c, b)]
        !before(b, a) && !before(c, b) implies !before(c, a) by {
        crate::text::text_order_is_total(a.image, b.image);
        crate::text::text_order_is_total(b.image, c.image);
        crate::text::text_order_is_irreflexive(a.image);
        crate::text::text_order_is_irreflexive(b.image);
        if crate::text::text_before(a.image, b.image) && crate::text::text_before(
            b.image,
            c.image,
        ) {
            crate::text::text_order_is_transitive(a.image, b.image, c.image);
        }
        if crate::text::text_before(c.image, a.image) && crate::text::text_before(
            a.image,
            c.image,
        ) {
            crate::text::text_order_is_transitive(c.image, a.image, c.image);
            crate::text::text_order_is_irreflexive(c.image);
        }
    }
    assert forall|a: RowView, b: RowView| #[trigger] before(a, b) implies !before(b, a) by {
        crate::text::text_order_is_irreflexive(a.image);
        if crate::text::text_before(a.image, b.image) && crate::text::text_before(
            b.image,
            a.image,
        ) {
            crate::text::text_order_is_transitive(a.image, b.image, a.image);
        }
    }
}

/// The table has a line for each process and no other, and no line stands
/// behind one that it ought to precede.
pub proof fn every_process_has_its_line(context: RowContext, processes: Seq<MonitoredProcess>)
    ensures
        table(context, processes).len() == processes.len(),
        table(context, processes).to_multiset() == unranked_rows(
            context,
            processes,
            processes.len(),
        ).to_multiset(),
        crate::ranking::is_ranked(table(context, processes), row_order()),
{
    rows_are_ordered();
    crate::ranking::ranking_is_the_same_in_order(
        unranked_rows(context, processes, processes.len()),
        row_order(),
    );
}

fn is_row_before(a: &ProcessRow, b: &ProcessRow) -> (before: bool)
    ensures
        before == row_before(a@, b@),
{
    let left: u32 = match a.cpu_basis_points {
        Some(share) => share,
        None => 0,
    };
    let right: u32 = match b.cpu_basis_points {
        Some(share) => share,
        None => 0,
    };
    if left != right {
        return left > right;
    }
    if comes_before(a.image.as_str(), b.image.as_str()) {
        return true;
    }
    same_text(a.image.as_str(), b.image.as_str()) && a.key.pid < b.key.pid
}

fn make_row(
    process: &MonitoredProcess,
    at: usize,
    elapsed_ns: Option<u128>,
    prior_cpu: &KeyMap<u64>,
    managed: &Vec<ProcessKey>,
    rules: Option<&Vec<ProcessRule>>,
    resolved: &Vec<Option<ResolvedRule>>,
) -> (row: ProcessRow)
    requires
        prior_cpu.wf(),
        at < resolved.len(),
    ensures
        row@ == row_of(
            RowContext {
                elapsed_ns,
                prior_cpu: prior_cpu@,
                managed: managed@,
                rules: match rules {
                    Some(rules) => Some(crate::rules::rule_views(rules@)),
                    None => None,
                },
                resolved: resolved@,
            },
            *process,
            at as int,
        ),
{
    let observed = &process.process;
    let share: Option<u32> = match elapsed_ns {
        Some(elapsed) => match prior_cpu.get(observed.key) {
            Some(previous) => cpu_basis_points(*previous, observed.cpu_time_100ns, elapsed),
            None => None,
        },
        None => None,
    };
    let exact: Option<&ProcessRule> = match rules {
        Some(rules) => match find_rule(rules, observed.image_name.as_str()) {
            Some(place) => Some(&rules[place]),
            None => None,
        },
        None => None,
    };
    let scope = process_scope_label(rules.is_some(), exact, resolved[at], observed.exclusion);
    let assignment = if contains_key(managed, observed.key) {
        "WinSched"
    } else if observed.default_cpu_set_ids.len() == 0 {
        "None"
    } else {
        "External"
    };
    ProcessRow {
        key: observed.key,
        image: observed.image_name.as_str().to_owned(),
        session_id: observed.session_id,
        cpu_basis_points: share,
        working_set_bytes: process.working_set_bytes,
        thread_count: observed.thread_count,
        priority_class: observed.priority_class,
        cpu_sets: copy_ids(&observed.default_cpu_set_ids),
        llc: domain_text(observed.current_domain),
        eco_qos: match &process.efficiency {
            Some(state) => Some(state.eco_qos),
            None => None,
        },
        memory_priority: match &process.efficiency {
            Some(state) => Some(state.memory_priority),
            None => None,
        },
        scope,
        has_exact_rule: exact.is_some(),
        assignment: assignment.to_owned(),
        exclusion: observed.exclusion,
    }
}

/// The processor times of the processes by their keys.
pub open spec fn cpu_times(processes: Seq<MonitoredProcess>) -> Map<ProcessKey, u64> {
    crate::process::collected(
        Seq::new(
            processes.len(),
            |i: int| (processes[i].process.key, processes[i].process.cpu_time_100ns),
        ),
    )
}

/// The processor times of the processes by their keys.
pub fn collect_cpu_times(processes: &Vec<MonitoredProcess>) -> (times: KeyMap<u64>)
    ensures
        times.wf(),
        times@ == cpu_times(processes@),
{
    let ghost entries = Seq::new(
        processes@.len(),
        |i: int| (processes@[i].process.key, processes@[i].process.cpu_time_100ns),
    );
    let mut times: KeyMap<u64> = KeyMap::new();
    let mut at: usize = 0;
    proof {
        assert(entries.take(0) =~= Seq::<(ProcessKey, u64)>::empty());
    }
    while at < processes.len()
        invariant
            at <= processes.len(),
            times.wf(),
            entries == Seq::new(
                processes@.len(),
                |i: int| (processes@[i].process.key, processes@[i].process.cpu_time_100ns),
            ),
            times@ == crate::process::collected(entries.take(at as int)),
        decreases processes.len() - at,
    {
        let observed = &processes[at].process;
        times.insert(observed.key, observed.cpu_time_100ns);
        proof {
            assert(entries.take(at + 1).drop_last() =~= entries.take(at as int));
            assert(entries.take(at + 1).last() == entries[at as int]);
        }
        at = at + 1;
    }
    proof {
        assert(entries.take(at as int) =~= entries);
    }
    times
}

/// Makes the table. `resolved[i]` is what the settings make of process `i`.
pub fn build_rows(
    processes: &Vec<MonitoredProcess>,
    elapsed_ns: Option<u128>,
    prior_cpu: &KeyMap<u64>,
    managed: &Vec<ProcessKey>,
    rules: Option<&Vec<ProcessRule>>,
    resolved: &Vec<Option<ResolvedRule>>,
) -> (rows: Vec<ProcessRow>)
    requires
        prior_cpu.wf(),
        resolved.len() == processes.len(),
    ensures
        row_views(rows@) == table(
            RowContext {
                elapsed_ns,
                prior_cpu: prior_cpu@,
                managed: managed@,
                rules: match rules {
                    Some(rules) => Some(crate::rules::rule_views(rules@)),
                    None => None,
                },
                resolved: resolved@,
            },
            processes@,
        ),
{
    let ghost context = RowContext {
        elapsed_ns,
        prior_cpu: prior_cpu@,
        managed: managed@,
        rules: match rules {
            Some(rules) => Some(crate::rules::rule_views(rules@)),
            None => None,
        },
        resolved: resolved@,
    };
    let mut rows: Vec<ProcessRow> = Vec::new();
    let mut at: usize = 0;
    proof {
        assert(row_views(rows@) =~= crate::ranking::ranking(
            unranked_rows(context, processes@, 0),
            row_order(),
        ));
    }
    while at < processes.len()
        invariant
            at <= processes.len(),
            prior_cpu.wf(),
            resolved.len() == processes.len(),
            context == (RowContext {
                elapsed_ns,
                prior_cpu: prior_cpu@,
                managed: managed@,
                rules: match rules {
                    Some(rules) => Some(crate::rules::rule_views(rules@)),
                    None => None,
                },
                resolved: resolved@,
            }),
            row_views(rows@) == crate::ranking::ranking(
                unranked_rows(context, processes@, at as nat),
                row_order(),
            ),
        decreases processes.len() - at,
    {
        let row = make_row(
            &processes[at],
            at,
            elapsed_ns,
            prior_cpu,
            managed,
            rules,
            resolved,
        );
        let mut place: usize = rows.len();
        while place > 0 && is_row_before(&row, &rows[place - 1])
            invariant
                place <= rows.len(),
                forall|i: int|
                    place <= i < rows.len() ==> row_before(row@, (#[trigger] rows@[i])@),
            decreases place,
        {
            place = place - 1;
        }
        let ghost said = row@;
        let ghost before = rows@;
        proof {
            let views = row_views(rows@);
            assert forall|i: int| place <= i < views.len() implies row_order()(
                said,
                #[trigger] views[i],
            ) by {
                assert(views[i] == rows@[i]@);
            }
            if place > 0 {
                assert(views[place - 1] == rows@[place - 1]@);
            }
            crate::ranking::ranked_in_at(views, said, place as int, row_order());
        }
        rows.insert(place, row);
        proof {
            assert(row_views(rows@) =~= row_views(before).insert(place as int, said));
            let more = unranked_rows(context, processes@, at as nat + 1);
            assert(more.drop_last() =~= unranked_rows(context, processes@, at as nat));
            assert(more.last() == said);
        }
        at = at + 1;
    }
    rows
}

/// What is looked for: the filter without white space round it, in small
/// letters.
pub open spec fn sought(filter: Seq<char>) -> Seq<char> {
    crate::text::ascii_lower_text(crate::text::trim(filter))
}

/// Whether a line is shown under a filter.
pub open spec fn is_shown(row: RowView, filter: Seq<char>) -> bool {
    ||| sought(filter).len() == 0
    ||| crate::text::occurs(sought(filter), crate::text::ascii_lower_text(row.image))
    ||| crate::text::occurs(sought(filter), crate::text::decimal(row.key.pid as nat))
}

/// Whether a line is shown under a filter, which was brought into the form
/// that is looked for.
pub fn row_matches(row: &ProcessRow, filter: &str) -> (shown: bool)
    ensures
        shown == is_shown(row@, filter@),
{
    let part = lower_text(trim_text(filter).as_str());
    if part.as_str().unicode_len() == 0 {
        return true;
    }
    text_contains(lower_text(row.image.as_str()).as_str(), part.as_str()) || text_contains(
        decimal_text(row.key.pid as u64).as_str(),
        part.as_str(),
    )
}

/// The titles of the columns.
pub open spec fn title_words(language: Language) -> Seq<Seq<char>> {
    seq![
        language.said("Process"@, "Процесс"@),
        "PID"@,
        language.said("Session"@, "Сеанс"@),
        "CPU %"@,
        language.said("RAM"@, "ОЗУ"@),
        language.said("Threads"@, "Потоки"@),
        language.said("Priority"@, "Приоритет"@),
        "CPU Sets"@,
        "LLC"@,
        "EcoQoS"@,
        language.said("Memory"@, "Память"@),
        language.said("Rule / scope"@, "Правило / область"@),
        language.said("Assignment"@, "Назначение"@),
    ]
}

/// The titles of the columns.
pub fn column_titles(language: Language) -> (titles: Vec<&'static str>)
    ensures
        titles@.map_values(|title: &'static str| title@) == title_words(language),
{
    let titles = vec![
        language.text("Process", "Процесс"),
        "PID",
        language.text("Session", "Сеанс"),
        "CPU %",
        language.text("RAM", "ОЗУ"),
        language.text("Threads", "Потоки"),
        language.text("Priority", "Приоритет"),
        "CPU Sets",
        "LLC",
        "EcoQoS",
        language.text("Memory", "Память"),
        language.text("Rule / scope", "Правило / область"),
        language.text("Assignment", "Назначение"),
    ];
    proof {
        assert(titles@.map_values(|title: &'static str| title@) =~= title_words(language));
    }
    titles
}

/// A number of bytes in mebibytes with one digit behind the point.
pub open spec fn mebibytes(bytes: u64) -> Seq<char> {
    let ten_times = if bytes * 10 > u64::MAX {
        u64::MAX as nat
    } else {
        (bytes * 10) as nat
    };
    let tenths = ten_times / 1_048_576;
    crate::text::decimal(tenths / 10) + "."@ + crate::text::decimal(tenths % 10) + " MiB"@
}

/// Writes a number of bytes in mebibytes.
pub fn format_mib(bytes: u64) -> (text: String)
    ensures
        text@ == mebibytes(bytes),
{
    let ten_times: u64 = match bytes.checked_mul(10) {
        Some(product) => product,
        None => u64::MAX,
    };
    let tenths: u64 = ten_times / 1_048_576;
    let mut text = decimal_text(tenths / 10);
    text.append(".");
    push_decimal(&mut text, tenths % 10);
    text.append(" MiB");
    text
}

pub const IDLE_PRIORITY_CLASS: u32 = 0x40;

pub const BELOW_NORMAL_PRIORITY_CLASS: u32 = 0x4000;

pub const NORMAL_PRIORITY_CLASS: u32 = 0x20;

pub const ABOVE_NORMAL_PRIORITY_CLASS: u32 = 0x8000;

pub const HIGH_PRIORITY_CLASS: u32 = 0x80;

pub const REALTIME_PRIORITY_CLASS: u32 = 0x100;

/// The words for a priority class.
pub open spec fn priority_words(priority: Option<u32>) -> Seq<char> {
    match priority {
        None => "\u{2014}"@,
        Some(value) => if value == REALTIME_PRIORITY_CLASS {
            "Realtime"@
        } else if value == HIGH_PRIORITY_CLASS {
            "High"@
        } else if value == ABOVE_NORMAL_PRIORITY_CLASS {
            "Above Normal"@
        } else if value == NORMAL_PRIORITY_CLASS {
            "Normal"@
        } else if value == BELOW_NORMAL_PRIORITY_CLASS {
            "Below Normal"@
        } else if value == IDLE_PRIORITY_CLASS {
            "Idle"@
        } else {
            "0x"@ + crate::text::hexadecimal(value as nat)
        },
    }
}

/// Puts a priority class into words.
pub fn priority_label(priority: Option<u32>) -> (text: String)
    ensures
        text@ == priority_words(priority),
{
    match priority {
        None => "\u{2014}".to_owned(),
        Some(value) => if value == REALTIME_PRIORITY_CLASS {
            "Realtime".to_owned()
        } else if value == HIGH_PRIORITY_CLASS {
            "High".to_owned()
        } else if value == ABOVE_NORMAL_PRIORITY_CLASS {
            "Above Normal".to_owned()
        } else if value == NORMAL_PRIORITY_CLASS {
            "Normal".to_owned()
        } else if value == BELOW_NORMAL_PRIORITY_CLASS {
            "Below Normal".to_owned()
        } else if value == IDLE_PRIORITY_CLASS {
            "Idle".to_owned()
        } else {
            let mut text = "0x".to_owned();
            push_hexadecimal(&mut text, value as u64);
            text
        },
    }
}

/// The word for the EcoQoS state of a process.
pub open spec fn eco_qos_words(value: Option<ProcessEcoQosState>) -> Seq<char> {
    match value {
        Some(ProcessEcoQosState::Enabled) => "Enabled"@,
        Some(ProcessEcoQosState::Disabled) => "Disabled"@,
        Some(ProcessEcoQosState::Unset) => "Unset"@,
        None => "\u{2014}"@,
    }
}

/// The word for the EcoQoS state of a process.
pub fn eco_qos_label(value: Option<ProcessEcoQosState>) -> (text: &'static str)
    ensures
        text@ == eco_qos_words(value),
{
    match value {
        Some(ProcessEcoQosState::Enabled) => "Enabled",
        Some(ProcessEcoQosState::Disabled) => "Disabled",
        Some(ProcessEcoQosState::Unset) => "Unset",
        None => "\u{2014}",
    }
}

/// The words for the memory priority of a process.
pub open spec fn memory_priority_words(value: Option<ProcessMemoryPriority>) -> Seq<char> {
    match value {
        Some(ProcessMemoryPriority::VeryLow) => "Very Low"@,
        Some(ProcessMemoryPriority::Low) => "Low"@,
        Some(ProcessMemoryPriority::Medium) => "Medium"@,
        Some(ProcessMemoryPriority::BelowNormal) => "Below Normal"@,
        Some(ProcessMemoryPriority::Normal) => "Normal"@,
        None => "\u{2014}"@,
    }
}

/// The words for the memory priority of a process.
pub fn memory_priority_label(value: Option<ProcessMemoryPriority>) -> (text: &'static str)
    ensures
        text@ == memory_priority_words(value),
{
    match value {
        Some(ProcessMemoryPriority::VeryLow) => "Very Low",
        Some(ProcessMemoryPriority::Low) => "Low",
        Some(ProcessMemoryPriority::Medium) => "Medium",
        Some(ProcessMemoryPriority::BelowNormal) => "Below Normal",
        Some(ProcessMemoryPriority::Normal) => "Normal",
        None => "\u{2014}",
    }
}

/// Numbers in decimal with commas between them.
pub open spec fn joined_ids(ids: Seq<u32>) -> Seq<char>
    decreases ids.len(),
{
    if ids.len() == 0 {
        ""@
    } else if ids.len() == 1 {
        crate::text::decimal(ids[0] as nat)
    } else {
        joined_ids(ids.drop_last()) + ","@ + crate::text::decimal(ids.last() as nat)
    }
}

fn join_ids(ids: &Vec<u32>) -> (text: String)
    ensures
        text@ == joined_ids(ids@),
{
    let mut text = "".to_owned();
    let mut at: usize = 0;
    while at < ids.len()
        invariant
            at <= ids.len(),
            text@ == joined_ids(ids@.take(at as int)),
        decreases ids.len() - at,
    {
        let ghost before = text@;
        if at > 0 {
            text.append(",");
        }
        push_decimal(&mut text, ids[at] as u64);
        proof {
            let more = ids@.take(at + 1);
            assert(more.drop_last() =~= ids@.take(at as int));
            assert(more.last() == ids@[at as int]);
            if at == 0 {
                reveal_strlit("");
                assert(more.len() == 1);
                assert(text@ =~= crate::text::decimal(ids@[0] as nat));
            }
        }
        at = at + 1;
    }
    proof {
        assert(ids@.take(at as int) =~= ids@);
    }
    text
}

/// A number, as far as there is one.
pub open spec fn known_number(value: Option<u32>) -> Seq<char> {
    match value {
        Some(value) => crate::text::decimal(value as nat),
        None => "\u{2014}"@,
    }
}

/// What a line says, column by column.
pub open spec fn cell_words(row: RowView) -> Seq<Seq<char>> {
    seq![
        row.image,
        crate::text::decimal(row.key.pid as nat),
        known_number(row.session_id),
        match row.cpu_basis_points {
            Some(share) => crate::template::hundredths(share as nat),
            None => "\u{2014}"@,
        },
        match row.working_set_bytes {
            Some(bytes) => mebibytes(bytes),
            None => "\u{2014}"@,
        },
        crate::text::decimal(row.thread_count as nat),
        priority_words(row.priority_class),
        if row.cpu_sets.len() == 0 {
            "\u{2014}"@
        } else {
            joined_ids(row.cpu_sets)
        },
        row.llc,
        eco_qos_words(row.eco_qos),
        memory_priority_words(row.memory_priority),
        row.scope,
        row.assignment,
    ]
}

/// What a line says, column by column.
pub fn row_cells(row: &ProcessRow) -> (cells: Vec<String>)
    ensures
        cells@.map_values(|cell: String| cell@) == cell_words(row@),
{
    let cells = vec![
        row.image.as_str().to_owned(),
        decimal_text(row.key.pid as u64),
        match row.session_id {
            Some(session) => decimal_text(session as u64),
            None => "\u{2014}".to_owned(),
        },
        match row.cpu_basis_points {
            Some(share) => hundredths_text(share as u64),
            None => "\u{2014}".to_owned(),
        },
        match row.working_set_bytes {
            Some(bytes) => format_mib(bytes),
            None => "\u{2014}".to_owned(),
        },
        decimal_text(row.thread_count as u64),
        priority_label(row.priority_class),
        if row.cpu_sets.len() == 0 {
            "\u{2014}".to_owned()
        } else {
            join_ids(&row.cpu_sets)
        },
        row.llc.as_str().to_owned(),
        eco_qos_label(row.eco_qos).to_owned(),
        memory_priority_label(row.memory_priority).to_owned(),
        row.scope.as_str().to_owned(),
        row.assignment.as_str().to_owned(),
    ];
    proof {
        assert(cells@.map_values(|cell: String| cell@) =~= cell_words(row@));
    }
    cells
}

pub const EDIT_RULE: (&'static str, &'static str) = (
    "Edit exact rule\u{2026}",
    "Изменить точное правило\u{2026}",
);

pub const CREATE_RULE: (&'static str, &'static str) = (
    "Create exact rule\u{2026}",
    "Создать точное правило\u{2026}",
);

pub const RULE_REFUSED: (&'static str, &'static str) = (
    "Safety-excluded processes cannot be opted into automatic control.",
    "Процессы из защитных исключений нельзя включить в автоматическое управление.",
);

pub const RULE_HINT: (&'static str, &'static str) = (
    "The draft applies to every process with this executable name and is not saved until Apply.",
    "Черновик применяется ко всем процессам с этим именем и не сохраняется до нажатия «Применить».",
);

/// What the menu of a line offers.
#[derive(Debug, Clone, Copy)]
pub struct RowMenu {
    pub label: &'static str,
    /// Whether the entry can be chosen.
    pub allowed: bool,
    /// Why it cannot be.
    pub refusal: Option<&'static str>,
    pub hint: &'static str,
}

/// Whether a rule for the process of a line may be edited or made: it has one,
/// or nothing excludes it.
pub open spec fn rule_allowed(row: RowView) -> bool {
    row.has_exact_rule || row.exclusion is None
}

/// Says what the menu of a line offers.
pub fn row_menu(row: &ProcessRow, language: Language) -> (menu: RowMenu)
    ensures
        menu@ == menu_words(row@, language),
{
    let label = if text_starts_with(row.scope.as_str(), "Exact") {
        language.phrase(EDIT_RULE)
    } else {
        language.phrase(CREATE_RULE)
    };
    let allowed = row.has_exact_rule || row.exclusion.is_none();
    RowMenu {
        label,
        allowed,
        refusal: if allowed {
            None
        } else {
            Some(language.phrase(RULE_REFUSED))
        },
        hint: language.phrase(RULE_HINT),
    }
}

/// What the menu of a line offers, with its texts as sequences.
pub ghost struct RowMenuView {
    pub label: Seq<char>,
    pub allowed: bool,
    pub refusal: Option<Seq<char>>,
    pub hint: Seq<char>,
}

impl View for RowMenu {
    type V = RowMenuView;

    open spec fn view(&self) -> RowMenuView {
        RowMenuView {
            label: self.label@,
            allowed: self.allowed,
            refusal: match self.refusal {
                Some(refusal) => Some(refusal@),
                None => None,
            },
            hint: self.hint@,
        }
    }
}

/// What the menu of a line says.
pub open spec fn menu_words(row: RowView, language: Language) -> RowMenuView {
    RowMenuView {
        label: language.words(
            if crate::text::starts_with(row.scope, "Exact"@) {
                EDIT_RULE
            } else {
                CREATE_RULE
            },
        ),
        allowed: rule_allowed(row),
        refusal: if rule_allowed(row) {
            None
        } else {
            Some(language.words(RULE_REFUSED))
        },
        hint: language.words(RULE_HINT),
    }
}

/// One line of the table as it is shown: its cells, and its menu.
#[derive(Debug)]
pub struct TableLine {
    pub cells: Vec<String>,
    pub menu: RowMenu,
}

/// One line of the table, with its texts as sequences.
pub ghost struct TableLineView {
    pub cells: Seq<Seq<char>>,
    pub menu: RowMenuView,
}

impl View for TableLine {
    type V = TableLineView;

    open spec fn view(&self) -> TableLineView {
        TableLineView {
            cells: self.cells@.map_values(|cell: String| cell@),
            menu: self.menu@,
        }
    }
}

/// The lines that are shown under a filter, in their order.
pub open spec fn table_lines(rows: Seq<RowView>, filter: Seq<char>, language: Language) -> Seq<
    TableLineView,
> {
    rows.filter(|row: RowView| is_shown(row, filter)).map_values(
        |row: RowView| TableLineView { cells: cell_words(row), menu: menu_words(row, language) },
    )
}

/// The lines of the table that are shown under a filter.
pub fn process_table(rows: &Vec<ProcessRow>, filter: &str, language: Language) -> (lines: Vec<
    TableLine,
>)
    ensures
        lines@.map_values(|line: TableLine| line@) == table_lines(
            row_views(rows@),
            filter@,
            language,
        ),
{
    let ghost all = row_views(rows@);
    let ghost shown = |row: RowView| is_shown(row, filter@);
    let ghost said = |row: RowView|
        TableLineView { cells: cell_words(row), menu: menu_words(row, language) };
    let mut lines: Vec<TableLine> = Vec::new();
    let mut at: usize = 0;
    proof {
        reveal(Seq::filter);
        assert(lines@.map_values(|line: TableLine| line@) =~= all.take(0).filter(shown).map_values(
            said,
        ));
    }
    while at < rows.len()
        invariant
            at <= rows.len(),
            all == row_views(rows@),
            shown == (|row: RowView| is_shown(row, filter@)),
            said == (|row: RowView|
                TableLineView { cells: cell_words(row), menu: menu_words(row, language) }),
            lines@.map_values(|line: TableLine| line@) == all.take(at as int).filter(
                shown,
            ).map_values(said),
        decreases rows.len() - at,
    {
        let ghost before = lines@.map_values(|line: TableLine| line@);
        proof {
            reveal(Seq::filter);
            let more = all.take(at + 1);
            assert(more.drop_last() =~= all.take(at as int));
            assert(more.last() == rows@[at as int]@);
        }
        if row_matches(&rows[at], filter) {
            lines.push(
                TableLine { cells: row_cells(&rows[at]), menu: row_menu(&rows[at], language) },
            );
            proof {
                assert(lines@.map_values(|line: TableLine| line@) =~= before.push(
                    said(rows@[at as int]@),
                ));
                assert(all.take(at + 1).filter(shown).map_values(said) =~= before.push(
                    said(rows@[at as int]@),
                ));
            }
        }
        at = at + 1;
    }
    proof {
        assert(all.take(at as int) =~= all);
    }
    lines
}

/// A table shows no process that its filter does not let through, and every
/// one that it does.
pub proof fn filters_hide_only_what_they_should(
    rows: Seq<RowView>,
    filter: Seq<char>,
    language: Language,
)
    ensures
        table_lines(rows, filter, language).len() <= rows.len(),
        forall|at: int|
            0 <= at < rows.len() && is_shown(rows[at], filter) ==> table_lines(
                rows,
                filter,
                language,
            ).contains(
                TableLineView {
                    cells: cell_words(#[trigger] rows[at]),
                    menu: menu_words(rows[at], language),
                },
            ),
        sought(filter).len() == 0 ==> table_lines(rows, filter, language).len() == rows.len(),
    decreases rows.len(),
{
    let shown = |row: RowView| is_shown(row, filter);
    let said = |row: RowView|
        TableLineView { cells: cell_words(row), menu: menu_words(row, language) };
    let kept = rows.filter(shown);
    broadcast use vstd::seq_lib::group_filter_ensures;

    assert forall|at: int|
        0 <= at < rows.len() && is_shown(rows[at], filter) implies table_lines(
        rows,
        filter,
        language,
    ).contains(
        TableLineView {
            cells: cell_words(#[trigger] rows[at]),
            menu: menu_words(rows[at], language),
        },
    ) by {
        assert(shown(rows[at]));
        assert(kept.contains(rows[at]));
        let place = choose|place: int| 0 <= place < kept.len() && kept[place] == rows[at];
        assert(table_lines(rows, filter, language)[place] == said(rows[at]));
    }
    if sought(filter).len() == 0 && rows.len() > 0 {
        reveal(Seq::filter);
        filters_hide_only_what_they_should(rows.drop_last(), filter, language);
        assert(shown(rows.last()));
    }
}

/// A share says how much of one processor was used: ten thousand for all of
/// it, in proportion for less and more, cut to a whole number. Without time,
/// or with a processor time that went back, there is none.
pub proof fn shares_are_of_one_processor(previous: u64, current: u64, elapsed_ns: u128)
    ensures
        ({
            let share = cpu_share(previous, current, elapsed_ns);
            &&& share is None <==> elapsed_ns == 0 || current < previous
            &&& share matches Some(bps) ==> {
                &&& bps * elapsed_ns <= (current - previous) * 1_000_000
                &&& bps < u32::MAX ==> (current - previous) * 1_000_000 < (bps + 1) * elapsed_ns
                &&& (current - previous) * 100 == elapsed_ns ==> bps == 10_000
                &&& current == previous ==> bps == 0
            }
        }),
{
    if let Some(bps) = cpu_share(previous, current, elapsed_ns) {
        let used = (current - previous) * 1_000_000;
        let elapsed = elapsed_ns as int;
        let whole = used / elapsed;
        assert(whole * elapsed <= used < (whole + 1) * elapsed) by (nonlinear_arith)
            requires
                elapsed > 0,
                used >= 0,
                whole == used / elapsed,
        ;
        assert(bps * elapsed <= whole * elapsed) by (nonlinear_arith)
            requires
                bps <= whole,
                elapsed > 0,
        ;
        if (current - previous) * 100 == elapsed_ns {
            assert(used == 10_000 * elapsed);
            assert(whole == 10_000) by (nonlinear_arith)
                requires
                    used == 10_000 * elapsed,
                    elapsed > 0,
                    whole == used / elapsed,
            ;
        }
        if current == previous {
            assert(whole == 0) by (nonlinear_arith)
                requires
                    used == 0,
                    elapsed > 0,
                    whole == used / elapsed,
            ;
        }
    }
}

/// A line says of its process what was observed of it, under the same name:
/// nothing is taken from another process.
pub proof fn lines_say_what_was_observed(context: RowContext, process: MonitoredProcess, at: int)
    ensures
        ({
            let row = row_of(context, process, at);
            let observed = process.process;
            &&& row.key == observed.key
            &&& row.image == observed.image_name@
            &&& row.session_id == observed.session_id
            &&& row.thread_count == observed.thread_count
            &&& row.priority_class == observed.priority_class
            &&& row.working_set_bytes == process.working_set_bytes
            &&& row.cpu_sets == observed.default_cpu_set_ids@
            &&& row.exclusion == observed.exclusion
            &&& row.llc == domain_words(observed.current_domain)
            &&& process.efficiency matches Some(state) ==> row.eco_qos == Some(state.eco_qos)
                && row.memory_priority == Some(state.memory_priority)
            &&& process.efficiency is None ==> row.eco_qos is None && row.memory_priority is None
            &&& row.cpu_basis_points is Some ==> context.elapsed_ns is Some
                && context.prior_cpu.dom().contains(observed.key) && row.cpu_basis_points
                == cpu_share(
                context.prior_cpu[observed.key],
                observed.cpu_time_100ns,
                context.elapsed_ns->0,
            )
            &&& context.elapsed_ns is Some && context.elapsed_ns != Some(0u128)
                && context.prior_cpu.dom().contains(observed.key)
                && context.prior_cpu[observed.key] <= observed.cpu_time_100ns
                ==> row.cpu_basis_points is Some
            &&& row.has_exact_rule <==> (context.rules matches Some(rules)
                && crate::rules::rule_place(rules, observed.image_name@) is Some)
        }),
{
}

/// A process that the controller placed is said to be placed by it, one that
/// has processor sets otherwise by something else, and one without them by
/// nothing.
pub proof fn placements_name_their_author(managed: bool, cpu_sets: Seq<u32>)
    ensures
        managed ==> assignment_words(managed, cpu_sets) == "WinSched"@,
        !managed && cpu_sets.len() > 0 ==> assignment_words(managed, cpu_sets) == "External"@,
        !managed && cpu_sets.len() == 0 ==> assignment_words(managed, cpu_sets) == "None"@,
{
}

/// What holds for a process is said by what comes first: an exclusion, then a
/// rule of its own, then that the settings are not known, then what holds for
/// all, and last that nothing does.
pub proof fn scopes_say_what_holds(
    config_available: bool,
    exact: Option<RuleView>,
    resolved: Option<ResolvedRule>,
    exclusion: Option<ExclusionReason>,
)
    ensures
        ({
            let words = scope_words(config_available, exact, resolved, exclusion);
            &&& exclusion is Some ==> crate::text::starts_with(words, "Excluded: "@)
                && exclusion_identifier(exclusion->0).is_suffix_of(words)
            &&& exclusion is None && exact is Some ==> crate::text::starts_with(words, "Exact: "@)
                && crate::rules::profile_identifier((exact->0).profile).is_suffix_of(words)
                && crate::text::starts_with(
                words,
                "Exact: "@ + crate::rules::mode_identifier((exact->0).mode),
            )
            &&& exclusion is None && exact is None && !config_available ==> words
                == "Config unavailable"@
            &&& exclusion is None && exact is None && config_available && resolved is None ==> words
                == "Out of scope"@
            &&& exclusion is None && exact is None && config_available && resolved is Some
                ==> crate::text::starts_with(
                words,
                "Default: "@ + crate::rules::placement_identifier((resolved->0).placement),
            ) && crate::rules::profile_identifier((resolved->0).profile).is_suffix_of(words)
        }),
{
    let words = scope_words(config_available, exact, resolved, exclusion);
    if exclusion is Some {
        let end = exclusion_identifier(exclusion->0);
        assert(words.take("Excluded: "@.len() as int) =~= "Excluded: "@);
        assert(words.subrange(words.len() - end.len(), words.len() as int) =~= end);
    } else if exact is Some {
        let end = crate::rules::profile_identifier((exact->0).profile);
        let start = "Exact: "@ + crate::rules::mode_identifier((exact->0).mode);
        assert(words.take("Exact: "@.len() as int) =~= "Exact: "@);
        assert(words.take(start.len() as int) =~= start);
        assert(words.subrange(words.len() - end.len(), words.len() as int) =~= end);
    } else if config_available && resolved is Some {
        let end = crate::rules::profile_identifier((resolved->0).profile);
        let start = "Default: "@ + crate::rules::placement_identifier((resolved->0).placement);
        assert(words.take(start.len() as int) =~= start);
        assert(words.subrange(words.len() - end.len(), words.len() as int) =~= end);
    }
}

/// The busier process comes first; of equally busy ones the one whose name
/// does, and of those with one name the one with the smaller number. A process
/// whose share is not known counts as idle.
pub proof fn busier_lines_come_first(a: RowView, b: RowView)
    ensures
        known_share(a) > known_share(b) ==> row_before(a, b) && !row_before(b, a),
        known_share(a) == known_share(b) && crate::text::text_before(a.image, b.image)
            ==> row_before(a, b),
        known_share(a) == known_share(b) && a.image == b.image ==> (row_before(a, b) <==> a.key.pid
            < b.key.pid),
        a.cpu_basis_points is None ==> known_share(a) == 0,
        a.cpu_basis_points matches Some(share) ==> known_share(a) == share,
{
    crate::text::text_order_is_irreflexive(a.image);
}

/// A process is found by any part of its name, in any case, and by any part of
/// its number; without a filter every process is shown. White space round what
/// is sought does not count.
pub proof fn processes_are_found_by_name_and_number(
    row: RowView,
    filter: Seq<char>,
    before: Seq<char>,
    part: Seq<char>,
    after: Seq<char>,
)
    requires
        crate::text::same_ignoring_case(crate::text::trim(filter), part),
    ensures
        row.image == before + part + after ==> is_shown(row, filter),
        crate::text::decimal(row.key.pid as nat) == before + sought(filter) + after ==> is_shown(
            row,
            filter,
        ),
        crate::text::trim(filter).len() == 0 ==> is_shown(row, filter),
{
    let lower = crate::text::ascii_lower_text(part);
    assert(sought(filter) == lower);
    if row.image == before + part + after {
        crate::text::parts_occur_in_the_whole(
            crate::text::ascii_lower_text(before),
            lower,
            crate::text::ascii_lower_text(after),
        );
        assert(crate::text::ascii_lower_text(row.image) =~= crate::text::ascii_lower_text(before)
            + lower + crate::text::ascii_lower_text(after));
    }
    crate::text::parts_occur_in_the_whole(before, sought(filter), after);
}

/// Every column has its title, and every cell of a line stands under its own.
pub proof fn cells_stand_under_their_titles(row: RowView, language: Language)
    ensures
        ({
            let cells = cell_words(row);
            let titles = title_words(language);
            &&& cells.len() == titles.len()
            &&& titles[0] == language.said("Process"@, "Процесс"@) && cells[0] == row.image
            &&& titles[1] == "PID"@ && cells[1] == crate::text::decimal(row.key.pid as nat)
            &&& titles[2] == language.said("Session"@, "Сеанс"@) && cells[2] == known_number(
                row.session_id,
            )
            &&& titles[3] == "CPU %"@ && (row.cpu_basis_points matches Some(share) ==> cells[3]
                == crate::template::hundredths(share as nat))
            &&& titles[4] == language.said("RAM"@, "ОЗУ"@) && (row.working_set_bytes matches Some(
                bytes,
            ) ==> cells[4] == mebibytes(bytes))
            &&& titles[5] == language.said("Threads"@, "Потоки"@) && cells[5]
                == crate::text::decimal(row.thread_count as nat)
            &&& titles[6] == language.said("Priority"@, "Приоритет"@) && cells[6] == priority_words(
                row.priority_class,
            )
            &&& titles[7] == "CPU Sets"@ && (row.cpu_sets.len() > 0 ==> cells[7] == joined_ids(
                row.cpu_sets,
            ))
            &&& titles[8] == "LLC"@ && cells[8] == row.llc
            &&& titles[9] == "EcoQoS"@ && cells[9] == eco_qos_words(row.eco_qos)
            &&& titles[10] == language.said("Memory"@, "Память"@) && cells[10]
                == memory_priority_words(row.memory_priority)
            &&& titles[11] == language.said("Rule / scope"@, "Правило / область"@) && cells[11]
                == row.scope
            &&& titles[12] == language.said("Assignment"@, "Назначение"@) && cells[12]
                == row.assignment
        }),
{
}

/// What is not known is shown by a dash, in every column that can be unknown.
pub proof fn unknown_values_are_dashes(row: RowView)
    ensures
        row.session_id is None ==> cell_words(row)[2] == "\u{2014}"@,
        row.cpu_basis_points is None ==> cell_words(row)[3] == "\u{2014}"@,
        row.working_set_bytes is None ==> cell_words(row)[4] == "\u{2014}"@,
        row.priority_class is None ==> cell_words(row)[6] == "\u{2014}"@,
        row.cpu_sets.len() == 0 ==> cell_words(row)[7] == "\u{2014}"@,
        row.eco_qos is None ==> cell_words(row)[9] == "\u{2014}"@,
        row.memory_priority is None ==> cell_words(row)[10] == "\u{2014}"@,
        domain_words(None) == "\u{2014}"@,
{
}

/// Numbers are listed in their order with commas between them.
pub proof fn numbers_are_listed_in_order(ids: Seq<u32>, id: u32)
    ensures
        joined_ids(seq![id]) == crate::text::decimal(id as nat),
        ids.len() > 0 ==> joined_ids(ids.push(id)) == joined_ids(ids) + ","@ + crate::text::decimal(
            id as nat,
        ),
{
    assert(ids.push(id).drop_last() =~= ids);
}

/// Each known priority class, EcoQoS state and memory priority has its words,
/// and no two have the same.
pub proof fn priorities_have_their_words(value: u32)
    ensures
        value == 0x100 <==> priority_words(Some(value)) == "Realtime"@,
        value == 0x80 <==> priority_words(Some(value)) == "High"@,
        value == 0x8000 <==> priority_words(Some(value)) == "Above Normal"@,
        value == 0x20 <==> priority_words(Some(value)) == "Normal"@,
        value == 0x4000 <==> priority_words(Some(value)) == "Below Normal"@,
        value == 0x40 <==> priority_words(Some(value)) == "Idle"@,
{
    reveal_strlit("Realtime");
    reveal_strlit("High");
    reveal_strlit("Above Normal");
    reveal_strlit("Normal");
    reveal_strlit("Below Normal");
    reveal_strlit("Idle");
    reveal_strlit("0x");
    assert("Realtime"@[0] == 'R' && "High"@[0] == 'H' && "Above Normal"@[0] == 'A'
        && "Normal"@[0] == 'N' && "Below Normal"@[0] == 'B' && "Idle"@[0] == 'I');
    assert(("0x"@ + crate::text::hexadecimal(value as nat))[0] == '0');
}

/// No two EcoQoS states and no two memory priorities have the same word.
pub proof fn efficiency_words_differ(
    a: ProcessEcoQosState,
    b: ProcessEcoQosState,
    c: ProcessMemoryPriority,
    d: ProcessMemoryPriority,
)
    ensures
        a != b ==> eco_qos_words(Some(a)) != eco_qos_words(Some(b)),
        c != d ==> memory_priority_words(Some(c)) != memory_priority_words(Some(d)),
        eco_qos_words(Some(ProcessEcoQosState::Enabled)) == "Enabled"@,
        memory_priority_words(Some(ProcessMemoryPriority::Normal)) == "Normal"@,
        memory_priority_words(Some(ProcessMemoryPriority::VeryLow)) == "Very Low"@,
{
    reveal_strlit("Enabled");
    reveal_strlit("Disabled");
    reveal_strlit("Unset");
    reveal_strlit("Very Low");
    reveal_strlit("Low");
    reveal_strlit("Medium");
    reveal_strlit("Below Normal");
    reveal_strlit("Normal");
    assert("Enabled"@[0] == 'E' && "Disabled"@[0] == 'D' && "Unset"@[0] == 'U');
    assert("Very Low"@[0] == 'V' && "Low"@[0] == 'L' && "Medium"@[0] == 'M' && "Below Normal"@[0]
        == 'B' && "Normal"@[0] == 'N');
}

/// Bytes are told in tenths of a mebibyte, cut to what is full.
pub proof fn bytes_are_told_in_mebibytes(bytes: u64)
    requires
        bytes * 10 <= u64::MAX,
    ensures
        exists|tenths: nat|
            tenths * 1_048_576 <= bytes * 10 && bytes * 10 < (tenths + 1) * 1_048_576
                && #[trigger] tenths_written(tenths) == mebibytes(bytes),
{
    let tenths = ((bytes * 10) as nat) / 1_048_576;
    assert(tenths_written(tenths) == mebibytes(bytes));
}

/// Tenths with one digit behind the point, in mebibytes.
pub open spec fn tenths_written(tenths: nat) -> Seq<char> {
    crate::text::decimal(tenths / 10) + "."@ + crate::text::decimal(tenths % 10) + " MiB"@
}

/// The menu of a line offers to edit the rule of a process that has one and
/// is not excluded, and else to make one; it offers nothing for a process that
/// is excluded and has none, and says why.
pub proof fn menus_offer_what_is_allowed(
    context: RowContext,
    process: MonitoredProcess,
    at: int,
    language: Language,
)
    ensures
        ({
            let row = row_of(context, process, at);
            let menu = menu_words(row, language);
            let excluded = process.process.exclusion is Some;
            &&& menu.allowed <==> row.has_exact_rule || !excluded
            &&& menu.allowed <==> menu.refusal is None
            &&& !menu.allowed ==> menu.refusal == Some(language.words(RULE_REFUSED))
            &&& row.has_exact_rule && !excluded ==> menu.label == language.words(EDIT_RULE)
            &&& !row.has_exact_rule ==> menu.label == language.words(CREATE_RULE)
        }),
{
    let row = row_of(context, process, at);
    reveal_strlit("Exact");
    reveal_strlit("Exact: ");
    reveal_strlit("Excluded: ");
    reveal_strlit("Config unavailable");
    reveal_strlit("Out of scope");
    reveal_strlit("Default: ");
    if row.has_exact_rule && process.process.exclusion is None {
        assert(row.scope.take(5) =~= "Exact"@);
    } else if crate::text::starts_with(row.scope, "Exact"@) {
        assert(row.scope.take(5)[0] == 'E' && row.scope.take(5)[2] == 'a');
        assert(row.scope[0] == 'E' && row.scope[2] == 'a');
        if process.process.exclusion is Some {
            assert(row.scope[2] == "Excluded: "@[2]);
        }
    }
}

} // verus!
