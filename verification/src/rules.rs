//! Rules for processes by the name of their executable.
use vstd::prelude::*;

use crate::language::Language;
use crate::observations::PlacementMode;
use crate::observations::WorkloadProfile;
use crate::observed::LlcDomainKey;
use crate::text::eq_ignore_ascii_case;
use crate::text::push_decimal;
use crate::text::same_text;

verus! {

/// How a rule places a process.
#[derive(Debug, Clone, Copy, PartialEq, Eq, Structural)]
pub enum RuleMode {
    Off,
    Sticky,
    Auto,
    Performance,
    Efficiency,
    Strict,
}

/// What is said of the processes of one executable.
#[derive(Debug, Clone, PartialEq, Eq)]
pub struct ProcessRule {
    pub image: String,
    pub mode: RuleMode,
    pub profile: WorkloadProfile,
    /// The processor group that the strict mode pins to.
    pub group: Option<u16>,
    /// The cache of that group that the strict mode pins to.
    pub llc: Option<u8>,
}

/// What is said of the processes of one executable, with its name as a
/// sequence.
#[verifier::ext_equal]
pub struct RuleView {
    pub image: Seq<char>,
    pub mode: RuleMode,
    pub profile: WorkloadProfile,
    pub group: Option<u16>,
    pub llc: Option<u8>,
}

impl View for ProcessRule {
    type V = RuleView;

    open spec fn view(&self) -> RuleView {
        RuleView {
            image: self.image@,
            mode: self.mode,
            profile: self.profile,
            group: self.group,
            llc: self.llc,
        }
    }
}

/// Rules with their names as sequences.
pub open spec fn rule_views(rules: Seq<ProcessRule>) -> Seq<RuleView> {
    rules.map_values(|rule: ProcessRule| rule@)
}

/// Whether a rule is for an executable. The case of ASCII letters does not
/// matter.
pub open spec fn is_for(rule: RuleView, image: Seq<char>) -> bool {
    crate::text::same_ignoring_case(rule.image, image)
}

/// The place of the first rule for an executable.
pub open spec fn rule_place(rules: Seq<RuleView>, image: Seq<char>) -> Option<int>
    decreases rules.len(),
{
    if rules.len() == 0 {
        None
    } else if is_for(rules[0], image) {
        Some(0)
    } else {
        match rule_place(rules.skip(1), image) {
            Some(at) => Some(at + 1),
            None => None,
        }
    }
}

/// The first rule for an executable is at a place that exists, and is for it;
/// where there is none, no rule is for it.
pub proof fn rule_place_is_sound(rules: Seq<RuleView>, image: Seq<char>)
    ensures
        rule_place(rules, image) matches Some(at) ==> {
            &&& 0 <= at < rules.len()
            &&& is_for(rules[at], image)
            &&& forall|i: int| 0 <= i < at ==> !is_for(#[trigger] rules[i], image)
        },
        rule_place(rules, image) is None ==> forall|i: int|
            0 <= i < rules.len() ==> !is_for(#[trigger] rules[i], image),
    decreases rules.len(),
{
    if rules.len() > 0 && !is_for(rules[0], image) {
        let rest = rules.skip(1);
        rule_place_is_sound(rest, image);
        assert forall|i: int|
            0 < i < rules.len() && !is_for(rest[i - 1], image) implies !is_for(
            #[trigger] rules[i],
            image,
        ) by {
            assert(rest[i - 1] == rules[i]);
        }
    }
}

/// Finds the first rule for an executable.
pub fn find_rule(rules: &Vec<ProcessRule>, image: &str) -> (place: Option<usize>)
    ensures
        match place {
            Some(at) => rule_place(rule_views(rules@), image@) == Some(at as int) && at
                < rules.len(),
            None => rule_place(rule_views(rules@), image@) is None,
        },
{
    let ghost views = rule_views(rules@);
    let mut at: usize = 0;
    proof {
        rule_place_is_sound(views, image@);
    }
    while at < rules.len()
        invariant
            at <= rules.len(),
            views == rule_views(rules@),
            forall|i: int| 0 <= i < at ==> !is_for(#[trigger] views[i], image@),
            rule_place(views, image@) matches Some(first) ==> {
                &&& 0 <= first < views.len()
                &&& is_for(views[first], image@)
                &&& forall|i: int| 0 <= i < first ==> !is_for(#[trigger] views[i], image@)
            },
            rule_place(views, image@) is None ==> forall|i: int|
                0 <= i < views.len() ==> !is_for(#[trigger] views[i], image@),
        decreases rules.len() - at,
    {
        proof {
            assert(views[at as int] == rules@[at as int]@);
        }
        if eq_ignore_ascii_case(rules[at].image.as_str(), image) {
            return Some(at);
        }
        at = at + 1;
    }
    None
}

/// A new rule for an executable, before anything is changed in it.
pub open spec fn draft_of(image: Seq<char>) -> RuleView {
    RuleView {
        image,
        mode: RuleMode::Auto,
        profile: WorkloadProfile::Balanced,
        group: None,
        llc: None,
    }
}

/// The rules with one for an executable, which is new where there was none.
pub open spec fn drafted(rules: Seq<RuleView>, image: Seq<char>) -> Seq<RuleView> {
    if rule_place(rules, image) is Some {
        rules
    } else {
        rules.push(draft_of(image))
    }
}

/// Adds a rule to the end.
pub fn add_rule(rules: &mut Vec<ProcessRule>, image: &str)
    ensures
        rule_views(final(rules)@) == rule_views(old(rules)@).push(draft_of(image@)),
{
    rules.push(
        ProcessRule {
            image: image.to_owned(),
            mode: RuleMode::Auto,
            profile: WorkloadProfile::Balanced,
            group: None,
            llc: None,
        },
    );
    proof {
        assert(rule_views(rules@) =~= rule_views(old(rules)@).push(draft_of(image@)));
    }
}

/// Sees to it that there is a rule for an executable, and says whether it is
/// new.
pub fn ensure_exact_rule_draft(rules: &mut Vec<ProcessRule>, image: &str) -> (new: bool)
    ensures
        rule_views(final(rules)@) == drafted(rule_views(old(rules)@), image@),
        new == (rule_place(rule_views(old(rules)@), image@) is None),
{
    if find_rule(rules, image).is_some() {
        return false;
    }
    add_rule(rules, image);
    true
}

/// After a rule was drafted there is one for the executable, however its name
/// is capitalised, so that drafting it again changes nothing.
pub proof fn one_draft_is_enough(rules: Seq<RuleView>, image: Seq<char>, again: Seq<char>)
    requires
        crate::text::same_ignoring_case(image, again),
    ensures
        rule_place(drafted(rules, image), again) is Some,
        drafted(drafted(rules, image), again) == drafted(rules, image),
{
    let now = drafted(rules, image);
    rule_place_is_sound(rules, image);
    rule_place_is_sound(now, again);
    if rule_place(now, again) is None {
        if rule_place(rules, image) is Some {
            assert(!is_for(now[rule_place(rules, image)->0], again));
        } else {
            assert(now[rules.len() as int] == draft_of(image));
            assert(!is_for(now[rules.len() as int], again));
        }
    }
}

/// Drafting a rule leaves every rule that there was as it was.
pub proof fn drafts_keep_the_rules(rules: Seq<RuleView>, image: Seq<char>)
    ensures
        rules.len() <= drafted(rules, image).len() <= rules.len() + 1,
        drafted(rules, image).take(rules.len() as int) == rules,
{
    assert(drafted(rules, image).take(rules.len() as int) =~= rules);
}

/// A rule after its mode was chosen. The strict mode needs a group and a
/// cache, the others have none; a choice that changes nothing leaves the rule
/// alone.
pub open spec fn with_mode(rule: RuleView, mode: RuleMode) -> RuleView {
    if rule.mode == mode {
        rule
    } else if mode == RuleMode::Strict {
        RuleView {
            mode,
            group: Some(
                match rule.group {
                    Some(group) => group,
                    None => 0,
                },
            ),
            llc: Some(
                match rule.llc {
                    Some(llc) => llc,
                    None => 0,
                },
            ),
            ..rule
        }
    } else {
        RuleView { mode, group: None, llc: None, ..rule }
    }
}

/// Chooses the mode of a rule.
pub fn choose_mode(rule: &mut ProcessRule, mode: RuleMode)
    ensures
        final(rule)@ == with_mode(old(rule)@, mode),
{
    if rule.mode == mode {
        return ;
    }
    rule.mode = mode;
    if mode == RuleMode::Strict {
        if rule.group.is_none() {
            rule.group = Some(0);
        }
        if rule.llc.is_none() {
            rule.llc = Some(0);
        }
    } else {
        rule.group = None;
        rule.llc = None;
    }
}

/// Choosing a mode that a rule does not have leaves it with a group and a
/// cache exactly where it is the strict one.
pub proof fn only_strict_rules_name_a_domain(rule: RuleView, mode: RuleMode)
    requires
        rule.mode != mode,
    ensures
        with_mode(rule, mode).mode == mode,
        (with_mode(rule, mode).group is Some) == (mode == RuleMode::Strict),
        (with_mode(rule, mode).llc is Some) == (mode == RuleMode::Strict),
        with_mode(rule, mode).image == rule.image,
        with_mode(rule, mode).profile == rule.profile,
{
}

/// The same rules in the same order.
pub fn same_rules(a: &Vec<ProcessRule>, b: &Vec<ProcessRule>) -> (same: bool)
    ensures
        same == (rule_views(a@) == rule_views(b@)),
{
    let ghost left = rule_views(a@);
    let ghost right = rule_views(b@);
    if a.len() != b.len() {
        proof {
            assert(left.len() != right.len());
        }
        return false;
    }
    let mut at: usize = 0;
    while at < a.len()
        invariant
            at <= a.len(),
            a.len() == b.len(),
            left == rule_views(a@),
            right == rule_views(b@),
            forall|i: int| 0 <= i < at ==> left[i] == right[i],
        decreases a.len() - at,
    {
        let same = a[at].mode == b[at].mode && a[at].profile == b[at].profile && a[at].group
            == b[at].group && a[at].llc == b[at].llc && same_text(
            a[at].image.as_str(),
            b[at].image.as_str(),
        );
        proof {
            assert(left[at as int] == a@[at as int]@);
            assert(right[at as int] == b@[at as int]@);
        }
        if !same {
            return false;
        }
        at = at + 1;
    }
    proof {
        assert(left =~= right);
    }
    true
}

/// A copy of the rules.
pub fn copy_rules(rules: &Vec<ProcessRule>) -> (copy: Vec<ProcessRule>)
    ensures
        rule_views(copy@) == rule_views(rules@),
{
    let mut copy: Vec<ProcessRule> = Vec::new();
    let mut at: usize = 0;
    while at < rules.len()
        invariant
            at <= rules.len(),
            copy.len() == at,
            forall|i: int| 0 <= i < at ==> (#[trigger] copy@[i])@ == rules@[i]@,
        decreases rules.len() - at,
    {
        let rule = &rules[at];
        copy.push(
            ProcessRule {
                image: rule.image.as_str().to_owned(),
                mode: rule.mode,
                profile: rule.profile,
                group: rule.group,
                llc: rule.llc,
            },
        );
        at = at + 1;
    }
    proof {
        assert(rule_views(copy@) =~= rule_views(rules@));
    }
    copy
}

/// The plain word for a mode.
pub open spec fn mode_identifier(mode: RuleMode) -> Seq<char> {
    match mode {
        RuleMode::Off => "Off"@,
        RuleMode::Sticky => "Sticky"@,
        RuleMode::Auto => "Auto"@,
        RuleMode::Performance => "Performance"@,
        RuleMode::Efficiency => "Efficiency"@,
        RuleMode::Strict => "Strict"@,
    }
}

/// The plain word for a mode.
pub fn mode_identifier_text(mode: RuleMode) -> (text: &'static str)
    ensures
        text@ == mode_identifier(mode),
{
    match mode {
        RuleMode::Off => "Off",
        RuleMode::Sticky => "Sticky",
        RuleMode::Auto => "Auto",
        RuleMode::Performance => "Performance",
        RuleMode::Efficiency => "Efficiency",
        RuleMode::Strict => "Strict",
    }
}

/// The plain word for a profile.
pub open spec fn profile_identifier(profile: WorkloadProfile) -> Seq<char> {
    match profile {
        WorkloadProfile::Balanced => "Balanced"@,
        WorkloadProfile::Interactive => "Interactive"@,
        WorkloadProfile::Memory => "Memory"@,
        WorkloadProfile::Compute => "Compute"@,
        WorkloadProfile::Background => "Background"@,
    }
}

/// The plain word for a profile.
pub fn profile_identifier_text(profile: WorkloadProfile) -> (text: &'static str)
    ensures
        text@ == profile_identifier(profile),
{
    match profile {
        WorkloadProfile::Balanced => "Balanced",
        WorkloadProfile::Interactive => "Interactive",
        WorkloadProfile::Memory => "Memory",
        WorkloadProfile::Compute => "Compute",
        WorkloadProfile::Background => "Background",
    }
}

/// The plain words for a placement.
pub open spec fn placement_identifier(placement: PlacementMode) -> Seq<char> {
    match placement {
        PlacementMode::Off => "Off"@,
        PlacementMode::Sticky => "Sticky"@,
        PlacementMode::Auto => "Auto"@,
        PlacementMode::Performance => "Performance"@,
        PlacementMode::Efficiency => "Efficiency"@,
        PlacementMode::Strict(domain) => "Strict(LlcDomainKey { group: "@ + crate::text::decimal(
            domain.group as nat,
        ) + ", last_level_cache_index: "@ + crate::text::decimal(
            domain.last_level_cache_index as nat,
        ) + " })"@,
    }
}

/// The plain words for a placement.
pub fn placement_identifier_text(placement: PlacementMode) -> (text: String)
    ensures
        text@ == placement_identifier(placement),
{
    match placement {
        PlacementMode::Off => "Off".to_owned(),
        PlacementMode::Sticky => "Sticky".to_owned(),
        PlacementMode::Auto => "Auto".to_owned(),
        PlacementMode::Performance => "Performance".to_owned(),
        PlacementMode::Efficiency => "Efficiency".to_owned(),
        PlacementMode::Strict(domain) => strict_text(domain),
    }
}

fn strict_text(domain: LlcDomainKey) -> (text: String)
    ensures
        text@ == placement_identifier(PlacementMode::Strict(domain)),
{
    let mut text = "Strict(LlcDomainKey { group: ".to_owned();
    push_decimal(&mut text, domain.group as u64);
    text.append(", last_level_cache_index: ");
    push_decimal(&mut text, domain.last_level_cache_index as u64);
    text.append(" })");
    text
}

/// The name of a mode.
pub open spec fn mode_name(mode: RuleMode, language: Language) -> Seq<char> {
    match mode {
        RuleMode::Off => language.said("Off"@, "Выключен"@),
        RuleMode::Sticky => language.said("Sticky"@, "Закреплённый"@),
        RuleMode::Auto => language.said("Auto"@, "Авто"@),
        RuleMode::Performance => language.said("Performance"@, "Производительность"@),
        RuleMode::Efficiency => language.said("Efficiency"@, "Эффективность"@),
        RuleMode::Strict => language.said("Strict domain"@, "Строгий домен"@),
    }
}

/// The name of a mode.
pub fn rule_mode_name(mode: RuleMode, language: Language) -> (text: &'static str)
    ensures
        text@ == mode_name(mode, language),
{
    match mode {
        RuleMode::Off => language.text("Off", "Выключен"),
        RuleMode::Sticky => language.text("Sticky", "Закреплённый"),
        RuleMode::Auto => language.text("Auto", "Авто"),
        RuleMode::Performance => language.text("Performance", "Производительность"),
        RuleMode::Efficiency => language.text("Efficiency", "Эффективность"),
        RuleMode::Strict => language.text("Strict domain", "Строгий домен"),
    }
}

/// The name of a profile.
pub open spec fn profile_name(profile: WorkloadProfile, language: Language) -> Seq<char> {
    match profile {
        WorkloadProfile::Interactive => language.said("Interactive"@, "Интерактивный"@),
        WorkloadProfile::Memory => language.said("Memory-bound"@, "Ограничен памятью"@),
        WorkloadProfile::Compute => language.said("Compute"@, "Вычислительный"@),
        WorkloadProfile::Background => language.said("Background"@, "Фоновый"@),
        WorkloadProfile::Balanced => language.said("Balanced"@, "Сбалансированный"@),
    }
}

/// The name of a profile.
pub fn workload_profile_name(profile: WorkloadProfile, language: Language) -> (text: &'static str)
    ensures
        text@ == profile_name(profile, language),
{
    match profile {
        WorkloadProfile::Interactive => language.text("Interactive", "Интерактивный"),
        WorkloadProfile::Memory => language.text("Memory-bound", "Ограничен памятью"),
        WorkloadProfile::Compute => language.text("Compute", "Вычислительный"),
        WorkloadProfile::Background => language.text("Background", "Фоновый"),
        WorkloadProfile::Balanced => language.text("Balanced", "Сбалансированный"),
    }
}

/// A rule with the domain that it pins to: a strict rule that names no group
/// or no cache pins to the first one.
pub open spec fn with_domain(rule: RuleView) -> RuleView {
    if rule.mode == RuleMode::Strict {
        RuleView {
            group: Some(
                match rule.group {
                    Some(group) => group,
                    None => 0,
                },
            ),
            llc: Some(
                match rule.llc {
                    Some(llc) => llc,
                    None => 0,
                },
            ),
            ..rule
        }
    } else {
        rule
    }
}

/// Names the domain of strict rules that name none.
pub fn complete_strict_rules(rules: &mut Vec<ProcessRule>)
    ensures
        rule_views(final(rules)@) == rule_views(old(rules)@).map_values(
            |rule: RuleView| with_domain(rule),
        ),
{
    let ghost before = rule_views(rules@);
    let mut at: usize = 0;
    while at < rules.len()
        invariant
            at <= rules.len(),
            rules.len() == before.len(),
            rule_views(rules@).len() == before.len(),
            forall|i: int| 0 <= i < at ==> #[trigger] rule_views(rules@)[i] == with_domain(before[i]),
            forall|i: int| at <= i < before.len() ==> #[trigger] rule_views(rules@)[i] == before[i],
        decreases rules.len() - at,
    {
        let ghost now = rule_views(rules@);
        let mut rule = rules.remove(at);
        proof {
            assert(rule@ == now[at as int]);
        }
        if rule.mode == RuleMode::Strict {
            if rule.group.is_none() {
                rule.group = Some(0);
            }
            if rule.llc.is_none() {
                rule.llc = Some(0);
            }
        }
        let ghost completed = rule@;
        rules.insert(at, rule);
        proof {
            assert(completed == with_domain(before[at as int]));
            assert(rule_views(rules@) =~= now.update(at as int, completed));
        }
        at = at + 1;
    }
    proof {
        assert(rule_views(rules@) =~= before.map_values(|rule: RuleView| with_domain(rule)));
    }
}

/// A strict rule on the page names its domain, and completing it again changes
/// nothing.
pub proof fn strict_rules_name_their_domain(rule: RuleView)
    ensures
        rule.mode == RuleMode::Strict ==> with_domain(rule).group is Some && with_domain(rule).llc
            is Some,
        with_domain(with_domain(rule)) == with_domain(rule),
        rule.group is Some && rule.llc is Some ==> with_domain(rule) == rule,
{
}

/// The modes that a rule can have, in the order in which they are offered.
/// The strict one is offered only where a domain can be named.
pub open spec fn offered_modes(allow_strict: bool) -> Seq<RuleMode> {
    let plain = seq![
        RuleMode::Off,
        RuleMode::Sticky,
        RuleMode::Auto,
        RuleMode::Performance,
        RuleMode::Efficiency,
    ];
    if allow_strict {
        plain.push(RuleMode::Strict)
    } else {
        plain
    }
}

/// The modes that a rule can have, in the order in which they are offered.
pub fn rule_mode_choices(allow_strict: bool) -> (modes: Vec<RuleMode>)
    ensures
        modes@ == offered_modes(allow_strict),
{
    let mut modes = vec![
        RuleMode::Off,
        RuleMode::Sticky,
        RuleMode::Auto,
        RuleMode::Performance,
        RuleMode::Efficiency,
    ];
    if allow_strict {
        modes.push(RuleMode::Strict);
    }
    modes
}

/// The profiles that a rule can have, in the order in which they are offered.
pub open spec fn offered_profiles() -> Seq<WorkloadProfile> {
    seq![
        WorkloadProfile::Interactive,
        WorkloadProfile::Memory,
        WorkloadProfile::Compute,
        WorkloadProfile::Background,
        WorkloadProfile::Balanced,
    ]
}

/// The profiles that a rule can have, in the order in which they are offered.
pub fn workload_profile_choices() -> (profiles: Vec<WorkloadProfile>)
    ensures
        profiles@ == offered_profiles(),
{
    vec![
        WorkloadProfile::Interactive,
        WorkloadProfile::Memory,
        WorkloadProfile::Compute,
        WorkloadProfile::Background,
        WorkloadProfile::Balanced,
    ]
}

/// What is picked from a list by its place. A place behind the last picks
/// nothing new.
pub open spec fn picked<T>(offered: Seq<T>, at: u64, now: T) -> T {
    if at < offered.len() {
        offered[at as int]
    } else {
        now
    }
}

/// Picks a mode from those that are offered.
pub fn pick_mode(allow_strict: bool, at: u64, now: RuleMode) -> (mode: RuleMode)
    ensures
        mode == picked(offered_modes(allow_strict), at, now),
{
    let modes = rule_mode_choices(allow_strict);
    if at < modes.len() as u64 {
        modes[at as usize]
    } else {
        now
    }
}

/// Picks a profile from those that are offered.
pub fn pick_profile(at: u64, now: WorkloadProfile) -> (profile: WorkloadProfile)
    ensures
        profile == picked(offered_profiles(), at, now),
{
    let profiles = workload_profile_choices();
    if at < profiles.len() as u64 {
        profiles[at as usize]
    } else {
        now
    }
}

/// Every mode is offered, and none twice; the strict one only where it may be
/// had, and then after the others.
pub proof fn every_mode_is_offered_once(allow_strict: bool, mode: RuleMode)
    ensures
        ({
            let offered = offered_modes(allow_strict);
            &&& offered.no_duplicates()
            &&& offered.contains(mode) <==> (allow_strict || mode != RuleMode::Strict)
            &&& forall|i: int|
                0 <= i < offered.len() && #[trigger] offered[i] == RuleMode::Strict ==> i
                    == offered.len() - 1
            &&& offered_modes(false) == offered_modes(true).drop_last()
        }),
{
    let offered = offered_modes(allow_strict);
    assert(offered[0] == RuleMode::Off);
    assert(offered[1] == RuleMode::Sticky);
    assert(offered[2] == RuleMode::Auto);
    assert(offered[3] == RuleMode::Performance);
    assert(offered[4] == RuleMode::Efficiency);
    if allow_strict {
        assert(offered[5] == RuleMode::Strict);
    }
    assert(offered_modes(false) =~= offered_modes(true).drop_last());
}

/// Every profile is offered, and none twice.
pub proof fn every_profile_is_offered_once(profile: WorkloadProfile)
    ensures
        offered_profiles().no_duplicates(),
        offered_profiles().contains(profile),
{
    let offered = offered_profiles();
    assert(offered[0] == WorkloadProfile::Interactive);
    assert(offered[1] == WorkloadProfile::Memory);
    assert(offered[2] == WorkloadProfile::Compute);
    assert(offered[3] == WorkloadProfile::Background);
    assert(offered[4] == WorkloadProfile::Balanced);
}

/// Whatever is offered can be picked, and nothing else comes of picking than
/// what is offered or what there was.
pub proof fn what_is_offered_can_be_picked<T>(offered: Seq<T>, at: u64, now: T)
    ensures
        at < offered.len() ==> picked(offered, at, now) == offered[at as int],
        at >= offered.len() ==> picked(offered, at, now) == now,
        picked(offered, at, picked(offered, at, now)) == picked(offered, at, now),
{
}

/// A rule that becomes strict keeps the group and the cache that it names, and
/// gets the first of those that it does not name. A rule that becomes anything
/// else names neither. Choosing a mode twice is choosing it once.
pub proof fn chosen_modes_keep_the_named_domain(rule: RuleView, mode: RuleMode)
    ensures
        ({
            let chosen = with_mode(rule, mode);
            &&& chosen.mode == mode
            &&& rule.mode == mode ==> chosen == rule
            &&& mode == RuleMode::Strict && rule.mode != mode ==> {
                &&& rule.group is Some ==> chosen.group == rule.group
                &&& rule.group is None ==> chosen.group == Some(0u16)
                &&& rule.llc is Some ==> chosen.llc == rule.llc
                &&& rule.llc is None ==> chosen.llc == Some(0u8)
                &&& with_domain(chosen) == chosen
            }
            &&& mode != RuleMode::Strict && rule.mode != mode ==> chosen.group is None
                && chosen.llc is None
            &&& with_mode(chosen, mode) == chosen
        }),
{
}

/// Completing a rule changes nothing but the group and the cache of a strict
/// rule that does not name them, which become the first.
pub proof fn completed_rules_keep_what_they_say(rule: RuleView)
    ensures
        ({
            let completed = with_domain(rule);
            &&& completed.image == rule.image
            &&& completed.mode == rule.mode
            &&& completed.profile == rule.profile
            &&& rule.mode != RuleMode::Strict ==> completed == rule
            &&& rule.group is Some ==> completed.group == rule.group
            &&& rule.llc is Some ==> completed.llc == rule.llc
            &&& rule.mode == RuleMode::Strict && rule.group is None ==> completed.group == Some(
                0u16,
            )
            &&& rule.mode == RuleMode::Strict && rule.llc is None ==> completed.llc == Some(0u8)
        }),
{
}

/// A rule is found by the name that it was drafted for, at the end where it is
/// new; it lets the controller place the process and favours nothing.
pub proof fn new_rules_are_neutral(rules: Seq<RuleView>, image: Seq<char>)
    requires
        rule_place(rules, image) is None,
    ensures
        ({
            let now = drafted(rules, image);
            &&& rule_place(now, image) == Some(rules.len() as int)
            &&& now.last().image == image
            &&& now.last().mode == RuleMode::Auto
            &&& now.last().profile == WorkloadProfile::Balanced
            &&& now.last().group is None && now.last().llc is None
        }),
{
    let now = drafted(rules, image);
    rule_place_is_sound(rules, image);
    rule_place_is_sound(now, image);
    assert(is_for(now[rules.len() as int], image));
    assert(forall|i: int| 0 <= i < rules.len() ==> now[i] == rules[i]);
    if rule_place(now, image) is Some {
        let at = rule_place(now, image)->0;
        if at < rules.len() {
            assert(is_for(rules[at], image));
        }
    }
}

/// No two modes have one name or one plain word.
pub proof fn mode_words_differ(a: RuleMode, b: RuleMode, language: Language)
    requires
        a != b,
    ensures
        mode_identifier(a) != mode_identifier(b),
        mode_name(a, language) != mode_name(b, language),
{
    reveal_strlit("Off");
    reveal_strlit("Sticky");
    reveal_strlit("Auto");
    reveal_strlit("Performance");
    reveal_strlit("Efficiency");
    reveal_strlit("Strict");
    reveal_strlit("Strict domain");
    reveal_strlit("Выключен");
    reveal_strlit("Закреплённый");
    reveal_strlit("Авто");
    reveal_strlit("Производительность");
    reveal_strlit("Эффективность");
    reveal_strlit("Строгий домен");
    assert("Off"@.len() == 3 && "Sticky"@.len() == 6 && "Auto"@.len() == 4 && "Performance"@.len()
        == 11 && "Efficiency"@.len() == 10 && "Strict"@.len() == 6 && "Strict domain"@.len() == 13);
    assert("Sticky"@[2] == 'i' && "Strict"@[2] == 'r');
    assert("Выключен"@.len() == 8 && "Закреплённый"@.len() == 12 && "Авто"@.len() == 4
        && "Производительность"@.len() == 18);
    assert("Эффективность"@[0] == 'Э' && "Строгий домен"@[0] == 'С');
    assert("Эффективность"@.len() == 13 && "Строгий домен"@.len() == 13);
}

/// No two profiles have one name or one plain word.
pub proof fn profile_words_differ(a: WorkloadProfile, b: WorkloadProfile, language: Language)
    requires
        a != b,
    ensures
        profile_identifier(a) != profile_identifier(b),
        profile_name(a, language) != profile_name(b, language),
{
    reveal_strlit("Balanced");
    reveal_strlit("Interactive");
    reveal_strlit("Memory");
    reveal_strlit("Memory-bound");
    reveal_strlit("Compute");
    reveal_strlit("Background");
    reveal_strlit("Сбалансированный");
    reveal_strlit("Интерактивный");
    reveal_strlit("Ограничен памятью");
    reveal_strlit("Вычислительный");
    reveal_strlit("Фоновый");
    assert("Balanced"@.len() == 8 && "Interactive"@.len() == 11 && "Memory"@.len() == 6
        && "Compute"@.len() == 7 && "Background"@.len() == 10 && "Memory-bound"@.len() == 12);
    assert("Сбалансированный"@[0] == 'С' && "Интерактивный"@[0] == 'И'
        && "Ограничен памятью"@[0] == 'О' && "Вычислительный"@[0] == 'В' && "Фоновый"@[0] == 'Ф');
}

} // verus!
