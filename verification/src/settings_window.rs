//! The window with the settings: its titles and buttons, the page with the
//! rules and the page on diagnostics.
use vstd::prelude::*;

use crate::diagnostics::diagnostic_finding_text;
use crate::diagnostics::diagnostic_metrics;
use crate::diagnostics::finding_identifier;
use crate::diagnostics::DiagnosticFindingCode;
use crate::diagnostics::DiagnosticReport;
use crate::diagnostics::DiagnosticSeverity;
use crate::diagnostics::Readings;
use crate::editor::BannerKind;
use crate::editor::EditorView;
use crate::editor::PendingDiagnostic;
use crate::editor::SettingsEditor;
use crate::editor::SettingsTab;
use crate::language::Language;
use crate::panel::ItemKind;
use crate::panel::ItemView;
use crate::panel::Panel;
use crate::rules::pick_mode;
use crate::rules::pick_profile;
use crate::rules::rule_mode_name;
use crate::rules::workload_profile_name;
use crate::rules::ProcessRule;
use crate::rules::RuleMode;
use crate::rules::RuleView;
use crate::settings_config::ConfigView;
use crate::settings_config::Field;
use crate::settings_panels::controller_efficiency_status;
use crate::settings_panels::diagnostic_progress;
use crate::settings_panels::ServiceWork;
use crate::settings_texts::ADD_RULE;
use crate::settings_texts::APPLY_BUTTON;
use crate::settings_texts::BANNER_ERROR;
use crate::settings_texts::BANNER_INFORMATION;
use crate::settings_texts::BANNER_SUCCESS;
use crate::settings_texts::CANCELLING;
use crate::settings_texts::CANCEL_BUTTON;
use crate::settings_texts::CLOSE_BUTTON;
use crate::settings_texts::COLLECTING;
use crate::settings_texts::COPY_BUTTON;
use crate::settings_texts::COPY_HELP;
use crate::settings_texts::DIAGNOSTICS_HEADING;
use crate::settings_texts::DIAGNOSTICS_INTRO;
use crate::settings_texts::FINDINGS_HEADING;
use crate::settings_texts::GROUP_LABEL;
use crate::settings_texts::IMAGE_HELP;
use crate::settings_texts::IMAGE_LABEL;
use crate::settings_texts::LLC_LABEL;
use crate::settings_texts::NO_RULES;
use crate::settings_texts::NO_RULES_HINT;
use crate::settings_texts::PLACEMENT_LABEL;
use crate::settings_texts::PROFILE_LABEL;
use crate::settings_texts::RELOAD_BUTTON;
use crate::settings_texts::REMOVE_RULE;
use crate::settings_texts::RESTORE_BUTTON;
use crate::settings_texts::RULES_HEADING;
use crate::settings_texts::RULES_INTRO;
use crate::settings_texts::RULE_MODE_HELP;
use crate::settings_texts::RULE_MODE_PART;
use crate::settings_texts::RULE_PROFILE_PART;
use crate::settings_texts::RULE_TITLE;
use crate::settings_texts::RUN_BUTTON;
use crate::settings_texts::RUN_HELP;
use crate::settings_texts::SAVE_BUTTON;
use crate::settings_texts::SAVE_HELP;
use crate::settings_texts::STOP_BUTTON;
use crate::settings_texts::STOP_HELP;
use crate::settings_texts::STRICT_HELP;
use crate::settings_texts::STRICT_NOTE;
use crate::settings_texts::TAB_ADAPTIVE;
use crate::settings_texts::TAB_BACKGROUND;
use crate::settings_texts::TAB_DIAGNOSTICS;
use crate::settings_texts::TAB_GENERAL;
use crate::settings_texts::TAB_LOGGING;
use crate::settings_texts::TAB_RESPONSIVENESS;
use crate::settings_texts::WORKLOAD_PROFILE_HELP;
use crate::text::push_decimal;

verus! {

/// The pages in the order in which they are offered.
pub fn settings_tabs() -> (tabs: Vec<SettingsTab>)
    ensures
        tabs@ == seq![
            SettingsTab::General,
            SettingsTab::Adaptive,
            SettingsTab::Responsiveness,
            SettingsTab::BackgroundEfficiency,
            SettingsTab::Rules,
            SettingsTab::Logging,
            SettingsTab::Diagnostics,
        ],
        tabs@ == offered_tabs(),
{
    vec![
        SettingsTab::General,
        SettingsTab::Adaptive,
        SettingsTab::Responsiveness,
        SettingsTab::BackgroundEfficiency,
        SettingsTab::Rules,
        SettingsTab::Logging,
        SettingsTab::Diagnostics,
    ]
}

/// The title of a page.
pub fn tab_label(tab: SettingsTab, language: Language) -> (text: &'static str)
    ensures
        text@ == language.words(
            match tab {
                SettingsTab::General => TAB_GENERAL,
                SettingsTab::Adaptive => TAB_ADAPTIVE,
                SettingsTab::Responsiveness => TAB_RESPONSIVENESS,
                SettingsTab::BackgroundEfficiency => TAB_BACKGROUND,
                SettingsTab::Rules => RULES_HEADING,
                SettingsTab::Logging => TAB_LOGGING,
                SettingsTab::Diagnostics => TAB_DIAGNOSTICS,
            },
        ),
{
    match tab {
        SettingsTab::General => language.phrase(TAB_GENERAL),
        SettingsTab::Adaptive => language.phrase(TAB_ADAPTIVE),
        SettingsTab::Responsiveness => language.phrase(TAB_RESPONSIVENESS),
        SettingsTab::BackgroundEfficiency => language.phrase(TAB_BACKGROUND),
        SettingsTab::Rules => language.phrase(RULES_HEADING),
        SettingsTab::Logging => language.phrase(TAB_LOGGING),
        SettingsTab::Diagnostics => language.phrase(TAB_DIAGNOSTICS),
    }
}

/// What stands above a message.
pub fn banner_label(kind: BannerKind, language: Language) -> (text: &'static str)
    ensures
        text@ == language.words(
            match kind {
                BannerKind::Information => BANNER_INFORMATION,
                BannerKind::Success => BANNER_SUCCESS,
                BannerKind::Error => BANNER_ERROR,
            },
        ),
{
    match kind {
        BannerKind::Information => language.phrase(BANNER_INFORMATION),
        BannerKind::Success => language.phrase(BANNER_SUCCESS),
        BannerKind::Error => language.phrase(BANNER_ERROR),
    }
}

/// A button at the bottom of the window.
#[derive(Debug, Clone, Copy, PartialEq, Eq, Structural)]
pub enum BarButton {
    Reload,
    RestoreDefaults,
    CancelChanges,
    Close,
    Apply,
}

/// A button with a phrase on it.
pub open spec fn button<F>(
    language: Language,
    field: F,
    enabled: bool,
    phrase: (&'static str, &'static str),
) -> ItemView<F> {
    crate::panel::saying(ItemKind::Button { field, enabled }, language.words(phrase))
}

/// A button with a phrase on it that explains itself when pointed at.
pub open spec fn explained_button<F>(
    language: Language,
    field: F,
    enabled: bool,
    phrase: (&'static str, &'static str),
    help: (&'static str, &'static str),
) -> ItemView<F> {
    crate::panel::explained(
        ItemKind::Button { field, enabled },
        language.words(phrase),
        language.words(help),
    )
}

/// The buttons at the bottom of the window: changes can be cancelled where
/// there are any.
pub open spec fn bar_buttons(view: EditorView) -> Seq<ItemView<BarButton>> {
    Seq::empty().push(button(view.language, BarButton::Reload, true, RELOAD_BUTTON)).push(
        button(view.language, BarButton::RestoreDefaults, true, RESTORE_BUTTON),
    ).push(
        button(
            view.language,
            BarButton::CancelChanges,
            crate::editor::dirty(view),
            CANCEL_BUTTON,
        ),
    ).push(button(view.language, BarButton::Close, true, CLOSE_BUTTON)).push(
        button(
            view.language,
            BarButton::Apply,
            crate::editor::can_be_applied(view),
            APPLY_BUTTON,
        ),
    )
}

/// The buttons at the bottom of the window.
pub fn bottom_bar(editor: &SettingsEditor) -> (panel: Panel<BarButton>)
    ensures
        panel@ == bar_buttons(editor@),
{
    let language = editor.language;
    let mut panel: Panel<BarButton> = Panel::new();
    panel.say(
        ItemKind::Button { field: BarButton::Reload, enabled: true },
        language.phrase(RELOAD_BUTTON),
    );
    panel.say(
        ItemKind::Button { field: BarButton::RestoreDefaults, enabled: true },
        language.phrase(RESTORE_BUTTON),
    );
    panel.say(
        ItemKind::Button { field: BarButton::CancelChanges, enabled: editor.is_dirty() },
        language.phrase(CANCEL_BUTTON),
    );
    panel.say(
        ItemKind::Button { field: BarButton::Close, enabled: true },
        language.phrase(CLOSE_BUTTON),
    );
    panel.say(
        ItemKind::Button { field: BarButton::Apply, enabled: editor.can_apply() },
        language.phrase(APPLY_BUTTON),
    );
    panel
}

/// What can be done on the page with the rules.
#[derive(Debug, Clone, Copy, PartialEq, Eq, Structural)]
pub enum RuleField {
    Add,
    Remove { at: usize },
    Image { at: usize },
    Mode { at: usize },
    Profile { at: usize },
    Group { at: usize },
    Domain { at: usize },
}

/// A phrase with the number of a rule.
pub open spec fn numbered(
    language: Language,
    phrase: (&'static str, &'static str),
    at: int,
) -> Seq<char> {
    language.words(phrase) + " "@ + crate::text::decimal((at + 1) as nat)
}

/// Writes a phrase with the number of a rule.
fn numbered_text(language: Language, phrase: (&'static str, &'static str), at: usize) -> (text:
    String)
    requires
        at < usize::MAX,
    ensures
        text@ == numbered(language, phrase, at as int),
{
    let mut text = language.phrase(phrase).to_owned();
    text.append(" ");
    push_decimal(&mut text, (at + 1) as u64);
    text
}

/// What a list of a rule says: which rule it is of, what it is for, and what
/// is chosen.
pub open spec fn list_words(
    language: Language,
    at: int,
    part: (&'static str, &'static str),
    chosen: Seq<char>,
) -> Seq<char> {
    numbered(language, RULE_TITLE, at) + " \u{2014} "@ + language.words(part) + ": "@ + chosen
}

/// Writes what a list of a rule says.
fn list_text(
    language: Language,
    at: usize,
    part: (&'static str, &'static str),
    chosen: &str,
) -> (text: String)
    requires
        at < usize::MAX,
    ensures
        text@ == list_words(language, at as int, part, chosen@),
{
    let mut text = numbered_text(language, RULE_TITLE, at);
    text.append(" \u{2014} ");
    text.append(language.phrase(part));
    text.append(": ");
    text.append(chosen);
    text
}

/// The part of the page for one rule, with a domain only where it is strict.
pub open spec fn rule_part(language: Language, rule: RuleView, at: int) -> Seq<
    ItemView<RuleField>,
> {
    let place = at as usize;
    let always = Seq::empty().push(
        crate::panel::saying(ItemKind::Strong, numbered(language, RULE_TITLE, at)),
    ).push(
        crate::panel::saying(
            ItemKind::Button { field: RuleField::Remove { at: place }, enabled: true },
            numbered(language, REMOVE_RULE, at),
        ),
    ).push(
        crate::panel::explained(
            ItemKind::Label,
            language.words(IMAGE_LABEL),
            language.words(IMAGE_HELP),
        ),
    ).push(
        crate::panel::explained(
            ItemKind::Entry { field: RuleField::Image { at: place } },
            rule.image,
            language.words(IMAGE_HELP),
        ),
    ).push(
        crate::panel::explained(
            ItemKind::Label,
            language.words(PLACEMENT_LABEL),
            language.words(RULE_MODE_HELP),
        ),
    ).push(
        crate::panel::explained(
            ItemKind::Picker { field: RuleField::Mode { at: place } },
            list_words(
                language,
                at,
                RULE_MODE_PART,
                crate::rules::mode_name(rule.mode, language),
            ),
            language.words(RULE_MODE_HELP),
        ),
    ).push(
        crate::panel::explained(
            ItemKind::Label,
            language.words(PROFILE_LABEL),
            language.words(WORKLOAD_PROFILE_HELP),
        ),
    ).push(
        crate::panel::explained(
            ItemKind::Picker { field: RuleField::Profile { at: place } },
            list_words(
                language,
                at,
                RULE_PROFILE_PART,
                crate::rules::profile_name(rule.profile, language),
            ),
            language.words(WORKLOAD_PROFILE_HELP),
        ),
    );
    if rule.mode == RuleMode::Strict {
        always.push(
            crate::panel::explained(
                ItemKind::Number {
                    field: RuleField::Group { at: place },
                    value: match rule.group {
                        Some(group) => group as u64,
                        None => 0,
                    },
                    min: 0,
                    max: 65_535,
                    enabled: true,
                },
                language.words(GROUP_LABEL),
                language.words(STRICT_HELP),
            ),
        ).push(
            crate::panel::explained(
                ItemKind::Number {
                    field: RuleField::Domain { at: place },
                    value: match rule.llc {
                        Some(llc) => llc as u64,
                        None => 0,
                    },
                    min: 0,
                    max: 255,
                    enabled: true,
                },
                language.words(LLC_LABEL),
                language.words(STRICT_HELP),
            ),
        ).push(crate::panel::saying(ItemKind::Label, language.words(STRICT_NOTE)))
    } else {
        always
    }
}

/// The parts of the page for the rules, in their order.
pub open spec fn rule_parts(language: Language, rules: Seq<RuleView>) -> Seq<ItemView<RuleField>>
    decreases rules.len(),
{
    if rules.len() == 0 {
        Seq::empty()
    } else {
        rule_parts(language, rules.drop_last()) + rule_part(
            language,
            rules.last(),
            rules.len() - 1,
        )
    }
}

/// The page with the rules.
pub open spec fn rules_page(language: Language, rules: Seq<RuleView>) -> Seq<ItemView<RuleField>> {
    let start = Seq::empty().push(
        crate::panel::saying(ItemKind::Heading, language.words(RULES_HEADING)),
    ).push(button(language, RuleField::Add, true, ADD_RULE)).push(
        crate::panel::saying(ItemKind::Label, language.words(RULES_INTRO)),
    );
    if rules.len() == 0 {
        start.push(crate::panel::saying(ItemKind::Label, language.words(NO_RULES))).push(
            crate::panel::saying(ItemKind::Label, language.words(NO_RULES_HINT)),
        )
    } else {
        start + rule_parts(language, rules)
    }
}

/// The part of the page for one rule.
fn process_rule_ui(language: Language, rule: &ProcessRule, at: usize) -> (panel: Panel<RuleField>)
    requires
        at < usize::MAX,
    ensures
        panel@ == rule_part(language, rule@, at as int),
{
    let mut panel: Panel<RuleField> = Panel::new();
    panel.say(ItemKind::Strong, numbered_text(language, RULE_TITLE, at).as_str());
    panel.say(
        ItemKind::Button { field: RuleField::Remove { at }, enabled: true },
        numbered_text(language, REMOVE_RULE, at).as_str(),
    );
    panel.explain(ItemKind::Label, language.phrase(IMAGE_LABEL), language.phrase(IMAGE_HELP));
    panel.explain(
        ItemKind::Entry { field: RuleField::Image { at } },
        rule.image.as_str(),
        language.phrase(IMAGE_HELP),
    );
    panel.explain(
        ItemKind::Label,
        language.phrase(PLACEMENT_LABEL),
        language.phrase(RULE_MODE_HELP),
    );
    panel.explain(
        ItemKind::Picker { field: RuleField::Mode { at } },
        list_text(language, at, RULE_MODE_PART, rule_mode_name(rule.mode, language)).as_str(),
        language.phrase(RULE_MODE_HELP),
    );
    panel.explain(
        ItemKind::Label,
        language.phrase(PROFILE_LABEL),
        language.phrase(WORKLOAD_PROFILE_HELP),
    );
    panel.explain(
        ItemKind::Picker { field: RuleField::Profile { at } },
        list_text(
            language,
            at,
            RULE_PROFILE_PART,
            workload_profile_name(rule.profile, language),
        ).as_str(),
        language.phrase(WORKLOAD_PROFILE_HELP),
    );
    if rule.mode == RuleMode::Strict {
        panel.explain(
            ItemKind::Number {
                field: RuleField::Group { at },
                value: match rule.group {
                    Some(group) => group as u64,
                    None => 0,
                },
                min: 0,
                max: 65_535,
                enabled: true,
            },
            language.phrase(GROUP_LABEL),
            language.phrase(STRICT_HELP),
        );
        panel.explain(
            ItemKind::Number {
                field: RuleField::Domain { at },
                value: match rule.llc {
                    Some(llc) => llc as u64,
                    None => 0,
                },
                min: 0,
                max: 255,
                enabled: true,
            },
            language.phrase(LLC_LABEL),
            language.phrase(STRICT_HELP),
        );
        panel.say(ItemKind::Label, language.phrase(STRICT_NOTE));
    }
    panel
}

/// The page with the rules.
pub fn rules_tab(language: Language, rules: &Vec<ProcessRule>) -> (panel: Panel<RuleField>)
    ensures
        panel@ == rules_page(language, crate::rules::rule_views(rules@)),
{
    let ghost all = crate::rules::rule_views(rules@);
    let mut panel: Panel<RuleField> = Panel::new();
    panel.say(ItemKind::Heading, language.phrase(RULES_HEADING));
    panel.say(
        ItemKind::Button { field: RuleField::Add, enabled: true },
        language.phrase(ADD_RULE),
    );
    panel.say(ItemKind::Label, language.phrase(RULES_INTRO));
    let ghost start = panel@;
    if rules.len() == 0 {
        panel.say(ItemKind::Label, language.phrase(NO_RULES));
        panel.say(ItemKind::Label, language.phrase(NO_RULES_HINT));
        return panel;
    }
    let mut at: usize = 0;
    proof {
        assert(panel@ =~= start + rule_parts(language, all.take(0)));
    }
    while at < rules.len()
        invariant
            at <= rules.len(),
            all == crate::rules::rule_views(rules@),
            panel@ == start + rule_parts(language, all.take(at as int)),
        decreases rules.len() - at,
    {
        panel.append(process_rule_ui(language, &rules[at], at));
        proof {
            let more = all.take(at + 1);
            assert(more.drop_last() =~= all.take(at as int));
            assert(more.last() == rules@[at as int]@);
            assert(panel@ =~= start + rule_parts(language, more));
        }
        at = at + 1;
    }
    proof {
        assert(all.take(at as int) =~= all);
    }
    panel
}

/// What the user did on the page with the rules.
#[derive(Debug)]
pub enum RuleEntry {
    Pressed,
    /// What was picked from a list, by its place.
    Picked(u64),
    Number(u64),
    Text(String),
}

/// A rule after something was done to one of its fields. A number that is no
/// group or no cache changes nothing.
pub open spec fn entered(rule: RuleView, field: RuleField, entry: RuleEntry) -> RuleView {
    let group = match rule.group {
        Some(group) => group,
        None => 0,
    };
    let llc = match rule.llc {
        Some(llc) => llc,
        None => 0,
    };
    crate::editor::edited(
        rule,
        match (field, entry) {
            (RuleField::Image { .. }, RuleEntry::Text(image)) => image@,
            _ => rule.image,
        },
        match (field, entry) {
            (RuleField::Mode { .. }, RuleEntry::Picked(place)) => crate::rules::picked(
                crate::rules::offered_modes(true),
                place,
                rule.mode,
            ),
            _ => rule.mode,
        },
        match (field, entry) {
            (RuleField::Profile { .. }, RuleEntry::Picked(place)) => crate::rules::picked(
                crate::rules::offered_profiles(),
                place,
                rule.profile,
            ),
            _ => rule.profile,
        },
        match (field, entry) {
            (RuleField::Group { .. }, RuleEntry::Number(value)) => if value <= u16::MAX {
                value as u16
            } else {
                group
            },
            _ => group,
        },
        match (field, entry) {
            (RuleField::Domain { .. }, RuleEntry::Number(value)) => if value <= u8::MAX {
                value as u8
            } else {
                llc
            },
            _ => llc,
        },
    )
}

/// The rules after something was done on their page. What is done to a rule
/// that is not there changes nothing.
pub open spec fn rules_after(rules: Seq<RuleView>, field: RuleField, entry: RuleEntry) -> Seq<
    RuleView,
> {
    match field {
        RuleField::Add => if entry is Pressed {
            rules.push(crate::rules::draft_of(""@))
        } else {
            rules
        },
        RuleField::Remove { at } => if entry is Pressed && at < rules.len() {
            rules.remove(at as int)
        } else {
            rules
        },
        RuleField::Image { at } | RuleField::Mode { at } | RuleField::Profile { at }
        | RuleField::Group { at } | RuleField::Domain { at } => if at < rules.len() {
            rules.update(at as int, entered(rules[at as int], field, entry))
        } else {
            rules
        },
    }
}

/// Does what the user did on the page with the rules.
pub fn change_rules(editor: &mut SettingsEditor, field: RuleField, entry: RuleEntry)
    ensures
        final(editor)@ == (EditorView {
            config: ConfigView {
                rules: rules_after(old(editor)@.config.rules, field, entry),
                ..old(editor)@.config
            },
            ..old(editor)@
        }),
{
    let at = match field {
        RuleField::Add => {
            if let RuleEntry::Pressed = entry {
                editor.add_rule();
            }
            return;
        },
        RuleField::Remove { at } => {
            if let RuleEntry::Pressed = entry {
                if at < editor.config.rules.len() {
                    editor.remove_rule(at);
                }
            }
            return;
        },
        RuleField::Image { at } => at,
        RuleField::Mode { at } => at,
        RuleField::Profile { at } => at,
        RuleField::Group { at } => at,
        RuleField::Domain { at } => at,
    };
    if at >= editor.config.rules.len() {
        return;
    }
    let rule = &editor.config.rules[at];
    proof {
        assert(editor@.config.rules[at as int] == rule@);
    }
    let mut image = rule.image.clone();
    let mut mode = rule.mode;
    let mut profile = rule.profile;
    let mut group: u16 = match rule.group {
        Some(group) => group,
        None => 0,
    };
    let mut llc: u8 = match rule.llc {
        Some(llc) => llc,
        None => 0,
    };
    match (field, entry) {
        (RuleField::Image { .. }, RuleEntry::Text(text)) => {
            image = text;
        },
        (RuleField::Mode { .. }, RuleEntry::Picked(place)) => {
            mode = pick_mode(true, place, mode);
        },
        (RuleField::Profile { .. }, RuleEntry::Picked(place)) => {
            profile = pick_profile(place, profile);
        },
        (RuleField::Group { .. }, RuleEntry::Number(value)) => {
            if value <= u16::MAX as u64 {
                group = value as u16;
            }
        },
        (RuleField::Domain { .. }, RuleEntry::Number(value)) => {
            if value <= u8::MAX as u64 {
                llc = value as u8;
            }
        },
        _ => {},
    }
    editor.edit_rule(at, image.as_str(), mode, profile, group, llc);
}

/// Nothing that is done on the page with the rules touches another rule: it
/// changes one in its place, removes one, or adds one at the end.
pub proof fn other_rules_stay(rules: Seq<RuleView>, field: RuleField, entry: RuleEntry)
    ensures
        ({
            let after = rules_after(rules, field, entry);
            ||| after == rules
            ||| after == rules.push(crate::rules::draft_of(""@))
            ||| exists|at: int| 0 <= at < rules.len() && after == #[trigger] rules.remove(at)
            ||| exists|at: int|
                0 <= at < rules.len() && after == #[trigger] rules.update(at, after[at])
        }),
{
    let after = rules_after(rules, field, entry);
    match field {
        RuleField::Image { at } | RuleField::Mode { at } | RuleField::Profile { at }
        | RuleField::Group { at } | RuleField::Domain { at } => {
            if at < rules.len() {
                assert(after =~= rules.update(at as int, after[at as int]));
            }
        },
        _ => {},
    }
}

/// What a diagnostic found.
#[derive(Debug, Clone, Copy, PartialEq, Eq, Structural)]
pub struct DiagnosticFinding {
    pub code: DiagnosticFindingCode,
    pub severity: DiagnosticSeverity,
}

/// A button on the page on diagnostics.
#[derive(Debug, Clone, Copy, PartialEq, Eq, Structural)]
pub enum DiagnosticButton {
    Run,
    Cancel,
    CopyReport,
    SaveReport,
}

/// The page on diagnostics: how the service works, what can be done, and what
/// the last diagnostic measured and found.
#[derive(Debug)]
pub struct DiagnosticsPage {
    pub service: Panel<Field>,
    pub controls: Panel<DiagnosticButton>,
    pub readings: Option<Readings>,
    pub findings: Panel<DiagnosticButton>,
}

/// The page on diagnostics, with its texts as sequences.
pub ghost struct DiagnosticsPageView {
    pub service: Seq<ItemView<Field>>,
    pub controls: Seq<ItemView<DiagnosticButton>>,
    pub readings: Option<Seq<(Seq<char>, Seq<char>)>>,
    pub findings: Seq<ItemView<DiagnosticButton>>,
}

impl View for DiagnosticsPage {
    type V = DiagnosticsPageView;

    open spec fn view(&self) -> DiagnosticsPageView {
        DiagnosticsPageView {
            service: self.service@,
            controls: self.controls@,
            readings: match self.readings {
                Some(readings) => Some(readings@),
                None => None,
            },
            findings: self.findings@,
        }
    }
}

/// How a finding stands out.
pub open spec fn severity_kind(severity: DiagnosticSeverity) -> ItemKind<DiagnosticButton> {
    match severity {
        DiagnosticSeverity::Information => ItemKind::Notice,
        DiagnosticSeverity::Warning => ItemKind::Warning,
        DiagnosticSeverity::Critical => ItemKind::Failure,
    }
}

/// What is said of one finding.
pub open spec fn finding_part(language: Language, finding: DiagnosticFinding) -> Seq<
    ItemView<DiagnosticButton>,
> {
    Seq::empty().push(
        crate::panel::saying(
            severity_kind(finding.severity),
            crate::diagnostics::identifier(finding.code),
        ),
    ).push(
        crate::panel::saying(
            ItemKind::Label,
            language.words(crate::diagnostics::finding_phrases(finding.code).0),
        ),
    ).push(
        crate::panel::saying(
            ItemKind::Label,
            language.words(crate::diagnostics::finding_phrases(finding.code).1),
        ),
    )
}

/// What is said of the findings, in their order.
pub open spec fn finding_parts(language: Language, findings: Seq<DiagnosticFinding>) -> Seq<
    ItemView<DiagnosticButton>,
>
    decreases findings.len(),
{
    if findings.len() == 0 {
        Seq::empty()
    } else {
        finding_parts(language, findings.drop_last()) + finding_part(language, findings.last())
    }
}

/// What can be done: cancel the diagnostic that runs, or start one; and why
/// the last one failed.
pub open spec fn diagnostic_controls(
    language: Language,
    pending: Option<PendingDiagnostic>,
    elapsed_seconds: Seq<char>,
    error: Option<Seq<char>>,
) -> Seq<ItemView<DiagnosticButton>> {
    let start: Seq<ItemView<DiagnosticButton>> = match pending {
        Some(pending) => Seq::empty().push(
            crate::panel::saying(
                ItemKind::Label,
                if pending.cancelling {
                    language.words(CANCELLING)
                } else {
                    crate::template::filled(
                        language.words(COLLECTING),
                        Seq::empty().push(elapsed_seconds),
                    )
                },
            ),
        ).push(
            explained_button(
                language,
                DiagnosticButton::Cancel,
                !pending.cancelling,
                STOP_BUTTON,
                STOP_HELP,
            ),
        ),
        None => Seq::empty().push(
            explained_button(language, DiagnosticButton::Run, true, RUN_BUTTON, RUN_HELP),
        ),
    };
    match error {
        Some(error) => start.push(crate::panel::saying(ItemKind::Failure, error)),
        None => start,
    }
}

/// What is said of the report: its findings, and what can be done with it.
pub open spec fn report_items(language: Language, findings: Seq<DiagnosticFinding>) -> Seq<
    ItemView<DiagnosticButton>,
> {
    (Seq::empty().push(crate::panel::saying(ItemKind::Heading, language.words(FINDINGS_HEADING)))
        + finding_parts(language, findings)).push(
        explained_button(language, DiagnosticButton::CopyReport, true, COPY_BUTTON, COPY_HELP),
    ).push(explained_button(language, DiagnosticButton::SaveReport, true, SAVE_BUTTON, SAVE_HELP))
}

/// Says what can be done.
fn diagnostic_control_panel(
    language: Language,
    pending: Option<PendingDiagnostic>,
    elapsed_seconds: &str,
    error: Option<&str>,
) -> (panel: Panel<DiagnosticButton>)
    ensures
        panel@ == diagnostic_controls(
            language,
            pending,
            elapsed_seconds@,
            match error {
                Some(error) => Some(error@),
                None => None,
            },
        ),
{
    let mut panel: Panel<DiagnosticButton> = Panel::new();
    match pending {
        Some(pending) => {
            panel.say(
                ItemKind::Label,
                diagnostic_progress(language, pending.cancelling, elapsed_seconds).as_str(),
            );
            panel.explain(
                ItemKind::Button {
                    field: DiagnosticButton::Cancel,
                    enabled: !pending.cancelling,
                },
                language.phrase(STOP_BUTTON),
                language.phrase(STOP_HELP),
            );
        },
        None => {
            panel.explain(
                ItemKind::Button { field: DiagnosticButton::Run, enabled: true },
                language.phrase(RUN_BUTTON),
                language.phrase(RUN_HELP),
            );
        },
    }
    match error {
        Some(error) => {
            panel.say(ItemKind::Failure, error);
        },
        None => {},
    }
    panel
}

/// Says what the report found.
fn diagnostic_report_panel(language: Language, findings: &Vec<DiagnosticFinding>) -> (panel: Panel<
    DiagnosticButton,
>)
    ensures
        panel@ == report_items(language, findings@),
{
    let mut panel: Panel<DiagnosticButton> = Panel::new();
    panel.say(ItemKind::Heading, language.phrase(FINDINGS_HEADING));
    let ghost start = panel@;
    let mut at: usize = 0;
    proof {
        assert(panel@ =~= start + finding_parts(language, findings@.take(0)));
    }
    while at < findings.len()
        invariant
            at <= findings.len(),
            panel@ == start + finding_parts(language, findings@.take(at as int)),
        decreases findings.len() - at,
    {
        let finding = findings[at];
        let kind: ItemKind<DiagnosticButton> = match finding.severity {
            DiagnosticSeverity::Information => ItemKind::Notice,
            DiagnosticSeverity::Warning => ItemKind::Warning,
            DiagnosticSeverity::Critical => ItemKind::Failure,
        };
        let (summary, advice) = diagnostic_finding_text(finding.code, language);
        panel.say(kind, finding_identifier(finding.code));
        panel.say(ItemKind::Label, summary);
        panel.say(ItemKind::Label, advice);
        proof {
            let more = findings@.take(at + 1);
            assert(more.drop_last() =~= findings@.take(at as int));
            assert(more.last() == finding);
            assert(panel@ =~= start + finding_parts(language, more));
        }
        at = at + 1;
    }
    proof {
        assert(findings@.take(at as int) =~= findings@);
    }
    panel.explain(
        ItemKind::Button { field: DiagnosticButton::CopyReport, enabled: true },
        language.phrase(COPY_BUTTON),
        language.phrase(COPY_HELP),
    );
    panel.explain(
        ItemKind::Button { field: DiagnosticButton::SaveReport, enabled: true },
        language.phrase(SAVE_BUTTON),
        language.phrase(SAVE_HELP),
    );
    panel
}

/// The page on diagnostics.
pub fn diagnostics_tab(
    language: Language,
    work: &ServiceWork,
    supported_schema: u32,
    pending: Option<PendingDiagnostic>,
    elapsed_seconds: &str,
    error: Option<&str>,
    report: Option<(&DiagnosticReport, &Vec<DiagnosticFinding>)>,
) -> (page: DiagnosticsPage)
    ensures
        page@.service == Seq::empty().push(
            crate::settings_panels::heading(language, DIAGNOSTICS_HEADING),
        ).push(crate::settings_panels::label(language, DIAGNOSTICS_INTRO))
            + crate::settings_panels::efficiency_items(language, *work, supported_schema),
        page@.controls == diagnostic_controls(
            language,
            pending,
            elapsed_seconds@,
            match error {
                Some(error) => Some(error@),
                None => None,
            },
        ),
        page@.readings == match report {
            Some((measured, _)) => Some(crate::diagnostics::metrics(*measured, language)),
            None => None,
        },
        page@.findings == match report {
            Some((_, findings)) => report_items(language, findings@),
            None => Seq::empty(),
        },
{
    let mut service: Panel<Field> = Panel::new();
    service.say(ItemKind::Heading, language.phrase(DIAGNOSTICS_HEADING));
    service.say(ItemKind::Label, language.phrase(DIAGNOSTICS_INTRO));
    service.append(controller_efficiency_status(language, work, supported_schema));
    let controls = diagnostic_control_panel(language, pending, elapsed_seconds, error);
    match report {
        Some((measured, findings)) => DiagnosticsPage {
            service,
            controls,
            readings: Some(diagnostic_metrics(measured, language)),
            findings: diagnostic_report_panel(language, findings),
        },
        None => DiagnosticsPage { service, controls, readings: None, findings: Panel::new() },
    }
}

/// A diagnostic is started only while none runs, and the one that runs is
/// cancelled only once.
pub proof fn one_diagnostic_at_a_time(
    language: Language,
    pending: Option<PendingDiagnostic>,
    elapsed_seconds: Seq<char>,
    error: Option<Seq<char>>,
)
    ensures
        (exists|at: int|
            0 <= at < diagnostic_controls(language, pending, elapsed_seconds, error).len()
                && (#[trigger] diagnostic_controls(
                language,
                pending,
                elapsed_seconds,
                error,
            )[at]).kind == (ItemKind::Button { field: DiagnosticButton::Run, enabled: true }))
            <==> pending is None,
        (exists|at: int|
            0 <= at < diagnostic_controls(language, pending, elapsed_seconds, error).len()
                && (#[trigger] diagnostic_controls(
                language,
                pending,
                elapsed_seconds,
                error,
            )[at]).kind == (ItemKind::Button { field: DiagnosticButton::Cancel, enabled: true }))
            <==> (pending matches Some(running) && !running.cancelling),
{
    let shown = diagnostic_controls(language, pending, elapsed_seconds, error);
    assert(shown[0] == shown[0]);
    assert(pending is Some ==> shown[1] == shown[1]);
}

/// Whether a page has an item of a kind with a text.
pub open spec fn has_item<F>(page: Seq<ItemView<F>>, kind: ItemKind<F>, text: Seq<char>) -> bool {
    exists|i: int| 0 <= i < page.len() && (#[trigger] page[i]).kind == kind && page[i].text == text
}

/// The settings can always be read again, reset and left; changes can be given
/// up exactly where there are any, and applied exactly where that does
/// something. Each button does what its words say, and there are no others.
pub proof fn buttons_do_what_they_say(view: EditorView, i: int)
    ensures
        ({
            let bar = bar_buttons(view);
            let language = view.language;
            let changed = view.config != view.persisted || view.tray_autostart
                != view.persisted_tray_autostart;
            &&& 0 <= i < bar.len() ==> (bar[i].kind matches ItemKind::Button { field, enabled }
                && bar[i].text == language.words(
                match field {
                    BarButton::Reload => RELOAD_BUTTON,
                    BarButton::RestoreDefaults => RESTORE_BUTTON,
                    BarButton::CancelChanges => CANCEL_BUTTON,
                    BarButton::Close => CLOSE_BUTTON,
                    BarButton::Apply => APPLY_BUTTON,
                },
            ) && enabled == match field {
                BarButton::CancelChanges => changed,
                BarButton::Apply => crate::editor::can_be_applied(view),
                _ => true,
            })
            &&& has_item(
                bar,
                ItemKind::Button { field: BarButton::Reload, enabled: true },
                language.words(RELOAD_BUTTON),
            )
            &&& has_item(
                bar,
                ItemKind::Button { field: BarButton::RestoreDefaults, enabled: true },
                language.words(RESTORE_BUTTON),
            )
            &&& has_item(
                bar,
                ItemKind::Button { field: BarButton::CancelChanges, enabled: changed },
                language.words(CANCEL_BUTTON),
            )
            &&& has_item(
                bar,
                ItemKind::Button { field: BarButton::Close, enabled: true },
                language.words(CLOSE_BUTTON),
            )
            &&& has_item(
                bar,
                ItemKind::Button {
                    field: BarButton::Apply,
                    enabled: crate::editor::can_be_applied(view),
                },
                language.words(APPLY_BUTTON),
            )
        }),
{
    let bar = bar_buttons(view);
    assert(bar[0].kind is Button);
    assert(bar[1].kind is Button);
    assert(bar[2].kind is Button);
    assert(bar[3].kind is Button);
    assert(bar[4].kind is Button);
}

/// What is entered for a rule changes what it was entered for and nothing
/// else: the executable, the mode that was offered at the place that was
/// picked, the profile, or the group or the cache of a strict rule. A number
/// that is too large changes nothing.
pub proof fn entries_change_their_field(
    rule: RuleView,
    at: usize,
    image: String,
    place: u64,
    value: u64,
)
    requires
        rule.mode == RuleMode::Strict ==> rule.group is Some && rule.llc is Some,
    ensures
        entered(rule, RuleField::Image { at }, RuleEntry::Text(image)) == (RuleView {
            image: image@,
            ..rule
        }),
        place < 6 ==> entered(rule, RuleField::Mode { at }, RuleEntry::Picked(place)).mode
            == crate::rules::offered_modes(true)[place as int],
        entered(rule, RuleField::Mode { at }, RuleEntry::Picked(place)).image == rule.image,
        entered(rule, RuleField::Mode { at }, RuleEntry::Picked(place)).profile == rule.profile,
        place >= 6 ==> entered(rule, RuleField::Mode { at }, RuleEntry::Picked(place)) == rule,
        place < 5 ==> entered(rule, RuleField::Profile { at }, RuleEntry::Picked(place)) == (
        RuleView { profile: crate::rules::offered_profiles()[place as int], ..rule }),
        place >= 5 ==> entered(rule, RuleField::Profile { at }, RuleEntry::Picked(place)) == rule,
        rule.mode == RuleMode::Strict && value <= 65_535 ==> entered(
            rule,
            RuleField::Group { at },
            RuleEntry::Number(value),
        ) == (RuleView { group: Some(value as u16), ..rule }),
        rule.mode == RuleMode::Strict && value <= 255 ==> entered(
            rule,
            RuleField::Domain { at },
            RuleEntry::Number(value),
        ) == (RuleView { llc: Some(value as u8), ..rule }),
        value > 65_535 || rule.mode != RuleMode::Strict ==> entered(
            rule,
            RuleField::Group { at },
            RuleEntry::Number(value),
        ) == rule,
        value > 255 || rule.mode != RuleMode::Strict ==> entered(
            rule,
            RuleField::Domain { at },
            RuleEntry::Number(value),
        ) == rule,
{
}

/// What is done on the page reaches the rule that it was done to: the rule is
/// changed as entered and no other is, a removed rule is gone and those behind
/// it move up, and a new one is the last. Where there is no such rule nothing
/// happens.
pub proof fn entries_reach_their_rule(
    rules: Seq<RuleView>,
    at: usize,
    entry: RuleEntry,
    field: RuleField,
    other: int,
)
    requires
        field == (RuleField::Image { at }) || field == (RuleField::Mode { at }) || field == (
        RuleField::Profile { at }) || field == (RuleField::Group { at }) || field == (
        RuleField::Domain { at }),
    ensures
        ({
            let after = rules_after(rules, field, entry);
            let added = rules_after(rules, RuleField::Add, RuleEntry::Pressed);
            let removed = rules_after(rules, RuleField::Remove { at }, RuleEntry::Pressed);
            &&& after.len() == rules.len()
            &&& at < rules.len() ==> after[at as int] == entered(rules[at as int], field, entry)
            &&& 0 <= other < rules.len() && other != at ==> after[other] == rules[other]
            &&& added.len() == rules.len() + 1
            &&& added.drop_last() == rules
            &&& added.last().image.len() == 0 && added.last().mode == RuleMode::Auto
                && added.last().profile == crate::observations::WorkloadProfile::Balanced
            &&& at >= rules.len() ==> removed == rules
            &&& at < rules.len() ==> {
                &&& removed.len() == rules.len() - 1
                &&& 0 <= other < at ==> removed[other] == rules[other]
                &&& at < other < rules.len() ==> removed[other - 1] == rules[other]
            }
        }),
{
    reveal_strlit("");
    assert(rules_after(rules, RuleField::Add, RuleEntry::Pressed).drop_last() =~= rules);
}

/// The page shows a rule as it is: its executable, the name of its mode and of
/// its profile, and, where it is strict, its group and its cache within what
/// they can be. Only a strict rule has these, and every rule can be removed.
pub proof fn rules_are_shown_as_they_are(
    language: Language,
    rule: RuleView,
    place: usize,
)
    ensures
        ({
            let part = rule_part(language, rule, place as int);
            &&& part[0] == crate::panel::saying(
                ItemKind::<RuleField>::Strong,
                numbered(language, RULE_TITLE, place as int),
            )
            &&& has_item(part, ItemKind::Entry { field: RuleField::Image { at: place } }, rule.image)
            &&& has_item(
                part,
                ItemKind::Picker { field: RuleField::Mode { at: place } },
                list_words(
                    language,
                    place as int,
                    RULE_MODE_PART,
                    crate::rules::mode_name(rule.mode, language),
                ),
            )
            &&& has_item(
                part,
                ItemKind::Picker { field: RuleField::Profile { at: place } },
                list_words(
                    language,
                    place as int,
                    RULE_PROFILE_PART,
                    crate::rules::profile_name(rule.profile, language),
                ),
            )
            &&& has_item(
                part,
                ItemKind::Button { field: RuleField::Remove { at: place }, enabled: true },
                numbered(language, REMOVE_RULE, place as int),
            )
            &&& rule.mode == RuleMode::Strict && rule.group is Some && rule.llc is Some ==> {
                &&& has_item(
                    part,
                    ItemKind::Number {
                        field: RuleField::Group { at: place },
                        value: (rule.group->0) as u64,
                        min: 0,
                        max: u16::MAX as u64,
                        enabled: true,
                    },
                    language.words(GROUP_LABEL),
                )
                &&& has_item(
                    part,
                    ItemKind::Number {
                        field: RuleField::Domain { at: place },
                        value: (rule.llc->0) as u64,
                        min: 0,
                        max: u8::MAX as u64,
                        enabled: true,
                    },
                    language.words(LLC_LABEL),
                )
            }
            &&& rule.mode != RuleMode::Strict ==> (forall|i: int|
                0 <= i < part.len() ==> !((#[trigger] part[i]).kind is Number))
        }),
{
    let part = rule_part(language, rule, place as int);
    assert(part[1].kind is Button);
    assert(part[3].kind is Entry);
    assert(part[5].kind is Picker);
    assert(part[7].kind is Picker);
    if rule.mode == RuleMode::Strict {
        assert(part[8].kind is Number);
        assert(part[9].kind is Number);
    }
}

/// Rules are counted from one, and each stands on the page after those before
/// it.
pub proof fn rules_stand_in_their_order(
    language: Language,
    rules: Seq<RuleView>,
    rule: RuleView,
    phrase: (&'static str, &'static str),
    at: usize,
)
    requires
        at < usize::MAX,
    ensures
        rule_parts(language, rules.push(rule)) == rule_parts(language, rules) + rule_part(
            language,
            rule,
            rules.len() as int,
        ),
        rules.len() > 0 ==> rule_parts(language, rules).is_suffix_of(rules_page(language, rules)),
        crate::text::decimal((at + 1) as nat).is_suffix_of(numbered(language, phrase, at as int)),
        language.words(phrase).is_prefix_of(numbered(language, phrase, at as int)),
{
    assert(rules.push(rule).drop_last() =~= rules);
    let parts = rule_parts(language, rules);
    let page = rules_page(language, rules);
    if rules.len() > 0 {
        assert(page.subrange(page.len() - parts.len(), page.len() as int) =~= parts);
    }
    let words = numbered(language, phrase, at as int);
    let number = crate::text::decimal((at + 1) as nat);
    assert(words.subrange(words.len() - number.len(), words.len() as int) =~= number);
    assert(words.subrange(0, language.words(phrase).len() as int) =~= language.words(phrase));
}

/// A finding stands out by how bad it is, under its own identifier, with what
/// it means before what can be done about it; graver findings look graver.
pub proof fn findings_stand_out_by_severity(
    language: Language,
    finding: DiagnosticFinding,
    a: DiagnosticSeverity,
    b: DiagnosticSeverity,
)
    ensures
        ({
            let part = finding_part(language, finding);
            let phrases = crate::diagnostics::finding_phrases(finding.code);
            &&& part.len() == 3
            &&& part[0].text == crate::diagnostics::identifier(finding.code)
            &&& finding.severity == DiagnosticSeverity::Critical <==> part[0].kind
                == ItemKind::<DiagnosticButton>::Failure
            &&& finding.severity == DiagnosticSeverity::Warning <==> part[0].kind
                == ItemKind::<DiagnosticButton>::Warning
            &&& finding.severity == DiagnosticSeverity::Information <==> part[0].kind
                == ItemKind::<DiagnosticButton>::Notice
            &&& part[1].text == language.words(phrases.0)
            &&& part[2].text == language.words(phrases.1)
        }),
        a != b ==> severity_kind(a) != severity_kind(b),
{
}

/// A report tells every finding and can be copied and saved; the error of the
/// last diagnostic is told as it is.
pub proof fn reports_can_be_taken_away(
    language: Language,
    findings: Seq<DiagnosticFinding>,
    pending: Option<PendingDiagnostic>,
    elapsed_seconds: Seq<char>,
    error: Seq<char>,
)
    ensures
        has_item(
            report_items(language, findings),
            ItemKind::Button { field: DiagnosticButton::CopyReport, enabled: true },
            language.words(COPY_BUTTON),
        ),
        has_item(
            report_items(language, findings),
            ItemKind::Button { field: DiagnosticButton::SaveReport, enabled: true },
            language.words(SAVE_BUTTON),
        ),
        diagnostic_controls(language, pending, elapsed_seconds, Some(error)).last()
            == crate::panel::saying(ItemKind::<DiagnosticButton>::Failure, error),
        diagnostic_controls(language, pending, elapsed_seconds, Some(error)).drop_last()
            == diagnostic_controls(language, pending, elapsed_seconds, None),
        finding_parts(language, findings).len() == 3 * findings.len(),
        (pending matches Some(running) && !running.cancelling) ==> diagnostic_controls(
            language,
            pending,
            elapsed_seconds,
            None,
        )[0].text == crate::template::filled(language.words(COLLECTING), seq![elapsed_seconds]),
        (pending matches Some(running) && running.cancelling) ==> diagnostic_controls(
            language,
            pending,
            elapsed_seconds,
            None,
        )[0].text == language.words(CANCELLING),
{
    let report = report_items(language, findings);
    let parts = finding_parts(language, findings);
    every_finding_has_three_lines(language, findings);
    assert(report[(parts.len() + 1) as int].kind is Button);
    assert(report[(parts.len() + 2) as int].kind is Button);
    assert(diagnostic_controls(language, pending, elapsed_seconds, Some(error)).drop_last()
        =~= diagnostic_controls(language, pending, elapsed_seconds, None));
    assert(Seq::<Seq<char>>::empty().push(elapsed_seconds) =~= seq![elapsed_seconds]);
}

proof fn every_finding_has_three_lines(language: Language, findings: Seq<DiagnosticFinding>)
    ensures
        finding_parts(language, findings).len() == 3 * findings.len(),
    decreases findings.len(),
{
    if findings.len() > 0 {
        every_finding_has_three_lines(language, findings.drop_last());
    }
}

/// The pages in the order in which they are offered.
pub open spec fn offered_tabs() -> Seq<SettingsTab> {
    seq![
        SettingsTab::General,
        SettingsTab::Adaptive,
        SettingsTab::Responsiveness,
        SettingsTab::BackgroundEfficiency,
        SettingsTab::Rules,
        SettingsTab::Logging,
        SettingsTab::Diagnostics,
    ]
}

/// Every page is offered, and none twice.
pub proof fn every_page_is_offered_once(tab: SettingsTab)
    ensures
        offered_tabs().contains(tab),
        offered_tabs().no_duplicates(),
        offered_tabs()[0] == SettingsTab::General,
{
    let tabs = offered_tabs();
    assert(tabs[0] == SettingsTab::General);
    assert(tabs[1] == SettingsTab::Adaptive);
    assert(tabs[2] == SettingsTab::Responsiveness);
    assert(tabs[3] == SettingsTab::BackgroundEfficiency);
    assert(tabs[4] == SettingsTab::Rules);
    assert(tabs[5] == SettingsTab::Logging);
    assert(tabs[6] == SettingsTab::Diagnostics);
}

} // verus!
