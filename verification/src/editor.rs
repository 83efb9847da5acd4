//! The state of the settings window and what happens to it.
use vstd::prelude::*;

use crate::controller::ConfigReloadResult;
use crate::language::Language;
use crate::observations::ControllerMode;
use crate::observations::WorkloadProfile;
use crate::rules::add_rule;
use crate::rules::choose_mode;
use crate::rules::complete_strict_rules;
use crate::rules::ensure_exact_rule_draft;
use crate::rules::RuleMode;
use crate::rules::RuleView;
use crate::settings_config::set_choice;
use crate::settings_config::set_number;
use crate::settings_config::set_toggle;
use crate::settings_config::ConfigView;
use crate::settings_config::ControllerConfig;
use crate::settings_config::ControllerValues;
use crate::settings_config::EditorLimits;
use crate::settings_config::Field;
use crate::settings_config::LoggingSettings;
use crate::settings_files::config_reload_wait_ms;
use crate::template::fill;
use crate::template::Blanks;
use crate::text::eq_ignore_ascii_case;
use crate::text::same_text;

verus! {

/// After how many milliseconds the status of the service is read again.
pub const STATUS_POLL_INTERVAL_MS: u64 = 250;

/// A page of the window.
#[derive(Debug, Clone, Copy, PartialEq, Eq, Structural)]
pub enum SettingsTab {
    General,
    Adaptive,
    Responsiveness,
    BackgroundEfficiency,
    Rules,
    Logging,
    Diagnostics,
}

/// What kind of message the window shows.
#[derive(Debug, Clone, Copy, PartialEq, Eq, Structural)]
pub enum BannerKind {
    Information,
    Success,
    Error,
}

/// A message that the window shows.
#[derive(Debug)]
pub struct Banner {
    pub kind: BannerKind,
    pub message: String,
}

/// A message that the window shows, with its text as a sequence.
#[verifier::ext_equal]
pub struct BannerView {
    pub kind: BannerKind,
    pub message: Seq<char>,
}

/// Whether the service has the saved settings.
#[derive(Debug, Clone, Copy, PartialEq, Eq, Structural)]
pub enum ServiceReloadState {
    InSync,
    RetryRequired,
}

/// What the window asks the user.
#[derive(Debug, Clone, Copy, PartialEq, Eq, Structural)]
pub enum Confirmation {
    Nothing,
    RestoreDefaults,
    CancelChanges,
    Close,
}

/// What the service has to answer to saved settings.
#[derive(Debug, Clone, Copy)]
pub struct PendingReload {
    /// The process of the service and the number of its last answer before
    /// the settings were saved.
    pub baseline: Option<(u32, u64)>,
    pub not_before_unix_ms: u64,
    pub expected_mode: ControllerMode,
    pub expected_config_fingerprint: u64,
    pub expected_logging: LoggingSettings,
    pub deadline_ms: u64,
    pub next_poll_ms: u64,
}

/// What the status of the service says of the settings it uses.
#[derive(Debug)]
pub struct ReloadReceipt {
    /// Whether the answer came after the settings were saved.
    pub newer: bool,
    pub result: ConfigReloadResult,
    pub configured_mode: ControllerMode,
    pub applied_config_fingerprint: u64,
    pub applied_logging: LoggingSettings,
    pub error: Option<String>,
}

/// What came of looking for the answer of the service.
#[derive(Debug)]
pub enum ReloadPollOutcome {
    /// Look again after so many milliseconds.
    Pending(u64),
    Reloaded,
    Rejected(Option<String>),
    TimedOutWithoutReceipt,
    TimedOutAfterMismatchedReceipt,
}

/// What came of looking for the answer, with its text as a sequence.
pub ghost enum PollView {
    Pending(u64),
    Reloaded,
    Rejected(Option<Seq<char>>),
    TimedOutWithoutReceipt,
    TimedOutAfterMismatchedReceipt,
}

impl View for ReloadPollOutcome {
    type V = PollView;

    open spec fn view(&self) -> PollView {
        match *self {
            ReloadPollOutcome::Pending(delay_ms) => PollView::Pending(delay_ms),
            ReloadPollOutcome::Reloaded => PollView::Reloaded,
            ReloadPollOutcome::Rejected(error) => PollView::Rejected(error.deep_view()),
            ReloadPollOutcome::TimedOutWithoutReceipt => PollView::TimedOutWithoutReceipt,
            ReloadPollOutcome::TimedOutAfterMismatchedReceipt => {
                PollView::TimedOutAfterMismatchedReceipt
            },
        }
    }
}

/// A time that comes later, as far as there is one.
pub open spec fn later(now_ms: u64, delay_ms: u64) -> u64 {
    if now_ms + delay_ms > u64::MAX {
        u64::MAX
    } else {
        (now_ms + delay_ms) as u64
    }
}

impl PendingReload {
    /// Whether an answer says that the service uses exactly the saved
    /// settings.
    pub open spec fn confirmed_by(self, receipt: ReloadReceipt) -> bool {
        &&& receipt.newer
        &&& receipt.result == ConfigReloadResult::Reloaded
        &&& receipt.configured_mode == self.expected_mode
        &&& receipt.applied_config_fingerprint == self.expected_config_fingerprint
        &&& receipt.applied_logging == self.expected_logging
    }

    /// Whether an answer says that the service refused the saved settings.
    pub open spec fn refused_by(self, receipt: ReloadReceipt) -> bool {
        receipt.newer && receipt.result == ConfigReloadResult::Rejected
    }

    /// Whether it is time to look.
    pub open spec fn due(self, now_ms: u64) -> bool {
        now_ms >= self.next_poll_ms
    }

    /// What comes of looking.
    pub open spec fn outcome(self, receipt: Option<ReloadReceipt>, now_ms: u64) -> PollView {
        if !self.due(now_ms) {
            PollView::Pending((self.next_poll_ms - now_ms) as u64)
        } else if receipt is Some && self.confirmed_by(receipt->0) {
            PollView::Reloaded
        } else if receipt is Some && self.refused_by(receipt->0) {
            PollView::Rejected((receipt->0).error.deep_view())
        } else if now_ms < self.deadline_ms {
            PollView::Pending(STATUS_POLL_INTERVAL_MS)
        } else if receipt is Some && (receipt->0).newer {
            PollView::TimedOutAfterMismatchedReceipt
        } else {
            PollView::TimedOutWithoutReceipt
        }
    }

    /// What is waited for after looking.
    pub open spec fn polled(self, now_ms: u64) -> PendingReload {
        if self.due(now_ms) {
            PendingReload { next_poll_ms: later(now_ms, STATUS_POLL_INTERVAL_MS), ..self }
        } else {
            self
        }
    }

    /// Says whether it is time to look.
    pub fn is_due(&self, now_ms: u64) -> (due: bool)
        ensures
            due == self.due(now_ms),
    {
        now_ms >= self.next_poll_ms
    }

    /// Looks for the answer of the service.
    pub fn poll(&mut self, receipt: Option<&ReloadReceipt>, now_ms: u64) -> (outcome:
        ReloadPollOutcome)
        ensures
            *final(self) == old(self).polled(now_ms),
            outcome@ == old(self).outcome(
                match receipt {
                    Some(receipt) => Some(*receipt),
                    None => None,
                },
                now_ms,
            ),
    {
        if now_ms < self.next_poll_ms {
            return ReloadPollOutcome::Pending(self.next_poll_ms - now_ms);
        }
        self.next_poll_ms = now_ms.saturating_add(STATUS_POLL_INTERVAL_MS);
        let mut answered = false;
        if let Some(receipt) = receipt {
            if receipt.newer {
                answered = true;
                match receipt.result {
                    ConfigReloadResult::Reloaded => {
                        if receipt.configured_mode == self.expected_mode
                            && receipt.applied_config_fingerprint
                            == self.expected_config_fingerprint && receipt.applied_logging
                            == self.expected_logging {
                            return ReloadPollOutcome::Reloaded;
                        }
                    },
                    ConfigReloadResult::Rejected => {
                        return ReloadPollOutcome::Rejected(
                            crate::background::copy_optional_text(&receipt.error),
                        );
                    },
                    ConfigReloadResult::Initial => {},
                }
            }
        }
        if now_ms < self.deadline_ms {
            return ReloadPollOutcome::Pending(STATUS_POLL_INTERVAL_MS);
        }
        if answered {
            ReloadPollOutcome::TimedOutAfterMismatchedReceipt
        } else {
            ReloadPollOutcome::TimedOutWithoutReceipt
        }
    }
}

/// Saved settings are taken as reloaded only on an answer that came after
/// they were saved and names exactly them.
pub proof fn only_matching_answers_confirm(
    pending: PendingReload,
    receipt: Option<ReloadReceipt>,
    now_ms: u64,
)
    ensures
        pending.outcome(receipt, now_ms) == PollView::Reloaded ==> receipt is Some
            && pending.confirmed_by(receipt->0),
        pending.outcome(receipt, now_ms) is Rejected ==> receipt is Some && pending.refused_by(
            receipt->0,
        ),
{
}

/// From its deadline on the wait ends with the next look, whatever the
/// service says; before it ends, the status is looked at no more often than
/// the poll interval says.
pub proof fn waits_end_at_the_deadline(
    pending: PendingReload,
    receipt: Option<ReloadReceipt>,
    now_ms: u64,
    sooner_ms: u64,
)
    requires
        pending.due(now_ms),
        now_ms <= sooner_ms,
        now_ms + STATUS_POLL_INTERVAL_MS <= u64::MAX,
    ensures
        now_ms >= pending.deadline_ms ==> !(pending.outcome(receipt, now_ms) is Pending),
        sooner_ms < now_ms + STATUS_POLL_INTERVAL_MS ==> !pending.polled(now_ms).due(sooner_ms),
{
}

/// A diagnostic that is running.
#[derive(Debug, Clone, Copy, PartialEq, Eq, Structural)]
pub struct PendingDiagnostic {
    pub started_ms: u64,
    pub cancelling: bool,
}

/// The state of the settings window.
#[derive(Debug)]
pub struct SettingsEditor {
    /// What is being edited.
    pub config: ControllerConfig,
    /// What was saved last.
    pub persisted: ControllerConfig,
    pub tray_autostart: bool,
    pub persisted_tray_autostart: bool,
    pub tab: SettingsTab,
    pub banner: Option<Banner>,
    pub confirmation: Confirmation,
    pub allow_close: bool,
    pub pending_reload: Option<PendingReload>,
    pub service_reload_state: ServiceReloadState,
    pub pending_diagnostic: Option<PendingDiagnostic>,
    pub diagnostic_error: Option<String>,
    pub rule_focus_image: Option<String>,
    pub language: Language,
}

/// The state of the settings window, with its texts as sequences.
#[verifier::ext_equal]
pub struct EditorView {
    pub config: ConfigView,
    pub persisted: ConfigView,
    pub tray_autostart: bool,
    pub persisted_tray_autostart: bool,
    pub tab: SettingsTab,
    pub banner: Option<BannerView>,
    pub confirmation: Confirmation,
    pub allow_close: bool,
    pub pending_reload: Option<PendingReload>,
    pub service_reload_state: ServiceReloadState,
    pub pending_diagnostic: Option<PendingDiagnostic>,
    pub diagnostic_error: Option<Seq<char>>,
    pub rule_focus_image: Option<Seq<char>>,
    pub language: Language,
}

impl View for SettingsEditor {
    type V = EditorView;

    open spec fn view(&self) -> EditorView {
        EditorView {
            config: self.config@,
            persisted: self.persisted@,
            tray_autostart: self.tray_autostart,
            persisted_tray_autostart: self.persisted_tray_autostart,
            tab: self.tab,
            banner: match self.banner {
                Some(banner) => Some(BannerView { kind: banner.kind, message: banner.message@ }),
                None => None,
            },
            confirmation: self.confirmation,
            allow_close: self.allow_close,
            pending_reload: self.pending_reload,
            service_reload_state: self.service_reload_state,
            pending_diagnostic: self.pending_diagnostic,
            diagnostic_error: self.diagnostic_error.deep_view(),
            rule_focus_image: self.rule_focus_image.deep_view(),
            language: self.language,
        }
    }
}

pub const CONFIG_LOADED: (&'static str, &'static str) = (
    "Configuration loaded. Changes take effect after Apply.",
    "Конфигурация загружена. Изменения вступят в силу после нажатия «Применить».",
);

pub const RULE_OPENED: (&'static str, &'static str) = (
    "Existing exact rule opened: {}",
    "Открыто существующее правило: {}",
);

pub const RULE_DRAFTED: (&'static str, &'static str) = (
    "Exact-rule draft created: {}. Review it and choose Apply to save.",
    "Создан черновик точного правила: {}. Проверьте его и нажмите «Применить» для сохранения.",
);

pub const CONFIG_RELOADED: (&'static str, &'static str) = (
    "Configuration reloaded from disk.",
    "Конфигурация повторно загружена с диска.",
);

pub const RELOAD_FAILED: (&'static str, &'static str) = (
    "Reload failed: {}",
    "Ошибка повторной загрузки: {}",
);

pub const VALIDATION_FAILED: (&'static str, &'static str) = (
    "Validation failed: {}",
    "Ошибка проверки: {}",
);

pub const AUTOSTART_FAILED: (&'static str, &'static str) = (
    "Could not update tray autostart: {}",
    "Не удалось изменить автозапуск приложения в трее: {}",
);

pub const AUTOSTART_ENABLED: (&'static str, &'static str) = (
    "Tray autostart enabled.",
    "Автозапуск приложения в трее включён.",
);

pub const AUTOSTART_DISABLED: (&'static str, &'static str) = (
    "Tray autostart disabled.",
    "Автозапуск приложения в трее выключен.",
);

pub const ALL_SAVED: (&'static str, &'static str) = (
    "Configuration and tray autostart saved. Waiting for the service to reload the configuration...",
    "Конфигурация и автозапуск приложения в трее сохранены. Ожидание загрузки конфигурации службой...",
);

pub const CONFIG_SAVED: (&'static str, &'static str) = (
    "Configuration saved atomically. Waiting for the service to reload it...",
    "Конфигурация сохранена атомарно. Ожидание её загрузки службой...",
);

pub const APPLY_FAILED: (&'static str, &'static str) = (
    "Apply failed: {}",
    "Ошибка применения: {}",
);

pub const APPLY_AND_ROLLBACK_FAILED: (&'static str, &'static str) = (
    "Apply failed: {}; tray autostart rollback also failed: {}",
    "Ошибка применения: {}; откат автозапуска приложения в трее также завершился ошибкой: {}",
);

pub const SERVICE_RELOADED: (&'static str, &'static str) = (
    "Configuration applied and reloaded by the WinSched service.",
    "Конфигурация применена и загружена службой WinSched.",
);

pub const SERVICE_REJECTED: (&'static str, &'static str) = (
    "Service rejected the configuration: {}",
    "Служба отклонила конфигурацию: {}",
);

pub const NO_SERVICE_ERROR: (&'static str, &'static str) = (
    "the service did not provide an error",
    "служба не сообщила подробности ошибки",
);

pub const NO_RECEIPT: (&'static str, &'static str) = (
    "Configuration was saved, but the service did not publish a newer reload receipt within the expected interval. Check that the WinSched service is running.",
    "Конфигурация сохранена, но служба не опубликовала новое подтверждение загрузки за ожидаемое время. Проверьте, что служба WinSched запущена.",
);

pub const MISMATCHED_RECEIPT: (&'static str, &'static str) = (
    "The service published a newer reload receipt, but it did not match the complete saved configuration.",
    "Служба опубликовала новое подтверждение загрузки, но оно не соответствует всей сохранённой конфигурации.",
);

pub const DIAGNOSTIC_STARTED: (&'static str, &'static str) = (
    "Passive responsiveness diagnostic started.",
    "Пассивная диагностика отзывчивости запущена.",
);

pub const DIAGNOSTIC_NOT_STARTED: (&'static str, &'static str) = (
    "Could not start diagnostic worker: {}",
    "Не удалось запустить поток диагностики: {}",
);

pub const DIAGNOSTIC_COMPLETED: (&'static str, &'static str) = (
    "Passive diagnostic completed.",
    "Пассивная диагностика завершена.",
);

pub const DIAGNOSTIC_CANCELLED: (&'static str, &'static str) = (
    "Diagnostic cancelled.",
    "Диагностика отменена.",
);

pub const DIAGNOSTIC_FAILED: (&'static str, &'static str) = (
    "Diagnostic failed: {}",
    "Ошибка диагностики: {}",
);

pub const DIAGNOSTIC_LOST: (&'static str, &'static str) = (
    "Diagnostic worker exited without a result.",
    "Поток диагностики завершился без результата.",
);

pub const NO_PROFILE: (&'static str, &'static str) = (
    "Cannot find the user profile for report output.",
    "Не удалось определить профиль пользователя для сохранения отчёта.",
);

pub const REPORT_SAVED: (&'static str, &'static str) = (
    "Diagnostic report saved to {}",
    "Отчёт диагностики сохранён в {}",
);

pub const REPORT_NOT_SAVED: (&'static str, &'static str) = (
    "Could not save diagnostic report: {}",
    "Не удалось сохранить отчёт диагностики: {}",
);

pub const DEFAULTS_LOADED: (&'static str, &'static str) = (
    "Defaults loaded into the editor. Choose Apply to save them.",
    "Значения по умолчанию загружены в редактор. Нажмите «Применить», чтобы сохранить их.",
);

pub const DEFAULTS_FAILED: (&'static str, &'static str) = (
    "Could not load product defaults: {}",
    "Не удалось загрузить настройки по умолчанию: {}",
);

pub const CHANGES_CANCELLED: (&'static str, &'static str) = (
    "Unsaved changes were cancelled.",
    "Несохранённые изменения отменены.",
);

/// A message in a language.
pub open spec fn plain(
    language: Language,
    kind: BannerKind,
    phrase: (&'static str, &'static str),
) -> Option<BannerView> {
    Some(BannerView { kind, message: language.words(phrase) })
}

/// A message in a language with one value in it.
pub open spec fn with_detail(
    language: Language,
    kind: BannerKind,
    phrase: (&'static str, &'static str),
    detail: Seq<char>,
) -> Option<BannerView> {
    Some(
        BannerView {
            kind,
            message: crate::template::filled(
                language.words(phrase),
                crate::monitor::one(detail),
            ),
        },
    )
}

/// Whether anything was changed that is not saved.
pub open spec fn dirty(view: EditorView) -> bool {
    view.config != view.persisted || view.tray_autostart != view.persisted_tray_autostart
}

/// The window after a rule was asked for.
pub open spec fn rule_opened(view: EditorView, image: Seq<char>) -> EditorView {
    EditorView {
        config: ConfigView {
            rules: crate::rules::drafted(view.config.rules, image),
            ..view.config
        },
        tab: SettingsTab::Rules,
        rule_focus_image: Some(image),
        banner: with_detail(
            view.language,
            BannerKind::Information,
            if crate::rules::rule_place(view.config.rules, image) is Some {
                RULE_OPENED
            } else {
                RULE_DRAFTED
            },
            image,
        ),
        ..view
    }
}

/// Whether applying has to write the settings: they were changed, or the
/// service does not have them.
pub open spec fn must_write(view: EditorView) -> bool {
    view.config != view.persisted || view.service_reload_state == ServiceReloadState::RetryRequired
}

/// Whether applying has to turn the start of the tray on or off.
pub open spec fn autostart_changed(view: EditorView) -> bool {
    view.tray_autostart != view.persisted_tray_autostart
}

/// What is done next to apply the settings.
#[derive(Debug, Clone, Copy, PartialEq, Eq, Structural)]
pub enum ApplyStep {
    /// Turn the start of the tray at sign-in on or off.
    SetAutostart { enabled: bool },
    /// Read the status and the time, save the settings, and wait so many
    /// milliseconds for the service.
    Save { wait_ms: u64 },
    /// Turn the start of the tray back.
    RollBackAutostart { enabled: bool },
    /// There is nothing more to do.
    Finished,
}

/// What is done once nothing stands against the start of the tray.
pub open spec fn after_autostart_step(view: EditorView) -> ApplyStep {
    if must_write(view) {
        ApplyStep::Save {
            wait_ms: crate::settings_files::reload_wait(
                view.persisted.values.sample_interval_ms,
                view.config.values.sample_interval_ms,
            ),
        }
    } else {
        ApplyStep::Finished
    }
}

/// What is done after the settings were checked, with what was wrong.
pub open spec fn validated_step(view: EditorView, failure: Option<Seq<char>>) -> ApplyStep {
    if failure is Some {
        ApplyStep::Finished
    } else if autostart_changed(view) {
        ApplyStep::SetAutostart { enabled: view.tray_autostart }
    } else {
        after_autostart_step(view)
    }
}

/// The window where the start of the tray is as wanted: where no settings
/// have to be written, that is all.
pub open spec fn autostart_settled(view: EditorView) -> EditorView {
    if must_write(view) {
        view
    } else {
        EditorView {
            persisted_tray_autostart: view.tray_autostart,
            confirmation: Confirmation::Nothing,
            pending_reload: None,
            banner: plain(
                view.language,
                BannerKind::Success,
                if view.tray_autostart {
                    AUTOSTART_ENABLED
                } else {
                    AUTOSTART_DISABLED
                },
            ),
            ..view
        }
    }
}

/// The window after the settings were checked.
pub open spec fn validated(view: EditorView, failure: Option<Seq<char>>) -> EditorView {
    match failure {
        Some(error) => EditorView {
            banner: with_detail(view.language, BannerKind::Error, VALIDATION_FAILED, error),
            ..view
        },
        None => if autostart_changed(view) {
            view
        } else {
            autostart_settled(view)
        },
    }
}

/// The window after the start of the tray was turned on or off.
pub open spec fn autostart_set(view: EditorView, failure: Option<Seq<char>>) -> EditorView {
    match failure {
        Some(error) => EditorView {
            banner: with_detail(view.language, BannerKind::Error, AUTOSTART_FAILED, error),
            ..view
        },
        None => autostart_settled(view),
    }
}

/// What is done after the start of the tray was turned on or off.
pub open spec fn autostart_step(view: EditorView, failure: Option<Seq<char>>) -> ApplyStep {
    if failure is Some {
        ApplyStep::Finished
    } else {
        after_autostart_step(view)
    }
}

/// How settings were saved.
#[derive(Debug)]
pub struct SavedConfig {
    /// The settings as they were found valid and written.
    pub validated: ControllerConfig,
    pub fingerprint: u64,
    pub baseline: Option<(u32, u64)>,
    pub not_before_unix_ms: u64,
    pub wait_ms: u64,
    pub now_ms: u64,
}

/// The window after the settings were saved.
pub open spec fn saved(view: EditorView, saved: SavedConfig) -> EditorView {
    EditorView {
        config: saved.validated@,
        persisted: saved.validated@,
        persisted_tray_autostart: view.tray_autostart,
        confirmation: Confirmation::Nothing,
        service_reload_state: ServiceReloadState::InSync,
        banner: plain(
            view.language,
            BannerKind::Information,
            if autostart_changed(view) {
                ALL_SAVED
            } else {
                CONFIG_SAVED
            },
        ),
        pending_reload: Some(
            PendingReload {
                baseline: saved.baseline,
                not_before_unix_ms: saved.not_before_unix_ms,
                expected_mode: saved.validated.values.controller_mode,
                expected_config_fingerprint: saved.fingerprint,
                expected_logging: saved.validated.values.logging,
                deadline_ms: later(saved.now_ms, saved.wait_ms),
                next_poll_ms: saved.now_ms,
            },
        ),
        ..view
    }
}

/// The window after the settings could not be saved, with what was wrong with
/// turning the start of the tray back.
pub open spec fn save_failed(
    view: EditorView,
    error: Seq<char>,
    rollback_error: Option<Seq<char>>,
) -> EditorView {
    EditorView {
        pending_reload: None,
        banner: match rollback_error {
            None => with_detail(view.language, BannerKind::Error, APPLY_FAILED, error),
            Some(rollback) => Some(
                BannerView {
                    kind: BannerKind::Error,
                    message: crate::template::filled(
                        view.language.words(APPLY_AND_ROLLBACK_FAILED),
                        crate::monitor::two(error, rollback),
                    ),
                },
            ),
        },
        ..view
    }
}

/// The window after the service was asked about the saved settings.
pub open spec fn answered(view: EditorView, outcome: PollView) -> EditorView {
    match outcome {
        PollView::Pending(_) => view,
        PollView::Reloaded => EditorView {
            pending_reload: None,
            service_reload_state: ServiceReloadState::InSync,
            banner: plain(view.language, BannerKind::Success, SERVICE_RELOADED),
            ..view
        },
        PollView::Rejected(error) => EditorView {
            pending_reload: None,
            service_reload_state: ServiceReloadState::RetryRequired,
            banner: with_detail(
                view.language,
                BannerKind::Error,
                SERVICE_REJECTED,
                match error {
                    Some(error) => error,
                    None => view.language.words(NO_SERVICE_ERROR),
                },
            ),
            ..view
        },
        PollView::TimedOutWithoutReceipt => EditorView {
            pending_reload: None,
            service_reload_state: ServiceReloadState::RetryRequired,
            banner: plain(view.language, BannerKind::Information, NO_RECEIPT),
            ..view
        },
        PollView::TimedOutAfterMismatchedReceipt => EditorView {
            pending_reload: None,
            service_reload_state: ServiceReloadState::RetryRequired,
            banner: plain(view.language, BannerKind::Information, MISMATCHED_RECEIPT),
            ..view
        },
    }
}

/// The window after a look for the answer of the service.
pub open spec fn reload_polled(
    view: EditorView,
    receipt: Option<ReloadReceipt>,
    now_ms: u64,
) -> EditorView {
    match view.pending_reload {
        None => view,
        Some(pending) => answered(
            EditorView { pending_reload: Some(pending.polled(now_ms)), ..view },
            pending.outcome(receipt, now_ms),
        ),
    }
}

/// After how many milliseconds to look again for the answer.
pub open spec fn reload_delay(
    view: EditorView,
    receipt: Option<ReloadReceipt>,
    now_ms: u64,
) -> Option<u64> {
    match view.pending_reload {
        None => None,
        Some(pending) => match pending.outcome(receipt, now_ms) {
            PollView::Pending(delay_ms) => Some(delay_ms),
            _ => None,
        },
    }
}

/// How a diagnostic ended.
#[derive(Debug)]
pub enum DiagnosticOutcome {
    Completed,
    Failed(String),
    /// It ended without saying how.
    Lost,
}

/// The window after a diagnostic ended. One that was cancelled is no error.
pub open spec fn diagnostic_ended(view: EditorView, outcome: DiagnosticOutcome) -> EditorView {
    match outcome {
        DiagnosticOutcome::Completed => EditorView {
            pending_diagnostic: None,
            diagnostic_error: None,
            banner: plain(view.language, BannerKind::Success, DIAGNOSTIC_COMPLETED),
            ..view
        },
        DiagnosticOutcome::Failed(error) => if error@ == "diagnostic cancelled"@ {
            EditorView {
                pending_diagnostic: None,
                banner: plain(view.language, BannerKind::Information, DIAGNOSTIC_CANCELLED),
                ..view
            }
        } else {
            EditorView {
                pending_diagnostic: None,
                diagnostic_error: Some(error@),
                banner: with_detail(view.language, BannerKind::Error, DIAGNOSTIC_FAILED, error@),
                ..view
            }
        },
        DiagnosticOutcome::Lost => EditorView {
            pending_diagnostic: None,
            diagnostic_error: Some(view.language.words(DIAGNOSTIC_LOST)),
            banner: plain(view.language, BannerKind::Error, DIAGNOSTIC_LOST),
            ..view
        },
    }
}

/// What the title line says of unsaved changes.
#[derive(Debug, Clone, Copy, PartialEq, Eq, Structural)]
pub enum SaveState {
    Unsaved,
    SavedNotTaken,
    Saved,
}

/// What the title line says of unsaved changes.
pub open spec fn save_state(view: EditorView) -> SaveState {
    if dirty(view) {
        SaveState::Unsaved
    } else if view.service_reload_state == ServiceReloadState::RetryRequired {
        SaveState::SavedNotTaken
    } else {
        SaveState::Saved
    }
}

/// Whether the settings can be applied.
pub open spec fn can_be_applied(view: EditorView) -> bool {
    (dirty(view) || view.service_reload_state == ServiceReloadState::RetryRequired)
        && view.pending_reload is None
}

impl SettingsEditor {
    fn say(&mut self, kind: BannerKind, phrase: (&'static str, &'static str))
        ensures
            final(self)@ == (EditorView {
                banner: plain(old(self)@.language, kind, phrase),
                ..old(self)@
            }),
    {
        self.banner = Some(Banner { kind, message: self.language.phrase(phrase).to_owned() });
    }

    fn say_with(&mut self, kind: BannerKind, phrase: (&'static str, &'static str), detail: &str)
        ensures
            final(self)@ == (EditorView {
                banner: with_detail(old(self)@.language, kind, phrase, detail@),
                ..old(self)@
            }),
    {
        let message = fill(self.language.phrase(phrase), &Blanks::new().text(detail));
        self.banner = Some(Banner { kind, message });
    }

    /// A window on the saved settings.
    pub fn new(config: ControllerConfig, tray_autostart: bool, language: Language) -> (editor: Self)
        ensures
            editor@ == (EditorView {
                config: config@,
                persisted: config@,
                tray_autostart,
                persisted_tray_autostart: tray_autostart,
                tab: SettingsTab::General,
                banner: plain(language, BannerKind::Information, CONFIG_LOADED),
                confirmation: Confirmation::Nothing,
                allow_close: false,
                pending_reload: None,
                service_reload_state: ServiceReloadState::InSync,
                pending_diagnostic: None,
                diagnostic_error: None,
                rule_focus_image: None,
                language,
            }),
            !dirty(editor@),
    {
        SettingsEditor {
            persisted: config.copy(),
            config,
            tray_autostart,
            persisted_tray_autostart: tray_autostart,
            tab: SettingsTab::General,
            banner: Some(
                Banner {
                    kind: BannerKind::Information,
                    message: language.phrase(CONFIG_LOADED).to_owned(),
                },
            ),
            confirmation: Confirmation::Nothing,
            allow_close: false,
            pending_reload: None,
            service_reload_state: ServiceReloadState::InSync,
            pending_diagnostic: None,
            diagnostic_error: None,
            rule_focus_image: None,
            language,
        }
    }

    /// Opens the rule for an executable, or drafts one.
    pub fn open_rule_request(&mut self, image: &str)
        ensures
            final(self)@ == rule_opened(old(self)@, image@),
    {
        self.tab = SettingsTab::Rules;
        let new = ensure_exact_rule_draft(&mut self.config.rules, image);
        self.rule_focus_image = Some(image.to_owned());
        if new {
            self.say_with(BannerKind::Information, RULE_DRAFTED, image);
        } else {
            self.say_with(BannerKind::Information, RULE_OPENED, image);
        }
    }

    /// Whether anything was changed that is not saved.
    pub fn is_dirty(&self) -> (changed: bool)
        ensures
            changed == dirty(self@),
    {
        !self.config.same(&self.persisted) || self.tray_autostart != self.persisted_tray_autostart
    }

    fn write_required(&self) -> (required: bool)
        ensures
            required == must_write(self@),
    {
        !self.config.same(&self.persisted) || self.service_reload_state
            == ServiceReloadState::RetryRequired
    }

    /// Takes the settings as they were read again, with whether the tray
    /// starts at sign-in, or what was wrong with reading them.
    pub fn reload_from_disk(&mut self, loaded: Result<(ControllerConfig, bool), String>)
        ensures
            final(self)@ == match loaded {
                Ok((config, autostart)) => EditorView {
                    config: config@,
                    persisted: config@,
                    tray_autostart: autostart,
                    persisted_tray_autostart: autostart,
                    confirmation: Confirmation::Nothing,
                    pending_reload: None,
                    banner: plain(old(self)@.language, BannerKind::Success, CONFIG_RELOADED),
                    ..old(self)@
                },
                Err(error) => EditorView {
                    banner: with_detail(
                        old(self)@.language,
                        BannerKind::Error,
                        RELOAD_FAILED,
                        error@,
                    ),
                    ..old(self)@
                },
            },
            final(self)@ == read_again(old(self)@, loaded),
    {
        match loaded {
            Ok((config, autostart)) => {
                self.persisted = config.copy();
                self.config = config;
                self.tray_autostart = autostart;
                self.persisted_tray_autostart = autostart;
                self.confirmation = Confirmation::Nothing;
                self.pending_reload = None;
                self.say(BannerKind::Success, CONFIG_RELOADED);
            },
            Err(error) => {
                self.say_with(BannerKind::Error, RELOAD_FAILED, error.as_str());
            },
        }
    }

    fn settle_autostart(&mut self) -> (step: ApplyStep)
        ensures
            final(self)@ == autostart_settled(old(self)@),
            step == after_autostart_step(old(self)@),
    {
        if self.write_required() {
            return ApplyStep::Save {
                wait_ms: config_reload_wait_ms(
                    self.persisted.values.sample_interval_ms,
                    self.config.values.sample_interval_ms,
                ),
            };
        }
        self.persisted_tray_autostart = self.tray_autostart;
        self.confirmation = Confirmation::Nothing;
        self.pending_reload = None;
        if self.tray_autostart {
            self.say(BannerKind::Success, AUTOSTART_ENABLED);
        } else {
            self.say(BannerKind::Success, AUTOSTART_DISABLED);
        }
        ApplyStep::Finished
    }

    /// Begins to apply the settings, which were checked: takes what was wrong
    /// with them and says what is done next.
    pub fn apply(&mut self, validation_failure: Option<&str>) -> (step: ApplyStep)
        ensures
            final(self)@ == validated(
                old(self)@,
                match validation_failure {
                    Some(error) => Some(error@),
                    None => None,
                },
            ),
            step == validated_step(
                old(self)@,
                match validation_failure {
                    Some(error) => Some(error@),
                    None => None,
                },
            ),
    {
        if let Some(error) = validation_failure {
            self.say_with(BannerKind::Error, VALIDATION_FAILED, error);
            return ApplyStep::Finished;
        }
        if self.tray_autostart != self.persisted_tray_autostart {
            return ApplyStep::SetAutostart { enabled: self.tray_autostart };
        }
        self.settle_autostart()
    }

    /// Goes on after the start of the tray was turned on or off: takes what
    /// was wrong and says what is done next.
    pub fn apply_after_autostart(&mut self, failure: Option<&str>) -> (step: ApplyStep)
        ensures
            final(self)@ == autostart_set(
                old(self)@,
                match failure {
                    Some(error) => Some(error@),
                    None => None,
                },
            ),
            step == autostart_step(
                old(self)@,
                match failure {
                    Some(error) => Some(error@),
                    None => None,
                },
            ),
    {
        if let Some(error) = failure {
            self.say_with(BannerKind::Error, AUTOSTART_FAILED, error);
            return ApplyStep::Finished;
        }
        self.settle_autostart()
    }

    /// Ends applying the settings, which were saved.
    pub fn apply_saved(&mut self, outcome: SavedConfig)
        ensures
            final(self)@ == saved(old(self)@, outcome),
    {
        let both = self.tray_autostart != self.persisted_tray_autostart;
        self.pending_reload =
        Some(
            PendingReload {
                baseline: outcome.baseline,
                not_before_unix_ms: outcome.not_before_unix_ms,
                expected_mode: outcome.validated.values.controller_mode,
                expected_config_fingerprint: outcome.fingerprint,
                expected_logging: outcome.validated.values.logging,
                deadline_ms: outcome.now_ms.saturating_add(outcome.wait_ms),
                next_poll_ms: outcome.now_ms,
            },
        );
        self.config = outcome.validated.copy();
        self.persisted = outcome.validated;
        self.persisted_tray_autostart = self.tray_autostart;
        self.confirmation = Confirmation::Nothing;
        self.service_reload_state = ServiceReloadState::InSync;
        if both {
            self.say(BannerKind::Information, ALL_SAVED);
        } else {
            self.say(BannerKind::Information, CONFIG_SAVED);
        }
    }

    /// Goes on after the settings could not be saved: where the start of the
    /// tray was changed before, it has to be changed back.
    pub fn apply_not_saved(&self) -> (step: ApplyStep)
        ensures
            step == if autostart_changed(self@) {
                ApplyStep::RollBackAutostart { enabled: self@.persisted_tray_autostart }
            } else {
                ApplyStep::Finished
            },
            step == not_saved_step(self@),
    {
        if self.tray_autostart != self.persisted_tray_autostart {
            ApplyStep::RollBackAutostart { enabled: self.persisted_tray_autostart }
        } else {
            ApplyStep::Finished
        }
    }

    /// Ends applying the settings, which could not be saved, with what was
    /// wrong with changing the start of the tray back.
    pub fn report_config_save_failure(&mut self, error: &str, rollback_error: Option<&str>)
        ensures
            final(self)@ == save_failed(
                old(self)@,
                error@,
                match rollback_error {
                    Some(rollback) => Some(rollback@),
                    None => None,
                },
            ),
    {
        self.pending_reload = None;
        match rollback_error {
            None => {
                self.say_with(BannerKind::Error, APPLY_FAILED, error);
            },
            Some(rollback) => {
                let message = fill(
                    self.language.phrase(APPLY_AND_ROLLBACK_FAILED),
                    &Blanks::new().text(error).text(rollback),
                );
                self.banner = Some(Banner { kind: BannerKind::Error, message });
            },
        }
    }

    /// Looks for the answer of the service and says after how many
    /// milliseconds to look again, if at all.
    pub fn poll_reload(&mut self, receipt: Option<&ReloadReceipt>, now_ms: u64) -> (delay_ms:
        Option<u64>)
        ensures
            final(self)@ == reload_polled(
                old(self)@,
                match receipt {
                    Some(receipt) => Some(*receipt),
                    None => None,
                },
                now_ms,
            ),
            delay_ms == reload_delay(
                old(self)@,
                match receipt {
                    Some(receipt) => Some(*receipt),
                    None => None,
                },
                now_ms,
            ),
    {
        let Some(mut pending) = self.pending_reload else {
            return None;
        };
        let outcome = pending.poll(receipt, now_ms);
        match outcome {
            ReloadPollOutcome::Pending(delay_ms) => {
                self.pending_reload = Some(pending);
                Some(delay_ms)
            },
            ReloadPollOutcome::Reloaded => {
                self.pending_reload = None;
                self.service_reload_state = ServiceReloadState::InSync;
                self.say(BannerKind::Success, SERVICE_RELOADED);
                None
            },
            ReloadPollOutcome::Rejected(error) => {
                self.pending_reload = None;
                self.service_reload_state = ServiceReloadState::RetryRequired;
                match error {
                    Some(error) => {
                        self.say_with(BannerKind::Error, SERVICE_REJECTED, error.as_str());
                    },
                    None => {
                        let unknown = self.language.phrase(NO_SERVICE_ERROR);
                        self.say_with(BannerKind::Error, SERVICE_REJECTED, unknown);
                    },
                }
                None
            },
            ReloadPollOutcome::TimedOutWithoutReceipt => {
                self.pending_reload = None;
                self.service_reload_state = ServiceReloadState::RetryRequired;
                self.say(BannerKind::Information, NO_RECEIPT);
                None
            },
            ReloadPollOutcome::TimedOutAfterMismatchedReceipt => {
                self.pending_reload = None;
                self.service_reload_state = ServiceReloadState::RetryRequired;
                self.say(BannerKind::Information, MISMATCHED_RECEIPT);
                None
            },
        }
    }

    /// Whether a diagnostic may be started.
    pub fn may_start_diagnostic(&self) -> (may: bool)
        ensures
            may == (self@.pending_diagnostic is None),
    {
        self.pending_diagnostic.is_none()
    }

    /// Takes that a diagnostic was started, or what was wrong with it.
    pub fn start_diagnostic(&mut self, failure: Option<&str>, now_ms: u64)
        ensures
            final(self)@ == match failure {
                None => EditorView {
                    diagnostic_error: None,
                    pending_diagnostic: Some(
                        PendingDiagnostic { started_ms: now_ms, cancelling: false },
                    ),
                    banner: plain(
                        old(self)@.language,
                        BannerKind::Information,
                        DIAGNOSTIC_STARTED,
                    ),
                    ..old(self)@
                },
                Some(error) => EditorView {
                    diagnostic_error: Some(error@),
                    banner: with_detail(
                        old(self)@.language,
                        BannerKind::Error,
                        DIAGNOSTIC_NOT_STARTED,
                        error@,
                    ),
                    ..old(self)@
                },
            },
    {
        match failure {
            None => {
                self.diagnostic_error = None;
                self.pending_diagnostic =
                Some(PendingDiagnostic { started_ms: now_ms, cancelling: false });
                self.say(BannerKind::Information, DIAGNOSTIC_STARTED);
            },
            Some(error) => {
                self.diagnostic_error = Some(error.to_owned());
                self.say_with(BannerKind::Error, DIAGNOSTIC_NOT_STARTED, error);
            },
        }
    }

    /// Cancels the diagnostic that is running, and says whether there is one.
    pub fn cancel_diagnostic(&mut self) -> (running: bool)
        ensures
            running == (old(self)@.pending_diagnostic is Some),
            final(self)@ == match old(self)@.pending_diagnostic {
                Some(pending) => EditorView {
                    pending_diagnostic: Some(PendingDiagnostic { cancelling: true, ..pending }),
                    ..old(self)@
                },
                None => old(self)@,
            },
    {
        match self.pending_diagnostic {
            Some(pending) => {
                self.pending_diagnostic =
                Some(PendingDiagnostic { started_ms: pending.started_ms, cancelling: true });
                true
            },
            None => false,
        }
    }

    /// Takes how the diagnostic ended.
    pub fn poll_diagnostic(&mut self, outcome: DiagnosticOutcome)
        ensures
            final(self)@ == diagnostic_ended(old(self)@, outcome),
    {
        self.pending_diagnostic = None;
        match outcome {
            DiagnosticOutcome::Completed => {
                self.diagnostic_error = None;
                self.say(BannerKind::Success, DIAGNOSTIC_COMPLETED);
            },
            DiagnosticOutcome::Failed(error) => {
                if same_text(error.as_str(), "diagnostic cancelled") {
                    self.say(BannerKind::Information, DIAGNOSTIC_CANCELLED);
                } else {
                    self.say_with(BannerKind::Error, DIAGNOSTIC_FAILED, error.as_str());
                    self.diagnostic_error = Some(error);
                }
            },
            DiagnosticOutcome::Lost => {
                self.diagnostic_error = Some(self.language.phrase(DIAGNOSTIC_LOST).to_owned());
                self.say(BannerKind::Error, DIAGNOSTIC_LOST);
            },
        }
    }

    /// Takes that there is no folder to save a report to.
    pub fn note_no_profile(&mut self)
        ensures
            final(self)@ == (EditorView {
                banner: plain(old(self)@.language, BannerKind::Error, NO_PROFILE),
                ..old(self)@
            }),
    {
        self.say(BannerKind::Error, NO_PROFILE);
    }

    /// Takes where a report was saved to, or what was wrong.
    pub fn save_diagnostic_report(&mut self, written: Result<&str, &str>)
        ensures
            final(self)@ == (EditorView {
                banner: match written {
                    Ok(path) => with_detail(
                        old(self)@.language,
                        BannerKind::Success,
                        REPORT_SAVED,
                        path@,
                    ),
                    Err(error) => with_detail(
                        old(self)@.language,
                        BannerKind::Error,
                        REPORT_NOT_SAVED,
                        error@,
                    ),
                },
                ..old(self)@
            }),
    {
        match written {
            Ok(path) => {
                self.say_with(BannerKind::Success, REPORT_SAVED, path);
            },
            Err(error) => {
                self.say_with(BannerKind::Error, REPORT_NOT_SAVED, error);
            },
        }
    }

    /// What the title line says of unsaved changes.
    pub fn save_state(&self) -> (state: SaveState)
        ensures
            state == save_state(self@),
    {
        if self.is_dirty() {
            SaveState::Unsaved
        } else if self.service_reload_state == ServiceReloadState::RetryRequired {
            SaveState::SavedNotTaken
        } else {
            SaveState::Saved
        }
    }

    /// Whether the settings can be applied.
    pub fn can_apply(&self) -> (can: bool)
        ensures
            can == can_be_applied(self@),
    {
        (self.is_dirty() || self.service_reload_state == ServiceReloadState::RetryRequired)
            && self.pending_reload.is_none()
    }

    /// Asks the user something, or nothing.
    pub fn ask(&mut self, confirmation: Confirmation)
        ensures
            final(self)@ == (EditorView { confirmation, ..old(self)@ }),
    {
        self.confirmation = confirmation;
    }

    /// The user wants the defaults: takes them into the editor, or what was
    /// wrong with them.
    pub fn restore_defaults(&mut self, defaults: Result<ControllerConfig, String>)
        ensures
            final(self)@ == match defaults {
                Ok(config) => EditorView {
                    confirmation: Confirmation::Nothing,
                    config: config@,
                    tray_autostart: true,
                    banner: plain(
                        old(self)@.language,
                        BannerKind::Information,
                        DEFAULTS_LOADED,
                    ),
                    ..old(self)@
                },
                Err(error) => EditorView {
                    confirmation: Confirmation::Nothing,
                    banner: with_detail(
                        old(self)@.language,
                        BannerKind::Error,
                        DEFAULTS_FAILED,
                        error@,
                    ),
                    ..old(self)@
                },
            },
            final(self)@ == defaulted(old(self)@, defaults),
    {
        self.confirmation = Confirmation::Nothing;
        match defaults {
            Ok(config) => {
                self.config = config;
                self.tray_autostart = true;
                self.say(BannerKind::Information, DEFAULTS_LOADED);
            },
            Err(error) => {
                self.say_with(BannerKind::Error, DEFAULTS_FAILED, error.as_str());
            },
        }
    }

    /// The user wants the changes discarded.
    pub fn discard_changes(&mut self)
        ensures
            final(self)@ == (EditorView {
                config: old(self)@.persisted,
                tray_autostart: old(self)@.persisted_tray_autostart,
                confirmation: Confirmation::Nothing,
                banner: plain(old(self)@.language, BannerKind::Information, CHANGES_CANCELLED),
                ..old(self)@
            }),
            final(self)@ == discarded(old(self)@),
            !dirty(final(self)@),
    {
        self.config = self.persisted.copy();
        self.tray_autostart = self.persisted_tray_autostart;
        self.confirmation = Confirmation::Nothing;
        self.say(BannerKind::Information, CHANGES_CANCELLED);
    }

    /// The user wants the window closed whatever is lost.
    pub fn discard_and_close(&mut self)
        ensures
            final(self)@ == (EditorView { allow_close: true, ..old(self)@ }),
    {
        self.allow_close = true;
    }

    /// The user pressed the button that closes the window: says whether it is
    /// closed. Where changes would be lost, the user is asked first.
    pub fn close(&mut self) -> (closes: bool)
        ensures
            closes == !dirty(old(self)@),
            final(self)@ == if dirty(old(self)@) {
                EditorView { confirmation: Confirmation::Close, ..old(self)@ }
            } else {
                EditorView { allow_close: true, ..old(self)@ }
            },
            final(self)@ == closing(old(self)@),
    {
        if self.is_dirty() {
            self.confirmation = Confirmation::Close;
            false
        } else {
            self.allow_close = true;
            true
        }
    }

    /// The system wants the window closed: says whether it stays. Where
    /// changes would be lost that the user has not given up, the user is
    /// asked first.
    pub fn close_requested(&mut self) -> (stays: bool)
        ensures
            stays == (dirty(old(self)@) && !old(self)@.allow_close),
            final(self)@ == if dirty(old(self)@) && !old(self)@.allow_close {
                EditorView { confirmation: Confirmation::Close, ..old(self)@ }
            } else {
                old(self)@
            },
            final(self)@ == asked_to_close(old(self)@),
    {
        if self.is_dirty() && !self.allow_close {
            self.confirmation = Confirmation::Close;
            true
        } else {
            false
        }
    }

    /// Turns a switch.
    pub fn toggle(&mut self, field: Field, on: bool)
        ensures
            final(self)@ == if field == Field::TrayAutostart {
                EditorView { tray_autostart: on, ..old(self)@ }
            } else {
                EditorView {
                    config: ConfigView {
                        values: crate::settings_config::with_toggle(
                            old(self)@.config.values,
                            field,
                            on,
                        ),
                        ..old(self)@.config
                    },
                    ..old(self)@
                }
            },
    {
        if field == Field::TrayAutostart {
            self.tray_autostart = on;
        } else {
            set_toggle(&mut self.config.values, field, on);
        }
    }

    /// Gives a setting a number.
    pub fn enter(&mut self, field: Field, value: u64, limits: &EditorLimits)
        ensures
            final(self)@ == (EditorView {
                config: ConfigView {
                    values: crate::settings_config::with_number(
                        old(self)@.config.values,
                        field,
                        crate::settings_config::bounded(
                            value,
                            crate::settings_config::bounds_of(field, *limits),
                        ),
                    ),
                    ..old(self)@.config
                },
                ..old(self)@
            }),
    {
        set_number(&mut self.config.values, field, value, limits);
    }

    /// Takes one of several choices.
    pub fn choose_option(&mut self, field: Field, at: u64)
        ensures
            final(self)@ == (EditorView {
                config: ConfigView {
                    values: crate::settings_config::with_choice(
                        old(self)@.config.values,
                        field,
                        at,
                    ),
                    ..old(self)@.config
                },
                ..old(self)@
            }),
    {
        set_choice(&mut self.config.values, field, at);
    }

    /// Names the domain of strict rules that name none, as they are shown.
    pub fn complete_rules(&mut self)
        ensures
            final(self)@ == (EditorView {
                config: ConfigView {
                    rules: old(self)@.config.rules.map_values(
                        |rule: RuleView| crate::rules::with_domain(rule),
                    ),
                    ..old(self)@.config
                },
                ..old(self)@
            }),
    {
        complete_strict_rules(&mut self.config.rules);
    }

    /// Adds a rule without a name.
    pub fn add_rule(&mut self)
        ensures
            final(self)@ == (EditorView {
                config: ConfigView {
                    rules: old(self)@.config.rules.push(crate::rules::draft_of(""@)),
                    ..old(self)@.config
                },
                ..old(self)@
            }),
    {
        add_rule(&mut self.config.rules, "");
    }

    /// Removes a rule.
    pub fn remove_rule(&mut self, at: usize)
        requires
            at < old(self)@.config.rules.len(),
        ensures
            final(self)@ == (EditorView {
                config: ConfigView {
                    rules: old(self)@.config.rules.remove(at as int),
                    ..old(self)@.config
                },
                ..old(self)@
            }),
    {
        self.config.rules.remove(at);
        proof {
            assert(crate::rules::rule_views(self.config.rules@) =~= old(
                self,
            )@.config.rules.remove(at as int));
        }
    }

    /// Changes a rule: its executable, its mode, its profile and, where it is
    /// strict, the domain that it pins to.
    pub fn edit_rule(
        &mut self,
        at: usize,
        image: &str,
        mode: RuleMode,
        profile: WorkloadProfile,
        group: u16,
        llc: u8,
    )
        requires
            at < old(self)@.config.rules.len(),
        ensures
            final(self)@ == (EditorView {
                config: ConfigView {
                    rules: old(self)@.config.rules.update(
                        at as int,
                        edited(
                            old(self)@.config.rules[at as int],
                            image@,
                            mode,
                            profile,
                            group,
                            llc,
                        ),
                    ),
                    ..old(self)@.config
                },
                ..old(self)@
            }),
    {
        let ghost before = self.config.rules@;
        let mut rule = self.config.rules.remove(at);
        let ghost rest = self.config.rules@;
        rule.image = image.to_owned();
        let was_strict = rule.mode == RuleMode::Strict;
        choose_mode(&mut rule, mode);
        rule.profile = profile;
        if was_strict && mode == RuleMode::Strict {
            rule.group = Some(group);
            rule.llc = Some(llc);
        }
        let ghost now = rule@;
        self.config.rules.insert(at, rule);
        proof {
            assert(crate::rules::rule_views(self.config.rules@) =~= old(
                self,
            )@.config.rules.update(at as int, now));
        }
    }

    /// The place of the rule that was asked for, once: the last one that is
    /// for the executable is scrolled to.
    pub fn take_rule_focus(&mut self) -> (place: Option<usize>)
        ensures
            match old(self)@.rule_focus_image {
                None => place is None && final(self)@ == old(self)@,
                Some(image) => {
                    &&& place is None <==> !has_rule_for(old(self)@.config.rules, image)
                    &&& place matches Some(at) ==> {
                        &&& at < old(self)@.config.rules.len()
                        &&& crate::rules::is_for(old(self)@.config.rules[at as int], image)
                        &&& forall|i: int|
                            at < i < old(self)@.config.rules.len() ==> !crate::rules::is_for(
                                #[trigger] old(self)@.config.rules[i],
                                image,
                            )
                    }
                    &&& final(self)@ == (EditorView {
                        rule_focus_image: if place is Some {
                            None
                        } else {
                            Some(image)
                        },
                        ..old(self)@
                    })
                },
            },
    {
        let Some(image) = &self.rule_focus_image else {
            return None;
        };
        let ghost rules = self@.config.rules;
        let mut at: usize = self.config.rules.len();
        let mut found: Option<usize> = None;
        while at > 0 && found.is_none()
            invariant
                at <= self.config.rules.len(),
                rules == crate::rules::rule_views(self.config.rules@),
                found is None ==> forall|i: int|
                    at <= i < rules.len() ==> !crate::rules::is_for(#[trigger] rules[i], image@),
                found matches Some(place) ==> {
                    &&& place < rules.len()
                    &&& crate::rules::is_for(rules[place as int], image@)
                    &&& forall|i: int|
                        place < i < rules.len() ==> !crate::rules::is_for(
                            #[trigger] rules[i],
                            image@,
                        )
                },
            decreases at,
        {
            at = at - 1;
            proof {
                assert(rules[at as int] == self.config.rules@[at as int]@);
            }
            if eq_ignore_ascii_case(self.config.rules[at].image.as_str(), image.as_str()) {
                found = Some(at);
            }
        }
        if found.is_some() {
            self.rule_focus_image = None;
        }
        found
    }
}

/// Whether some rule is for an executable.
pub open spec fn has_rule_for(rules: Seq<RuleView>, image: Seq<char>) -> bool {
    exists|i: int| 0 <= i < rules.len() && crate::rules::is_for(#[trigger] rules[i], image)
}

/// A rule after it was changed. The domain counts only where the rule was and
/// stays strict; where it becomes strict, it keeps or gets its first domain.
pub open spec fn edited(
    rule: RuleView,
    image: Seq<char>,
    mode: RuleMode,
    profile: WorkloadProfile,
    group: u16,
    llc: u8,
) -> RuleView {
    let chosen = RuleView { image, profile, ..crate::rules::with_mode(rule, mode) };
    if rule.mode == RuleMode::Strict && mode == RuleMode::Strict {
        RuleView { group: Some(group), llc: Some(llc), ..chosen }
    } else {
        chosen
    }
}

/// Settings that were saved are not dirty, whatever the service makes of them.
pub proof fn saved_settings_are_clean(view: EditorView, outcome: SavedConfig, answer: PollView)
    ensures
        !dirty(saved(view, outcome)),
        !dirty(answered(saved(view, outcome), answer)),
{
}

/// Applying settings that fails keeps what is being edited and what was saved
/// as they were, so that nothing is lost and nothing is taken as saved.
pub proof fn failed_applies_lose_nothing(
    view: EditorView,
    error: Seq<char>,
    rollback_error: Option<Seq<char>>,
)
    ensures
        validated(view, Some(error)).config == view.config,
        validated(view, Some(error)).persisted == view.persisted,
        dirty(validated(view, Some(error))) == dirty(view),
        autostart_set(view, Some(error)).config == view.config,
        autostart_set(view, Some(error)).persisted == view.persisted,
        dirty(autostart_set(view, Some(error))) == dirty(view),
        save_failed(view, error, rollback_error).config == view.config,
        save_failed(view, error, rollback_error).persisted == view.persisted,
        dirty(save_failed(view, error, rollback_error)) == dirty(view),
{
}

/// Settings that the service refused or did not answer can be applied again,
/// though nothing was changed, and doing so writes them again.
pub proof fn unanswered_settings_can_be_retried(view: EditorView, outcome: PollView)
    requires
        !(outcome is Pending),
        outcome != PollView::Reloaded,
    ensures
        can_be_applied(answered(view, outcome)),
        must_write(answered(view, outcome)),
{
}

/// While the answer of the service is awaited, settings cannot be applied.
pub proof fn one_apply_at_a_time(view: EditorView, outcome: SavedConfig)
    ensures
        !can_be_applied(saved(view, outcome)),
{
}

/// Applying reaches every change: the start of the tray is turned only where
/// it was changed, the settings are written only where that is needed, and
/// where neither is, nothing is done.
pub proof fn applying_does_what_is_needed(view: EditorView)
    ensures
        (validated_step(view, None) is SetAutostart) == autostart_changed(view),
        !autostart_changed(view) ==> (validated_step(view, None) is Save) == must_write(view),
        (autostart_step(view, None) is Save) == must_write(view),
        !autostart_changed(view) && !must_write(view) ==> !dirty(view),
{
}

/// Saved settings count as taken over exactly on an answer that is newer than
/// they are and names their mode, their number and their log; a newer answer
/// that refuses counts as a refusal, with what it says. Any other answer is as
/// good as none until the deadline, and then ends the wait.
pub proof fn answers_end_the_wait(pending: PendingReload, receipt: ReloadReceipt, now_ms: u64)
    requires
        now_ms >= pending.next_poll_ms,
    ensures
        ({
            let outcome = pending.outcome(Some(receipt), now_ms);
            let names = receipt.configured_mode == pending.expected_mode
                && receipt.applied_config_fingerprint == pending.expected_config_fingerprint
                && receipt.applied_logging == pending.expected_logging;
            let taken = receipt.newer && receipt.result == ConfigReloadResult::Reloaded && names;
            let refused = receipt.newer && receipt.result == ConfigReloadResult::Rejected;
            &&& outcome == PollView::Reloaded <==> taken
            &&& refused ==> outcome == PollView::Rejected(receipt.error.deep_view())
            &&& outcome is Rejected ==> refused
            &&& !taken && !refused && now_ms < pending.deadline_ms ==> outcome == PollView::Pending(
                STATUS_POLL_INTERVAL_MS,
            )
            &&& !taken && !refused && now_ms >= pending.deadline_ms && receipt.newer ==> outcome
                == PollView::TimedOutAfterMismatchedReceipt
            &&& !taken && !refused && now_ms >= pending.deadline_ms && !receipt.newer ==> outcome
                == PollView::TimedOutWithoutReceipt
            &&& now_ms < pending.deadline_ms ==> pending.outcome(None, now_ms) == PollView::Pending(
                STATUS_POLL_INTERVAL_MS,
            )
            &&& now_ms >= pending.deadline_ms ==> pending.outcome(None, now_ms)
                == PollView::TimedOutWithoutReceipt
        }),
{
}

/// Before it is time to look, nothing is looked at and nothing changes; the
/// wait is exactly until it is. A look puts the next one off by the interval
/// and changes nothing else that is waited for.
pub proof fn looks_are_taken_in_their_time(
    pending: PendingReload,
    receipt: Option<ReloadReceipt>,
    now_ms: u64,
)
    ensures
        now_ms < pending.next_poll_ms ==> {
            &&& pending.polled(now_ms) == pending
            &&& pending.outcome(receipt, now_ms) matches PollView::Pending(delay_ms) && now_ms
                + delay_ms == pending.next_poll_ms
        },
        now_ms >= pending.next_poll_ms ==> {
            let after = pending.polled(now_ms);
            &&& now_ms + STATUS_POLL_INTERVAL_MS <= u64::MAX ==> after.next_poll_ms == now_ms
                + STATUS_POLL_INTERVAL_MS
            &&& after.deadline_ms == pending.deadline_ms
            &&& after.expected_mode == pending.expected_mode
            &&& after.expected_config_fingerprint == pending.expected_config_fingerprint
            &&& after.expected_logging == pending.expected_logging
            &&& after.baseline == pending.baseline
            &&& after.not_before_unix_ms == pending.not_before_unix_ms
        },
{
}

/// An answer that names the saved settings ends the wait for them well, and
/// the wait for settings begins when they are saved.
pub proof fn saved_settings_await_their_answer(
    view: EditorView,
    outcome: SavedConfig,
    receipt: ReloadReceipt,
)
    requires
        receipt.newer,
        receipt.result == ConfigReloadResult::Reloaded,
        receipt.configured_mode == outcome.validated.values.controller_mode,
        receipt.applied_config_fingerprint == outcome.fingerprint,
        receipt.applied_logging == outcome.validated.values.logging,
    ensures
        ({
            let after = saved(view, outcome);
            let ended = reload_polled(after, Some(receipt), outcome.now_ms);
            let pending = after.pending_reload->0;
            &&& after.pending_reload is Some
            &&& ended.pending_reload is None
            &&& ended.service_reload_state == ServiceReloadState::InSync
            &&& ended.banner == plain(view.language, BannerKind::Success, SERVICE_RELOADED)
            &&& pending.next_poll_ms == outcome.now_ms
            &&& outcome.now_ms + outcome.wait_ms <= u64::MAX ==> pending.deadline_ms
                == outcome.now_ms + outcome.wait_ms
            &&& pending.baseline == outcome.baseline
            &&& pending.not_before_unix_ms == outcome.not_before_unix_ms
            &&& after.config == outcome.validated@
            &&& after.persisted == outcome.validated@
            &&& after.tray_autostart == view.tray_autostart
            &&& after.persisted_tray_autostart == view.tray_autostart
            &&& after.confirmation == Confirmation::Nothing
            &&& after.service_reload_state == ServiceReloadState::InSync
            &&& after.tab == view.tab && after.allow_close == view.allow_close
        }),
{
}

/// Settings that do not pass their check are not applied at all. Where they
/// do, a changed start of the tray is set first, to what is wanted; then the
/// settings are written where they were changed or the service does not have
/// them; and where neither is so, nothing is done.
pub proof fn settings_are_applied_in_order(view: EditorView, error: Seq<char>)
    ensures
        ({
            let changed = view.config != view.persisted || view.service_reload_state
                == ServiceReloadState::RetryRequired;
            let write = ApplyStep::Save {
                wait_ms: crate::settings_files::reload_wait(
                    view.persisted.values.sample_interval_ms,
                    view.config.values.sample_interval_ms,
                ),
            };
            &&& validated_step(view, Some(error)) == ApplyStep::Finished
            &&& view.tray_autostart != view.persisted_tray_autostart ==> validated_step(view, None)
                == (ApplyStep::SetAutostart { enabled: view.tray_autostart })
            &&& view.tray_autostart == view.persisted_tray_autostart && changed ==> validated_step(
                view,
                None,
            ) == write
            &&& view.tray_autostart == view.persisted_tray_autostart && !changed ==> validated_step(
                view,
                None,
            ) == ApplyStep::Finished
            &&& autostart_step(view, Some(error)) == ApplyStep::Finished
            &&& changed ==> autostart_step(view, None) == write
            &&& !changed ==> autostart_step(view, None) == ApplyStep::Finished
        }),
{
}

/// While something is still to be done, the window stays as it is; once the
/// start of the tray was all there was to do, it counts as saved, and the
/// window says which way it was turned.
pub proof fn the_tray_start_counts_when_it_is_all(view: EditorView, error: Seq<char>)
    ensures
        ({
            let after = autostart_set(view, None);
            &&& must_write(view) ==> after == view
            &&& !must_write(view) ==> {
                &&& after.persisted_tray_autostart == view.tray_autostart
                &&& !dirty(after)
                &&& after.pending_reload is None
                &&& after.confirmation == Confirmation::Nothing
                &&& view.tray_autostart ==> after.banner == plain(
                    view.language,
                    BannerKind::Success,
                    AUTOSTART_ENABLED,
                )
                &&& !view.tray_autostart ==> after.banner == plain(
                    view.language,
                    BannerKind::Success,
                    AUTOSTART_DISABLED,
                )
            }
            &&& after.config == view.config && after.persisted == view.persisted
                && after.tray_autostart == view.tray_autostart
            &&& view.tray_autostart != view.persisted_tray_autostart ==> validated(view, None)
                == view
            &&& autostart_set(view, Some(error)).persisted_tray_autostart
                == view.persisted_tray_autostart
            &&& autostart_set(view, Some(error)).banner == with_detail(
                view.language,
                BannerKind::Error,
                AUTOSTART_FAILED,
                error,
            )
            &&& validated(view, Some(error)).banner == with_detail(
                view.language,
                BannerKind::Error,
                VALIDATION_FAILED,
                error,
            )
        }),
{
}

/// What is done after settings could not be saved.
pub open spec fn not_saved_step(view: EditorView) -> ApplyStep {
    if autostart_changed(view) {
        ApplyStep::RollBackAutostart { enabled: view.persisted_tray_autostart }
    } else {
        ApplyStep::Finished
    }
}

/// A start of the tray that was changed for settings that could not be saved
/// is changed back to what it was; one that was not changed is left alone.
/// The failure is told, with that of changing back where that failed too.
pub proof fn failed_saves_are_undone(view: EditorView, error: Seq<char>, rollback: Seq<char>)
    ensures
        ({
            let wanted = validated_step(view, None);
            let undone = not_saved_step(view);
            &&& wanted matches ApplyStep::SetAutostart { enabled } ==> undone
                == ApplyStep::RollBackAutostart { enabled: !enabled }
            &&& !(wanted is SetAutostart) ==> undone == ApplyStep::Finished
            &&& save_failed(view, error, None).pending_reload is None
            &&& save_failed(view, error, None).banner == with_detail(
                view.language,
                BannerKind::Error,
                APPLY_FAILED,
                error,
            )
            &&& save_failed(view, error, Some(rollback)).banner matches Some(banner) && banner.kind
                == BannerKind::Error && banner.message == crate::template::filled(
                view.language.words(APPLY_AND_ROLLBACK_FAILED),
                seq![error, rollback],
            )
        }),
{
    assert(crate::monitor::two(error, rollback) =~= seq![error, rollback]);
}

/// What the service answers decides whether it has the settings: only where it
/// took them over are they in sync. Any answer ends the wait, none touches what
/// is edited or saved, and each is told in its own words.
pub proof fn answers_are_told(view: EditorView, outcome: PollView)
    ensures
        ({
            let after = answered(view, outcome);
            &&& after.config == view.config && after.persisted == view.persisted
                && after.tray_autostart == view.tray_autostart && after.persisted_tray_autostart
                == view.persisted_tray_autostart
            &&& outcome is Pending ==> after == view
            &&& !(outcome is Pending) ==> {
                &&& after.pending_reload is None
                &&& after.service_reload_state == ServiceReloadState::InSync <==> outcome
                    == PollView::Reloaded
            }
            &&& outcome == PollView::Reloaded ==> after.banner == plain(
                view.language,
                BannerKind::Success,
                SERVICE_RELOADED,
            )
            &&& outcome matches PollView::Rejected(Some(error)) ==> after.banner == with_detail(
                view.language,
                BannerKind::Error,
                SERVICE_REJECTED,
                error,
            )
            &&& outcome matches PollView::Rejected(None) ==> after.banner == with_detail(
                view.language,
                BannerKind::Error,
                SERVICE_REJECTED,
                view.language.words(NO_SERVICE_ERROR),
            )
            &&& outcome == PollView::TimedOutWithoutReceipt ==> after.banner == plain(
                view.language,
                BannerKind::Information,
                NO_RECEIPT,
            )
            &&& outcome == PollView::TimedOutAfterMismatchedReceipt ==> after.banner == plain(
                view.language,
                BannerKind::Information,
                MISMATCHED_RECEIPT,
            )
        }),
{
}

/// A look is taken again exactly while an answer is waited for.
pub proof fn looks_go_on_while_waiting(
    view: EditorView,
    receipt: Option<ReloadReceipt>,
    now_ms: u64,
)
    ensures
        reload_delay(view, receipt, now_ms) is Some <==> reload_polled(
            view,
            receipt,
            now_ms,
        ).pending_reload is Some,
        view.pending_reload is None ==> reload_polled(view, receipt, now_ms) == view,
        reload_polled(view, receipt, now_ms).config == view.config,
        reload_delay(view, receipt, now_ms) is Some ==> reload_polled(
            view,
            receipt,
            now_ms,
        ).banner == view.banner,
{
}

/// Asking for a rule leads to the page of the rules and to a rule for the
/// executable; whether it was there or is new is told. Every other setting
/// stays, and nothing is saved by it.
pub proof fn asked_for_rules_are_shown(view: EditorView, image: Seq<char>)
    ensures
        ({
            let after = rule_opened(view, image);
            let known = crate::rules::rule_place(view.config.rules, image) is Some;
            &&& after.tab == SettingsTab::Rules
            &&& after.rule_focus_image == Some(image)
            &&& crate::rules::rule_place(after.config.rules, image) is Some
            &&& after.config.values == view.config.values
            &&& after.persisted == view.persisted
            &&& known ==> after.config.rules == view.config.rules && after.banner == with_detail(
                view.language,
                BannerKind::Information,
                RULE_OPENED,
                image,
            )
            &&& !known ==> after.config.rules.len() == view.config.rules.len() + 1
                && after.config.rules.last().image == image && after.banner == with_detail(
                view.language,
                BannerKind::Information,
                RULE_DRAFTED,
                image,
            )
        }),
{
    crate::rules::one_draft_is_enough(view.config.rules, image, image);
}

/// A diagnostic that ended is not waited for any more. One that completed
/// leaves no error, one that was cancelled leaves the error that there was, and
/// one that failed or was lost leaves its own.
pub proof fn ended_diagnostics_leave_their_error(
    view: EditorView,
    error: String,
)
    ensures
        ({
            let completed = diagnostic_ended(view, DiagnosticOutcome::Completed);
            let failed = diagnostic_ended(view, DiagnosticOutcome::Failed(error));
            let lost = diagnostic_ended(view, DiagnosticOutcome::Lost);
            &&& completed.pending_diagnostic is None && failed.pending_diagnostic is None
                && lost.pending_diagnostic is None
            &&& completed.diagnostic_error is None
            &&& completed.banner == plain(
                view.language,
                BannerKind::Success,
                DIAGNOSTIC_COMPLETED,
            )
            &&& error@ == "diagnostic cancelled"@ ==> failed.diagnostic_error
                == view.diagnostic_error && failed.banner == plain(
                view.language,
                BannerKind::Information,
                DIAGNOSTIC_CANCELLED,
            )
            &&& error@ != "diagnostic cancelled"@ ==> failed.diagnostic_error == Some(error@)
                && failed.banner == with_detail(
                view.language,
                BannerKind::Error,
                DIAGNOSTIC_FAILED,
                error@,
            )
            &&& lost.diagnostic_error is Some && (lost.banner matches Some(banner) && banner.kind
                == BannerKind::Error && Some(banner.message) == lost.diagnostic_error)
            &&& completed.config == view.config && failed.config == view.config && lost.config
                == view.config
        }),
{
}

/// The window says that changes are not saved exactly where there are any, and
/// lets them be applied then; it also lets settings be applied that the
/// service does not have, but never while it waits for an answer.
pub proof fn what_can_be_applied_is_said(view: EditorView)
    ensures
        ({
            let changed = view.config != view.persisted || view.tray_autostart
                != view.persisted_tray_autostart;
            let missing = view.service_reload_state == ServiceReloadState::RetryRequired;
            &&& dirty(view) <==> changed
            &&& save_state(view) == SaveState::Unsaved <==> changed
            &&& save_state(view) == SaveState::SavedNotTaken <==> !changed && missing
            &&& save_state(view) == SaveState::Saved <==> !changed && !missing
            &&& view.pending_reload is Some ==> !can_be_applied(view)
            &&& view.pending_reload is None ==> (can_be_applied(view) <==> save_state(view)
                != SaveState::Saved)
        }),
{
}

/// A changed rule is for the executable that was entered, with the mode and
/// the profile that were chosen. The domain that was entered counts where the
/// rule was and stays strict; any other rule names none, unless it becomes
/// strict, when it keeps what it names and gets the first of what it does not.
pub proof fn rules_are_as_entered(
    rule: RuleView,
    image: Seq<char>,
    mode: RuleMode,
    profile: WorkloadProfile,
    group: u16,
    llc: u8,
)
    ensures
        ({
            let after = edited(rule, image, mode, profile, group, llc);
            let was_strict = rule.mode == RuleMode::Strict;
            let strict = mode == RuleMode::Strict;
            &&& after.image == image
            &&& after.mode == mode
            &&& after.profile == profile
            &&& was_strict && strict ==> after.group == Some(group) && after.llc == Some(llc)
            &&& !was_strict && strict ==> after.group is Some && after.llc is Some
            &&& !was_strict && strict && rule.group is Some ==> after.group == rule.group
            &&& !was_strict && strict && rule.llc is Some ==> after.llc == rule.llc
            &&& !was_strict && strict && rule.group is None ==> after.group == Some(0u16)
            &&& !was_strict && strict && rule.llc is None ==> after.llc == Some(0u8)
            &&& mode != rule.mode && !strict ==> after.group is None && after.llc is None
            &&& mode == rule.mode && !strict ==> after.group == rule.group && after.llc == rule.llc
        }),
{
}

/// The window after the settings were read again.
pub open spec fn read_again(
    view: EditorView,
    loaded: Result<(ControllerConfig, bool), String>,
) -> EditorView {
    match loaded {
        Ok((config, autostart)) => EditorView {
            config: config@,
            persisted: config@,
            tray_autostart: autostart,
            persisted_tray_autostart: autostart,
            confirmation: Confirmation::Nothing,
            pending_reload: None,
            banner: plain(view.language, BannerKind::Success, CONFIG_RELOADED),
            ..view
        },
        Err(error) => EditorView {
            banner: with_detail(view.language, BannerKind::Error, RELOAD_FAILED, error@),
            ..view
        },
    }
}

/// The window after the defaults were asked for.
pub open spec fn defaulted(
    view: EditorView,
    defaults: Result<ControllerConfig, String>,
) -> EditorView {
    match defaults {
        Ok(config) => EditorView {
            confirmation: Confirmation::Nothing,
            config: config@,
            tray_autostart: true,
            banner: plain(view.language, BannerKind::Information, DEFAULTS_LOADED),
            ..view
        },
        Err(error) => EditorView {
            confirmation: Confirmation::Nothing,
            banner: with_detail(view.language, BannerKind::Error, DEFAULTS_FAILED, error@),
            ..view
        },
    }
}

/// The window after its changes were discarded.
pub open spec fn discarded(view: EditorView) -> EditorView {
    EditorView {
        config: view.persisted,
        tray_autostart: view.persisted_tray_autostart,
        confirmation: Confirmation::Nothing,
        banner: plain(view.language, BannerKind::Information, CHANGES_CANCELLED),
        ..view
    }
}

/// Settings that are read again are edited from there, with nothing unsaved;
/// where they cannot be read, what is edited stays.
pub proof fn read_settings_are_edited_from_there(
    view: EditorView,
    loaded: Result<(ControllerConfig, bool), String>,
)
    ensures
        ({
            let after = read_again(view, loaded);
            &&& loaded matches Ok((config, autostart)) ==> {
                &&& after.config == config@ && after.tray_autostart == autostart
                &&& !dirty(after)
                &&& after.pending_reload is None
                &&& after.confirmation == Confirmation::Nothing
                &&& after.service_reload_state == view.service_reload_state
            }
            &&& loaded is Err ==> after.config == view.config && after.persisted == view.persisted
                && after.tray_autostart == view.tray_autostart && after.persisted_tray_autostart
                == view.persisted_tray_autostart && after.pending_reload == view.pending_reload
            &&& after.banner matches Some(banner) && (banner.kind == BannerKind::Error
                <==> loaded is Err)
        }),
{
}

/// The defaults are only edited, with the tray started at sign-in: what was
/// saved stays saved until they are applied, and discarding them brings it
/// back.
pub proof fn defaults_are_not_saved_by_loading(
    view: EditorView,
    defaults: Result<ControllerConfig, String>,
)
    ensures
        ({
            let after = defaulted(view, defaults);
            &&& after.persisted == view.persisted
            &&& after.persisted_tray_autostart == view.persisted_tray_autostart
            &&& after.confirmation == Confirmation::Nothing
            &&& defaults matches Ok(config) ==> after.config == config@ && after.tray_autostart
            &&& defaults is Err ==> after.config == view.config && after.tray_autostart
                == view.tray_autostart
            &&& discarded(after).config == view.persisted
            &&& discarded(after).tray_autostart == view.persisted_tray_autostart
            &&& !dirty(discarded(after))
            &&& discarded(after).persisted == view.persisted
            &&& discarded(after).pending_reload == after.pending_reload
        }),
{
}

/// The window after its button to close it was pressed.
pub open spec fn closing(view: EditorView) -> EditorView {
    if dirty(view) {
        EditorView { confirmation: Confirmation::Close, ..view }
    } else {
        EditorView { allow_close: true, ..view }
    }
}

/// The window after the system asked to close it.
pub open spec fn asked_to_close(view: EditorView) -> EditorView {
    if dirty(view) && !view.allow_close {
        EditorView { confirmation: Confirmation::Close, ..view }
    } else {
        view
    }
}

/// No change is lost without asking: a window with changes asks before it is
/// closed, and is closed only once the user gave them up; one without is closed
/// at once.
pub proof fn changes_are_not_lost_by_closing(view: EditorView)
    ensures
        dirty(view) ==> closing(view).confirmation == Confirmation::Close && closing(
            view,
        ).allow_close == view.allow_close,
        !dirty(view) ==> closing(view).allow_close && closing(view).confirmation
            == view.confirmation,
        dirty(view) && !view.allow_close ==> asked_to_close(view).confirmation
            == Confirmation::Close,
        !dirty(view) || view.allow_close ==> asked_to_close(view) == view,
        closing(view).config == view.config && asked_to_close(view).config == view.config,
{
}

} // verus!
