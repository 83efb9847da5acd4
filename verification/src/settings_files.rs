//! The files and the requests of the settings program.
use vstd::prelude::*;

use crate::text::chars_of;
use crate::text::same_text;
use crate::text::trim_text;

verus! {

/// By how many milliseconds a receipt may come later than one interval of the
/// service.
pub const RECEIPT_MARGIN_MS: u64 = 5_000;

/// How many milliseconds to wait for the service to take over new settings:
/// one complete old or new interval, whichever is longer, and a margin.
pub open spec fn reload_wait(previous_interval_ms: u64, updated_interval_ms: u64) -> u64 {
    let longer = if previous_interval_ms >= updated_interval_ms {
        previous_interval_ms
    } else {
        updated_interval_ms
    };
    if longer + RECEIPT_MARGIN_MS > u64::MAX {
        u64::MAX
    } else {
        (longer + RECEIPT_MARGIN_MS) as u64
    }
}

/// How many milliseconds to wait for the service to take over new settings.
pub fn config_reload_wait_ms(previous_interval_ms: u64, updated_interval_ms: u64) -> (wait_ms: u64)
    ensures
        wait_ms == reload_wait(previous_interval_ms, updated_interval_ms),
{
    let longer: u64 = if previous_interval_ms >= updated_interval_ms {
        previous_interval_ms
    } else {
        updated_interval_ms
    };
    longer.saturating_add(RECEIPT_MARGIN_MS)
}

/// The wait covers both intervals with the margin, whichever is the longer
/// one, and does not depend on their order.
pub proof fn the_wait_covers_both_intervals(previous_interval_ms: u64, updated_interval_ms: u64)
    ensures
        reload_wait(previous_interval_ms, updated_interval_ms) == reload_wait(
            updated_interval_ms,
            previous_interval_ms,
        ),
        previous_interval_ms + RECEIPT_MARGIN_MS <= u64::MAX ==> reload_wait(
            previous_interval_ms,
            updated_interval_ms,
        ) >= previous_interval_ms + RECEIPT_MARGIN_MS,
        updated_interval_ms + RECEIPT_MARGIN_MS <= u64::MAX ==> reload_wait(
            previous_interval_ms,
            updated_interval_ms,
        ) >= updated_interval_ms + RECEIPT_MARGIN_MS,
{
}

/// Whether a path is nothing but a drive, where paths have drives: a name
/// behind it is then relative to the directory that the drive is in.
pub open spec fn is_bare_drive(directory: Seq<char>, separator: char) -> bool {
    separator == '\\' && directory.len() == 2 && directory[1] == ':' && ('a' <= directory[0] <= 'z'
        || 'A' <= directory[0] <= 'Z')
}

/// A name below a directory. The separator is written only where the
/// directory has a name, does not end in one and is no bare drive.
pub open spec fn below(directory: Seq<char>, separator: char, name: Seq<char>) -> Seq<char> {
    if directory.len() == 0 || directory.last() == '/' || directory.last() == separator
        || is_bare_drive(directory, separator) {
        directory + name
    } else {
        directory.push(separator) + name
    }
}

fn join(directory: &str, separator: char, name: &str) -> (path: String)
    ensures
        path@ == below(directory@, separator, name@),
{
    let chars = chars_of(directory);
    let mut path = directory.to_owned();
    let bare_drive = separator == '\\' && chars.len() == 2 && chars[1] == ':' && ('a' <= chars[0]
        && chars[0] <= 'z' || 'A' <= chars[0] && chars[0] <= 'Z');
    if chars.len() > 0 && chars[chars.len() - 1] != '/' && chars[chars.len() - 1] != separator
        && !bare_drive {
        path.push(separator);
    }
    path.append(name);
    path
}

/// The files that the settings program uses.
#[derive(Debug, Clone, PartialEq, Eq)]
pub struct SettingsPaths {
    pub install_dir: String,
    pub config: String,
    pub status: String,
    pub log: String,
    pub instance_lock: String,
    pub tray_shortcut: String,
    pub tray_startup_shortcut: String,
}

/// The files that the settings program uses, with their paths as sequences.
#[verifier::ext_equal]
pub struct PathsView {
    pub install_dir: Seq<char>,
    pub config: Seq<char>,
    pub status: Seq<char>,
    pub log: Seq<char>,
    pub instance_lock: Seq<char>,
    pub tray_shortcut: Seq<char>,
    pub tray_startup_shortcut: Seq<char>,
}

impl View for SettingsPaths {
    type V = PathsView;

    open spec fn view(&self) -> PathsView {
        PathsView {
            install_dir: self.install_dir@,
            config: self.config@,
            status: self.status@,
            log: self.log@,
            instance_lock: self.instance_lock@,
            tray_shortcut: self.tray_shortcut@,
            tray_startup_shortcut: self.tray_startup_shortcut@,
        }
    }
}

/// The folder of the programs in the start menu of all users.
pub open spec fn common_programs(program_data: Seq<char>, separator: char) -> Seq<char> {
    below(
        below(
            below(below(program_data, separator, "Microsoft"@), separator, "Windows"@),
            separator,
            "Start Menu"@,
        ),
        separator,
        "Programs"@,
    )
}

/// The files below the directory for the data of all users.
pub open spec fn paths_below(program_data: Seq<char>, separator: char) -> PathsView {
    let install_dir = below(program_data, separator, "WinSched"@);
    let programs = common_programs(program_data, separator);
    PathsView {
        install_dir,
        config: below(install_dir, separator, "winsched.toml"@),
        status: below(install_dir, separator, "status.json"@),
        log: below(install_dir, separator, "winsched.log"@),
        instance_lock: below(install_dir, separator, "winsched-settings.lock"@),
        tray_shortcut: below(
            below(programs, separator, "WinSched"@),
            separator,
            "WinSched.lnk"@,
        ),
        tray_startup_shortcut: below(
            below(programs, separator, "Startup"@),
            separator,
            "WinSched Tray.lnk"@,
        ),
    }
}

impl SettingsPaths {
    /// The files by the directory for the data of all users, as the
    /// environment names it, and by the separator of the system.
    pub fn discover(program_data: Option<&str>, separator: char) -> (paths: Self)
        ensures
            paths@ == paths_below(
                match program_data {
                    Some(directory) => directory@,
                    None => "C:\\ProgramData"@,
                },
                separator,
            ),
    {
        match program_data {
            Some(directory) => Self::under_program_data(directory, separator),
            None => Self::under_program_data("C:\\ProgramData", separator),
        }
    }

    /// The files below a directory for the data of all users.
    pub fn under_program_data(program_data: &str, separator: char) -> (paths: Self)
        ensures
            paths@ == paths_below(program_data@, separator),
    {
        let install_dir = join(program_data, separator, "WinSched");
        let microsoft = join(program_data, separator, "Microsoft");
        let windows = join(microsoft.as_str(), separator, "Windows");
        let start_menu = join(windows.as_str(), separator, "Start Menu");
        let programs = join(start_menu.as_str(), separator, "Programs");
        let program_folder = join(programs.as_str(), separator, "WinSched");
        let startup_folder = join(programs.as_str(), separator, "Startup");
        SettingsPaths {
            config: join(install_dir.as_str(), separator, "winsched.toml"),
            status: join(install_dir.as_str(), separator, "status.json"),
            log: join(install_dir.as_str(), separator, "winsched.log"),
            instance_lock: join(install_dir.as_str(), separator, "winsched-settings.lock"),
            tray_shortcut: join(program_folder.as_str(), separator, "WinSched.lnk"),
            tray_startup_shortcut: join(startup_folder.as_str(), separator, "WinSched Tray.lnk"),
            install_dir,
        }
    }
}

/// How an operation on a file ended.
#[derive(Debug, Clone, Copy, PartialEq, Eq, Structural)]
pub enum FileAnswer {
    Done,
    /// It failed because there is no such file.
    NotFound,
    Failed,
}

/// What is done to turn the start of the tray at sign-in on or off.
#[derive(Debug, Clone, Copy, PartialEq, Eq, Structural)]
pub enum AutostartAction {
    /// Remove the shortcut in the startup folder.
    RemoveStartup,
    /// Read the installed shortcut.
    ReadSource,
    /// Make the startup folder.
    CreateStartupFolder,
    /// Replace the shortcut in the startup folder at one blow by what was
    /// read.
    WriteStartup,
    /// It is done.
    Finished,
    /// The last action failed, and with it the whole.
    Failed,
}

/// What is done first.
pub open spec fn first_autostart(enabled: bool) -> AutostartAction {
    if enabled {
        AutostartAction::ReadSource
    } else {
        AutostartAction::RemoveStartup
    }
}

/// What is done after an action ended. That there is nothing to remove is no
/// failure.
pub open spec fn after_autostart(last: AutostartAction, answer: FileAnswer) -> AutostartAction {
    match last {
        AutostartAction::RemoveStartup => if answer == FileAnswer::Failed {
            AutostartAction::Failed
        } else {
            AutostartAction::Finished
        },
        AutostartAction::ReadSource => if answer == FileAnswer::Done {
            AutostartAction::CreateStartupFolder
        } else {
            AutostartAction::Failed
        },
        AutostartAction::CreateStartupFolder => if answer == FileAnswer::Done {
            AutostartAction::WriteStartup
        } else {
            AutostartAction::Failed
        },
        AutostartAction::WriteStartup => if answer == FileAnswer::Done {
            AutostartAction::Finished
        } else {
            AutostartAction::Failed
        },
        AutostartAction::Finished => AutostartAction::Finished,
        AutostartAction::Failed => AutostartAction::Failed,
    }
}

/// Says what is done first to turn the start of the tray at sign-in on or
/// off.
pub fn set_tray_autostart(enabled: bool) -> (action: AutostartAction)
    ensures
        action == first_autostart(enabled),
{
    if enabled {
        AutostartAction::ReadSource
    } else {
        AutostartAction::RemoveStartup
    }
}

/// Says what is done after an action ended.
pub fn next_autostart(last: AutostartAction, answer: FileAnswer) -> (action: AutostartAction)
    ensures
        action == after_autostart(last, answer),
{
    match (last, answer) {
        (AutostartAction::Finished, _) => AutostartAction::Finished,
        (AutostartAction::Failed, _) => AutostartAction::Failed,
        (AutostartAction::RemoveStartup, FileAnswer::NotFound) => AutostartAction::Finished,
        (_, FileAnswer::Failed) => AutostartAction::Failed,
        (_, FileAnswer::NotFound) => AutostartAction::Failed,
        (AutostartAction::RemoveStartup, FileAnswer::Done) => AutostartAction::Finished,
        (AutostartAction::ReadSource, FileAnswer::Done) => AutostartAction::CreateStartupFolder,
        (AutostartAction::CreateStartupFolder, FileAnswer::Done) => AutostartAction::WriteStartup,
        (AutostartAction::WriteStartup, FileAnswer::Done) => AutostartAction::Finished,
    }
}

/// What is in the shortcuts: the installed one, and that of the startup
/// folder.
pub ghost struct Shortcuts {
    pub source: Option<Seq<u8>>,
    pub startup: Option<Seq<u8>>,
}

/// The shortcuts after an action that did what it is for, or failed without
/// touching anything.
pub open spec fn shortcuts_after(
    shortcuts: Shortcuts,
    action: AutostartAction,
    answer: FileAnswer,
) -> Shortcuts {
    if answer != FileAnswer::Done {
        shortcuts
    } else {
        match action {
            AutostartAction::RemoveStartup => Shortcuts { startup: None, ..shortcuts },
            AutostartAction::WriteStartup => Shortcuts { startup: shortcuts.source, ..shortcuts },
            _ => shortcuts,
        }
    }
}

/// Turning the start at sign-in on or off never touches the installed
/// shortcut. Until the end the entry of the startup folder stays as it was:
/// it changes only by the last action, and only where that succeeds.
pub proof fn only_the_startup_entry_changes(
    shortcuts: Shortcuts,
    action: AutostartAction,
    answer: FileAnswer,
)
    ensures
        shortcuts_after(shortcuts, action, answer).source == shortcuts.source,
        shortcuts_after(shortcuts, action, answer).startup != shortcuts.startup
            ==> after_autostart(action, answer) == AutostartAction::Finished,
        after_autostart(action, answer) == AutostartAction::Failed && action
            != AutostartAction::Failed ==> shortcuts_after(shortcuts, action, answer) == shortcuts,
{
}

/// Where every action that can succeed does, turning the start at sign-in on
/// ends with a copy of the installed shortcut in the startup folder, and
/// fails at the first action where there is none; turning it off ends with no
/// entry there, whether there was one or not.
pub proof fn autostart_does_what_was_asked(shortcuts: Shortcuts)
    ensures
        ({
            let read = first_autostart(true);
            let folder = after_autostart(read, FileAnswer::Done);
            let write = after_autostart(folder, FileAnswer::Done);
            &&& after_autostart(write, FileAnswer::Done) == AutostartAction::Finished
            &&& shortcuts_after(
                shortcuts_after(
                    shortcuts_after(shortcuts, read, FileAnswer::Done),
                    folder,
                    FileAnswer::Done,
                ),
                write,
                FileAnswer::Done,
            ).startup == shortcuts.source
            &&& after_autostart(read, FileAnswer::NotFound) == AutostartAction::Failed
        }),
        ({
            let remove = first_autostart(false);
            let answer = if shortcuts.startup is Some {
                FileAnswer::Done
            } else {
                FileAnswer::NotFound
            };
            &&& after_autostart(remove, answer) == AutostartAction::Finished
            &&& shortcuts_after(shortcuts, remove, answer).startup is None
        }),
{
}

/// What is done to save settings.
#[derive(Debug, Clone, Copy, PartialEq, Eq, Structural)]
pub enum SaveAction {
    Validate,
    Encode,
    CreateFolder,
    /// Replace the file at one blow.
    Write,
    Saved,
    /// The last action failed, and with it the whole.
    Failed,
}

/// What is done after an action ended.
pub open spec fn after_save(last: SaveAction, done: bool) -> SaveAction {
    match last {
        SaveAction::Saved => SaveAction::Saved,
        SaveAction::Failed => SaveAction::Failed,
        _ => if !done {
            SaveAction::Failed
        } else {
            match last {
                SaveAction::Validate => SaveAction::Encode,
                SaveAction::Encode => SaveAction::CreateFolder,
                SaveAction::CreateFolder => SaveAction::Write,
                _ => SaveAction::Saved,
            }
        },
    }
}

/// Says what is done first to save settings.
pub fn save_config_atomic() -> (action: SaveAction)
    ensures
        action == SaveAction::Validate,
{
    SaveAction::Validate
}

/// Says what is done after an action ended.
pub fn next_save(last: SaveAction, done: bool) -> (action: SaveAction)
    ensures
        action == after_save(last, done),
{
    match last {
        SaveAction::Saved => SaveAction::Saved,
        SaveAction::Failed => SaveAction::Failed,
        _ if !done => SaveAction::Failed,
        SaveAction::Validate => SaveAction::Encode,
        SaveAction::Encode => SaveAction::CreateFolder,
        SaveAction::CreateFolder => SaveAction::Write,
        SaveAction::Write => SaveAction::Saved,
    }
}

/// What comes after the first `answers.len()` actions of a save.
pub open spec fn save_run(answers: Seq<bool>) -> SaveAction
    decreases answers.len(),
{
    if answers.len() == 0 {
        SaveAction::Validate
    } else {
        after_save(save_run(answers.drop_last()), answers.last())
    }
}

/// The file is written only after the settings were found valid and could be
/// encoded and the folder is there: a save that fails before leaves the file
/// alone. A save whose actions all succeed ends after four of them.
pub proof fn files_are_written_last(answers: Seq<bool>)
    ensures
        save_run(answers) == SaveAction::Write ==> answers =~= seq![true, true, true],
        save_run(answers) == SaveAction::CreateFolder ==> answers =~= seq![true, true],
        save_run(answers) == SaveAction::Encode ==> answers =~= seq![true],
        save_run(answers) == SaveAction::Validate ==> answers.len() == 0,
        answers =~= seq![true, true, true, true] ==> save_run(answers) == SaveAction::Saved,
    decreases answers.len(),
{
    if answers.len() > 0 {
        let front = answers.drop_last();
        files_are_written_last(front);
        assert(answers =~= front.push(answers.last()));
    }
    if answers =~= seq![true, true, true, true] {
        reveal_with_fuel(save_run, 5);
        let three = answers.drop_last();
        let two = three.drop_last();
        let one = two.drop_last();
        assert(one.drop_last().len() == 0);
        assert(save_run(one) == SaveAction::Encode);
        assert(save_run(two) == SaveAction::CreateFolder);
        assert(save_run(three) == SaveAction::Write);
    }
}

/// Why settings could not be loaded or saved.
#[derive(Debug, Clone, PartialEq, Eq)]
pub enum SettingsError {
    /// A file could not be read or written.
    Io(String),
    /// The settings are not valid.
    Config(String),
    /// The settings could not be encoded.
    Encode(String),
}

impl SettingsError {
    pub open spec fn words(self) -> Seq<char> {
        match self {
            SettingsError::Io(error) => "failed to read or write settings: "@ + error@,
            SettingsError::Config(error) => "invalid WinSched configuration: "@ + error@,
            SettingsError::Encode(error) => "failed to encode WinSched configuration: "@ + error@,
        }
    }

    /// Says why.
    pub fn message(&self) -> (text: String)
        ensures
            text@ == self.words(),
    {
        match self {
            SettingsError::Io(error) => {
                let mut text = "failed to read or write settings: ".to_owned();
                text.append(error.as_str());
                text
            },
            SettingsError::Config(error) => {
                let mut text = "invalid WinSched configuration: ".to_owned();
                text.append(error.as_str());
                text
            },
            SettingsError::Encode(error) => {
                let mut text = "failed to encode WinSched configuration: ".to_owned();
                text.append(error.as_str());
                text
            },
        }
    }
}

/// What is wrong with a request to open the rule of an executable.
#[derive(Debug, Clone, Copy, PartialEq, Eq, Structural)]
pub enum RequestFault {
    UnsupportedArgument,
    ImageMissing,
    ArgumentsLeft,
    NotUnicode,
    NotAFileName,
}

impl RequestFault {
    pub open spec fn words(self) -> Seq<char> {
        match self {
            RequestFault::UnsupportedArgument => "unsupported Settings command-line argument"@,
            RequestFault::ImageMissing => "--rule-image requires one executable image name"@,
            RequestFault::ArgumentsLeft => "unexpected arguments after --rule-image"@,
            RequestFault::NotUnicode => "rule image name is not valid Unicode"@,
            RequestFault::NotAFileName =>
                "rule image must be one executable file name without a path"@,
        }
    }

    /// Says what is wrong.
    pub fn message(self) -> (text: &'static str)
        ensures
            text@ == self.words(),
    {
        match self {
            RequestFault::UnsupportedArgument => "unsupported Settings command-line argument",
            RequestFault::ImageMissing => "--rule-image requires one executable image name",
            RequestFault::ArgumentsLeft => "unexpected arguments after --rule-image",
            RequestFault::NotUnicode => "rule image name is not valid Unicode",
            RequestFault::NotAFileName =>
                "rule image must be one executable file name without a path",
        }
    }
}

/// Whether a text names a directory.
pub open spec fn has_separator(text: Seq<char>) -> bool {
    exists|i: int| 0 <= i < text.len() && (#[trigger] text[i] == '/' || text[i] == '\\')
}

fn holds_separator(text: &str) -> (yes: bool)
    ensures
        yes == has_separator(text@),
{
    let chars = chars_of(text);
    let mut at: usize = 0;
    while at < chars.len()
        invariant
            at <= chars.len(),
            chars@ == text@,
            forall|i: int| 0 <= i < at ==> #[trigger] text@[i] != '/' && text@[i] != '\\',
        decreases chars.len() - at,
    {
        if chars[at] == '/' || chars[at] == '\\' {
            proof {
                assert(text@[at as int] == '/' || text@[at as int] == '\\');
            }
            return true;
        }
        at = at + 1;
    }
    false
}

/// The name of the executable of a request: what is given, without white
/// space round it, where that is a name without a path.
pub open spec fn image_of(image: Option<Seq<char>>) -> Result<Seq<char>, RequestFault> {
    match image {
        None => Err(RequestFault::NotUnicode),
        Some(image) => {
            let name = crate::text::trim(image);
            if name.len() == 0 || has_separator(name) {
                Err(RequestFault::NotAFileName)
            } else {
                Ok(name)
            }
        },
    }
}

/// Takes the name of an executable, where it is Unicode.
pub fn validate_rule_image(image: Option<&str>) -> (name: Result<String, RequestFault>)
    ensures
        match image_of(
            match image {
                Some(image) => Some(image@),
                None => None,
            },
        ) {
            Ok(wanted) => name matches Ok(name) && name@ == wanted,
            Err(fault) => name matches Err(given) && given == fault,
        },
{
    let Some(image) = image else {
        return Err(RequestFault::NotUnicode);
    };
    let name = trim_text(image);
    if name.as_str().unicode_len() == 0 || holds_separator(name.as_str()) {
        return Err(RequestFault::NotAFileName);
    }
    Ok(name)
}

/// What the arguments ask for: by the first of them, by the one behind it,
/// where it is Unicode, and by how many follow the first.
pub open spec fn requested_image(
    first: Option<Seq<char>>,
    image: Option<Seq<char>>,
    following: usize,
) -> Result<Option<Seq<char>>, RequestFault> {
    match first {
        None => Ok(None),
        Some(option) => if option != "--rule-image"@ {
            Err(RequestFault::UnsupportedArgument)
        } else if following == 0 {
            Err(RequestFault::ImageMissing)
        } else if following > 1 {
            Err(RequestFault::ArgumentsLeft)
        } else {
            match image_of(image) {
                Ok(name) => Ok(Some(name)),
                Err(fault) => Err(fault),
            }
        },
    }
}

/// Says for which executable the arguments ask to open a rule, if for any.
pub fn parse_launch_request(first: Option<&str>, image: Option<&str>, following: usize) -> (request:
    Result<Option<String>, RequestFault>)
    ensures
        match requested_image(
            match first {
                Some(option) => Some(option@),
                None => None,
            },
            match image {
                Some(image) => Some(image@),
                None => None,
            },
            following,
        ) {
            Ok(wanted) => request matches Ok(given) && given.deep_view() == wanted,
            Err(fault) => request matches Err(given) && given == fault,
        },
{
    let Some(option) = first else {
        return Ok(None);
    };
    if !same_text(option, "--rule-image") {
        return Err(RequestFault::UnsupportedArgument);
    }
    if following == 0 {
        return Err(RequestFault::ImageMissing);
    }
    if following > 1 {
        return Err(RequestFault::ArgumentsLeft);
    }
    match validate_rule_image(image) {
        Ok(name) => Ok(Some(name)),
        Err(fault) => Err(fault),
    }
}

/// The version of the requests that one settings program leaves for another.
pub const SETTINGS_REQUEST_SCHEMA_VERSION: u32 = 1;

/// How old such a request may be, in milliseconds.
pub const SETTINGS_REQUEST_MAX_AGE_MS: u64 = 60_000;

/// A request that one settings program leaves for another.
#[derive(Debug, Clone)]
pub struct SettingsActivationRequest {
    pub schema_version: u32,
    pub rule_image: String,
    pub created_at_unix_ms: u64,
}

/// Whether a request is heeded: it is of this version, was made in the last
/// minute and names an executable without a path.
pub open spec fn is_heeded(request: SettingsActivationRequest, now_unix_ms: u64) -> bool {
    &&& request.schema_version == SETTINGS_REQUEST_SCHEMA_VERSION
    &&& request.created_at_unix_ms <= now_unix_ms
    &&& now_unix_ms - request.created_at_unix_ms <= SETTINGS_REQUEST_MAX_AGE_MS
    &&& request.rule_image@.len() > 0
    &&& !has_separator(request.rule_image@)
}

/// Says whether a request is heeded.
pub fn take_activation_request(request: &SettingsActivationRequest, now_unix_ms: u64) -> (heeded:
    bool)
    ensures
        heeded == is_heeded(*request, now_unix_ms),
{
    request.schema_version == SETTINGS_REQUEST_SCHEMA_VERSION && request.created_at_unix_ms
        <= now_unix_ms && now_unix_ms - request.created_at_unix_ms <= SETTINGS_REQUEST_MAX_AGE_MS
        && request.rule_image.as_str().unicode_len() > 0 && !holds_separator(
        request.rule_image.as_str(),
    )
}

proof fn trimming_drops_no_inner_text(text: Seq<char>)
    ensures
        !has_separator(text) ==> !has_separator(crate::text::trim(text)),
    decreases text.len(),
{
    if text.len() > 0 && crate::text::is_space(text.last()) {
        trimming_drops_no_inner_text(text.drop_last());
        if !has_separator(text) && has_separator(text.drop_last()) {
            let front = text.drop_last();
            let i = choose|i: int|
                0 <= i < front.len() && (#[trigger] front[i] == '/' || front[i] == '\\');
            assert(text[i] == front[i]);
        }
    } else if text.len() > 0 && crate::text::is_space(text[0]) {
        trimming_drops_no_inner_text(text.drop_first());
        if !has_separator(text) && has_separator(text.drop_first()) {
            let rest = text.drop_first();
            let i = choose|i: int|
                0 <= i < rest.len() && (#[trigger] rest[i] == '/' || rest[i] == '\\');
            assert(text[i + 1] == rest[i]);
        }
    }
}

/// A request that the arguments made is heeded by the program that finds it
/// within a minute. A plain name is taken as it is, up to the white space
/// round it.
pub proof fn fresh_requests_are_heeded(image: Seq<char>, request: SettingsActivationRequest, age_ms: u64)
    requires
        image_of(Some(image)) == Ok::<Seq<char>, RequestFault>(request.rule_image@),
        request.schema_version == SETTINGS_REQUEST_SCHEMA_VERSION,
        age_ms <= SETTINGS_REQUEST_MAX_AGE_MS,
        request.created_at_unix_ms + age_ms <= u64::MAX,
    ensures
        is_heeded(request, (request.created_at_unix_ms + age_ms) as u64),
        !has_separator(image) ==> request.rule_image@ == crate::text::trim(image),
{
}

/// A name without a path is refused only where nothing but white space is in
/// it.
pub proof fn plain_names_are_taken(image: Seq<char>)
    requires
        !has_separator(image),
        crate::text::trim(image).len() > 0,
    ensures
        image_of(Some(image)) is Ok,
{
    trimming_drops_no_inner_text(image);
}

/// The wait is five seconds longer than the longer interval.
pub proof fn the_wait_is_the_longer_interval_and_a_margin(
    previous_interval_ms: u64,
    updated_interval_ms: u64,
)
    requires
        previous_interval_ms + 5_000 <= u64::MAX,
        updated_interval_ms + 5_000 <= u64::MAX,
    ensures
        ({
            let wait = reload_wait(previous_interval_ms, updated_interval_ms);
            &&& wait == previous_interval_ms + 5_000 || wait == updated_interval_ms + 5_000
            &&& wait >= previous_interval_ms + 5_000
            &&& wait >= updated_interval_ms + 5_000
        }),
{
}

/// A path below a directory begins with the directory and ends in the name,
/// with at most the separator between them: it is written where the directory
/// does not end in one, unless the directory has no name or is a bare drive.
pub proof fn paths_begin_with_their_directory(
    directory: Seq<char>,
    separator: char,
    name: Seq<char>,
)
    ensures
        ({
            let path = below(directory, separator, name);
            let closed = directory.len() == 0 || directory.last() == '/' || directory.last()
                == separator || is_bare_drive(directory, separator);
            &&& directory.is_prefix_of(path)
            &&& name.is_suffix_of(path)
            &&& closed ==> path.len() == directory.len() + name.len()
            &&& !closed ==> path.len() == directory.len() + 1 + name.len()
                && path[directory.len() as int] == separator
            &&& is_bare_drive(directory, separator) ==> separator == '\\' && directory.len() == 2
                && directory[1] == ':'
        }),
{
    let path = below(directory, separator, name);
    assert(path.subrange(0, directory.len() as int) =~= directory);
    assert(path.subrange(path.len() - name.len(), path.len() as int) =~= name);
}

/// The settings, the status, the log and the lock are in one directory of the
/// program below that for the data of all users, each under its own name; the
/// shortcuts are in the start menu, the one that starts the tray in its
/// startup folder.
pub proof fn files_have_their_places(program_data: Seq<char>, separator: char)
    ensures
        ({
            let paths = paths_below(program_data, separator);
            &&& paths.install_dir == below(program_data, separator, "WinSched"@)
            &&& "winsched.toml"@.is_suffix_of(paths.config)
            &&& "status.json"@.is_suffix_of(paths.status)
            &&& "winsched.log"@.is_suffix_of(paths.log)
            &&& "winsched-settings.lock"@.is_suffix_of(paths.instance_lock)
            &&& "WinSched.lnk"@.is_suffix_of(paths.tray_shortcut)
            &&& "WinSched Tray.lnk"@.is_suffix_of(paths.tray_startup_shortcut)
            &&& paths.install_dir.is_prefix_of(paths.config)
            &&& paths.install_dir.is_prefix_of(paths.status)
            &&& paths.install_dir.is_prefix_of(paths.log)
            &&& paths.install_dir.is_prefix_of(paths.instance_lock)
            &&& below(
                common_programs(program_data, separator),
                separator,
                "WinSched"@,
            ).is_prefix_of(paths.tray_shortcut)
            &&& below(
                common_programs(program_data, separator),
                separator,
                "Startup"@,
            ).is_prefix_of(paths.tray_startup_shortcut)
        }),
{
    let paths = paths_below(program_data, separator);
    let programs = common_programs(program_data, separator);
    paths_begin_with_their_directory(paths.install_dir, separator, "winsched.toml"@);
    paths_begin_with_their_directory(paths.install_dir, separator, "status.json"@);
    paths_begin_with_their_directory(paths.install_dir, separator, "winsched.log"@);
    paths_begin_with_their_directory(paths.install_dir, separator, "winsched-settings.lock"@);
    paths_begin_with_their_directory(
        below(programs, separator, "WinSched"@),
        separator,
        "WinSched.lnk"@,
    );
    paths_begin_with_their_directory(
        below(programs, separator, "Startup"@),
        separator,
        "WinSched Tray.lnk"@,
    );
}

/// An action that failed ends the whole, and so does a file that is missing,
/// unless it was to be removed. What has ended does not begin again.
pub proof fn failed_actions_end_the_autostart(last: AutostartAction, answer: FileAnswer)
    ensures
        last == AutostartAction::Finished ==> after_autostart(last, answer)
            == AutostartAction::Finished,
        last != AutostartAction::Finished && answer == FileAnswer::Failed ==> after_autostart(
            last,
            answer,
        ) == AutostartAction::Failed,
        last != AutostartAction::Finished && last != AutostartAction::RemoveStartup && answer
            == FileAnswer::NotFound ==> after_autostart(last, answer) == AutostartAction::Failed,
        after_autostart(last, answer) == AutostartAction::WriteStartup <==> last
            == AutostartAction::CreateStartupFolder && answer == FileAnswer::Done,
        after_autostart(last, answer) == AutostartAction::CreateStartupFolder <==> last
            == AutostartAction::ReadSource && answer == FileAnswer::Done,
{
}

/// A save goes on where its last action succeeded, and ends where it did not.
pub proof fn failed_actions_end_the_save(last: SaveAction)
    requires
        last != SaveAction::Saved,
        last != SaveAction::Failed,
    ensures
        after_save(last, false) == SaveAction::Failed,
        after_save(last, true) != SaveAction::Failed,
        after_save(last, true) != last,
        after_save(SaveAction::Failed, true) == SaveAction::Failed,
        after_save(SaveAction::Saved, false) == SaveAction::Saved,
        after_save(last, true) == SaveAction::Saved <==> last == SaveAction::Write,
{
}

/// What went wrong with settings is told in full, after which of the three
/// kinds it is.
pub proof fn settings_errors_tell_what_went_wrong(error: SettingsError)
    ensures
        error matches SettingsError::Io(said) ==> said@.is_suffix_of(error.words())
            && "failed to read or write"@.is_prefix_of(error.words()),
        error matches SettingsError::Config(said) ==> said@.is_suffix_of(error.words())
            && "invalid"@.is_prefix_of(error.words()),
        error matches SettingsError::Encode(said) ==> said@.is_suffix_of(error.words())
            && "failed to encode"@.is_prefix_of(error.words()),
{
    reveal_strlit("failed to read or write");
    reveal_strlit("invalid");
    reveal_strlit("failed to encode");
    reveal_strlit("failed to read or write settings: ");
    reveal_strlit("invalid WinSched configuration: ");
    reveal_strlit("failed to encode WinSched configuration: ");
    let words = error.words();
    let said = match error {
        SettingsError::Io(said) => said@,
        SettingsError::Config(said) => said@,
        SettingsError::Encode(said) => said@,
    };
    assert(words.subrange(words.len() - said.len(), words.len() as int) =~= said);
}

/// The program is started without a request, or with one for exactly one
/// executable. Anything else is refused: another option, an option without an
/// executable, and more than one.
pub proof fn requests_are_for_one_executable(
    first: Option<Seq<char>>,
    image: Option<Seq<char>>,
    following: usize,
)
    ensures
        ({
            let request = requested_image(first, image, following);
            let known = first == Some("--rule-image"@);
            &&& first is None ==> request == Ok::<Option<Seq<char>>, RequestFault>(None)
            &&& first is Some && !known ==> request == Err::<Option<Seq<char>>, RequestFault>(
                RequestFault::UnsupportedArgument,
            )
            &&& known && following == 0 ==> request == Err::<Option<Seq<char>>, RequestFault>(
                RequestFault::ImageMissing,
            )
            &&& known && following > 1 ==> request == Err::<Option<Seq<char>>, RequestFault>(
                RequestFault::ArgumentsLeft,
            )
            &&& request matches Ok(Some(name)) ==> {
                &&& known && following == 1
                &&& image is Some
                &&& name == crate::text::trim(image->0)
                &&& name.len() > 0
                &&& !has_separator(name)
            }
            &&& known && following == 1 && image is None ==> request == Err::<
                Option<Seq<char>>,
                RequestFault,
            >(RequestFault::NotUnicode)
            &&& known && following == 1 && (image matches Some(image) && (crate::text::trim(
                image,
            ).len() == 0 || has_separator(crate::text::trim(image)))) ==> request == Err::<
                Option<Seq<char>>,
                RequestFault,
            >(RequestFault::NotAFileName)
        }),
{
}

/// A path has a separator in it, of either kind, and a name has none.
pub proof fn paths_hold_separators(before: Seq<char>, after: Seq<char>, name: Seq<char>)
    ensures
        has_separator(before + seq!['/'] + after),
        has_separator(before + seq!['\\'] + after),
        (forall|i: int| 0 <= i < name.len() ==> #[trigger] name[i] != '/' && name[i] != '\\')
            ==> !has_separator(name),
{
    let one = before + seq!['/'] + after;
    assert(one[before.len() as int] == '/');
    let other = before + seq!['\\'] + after;
    assert(other[before.len() as int] == '\\');
}

/// A request is heeded for a minute from when it was made; not before, not
/// after, not one of another version and none without a plain name.
pub proof fn requests_are_heeded_for_a_minute(
    request: SettingsActivationRequest,
    now_unix_ms: u64,
)
    ensures
        request.schema_version != 1 ==> !is_heeded(request, now_unix_ms),
        now_unix_ms < request.created_at_unix_ms ==> !is_heeded(request, now_unix_ms),
        now_unix_ms > request.created_at_unix_ms + 60_000 ==> !is_heeded(request, now_unix_ms),
        request.rule_image@.len() == 0 || has_separator(request.rule_image@) ==> !is_heeded(
            request,
            now_unix_ms,
        ),
        request.schema_version == 1 && request.created_at_unix_ms <= now_unix_ms
            <= request.created_at_unix_ms + 60_000 && request.rule_image@.len() > 0
            && !has_separator(request.rule_image@) ==> is_heeded(request, now_unix_ms),
{
}

} // verus!
