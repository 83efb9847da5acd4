//! Where event records go, and how the log files are rotated.
//!
//! The files themselves are touched by the caller. The functions here say
//! which operations to carry out, in which order, and keep track of what is
//! known of the active file.
use vstd::prelude::*;

verus! {

pub const MIN_LOG_FILE_SIZE_MIB: u16 = 1;

pub const MAX_LOG_FILE_SIZE_MIB: u16 = 100;

pub const MAX_RETAINED_LOG_ARCHIVES: u8 = 10;

/// The settings of the event log.
#[derive(Debug, Clone, Copy, PartialEq, Eq, Structural)]
pub struct LoggingConfig {
    pub enabled: bool,
    pub max_file_size_mib: u16,
    pub retained_archives: u8,
}

/// Which setting is out of its range.
#[derive(Debug, Clone, Copy, PartialEq, Eq, Structural)]
pub enum LoggingConfigError {
    FileSize,
    RetainedArchives,
}

impl LoggingConfigError {
    /// Describes the error.
    pub fn message(&self) -> (text: &'static str)
        ensures
            text@ == match *self {
                LoggingConfigError::FileSize =>
                    "logging.max_file_size_mib is outside the supported range"@,
                LoggingConfigError::RetainedArchives =>
                    "logging.retained_archives is outside the supported range"@,
            },
    {
        match self {
            LoggingConfigError::FileSize =>
                "logging.max_file_size_mib is outside the supported range",
            LoggingConfigError::RetainedArchives =>
                "logging.retained_archives is outside the supported range",
        }
    }
}

impl LoggingConfig {
    /// The first setting that is out of its range.
    pub open spec fn fault(self) -> Option<LoggingConfigError> {
        if !(MIN_LOG_FILE_SIZE_MIB <= self.max_file_size_mib <= MAX_LOG_FILE_SIZE_MIB) {
            Some(LoggingConfigError::FileSize)
        } else if self.retained_archives > MAX_RETAINED_LOG_ARCHIVES {
            Some(LoggingConfigError::RetainedArchives)
        } else {
            None
        }
    }

    /// The size above which the active file is rotated.
    #[verifier::allow_in_spec]
    pub fn max_file_size_bytes(&self) -> (bytes: u64)
        returns
            (self.max_file_size_mib * 1_048_576) as u64,
    {
        self.max_file_size_mib as u64 * 1_048_576
    }
}

/// Checks that the settings are in their ranges.
pub fn validate_config(config: &LoggingConfig) -> (checked: Result<(), LoggingConfigError>)
    ensures
        match config.fault() {
            Some(fault) => checked == Err::<(), _>(fault),
            None => checked == Ok::<(), LoggingConfigError>(()),
        },
{
    if config.max_file_size_mib < MIN_LOG_FILE_SIZE_MIB || config.max_file_size_mib
        > MAX_LOG_FILE_SIZE_MIB {
        return Err(LoggingConfigError::FileSize);
    }
    if config.retained_archives > MAX_RETAINED_LOG_ARCHIVES {
        return Err(LoggingConfigError::RetainedArchives);
    }
    Ok(())
}

/// An operation on the log files. Archive `i` is the file with `.i` behind
/// the name of the active file.
#[derive(Debug, Clone, Copy, PartialEq, Eq, Structural)]
pub enum FileOp {
    /// Remove the active file.
    RemoveActive,
    /// Remove an archive, if there is one.
    RemoveArchive(u8),
    /// Rename an archive to the next higher number, if there is one.
    ShiftArchive(u8),
    /// Rename the active file to archive 1.
    ArchiveActive,
}

/// The log files: the active one under 0 and archive `i` under `i`.
pub type LogFiles = Map<int, Seq<u8>>;

/// The files after an operation.
pub open spec fn operated(files: LogFiles, op: FileOp) -> LogFiles {
    match op {
        FileOp::RemoveActive => files.remove(0),
        FileOp::RemoveArchive(i) => files.remove(i as int),
        FileOp::ShiftArchive(i) => if files.dom().contains(i as int) {
            files.insert(i + 1, files[i as int]).remove(i as int)
        } else {
            files
        },
        FileOp::ArchiveActive => files.insert(1, files[0]).remove(0),
    }
}

/// The files after operations, one after the other.
pub open spec fn operated_all(files: LogFiles, ops: Seq<FileOp>) -> LogFiles
    decreases ops.len(),
{
    if ops.len() == 0 {
        files
    } else {
        operated(operated_all(files, ops.drop_last()), ops.last())
    }
}

/// The files after a rotation: every retained archive has moved up by one,
/// the active file is archive 1, and the oldest retained one is gone.
pub open spec fn rotated(files: LogFiles, retained: u8) -> LogFiles {
    Map::new(
        |k: int|
            if k == 0 {
                false
            } else if 1 <= k <= retained {
                files.dom().contains(k - 1)
            } else {
                files.dom().contains(k)
            },
        |k: int|
            if 1 <= k <= retained {
                files[k - 1]
            } else {
                files[k]
            },
    )
}

/// The files once the archives above `retained` are gone.
pub open spec fn pruned(files: LogFiles, retained: u8) -> LogFiles {
    Map::new(
        |k: int|
            files.dom().contains(k) && !(retained < k <= MAX_RETAINED_LOG_ARCHIVES),
        |k: int| files[k],
    )
}

/// The files halfway through a rotation: archives `low + 1` and above have
/// moved, and archive `low + 1` itself is free.
spec fn half_rotated(files: LogFiles, retained: u8, low: int) -> LogFiles {
    Map::new(
        |k: int|
            if low + 1 < k <= retained {
                files.dom().contains(k - 1)
            } else if k == low + 1 {
                false
            } else {
                files.dom().contains(k)
            },
        |k: int|
            if low + 1 < k <= retained {
                files[k - 1]
            } else {
                files[k]
            },
    )
}

/// Says how to rotate the files when there is an active one.
pub fn rotation_plan(retained_archives: u8) -> (ops: Vec<FileOp>)
    ensures
        forall|files: LogFiles|
            files.dom().contains(0) ==> #[trigger] operated_all(files, ops@) == rotated(
                files,
                retained_archives,
            ),
{
    let mut ops: Vec<FileOp> = Vec::new();
    if retained_archives == 0 {
        ops.push(FileOp::RemoveActive);
        proof {
            assert forall|files: LogFiles| files.dom().contains(0) implies #[trigger] operated_all(
                files,
                ops@,
            ) == rotated(files, retained_archives) by {
                assert(ops@.drop_last() =~= Seq::<FileOp>::empty());
                assert(operated_all(files, ops@.drop_last()) == files);
                assert(operated_all(files, ops@) =~= rotated(files, retained_archives));
            }
        }
        return ops;
    }
    ops.push(FileOp::RemoveArchive(retained_archives));
    proof {
        assert forall|files: LogFiles| files.dom().contains(0) implies #[trigger] operated_all(
            files,
            ops@,
        ) == half_rotated(files, retained_archives, retained_archives - 1) by {
            assert(ops@.drop_last() =~= Seq::<FileOp>::empty());
            assert(operated_all(files, ops@.drop_last()) == files);
            assert(operated_all(files, ops@) =~= half_rotated(
                files,
                retained_archives,
                retained_archives - 1,
            ));
        }
    }
    let mut index: u8 = retained_archives - 1;
    while index > 0
        invariant
            index < retained_archives,
            forall|files: LogFiles|
                files.dom().contains(0) ==> #[trigger] operated_all(files, ops@) == half_rotated(
                    files,
                    retained_archives,
                    index as int,
                ),
        decreases index,
    {
        let ghost before = ops@;
        ops.push(FileOp::ShiftArchive(index));
        proof {
            assert forall|files: LogFiles| files.dom().contains(0) implies #[trigger] operated_all(
                files,
                ops@,
            ) == half_rotated(files, retained_archives, index - 1) by {
                assert(ops@.drop_last() =~= before);
                assert(operated_all(files, before) == half_rotated(
                    files,
                    retained_archives,
                    index as int,
                ));
                assert(operated_all(files, ops@) =~= half_rotated(
                    files,
                    retained_archives,
                    index - 1,
                ));
            }
        }
        index = index - 1;
    }
    let ghost before = ops@;
    ops.push(FileOp::ArchiveActive);
    proof {
        assert forall|files: LogFiles| files.dom().contains(0) implies #[trigger] operated_all(
            files,
            ops@,
        ) == rotated(files, retained_archives) by {
            assert(ops@.drop_last() =~= before);
            assert(operated_all(files, before) == half_rotated(files, retained_archives, 0));
            assert(operated_all(files, ops@) =~= rotated(files, retained_archives));
        }
    }
    ops
}

/// Says how to remove the archives above `retained_archives`.
pub fn prune_plan(retained_archives: u8) -> (ops: Vec<FileOp>)
    ensures
        forall|files: LogFiles| #[trigger]
            operated_all(files, ops@) == pruned(files, retained_archives),
{
    let mut ops: Vec<FileOp> = Vec::new();
    let mut index: u8 = retained_archives;
    proof {
        assert forall|files: LogFiles| #[trigger] operated_all(files, ops@) == pruned_up_to(
            files,
            retained_archives,
            index as int,
        ) by {
            assert(operated_all(files, ops@) =~= pruned_up_to(
                files,
                retained_archives,
                index as int,
            ));
        }
    }
    while index < MAX_RETAINED_LOG_ARCHIVES
        invariant
            retained_archives <= index,
            index <= MAX_RETAINED_LOG_ARCHIVES || index == retained_archives,
            forall|files: LogFiles| #[trigger]
                operated_all(files, ops@) == pruned_up_to(
                    files,
                    retained_archives,
                    index as int,
                ),
        decreases MAX_RETAINED_LOG_ARCHIVES - index,
    {
        let ghost before = ops@;
        index = index + 1;
        ops.push(FileOp::RemoveArchive(index));
        proof {
            assert forall|files: LogFiles| #[trigger] operated_all(files, ops@) == pruned_up_to(
                files,
                retained_archives,
                index as int,
            ) by {
                assert(ops@.drop_last() =~= before);
                assert(operated_all(files, before) == pruned_up_to(
                    files,
                    retained_archives,
                    index - 1,
                ));
                assert(operated_all(files, ops@) =~= pruned_up_to(
                    files,
                    retained_archives,
                    index as int,
                ));
            }
        }
    }
    proof {
        assert forall|files: LogFiles| #[trigger] operated_all(files, ops@) == pruned(
            files,
            retained_archives,
        ) by {
            assert(pruned_up_to(files, retained_archives, index as int) =~= pruned(
                files,
                retained_archives,
            ));
        }
    }
    ops
}

/// The files once the archives above `retained`, up to `high`, are gone.
spec fn pruned_up_to(files: LogFiles, retained: u8, high: int) -> LogFiles {
    Map::new(
        |k: int| files.dom().contains(k) && !(retained < k <= high),
        |k: int| files[k],
    )
}

/// What is known of the active file.
#[derive(Debug, Clone, Copy, PartialEq, Eq, Structural)]
pub struct RotatingWriter {
    /// Whether the active file is open.
    pub open: bool,
    pub current_bytes: u64,
    pub max_bytes: u64,
    pub retained_archives: u8,
}

/// How the active file was opened again after a rotation.
#[derive(Debug)]
pub enum Reopened {
    /// It is open and has so many bytes.
    Open(u64),
    /// It was opened, but its size could not be read, and it is closed again.
    Unmeasured(String),
    /// It could not be opened.
    Closed(String),
}

/// The error of a rotation after which the active file was opened again.
/// There is none where all went well.
pub open spec fn rotation_words(rotation: Option<Seq<char>>, reopened: Reopened) -> Option<
    Seq<char>,
> {
    match reopened {
        Reopened::Open(_) => rotation,
        Reopened::Unmeasured(error) => Some(error@),
        Reopened::Closed(error) => match rotation {
            None => Some(error@),
            Some(rotation) => Some(
                "log rotation failed: "@ + rotation + "; reopening active log failed: "@ + error@,
            ),
        },
    }
}

/// The sum, as far as it can be counted.
pub open spec fn sum_of(a: u64, b: u64) -> u64 {
    if a + b > u64::MAX {
        u64::MAX
    } else {
        (a + b) as u64
    }
}

impl RotatingWriter {
    /// A writer on an active file that was just opened.
    pub fn opened(current_bytes: u64, max_bytes: u64, retained_archives: u8) -> (writer:
        RotatingWriter)
        ensures
            writer == (RotatingWriter { open: true, current_bytes, max_bytes, retained_archives }),
    {
        RotatingWriter { open: true, current_bytes, max_bytes, retained_archives }
    }

    /// Whether a record makes the files rotate before it is written: it would
    /// not fit, and the active file is not empty.
    pub open spec fn rotates_for(self, record_len: u64) -> bool {
        self.current_bytes != 0 && sum_of(self.current_bytes, record_len) > self.max_bytes
    }

    /// Whether the files are rotated before a record is written.
    pub fn must_rotate_for(&self, record_len: u64) -> (rotate: bool)
        ensures
            rotate == self.rotates_for(record_len),
    {
        self.current_bytes != 0 && self.current_bytes.saturating_add(record_len) > self.max_bytes
    }

    /// The writer after a rotation.
    pub open spec fn rotated(self, reopened: Reopened) -> RotatingWriter {
        match reopened {
            Reopened::Open(current_bytes) => RotatingWriter { open: true, current_bytes, ..self },
            _ => RotatingWriter { open: false, ..self },
        }
    }

    /// Notes that the active file was closed for a rotation and how it was
    /// opened again. Returns what went wrong, if anything did.
    pub fn note_rotation(&mut self, rotation: Option<&str>, reopened: &Reopened) -> (error: Option<
        String,
    >)
        ensures
            *final(self) == old(self).rotated(*reopened),
            error.deep_view() == rotation_words(
                match rotation {
                    Some(rotation) => Some(rotation@),
                    None => None,
                },
                *reopened,
            ),
    {
        match reopened {
            Reopened::Open(current_bytes) => {
                self.current_bytes = *current_bytes;
                self.open = true;
                match rotation {
                    Some(rotation) => Some(rotation.to_owned()),
                    None => None,
                }
            },
            Reopened::Unmeasured(error) => {
                self.open = false;
                Some(error.as_str().to_owned())
            },
            Reopened::Closed(error) => {
                self.open = false;
                match rotation {
                    None => Some(error.as_str().to_owned()),
                    Some(rotation) => {
                        let mut text = "log rotation failed: ".to_owned();
                        text.append(rotation);
                        text.append("; reopening active log failed: ");
                        text.append(error.as_str());
                        Some(text)
                    },
                }
            },
        }
    }

    /// Notes that a record was written.
    pub fn note_append(&mut self, record_len: u64)
        ensures
            *final(self) == (RotatingWriter {
                current_bytes: sum_of(old(self).current_bytes, record_len),
                ..*old(self)
            }),
    {
        self.current_bytes = self.current_bytes.saturating_add(record_len);
    }
}

/// Whether a file is rotated when it is opened.
pub fn must_rotate_on_open(current_bytes: u64, max_bytes: u64) -> (rotate: bool)
    ensures
        rotate == (current_bytes > max_bytes),
{
    current_bytes > max_bytes
}

/// The record of a line: the line and a newline.
pub fn frame_record(line: &str) -> (record: Vec<u8>)
    ensures
        record@ == vstd::utf8::encode_utf8(line@).push(10u8),
{
    let bytes = line.as_bytes();
    let mut record: Vec<u8> = Vec::new();
    let mut at: usize = 0;
    while at < bytes.len()
        invariant
            at <= bytes.len(),
            record@ == bytes@.take(at as int),
        decreases bytes.len() - at,
    {
        record.push(bytes[at]);
        at = at + 1;
    }
    proof {
        assert(bytes@.take(at as int) =~= bytes@);
    }
    record.push(10);
    record
}

/// Where records go.
#[derive(Debug, Clone, Copy, PartialEq, Eq, Structural)]
pub enum EventSink {
    Console,
    Service { applied: LoggingConfig, writer: Option<RotatingWriter> },
}

/// What has to be done for a record.
#[derive(Debug, Clone, Copy, PartialEq, Eq, Structural)]
pub enum WriteTask {
    /// Print it.
    Print,
    /// Nothing: the log is disabled.
    Skip,
    /// Append it to the active file.
    Append,
    /// Rotate the files, then append it to the active file.
    RotateAndAppend { retained_archives: u8 },
}

/// What has to be done for new settings.
#[derive(Debug, Clone, Copy, PartialEq, Eq, Structural)]
pub enum SinkTask {
    Nothing,
    /// Open the log file.
    OpenWriter { max_bytes: u64, retained_archives: u8 },
    /// Bring the open log file in line with new limits.
    ChangeLimits { max_bytes: u64, retained_archives: u8 },
}

impl EventSink {
    /// The sink of a program in a console.
    pub fn console() -> (sink: EventSink)
        ensures
            sink == EventSink::Console,
    {
        EventSink::Console
    }

    /// The sink of the service. When the second result says so, the log file
    /// has to be opened, and the sink is complete with
    /// [`EventSink::note_opened`].
    pub fn service(config: LoggingConfig) -> (made: Result<
        (EventSink, SinkTask),
        LoggingConfigError,
    >)
        ensures
            match config.fault() {
                Some(fault) => made == Err::<(EventSink, SinkTask), _>(fault),
                None => made == Ok::<_, LoggingConfigError>(
                    (
                        EventSink::Service { applied: config, writer: None },
                        if config.enabled {
                            SinkTask::OpenWriter {
                                max_bytes: config.max_file_size_bytes(),
                                retained_archives: config.retained_archives,
                            }
                        } else {
                            SinkTask::Nothing
                        },
                    ),
                ),
            },
    {
        match validate_config(&config) {
            Err(fault) => Err(fault),
            Ok(()) => {
                let task = if config.enabled {
                    SinkTask::OpenWriter {
                        max_bytes: config.max_file_size_bytes(),
                        retained_archives: config.retained_archives,
                    }
                } else {
                    SinkTask::Nothing
                };
                Ok((EventSink::Service { applied: config, writer: None }, task))
            },
        }
    }

    /// What new settings ask for: nothing of a console, of unchanged settings
    /// and of settings that disable the log.
    pub open spec fn change_for(self, config: LoggingConfig) -> SinkTask {
        match self {
            EventSink::Console => SinkTask::Nothing,
            EventSink::Service { applied, writer } => {
                if config == applied || !config.enabled {
                    SinkTask::Nothing
                } else if writer is Some {
                    SinkTask::ChangeLimits {
                        max_bytes: config.max_file_size_bytes(),
                        retained_archives: config.retained_archives,
                    }
                } else {
                    SinkTask::OpenWriter {
                        max_bytes: config.max_file_size_bytes(),
                        retained_archives: config.retained_archives,
                    }
                }
            },
        }
    }

    /// Takes new settings. Disabling takes effect at once and touches no
    /// file; what enabling or changing takes is in the result, and the
    /// settings hold only once it is done.
    pub fn begin_reconfigure(&mut self, config: LoggingConfig) -> (task: Result<
        SinkTask,
        LoggingConfigError,
    >)
        ensures
            match config.fault() {
                Some(fault) => {
                    &&& task == Err::<SinkTask, _>(fault)
                    &&& *final(self) == *old(self)
                },
                None => {
                    &&& task == Ok::<_, LoggingConfigError>(old(self).change_for(config))
                    &&& *final(self) == (match *old(self) {
                        EventSink::Service { applied, .. } if config != applied
                            && !config.enabled => EventSink::Service {
                            applied: config,
                            writer: None,
                        },
                        other => other,
                    })
                },
            },
    {
        match validate_config(&config) {
            Err(fault) => {
                return Err(fault);
            },
            Ok(()) => {},
        }
        match *self {
            EventSink::Console => Ok(SinkTask::Nothing),
            EventSink::Service { applied, writer } => {
                if config == applied {
                    return Ok(SinkTask::Nothing);
                }
                if !config.enabled {
                    *self = EventSink::Service { applied: config, writer: None };
                    return Ok(SinkTask::Nothing);
                }
                if writer.is_some() {
                    Ok(
                        SinkTask::ChangeLimits {
                            max_bytes: config.max_file_size_bytes(),
                            retained_archives: config.retained_archives,
                        },
                    )
                } else {
                    Ok(
                        SinkTask::OpenWriter {
                            max_bytes: config.max_file_size_bytes(),
                            retained_archives: config.retained_archives,
                        },
                    )
                }
            },
        }
    }

    /// Notes that the log file was opened, or its limits changed, as the
    /// settings asked for.
    pub fn note_opened(&mut self, config: LoggingConfig, opened: RotatingWriter)
        ensures
            *final(self) == (match *old(self) {
                EventSink::Console => EventSink::Console,
                EventSink::Service { .. } => EventSink::Service {
                    applied: config,
                    writer: Some(opened),
                },
            }),
    {
        if let EventSink::Service { .. } = *self {
            *self = EventSink::Service { applied: config, writer: Some(opened) };
        }
    }

    /// Notes what is now known of the active file, without new settings.
    pub fn note_writer(&mut self, known: RotatingWriter)
        ensures
            *final(self) == (match *old(self) {
                EventSink::Service { applied, writer: Some(_) } => EventSink::Service {
                    applied,
                    writer: Some(known),
                },
                other => other,
            }),
    {
        if let EventSink::Service { applied, writer: Some(_) } = *self {
            *self = EventSink::Service { applied, writer: Some(known) };
        }
    }

    /// What a record asks for.
    pub open spec fn task_for(self, record_len: u64) -> WriteTask {
        match self {
            EventSink::Console => WriteTask::Print,
            EventSink::Service { writer: None, .. } => WriteTask::Skip,
            EventSink::Service { writer: Some(writer), .. } => if writer.rotates_for(record_len) {
                WriteTask::RotateAndAppend { retained_archives: writer.retained_archives }
            } else {
                WriteTask::Append
            },
        }
    }

    /// Says what a record asks for.
    pub fn write_task(&self, record_len: u64) -> (task: WriteTask)
        ensures
            task == self.task_for(record_len),
    {
        match self {
            EventSink::Console => WriteTask::Print,
            EventSink::Service { writer, .. } => match writer {
                None => WriteTask::Skip,
                Some(writer) => if writer.must_rotate_for(record_len) {
                    WriteTask::RotateAndAppend { retained_archives: writer.retained_archives }
                } else {
                    WriteTask::Append
                },
            },
        }
    }

    /// The settings that hold for the service's log.
    pub fn applied_logging(&self) -> (applied: Option<LoggingConfig>)
        ensures
            applied == match *self {
                EventSink::Console => None::<LoggingConfig>,
                EventSink::Service { applied, .. } => Some(applied),
            },
    {
        match self {
            EventSink::Console => None,
            EventSink::Service { applied, .. } => Some(*applied),
        }
    }
}

/// Remembers the last failure, so that a lasting one is reported once.
#[derive(Debug)]
pub struct RepeatedErrors {
    pub last: Option<String>,
}

impl RepeatedErrors {
    /// Notes how something went. Returns what is to be reported, behind
    /// `prefix`: a failure that differs from the last one.
    pub fn note(&mut self, prefix: &str, error: Option<String>) -> (report: Option<String>)
        ensures
            final(self).last.deep_view() == error.deep_view(),
            report.deep_view() == match error.deep_view() {
                Some(said) => if old(self).last.deep_view() == Some(said) {
                    None
                } else {
                    Some(prefix@ + said)
                },
                None => None,
            },
            report.deep_view() == failure_reported(
                old(self).last.deep_view(),
                prefix@,
                error.deep_view(),
            ),
    {
        let report = match &error {
            None => None,
            Some(said) => {
                let repeated = match &self.last {
                    Some(last) => crate::text::same_text(last.as_str(), said.as_str()),
                    None => false,
                };
                if repeated {
                    None
                } else {
                    let mut text = prefix.to_owned();
                    text.append(said.as_str());
                    Some(text)
                }
            },
        };
        self.last = error;
        report
    }
}

/// What is done next to bring an open log file in line with new limits.
#[derive(Debug, Clone, Copy, PartialEq, Eq, Structural)]
pub enum LimitStep {
    /// Read the size of the active file.
    Measure,
    /// Remove the archives above the new number.
    Prune,
    /// Close the active file, rotate with the new number of archives, and open
    /// it again.
    Rotate,
    /// Open the log file, which was lost, with the limits from before.
    Restore,
    /// There is nothing more to do: the new limits hold.
    Done,
    /// There is nothing more to do: the limits from before hold.
    Failed,
}

/// What came of the last step.
#[derive(Debug)]
pub enum LimitAnswer {
    Measured(u64),
    Pruned,
    Rotated { rotation: Option<String>, reopened: Reopened },
    /// The log file is open again and has so many bytes.
    Restored(u64),
    Failed(String),
}

/// A change of the limits of the log.
#[derive(Debug)]
pub struct LimitRun {
    /// What is known of the active file, with the limits that hold.
    pub writer: RotatingWriter,
    pub max_bytes: u64,
    pub retained_archives: u8,
    pub step: LimitStep,
    /// What went wrong, if anything did.
    pub error: Option<String>,
}

/// A change of the limits of the log, with its text as a sequence.
#[verifier::ext_equal]
pub struct LimitView {
    pub writer: RotatingWriter,
    pub max_bytes: u64,
    pub retained_archives: u8,
    pub step: LimitStep,
    pub error: Option<Seq<char>>,
}

impl View for LimitRun {
    type V = LimitView;

    open spec fn view(&self) -> LimitView {
        LimitView {
            writer: self.writer,
            max_bytes: self.max_bytes,
            retained_archives: self.retained_archives,
            step: self.step,
            error: self.error.deep_view(),
        }
    }
}

impl LimitView {
    /// A change that begins. A log file that is not open is restored first.
    pub open spec fn begun(writer: RotatingWriter, max_bytes: u64, retained_archives: u8) -> LimitView {
        LimitView {
            writer,
            max_bytes,
            retained_archives,
            step: if writer.open {
                LimitStep::Measure
            } else {
                LimitStep::Restore
            },
            error: if writer.open {
                None
            } else {
                Some("active log handle is unavailable"@)
            },
        }
    }

    /// The new limits hold.
    pub open spec fn finished(self) -> LimitView {
        LimitView {
            writer: RotatingWriter {
                max_bytes: self.max_bytes,
                retained_archives: self.retained_archives,
                ..self.writer
            },
            step: LimitStep::Done,
            error: None,
            ..self
        }
    }

    /// The change failed.
    pub open spec fn failed(self, error: Option<Seq<char>>) -> LimitView {
        LimitView { step: LimitStep::Failed, error, ..self }
    }

    /// What follows once there are no archives too many.
    pub open spec fn pruned(self) -> LimitView {
        if self.writer.current_bytes > self.max_bytes {
            LimitView { step: LimitStep::Rotate, ..self }
        } else {
            self.finished()
        }
    }

    /// The change after the answer to its last step. Other answers change
    /// nothing.
    pub open spec fn answered(self, answer: LimitAnswer) -> LimitView {
        match (self.step, answer) {
            (LimitStep::Measure, LimitAnswer::Measured(current_bytes)) => {
                let measured = LimitView {
                    writer: RotatingWriter { current_bytes, ..self.writer },
                    ..self
                };
                if self.retained_archives < self.writer.retained_archives {
                    LimitView { step: LimitStep::Prune, ..measured }
                } else {
                    measured.pruned()
                }
            },
            (LimitStep::Measure, LimitAnswer::Failed(error)) => self.failed(Some(error@)),
            (LimitStep::Prune, LimitAnswer::Pruned) => self.pruned(),
            (LimitStep::Prune, LimitAnswer::Failed(error)) => self.failed(Some(error@)),
            (LimitStep::Rotate, LimitAnswer::Rotated { rotation, reopened }) => {
                let error = rotation_words(rotation.deep_view(), reopened);
                let rotated = LimitView { writer: self.writer.rotated(reopened), ..self };
                if error is None {
                    rotated.finished()
                } else if rotated.writer.open {
                    rotated.failed(error)
                } else {
                    LimitView { step: LimitStep::Restore, error, ..rotated }
                }
            },
            (LimitStep::Restore, LimitAnswer::Restored(current_bytes)) => LimitView {
                writer: RotatingWriter { open: true, current_bytes, ..self.writer },
                ..self
            }.failed(self.error),
            (LimitStep::Restore, LimitAnswer::Failed(error)) => self.failed(
                Some(both_failed(self.error, error@)),
            ),
            _ => self,
        }
    }

    /// The active file is open but where it has to be restored; there it was
    /// lost for a reason that is known.
    pub open spec fn wf(self) -> bool {
        match self.step {
            LimitStep::Measure | LimitStep::Prune | LimitStep::Rotate | LimitStep::Done => {
                self.writer.open && self.error is None
            },
            LimitStep::Restore => !self.writer.open && self.error is Some,
            LimitStep::Failed => self.error is Some,
        }
    }
}

/// The error where limits could not be changed and the log file could not be
/// opened with the limits from before either.
pub open spec fn both_failed(change: Option<Seq<char>>, recovery: Seq<char>) -> Seq<char> {
    "log reconfiguration failed: "@ + match change {
        Some(change) => change,
        None => Seq::empty(),
    } + "; restoring the prior writer failed: "@ + recovery
}

impl LimitRun {
    /// Begins to change the limits of the log.
    pub fn begin(writer: RotatingWriter, max_bytes: u64, retained_archives: u8) -> (run: LimitRun)
        ensures
            run@ == LimitView::begun(writer, max_bytes, retained_archives),
    {
        if writer.open {
            LimitRun {
                writer,
                max_bytes,
                retained_archives,
                step: LimitStep::Measure,
                error: None,
            }
        } else {
            LimitRun {
                writer,
                max_bytes,
                retained_archives,
                step: LimitStep::Restore,
                error: Some("active log handle is unavailable".to_owned()),
            }
        }
    }

    fn finish(&mut self)
        ensures
            final(self)@ == old(self)@.finished(),
    {
        self.writer.max_bytes = self.max_bytes;
        self.writer.retained_archives = self.retained_archives;
        self.step = LimitStep::Done;
        self.error = None;
    }

    fn after_pruning(&mut self)
        ensures
            final(self)@ == old(self)@.pruned(),
    {
        if self.writer.current_bytes > self.max_bytes {
            self.step = LimitStep::Rotate;
        } else {
            self.finish();
        }
    }

    /// Takes what came of the last step.
    pub fn answer(&mut self, answer: LimitAnswer)
        ensures
            final(self)@ == old(self)@.answered(answer),
    {
        match (self.step, answer) {
            (LimitStep::Measure, LimitAnswer::Measured(current_bytes)) => {
                let prune = self.retained_archives < self.writer.retained_archives;
                self.writer.current_bytes = current_bytes;
                if prune {
                    self.step = LimitStep::Prune;
                } else {
                    self.after_pruning();
                }
            },
            (LimitStep::Measure, LimitAnswer::Failed(error)) => {
                self.step = LimitStep::Failed;
                self.error = Some(error);
            },
            (LimitStep::Prune, LimitAnswer::Pruned) => {
                self.after_pruning();
            },
            (LimitStep::Prune, LimitAnswer::Failed(error)) => {
                self.step = LimitStep::Failed;
                self.error = Some(error);
            },
            (LimitStep::Rotate, LimitAnswer::Rotated { rotation, reopened }) => {
                let told: Option<&str> = match &rotation {
                    Some(rotation) => Some(rotation.as_str()),
                    None => None,
                };
                let error = self.writer.note_rotation(told, &reopened);
                if error.is_none() {
                    self.finish();
                } else {
                    self.step =
                    if self.writer.open {
                        LimitStep::Failed
                    } else {
                        LimitStep::Restore
                    };
                    self.error = error;
                }
            },
            (LimitStep::Restore, LimitAnswer::Restored(current_bytes)) => {
                self.writer.open = true;
                self.writer.current_bytes = current_bytes;
                self.step = LimitStep::Failed;
            },
            (LimitStep::Restore, LimitAnswer::Failed(error)) => {
                let mut text = "log reconfiguration failed: ".to_owned();
                if let Some(change) = &self.error {
                    text.append(change.as_str());
                }
                text.append("; restoring the prior writer failed: ");
                text.append(error.as_str());
                proof {
                    assert(text@ =~= both_failed(old(self)@.error, error@));
                }
                self.step = LimitStep::Failed;
                self.error = Some(text);
            },
            _ => {},
        }
    }
}

impl EventSink {
    /// Ends a change of limits: the settings hold where it was done, and what
    /// is known of the active file is noted in any case.
    pub fn settle_limits(&mut self, config: LoggingConfig, run: &LimitRun)
        ensures
            *final(self) == (match *old(self) {
                EventSink::Service { applied, writer: Some(_) } => EventSink::Service {
                    applied: if run.step is Done {
                        config
                    } else {
                        applied
                    },
                    writer: Some(run.writer),
                },
                other => other,
            }),
    {
        if let EventSink::Service { applied, writer: Some(_) } = *self {
            *self =
            EventSink::Service {
                applied: if matches!(run.step, LimitStep::Done) {
                    config
                } else {
                    applied
                },
                writer: Some(run.writer),
            };
        }
    }
}

/// A change of limits stays well-formed from its beginning on.
pub proof fn limit_changes_stay_well_formed(
    writer: RotatingWriter,
    max_bytes: u64,
    retained_archives: u8,
    run: LimitView,
    answer: LimitAnswer,
)
    ensures
        LimitView::begun(writer, max_bytes, retained_archives).wf(),
        run.wf() ==> run.answered(answer).wf(),
{
}

/// The limits that hold change only where the change is done; one that fails
/// leaves those from before.
pub proof fn failed_changes_keep_the_limits(run: LimitView, answer: LimitAnswer)
    requires
        !(run.step is Done),
    ensures
        ({
            let after = run.answered(answer);
            if after.step is Done {
                after.writer.max_bytes == run.max_bytes && after.writer.retained_archives
                    == run.retained_archives
            } else {
                after.writer.max_bytes == run.writer.max_bytes && after.writer.retained_archives
                    == run.writer.retained_archives
            }
        }),
{
}

/// A change that fails leaves the log file open with the limits from before,
/// or tells both errors: why the change failed, and why the file could not be
/// opened again.
pub proof fn failed_changes_restore_or_tell_both(run: LimitView, answer: LimitAnswer)
    requires
        run.wf(),
        !(run.step is Failed),
        run.answered(answer).step is Failed,
    ensures
        ({
            let after = run.answered(answer);
            ||| after.writer.open && after.error is Some && (run.step is Restore ==> after.error
                == run.error)
            ||| run.step is Restore && (answer matches LimitAnswer::Failed(error) && after.error
                == Some(both_failed(run.error, error@)))
        }),
{
}

/// Archives are removed before the files are rotated, and both before the new
/// limits hold.
pub proof fn limits_follow_the_files(run: LimitView, answer: LimitAnswer)
    requires
        run.wf(),
        !(run.step is Done),
        run.answered(answer).step is Done,
    ensures
        run.step is Measure ==> run.retained_archives >= run.writer.retained_archives && (answer
            matches LimitAnswer::Measured(current_bytes) && current_bytes <= run.max_bytes),
        run.step is Prune ==> answer is Pruned && run.writer.current_bytes <= run.max_bytes,
        run.step is Rotate ==> (answer matches LimitAnswer::Rotated { rotation, reopened }
            && rotation is None && reopened is Open),
        !(run.step is Restore),
{
}

/// The active file, or nothing where there is none.
pub open spec fn active(files: LogFiles) -> Seq<u8> {
    if files.dom().contains(0) {
        files[0]
    } else {
        Seq::empty()
    }
}

/// The files after a record is written under limits that the writer keeps.
pub open spec fn recorded(files: LogFiles, max_bytes: u64, retained: u8, record: Seq<u8>) -> LogFiles {
    if active(files).len() != 0 && active(files).len() + record.len() > max_bytes {
        rotated(files, retained).insert(0, record)
    } else {
        files.insert(0, active(files) + record)
    }
}

/// Archive `k` down to archive 1, then the active file: what was logged, the
/// oldest first.
pub open spec fn logged(files: LogFiles, k: nat) -> Seq<u8>
    decreases k,
{
    if k == 0 {
        active(files)
    } else {
        (if files.dom().contains(k as int) {
            files[k as int]
        } else {
            Seq::empty()
        }) + logged(files, (k - 1) as nat)
    }
}

/// A writer that knows the size of the active file rotates exactly when the
/// record would not fit, and knows the size again afterwards.
pub proof fn writers_follow_the_files(
    writer: RotatingWriter,
    files: LogFiles,
    record: Seq<u8>,
)
    requires
        writer.current_bytes == active(files).len(),
        active(files).len() + record.len() <= u64::MAX,
    ensures
        writer.rotates_for(record.len() as u64) <==> active(files).len() != 0 && active(
            files,
        ).len() + record.len() > writer.max_bytes,
        active(recorded(files, writer.max_bytes, writer.retained_archives, record)).len() == sum_of(
            if writer.rotates_for(record.len() as u64) {
                0
            } else {
                writer.current_bytes
            },
            record.len() as u64,
        ),
{
}

/// A record is never split: it stands whole at the end of the active file,
/// alone there if the files were rotated for it.
pub proof fn records_stay_whole(files: LogFiles, max_bytes: u64, retained: u8, record: Seq<u8>)
    ensures
        active(recorded(files, max_bytes, retained, record)) == record || active(
            recorded(files, max_bytes, retained, record),
        ) == active(files) + record,
{
}

/// A file that is not empty stays within the limit, unless a single record is
/// larger than it.
pub proof fn files_stay_within_the_limit(
    files: LogFiles,
    max_bytes: u64,
    retained: u8,
    record: Seq<u8>,
)
    requires
        record.len() <= max_bytes,
    ensures
        active(recorded(files, max_bytes, retained, record)).len() <= max_bytes,
{
    assert(active(files).len() == 0 ==> active(files) + record =~= record);
}

/// A rotation keeps no archive above the retained number that was not there
/// before, and puts the newest at 1.
pub proof fn rotation_keeps_the_newest(files: LogFiles, retained: u8)
    requires
        files.dom().contains(0),
        retained > 0,
    ensures
        rotated(files, retained)[1] == files[0],
        rotated(files, retained).dom().contains(1),
        !rotated(files, retained).dom().contains(0),
        forall|k: int|
            k > retained ==> (#[trigger] rotated(files, retained).dom().contains(k)
                <==> files.dom().contains(k)),
{
}

proof fn logged_after_rotation(files: LogFiles, retained: u8, k: nat, record: Seq<u8>)
    requires
        files.dom().contains(0),
        k + 1 <= retained,
    ensures
        logged(rotated(files, retained).insert(0, record), (k + 1) as nat) == logged(files, k)
            + record,
    decreases k,
{
    let after = rotated(files, retained).insert(0, record);
    assert(active(after) == record);
    reveal_with_fuel(logged, 2);
    if k == 0 {
        assert(after[1] == files[0]);
        assert(logged(after, 1) =~= logged(files, 0) + record);
    } else {
        logged_after_rotation(files, retained, (k - 1) as nat, record);
        assert(after.dom().contains((k + 1) as int) == files.dom().contains(k as int));
        assert(logged(after, (k + 1) as nat) =~= logged(files, k) + record);
    }
}

/// What is logged stays in order: a record comes behind all that was logged
/// before, and a rotation drops nothing but the oldest retained archive.
pub proof fn logs_stay_in_order(files: LogFiles, max_bytes: u64, retained: u8, record: Seq<u8>)
    requires
        retained > 0,
    ensures
        logged(recorded(files, max_bytes, retained, record), retained as nat) == logged(
            files,
            retained as nat,
        ) + record || logged(recorded(files, max_bytes, retained, record), retained as nat)
            == logged(files, (retained - 1) as nat) + record,
{
    if active(files).len() != 0 && active(files).len() + record.len() > max_bytes {
        logged_after_rotation(files, retained, (retained - 1) as nat, record);
    } else {
        logged_append(files, retained as nat, record);
    }
}

proof fn logged_append(files: LogFiles, k: nat, record: Seq<u8>)
    ensures
        logged(files.insert(0, active(files) + record), k) == logged(files, k) + record,
    decreases k,
{
    let after = files.insert(0, active(files) + record);
    if k > 0 {
        logged_append(files, (k - 1) as nat, record);
        assert(after.dom().contains(k as int) == files.dom().contains(k as int));
        assert(logged(after, k) =~= logged(files, k) + record);
    }
}

/// A disabled log touches no file: no record is written, and no settings that
/// leave it disabled ask for anything.
pub proof fn disabled_logs_touch_nothing(applied: LoggingConfig, config: LoggingConfig, len: u64)
    requires
        !config.enabled,
    ensures
        (EventSink::Service { applied, writer: None }).task_for(len) == WriteTask::Skip,
        (EventSink::Service { applied, writer: None }).change_for(config) == SinkTask::Nothing,
{
}

/// Settings of the log are valid where a file may have from one to a hundred
/// MiB and at most ten archives are kept; the size is told first.
pub proof fn log_settings_are_within_their_ranges(config: LoggingConfig)
    ensures
        config.fault() is None <==> 1 <= config.max_file_size_mib <= 100 && config.retained_archives
            <= 10,
        config.fault() == Some(LoggingConfigError::FileSize) <==> config.max_file_size_mib == 0
            || config.max_file_size_mib > 100,
        config.fault() is None ==> config.max_file_size_bytes() == config.max_file_size_mib * 1024
            * 1024,
{
}

/// A record is printed in a console, left out where the log is off, and else
/// appended, after a rotation exactly where the file is not empty and would
/// grow above its limit.
pub proof fn records_go_where_they_belong(
    applied: LoggingConfig,
    writer: RotatingWriter,
    len: u64,
)
    ensures
        EventSink::Console.task_for(len) == WriteTask::Print,
        (EventSink::Service { applied, writer: None }).task_for(len) == WriteTask::Skip,
        ({
            let task = (EventSink::Service { applied, writer: Some(writer) }).task_for(len);
            let full = writer.current_bytes > 0 && writer.current_bytes + len > writer.max_bytes;
            &&& full && writer.max_bytes < u64::MAX ==> task == WriteTask::RotateAndAppend {
                retained_archives: writer.retained_archives,
            }
            &&& !full ==> task == WriteTask::Append
        }),
{
}

/// New settings are acted on where they are new and the log is on: an open
/// file gets new limits, and without one a file is opened, in both cases with
/// the limits of the new settings.
pub proof fn new_settings_are_acted_on(
    applied: LoggingConfig,
    writer: RotatingWriter,
    config: LoggingConfig,
)
    ensures
        EventSink::Console.change_for(config) == SinkTask::Nothing,
        (EventSink::Service { applied, writer: Some(writer) }).change_for(applied)
            == SinkTask::Nothing,
        !config.enabled ==> (EventSink::Service { applied, writer: Some(writer) }).change_for(
            config,
        ) == SinkTask::Nothing,
        config.enabled && config != applied ==> (EventSink::Service {
            applied,
            writer: Some(writer),
        }).change_for(config) == (SinkTask::ChangeLimits {
            max_bytes: (config.max_file_size_mib * 1_048_576) as u64,
            retained_archives: config.retained_archives,
        }),
        config.enabled && config != applied ==> (EventSink::Service {
            applied,
            writer: None,
        }).change_for(config) == (SinkTask::OpenWriter {
            max_bytes: (config.max_file_size_mib * 1_048_576) as u64,
            retained_archives: config.retained_archives,
        }),
{
}

/// A rotation went well exactly where the files were moved and the active one
/// is open and measured again; else it is told what failed, both failures
/// where both did. Only a file that is open counts as such.
pub proof fn failed_rotations_are_told(
    writer: RotatingWriter,
    rotation: Option<Seq<char>>,
    reopened: Reopened,
)
    ensures
        rotation_words(rotation, reopened) is None <==> rotation is None && reopened is Open,
        reopened is Open ==> rotation_words(rotation, reopened) == rotation,
        reopened matches Reopened::Unmeasured(error) ==> rotation_words(rotation, reopened) == Some(
            error@,
        ),
        rotation is None ==> (reopened matches Reopened::Closed(error) ==> rotation_words(
            rotation,
            reopened,
        ) == Some(error@)),
        (rotation is Some && reopened is Closed) ==> ({
            let words = rotation_words(rotation, reopened)->0;
            &&& (reopened->Closed_0)@.is_suffix_of(words)
            &&& ("log rotation failed: "@ + rotation->0).is_prefix_of(words)
        }),
        writer.rotated(reopened).open <==> reopened is Open,
        reopened matches Reopened::Open(bytes) ==> writer.rotated(reopened).current_bytes == bytes,
        writer.rotated(reopened).max_bytes == writer.max_bytes,
        writer.rotated(reopened).retained_archives == writer.retained_archives,
{
    if rotation is Some && reopened is Closed {
        let words = rotation_words(rotation, reopened)->0;
        let error = (reopened->Closed_0)@;
        let start = "log rotation failed: "@ + rotation->0;
        assert(words.subrange(words.len() - error.len(), words.len() as int) =~= error);
        assert(words.subrange(0, start.len() as int) =~= start);
    }
}

/// Archives are removed exactly where fewer are to be kept, and the files
/// rotated exactly where the active one is larger than it may be. A step that
/// fails ends the change, except that a file that was lost is opened again.
pub proof fn limit_changes_do_what_is_needed(
    run: LimitView,
    bytes: u64,
    error: String,
)
    ensures
        run.step is Measure ==> {
            let after = run.answered(LimitAnswer::Measured(bytes));
            &&& after.step is Prune <==> run.retained_archives < run.writer.retained_archives
            &&& run.retained_archives >= run.writer.retained_archives ==> (after.step is Rotate
                <==> bytes > run.max_bytes)
            &&& after.writer.current_bytes == bytes
        },
        run.step is Prune ==> (run.answered(LimitAnswer::Pruned).step is Rotate
            <==> run.writer.current_bytes > run.max_bytes),
        run.step is Prune && run.writer.current_bytes <= run.max_bytes ==> run.answered(
            LimitAnswer::Pruned,
        ).step is Done,
        run.step is Measure || run.step is Prune ==> run.answered(LimitAnswer::Failed(error)).step
            is Failed && run.answered(LimitAnswer::Failed(error)).error == Some(error@),
        run.step is Restore ==> {
            let restored = run.answered(LimitAnswer::Restored(bytes));
            &&& restored.step is Failed
            &&& restored.writer.open && restored.writer.current_bytes == bytes
            &&& restored.error == run.error
        },
        run.step is Rotate ==> {
            let lost = run.answered(
                LimitAnswer::Rotated { rotation: None, reopened: Reopened::Closed(error) },
            );
            &&& lost.step is Restore
            &&& lost.error == Some(error@)
        },
{
}

/// Both failures are told, the first one first.
pub proof fn both_failures_are_told(change: Seq<char>, recovery: Seq<char>)
    ensures
        ("log reconfiguration failed: "@ + change).is_prefix_of(
            both_failed(Some(change), recovery),
        ),
        recovery.is_suffix_of(both_failed(Some(change), recovery)),
{
    let words = both_failed(Some(change), recovery);
    let start = "log reconfiguration failed: "@ + change;
    assert(words.subrange(0, start.len() as int) =~= start);
    assert(words.subrange(words.len() - recovery.len(), words.len() as int) =~= recovery);
}

/// Removing archives leaves the active file and those that are kept as they
/// were.
pub proof fn kept_archives_stay(files: LogFiles, retained: u8, k: int)
    ensures
        0 <= k <= retained ==> (pruned(files, retained).dom().contains(k) <==> files.dom().contains(
            k,
        )),
        retained < k <= 10 ==> !pruned(files, retained).dom().contains(k),
        pruned(files, retained).dom().contains(k) ==> pruned(files, retained)[k] == files[k],
        pruned(pruned(files, retained), retained) == pruned(files, retained),
{
    assert(pruned(pruned(files, retained), retained) =~= pruned(files, retained));
}

/// What is reported of a failure after another, or after none.
pub open spec fn failure_reported(
    last: Option<Seq<char>>,
    prefix: Seq<char>,
    error: Option<Seq<char>>,
) -> Option<Seq<char>> {
    match error {
        Some(said) => if last == Some(said) {
            None
        } else {
            Some(prefix + said)
        },
        None => None,
    }
}

/// A failure is reported when it comes, and not again while it lasts; after
/// something went well, or differently wrong, it is reported anew.
pub proof fn failures_are_reported_once(prefix: Seq<char>, said: Seq<char>, other: Seq<char>)
    requires
        said != other,
    ensures
        failure_reported(None, prefix, Some(said)) == Some(prefix + said),
        failure_reported(Some(said), prefix, Some(said)) is None,
        failure_reported(Some(other), prefix, Some(said)) == Some(prefix + said),
        failure_reported(Some(said), prefix, None) is None,
{
}

/// An operation on the files loses nothing but what it removes: an archive that
/// is moved up is found under the next number, the active file under the first,
/// and every other file stays as it was. Moving an archive that is not there
/// changes nothing.
pub proof fn moved_files_are_found_again(files: LogFiles, at: u8, other: int)
    requires
        at > 0,
    ensures
        ({
            let shifted = operated(files, FileOp::ShiftArchive(at));
            let archived = operated(files, FileOp::ArchiveActive);
            let removed = operated(files, FileOp::RemoveArchive(at));
            &&& files.dom().contains(at as int) ==> shifted.dom().contains(at + 1) && shifted[at + 1]
                == files[at as int] && !shifted.dom().contains(at as int)
            &&& !files.dom().contains(at as int) ==> shifted == files
            &&& other != at && other != at + 1 ==> (shifted.dom().contains(other)
                <==> files.dom().contains(other)) && (files.dom().contains(other) ==> shifted[other]
                == files[other])
            &&& files.dom().contains(0) ==> archived.dom().contains(1) && archived[1] == files[0]
                && !archived.dom().contains(0)
            &&& !removed.dom().contains(at as int)
            &&& other != at ==> (removed.dom().contains(other) <==> files.dom().contains(other))
            &&& !operated(files, FileOp::RemoveActive).dom().contains(0)
        }),
{
}

} // verus!
