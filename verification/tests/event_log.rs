use std::collections::BTreeMap;

use winsched_logic::event_logger::frame_record;
use winsched_logic::event_logger::must_rotate_on_open;
use winsched_logic::event_logger::prune_plan;
use winsched_logic::event_logger::rotation_plan;
use winsched_logic::event_logger::validate_config;
use winsched_logic::event_logger::EventSink;
use winsched_logic::event_logger::FileOp;
use winsched_logic::event_logger::LimitAnswer;
use winsched_logic::event_logger::LimitRun;
use winsched_logic::event_logger::LimitStep;
use winsched_logic::event_logger::LoggingConfig;
use winsched_logic::event_logger::LoggingConfigError;
use winsched_logic::event_logger::Reopened;
use winsched_logic::event_logger::RepeatedErrors;
use winsched_logic::event_logger::RotatingWriter;
use winsched_logic::event_logger::SinkTask;
use winsched_logic::event_logger::WriteTask;

/// The log files in memory: the active one under 0, archive `i` under `i`.
#[derive(Default)]
struct Files {
    contents: BTreeMap<u8, Vec<u8>>,
    blocked: bool,
}

impl Files {
    fn run(&mut self, ops: &[FileOp]) {
        for op in ops {
            match *op {
                FileOp::RemoveActive => {
                    self.contents.remove(&0);
                }
                FileOp::RemoveArchive(index) => {
                    self.contents.remove(&index);
                }
                FileOp::ShiftArchive(index) => {
                    if let Some(contents) = self.contents.remove(&index) {
                        self.contents.insert(index + 1, contents);
                    }
                }
                FileOp::ArchiveActive => {
                    let contents = self.contents.remove(&0).unwrap();
                    self.contents.insert(1, contents);
                }
            }
        }
    }

    fn rotate(&mut self, retained: u8) {
        if self.contents.contains_key(&0) {
            self.run(&rotation_plan(retained));
        }
    }

    fn active_len(&self) -> u64 {
        self.contents.get(&0).map_or(0, |contents| contents.len() as u64)
    }

    fn open_active(&mut self) -> u64 {
        self.contents.entry(0).or_default();
        self.active_len()
    }

    fn open(&mut self, max_bytes: u64, retained: u8) -> Option<RotatingWriter> {
        if self.blocked {
            return None;
        }
        self.run(&prune_plan(retained));
        if must_rotate_on_open(self.active_len(), max_bytes) {
            self.rotate(retained);
        }
        Some(RotatingWriter::opened(self.open_active(), max_bytes, retained))
    }

    fn write(&mut self, writer: &mut RotatingWriter, line: &str) {
        let record = frame_record(line);
        if writer.must_rotate_for(record.len() as u64) {
            self.rotate(writer.retained_archives);
            let reopened = self.open_active();
            assert_eq!(writer.note_rotation(None, &Reopened::Open(reopened)), None);
        }
        assert!(writer.open);
        self.contents.get_mut(&0).unwrap().extend_from_slice(&record);
        writer.note_append(record.len() as u64);
    }

    /// Answers every step of a change of limits from the files.
    fn change_limits(&mut self, writer: RotatingWriter, max_bytes: u64, retained: u8) -> LimitRun {
        let mut run = LimitRun::begin(writer, max_bytes, retained);
        loop {
            let answer = match run.step {
                LimitStep::Measure => LimitAnswer::Measured(self.active_len()),
                LimitStep::Prune => {
                    self.run(&prune_plan(retained));
                    LimitAnswer::Pruned
                }
                LimitStep::Rotate => {
                    self.rotate(retained);
                    let reopened = Reopened::Open(self.open_active());
                    LimitAnswer::Rotated { rotation: None, reopened }
                }
                LimitStep::Restore => {
                    match self.open(run.writer.max_bytes, run.writer.retained_archives) {
                        Some(restored) => LimitAnswer::Restored(restored.current_bytes),
                        None => LimitAnswer::Failed("blocked".to_owned()),
                    }
                }
                LimitStep::Done | LimitStep::Failed => return run,
            };
            run.answer(answer);
        }
    }

    fn text(&self, index: u8) -> String {
        String::from_utf8(self.contents[&index].clone()).unwrap()
    }
}

fn emit(files: &mut Files, sink: &mut EventSink, line: &str) {
    let record = frame_record(line);
    match sink.write_task(record.len() as u64) {
        WriteTask::Skip | WriteTask::Print => {}
        WriteTask::Append | WriteTask::RotateAndAppend { .. } => {
            let EventSink::Service { writer: Some(mut writer), .. } = *sink else {
                panic!("only an open log is written to");
            };
            files.write(&mut writer, line);
            sink.note_writer(writer);
        }
    }
}

#[test]
fn rotates_complete_records_with_newest_archive_at_one() {
    let mut files = Files::default();
    let mut writer = files.open(12, 2).unwrap();

    for line in ["aaaa", "bbbb", "cccc", "dddd", "eeee"] {
        files.write(&mut writer, line);
    }

    assert_eq!(files.text(0), "eeee\n");
    assert_eq!(files.text(1), "cccc\ndddd\n");
    assert_eq!(files.text(2), "aaaa\nbbbb\n");
    assert!(!files.contents.contains_key(&3));
}

#[test]
fn zero_archives_truncates_the_previous_active_log() {
    let mut files = Files::default();
    let mut writer = files.open(6, 0).unwrap();

    files.write(&mut writer, "one");
    files.write(&mut writer, "two");

    assert_eq!(files.text(0), "two\n");
    assert!(!files.contents.contains_key(&1));
}

#[test]
fn oversized_single_record_remains_whole() {
    let mut files = Files::default();
    let mut writer = files.open(5, 1).unwrap();
    let oversized = "a-record-larger-than-the-cap";

    files.write(&mut writer, oversized);
    assert_eq!(files.text(0), format!("{oversized}\n"));
    assert!(!files.contents.contains_key(&1));

    files.write(&mut writer, "x");
    assert_eq!(files.text(0), "x\n");
    assert_eq!(files.text(1), format!("{oversized}\n"));
}

#[test]
fn lowering_limit_rotates_and_lowering_retention_prunes() {
    let mut files = Files::default();
    let mut writer = files.open(100, 3).unwrap();
    files.write(&mut writer, "active-record");
    files.contents.insert(1, b"old-one\n".to_vec());
    files.contents.insert(2, b"old-two\n".to_vec());
    files.contents.insert(3, b"old-three\n".to_vec());

    let run = files.change_limits(writer, 5, 1);
    assert_eq!(run.step, LimitStep::Done);
    assert_eq!(run.error, None);
    assert_eq!((run.writer.max_bytes, run.writer.retained_archives), (5, 1));

    assert_eq!(files.text(0), "");
    assert_eq!(files.text(1), "active-record\n");
    assert!(!files.contents.contains_key(&2));
    assert!(!files.contents.contains_key(&3));
}

#[test]
fn disabled_service_sink_never_touches_log_files() {
    let mut files = Files::default();
    files.contents.insert(0, b"active-before\n".to_vec());
    files.contents.insert(1, b"archive-before\n".to_vec());
    let disabled = LoggingConfig { enabled: false, max_file_size_mib: 1, retained_archives: 0 };

    let (mut sink, task) = EventSink::service(disabled).unwrap();
    assert_eq!(task, SinkTask::Nothing);
    emit(&mut files, &mut sink, "ignored");
    let task = sink
        .begin_reconfigure(LoggingConfig { max_file_size_mib: 2, retained_archives: 5, ..disabled })
        .unwrap();
    assert_eq!(task, SinkTask::Nothing);

    assert_eq!(files.text(0), "active-before\n");
    assert_eq!(files.text(1), "archive-before\n");

    let mut absent = Files::default();
    let (mut absent_sink, _) = EventSink::service(disabled).unwrap();
    emit(&mut absent, &mut absent_sink, "ignored");
    assert!(absent.contents.is_empty());
}

#[test]
fn failed_enable_keeps_the_disabled_policy_transactionally() {
    let mut files = Files { blocked: true, ..Files::default() };
    let disabled = LoggingConfig { enabled: false, max_file_size_mib: 1, retained_archives: 0 };
    let (mut sink, _) = EventSink::service(disabled).unwrap();

    let enabled = LoggingConfig { enabled: true, ..disabled };
    let task = sink.begin_reconfigure(enabled).unwrap();
    let SinkTask::OpenWriter { max_bytes, retained_archives } = task else {
        panic!("enabling opens the log");
    };
    assert_eq!(max_bytes, 1024 * 1024);
    assert!(files.open(max_bytes, retained_archives).is_none());
    assert_eq!(sink.applied_logging(), Some(disabled));
}

#[test]
fn failed_reconfigure_recovers_the_prior_writer_when_the_path_is_available() {
    let mut files = Files::default();
    let mut writer = files.open(100, 2).unwrap();
    files.write(&mut writer, "before");

    writer.open = false;
    let config = LoggingConfig { enabled: true, max_file_size_mib: 1, retained_archives: 1 };
    let run =
        files.change_limits(writer, config.max_file_size_bytes(), config.retained_archives);
    assert_eq!(run.step, LimitStep::Failed);
    assert_eq!(run.error, Some("active log handle is unavailable".to_owned()));
    let mut writer = run.writer;
    files.write(&mut writer, "after");
    assert_eq!(files.text(0), "before\nafter\n");
    assert_eq!(writer.max_bytes, 100);
    assert_eq!(writer.retained_archives, 2);
}

#[test]
fn a_writer_that_cannot_be_restored_tells_both_errors() {
    let mut files = Files::default();
    let mut writer = files.open(100, 2).unwrap();
    writer.open = false;
    files.blocked = true;

    let run = files.change_limits(writer, 1_048_576, 1);
    assert_eq!(run.step, LimitStep::Failed);
    assert!(!run.writer.open);
    assert_eq!((run.writer.max_bytes, run.writer.retained_archives), (100, 2));
    assert_eq!(
        run.error,
        Some(
            "log reconfiguration failed: active log handle is unavailable; restoring the prior writer failed: blocked"
                .to_owned()
        )
    );
}

#[test]
fn failed_steps_leave_the_limits_from_before() {
    let writer = RotatingWriter::opened(40, 100, 2);

    let mut run = LimitRun::begin(writer, 10, 1);
    assert_eq!(run.step, LimitStep::Measure);
    run.answer(LimitAnswer::Failed("no size".to_owned()));
    assert_eq!((run.step, run.error), (LimitStep::Failed, Some("no size".to_owned())));
    assert_eq!(run.writer, writer);

    let mut run = LimitRun::begin(writer, 10, 1);
    run.answer(LimitAnswer::Measured(40));
    assert_eq!(run.step, LimitStep::Prune);
    run.answer(LimitAnswer::Failed("no removal".to_owned()));
    assert_eq!((run.step, run.error), (LimitStep::Failed, Some("no removal".to_owned())));
    assert_eq!(run.writer, writer);

    let mut run = LimitRun::begin(writer, 10, 2);
    run.answer(LimitAnswer::Measured(40));
    assert_eq!(run.step, LimitStep::Rotate);
    run.answer(LimitAnswer::Rotated {
        rotation: Some("no rename".to_owned()),
        reopened: Reopened::Open(40),
    });
    assert_eq!((run.step, run.error), (LimitStep::Failed, Some("no rename".to_owned())));
    assert_eq!(run.writer, writer);

    let mut run = LimitRun::begin(writer, 10, 2);
    run.answer(LimitAnswer::Measured(40));
    run.answer(LimitAnswer::Rotated {
        rotation: None,
        reopened: Reopened::Closed("no open".to_owned()),
    });
    assert_eq!(run.step, LimitStep::Restore);
    run.answer(LimitAnswer::Restored(7));
    assert_eq!((run.step, run.error), (LimitStep::Failed, Some("no open".to_owned())));
    assert_eq!(run.writer, RotatingWriter::opened(7, 100, 2));
}

#[test]
fn settings_hold_only_after_a_change_that_was_done() {
    let mut files = Files::default();
    let config = LoggingConfig { enabled: true, max_file_size_mib: 1, retained_archives: 2 };
    let (mut sink, _) = EventSink::service(config).unwrap();
    sink.note_opened(config, files.open(1_048_576, 2).unwrap());
    let wider = LoggingConfig { max_file_size_mib: 2, retained_archives: 1, ..config };

    let lost = RotatingWriter { open: false, ..RotatingWriter::opened(0, 1_048_576, 2) };
    let run = files.change_limits(lost, 2_097_152, 1);
    sink.settle_limits(wider, &run);
    assert_eq!(sink.applied_logging(), Some(config));

    let run = files.change_limits(run.writer, 2_097_152, 1);
    sink.settle_limits(wider, &run);
    assert_eq!(sink.applied_logging(), Some(wider));
}

#[test]
fn console_sink_is_not_disabled_by_file_logging_policy() {
    let mut sink = EventSink::console();
    let task = sink
        .begin_reconfigure(LoggingConfig {
            enabled: false,
            max_file_size_mib: 1,
            retained_archives: 0,
        })
        .unwrap();

    assert_eq!(task, SinkTask::Nothing);
    assert_eq!(sink.applied_logging(), None);
    assert!(matches!(sink, EventSink::Console));
    assert_eq!(sink.write_task(5), WriteTask::Print);
}

#[test]
fn enabling_and_changing_take_effect_once_done() {
    let mut files = Files::default();
    let config = LoggingConfig { enabled: true, max_file_size_mib: 1, retained_archives: 1 };
    let (mut sink, task) = EventSink::service(config).unwrap();
    assert_eq!(task, SinkTask::OpenWriter { max_bytes: 1_048_576, retained_archives: 1 });
    sink.note_opened(config, files.open(1_048_576, 1).unwrap());
    emit(&mut files, &mut sink, "first");
    assert_eq!(files.text(0), "first\n");

    let wider = LoggingConfig { max_file_size_mib: 2, ..config };
    assert_eq!(
        sink.begin_reconfigure(wider),
        Ok(SinkTask::ChangeLimits { max_bytes: 2_097_152, retained_archives: 1 })
    );
    assert_eq!(sink.applied_logging(), Some(config));
    assert_eq!(sink.begin_reconfigure(config), Ok(SinkTask::Nothing));
}

#[test]
fn settings_out_of_range_are_refused() {
    let config = LoggingConfig { enabled: true, max_file_size_mib: 0, retained_archives: 1 };
    assert_eq!(validate_config(&config), Err(LoggingConfigError::FileSize));
    assert_eq!(
        LoggingConfigError::FileSize.message(),
        "logging.max_file_size_mib is outside the supported range"
    );
    let config = LoggingConfig { enabled: true, max_file_size_mib: 1, retained_archives: u8::MAX };
    assert_eq!(validate_config(&config), Err(LoggingConfigError::RetainedArchives));
    assert_eq!(
        LoggingConfigError::RetainedArchives.message(),
        "logging.retained_archives is outside the supported range"
    );
    assert!(EventSink::service(config).is_err());
}

#[test]
fn lasting_failures_are_reported_once() {
    let mut errors = RepeatedErrors { last: None };
    assert_eq!(errors.note("log: ", Some("full".to_owned())), Some("log: full".to_owned()));
    assert_eq!(errors.note("log: ", Some("full".to_owned())), None);
    assert_eq!(errors.note("log: ", None), None);
    assert_eq!(errors.note("log: ", Some("full".to_owned())), Some("log: full".to_owned()));
}

#[test]
fn failures_of_rotating_and_reopening_are_told_together() {
    let told = |rotation: Option<&str>, reopened: Reopened| {
        let mut writer = RotatingWriter::opened(9, 100, 2);
        let error = writer.note_rotation(rotation, &reopened);
        (error, writer.open, writer.current_bytes)
    };
    assert_eq!(told(None, Reopened::Open(3)), (None, true, 3));
    assert_eq!(told(Some("a"), Reopened::Open(3)), (Some("a".to_owned()), true, 3));
    assert_eq!(told(None, Reopened::Closed("b".to_owned())), (Some("b".to_owned()), false, 9));
    assert_eq!(
        told(Some("a"), Reopened::Unmeasured("b".to_owned())),
        (Some("b".to_owned()), false, 9)
    );
    assert_eq!(
        told(Some("a"), Reopened::Closed("b".to_owned())),
        (
            Some("log rotation failed: a; reopening active log failed: b".to_owned()),
            false,
            9
        )
    );
}

#[test]
fn records_end_in_one_newline() {
    assert_eq!(frame_record("ä{}"), "ä{}\n".as_bytes());
}
