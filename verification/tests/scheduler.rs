use euphony::commands::transcode::batch::{
    process_file_packets_in_threadpool, transcode_thread_count, Batch, ZeroTranscodeThreads,
};
use euphony::commands::transcode::packets::file::FileProcessingError;
use euphony::commands::transcode::run::{
    AlbumReport, RunAction, RunEvent, RunOutcome, TranscodeRun,
};
use euphony::configuration::base::aggregated_library::AggregatedLibraryConfiguration;
use euphony::configuration::base::logging::LoggingConfiguration;
use euphony::configuration::base::paths::PathsConfiguration;
use euphony::configuration::base::tools::{FfmpegToolsConfiguration, ToolsConfiguration};
use euphony::configuration::base::ui::{TranscodingUiConfiguration, UiConfiguration};
use euphony::configuration::base::validation::ValidationConfiguration;
use euphony::configuration::base::Configuration;

fn configuration(transcode_threads: usize) -> Configuration {
    Configuration {
        configuration_file_path: String::new(),
        paths: PathsConfiguration {
            base_library_path: String::new(),
            base_tools_path: String::new(),
        },
        logging: LoggingConfiguration { log_output_path: None },
        ui: UiConfiguration {
            transcoding: TranscodingUiConfiguration { show_logs_tab_on_exit: false },
        },
        validation: ValidationConfiguration { extensions_considered_audio_files: vec![] },
        tools: ToolsConfiguration {
            ffmpeg: FfmpegToolsConfiguration {
                binary_path: String::new(),
                audio_transcoding_args: vec![],
                audio_transcoding_output_extension: String::new(),
            },
        },
        libraries: vec![],
        aggregated_library: AggregatedLibraryConfiguration {
            path: String::new(),
            transcode_threads,
            failure_max_retries: 0,
            failure_delay_seconds: 0,
        },
    }
}

fn io_error(message: &str) -> FileProcessingError {
    FileProcessingError::IOError { message: message.to_string() }
}

#[test]
fn zero_worker_threads_are_refused() {
    assert_eq!(transcode_thread_count(&configuration(0)), Err(ZeroTranscodeThreads));
    assert_eq!(transcode_thread_count(&configuration(1)), Ok(1));
    assert_eq!(transcode_thread_count(&configuration(8)), Ok(8));
}

#[test]
fn all_failures_of_a_batch_are_collected_in_order() {
    assert_eq!(process_file_packets_in_threadpool(&vec![]), Ok(()));
    assert_eq!(process_file_packets_in_threadpool(&vec![Ok(()), Ok(())]), Ok(()));
    let tool = FileProcessingError::ToolInvocationError { exit_code: Some(2), output_exists: false };
    assert_eq!(
        process_file_packets_in_threadpool(&vec![
            Err(io_error("first")),
            Ok(()),
            Err(tool.clone()),
            Err(io_error("last")),
        ]),
        Err(vec![io_error("first"), tool, io_error("last")])
    );
}

#[test]
fn a_batch_is_over_once_every_job_has_reported() {
    let mut batch = Batch::new(3);
    assert!(!batch.is_complete());
    assert_eq!(batch.outcome(), None);
    assert_eq!(batch.finished(), None);
    assert!(batch.report(Ok(())));
    assert!(batch.report(Err(io_error("b"))));
    assert!(!batch.is_complete());
    assert_eq!(batch.outcome(), None);
    assert!(batch.report(Ok(())));
    assert!(batch.is_complete());
    assert_eq!(batch.outcome(), Some(Err(vec![io_error("b")])));
    assert_eq!(batch.finished(), Some(RunEvent::BatchFinished { dispatched: 3, failed: 1 }));
    assert!(!batch.report(Ok(())));
    assert_eq!(batch.finished(), Some(RunEvent::BatchFinished { dispatched: 3, failed: 1 }));

    let empty = Batch::new(0);
    assert!(empty.is_complete());
    assert_eq!(empty.outcome(), Some(Ok(())));
    assert_eq!(empty.finished(), Some(RunEvent::BatchFinished { dispatched: 0, failed: 0 }));
}

#[test]
fn a_run_without_albums_has_nothing_to_do() {
    let run = TranscodeRun::new(0);
    assert_eq!(run.action(), RunAction::Finish { outcome: RunOutcome::NothingToDo });
    assert_eq!(TranscodeRun::exit_code(RunOutcome::NothingToDo), 0);
}

#[test]
fn a_successful_run_saves_each_album_in_turn() {
    let mut run = TranscodeRun::new(2);
    assert_eq!(run.action(), RunAction::ProcessAlbum { album: 0 });
    assert_eq!(
        run.handle(RunEvent::BatchFinished { dispatched: 5, failed: 0 }),
        RunAction::SaveFreshMeta { album: 0 }
    );
    assert_eq!(run.handle(RunEvent::MetaSaved { ok: true }), RunAction::ProcessAlbum { album: 1 });
    assert_eq!(
        run.handle(RunEvent::BatchFinished { dispatched: 1, failed: 0 }),
        RunAction::SaveFreshMeta { album: 1 }
    );
    assert_eq!(
        run.handle(RunEvent::MetaSaved { ok: true }),
        RunAction::Finish { outcome: RunOutcome::Completed }
    );
    assert_eq!(TranscodeRun::exit_code(RunOutcome::Completed), 0);
}

#[test]
fn an_empty_batch_saves_nothing_and_is_up_to_date() {
    assert_eq!(TranscodeRun::judge_batch(0, 0), AlbumReport::AlreadyUpToDate);
    let mut run = TranscodeRun::new(2);
    assert_eq!(
        run.handle(RunEvent::BatchFinished { dispatched: 0, failed: 0 }),
        RunAction::ProcessAlbum { album: 1 }
    );
    assert_eq!(
        run.handle(RunEvent::BatchFinished { dispatched: 0, failed: 0 }),
        RunAction::Finish { outcome: RunOutcome::Completed }
    );
}

#[test]
fn a_failed_batch_ends_the_run_without_saving() {
    assert_eq!(TranscodeRun::judge_batch(4, 1), AlbumReport::Failed);
    assert_eq!(TranscodeRun::judge_batch(4, 0), AlbumReport::Processed);
    let mut run = TranscodeRun::new(3);
    run.handle(RunEvent::BatchFinished { dispatched: 2, failed: 0 });
    run.handle(RunEvent::MetaSaved { ok: true });
    let failed = RunAction::Finish { outcome: RunOutcome::Failed { album: 1 } };
    assert_eq!(run.handle(RunEvent::BatchFinished { dispatched: 4, failed: 1 }), failed);
    assert_eq!(run.handle(RunEvent::MetaSaved { ok: true }), failed);
    assert_eq!(run.handle(RunEvent::BatchFinished { dispatched: 4, failed: 0 }), failed);
    assert_eq!(run.action(), failed);
    assert_eq!(TranscodeRun::exit_code(RunOutcome::Failed { album: 1 }), 1);
}

#[test]
fn a_snapshot_that_cannot_be_saved_ends_the_run() {
    let mut run = TranscodeRun::new(2);
    run.handle(RunEvent::BatchFinished { dispatched: 2, failed: 0 });
    assert_eq!(
        run.handle(RunEvent::MetaSaved { ok: false }),
        RunAction::Finish { outcome: RunOutcome::Failed { album: 0 } }
    );
}

#[test]
fn events_out_of_turn_change_nothing() {
    let mut run = TranscodeRun::new(1);
    assert_eq!(run.handle(RunEvent::MetaSaved { ok: true }), RunAction::ProcessAlbum { album: 0 });
    run.handle(RunEvent::BatchFinished { dispatched: 1, failed: 0 });
    assert_eq!(
        run.handle(RunEvent::BatchFinished { dispatched: 1, failed: 1 }),
        RunAction::SaveFreshMeta { album: 0 }
    );
}

#[test]
fn a_stop_request_waits_for_the_current_album() {
    let mut run = TranscodeRun::new(3);
    assert_eq!(run.handle(RunEvent::StopRequested), RunAction::ProcessAlbum { album: 0 });
    assert_eq!(
        run.handle(RunEvent::BatchFinished { dispatched: 2, failed: 0 }),
        RunAction::SaveFreshMeta { album: 0 }
    );
    assert_eq!(
        run.handle(RunEvent::MetaSaved { ok: true }),
        RunAction::Finish { outcome: RunOutcome::Stopped { album: 1 } }
    );
    assert_eq!(TranscodeRun::exit_code(RunOutcome::Stopped { album: 1 }), 1);

    let mut last = TranscodeRun::new(1);
    last.handle(RunEvent::BatchFinished { dispatched: 2, failed: 0 });
    last.handle(RunEvent::StopRequested);
    assert_eq!(
        last.handle(RunEvent::MetaSaved { ok: true }),
        RunAction::Finish { outcome: RunOutcome::Completed }
    );

    let mut empty = TranscodeRun::new(2);
    empty.handle(RunEvent::StopRequested);
    assert_eq!(
        empty.handle(RunEvent::BatchFinished { dispatched: 0, failed: 0 }),
        RunAction::Finish { outcome: RunOutcome::Stopped { album: 1 } }
    );
}
