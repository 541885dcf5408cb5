use power_pizza_bot::transcript::data::{EpisodeTranscript, Segment, Transcript};
use power_pizza_bot::transcript::error::JobManagerError;
use power_pizza_bot::transcript::jobs::{
    JobManager, RunPhase, Stage, Task, WaitStep, MAX_CONVERT_JOBS, MAX_DOWNLOAD_JOBS,
    MAX_INSERT_DB_JOBS, MAX_TRANSCRIBE_JOBS,
};

fn transcript_for(id: u32) -> Transcript {
    Transcript {
        segments: vec![Segment { from: 0, to: 1000 * id as u64, text: format!("episode {}", id) }],
    }
}

/// What a whole run did: the order in which operations began, the records
/// that reached the insertions, and how the run ended.
struct Run {
    began: Vec<(Stage, u32)>,
    inserted: Vec<EpisodeTranscript>,
    peak: [usize; 4],
    result: Result<(), JobManagerError>,
}

fn place(stage: Stage) -> usize {
    match stage {
        Stage::Download => 0,
        Stage::Transcribe => 1,
        Stage::Convert => 2,
        Stage::Insert => 3,
    }
}

/// Drives a manager to the end. Every operation that was started is finished
/// at once, in the order it began; `fails` names the operations that fail.
fn drive(manager: &mut JobManager, fails: &[(Stage, u32)]) -> Run {
    let mut run = Run { began: vec![], inserted: vec![], peak: [0; 4], result: Ok(()) };
    loop {
        let mut started: Vec<Task> = vec![];
        while let Some(task) = manager.start_next() {
            started.push(task);
        }
        for stage in [Stage::Download, Stage::Transcribe, Stage::Convert, Stage::Insert] {
            let running = manager.running(stage);
            if running > run.peak[place(stage)] {
                run.peak[place(stage)] = running;
            }
        }
        for task in started {
            match task {
                Task::Download(index, id) => {
                    run.began.push((Stage::Download, id));
                    let outcome = if fails.contains(&(Stage::Download, id)) {
                        Err(JobManagerError::Process(id, 1))
                    } else {
                        Ok(())
                    };
                    assert!(manager.complete_download(index, outcome));
                }
                Task::Transcribe(index, id) => {
                    run.began.push((Stage::Transcribe, id));
                    let outcome = if fails.contains(&(Stage::Transcribe, id)) {
                        Err(JobManagerError::Mutex)
                    } else {
                        Ok(transcript_for(id))
                    };
                    assert!(manager.complete_transcribe(index, outcome));
                }
                Task::Insert(index, record) => {
                    run.began.push((Stage::Insert, record.episode_id));
                    let outcome = if fails.contains(&(Stage::Insert, record.episode_id)) {
                        Err(JobManagerError::NotFound(record.episode_id))
                    } else {
                        Ok(())
                    };
                    run.inserted.push(record);
                    assert!(manager.complete_insert(index, outcome));
                }
            }
        }
        match manager.wait() {
            WaitStep::Pending => {}
            WaitStep::Done(result) => {
                run.result = result;
                return run;
            }
            WaitStep::Over => panic!("the run had ended before"),
        }
    }
}

#[test]
fn stage_limits_are_the_configured_ones() {
    assert_eq!(MAX_DOWNLOAD_JOBS, 4);
    assert_eq!(MAX_TRANSCRIBE_JOBS, 1);
    assert_eq!(MAX_CONVERT_JOBS, 4);
    assert_eq!(MAX_INSERT_DB_JOBS, 4);
}

#[test]
fn empty_run_succeeds_at_once() {
    let mut manager = JobManager::new();
    assert_eq!(manager.phase(), RunPhase::Accepting);
    assert!(manager.start_next().is_none());
    assert!(matches!(manager.wait(), WaitStep::Done(Ok(()))));
    assert_eq!(manager.phase(), RunPhase::Succeeded);
    assert!(matches!(manager.wait(), WaitStep::Over));
}

#[test]
fn every_episode_is_inserted_exactly_once_when_all_succeeds() {
    let ids: Vec<u32> = vec![3, 1, 4, 15, 9, 2, 6];
    let mut manager = JobManager::new();
    for id in &ids {
        assert!(manager.run_download(*id));
    }
    let run = drive(&mut manager, &[]);
    assert!(run.result.is_ok());
    assert_eq!(manager.phase(), RunPhase::Succeeded);
    let inserted: Vec<u32> = run.inserted.iter().map(|r| r.episode_id).collect();
    assert_eq!(inserted, ids);
    for record in &run.inserted {
        assert_eq!(record.transcript, transcript_for(record.episode_id));
    }
    for stage in [Stage::Download, Stage::Transcribe, Stage::Convert, Stage::Insert] {
        assert_eq!(manager.jobs(stage), ids.len());
        assert_eq!(manager.running(stage), 0);
    }
}

#[test]
fn no_stage_runs_more_operations_than_it_has_permits() {
    let mut manager = JobManager::new();
    for id in 0..20 {
        manager.run_download(id);
    }
    let run = drive(&mut manager, &[]);
    assert!(run.result.is_ok());
    assert_eq!(run.peak[0], 4);
    assert_eq!(run.peak[1], 1);
    assert!(run.peak[2] <= 4);
    assert_eq!(run.peak[3], 4);
}

#[test]
fn only_four_downloads_start_until_one_ends() {
    let mut manager = JobManager::new();
    for id in 10..20 {
        manager.run_download(id);
    }
    let mut started = vec![];
    while let Some(task) = manager.start_next() {
        started.push(task);
    }
    assert_eq!(started.len(), 4);
    assert_eq!(manager.running(Stage::Download), 4);
    assert!(matches!(started[0], Task::Download(0, 10)));
    assert!(matches!(started[3], Task::Download(3, 13)));
    assert!(manager.start_next().is_none());
    assert!(manager.complete_download(2, Ok(())));
    assert_eq!(manager.running(Stage::Download), 3);
    assert!(matches!(manager.start_next(), Some(Task::Download(4, 14))));
    assert!(manager.start_next().is_none());
}

#[test]
fn transcriptions_run_one_at_a_time() {
    let mut manager = JobManager::new();
    for id in 0..3 {
        manager.run_download(id);
    }
    while let Some(task) = manager.start_next() {
        if let Task::Download(index, _) = task {
            manager.complete_download(index, Ok(()));
        }
    }
    assert!(matches!(manager.wait(), WaitStep::Pending));
    assert_eq!(manager.stage(), Stage::Transcribe);
    assert!(matches!(manager.start_next(), Some(Task::Transcribe(0, 0))));
    assert!(manager.start_next().is_none());
    assert_eq!(manager.running(Stage::Transcribe), 1);
    assert!(manager.complete_transcribe(0, Ok(transcript_for(0))));
    assert!(matches!(manager.start_next(), Some(Task::Transcribe(1, 1))));
    assert!(manager.start_next().is_none());
}

#[test]
fn no_later_stage_begins_before_the_stage_before_it_is_drained() {
    let mut manager = JobManager::new();
    for id in 0..6 {
        manager.run_download(id);
    }
    let run = drive(&mut manager, &[]);
    let last_download = run.began.iter().rposition(|(s, _)| *s == Stage::Download).unwrap();
    let first_transcribe = run.began.iter().position(|(s, _)| *s == Stage::Transcribe).unwrap();
    let last_transcribe = run.began.iter().rposition(|(s, _)| *s == Stage::Transcribe).unwrap();
    let first_insert = run.began.iter().position(|(s, _)| *s == Stage::Insert).unwrap();
    assert!(last_download < first_transcribe);
    assert!(last_transcribe < first_insert);
}

#[test]
fn a_finished_download_does_not_open_the_transcriptions_while_another_runs() {
    let mut manager = JobManager::new();
    manager.run_download(1);
    manager.run_download(2);
    assert!(matches!(manager.start_next(), Some(Task::Download(0, 1))));
    assert!(matches!(manager.start_next(), Some(Task::Download(1, 2))));
    assert!(manager.complete_download(0, Ok(())));
    assert!(matches!(manager.wait(), WaitStep::Pending));
    assert_eq!(manager.stage(), Stage::Download);
    assert_eq!(manager.jobs(Stage::Transcribe), 1);
    assert!(manager.start_next().is_none());
    assert!(manager.complete_download(1, Ok(())));
    assert!(matches!(manager.wait(), WaitStep::Pending));
    assert_eq!(manager.stage(), Stage::Transcribe);
    assert!(matches!(manager.start_next(), Some(Task::Transcribe(0, 1))));
}

#[test]
fn results_are_drained_in_the_order_of_the_handles() {
    let mut manager = JobManager::new();
    manager.run_download(1);
    manager.run_download(2);
    manager.start_next();
    manager.start_next();
    assert!(manager.complete_download(1, Err(JobManagerError::NotFound(2))));
    assert!(matches!(manager.wait(), WaitStep::Pending));
    assert_eq!(manager.phase(), RunPhase::Draining);
    assert!(manager.complete_download(0, Ok(())));
    assert!(matches!(manager.wait(), WaitStep::Done(Err(JobManagerError::NotFound(2)))));
    assert_eq!(manager.phase(), RunPhase::Failed);
    assert_eq!(manager.jobs(Stage::Transcribe), 1);
}

#[test]
fn the_first_failure_ends_the_run() {
    let mut manager = JobManager::new();
    for id in [5, 6, 7, 8] {
        manager.run_download(id);
    }
    let run = drive(&mut manager, &[(Stage::Download, 7), (Stage::Download, 8)]);
    assert!(matches!(run.result, Err(JobManagerError::Process(7, 1))));
    assert_eq!(manager.phase(), RunPhase::Failed);
    assert_eq!(manager.jobs(Stage::Transcribe), 2);
    assert!(run.inserted.is_empty());
    assert!(run.began.iter().all(|(s, _)| *s == Stage::Download));
    assert!(manager.start_next().is_none());
    assert!(matches!(manager.wait(), WaitStep::Over));
}

#[test]
fn a_failed_transcription_keeps_every_record_from_the_insertions() {
    let mut manager = JobManager::new();
    for id in [1, 2, 3] {
        manager.run_download(id);
    }
    let run = drive(&mut manager, &[(Stage::Transcribe, 2)]);
    assert!(matches!(run.result, Err(JobManagerError::Mutex)));
    assert_eq!(manager.jobs(Stage::Convert), 1);
    assert_eq!(manager.jobs(Stage::Insert), 0);
    assert!(run.inserted.is_empty());
}

#[test]
fn a_failed_insertion_fails_the_run_with_the_datastore_error() {
    let mut manager = JobManager::new();
    for id in [1, 2, 3] {
        manager.run_download(id);
    }
    let run = drive(&mut manager, &[(Stage::Insert, 2)]);
    assert!(matches!(run.result, Err(JobManagerError::NotFound(2))));
    assert_eq!(run.inserted.len(), 3);
}

#[test]
fn a_run_that_is_drained_takes_no_more_episodes() {
    let mut manager = JobManager::new();
    assert!(manager.run_download(1));
    assert!(matches!(manager.wait(), WaitStep::Pending));
    assert!(!manager.run_download(2));
    assert!(!manager.run_transcribe(3));
    assert!(!manager.run_convert(4, transcript_for(4)));
    assert_eq!(manager.jobs(Stage::Download), 1);
    assert_eq!(manager.jobs(Stage::Transcribe), 0);
    assert_eq!(manager.jobs(Stage::Convert), 0);
}

#[test]
fn transcriptions_and_conversions_from_outside_join_their_stage() {
    let mut manager = JobManager::new();
    assert!(manager.run_convert(30, transcript_for(30)));
    assert!(manager.run_transcribe(20));
    assert!(manager.run_download(10));
    let run = drive(&mut manager, &[]);
    assert!(run.result.is_ok());
    let inserted: Vec<u32> = run.inserted.iter().map(|r| r.episode_id).collect();
    assert_eq!(inserted, vec![30, 20, 10]);
    assert_eq!(
        run.began,
        vec![
            (Stage::Download, 10),
            (Stage::Transcribe, 20),
            (Stage::Transcribe, 10),
            (Stage::Insert, 30),
            (Stage::Insert, 20),
            (Stage::Insert, 10),
        ]
    );
}

#[test]
fn a_result_for_a_handle_that_does_not_run_changes_nothing() {
    let mut manager = JobManager::new();
    manager.run_download(1);
    assert!(!manager.complete_download(0, Ok(())));
    assert!(!manager.complete_download(7, Ok(())));
    assert!(!manager.complete_transcribe(0, Ok(transcript_for(1))));
    assert!(!manager.complete_insert(0, Ok(())));
    assert!(matches!(manager.start_next(), Some(Task::Download(0, 1))));
    assert!(manager.complete_download(0, Ok(())));
    assert!(!manager.complete_download(0, Ok(())));
}

#[test]
fn the_record_of_a_conversion_holds_the_episode_and_its_transcript() {
    let record = EpisodeTranscript::new(12, transcript_for(12));
    assert_eq!(record.episode_id, 12);
    assert_eq!(record.transcript, transcript_for(12));
    let converted: EpisodeTranscript = (12, transcript_for(12)).into();
    assert_eq!(converted, record);
}
