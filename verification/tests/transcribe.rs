use power_pizza_bot::config::ImportConfig;
use power_pizza_bot::transcript::data::{Segment, SegmentAlt, Transcript, TranscriptAlt};
use power_pizza_bot::transcript::error::JobManagerError;
use power_pizza_bot::transcript::transcribe::{
    form_fields, TranscribeEvent, TranscribeJob, TranscribeStep, BACKOFF_SECS, FILE_FIELD,
};

fn config() -> ImportConfig {
    ImportConfig {
        show_id: 1,
        download_dir: "dl".to_string(),
        wav_dir: "wav".to_string(),
        transcript_dir: "tr".to_string(),
        transcriber_url: "http://host/inference".to_string(),
    }
}

fn raw() -> TranscriptAlt {
    TranscriptAlt {
        segments: vec![
            SegmentAlt { start: 0, end: 5000, text: "a".to_string() },
            SegmentAlt { start: 5000, end: 10000, text: "b".to_string() },
        ],
    }
}

fn bad_json() -> JobManagerError {
    JobManagerError::Serde(serde_json::from_str::<serde_json::Value>("{").unwrap_err())
}

#[test]
fn the_request_asks_for_deterministic_decoding_and_verbose_json() {
    let fields = form_fields();
    let expected: Vec<(String, String)> = vec![
        ("temperature".to_string(), "0.0".to_string()),
        ("temperature_inc".to_string(), "0.0".to_string()),
        ("response_format".to_string(), "verbose_json".to_string()),
    ];
    assert_eq!(fields, expected);
    assert_eq!(FILE_FIELD, "file");
    assert_eq!(BACKOFF_SECS, 5);
}

#[test]
fn a_transcription_sends_the_normalized_audio_to_the_service() {
    let mut job = TranscribeJob::new(8, &config());
    assert_eq!(job.id(), 8);
    assert_eq!(job.attempts(), 0);
    match job.advance(TranscribeEvent::Begin) {
        TranscribeStep::Send { url, audio, fields } => {
            assert_eq!(url, "http://host/inference");
            assert_eq!(audio, "wav/8.wav");
            assert_eq!(fields, form_fields());
        }
        other => panic!("unexpected step {:?}", other),
    }
    assert_eq!(job.attempts(), 1);
}

#[test]
fn two_failed_sends_then_success_take_three_attempts_and_two_pauses() {
    let mut job = TranscribeJob::new(8, &config());
    let mut sends = 0;
    let mut pauses = vec![];
    let events = vec![
        TranscribeEvent::Begin,
        TranscribeEvent::SendFailed,
        TranscribeEvent::Resume,
        TranscribeEvent::SendFailed,
        TranscribeEvent::Resume,
        TranscribeEvent::Answer(Ok(raw())),
    ];
    let mut last = None;
    for event in events {
        let step = job.advance(event);
        match &step {
            TranscribeStep::Send { .. } => sends += 1,
            TranscribeStep::Backoff(secs) => pauses.push(*secs),
            _ => {}
        }
        last = Some(step);
    }
    assert_eq!(sends, 3);
    assert_eq!(job.attempts(), 3);
    assert_eq!(pauses, vec![5, 5]);
    match last {
        Some(TranscribeStep::Cache(path)) => assert_eq!(path, "tr/8.json"),
        other => panic!("unexpected step {:?}", other),
    }
    assert_eq!(job.pending(), Some(&raw()));
    match job.advance(TranscribeEvent::Cached(Ok(()))) {
        TranscribeStep::Done(Ok((id, transcript))) => {
            assert_eq!(id, 8);
            assert_eq!(transcript, Transcript::from_alt(&raw()));
        }
        other => panic!("unexpected step {:?}", other),
    }
    assert!(job.is_ended());
    assert_eq!(job.attempts(), 3);
    assert_eq!(job.pending(), None);
}

#[test]
fn a_send_is_retried_as_often_as_it_fails() {
    let mut job = TranscribeJob::new(1, &config());
    job.advance(TranscribeEvent::Begin);
    for round in 0..100u64 {
        assert!(matches!(job.advance(TranscribeEvent::SendFailed), TranscribeStep::Backoff(5)));
        assert!(matches!(job.advance(TranscribeEvent::Resume), TranscribeStep::Send { .. }));
        assert_eq!(job.attempts(), round + 2);
    }
    assert!(!job.is_ended());
}

#[test]
fn an_answer_that_cannot_be_read_is_fatal() {
    let mut job = TranscribeJob::new(1, &config());
    job.advance(TranscribeEvent::Begin);
    let step = job.advance(TranscribeEvent::Answer(Err(bad_json())));
    assert!(matches!(step, TranscribeStep::Done(Err(JobManagerError::Serde(_)))));
    assert!(job.is_ended());
    assert_eq!(job.attempts(), 1);
    assert!(matches!(job.advance(TranscribeEvent::Resume), TranscribeStep::Ignored));
}

#[test]
fn audio_that_cannot_be_read_is_fatal() {
    let mut job = TranscribeJob::new(1, &config());
    job.advance(TranscribeEvent::Begin);
    let error = JobManagerError::Io(std::io::Error::new(std::io::ErrorKind::NotFound, "no wav"));
    let step = job.advance(TranscribeEvent::Unreadable(error));
    assert!(matches!(step, TranscribeStep::Done(Err(JobManagerError::Io(_)))));
    assert!(job.is_ended());
}

#[test]
fn a_cache_that_cannot_be_written_fails_the_transcription() {
    let mut job = TranscribeJob::new(1, &config());
    job.advance(TranscribeEvent::Begin);
    job.advance(TranscribeEvent::Answer(Ok(raw())));
    let error = JobManagerError::Io(std::io::Error::new(std::io::ErrorKind::Other, "read only"));
    let step = job.advance(TranscribeEvent::Cached(Err(error)));
    assert!(matches!(step, TranscribeStep::Done(Err(JobManagerError::Io(_)))));
    assert!(job.is_ended());
}

#[test]
fn events_out_of_turn_change_nothing() {
    let mut job = TranscribeJob::new(1, &config());
    assert!(matches!(job.advance(TranscribeEvent::Resume), TranscribeStep::Ignored));
    assert!(matches!(job.advance(TranscribeEvent::SendFailed), TranscribeStep::Ignored));
    assert_eq!(job.attempts(), 0);
    job.advance(TranscribeEvent::Begin);
    assert!(matches!(job.advance(TranscribeEvent::Resume), TranscribeStep::Ignored));
    assert!(matches!(job.advance(TranscribeEvent::Cached(Ok(()))), TranscribeStep::Ignored));
    assert_eq!(job.attempts(), 1);
    job.advance(TranscribeEvent::SendFailed);
    assert!(matches!(job.advance(TranscribeEvent::Answer(Ok(raw()))), TranscribeStep::Ignored));
    assert!(matches!(job.advance(TranscribeEvent::Resume), TranscribeStep::Send { .. }));
}

#[test]
fn a_raw_transcript_converts_segment_for_segment() {
    let transcript = Transcript::from_alt(&raw());
    assert_eq!(transcript.len(), 2);
    assert_eq!(
        transcript.segments,
        vec![
            Segment { from: 0, to: 5000, text: "a".to_string() },
            Segment { from: 5000, to: 10000, text: "b".to_string() },
        ]
    );
    assert_eq!(Transcript::from_alt(&raw()), transcript);
}

#[test]
fn seconds_with_fractions_keep_their_milliseconds() {
    let seconds = [(0.0f64, 5.0f64), (5.0, 10.0), (10.0, 12.345)];
    let raw = TranscriptAlt {
        segments: seconds
            .iter()
            .map(|(start, end)| SegmentAlt {
                start: (start * 1000.0).round() as u64,
                end: (end * 1000.0).round() as u64,
                text: "x".to_string(),
            })
            .collect(),
    };
    let transcript = Transcript::from_alt(&raw);
    let times: Vec<(u64, u64)> = transcript.segments.iter().map(|s| (s.from, s.to)).collect();
    assert_eq!(times, vec![(0, 5000), (5000, 10000), (10000, 12345)]);
}

#[test]
fn an_empty_answer_gives_an_empty_transcript() {
    let transcript = Transcript::from_alt(&TranscriptAlt { segments: vec![] });
    assert_eq!(transcript.len(), 0);
    assert_eq!(transcript, Transcript::new());
}
