//! The transcription of one episode: send its audio to the service until the
//! request gets through, read the answer, and cache the transcript.
//!
//! The job decides; its caller does the outside work. Each call of
//! [`TranscribeJob::advance`] takes what the last piece of work gave and
//! answers with the next piece of work.

use crate::config::ImportConfig;
use crate::transcript::data::{SegmentView, Transcript, TranscriptAlt};
use crate::transcript::error::JobManagerError;
use vstd::prelude::*;
use vstd::string::*;

verus! {

/// The pause, in seconds, between a failed request and the next one.
pub const BACKOFF_SECS: u64 = 5;

/// The name of the form field that carries the audio file.
pub const FILE_FIELD: &'static str = "file";

/// The text fields of the request, as pairs of name and value: decoding is
/// deterministic, and the answer has the verbose JSON shape.
pub open spec fn form_fields_spec() -> Seq<(Seq<char>, Seq<char>)> {
    seq![
        ("temperature"@, "0.0"@),
        ("temperature_inc"@, "0.0"@),
        ("response_format"@, "verbose_json"@),
    ]
}

/// The text fields that every request to the service carries.
pub fn form_fields() -> (fields: Vec<(String, String)>)
    ensures
        fields@.map_values(|f: (String, String)| (f.0@, f.1@)) == form_fields_spec(),
{
    let mut fields: Vec<(String, String)> = Vec::new();
    fields.push((String::from_str("temperature"), String::from_str("0.0")));
    fields.push((String::from_str("temperature_inc"), String::from_str("0.0")));
    fields.push((String::from_str("response_format"), String::from_str("verbose_json")));
    assert(fields@.map_values(|f: (String, String)| (f.0@, f.1@)) =~= form_fields_spec());
    fields
}

/// What the outside work gave.
#[derive(Debug)]
pub enum TranscribeEvent {
    /// The stage granted the job its permit.
    Begin,
    /// The audio file could not be read into the request.
    Unreadable(JobManagerError),
    /// The request could not be sent, or no response came.
    SendFailed,
    /// The pause after a failed request is over.
    Resume,
    /// A response came: the raw transcript read from it, or the error of
    /// reading it.
    Answer(Result<TranscriptAlt, JobManagerError>),
    /// The raw transcript was written to the cache, or writing failed.
    Cached(Result<(), JobManagerError>),
}

/// The work to do next.
#[derive(Debug)]
pub enum TranscribeStep {
    /// Post the audio file at `audio` to `url`, with `fields` as text fields.
    Send { url: String, audio: String, fields: Vec<(String, String)> },
    /// Wait this many seconds.
    Backoff(u64),
    /// Write the raw transcript that the job holds to this path.
    Cache(String),
    /// The transcription is over, with this result.
    Done(Result<(u32, Transcript), JobManagerError>),
    /// The event does not belong to the work in progress: nothing changes.
    Ignored,
}

/// [`TranscribeStep`] as a mathematical value.
pub enum TranscribeStepView {
    Send { url: Seq<char>, audio: Seq<char>, fields: Seq<(Seq<char>, Seq<char>)> },
    Backoff(u64),
    Cache(Seq<char>),
    Done(Result<(u32, Seq<SegmentView>), JobManagerError>),
    Ignored,
}

impl View for TranscribeStep {
    type V = TranscribeStepView;

    open spec fn view(&self) -> TranscribeStepView {
        match self {
            TranscribeStep::Send { url, audio, fields } => TranscribeStepView::Send {
                url: url@,
                audio: audio@,
                fields: fields@.map_values(|f: (String, String)| (f.0@, f.1@)),
            },
            TranscribeStep::Backoff(secs) => TranscribeStepView::Backoff(*secs),
            TranscribeStep::Cache(path) => TranscribeStepView::Cache(path@),
            TranscribeStep::Done(Ok((id, transcript))) => TranscribeStepView::Done(
                Ok((*id, transcript@)),
            ),
            TranscribeStep::Done(Err(e)) => TranscribeStepView::Done(Err(*e)),
            TranscribeStep::Ignored => TranscribeStepView::Ignored,
        }
    }
}

/// How far a transcription has come.
pub enum TranscribePhase {
    /// Made, and waiting for its permit.
    Created,
    /// A request is on its way.
    Sending,
    /// Pausing after a failed request.
    BackingOff,
    /// The raw transcript with these segments is being written to the cache.
    Caching(Seq<SegmentView>),
    /// Over: the result has been given.
    Ended,
}

/// A transcription as a mathematical value.
pub struct TranscribeModel {
    /// The episode to transcribe.
    pub id: u32,
    /// How far the transcription has come.
    pub phase: TranscribePhase,
    /// The service's address.
    pub url: Seq<char>,
    /// Where the normalized audio lies.
    pub audio: Seq<char>,
    /// Where the transcript is cached.
    pub cache: Seq<char>,
    /// How many requests have been sent.
    pub attempts: nat,
}

impl TranscribeModel {
    /// The same transcription in another phase.
    pub open spec fn at(self, phase: TranscribePhase) -> TranscribeModel {
        TranscribeModel { phase, ..self }
    }

    /// The transcription over, with `result`.
    pub open spec fn end(self, result: Result<(u32, Seq<SegmentView>), JobManagerError>) -> (
        TranscribeModel,
        TranscribeStepView,
    ) {
        (self.at(TranscribePhase::Ended), TranscribeStepView::Done(result))
    }

    /// One more request on its way. The count of requests stops at the
    /// largest number it can hold.
    pub open spec fn send(self) -> (TranscribeModel, TranscribeStepView) {
        (
            TranscribeModel {
                phase: TranscribePhase::Sending,
                attempts: if self.attempts < u64::MAX {
                    self.attempts + 1
                } else {
                    self.attempts
                },
                ..self
            },
            TranscribeStepView::Send {
                url: self.url,
                audio: self.audio,
                fields: form_fields_spec(),
            },
        )
    }

    /// What the transcription becomes on `event`, and the work it asks for.
    pub open spec fn next(self, event: TranscribeEvent) -> (TranscribeModel, TranscribeStepView) {
        match (self.phase, event) {
            (TranscribePhase::Created, TranscribeEvent::Begin) => self.send(),
            (TranscribePhase::Sending, TranscribeEvent::Unreadable(e)) => self.end(Err(e)),
            (TranscribePhase::Sending, TranscribeEvent::SendFailed) => (
                self.at(TranscribePhase::BackingOff),
                TranscribeStepView::Backoff(BACKOFF_SECS),
            ),
            (TranscribePhase::BackingOff, TranscribeEvent::Resume) => self.send(),
            (TranscribePhase::Sending, TranscribeEvent::Answer(Err(e))) => self.end(Err(e)),
            (TranscribePhase::Sending, TranscribeEvent::Answer(Ok(raw))) => (
                self.at(TranscribePhase::Caching(raw@)),
                TranscribeStepView::Cache(self.cache),
            ),
            (TranscribePhase::Caching(_), TranscribeEvent::Cached(Err(e))) => self.end(Err(e)),
            (TranscribePhase::Caching(segments), TranscribeEvent::Cached(Ok(_))) => self.end(
                Ok((self.id, segments)),
            ),
            _ => (self, TranscribeStepView::Ignored),
        }
    }

    /// The transcription after each of `events` in turn.
    pub open spec fn after(self, events: Seq<TranscribeEvent>) -> TranscribeModel
        decreases events.len(),
    {
        if events.len() == 0 {
            self
        } else {
            self.next(events[0]).0.after(events.drop_first())
        }
    }

    /// The work asked for on each of `events` in turn.
    pub open spec fn steps(self, events: Seq<TranscribeEvent>) -> Seq<TranscribeStepView>
        decreases events.len(),
    {
        if events.len() == 0 {
            Seq::empty()
        } else {
            seq![self.next(events[0]).1] + self.next(events[0]).0.steps(events.drop_first())
        }
    }
}

/// The state of a transcription, with the raw transcript while it is cached.
enum TranscribeState {
    Created,
    Sending,
    BackingOff,
    Caching(TranscriptAlt),
    Ended,
}

impl View for TranscribeState {
    type V = TranscribePhase;

    closed spec fn view(&self) -> TranscribePhase {
        match self {
            TranscribeState::Created => TranscribePhase::Created,
            TranscribeState::Sending => TranscribePhase::Sending,
            TranscribeState::BackingOff => TranscribePhase::BackingOff,
            TranscribeState::Caching(raw) => TranscribePhase::Caching(raw@),
            TranscribeState::Ended => TranscribePhase::Ended,
        }
    }
}

/// The transcription of one episode.
pub struct TranscribeJob {
    id: u32,
    state: TranscribeState,
    url: String,
    audio: String,
    cache: String,
    attempts: u64,
}

impl View for TranscribeJob {
    type V = TranscribeModel;

    closed spec fn view(&self) -> TranscribeModel {
        TranscribeModel {
            id: self.id,
            phase: self.state@,
            url: self.url@,
            audio: self.audio@,
            cache: self.cache@,
            attempts: self.attempts as nat,
        }
    }
}

impl TranscribeJob {
    /// A transcription of episode `id` with the service and the directories
    /// of `config`, not yet begun.
    pub fn new(id: u32, config: &ImportConfig) -> (job: TranscribeJob)
        ensures
            job@ == (TranscribeModel {
                id,
                phase: TranscribePhase::Created,
                url: config.transcriber_url@,
                audio: config.wav_file(id),
                cache: config.transcript_file(id),
                attempts: 0,
            }),
    {
        TranscribeJob {
            id,
            state: TranscribeState::Created,
            url: config.transcriber_url.clone(),
            audio: config.wav_path(id),
            cache: config.transcript_path(id),
            attempts: 0,
        }
    }

    /// The episode that is transcribed.
    pub fn id(&self) -> (id: u32)
        ensures
            id == self@.id,
    {
        self.id
    }

    /// How many requests have been sent.
    pub fn attempts(&self) -> (n: u64)
        ensures
            n == self@.attempts,
    {
        self.attempts
    }

    /// Whether the transcription is over.
    pub fn is_ended(&self) -> (ended: bool)
        ensures
            ended == (self@.phase is Ended),
    {
        match self.state {
            TranscribeState::Ended => true,
            _ => false,
        }
    }

    /// The raw transcript that is to be written to the cache, while that is
    /// the work in progress.
    pub fn pending(&self) -> (raw: Option<&TranscriptAlt>)
        ensures
            match raw {
                Some(t) => self@.phase == TranscribePhase::Caching(t@),
                None => !(self@.phase is Caching),
            },
    {
        match &self.state {
            TranscribeState::Caching(t) => Some(t),
            _ => None,
        }
    }

    /// Sends one more request.
    fn send(&mut self) -> (step: TranscribeStep)
        ensures
            (final(self)@, step@) == old(self)@.send(),
    {
        self.state = TranscribeState::Sending;
        if self.attempts < u64::MAX {
            self.attempts = self.attempts + 1;
        }
        TranscribeStep::Send {
            url: self.url.clone(),
            audio: self.audio.clone(),
            fields: form_fields(),
        }
    }

    /// Ends the transcription with an error.
    fn fail(&mut self, e: JobManagerError) -> (step: TranscribeStep)
        ensures
            (final(self)@, step@) == old(self)@.end(Err(e)),
    {
        self.state = TranscribeState::Ended;
        TranscribeStep::Done(Err(e))
    }

    /// Takes what the last piece of work gave and answers with the next.
    pub fn advance(&mut self, event: TranscribeEvent) -> (step: TranscribeStep)
        ensures
            (final(self)@, step@) == old(self)@.next(event),
    {
        let mut state = TranscribeState::Ended;
        std::mem::swap(&mut self.state, &mut state);
        match (state, event) {
            (TranscribeState::Created, TranscribeEvent::Begin) => self.send(),
            (TranscribeState::Sending, TranscribeEvent::Unreadable(e)) => self.fail(e),
            (TranscribeState::Sending, TranscribeEvent::SendFailed) => {
                self.state = TranscribeState::BackingOff;
                TranscribeStep::Backoff(BACKOFF_SECS)
            },
            (TranscribeState::BackingOff, TranscribeEvent::Resume) => self.send(),
            (TranscribeState::Sending, TranscribeEvent::Answer(Err(e))) => self.fail(e),
            (TranscribeState::Sending, TranscribeEvent::Answer(Ok(raw))) => {
                self.state = TranscribeState::Caching(raw);
                TranscribeStep::Cache(self.cache.clone())
            },
            (TranscribeState::Caching(_), TranscribeEvent::Cached(Err(e))) => self.fail(e),
            (TranscribeState::Caching(raw), TranscribeEvent::Cached(Ok(_))) => {
                TranscribeStep::Done(Ok((self.id, Transcript::from_alt(&raw))))
            },
            (state, _) => {
                self.state = state;
                TranscribeStep::Ignored
            },
        }
    }
}

/// `k` requests that fail, each followed by the end of its pause.
pub open spec fn failed_sends(k: nat) -> Seq<TranscribeEvent>
    decreases k,
{
    if k == 0 {
        Seq::empty()
    } else {
        seq![TranscribeEvent::SendFailed, TranscribeEvent::Resume] + failed_sends((k - 1) as nat)
    }
}

/// How many of `steps` are pauses.
pub open spec fn count_backoffs(steps: Seq<TranscribeStepView>) -> nat
    decreases steps.len(),
{
    if steps.len() == 0 {
        0
    } else {
        count_backoffs(steps.drop_last()) + if steps.last() is Backoff {
            1nat
        } else {
            0nat
        }
    }
}

/// How many of `steps` send a request.
pub open spec fn count_sends(steps: Seq<TranscribeStepView>) -> nat
    decreases steps.len(),
{
    if steps.len() == 0 {
        0
    } else {
        count_sends(steps.drop_last()) + if steps.last() is Send {
            1nat
        } else {
            0nat
        }
    }
}

proof fn lemma_counts_concat(a: Seq<TranscribeStepView>, b: Seq<TranscribeStepView>)
    ensures
        count_backoffs(a + b) == count_backoffs(a) + count_backoffs(b),
        count_sends(a + b) == count_sends(a) + count_sends(b),
    decreases b.len(),
{
    if b.len() == 0 {
        assert(a + b =~= a);
    } else {
        assert((a + b).drop_last() =~= a + b.drop_last());
        assert((a + b).last() == b.last());
        lemma_counts_concat(a, b.drop_last());
    }
}

/// Events in two parts: the job after the first part takes the second.
pub proof fn lemma_events_concat(
    job: TranscribeModel,
    first: Seq<TranscribeEvent>,
    second: Seq<TranscribeEvent>,
)
    ensures
        job.after(first + second) == job.after(first).after(second),
        job.steps(first + second) == job.steps(first) + job.after(first).steps(second),
    decreases first.len(),
{
    if first.len() == 0 {
        assert(first + second =~= second);
        assert(job.steps(first) + job.steps(second) =~= job.steps(second));
    } else {
        let all = first + second;
        assert(all[0] == first[0]);
        assert(all.drop_first() =~= first.drop_first() + second);
        let then = job.next(first[0]).0;
        lemma_events_concat(then, first.drop_first(), second);
        assert(seq![job.next(first[0]).1] + (then.steps(first.drop_first()) + then.after(
            first.drop_first(),
        ).steps(second)) =~= (seq![job.next(first[0]).1] + then.steps(first.drop_first()))
            + then.after(first.drop_first()).steps(second));
    }
}

/// One event alone: the job after it, and the one step it asks for.
pub proof fn lemma_one_event(job: TranscribeModel, event: TranscribeEvent)
    ensures
        job.after(seq![event]) == job.next(event).0,
        job.steps(seq![event]) == seq![job.next(event).1],
{
    let events = seq![event];
    let then = job.next(event).0;
    assert(events[0] == event);
    assert(events.drop_first() =~= Seq::<TranscribeEvent>::empty());
    assert(then.after(events.drop_first()) == then);
    assert(then.steps(events.drop_first()) =~= Seq::<TranscribeStepView>::empty());
    assert(job.steps(events) =~= seq![job.next(event).1]);
}

/// While requests fail, the job keeps sending: after `k` failures it has a
/// request on its way again, has sent `k` more requests, and has paused `k`
/// times, each time for the fixed pause.
pub proof fn lemma_retries_after_failures(job: TranscribeModel, k: nat)
    requires
        job.phase is Sending,
        job.attempts + k <= u64::MAX,
    ensures
        job.after(failed_sends(k)) == (TranscribeModel { attempts: job.attempts + k, ..job }),
        job.steps(failed_sends(k)).len() == 2 * k,
        count_backoffs(job.steps(failed_sends(k))) == k,
        count_sends(job.steps(failed_sends(k))) == k,
        forall|i: int|
            0 <= i < 2 * k ==> {
                let step = #[trigger] job.steps(failed_sends(k))[i];
                ||| step == TranscribeStepView::Backoff(BACKOFF_SECS)
                ||| step == (TranscribeStepView::Send {
                    url: job.url,
                    audio: job.audio,
                    fields: form_fields_spec(),
                })
            },
    decreases k,
{
    if k == 0 {
        assert(job.after(failed_sends(0)) == job);
    } else {
        let pair = seq![TranscribeEvent::SendFailed, TranscribeEvent::Resume];
        let rest = failed_sends((k - 1) as nat);
        let paused = job.at(TranscribePhase::BackingOff);
        let again = TranscribeModel { attempts: job.attempts + 1, ..job };
        let pause = TranscribeStepView::Backoff(BACKOFF_SECS);
        let send = TranscribeStepView::Send {
            url: job.url,
            audio: job.audio,
            fields: form_fields_spec(),
        };
        assert(job.next(TranscribeEvent::SendFailed) == (paused, pause));
        assert(paused.next(TranscribeEvent::Resume) == (again, send));
        lemma_one_event(job, TranscribeEvent::SendFailed);
        lemma_one_event(paused, TranscribeEvent::Resume);
        lemma_events_concat(job, seq![TranscribeEvent::SendFailed], seq![TranscribeEvent::Resume]);
        assert(pair =~= seq![TranscribeEvent::SendFailed] + seq![TranscribeEvent::Resume]);
        assert(job.steps(pair) =~= seq![pause, send]);
        assert(job.after(pair) == again);
        lemma_events_concat(job, pair, rest);
        lemma_retries_after_failures(again, (k - 1) as nat);
        lemma_counts_concat(job.steps(pair), again.steps(rest));
        assert(count_backoffs(seq![pause, send]) == 1) by {
            assert(seq![pause, send].drop_last() =~= seq![pause]);
            assert(seq![pause].drop_last() =~= Seq::<TranscribeStepView>::empty());
            reveal_with_fuel(count_backoffs, 3);
        }
        assert(count_sends(seq![pause, send]) == 1) by {
            assert(seq![pause, send].drop_last() =~= seq![pause]);
            assert(seq![pause].drop_last() =~= Seq::<TranscribeStepView>::empty());
            reveal_with_fuel(count_sends, 3);
        }
        let steps = job.steps(failed_sends(k));
        assert(steps == seq![pause, send] + again.steps(rest));
        assert forall|i: int| 0 <= i < 2 * k implies {
            let step = #[trigger] steps[i];
            ||| step == pause
            ||| step == send
        } by {
            if i >= 2 {
                assert(steps[i] == again.steps(rest)[i - 2]);
            }
        }
    }
}

/// A job whose request fails `k` times and then gets through succeeds: it
/// sends exactly `k + 1` requests, pauses exactly `k` times, and gives the
/// transcript of the answer under its own episode's id.
pub proof fn lemma_success_after_failures(job: TranscribeModel, k: nat, raw: TranscriptAlt)
    requires
        job.phase is Created,
        job.attempts == 0,
        k < u64::MAX,
    ensures
        ({
            let events = seq![TranscribeEvent::Begin] + failed_sends(k) + seq![
                TranscribeEvent::Answer(Ok(raw)),
                TranscribeEvent::Cached(Ok(())),
            ];
            let steps = job.steps(events);
            &&& job.after(events).phase is Ended
            &&& job.after(events).attempts == k + 1
            &&& steps.len() == 2 * k + 3
            &&& steps.last() == TranscribeStepView::Done(Ok((job.id, raw@)))
            &&& count_sends(steps) == k + 1
            &&& count_backoffs(steps) == k
        }),
{
    let begin = seq![TranscribeEvent::Begin];
    let tail = seq![TranscribeEvent::Answer(Ok(raw)), TranscribeEvent::Cached(Ok(()))];
    let send = TranscribeStepView::Send {
        url: job.url,
        audio: job.audio,
        fields: form_fields_spec(),
    };
    let sending = TranscribeModel { phase: TranscribePhase::Sending, attempts: 1, ..job };
    assert(job.next(TranscribeEvent::Begin) == (sending, send));
    lemma_one_event(job, TranscribeEvent::Begin);
    lemma_retries_after_failures(sending, k);
    let retried = TranscribeModel { attempts: 1 + k, ..sending };
    let caching = retried.at(TranscribePhase::Caching(raw@));
    let done = TranscribeStepView::Done(Ok((job.id, raw@)));
    let cache = TranscribeStepView::Cache(job.cache);
    assert(retried.next(TranscribeEvent::Answer(Ok(raw))) == (caching, cache));
    assert(caching.next(TranscribeEvent::Cached(Ok(()))) == caching.end(Ok((job.id, raw@))));
    lemma_one_event(retried, TranscribeEvent::Answer(Ok(raw)));
    lemma_one_event(caching, TranscribeEvent::Cached(Ok(())));
    lemma_events_concat(
        retried,
        seq![TranscribeEvent::Answer(Ok(raw))],
        seq![TranscribeEvent::Cached(Ok(()))],
    );
    assert(tail =~= seq![TranscribeEvent::Answer(Ok(raw))] + seq![
        TranscribeEvent::Cached(Ok(())),
    ]);
    assert(retried.steps(tail) =~= seq![cache, done]);
    assert(retried.after(tail) == caching.at(TranscribePhase::Ended));
    lemma_events_concat(job, begin, failed_sends(k));
    lemma_events_concat(job, begin + failed_sends(k), tail);
    let middle = sending.steps(failed_sends(k));
    let steps = job.steps(begin + failed_sends(k) + tail);
    assert(steps == (seq![send] + middle) + seq![cache, done]);
    lemma_counts_concat(seq![send], middle);
    lemma_counts_concat(seq![send] + middle, seq![cache, done]);
    assert(count_sends(seq![send]) == 1 && count_backoffs(seq![send]) == 0) by {
        assert(seq![send].drop_last() =~= Seq::<TranscribeStepView>::empty());
        reveal_with_fuel(count_sends, 2);
        reveal_with_fuel(count_backoffs, 2);
    }
    assert(count_sends(seq![cache, done]) == 0 && count_backoffs(seq![cache, done]) == 0) by {
        assert(seq![cache, done].drop_last() =~= seq![cache]);
        assert(seq![cache].drop_last() =~= Seq::<TranscribeStepView>::empty());
        reveal_with_fuel(count_sends, 3);
        reveal_with_fuel(count_backoffs, 3);
    }
}

/// A transcription succeeds only with its own episode's id.
pub proof fn lemma_success_is_own_id(
    job: TranscribeModel,
    event: TranscribeEvent,
    id: u32,
    segments: Seq<SegmentView>,
)
    requires
        job.next(event).1 == TranscribeStepView::Done(
            Ok::<(u32, Seq<SegmentView>), JobManagerError>((id, segments)),
        ),
    ensures
        id == job.id,
        job.phase == TranscribePhase::Caching(segments),
{
}

} // verus!
