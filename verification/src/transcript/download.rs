//! The download of one episode: look it up, fetch its audio, store it,
//! normalize it, and remove the downloaded file.
//!
//! The job decides; its caller does the outside work. Each call of
//! [`DownloadJob::advance`] takes what the last piece of work gave and
//! answers with the next piece of work.

use crate::config::ImportConfig;
use crate::transcript::data::Episode;
use crate::transcript::error::JobManagerError;
use vstd::prelude::*;
use vstd::string::*;

verus! {

/// How far a download has come.
#[derive(Clone, Copy, Debug, PartialEq, Eq, Structural)]
pub enum DownloadPhase {
    /// Made, and waiting for its permit.
    Created,
    /// Waiting for the datastore's answer.
    Lookup,
    /// Waiting for the response to the HTTP request.
    Requesting,
    /// Waiting for the body to be written to disk.
    Storing,
    /// Waiting for the normalizer to exit.
    Normalizing,
    /// Waiting for the downloaded file to be removed.
    Removing,
    /// Over: the result has been given.
    Ended,
}

/// What the outside work gave.
#[derive(Debug)]
pub enum DownloadEvent {
    /// The stage granted the job its permit.
    Begin,
    /// The datastore answered: the episode, none, or an error.
    Episode(Result<Option<Episode>, JobManagerError>),
    /// The HTTP request was answered (with whether the status is a success)
    /// or failed.
    Response(Result<bool, JobManagerError>),
    /// The body was written to disk, or writing failed.
    Stored(Result<(), JobManagerError>),
    /// The normalizer ran and left this exit code, or could not be run.
    Normalized(Result<i32, JobManagerError>),
    /// The downloaded file was removed, or removing failed.
    Removed(Result<(), JobManagerError>),
}

/// The work to do next.
#[derive(Debug)]
pub enum DownloadStep {
    /// Ask the datastore for the episode with this id.
    FetchEpisode(u32),
    /// Send a GET request to this URL.
    Request(String),
    /// Write the response body to this path.
    Store(String),
    /// Run the normalizer with these arguments.
    Normalize(Vec<String>),
    /// Remove the file at this path.
    Remove(String),
    /// The download is over, with this result.
    Done(Result<u32, JobManagerError>),
    /// The event does not belong to the work in progress: nothing changes.
    Ignored,
}

/// [`DownloadStep`] as a mathematical value.
pub enum DownloadStepView {
    FetchEpisode(u32),
    Request(Seq<char>),
    Store(Seq<char>),
    Normalize(Seq<Seq<char>>),
    Remove(Seq<char>),
    Done(Result<u32, JobManagerError>),
    Ignored,
}

impl View for DownloadStep {
    type V = DownloadStepView;

    open spec fn view(&self) -> DownloadStepView {
        match self {
            DownloadStep::FetchEpisode(id) => DownloadStepView::FetchEpisode(*id),
            DownloadStep::Request(url) => DownloadStepView::Request(url@),
            DownloadStep::Store(path) => DownloadStepView::Store(path@),
            DownloadStep::Normalize(args) => DownloadStepView::Normalize(
                args@.map_values(|a: String| a@),
            ),
            DownloadStep::Remove(path) => DownloadStepView::Remove(path@),
            DownloadStep::Done(result) => DownloadStepView::Done(*result),
            DownloadStep::Ignored => DownloadStepView::Ignored,
        }
    }
}

/// The name of the normalizer's program.
pub const NORMALIZER: &'static str = "ffmpeg";

/// The normalizer's arguments: read `mp3`, resample to 16 kHz, one channel,
/// signed 16-bit little-endian PCM, write `wav`.
pub open spec fn normalizer_args_spec(mp3: Seq<char>, wav: Seq<char>) -> Seq<Seq<char>> {
    seq!["-i"@, mp3, "-ar"@, "16000"@, "-ac"@, "1"@, "-c:a"@, "pcm_s16le"@, wav]
}

/// The arguments with which the normalizer turns `mp3` into `wav`.
pub fn normalizer_args(mp3: &String, wav: &String) -> (args: Vec<String>)
    ensures
        args@.map_values(|a: String| a@) == normalizer_args_spec(mp3@, wav@),
{
    let mut args: Vec<String> = Vec::new();
    args.push(String::from_str("-i"));
    args.push(mp3.clone());
    args.push(String::from_str("-ar"));
    args.push(String::from_str("16000"));
    args.push(String::from_str("-ac"));
    args.push(String::from_str("1"));
    args.push(String::from_str("-c:a"));
    args.push(String::from_str("pcm_s16le"));
    args.push(wav.clone());
    assert(args@.map_values(|a: String| a@) =~= normalizer_args_spec(mp3@, wav@));
    args
}

/// A download as a mathematical value.
pub struct DownloadModel {
    /// The episode to download.
    pub id: u32,
    /// How far the download has come.
    pub phase: DownloadPhase,
    /// Where the audio is downloaded to.
    pub mp3: Seq<char>,
    /// Where the normalized audio is written.
    pub wav: Seq<char>,
}

impl DownloadModel {
    /// The same download in another phase.
    pub open spec fn at(self, phase: DownloadPhase) -> DownloadModel {
        DownloadModel { phase, ..self }
    }

    /// The download over, with `result`.
    pub open spec fn end(self, result: Result<u32, JobManagerError>) -> (
        DownloadModel,
        DownloadStepView,
    ) {
        (self.at(DownloadPhase::Ended), DownloadStepView::Done(result))
    }

    /// What the download becomes on `event`, and the work it asks for.
    pub open spec fn next(self, event: DownloadEvent) -> (DownloadModel, DownloadStepView) {
        match (self.phase, event) {
            (DownloadPhase::Created, DownloadEvent::Begin) => (
                self.at(DownloadPhase::Lookup),
                DownloadStepView::FetchEpisode(self.id),
            ),
            (DownloadPhase::Lookup, DownloadEvent::Episode(Err(e))) => self.end(Err(e)),
            (DownloadPhase::Lookup, DownloadEvent::Episode(Ok(None))) => self.end(
                Err(JobManagerError::NotFound(self.id)),
            ),
            (DownloadPhase::Lookup, DownloadEvent::Episode(Ok(Some(episode)))) => (
                self.at(DownloadPhase::Requesting),
                DownloadStepView::Request(episode.download_url@),
            ),
            (DownloadPhase::Requesting, DownloadEvent::Response(Err(e))) => self.end(Err(e)),
            (DownloadPhase::Requesting, DownloadEvent::Response(Ok(success))) => if success {
                (self.at(DownloadPhase::Storing), DownloadStepView::Store(self.mp3))
            } else {
                (
                    self.at(DownloadPhase::Normalizing),
                    DownloadStepView::Normalize(normalizer_args_spec(self.mp3, self.wav)),
                )
            },
            (DownloadPhase::Storing, DownloadEvent::Stored(Err(e))) => self.end(Err(e)),
            (DownloadPhase::Storing, DownloadEvent::Stored(Ok(_))) => (
                self.at(DownloadPhase::Normalizing),
                DownloadStepView::Normalize(normalizer_args_spec(self.mp3, self.wav)),
            ),
            (DownloadPhase::Normalizing, DownloadEvent::Normalized(Err(e))) => self.end(Err(e)),
            (DownloadPhase::Normalizing, DownloadEvent::Normalized(Ok(code))) => if code == 0 {
                (self.at(DownloadPhase::Removing), DownloadStepView::Remove(self.mp3))
            } else {
                self.end(Err(JobManagerError::Process(self.id, code)))
            },
            (DownloadPhase::Removing, DownloadEvent::Removed(Err(e))) => self.end(Err(e)),
            (DownloadPhase::Removing, DownloadEvent::Removed(Ok(_))) => self.end(Ok(self.id)),
            _ => (self, DownloadStepView::Ignored),
        }
    }

    /// The work asked for on each of `events` in turn.
    pub open spec fn steps(self, events: Seq<DownloadEvent>) -> Seq<DownloadStepView>
        decreases events.len(),
    {
        if events.len() == 0 {
            Seq::empty()
        } else {
            seq![self.next(events[0]).1] + self.next(events[0]).0.steps(events.drop_first())
        }
    }
}

/// The download of one episode.
pub struct DownloadJob {
    id: u32,
    phase: DownloadPhase,
    mp3: String,
    wav: String,
}

impl View for DownloadJob {
    type V = DownloadModel;

    closed spec fn view(&self) -> DownloadModel {
        DownloadModel { id: self.id, phase: self.phase, mp3: self.mp3@, wav: self.wav@ }
    }
}

impl DownloadJob {
    /// A download of episode `id` into the directories of `config`, not yet
    /// begun.
    pub fn new(id: u32, config: &ImportConfig) -> (job: DownloadJob)
        ensures
            job@ == (DownloadModel {
                id,
                phase: DownloadPhase::Created,
                mp3: config.mp3_file(id),
                wav: config.wav_file(id),
            }),
    {
        DownloadJob {
            id,
            phase: DownloadPhase::Created,
            mp3: config.mp3_path(id),
            wav: config.wav_path(id),
        }
    }

    /// The episode that is downloaded.
    pub fn id(&self) -> (id: u32)
        ensures
            id == self@.id,
    {
        self.id
    }

    /// How far the download has come.
    pub fn phase(&self) -> (phase: DownloadPhase)
        ensures
            phase == self@.phase,
    {
        self.phase
    }

    /// Whether the download is over.
    pub fn is_ended(&self) -> (ended: bool)
        ensures
            ended == (self@.phase == DownloadPhase::Ended),
    {
        self.phase == DownloadPhase::Ended
    }

    /// Ends the download with `result`.
    fn finish(&mut self, result: Result<u32, JobManagerError>) -> (step: DownloadStep)
        ensures
            (final(self)@, step@) == old(self)@.end(result),
    {
        self.phase = DownloadPhase::Ended;
        DownloadStep::Done(result)
    }

    /// Moves on to the normalizer.
    fn normalize(&mut self) -> (step: DownloadStep)
        ensures
            final(self)@ == old(self)@.at(DownloadPhase::Normalizing),
            step@ == DownloadStepView::Normalize(
                normalizer_args_spec(old(self)@.mp3, old(self)@.wav),
            ),
    {
        self.phase = DownloadPhase::Normalizing;
        DownloadStep::Normalize(normalizer_args(&self.mp3, &self.wav))
    }

    /// Takes what the last piece of work gave and answers with the next.
    pub fn advance(&mut self, event: DownloadEvent) -> (step: DownloadStep)
        ensures
            (final(self)@, step@) == old(self)@.next(event),
    {
        match (self.phase, event) {
            (DownloadPhase::Created, DownloadEvent::Begin) => {
                self.phase = DownloadPhase::Lookup;
                DownloadStep::FetchEpisode(self.id)
            },
            (DownloadPhase::Lookup, DownloadEvent::Episode(Err(e))) => self.finish(Err(e)),
            (DownloadPhase::Lookup, DownloadEvent::Episode(Ok(None))) => {
                let id = self.id;
                self.finish(Err(JobManagerError::NotFound(id)))
            },
            (DownloadPhase::Lookup, DownloadEvent::Episode(Ok(Some(episode)))) => {
                self.phase = DownloadPhase::Requesting;
                DownloadStep::Request(episode.download_url)
            },
            (DownloadPhase::Requesting, DownloadEvent::Response(Err(e))) => self.finish(Err(e)),
            (DownloadPhase::Requesting, DownloadEvent::Response(Ok(success))) => {
                if success {
                    self.phase = DownloadPhase::Storing;
                    DownloadStep::Store(self.mp3.clone())
                } else {
                    self.normalize()
                }
            },
            (DownloadPhase::Storing, DownloadEvent::Stored(Err(e))) => self.finish(Err(e)),
            (DownloadPhase::Storing, DownloadEvent::Stored(Ok(_))) => self.normalize(),
            (DownloadPhase::Normalizing, DownloadEvent::Normalized(Err(e))) => self.finish(Err(e)),
            (DownloadPhase::Normalizing, DownloadEvent::Normalized(Ok(code))) => {
                if code == 0 {
                    self.phase = DownloadPhase::Removing;
                    DownloadStep::Remove(self.mp3.clone())
                } else {
                    let id = self.id;
                    self.finish(Err(JobManagerError::Process(id, code)))
                }
            },
            (DownloadPhase::Removing, DownloadEvent::Removed(Err(e))) => self.finish(Err(e)),
            (DownloadPhase::Removing, DownloadEvent::Removed(Ok(_))) => {
                let id = self.id;
                self.finish(Ok(id))
            },
            _ => DownloadStep::Ignored,
        }
    }
}

/// A download that is over asks for no more work, whatever is reported to it.
pub proof fn lemma_ended_asks_nothing(job: DownloadModel, events: Seq<DownloadEvent>)
    requires
        job.phase == DownloadPhase::Ended,
    ensures
        job.steps(events).len() == events.len(),
        forall|i: int|
            0 <= i < events.len() ==> #[trigger] job.steps(events)[i] == DownloadStepView::Ignored,
    decreases events.len(),
{
    if events.len() > 0 {
        assert(job.next(events[0]) == (job, DownloadStepView::Ignored));
        lemma_ended_asks_nothing(job, events.drop_first());
        assert forall|i: int| 0 <= i < events.len() implies #[trigger] job.steps(events)[i]
            == DownloadStepView::Ignored by {
            if i > 0 {
                assert(job.steps(events)[i] == job.steps(events.drop_first())[i - 1]);
            }
        }
    }
}

/// Where the datastore holds no episode with the job's id, the download
/// fails with `NotFound` for that id, and no request is ever sent: not a
/// single step, whatever is reported later, is a `Request`.
pub proof fn lemma_not_found_sends_no_request(job: DownloadModel, later: Seq<DownloadEvent>)
    requires
        job.phase == DownloadPhase::Created,
    ensures
        ({
            let events = seq![DownloadEvent::Begin, DownloadEvent::Episode(Ok(None))] + later;
            let steps = job.steps(events);
            &&& steps.len() == 2 + later.len()
            &&& steps[0] == DownloadStepView::FetchEpisode(job.id)
            &&& steps[1] == DownloadStepView::Done(Err(JobManagerError::NotFound(job.id)))
            &&& forall|i: int| 0 <= i < steps.len() ==> !(#[trigger] steps[i] is Request)
        }),
{
    let events = seq![DownloadEvent::Begin, DownloadEvent::Episode(Ok(None))] + later;
    let steps = job.steps(events);
    let looking = job.at(DownloadPhase::Lookup);
    let ended = job.at(DownloadPhase::Ended);
    assert(job.next(events[0]) == (looking, DownloadStepView::FetchEpisode(job.id)));
    let rest = events.drop_first();
    assert(rest[0] == DownloadEvent::Episode(Ok(None)));
    assert(looking.next(rest[0]) == looking.end(Err(JobManagerError::NotFound(job.id))));
    assert(rest.drop_first() =~= later);
    lemma_ended_asks_nothing(ended, later);
    assert(steps == seq![DownloadStepView::FetchEpisode(job.id)] + looking.steps(rest));
    assert(looking.steps(rest) == seq![
        DownloadStepView::Done(Err(JobManagerError::NotFound(job.id))),
    ] + ended.steps(later));
    assert forall|i: int| 0 <= i < steps.len() implies !(#[trigger] steps[i] is Request) by {
        if i >= 2 {
            assert(steps[i] == ended.steps(later)[i - 2]);
        }
    }
}

/// Where the normalizer leaves an exit code other than zero, the download
/// fails for its episode with that code, and the downloaded file stays: no
/// step, whatever is reported later, is a `Remove`.
pub proof fn lemma_failed_normalizer_keeps_download(
    job: DownloadModel,
    code: i32,
    later: Seq<DownloadEvent>,
)
    requires
        job.phase == DownloadPhase::Normalizing,
        code != 0,
    ensures
        ({
            let events = seq![DownloadEvent::Normalized(Ok(code))] + later;
            let steps = job.steps(events);
            &&& steps.len() == 1 + later.len()
            &&& steps[0] == DownloadStepView::Done(Err(JobManagerError::Process(job.id, code)))
            &&& forall|i: int| 0 <= i < steps.len() ==> !(#[trigger] steps[i] is Remove)
        }),
{
    let events = seq![DownloadEvent::Normalized(Ok(code))] + later;
    let steps = job.steps(events);
    let ended = job.at(DownloadPhase::Ended);
    assert(job.next(events[0]) == job.end(Err(JobManagerError::Process(job.id, code))));
    assert(events.drop_first() =~= later);
    lemma_ended_asks_nothing(ended, later);
    assert forall|i: int| 0 <= i < steps.len() implies !(#[trigger] steps[i] is Remove) by {
        if i >= 1 {
            assert(steps[i] == ended.steps(later)[i - 1]);
        }
    }
}

/// A download succeeds only with its own episode's id, and only after the
/// downloaded file was removed.
pub proof fn lemma_success_is_own_id(job: DownloadModel, event: DownloadEvent, id: u32)
    requires
        job.next(event).1 == DownloadStepView::Done(Ok::<u32, JobManagerError>(id)),
    ensures
        id == job.id,
        job.phase == DownloadPhase::Removing,
        event matches DownloadEvent::Removed(removed) && removed is Ok,
{
}

} // verus!
