//! The job manager: four stages, each with its handles and its permits, and
//! the order in which the stages are drained.
//!
//! The manager decides; its caller does the outside work. Operations are
//! started with [`JobManager::start_next`], their results are reported with
//! the `complete_*` functions, and [`JobManager::wait`] drains what has
//! finished, stage after stage.

use crate::transcript::container::{
    lemma_complete_wf, lemma_count_running_none, lemma_pass_wf, lemma_push_wf, lemma_start_wf,
    lemma_take_wf, ContainerModel, JobContainer, JobHandle, JobState,
};
use crate::transcript::data::{EpisodeTranscript, Transcript};
use crate::transcript::error::JobManagerError;
use vstd::prelude::*;

verus! {

/// How many conversions may run at once.
pub const MAX_CONVERT_JOBS: usize = 4;

/// How many transcriptions may run at once.
pub const MAX_TRANSCRIBE_JOBS: usize = 1;

/// How many downloads may run at once.
pub const MAX_DOWNLOAD_JOBS: usize = 4;

/// How many insertions may run at once.
pub const MAX_INSERT_DB_JOBS: usize = 4;

/// The stages of the pipeline, in their order.
#[derive(Clone, Copy, Debug, PartialEq, Eq, Structural)]
pub enum Stage {
    Download,
    Transcribe,
    Convert,
    Insert,
}

impl Stage {
    /// The stage's place in the order, from 0.
    pub open spec fn index(self) -> int {
        match self {
            Stage::Download => 0,
            Stage::Transcribe => 1,
            Stage::Convert => 2,
            Stage::Insert => 3,
        }
    }
}

/// How far a run has come.
#[derive(Clone, Copy, Debug, PartialEq, Eq, Structural)]
pub enum RunPhase {
    /// Episodes may still be added; nothing has been drained.
    Accepting,
    /// The stages are being drained.
    Draining,
    /// Every stage was drained without an error.
    Succeeded,
    /// An operation's error has ended the run.
    Failed,
}

/// An operation that was started: the outside work to do. The number is the
/// handle's index in its stage, to report the result with.
#[derive(Debug)]
pub enum Task {
    /// Download the audio of this episode.
    Download(usize, u32),
    /// Transcribe the audio of this episode.
    Transcribe(usize, u32),
    /// Insert this record into the datastore.
    Insert(usize, EpisodeTranscript),
}

/// What [`JobManager::wait`] found.
#[derive(Debug)]
pub enum WaitStep {
    /// The next handle to drain has not finished: start what can be started,
    /// report a result, and call again.
    Pending,
    /// The run has ended just now, with this result.
    Done(Result<(), JobManagerError>),
    /// The run had ended before.
    Over,
}

/// Whether a handle is neither passed nor failed.
pub open spec fn live<I, O>(handle: JobHandle<I, O>) -> bool {
    !(handle.state is Passed) && !(handle.state is Failed)
}

/// How many handles of the stage with index `k` have been drained with
/// success, where stage `at` is being drained and `cursor` of its handles
/// are done.
pub open spec fn drained<I, O>(c: ContainerModel<I, O>, k: int, at: int, cursor: nat) -> nat {
    if k < at {
        c.handles.len()
    } else if k == at {
        cursor
    } else {
        0
    }
}

/// The handles of the stage with index `k` are as the order of the stages
/// asks: all passed in a stage that was drained, all waiting in a stage that
/// is not yet open, and in the stage that is being drained the first `cursor`
/// passed and the others not drained; but where the run failed, the handle at
/// `cursor` is the one that failed.
pub open spec fn stage_ok<I, O>(
    c: ContainerModel<I, O>,
    k: int,
    at: int,
    cursor: nat,
    phase: RunPhase,
) -> bool {
    &&& c.wf()
    &&& k < at ==> c.all_passed()
    &&& k > at ==> c.all_waiting()
    &&& k == at ==> {
        &&& cursor <= c.handles.len()
        &&& forall|i: int| 0 <= i < cursor ==> #[trigger] c.handles[i].state is Passed
        &&& forall|i: int| cursor < i < c.handles.len() ==> live(#[trigger] c.handles[i])
        &&& phase is Failed ==> cursor < c.handles.len() && c.handles[cursor as int].state is Failed
        &&& !(phase is Failed) && cursor < c.handles.len() ==> live(c.handles[cursor as int])
    }
}

/// Stage `next` holds, after the `direct` handles that were added to it from
/// outside, one handle for each of the first `count` handles of stage `prev`,
/// in the same order and for the same episode.
pub open spec fn follows<I, O, I2, O2>(
    prev: ContainerModel<I, O>,
    next: ContainerModel<I2, O2>,
    direct: nat,
    count: nat,
) -> bool {
    &&& next.handles.len() == direct + count
    &&& count <= prev.handles.len()
    &&& forall|k: int|
        0 <= k < count ==> (#[trigger] next.handles[direct + k]).id == prev.handles[k].id
}

/// A run as a mathematical value.
pub struct ManagerModel {
    /// The downloads.
    pub down: ContainerModel<(), ()>,
    /// The transcriptions.
    pub tran: ContainerModel<(), Transcript>,
    /// The conversions.
    pub conv: ContainerModel<Transcript, EpisodeTranscript>,
    /// The insertions.
    pub insd: ContainerModel<EpisodeTranscript, ()>,
    /// The stage whose operations may run, and which is drained next.
    pub stage: Stage,
    /// How many handles of that stage have been drained.
    pub cursor: nat,
    /// How far the run has come.
    pub phase: RunPhase,
    /// How many transcriptions were added from outside.
    pub tran_direct: nat,
    /// How many conversions were added from outside.
    pub conv_direct: nat,
}

impl ManagerModel {
    /// A run without any handle, with the permits of each stage.
    pub open spec fn empty() -> ManagerModel {
        ManagerModel {
            down: ContainerModel {
                handles: Seq::empty(),
                started: 0,
                limit: MAX_DOWNLOAD_JOBS as nat,
            },
            tran: ContainerModel {
                handles: Seq::empty(),
                started: 0,
                limit: MAX_TRANSCRIBE_JOBS as nat,
            },
            conv: ContainerModel {
                handles: Seq::empty(),
                started: 0,
                limit: MAX_CONVERT_JOBS as nat,
            },
            insd: ContainerModel {
                handles: Seq::empty(),
                started: 0,
                limit: MAX_INSERT_DB_JOBS as nat,
            },
            stage: Stage::Download,
            cursor: 0,
            phase: RunPhase::Accepting,
            tran_direct: 0,
            conv_direct: 0,
        }
    }

    /// The run is in order: each stage has its permits and never more
    /// operations running than that; the stages are open one after the other;
    /// and each stage holds one handle for each handle that the stage before
    /// it passed on.
    pub open spec fn wf(self) -> bool {
        let at = self.stage.index();
        &&& self.down.limit == MAX_DOWNLOAD_JOBS
        &&& self.tran.limit == MAX_TRANSCRIBE_JOBS
        &&& self.conv.limit == MAX_CONVERT_JOBS
        &&& self.insd.limit == MAX_INSERT_DB_JOBS
        &&& stage_ok(self.down, 0, at, self.cursor, self.phase)
        &&& stage_ok(self.tran, 1, at, self.cursor, self.phase)
        &&& stage_ok(self.conv, 2, at, self.cursor, self.phase)
        &&& stage_ok(self.insd, 3, at, self.cursor, self.phase)
        &&& self.phase is Accepting ==> self.stage == Stage::Download && self.cursor == 0
        &&& self.phase is Succeeded ==> self.stage == Stage::Insert && self.cursor
            == self.insd.handles.len()
        &&& self.phase is Failed ==> self.stage != Stage::Convert
        &&& forall|i: int|
            0 <= i < self.conv.handles.len() ==> {
                let state = (#[trigger] self.conv.handles[i]).state;
                state is Waiting || state is Passed
            }
        &&& follows(self.down, self.tran, self.tran_direct, drained(self.down, 0, at, self.cursor))
        &&& follows(self.tran, self.conv, self.conv_direct, drained(self.tran, 1, at, self.cursor))
        &&& follows(self.conv, self.insd, 0, drained(self.conv, 2, at, self.cursor))
        &&& forall|i: int|
            0 <= i < self.insd.handles.len() ==> (
            (#[trigger] self.insd.handles[i]).state matches JobState::Waiting(record)
                ==> record.episode_id == self.insd.handles[i].id)
    }

    /// Whether episodes may still be added.
    pub open spec fn accepting(self) -> bool {
        self.phase is Accepting
    }

    /// Whether operations may still be started.
    pub open spec fn open(self) -> bool {
        self.phase is Accepting || self.phase is Draining
    }

    /// With a download of episode `id` added, while the run accepts.
    pub open spec fn run_download(self, id: u32) -> ManagerModel {
        if self.accepting() {
            ManagerModel { down: self.down.push(id, ()), ..self }
        } else {
            self
        }
    }

    /// With a transcription of episode `id` added, while the run accepts.
    pub open spec fn run_transcribe(self, id: u32) -> ManagerModel {
        if self.accepting() {
            ManagerModel {
                tran: self.tran.push(id, ()),
                tran_direct: self.tran_direct + 1,
                ..self
            }
        } else {
            self
        }
    }

    /// With a conversion of `transcript` for episode `id` added, while the
    /// run accepts.
    pub open spec fn run_convert(self, id: u32, transcript: Transcript) -> ManagerModel {
        if self.accepting() {
            ManagerModel {
                conv: self.conv.push(id, transcript),
                conv_direct: self.conv_direct + 1,
                ..self
            }
        } else {
            self
        }
    }

    /// Whether an operation can be started: the run is open, and in the open
    /// stage a handle waits and a permit is free. Conversions are not
    /// started: the manager does them itself while it drains.
    pub open spec fn can_start(self) -> bool {
        self.open() && match self.stage {
            Stage::Download => self.down.can_start(),
            Stage::Transcribe => self.tran.can_start(),
            Stage::Convert => false,
            Stage::Insert => self.insd.can_start(),
        }
    }

    /// With the first waiting operation of the open stage started.
    pub open spec fn start_next(self) -> ManagerModel {
        if self.can_start() {
            match self.stage {
                Stage::Download => ManagerModel { down: self.down.start(), ..self },
                Stage::Transcribe => ManagerModel { tran: self.tran.start(), ..self },
                Stage::Convert => self,
                Stage::Insert => ManagerModel { insd: self.insd.start(), ..self },
            }
        } else {
            self
        }
    }

    /// With the running download `index` finished with `result`.
    pub open spec fn complete_download(
        self,
        index: int,
        result: Result<(), JobManagerError>,
    ) -> ManagerModel {
        if self.down.is_running(index) {
            ManagerModel { down: self.down.complete(index, result), ..self }
        } else {
            self
        }
    }

    /// With the running transcription `index` finished with `result`.
    pub open spec fn complete_transcribe(
        self,
        index: int,
        result: Result<Transcript, JobManagerError>,
    ) -> ManagerModel {
        if self.tran.is_running(index) {
            ManagerModel { tran: self.tran.complete(index, result), ..self }
        } else {
            self
        }
    }

    /// With the running insertion `index` finished with `result`.
    pub open spec fn complete_insert(
        self,
        index: int,
        result: Result<(), JobManagerError>,
    ) -> ManagerModel {
        if self.insd.is_running(index) {
            ManagerModel { insd: self.insd.complete(index, result), ..self }
        } else {
            self
        }
    }

    /// How many handles the open stage has.
    pub open spec fn stage_len(self) -> nat {
        match self.stage {
            Stage::Download => self.down.handles.len(),
            Stage::Transcribe => self.tran.handles.len(),
            Stage::Convert => self.conv.handles.len(),
            Stage::Insert => self.insd.handles.len(),
        }
    }

    /// The open stage is drained: the next one opens.
    pub open spec fn advance(self) -> ManagerModel {
        match self.stage {
            Stage::Download => ManagerModel { stage: Stage::Transcribe, cursor: 0, ..self },
            Stage::Transcribe => ManagerModel { stage: Stage::Convert, cursor: 0, ..self },
            Stage::Convert => ManagerModel { stage: Stage::Insert, cursor: 0, ..self },
            Stage::Insert => ManagerModel { phase: RunPhase::Succeeded, ..self },
        }
    }

    /// The run failed at the handle under the cursor.
    pub open spec fn fail(self) -> ManagerModel {
        match self.stage {
            Stage::Download => ManagerModel {
                down: self.down.take(self.cursor as int),
                phase: RunPhase::Failed,
                ..self
            },
            Stage::Transcribe => ManagerModel {
                tran: self.tran.take(self.cursor as int),
                phase: RunPhase::Failed,
                ..self
            },
            Stage::Convert => self,
            Stage::Insert => ManagerModel {
                insd: self.insd.take(self.cursor as int),
                phase: RunPhase::Failed,
                ..self
            },
        }
    }

    /// One step of draining: the handle under the cursor, or the end of the
    /// stage. The second part is what the drain has found, where it stops
    /// here.
    ///
    /// A handle that succeeded is marked as passed, and its output becomes
    /// the input of a new handle of the next stage, for the same episode. A
    /// handle that failed ends the run with its error. A handle that has not
    /// finished stops the drain. A waiting conversion is done on the spot:
    /// its record goes to the insertions.
    pub open spec fn drain_one(self) -> (ManagerModel, Option<WaitStep>) {
        let at = self.cursor as int;
        if self.cursor >= self.stage_len() {
            (
                self.advance(),
                if self.stage == Stage::Insert {
                    Some(WaitStep::Done(Ok(())))
                } else {
                    None
                },
            )
        } else {
            match self.stage {
                Stage::Download => match self.down.handles[at].state {
                    JobState::Finished(Ok(_)) => (
                        ManagerModel {
                            down: self.down.take(at),
                            tran: self.tran.push(self.down.handles[at].id, ()),
                            cursor: self.cursor + 1,
                            ..self
                        },
                        None,
                    ),
                    JobState::Finished(Err(e)) => (self.fail(), Some(WaitStep::Done(Err(e)))),
                    _ => (self, Some(WaitStep::Pending)),
                },
                Stage::Transcribe => match self.tran.handles[at].state {
                    JobState::Finished(Ok(transcript)) => (
                        ManagerModel {
                            tran: self.tran.take(at),
                            conv: self.conv.push(self.tran.handles[at].id, transcript),
                            cursor: self.cursor + 1,
                            ..self
                        },
                        None,
                    ),
                    JobState::Finished(Err(e)) => (self.fail(), Some(WaitStep::Done(Err(e)))),
                    _ => (self, Some(WaitStep::Pending)),
                },
                Stage::Convert => match self.conv.handles[at].state {
                    JobState::Waiting(transcript) => {
                        let id = self.conv.handles[at].id;
                        let record = EpisodeTranscript { episode_id: id, transcript };
                        (
                            ManagerModel {
                                conv: self.conv.pass(at),
                                insd: self.insd.push(id, record),
                                cursor: self.cursor + 1,
                                ..self
                            },
                            None,
                        )
                    },
                    _ => (self, Some(WaitStep::Pending)),
                },
                Stage::Insert => match self.insd.handles[at].state {
                    JobState::Finished(Ok(_)) => (
                        ManagerModel {
                            insd: self.insd.take(at),
                            cursor: self.cursor + 1,
                            ..self
                        },
                        None,
                    ),
                    JobState::Finished(Err(e)) => (self.fail(), Some(WaitStep::Done(Err(e)))),
                    _ => (self, Some(WaitStep::Pending)),
                },
            }
        }
    }

    /// How many stages are still to be drained after the open one.
    pub open spec fn stages_left(self) -> nat {
        (3 - self.stage.index()) as nat
    }

    /// How many handles of the open stage are still to be drained.
    pub open spec fn handles_left(self) -> nat {
        if self.cursor <= self.stage_len() {
            (self.stage_len() - self.cursor) as nat
        } else {
            0
        }
    }

    /// Draining until it stops: the run then, and what stopped the drain.
    pub open spec fn drain(self) -> (ManagerModel, WaitStep)
        decreases self.stages_left(), self.handles_left(),
    {
        let (then, found) = self.drain_one();
        match found {
            Some(step) => (then, step),
            None => {
                proof {
                    lemma_drain_one_progress(self);
                }
                then.drain()
            },
        }
    }

    /// What `wait` does: a run that has ended stays as it is; any other is
    /// drained until a handle that has not finished, an error, or the end of
    /// the last stage stops the drain.
    pub open spec fn wait(self) -> (ManagerModel, WaitStep) {
        if self.open() {
            (ManagerModel { phase: RunPhase::Draining, ..self }).drain()
        } else {
            (self, WaitStep::Over)
        }
    }
}

/// A step of draining that does not stop the drain brings it nearer to its
/// end: a stage less is left, or a handle less of the same stage.
pub proof fn lemma_drain_one_progress(m: ManagerModel)
    requires
        m.drain_one().1 is None,
    ensures
        ({
            let then = m.drain_one().0;
            ||| then.stages_left() < m.stages_left()
            ||| then.stages_left() == m.stages_left() && then.handles_left() < m.handles_left()
        }),
{
    let then = m.drain_one().0;
    if m.cursor >= m.stage_len() {
        assert(m.stage != Stage::Insert);
    } else {
        let at = m.cursor as int;
        assert(then.stage == m.stage);
        match m.stage {
            Stage::Download => {
                assert(m.down.take(at).handles.len() == m.down.handles.len());
            },
            Stage::Transcribe => {
                assert(m.tran.take(at).handles.len() == m.tran.handles.len());
            },
            Stage::Convert => {
                assert(m.conv.pass(at).handles.len() == m.conv.handles.len());
            },
            Stage::Insert => {
                assert(m.insd.take(at).handles.len() == m.insd.handles.len());
            },
        }
        assert(then.stage_len() == m.stage_len());
        assert(then.cursor == m.cursor + 1);
    }
}

/// A run without handles is in order.
pub proof fn lemma_empty_wf()
    ensures
        ManagerModel::empty().wf(),
{
    let m = ManagerModel::empty();
    lemma_count_running_none(m.down.handles);
    lemma_count_running_none(m.tran.handles);
    lemma_count_running_none(m.conv.handles);
    lemma_count_running_none(m.insd.handles);
}

/// Adding a download keeps the run in order.
pub proof fn lemma_run_download_wf(m: ManagerModel, id: u32)
    requires
        m.wf(),
    ensures
        m.run_download(id).wf(),
{
    if m.accepting() {
        lemma_push_wf(m.down, id, ());
    }
}

/// Adding a transcription keeps the run in order.
pub proof fn lemma_run_transcribe_wf(m: ManagerModel, id: u32)
    requires
        m.wf(),
    ensures
        m.run_transcribe(id).wf(),
{
    if m.accepting() {
        lemma_push_wf(m.tran, id, ());
    }
}

/// Adding a conversion keeps the run in order.
pub proof fn lemma_run_convert_wf(m: ManagerModel, id: u32, transcript: Transcript)
    requires
        m.wf(),
    ensures
        m.run_convert(id, transcript).wf(),
{
    if m.accepting() {
        lemma_push_wf(m.conv, id, transcript);
    }
}

/// In the stage that is drained, the handles that were started reach at
/// least to the cursor.
proof fn lemma_started_from_cursor<I, O>(
    c: ContainerModel<I, O>,
    k: int,
    at: int,
    cursor: nat,
    phase: RunPhase,
)
    requires
        stage_ok(c, k, at, cursor, phase),
        k == at,
    ensures
        cursor <= c.started || cursor == c.handles.len(),
{
    if c.started < cursor {
        assert(c.handles[c.started as int].state is Waiting);
        assert(c.handles[c.started as int].state is Passed);
    }
}

/// Starting an operation keeps the run in order.
pub proof fn lemma_start_next_wf(m: ManagerModel)
    requires
        m.wf(),
    ensures
        m.start_next().wf(),
{
    if m.can_start() {
        let at = m.stage.index();
        match m.stage {
            Stage::Download => {
                lemma_start_wf(m.down);
                lemma_started_from_cursor(m.down, 0, at, m.cursor, m.phase);
            },
            Stage::Transcribe => {
                lemma_start_wf(m.tran);
                lemma_started_from_cursor(m.tran, 1, at, m.cursor, m.phase);
            },
            Stage::Convert => {},
            Stage::Insert => {
                lemma_start_wf(m.insd);
                lemma_started_from_cursor(m.insd, 3, at, m.cursor, m.phase);
            },
        }
    }
}

/// A running handle belongs to the stage that is drained, and lies at or
/// after the cursor.
proof fn lemma_running_is_open<I, O>(
    c: ContainerModel<I, O>,
    k: int,
    at: int,
    cursor: nat,
    phase: RunPhase,
    index: int,
)
    requires
        stage_ok(c, k, at, cursor, phase),
        c.is_running(index),
    ensures
        k == at,
        cursor <= index,
        phase is Failed ==> cursor < index,
{
    if k < at {
        assert(c.handles[index].state is Passed);
    }
    if k > at {
        assert(c.handles[index].state is Waiting);
    }
    if index < cursor {
        assert(c.handles[index].state is Passed);
    }
}

/// The end of a download keeps the run in order.
pub proof fn lemma_complete_download_wf(
    m: ManagerModel,
    index: int,
    result: Result<(), JobManagerError>,
)
    requires
        m.wf(),
    ensures
        m.complete_download(index, result).wf(),
{
    if m.down.is_running(index) {
        lemma_complete_wf(m.down, index, result);
        lemma_running_is_open(m.down, 0, m.stage.index(), m.cursor, m.phase, index);
    }
}

/// The end of a transcription keeps the run in order.
pub proof fn lemma_complete_transcribe_wf(
    m: ManagerModel,
    index: int,
    result: Result<Transcript, JobManagerError>,
)
    requires
        m.wf(),
    ensures
        m.complete_transcribe(index, result).wf(),
{
    if m.tran.is_running(index) {
        lemma_complete_wf(m.tran, index, result);
        lemma_running_is_open(m.tran, 1, m.stage.index(), m.cursor, m.phase, index);
    }
}

/// The end of an insertion keeps the run in order.
pub proof fn lemma_complete_insert_wf(
    m: ManagerModel,
    index: int,
    result: Result<(), JobManagerError>,
)
    requires
        m.wf(),
    ensures
        m.complete_insert(index, result).wf(),
{
    if m.insd.is_running(index) {
        lemma_complete_wf(m.insd, index, result);
        lemma_running_is_open(m.insd, 3, m.stage.index(), m.cursor, m.phase, index);
    }
}

/// In the conversions, while they are drained, the cursor is at the first
/// waiting handle, and nothing runs.
proof fn lemma_convert_cursor(m: ManagerModel)
    requires
        m.wf(),
        m.stage == Stage::Convert,
        m.cursor < m.conv.handles.len(),
    ensures
        m.conv.started == m.cursor,
        m.conv.handles[m.cursor as int].state is Waiting,
        m.conv.running() == 0,
{
    let c = m.conv;
    lemma_count_running_none(c.handles);
    let at = m.cursor as int;
    assert(live(c.handles[at]));
    assert(c.handles[at].state is Waiting);
    if c.started < m.cursor {
        assert(c.handles[c.started as int].state is Waiting);
        assert(c.handles[c.started as int].state is Passed);
    }
}

/// One step of draining keeps the run in order. It ends the run exactly
/// where it finds an error or the end of the last stage.
pub proof fn lemma_drain_one_wf(m: ManagerModel)
    requires
        m.wf(),
        m.phase is Draining,
    ensures
        m.drain_one().0.wf(),
        match m.drain_one().1 {
            None => m.drain_one().0.phase is Draining,
            Some(WaitStep::Pending) => m.drain_one().0 == m,
            Some(WaitStep::Done(Ok(_))) => m.drain_one().0.phase is Succeeded,
            Some(WaitStep::Done(Err(_))) => m.drain_one().0.phase is Failed,
            Some(WaitStep::Over) => false,
        },
{
    let then = m.drain_one().0;
    let at = m.cursor as int;
    if m.cursor >= m.stage_len() {
    } else {
        match m.stage {
            Stage::Download => {
                if m.down.is_finished(at) {
                    lemma_take_wf(m.down, at);
                    lemma_push_wf(m.tran, m.down.handles[at].id, ());
                }
            },
            Stage::Transcribe => {
                if m.tran.is_finished(at) {
                    lemma_take_wf(m.tran, at);
                    match m.tran.handles[at].state {
                        JobState::Finished(Ok(transcript)) => {
                            lemma_push_wf(m.conv, m.tran.handles[at].id, transcript);
                        },
                        _ => {},
                    }
                }
            },
            Stage::Convert => {
                lemma_convert_cursor(m);
                lemma_pass_wf(m.conv, at);
                let id = m.conv.handles[at].id;
                let record = EpisodeTranscript {
                    episode_id: id,
                    transcript: m.conv.handles[at].state->Waiting_0,
                };
                lemma_push_wf(m.insd, id, record);
            },
            Stage::Insert => {
                if m.insd.is_finished(at) {
                    lemma_take_wf(m.insd, at);
                }
            },
        }
    }
}

/// Draining keeps the run in order, and what it finds tells how the run
/// stands: pending while it drains, done with success when every stage is
/// drained, done with an error when it failed.
pub proof fn lemma_drain_wf(m: ManagerModel)
    requires
        m.wf(),
        m.phase is Draining,
    ensures
        m.drain().0.wf(),
        match m.drain().1 {
            WaitStep::Pending => m.drain().0.phase is Draining,
            WaitStep::Done(Ok(_)) => m.drain().0.phase is Succeeded,
            WaitStep::Done(Err(_)) => m.drain().0.phase is Failed,
            WaitStep::Over => false,
        },
    decreases m.stages_left(), m.handles_left(),
{
    lemma_drain_one_wf(m);
    if m.drain_one().1 is None {
        lemma_drain_one_progress(m);
        lemma_drain_wf(m.drain_one().0);
    }
}

/// `wait` keeps the run in order.
pub proof fn lemma_wait_wf(m: ManagerModel)
    requires
        m.wf(),
    ensures
        m.wait().0.wf(),
        match m.wait().1 {
            WaitStep::Pending => m.wait().0.phase is Draining,
            WaitStep::Done(Ok(_)) => m.wait().0.phase is Succeeded,
            WaitStep::Done(Err(_)) => m.wait().0.phase is Failed,
            WaitStep::Over => m.wait().0 == m && !m.open(),
        },
{
    if m.open() {
        let draining = ManagerModel { phase: RunPhase::Draining, ..m };
        assert(draining.wf());
        lemma_drain_wf(draining);
    }
}

/// At no time do more operations of a stage run than the stage has permits:
/// four downloads, one transcription, four conversions, four insertions.
pub proof fn lemma_bounded_concurrency(m: ManagerModel)
    requires
        m.wf(),
    ensures
        m.down.running() <= MAX_DOWNLOAD_JOBS,
        m.tran.running() <= MAX_TRANSCRIBE_JOBS,
        m.conv.running() <= MAX_CONVERT_JOBS,
        m.insd.running() <= MAX_INSERT_DB_JOBS,
{
}

/// No operation of a stage has begun before every operation of the stages
/// before it was drained with success: where a transcription is no longer
/// waiting, every download has passed; where a conversion is no longer
/// waiting, every download and every transcription has passed; and so for the
/// insertions.
pub proof fn lemma_stage_order(m: ManagerModel)
    requires
        m.wf(),
    ensures
        !m.tran.all_waiting() ==> m.down.all_passed(),
        !m.conv.all_waiting() ==> m.down.all_passed() && m.tran.all_passed(),
        !m.insd.all_waiting() ==> m.down.all_passed() && m.tran.all_passed()
            && m.conv.all_passed(),
{
}

/// A run fails only with a handle that failed, and that handle lies under
/// the cursor in the stage that was being drained.
pub proof fn lemma_failure_has_a_failed_handle(m: ManagerModel)
    requires
        m.wf(),
        m.phase is Failed,
    ensures
        m.cursor < m.stage_len(),
        match m.stage {
            Stage::Download => m.down.handles[m.cursor as int].state is Failed,
            Stage::Transcribe => m.tran.handles[m.cursor as int].state is Failed,
            Stage::Convert => false,
            Stage::Insert => m.insd.handles[m.cursor as int].state is Failed,
        },
{
}

/// Whether the handle under the cursor of the open stage has not finished:
/// it waits or runs.
pub open spec fn blocked(m: ManagerModel) -> bool {
    let at = m.cursor as int;
    &&& m.cursor < m.stage_len()
    &&& match m.stage {
        Stage::Download => m.down.handles[at].state is Waiting || m.down.handles[at].state
            is Running,
        Stage::Transcribe => m.tran.handles[at].state is Waiting || m.tran.handles[at].state
            is Running,
        Stage::Convert => false,
        Stage::Insert => m.insd.handles[at].state is Waiting || m.insd.handles[at].state
            is Running,
    }
}

/// The drain stops short of the end only at a handle that has not finished
/// or at one that failed: while every operation succeeds and is reported,
/// `wait` goes on to the end of the last stage.
pub proof fn lemma_drain_stops_at_unfinished(m: ManagerModel)
    requires
        m.wf(),
        m.phase is Draining,
    ensures
        m.drain().1 is Pending ==> blocked(m.drain().0),
    decreases m.stages_left(), m.handles_left(),
{
    lemma_drain_one_wf(m);
    if m.drain_one().1 is None {
        lemma_drain_one_progress(m);
        lemma_drain_stops_at_unfinished(m.drain_one().0);
    } else if m.drain_one().1 == Some(WaitStep::Pending) {
        if m.stage == Stage::Convert {
            lemma_convert_cursor(m);
        }
    }
}

/// When a run has succeeded, every handle of every stage has passed, and the
/// insertions hold exactly one record for each conversion, the conversions
/// one handle for each transcription after those added from outside, and the
/// transcriptions one handle for each download after those added from
/// outside: each for the same episode and in the same order.
pub proof fn lemma_success_passes_every_episode(m: ManagerModel)
    requires
        m.wf(),
        m.phase is Succeeded,
    ensures
        m.down.all_passed(),
        m.tran.all_passed(),
        m.conv.all_passed(),
        m.insd.all_passed(),
        follows(m.down, m.tran, m.tran_direct, m.down.handles.len()),
        follows(m.tran, m.conv, m.conv_direct, m.tran.handles.len()),
        follows(m.conv, m.insd, 0, m.conv.handles.len()),
{
}

/// For every episode that was given to `run_download`, and nothing else
/// given to the run: when the run has succeeded, exactly one record was
/// passed to the insertions for each of these episodes, in the order they
/// were given, and each was inserted.
pub proof fn lemma_success_inserts_each_episode_once(m: ManagerModel)
    requires
        m.wf(),
        m.phase is Succeeded,
        m.tran_direct == 0,
        m.conv_direct == 0,
    ensures
        m.insd.ids() == m.down.ids(),
        m.insd.all_passed(),
{
    lemma_success_passes_every_episode(m);
    assert(m.insd.handles.len() == m.down.handles.len());
    assert forall|k: int| 0 <= k < m.down.handles.len() implies m.insd.handles[k].id
        == m.down.handles[k].id by {
        assert(m.insd.handles[0 + k].id == m.conv.handles[k].id);
        assert(m.conv.handles[0 + k].id == m.tran.handles[k].id);
        assert(m.tran.handles[0 + k].id == m.down.handles[k].id);
    }
    assert(m.insd.ids() =~= m.down.ids());
}

/// The job manager of one run.
pub struct JobManager {
    conv_jobs: JobContainer<Transcript, EpisodeTranscript>,
    tran_jobs: JobContainer<(), Transcript>,
    down_jobs: JobContainer<(), ()>,
    insd_jobs: JobContainer<EpisodeTranscript, ()>,
    stage: Stage,
    cursor: usize,
    phase: RunPhase,
    tran_direct: Ghost<nat>,
    conv_direct: Ghost<nat>,
}

impl View for JobManager {
    type V = ManagerModel;

    closed spec fn view(&self) -> ManagerModel {
        ManagerModel {
            down: self.down_jobs@,
            tran: self.tran_jobs@,
            conv: self.conv_jobs@,
            insd: self.insd_jobs@,
            stage: self.stage,
            cursor: self.cursor as nat,
            phase: self.phase,
            tran_direct: self.tran_direct@,
            conv_direct: self.conv_direct@,
        }
    }
}

impl JobManager {
    /// In each stage the permits that are held are those of the running
    /// operations.
    pub closed spec fn permits_match(&self) -> bool {
        &&& self.down_jobs.permits_match()
        &&& self.tran_jobs.permits_match()
        &&& self.conv_jobs.permits_match()
        &&& self.insd_jobs.permits_match()
    }

    /// The manager is in order.
    pub open spec fn wf(&self) -> bool {
        self@.wf() && self.permits_match()
    }

    /// A manager without handles, with the permits of each stage.
    pub fn new() -> (manager: JobManager)
        ensures
            manager.wf(),
            manager@ == ManagerModel::empty(),
    {
        proof {
            lemma_empty_wf();
        }
        JobManager {
            conv_jobs: JobContainer::new(MAX_CONVERT_JOBS),
            tran_jobs: JobContainer::new(MAX_TRANSCRIBE_JOBS),
            down_jobs: JobContainer::new(MAX_DOWNLOAD_JOBS),
            insd_jobs: JobContainer::new(MAX_INSERT_DB_JOBS),
            stage: Stage::Download,
            cursor: 0,
            phase: RunPhase::Accepting,
            tran_direct: Ghost(0),
            conv_direct: Ghost(0),
        }
    }

    /// The stage whose operations may run.
    pub fn stage(&self) -> (stage: Stage)
        ensures
            stage == self@.stage,
    {
        self.stage
    }

    /// How far the run has come.
    pub fn phase(&self) -> (phase: RunPhase)
        ensures
            phase == self@.phase,
    {
        self.phase
    }

    /// How many handles `stage` has.
    pub fn jobs(&self, stage: Stage) -> (n: usize)
        ensures
            n == match stage {
                Stage::Download => self@.down.handles.len(),
                Stage::Transcribe => self@.tran.handles.len(),
                Stage::Convert => self@.conv.handles.len(),
                Stage::Insert => self@.insd.handles.len(),
            },
    {
        match stage {
            Stage::Download => self.down_jobs.len(),
            Stage::Transcribe => self.tran_jobs.len(),
            Stage::Convert => self.conv_jobs.len(),
            Stage::Insert => self.insd_jobs.len(),
        }
    }

    /// How many operations of `stage` run right now: never more than the
    /// stage has permits.
    pub fn running(&self, stage: Stage) -> (n: usize)
        requires
            self.wf(),
        ensures
            n == match stage {
                Stage::Download => self@.down.running(),
                Stage::Transcribe => self@.tran.running(),
                Stage::Convert => self@.conv.running(),
                Stage::Insert => self@.insd.running(),
            },
            n <= match stage {
                Stage::Download => MAX_DOWNLOAD_JOBS,
                Stage::Transcribe => MAX_TRANSCRIBE_JOBS,
                Stage::Convert => MAX_CONVERT_JOBS,
                Stage::Insert => MAX_INSERT_DB_JOBS,
            },
    {
        match stage {
            Stage::Download => self.down_jobs.running(),
            Stage::Transcribe => self.tran_jobs.running(),
            Stage::Convert => self.conv_jobs.running(),
            Stage::Insert => self.insd_jobs.running(),
        }
    }

    /// Adds a download of episode `id`. A run that is being drained, or has
    /// ended, takes no more: it stays as it is and the answer is `false`.
    pub fn run_download(&mut self, id: u32) -> (accepted: bool)
        requires
            old(self).wf(),
        ensures
            final(self).wf(),
            accepted == old(self)@.accepting(),
            final(self)@ == old(self)@.run_download(id),
    {
        proof {
            lemma_run_download_wf(self@, id);
        }
        match self.phase {
            RunPhase::Accepting => {
                self.down_jobs.push(id, ());
                true
            },
            _ => false,
        }
    }

    /// Adds a transcription of episode `id`, whose normalized audio is
    /// already in place. A run that is being drained, or has ended, takes no
    /// more: it stays as it is and the answer is `false`.
    pub fn run_transcribe(&mut self, id: u32) -> (accepted: bool)
        requires
            old(self).wf(),
        ensures
            final(self).wf(),
            accepted == old(self)@.accepting(),
            final(self)@ == old(self)@.run_transcribe(id),
    {
        proof {
            lemma_run_transcribe_wf(self@, id);
        }
        match self.phase {
            RunPhase::Accepting => {
                self.tran_jobs.push(id, ());
                self.tran_direct = Ghost((self.tran_direct@ + 1) as nat);
                true
            },
            _ => false,
        }
    }

    /// Adds a conversion of `transcript` for episode `id`. A run that is
    /// being drained, or has ended, takes no more: it stays as it is and the
    /// answer is `false`.
    pub fn run_convert(&mut self, id: u32, transcript: Transcript) -> (accepted: bool)
        requires
            old(self).wf(),
        ensures
            final(self).wf(),
            accepted == old(self)@.accepting(),
            final(self)@ == old(self)@.run_convert(id, transcript),
    {
        proof {
            lemma_run_convert_wf(self@, id, transcript);
        }
        match self.phase {
            RunPhase::Accepting => {
                self.conv_jobs.push(id, transcript);
                self.conv_direct = Ghost((self.conv_direct@ + 1) as nat);
                true
            },
            _ => false,
        }
    }

    /// Starts the first waiting operation of the open stage, if a permit is
    /// free, and gives the work to do. No operation of a stage starts before
    /// every handle of the stages before it was drained.
    pub fn start_next(&mut self) -> (task: Option<Task>)
        requires
            old(self).wf(),
        ensures
            final(self).wf(),
            final(self)@ == old(self)@.start_next(),
            task is Some == old(self)@.can_start(),
            match task {
                Some(Task::Download(index, id)) => {
                    &&& old(self)@.stage == Stage::Download
                    &&& index == old(self)@.down.started
                    &&& id == old(self)@.down.handles[index as int].id
                },
                Some(Task::Transcribe(index, id)) => {
                    &&& old(self)@.stage == Stage::Transcribe
                    &&& index == old(self)@.tran.started
                    &&& id == old(self)@.tran.handles[index as int].id
                    &&& old(self)@.down.all_passed()
                },
                Some(Task::Insert(index, record)) => {
                    &&& old(self)@.stage == Stage::Insert
                    &&& index == old(self)@.insd.started
                    &&& old(self)@.insd.handles[index as int].state == JobState::<
                        EpisodeTranscript,
                        (),
                    >::Waiting(record)
                    &&& record.episode_id == old(self)@.insd.handles[index as int].id
                    &&& old(self)@.down.all_passed()
                    &&& old(self)@.tran.all_passed()
                    &&& old(self)@.conv.all_passed()
                },
                None => true,
            },
    {
        proof {
            lemma_start_next_wf(self@);
        }
        match self.phase {
            RunPhase::Succeeded | RunPhase::Failed => {
                return None;
            },
            _ => {},
        }
        match self.stage {
            Stage::Download => match self.down_jobs.start_next() {
                Some((index, id, _)) => Some(Task::Download(index, id)),
                None => None,
            },
            Stage::Transcribe => match self.tran_jobs.start_next() {
                Some((index, id, _)) => Some(Task::Transcribe(index, id)),
                None => None,
            },
            Stage::Convert => None,
            Stage::Insert => match self.insd_jobs.start_next() {
                Some((index, _, record)) => Some(Task::Insert(index, record)),
                None => None,
            },
        }
    }

    /// Records that the running download `index` has ended with `result`,
    /// and gives its permit back. Where no such download runs nothing
    /// changes, and the answer is `false`.
    pub fn complete_download(&mut self, index: usize, result: Result<(), JobManagerError>) -> (done:
        bool)
        requires
            old(self).wf(),
        ensures
            final(self).wf(),
            done == old(self)@.down.is_running(index as int),
            final(self)@ == old(self)@.complete_download(index as int, result),
    {
        proof {
            lemma_complete_download_wf(self@, index as int, result);
        }
        self.down_jobs.complete(index, result)
    }

    /// Records that the running transcription `index` has ended with
    /// `result`, and gives its permit back. Where no such transcription runs
    /// nothing changes, and the answer is `false`.
    pub fn complete_transcribe(
        &mut self,
        index: usize,
        result: Result<Transcript, JobManagerError>,
    ) -> (done: bool)
        requires
            old(self).wf(),
        ensures
            final(self).wf(),
            done == old(self)@.tran.is_running(index as int),
            final(self)@ == old(self)@.complete_transcribe(index as int, result),
    {
        proof {
            lemma_complete_transcribe_wf(self@, index as int, result);
        }
        self.tran_jobs.complete(index, result)
    }

    /// Records that the running insertion `index` has ended with `result`,
    /// and gives its permit back. Where no such insertion runs nothing
    /// changes, and the answer is `false`.
    pub fn complete_insert(&mut self, index: usize, result: Result<(), JobManagerError>) -> (done:
        bool)
        requires
            old(self).wf(),
        ensures
            final(self).wf(),
            done == old(self)@.insd.is_running(index as int),
            final(self)@ == old(self)@.complete_insert(index as int, result),
    {
        proof {
            lemma_complete_insert_wf(self@, index as int, result);
        }
        self.insd_jobs.complete(index, result)
    }

    /// One step of draining.
    fn drain_one(&mut self) -> (found: Option<WaitStep>)
        requires
            old(self).wf(),
            old(self)@.phase is Draining,
        ensures
            final(self).wf(),
            (final(self)@, found) == old(self)@.drain_one(),
    {
        proof {
            lemma_drain_one_wf(self@);
        }
        let at = self.cursor;
        match self.stage {
            Stage::Download => {
                if at >= self.down_jobs.len() {
                    self.stage = Stage::Transcribe;
                    self.cursor = 0;
                    return None;
                }
                match self.down_jobs.take(at) {
                    Some((id, Ok(_))) => {
                        self.tran_jobs.push(id, ());
                        self.cursor = at + 1;
                        None
                    },
                    Some((_, Err(e))) => {
                        self.phase = RunPhase::Failed;
                        Some(WaitStep::Done(Err(e)))
                    },
                    None => Some(WaitStep::Pending),
                }
            },
            Stage::Transcribe => {
                if at >= self.tran_jobs.len() {
                    self.stage = Stage::Convert;
                    self.cursor = 0;
                    return None;
                }
                match self.tran_jobs.take(at) {
                    Some((id, Ok(transcript))) => {
                        self.conv_jobs.push(id, transcript);
                        self.cursor = at + 1;
                        None
                    },
                    Some((_, Err(e))) => {
                        self.phase = RunPhase::Failed;
                        Some(WaitStep::Done(Err(e)))
                    },
                    None => Some(WaitStep::Pending),
                }
            },
            Stage::Convert => {
                if at >= self.conv_jobs.len() {
                    self.stage = Stage::Insert;
                    self.cursor = 0;
                    return None;
                }
                proof {
                    lemma_convert_cursor(self@);
                }
                let ghost before = self.conv_jobs@;
                match self.conv_jobs.start_next() {
                    Some((index, id, transcript)) => {
                        let record = EpisodeTranscript::new(id, transcript);
                        let ghost made = record;
                        proof {
                            lemma_start_wf(before);
                        }
                        self.conv_jobs.complete(index, Ok(record));
                        match self.conv_jobs.take(index) {
                            Some((_, Ok(record))) => {
                                assert(record == made);
                                assert(self.conv_jobs@.handles =~= before.pass(at as int).handles);
                                self.insd_jobs.push(id, record);
                                self.cursor = at + 1;
                                None
                            },
                            _ => Some(WaitStep::Pending),
                        }
                    },
                    None => Some(WaitStep::Pending),
                }
            },
            Stage::Insert => {
                if at >= self.insd_jobs.len() {
                    self.phase = RunPhase::Succeeded;
                    return Some(WaitStep::Done(Ok(())));
                }
                match self.insd_jobs.take(at) {
                    Some((_, Ok(_))) => {
                        self.cursor = at + 1;
                        None
                    },
                    Some((_, Err(e))) => {
                        self.phase = RunPhase::Failed;
                        Some(WaitStep::Done(Err(e)))
                    },
                    None => Some(WaitStep::Pending),
                }
            },
        }
    }

    /// Drains what has finished, stage after stage in their order, and says
    /// how the run stands.
    ///
    /// In the open stage the handles are taken in the order they were made.
    /// Each one that succeeded gives the next stage a handle for the same
    /// episode; the first that failed ends the run with its error, and
    /// nothing more is drained or started; one that has not finished stops
    /// the drain until its result is reported. When every handle of a stage
    /// is drained the next stage opens, and after the last stage the run has
    /// succeeded.
    pub fn wait(&mut self) -> (step: WaitStep)
        requires
            old(self).wf(),
        ensures
            final(self).wf(),
            (final(self)@, step) == old(self)@.wait(),
    {
        match self.phase {
            RunPhase::Succeeded | RunPhase::Failed => {
                return WaitStep::Over;
            },
            _ => {},
        }
        self.phase = RunPhase::Draining;
        loop
            invariant
                self.wf(),
                self@.phase is Draining,
                self@.drain() == old(self)@.wait(),
            decreases self@.stages_left(), self@.handles_left(),
        {
            let ghost before = self@;
            let found = self.drain_one();
            match found {
                Some(step) => {
                    return step;
                },
                None => {
                    proof {
                        lemma_drain_one_progress(before);
                        lemma_drain_one_wf(before);
                    }
                },
            }
        }
    }
}

} // verus!
