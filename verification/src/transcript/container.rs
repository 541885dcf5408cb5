//! The task handles of one stage, in the order they were made, behind the
//! stage's permits.

use crate::transcript::error::JobManagerError;
use crate::transcript::executor::StageExecutor;
use vstd::prelude::*;

verus! {

/// What has become of one operation.
pub enum JobState<I, O> {
    /// Made, and waiting for a permit. It holds its input.
    Waiting(I),
    /// Running under a permit. Its input is with whoever does the work.
    Running,
    /// Ended, with its permit given back. Its result waits to be drained.
    Finished(Result<O, JobManagerError>),
    /// Drained: it had succeeded and its output went on to the next stage.
    Passed,
    /// Drained: it had failed and its error ended the run.
    Failed,
}

/// The handle of one operation: the episode it works for, and its state.
pub struct JobHandle<I, O> {
    pub id: u32,
    pub state: JobState<I, O>,
}

/// How many of `handles` are running.
pub open spec fn count_running<I, O>(handles: Seq<JobHandle<I, O>>) -> nat
    decreases handles.len(),
{
    if handles.len() == 0 {
        0
    } else {
        count_running(handles.drop_last()) + if handles.last().state is Running {
            1nat
        } else {
            0nat
        }
    }
}

/// One more handle counts if and only if it is running.
pub proof fn lemma_count_running_push<I, O>(handles: Seq<JobHandle<I, O>>, handle: JobHandle<I, O>)
    ensures
        count_running(handles.push(handle)) == count_running(handles) + if handle.state
            is Running {
            1nat
        } else {
            0nat
        },
{
    assert(handles.push(handle).drop_last() =~= handles);
}

/// Replacing a handle changes the count by what the old and the new one
/// count.
pub proof fn lemma_count_running_update<I, O>(
    handles: Seq<JobHandle<I, O>>,
    index: int,
    handle: JobHandle<I, O>,
)
    requires
        0 <= index < handles.len(),
    ensures
        count_running(handles.update(index, handle)) + (if handles[index].state is Running {
            1nat
        } else {
            0nat
        }) == count_running(handles) + (if handle.state is Running {
            1nat
        } else {
            0nat
        }),
    decreases handles.len(),
{
    let updated = handles.update(index, handle);
    if index == handles.len() - 1 {
        assert(updated.drop_last() =~= handles.drop_last());
    } else {
        assert(updated.drop_last() =~= handles.drop_last().update(index, handle));
        lemma_count_running_update(handles.drop_last(), index, handle);
    }
}

/// Where no handle is running, the count is zero.
pub proof fn lemma_count_running_none<I, O>(handles: Seq<JobHandle<I, O>>)
    requires
        forall|i: int| 0 <= i < handles.len() ==> !(#[trigger] handles[i].state is Running),
    ensures
        count_running(handles) == 0,
    decreases handles.len(),
{
    if handles.len() > 0 {
        lemma_count_running_none(handles.drop_last());
    }
}

/// The handles of one stage as a mathematical value.
pub struct ContainerModel<I, O> {
    /// The handles, in the order they were made.
    pub handles: Seq<JobHandle<I, O>>,
    /// How many handles have been started: they are the first ones.
    pub started: nat,
    /// The stage's number of permits.
    pub limit: nat,
}

impl<I, O> ContainerModel<I, O> {
    /// How many operations run right now.
    pub open spec fn running(self) -> nat {
        count_running(self.handles)
    }

    /// The started handles come first and the waiting ones after them, and
    /// no more operations run than the stage has permits.
    pub open spec fn wf(self) -> bool {
        &&& self.started <= self.handles.len()
        &&& forall|i: int| 0 <= i < self.started ==> !(#[trigger] self.handles[i].state is Waiting)
        &&& forall|i: int|
            self.started <= i < self.handles.len() ==> #[trigger] self.handles[i].state is Waiting
        &&& self.running() <= self.limit
    }

    /// With one more handle, which waits.
    pub open spec fn push(self, id: u32, input: I) -> Self {
        ContainerModel {
            handles: self.handles.push(JobHandle { id, state: JobState::Waiting(input) }),
            ..self
        }
    }

    /// Whether a handle waits and a permit is free.
    pub open spec fn can_start(self) -> bool {
        self.started < self.handles.len() && self.running() < self.limit
    }

    /// With the first waiting handle running.
    pub open spec fn start(self) -> Self {
        ContainerModel {
            handles: self.handles.update(
                self.started as int,
                JobHandle { id: self.handles[self.started as int].id, state: JobState::Running },
            ),
            started: self.started + 1,
            ..self
        }
    }

    /// Whether handle `index` is running.
    pub open spec fn is_running(self, index: int) -> bool {
        0 <= index < self.handles.len() && self.handles[index].state is Running
    }

    /// With handle `index` finished with `result`.
    pub open spec fn complete(self, index: int, result: Result<O, JobManagerError>) -> Self {
        ContainerModel {
            handles: self.handles.update(
                index,
                JobHandle { id: self.handles[index].id, state: JobState::Finished(result) },
            ),
            ..self
        }
    }

    /// Whether handle `index` has finished and was not drained yet.
    pub open spec fn is_finished(self, index: int) -> bool {
        0 <= index < self.handles.len() && self.handles[index].state is Finished
    }

    /// With the finished handle `index` drained.
    pub open spec fn take(self, index: int) -> Self {
        ContainerModel {
            handles: self.handles.update(
                index,
                JobHandle {
                    id: self.handles[index].id,
                    state: if self.handles[index].state->Finished_0 is Ok {
                        JobState::Passed
                    } else {
                        JobState::Failed
                    },
                },
            ),
            ..self
        }
    }

    /// With the waiting handle `index` started, finished with success and
    /// drained, all at once.
    pub open spec fn pass(self, index: int) -> Self {
        ContainerModel {
            handles: self.handles.update(
                index,
                JobHandle { id: self.handles[index].id, state: JobState::Passed },
            ),
            started: self.started + 1,
            ..self
        }
    }

    /// Whether every handle was drained after it had succeeded.
    pub open spec fn all_passed(self) -> bool {
        forall|i: int| 0 <= i < self.handles.len() ==> #[trigger] self.handles[i].state is Passed
    }

    /// Whether every handle still waits.
    pub open spec fn all_waiting(self) -> bool {
        forall|i: int| 0 <= i < self.handles.len() ==> #[trigger] self.handles[i].state is Waiting
    }

    /// The episode of each handle, in order.
    pub open spec fn ids(self) -> Seq<u32> {
        self.handles.map_values(|h: JobHandle<I, O>| h.id)
    }
}

/// A new handle leaves the container in order, with as many running as before.
pub proof fn lemma_push_wf<I, O>(c: ContainerModel<I, O>, id: u32, input: I)
    requires
        c.wf(),
    ensures
        c.push(id, input).wf(),
        c.push(id, input).running() == c.running(),
{
    lemma_count_running_push(c.handles, JobHandle { id, state: JobState::Waiting(input) });
}

/// Starting a handle under a free permit leaves the container in order.
pub proof fn lemma_start_wf<I, O>(c: ContainerModel<I, O>)
    requires
        c.wf(),
        c.can_start(),
    ensures
        c.start().wf(),
        c.start().running() == c.running() + 1,
{
    lemma_count_running_update(
        c.handles,
        c.started as int,
        JobHandle { id: c.handles[c.started as int].id, state: JobState::Running },
    );
}

/// The end of a running operation leaves the container in order and frees a
/// permit.
pub proof fn lemma_complete_wf<I, O>(
    c: ContainerModel<I, O>,
    index: int,
    result: Result<O, JobManagerError>,
)
    requires
        c.wf(),
        c.is_running(index),
    ensures
        c.complete(index, result).wf(),
        c.complete(index, result).running() + 1 == c.running(),
        index < c.started,
{
    lemma_count_running_update(
        c.handles,
        index,
        JobHandle { id: c.handles[index].id, state: JobState::Finished(result) },
    );
}

/// Draining a finished handle leaves the container in order.
pub proof fn lemma_take_wf<I, O>(c: ContainerModel<I, O>, index: int)
    requires
        c.wf(),
        c.is_finished(index),
    ensures
        c.take(index).wf(),
        c.take(index).running() == c.running(),
        index < c.started,
{
    lemma_count_running_update(c.handles, index, c.take(index).handles[index]);
}

/// Doing the first waiting operation on the spot leaves the container in
/// order.
pub proof fn lemma_pass_wf<I, O>(c: ContainerModel<I, O>, index: int)
    requires
        c.wf(),
        index == c.started,
        index < c.handles.len(),
    ensures
        c.pass(index).wf(),
        c.pass(index).running() == c.running(),
{
    lemma_count_running_update(
        c.handles,
        index,
        JobHandle { id: c.handles[index].id, state: JobState::Passed },
    );
}

/// The task handles of one stage and the stage's permits.
pub struct JobContainer<I, O> {
    sem: StageExecutor,
    jobs: Vec<JobHandle<I, O>>,
    started: usize,
}

impl<I, O> View for JobContainer<I, O> {
    type V = ContainerModel<I, O>;

    closed spec fn view(&self) -> ContainerModel<I, O> {
        ContainerModel {
            handles: self.jobs@,
            started: self.started as nat,
            limit: self.sem.limit(),
        }
    }
}

impl<I, O> JobContainer<I, O> {
    /// The permits that are held are those of the running operations.
    pub closed spec fn permits_match(&self) -> bool {
        self.sem.wf() && self.sem.in_use() == count_running(self.jobs@)
    }

    /// The container is in order.
    pub open spec fn wf(&self) -> bool {
        self@.wf() && self.permits_match()
    }

    /// A stage with `max` permits and no handles.
    pub fn new(max: usize) -> (container: Self)
        ensures
            container.wf(),
            container@ == (ContainerModel::<I, O> {
                handles: Seq::empty(),
                started: 0,
                limit: max as nat,
            }),
    {
        JobContainer { sem: StageExecutor::new(max), jobs: Vec::new(), started: 0 }
    }

    /// How many handles the stage has.
    pub fn len(&self) -> (n: usize)
        ensures
            n == self@.handles.len(),
    {
        self.jobs.len()
    }

    /// How many operations run right now.
    pub fn running(&self) -> (n: usize)
        requires
            self.wf(),
        ensures
            n == self@.running(),
            n <= self@.limit,
    {
        self.sem.active()
    }

    /// The stage's number of permits.
    pub fn limit(&self) -> (n: usize)
        ensures
            n == self@.limit,
    {
        self.sem.max_jobs()
    }

    /// The episode of handle `index`, if there is such a handle.
    pub fn id_at(&self, index: usize) -> (id: Option<u32>)
        ensures
            id == if index < self@.handles.len() {
                Some(self@.handles[index as int].id)
            } else {
                None
            },
    {
        if index < self.jobs.len() {
            Some(self.jobs[index].id)
        } else {
            None
        }
    }

    /// Adds a handle for episode `id` with `input`. It waits for a permit.
    pub fn push(&mut self, id: u32, input: I)
        requires
            old(self).wf(),
        ensures
            final(self).wf(),
            final(self)@ == old(self)@.push(id, input),
    {
        proof {
            lemma_count_running_push(self.jobs@, JobHandle { id, state: JobState::Waiting(input) });
        }
        self.jobs.push(JobHandle { id, state: JobState::Waiting(input) });
    }

    /// Starts the first waiting handle if a permit is free, and gives its
    /// index, its episode and its input.
    pub fn start_next(&mut self) -> (task: Option<(usize, u32, I)>)
        requires
            old(self).wf(),
        ensures
            final(self).wf(),
            match task {
                Some((index, id, input)) => {
                    &&& old(self)@.can_start()
                    &&& index == old(self)@.started
                    &&& old(self)@.handles[index as int] == (JobHandle {
                        id,
                        state: JobState::<I, O>::Waiting(input),
                    })
                    &&& final(self)@ == old(self)@.start()
                },
                None => !old(self)@.can_start() && final(self)@ == old(self)@,
            },
    {
        if self.started >= self.jobs.len() {
            return None;
        }
        if !self.sem.try_acquire() {
            return None;
        }
        let index = self.started;
        let ghost before = self.jobs@;
        let slot = &mut self.jobs[index];
        let id = slot.id;
        let mut state = JobState::Running;
        std::mem::swap(&mut slot.state, &mut state);
        self.started = self.started + 1;
        proof {
            lemma_count_running_update(
                before,
                index as int,
                JobHandle { id, state: JobState::Running },
            );
            assert(self.jobs@ =~= before.update(
                index as int,
                JobHandle { id, state: JobState::Running },
            ));
        }
        match state {
            JobState::Waiting(input) => Some((index, id, input)),
            _ => None,
        }
    }

    /// Records that the running handle `index` has ended with `result`, and
    /// gives its permit back. For a handle that is not running nothing
    /// changes, and the answer is `false`.
    pub fn complete(&mut self, index: usize, result: Result<O, JobManagerError>) -> (done: bool)
        requires
            old(self).wf(),
        ensures
            final(self).wf(),
            done == old(self)@.is_running(index as int),
            done ==> final(self)@ == old(self)@.complete(index as int, result),
            !done ==> final(self)@ == old(self)@,
    {
        if index >= self.jobs.len() {
            return false;
        }
        let running = match &self.jobs[index].state {
            JobState::Running => true,
            _ => false,
        };
        if !running {
            return false;
        }
        let ghost before = self.jobs@;
        let ghost after = JobHandle::<I, O> {
            id: before[index as int].id,
            state: JobState::Finished(result),
        };
        let slot = &mut self.jobs[index];
        slot.state = JobState::Finished(result);
        proof {
            lemma_count_running_update(before, index as int, after);
            assert(self.jobs@ =~= before.update(index as int, after));
            assert(index < self.started);
        }
        self.sem.release();
        true
    }

    /// Drains handle `index` if it has finished: gives its episode and its
    /// result, and marks it as passed or failed. For a handle that has not
    /// finished, or was drained before, nothing changes and the answer is
    /// `None`.
    pub fn take(&mut self, index: usize) -> (result: Option<(u32, Result<O, JobManagerError>)>)
        requires
            old(self).wf(),
        ensures
            final(self).wf(),
            match result {
                Some((id, r)) => {
                    &&& old(self)@.is_finished(index as int)
                    &&& old(self)@.handles[index as int] == (JobHandle {
                        id,
                        state: JobState::<I, O>::Finished(r),
                    })
                    &&& final(self)@ == old(self)@.take(index as int)
                },
                None => !old(self)@.is_finished(index as int) && final(self)@ == old(self)@,
            },
    {
        if index >= self.jobs.len() {
            return None;
        }
        let succeeded = match &self.jobs[index].state {
            JobState::Finished(r) => r.is_ok(),
            _ => {
                return None;
            },
        };
        let ghost before = self.jobs@;
        let mut state = if succeeded {
            JobState::Passed
        } else {
            JobState::Failed
        };
        let ghost after = JobHandle::<I, O> { id: before[index as int].id, state };
        let slot = &mut self.jobs[index];
        let id = slot.id;
        std::mem::swap(&mut slot.state, &mut state);
        proof {
            lemma_count_running_update(before, index as int, after);
            assert(self.jobs@ =~= before.update(index as int, after));
            assert(index < self.started);
        }
        match state {
            JobState::Finished(r) => Some((id, r)),
            _ => None,
        }
    }
}

} // verus!
