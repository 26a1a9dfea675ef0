//! The orchestrator: the one owner of the job registry, the ready queue, the
//! persistence registry, the two slot counters and the record of the jobs
//! that hold a network slot.
//!
//! A [`JobManager`] takes one message at a time and answers with the effects
//! that its caller is to carry out, in order. [`next`] says what each message
//! does; [`JobManager::handle_message`] does it. What holds of every state
//! that is reached is said by [`ManagerView::wf`] and [`ManagerView::within`],
//! and proved of [`next`] and [`ticked`].

use vstd::prelude::*;
use std::collections::VecDeque;
use crate::invariants::lemma_caps_hold;
use crate::invariants::lemma_invariant_holds;
use crate::models::DownloadProgressPayload;
use crate::models::Job;
use crate::models::JobMessage;
use crate::models::JobStatus;
use crate::models::QueuedJob;
use crate::models::FULL_PERCENT;

verus! {

/// The two caps on concurrency: on jobs that use the network, and on worker
/// processes.
#[derive(Debug, Clone, Copy)]
pub struct Caps {
    pub max_concurrent_downloads: u32,
    pub max_total_instances: u32,
}

/// What the orchestrator asks of its caller.
#[derive(Debug, PartialEq, Eq)]
pub enum Effect {
    /// Answer the sender of `AddJob`.
    AddJobReply(Result<(), String>),
    /// Write these jobs to the persistence file, replacing what it holds.
    Persist(Vec<QueuedJob>),
    /// Stop the worker process and its children.
    KillProcess { pid: u32 },
    /// Tell the user interface of a failure.
    EmitError { job_id: u128, error: String },
    /// Tell the user interface of a completion.
    EmitComplete { job_id: u128, output_path: String },
    /// Tell the user interface of the latest progress of these jobs.
    EmitBatch(Vec<DownloadProgressPayload>),
    /// Start a supervisor for this job.
    SpawnSupervisor(QueuedJob),
    /// Notify the user that the queue is processed.
    Notify { count: u32 },
    /// Empty the staging directory.
    SweepStaging,
    /// Delete the persistence file.
    RemovePersistenceFile,
    /// Answer the sender of `GetPendingCount`.
    PendingCountReply(u32),
    /// Answer the sender of `ResumePending`.
    ResumeReply(Vec<QueuedJob>),
    /// Show this aggregate progress, in hundredths of a percent.
    SetIndicator { progress: u32, is_error: bool },
    /// Show no aggregate progress.
    ClearIndicator,
}

/// The view of an [`Effect`].
pub enum EffectView {
    AddJobReply(Result<(), Seq<char>>),
    Persist(Seq<QueuedJob>),
    KillProcess { pid: u32 },
    EmitError { job_id: u128, error: Seq<char> },
    EmitComplete { job_id: u128, output_path: Seq<char> },
    EmitBatch(Seq<DownloadProgressPayload>),
    SpawnSupervisor(QueuedJob),
    Notify { count: u32 },
    SweepStaging,
    RemovePersistenceFile,
    PendingCountReply(u32),
    ResumeReply(Seq<QueuedJob>),
    SetIndicator { progress: u32, is_error: bool },
    ClearIndicator,
}

impl View for Effect {
    type V = EffectView;

    open spec fn view(&self) -> EffectView {
        match self {
            Effect::AddJobReply(Ok(_)) => EffectView::AddJobReply(Ok(())),
            Effect::AddJobReply(Err(reason)) => EffectView::AddJobReply(Err(reason@)),
            Effect::Persist(jobs) => EffectView::Persist(jobs@),
            Effect::KillProcess { pid } => EffectView::KillProcess { pid: *pid },
            Effect::EmitError { job_id, error } => EffectView::EmitError {
                job_id: *job_id,
                error: error@,
            },
            Effect::EmitComplete { job_id, output_path } => EffectView::EmitComplete {
                job_id: *job_id,
                output_path: output_path@,
            },
            Effect::EmitBatch(updates) => EffectView::EmitBatch(updates@),
            Effect::SpawnSupervisor(job) => EffectView::SpawnSupervisor(*job),
            Effect::Notify { count } => EffectView::Notify { count: *count },
            Effect::SweepStaging => EffectView::SweepStaging,
            Effect::RemovePersistenceFile => EffectView::RemovePersistenceFile,
            Effect::PendingCountReply(count) => EffectView::PendingCountReply(*count),
            Effect::ResumeReply(jobs) => EffectView::ResumeReply(jobs@),
            Effect::SetIndicator { progress, is_error } => EffectView::SetIndicator {
                progress: *progress,
                is_error: *is_error,
            },
            Effect::ClearIndicator => EffectView::ClearIndicator,
        }
    }
}

/// The views of a run of effects.
pub open spec fn effect_views(effects: Seq<Effect>) -> Seq<EffectView> {
    effects.map_values(|e: Effect| e@)
}

/// The state of the orchestrator.
pub struct ManagerView {
    /// The jobs of this session, in the order in which they came.
    pub jobs: Seq<Job>,
    /// The jobs that wait for a slot, the next one first.
    pub queue: Seq<QueuedJob>,
    /// The jobs that the persistence file is to hold, in the order in which
    /// they came.
    pub registry: Seq<QueuedJob>,
    pub active_network_jobs: u32,
    pub active_process_instances: u32,
    /// The ids of the jobs that were dispatched and have not given back
    /// their network slot, in the order in which they were dispatched.
    pub network_holders: Seq<u128>,
    pub completed_session_count: u32,
    /// The latest progress of each job that reported since the last batch.
    pub pending_updates: Seq<DownloadProgressPayload>,
}

/// The ids of `jobs`, in order.
pub open spec fn job_ids(jobs: Seq<Job>) -> Seq<u128> {
    jobs.map_values(|j: Job| j.id)
}

/// The ids of `jobs`, in order.
pub open spec fn queued_ids(jobs: Seq<QueuedJob>) -> Seq<u128> {
    jobs.map_values(|j: QueuedJob| j.id)
}

/// The ids of the jobs that `updates` speak of, in order.
pub open spec fn update_ids(updates: Seq<DownloadProgressPayload>) -> Seq<u128> {
    updates.map_values(|u: DownloadProgressPayload| u.job_id)
}

/// The first position of `id` in `ids`; the length of `ids` where it is not
/// among them.
pub open spec fn first_at(ids: Seq<u128>, id: u128) -> int
    decreases ids.len(),
{
    if ids.len() == 0 || ids[0] == id {
        0
    } else {
        1 + first_at(ids.skip(1), id)
    }
}

/// What [`first_at`] returns is the first position of `id`.
pub proof fn lemma_first_at(ids: Seq<u128>, id: u128)
    ensures
        0 <= first_at(ids, id) <= ids.len(),
        first_at(ids, id) < ids.len() ==> ids[first_at(ids, id)] == id,
        forall|k: int| 0 <= k < first_at(ids, id) ==> ids[k] != id,
    decreases ids.len(),
{
    if !(ids.len() == 0 || ids[0] == id) {
        let rest = ids.skip(1);
        lemma_first_at(rest, id);
        assert forall|k: int| 0 <= k < first_at(ids, id) implies ids[k] != id by {
            if k > 0 {
                assert(rest[k - 1] == ids[k]);
            }
        }
    }
}

/// A position before which `id` does not occur, and at which it occurs unless
/// it is the end, is what [`first_at`] returns.
pub proof fn lemma_first_at_is(ids: Seq<u128>, id: u128, at: int)
    requires
        0 <= at <= ids.len(),
        forall|k: int| 0 <= k < at ==> ids[k] != id,
        at < ids.len() ==> ids[at] == id,
    ensures
        first_at(ids, id) == at,
    decreases ids.len(),
{
    if at > 0 {
        let rest = ids.skip(1);
        assert forall|k: int| 0 <= k < at - 1 implies rest[k] != id by {
            assert(rest[k] == ids[k + 1]);
        }
        lemma_first_at_is(rest, id, at - 1);
    }
}

/// The job with this id, where there is one.
pub open spec fn find_job(jobs: Seq<Job>, id: u128) -> Option<Job> {
    let at = first_at(job_ids(jobs), id);
    if at < jobs.len() {
        Some(jobs[at])
    } else {
        None
    }
}

/// Whether the job with this id is there and is pending, downloading or failed.
pub open spec fn resumable(jobs: Seq<Job>, id: u128) -> bool {
    match find_job(jobs, id) {
        Some(job) => job.status.is_resumable(),
        None => false,
    }
}

/// `jobs` with `job` in the place of the job with this id, where there is one.
pub open spec fn put_job(jobs: Seq<Job>, id: u128, job: Job) -> Seq<Job> {
    let at = first_at(job_ids(jobs), id);
    if at < jobs.len() {
        jobs.update(at, job)
    } else {
        jobs
    }
}

/// `jobs` without the job with this id.
pub open spec fn drop_queued(jobs: Seq<QueuedJob>, id: u128) -> Seq<QueuedJob> {
    let at = first_at(queued_ids(jobs), id);
    if at < jobs.len() {
        jobs.remove(at)
    } else {
        jobs
    }
}

/// `updates` with `update` as the latest word on its job: in the place of
/// the earlier one, or at the end.
pub open spec fn put_update(
    updates: Seq<DownloadProgressPayload>,
    update: DownloadProgressPayload,
) -> Seq<DownloadProgressPayload> {
    let at = first_at(update_ids(updates), update.job_id);
    if at < updates.len() {
        updates.update(at, update)
    } else {
        updates.push(update)
    }
}

/// Whether the process of `job` is known, if `job` downloads.
pub open spec fn runs_known(job: Job) -> bool {
    job.status == JobStatus::Downloading ==> job.pid is Some
}

/// `job` in another status.
pub open spec fn in_status(job: Job, status: JobStatus) -> Job {
    Job { status, ..job }
}

impl ManagerView {
    /// The state of an orchestrator that has seen nothing.
    pub open spec fn cold() -> ManagerView {
        ManagerView {
            jobs: Seq::empty(),
            queue: Seq::empty(),
            registry: Seq::empty(),
            active_network_jobs: 0,
            active_process_instances: 0,
            network_holders: Seq::empty(),
            completed_session_count: 0,
            pending_updates: Seq::empty(),
        }
    }

    /// What holds of every state that is reached: no id stands twice in the job
    /// registry, in the persistence registry or in the progress kept for the
    /// next batch; the process of every job that downloads is known; every
    /// job of the persistence registry is a job of this session that is
    /// pending, downloading or failed; a job that holds a network slot holds
    /// a process slot; and for every network slot that is counted a job is on
    /// record that holds it.
    pub open spec fn wf(self) -> bool {
        &&& job_ids(self.jobs).no_duplicates()
        &&& queued_ids(self.registry).no_duplicates()
        &&& update_ids(self.pending_updates).no_duplicates()
        &&& forall|i: int| 0 <= i < self.jobs.len() ==> runs_known(#[trigger] self.jobs[i])
        &&& forall|i: int|
            0 <= i < self.registry.len() ==> #[trigger] resumable(self.jobs, self.registry[i].id)
        &&& self.active_network_jobs <= self.active_process_instances
        &&& self.active_network_jobs <= self.network_holders.len()
    }

    /// Neither counter is above its cap.
    pub open spec fn within(self, caps: Caps) -> bool {
        self.active_network_jobs <= caps.max_concurrent_downloads && self.active_process_instances
            <= caps.max_total_instances
    }

    /// Whether a slot of each kind is free.
    pub open spec fn has_room(self, caps: Caps) -> bool {
        self.active_network_jobs < caps.max_concurrent_downloads && self.active_process_instances
            < caps.max_total_instances
    }
}

/// The state with `job` newly known: pending in the job registry, last in the
/// persistence registry and last in the queue.
pub open spec fn enqueued(s: ManagerView, job: QueuedJob) -> ManagerView {
    ManagerView {
        jobs: s.jobs.push(Job::fresh(job.id, job.url)),
        registry: s.registry.push(job),
        queue: s.queue.push(job),
        ..s
    }
}

/// Admission: while a slot of each kind is free and a job waits, the head of
/// the queue leaves it; it is dropped where its job is cancelled, else it
/// takes a slot of each kind, is put on record as a holder of a network slot
/// and is dispatched. The result is the state afterwards and the jobs
/// dispatched, in order.
pub open spec fn admission(s: ManagerView, caps: Caps) -> (ManagerView, Seq<QueuedJob>)
    decreases s.queue.len(),
{
    if s.has_room(caps) && s.queue.len() > 0 {
        let head = s.queue[0];
        let rest = ManagerView { queue: s.queue.subrange(1, s.queue.len() as int), ..s };
        if find_job(s.jobs, head.id) matches Some(job) && job.status == JobStatus::Cancelled {
            admission(rest, caps)
        } else {
            let later = admission(
                ManagerView {
                    active_network_jobs: (s.active_network_jobs + 1) as u32,
                    active_process_instances: (s.active_process_instances + 1) as u32,
                    network_holders: s.network_holders.push(head.id),
                    ..rest
                },
                caps,
            );
            (later.0, seq![head] + later.1)
        }
    } else {
        (s, Seq::empty())
    }
}

/// The effects that start a supervisor for each of `jobs`.
pub open spec fn spawns(jobs: Seq<QueuedJob>) -> Seq<EffectView> {
    jobs.map_values(|j: QueuedJob| EffectView::SpawnSupervisor(j))
}

/// The sweep of the staging directory, which is due only where no job waits
/// and none is to be persisted.
pub open spec fn sweep(s: ManagerView) -> Seq<EffectView> {
    if s.queue.len() == 0 && s.registry.len() == 0 {
        seq![EffectView::SweepStaging]
    } else {
        Seq::empty()
    }
}

/// `AddJob`: a job whose id is known is refused. Any other is enqueued and
/// persisted, admission runs, and the sender is told that all went well.
pub open spec fn added(s: ManagerView, job: QueuedJob, caps: Caps) -> (
    ManagerView,
    Seq<EffectView>,
) {
    if find_job(s.jobs, job.id) is Some {
        (s, seq![EffectView::AddJobReply(Err("Job already exists"@))])
    } else {
        let queued = enqueued(s, job);
        let admitted = admission(queued, caps);
        (
            admitted.0,
            seq![EffectView::Persist(queued.registry)] + spawns(admitted.1)
                + seq![EffectView::AddJobReply(Ok(()))],
        )
    }
}

/// `CancelJob`: nothing where the job is cancelled already. Else the worker is
/// killed where its process is known, the job is marked, it leaves the
/// persistence registry, which is persisted, and the user interface is told.
pub open spec fn cancelled(s: ManagerView, id: u128) -> (ManagerView, Seq<EffectView>) {
    let found = find_job(s.jobs, id);
    if found matches Some(job) && job.status == JobStatus::Cancelled {
        (s, Seq::empty())
    } else {
        let kill: Seq<EffectView> = match found {
            Some(job) => match job.pid {
                Some(pid) => seq![EffectView::KillProcess { pid }],
                None => Seq::empty(),
            },
            None => Seq::empty(),
        };
        let jobs = match found {
            Some(job) => put_job(s.jobs, id, in_status(job, JobStatus::Cancelled)),
            None => s.jobs,
        };
        let registry = drop_queued(s.registry, id);
        (
            ManagerView { jobs, registry, ..s },
            kill + seq![
                EffectView::Persist(registry),
                EffectView::EmitError { job_id: id, error: "Cancelled by user"@ },
            ],
        )
    }
}

/// `ProcessStarted`: the process of a cancelled job is killed; that of any
/// other known job is put on record, and the job downloads.
pub open spec fn started(s: ManagerView, id: u128, pid: u32) -> (ManagerView, Seq<EffectView>) {
    match find_job(s.jobs, id) {
        Some(job) => if job.status == JobStatus::Cancelled {
            (s, seq![EffectView::KillProcess { pid }])
        } else {
            (
                ManagerView {
                    jobs: put_job(
                        s.jobs,
                        id,
                        Job { pid: Some(pid), status: JobStatus::Downloading, ..job },
                    ),
                    ..s
                },
                Seq::empty(),
            )
        },
        None => (s, Seq::empty()),
    }
}

/// `UpdateProgress`: the progress of a known job is put on record and kept
/// for the next batch, in the place of what was kept for that job.
pub open spec fn updated(s: ManagerView, update: DownloadProgressPayload) -> (
    ManagerView,
    Seq<EffectView>,
) {
    match find_job(s.jobs, update.job_id) {
        Some(job) => (
            ManagerView {
                jobs: put_job(s.jobs, update.job_id, Job { progress: update.percentage, ..job }),
                pending_updates: put_update(s.pending_updates, update),
                ..s
            },
            Seq::empty(),
        ),
        None => (s, Seq::empty()),
    }
}

/// Whether the job with this id is there and is cancelled.
pub open spec fn is_cancelled(jobs: Seq<Job>, id: u128) -> bool {
    match find_job(jobs, id) {
        Some(job) => job.status == JobStatus::Cancelled,
        None => false,
    }
}

/// `JobCompleted`: nothing where the job is cancelled, which it stays. Else
/// the job is complete at 100 %, it leaves the persistence registry, which is
/// persisted, and the user interface is told.
pub open spec fn job_completed(s: ManagerView, id: u128, output_path: Seq<char>) -> (
    ManagerView,
    Seq<EffectView>,
) {
    if is_cancelled(s.jobs, id) {
        (s, Seq::empty())
    } else {
        completed_job(s, id, output_path)
    }
}

/// What `JobCompleted` does about a job that is not cancelled.
pub open spec fn completed_job(s: ManagerView, id: u128, output_path: Seq<char>) -> (
    ManagerView,
    Seq<EffectView>,
) {
    let jobs = match find_job(s.jobs, id) {
        Some(job) => put_job(
            s.jobs,
            id,
            Job { status: JobStatus::Completed, progress: FULL_PERCENT, ..job },
        ),
        None => s.jobs,
    };
    let registry = drop_queued(s.registry, id);
    (
        ManagerView { jobs, registry, ..s },
        seq![
            EffectView::Persist(registry),
            EffectView::EmitComplete { job_id: id, output_path },
        ],
    )
}

/// `JobError`: nothing where the job is cancelled, which it stays: the user
/// was told of the cancellation. Else the job has failed, stays in the
/// persistence registry, and the user interface is told.
pub open spec fn job_failed(s: ManagerView, id: u128, error: Seq<char>) -> (
    ManagerView,
    Seq<EffectView>,
) {
    if is_cancelled(s.jobs, id) {
        (s, Seq::empty())
    } else {
        let jobs = match find_job(s.jobs, id) {
            Some(job) => put_job(s.jobs, id, in_status(job, JobStatus::Error)),
            None => s.jobs,
        };
        (ManagerView { jobs, ..s }, seq![EffectView::EmitError { job_id: id, error }])
    }
}

/// The state in which the job `id` holds no network slot: where it is on
/// record as a holder, it is so no longer, and a network slot that is counted
/// is given back. Where it is not, because it gave its slot back before or
/// was never dispatched, nothing changes.
pub open spec fn without_holder(s: ManagerView, id: u128) -> ManagerView {
    let at = first_at(s.network_holders, id);
    if at < s.network_holders.len() {
        ManagerView {
            active_network_jobs: if s.active_network_jobs > 0 {
                (s.active_network_jobs - 1) as u32
            } else {
                0u32
            },
            network_holders: s.network_holders.remove(at),
            ..s
        }
    } else {
        s
    }
}

/// `NetworkReleased`: the job gives back its network slot, by
/// [`without_holder`], and admission runs.
pub open spec fn network_released(s: ManagerView, id: u128, caps: Caps) -> (
    ManagerView,
    Seq<EffectView>,
) {
    let admitted = admission(without_holder(s, id), caps);
    (admitted.0, spawns(admitted.1))
}

/// One more, up to `u32::MAX`.
pub open spec fn one_more(n: u32) -> u32 {
    if n < u32::MAX {
        (n + 1) as u32
    } else {
        n
    }
}

/// The state in which a worker has given back its slots: a process slot that
/// is held is given back and counted as one more job handled. A network slot
/// is given back with it only where it is still held: where, the process slot
/// gone, more network slots would be held than process slots. Where no
/// process is left and jobs were handled, their count begins again.
pub open spec fn after_worker(s: ManagerView) -> ManagerView {
    let held = s.active_process_instances > 0;
    let processes = if held {
        (s.active_process_instances - 1) as u32
    } else {
        0u32
    };
    let handled = handled_with(s);
    ManagerView {
        active_process_instances: processes,
        active_network_jobs: if s.active_network_jobs > processes {
            processes
        } else {
            s.active_network_jobs
        },
        completed_session_count: if processes == 0 {
            0
        } else {
            handled
        },
        ..s
    }
}

/// The jobs handled, the one whose worker ends counted in where it held a
/// process slot.
pub open spec fn handled_with(s: ManagerView) -> u32 {
    if s.active_process_instances > 0 {
        one_more(s.completed_session_count)
    } else {
        s.completed_session_count
    }
}

/// `WorkerFinished`: the worker gives back its slots, by [`after_worker`].
/// Where no process is left, the user is notified of the jobs handled, if
/// any, and the staging directory is swept where [`sweep`] says so. Then
/// admission runs.
pub open spec fn worker_finished(s: ManagerView, caps: Caps) -> (ManagerView, Seq<EffectView>) {
    let released = after_worker(s);
    let notice: Seq<EffectView> = if released.active_process_instances == 0 && handled_with(s)
        != 0 {
        seq![EffectView::Notify { count: handled_with(s) }]
    } else {
        Seq::empty()
    };
    let sweeping: Seq<EffectView> = if released.active_process_instances == 0 {
        sweep(released)
    } else {
        Seq::empty()
    };
    let admitted = admission(released, caps);
    (admitted.0, notice + sweeping + spawns(admitted.1))
}

/// The stored jobs taken up again: each one whose id is not known is enqueued.
/// The result is the state afterwards and the jobs taken up, in order.
pub open spec fn taken_up(s: ManagerView, stored: Seq<QueuedJob>) -> (
    ManagerView,
    Seq<QueuedJob>,
)
    decreases stored.len(),
{
    if stored.len() == 0 {
        (s, Seq::empty())
    } else {
        let job = stored[0];
        if find_job(s.jobs, job.id) is Some {
            taken_up(s, stored.skip(1))
        } else {
            let later = taken_up(enqueued(s, job), stored.skip(1));
            (later.0, seq![job] + later.1)
        }
    }
}

/// The jobs that a persistence file holds, which holds none where it is
/// missing or does not parse.
pub open spec fn stored_jobs(stored: Option<Vec<QueuedJob>>) -> Seq<QueuedJob> {
    match stored {
        Some(jobs) => jobs@,
        None => Seq::empty(),
    }
}

/// `ResumePending`: the stored jobs are taken up, admission runs, and the
/// sender gets the jobs taken up. The persistence registry is persisted where
/// the file was read; a file that is missing or does not parse is left as it
/// is.
pub open spec fn resumed(s: ManagerView, stored: Option<Vec<QueuedJob>>, caps: Caps) -> (
    ManagerView,
    Seq<EffectView>,
) {
    let taken = taken_up(s, stored_jobs(stored));
    let admitted = admission(taken.0, caps);
    let persist: Seq<EffectView> = if stored is Some {
        seq![EffectView::Persist(taken.0.registry)]
    } else {
        Seq::empty()
    };
    (admitted.0, persist + spawns(admitted.1) + seq![EffectView::ResumeReply(taken.1)])
}

/// The number of stored jobs, up to `u32::MAX`.
pub open spec fn stored_count(stored: Seq<QueuedJob>) -> u32 {
    if stored.len() > u32::MAX {
        u32::MAX
    } else {
        stored.len() as u32
    }
}

/// The state after a message, and the effects that it has, in order.
pub open spec fn next(s: ManagerView, message: JobMessage, caps: Caps) -> (
    ManagerView,
    Seq<EffectView>,
) {
    match message {
        JobMessage::AddJob { job } => added(s, job, caps),
        JobMessage::CancelJob { id } => cancelled(s, id),
        JobMessage::UpdateProgress { id, percentage, speed, eta, filename, phase } => updated(
            s,
            DownloadProgressPayload {
                job_id: id,
                percentage,
                speed,
                eta,
                filename,
                phase: Some(phase),
            },
        ),
        JobMessage::ProcessStarted { id, pid } => started(s, id, pid),
        JobMessage::JobCompleted { id, output_path } => job_completed(s, id, output_path@),
        JobMessage::JobError { id, error } => job_failed(s, id, error@),
        JobMessage::NetworkReleased { id } => network_released(s, id, caps),
        JobMessage::WorkerFinished => worker_finished(s, caps),
        JobMessage::GetPendingCount { stored } => (
            s,
            seq![EffectView::PendingCountReply(stored_count(stored_jobs(stored)))],
        ),
        JobMessage::ResumePending { stored } => resumed(s, stored, caps),
        JobMessage::ClearPending => (s, seq![EffectView::RemovePersistenceFile] + sweep(s)),
    }
}

/// How many of `jobs` are pending or downloading.
pub open spec fn active_count(jobs: Seq<Job>) -> nat
    decreases jobs.len(),
{
    if jobs.len() == 0 {
        0
    } else {
        active_count(jobs.drop_last()) + if jobs.last().status.is_active() {
            1nat
        } else {
            0nat
        }
    }
}

/// The sum of the progress of those of `jobs` that are pending or downloading.
pub open spec fn active_progress(jobs: Seq<Job>) -> nat
    decreases jobs.len(),
{
    if jobs.len() == 0 {
        0
    } else {
        active_progress(jobs.drop_last()) + if jobs.last().status.is_active() {
            jobs.last().progress as nat
        } else {
            0nat
        }
    }
}

/// Whether one of `jobs` has failed.
pub open spec fn any_failed(jobs: Seq<Job>) -> bool
    decreases jobs.len(),
{
    jobs.len() > 0 && (any_failed(jobs.drop_last()) || jobs.last().status == JobStatus::Error)
}

/// The aggregate indicator: none where no job is pending or downloading; else
/// the mean of their progress, rounded down, and whether any job has failed.
pub open spec fn indicator(jobs: Seq<Job>) -> EffectView {
    if active_count(jobs) == 0 {
        EffectView::ClearIndicator
    } else {
        EffectView::SetIndicator {
            progress: (active_progress(jobs) / active_count(jobs)) as u32,
            is_error: any_failed(jobs),
        }
    }
}

/// The state after a tick of the batch timer, and its effects: the progress
/// kept since the last batch goes out in one batch, if there is any, and the
/// aggregate indicator is set anew.
pub open spec fn ticked(s: ManagerView) -> (ManagerView, Seq<EffectView>) {
    let batch: Seq<EffectView> = if s.pending_updates.len() > 0 {
        seq![EffectView::EmitBatch(s.pending_updates)]
    } else {
        Seq::empty()
    };
    (ManagerView { pending_updates: Seq::empty(), ..s }, batch + seq![indicator(s.jobs)])
}

/// The orchestrator.
#[derive(Debug)]
pub struct JobManager {
    jobs: Vec<Job>,
    queue: VecDeque<QueuedJob>,
    persistence_registry: Vec<QueuedJob>,
    active_network_jobs: u32,
    active_process_instances: u32,
    network_holders: Vec<u128>,
    completed_session_count: u32,
    pending_updates: Vec<DownloadProgressPayload>,
}

impl View for JobManager {
    type V = ManagerView;

    closed spec fn view(&self) -> ManagerView {
        ManagerView {
            jobs: self.jobs@,
            queue: self.queue@,
            registry: self.persistence_registry@,
            active_network_jobs: self.active_network_jobs,
            active_process_instances: self.active_process_instances,
            network_holders: self.network_holders@,
            completed_session_count: self.completed_session_count,
            pending_updates: self.pending_updates@,
        }
    }
}

/// Appends one effect.
fn emit(effects: &mut Vec<Effect>, effect: Effect)
    ensures
        effect_views(final(effects)@) == effect_views(old(effects)@).push(effect@),
{
    effects.push(effect);
    assert(effect_views(effects@) =~= effect_views(old(effects)@).push(effect@));
}

/// A run of no effect.
fn no_effect() -> (r: Vec<Effect>)
    ensures
        effect_views(r@) == Seq::<EffectView>::empty(),
{
    let r: Vec<Effect> = Vec::new();
    assert(effect_views(r@) =~= Seq::<EffectView>::empty());
    r
}

/// Where `id` stands in `ids`, by [`first_at`].
fn id_position(ids: &Vec<u128>, id: u128) -> (r: usize)
    ensures
        r == first_at(ids@, id),
        r <= ids.len(),
{
    let mut i: usize = 0;
    while i < ids.len() && ids[i] != id
        invariant
            i <= ids.len(),
            forall|k: int| 0 <= k < i ==> ids@[k] != id,
        decreases ids.len() - i,
    {
        i += 1;
    }
    proof {
        lemma_first_at_is(ids@, id, i as int);
    }
    i
}

/// Where the job with this id stands in `jobs`, by [`first_at`].
fn job_position(jobs: &Vec<Job>, id: u128) -> (r: usize)
    ensures
        r == first_at(job_ids(jobs@), id),
        r <= jobs.len(),
{
    let mut i: usize = 0;
    while i < jobs.len() && jobs[i].id != id
        invariant
            i <= jobs.len(),
            forall|k: int| 0 <= k < i ==> jobs@[k].id != id,
        decreases jobs.len() - i,
    {
        i += 1;
    }
    proof {
        lemma_first_at_is(job_ids(jobs@), id, i as int);
    }
    i
}

/// Where the job with this id stands in `jobs`, by [`first_at`].
fn queued_position(jobs: &Vec<QueuedJob>, id: u128) -> (r: usize)
    ensures
        r == first_at(queued_ids(jobs@), id),
        r <= jobs.len(),
{
    let mut i: usize = 0;
    while i < jobs.len() && jobs[i].id != id
        invariant
            i <= jobs.len(),
            forall|k: int| 0 <= k < i ==> jobs@[k].id != id,
        decreases jobs.len() - i,
    {
        i += 1;
    }
    proof {
        lemma_first_at_is(queued_ids(jobs@), id, i as int);
    }
    i
}

/// Where the word on the job with this id stands in `updates`, by
/// [`first_at`].
fn update_position(updates: &Vec<DownloadProgressPayload>, id: u128) -> (r: usize)
    ensures
        r == first_at(update_ids(updates@), id),
        r <= updates.len(),
{
    let mut i: usize = 0;
    while i < updates.len() && updates[i].job_id != id
        invariant
            i <= updates.len(),
            forall|k: int| 0 <= k < i ==> updates@[k].job_id != id,
        decreases updates.len() - i,
    {
        i += 1;
    }
    proof {
        lemma_first_at_is(update_ids(updates@), id, i as int);
    }
    i
}

/// A copy of `jobs`.
fn copy_jobs(jobs: &Vec<QueuedJob>) -> (r: Vec<QueuedJob>)
    ensures
        r@ == jobs@,
{
    let mut out: Vec<QueuedJob> = Vec::new();
    let mut i: usize = 0;
    while i < jobs.len()
        invariant
            i <= jobs.len(),
            out@ == jobs@.take(i as int),
        decreases jobs.len() - i,
    {
        out.push(jobs[i].clone());
        assert(out@ =~= jobs@.take(i + 1));
        i += 1;
    }
    assert(jobs@.take(jobs.len() as int) =~= jobs@);
    out
}

impl JobManager {
    /// An orchestrator that has seen nothing.
    pub fn new() -> (r: Self)
        ensures
            r@ == ManagerView::cold(),
    {
        JobManager {
            jobs: Vec::new(),
            queue: VecDeque::new(),
            persistence_registry: Vec::new(),
            active_network_jobs: 0,
            active_process_instances: 0,
            network_holders: Vec::new(),
            completed_session_count: 0,
            pending_updates: Vec::new(),
        }
    }

    /// How many jobs hold a network slot.
    pub fn active_network_jobs(&self) -> (r: u32)
        ensures
            r == self@.active_network_jobs,
    {
        self.active_network_jobs
    }

    /// How many jobs hold a process slot.
    pub fn active_process_instances(&self) -> (r: u32)
        ensures
            r == self@.active_process_instances,
    {
        self.active_process_instances
    }

    /// Whether the job with this id is on record as a holder of a network
    /// slot.
    pub fn holds_network_slot(&self, id: u128) -> (r: bool)
        ensures
            r == (first_at(self@.network_holders, id) < self@.network_holders.len()),
    {
        id_position(&self.network_holders, id) < self.network_holders.len()
    }

    /// How many jobs wait for a slot.
    pub fn queued(&self) -> (r: usize)
        ensures
            r == self@.queue.len(),
    {
        self.queue.len()
    }

    /// The status of the job with this id, where it is known.
    pub fn status_of(&self, id: u128) -> (r: Option<JobStatus>)
        ensures
            r == match find_job(self@.jobs, id) {
                Some(job) => Some(job.status),
                None => None,
            },
    {
        let at = job_position(&self.jobs, id);
        if at < self.jobs.len() {
            Some(self.jobs[at].status)
        } else {
            None
        }
    }

    /// The progress of the job with this id, in hundredths of a percent, where
    /// the job is known.
    pub fn progress_of(&self, id: u128) -> (r: Option<u32>)
        ensures
            r == match find_job(self@.jobs, id) {
                Some(job) => Some(job.progress),
                None => None,
            },
    {
        let at = job_position(&self.jobs, id);
        if at < self.jobs.len() {
            Some(self.jobs[at].progress)
        } else {
            None
        }
    }

    /// The jobs that the persistence file is to hold.
    pub fn persisted(&self) -> (r: Vec<QueuedJob>)
        ensures
            r@ == self@.registry,
    {
        copy_jobs(&self.persistence_registry)
    }

    /// Makes `job` newly known.
    fn enqueue(&mut self, job: QueuedJob)
        ensures
            final(self)@ == enqueued(old(self)@, job),
    {
        self.jobs.push(Job::new(job.id, job.url.clone()));
        self.persistence_registry.push(job.clone());
        self.queue.push_back(job);
    }

    /// Takes the job with this id out of the persistence registry.
    fn forget(&mut self, id: u128)
        ensures
            final(self)@ == (ManagerView {
                registry: drop_queued(old(self)@.registry, id),
                ..old(self)@
            }),
    {
        let at = queued_position(&self.persistence_registry, id);
        if at < self.persistence_registry.len() {
            let _ = self.persistence_registry.remove(at);
        }
    }

    /// Runs admission, by [`admission`].
    fn process_queue(&mut self, caps: Caps, effects: &mut Vec<Effect>)
        ensures
            final(self)@ == admission(old(self)@, caps).0,
            effect_views(final(effects)@) == effect_views(old(effects)@) + spawns(
                admission(old(self)@, caps).1,
            ),
    {
        let ghost start = self@;
        let ghost before = effect_views(effects@);
        let ghost mut done: Seq<QueuedJob> = Seq::empty();
        assert(effect_views(effects@) =~= before + spawns(done));
        assert(admission(start, caps).1 =~= done + admission(self@, caps).1);
        while self.active_network_jobs < caps.max_concurrent_downloads
            && self.active_process_instances < caps.max_total_instances && self.queue.len() > 0
            invariant
                admission(start, caps).0 == admission(self@, caps).0,
                admission(start, caps).1 == done + admission(self@, caps).1,
                effect_views(effects@) == before + spawns(done),
            decreases self.queue.len(),
        {
            let ghost entry = self@;
            let popped = self.queue.pop_front();
            let next = popped.unwrap();
            let at = job_position(&self.jobs, next.id);
            let dropped = at < self.jobs.len() && self.jobs[at].status == JobStatus::Cancelled;
            if !dropped {
                self.active_network_jobs += 1;
                self.active_process_instances += 1;
                self.network_holders.push(next.id);
                proof {
                    assert(done + (seq![next] + admission(self@, caps).1) =~= done.push(next)
                        + admission(self@, caps).1);
                    assert(spawns(done.push(next)) =~= spawns(done).push(
                        EffectView::SpawnSupervisor(next),
                    ));
                    done = done.push(next);
                }
                emit(effects, Effect::SpawnSupervisor(next));
            }
        }
        proof {
            assert(done + Seq::<QueuedJob>::empty() =~= done);
        }
    }

    /// Takes `AddJob` in, by [`added`].
    fn add_job(&mut self, job: QueuedJob, caps: Caps) -> (r: Vec<Effect>)
        ensures
            (final(self)@, effect_views(r@)) == added(old(self)@, job, caps),
    {
        let mut effects = no_effect();
        let at = job_position(&self.jobs, job.id);
        if at < self.jobs.len() {
            emit(&mut effects, Effect::AddJobReply(Err("Job already exists".to_owned())));
            assert(effect_views(effects@) =~= seq![
                EffectView::AddJobReply(Err("Job already exists"@)),
            ]);
            return effects;
        }
        self.enqueue(job);
        emit(&mut effects, Effect::Persist(copy_jobs(&self.persistence_registry)));
        let ghost queued = self@;
        self.process_queue(caps, &mut effects);
        emit(&mut effects, Effect::AddJobReply(Ok(())));
        assert(effect_views(effects@) =~= seq![EffectView::Persist(queued.registry)] + spawns(
            admission(queued, caps).1,
        ) + seq![EffectView::AddJobReply(Ok(()))]);
        effects
    }

    /// Takes `CancelJob` in, by [`cancelled`].
    fn cancel_job(&mut self, id: u128) -> (r: Vec<Effect>)
        ensures
            (final(self)@, effect_views(r@)) == cancelled(old(self)@, id),
    {
        let mut effects = no_effect();
        let at = job_position(&self.jobs, id);
        if at < self.jobs.len() {
            if self.jobs[at].status == JobStatus::Cancelled {
                return effects;
            }
            if let Some(pid) = self.jobs[at].pid {
                emit(&mut effects, Effect::KillProcess { pid });
            }
            self.jobs[at].status = JobStatus::Cancelled;
        }
        let ghost kill = effect_views(effects@);
        self.forget(id);
        emit(&mut effects, Effect::Persist(copy_jobs(&self.persistence_registry)));
        emit(&mut effects, Effect::EmitError { job_id: id, error: "Cancelled by user".to_owned() });
        assert(effect_views(effects@) =~= kill + seq![
            EffectView::Persist(self@.registry),
            EffectView::EmitError { job_id: id, error: "Cancelled by user"@ },
        ]);
        effects
    }

    /// Takes `ProcessStarted` in, by [`started`].
    fn process_started(&mut self, id: u128, pid: u32) -> (r: Vec<Effect>)
        ensures
            (final(self)@, effect_views(r@)) == started(old(self)@, id, pid),
    {
        let mut effects = no_effect();
        let at = job_position(&self.jobs, id);
        if at < self.jobs.len() {
            if self.jobs[at].status == JobStatus::Cancelled {
                emit(&mut effects, Effect::KillProcess { pid });
                assert(effect_views(effects@) =~= seq![EffectView::KillProcess { pid }]);
            } else {
                self.jobs[at].pid = Some(pid);
                self.jobs[at].status = JobStatus::Downloading;
                assert(self.jobs@ =~= old(self).jobs@.update(
                    at as int,
                    Job {
                        pid: Some(pid),
                        status: JobStatus::Downloading,
                        ..old(self).jobs@[at as int]
                    },
                ));
            }
        }
        effects
    }

    /// Takes `UpdateProgress` in, by [`updated`].
    fn update_progress(&mut self, update: DownloadProgressPayload) -> (r: Vec<Effect>)
        ensures
            (final(self)@, effect_views(r@)) == updated(old(self)@, update),
    {
        let at = job_position(&self.jobs, update.job_id);
        if at < self.jobs.len() {
            self.jobs[at].progress = update.percentage;
            let place = update_position(&self.pending_updates, update.job_id);
            if place < self.pending_updates.len() {
                self.pending_updates[place] = update;
            } else {
                self.pending_updates.push(update);
            }
        }
        no_effect()
    }

    /// Takes `JobCompleted` in, by [`job_completed`].
    fn complete_job(&mut self, id: u128, output_path: String) -> (r: Vec<Effect>)
        ensures
            (final(self)@, effect_views(r@)) == job_completed(old(self)@, id, output_path@),
    {
        let mut effects = no_effect();
        let at = job_position(&self.jobs, id);
        if at < self.jobs.len() {
            if self.jobs[at].status == JobStatus::Cancelled {
                return effects;
            }
            self.jobs[at].status = JobStatus::Completed;
            self.jobs[at].progress = FULL_PERCENT;
            assert(self.jobs@ =~= old(self).jobs@.update(
                at as int,
                Job {
                    status: JobStatus::Completed,
                    progress: FULL_PERCENT,
                    ..old(self).jobs@[at as int]
                },
            ));
        }
        self.forget(id);
        emit(&mut effects, Effect::Persist(copy_jobs(&self.persistence_registry)));
        emit(&mut effects, Effect::EmitComplete { job_id: id, output_path });
        assert(effect_views(effects@) =~= seq![
            EffectView::Persist(self@.registry),
            EffectView::EmitComplete { job_id: id, output_path: output_path@ },
        ]);
        effects
    }

    /// Takes `JobError` in, by [`job_failed`].
    fn fail_job(&mut self, id: u128, error: String) -> (r: Vec<Effect>)
        ensures
            (final(self)@, effect_views(r@)) == job_failed(old(self)@, id, error@),
    {
        let mut effects = no_effect();
        let at = job_position(&self.jobs, id);
        if at < self.jobs.len() {
            if self.jobs[at].status == JobStatus::Cancelled {
                return effects;
            }
            self.jobs[at].status = JobStatus::Error;
        }
        emit(&mut effects, Effect::EmitError { job_id: id, error });
        assert(effect_views(effects@) =~= seq![EffectView::EmitError { job_id: id, error: error@ }]);
        effects
    }

    /// Orders the sweep of the staging directory where it is due, by
    /// [`sweep`].
    fn sweep_staging(&self, effects: &mut Vec<Effect>)
        ensures
            effect_views(final(effects)@) == effect_views(old(effects)@) + sweep(self@),
    {
        if self.queue.len() == 0 && self.persistence_registry.len() == 0 {
            emit(effects, Effect::SweepStaging);
        }
        assert(effect_views(effects@) =~= effect_views(old(effects)@) + sweep(self@));
    }

    /// Takes `NetworkReleased` in, by [`network_released`].
    fn release_network(&mut self, id: u128, caps: Caps) -> (r: Vec<Effect>)
        ensures
            (final(self)@, effect_views(r@)) == network_released(old(self)@, id, caps),
    {
        let mut effects = no_effect();
        let at = id_position(&self.network_holders, id);
        if at < self.network_holders.len() {
            self.network_holders.remove(at);
            if self.active_network_jobs > 0 {
                self.active_network_jobs -= 1;
            }
        }
        assert(self@ == without_holder(old(self)@, id));
        self.process_queue(caps, &mut effects);
        assert(effect_views(effects@) =~= spawns(admission(without_holder(old(self)@, id), caps).1));
        effects
    }

    /// Takes `WorkerFinished` in, by [`worker_finished`].
    fn finish_worker(&mut self, caps: Caps) -> (r: Vec<Effect>)
        ensures
            (final(self)@, effect_views(r@)) == worker_finished(old(self)@, caps),
    {
        let mut effects = no_effect();
        if self.active_process_instances > 0 {
            self.active_process_instances -= 1;
            if self.completed_session_count < u32::MAX {
                self.completed_session_count += 1;
            }
        }
        if self.active_network_jobs > self.active_process_instances {
            self.active_network_jobs = self.active_process_instances;
        }
        let ghost handled = self.completed_session_count;
        let ghost mut notice: Seq<EffectView> = Seq::empty();
        if self.active_process_instances == 0 {
            if self.completed_session_count != 0 {
                emit(&mut effects, Effect::Notify { count: self.completed_session_count });
                self.completed_session_count = 0;
                proof {
                    notice = seq![EffectView::Notify { count: handled }];
                }
            }
            assert(effect_views(effects@) =~= notice);
            self.sweep_staging(&mut effects);
        }
        assert(effect_views(effects@) =~= notice + (if self@.active_process_instances == 0 {
            sweep(self@)
        } else {
            Seq::empty()
        }));
        self.process_queue(caps, &mut effects);
        effects
    }

    /// Takes the stored jobs up again, by [`taken_up`].
    fn take_up(&mut self, stored: &Vec<QueuedJob>) -> (r: Vec<QueuedJob>)
        ensures
            (final(self)@, r@) == taken_up(old(self)@, stored@),
    {
        let ghost start = self@;
        let mut taken: Vec<QueuedJob> = Vec::new();
        let mut i: usize = 0;
        assert(stored@.skip(0) =~= stored@);
        assert(taken@ + taken_up(self@, stored@).1 =~= taken_up(start, stored@).1);
        while i < stored.len()
            invariant
                i <= stored.len(),
                taken_up(start, stored@).0 == taken_up(self@, stored@.skip(i as int)).0,
                taken_up(start, stored@).1 == taken@ + taken_up(self@, stored@.skip(i as int)).1,
            decreases stored.len() - i,
        {
            let job = stored[i].clone();
            proof {
                assert(stored@.skip(i as int)[0] == stored@[i as int]);
                assert(stored@.skip(i as int).skip(1) =~= stored@.skip(i + 1));
            }
            let at = job_position(&self.jobs, job.id);
            if at >= self.jobs.len() {
                self.enqueue(job.clone());
                proof {
                    assert(taken@ + (seq![job] + taken_up(self@, stored@.skip(i + 1)).1)
                        =~= taken@.push(job) + taken_up(self@, stored@.skip(i + 1)).1);
                }
                taken.push(job);
            }
            i += 1;
        }
        proof {
            assert(taken@ + Seq::<QueuedJob>::empty() =~= taken@);
        }
        taken
    }

    /// Takes `ResumePending` in, by [`resumed`].
    fn resume_pending(&mut self, stored: Option<Vec<QueuedJob>>, caps: Caps) -> (r: Vec<Effect>)
        ensures
            (final(self)@, effect_views(r@)) == resumed(old(self)@, stored, caps),
    {
        let mut effects = no_effect();
        let taken = match &stored {
            Some(jobs) => {
                let taken = self.take_up(jobs);
                emit(&mut effects, Effect::Persist(copy_jobs(&self.persistence_registry)));
                taken
            },
            None => {
                let none: Vec<QueuedJob> = Vec::new();
                self.take_up(&none)
            },
        };
        let ghost after = self@;
        let ghost persist = effect_views(effects@);
        self.process_queue(caps, &mut effects);
        emit(&mut effects, Effect::ResumeReply(taken));
        assert(effect_views(effects@) =~= persist + spawns(admission(after, caps).1) + seq![
            EffectView::ResumeReply(taken@),
        ]);
        effects
    }

    /// Takes a message in, and says what is to be done about it, in order.
    ///
    /// What holds of the state before holds of the state after: the invariant
    /// [`ManagerView::wf`], and, of the caps that the message comes with,
    /// [`ManagerView::within`].
    pub fn handle_message(&mut self, message: JobMessage, caps: Caps) -> (r: Vec<Effect>)
        ensures
            final(self)@ == next(old(self)@, message, caps).0,
            effect_views(r@) == next(old(self)@, message, caps).1,
            old(self)@.wf() ==> final(self)@.wf(),
            old(self)@.within(caps) ==> final(self)@.within(caps),
    {
        proof {
            if self@.wf() {
                lemma_invariant_holds(self@, message, caps);
            }
            if self@.within(caps) {
                lemma_caps_hold(self@, message, caps);
            }
        }
        match message {
            JobMessage::AddJob { job } => self.add_job(job, caps),
            JobMessage::CancelJob { id } => self.cancel_job(id),
            JobMessage::UpdateProgress { id, percentage, speed, eta, filename, phase } => {
                self.update_progress(
                    DownloadProgressPayload {
                        job_id: id,
                        percentage,
                        speed,
                        eta,
                        filename,
                        phase: Some(phase),
                    },
                )
            },
            JobMessage::ProcessStarted { id, pid } => self.process_started(id, pid),
            JobMessage::JobCompleted { id, output_path } => self.complete_job(id, output_path),
            JobMessage::JobError { id, error } => self.fail_job(id, error),
            JobMessage::NetworkReleased { id } => self.release_network(id, caps),
            JobMessage::WorkerFinished => self.finish_worker(caps),
            JobMessage::GetPendingCount { stored } => {
                let count: usize = match &stored {
                    Some(jobs) => jobs.len(),
                    None => 0,
                };
                let reply: u32 = if count > 0xffff_ffff {
                    u32::MAX
                } else {
                    count as u32
                };
                let mut effects = no_effect();
                emit(&mut effects, Effect::PendingCountReply(reply));
                assert(effect_views(effects@) =~= seq![EffectView::PendingCountReply(reply)]);
                effects
            },
            JobMessage::ResumePending { stored } => self.resume_pending(stored, caps),
            JobMessage::ClearPending => {
                let mut effects = no_effect();
                emit(&mut effects, Effect::RemovePersistenceFile);
                self.sweep_staging(&mut effects);
                effects
            },
        }
    }

    /// The aggregate indicator, by [`indicator`].
    fn indicate(&self) -> (r: Effect)
        ensures
            r@ == indicator(self@.jobs),
    {
        let mut count: u128 = 0;
        let mut sum: u128 = 0;
        let mut failed = false;
        let mut i: usize = 0;
        while i < self.jobs.len()
            invariant
                i <= self.jobs.len(),
                count == active_count(self.jobs@.take(i as int)),
                sum == active_progress(self.jobs@.take(i as int)),
                failed == any_failed(self.jobs@.take(i as int)),
                count <= i,
                sum <= count * 0xffff_ffff,
            decreases self.jobs.len() - i,
        {
            proof {
                assert(self.jobs@.take(i + 1).drop_last() =~= self.jobs@.take(i as int));
                assert(self.jobs@.take(i + 1).last() == self.jobs@[i as int]);
            }
            let status = self.jobs[i].status;
            if status == JobStatus::Pending || status == JobStatus::Downloading {
                count += 1;
                sum += self.jobs[i].progress as u128;
            }
            if status == JobStatus::Error {
                failed = true;
            }
            i += 1;
        }
        assert(self.jobs@.take(self.jobs.len() as int) =~= self.jobs@);
        if count == 0 {
            Effect::ClearIndicator
        } else {
            assert(sum / count <= 0xffff_ffff) by (nonlinear_arith)
                requires
                    count > 0,
                    sum <= count * 0xffff_ffff,
            ;
            Effect::SetIndicator { progress: (sum / count) as u32, is_error: failed }
        }
    }

    /// Takes a tick of the batch timer in, by [`ticked`].
    pub fn tick(&mut self) -> (r: Vec<Effect>)
        ensures
            final(self)@ == ticked(old(self)@).0,
            effect_views(r@) == ticked(old(self)@).1,
            old(self)@.wf() ==> final(self)@.wf(),
            forall|caps: Caps| old(self)@.within(caps) ==> final(self)@.within(caps),
    {
        let mut effects = no_effect();
        let mut batch: Vec<DownloadProgressPayload> = Vec::new();
        std::mem::swap(&mut batch, &mut self.pending_updates);
        if batch.len() > 0 {
            emit(&mut effects, Effect::EmitBatch(batch));
        }
        let ghost flushed = effect_views(effects@);
        emit(&mut effects, self.indicate());
        assert(effect_views(effects@) =~= flushed + seq![indicator(self@.jobs)]);
        effects
    }
}

} // verus!
