//! What holds of every state of the orchestrator, and of what it persists.
//!
//! The laws here are stated of [`next`] and [`ticked`], which
//! `JobManager::handle_message` and `JobManager::tick` compute.

use vstd::prelude::*;
use crate::manager::added;
use crate::manager::admission;
use crate::manager::after_worker;

use crate::manager::drop_queued;
use crate::manager::enqueued;
use crate::manager::find_job;
use crate::manager::first_at;
use crate::manager::is_cancelled;

use crate::manager::job_ids;
use crate::manager::lemma_first_at;
use crate::manager::lemma_first_at_is;
use crate::manager::next;
use crate::manager::put_job;
use crate::manager::queued_ids;
use crate::manager::resumable;
use crate::manager::runs_known;
use crate::manager::resumed;
use crate::manager::taken_up;
use crate::manager::ticked;
use crate::manager::worker_finished;
use crate::manager::Caps;
use crate::manager::EffectView;
use crate::manager::ManagerView;
use crate::manager::put_update;
use crate::manager::update_ids;
use crate::manager::without_holder;
use crate::models::DownloadProgressPayload;
use crate::models::Job;
use crate::models::JobMessage;
use crate::models::JobStatus;
use crate::models::QueuedJob;

verus! {

/// Admission touches neither the job registry nor the persistence registry nor
/// the count of jobs handled. It takes one slot of each kind for each job that
/// it dispatches, and never pushes a counter past its cap: a counter that is
/// within its cap stays so, and one that is above stays as it is. The jobs
/// dispatched are put on record as holders of a network slot, in order.
pub proof fn lemma_admission(s: ManagerView, caps: Caps)
    ensures
        admission(s, caps).0.active_network_jobs == s.active_network_jobs + admission(
            s,
            caps,
        ).1.len(),
        admission(s, caps).0.active_process_instances == s.active_process_instances + admission(
            s,
            caps,
        ).1.len(),
        admission(s, caps).0.active_network_jobs <= caps.max_concurrent_downloads || admission(
            s,
            caps,
        ).0.active_network_jobs == s.active_network_jobs,
        admission(s, caps).0.active_process_instances <= caps.max_total_instances || admission(
            s,
            caps,
        ).0.active_process_instances == s.active_process_instances,
        admission(s, caps).0.jobs == s.jobs,
        admission(s, caps).0.registry == s.registry,
        admission(s, caps).0.pending_updates == s.pending_updates,
        admission(s, caps).0.completed_session_count == s.completed_session_count,
        admission(s, caps).0.active_process_instances - admission(s, caps).0.active_network_jobs
            == s.active_process_instances - s.active_network_jobs,
        admission(s, caps).0.active_network_jobs >= s.active_network_jobs,
        s.within(caps) ==> admission(s, caps).0.within(caps),
        admission(s, caps).1.len() == admission(s, caps).0.active_network_jobs
            - s.active_network_jobs,
        admission(s, caps).0.network_holders == s.network_holders + queued_ids(
            admission(s, caps).1,
        ),
        admission(s, caps).0.network_holders.len() == s.network_holders.len() + admission(
            s,
            caps,
        ).1.len(),
    decreases s.queue.len(),
{
    if s.has_room(caps) && s.queue.len() > 0 {
        let head = s.queue[0];
        let rest = ManagerView { queue: s.queue.subrange(1, s.queue.len() as int), ..s };
        if find_job(s.jobs, head.id) matches Some(job) && job.status == JobStatus::Cancelled {
            lemma_admission(rest, caps);
        } else {
            let taken = ManagerView {
                active_network_jobs: (s.active_network_jobs + 1) as u32,
                active_process_instances: (s.active_process_instances + 1) as u32,
                network_holders: s.network_holders.push(head.id),
                ..rest
            };
            lemma_admission(taken, caps);
            let later = admission(taken, caps).1;
            assert(queued_ids(seq![head] + later) =~= seq![head.id] + queued_ids(later));
            assert(s.network_holders.push(head.id) + queued_ids(later) =~= s.network_holders + (
                seq![head.id] + queued_ids(later)));
        }
    } else {
        assert(s.network_holders + queued_ids(Seq::<QueuedJob>::empty()) =~= s.network_holders);
    }
}

/// An id keeps its place when another id is added at the end.
pub proof fn lemma_first_at_push(ids: Seq<u128>, added: u128, id: u128)
    ensures
        first_at(ids, id) < ids.len() ==> first_at(ids.push(added), id) == first_at(ids, id),
        first_at(ids, id) == ids.len() && id == added ==> first_at(ids.push(added), id)
            == ids.len(),
        first_at(ids, id) == ids.len() && id != added ==> first_at(ids.push(added), id)
            == ids.len() + 1,
{
    lemma_first_at(ids, id);
    let at = first_at(ids, id);
    let longer = ids.push(added);
    assert forall|k: int| 0 <= k < at implies longer[k] != id by {
        assert(longer[k] == ids[k]);
    }
    if at < ids.len() {
        assert(longer[at] == ids[at]);
        lemma_first_at_is(longer, id, at);
    } else if id == added {
        lemma_first_at_is(longer, id, at);
    } else {
        lemma_first_at_is(longer, id, at + 1);
    }
}

/// A job that is new to a state that is well formed leaves it well formed.
pub proof fn lemma_enqueued(s: ManagerView, job: QueuedJob)
    requires
        s.wf(),
        find_job(s.jobs, job.id) is None,
    ensures
        enqueued(s, job).wf(),
{
    let t = enqueued(s, job);
    let ids = job_ids(s.jobs);
    lemma_first_at(ids, job.id);
    assert(job_ids(t.jobs) =~= ids.push(job.id));
    assert(queued_ids(t.registry) =~= queued_ids(s.registry).push(job.id));
    assert forall|i: int| 0 <= i < s.registry.len() implies s.registry[i].id != job.id by {
        assert(resumable(s.jobs, s.registry[i].id));
    }
    assert forall|i: int| 0 <= i < t.registry.len() implies #[trigger] resumable(
        t.jobs,
        t.registry[i].id,
    ) by {
        let id = t.registry[i].id;
        lemma_first_at_push(ids, job.id, id);
        lemma_first_at(ids, id);
        if i < s.registry.len() {
            assert(t.registry[i] == s.registry[i]);
            assert(resumable(s.jobs, id));
            assert(first_at(ids, id) < s.jobs.len());
            assert(t.jobs[first_at(ids, id)] == s.jobs[first_at(ids, id)]);
        }
    }
}

/// A job put in the place of the one with its id is what is found under that
/// id, and nothing else changes.
pub proof fn lemma_put_job(jobs: Seq<Job>, id: u128, job: Job, other: u128)
    requires
        find_job(jobs, id) is Some,
        job.id == id,
    ensures
        job_ids(put_job(jobs, id, job)) == job_ids(jobs),
        find_job(put_job(jobs, id, job), other) == if other == id {
            Some(job)
        } else {
            find_job(jobs, other)
        },
{
    lemma_first_at(job_ids(jobs), id);
    lemma_first_at(job_ids(jobs), other);
    assert(job_ids(put_job(jobs, id, job)) =~= job_ids(jobs));
}

/// A job of a persistence registry without doubles that is dropped is gone,
/// and the others stay, in order.
pub proof fn lemma_drop_queued(registry: Seq<QueuedJob>, id: u128)
    requires
        queued_ids(registry).no_duplicates(),
    ensures
        queued_ids(drop_queued(registry, id)).no_duplicates(),
        forall|i: int|
            0 <= i < drop_queued(registry, id).len() ==> (#[trigger] drop_queued(
                registry,
                id,
            )[i]).id != id && registry.contains(drop_queued(registry, id)[i]),
{
    let ids = queued_ids(registry);
    lemma_first_at(ids, id);
    let at = first_at(ids, id);
    let kept = drop_queued(registry, id);
    if at < registry.len() {
        assert forall|i: int| 0 <= i < kept.len() implies (#[trigger] kept[i]).id != id
            && registry.contains(kept[i]) by {
            let from = if i < at {
                i
            } else {
                i + 1
            };
            assert(kept[i] == registry[from]);
            assert(ids[from] == registry[from].id);
            assert(ids[at] == id);
        }
        assert forall|i: int, j: int|
            0 <= i < kept.len() && 0 <= j < kept.len() && i != j implies queued_ids(kept)[i]
            != queued_ids(kept)[j] by {
            let from_i = if i < at {
                i
            } else {
                i + 1
            };
            let from_j = if j < at {
                j
            } else {
                j + 1
            };
            assert(kept[i] == registry[from_i]);
            assert(kept[j] == registry[from_j]);
            assert(ids[from_i] != ids[from_j]);
        }
    } else {
        assert forall|i: int| 0 <= i < kept.len() implies (#[trigger] kept[i]).id != id
            && registry.contains(kept[i]) by {
            assert(ids[i] == registry[i].id);
        }
    }
}

/// The progress kept for the next batch holds each job once, and still does
/// when the latest word on a job is put in.
pub proof fn lemma_put_update(updates: Seq<DownloadProgressPayload>, update: DownloadProgressPayload)
    requires
        update_ids(updates).no_duplicates(),
    ensures
        update_ids(put_update(updates, update)).no_duplicates(),
{
    let ids = update_ids(updates);
    lemma_first_at(ids, update.job_id);
    let at = first_at(ids, update.job_id);
    let after = update_ids(put_update(updates, update));
    if at < updates.len() {
        assert(after =~= ids);
    } else {
        assert(after =~= ids.push(update.job_id));
    }
}

/// A state that is well formed stays so when a job changes and, where its new
/// status is another and is one that the persistence store does not keep,
/// leaves the persistence registry.
pub proof fn lemma_job_changed(s: ManagerView, id: u128, job: Job, drops: bool)
    requires
        s.wf(),
        find_job(s.jobs, id) is Some,
        job.id == id,
        runs_known(job),
        drops || job.status.is_resumable() || find_job(s.jobs, id) == Some(
            Job { status: job.status, ..find_job(s.jobs, id)->0 },
        ),
    ensures
        (ManagerView {
            jobs: put_job(s.jobs, id, job),
            registry: if drops {
                drop_queued(s.registry, id)
            } else {
                s.registry
            },
            ..s
        }).wf(),
{
    let jobs = put_job(s.jobs, id, job);
    let registry = if drops {
        drop_queued(s.registry, id)
    } else {
        s.registry
    };
    lemma_put_job(s.jobs, id, job, id);
    lemma_drop_queued(s.registry, id);
    lemma_first_at(job_ids(s.jobs), id);
    assert forall|i: int| 0 <= i < jobs.len() implies runs_known(#[trigger] jobs[i]) by {
        if i != first_at(job_ids(s.jobs), id) {
            assert(runs_known(s.jobs[i]));
        }
    }
    assert forall|i: int| 0 <= i < registry.len() implies #[trigger] resumable(
        jobs,
        registry[i].id,
    ) by {
        let other = registry[i].id;
        lemma_put_job(s.jobs, id, job, other);
        if drops {
            let entry = drop_queued(s.registry, id)[i];
            assert(s.registry.contains(entry));
            let j = choose|j: int| 0 <= j < s.registry.len() && s.registry[j] == entry;
            assert(resumable(s.jobs, s.registry[j].id));
        } else {
            assert(resumable(s.jobs, s.registry[i].id));
        }
    }
}

/// A state that is well formed stays so when a job leaves the persistence
/// registry.
pub proof fn lemma_forgotten(s: ManagerView, id: u128)
    requires
        s.wf(),
    ensures
        (ManagerView { registry: drop_queued(s.registry, id), ..s }).wf(),
{
    let registry = drop_queued(s.registry, id);
    lemma_drop_queued(s.registry, id);
    assert forall|i: int| 0 <= i < registry.len() implies #[trigger] resumable(
        s.jobs,
        registry[i].id,
    ) by {
        let entry = registry[i];
        assert(s.registry.contains(entry));
        let j = choose|j: int| 0 <= j < s.registry.len() && s.registry[j] == entry;
        assert(resumable(s.jobs, s.registry[j].id));
    }
}

/// Stored jobs that are taken up leave a state that is well formed so, and
/// leave its counters alone.
pub proof fn lemma_taken_up(s: ManagerView, stored: Seq<QueuedJob>)
    requires
        s.wf(),
    ensures
        taken_up(s, stored).0.wf(),
        taken_up(s, stored).0.active_network_jobs == s.active_network_jobs,
        taken_up(s, stored).0.active_process_instances == s.active_process_instances,
    decreases stored.len(),
{
    if stored.len() > 0 {
        let job = stored[0];
        if find_job(s.jobs, job.id) is Some {
            lemma_taken_up(s, stored.skip(1));
        } else {
            lemma_enqueued(s, job);
            lemma_taken_up(enqueued(s, job), stored.skip(1));
        }
    }
}

/// The invariant of the orchestrator: whatever the message, a state that is
/// well formed is followed by one that is. So at every message boundary no id
/// stands twice in either registry, every job that is to be persisted is a
/// job of the session that is pending, downloading or failed, and no more
/// network slots are held than process slots.
pub proof fn lemma_invariant_holds(s: ManagerView, message: JobMessage, caps: Caps)
    requires
        s.wf(),
    ensures
        next(s, message, caps).0.wf(),
{
    match message {
        JobMessage::AddJob { job } => {
            if find_job(s.jobs, job.id) is None {
                lemma_enqueued(s, job);
                lemma_admission(enqueued(s, job), caps);
            }
        },
        JobMessage::CancelJob { id } => {
            match find_job(s.jobs, id) {
                Some(job) => {
                    if job.status != JobStatus::Cancelled {
                        lemma_first_at(job_ids(s.jobs), id);
                        lemma_job_changed(
                            s,
                            id,
                            Job { status: JobStatus::Cancelled, ..job },
                            true,
                        );
                    }
                },
                None => {
                    lemma_forgotten(s, id);
                },
            }
        },
        JobMessage::UpdateProgress { id, percentage, speed, eta, filename, phase } => {
            match find_job(s.jobs, id) {
                Some(job) => {
                    lemma_first_at(job_ids(s.jobs), id);
                    lemma_job_changed(s, id, Job { progress: percentage, ..job }, false);
                    lemma_put_update(
                        s.pending_updates,
                        DownloadProgressPayload {
                            job_id: id,
                            percentage,
                            speed,
                            eta,
                            filename,
                            phase: Some(phase),
                        },
                    );
                },
                None => {},
            }
        },
        JobMessage::ProcessStarted { id, pid } => {
            match find_job(s.jobs, id) {
                Some(job) => {
                    if job.status != JobStatus::Cancelled {
                        lemma_first_at(job_ids(s.jobs), id);
                        lemma_job_changed(
                            s,
                            id,
                            Job { pid: Some(pid), status: JobStatus::Downloading, ..job },
                            false,
                        );
                    }
                },
                None => {},
            }
        },
        JobMessage::JobCompleted { id, output_path } => {
            match find_job(s.jobs, id) {
                Some(job) => if job.status != JobStatus::Cancelled {
                    lemma_first_at(job_ids(s.jobs), id);
                    lemma_job_changed(
                        s,
                        id,
                        Job {
                            status: JobStatus::Completed,
                            progress: crate::models::FULL_PERCENT,
                            ..job
                        },
                        true,
                    );
                },
                None => {
                    lemma_forgotten(s, id);
                },
            }
        },
        JobMessage::JobError { id, error } => {
            match find_job(s.jobs, id) {
                Some(job) => if job.status != JobStatus::Cancelled {
                    lemma_first_at(job_ids(s.jobs), id);
                    lemma_job_changed(s, id, Job { status: JobStatus::Error, ..job }, false);
                },
                None => {},
            }
        },
        JobMessage::NetworkReleased { id } => {
            lemma_first_at(s.network_holders, id);
            lemma_admission(without_holder(s, id), caps);
        },
        JobMessage::WorkerFinished => {
            lemma_worker_finished(s, caps);
        },
        JobMessage::GetPendingCount { stored } => {},
        JobMessage::ResumePending { stored } => {
            let jobs = crate::manager::stored_jobs(stored);
            lemma_taken_up(s, jobs);
            lemma_admission(taken_up(s, jobs).0, caps);
        },
        JobMessage::ClearPending => {},
    }
}

/// What [`worker_finished`] leaves of the counters: a state that is well
/// formed stays so, and one within the caps stays within them.
pub proof fn lemma_worker_finished(s: ManagerView, caps: Caps)
    ensures
        s.wf() ==> worker_finished(s, caps).0.wf(),
        s.within(caps) ==> worker_finished(s, caps).0.within(caps),
{
    let released = after_worker(s);
    lemma_admission(released, caps);
    if s.wf() {
        assert(released.wf());
    }
}

/// The caps hold at every message boundary: whatever the message, a state
/// within the caps is followed by one within them.
pub proof fn lemma_caps_hold(s: ManagerView, message: JobMessage, caps: Caps)
    requires
        s.within(caps),
    ensures
        next(s, message, caps).0.within(caps),
{
    match message {
        JobMessage::AddJob { job } => {
            lemma_admission(enqueued(s, job), caps);
        },
        JobMessage::NetworkReleased { id } => {
            lemma_admission(without_holder(s, id), caps);
        },
        JobMessage::WorkerFinished => {
            lemma_worker_finished(s, caps);
        },
        JobMessage::ResumePending { stored } => {
            let jobs = crate::manager::stored_jobs(stored);
            lemma_taken_up_counters(s, jobs);
            lemma_admission(taken_up(s, jobs).0, caps);
        },
        _ => {},
    }
}

/// Taking stored jobs up leaves the counters alone.
pub proof fn lemma_taken_up_counters(s: ManagerView, stored: Seq<QueuedJob>)
    ensures
        taken_up(s, stored).0.active_network_jobs == s.active_network_jobs,
        taken_up(s, stored).0.active_process_instances == s.active_process_instances,
    decreases stored.len(),
{
    if stored.len() > 0 {
        let job = stored[0];
        if find_job(s.jobs, job.id) is Some {
            lemma_taken_up_counters(s, stored.skip(1));
        } else {
            lemma_taken_up_counters(enqueued(s, job), stored.skip(1));
        }
    }
}

/// A tick changes neither the jobs nor the registries nor the counters.
pub proof fn lemma_tick_keeps(s: ManagerView, caps: Caps)
    ensures
        s.wf() ==> ticked(s).0.wf(),
        s.within(caps) ==> ticked(s).0.within(caps),
{
}

/// What is written to the persistence file is the persistence registry of the
/// state that follows: whenever a message has jobs persisted, they are the
/// registry afterwards. In a state that is well formed each of them is
/// therefore a job that is pending, downloading or failed.
pub proof fn lemma_persisted_is_registry(
    s: ManagerView,
    message: JobMessage,
    caps: Caps,
    i: int,
)
    requires
        0 <= i < next(s, message, caps).1.len(),
        next(s, message, caps).1[i] is Persist,
    ensures
        next(s, message, caps).1[i] == EffectView::Persist(next(s, message, caps).0.registry),
        s.wf() ==> forall|k: int|
            0 <= k < next(s, message, caps).0.registry.len() ==> #[trigger] resumable(
                next(s, message, caps).0.jobs,
                next(s, message, caps).0.registry[k].id,
            ),
{
    if s.wf() {
        lemma_invariant_holds(s, message, caps);
    }
    match message {
        JobMessage::AddJob { job } => {
            lemma_admission(enqueued(s, job), caps);
        },
        JobMessage::NetworkReleased { id } => {
            lemma_admission(without_holder(s, id), caps);
        },
        JobMessage::WorkerFinished => {
            let effects = worker_finished(s, caps).1;
            lemma_worker_finished_effects(s, caps, i);
        },
        JobMessage::ResumePending { stored } => {
            let jobs = crate::manager::stored_jobs(stored);
            lemma_admission(taken_up(s, jobs).0, caps);
        },
        _ => {},
    }
}

/// `WorkerFinished` has nothing persisted.
proof fn lemma_worker_finished_effects(s: ManagerView, caps: Caps, i: int)
    requires
        0 <= i < worker_finished(s, caps).1.len(),
    ensures
        !(worker_finished(s, caps).1[i] is Persist),
{
}

/// The state of an orchestrator that has seen nothing but `AddJob`, once for
/// each of `jobs`, in order.
pub open spec fn after_adding(jobs: Seq<QueuedJob>, caps: Caps) -> ManagerView
    decreases jobs.len(),
{
    if jobs.len() == 0 {
        ManagerView::cold()
    } else {
        next(after_adding(jobs.drop_last(), caps), JobMessage::AddJob { job: jobs.last() }, caps).0
    }
}

/// Jobs with ids of their own, added to a cold orchestrator, are its job
/// registry and its persistence registry, in the order in which they came.
pub proof fn lemma_after_adding(jobs: Seq<QueuedJob>, caps: Caps)
    requires
        queued_ids(jobs).no_duplicates(),
    ensures
        after_adding(jobs, caps).registry == jobs,
        job_ids(after_adding(jobs, caps).jobs) == queued_ids(jobs),
    decreases jobs.len(),
{
    if jobs.len() == 0 {
        assert(after_adding(jobs, caps).registry =~= jobs);
        assert(job_ids(after_adding(jobs, caps).jobs) =~= queued_ids(jobs));
    } else {
        let front = jobs.drop_last();
        let job = jobs.last();
        assert forall|i: int, j: int|
            0 <= i < front.len() && 0 <= j < front.len() && i != j implies queued_ids(front)[i]
            != queued_ids(front)[j] by {
            assert(queued_ids(jobs)[i] != queued_ids(jobs)[j]);
        }
        lemma_after_adding(front, caps);
        let before = after_adding(front, caps);
        let ids = job_ids(before.jobs);
        assert forall|k: int| 0 <= k < ids.len() implies ids[k] != job.id by {
            assert(queued_ids(jobs)[k] != queued_ids(jobs)[jobs.len() - 1]);
        }
        lemma_first_at_is(ids, job.id, ids.len() as int);
        lemma_admission(enqueued(before, job), caps);
        assert(before.registry.push(job) =~= jobs);
        let grown = before.jobs.push(Job::fresh(job.id, job.url));
        assert forall|k: int| 0 <= k < grown.len() implies job_ids(grown)[k] == queued_ids(
            jobs,
        )[k] by {
            if k < before.jobs.len() {
                assert(grown[k] == before.jobs[k]);
                assert(job_ids(before.jobs)[k] == queued_ids(front)[k]);
                assert(front[k] == jobs[k]);
            }
        }
        assert(job_ids(grown) =~= queued_ids(jobs));
    }
}

/// Stored jobs with ids of their own, none of them known, are all taken up,
/// in order.
pub proof fn lemma_all_taken_up(s: ManagerView, stored: Seq<QueuedJob>)
    requires
        queued_ids(stored).no_duplicates(),
        forall|i: int, k: int|
            0 <= i < stored.len() && 0 <= k < s.jobs.len() ==> stored[i].id != s.jobs[k].id,
    ensures
        taken_up(s, stored).1 == stored,
    decreases stored.len(),
{
    if stored.len() == 0 {
        assert(taken_up(s, stored).1 =~= stored);
    } else {
        let job = stored[0];
        let rest = stored.skip(1);
        let ids = job_ids(s.jobs);
        assert forall|k: int| 0 <= k < ids.len() implies ids[k] != job.id by {
            assert(stored[0].id != s.jobs[k].id);
        }
        lemma_first_at_is(ids, job.id, ids.len() as int);
        let t = enqueued(s, job);
        assert forall|i: int, j: int|
            0 <= i < rest.len() && 0 <= j < rest.len() && i != j implies queued_ids(rest)[i]
            != queued_ids(rest)[j] by {
            assert(queued_ids(stored)[i + 1] != queued_ids(stored)[j + 1]);
        }
        assert forall|i: int, k: int| 0 <= i < rest.len() && 0 <= k < t.jobs.len() implies rest[i].id
            != t.jobs[k].id by {
            if k < s.jobs.len() {
                assert(stored[i + 1].id != s.jobs[k].id);
            } else {
                assert(queued_ids(stored)[i + 1] != queued_ids(stored)[0]);
            }
        }
        lemma_all_taken_up(t, rest);
        assert(seq![job] + rest =~= stored);
    }
}

/// What a cold orchestrator takes up is what was added: jobs with ids of
/// their own, added one by one to a cold orchestrator, are what it has to
/// persist, and another cold orchestrator that is told to resume what was
/// persisted answers with the same jobs, in the same order.
pub proof fn lemma_add_then_resume(jobs: Seq<QueuedJob>, caps: Caps, later: Caps)
    requires
        queued_ids(jobs).no_duplicates(),
    ensures
        after_adding(jobs, caps).registry == jobs,
        forall|stored: Vec<QueuedJob>|
            stored@ == after_adding(jobs, caps).registry ==> (#[trigger] resumed(
                ManagerView::cold(),
                Some(stored),
                later,
            )).1.last() == EffectView::ResumeReply(jobs),
{
    lemma_after_adding(jobs, caps);
    lemma_all_taken_up(ManagerView::cold(), jobs);
}

/// What is taken up is among what was stored.
pub proof fn lemma_taken_up_from_stored(s: ManagerView, stored: Seq<QueuedJob>, i: int)
    requires
        0 <= i < taken_up(s, stored).1.len(),
    ensures
        stored.contains(taken_up(s, stored).1[i]),
    decreases stored.len(),
{
    if stored.len() > 0 {
        let job = stored[0];
        let rest = stored.skip(1);
        if find_job(s.jobs, job.id) is Some {
            lemma_taken_up_from_stored(s, rest, i);
            let found = taken_up(s, rest).1[i];
            let k = choose|k: int| 0 <= k < rest.len() && rest[k] == found;
            assert(stored[k + 1] == found);
        } else if i == 0 {
            assert(stored[0] == taken_up(s, stored).1[i]);
        } else {
            lemma_taken_up_from_stored(enqueued(s, job), rest, i - 1);
            let found = taken_up(enqueued(s, job), rest).1[i - 1];
            let k = choose|k: int| 0 <= k < rest.len() && rest[k] == found;
            assert(stored[k + 1] == found);
        }
    }
}

/// A job that is added and then cancelled is not resumed: after `AddJob` and
/// `CancelJob` for its id the persistence registry does not hold the id, and
/// a cold orchestrator that is told to resume what was persisted does not
/// take it up.
pub proof fn lemma_cancelled_is_not_resumed(
    s: ManagerView,
    job: QueuedJob,
    caps: Caps,
    i: int,
)
    requires
        s.wf(),
        0 <= i < taken_up(
            ManagerView::cold(),
            next(
                next(s, JobMessage::AddJob { job }, caps).0,
                JobMessage::CancelJob { id: job.id },
                caps,
            ).0.registry,
        ).1.len(),
    ensures
        forall|k: int|
            0 <= k < next(
                next(s, JobMessage::AddJob { job }, caps).0,
                JobMessage::CancelJob { id: job.id },
                caps,
            ).0.registry.len() ==> (#[trigger] next(
                next(s, JobMessage::AddJob { job }, caps).0,
                JobMessage::CancelJob { id: job.id },
                caps,
            ).0.registry[k]).id != job.id,
        taken_up(
            ManagerView::cold(),
            next(
                next(s, JobMessage::AddJob { job }, caps).0,
                JobMessage::CancelJob { id: job.id },
                caps,
            ).0.registry,
        ).1[i].id != job.id,
{
    let added = next(s, JobMessage::AddJob { job }, caps).0;
    lemma_invariant_holds(s, JobMessage::AddJob { job }, caps);
    let after = next(added, JobMessage::CancelJob { id: job.id }, caps).0;
    lemma_drop_queued(added.registry, job.id);
    assert forall|k: int| 0 <= k < after.registry.len() implies (#[trigger] after.registry[k]).id
        != job.id by {
        if find_job(added.jobs, job.id) matches Some(found) && found.status
            == JobStatus::Cancelled {
            assert(resumable(added.jobs, added.registry[k].id));
        }
    }
    lemma_taken_up_from_stored(ManagerView::cold(), after.registry, i);
    let taken = taken_up(ManagerView::cold(), after.registry).1[i];
    let k = choose|k: int| 0 <= k < after.registry.len() && after.registry[k] == taken;
    assert(after.registry[k].id != job.id);
}

/// Admission and the taking up of stored jobs leave a job as it is.
pub proof fn lemma_taken_up_keeps_job(s: ManagerView, stored: Seq<QueuedJob>, id: u128)
    requires
        find_job(s.jobs, id) is Some,
    ensures
        find_job(taken_up(s, stored).0.jobs, id) == find_job(s.jobs, id),
    decreases stored.len(),
{
    if stored.len() > 0 {
        let job = stored[0];
        if find_job(s.jobs, job.id) is Some {
            lemma_taken_up_keeps_job(s, stored.skip(1), id);
        } else {
            let t = enqueued(s, job);
            lemma_first_at(job_ids(s.jobs), id);
            lemma_first_at_push(job_ids(s.jobs), job.id, id);
            assert(job_ids(t.jobs) =~= job_ids(s.jobs).push(job.id));
            assert(t.jobs[first_at(job_ids(s.jobs), id)] == s.jobs[first_at(job_ids(s.jobs), id)]);
            lemma_taken_up_keeps_job(t, stored.skip(1), id);
        }
    }
}

/// A job that is cancelled stays cancelled: whatever the message, and whatever
/// its worker reports after the cancellation, the job is cancelled
/// afterwards. A failure or a completion that is reported of it has no effect
/// at all.
pub proof fn lemma_cancelled_stays(s: ManagerView, message: JobMessage, caps: Caps, id: u128)
    requires
        is_cancelled(s.jobs, id),
    ensures
        is_cancelled(next(s, message, caps).0.jobs, id),
        message matches JobMessage::JobError { id: failed, .. } && failed == id ==> next(
            s,
            message,
            caps,
        ) == (s, Seq::<EffectView>::empty()),
        message matches JobMessage::JobCompleted { id: done, .. } && done == id ==> next(
            s,
            message,
            caps,
        ) == (s, Seq::<EffectView>::empty()),
{
    match message {
        JobMessage::AddJob { job } => {
            if find_job(s.jobs, job.id) is None {
                lemma_first_at(job_ids(s.jobs), id);
                lemma_first_at_push(job_ids(s.jobs), job.id, id);
                let t = enqueued(s, job);
                assert(job_ids(t.jobs) =~= job_ids(s.jobs).push(job.id));
                assert(t.jobs[first_at(job_ids(s.jobs), id)] == s.jobs[first_at(
                    job_ids(s.jobs),
                    id,
                )]);
                lemma_admission(t, caps);
            }
        },
        JobMessage::CancelJob { id: other } => {
            match find_job(s.jobs, other) {
                Some(job) => if job.status != JobStatus::Cancelled {
                    lemma_first_at(job_ids(s.jobs), other);
                    lemma_put_job(s.jobs, other, Job { status: JobStatus::Cancelled, ..job }, id);
                },
                None => {},
            }
        },
        JobMessage::UpdateProgress { id: other, percentage, speed, eta, filename, phase } => {
            match find_job(s.jobs, other) {
                Some(job) => {
                    lemma_first_at(job_ids(s.jobs), other);
                    lemma_put_job(s.jobs, other, Job { progress: percentage, ..job }, id);
                },
                None => {},
            }
        },
        JobMessage::ProcessStarted { id: other, pid } => {
            match find_job(s.jobs, other) {
                Some(job) => if job.status != JobStatus::Cancelled {
                    lemma_first_at(job_ids(s.jobs), other);
                    lemma_put_job(
                        s.jobs,
                        other,
                        Job { pid: Some(pid), status: JobStatus::Downloading, ..job },
                        id,
                    );
                },
                None => {},
            }
        },
        JobMessage::JobCompleted { id: other, output_path } => {
            match find_job(s.jobs, other) {
                Some(job) => if job.status != JobStatus::Cancelled {
                    lemma_first_at(job_ids(s.jobs), other);
                    lemma_put_job(
                        s.jobs,
                        other,
                        Job {
                            status: JobStatus::Completed,
                            progress: crate::models::FULL_PERCENT,
                            ..job
                        },
                        id,
                    );
                },
                None => {},
            }
        },
        JobMessage::JobError { id: other, error } => {
            match find_job(s.jobs, other) {
                Some(job) => if job.status != JobStatus::Cancelled {
                    lemma_first_at(job_ids(s.jobs), other);
                    lemma_put_job(s.jobs, other, Job { status: JobStatus::Error, ..job }, id);
                },
                None => {},
            }
        },
        JobMessage::NetworkReleased { id } => {
            lemma_admission(without_holder(s, id), caps);
        },
        JobMessage::WorkerFinished => {
            lemma_worker_finished_keeps_jobs(s, caps);
        },
        JobMessage::GetPendingCount { stored } => {},
        JobMessage::ResumePending { stored } => {
            let jobs = crate::manager::stored_jobs(stored);
            lemma_taken_up_keeps_job(s, jobs, id);
            lemma_admission(taken_up(s, jobs).0, caps);
        },
        JobMessage::ClearPending => {},
    }
}

/// `WorkerFinished` changes no job.
pub proof fn lemma_worker_finished_keeps_jobs(s: ManagerView, caps: Caps)
    ensures
        worker_finished(s, caps).0.jobs == s.jobs,
{
    lemma_admission(after_worker(s), caps);
}

} // verus!
