//! Who holds the network slots.
//!
//! A job takes a network slot when it is dispatched and gives it back at the
//! first word of its supervisor that the network is needed no longer. The
//! laws here say that the orchestrator's record of the holders is sound in
//! every state, and that a job gives its slot back once: later words of the
//! same kind, from a second attempt or from the end of the supervisor, find
//! the job off the record and give nothing back.

use vstd::prelude::*;
use crate::invariants::lemma_admission;
use crate::manager::admission;
use crate::manager::after_worker;
use crate::manager::enqueued;
use crate::manager::find_job;
use crate::manager::first_at;
use crate::manager::job_ids;
use crate::manager::lemma_first_at;
use crate::manager::next;
use crate::manager::put_job;
use crate::manager::queued_ids;
use crate::manager::taken_up;
use crate::manager::ticked;
use crate::manager::without_holder;
use crate::manager::Caps;
use crate::manager::ManagerView;
use crate::models::Job;
use crate::models::JobMessage;
use crate::models::JobStatus;
use crate::models::QueuedJob;

verus! {

/// What holds of the ids of the jobs known, of those that wait and of those
/// that hold a network slot: no job waits twice or holds two slots, every
/// job that waits or holds a slot is known, and none that holds a slot waits.
pub open spec fn sound(known: Seq<u128>, waiting: Seq<u128>, holders: Seq<u128>) -> bool {
    &&& waiting.no_duplicates()
    &&& holders.no_duplicates()
    &&& forall|i: int| 0 <= i < waiting.len() ==> known.contains(#[trigger] waiting[i])
    &&& forall|i: int| 0 <= i < holders.len() ==> known.contains(#[trigger] holders[i])
    &&& forall|i: int, j: int|
        0 <= i < waiting.len() && 0 <= j < holders.len() ==> #[trigger] waiting[i]
            != #[trigger] holders[j]
}

/// The record of the network slots is sound, by [`sound`].
pub open spec fn slots_sound(s: ManagerView) -> bool {
    sound(job_ids(s.jobs), queued_ids(s.queue), s.network_holders)
}

/// Whether the job `id` is done with the network: it is known, it does not
/// wait, and it holds no network slot.
pub open spec fn spent(s: ManagerView, id: u128) -> bool {
    &&& job_ids(s.jobs).contains(id)
    &&& !queued_ids(s.queue).contains(id)
    &&& !s.network_holders.contains(id)
}

/// An id is among `ids` just where [`first_at`] finds it.
pub proof fn lemma_found(ids: Seq<u128>, id: u128)
    ensures
        ids.contains(id) <==> first_at(ids, id) < ids.len(),
{
    lemma_first_at(ids, id);
    if first_at(ids, id) < ids.len() {
        assert(ids[first_at(ids, id)] == id);
    }
}

/// A job that is new keeps the record sound when it joins the queue.
pub proof fn lemma_sound_enqueue(
    known: Seq<u128>,
    waiting: Seq<u128>,
    holders: Seq<u128>,
    id: u128,
)
    requires
        sound(known, waiting, holders),
        !known.contains(id),
    ensures
        sound(known.push(id), waiting.push(id), holders),
{
    let more = known.push(id);
    let longer = waiting.push(id);
    assert forall|k: u128| known.contains(k) implies more.contains(k) by {
        let i = choose|i: int| 0 <= i < known.len() && known[i] == k;
        assert(more[i] == k);
    }
    assert(more[known.len() as int] == id);
    assert forall|i: int| 0 <= i < longer.len() implies more.contains(#[trigger] longer[i]) by {
        if i < waiting.len() {
            assert(longer[i] == waiting[i]);
        }
    }
    assert forall|i: int, j: int| 0 <= i < j < longer.len() implies longer[i] != longer[j] by {
        assert(longer[i] == waiting[i]);
        if j < waiting.len() {
            assert(longer[j] == waiting[j]);
        }
    }
    assert forall|i: int, j: int|
        0 <= i < longer.len() && 0 <= j < holders.len() implies #[trigger] longer[i]
        != #[trigger] holders[j] by {
        if i < waiting.len() {
            assert(longer[i] == waiting[i]);
        }
    }
}

/// The head of the queue keeps the record sound when it leaves the queue,
/// whether it is dropped or takes a slot.
pub proof fn lemma_sound_dispatch(known: Seq<u128>, waiting: Seq<u128>, holders: Seq<u128>)
    requires
        sound(known, waiting, holders),
        waiting.len() > 0,
    ensures
        sound(known, waiting.skip(1), holders),
        sound(known, waiting.skip(1), holders.push(waiting[0])),
{
    let rest = waiting.skip(1);
    let more = holders.push(waiting[0]);
    assert forall|i: int| 0 <= i < rest.len() implies #[trigger] rest[i] == waiting[i + 1] by {}
    assert forall|i: int, j: int| 0 <= i < j < more.len() implies more[i] != more[j] by {
        assert(more[i] == holders[i]);
        if j < holders.len() {
            assert(more[j] == holders[j]);
        }
    }
    assert forall|i: int| 0 <= i < more.len() implies known.contains(#[trigger] more[i]) by {
        if i < holders.len() {
            assert(more[i] == holders[i]);
        }
    }
    assert forall|i: int, j: int| 0 <= i < rest.len() && 0 <= j < more.len() implies #[trigger] rest[i]
        != #[trigger] more[j] by {
        assert(rest[i] == waiting[i + 1]);
        if j < holders.len() {
            assert(more[j] == holders[j]);
        }
    }
}

/// A holder that is taken off the record is on it no longer, and the record
/// stays sound.
pub proof fn lemma_sound_release(
    known: Seq<u128>,
    waiting: Seq<u128>,
    holders: Seq<u128>,
    at: int,
)
    requires
        sound(known, waiting, holders),
        0 <= at < holders.len(),
    ensures
        sound(known, waiting, holders.remove(at)),
        !holders.remove(at).contains(holders[at]),
{
    let fewer = holders.remove(at);
    assert forall|i: int| 0 <= i < fewer.len() implies #[trigger] fewer[i] == holders[if i < at {
        i
    } else {
        i + 1
    }] by {}
}

/// The ids of a queue without its head are those of the queue without the
/// first.
proof fn lemma_rest_ids(queue: Seq<QueuedJob>)
    requires
        queue.len() > 0,
    ensures
        queued_ids(queue.subrange(1, queue.len() as int)) == queued_ids(queue).skip(1),
        queued_ids(queue)[0] == queue[0].id,
{
    assert(queued_ids(queue.subrange(1, queue.len() as int)) =~= queued_ids(queue).skip(1));
}

/// Admission keeps the record of the network slots sound.
pub proof fn lemma_admission_keeps_sound(s: ManagerView, caps: Caps)
    requires
        slots_sound(s),
    ensures
        slots_sound(admission(s, caps).0),
    decreases s.queue.len(),
{
    if s.has_room(caps) && s.queue.len() > 0 {
        let head = s.queue[0];
        let rest = ManagerView { queue: s.queue.subrange(1, s.queue.len() as int), ..s };
        lemma_rest_ids(s.queue);
        lemma_sound_dispatch(job_ids(s.jobs), queued_ids(s.queue), s.network_holders);
        if find_job(s.jobs, head.id) matches Some(job) && job.status == JobStatus::Cancelled {
            lemma_admission_keeps_sound(rest, caps);
        } else {
            lemma_admission_keeps_sound(
                ManagerView {
                    active_network_jobs: (s.active_network_jobs + 1) as u32,
                    active_process_instances: (s.active_process_instances + 1) as u32,
                    network_holders: s.network_holders.push(head.id),
                    ..rest
                },
                caps,
            );
        }
    }
}

/// Admission takes slots for jobs that wait, and for no others: a job that
/// waits afterwards waited before, and one that holds a network slot
/// afterwards held one or waited before.
pub proof fn lemma_admission_takes_from_queue(s: ManagerView, caps: Caps, id: u128)
    ensures
        queued_ids(admission(s, caps).0.queue).contains(id) ==> queued_ids(s.queue).contains(id),
        admission(s, caps).0.network_holders.contains(id) ==> s.network_holders.contains(id)
            || queued_ids(s.queue).contains(id),
    decreases s.queue.len(),
{
    if s.has_room(caps) && s.queue.len() > 0 {
        let head = s.queue[0];
        let rest = ManagerView { queue: s.queue.subrange(1, s.queue.len() as int), ..s };
        lemma_rest_ids(s.queue);
        let ids = queued_ids(s.queue);
        assert forall|k: u128| ids.skip(1).contains(k) implies ids.contains(k) by {
            let i = choose|i: int| 0 <= i < ids.skip(1).len() && ids.skip(1)[i] == k;
            assert(ids[i + 1] == k);
        }
        assert(ids[0] == head.id);
        if find_job(s.jobs, head.id) matches Some(job) && job.status == JobStatus::Cancelled {
            lemma_admission_takes_from_queue(rest, caps, id);
        } else {
            let taken = ManagerView {
                active_network_jobs: (s.active_network_jobs + 1) as u32,
                active_process_instances: (s.active_process_instances + 1) as u32,
                network_holders: s.network_holders.push(head.id),
                ..rest
            };
            lemma_admission_takes_from_queue(taken, caps, id);
            if taken.network_holders.contains(id) {
                let j = choose|j: int|
                    0 <= j < taken.network_holders.len() && taken.network_holders[j] == id;
                if j < s.network_holders.len() {
                    assert(s.network_holders[j] == id);
                }
            }
        }
    }
}

/// A job that is new keeps the record sound when it is enqueued, and leaves
/// a job that is done with the network as it is.
pub proof fn lemma_enqueued_slots(s: ManagerView, job: QueuedJob, id: u128)
    requires
        find_job(s.jobs, job.id) is None,
    ensures
        slots_sound(s) ==> slots_sound(enqueued(s, job)),
        spent(s, id) ==> spent(enqueued(s, job), id),
{
    let t = enqueued(s, job);
    lemma_found(job_ids(s.jobs), job.id);
    assert(job_ids(t.jobs) =~= job_ids(s.jobs).push(job.id));
    assert(queued_ids(t.queue) =~= queued_ids(s.queue).push(job.id));
    if slots_sound(s) {
        lemma_sound_enqueue(job_ids(s.jobs), queued_ids(s.queue), s.network_holders, job.id);
    }
    if spent(s, id) {
        let at = choose|i: int| 0 <= i < job_ids(s.jobs).len() && job_ids(s.jobs)[i] == id;
        assert(job_ids(t.jobs)[at] == id);
        if queued_ids(t.queue).contains(id) {
            let j = choose|j: int| 0 <= j < queued_ids(t.queue).len() && queued_ids(t.queue)[j] == id;
            if j < s.queue.len() {
                assert(queued_ids(s.queue)[j] == id);
            }
        }
    }
}

/// The taking up of stored jobs keeps the record sound, and leaves a job that
/// is done with the network as it is.
pub proof fn lemma_taken_up_slots(s: ManagerView, stored: Seq<QueuedJob>, id: u128)
    ensures
        slots_sound(s) ==> slots_sound(taken_up(s, stored).0),
        spent(s, id) ==> spent(taken_up(s, stored).0, id),
    decreases stored.len(),
{
    if stored.len() > 0 {
        let job = stored[0];
        if find_job(s.jobs, job.id) is Some {
            lemma_taken_up_slots(s, stored.skip(1), id);
        } else {
            lemma_enqueued_slots(s, job, id);
            lemma_taken_up_slots(enqueued(s, job), stored.skip(1), id);
        }
    }
}

/// A job put in the place of the one that is found under an id leaves the
/// ids as they are.
proof fn lemma_same_ids(jobs: Seq<Job>, id: u128, job: Job)
    requires
        find_job(jobs, id) is Some,
        job.id == find_job(jobs, id)->0.id,
    ensures
        job_ids(put_job(jobs, id, job)) == job_ids(jobs),
{
    lemma_first_at(job_ids(jobs), id);
    assert(job_ids(put_job(jobs, id, job)) =~= job_ids(jobs));
}

/// The messages that neither enqueue a job nor run admission nor give a slot
/// back leave the ids of the jobs known, the queue and the record of the
/// network slots as they are.
proof fn lemma_jobs_only(s: ManagerView, message: JobMessage, caps: Caps)
    requires
        message is CancelJob || message is UpdateProgress || message is ProcessStarted
            || message is JobCompleted || message is JobError || message is GetPendingCount
            || message is ClearPending,
    ensures
        job_ids(next(s, message, caps).0.jobs) == job_ids(s.jobs),
        next(s, message, caps).0.queue == s.queue,
        next(s, message, caps).0.network_holders == s.network_holders,
{
    match message {
        JobMessage::CancelJob { id } => {
            if let Some(job) = find_job(s.jobs, id) {
                lemma_same_ids(s.jobs, id, Job { status: JobStatus::Cancelled, ..job });
            }
        },
        JobMessage::UpdateProgress { id, percentage, speed, eta, filename, phase } => {
            if let Some(job) = find_job(s.jobs, id) {
                lemma_same_ids(s.jobs, id, Job { progress: percentage, ..job });
            }
        },
        JobMessage::ProcessStarted { id, pid } => {
            if let Some(job) = find_job(s.jobs, id) {
                lemma_same_ids(
                    s.jobs,
                    id,
                    Job { pid: Some(pid), status: JobStatus::Downloading, ..job },
                );
            }
        },
        JobMessage::JobCompleted { id, output_path } => {
            if let Some(job) = find_job(s.jobs, id) {
                lemma_same_ids(
                    s.jobs,
                    id,
                    Job {
                        status: JobStatus::Completed,
                        progress: crate::models::FULL_PERCENT,
                        ..job
                    },
                );
            }
        },
        JobMessage::JobError { id, error } => {
            if let Some(job) = find_job(s.jobs, id) {
                lemma_same_ids(s.jobs, id, Job { status: JobStatus::Error, ..job });
            }
        },
        _ => {},
    }
}

/// The record of the network slots is sound in every state: it is so at the
/// start, and whatever the message, it stays so. So no job holds two network
/// slots or waits twice, every job that waits or holds a slot is known, and
/// none waits that holds a slot.
pub proof fn lemma_slots_stay_sound(s: ManagerView, message: JobMessage, caps: Caps)
    requires
        slots_sound(s),
    ensures
        slots_sound(ManagerView::cold()),
        slots_sound(next(s, message, caps).0),
        slots_sound(ticked(s).0),
{
    match message {
        JobMessage::AddJob { job } => {
            if find_job(s.jobs, job.id) is None {
                lemma_enqueued_slots(s, job, job.id);
                lemma_admission_keeps_sound(enqueued(s, job), caps);
            }
        },
        JobMessage::NetworkReleased { id } => {
            lemma_first_at(s.network_holders, id);
            if first_at(s.network_holders, id) < s.network_holders.len() {
                lemma_sound_release(
                    job_ids(s.jobs),
                    queued_ids(s.queue),
                    s.network_holders,
                    first_at(s.network_holders, id),
                );
            }
            lemma_admission_keeps_sound(without_holder(s, id), caps);
        },
        JobMessage::WorkerFinished => {
            lemma_admission_keeps_sound(after_worker(s), caps);
        },
        JobMessage::ResumePending { stored } => {
            let jobs = crate::manager::stored_jobs(stored);
            lemma_taken_up_slots(s, jobs, 0);
            lemma_admission_keeps_sound(taken_up(s, jobs).0, caps);
        },
        _ => {
            lemma_jobs_only(s, message, caps);
        },
    }
}

/// What is left of a record when one id is taken off was on it.
proof fn lemma_removed_is_fewer(ids: Seq<u128>, at: int, id: u128)
    requires
        0 <= at < ids.len(),
        ids.remove(at).contains(id),
    ensures
        ids.contains(id),
{
    let fewer = ids.remove(at);
    let i = choose|i: int| 0 <= i < fewer.len() && fewer[i] == id;
    if i < at {
        assert(ids[i] == id);
    } else {
        assert(ids[i + 1] == id);
    }
}

/// Admission leaves a job that is done with the network as it is.
pub proof fn lemma_admission_spent(s: ManagerView, caps: Caps, id: u128)
    requires
        spent(s, id),
    ensures
        spent(admission(s, caps).0, id),
{
    lemma_admission(s, caps);
    lemma_admission_takes_from_queue(s, caps, id);
}

/// A job gives its network slot back once. At the first word that a job
/// which holds a network slot needs the network no longer, the job is done
/// with the network: it is known, it does not wait, and it holds no slot.
pub proof fn lemma_network_slot_comes_back(s: ManagerView, id: u128, caps: Caps)
    requires
        slots_sound(s),
        s.network_holders.contains(id),
    ensures
        spent(next(s, JobMessage::NetworkReleased { id }, caps).0, id),
{
    let at = first_at(s.network_holders, id);
    lemma_found(s.network_holders, id);
    lemma_first_at(s.network_holders, id);
    lemma_sound_release(job_ids(s.jobs), queued_ids(s.queue), s.network_holders, at);
    if queued_ids(s.queue).contains(id) {
        let i = choose|i: int| 0 <= i < queued_ids(s.queue).len() && queued_ids(s.queue)[i] == id;
        assert(queued_ids(s.queue)[i] != s.network_holders[at]);
    }
    lemma_admission_spent(without_holder(s, id), caps, id);
}

/// A job that is done with the network stays so, whatever the message: it is
/// not enqueued again and takes no slot again. Another word that it needs the
/// network no longer, from a second attempt or from the end of its
/// supervisor, gives no slot back.
pub proof fn lemma_spent_stays(s: ManagerView, message: JobMessage, caps: Caps, id: u128)
    requires
        spent(s, id),
    ensures
        spent(next(s, message, caps).0, id),
        spent(ticked(s).0, id),
        without_holder(s, id) == s,
{
    lemma_found(s.network_holders, id);
    match message {
        JobMessage::AddJob { job } => {
            if find_job(s.jobs, job.id) is None {
                lemma_enqueued_slots(s, job, id);
                lemma_admission_spent(enqueued(s, job), caps, id);
            }
        },
        JobMessage::NetworkReleased { id: other } => {
            let at = first_at(s.network_holders, other);
            lemma_first_at(s.network_holders, other);
            if at < s.network_holders.len() && s.network_holders.remove(at).contains(id) {
                lemma_removed_is_fewer(s.network_holders, at, id);
            }
            lemma_admission_spent(without_holder(s, other), caps, id);
        },
        JobMessage::WorkerFinished => {
            lemma_admission_spent(after_worker(s), caps, id);
        },
        JobMessage::ResumePending { stored } => {
            let jobs = crate::manager::stored_jobs(stored);
            lemma_taken_up_slots(s, jobs, id);
            lemma_admission_spent(taken_up(s, jobs).0, caps, id);
        },
        _ => {
            lemma_jobs_only(s, message, caps);
        },
    }
}

} // verus!
