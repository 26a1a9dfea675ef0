use multiyt_dlp::manager::Caps;
use multiyt_dlp::manager::Effect;
use multiyt_dlp::manager::JobManager;
use multiyt_dlp::models::DownloadFormatPreset;
use multiyt_dlp::models::DownloadProgressPayload;
use multiyt_dlp::models::Job;
use multiyt_dlp::models::JobMessage;
use multiyt_dlp::models::JobStatus;
use multiyt_dlp::models::QueuedJob;

fn caps(network: u32, processes: u32) -> Caps {
    Caps { max_concurrent_downloads: network, max_total_instances: processes }
}

fn job(id: u128) -> QueuedJob {
    QueuedJob {
        id,
        url: format!("https://host/{}", id),
        download_path: None,
        format_preset: DownloadFormatPreset::Best,
        video_resolution: "best".to_string(),
        embed_metadata: false,
        embed_thumbnail: false,
        filename_template: "%(title)s.%(ext)s".to_string(),
        restrict_filenames: false,
    }
}

fn add(manager: &mut JobManager, id: u128, limits: Caps) -> Vec<Effect> {
    manager.handle_message(JobMessage::AddJob { job: job(id) }, limits)
}

fn progress(id: u128, percentage: u32, phase: &str) -> JobMessage {
    JobMessage::UpdateProgress {
        id,
        percentage,
        speed: "1.00 MiB/s".to_string(),
        eta: "00:10".to_string(),
        filename: Some("Clip".to_string()),
        phase: phase.to_string(),
    }
}

fn payload(id: u128, percentage: u32, phase: &str) -> DownloadProgressPayload {
    DownloadProgressPayload {
        job_id: id,
        percentage,
        speed: "1.00 MiB/s".to_string(),
        eta: "00:10".to_string(),
        filename: Some("Clip".to_string()),
        phase: Some(phase.to_string()),
    }
}

fn spawned(effects: &[Effect]) -> Vec<u128> {
    effects
        .iter()
        .filter_map(|e| match e {
            Effect::SpawnSupervisor(job) => Some(job.id),
            _ => None,
        })
        .collect()
}

fn cancelled_by_user(id: u128) -> Effect {
    Effect::EmitError { job_id: id, error: "Cancelled by user".to_string() }
}

#[test]
fn new_job_is_a_pending_job() {
    assert_eq!(
        Job::new(3, "https://host/v".to_string()),
        Job {
            id: 3,
            url: "https://host/v".to_string(),
            pid: None,
            status: JobStatus::Pending,
            progress: 0,
            output_path: None,
        }
    );
}

#[test]
fn add_job_persists_admits_and_answers() {
    let mut manager = JobManager::new();
    assert_eq!(
        add(&mut manager, 1, caps(2, 4)),
        vec![Effect::Persist(vec![job(1)]), Effect::SpawnSupervisor(job(1)), Effect::AddJobReply(Ok(()))]
    );
    assert_eq!(manager.status_of(1), Some(JobStatus::Pending));
    assert_eq!(manager.progress_of(1), Some(0));
    assert_eq!(manager.active_network_jobs(), 1);
    assert_eq!(manager.active_process_instances(), 1);
    assert_eq!(manager.queued(), 0);
    assert_eq!(manager.persisted(), vec![job(1)]);
}

#[test]
fn add_job_refuses_a_known_id() {
    let mut manager = JobManager::new();
    add(&mut manager, 1, caps(2, 4));
    assert_eq!(
        add(&mut manager, 1, caps(2, 4)),
        vec![Effect::AddJobReply(Err("Job already exists".to_string()))]
    );
    assert_eq!(manager.persisted(), vec![job(1)]);
    assert_eq!(manager.active_network_jobs(), 1);
}

#[test]
fn unknown_job_has_no_status() {
    let manager = JobManager::new();
    assert_eq!(manager.status_of(1), None);
    assert_eq!(manager.progress_of(1), None);
}

#[test]
fn two_caps_bound_the_slots() {
    let limits = caps(2, 4);
    let mut manager = JobManager::new();
    let mut dispatched = Vec::new();
    for id in 1..=6 {
        dispatched.extend(spawned(&add(&mut manager, id, limits)));
        assert!(manager.active_network_jobs() <= 2);
        assert!(manager.active_process_instances() <= 4);
    }
    assert_eq!(dispatched, vec![1, 2]);
    assert_eq!((manager.active_network_jobs(), manager.active_process_instances(), manager.queued()), (2, 2, 4));
    // The first two reach their merge: each gives its network slot back, and a download takes it.
    assert_eq!(spawned(&manager.handle_message(JobMessage::NetworkReleased { id: 1 }, limits)), vec![3]);
    assert_eq!((manager.active_network_jobs(), manager.active_process_instances()), (2, 3));
    assert_eq!(spawned(&manager.handle_message(JobMessage::NetworkReleased { id: 2 }, limits)), vec![4]);
    assert_eq!((manager.active_network_jobs(), manager.active_process_instances()), (2, 4));
    // A third merge frees a network slot, but no process slot is left.
    assert_eq!(spawned(&manager.handle_message(JobMessage::NetworkReleased { id: 3 }, limits)), vec![]);
    assert_eq!((manager.active_network_jobs(), manager.active_process_instances(), manager.queued()), (1, 4, 2));
    // A worker that had given its network slot back ends: only a process slot comes back.
    assert_eq!(spawned(&manager.handle_message(JobMessage::WorkerFinished, limits)), vec![5]);
    assert_eq!((manager.active_network_jobs(), manager.active_process_instances()), (2, 4));
    assert_eq!(spawned(&manager.handle_message(JobMessage::WorkerFinished, limits)), vec![]);
    assert_eq!((manager.active_network_jobs(), manager.active_process_instances()), (2, 3));
    assert_eq!(spawned(&manager.handle_message(JobMessage::NetworkReleased { id: 4 }, limits)), vec![6]);
    assert_eq!((manager.active_network_jobs(), manager.active_process_instances(), manager.queued()), (2, 4, 0));
    for id in [5u128, 6] {
        manager.handle_message(JobMessage::NetworkReleased { id }, limits);
    }
    assert_eq!((manager.active_network_jobs(), manager.active_process_instances()), (0, 4));
    for left in [3u32, 2, 1, 0] {
        assert_eq!(spawned(&manager.handle_message(JobMessage::WorkerFinished, limits)), vec![]);
        assert_eq!((manager.active_network_jobs(), manager.active_process_instances()), (0, left));
    }
    assert_eq!(manager.handle_message(JobMessage::NetworkReleased { id: 6 }, limits), vec![]);
    assert_eq!((manager.active_network_jobs(), manager.active_process_instances()), (0, 0));
}

#[test]
fn job_gives_its_network_slot_back_once() {
    let limits = caps(2, 8);
    let mut manager = JobManager::new();
    for id in 1..=5 {
        add(&mut manager, id, limits);
    }
    assert_eq!((manager.active_network_jobs(), manager.active_process_instances()), (2, 2));
    assert!(manager.holds_network_slot(1) && manager.holds_network_slot(2));
    assert!(!manager.holds_network_slot(3));
    assert_eq!(spawned(&manager.handle_message(JobMessage::NetworkReleased { id: 1 }, limits)), vec![3]);
    assert!(!manager.holds_network_slot(1) && manager.holds_network_slot(3));
    // A second attempt of the same job reports again: nothing is given back for it.
    assert_eq!(manager.handle_message(JobMessage::NetworkReleased { id: 1 }, limits), vec![]);
    assert_eq!((manager.active_network_jobs(), manager.active_process_instances(), manager.queued()), (2, 3, 2));
    // Nor for a job that waits, or one that is not known.
    assert_eq!(manager.handle_message(JobMessage::NetworkReleased { id: 5 }, limits), vec![]);
    assert_eq!(manager.handle_message(JobMessage::NetworkReleased { id: 77 }, limits), vec![]);
    assert_eq!((manager.active_network_jobs(), manager.active_process_instances(), manager.queued()), (2, 3, 2));
    assert_eq!(spawned(&manager.handle_message(JobMessage::NetworkReleased { id: 3 }, limits)), vec![4]);
}

#[test]
fn worker_that_ends_holding_its_network_slot_gives_both_back() {
    let limits = caps(2, 4);
    let mut manager = JobManager::new();
    add(&mut manager, 1, limits);
    add(&mut manager, 2, limits);
    add(&mut manager, 3, limits);
    assert_eq!((manager.active_network_jobs(), manager.active_process_instances()), (2, 2));
    assert_eq!(spawned(&manager.handle_message(JobMessage::WorkerFinished, limits)), vec![3]);
    assert_eq!((manager.active_network_jobs(), manager.active_process_instances()), (2, 2));
    manager.handle_message(JobMessage::WorkerFinished, limits);
    manager.handle_message(JobMessage::WorkerFinished, limits);
    assert_eq!((manager.active_network_jobs(), manager.active_process_instances()), (0, 0));
}

#[test]
fn cancelled_job_stays_cancelled_when_its_worker_reports() {
    let limits = caps(4, 10);
    let mut manager = JobManager::new();
    add(&mut manager, 1, limits);
    manager.handle_message(JobMessage::ProcessStarted { id: 1, pid: 9 }, limits);
    manager.handle_message(JobMessage::CancelJob { id: 1 }, limits);
    assert_eq!(
        manager.handle_message(
            JobMessage::JobError { id: 1, error: "yt-dlp exited with code 1.".to_string() },
            limits
        ),
        vec![]
    );
    assert_eq!(manager.status_of(1), Some(JobStatus::Cancelled));
    assert_eq!(
        manager.handle_message(JobMessage::JobCompleted { id: 1, output_path: "/o/a".to_string() }, limits),
        vec![]
    );
    assert_eq!(manager.status_of(1), Some(JobStatus::Cancelled));
    assert_eq!(manager.persisted(), vec![]);
    assert_eq!(manager.handle_message(JobMessage::WorkerFinished, limits), vec![Effect::Notify { count: 1 }, Effect::SweepStaging]);
    assert_eq!(manager.status_of(1), Some(JobStatus::Cancelled));
}

#[test]
fn process_cap_below_the_network_cap_binds() {
    let limits = caps(5, 1);
    let mut manager = JobManager::new();
    assert_eq!(spawned(&add(&mut manager, 1, limits)), vec![1]);
    assert_eq!(spawned(&add(&mut manager, 2, limits)), vec![]);
    assert_eq!(manager.active_process_instances(), 1);
    let none = caps(0, 0);
    let mut idle = JobManager::new();
    assert_eq!(spawned(&add(&mut idle, 1, none)), vec![]);
    assert_eq!(idle.queued(), 1);
}

#[test]
fn cancelled_job_in_the_queue_is_skipped() {
    let limits = caps(1, 1);
    let mut manager = JobManager::new();
    add(&mut manager, 1, limits);
    add(&mut manager, 2, limits);
    add(&mut manager, 3, limits);
    assert_eq!(manager.queued(), 2);
    assert_eq!(
        manager.handle_message(JobMessage::CancelJob { id: 2 }, limits),
        vec![Effect::Persist(vec![job(1), job(3)]), cancelled_by_user(2)]
    );
    assert_eq!(manager.status_of(2), Some(JobStatus::Cancelled));
    let effects = manager.handle_message(JobMessage::WorkerFinished, limits);
    assert_eq!(spawned(&effects), vec![3]);
    assert_eq!(manager.queued(), 0);
    assert_eq!(manager.active_process_instances(), 1);
}

#[test]
fn playlist_of_three_is_counted_and_the_middle_one_cancelled() {
    let limits = caps(4, 10);
    let mut manager = JobManager::new();
    for id in [10u128, 20, 30] {
        add(&mut manager, id, limits);
    }
    assert_eq!(
        manager.handle_message(JobMessage::GetPendingCount { stored: Some(manager.persisted()) }, limits),
        vec![Effect::PendingCountReply(3)]
    );
    let effects = manager.handle_message(JobMessage::CancelJob { id: 20 }, limits);
    let errors: Vec<&Effect> = effects.iter().filter(|e| matches!(e, Effect::EmitError { .. })).collect();
    assert_eq!(errors, vec![&cancelled_by_user(20)]);
    assert_eq!(manager.persisted(), vec![job(10), job(30)]);
    manager.handle_message(
        JobMessage::JobCompleted { id: 10, output_path: "/out/a.mp4".to_string() },
        limits,
    );
    assert_eq!(
        manager.handle_message(JobMessage::GetPendingCount { stored: Some(manager.persisted()) }, limits),
        vec![Effect::PendingCountReply(1)]
    );
    assert_eq!(
        manager.handle_message(JobMessage::GetPendingCount { stored: None }, limits),
        vec![Effect::PendingCountReply(0)]
    );
}

#[test]
fn cancel_kills_a_known_process() {
    let limits = caps(4, 10);
    let mut manager = JobManager::new();
    add(&mut manager, 1, limits);
    manager.handle_message(JobMessage::ProcessStarted { id: 1, pid: 777 }, limits);
    assert_eq!(manager.status_of(1), Some(JobStatus::Downloading));
    assert_eq!(
        manager.handle_message(JobMessage::CancelJob { id: 1 }, limits),
        vec![Effect::KillProcess { pid: 777 }, Effect::Persist(vec![]), cancelled_by_user(1)]
    );
    assert_eq!(manager.status_of(1), Some(JobStatus::Cancelled));
    assert_eq!(manager.persisted(), vec![]);
}

#[test]
fn cancel_twice_does_nothing_the_second_time() {
    let limits = caps(4, 10);
    let mut manager = JobManager::new();
    add(&mut manager, 1, limits);
    assert_eq!(manager.handle_message(JobMessage::CancelJob { id: 1 }, limits).len(), 2);
    assert_eq!(manager.handle_message(JobMessage::CancelJob { id: 1 }, limits), vec![]);
    assert_eq!(manager.status_of(1), Some(JobStatus::Cancelled));
}

#[test]
fn cancel_of_an_unknown_job_still_tells_the_user() {
    let limits = caps(4, 10);
    let mut manager = JobManager::new();
    assert_eq!(
        manager.handle_message(JobMessage::CancelJob { id: 5 }, limits),
        vec![Effect::Persist(vec![]), cancelled_by_user(5)]
    );
    assert_eq!(manager.status_of(5), None);
}

#[test]
fn cancel_before_the_process_is_known_kills_it_on_arrival() {
    let limits = caps(4, 10);
    let mut manager = JobManager::new();
    add(&mut manager, 1, limits);
    assert_eq!(
        manager.handle_message(JobMessage::CancelJob { id: 1 }, limits),
        vec![Effect::Persist(vec![]), cancelled_by_user(1)]
    );
    assert_eq!(
        manager.handle_message(JobMessage::ProcessStarted { id: 1, pid: 888 }, limits),
        vec![Effect::KillProcess { pid: 888 }]
    );
    assert_eq!(manager.status_of(1), Some(JobStatus::Cancelled));
    assert_eq!(manager.persisted(), vec![]);
}

#[test]
fn cancel_after_the_process_is_known_kills_it_at_once() {
    let limits = caps(4, 10);
    let mut manager = JobManager::new();
    add(&mut manager, 1, limits);
    assert_eq!(manager.handle_message(JobMessage::ProcessStarted { id: 1, pid: 888 }, limits), vec![]);
    let effects = manager.handle_message(JobMessage::CancelJob { id: 1 }, limits);
    assert_eq!(effects[0], Effect::KillProcess { pid: 888 });
    assert_eq!(manager.status_of(1), Some(JobStatus::Cancelled));
    assert_eq!(manager.persisted(), vec![]);
}

#[test]
fn process_started_of_an_unknown_job_does_nothing() {
    let mut manager = JobManager::new();
    assert_eq!(manager.handle_message(JobMessage::ProcessStarted { id: 1, pid: 1 }, caps(1, 1)), vec![]);
    assert_eq!(manager.status_of(1), None);
}

#[test]
fn progress_is_kept_for_the_batch_and_the_latest_wins() {
    let limits = caps(4, 10);
    let mut manager = JobManager::new();
    add(&mut manager, 1, limits);
    add(&mut manager, 2, limits);
    assert_eq!(manager.handle_message(progress(1, 1_000, "Downloading"), limits), vec![]);
    assert_eq!(manager.handle_message(progress(2, 500, "Downloading"), limits), vec![]);
    assert_eq!(manager.handle_message(progress(1, 2_500, "Downloading"), limits), vec![]);
    assert_eq!(manager.handle_message(progress(9, 9_999, "Downloading"), limits), vec![]);
    assert_eq!(manager.progress_of(1), Some(2_500));
    assert_eq!(manager.progress_of(2), Some(500));
    assert_eq!(
        manager.tick(),
        vec![
            Effect::EmitBatch(vec![payload(1, 2_500, "Downloading"), payload(2, 500, "Downloading")]),
            Effect::SetIndicator { progress: 1_500, is_error: false },
        ]
    );
    assert_eq!(manager.tick(), vec![Effect::SetIndicator { progress: 1_500, is_error: false }]);
}

#[test]
fn indicator_is_the_mean_of_the_active_jobs() {
    let limits = caps(4, 10);
    let mut manager = JobManager::new();
    assert_eq!(manager.tick(), vec![Effect::ClearIndicator]);
    for id in 1..=4 {
        add(&mut manager, id, limits);
    }
    manager.handle_message(progress(1, 1_000, "Downloading"), limits);
    manager.handle_message(progress(2, 2_001, "Downloading"), limits);
    manager.handle_message(progress(3, 9_000, "Downloading"), limits);
    manager.tick();
    assert_eq!(manager.tick(), vec![Effect::SetIndicator { progress: 3_000, is_error: false }]);
    manager.handle_message(JobMessage::JobError { id: 3, error: "boom".to_string() }, limits);
    assert_eq!(manager.tick(), vec![Effect::SetIndicator { progress: 1_000, is_error: true }]);
    manager.handle_message(JobMessage::CancelJob { id: 1 }, limits);
    manager.handle_message(JobMessage::CancelJob { id: 4 }, limits);
    manager.handle_message(
        JobMessage::JobCompleted { id: 2, output_path: "/out/b".to_string() },
        limits,
    );
    assert_eq!(manager.tick(), vec![Effect::ClearIndicator]);
}

#[test]
fn completion_sets_full_progress_and_forgets_the_job() {
    let limits = caps(4, 10);
    let mut manager = JobManager::new();
    add(&mut manager, 1, limits);
    add(&mut manager, 2, limits);
    assert_eq!(
        manager.handle_message(
            JobMessage::JobCompleted { id: 1, output_path: "/out/Clip.mp4".to_string() },
            limits
        ),
        vec![
            Effect::Persist(vec![job(2)]),
            Effect::EmitComplete { job_id: 1, output_path: "/out/Clip.mp4".to_string() },
        ]
    );
    assert_eq!(manager.status_of(1), Some(JobStatus::Completed));
    assert_eq!(manager.progress_of(1), Some(10_000));
}

#[test]
fn error_keeps_the_job_persisted() {
    let limits = caps(4, 10);
    let mut manager = JobManager::new();
    add(&mut manager, 1, limits);
    assert_eq!(
        manager.handle_message(JobMessage::JobError { id: 1, error: "boom".to_string() }, limits),
        vec![Effect::EmitError { job_id: 1, error: "boom".to_string() }]
    );
    assert_eq!(manager.status_of(1), Some(JobStatus::Error));
    assert_eq!(manager.persisted(), vec![job(1)]);
}

#[test]
fn last_worker_notifies_and_sweeps_when_all_is_done() {
    let limits = caps(4, 10);
    let mut manager = JobManager::new();
    add(&mut manager, 1, limits);
    add(&mut manager, 2, limits);
    manager.handle_message(JobMessage::JobCompleted { id: 1, output_path: "/o/a".to_string() }, limits);
    assert_eq!(manager.handle_message(JobMessage::WorkerFinished, limits), vec![]);
    manager.handle_message(JobMessage::JobCompleted { id: 2, output_path: "/o/b".to_string() }, limits);
    assert_eq!(
        manager.handle_message(JobMessage::WorkerFinished, limits),
        vec![Effect::Notify { count: 2 }, Effect::SweepStaging]
    );
    assert_eq!(manager.active_process_instances(), 0);
    assert_eq!(manager.active_network_jobs(), 0);
    assert_eq!(manager.handle_message(JobMessage::WorkerFinished, limits), vec![Effect::SweepStaging]);
}

#[test]
fn last_worker_does_not_sweep_while_a_job_is_persisted() {
    let limits = caps(4, 10);
    let mut manager = JobManager::new();
    add(&mut manager, 1, limits);
    manager.handle_message(JobMessage::JobError { id: 1, error: "boom".to_string() }, limits);
    assert_eq!(manager.handle_message(JobMessage::WorkerFinished, limits), vec![Effect::Notify { count: 1 }]);
}

#[test]
fn resume_on_a_cold_orchestrator_returns_what_was_added_in_order() {
    let limits = caps(2, 4);
    let mut first = JobManager::new();
    let mut stored = Vec::new();
    for id in [4u128, 2, 9, 1] {
        for effect in add(&mut first, id, limits) {
            if let Effect::Persist(jobs) = effect {
                stored = jobs;
            }
        }
    }
    assert_eq!(stored, vec![job(4), job(2), job(9), job(1)]);
    let mut second = JobManager::new();
    assert_eq!(
        second.handle_message(JobMessage::ResumePending { stored: Some(stored.clone()) }, limits),
        vec![
            Effect::Persist(stored.clone()),
            Effect::SpawnSupervisor(job(4)),
            Effect::SpawnSupervisor(job(2)),
            Effect::ResumeReply(stored.clone()),
        ]
    );
    assert_eq!(second.queued(), 2);
    for id in [4u128, 2, 9, 1] {
        assert_eq!(second.status_of(id), Some(JobStatus::Pending));
    }
    assert_eq!(
        second.handle_message(JobMessage::ResumePending { stored: Some(stored) }, limits),
        vec![Effect::Persist(vec![job(4), job(2), job(9), job(1)]), Effect::ResumeReply(vec![])]
    );
}

#[test]
fn resume_after_add_and_cancel_does_not_return_the_job() {
    let limits = caps(2, 4);
    let mut first = JobManager::new();
    add(&mut first, 1, limits);
    add(&mut first, 2, limits);
    let mut stored = Vec::new();
    for effect in first.handle_message(JobMessage::CancelJob { id: 1 }, limits) {
        if let Effect::Persist(jobs) = effect {
            stored = jobs;
        }
    }
    let mut second = JobManager::new();
    let effects = second.handle_message(JobMessage::ResumePending { stored: Some(stored) }, limits);
    assert_eq!(effects.last(), Some(&Effect::ResumeReply(vec![job(2)])));
    assert_eq!(second.status_of(1), None);
}

#[test]
fn resume_skips_doubles_and_missing_files() {
    let limits = caps(0, 0);
    let mut manager = JobManager::new();
    assert_eq!(
        manager.handle_message(JobMessage::ResumePending { stored: None }, limits),
        vec![Effect::ResumeReply(vec![])]
    );
    assert_eq!(
        manager.handle_message(JobMessage::ResumePending { stored: Some(vec![]) }, limits),
        vec![Effect::Persist(vec![]), Effect::ResumeReply(vec![])]
    );
    assert_eq!(
        manager.handle_message(
            JobMessage::ResumePending { stored: Some(vec![job(1), job(2), job(1)]) },
            limits
        ),
        vec![Effect::Persist(vec![job(1), job(2)]), Effect::ResumeReply(vec![job(1), job(2)])]
    );
    assert_eq!(manager.queued(), 2);
}

#[test]
fn clear_pending_removes_the_file_and_sweeps_when_idle() {
    let limits = caps(4, 10);
    let mut manager = JobManager::new();
    assert_eq!(
        manager.handle_message(JobMessage::ClearPending, limits),
        vec![Effect::RemovePersistenceFile, Effect::SweepStaging]
    );
    add(&mut manager, 1, limits);
    assert_eq!(
        manager.handle_message(JobMessage::ClearPending, limits),
        vec![Effect::RemovePersistenceFile]
    );
    assert_eq!(manager.persisted(), vec![job(1)]);
}

#[test]
fn persisted_jobs_are_pending_downloading_or_failed() {
    let limits = caps(2, 3);
    let mut manager = JobManager::new();
    let messages = vec![
        JobMessage::AddJob { job: job(1) },
        JobMessage::AddJob { job: job(2) },
        JobMessage::AddJob { job: job(3) },
        JobMessage::ProcessStarted { id: 1, pid: 11 },
        JobMessage::JobError { id: 2, error: "x".to_string() },
        JobMessage::CancelJob { id: 3 },
        JobMessage::WorkerFinished,
        JobMessage::ProcessStarted { id: 3, pid: 33 },
        JobMessage::JobError { id: 3, error: "killed".to_string() },
        JobMessage::AddJob { job: job(4) },
        JobMessage::JobCompleted { id: 1, output_path: "/o".to_string() },
        JobMessage::WorkerFinished,
        JobMessage::ResumePending { stored: Some(vec![job(5), job(1)]) },
        JobMessage::ProcessStarted { id: 1, pid: 12 },
        JobMessage::ClearPending,
        JobMessage::CancelJob { id: 5 },
    ];
    for message in messages {
        for effect in manager.handle_message(message, limits) {
            if let Effect::Persist(jobs) = effect {
                assert_eq!(jobs, manager.persisted());
            }
        }
        for stored in manager.persisted() {
            let status = manager.status_of(stored.id);
            assert!(
                matches!(
                    status,
                    Some(JobStatus::Pending) | Some(JobStatus::Downloading) | Some(JobStatus::Error)
                ),
                "{:?}",
                status
            );
        }
        assert!(manager.active_network_jobs() <= 2);
        assert!(manager.active_process_instances() <= 3);
        assert!(manager.active_network_jobs() <= manager.active_process_instances());
    }
}
