//! The records that the orchestrator, the supervisors and the user interface
//! exchange.
//!
//! A job is identified by a 128-bit number. A percentage is held in hundredths
//! of a percent, so that `10_000` stands for 100 %.

use vstd::prelude::*;

verus! {

/// 100 %, in hundredths of a percent.
pub const FULL_PERCENT: u32 = 10_000;

/// 99 %, in hundredths of a percent.
pub const NEARLY_FULL_PERCENT: u32 = 9_900;

/// Where a job stands in its life.
#[derive(Debug, Clone, Copy, PartialEq, Eq, Structural)]
pub enum JobStatus {
    Pending,
    Downloading,
    Completed,
    Cancelled,
    Error,
}

impl JobStatus {
    /// Whether a job in this status is over.
    pub open spec fn is_terminal(self) -> bool {
        self == JobStatus::Completed || self == JobStatus::Cancelled || self == JobStatus::Error
    }

    /// Whether a job in this status may still be written to the persistence
    /// store.
    pub open spec fn is_resumable(self) -> bool {
        self == JobStatus::Pending || self == JobStatus::Downloading || self == JobStatus::Error
    }

    /// Whether a job in this status counts for the aggregate progress.
    pub open spec fn is_active(self) -> bool {
        self == JobStatus::Pending || self == JobStatus::Downloading
    }
}

/// What the worker is asked to produce.
#[derive(Debug, Clone, Copy, PartialEq, Eq, Structural)]
pub enum DownloadFormatPreset {
    Best,
    BestMp4,
    BestMkv,
    BestWebm,
    AudioBest,
    AudioMp3,
    AudioFlac,
    AudioM4a,
}

/// The runtime state of a job.
#[derive(Debug, PartialEq, Eq)]
pub struct Job {
    pub id: u128,
    pub url: String,
    pub pid: Option<u32>,
    pub status: JobStatus,
    /// In hundredths of a percent.
    pub progress: u32,
    pub output_path: Option<String>,
}

impl Job {
    /// A pending job without progress.
    pub fn new(id: u128, url: String) -> (r: Self)
        ensures
            r == Job::fresh(id, url),
    {
        Job { id, url, pid: None, status: JobStatus::Pending, progress: 0, output_path: None }
    }

    /// The job that [`Job::new`] makes.
    pub open spec fn fresh(id: u128, url: String) -> Job {
        Job { id, url, pid: None, status: JobStatus::Pending, progress: 0, output_path: None }
    }
}

impl Clone for Job {
    fn clone(&self) -> (r: Self)
        ensures
            r == *self,
    {
        Job {
            id: self.id,
            url: self.url.clone(),
            pid: self.pid,
            status: self.status,
            progress: self.progress,
            output_path: clone_optional_text(&self.output_path),
        }
    }
}

/// A copy of an optional string.
pub fn clone_optional_text(text: &Option<String>) -> (r: Option<String>)
    ensures
        r == *text,
{
    match text {
        Some(s) => Some(s.clone()),
        None => None,
    }
}

/// The durable description of a job.
#[derive(Debug, PartialEq, Eq)]
pub struct QueuedJob {
    pub id: u128,
    pub url: String,
    pub download_path: Option<String>,
    pub format_preset: DownloadFormatPreset,
    /// `best`, or a height such as `1080p`.
    pub video_resolution: String,
    pub embed_metadata: bool,
    pub embed_thumbnail: bool,
    pub filename_template: String,
    pub restrict_filenames: bool,
}

impl Clone for QueuedJob {
    fn clone(&self) -> (r: Self)
        ensures
            r == *self,
    {
        QueuedJob {
            id: self.id,
            url: self.url.clone(),
            download_path: clone_optional_text(&self.download_path),
            format_preset: self.format_preset,
            video_resolution: self.video_resolution.clone(),
            embed_metadata: self.embed_metadata,
            embed_thumbnail: self.embed_thumbnail,
            filename_template: self.filename_template.clone(),
            restrict_filenames: self.restrict_filenames,
        }
    }
}

/// What a playlist probe found.
#[derive(Debug, PartialEq, Eq)]
pub struct PlaylistResult {
    pub entries: Vec<PlaylistEntry>,
}

/// One item of a playlist, or the single item that a URL stands for.
#[derive(Debug, PartialEq, Eq)]
pub struct PlaylistEntry {
    pub id: Option<String>,
    pub url: String,
    pub title: String,
}

impl Clone for PlaylistEntry {
    fn clone(&self) -> (r: Self)
        ensures
            r == *self,
    {
        PlaylistEntry {
            id: clone_optional_text(&self.id),
            url: self.url.clone(),
            title: self.title.clone(),
        }
    }
}

/// The latest progress of one job, as the user interface shows it.
#[derive(Debug, PartialEq, Eq)]
pub struct DownloadProgressPayload {
    pub job_id: u128,
    /// In hundredths of a percent.
    pub percentage: u32,
    pub speed: String,
    pub eta: String,
    pub filename: Option<String>,
    pub phase: Option<String>,
}

impl Clone for DownloadProgressPayload {
    fn clone(&self) -> (r: Self)
        ensures
            r == *self,
    {
        DownloadProgressPayload {
            job_id: self.job_id,
            percentage: self.percentage,
            speed: self.speed.clone(),
            eta: self.eta.clone(),
            filename: clone_optional_text(&self.filename),
            phase: clone_optional_text(&self.phase),
        }
    }
}

/// The progress of every job that reported since the last batch.
#[derive(Debug, PartialEq, Eq)]
pub struct BatchProgressPayload {
    pub updates: Vec<DownloadProgressPayload>,
}

/// A job ended well.
#[derive(Debug, PartialEq, Eq)]
pub struct DownloadCompletePayload {
    pub job_id: u128,
    pub output_path: String,
}

/// A job failed or was cancelled.
#[derive(Debug, PartialEq, Eq)]
pub struct DownloadErrorPayload {
    pub job_id: u128,
    pub error: String,
}

/// What the orchestrator is told, by the command surface and by supervisors.
#[derive(Debug, PartialEq, Eq)]
pub enum JobMessage {
    /// Queue a new job.
    AddJob { job: QueuedJob },
    /// The user cancels a job.
    CancelJob { id: u128 },
    /// A supervisor reports progress.
    UpdateProgress {
        id: u128,
        percentage: u32,
        speed: String,
        eta: String,
        filename: Option<String>,
        phase: String,
    },
    /// A supervisor's worker runs under this process id.
    ProcessStarted { id: u128, pid: u32 },
    /// A supervisor delivered the output.
    JobCompleted { id: u128, output_path: String },
    /// A supervisor failed.
    JobError { id: u128, error: String },
    /// A supervisor's worker needs the network no longer: the job gives back
    /// its network slot, if it still holds it.
    NetworkReleased { id: u128 },
    /// A supervisor is done: its job gives back its process slot.
    WorkerFinished,
    /// Count the stored jobs. `stored` is what the persistence file holds, or
    /// nothing where it is missing or does not parse.
    GetPendingCount { stored: Option<Vec<QueuedJob>> },
    /// Take the stored jobs up again. `stored` is as for `GetPendingCount`.
    ResumePending { stored: Option<Vec<QueuedJob>> },
    /// Forget the stored jobs.
    ClearPending,
}

} // verus!
