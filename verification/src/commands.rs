//! The command facade: what the user interface may ask for, checked before
//! anything is done about it.

use vstd::prelude::*;
use crate::error::AppError;
use crate::launch::blank;
use crate::launch::is_blank;
use crate::launch::numerals;
use crate::models::DownloadFormatPreset;
use crate::models::PlaylistEntry;
use crate::models::QueuedJob;
use crate::models::clone_optional_text;
use crate::text::chars_of;
use crate::text::contains;
use crate::text::contains_text;
use crate::text::same_text;
use crate::text::starts_with;

verus! {

/// The template of a file name where the user gives none.
pub const DEFAULT_TEMPLATE: &'static str = "%(title)s.%(ext)s";

/// What the user asks for with `start_download`.
#[derive(Debug, PartialEq, Eq)]
pub struct DownloadRequest {
    pub url: String,
    pub download_path: Option<String>,
    pub format_preset: DownloadFormatPreset,
    pub video_resolution: String,
    pub embed_metadata: bool,
    pub embed_thumbnail: bool,
    pub filename_template: String,
    pub restrict_filenames: Option<bool>,
}

/// Whether a URL begins with `http://` or `https://`.
pub open spec fn valid_url(url: Seq<char>) -> bool {
    "http://"@.is_prefix_of(url) || "https://"@.is_prefix_of(url)
}

/// Whether a template is refused: it holds `..`, or begins with `/` or `\`.
pub open spec fn unsafe_template(template: Seq<char>) -> bool {
    contains_text(template, ".."@) || "/"@.is_prefix_of(template) || "\\"@.is_prefix_of(template)
}

/// The template that a download runs with: the default one for a blank
/// template, none for one that is refused, else the template itself.
pub open spec fn safe_template(template: Seq<char>) -> Option<Seq<char>> {
    if is_blank(template) {
        Some(DEFAULT_TEMPLATE@)
    } else if unsafe_template(template) {
        None
    } else {
        Some(template)
    }
}

/// Whether a height cap is `best` or holds a number.
pub open spec fn valid_resolution(resolution: Seq<char>) -> bool {
    resolution == "best"@ || numerals(resolution).len() > 0
}

/// Whether an error is a failed validation with this reason.
pub open spec fn refuses(error: AppError, reason: Seq<char>) -> bool {
    match error {
        AppError::ValidationFailed(given) => given@ == reason,
        _ => false,
    }
}

/// Checks a URL: it is refused, as a failed validation, unless [`valid_url`]
/// holds of it.
pub fn validate_url(url: &str) -> (r: Result<(), AppError>)
    ensures
        r is Ok <==> valid_url(url@),
        r matches Err(error) ==> refuses(error, "Invalid URL provided."@),
{
    let chars = chars_of(url);
    let http = chars_of("http://");
    let https = chars_of("https://");
    if starts_with(&chars, &http) || starts_with(&chars, &https) {
        Ok(())
    } else {
        Err(AppError::ValidationFailed("Invalid URL provided.".to_owned()))
    }
}

/// Checks a template, by [`safe_template`]: the result is the template to run
/// with, or a failed validation where the template is refused.
pub fn validate_template(template: String) -> (r: Result<String, AppError>)
    ensures
        match r {
            Ok(safe) => safe_template(template@) == Some(safe@),
            Err(error) => safe_template(template@) is None && refuses(
                error,
                "Invalid characters in filename template."@,
            ),
        },
{
    if blank(template.as_str()) {
        return Ok(DEFAULT_TEMPLATE.to_owned());
    }
    let chars = chars_of(template.as_str());
    let dots = chars_of("..");
    let slash = chars_of("/");
    let backslash = chars_of("\\");
    if contains(&chars, &dots) || starts_with(&chars, &slash) || starts_with(&chars, &backslash) {
        Err(AppError::ValidationFailed("Invalid characters in filename template.".to_owned()))
    } else {
        Ok(template)
    }
}

/// Checks a height cap: it is refused, as a failed validation, unless
/// [`valid_resolution`] holds of it.
pub fn validate_resolution(resolution: &str) -> (r: Result<(), AppError>)
    ensures
        r is Ok <==> valid_resolution(resolution@),
        r matches Err(error) ==> refuses(error, "Invalid video resolution."@),
{
    if same_text(resolution, "best") {
        return Ok(());
    }
    let filter = crate::launch::height_filter_of(resolution);
    proof {
        reveal_strlit("[height<=");
        reveal_strlit("]");
    }
    if filter.len() > 0 {
        Ok(())
    } else {
        Err(AppError::ValidationFailed("Invalid video resolution.".to_owned()))
    }
}

/// Why a request is refused, if it is: the URL is looked at first, then the
/// template, then the height cap.
pub open spec fn refusal(request: DownloadRequest) -> Option<Seq<char>> {
    if !valid_url(request.url@) {
        Some("Invalid URL provided."@)
    } else if safe_template(request.filename_template@) is None {
        Some("Invalid characters in filename template."@)
    } else if !valid_resolution(request.video_resolution@) {
        Some("Invalid video resolution."@)
    } else {
        None
    }
}

/// Checks a request, by [`refusal`]. The result is the template to run with,
/// or a failed validation with the reason of the refusal.
pub fn validate_request(request: &DownloadRequest) -> (r: Result<String, AppError>)
    ensures
        match r {
            Ok(safe) => refusal(*request) is None && safe_template(request.filename_template@)
                == Some(safe@),
            Err(error) => refusal(*request) is Some && refuses(error, refusal(*request)->0),
        },
{
    match validate_url(request.url.as_str()) {
        Ok(_) => {},
        Err(error) => {
            return Err(error);
        },
    }
    let safe = match validate_template(request.filename_template.clone()) {
        Ok(safe) => safe,
        Err(error) => {
            return Err(error);
        },
    };
    match validate_resolution(request.video_resolution.as_str()) {
        Ok(_) => Ok(safe),
        Err(error) => Err(error),
    }
}

/// `uuid::Uuid::new_v4` followed by `Uuid::as_u128`: a random version-4 UUID
/// as a number. Nothing is promised of it.
#[verifier::external_body]
fn fresh_job_id() -> u128 {
    uuid::Uuid::new_v4().as_u128()
}

/// The job for one entry of a request, under the given id: the entry's URL,
/// and everything else as the request has it, with `template` for the
/// template and file names restricted only where the request says so.
pub open spec fn job_of(
    id: u128,
    entry: PlaylistEntry,
    request: DownloadRequest,
    template: String,
) -> QueuedJob {
    QueuedJob {
        id,
        url: entry.url,
        download_path: request.download_path,
        format_preset: request.format_preset,
        video_resolution: request.video_resolution,
        embed_metadata: request.embed_metadata,
        embed_thumbnail: request.embed_thumbnail,
        filename_template: template,
        restrict_filenames: match request.restrict_filenames {
            Some(restrict) => restrict,
            None => false,
        },
    }
}

/// The job for one entry of a request, by [`job_of`].
pub fn job_for_entry(id: u128, entry: &PlaylistEntry, request: &DownloadRequest, template: &String) -> (r:
    QueuedJob)
    ensures
        r == job_of(id, *entry, *request, *template),
{
    QueuedJob {
        id,
        url: entry.url.clone(),
        download_path: clone_optional_text(&request.download_path),
        format_preset: request.format_preset,
        video_resolution: request.video_resolution.clone(),
        embed_metadata: request.embed_metadata,
        embed_thumbnail: request.embed_thumbnail,
        filename_template: template.clone(),
        restrict_filenames: match request.restrict_filenames {
            Some(restrict) => restrict,
            None => false,
        },
    }
}

/// Whether `job` is the job of `entry` under `request`: the entry's URL, the
/// template that the request's template stands for, file names restricted
/// only where the request says so, and the rest as the request has it.
pub open spec fn is_job_of(job: QueuedJob, entry: PlaylistEntry, request: DownloadRequest) -> bool {
    &&& job == job_of(job.id, entry, request, job.filename_template)
    &&& safe_template(request.filename_template@) == Some(job.filename_template@)
}

/// The jobs of a request, for the entries that the probe found. A request
/// that is refused, by [`refusal`], gives a failed validation with the reason
/// and no job, whatever the entries. Any other gives one job for each entry,
/// in order, each [`is_job_of`] its entry and under an id that is drawn at
/// random.
pub fn start_download(request: &DownloadRequest, entries: &Vec<PlaylistEntry>) -> (r: Result<
    Vec<QueuedJob>,
    AppError,
>)
    ensures
        match r {
            Ok(jobs) => {
                &&& refusal(*request) is None
                &&& jobs@.len() == entries@.len()
                &&& forall|i: int|
                    0 <= i < jobs@.len() ==> is_job_of(#[trigger] jobs@[i], entries@[i], *request)
            },
            Err(error) => refusal(*request) is Some && refuses(error, refusal(*request)->0),
        },
{
    let template = match validate_request(request) {
        Ok(template) => template,
        Err(error) => {
            return Err(error);
        },
    };
    let mut jobs: Vec<QueuedJob> = Vec::new();
    let mut i: usize = 0;
    while i < entries.len()
        invariant
            i <= entries.len(),
            jobs@.len() == i,
            safe_template(request.filename_template@) == Some(template@),
            forall|k: int| 0 <= k < i ==> is_job_of(#[trigger] jobs@[k], entries@[k], *request),
        decreases entries.len() - i,
    {
        let id = fresh_job_id();
        jobs.push(job_for_entry(id, &entries[i], request, &template));
        i += 1;
    }
    Ok(jobs)
}

/// The ids of `jobs`, in order: what `start_download` answers with.
pub fn created_ids(jobs: &Vec<QueuedJob>) -> (r: Vec<u128>)
    ensures
        r@ == crate::manager::queued_ids(jobs@),
{
    let mut ids: Vec<u128> = Vec::new();
    let mut i: usize = 0;
    while i < jobs.len()
        invariant
            i <= jobs.len(),
            ids@ == crate::manager::queued_ids(jobs@.take(i as int)),
        decreases jobs.len() - i,
    {
        ids.push(jobs[i].id);
        assert(ids@ =~= crate::manager::queued_ids(jobs@.take(i + 1)));
        i += 1;
    }
    assert(jobs@.take(jobs.len() as int) =~= jobs@);
    ids
}

} // verus!
