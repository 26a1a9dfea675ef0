//! The programs that the application installs and keeps up to date: which
//! they are, where they come from, and when they are due.
//!
//! Downloading and unpacking are the caller's. This module decides.

use vstd::prelude::*;
use crate::json::json_document;
use crate::json::parse_document;
use crate::playlist::text_field;
use crate::system::remove_all;
use crate::system::without;
use crate::text::chars_of;
use crate::text::contains;
use crate::text::contains_text;
use crate::text::push_text;
use crate::text::same_chars;
use crate::text::same_text;
use crate::text::string_of;
use crate::text::texts;
use crate::text::trim_chars;
use crate::text::trimmed;

verus! {

/// The kind of system that the application runs on.
#[derive(Debug, Clone, Copy, PartialEq, Eq, Structural)]
pub enum Platform {
    Windows,
    MacOs,
    Linux,
}

/// The provider of the worker.
#[derive(Debug, Clone, Copy)]
pub struct YtDlpProvider;

/// The provider of FFmpeg.
#[derive(Debug, Clone, Copy)]
pub struct FfmpegProvider;

/// The provider of the portable JavaScript runtime.
#[derive(Debug, Clone, Copy)]
pub struct DenoProvider;

/// One of the three providers.
#[derive(Debug, Clone, Copy, PartialEq, Eq, Structural)]
pub enum Provider {
    YtDlp,
    Ffmpeg,
    Deno,
}

impl YtDlpProvider {
    /// The name under which the worker is installed and reported.
    pub fn get_name(&self) -> (r: String)
        ensures
            r@ == "yt-dlp"@,
    {
        "yt-dlp".to_owned()
    }

    /// The files that make up the worker.
    pub fn get_binaries(&self, windows: bool) -> (r: Vec<String>)
        ensures
            texts(r@) == if windows {
                seq!["yt-dlp.exe"@]
            } else {
                seq!["yt-dlp"@]
            },
    {
        let mut out: Vec<String> = Vec::new();
        out.push(
            if windows {
                "yt-dlp.exe".to_owned()
            } else {
                "yt-dlp".to_owned()
            },
        );
        assert(texts(out@) =~= if windows {
            seq!["yt-dlp.exe"@]
        } else {
            seq!["yt-dlp"@]
        });
        out
    }

    /// Where the worker is downloaded from.
    pub fn download_url(&self, platform: Platform) -> (r: &'static str)
        ensures
            r@ == match platform {
                Platform::Windows => "https://github.com/yt-dlp/yt-dlp/releases/latest/download/yt-dlp.exe"@,
                Platform::MacOs => "https://github.com/yt-dlp/yt-dlp/releases/latest/download/yt-dlp_macos"@,
                Platform::Linux => "https://github.com/yt-dlp/yt-dlp/releases/latest/download/yt-dlp_linux"@,
            },
    {
        match platform {
            Platform::Windows => "https://github.com/yt-dlp/yt-dlp/releases/latest/download/yt-dlp.exe",
            Platform::MacOs => "https://github.com/yt-dlp/yt-dlp/releases/latest/download/yt-dlp_macos",
            Platform::Linux => "https://github.com/yt-dlp/yt-dlp/releases/latest/download/yt-dlp_linux",
        }
    }
}

impl FfmpegProvider {
    /// The name under which FFmpeg is installed and reported.
    pub fn get_name(&self) -> (r: String)
        ensures
            r@ == "ffmpeg"@,
    {
        "ffmpeg".to_owned()
    }

    /// The files that make up FFmpeg.
    pub fn get_binaries(&self, windows: bool) -> (r: Vec<String>)
        ensures
            texts(r@) == if windows {
                seq!["ffmpeg.exe"@, "ffprobe.exe"@]
            } else {
                seq!["ffmpeg"@, "ffprobe"@]
            },
    {
        let mut out: Vec<String> = Vec::new();
        if windows {
            out.push("ffmpeg.exe".to_owned());
            out.push("ffprobe.exe".to_owned());
        } else {
            out.push("ffmpeg".to_owned());
            out.push("ffprobe".to_owned());
        }
        assert(texts(out@) =~= if windows {
            seq!["ffmpeg.exe"@, "ffprobe.exe"@]
        } else {
            seq!["ffmpeg"@, "ffprobe"@]
        });
        out
    }

    /// Where FFmpeg is downloaded from.
    pub fn download_url(&self, platform: Platform) -> (r: &'static str)
        ensures
            r@ == match platform {
                Platform::Windows => "https://www.gyan.dev/ffmpeg/builds/ffmpeg-release-essentials.zip"@,
                Platform::MacOs => "https://evermeet.cx/ffmpeg/ffmpeg-113374-g80f9281204.zip"@,
                Platform::Linux => "https://johnvansickle.com/ffmpeg/releases/ffmpeg-release-amd64-static.tar.xz"@,
            },
    {
        match platform {
            Platform::Windows => "https://www.gyan.dev/ffmpeg/builds/ffmpeg-release-essentials.zip",
            Platform::MacOs => "https://evermeet.cx/ffmpeg/ffmpeg-113374-g80f9281204.zip",
            Platform::Linux => "https://johnvansickle.com/ffmpeg/releases/ffmpeg-release-amd64-static.tar.xz",
        }
    }

    /// The name under which the archive of FFmpeg is kept while it is
    /// unpacked: a zip archive but on Linux.
    pub fn archive_name(&self, platform: Platform) -> (r: &'static str)
        ensures
            r@ == match platform {
                Platform::Linux => "ffmpeg.tar.xz"@,
                _ => "ffmpeg.zip"@,
            },
    {
        match platform {
            Platform::Linux => "ffmpeg.tar.xz",
            _ => "ffmpeg.zip",
        }
    }
}

impl DenoProvider {
    /// The name under which the runtime is installed and reported.
    pub fn get_name(&self) -> (r: String)
        ensures
            r@ == "js_runtime"@,
    {
        "js_runtime".to_owned()
    }

    /// The files that make up the runtime.
    pub fn get_binaries(&self, windows: bool) -> (r: Vec<String>)
        ensures
            texts(r@) == if windows {
                seq!["deno.exe"@]
            } else {
                seq!["deno"@]
            },
    {
        let mut out: Vec<String> = Vec::new();
        out.push(
            if windows {
                "deno.exe".to_owned()
            } else {
                "deno".to_owned()
            },
        );
        assert(texts(out@) =~= if windows {
            seq!["deno.exe"@]
        } else {
            seq!["deno"@]
        });
        out
    }

    /// Where the runtime is downloaded from.
    pub fn download_url(&self, platform: Platform) -> (r: &'static str)
        ensures
            r@ == match platform {
                Platform::Windows => "https://github.com/denoland/deno/releases/latest/download/deno-x86_64-pc-windows-msvc.zip"@,
                Platform::MacOs => "https://github.com/denoland/deno/releases/latest/download/deno-aarch64-apple-darwin.zip"@,
                Platform::Linux => "https://github.com/denoland/deno/releases/latest/download/deno-x86_64-unknown-linux-gnu.zip"@,
            },
    {
        match platform {
            Platform::Windows => "https://github.com/denoland/deno/releases/latest/download/deno-x86_64-pc-windows-msvc.zip",
            Platform::MacOs => "https://github.com/denoland/deno/releases/latest/download/deno-aarch64-apple-darwin.zip",
            Platform::Linux => "https://github.com/denoland/deno/releases/latest/download/deno-x86_64-unknown-linux-gnu.zip",
        }
    }
}

/// The provider of the dependency with this name.
pub open spec fn provider_named(name: Seq<char>) -> Option<Provider> {
    if name == "yt-dlp"@ {
        Some(Provider::YtDlp)
    } else if name == "ffmpeg"@ {
        Some(Provider::Ffmpeg)
    } else if name == "js_runtime"@ {
        Some(Provider::Deno)
    } else {
        None
    }
}

/// The provider of the dependency with this name, where there is one.
pub fn get_provider(name: &str) -> (r: Option<Provider>)
    ensures
        r == provider_named(name@),
{
    if same_text(name, "yt-dlp") {
        Some(Provider::YtDlp)
    } else if same_text(name, "ffmpeg") {
        Some(Provider::Ffmpeg)
    } else if same_text(name, "js_runtime") {
        Some(Provider::Deno)
    } else {
        None
    }
}

/// What is to be done about a program that is kept up to date.
#[derive(Debug, PartialEq, Eq)]
pub enum UpdatePlan {
    /// Nothing: the program is up to date, or cannot be checked and is there.
    Skip,
    /// The program is missing and cannot be had.
    Fail { reason: String },
    /// The program is to be installed; `status` is what the user is told.
    Install { status: String },
}

/// The view of an [`UpdatePlan`].
pub enum UpdatePlanView {
    Skip,
    Fail { reason: Seq<char> },
    Install { status: Seq<char> },
}

impl View for UpdatePlan {
    type V = UpdatePlanView;

    open spec fn view(&self) -> UpdatePlanView {
        match self {
            UpdatePlan::Skip => UpdatePlanView::Skip,
            UpdatePlan::Fail { reason } => UpdatePlanView::Fail { reason: reason@ },
            UpdatePlan::Install { status } => UpdatePlanView::Install { status: status@ },
        }
    }
}

/// What is to be done about the worker. Where the latest release cannot be
/// told, a worker that is there is left alone, and one that is missing is a
/// failure. Else the worker is installed unless it is there in that release,
/// the two versions compared without white space around them.
pub open spec fn worker_plan(
    remote: Result<String, String>,
    present: bool,
    local: Option<String>,
) -> UpdatePlanView {
    match remote {
        Err(reason) => if present {
            UpdatePlanView::Skip
        } else {
            UpdatePlanView::Fail { reason: reason@ }
        },
        Ok(tag) => if local matches Some(version) && trimmed(version@) == trimmed(tag@) {
            UpdatePlanView::Skip
        } else {
            UpdatePlanView::Install { status: "Updating to "@ + tag@ + "..."@ }
        },
    }
}

/// Plans the update of the worker, by [`worker_plan`]. `remote` is the tag of
/// the latest release, `present` whether the application has the worker, and
/// `local` the version that the worker says it has.
pub fn auto_update_yt_dlp(remote: Result<String, String>, present: bool, local: Option<String>) -> (r:
    UpdatePlan)
    ensures
        r@ == worker_plan(remote, present, local),
{
    match remote {
        Err(reason) => {
            if present {
                UpdatePlan::Skip
            } else {
                UpdatePlan::Fail { reason }
            }
        },
        Ok(tag) => {
            let same = match &local {
                Some(version) => {
                    let a = trim_chars(&chars_of(version.as_str()));
                    let b = trim_chars(&chars_of(tag.as_str()));
                    same_chars(&a, &b)
                },
                None => false,
            };
            if same {
                UpdatePlan::Skip
            } else {
                let mut status: Vec<char> = Vec::new();
                push_text(&mut status, "Updating to ");
                push_text(&mut status, tag.as_str());
                push_text(&mut status, "...");
                UpdatePlan::Install { status: string_of(&status) }
            }
        },
    }
}

/// What is to be done about a JavaScript runtime of the system.
#[derive(Debug, Clone, Copy, PartialEq, Eq, Structural)]
pub enum RuntimeAction {
    /// Deno is on the system: ask it to upgrade itself.
    UpgradeDeno,
    /// Bun is on the system: ask it to upgrade itself.
    UpgradeBun,
    /// Node is on the system: leave it alone.
    Leave,
    /// The system has none: see to the portable runtime.
    ManagePortable,
}

/// What is to be done about the runtimes of the system: the first of Deno,
/// Bun and Node that is there decides.
pub fn system_runtime_action(deno: bool, bun: bool, node: bool) -> (r: RuntimeAction)
    ensures
        r == if deno {
            RuntimeAction::UpgradeDeno
        } else if bun {
            RuntimeAction::UpgradeBun
        } else if node {
            RuntimeAction::Leave
        } else {
            RuntimeAction::ManagePortable
        },
{
    if deno {
        RuntimeAction::UpgradeDeno
    } else if bun {
        RuntimeAction::UpgradeBun
    } else if node {
        RuntimeAction::Leave
    } else {
        RuntimeAction::ManagePortable
    }
}

/// The version that a release tag of the runtime names: the tag without the
/// letter `v`.
pub open spec fn runtime_version(tag: Seq<char>) -> Seq<char> {
    without(tag, "v"@)
}

/// What is to be done about the portable runtime: as for the worker, but
/// that the runtime is up to date where what it says of its version holds the
/// version of the release.
pub open spec fn portable_runtime_plan(
    remote: Result<String, String>,
    present: bool,
    local: Option<String>,
) -> UpdatePlanView {
    match remote {
        Err(reason) => if present {
            UpdatePlanView::Skip
        } else {
            UpdatePlanView::Fail { reason: reason@ }
        },
        Ok(tag) => if local matches Some(version) && contains_text(
            version@,
            runtime_version(tag@),
        ) {
            UpdatePlanView::Skip
        } else {
            UpdatePlanView::Install {
                status: "Syncing Deno "@ + runtime_version(tag@) + "..."@,
            }
        },
    }
}

/// Plans the update of the portable runtime, by [`portable_runtime_plan`].
pub fn manage_js_runtime(remote: Result<String, String>, present: bool, local: Option<String>) -> (r:
    UpdatePlan)
    ensures
        r@ == portable_runtime_plan(remote, present, local),
{
    match remote {
        Err(reason) => {
            if present {
                UpdatePlan::Skip
            } else {
                UpdatePlan::Fail { reason }
            }
        },
        Ok(tag) => {
            let wanted = remove_all(tag.as_str(), "v");
            let same = match &local {
                Some(version) => contains(
                    &chars_of(version.as_str()),
                    &chars_of(wanted.as_str()),
                ),
                None => false,
            };
            if same {
                UpdatePlan::Skip
            } else {
                let mut status: Vec<char> = Vec::new();
                push_text(&mut status, "Syncing Deno ");
                push_text(&mut status, wanted.as_str());
                push_text(&mut status, "...");
                UpdatePlan::Install { status: string_of(&status) }
            }
        },
    }
}

/// Whether FFmpeg is to be installed: it is neither on the system nor in the
/// application's own directory.
pub fn install_missing_ffmpeg(on_system: bool, present: bool) -> (r: bool)
    ensures
        r == (!on_system && !present),
{
    !on_system && !present
}

/// The progress of a download that is worth telling: the percentage, rounded
/// down, where it is five points above the last one told, or 100. A download
/// of unknown size has none.
pub open spec fn progress_to_tell(downloaded: u64, total: u64, last_told: u64) -> Option<u64> {
    if total == 0 {
        None
    } else {
        let percentage = downloaded as nat * 100 / total as nat;
        if (percentage >= last_told + 5 || percentage == 100) && percentage <= u64::MAX {
            Some(percentage as u64)
        } else {
            None
        }
    }
}

/// The progress of a download that is worth telling, by
/// [`progress_to_tell`].
pub fn download_progress(downloaded: u64, total: u64, last_told: u64) -> (r: Option<u64>)
    ensures
        r == progress_to_tell(downloaded, total, last_told),
{
    if total == 0 {
        return None;
    }
    let percentage: u128 = (downloaded as u128) * 100 / (total as u128);
    if (percentage >= (last_told as u128) + 5 || percentage == 100) && percentage <= 0xffff_ffff_ffff_ffff {
        Some(percentage as u64)
    } else {
        None
    }
}

/// Whether a file of an archive is one of the files looked for.
pub fn wanted_binary(file_name: &str, binaries: &Vec<String>) -> (r: bool)
    ensures
        r == texts(binaries@).contains(file_name@),
{
    let mut i: usize = 0;
    while i < binaries.len()
        invariant
            i <= binaries.len(),
            forall|k: int| 0 <= k < i ==> texts(binaries@)[k] != file_name@,
        decreases binaries.len() - i,
    {
        if same_text(binaries[i].as_str(), file_name) {
            assert(texts(binaries@)[i as int] == file_name@);
            return true;
        }
        i += 1;
    }
    false
}

/// The tag of a release, as the body of the release API's answer names it:
/// the string under `tag_name`, or what went wrong.
pub open spec fn release_tag(body: Seq<char>) -> Result<Seq<char>, Seq<char>> {
    match json_document(body) {
        Ok(document) => match text_field(document, "tag_name"@) {
            Some(tag) => Ok(tag),
            None => Err("Could not find tag_name in response"@),
        },
        Err(message) => Err(message),
    }
}

/// The view of a tag, or of what went wrong.
pub open spec fn tag_view(result: Result<String, String>) -> Result<Seq<char>, Seq<char>> {
    match result {
        Ok(tag) => Ok(tag@),
        Err(reason) => Err(reason@),
    }
}

/// Reads the tag of a release, by [`release_tag`].
pub fn get_latest_github_tag(body: &str) -> (r: Result<String, String>)
    ensures
        tag_view(r) == release_tag(body@),
{
    match parse_document(body) {
        Ok(document) => {
            let tag = match document.get("tag_name") {
                Some(value) => match value.as_text() {
                    Some(text) => Some(text.clone()),
                    None => None,
                },
                None => None,
            };
            match tag {
                Some(tag) => Ok(tag),
                None => Err("Could not find tag_name in response".to_owned()),
            }
        },
        Err(message) => Err(message),
    }
}

/// Where the release API tells of the latest release of a repository.
pub fn release_url(repository: &str) -> (r: String)
    ensures
        r@ == "https://api.github.com/repos/"@ + repository@ + "/releases/latest"@,
{
    let mut out: Vec<char> = Vec::new();
    push_text(&mut out, "https://api.github.com/repos/");
    push_text(&mut out, repository);
    push_text(&mut out, "/releases/latest");
    string_of(&out)
}

} // verus!
