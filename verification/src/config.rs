//! The settings that the orchestrator and the supervisors read.

use vstd::prelude::*;
use crate::launch::LaunchContext;
use crate::manager::Caps;
use crate::models::clone_optional_text;
use crate::text::push_text;
use crate::text::string_of;

verus! {

/// The general settings.
#[derive(Debug, PartialEq, Eq)]
pub struct GeneralConfig {
    pub download_path: Option<String>,
    pub filename_template: String,
    pub template_blocks_json: Option<String>,
    pub max_concurrent_downloads: u32,
    pub max_total_instances: u32,
    pub log_level: String,
    pub check_for_updates: bool,
    pub cookies_path: Option<String>,
    /// The browser to take cookies from, such as `chrome` or `firefox`.
    pub cookies_from_browser: Option<String>,
}

impl Default for GeneralConfig {
    fn default() -> (r: Self)
        ensures
            r.download_path is None,
            r.filename_template@ == "%(title)s.%(ext)s"@,
            r.template_blocks_json is None,
            r.max_concurrent_downloads == 4,
            r.max_total_instances == 10,
            r.log_level@ == "info"@,
            r.check_for_updates,
            r.cookies_path is None,
            r.cookies_from_browser is None,
    {
        GeneralConfig {
            download_path: None,
            filename_template: "%(title)s.%(ext)s".to_owned(),
            template_blocks_json: None,
            max_concurrent_downloads: 4,
            max_total_instances: 10,
            log_level: "info".to_owned(),
            check_for_updates: true,
            cookies_path: None,
            cookies_from_browser: None,
        }
    }
}

impl Clone for GeneralConfig {
    fn clone(&self) -> (r: Self)
        ensures
            r == *self,
    {
        GeneralConfig {
            download_path: clone_optional_text(&self.download_path),
            filename_template: self.filename_template.clone(),
            template_blocks_json: clone_optional_text(&self.template_blocks_json),
            max_concurrent_downloads: self.max_concurrent_downloads,
            max_total_instances: self.max_total_instances,
            log_level: self.log_level.clone(),
            check_for_updates: self.check_for_updates,
            cookies_path: clone_optional_text(&self.cookies_path),
            cookies_from_browser: clone_optional_text(&self.cookies_from_browser),
        }
    }
}

impl GeneralConfig {
    /// The caps on concurrency that these settings give.
    pub fn caps(&self) -> (r: Caps)
        ensures
            r.max_concurrent_downloads == self.max_concurrent_downloads,
            r.max_total_instances == self.max_total_instances,
    {
        Caps {
            max_concurrent_downloads: self.max_concurrent_downloads,
            max_total_instances: self.max_total_instances,
        }
    }

    /// What an attempt takes from these settings and from the runtime that
    /// was found.
    pub fn launch_context(&self, js_runtime: Option<(String, String)>) -> (r: LaunchContext)
        ensures
            r.cookies_path == self.cookies_path,
            r.cookies_from_browser == self.cookies_from_browser,
            r.js_runtime == js_runtime,
    {
        LaunchContext {
            cookies_path: clone_optional_text(&self.cookies_path),
            cookies_from_browser: clone_optional_text(&self.cookies_from_browser),
            js_runtime,
        }
    }
}

/// What the user chose last.
#[derive(Debug, PartialEq, Eq)]
pub struct PreferenceConfig {
    pub mode: String,
    pub format_preset: String,
    pub video_preset: String,
    pub audio_preset: String,
    pub video_resolution: String,
    pub embed_metadata: bool,
    pub embed_thumbnail: bool,
}

impl Default for PreferenceConfig {
    fn default() -> (r: Self)
        ensures
            r.mode@ == "video"@,
            r.format_preset@ == "best"@,
            r.video_preset@ == "best"@,
            r.audio_preset@ == "audio_best"@,
            r.video_resolution@ == "best"@,
            !r.embed_metadata,
            !r.embed_thumbnail,
    {
        PreferenceConfig {
            mode: "video".to_owned(),
            format_preset: "best".to_owned(),
            video_preset: "best".to_owned(),
            audio_preset: "audio_best".to_owned(),
            video_resolution: "best".to_owned(),
            embed_metadata: false,
            embed_thumbnail: false,
        }
    }
}

impl Clone for PreferenceConfig {
    fn clone(&self) -> (r: Self)
        ensures
            r == *self,
    {
        PreferenceConfig {
            mode: self.mode.clone(),
            format_preset: self.format_preset.clone(),
            video_preset: self.video_preset.clone(),
            audio_preset: self.audio_preset.clone(),
            video_resolution: self.video_resolution.clone(),
            embed_metadata: self.embed_metadata,
            embed_thumbnail: self.embed_thumbnail,
        }
    }
}

/// The filter of the log: the given level for all, and errors alone from the
/// window toolkit.
pub fn log_filter(level: &str) -> (r: String)
    ensures
        r@ == level@ + ",tao=error,wry=error"@,
{
    let mut out: Vec<char> = Vec::new();
    push_text(&mut out, level);
    push_text(&mut out, ",tao=error,wry=error");
    string_of(&out)
}

} // verus!
