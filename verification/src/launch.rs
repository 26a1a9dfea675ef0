//! How a worker is invoked: its arguments and its environment.

use vstd::prelude::*;
use crate::models::DownloadFormatPreset;
use crate::models::QueuedJob;
use crate::text::chars_of;
use crate::text::push_all;
use crate::text::push_text;
use crate::text::same_text;
use crate::text::string_of;
use crate::text::texts;
use crate::text::trim_chars;
use crate::text::trimmed;
use crate::text::unicode_numeric;

verus! {

/// What an attempt takes from its surroundings: the cookie settings of the
/// general configuration, and the JavaScript runtime that was found, by name and
/// path.
#[derive(Debug, PartialEq, Eq)]
pub struct LaunchContext {
    pub cookies_path: Option<String>,
    pub cookies_from_browser: Option<String>,
    pub js_runtime: Option<(String, String)>,
}

/// The numeric characters of `s`, in order.
pub open spec fn numerals(s: Seq<char>) -> Seq<char>
    decreases s.len(),
{
    if s.len() == 0 {
        Seq::empty()
    } else if unicode_numeric(s.last()) {
        numerals(s.drop_last()).push(s.last())
    } else {
        numerals(s.drop_last())
    }
}

/// The format filter for a height cap: none for `best` and for a cap without a
/// number, else `[height<=N]` with the cap's numerals for `N`.
pub open spec fn height_filter(resolution: Seq<char>) -> Seq<char> {
    if resolution == "best"@ || numerals(resolution).len() == 0 {
        Seq::empty()
    } else {
        "[height<="@ + numerals(resolution) + "]"@
    }
}

/// Whether `s` holds nothing but white space.
pub open spec fn is_blank(s: Seq<char>) -> bool {
    trimmed(s).len() == 0
}

/// The arguments that name the JavaScript runtime.
pub open spec fn runtime_arguments(runtime: Option<(String, String)>) -> Seq<Seq<char>> {
    match runtime {
        Some((name, path)) => seq!["--js-runtimes"@, name@ + ":"@ + path@],
        None => Seq::empty(),
    }
}

/// The arguments that hand cookies to the worker: a cookie file where the
/// configuration has one, and only without one the browser to take them from,
/// unless that is `none`. A blank setting gives no argument.
pub open spec fn cookie_arguments(path: Option<String>, browser: Option<String>) -> Seq<
    Seq<char>,
> {
    match path {
        Some(file) => if is_blank(file@) {
            Seq::empty()
        } else {
            seq!["--cookies"@, file@]
        },
        None => match browser {
            Some(name) => if is_blank(name@) || name@ == "none"@ {
                Seq::empty()
            } else {
                seq!["--cookies-from-browser"@, name@]
            },
            None => Seq::empty(),
        },
    }
}

/// The arguments of every invocation: the URL, the output template, and the
/// flags for a single item, line-wise output, safe file names, UTF-8 and JSON
/// progress frames.
pub open spec fn core_arguments(url: Seq<char>, template: Seq<char>) -> Seq<Seq<char>> {
    seq![
        url,
        "-o"@,
        template,
        "--no-playlist"@,
        "--no-simulate"@,
        "--newline"@,
        "--windows-filenames"@,
        "--encoding"@,
        "utf-8"@,
        "--progress-template"@,
        "download:%(progress)j"@,
    ]
}

/// The arguments that restrict file names to plain characters and 200 bytes.
pub open spec fn restriction_arguments(restrict: bool) -> Seq<Seq<char>> {
    if restrict {
        seq!["--restrict-filenames"@, "--trim-filenames"@, "200"@]
    } else {
        Seq::empty()
    }
}

/// The arguments that embed metadata and thumbnail.
pub open spec fn embed_arguments(metadata: bool, thumbnail: bool) -> Seq<Seq<char>> {
    let first: Seq<Seq<char>> = if metadata {
        seq!["--embed-metadata"@]
    } else {
        Seq::empty()
    };
    let second: Seq<Seq<char>> = if thumbnail {
        seq!["--embed-thumbnail"@]
    } else {
        Seq::empty()
    };
    first + second
}

/// The arguments that select the format, `filter` being the height filter.
pub open spec fn format_arguments(preset: DownloadFormatPreset, filter: Seq<char>) -> Seq<
    Seq<char>,
> {
    match preset {
        DownloadFormatPreset::Best => if filter.len() == 0 {
            Seq::empty()
        } else {
            seq!["-f"@, "bestvideo"@ + filter + "+bestaudio/best"@ + filter]
        },
        DownloadFormatPreset::BestMp4 => seq![
            "-f"@,
            "bestvideo"@ + filter + "+bestaudio"@,
            "--merge-output-format"@,
            "mp4"@,
        ],
        DownloadFormatPreset::BestMkv => seq![
            "-f"@,
            "bestvideo"@ + filter + "+bestaudio"@,
            "--merge-output-format"@,
            "mkv"@,
        ],
        DownloadFormatPreset::BestWebm => seq![
            "-f"@,
            "bestvideo"@ + filter + "+bestaudio"@,
            "--merge-output-format"@,
            "webm"@,
        ],
        DownloadFormatPreset::AudioBest => seq!["-x"@, "-f"@, "bestaudio/best"@],
        DownloadFormatPreset::AudioMp3 => seq![
            "-x"@,
            "--audio-format"@,
            "mp3"@,
            "--audio-quality"@,
            "0"@,
        ],
        DownloadFormatPreset::AudioFlac => seq![
            "-x"@,
            "--audio-format"@,
            "flac"@,
            "--audio-quality"@,
            "0"@,
        ],
        DownloadFormatPreset::AudioM4a => seq![
            "-x"@,
            "--audio-format"@,
            "m4a"@,
            "--audio-quality"@,
            "0"@,
        ],
    }
}

/// The arguments of the worker for an attempt at `job`.
pub open spec fn arguments(job: QueuedJob, context: LaunchContext) -> Seq<Seq<char>> {
    runtime_arguments(context.js_runtime) + cookie_arguments(
        context.cookies_path,
        context.cookies_from_browser,
    ) + core_arguments(job.url@, job.filename_template@) + restriction_arguments(
        job.restrict_filenames,
    ) + embed_arguments(job.embed_metadata, job.embed_thumbnail) + format_arguments(
        job.format_preset,
        height_filter(job.video_resolution@),
    )
}

/// Appends one argument.
fn push_argument(out: &mut Vec<String>, argument: &str)
    ensures
        texts(final(out)@) == texts(old(out)@).push(argument@),
{
    out.push(argument.to_owned());
    assert(texts(out@) =~= texts(old(out)@).push(argument@));
}

/// Appends one argument.
fn push_owned(out: &mut Vec<String>, argument: String)
    ensures
        texts(final(out)@) == texts(old(out)@).push(argument@),
{
    out.push(argument);
    assert(texts(out@) =~= texts(old(out)@).push(argument@));
}

/// Whether a string holds nothing but white space.
pub fn blank(s: &str) -> (r: bool)
    ensures
        r == is_blank(s@),
{
    let chars = chars_of(s);
    let kept = trim_chars(&chars);
    kept.len() == 0
}

/// Computes [`height_filter`].
pub fn height_filter_of(resolution: &str) -> (r: Vec<char>)
    ensures
        r@ == height_filter(resolution@),
{
    let chars = chars_of(resolution);
    let mut digits: Vec<char> = Vec::new();
    let mut i: usize = 0;
    while i < chars.len()
        invariant
            i <= chars.len(),
            digits@ == numerals(chars@.take(i as int)),
        decreases chars.len() - i,
    {
        proof {
            assert(chars@.take(i + 1).drop_last() =~= chars@.take(i as int));
            assert(chars@.take(i + 1).last() == chars@[i as int]);
        }
        if chars[i].is_numeric() {
            digits.push(chars[i]);
        }
        i += 1;
    }
    assert(chars@.take(chars.len() as int) =~= chars@);
    let mut out: Vec<char> = Vec::new();
    if same_text(resolution, "best") || digits.len() == 0 {
        return out;
    }
    push_text(&mut out, "[height<=");
    push_all(&mut out, &digits);
    push_text(&mut out, "]");
    assert(out@ =~= height_filter(resolution@));
    out
}

/// Appends [`format_arguments`].
fn push_format_arguments(out: &mut Vec<String>, preset: DownloadFormatPreset, filter: &Vec<char>)
    ensures
        texts(final(out)@) == texts(old(out)@) + format_arguments(preset, filter@),
{
    match preset {
        DownloadFormatPreset::Best => {
            if filter.len() > 0 {
                let mut selector: Vec<char> = Vec::new();
                push_text(&mut selector, "bestvideo");
                push_all(&mut selector, filter);
                push_text(&mut selector, "+bestaudio/best");
                push_all(&mut selector, filter);
                push_argument(out, "-f");
                push_owned(out, string_of(&selector));
            }
        },
        DownloadFormatPreset::BestMp4
        | DownloadFormatPreset::BestMkv
        | DownloadFormatPreset::BestWebm => {
            let mut selector: Vec<char> = Vec::new();
            push_text(&mut selector, "bestvideo");
            push_all(&mut selector, filter);
            push_text(&mut selector, "+bestaudio");
            push_argument(out, "-f");
            push_owned(out, string_of(&selector));
            push_argument(out, "--merge-output-format");
            match preset {
                DownloadFormatPreset::BestMp4 => push_argument(out, "mp4"),
                DownloadFormatPreset::BestMkv => push_argument(out, "mkv"),
                _ => push_argument(out, "webm"),
            }
        },
        DownloadFormatPreset::AudioBest => {
            push_argument(out, "-x");
            push_argument(out, "-f");
            push_argument(out, "bestaudio/best");
        },
        DownloadFormatPreset::AudioMp3
        | DownloadFormatPreset::AudioFlac
        | DownloadFormatPreset::AudioM4a => {
            push_argument(out, "-x");
            push_argument(out, "--audio-format");
            match preset {
                DownloadFormatPreset::AudioMp3 => push_argument(out, "mp3"),
                DownloadFormatPreset::AudioFlac => push_argument(out, "flac"),
                _ => push_argument(out, "m4a"),
            }
            push_argument(out, "--audio-quality");
            push_argument(out, "0");
        },
    }
    assert(texts(out@) =~= texts(old(out)@) + format_arguments(preset, filter@));
}

/// Appends [`cookie_arguments`].
fn push_cookie_arguments(out: &mut Vec<String>, path: &Option<String>, browser: &Option<String>)
    ensures
        texts(final(out)@) == texts(old(out)@) + cookie_arguments(*path, *browser),
{
    match path {
        Some(file) => {
            if !blank(file.as_str()) {
                push_argument(out, "--cookies");
                push_argument(out, file.as_str());
            }
        },
        None => match browser {
            Some(name) => {
                if !blank(name.as_str()) && !same_text(name.as_str(), "none") {
                    push_argument(out, "--cookies-from-browser");
                    push_argument(out, name.as_str());
                }
            },
            None => {},
        },
    }
    assert(texts(out@) =~= texts(old(out)@) + cookie_arguments(*path, *browser));
}

/// Appends [`runtime_arguments`].
fn push_runtime_arguments(out: &mut Vec<String>, runtime: &Option<(String, String)>)
    ensures
        texts(final(out)@) == texts(old(out)@) + runtime_arguments(*runtime),
{
    match runtime {
        Some(found) => {
            let mut pair: Vec<char> = Vec::new();
            push_text(&mut pair, found.0.as_str());
            push_text(&mut pair, ":");
            push_text(&mut pair, found.1.as_str());
            push_argument(out, "--js-runtimes");
            push_owned(out, string_of(&pair));
        },
        None => {},
    }
    assert(texts(out@) =~= texts(old(out)@) + runtime_arguments(*runtime));
}

/// Appends [`core_arguments`].
fn push_core_arguments(out: &mut Vec<String>, url: &str, template: &str)
    ensures
        texts(final(out)@) == texts(old(out)@) + core_arguments(url@, template@),
{
    push_argument(out, url);
    push_argument(out, "-o");
    push_argument(out, template);
    push_argument(out, "--no-playlist");
    push_argument(out, "--no-simulate");
    push_argument(out, "--newline");
    push_argument(out, "--windows-filenames");
    push_argument(out, "--encoding");
    push_argument(out, "utf-8");
    push_argument(out, "--progress-template");
    push_argument(out, "download:%(progress)j");
    assert(texts(out@) =~= texts(old(out)@) + core_arguments(url@, template@));
}

/// Appends [`restriction_arguments`] and [`embed_arguments`].
fn push_option_arguments(out: &mut Vec<String>, restrict: bool, metadata: bool, thumbnail: bool)
    ensures
        texts(final(out)@) == texts(old(out)@) + restriction_arguments(restrict) + embed_arguments(
            metadata,
            thumbnail,
        ),
{
    if restrict {
        push_argument(out, "--restrict-filenames");
        push_argument(out, "--trim-filenames");
        push_argument(out, "200");
    }
    if metadata {
        push_argument(out, "--embed-metadata");
    }
    if thumbnail {
        push_argument(out, "--embed-thumbnail");
    }
    assert(texts(out@) =~= texts(old(out)@) + restriction_arguments(restrict) + embed_arguments(
        metadata,
        thumbnail,
    ));
}

/// The arguments of the worker for an attempt at `job`, by [`arguments`].
pub fn build_arguments(job: &QueuedJob, context: &LaunchContext) -> (r: Vec<String>)
    ensures
        texts(r@) == arguments(*job, *context),
{
    let mut out: Vec<String> = Vec::new();
    assert(texts(out@) =~= Seq::<Seq<char>>::empty());
    push_runtime_arguments(&mut out, &context.js_runtime);
    push_cookie_arguments(&mut out, &context.cookies_path, &context.cookies_from_browser);
    push_core_arguments(&mut out, job.url.as_str(), job.filename_template.as_str());
    push_option_arguments(
        &mut out,
        job.restrict_filenames,
        job.embed_metadata,
        job.embed_thumbnail,
    );
    let filter = height_filter_of(job.video_resolution.as_str());
    push_format_arguments(&mut out, job.format_preset, &filter);
    assert(texts(out@) =~= arguments(*job, *context));
    out
}

/// The name of the worker's executable.
pub open spec fn worker_binary(windows: bool) -> Seq<char> {
    if windows {
        "yt-dlp.exe"@
    } else {
        "yt-dlp"@
    }
}

/// The name of the worker's executable on this kind of system.
pub fn worker_binary_name(windows: bool) -> (r: &'static str)
    ensures
        r@ == worker_binary(windows),
{
    if windows {
        "yt-dlp.exe"
    } else {
        "yt-dlp"
    }
}

/// The program to run: the application's own copy of the worker where there is
/// one, else whatever the search path finds under the worker's name.
pub fn worker_program(own_copy: Option<String>) -> (r: String)
    ensures
        r@ == match own_copy {
            Some(path) => path@,
            None => "yt-dlp"@,
        },
{
    match own_copy {
        Some(path) => path,
        None => "yt-dlp".to_owned(),
    }
}

/// The search path of a worker: the application's binary directory, then the
/// inherited search path where there is one.
pub open spec fn search_path(
    binary_directory: Seq<char>,
    inherited: Option<String>,
    windows: bool,
) -> Seq<char> {
    match inherited {
        Some(path) => binary_directory + (if windows {
            ";"@
        } else {
            ":"@
        }) + path@,
        None => binary_directory,
    }
}

/// The environment of a worker: the search path by [`search_path`], and UTF-8
/// forced on its input and output.
pub fn worker_environment(binary_directory: &str, inherited: &Option<String>, windows: bool) -> (r:
    Vec<(String, String)>)
    ensures
        r@.len() == 3,
        r@[0].0@ == "PATH"@,
        r@[0].1@ == search_path(binary_directory@, *inherited, windows),
        r@[1].0@ == "PYTHONUTF8"@,
        r@[1].1@ == "1"@,
        r@[2].0@ == "PYTHONIOENCODING"@,
        r@[2].1@ == "utf-8"@,
{
    let mut path: Vec<char> = Vec::new();
    push_text(&mut path, binary_directory);
    match inherited {
        Some(rest) => {
            push_text(
                &mut path,
                if windows {
                    ";"
                } else {
                    ":"
                },
            );
            push_text(&mut path, rest.as_str());
        },
        None => {},
    }
    assert(path@ =~= search_path(binary_directory@, *inherited, windows));
    let mut out: Vec<(String, String)> = Vec::new();
    out.push(("PATH".to_owned(), string_of(&path)));
    out.push(("PYTHONUTF8".to_owned(), "1".to_owned()));
    out.push(("PYTHONIOENCODING".to_owned(), "utf-8".to_owned()));
    out
}

} // verus!
