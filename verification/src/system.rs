//! What is known of the programs that the application depends on.
//!
//! The probing itself, which looks at the disk and runs programs, is the
//! caller's. This module says what the answers mean.

use vstd::prelude::*;
use crate::models::clone_optional_text;
use crate::parser::optional_text;
use crate::pattern::capture;

use crate::pattern::regex_group;
use crate::text::chars_of;


use crate::text::matches_at;
use crate::text::occurs_at;
use crate::text::string_of;
use crate::text::trim_chars;
use crate::text::trimmed;

verus! {

/// What is known of one program.
#[derive(Debug, PartialEq, Eq)]
pub struct DependencyInfo {
    pub name: String,
    pub available: bool,
    pub version: Option<String>,
    pub path: Option<String>,
}

impl Clone for DependencyInfo {
    fn clone(&self) -> (r: Self)
        ensures
            r == *self,
    {
        DependencyInfo {
            name: self.name.clone(),
            available: self.available,
            version: clone_optional_text(&self.version),
            path: clone_optional_text(&self.path),
        }
    }
}

/// What is known of the three programs that the application depends on.
#[derive(Debug, PartialEq, Eq)]
pub struct AppDependencies {
    pub yt_dlp: DependencyInfo,
    pub ffmpeg: DependencyInfo,
    pub js_runtime: DependencyInfo,
}

/// How a program that was run ended, and what it printed.
#[derive(Debug, PartialEq, Eq)]
pub struct CommandOutcome {
    pub success: bool,
    pub stdout: String,
}

/// The view of a [`DependencyInfo`].
pub struct DependencyView {
    pub name: Seq<char>,
    pub available: bool,
    pub version: Option<Seq<char>>,
    pub path: Option<Seq<char>>,
}

impl View for DependencyInfo {
    type V = DependencyView;

    open spec fn view(&self) -> DependencyView {
        DependencyView {
            name: self.name@,
            available: self.available,
            version: optional_text(self.version),
            path: optional_text(self.path),
        }
    }
}

/// `ffmpeg version N ...`
pub const FFMPEG_VERSION_PATTERN: &'static str = r"ffmpeg version (?P<version>[^\s]+)";

/// Where the first line of `s` ends: at its first line feed, or at its end.
pub open spec fn line_end(s: Seq<char>) -> int
    decreases s.len(),
{
    if s.len() == 0 || s[0] == '\n' {
        0
    } else {
        1 + line_end(s.skip(1))
    }
}

/// The first line of `s`, without white space around it.
pub open spec fn first_line(s: Seq<char>) -> Seq<char> {
    trimmed(s.take(line_end(s)))
}

/// A position before which no line feed stands, and at which one stands unless
/// it is the end, is where the first line ends.
proof fn lemma_line_end(s: Seq<char>, at: int)
    requires
        0 <= at <= s.len(),
        forall|k: int| 0 <= k < at ==> s[k] != '\n',
        at < s.len() ==> s[at] == '\n',
    ensures
        line_end(s) == at,
    decreases s.len(),
{
    if at > 0 {
        let rest = s.skip(1);
        assert forall|k: int| 0 <= k < at - 1 implies rest[k] != '\n' by {
            assert(rest[k] == s[k + 1]);
        }
        lemma_line_end(rest, at - 1);
    }
}

/// The first line of a text, by [`first_line`].
pub fn first_line_of(text: &str) -> (r: String)
    ensures
        r@ == first_line(text@),
{
    let chars = chars_of(text);
    let mut line: Vec<char> = Vec::new();
    let mut i: usize = 0;
    while i < chars.len() && chars[i] != '\n'
        invariant
            i <= chars.len(),
            line@ == chars@.take(i as int),
            forall|k: int| 0 <= k < i ==> chars@[k] != '\n',
        decreases chars.len() - i,
    {
        line.push(chars[i]);
        assert(line@ =~= chars@.take(i + 1));
        i += 1;
    }
    proof {
        lemma_line_end(chars@, i as int);
    }
    let kept = trim_chars(&line);
    string_of(&kept)
}

/// The program that finds another on the search path.
pub fn lookup_command(windows: bool) -> (r: &'static str)
    ensures
        r@ == if windows {
            "where"@
        } else {
            "which"@
        },
{
    if windows {
        "where"
    } else {
        "which"
    }
}

/// Where a program is: in the application's own directory where it is there,
/// else where the lookup on the search path, if it ended well, says first.
pub open spec fn binary_path(local: Option<String>, lookup: Option<CommandOutcome>) -> Option<
    Seq<char>,
> {
    match local {
        Some(path) => Some(path@),
        None => match lookup {
            Some(outcome) => if outcome.success {
                Some(first_line(outcome.stdout@))
            } else {
                None
            },
            None => None,
        },
    }
}

/// Where a program is, by [`binary_path`]. `local` is its path in the
/// application's own directory, where it exists there; `lookup` is how the
/// lookup on the search path ended, where it could be run and printed UTF-8.
pub fn resolve_binary_path(local: Option<String>, lookup: Option<CommandOutcome>) -> (r: Option<
    String,
>)
    ensures
        optional_text(r) == binary_path(local, lookup),
{
    match local {
        Some(path) => Some(path),
        None => match lookup {
            Some(outcome) => {
                if outcome.success {
                    Some(first_line_of(outcome.stdout.as_str()))
                } else {
                    None
                }
            },
            None => None,
        },
    }
}

/// What is known of a program that is at `path`, if anywhere, and whose
/// version run ended as `version` says: it is available where it has a path,
/// and its version is the first line that the run printed, where the program
/// is available and the run ended well.
pub open spec fn binary_info(
    name: Seq<char>,
    path: Option<String>,
    version: Option<CommandOutcome>,
) -> DependencyView {
    DependencyView {
        name,
        available: path is Some,
        version: match (path, version) {
            (Some(_), Some(outcome)) => if outcome.success {
                Some(first_line(outcome.stdout@))
            } else {
                None
            },
            _ => None,
        },
        path: optional_text(path),
    }
}

/// Says what is known of a program, by [`binary_info`]. `path` is what
/// [`resolve_binary_path`] found; `version` is how the run of the program
/// with its version flag ended, where there was one.
pub fn resolve_binary_info(bin_name: &str, path: Option<String>, version: Option<CommandOutcome>) -> (r:
    DependencyInfo)
    ensures
        r@ == binary_info(bin_name@, path, version),
{
    let available = path.is_some();
    let found = match version {
        Some(outcome) => {
            if available && outcome.success {
                Some(first_line_of(outcome.stdout.as_str()))
            } else {
                None
            }
        },
        None => None,
    };
    DependencyInfo { name: bin_name.to_owned(), available, version: found, path }
}

/// The version of a program at a path that exists, as its version run says
/// it: what the run printed, without white space around it, where it ended
/// well.
pub fn get_local_version(version: &Option<CommandOutcome>) -> (r: Option<String>)
    ensures
        optional_text(r) == match *version {
            Some(outcome) => if outcome.success {
                Some(trimmed(outcome.stdout@))
            } else {
                None
            },
            None => None,
        },
{
    match version {
        Some(outcome) => {
            if outcome.success {
                Some(crate::text::trim(outcome.stdout.as_str()))
            } else {
                None
            }
        },
        None => None,
    }
}

/// The JavaScript runtime to use, by name and path: Deno where it is
/// available, else Bun, else Node.
pub open spec fn js_runtime(
    deno: DependencyInfo,
    bun: DependencyInfo,
    node: DependencyInfo,
) -> Option<(Seq<char>, Seq<char>)> {
    if deno.available && deno.path is Some {
        Some(("deno"@, deno.path->0@))
    } else if bun.available && bun.path is Some {
        Some(("bun"@, bun.path->0@))
    } else if node.available && node.path is Some {
        Some(("node"@, node.path->0@))
    } else {
        None
    }
}

/// The name and path of a runtime, where it is available.
fn runtime_of(name: &str, info: &DependencyInfo) -> (r: Option<(String, String)>)
    ensures
        r is Some <==> info.available && info.path is Some,
        r matches Some(pair) ==> pair.0@ == name@ && pair.1@ == info.path->0@,
{
    if info.available {
        match &info.path {
            Some(path) => Some((name.to_owned(), path.clone())),
            None => None,
        }
    } else {
        None
    }
}

/// The JavaScript runtime to use, by [`js_runtime`].
pub fn get_js_runtime_info(deno: &DependencyInfo, bun: &DependencyInfo, node: &DependencyInfo) -> (r:
    Option<(String, String)>)
    ensures
        r is Some <==> js_runtime(*deno, *bun, *node) is Some,
        r matches Some(pair) ==> js_runtime(*deno, *bun, *node) == Some((pair.0@, pair.1@)),
{
    match runtime_of("deno", deno) {
        Some(found) => Some(found),
        None => match runtime_of("bun", bun) {
            Some(found) => Some(found),
            None => runtime_of("node", node),
        },
    }
}

/// `s` without the occurrences of `needle`, which is not empty, found from
/// left to right.
pub open spec fn without(s: Seq<char>, needle: Seq<char>) -> Seq<char>
    decreases s.len(),
{
    if s.len() == 0 || needle.len() == 0 {
        s
    } else if occurs_at(s, needle, 0) {
        without(s.skip(needle.len() as int), needle)
    } else {
        seq![s[0]] + without(s.skip(1), needle)
    }
}

/// Removes the occurrences of `needle`, by [`without`].
pub fn remove_all(text: &str, needle: &str) -> (r: String)
    ensures
        r@ == without(text@, needle@),
{
    let s = chars_of(text);
    let n = chars_of(needle);
    if n.len() == 0 {
        return text.to_owned();
    }
    let mut out: Vec<char> = Vec::new();
    let mut i: usize = 0;
    assert(s@.skip(0) =~= s@);
    assert(out@ + without(s@.skip(0), n@) =~= without(s@, n@));
    while i < s.len()
        invariant
            i <= s.len(),
            n.len() > 0,
            out@ + without(s@.skip(i as int), n@) == without(s@, n@),
        decreases s.len() - i,
    {
        let ghost rest = s@.skip(i as int);
        if n.len() <= s.len() - i && matches_at(&s, &n, i) {
            proof {
                assert(s@.subrange(i as int, i + n.len()) =~= rest.subrange(0, n@.len() as int));
                assert(occurs_at(rest, n@, 0));
                assert(rest.skip(n@.len() as int) =~= s@.skip(i + n.len()));
            }
            i += n.len();
        } else {
            proof {
                if n.len() <= s.len() - i {
                    assert(s@.subrange(i as int, i + n.len()) =~= rest.subrange(
                        0,
                        n@.len() as int,
                    ));
                }
                assert(!occurs_at(rest, n@, 0));
                assert(rest.skip(1) =~= s@.skip(i + 1));
                assert(rest[0] == s@[i as int]);
                assert(out@.push(s@[i as int]) + without(rest.skip(1), n@) =~= out@ + (seq![
                    rest[0],
                ] + without(rest.skip(1), n@)));
            }
            out.push(s[i]);
            i += 1;
        }
    }
    assert(out@ + without(s@.skip(s.len() as int), n@) =~= out@);
    string_of(&out)
}

/// The version of FFmpeg, given the first line that it printed: the word after
/// `ffmpeg version`, where the line has one, else the line.
pub open spec fn ffmpeg_version(line: Seq<char>) -> Seq<char> {
    match regex_group(FFMPEG_VERSION_PATTERN@, line, "version"@) {
        Some(Some(version)) => version,
        _ => line,
    }
}

/// The version of FFmpeg, by [`ffmpeg_version`].
pub fn clean_ffmpeg_version(line: String) -> (r: String)
    ensures
        r@ == ffmpeg_version(line@),
{
    match capture(FFMPEG_VERSION_PATTERN, line.as_str(), "version") {
        Some(Some(version)) => version,
        _ => line,
    }
}

/// The runtime that the dependency report names: Deno where it is available,
/// else Bun, else Node, each under its plain name; and where none is, a
/// report of none.
pub open spec fn reported_runtime(
    deno: DependencyInfo,
    bun: DependencyInfo,
    node: DependencyInfo,
) -> DependencyView {
    if deno.available {
        DependencyView {
            name: "deno"@,
            available: true,
            version: match deno.version {
                Some(version) => Some(without(version@, "deno "@)),
                None => None,
            },
            path: optional_text(deno.path),
        }
    } else if bun.available {
        DependencyView { name: "bun"@, ..bun@ }
    } else if node.available {
        DependencyView { name: "node"@, ..node@ }
    } else {
        DependencyView { name: "None"@, available: false, version: None, path: None }
    }
}

/// Says which runtime the dependency report names, by [`reported_runtime`].
pub fn report_runtime(deno: DependencyInfo, bun: DependencyInfo, node: DependencyInfo) -> (r:
    DependencyInfo)
    ensures
        r@ == reported_runtime(deno, bun, node),
{
    if deno.available {
        DependencyInfo {
            name: "deno".to_owned(),
            available: true,
            version: match deno.version {
                Some(version) => Some(remove_all(version.as_str(), "deno ")),
                None => None,
            },
            path: deno.path,
        }
    } else if bun.available {
        DependencyInfo {
            name: "bun".to_owned(),
            available: bun.available,
            version: bun.version,
            path: bun.path,
        }
    } else if node.available {
        DependencyInfo {
            name: "node".to_owned(),
            available: node.available,
            version: node.version,
            path: node.path,
        }
    } else {
        DependencyInfo { name: "None".to_owned(), available: false, version: None, path: None }
    }
}

/// The dependency report: the worker as it was found, FFmpeg with its
/// version cleaned, and the runtime by [`reported_runtime`].
pub fn check_dependencies(
    yt_dlp: DependencyInfo,
    ffmpeg: DependencyInfo,
    deno: DependencyInfo,
    bun: DependencyInfo,
    node: DependencyInfo,
) -> (r: AppDependencies)
    ensures
        r.yt_dlp == yt_dlp,
        r.ffmpeg@ == (DependencyView {
            version: match ffmpeg.version {
                Some(line) => Some(ffmpeg_version(line@)),
                None => None,
            },
            ..ffmpeg@
        }),
        r.js_runtime@ == reported_runtime(deno, bun, node),
{
    let version = match ffmpeg.version {
        Some(line) => Some(clean_ffmpeg_version(line)),
        None => None,
    };
    AppDependencies {
        yt_dlp,
        ffmpeg: DependencyInfo {
            name: ffmpeg.name,
            available: ffmpeg.available,
            version,
            path: ffmpeg.path,
        },
        js_runtime: report_runtime(deno, bun, node),
    }
}

} // verus!
