//! The progress parser: one line of worker output and the running state of an
//! attempt give the next state and, where the line says something, a report.
//!
//! A line is first classified ([`classify`]), which is where `serde_json` and
//! `regex` are asked, and the state then advances on the kind of line alone
//! ([`ParserState::apply`]).

use vstd::prelude::*;
use crate::json::json_document;
use crate::json::parse_document;
use crate::json::Json;
use crate::models::clone_optional_text;
use crate::models::FULL_PERCENT;
use crate::models::NEARLY_FULL_PERCENT;
use crate::pattern::capture;
use crate::pattern::is_match;
use crate::pattern::regex_group;
use crate::pattern::regex_matches;
use crate::pattern::regex_replaced;
use crate::pattern::replace_first;
use crate::progress::eta_text;
use crate::progress::file_name;
use crate::progress::file_name_of;
use crate::progress::format_eta;
use crate::progress::format_speed;
use crate::progress::percent_of;
use crate::progress::ratio_percent;
use crate::progress::speed_text;
use crate::progress::Phase;
use crate::text::chars_of;
use crate::text::contains;
use crate::text::contains_text;

verus! {

/// `[download] Destination: F`
pub const DESTINATION_PATTERN: &'static str = r"^\[download\]\s+Destination:\s+(?P<filename>.+)$";

/// `[download] F has already been downloaded`
pub const ALREADY_DOWNLOADED_PATTERN: &'static str =
    r"\[download\]\s+(?:Destination:\s+)?(?P<filename>.+?)\s+has already been downloaded";

/// `[Merger] Merging formats into "F"`
pub const MERGER_PATTERN: &'static str =
    r#"\[Merger\]\s+Merging formats into\s+"?(?P<filename>.+?)"?$"#;

/// `[ExtractAudio] Destination: F`
pub const EXTRACT_AUDIO_PATTERN: &'static str =
    r"^\[ExtractAudio\]\s+Destination:\s+(?P<filename>.+)$";

/// `[Metadata] Adding metadata to: F`
pub const METADATA_PATTERN: &'static str =
    r"^\[Metadata\]\s+Adding metadata to:\s+(?P<filename>.+)$";

/// `[Thumbnails] ...` or `[EmbedThumbnail] ...`
pub const THUMBNAIL_PATTERN: &'static str = r"^\[(?:Thumbnails|EmbedThumbnail)\]";

/// `[FixupM3u8] ...` and its kin
pub const FIXUP_PATTERN: &'static str = r"^\[(?:Fixup\w+)\]";

/// `[download] P% of S at V ETA E`
pub const LEGACY_PROGRESS_PATTERN: &'static str =
    r"^\[download\]\s+(?P<whole>[0-9]+)(?:\.(?P<fraction>[0-9]+))?%\s+of\s+.+?\s+at\s+(?P<speed>.+?)\s+ETA\s+(?P<eta>\S+)";

/// The worker's suffix of a file name: a blank, the 11-character id in square
/// brackets, an optional format number, and the extension.
pub const TITLE_CLEANER_PATTERN: &'static str =
    r"\s\[[a-zA-Z0-9_-]{11}\]\.(?:f[0-9]+\.)?[a-z0-9]+$";

/// The name of the group that holds a file's path.
pub const FILENAME_GROUP: &'static str = "filename";

/// A file that a line names: its final path component, and the title that is
/// left of it without the worker's suffix.
#[derive(Debug, PartialEq, Eq)]
pub struct FileTarget {
    pub file_name: String,
    pub clean_title: String,
}

/// The view of a [`FileTarget`].
pub struct FileTargetView {
    pub file_name: Seq<char>,
    pub clean_title: Seq<char>,
}

impl View for FileTarget {
    type V = FileTargetView;

    open spec fn view(&self) -> FileTargetView {
        FileTargetView { file_name: self.file_name@, clean_title: self.clean_title@ }
    }
}

/// What a line does to the file name on record.
#[derive(Debug, PartialEq, Eq)]
pub enum FileUpdate {
    /// The line names no file.
    Keep,
    /// The line names a path without a final component.
    Clear,
    /// The line names this file.
    Name(FileTarget),
}

/// The view of a [`FileUpdate`].
pub enum FileUpdateView {
    Keep,
    Clear,
    Name(FileTargetView),
}

impl View for FileUpdate {
    type V = FileUpdateView;

    open spec fn view(&self) -> FileUpdateView {
        match self {
            FileUpdate::Keep => FileUpdateView::Keep,
            FileUpdate::Clear => FileUpdateView::Clear,
            FileUpdate::Name(target) => FileUpdateView::Name(target@),
        }
    }
}

/// What a line of worker output is.
#[derive(Debug, PartialEq, Eq)]
pub enum LineKind {
    /// A JSON progress frame. `total` is the total size, or its estimate where
    /// only that is given; `speed` is in whole bytes per second, `eta` in
    /// seconds.
    Frame {
        downloaded: Option<u64>,
        total: Option<u64>,
        speed: Option<u64>,
        eta: Option<u64>,
        file: FileUpdate,
    },
    Metadata { file: FileUpdate },
    Thumbnail,
    Merger { file: FileUpdate },
    ExtractAudio { file: FileUpdate },
    Fixup,
    AlreadyDownloaded { file: FileUpdate },
    Destination { file: FileUpdate },
    /// A progress line in words. `percentage` is in hundredths of a percent;
    /// the two figures are there where the line knows them.
    LegacyProgress { percentage: u32, speed_figure: Option<String>, eta_figure: Option<String> },
    /// Anything else.
    Other,
}

/// The view of a [`LineKind`].
pub enum LineKindView {
    Frame {
        downloaded: Option<u64>,
        total: Option<u64>,
        speed: Option<u64>,
        eta: Option<u64>,
        file: FileUpdateView,
    },
    Metadata { file: FileUpdateView },
    Thumbnail,
    Merger { file: FileUpdateView },
    ExtractAudio { file: FileUpdateView },
    Fixup,
    AlreadyDownloaded { file: FileUpdateView },
    Destination { file: FileUpdateView },
    LegacyProgress {
        percentage: u32,
        speed_figure: Option<Seq<char>>,
        eta_figure: Option<Seq<char>>,
    },
    Other,
}

/// The view of an optional string.
pub open spec fn optional_text(text: Option<String>) -> Option<Seq<char>> {
    match text {
        Some(s) => Some(s@),
        None => None,
    }
}

impl View for LineKind {
    type V = LineKindView;

    open spec fn view(&self) -> LineKindView {
        match self {
            LineKind::Frame { downloaded, total, speed, eta, file } => LineKindView::Frame {
                downloaded: *downloaded,
                total: *total,
                speed: *speed,
                eta: *eta,
                file: file@,
            },
            LineKind::Metadata { file } => LineKindView::Metadata { file: file@ },
            LineKind::Thumbnail => LineKindView::Thumbnail,
            LineKind::Merger { file } => LineKindView::Merger { file: file@ },
            LineKind::ExtractAudio { file } => LineKindView::ExtractAudio { file: file@ },
            LineKind::Fixup => LineKindView::Fixup,
            LineKind::AlreadyDownloaded { file } => LineKindView::AlreadyDownloaded { file: file@ },
            LineKind::Destination { file } => LineKindView::Destination { file: file@ },
            LineKind::LegacyProgress { percentage, speed_figure, eta_figure } => {
                LineKindView::LegacyProgress {
                    percentage: *percentage,
                    speed_figure: optional_text(*speed_figure),
                    eta_figure: optional_text(*eta_figure),
                }
            },
            LineKind::Other => LineKindView::Other,
        }
    }
}

/// The title left of a file name once the worker's suffix is taken off.
pub open spec fn clean_title(name: Seq<char>) -> Seq<char> {
    regex_replaced(TITLE_CLEANER_PATTERN@, name, ""@)
}

/// The file that `path` names, where it has a final component.
pub open spec fn target_of(path: Seq<char>, windows: bool) -> Option<FileTargetView> {
    match file_name(path, windows) {
        Some(name) => Some(FileTargetView { file_name: name, clean_title: clean_title(name) }),
        None => None,
    }
}

/// The file that a path names, by [`target_of`].
pub fn target_of_path(path: &str, windows: bool) -> (r: Option<FileTarget>)
    ensures
        r.is_some() == target_of(path@, windows).is_some(),
        r matches Some(target) ==> target_of(path@, windows) == Some(target@),
{
    match file_name_of(path, windows) {
        Some(name) => {
            let title = replace_first(TITLE_CLEANER_PATTERN, name.as_str(), "");
            Some(FileTarget { file_name: name, clean_title: title })
        },
        None => None,
    }
}

/// What a phase line does to the file on record, given what its pattern's
/// group matched: nothing where the group took no part, else the path's file
/// replaces the one on record.
pub open spec fn marker_file(found: Option<Seq<char>>, windows: bool) -> FileUpdateView {
    match found {
        None => FileUpdateView::Keep,
        Some(path) => match target_of(path, windows) {
            Some(target) => FileUpdateView::Name(target),
            None => FileUpdateView::Clear,
        },
    }
}

/// What a progress frame does to the file on record: a path with a final
/// component sets it, anything else leaves it.
pub open spec fn frame_file(found: Option<Seq<char>>, windows: bool) -> FileUpdateView {
    match found {
        None => FileUpdateView::Keep,
        Some(path) => match target_of(path, windows) {
            Some(target) => FileUpdateView::Name(target),
            None => FileUpdateView::Keep,
        },
    }
}

/// Computes [`marker_file`].
pub fn marker_file_of(found: &Option<String>, windows: bool) -> (r: FileUpdate)
    ensures
        r@ == marker_file(optional_text(*found), windows),
{
    match found {
        None => FileUpdate::Keep,
        Some(path) => match target_of_path(path.as_str(), windows) {
            Some(target) => FileUpdate::Name(target),
            None => FileUpdate::Clear,
        },
    }
}

/// Computes [`frame_file`].
pub fn frame_file_of(found: Option<&String>, windows: bool) -> (r: FileUpdate)
    ensures
        r@ == frame_file(
            match found {
                Some(path) => Some(path@),
                None => None,
            },
            windows,
        ),
{
    match found {
        None => FileUpdate::Keep,
        Some(path) => match target_of_path(path.as_str(), windows) {
            Some(target) => FileUpdate::Name(target),
            None => FileUpdate::Keep,
        },
    }
}

/// A member that holds an unsigned integer: `Some(None)` where it is missing
/// or `null`, `None` where it holds anything else.
pub open spec fn unsigned_member(document: Json, key: Seq<char>) -> Option<Option<u64>> {
    match document.field(key) {
        None => Some(None),
        Some(value) => if value is Null {
            Some(None)
        } else {
            match value.unsigned() {
                Some(u) => Some(Some(u)),
                None => None,
            }
        },
    }
}

/// A member that holds a number, in whole units: `Some(None)` where it is
/// missing or `null`, `None` where it holds anything else.
pub open spec fn whole_member(document: Json, key: Seq<char>) -> Option<Option<u64>> {
    match document.field(key) {
        None => Some(None),
        Some(value) => if value is Null {
            Some(None)
        } else {
            match value.whole() {
                Some(u) => Some(Some(u)),
                None => None,
            }
        },
    }
}

/// A member that holds a string: `Some(None)` where it is missing or `null`,
/// `None` where it holds anything else.
pub open spec fn text_member(document: Json, key: Seq<char>) -> Option<Option<Seq<char>>> {
    match document.field(key) {
        None => Some(None),
        Some(value) => if value is Null {
            Some(None)
        } else {
            match value.text() {
                Some(s) => Some(Some(s)),
                None => None,
            }
        },
    }
}

/// The progress frame that a document is: an object whose members
/// `downloaded_bytes`, `total_bytes`, `total_bytes_estimate` and `eta` are
/// unsigned integers, `speed` a number and `filename` a string, each of them
/// missing or `null` at will. Other members do not count.
pub open spec fn frame_of(document: Json, windows: bool) -> Option<LineKindView> {
    if !(document is Object) {
        None
    } else {
        match (
            unsigned_member(document, "downloaded_bytes"@),
            unsigned_member(document, "total_bytes"@),
            unsigned_member(document, "total_bytes_estimate"@),
            whole_member(document, "speed"@),
            unsigned_member(document, "eta"@),
            text_member(document, "filename"@),
        ) {
            (Some(downloaded), Some(total), Some(estimate), Some(speed), Some(eta), Some(name)) => {
                Some(
                    LineKindView::Frame {
                        downloaded,
                        total: if total is Some {
                            total
                        } else {
                            estimate
                        },
                        speed,
                        eta,
                        file: frame_file(name, windows),
                    },
                )
            },
            _ => None,
        }
    }
}

/// Reads a member as an unsigned integer, by [`unsigned_member`].
fn read_unsigned(document: &Json, key: &str) -> (r: Option<Option<u64>>)
    ensures
        r == unsigned_member(*document, key@),
{
    match document.get(key) {
        None => Some(None),
        Some(value) => if value.is_null() {
            Some(None)
        } else {
            match value.as_unsigned() {
                Some(u) => Some(Some(u)),
                None => None,
            }
        },
    }
}

/// Reads a member as a number in whole units, by [`whole_member`].
fn read_whole(document: &Json, key: &str) -> (r: Option<Option<u64>>)
    ensures
        r == whole_member(*document, key@),
{
    match document.get(key) {
        None => Some(None),
        Some(value) => if value.is_null() {
            Some(None)
        } else {
            match value.as_whole() {
                Some(u) => Some(Some(u)),
                None => None,
            }
        },
    }
}

/// Reads a document as a progress frame, by [`frame_of`].
pub fn frame_of_json(document: &Json, windows: bool) -> (r: Option<LineKind>)
    ensures
        r.is_some() == frame_of(*document, windows).is_some(),
        r matches Some(kind) ==> frame_of(*document, windows) == Some(kind@),
{
    match document {
        Json::Object(_) => {},
        _ => {
            return None;
        },
    }
    let downloaded = match read_unsigned(document, "downloaded_bytes") {
        Some(v) => v,
        None => {
            return None;
        },
    };
    let total = match read_unsigned(document, "total_bytes") {
        Some(v) => v,
        None => {
            return None;
        },
    };
    let estimate = match read_unsigned(document, "total_bytes_estimate") {
        Some(v) => v,
        None => {
            return None;
        },
    };
    let speed = match read_whole(document, "speed") {
        Some(v) => v,
        None => {
            return None;
        },
    };
    let eta = match read_unsigned(document, "eta") {
        Some(v) => v,
        None => {
            return None;
        },
    };
    let file = match document.get("filename") {
        None => FileUpdate::Keep,
        Some(value) => if value.is_null() {
            FileUpdate::Keep
        } else {
            match value.as_text() {
                Some(path) => frame_file_of(Some(path), windows),
                None => {
                    return None;
                },
            }
        },
    };
    Some(
        LineKind::Frame {
            downloaded,
            total: if total.is_some() {
                total
            } else {
                estimate
            },
            speed,
            eta,
            file,
        },
    )
}

/// The value of a decimal digit; zero for any other character.
pub open spec fn digit_value(c: char) -> nat {
    if '0' <= c <= '9' {
        (c as u32 - '0' as u32) as nat
    } else {
        0
    }
}

/// The number that a run of decimal digits writes.
pub open spec fn digits_value(digits: Seq<char>) -> nat
    decreases digits.len(),
{
    if digits.len() == 0 {
        0
    } else {
        digits_value(digits.drop_last()) * 10 + digit_value(digits.last())
    }
}

/// The first two decimals of a fraction, as hundredths.
pub open spec fn leading_hundredths(fraction: Seq<char>) -> nat {
    let tens = if fraction.len() > 0 {
        digit_value(fraction[0])
    } else {
        0
    };
    let ones = if fraction.len() > 1 {
        digit_value(fraction[1])
    } else {
        0
    };
    tens * 10 + ones
}

/// A percentage written as `whole.fraction`, in hundredths of a percent,
/// further decimals dropped, never above 100 %.
pub open spec fn written_percent(whole: Seq<char>, fraction: Seq<char>) -> u32 {
    let exact = digits_value(whole) * 100 + leading_hundredths(fraction);
    if exact > 10_000 {
        10_000u32
    } else {
        exact as u32
    }
}

/// Computes [`digit_value`].
fn value_of_digit(c: char) -> (r: u32)
    ensures
        r == digit_value(c),
        r <= 9,
{
    if '0' <= c && c <= '9' {
        c as u32 - '0' as u32
    } else {
        0
    }
}

/// Adding a digit at the end of a run never makes its number smaller.
proof fn lemma_digits_value_grows(digits: Seq<char>, shorter: int)
    requires
        0 <= shorter <= digits.len(),
    ensures
        digits_value(digits.take(shorter)) <= digits_value(digits),
    decreases digits.len() - shorter,
{
    if shorter < digits.len() {
        let front = digits.drop_last();
        assert(front.take(shorter) =~= digits.take(shorter));
        lemma_digits_value_grows(front, shorter);
    } else {
        assert(digits.take(shorter) =~= digits);
    }
}

/// Computes [`written_percent`].
pub fn percent_of_text(whole: &str, fraction: &str) -> (r: u32)
    ensures
        r == written_percent(whole@, fraction@),
        r <= FULL_PERCENT,
{
    let digits = chars_of(whole);
    let decimals = chars_of(fraction);
    let mut value: u32 = 0;
    let mut i: usize = 0;
    while i < digits.len()
        invariant
            i <= digits.len(),
            digits@ == whole@,
            value == digits_value(digits@.take(i as int)),
            value <= 100,
        decreases digits.len() - i,
    {
        let d = value_of_digit(digits[i]);
        proof {
            assert(digits@.take(i + 1).drop_last() =~= digits@.take(i as int));
            assert(digits@.take(i + 1).last() == digits@[i as int]);
        }
        assert(digits_value(digits@.take(i + 1)) == value * 10 + d);
        if value * 10 + d > 100 {
            proof {
                lemma_digits_value_grows(digits@, i + 1);
            }
            return FULL_PERCENT;
        }
        value = value * 10 + d;
        i += 1;
    }
    assert(digits@.take(digits.len() as int) =~= digits@);
    let tens: u32 = if decimals.len() > 0 {
        value_of_digit(decimals[0])
    } else {
        0
    };
    let ones: u32 = if decimals.len() > 1 {
        value_of_digit(decimals[1])
    } else {
        0
    };
    let exact: u32 = value * 100 + tens * 10 + ones;
    if exact > 10_000 {
        FULL_PERCENT
    } else {
        exact
    }
}

/// Whether a figure of a progress line in words says that it is not known.
pub open spec fn is_unknown(figure: Seq<char>) -> bool {
    contains_text(figure, "N/A"@) || contains_text(figure, "Unknown"@)
}

/// A figure of a progress line in words, where the line has it and knows it.
pub open spec fn known_figure(found: Option<Option<Seq<char>>>) -> Option<Seq<char>> {
    match found {
        Some(Some(figure)) => if is_unknown(figure) {
            None
        } else {
            Some(figure)
        },
        _ => None,
    }
}

/// Computes [`known_figure`].
fn known_figure_of(found: Option<Option<String>>) -> (r: Option<String>)
    ensures
        optional_text(r) == known_figure(crate::pattern::group_views(found)),
{
    match found {
        Some(Some(figure)) => {
            let chars = chars_of(figure.as_str());
            let na = chars_of("N/A");
            let unknown = chars_of("Unknown");
            if contains(&chars, &na) || contains(&chars, &unknown) {
                None
            } else {
                Some(figure)
            }
        },
        _ => None,
    }
}

/// What a group matched, or nothing where it took no part or nothing matched.
pub open spec fn group_text(found: Option<Option<Seq<char>>>) -> Seq<char> {
    match found {
        Some(Some(text)) => text,
        _ => Seq::empty(),
    }
}

/// The kind of a line that is no progress frame, the patterns tried in the
/// order in which they stand here.
pub open spec fn marker_of(line: Seq<char>, windows: bool) -> LineKindView {
    let metadata = regex_group(METADATA_PATTERN@, line, FILENAME_GROUP@);
    let merger = regex_group(MERGER_PATTERN@, line, FILENAME_GROUP@);
    let extract = regex_group(EXTRACT_AUDIO_PATTERN@, line, FILENAME_GROUP@);
    let already = regex_group(ALREADY_DOWNLOADED_PATTERN@, line, FILENAME_GROUP@);
    let destination = regex_group(DESTINATION_PATTERN@, line, FILENAME_GROUP@);
    let whole = regex_group(LEGACY_PROGRESS_PATTERN@, line, "whole"@);
    if metadata is Some {
        LineKindView::Metadata { file: marker_file(metadata->0, windows) }
    } else if regex_matches(THUMBNAIL_PATTERN@, line) {
        LineKindView::Thumbnail
    } else if merger is Some {
        LineKindView::Merger { file: marker_file(merger->0, windows) }
    } else if extract is Some {
        LineKindView::ExtractAudio { file: marker_file(extract->0, windows) }
    } else if regex_matches(FIXUP_PATTERN@, line) {
        LineKindView::Fixup
    } else if already is Some {
        LineKindView::AlreadyDownloaded { file: marker_file(already->0, windows) }
    } else if destination is Some {
        if destination->0 is Some {
            LineKindView::Destination { file: marker_file(destination->0, windows) }
        } else {
            LineKindView::Other
        }
    } else if whole is Some {
        LineKindView::LegacyProgress {
            percentage: written_percent(
                group_text(whole),
                group_text(regex_group(LEGACY_PROGRESS_PATTERN@, line, "fraction"@)),
            ),
            speed_figure: known_figure(regex_group(LEGACY_PROGRESS_PATTERN@, line, "speed"@)),
            eta_figure: known_figure(regex_group(LEGACY_PROGRESS_PATTERN@, line, "eta"@)),
        }
    } else {
        LineKindView::Other
    }
}

/// The kind of a line: the progress frame that it is as a JSON document, else
/// what [`marker_of`] makes of it.
pub open spec fn kind_of(line: Seq<char>, windows: bool) -> LineKindView {
    match json_document(line) {
        Ok(document) => match frame_of(document, windows) {
            Some(kind) => kind,
            None => marker_of(line, windows),
        },
        Err(_) => marker_of(line, windows),
    }
}

/// The text of a group, by [`group_text`].
fn group_text_of(found: Option<Option<String>>) -> (r: String)
    ensures
        r@ == group_text(crate::pattern::group_views(found)),
{
    match found {
        Some(Some(text)) => text,
        _ => String::new(),
    }
}

/// Classifies a line that is no progress frame, by [`marker_of`].
pub fn classify_marker(line: &str, windows: bool) -> (r: LineKind)
    ensures
        r@ == marker_of(line@, windows),
{
    let metadata = capture(METADATA_PATTERN, line, FILENAME_GROUP);
    if let Some(found) = metadata {
        return LineKind::Metadata { file: marker_file_of(&found, windows) };
    }
    if is_match(THUMBNAIL_PATTERN, line) {
        return LineKind::Thumbnail;
    }
    let merger = capture(MERGER_PATTERN, line, FILENAME_GROUP);
    if let Some(found) = merger {
        return LineKind::Merger { file: marker_file_of(&found, windows) };
    }
    let extract = capture(EXTRACT_AUDIO_PATTERN, line, FILENAME_GROUP);
    if let Some(found) = extract {
        return LineKind::ExtractAudio { file: marker_file_of(&found, windows) };
    }
    if is_match(FIXUP_PATTERN, line) {
        return LineKind::Fixup;
    }
    let already = capture(ALREADY_DOWNLOADED_PATTERN, line, FILENAME_GROUP);
    if let Some(found) = already {
        return LineKind::AlreadyDownloaded { file: marker_file_of(&found, windows) };
    }
    let destination = capture(DESTINATION_PATTERN, line, FILENAME_GROUP);
    if let Some(found) = destination {
        if found.is_some() {
            return LineKind::Destination { file: marker_file_of(&found, windows) };
        }
        return LineKind::Other;
    }
    let whole = capture(LEGACY_PROGRESS_PATTERN, line, "whole");
    if whole.is_some() {
        let fraction = capture(LEGACY_PROGRESS_PATTERN, line, "fraction");
        let speed = capture(LEGACY_PROGRESS_PATTERN, line, "speed");
        let eta = capture(LEGACY_PROGRESS_PATTERN, line, "eta");
        let whole_text = group_text_of(whole);
        let fraction_text = group_text_of(fraction);
        return LineKind::LegacyProgress {
            percentage: percent_of_text(whole_text.as_str(), fraction_text.as_str()),
            speed_figure: known_figure_of(speed),
            eta_figure: known_figure_of(eta),
        };
    }
    LineKind::Other
}

/// Classifies a line of worker output, by [`kind_of`].
pub fn classify(line: &str, windows: bool) -> (r: LineKind)
    ensures
        r@ == kind_of(line@, windows),
{
    match parse_document(line) {
        Ok(document) => match frame_of_json(&document, windows) {
            Some(kind) => kind,
            None => classify_marker(line, windows),
        },
        Err(_) => classify_marker(line, windows),
    }
}

/// The running state of one attempt at a job.
#[derive(Debug, PartialEq, Eq)]
pub struct ParserState {
    /// The title for the user, once a line gave one.
    pub clean_title: Option<String>,
    /// The name of the file that the worker writes last.
    pub final_filename: Option<String>,
    /// In hundredths of a percent.
    pub percentage: u32,
    pub phase: Phase,
    /// The last speed that a line knew.
    pub speed_text: String,
    /// The last remaining time that a line knew.
    pub eta_text: String,
    /// Whether a line said that the worker needs the network no longer.
    pub network_done: bool,
}

/// The view of a [`ParserState`].
pub struct ParserView {
    pub clean_title: Option<Seq<char>>,
    pub final_filename: Option<Seq<char>>,
    pub percentage: u32,
    pub phase: Phase,
    pub speed_text: Seq<char>,
    pub eta_text: Seq<char>,
    pub network_done: bool,
}

impl View for ParserState {
    type V = ParserView;

    open spec fn view(&self) -> ParserView {
        ParserView {
            clean_title: optional_text(self.clean_title),
            final_filename: optional_text(self.final_filename),
            percentage: self.percentage,
            phase: self.phase,
            speed_text: self.speed_text@,
            eta_text: self.eta_text@,
            network_done: self.network_done,
        }
    }
}

/// What the parser reports of a line.
#[derive(Debug, PartialEq, Eq)]
pub struct ProgressUpdate {
    /// In hundredths of a percent.
    pub percentage: u32,
    pub speed: String,
    pub eta: String,
    /// The title for the user.
    pub filename: Option<String>,
    pub phase: Phase,
}

/// The view of a [`ProgressUpdate`].
pub struct ProgressUpdateView {
    pub percentage: u32,
    pub speed: Seq<char>,
    pub eta: Seq<char>,
    pub filename: Option<Seq<char>>,
    pub phase: Phase,
}

impl View for ProgressUpdate {
    type V = ProgressUpdateView;

    open spec fn view(&self) -> ProgressUpdateView {
        ProgressUpdateView {
            percentage: self.percentage,
            speed: self.speed@,
            eta: self.eta@,
            filename: optional_text(self.filename),
            phase: self.phase,
        }
    }
}

/// The view of an optional report.
pub open spec fn optional_update(update: Option<ProgressUpdate>) -> Option<ProgressUpdateView> {
    match update {
        Some(u) => Some(u@),
        None => None,
    }
}

/// The state in which an attempt begins.
pub open spec fn initial_view() -> ParserView {
    ParserView {
        clean_title: None,
        final_filename: None,
        percentage: 0,
        phase: Phase::Initializing,
        speed_text: "N/A"@,
        eta_text: "N/A"@,
        network_done: false,
    }
}

/// The file name on record after a line.
pub open spec fn named_file(s: ParserView, file: FileUpdateView) -> Option<Seq<char>> {
    match file {
        FileUpdateView::Keep => s.final_filename,
        FileUpdateView::Clear => None,
        FileUpdateView::Name(target) => Some(target.file_name),
    }
}

/// The title on record after a line that may give one: the first title stays.
pub open spec fn titled(s: ParserView, file: FileUpdateView) -> Option<Seq<char>> {
    match (s.clean_title, file) {
        (None, FileUpdateView::Name(target)) => Some(target.clean_title),
        _ => s.clean_title,
    }
}

/// The state after a phase line.
pub open spec fn marked(
    s: ParserView,
    file: FileUpdateView,
    gives_title: bool,
    phase: Phase,
    percentage: u32,
    network_done: bool,
) -> ParserView {
    ParserView {
        clean_title: if gives_title {
            titled(s, file)
        } else {
            s.clean_title
        },
        final_filename: named_file(s, file),
        percentage,
        phase,
        speed_text: s.speed_text,
        eta_text: s.eta_text,
        network_done,
    }
}

/// The report of a state, with the given speed and remaining time.
pub open spec fn report(s: ParserView, speed: Seq<char>, eta: Seq<char>) -> ProgressUpdateView {
    ProgressUpdateView {
        percentage: s.percentage,
        speed,
        eta,
        filename: s.clean_title,
        phase: s.phase,
    }
}

/// The percentage that a progress frame gives: the share of what is downloaded
/// in a total that is known and not zero.
pub open spec fn frame_percent(downloaded: Option<u64>, total: Option<u64>) -> Option<u32> {
    match (downloaded, total) {
        (Some(d), Some(t)) => if t > 0 {
            Some(ratio_percent(d, t))
        } else {
            None
        },
        _ => None,
    }
}

/// The percentage after a progress report that gives `reported`: the figure
/// reported, counted as 100 % where it is above, unless the percentage on
/// record is higher, which then stays. A progress report never lowers the
/// percentage.
pub open spec fn raised(on_record: u32, reported: u32) -> u32 {
    let capped = if reported > FULL_PERCENT {
        FULL_PERCENT
    } else {
        reported
    };
    if capped > on_record {
        capped
    } else {
        on_record
    }
}

/// The state after a progress report, in a frame or in words. The percentage
/// is [`raised`] to the figure reported, where there is one.
pub open spec fn progressed(
    s: ParserView,
    file: FileUpdateView,
    percentage: Option<u32>,
    speed: Option<Seq<char>>,
    eta: Option<Seq<char>>,
) -> ParserView {
    let reached = match percentage {
        Some(p) => raised(s.percentage, p),
        None => s.percentage,
    };
    ParserView {
        clean_title: titled(s, file),
        final_filename: named_file(s, file),
        percentage: reached,
        phase: if s.phase.is_post_processing() {
            s.phase
        } else {
            Phase::Downloading
        },
        speed_text: match speed {
            Some(text) => text,
            None => s.speed_text,
        },
        eta_text: match eta {
            Some(text) => text,
            None => s.eta_text,
        },
        network_done: s.network_done || reached >= FULL_PERCENT,
    }
}

/// The speed that a frame with this speed shows.
pub open spec fn frame_speed(speed: Option<u64>) -> Option<Seq<char>> {
    match speed {
        Some(v) => Some(speed_text(v)),
        None => None,
    }
}

/// The remaining time that a frame with this figure shows.
pub open spec fn frame_eta(eta: Option<u64>) -> Option<Seq<char>> {
    match eta {
        Some(v) => Some(eta_text(v)),
        None => None,
    }
}

/// `text`, or `N/A` where there is none.
pub open spec fn or_not_available(text: Option<Seq<char>>) -> Seq<char> {
    match text {
        Some(t) => t,
        None => "N/A"@,
    }
}

/// The state after a line of the given kind, and what is reported of it.
///
/// A progress frame shows its own speed and remaining time, `N/A` where it has
/// none. A progress line in words shows the last ones known. A phase line
/// shows `N/A`, and `Done` for the remaining time where the download is
/// complete.
pub open spec fn advance(s: ParserView, kind: LineKindView) -> (
    ParserView,
    Option<ProgressUpdateView>,
) {
    match kind {
        LineKindView::Frame { downloaded, total, speed, eta, file } => {
            let next = progressed(
                s,
                file,
                frame_percent(downloaded, total),
                frame_speed(speed),
                frame_eta(eta),
            );
            (
                next,
                Some(
                    report(
                        next,
                        or_not_available(frame_speed(speed)),
                        or_not_available(frame_eta(eta)),
                    ),
                ),
            )
        },
        LineKindView::LegacyProgress { percentage, speed_figure, eta_figure } => {
            let next = progressed(
                s,
                FileUpdateView::Keep,
                Some(percentage),
                speed_figure,
                eta_figure,
            );
            (next, Some(report(next, next.speed_text, next.eta_text)))
        },
        LineKindView::Metadata { file } => {
            let next = marked(s, file, false, Phase::WritingMetadata, NEARLY_FULL_PERCENT, true);
            (next, Some(report(next, "N/A"@, "N/A"@)))
        },
        LineKindView::Thumbnail => {
            let next = marked(
                s,
                FileUpdateView::Keep,
                false,
                Phase::EmbeddingThumbnail,
                NEARLY_FULL_PERCENT,
                true,
            );
            (next, Some(report(next, "N/A"@, "N/A"@)))
        },
        LineKindView::Merger { file } => {
            let next = marked(s, file, true, Phase::MergingFormats, FULL_PERCENT, true);
            (next, Some(report(next, "N/A"@, "Done"@)))
        },
        LineKindView::ExtractAudio { file } => {
            let next = marked(s, file, true, Phase::ExtractingAudio, FULL_PERCENT, true);
            (next, Some(report(next, "N/A"@, "Done"@)))
        },
        LineKindView::Fixup => {
            let next = marked(
                s,
                FileUpdateView::Keep,
                false,
                Phase::FixingContainer,
                s.percentage,
                true,
            );
            (next, Some(report(next, "N/A"@, "N/A"@)))
        },
        LineKindView::AlreadyDownloaded { file } => {
            let next = marked(s, file, true, Phase::Finished, FULL_PERCENT, true);
            (next, Some(report(next, "N/A"@, "Done"@)))
        },
        LineKindView::Destination { file } => {
            let next = marked(s, file, true, Phase::Downloading, s.percentage, s.network_done);
            (next, Some(report(next, "N/A"@, "N/A"@)))
        },
        LineKindView::Other => (s, None),
    }
}

impl ParserState {
    /// The state in which an attempt begins.
    pub fn new() -> (r: Self)
        ensures
            r@ == initial_view(),
            r.wf(),
    {
        ParserState {
            clean_title: None,
            final_filename: None,
            percentage: 0,
            phase: Phase::Initializing,
            speed_text: "N/A".to_owned(),
            eta_text: "N/A".to_owned(),
            network_done: false,
        }
    }

    /// The percentage is at most 100 %.
    pub open spec fn wf(&self) -> bool {
        self.percentage <= FULL_PERCENT
    }

    /// Records the file that a line names.
    fn record_file(&mut self, file: FileUpdate, gives_title: bool)
        ensures
            final(self)@ == marked(
                old(self)@,
                file@,
                gives_title,
                old(self).phase,
                old(self).percentage,
                old(self).network_done,
            ),
    {
        match file {
            FileUpdate::Keep => {},
            FileUpdate::Clear => {
                self.final_filename = None;
            },
            FileUpdate::Name(target) => {
                if gives_title && self.clean_title.is_none() {
                    self.clean_title = Some(target.clean_title);
                }
                self.final_filename = Some(target.file_name);
            },
        }
    }

    /// What is reported of this state, with the given speed and remaining time.
    fn report_with(&self, speed: String, eta: String) -> (r: ProgressUpdate)
        ensures
            r@ == report(self@, speed@, eta@),
    {
        ProgressUpdate {
            percentage: self.percentage,
            speed,
            eta,
            filename: clone_optional_text(&self.clean_title),
            phase: self.phase,
        }
    }

    /// Takes a phase line in.
    fn mark(
        &mut self,
        file: FileUpdate,
        gives_title: bool,
        phase: Phase,
        percentage: u32,
        network_done: bool,
        eta: &str,
    ) -> (r: ProgressUpdate)
        ensures
            final(self)@ == marked(old(self)@, file@, gives_title, phase, percentage, network_done),
            r@ == report(final(self)@, "N/A"@, eta@),
    {
        self.record_file(file, gives_title);
        self.phase = phase;
        self.percentage = percentage;
        self.network_done = network_done;
        self.report_with("N/A".to_owned(), eta.to_owned())
    }

    /// Takes a progress report in.
    fn progress(
        &mut self,
        file: FileUpdate,
        percentage: Option<u32>,
        speed: Option<String>,
        eta: Option<String>,
    )
        ensures
            final(self)@ == progressed(
                old(self)@,
                file@,
                percentage,
                optional_text(speed),
                optional_text(eta),
            ),
    {
        self.record_file(file, true);
        if let Some(p) = percentage {
            let capped = if p > FULL_PERCENT {
                FULL_PERCENT
            } else {
                p
            };
            if capped > self.percentage {
                self.percentage = capped;
            }
        }
        if !self.phase.post_processing() {
            self.phase = Phase::Downloading;
        }
        if let Some(text) = speed {
            self.speed_text = text;
        }
        if let Some(text) = eta {
            self.eta_text = text;
        }
        if self.percentage >= FULL_PERCENT {
            self.network_done = true;
        }
    }

    /// Advances on a line of the given kind, and says what to report of it.
    ///
    /// A title, once on record, stays: no later line replaces it. The
    /// percentage never falls, but on a phase line that sets it to 99 % or to
    /// 100 %.
    pub fn apply(&mut self, kind: LineKind) -> (r: Option<ProgressUpdate>)
        requires
            old(self).wf(),
        ensures
            final(self)@ == advance(old(self)@, kind@).0,
            optional_update(r) == advance(old(self)@, kind@).1,
            final(self).wf(),
            old(self).clean_title is Some ==> final(self)@.clean_title == old(self)@.clean_title,
            final(self).percentage >= old(self).percentage || (latches_percentage(kind@)
                && (final(self).percentage == NEARLY_FULL_PERCENT || final(self).percentage
                == FULL_PERCENT)),
    {
        match kind {
            LineKind::Frame { downloaded, total, speed, eta, file } => {
                let percentage = match (downloaded, total) {
                    (Some(d), Some(t)) => if t > 0 {
                        Some(percent_of(d, t))
                    } else {
                        None
                    },
                    _ => None,
                };
                let speed_shown = match speed {
                    Some(v) => Some(format_speed(v)),
                    None => None,
                };
                let eta_shown = match eta {
                    Some(v) => Some(format_eta(v)),
                    None => None,
                };
                let speed_now = match &speed_shown {
                    Some(text) => text.clone(),
                    None => "N/A".to_owned(),
                };
                let eta_now = match &eta_shown {
                    Some(text) => text.clone(),
                    None => "N/A".to_owned(),
                };
                self.progress(file, percentage, speed_shown, eta_shown);
                Some(self.report_with(speed_now, eta_now))
            },
            LineKind::LegacyProgress { percentage, speed_figure, eta_figure } => {
                self.progress(FileUpdate::Keep, Some(percentage), speed_figure, eta_figure);
                let speed_now = self.speed_text.clone();
                let eta_now = self.eta_text.clone();
                Some(self.report_with(speed_now, eta_now))
            },
            LineKind::Metadata { file } => Some(
                self.mark(file, false, Phase::WritingMetadata, NEARLY_FULL_PERCENT, true, "N/A"),
            ),
            LineKind::Thumbnail => Some(
                self.mark(
                    FileUpdate::Keep,
                    false,
                    Phase::EmbeddingThumbnail,
                    NEARLY_FULL_PERCENT,
                    true,
                    "N/A",
                ),
            ),
            LineKind::Merger { file } => Some(
                self.mark(file, true, Phase::MergingFormats, FULL_PERCENT, true, "Done"),
            ),
            LineKind::ExtractAudio { file } => Some(
                self.mark(file, true, Phase::ExtractingAudio, FULL_PERCENT, true, "Done"),
            ),
            LineKind::Fixup => {
                let percentage = self.percentage;
                Some(
                    self.mark(
                        FileUpdate::Keep,
                        false,
                        Phase::FixingContainer,
                        percentage,
                        true,
                        "N/A",
                    ),
                )
            },
            LineKind::AlreadyDownloaded { file } => Some(
                self.mark(file, true, Phase::Finished, FULL_PERCENT, true, "Done"),
            ),
            LineKind::Destination { file } => {
                let percentage = self.percentage;
                let network_done = self.network_done;
                Some(self.mark(file, true, Phase::Downloading, percentage, network_done, "N/A"))
            },
            LineKind::Other => None,
        }
    }

    /// Takes one line of worker output in, by [`kind_of`] and [`advance`].
    /// `windows` says whether paths are read as Windows reads them.
    pub fn feed_line(&mut self, line: &str, windows: bool) -> (r: Option<ProgressUpdate>)
        requires
            old(self).wf(),
        ensures
            final(self)@ == advance(old(self)@, kind_of(line@, windows)).0,
            optional_update(r) == advance(old(self)@, kind_of(line@, windows)).1,
            final(self).wf(),
            old(self).clean_title is Some ==> final(self)@.clean_title == old(self)@.clean_title,
            final(self).percentage >= old(self).percentage || (latches_percentage(
                kind_of(line@, windows),
            ) && (final(self).percentage == NEARLY_FULL_PERCENT || final(self).percentage
                == FULL_PERCENT)),
    {
        let kind = classify(line, windows);
        self.apply(kind)
    }
}

/// Whether a line of this kind sets the percentage to 99 % or 100 %.
pub open spec fn latches_percentage(kind: LineKindView) -> bool {
    kind is Metadata || kind is Thumbnail || kind is Merger || kind is ExtractAudio
        || kind is AlreadyDownloaded
}

/// Within an attempt the percentage never falls, but on a phase line that sets
/// it to 99 % or to 100 %.
pub proof fn lemma_progress_never_falls(s: ParserView, kind: LineKindView)
    ensures
        advance(s, kind).0.percentage >= s.percentage || (latches_percentage(kind) && (advance(
            s,
            kind,
        ).0.percentage == NEARLY_FULL_PERCENT || advance(s, kind).0.percentage == FULL_PERCENT)),
{
}

/// The title is set at most once in an attempt: whatever the line, a title on
/// record is the title afterwards.
pub proof fn lemma_title_set_once(s: ParserView, kind: LineKindView)
    requires
        s.clean_title is Some,
    ensures
        advance(s, kind).0.clean_title == s.clean_title,
{
}

/// Once the worker post-processes, a progress frame no longer changes the
/// phase.
pub proof fn lemma_post_processing_latches(s: ParserView, kind: LineKindView)
    requires
        s.phase.is_post_processing(),
        kind is Frame || kind is LegacyProgress,
    ensures
        advance(s, kind).0.phase == s.phase,
{
}

} // verus!
