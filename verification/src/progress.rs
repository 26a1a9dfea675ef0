//! The figures of a progress report: phases, percentages, speeds, remaining
//! times and file names.

use vstd::prelude::*;
use crate::models::FULL_PERCENT;
use crate::text::chars_of;
use crate::text::decimal;
use crate::text::decimal_two;
use crate::text::push_decimal;
use crate::text::push_decimal_two;
use crate::text::push_text;
use crate::text::string_of;

verus! {

/// A labelled segment of a job's life.
#[derive(Debug, Clone, Copy, PartialEq, Eq, Structural)]
pub enum Phase {
    Initializing,
    Downloading,
    WritingMetadata,
    EmbeddingThumbnail,
    MergingFormats,
    ExtractingAudio,
    FixingContainer,
    Finished,
}

impl Phase {
    /// The label that the user interface shows.
    pub open spec fn label_text(self) -> Seq<char> {
        match self {
            Phase::Initializing => "Initializing"@,
            Phase::Downloading => "Downloading"@,
            Phase::WritingMetadata => "Writing Metadata"@,
            Phase::EmbeddingThumbnail => "Embedding Thumbnail"@,
            Phase::MergingFormats => "Merging Formats"@,
            Phase::ExtractingAudio => "Extracting Audio"@,
            Phase::FixingContainer => "Fixing Container"@,
            Phase::Finished => "Finished"@,
        }
    }

    /// The label that the user interface shows.
    pub fn label(&self) -> (r: &'static str)
        ensures
            r@ == self.label_text(),
    {
        match self {
            Phase::Initializing => "Initializing",
            Phase::Downloading => "Downloading",
            Phase::WritingMetadata => "Writing Metadata",
            Phase::EmbeddingThumbnail => "Embedding Thumbnail",
            Phase::MergingFormats => "Merging Formats",
            Phase::ExtractingAudio => "Extracting Audio",
            Phase::FixingContainer => "Fixing Container",
            Phase::Finished => "Finished",
        }
    }

    /// Whether the download proper is over and the worker is working on the
    /// files it fetched.
    pub open spec fn is_post_processing(self) -> bool {
        self == Phase::WritingMetadata || self == Phase::EmbeddingThumbnail || self
            == Phase::MergingFormats || self == Phase::ExtractingAudio || self
            == Phase::FixingContainer
    }

    /// Decides [`Phase::is_post_processing`].
    pub fn post_processing(&self) -> (r: bool)
        ensures
            r == self.is_post_processing(),
    {
        match self {
            Phase::WritingMetadata
            | Phase::EmbeddingThumbnail
            | Phase::MergingFormats
            | Phase::ExtractingAudio
            | Phase::FixingContainer => true,
            _ => false,
        }
    }
}

/// The share of `downloaded` in `total`, in hundredths of a percent, rounded
/// down and never above 100 %. `total` is not zero.
pub open spec fn ratio_percent(downloaded: u64, total: u64) -> u32 {
    let exact = downloaded as nat * 10_000 / total as nat;
    if exact > 10_000 {
        10_000u32
    } else {
        exact as u32
    }
}

/// Computes [`ratio_percent`].
pub fn percent_of(downloaded: u64, total: u64) -> (r: u32)
    requires
        total > 0,
    ensures
        r == ratio_percent(downloaded, total),
        r <= FULL_PERCENT,
{
    let exact: u128 = (downloaded as u128) * 10_000 / (total as u128);
    if exact > 10_000 {
        FULL_PERCENT
    } else {
        exact as u32
    }
}

/// A remaining time: hours, minutes and seconds where it reaches an hour, else
/// minutes and seconds, each on two digits at least.
pub open spec fn eta_text(seconds: u64) -> Seq<char> {
    let hours = (seconds / 3600) as nat;
    let minutes = ((seconds % 3600) / 60) as nat;
    let rest = (seconds % 60) as nat;
    if hours > 0 {
        decimal_two(hours) + seq![':'] + decimal_two(minutes) + seq![':'] + decimal_two(rest)
    } else {
        decimal_two(minutes) + seq![':'] + decimal_two(rest)
    }
}

/// Writes a remaining time, given in seconds.
pub fn format_eta(seconds: u64) -> (r: String)
    ensures
        r@ == eta_text(seconds),
{
    let hours: u64 = seconds / 3600;
    let minutes: u64 = (seconds % 3600) / 60;
    let rest: u64 = seconds % 60;
    let mut out: Vec<char> = Vec::new();
    if hours > 0 {
        push_decimal_two(&mut out, hours as u128);
        out.push(':');
    }
    push_decimal_two(&mut out, minutes as u128);
    out.push(':');
    push_decimal_two(&mut out, rest as u128);
    assert(out@ =~= eta_text(seconds));
    string_of(&out)
}

/// One kibibyte.
pub const KIB: u64 = 1024;

/// One mebibyte.
pub const MIB: u64 = 1_048_576;

/// One gibibyte.
pub const GIB: u64 = 1_073_741_824;

/// `amount * 100 / unit`, rounded to the nearest integer, a tie to the even
/// one.
pub open spec fn hundredths(amount: u64, unit: u64) -> nat {
    let scaled = amount as nat * 100;
    let floor = scaled / unit as nat;
    let rest = scaled % unit as nat;
    if 2 * rest > unit || (2 * rest == unit && floor % 2 == 1) {
        floor + 1
    } else {
        floor
    }
}

/// `amount / unit` with two decimals.
pub open spec fn two_decimals(amount: u64, unit: u64) -> Seq<char> {
    let h = hundredths(amount, unit);
    decimal(h / 100) + seq!['.'] + decimal_two(h % 100)
}

/// A speed in the largest binary unit that it reaches, with two decimals; in
/// bytes below one kibibyte.
pub open spec fn speed_text(bytes_per_second: u64) -> Seq<char> {
    if bytes_per_second >= GIB {
        two_decimals(bytes_per_second, GIB) + " GiB/s"@
    } else if bytes_per_second >= MIB {
        two_decimals(bytes_per_second, MIB) + " MiB/s"@
    } else if bytes_per_second >= KIB {
        two_decimals(bytes_per_second, KIB) + " KiB/s"@
    } else {
        decimal(bytes_per_second as nat) + " B/s"@
    }
}

/// Appends [`two_decimals`].
fn push_two_decimals(out: &mut Vec<char>, amount: u64, unit: u64)
    requires
        unit > 0,
    ensures
        final(out)@ == old(out)@ + two_decimals(amount, unit),
{
    let scaled: u128 = (amount as u128) * 100;
    let floor: u128 = scaled / (unit as u128);
    let rest: u128 = scaled % (unit as u128);
    let h: u128 = if 2 * rest > (unit as u128) || (2 * rest == (unit as u128) && floor % 2 == 1) {
        floor + 1
    } else {
        floor
    };
    assert(h == hundredths(amount, unit));
    push_decimal(out, h / 100);
    out.push('.');
    push_decimal_two(out, h % 100);
    assert(out@ =~= old(out)@ + two_decimals(amount, unit));
}

/// Writes a speed, given in whole bytes per second.
pub fn format_speed(bytes_per_second: u64) -> (r: String)
    ensures
        r@ == speed_text(bytes_per_second),
{
    let mut out: Vec<char> = Vec::new();
    if bytes_per_second >= GIB {
        push_two_decimals(&mut out, bytes_per_second, GIB);
        push_text(&mut out, " GiB/s");
    } else if bytes_per_second >= MIB {
        push_two_decimals(&mut out, bytes_per_second, MIB);
        push_text(&mut out, " MiB/s");
    } else if bytes_per_second >= KIB {
        push_two_decimals(&mut out, bytes_per_second, KIB);
        push_text(&mut out, " KiB/s");
    } else {
        push_decimal(&mut out, bytes_per_second as u128);
        push_text(&mut out, " B/s");
    }
    assert(out@ =~= speed_text(bytes_per_second));
    string_of(&out)
}

/// Whether `c` parts the components of a path: a slash, and on Windows a
/// backslash too.
pub open spec fn is_separator(c: char, windows: bool) -> bool {
    c == '/' || (windows && c == '\\')
}

/// Where the component of `path` that ends before `end` begins: after the
/// last separator before `end`, or at the beginning.
pub open spec fn component_start(path: Seq<char>, end: int, windows: bool) -> int
    decreases end,
{
    if end <= 0 || is_separator(path[end - 1], windows) {
        end
    } else {
        component_start(path, end - 1, windows)
    }
}

/// The last component of `path` before `end` that is neither empty nor `.`,
/// by where it begins and ends. Empty components, which separators in a row
/// or at the end make, and components `.` do not count.
pub open spec fn last_named(path: Seq<char>, end: int, windows: bool) -> Option<(int, int)>
    recommends
        end <= path.len(),
    decreases end,
{
    if end <= 0 {
        None
    } else {
        let start = component_start(path, end, windows);
        if start < 0 || start >= end {
            last_named(path, end - 1, windows)
        } else if path.subrange(start, end) == seq!['.'] {
            last_named(path, start, windows)
        } else {
            Some((start, end))
        }
    }
}

/// Whether `c` is a letter of the Latin alphabet.
pub open spec fn is_letter(c: char) -> bool {
    ('a' <= c <= 'z') || ('A' <= c <= 'Z')
}

/// Whether `name` begins with a drive designator: a letter and a colon.
pub open spec fn has_drive(name: Seq<char>) -> bool {
    name.len() >= 2 && is_letter(name[0]) && name[1] == ':'
}

/// The final component of `path`: the last component that is neither empty
/// nor `.`, unless that is `..`. This is what `std::path::Path::file_name`
/// gives on Unix. On Windows a backslash separates too, and a drive
/// designator at the beginning of the path is no part of a name; the prefix of
/// a network share or of a verbatim path is read like any other component.
pub open spec fn file_name(path: Seq<char>, windows: bool) -> Option<Seq<char>> {
    match last_named(path, path.len() as int, windows) {
        None => None,
        Some((start, end)) => {
            let whole = path.subrange(start, end);
            let name = if windows && start == 0 && has_drive(whole) {
                whole.skip(2)
            } else {
                whole
            };
            if name.len() == 0 || name == seq!['.'] || name == seq!['.', '.'] {
                None
            } else {
                Some(name)
            }
        },
    }
}

/// Decides [`is_separator`].
pub fn separates(c: char, windows: bool) -> (r: bool)
    ensures
        r == is_separator(c, windows),
{
    c == '/' || (windows && c == '\\')
}

/// Computes [`component_start`].
fn start_of_component(chars: &Vec<char>, end: usize, windows: bool) -> (r: usize)
    requires
        end <= chars.len(),
    ensures
        r == component_start(chars@, end as int, windows),
        r <= end,
{
    let mut at: usize = end;
    while at > 0 && !separates(chars[at - 1], windows)
        invariant
            at <= end <= chars.len(),
            component_start(chars@, end as int, windows) == component_start(
                chars@,
                at as int,
                windows,
            ),
        decreases at,
    {
        at -= 1;
    }
    at
}

/// Whether `name` is the one character `.` or the two characters `..`.
fn is_dots(name: &Vec<char>) -> (r: bool)
    ensures
        r == (name@ == seq!['.'] || name@ == seq!['.', '.']),
{
    let one = name.len() == 1 && name[0] == '.';
    let two = name.len() == 2 && name[0] == '.' && name[1] == '.';
    proof {
        if one {
            assert(name@ =~= seq!['.']);
        }
        if two {
            assert(name@ =~= seq!['.', '.']);
        }
        if name@ == seq!['.'] {
            assert(name@.len() == 1 && name@[0] == '.');
        }
        if name@ == seq!['.', '.'] {
            assert(name@.len() == 2 && name@[0] == '.' && name@[1] == '.');
        }
    }
    one || two
}

/// The final component of a path, by [`file_name`].
pub fn file_name_of(path: &str, windows: bool) -> (r: Option<String>)
    ensures
        r.is_some() == file_name(path@, windows).is_some(),
        r matches Some(name) ==> file_name(path@, windows) == Some(name@),
{
    let chars = chars_of(path);
    let mut end: usize = chars.len();
    let mut start: usize = 0;
    let mut found = false;
    while end > 0 && !found
        invariant
            end <= chars.len(),
            found ==> start < end && last_named(chars@, chars@.len() as int, windows) == Some(
                (start as int, end as int),
            ),
            !found ==> last_named(chars@, chars@.len() as int, windows) == last_named(
                chars@,
                end as int,
                windows,
            ),
        decreases
                (if found {
                    0int
                } else {
                    end + 1
                }),
    {
        let begin = start_of_component(&chars, end, windows);
        if begin >= end {
            end -= 1;
        } else if end - begin == 1 && chars[begin] == '.' {
            assert(chars@.subrange(begin as int, end as int) =~= seq!['.']);
            end = begin;
        } else {
            proof {
                if chars@.subrange(begin as int, end as int) == seq!['.'] {
                    assert(chars@.subrange(begin as int, end as int).len() == 1);
                    assert(chars@.subrange(begin as int, end as int)[0] == chars@[begin as int]);
                }
            }
            start = begin;
            found = true;
        }
    }
    if !found {
        return None;
    }
    let drive = windows && start == 0 && end - start >= 2 && chars[1] == ':' && (('a' <= chars[0]
        && chars[0] <= 'z') || ('A' <= chars[0] && chars[0] <= 'Z'));
    let ghost whole = chars@.subrange(start as int, end as int);
    proof {
        if end - start >= 2 {
            assert(whole[0] == chars@[start as int]);
            assert(whole[1] == chars@[start + 1]);
        }
    }
    let from: usize = if drive {
        start + 2
    } else {
        start
    };
    let mut name: Vec<char> = Vec::new();
    let mut i: usize = from;
    while i < end
        invariant
            from <= i <= end <= chars.len(),
            name@ == chars@.subrange(from as int, i as int),
        decreases end - i,
    {
        name.push(chars[i]);
        i += 1;
    }
    proof {
        if drive {
            assert(name@ =~= whole.skip(2));
        } else {
            assert(name@ =~= whole);
        }
    }
    if name.len() == 0 || is_dots(&name) {
        None
    } else {
        Some(string_of(&name))
    }
}

} // verus!
