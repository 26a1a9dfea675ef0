//! The playlist expander: what the worker's flat-playlist probe says of a URL.
//!
//! The probe itself is run by the caller. This module says how the worker is
//! to be asked ([`probe_arguments`]) and reads its answer ([`probe_url`]).

use vstd::prelude::*;
use crate::error::AppError;

use crate::json::json_document;
use crate::json::parse_document;
use crate::json::Json;
use crate::models::PlaylistEntry;
use crate::models::PlaylistResult;
use crate::parser::optional_text;
use crate::text::push_text;
use crate::text::string_of;
use crate::text::texts;

verus! {

/// The view of a [`PlaylistEntry`].
pub struct EntryView {
    pub id: Option<Seq<char>>,
    pub url: Seq<char>,
    pub title: Seq<char>,
}

impl View for PlaylistEntry {
    type V = EntryView;

    open spec fn view(&self) -> EntryView {
        EntryView { id: optional_text(self.id), url: self.url@, title: self.title@ }
    }
}

/// The views of a run of entries.
pub open spec fn entry_views(entries: Seq<PlaylistEntry>) -> Seq<EntryView> {
    entries.map_values(|e: PlaylistEntry| e@)
}

/// How the worker is asked about `url`.
pub open spec fn probe_arguments_of(url: Seq<char>) -> Seq<Seq<char>> {
    seq!["--flat-playlist"@, "--dump-single-json"@, "--no-warnings"@, url]
}

/// The arguments of the probe of `url`.
pub fn probe_arguments(url: &str) -> (r: Vec<String>)
    ensures
        texts(r@) == probe_arguments_of(url@),
{
    let mut out: Vec<String> = Vec::new();
    out.push("--flat-playlist".to_owned());
    out.push("--dump-single-json".to_owned());
    out.push("--no-warnings".to_owned());
    out.push(url.to_owned());
    assert(texts(out@) =~= probe_arguments_of(url@));
    out
}

/// The string that a member holds, where the document is an object with such
/// a member.
pub open spec fn text_field(document: Json, key: Seq<char>) -> Option<Seq<char>> {
    match document.field(key) {
        Some(value) => value.text(),
        None => None,
    }
}

/// The title of an item: its `title`, or `Unknown`.
pub open spec fn title_of(item: Json) -> Seq<char> {
    match text_field(item, "title"@) {
        Some(title) => title,
        None => "Unknown"@,
    }
}

/// The entry that an item of a playlist makes: none without a `url`.
pub open spec fn listed_entry(item: Json) -> Option<EntryView> {
    match text_field(item, "url"@) {
        Some(url) => Some(EntryView { id: text_field(item, "id"@), url, title: title_of(item) }),
        None => None,
    }
}

/// The entries that the items of a playlist make, in order.
pub open spec fn listed(items: Seq<Json>) -> Seq<EntryView>
    decreases items.len(),
{
    if items.len() == 0 {
        Seq::empty()
    } else {
        match listed_entry(items.last()) {
            Some(entry) => listed(items.drop_last()).push(entry),
            None => listed(items.drop_last()),
        }
    }
}

/// The one entry of a document that is no playlist: its `webpage_url`, or
/// the URL that was asked about.
pub open spec fn single_entry(document: Json, url: Seq<char>) -> EntryView {
    EntryView {
        id: text_field(document, "id"@),
        url: match text_field(document, "webpage_url"@) {
            Some(page) => page,
            None => url,
        },
        title: title_of(document),
    }
}

/// What a probe's document says of `url`: the items of its `entries`, where
/// that is an array, else the document itself as the one entry.
pub open spec fn entries_of(document: Json, url: Seq<char>) -> Seq<EntryView> {
    match document.field("entries"@) {
        Some(list) => match list.items() {
            Some(items) => listed(items),
            None => seq![single_entry(document, url)],
        },
        None => seq![single_entry(document, url)],
    }
}

/// Reads a member as a string, by [`text_field`].
fn read_text(document: &Json, key: &str) -> (r: Option<String>)
    ensures
        optional_text(r) == text_field(*document, key@),
{
    match document.get(key) {
        Some(value) => match value.as_text() {
            Some(text) => Some(text.clone()),
            None => None,
        },
        None => None,
    }
}

/// Reads the title of an item, by [`title_of`].
fn read_title(item: &Json) -> (r: String)
    ensures
        r@ == title_of(*item),
{
    match read_text(item, "title") {
        Some(title) => title,
        None => "Unknown".to_owned(),
    }
}

/// Reads what a probe's document says of `url`, by [`entries_of`].
pub fn entries_from_json(document: &Json, url: &str) -> (r: Vec<PlaylistEntry>)
    ensures
        entry_views(r@) == entries_of(*document, url@),
{
    let mut out: Vec<PlaylistEntry> = Vec::new();
    let list = match document.get("entries") {
        Some(list) => list.as_array(),
        None => None,
    };
    match list {
        Some(items) => {
            let mut i: usize = 0;
            assert(entry_views(out@) =~= listed(items@.take(0)));
            while i < items.len()
                invariant
                    i <= items.len(),
                    entry_views(out@) == listed(items@.take(i as int)),
                decreases items.len() - i,
            {
                proof {
                    assert(items@.take(i + 1).drop_last() =~= items@.take(i as int));
                    assert(items@.take(i + 1).last() == items@[i as int]);
                }
                let item = &items[i];
                match read_text(item, "url") {
                    Some(found) => {
                        let entry = PlaylistEntry {
                            id: read_text(item, "id"),
                            url: found,
                            title: read_title(item),
                        };
                        out.push(entry);
                        assert(entry_views(out@) =~= listed(items@.take(i + 1)));
                    },
                    None => {},
                }
                i += 1;
            }
            assert(items@.take(items.len() as int) =~= items@);
        },
        None => {
            let entry = PlaylistEntry {
                id: read_text(document, "id"),
                url: match read_text(document, "webpage_url") {
                    Some(page) => page,
                    None => url.to_owned(),
                },
                title: read_title(document),
            };
            out.push(entry);
            assert(entry_views(out@) =~= seq![single_entry(*document, url@)]);
        },
    }
    out
}

/// How a probe ended.
#[derive(Debug, PartialEq, Eq)]
pub enum ProbeOutcome {
    /// The worker could not be run.
    NotRun { reason: String },
    /// The worker ran. `stdout` and `stderr` are what it printed, with
    /// whatever is no UTF-8 replaced.
    Exited { success: bool, code: Option<i32>, stdout: String, stderr: String },
}

/// The view of a failed probe.
pub enum ProbeErrorView {
    Io { reason: Seq<char> },
    Process { exit_code: i32, stderr: Seq<char> },
    Validation { reason: Seq<char> },
    Other,
}

/// The view of an error, as a probe can return it.
pub open spec fn probe_error(error: AppError) -> ProbeErrorView {
    match error {
        AppError::IoError(reason) => ProbeErrorView::Io { reason: reason@ },
        AppError::ProcessFailed { exit_code, stderr } => ProbeErrorView::Process {
            exit_code,
            stderr: stderr@,
        },
        AppError::ValidationFailed(reason) => ProbeErrorView::Validation { reason: reason@ },
        _ => ProbeErrorView::Other,
    }
}

/// The view of what a probe returns.
pub open spec fn probe_view(result: Result<Vec<PlaylistEntry>, AppError>) -> Result<
    Seq<EntryView>,
    ProbeErrorView,
> {
    match result {
        Ok(entries) => Ok(entry_views(entries@)),
        Err(error) => Err(probe_error(error)),
    }
}

/// What the output of a probe that ended well says of `url`: the entries of
/// the document that it is, or that it is no JSON.
pub open spec fn read_output(output: Seq<char>, url: Seq<char>) -> Result<
    Seq<EntryView>,
    ProbeErrorView,
> {
    match json_document(output) {
        Ok(document) => Ok(entries_of(document, url)),
        Err(message) => Err(
            ProbeErrorView::Validation { reason: "Failed to parse JSON: "@ + message },
        ),
    }
}

/// What a probe says of `url`. A worker that could not be run is an I/O
/// error; one that failed is a process failure with its exit code, or -1
/// where it has none, and what it printed as errors; else its output is read.
pub open spec fn probed(outcome: ProbeOutcome, url: Seq<char>) -> Result<
    Seq<EntryView>,
    ProbeErrorView,
> {
    match outcome {
        ProbeOutcome::NotRun { reason } => Err(ProbeErrorView::Io { reason: reason@ }),
        ProbeOutcome::Exited { success, code, stdout, stderr } => if success {
            read_output(stdout@, url)
        } else {
            Err(
                ProbeErrorView::Process {
                    exit_code: match code {
                        Some(c) => c,
                        None => -1i32,
                    },
                    stderr: stderr@,
                },
            )
        },
    }
}

/// Reads the output of a probe that ended well, by [`read_output`].
pub fn parse_probe_output(output: &str, url: &str) -> (r: Result<Vec<PlaylistEntry>, AppError>)
    ensures
        probe_view(r) == read_output(output@, url@),
{
    match parse_document(output) {
        Ok(document) => Ok(entries_from_json(&document, url)),
        Err(message) => {
            let mut reason: Vec<char> = Vec::new();
            push_text(&mut reason, "Failed to parse JSON: ");
            push_text(&mut reason, message.as_str());
            Err(AppError::ValidationFailed(string_of(&reason)))
        },
    }
}

/// Says what a probe found out about `url`, by [`probed`].
pub fn probe_url(outcome: ProbeOutcome, url: &str) -> (r: Result<Vec<PlaylistEntry>, AppError>)
    ensures
        probe_view(r) == probed(outcome, url@),
{
    match outcome {
        ProbeOutcome::NotRun { reason } => Err(AppError::IoError(reason)),
        ProbeOutcome::Exited { success, code, stdout, stderr } => {
            if success {
                parse_probe_output(stdout.as_str(), url)
            } else {
                Err(
                    AppError::ProcessFailed {
                        exit_code: match code {
                            Some(c) => c,
                            None => -1,
                        },
                        stderr,
                    },
                )
            }
        },
    }
}

/// Says what a probe found out about `url`, as the command surface returns
/// it.
pub fn expand_playlist(outcome: ProbeOutcome, url: &str) -> (r: Result<PlaylistResult, AppError>)
    ensures
        match r {
            Ok(result) => probed(outcome, url@) == Ok::<Seq<EntryView>, ProbeErrorView>(
                entry_views(result.entries@),
            ),
            Err(error) => probed(outcome, url@) == Err::<Seq<EntryView>, ProbeErrorView>(
                probe_error(error),
            ),
        },
{
    match probe_url(outcome, url) {
        Ok(entries) => Ok(PlaylistResult { entries }),
        Err(error) => Err(error),
    }
}

} // verus!
