//! The supervisor of one job.
//!
//! A supervisor decides; it neither spawns nor reads nor moves anything. Its
//! caller carries out each [`SupervisorCommand`] and hands back what happened
//! as a [`SupervisorEvent`]. [`Supervisor::step`] is the whole of its behaviour,
//! and [`react`] says what that is.
//!
//! A job that is dispatched holds a network slot and a process slot. Its
//! supervisor reports once in each attempt that the network slot is given
//! back: at the first line after which the worker needs the network no
//! longer, or else when the supervisor ends. The orchestrator gives the slot
//! back at the first such report of a job and passes over the others. The
//! process slot is given back with the last report.

use vstd::prelude::*;
use crate::models::JobMessage;
use crate::models::QueuedJob;
use crate::parser::advance;
use crate::parser::initial_view;
use crate::parser::classify;
use crate::parser::kind_of;
use crate::parser::LineKind;
use crate::parser::LineKindView;
use crate::parser::optional_text;
use crate::parser::ParserState;
use crate::parser::ParserView;
use crate::parser::ProgressUpdate;
use crate::parser::ProgressUpdateView;
use crate::pattern::is_match;
use crate::pattern::regex_matches;
use crate::text::joined;
use crate::text::push_signed_decimal;
use crate::text::push_text;
use crate::text::signed_decimal;
use crate::text::string_of;
use crate::text::texts;
use crate::text::trim;
use crate::text::trimmed;

verus! {

/// How many lines of worker output are kept for a failure report.
pub const LOG_CAPACITY: usize = 100;

/// What the worker prints when a file name is the reason of its failure.
pub const FILESYSTEM_ERROR_PATTERN: &'static str =
    r"(?i)(No such file|Invalid argument|cannot be written|WinError 123|Postprocessing: Error opening input files)";

/// The last [`LOG_CAPACITY`] items of `all`.
pub open spec fn last_lines(all: Seq<Seq<char>>) -> Seq<Seq<char>> {
    if all.len() > LOG_CAPACITY {
        all.skip(all.len() - LOG_CAPACITY)
    } else {
        all
    }
}

/// The last lines of a worker's output, the oldest first.
#[derive(Debug)]
pub struct LogBuffer {
    lines: Vec<String>,
}

impl View for LogBuffer {
    type V = Seq<Seq<char>>;

    closed spec fn view(&self) -> Seq<Seq<char>> {
        texts(self.lines@)
    }
}

impl LogBuffer {
    /// The buffer holds no more than [`LOG_CAPACITY`] lines.
    pub open spec fn wf(&self) -> bool {
        self@.len() <= LOG_CAPACITY
    }

    /// An empty buffer.
    pub fn new() -> (r: Self)
        ensures
            r@ == Seq::<Seq<char>>::empty(),
            r.wf(),
    {
        let r = LogBuffer { lines: Vec::new() };
        assert(r@ =~= Seq::<Seq<char>>::empty());
        r
    }

    /// Adds a line, and drops the oldest one where the buffer is full.
    pub fn push(&mut self, line: String)
        requires
            old(self).wf(),
        ensures
            final(self)@ == last_lines(old(self)@.push(line@)),
            final(self).wf(),
    {
        self.lines.push(line);
        assert(texts(self.lines@) =~= old(self)@.push(line@));
        if self.lines.len() > LOG_CAPACITY {
            let _ = self.lines.remove(0);
            assert(texts(self.lines@) =~= last_lines(old(self)@.push(line@)));
        }
    }

    /// The lines, each on a line of its own.
    pub fn join(&self) -> (r: String)
        ensures
            r@ == joined(self@, "\n"@),
    {
        crate::text::join(&self.lines, "\n")
    }

    /// How many lines the buffer holds.
    pub fn len(&self) -> (r: usize)
        ensures
            r == self@.len(),
    {
        self.lines.len()
    }
}

/// A step of the move from staging to the destination.
#[derive(Debug, Clone, Copy, PartialEq, Eq, Structural)]
pub enum MoveStep {
    /// Rename the staged file to its destination.
    Rename,
    /// Copy it there, the rename having failed.
    Copy,
    /// Remove the staged file, the copy being made.
    Remove,
}

/// Where a supervisor stands.
#[derive(Debug, Clone, Copy, PartialEq, Eq, Structural)]
pub enum Stage {
    /// Nothing was ordered yet.
    Idle,
    /// A launch was ordered.
    Launching,
    /// The worker runs.
    Running,
    /// The worker ended well, and its output is looked for in staging.
    Locating,
    /// The output is on its way to the destination.
    Moving(MoveStep),
    /// The supervisor has given back its slots.
    Finished,
}

/// Why the directories of an attempt could not be had.
#[derive(Debug, PartialEq, Eq)]
pub enum DirectoryFailure {
    /// The job names no destination, and the system has no downloads directory.
    NoDownloadsDirectory,
    /// The destination could not be created.
    Target { reason: String },
    /// The staging directory could not be created.
    Staging { reason: String },
}

/// What happened outside.
#[derive(Debug, PartialEq, Eq)]
pub enum SupervisorEvent {
    /// The orchestrator admitted the job.
    Begin,
    DirectoryFailed { failure: DirectoryFailure },
    SpawnFailed { reason: String },
    Spawned { pid: u32 },
    /// The worker printed a line, on either of its streams.
    Line { text: String },
    /// The worker ended, every line it printed having been handed in.
    Exited { success: bool, code: Option<i32> },
    /// The staged output exists; `destination` is the path it will have.
    OutputLocated { destination: String },
    OutputMissing,
    /// The step of the move that was ordered is made.
    StepDone,
    StepFailed { reason: String },
}

/// What a supervisor tells the orchestrator.
#[derive(Debug, PartialEq, Eq)]
pub enum WorkerReport {
    Started { pid: u32 },
    Progress { percentage: u32, speed: String, eta: String, filename: Option<String>, phase: String },
    /// The worker needs the network no longer: the job gives back its network
    /// slot.
    NetworkReleased,
    Completed { output_path: String },
    Failed { error: String },
    /// The last report of every supervisor: the job gives back its process
    /// slot.
    Finished,
}

/// The view of a [`WorkerReport`].
pub enum ReportView {
    Started { pid: u32 },
    Progress {
        percentage: u32,
        speed: Seq<char>,
        eta: Seq<char>,
        filename: Option<Seq<char>>,
        phase: Seq<char>,
    },
    NetworkReleased,
    Completed { output_path: Seq<char> },
    Failed { error: Seq<char> },
    Finished,
}

impl View for WorkerReport {
    type V = ReportView;

    open spec fn view(&self) -> ReportView {
        match self {
            WorkerReport::Started { pid } => ReportView::Started { pid: *pid },
            WorkerReport::Progress { percentage, speed, eta, filename, phase } => {
                ReportView::Progress {
                    percentage: *percentage,
                    speed: speed@,
                    eta: eta@,
                    filename: optional_text(*filename),
                    phase: phase@,
                }
            },
            WorkerReport::Completed { output_path } => ReportView::Completed {
                output_path: output_path@,
            },
            WorkerReport::Failed { error } => ReportView::Failed { error: error@ },
            WorkerReport::NetworkReleased => ReportView::NetworkReleased,
            WorkerReport::Finished => ReportView::Finished,
        }
    }
}

impl WorkerReport {
    /// The message that carries this report to the orchestrator, for the job
    /// `id`.
    pub fn into_message(self, id: u128) -> (r: JobMessage)
        ensures
            match self {
                WorkerReport::Started { pid } => r == (JobMessage::ProcessStarted { id, pid }),
                WorkerReport::Progress { percentage, speed, eta, filename, phase } => r == (
                JobMessage::UpdateProgress { id, percentage, speed, eta, filename, phase }),
                WorkerReport::Completed { output_path } => r == (JobMessage::JobCompleted {
                    id,
                    output_path,
                }),
                WorkerReport::Failed { error } => r == (JobMessage::JobError { id, error }),
                WorkerReport::NetworkReleased => r == (JobMessage::NetworkReleased { id }),
                WorkerReport::Finished => r == JobMessage::WorkerFinished,
            },
    {
        match self {
            WorkerReport::Started { pid } => JobMessage::ProcessStarted { id, pid },
            WorkerReport::Progress { percentage, speed, eta, filename, phase } => {
                JobMessage::UpdateProgress { id, percentage, speed, eta, filename, phase }
            },
            WorkerReport::Completed { output_path } => JobMessage::JobCompleted { id, output_path },
            WorkerReport::Failed { error } => JobMessage::JobError { id, error },
            WorkerReport::NetworkReleased => JobMessage::NetworkReleased { id },
            WorkerReport::Finished => JobMessage::WorkerFinished,
        }
    }
}

/// What a supervisor orders.
#[derive(Debug, PartialEq, Eq)]
pub enum SupervisorCommand {
    /// Make the destination and the staging directory, then spawn the worker
    /// for `job` in staging.
    Launch { job: QueuedJob },
    /// Send a report to the orchestrator.
    Report(WorkerReport),
    /// Look for the staged file of this name.
    Locate { file_name: String },
    /// Rename the staged file of this name to its destination.
    Rename { file_name: String },
    /// Copy the staged file of this name to its destination.
    Copy { file_name: String },
    /// Remove the staged file of this name.
    Remove { file_name: String },
}

/// The view of a [`SupervisorCommand`].
pub enum CommandView {
    Launch { job: QueuedJob },
    Report(ReportView),
    Locate { file_name: Seq<char> },
    Rename { file_name: Seq<char> },
    Copy { file_name: Seq<char> },
    Remove { file_name: Seq<char> },
}

impl View for SupervisorCommand {
    type V = CommandView;

    open spec fn view(&self) -> CommandView {
        match self {
            SupervisorCommand::Launch { job } => CommandView::Launch { job: *job },
            SupervisorCommand::Report(report) => CommandView::Report(report@),
            SupervisorCommand::Locate { file_name } => CommandView::Locate { file_name: file_name@ },
            SupervisorCommand::Rename { file_name } => CommandView::Rename { file_name: file_name@ },
            SupervisorCommand::Copy { file_name } => CommandView::Copy { file_name: file_name@ },
            SupervisorCommand::Remove { file_name } => CommandView::Remove { file_name: file_name@ },
        }
    }
}

/// The views of a run of commands.
pub open spec fn command_views(commands: Seq<SupervisorCommand>) -> Seq<CommandView> {
    commands.map_values(|c: SupervisorCommand| c@)
}

/// The supervisor of one job.
#[derive(Debug)]
pub struct Supervisor {
    job: QueuedJob,
    stage: Stage,
    parser: ParserState,
    logs: LogBuffer,
    destination: Option<String>,
    network_released: bool,
    windows: bool,
}

/// The view of a [`Supervisor`].
pub struct SupervisorView {
    /// The job, with file names restricted once the attempt is a second one.
    pub job: QueuedJob,
    pub stage: Stage,
    pub parser: ParserView,
    /// The last lines of the attempt, trimmed, none of them empty.
    pub logs: Seq<Seq<char>>,
    /// Where the output goes, once it is located.
    pub destination: Option<Seq<char>>,
    /// Whether it was reported, in this attempt, that the job gives back its
    /// network slot.
    pub network_released: bool,
    /// Whether paths are read as Windows reads them.
    pub windows: bool,
}

impl View for Supervisor {
    type V = SupervisorView;

    closed spec fn view(&self) -> SupervisorView {
        SupervisorView {
            job: self.job,
            stage: self.stage,
            parser: self.parser@,
            logs: self.logs@,
            destination: optional_text(self.destination),
            network_released: self.network_released,
            windows: self.windows,
        }
    }
}

/// `s` at another stage.
pub open spec fn at_stage(s: SupervisorView, stage: Stage) -> SupervisorView {
    SupervisorView { stage, ..s }
}

/// The report that the network slot is given back, which is due where the
/// attempt has not made it before.
pub open spec fn release_due(s: SupervisorView) -> Seq<CommandView> {
    if s.network_released {
        Seq::empty()
    } else {
        seq![CommandView::Report(ReportView::NetworkReleased)]
    }
}

/// The end of a supervisor: the network slot is given back where the attempt
/// has not reported so before, then `last` is reported, then the process slot
/// is given back.
pub open spec fn closed_with(s: SupervisorView, last: ReportView) -> (
    SupervisorView,
    Seq<CommandView>,
) {
    (
        SupervisorView { stage: Stage::Finished, network_released: true, ..s },
        release_due(s) + seq![CommandView::Report(last), CommandView::Report(ReportView::Finished)],
    )
}

/// The end of a supervisor that failed, by [`closed_with`].
pub open spec fn failed(s: SupervisorView, error: Seq<char>) -> (SupervisorView, Seq<CommandView>) {
    closed_with(s, ReportView::Failed { error })
}

/// The end of a supervisor that delivered, by [`closed_with`]: what is
/// reported is where the output went.
pub open spec fn completed(s: SupervisorView) -> (SupervisorView, Seq<CommandView>) {
    closed_with(
        s,
        ReportView::Completed {
            output_path: match s.destination {
                Some(path) => path,
                None => Seq::empty(),
            },
        },
    )
}

/// What is said of a directory that could not be had.
pub open spec fn directory_failure_text(failure: DirectoryFailure) -> Seq<char> {
    match failure {
        DirectoryFailure::NoDownloadsDirectory => "Could not determine downloads directory."@,
        DirectoryFailure::Target { reason } => "Failed to create target directory: "@ + reason@,
        DirectoryFailure::Staging { reason } => "Failed to create temp directory: "@ + reason@,
    }
}

/// What is said of a worker that ended with a failure.
pub open spec fn worker_failure_text(code: Option<i32>, logs: Seq<Seq<char>>) -> Seq<char> {
    "yt-dlp exited with code "@ + signed_decimal(
        match code {
            Some(c) => c as int,
            None => -1,
        },
    ) + ".\nLast Logs:\n"@ + joined(logs, "\n"@)
}

/// What is said of an output that could not be moved.
pub open spec fn move_failure_text(reason: Seq<char>) -> Seq<char> {
    "Download successful, but failed to move to destination: "@ + reason
}

/// The first report of an attempt: of a process that starts, or of one that
/// starts again with restricted file names.
pub open spec fn opening_report(retry: bool) -> ReportView {
    if retry {
        ReportView::Progress {
            percentage: 0,
            speed: "Retrying..."@,
            eta: "--"@,
            filename: None,
            phase: "Sanitizing Filenames (Retry)"@,
        }
    } else {
        ReportView::Progress {
            percentage: 0,
            speed: "Starting..."@,
            eta: "Calculating..."@,
            filename: None,
            phase: "Initializing Process..."@,
        }
    }
}

/// The report that carries what the parser says of a line.
pub open spec fn progress_report(update: ProgressUpdateView) -> ReportView {
    ReportView::Progress {
        percentage: update.percentage,
        speed: update.speed,
        eta: update.eta,
        filename: update.filename,
        phase: update.phase.label_text(),
    }
}

/// Whether the output of an attempt shows a file name to be the reason of its
/// failure.
pub open spec fn shows_filename_failure(logs: Seq<Seq<char>>) -> bool {
    regex_matches(FILESYSTEM_ERROR_PATTERN@, joined(logs, "\n"@))
}

/// The job of a second attempt: the same, with file names restricted.
pub open spec fn restricted(job: QueuedJob) -> QueuedJob {
    QueuedJob {
        id: job.id,
        url: job.url,
        download_path: job.download_path,
        format_preset: job.format_preset,
        video_resolution: job.video_resolution,
        embed_metadata: job.embed_metadata,
        embed_thumbnail: job.embed_thumbnail,
        filename_template: job.filename_template,
        restrict_filenames: true,
    }
}

/// The name under which the output is staged; empty where none is on record.
pub open spec fn staged_name(s: SupervisorView) -> Seq<char> {
    match s.parser.final_filename {
        Some(name) => name,
        None => Seq::empty(),
    }
}

/// What a line of the given kind does to a supervisor whose worker runs: the
/// line is kept for a failure report, and the parser advances on its kind. At
/// the first line after which the worker needs the network no longer, the
/// network slot is given back, before anything else is reported and once in
/// the attempt. Then the parser's report, if any, is passed on. A supervisor
/// at another stage ignores the line.
pub open spec fn kept_line(s: SupervisorView, line: Seq<char>, kind: LineKindView) -> (
    SupervisorView,
    Seq<CommandView>,
) {
    if s.stage != Stage::Running {
        (s, Seq::empty())
    } else {
        let parsed = advance(s.parser, kind);
        let release: Seq<CommandView> = if parsed.0.network_done {
            release_due(s)
        } else {
            Seq::empty()
        };
        let report: Seq<CommandView> = match parsed.1 {
            Some(update) => seq![CommandView::Report(progress_report(update))],
            None => Seq::empty(),
        };
        (
            SupervisorView {
                parser: parsed.0,
                logs: last_lines(s.logs.push(line)),
                network_released: s.network_released || parsed.0.network_done,
                ..s
            },
            release + report,
        )
    }
}

/// What a line of output does to a supervisor: nothing where the line is
/// blank; else what [`kept_line`] says of the trimmed line and its kind.
pub open spec fn took_line(s: SupervisorView, text: Seq<char>) -> (
    SupervisorView,
    Seq<CommandView>,
) {
    let line = trimmed(text);
    if line.len() == 0 {
        (s, Seq::empty())
    } else {
        kept_line(s, line, kind_of(line, s.windows))
    }
}

/// What the end of the worker does to a supervisor whose worker runs. After a
/// success the output is looked for, under the name that the parser has on
/// record. After a failure the attempt is made again, from a fresh parser
/// state, without the lines kept and with no report on the network slot made,
/// where its file names were not restricted and a file name is the reason of
/// the failure; else the failure is reported. A supervisor at another stage
/// ignores it.
pub open spec fn ended(
    s: SupervisorView,
    success: bool,
    code: Option<i32>,
    filename_failure: bool,
) -> (SupervisorView, Seq<CommandView>) {
    if s.stage != Stage::Running {
        (s, Seq::empty())
    } else if success {
        match s.parser.final_filename {
            Some(name) => (
                at_stage(s, Stage::Locating),
                seq![CommandView::Locate { file_name: name }],
            ),
            None => failed(s, "Download finished, but filename could not be determined."@),
        }
    } else if !s.job.restrict_filenames && filename_failure {
        (
            SupervisorView {
                job: restricted(s.job),
                stage: Stage::Launching,
                parser: initial_view(),
                logs: Seq::empty(),
                network_released: false,
                ..s
            },
            seq![CommandView::Launch { job: restricted(s.job) }],
        )
    } else {
        failed(s, worker_failure_text(code, s.logs))
    }
}

/// What the end of the worker does to a supervisor: what [`ended`] says,
/// with [`shows_filename_failure`] for the reason.
pub open spec fn worker_exited(s: SupervisorView, success: bool, code: Option<i32>) -> (
    SupervisorView,
    Seq<CommandView>,
) {
    ended(s, success, code, shows_filename_failure(s.logs))
}

/// The state of a supervisor after an event, and what it orders. An event that
/// its stage does not expect changes nothing and orders nothing.
pub open spec fn react(s: SupervisorView, event: SupervisorEvent) -> (
    SupervisorView,
    Seq<CommandView>,
) {
    match (s.stage, event) {
        (Stage::Idle, SupervisorEvent::Begin) => (
            at_stage(s, Stage::Launching),
            seq![CommandView::Launch { job: s.job }],
        ),
        (Stage::Launching, SupervisorEvent::DirectoryFailed { failure }) => failed(
            s,
            directory_failure_text(failure),
        ),
        (Stage::Launching, SupervisorEvent::SpawnFailed { reason }) => failed(
            s,
            "Failed to spawn yt-dlp: "@ + reason@,
        ),
        (Stage::Launching, SupervisorEvent::Spawned { pid }) => (
            at_stage(s, Stage::Running),
            seq![
                CommandView::Report(ReportView::Started { pid }),
                CommandView::Report(opening_report(s.job.restrict_filenames)),
            ],
        ),
        (Stage::Running, SupervisorEvent::Line { text }) => took_line(s, text@),
        (Stage::Running, SupervisorEvent::Exited { success, code }) => worker_exited(
            s,
            success,
            code,
        ),
        (Stage::Locating, SupervisorEvent::OutputLocated { destination }) => (
            SupervisorView {
                stage: Stage::Moving(MoveStep::Rename),
                destination: Some(destination@),
                ..s
            },
            seq![CommandView::Rename { file_name: staged_name(s) }],
        ),
        (Stage::Locating, SupervisorEvent::OutputMissing) => failed(
            s,
            "Output file not found in temporary directory."@,
        ),
        (Stage::Moving(MoveStep::Rename), SupervisorEvent::StepDone) => completed(s),
        (Stage::Moving(MoveStep::Rename), SupervisorEvent::StepFailed { reason }) => (
            at_stage(s, Stage::Moving(MoveStep::Copy)),
            seq![CommandView::Copy { file_name: staged_name(s) }],
        ),
        (Stage::Moving(MoveStep::Copy), SupervisorEvent::StepDone) => (
            at_stage(s, Stage::Moving(MoveStep::Remove)),
            seq![CommandView::Remove { file_name: staged_name(s) }],
        ),
        (Stage::Moving(MoveStep::Copy), SupervisorEvent::StepFailed { reason }) => failed(
            s,
            move_failure_text(reason@),
        ),
        (Stage::Moving(MoveStep::Remove), SupervisorEvent::StepDone) => completed(s),
        (Stage::Moving(MoveStep::Remove), SupervisorEvent::StepFailed { reason }) => failed(
            s,
            move_failure_text(reason@),
        ),
        _ => (s, Seq::empty()),
    }
}

/// Whether the output of a failed worker shows a file name to be the reason.
pub fn is_filesystem_failure(output: &str) -> (r: bool)
    ensures
        r == regex_matches(FILESYSTEM_ERROR_PATTERN@, output@),
{
    is_match(FILESYSTEM_ERROR_PATTERN, output)
}

/// A text made of two parts.
fn two_part_text(first: &str, second: &str) -> (r: String)
    ensures
        r@ == first@ + second@,
{
    let mut out: Vec<char> = Vec::new();
    push_text(&mut out, first);
    push_text(&mut out, second);
    string_of(&out)
}

/// Writes [`directory_failure_text`].
pub fn directory_failure_message(failure: &DirectoryFailure) -> (r: String)
    ensures
        r@ == directory_failure_text(*failure),
{
    match failure {
        DirectoryFailure::NoDownloadsDirectory => {
            "Could not determine downloads directory.".to_owned()
        },
        DirectoryFailure::Target { reason } => two_part_text(
            "Failed to create target directory: ",
            reason.as_str(),
        ),
        DirectoryFailure::Staging { reason } => two_part_text(
            "Failed to create temp directory: ",
            reason.as_str(),
        ),
    }
}

/// Writes [`worker_failure_text`].
pub fn worker_failure_message(code: Option<i32>, logs: &LogBuffer) -> (r: String)
    ensures
        r@ == worker_failure_text(code, logs@),
{
    let mut out: Vec<char> = Vec::new();
    push_text(&mut out, "yt-dlp exited with code ");
    push_signed_decimal(
        &mut out,
        match code {
            Some(c) => c,
            None => -1,
        },
    );
    push_text(&mut out, ".\nLast Logs:\n");
    let blob = logs.join();
    push_text(&mut out, blob.as_str());
    assert(out@ =~= worker_failure_text(code, logs@));
    string_of(&out)
}

/// The report that carries what the parser says of a line.
pub fn report_of_update(update: ProgressUpdate) -> (r: WorkerReport)
    ensures
        r@ == progress_report(update@),
{
    WorkerReport::Progress {
        percentage: update.percentage,
        speed: update.speed,
        eta: update.eta,
        filename: update.filename,
        phase: update.phase.label().to_owned(),
    }
}

/// The first report of an attempt.
pub fn opening_report_of(retry: bool) -> (r: WorkerReport)
    ensures
        r@ == opening_report(retry),
{
    if retry {
        WorkerReport::Progress {
            percentage: 0,
            speed: "Retrying...".to_owned(),
            eta: "--".to_owned(),
            filename: None,
            phase: "Sanitizing Filenames (Retry)".to_owned(),
        }
    } else {
        WorkerReport::Progress {
            percentage: 0,
            speed: "Starting...".to_owned(),
            eta: "Calculating...".to_owned(),
            filename: None,
            phase: "Initializing Process...".to_owned(),
        }
    }
}

/// A run of one command.
fn one_command(command: SupervisorCommand) -> (r: Vec<SupervisorCommand>)
    ensures
        command_views(r@) == seq![command@],
{
    let mut out: Vec<SupervisorCommand> = Vec::new();
    out.push(command);
    assert(command_views(out@) =~= seq![command@]);
    out
}

/// A run of two commands.
fn two_commands(first: SupervisorCommand, second: SupervisorCommand) -> (r: Vec<
    SupervisorCommand,
>)
    ensures
        command_views(r@) == seq![first@, second@],
{
    let mut out: Vec<SupervisorCommand> = Vec::new();
    out.push(first);
    out.push(second);
    assert(command_views(out@) =~= seq![first@, second@]);
    out
}

/// A run of no command.
fn no_command() -> (r: Vec<SupervisorCommand>)
    ensures
        command_views(r@) == Seq::<CommandView>::empty(),
{
    let out: Vec<SupervisorCommand> = Vec::new();
    assert(command_views(out@) =~= Seq::<CommandView>::empty());
    out
}

impl Supervisor {
    /// The parser's percentage and the number of lines kept are within their
    /// bounds.
    pub closed spec fn wf(&self) -> bool {
        self.parser.wf() && self.logs.wf()
    }

    /// A supervisor for `job`, with nothing ordered yet and the network slot
    /// held. `windows` says whether paths are read as Windows reads them.
    pub fn new(job: QueuedJob, windows: bool) -> (r: Self)
        ensures
            r.wf(),
            r@ == (SupervisorView {
                job,
                stage: Stage::Idle,
                parser: initial_view(),
                logs: Seq::empty(),
                destination: None,
                network_released: false,
                windows,
            }),
    {
        Supervisor {
            job,
            stage: Stage::Idle,
            parser: ParserState::new(),
            logs: LogBuffer::new(),
            destination: None,
            network_released: false,
            windows,
        }
    }

    /// Whether this attempt has reported that the job gives back its network
    /// slot.
    pub fn network_released(&self) -> (r: bool)
        ensures
            r == self@.network_released,
    {
        self.network_released
    }

    /// Where the supervisor stands.
    pub fn stage(&self) -> (r: Stage)
        ensures
            r == self@.stage,
    {
        self.stage
    }

    /// The job, as the next launch takes it.
    pub fn job(&self) -> (r: &QueuedJob)
        ensures
            *r == self@.job,
    {
        &self.job
    }

    /// Whether the supervisor has given back its slots.
    pub fn is_finished(&self) -> (r: bool)
        ensures
            r == (self@.stage == Stage::Finished),
    {
        match self.stage {
            Stage::Finished => true,
            _ => false,
        }
    }

    /// Ends, by [`closed_with`].
    fn close(&mut self, last: WorkerReport) -> (r: Vec<SupervisorCommand>)
        requires
            old(self).wf(),
        ensures
            final(self).wf(),
            (final(self)@, command_views(r@)) == closed_with(old(self)@, last@),
    {
        let mut out = no_command();
        if !self.network_released {
            out.push(SupervisorCommand::Report(WorkerReport::NetworkReleased));
            assert(command_views(out@) =~= release_due(old(self)@));
        }
        let ghost release = command_views(out@);
        self.stage = Stage::Finished;
        self.network_released = true;
        out.push(SupervisorCommand::Report(last));
        out.push(SupervisorCommand::Report(WorkerReport::Finished));
        assert(command_views(out@) =~= release + seq![
            CommandView::Report(last@),
            CommandView::Report(ReportView::Finished),
        ]);
        out
    }

    /// Ends with a failure.
    fn fail(&mut self, error: String) -> (r: Vec<SupervisorCommand>)
        requires
            old(self).wf(),
        ensures
            final(self).wf(),
            (final(self)@, command_views(r@)) == failed(old(self)@, error@),
    {
        self.close(WorkerReport::Failed { error })
    }

    /// Ends with the output delivered.
    fn complete(&mut self) -> (r: Vec<SupervisorCommand>)
        requires
            old(self).wf(),
        ensures
            final(self).wf(),
            (final(self)@, command_views(r@)) == completed(old(self)@),
    {
        let output_path = match &self.destination {
            Some(path) => path.clone(),
            None => String::new(),
        };
        self.close(WorkerReport::Completed { output_path })
    }

    /// The name under which the output is staged.
    fn staged_file(&self) -> (r: String)
        ensures
            r@ == staged_name(self@),
    {
        match &self.parser.final_filename {
            Some(name) => name.clone(),
            None => String::new(),
        }
    }

    /// Takes a line of the given kind in, by [`kept_line`]. `line` is the line
    /// as it is kept for a failure report.
    pub fn keep_line(&mut self, line: String, kind: LineKind) -> (r: Vec<SupervisorCommand>)
        requires
            old(self).wf(),
        ensures
            final(self).wf(),
            (final(self)@, command_views(r@)) == kept_line(old(self)@, line@, kind@),
    {
        match self.stage {
            Stage::Running => {},
            _ => {
                return no_command();
            },
        }
        let update = self.parser.apply(kind);
        self.logs.push(line);
        let mut out = no_command();
        if self.parser.network_done {
            if !self.network_released {
                out.push(SupervisorCommand::Report(WorkerReport::NetworkReleased));
                assert(command_views(out@) =~= release_due(old(self)@));
            }
            self.network_released = true;
        }
        let ghost release = command_views(out@);
        match update {
            Some(u) => {
                let report = report_of_update(u);
                out.push(SupervisorCommand::Report(report));
                assert(command_views(out@) =~= release + seq![CommandView::Report(report@)]);
            },
            None => {
                assert(command_views(out@) =~= release + Seq::<CommandView>::empty());
            },
        }
        out
    }

    /// Takes a line of worker output in, by [`took_line`].
    fn take_line(&mut self, text: &str) -> (r: Vec<SupervisorCommand>)
        requires
            old(self).wf(),
        ensures
            final(self).wf(),
            (final(self)@, command_views(r@)) == took_line(old(self)@, text@),
    {
        let line = trim(text);
        if line.as_str().is_empty() {
            return no_command();
        }
        let kind = classify(line.as_str(), self.windows);
        self.keep_line(line, kind)
    }

    /// Whether the lines kept show a file name to be the reason of a failure.
    pub fn filename_failure(&self) -> (r: bool)
        ensures
            r == shows_filename_failure(self@.logs),
    {
        let blob = self.logs.join();
        is_filesystem_failure(blob.as_str())
    }

    /// Takes the end of the worker in, by [`ended`]. `filename_failure` says
    /// whether a file name is the reason of a failure.
    pub fn end_worker(&mut self, success: bool, code: Option<i32>, filename_failure: bool) -> (r:
        Vec<SupervisorCommand>)
        requires
            old(self).wf(),
        ensures
            final(self).wf(),
            (final(self)@, command_views(r@)) == ended(
                old(self)@,
                success,
                code,
                filename_failure,
            ),
    {
        match self.stage {
            Stage::Running => {},
            _ => {
                return no_command();
            },
        }
        if success {
            match &self.parser.final_filename {
                Some(name) => {
                    let file_name = name.clone();
                    self.stage = Stage::Locating;
                    one_command(SupervisorCommand::Locate { file_name })
                },
                None => self.fail(
                    "Download finished, but filename could not be determined.".to_owned(),
                ),
            }
        } else {
            if !self.job.restrict_filenames && filename_failure {
                self.job.restrict_filenames = true;
                self.stage = Stage::Launching;
                self.parser = ParserState::new();
                self.logs = LogBuffer::new();
                self.network_released = false;
                one_command(SupervisorCommand::Launch { job: self.job.clone() })
            } else {
                let error = worker_failure_message(code, &self.logs);
                self.fail(error)
            }
        }
    }

    /// Takes an event in, and says what to do next.
    pub fn step(&mut self, event: SupervisorEvent) -> (r: Vec<SupervisorCommand>)
        requires
            old(self).wf(),
        ensures
            final(self).wf(),
            final(self)@ == react(old(self)@, event).0,
            command_views(r@) == react(old(self)@, event).1,
    {
        match (self.stage, event) {
            (Stage::Idle, SupervisorEvent::Begin) => {
                self.stage = Stage::Launching;
                one_command(SupervisorCommand::Launch { job: self.job.clone() })
            },
            (Stage::Launching, SupervisorEvent::DirectoryFailed { failure }) => {
                let error = directory_failure_message(&failure);
                self.fail(error)
            },
            (Stage::Launching, SupervisorEvent::SpawnFailed { reason }) => {
                let error = two_part_text("Failed to spawn yt-dlp: ", reason.as_str());
                self.fail(error)
            },
            (Stage::Launching, SupervisorEvent::Spawned { pid }) => {
                self.stage = Stage::Running;
                two_commands(
                    SupervisorCommand::Report(WorkerReport::Started { pid }),
                    SupervisorCommand::Report(opening_report_of(self.job.restrict_filenames)),
                )
            },
            (Stage::Running, SupervisorEvent::Line { text }) => self.take_line(text.as_str()),
            (Stage::Running, SupervisorEvent::Exited { success, code }) => {
                let filename_failure = !success && self.filename_failure();
                self.end_worker(success, code, filename_failure)
            },
            (Stage::Locating, SupervisorEvent::OutputLocated { destination }) => {
                let file_name = self.staged_file();
                self.stage = Stage::Moving(MoveStep::Rename);
                self.destination = Some(destination);
                one_command(SupervisorCommand::Rename { file_name })
            },
            (Stage::Locating, SupervisorEvent::OutputMissing) => self.fail(
                "Output file not found in temporary directory.".to_owned(),
            ),
            (Stage::Moving(MoveStep::Rename), SupervisorEvent::StepDone) => self.complete(),
            (Stage::Moving(MoveStep::Rename), SupervisorEvent::StepFailed { reason }) => {
                let file_name = self.staged_file();
                self.stage = Stage::Moving(MoveStep::Copy);
                one_command(SupervisorCommand::Copy { file_name })
            },
            (Stage::Moving(MoveStep::Copy), SupervisorEvent::StepDone) => {
                let file_name = self.staged_file();
                self.stage = Stage::Moving(MoveStep::Remove);
                one_command(SupervisorCommand::Remove { file_name })
            },
            (Stage::Moving(MoveStep::Copy), SupervisorEvent::StepFailed { reason }) => {
                let error = two_part_text(
                    "Download successful, but failed to move to destination: ",
                    reason.as_str(),
                );
                self.fail(error)
            },
            (Stage::Moving(MoveStep::Remove), SupervisorEvent::StepDone) => self.complete(),
            (Stage::Moving(MoveStep::Remove), SupervisorEvent::StepFailed { reason }) => {
                let error = two_part_text(
                    "Download successful, but failed to move to destination: ",
                    reason.as_str(),
                );
                self.fail(error)
            },
            _ => no_command(),
        }
    }
}

/// A supervisor gives back its slots when it ends, and only then: the step
/// that ends it orders the last report last, and no other step orders it.
pub proof fn lemma_finished_is_reported_once(s: SupervisorView, event: SupervisorEvent)
    ensures
        s.stage != Stage::Finished && react(s, event).0.stage == Stage::Finished ==> react(
            s,
            event,
        ).1.len() > 0 && react(s, event).1.last() == CommandView::Report(ReportView::Finished),
        s.stage == Stage::Finished ==> react(s, event) == (s, Seq::<CommandView>::empty()),
        forall|i: int|
            0 <= i < react(s, event).1.len() && #[trigger] react(s, event).1[i]
                == CommandView::Report(ReportView::Finished) ==> s.stage != Stage::Finished
                && react(s, event).0.stage == Stage::Finished && i == react(s, event).1.len() - 1,
{
}

/// The network slot is given back once in an attempt: a step orders that
/// report at most once, first of all, and only where the attempt has not
/// ordered it before; once ordered it is on record until another attempt is
/// launched; and a supervisor that ends has ordered it in its last attempt,
/// before its last report.
pub proof fn lemma_network_slot_is_given_back_once(s: SupervisorView, event: SupervisorEvent)
    ensures
        s.network_released && !react(s, event).0.network_released ==> react(s, event).0.stage
            == Stage::Launching && react(s, event).1 == seq![
            CommandView::Launch { job: react(s, event).0.job },
        ],
        forall|i: int|
            0 <= i < react(s, event).1.len() && #[trigger] react(s, event).1[i]
                == CommandView::Report(ReportView::NetworkReleased) ==> !s.network_released
                && react(s, event).0.network_released && i == 0,
        s.stage != Stage::Finished && react(s, event).0.stage == Stage::Finished ==> react(
            s,
            event,
        ).0.network_released,
        react(s, event).0.network_released && !s.network_released ==> react(s, event).1.len() > 0
            && react(s, event).1[0] == CommandView::Report(ReportView::NetworkReleased),
{
}

/// A job is attempted twice at most: the second attempt restricts the file
/// names, and a supervisor whose job restricts them launches nothing once it
/// has begun.
pub proof fn lemma_one_retry(s: SupervisorView, event: SupervisorEvent)
    ensures
        forall|i: int|
            0 <= i < react(s, event).1.len() && #[trigger] react(s, event).1[i] is Launch
                && s.stage != Stage::Idle ==> !s.job.restrict_filenames && react(
                s,
                event,
            ).0.job.restrict_filenames,
{
}

} // verus!
