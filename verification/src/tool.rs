//! Running an external lint or format tool on the document.
//!
//! The library decides and the host acts. A run is a chain of [`ToolStep`]s:
//! each step but the last asks the host for one effect (look at a path, make
//! a temporary file, run a process, read a file), and [`advance`] turns the
//! outcome of that effect into the next step. The last step carries the
//! message for the output view. No outcome aborts the session, and only a
//! successful read-back of a tool that modifies content changes the buffer.

use crate::config::ToolsConfig;
use crate::document::{Document, DocumentView};
use crate::text::{
    blank, decode_lossy, is_blank, join, join_spec, trim_end, trim_end_spec, utf8_lossy,
};
use vstd::prelude::*;

verus! {

/// A configured tool: its command line and how it is to be run.
#[derive(Debug, PartialEq, Eq)]
pub struct ToolInvocation {
    /// The executable, followed by its fixed arguments.
    pub command: Vec<String>,
    /// Whether the tool rewrites the file it is run on.
    pub modifies_content: bool,
    /// Whether the tool runs on the open file itself, not on a temporary copy.
    pub use_open_file: bool,
}

/// The process to run, once the command line is known to have an executable.
#[derive(Debug, PartialEq, Eq)]
pub struct ToolJob {
    pub program: String,
    /// The arguments after the executable. In [`ToolStep::Spawn`] the target
    /// path is the last of them.
    pub arguments: Vec<String>,
    pub modifies_content: bool,
}

/// What a finished process left behind.
#[derive(Debug, PartialEq, Eq)]
pub struct ToolOutput {
    /// The exit status, as it is to be shown.
    pub status: String,
    /// Whether the process exited successfully.
    pub success: bool,
    pub stdout: Vec<u8>,
    pub stderr: Vec<u8>,
}

/// Where a run stands, and what the host has to do next.
#[derive(Debug, PartialEq, Eq)]
pub enum ToolStep {
    /// Find out whether `path` is a regular file.
    CheckIsFile { job: ToolJob, path: String },
    /// Create a fresh temporary markdown file holding `content`.
    CreateTemp { job: ToolJob, content: String },
    /// Run `job.program` with `job.arguments`, which end in `target`.
    Spawn { job: ToolJob, target: String },
    /// Read the file at `target`.
    ReadBack { target: String, report: String },
    /// The run is over: show `message`.
    Done { message: String },
}

/// The outcome of the effect that a step asked for.
#[derive(Debug, PartialEq, Eq)]
pub enum ToolEvent {
    /// Whether the path is a regular file.
    IsFile(bool),
    /// The path of the temporary file, or why there is none.
    TempCreated(Result<String, String>),
    /// What the process left behind, or why it did not run.
    Exited(Result<ToolOutput, String>),
    /// The text of the file, or why it could not be read.
    Read(Result<String, String>),
}

/// A configured tool as a mathematical value.
pub struct ToolInvocationView {
    pub command: Seq<Seq<char>>,
    pub modifies_content: bool,
    pub use_open_file: bool,
}

/// A job as a mathematical value.
pub struct ToolJobView {
    pub program: Seq<char>,
    pub arguments: Seq<Seq<char>>,
    pub modifies_content: bool,
}

/// What a finished process left behind, as a mathematical value.
pub struct ToolOutputView {
    pub status: Seq<char>,
    pub success: bool,
    pub stdout: Seq<u8>,
    pub stderr: Seq<u8>,
}

/// A step of a run as a mathematical value.
pub enum ToolStepView {
    CheckIsFile { job: ToolJobView, path: Seq<char> },
    CreateTemp { job: ToolJobView, content: Seq<char> },
    Spawn { job: ToolJobView, target: Seq<char> },
    ReadBack { target: Seq<char>, report: Seq<char> },
    Done { message: Seq<char> },
}

/// The outcome of an effect as a mathematical value.
pub enum ToolEventView {
    IsFile(bool),
    TempCreated(Result<Seq<char>, Seq<char>>),
    Exited(Result<ToolOutputView, Seq<char>>),
    Read(Result<Seq<char>, Seq<char>>),
}

impl View for ToolInvocation {
    type V = ToolInvocationView;

    open spec fn view(&self) -> ToolInvocationView {
        ToolInvocationView {
            command: self.command.deep_view(),
            modifies_content: self.modifies_content,
            use_open_file: self.use_open_file,
        }
    }
}

impl View for ToolJob {
    type V = ToolJobView;

    open spec fn view(&self) -> ToolJobView {
        ToolJobView {
            program: self.program@,
            arguments: self.arguments.deep_view(),
            modifies_content: self.modifies_content,
        }
    }
}

impl View for ToolOutput {
    type V = ToolOutputView;

    open spec fn view(&self) -> ToolOutputView {
        ToolOutputView {
            status: self.status@,
            success: self.success,
            stdout: self.stdout@,
            stderr: self.stderr@,
        }
    }
}

impl View for ToolStep {
    type V = ToolStepView;

    open spec fn view(&self) -> ToolStepView {
        match self {
            ToolStep::CheckIsFile { job, path } => ToolStepView::CheckIsFile {
                job: job@,
                path: path@,
            },
            ToolStep::CreateTemp { job, content } => ToolStepView::CreateTemp {
                job: job@,
                content: content@,
            },
            ToolStep::Spawn { job, target } => ToolStepView::Spawn { job: job@, target: target@ },
            ToolStep::ReadBack { target, report } => ToolStepView::ReadBack {
                target: target@,
                report: report@,
            },
            ToolStep::Done { message } => ToolStepView::Done { message: message@ },
        }
    }
}

impl View for ToolEvent {
    type V = ToolEventView;

    open spec fn view(&self) -> ToolEventView {
        match self {
            ToolEvent::IsFile(is_file) => ToolEventView::IsFile(*is_file),
            ToolEvent::TempCreated(Ok(path)) => ToolEventView::TempCreated(Ok(path@)),
            ToolEvent::TempCreated(Err(error)) => ToolEventView::TempCreated(Err(error@)),
            ToolEvent::Exited(Ok(output)) => ToolEventView::Exited(Ok(output@)),
            ToolEvent::Exited(Err(error)) => ToolEventView::Exited(Err(error@)),
            ToolEvent::Read(Ok(text)) => ToolEventView::Read(Ok(text@)),
            ToolEvent::Read(Err(error)) => ToolEventView::Read(Err(error@)),
        }
    }
}

/// Shown when the configured command line has no executable.
pub open spec fn empty_command_message() -> Seq<char> {
    "Configured tool command is empty."@
}

/// Shown when a tool is to run on the open file while the buffer has unsaved
/// changes.
pub open spec fn save_first_message() -> Seq<char> {
    "Save before running this tool on the current file, or disable *_use_open_file."@
}

/// Shown when a tool is to run on the open file and no file is open.
pub open spec fn no_open_file_message() -> Seq<char> {
    "No file is currently open. Save the document first or disable *_use_open_file."@
}

/// Shown when no lint command is configured.
pub open spec fn no_lint_message() -> Seq<char> {
    "No lint command configured. Add a [tools] lint entry to config.toml."@
}

/// Shown when no format command is configured.
pub open spec fn no_format_message() -> Seq<char> {
    "No format command configured. Add a [tools] format entry to config.toml."@
}

/// Shown when the document's path does not name a regular file.
pub open spec fn not_a_file_message(path: Seq<char>) -> Seq<char> {
    "Current file path '"@ + path + "' is not a file."@
}

/// Shown when the temporary file could not be made.
pub open spec fn temp_failure_message(error: Seq<char>) -> Seq<char> {
    "Failed to prepare temp file: "@ + error
}

/// Shown when the process could not be started.
pub open spec fn run_failure_message(program: Seq<char>, error: Seq<char>) -> Seq<char> {
    "Failed to run '"@ + program + "': "@ + error
}

/// Added to the report when the file that a tool rewrote could not be read.
pub open spec fn read_back_note(target: Seq<char>, error: Seq<char>) -> Seq<char> {
    "\nFormat note: failed to read formatter output ("@ + target + "): "@ + error + "\n"@
}

/// One captured stream under its heading, or nothing if the stream is blank.
/// The white space at the end of the stream is dropped.
pub open spec fn stream_section(heading: Seq<char>, stream: Seq<char>) -> Seq<char> {
    if is_blank(stream) {
        Seq::empty()
    } else {
        "\n"@ + heading + ":\n"@ + trim_end_spec(stream) + "\n"@
    }
}

/// The report of a finished process: the command line, the exit status, and
/// whatever the process wrote to its two streams.
pub open spec fn report_spec(
    command_line: Seq<char>,
    status: Seq<char>,
    stdout: Seq<char>,
    stderr: Seq<char>,
) -> Seq<char> {
    "$ "@ + command_line + "\n"@ + "Status: "@ + status + "\n"@ + stream_section(
        "stdout"@,
        stdout,
    ) + stream_section("stderr"@, stderr)
}

impl ToolJobView {
    /// The job for a command line that has an executable.
    pub open spec fn of(invocation: ToolInvocationView) -> ToolJobView
        recommends
            invocation.command.len() > 0,
    {
        ToolJobView {
            program: invocation.command[0],
            arguments: invocation.command.drop_first(),
            modifies_content: invocation.modifies_content,
        }
    }

    /// The job with `target` appended as its final argument.
    pub open spec fn aimed_at(self, target: Seq<char>) -> ToolJobView {
        ToolJobView { arguments: self.arguments.push(target), ..self }
    }

    /// The executable and its arguments, as one line.
    pub open spec fn command_line(self) -> Seq<char> {
        join_spec(seq![self.program] + self.arguments, " "@)
    }

    /// The report of this job, given what the process left behind.
    pub open spec fn report(self, output: ToolOutputView) -> Seq<char> {
        report_spec(
            self.command_line(),
            output.status,
            utf8_lossy(output.stdout),
            utf8_lossy(output.stderr),
        )
    }
}

/// The first step of a run.
///
/// A command line without an executable is a configuration error. A tool that
/// runs on the open file needs a buffer without unsaved changes and a document
/// that has a path; whether the path is a file is the host's to find out. Any
/// other tool gets a temporary copy of the buffer.
pub open spec fn start_spec(doc: DocumentView, invocation: ToolInvocationView) -> ToolStepView {
    if invocation.command.len() == 0 {
        ToolStepView::Done { message: empty_command_message() }
    } else if invocation.use_open_file {
        if doc.modified {
            ToolStepView::Done { message: save_first_message() }
        } else {
            match doc.path {
                Some(path) => ToolStepView::CheckIsFile { job: ToolJobView::of(invocation), path },
                None => ToolStepView::Done { message: no_open_file_message() },
            }
        }
    } else {
        ToolStepView::CreateTemp { job: ToolJobView::of(invocation), content: doc.content }
    }
}

/// The first step of a run of a tool that may not be configured at all.
pub open spec fn start_configured_spec(
    doc: DocumentView,
    command: Option<Seq<Seq<char>>>,
    modifies_content: bool,
    use_open_file: bool,
    unconfigured: Seq<char>,
) -> ToolStepView {
    match command {
        Some(command) => start_spec(
            doc,
            ToolInvocationView { command, modifies_content, use_open_file },
        ),
        None => ToolStepView::Done { message: unconfigured },
    }
}

/// The step that follows `step` once `event` is known.
///
/// An event that does not answer what the step asked for changes nothing.
pub open spec fn next_step_spec(
    step: ToolStepView,
    event: ToolEventView,
) -> ToolStepView {
    match (step, event) {
        (ToolStepView::CheckIsFile { job, path }, ToolEventView::IsFile(is_file)) => {
            if is_file {
                ToolStepView::Spawn { job: job.aimed_at(path), target: path }
            } else {
                ToolStepView::Done { message: not_a_file_message(path) }
            }
        },
        (ToolStepView::CreateTemp { job, content }, ToolEventView::TempCreated(Ok(path))) => {
            ToolStepView::Spawn { job: job.aimed_at(path), target: path }
        },
        (ToolStepView::CreateTemp { job, content }, ToolEventView::TempCreated(Err(error))) => {
            ToolStepView::Done { message: temp_failure_message(error) }
        },
        (ToolStepView::Spawn { job, target }, ToolEventView::Exited(Ok(output))) => {
            if job.modifies_content && output.success {
                ToolStepView::ReadBack { target, report: job.report(output) }
            } else {
                ToolStepView::Done { message: job.report(output) }
            }
        },
        (ToolStepView::Spawn { job, target }, ToolEventView::Exited(Err(error))) => {
            ToolStepView::Done { message: run_failure_message(job.program, error) }
        },
        (ToolStepView::ReadBack { target, report }, ToolEventView::Read(Ok(text))) => {
            ToolStepView::Done { message: report }
        },
        (ToolStepView::ReadBack { target, report }, ToolEventView::Read(Err(error))) => {
            ToolStepView::Done { message: report + read_back_note(target, error) }
        },
        _ => step,
    }
}

/// The document after `event` answered `step`: the buffer takes the text that
/// was read back if it differs from the buffer's own, and nothing else ever
/// changes the document.
pub open spec fn next_document_spec(
    step: ToolStepView,
    event: ToolEventView,
    doc: DocumentView,
) -> DocumentView {
    match (step, event) {
        (ToolStepView::ReadBack { target, report }, ToolEventView::Read(Ok(text))) => {
            if text != doc.content {
                doc.edited(text)
            } else {
                doc
            }
        },
        _ => doc,
    }
}

/// A tool that is to run on the open file while the buffer has unsaved changes
/// is refused at once: the run is over before any process is asked for, and
/// no event brings it back.
pub proof fn lemma_unsaved_buffer_is_refused(
    doc: DocumentView,
    invocation: ToolInvocationView,
    event: ToolEventView,
)
    requires
        invocation.use_open_file,
        doc.modified,
    ensures
        start_spec(doc, invocation) is Done,
        next_step_spec(start_spec(doc, invocation), event) == start_spec(doc, invocation),
        next_document_spec(start_spec(doc, invocation), event, doc) == doc,
{
}

/// A run that is over stays over, and the document with it.
pub proof fn lemma_done_is_final(message: Seq<char>, event: ToolEventView, doc: DocumentView)
    ensures
        next_step_spec(ToolStepView::Done { message }, event) == (ToolStepView::Done { message }),
        next_document_spec(ToolStepView::Done { message }, event, doc) == doc,
{
}

/// The first step never asks for a process: a process is only asked for once
/// the target is known to exist.
pub proof fn lemma_start_never_spawns(doc: DocumentView, invocation: ToolInvocationView)
    ensures
        !(start_spec(doc, invocation) is Spawn),
        !(start_spec(doc, invocation) is ReadBack),
{
}

/// When a tool that modifies content exits successfully and the target file
/// then holds a text that differs from the buffer, the buffer takes that text,
/// the flag is recomputed, and the saved text and the path stay untouched.
pub proof fn lemma_successful_rewrite_updates_buffer(
    job: ToolJobView,
    target: Seq<char>,
    output: ToolOutputView,
    text: Seq<char>,
    doc: DocumentView,
)
    requires
        job.modifies_content,
        output.success,
        text != doc.content,
    ensures
        ({
            let spawn = ToolStepView::Spawn { job, target };
            let exited = ToolEventView::Exited(Ok(output));
            let read = ToolEventView::Read(Ok(text));
            let after_exit = next_step_spec(spawn, exited);
            let after_read = next_document_spec(after_exit, read, doc);
            &&& after_exit == (ToolStepView::ReadBack { target, report: job.report(output) })
            &&& next_document_spec(spawn, exited, doc) == doc
            &&& next_step_spec(after_exit, read) == (ToolStepView::Done {
                message: job.report(output),
            })
            &&& after_read.content == text
            &&& after_read.original_content == doc.original_content
            &&& after_read.path == doc.path
            &&& after_read.modified == (text != doc.original_content)
        }),
{
}

/// No step of a run touches the saved text or the path, and a consistent
/// document stays consistent: a failed or half-finished run cannot corrupt
/// the buffer.
pub proof fn lemma_run_preserves_saved_state(
    step: ToolStepView,
    event: ToolEventView,
    doc: DocumentView,
)
    requires
        doc.consistent(),
    ensures
        next_document_spec(step, event, doc).original_content == doc.original_content,
        next_document_spec(step, event, doc).path == doc.path,
        next_document_spec(step, event, doc).consistent(),
        !(step is ReadBack && event is Read) ==> next_document_spec(step, event, doc) == doc,
{
}

/// Formats the report of a finished process.
pub fn format_report(command_line: &str, status: &str, stdout: &str, stderr: &str) -> (report:
    String)
    ensures
        report@ == report_spec(command_line@, status@, stdout@, stderr@),
{
    let mut report = String::from_str("$ ");
    report.append(command_line);
    report.append("\n");
    report.append("Status: ");
    report.append(status);
    report.append("\n");
    append_section(&mut report, "stdout", stdout);
    append_section(&mut report, "stderr", stderr);
    report
}

fn append_section(report: &mut String, heading: &str, stream: &str)
    ensures
        final(report)@ == old(report)@ + stream_section(heading@, stream@),
{
    if !blank(stream) {
        let ghost before = report@;
        report.append("\n");
        report.append(heading);
        report.append(":\n");
        report.append(trim_end(stream));
        report.append("\n");
        proof {
            assert(report@ =~= before + stream_section(heading@, stream@));
        }
    } else {
        proof {
            assert(report@ =~= report@ + stream_section(heading@, stream@));
        }
    }
}

impl ToolJob {
    /// Splits a command line into its executable and the arguments after it.
    /// There is no job for a command line without an executable.
    pub fn of(invocation: ToolInvocation) -> (job: Option<ToolJob>)
        ensures
            match job {
                Some(job) => invocation@.command.len() > 0 && job@ == ToolJobView::of(
                    invocation@,
                ),
                None => invocation@.command.len() == 0,
            },
    {
        let ToolInvocation { command, modifies_content, use_open_file: _ } = invocation;
        let mut arguments = command;
        if arguments.len() == 0 {
            return None;
        }
        let ghost full = arguments.deep_view();
        let program = arguments.remove(0);
        proof {
            assert(arguments.deep_view() =~= full.drop_first());
        }
        Some(ToolJob { program, arguments, modifies_content })
    }

    /// The executable and its arguments, joined by single spaces.
    pub fn command_line(&self) -> (line: String)
        ensures
            line@ == self@.command_line(),
    {
        let mut parts: Vec<String> = Vec::new();
        parts.push(self.program.clone());
        let mut i: usize = 0;
        while i < self.arguments.len()
            invariant
                i <= self.arguments.len(),
                parts.deep_view() == seq![self.program@] + self.arguments.deep_view().take(
                    i as int,
                ),
            decreases self.arguments.len() - i,
        {
            let ghost before = parts.deep_view();
            parts.push(self.arguments[i].clone());
            proof {
                assert(parts.deep_view() =~= before.push(self.arguments[i as int]@));
                assert(parts.deep_view() =~= seq![self.program@] + self.arguments.deep_view().take(
                    i + 1,
                ));
            }
            i = i + 1;
        }
        proof {
            assert(self.arguments.deep_view().take(self.arguments.len() as int)
                =~= self.arguments.deep_view());
        }
        join(&parts, " ")
    }

    fn aimed_at(self, target: &str) -> (job: ToolJob)
        ensures
            job@ == self@.aimed_at(target@),
    {
        let ToolJob { program, arguments, modifies_content } = self;
        let mut arguments = arguments;
        let ghost before = arguments.deep_view();
        arguments.push(String::from_str(target));
        proof {
            assert(arguments.deep_view() =~= before.push(target@));
        }
        ToolJob { program, arguments, modifies_content }
    }

    /// Formats the report of this job from what the process left behind. The
    /// two streams are decoded as UTF-8, lossily.
    pub fn report(&self, output: &ToolOutput) -> (report: String)
        ensures
            report@ == self@.report(output@),
    {
        let line = self.command_line();
        let stdout = decode_lossy(output.stdout.as_slice());
        let stderr = decode_lossy(output.stderr.as_slice());
        format_report(line.as_str(), output.status.as_str(), stdout.as_str(), stderr.as_str())
    }
}

fn done(message: &str) -> (step: ToolStep)
    ensures
        step@ == (ToolStepView::Done { message: message@ }),
{
    ToolStep::Done { message: String::from_str(message) }
}

/// Begins a run of `invocation` on the document.
pub fn start(doc: &Document, invocation: ToolInvocation) -> (step: ToolStep)
    ensures
        step@ == start_spec(doc@, invocation@),
{
    let use_open_file = invocation.use_open_file;
    let job = match ToolJob::of(invocation) {
        Some(job) => job,
        None => {
            return done("Configured tool command is empty.");
        },
    };
    if use_open_file {
        if doc.is_modified() {
            return done(
                "Save before running this tool on the current file, or disable *_use_open_file.",
            );
        }
        match doc.path() {
            Some(path) => ToolStep::CheckIsFile { job, path: path.clone() },
            None => done(
                "No file is currently open. Save the document first or disable *_use_open_file.",
            ),
        }
    } else {
        ToolStep::CreateTemp { job, content: doc.content().clone() }
    }
}

/// Begins a run of the configured lint command, which leaves the content
/// alone. Without such a command the run is over at once.
pub fn start_lint(doc: &Document, tools: &ToolsConfig) -> (step: ToolStep)
    ensures
        step@ == start_configured_spec(
            doc@,
            tools@.lint,
            false,
            tools@.lint_use_open_file,
            no_lint_message(),
        ),
{
    match &tools.lint {
        Some(command) => start(
            doc,
            ToolInvocation {
                command: command.clone(),
                modifies_content: false,
                use_open_file: tools.lint_use_open_file,
            },
        ),
        None => done("No lint command configured. Add a [tools] lint entry to config.toml."),
    }
}

/// Begins a run of the configured format command, which may rewrite the
/// content. Without such a command the run is over at once.
pub fn start_format(doc: &Document, tools: &ToolsConfig) -> (step: ToolStep)
    ensures
        step@ == start_configured_spec(
            doc@,
            tools@.format,
            true,
            tools@.format_use_open_file,
            no_format_message(),
        ),
{
    match &tools.format {
        Some(command) => start(
            doc,
            ToolInvocation {
                command: command.clone(),
                modifies_content: true,
                use_open_file: tools.format_use_open_file,
            },
        ),
        None => done("No format command configured. Add a [tools] format entry to config.toml."),
    }
}

/// Takes in the outcome of what `step` asked for and gives the next step.
/// The document changes only when the text that a tool rewrote is read back.
pub fn advance(step: ToolStep, event: ToolEvent, doc: &mut Document) -> (next: ToolStep)
    ensures
        next@ == next_step_spec(step@, event@),
        final(doc)@ == next_document_spec(step@, event@, old(doc)@),
{
    match (step, event) {
        (ToolStep::CheckIsFile { job, path }, ToolEvent::IsFile(is_file)) => {
            if is_file {
                let job = job.aimed_at(path.as_str());
                ToolStep::Spawn { job, target: path }
            } else {
                let mut message = String::from_str("Current file path '");
                message.append(path.as_str());
                message.append("' is not a file.");
                ToolStep::Done { message }
            }
        },
        (ToolStep::CreateTemp { job, content: _ }, ToolEvent::TempCreated(Ok(path))) => {
            let job = job.aimed_at(path.as_str());
            ToolStep::Spawn { job, target: path }
        },
        (ToolStep::CreateTemp { job: _, content: _ }, ToolEvent::TempCreated(Err(error))) => {
            let mut message = String::from_str("Failed to prepare temp file: ");
            message.append(error.as_str());
            ToolStep::Done { message }
        },
        (ToolStep::Spawn { job, target }, ToolEvent::Exited(Ok(output))) => {
            let report = job.report(&output);
            if job.modifies_content && output.success {
                ToolStep::ReadBack { target, report }
            } else {
                ToolStep::Done { message: report }
            }
        },
        (ToolStep::Spawn { job, target: _ }, ToolEvent::Exited(Err(error))) => {
            let mut message = String::from_str("Failed to run '");
            message.append(job.program.as_str());
            message.append("': ");
            message.append(error.as_str());
            ToolStep::Done { message }
        },
        (ToolStep::ReadBack { target: _, report }, ToolEvent::Read(Ok(text))) => {
            if text != *doc.content() {
                doc.set_content(text);
            }
            ToolStep::Done { message: report }
        },
        (ToolStep::ReadBack { target, report }, ToolEvent::Read(Err(error))) => {
            let mut message = report;
            let ghost before = message@;
            message.append("\nFormat note: failed to read formatter output (");
            message.append(target.as_str());
            message.append("): ");
            message.append(error.as_str());
            message.append("\n");
            proof {
                assert(message@ =~= before + read_back_note(target@, error@));
            }
            ToolStep::Done { message }
        },
        (step, _) => step,
    }
}

/// The output view: the message of the last tool run, and whether the view is
/// open.
#[derive(Debug, PartialEq, Eq)]
pub struct ToolPanel {
    pub output: Option<String>,
    pub visible: bool,
}

impl Default for ToolPanel {
    fn default() -> (panel: ToolPanel)
        ensures
            panel.output is None,
            !panel.visible,
    {
        ToolPanel::new()
    }
}

impl ToolPanel {
    /// A closed view without a message.
    pub fn new() -> (panel: ToolPanel)
        ensures
            panel.output is None,
            !panel.visible,
    {
        ToolPanel { output: None, visible: false }
    }

    /// Puts `message` into the view and opens it.
    pub fn show(&mut self, message: String)
        ensures
            final(self).output == Some(message),
            final(self).visible,
    {
        self.output = Some(message);
        self.visible = true;
    }

    /// Closes the view; the message stays.
    pub fn close(&mut self)
        ensures
            final(self).output == old(self).output,
            !final(self).visible,
    {
        self.visible = false;
    }
}

} // verus!
