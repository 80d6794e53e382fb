use md_echo::config::ToolsConfig;
use md_echo::document::Document;
use md_echo::tool::{
    advance, format_report, start, start_format, start_lint, ToolEvent, ToolInvocation, ToolJob,
    ToolOutput, ToolPanel, ToolStep,
};

fn s(text: &str) -> String {
    text.to_string()
}

fn command(parts: &[&str]) -> Vec<String> {
    parts.iter().map(|part| part.to_string()).collect()
}

fn invocation(parts: &[&str], modifies_content: bool, use_open_file: bool) -> ToolInvocation {
    ToolInvocation { command: command(parts), modifies_content, use_open_file }
}

fn job(program: &str, arguments: &[&str], modifies_content: bool) -> ToolJob {
    ToolJob { program: s(program), arguments: command(arguments), modifies_content }
}

fn output(status: &str, success: bool, stdout: &[u8], stderr: &[u8]) -> ToolOutput {
    ToolOutput { status: s(status), success, stdout: stdout.to_vec(), stderr: stderr.to_vec() }
}

fn done(message: &str) -> ToolStep {
    ToolStep::Done { message: s(message) }
}

const SAVE_FIRST: &str =
    "Save before running this tool on the current file, or disable *_use_open_file.";
const NO_OPEN_FILE: &str =
    "No file is currently open. Save the document first or disable *_use_open_file.";

#[test]
fn empty_lint_command_is_reported_without_a_process() {
    let doc = Document::from_file(s("a.md"), s("# Hi"));
    let tools = ToolsConfig {
        lint: Some(Vec::new()),
        lint_use_open_file: false,
        format: None,
        format_use_open_file: false,
    };
    let step = start_lint(&doc, &tools);
    assert_eq!(step, done("Configured tool command is empty."));
}

#[test]
fn empty_command_is_refused_whatever_the_flags() {
    let mut doc = Document::from_file(s("a.md"), s("# Hi"));
    doc.set_content(s("changed"));
    for modifies in [false, true] {
        for open_file in [false, true] {
            let step = start(&doc, invocation(&[], modifies, open_file));
            assert_eq!(step, done("Configured tool command is empty."));
        }
    }
}

#[test]
fn format_on_unsaved_buffer_is_refused() {
    let mut doc = Document::from_file(s("a.md"), s("# Hi"));
    doc.set_content(s("# Hi there"));
    let tools = ToolsConfig {
        lint: None,
        lint_use_open_file: false,
        format: Some(command(&["rumdl", "fmt"])),
        format_use_open_file: true,
    };
    let step = start_format(&doc, &tools);
    assert_eq!(step, done(SAVE_FIRST));
    assert_eq!(doc.content(), "# Hi there");
    assert_eq!(doc.original_content(), "# Hi");
    assert!(doc.is_modified());
}

#[test]
fn refused_run_never_reaches_a_process() {
    let mut doc = Document::from_file(s("a.md"), s("# Hi"));
    doc.set_content(s("# Hi there"));
    let mut step = start(&doc, invocation(&["rumdl", "fmt"], true, true));
    assert_eq!(step, done(SAVE_FIRST));
    let events = [
        ToolEvent::IsFile(true),
        ToolEvent::TempCreated(Ok(s("/tmp/x.md"))),
        ToolEvent::Exited(Ok(output("ok", true, b"", b""))),
        ToolEvent::Read(Ok(s("rewritten"))),
    ];
    for event in events {
        step = advance(step, event, &mut doc);
        assert_eq!(step, done(SAVE_FIRST));
        assert_eq!(doc.content(), "# Hi there");
    }
}

#[test]
fn open_file_tool_needs_an_open_file() {
    let doc = Document::new();
    let step = start(&doc, invocation(&["rumdl", "check"], false, true));
    assert_eq!(step, done(NO_OPEN_FILE));
}

#[test]
fn open_file_tool_checks_the_path_first() {
    let doc = Document::from_file(s("notes/a.md"), s("# Hi"));
    let step = start(&doc, invocation(&["rumdl", "check", "--quiet"], false, true));
    assert_eq!(
        step,
        ToolStep::CheckIsFile { job: job("rumdl", &["check", "--quiet"], false), path: s("notes/a.md") }
    );
}

#[test]
fn path_that_is_no_file_is_reported() {
    let mut doc = Document::from_file(s("notes/a.md"), s("# Hi"));
    let step = start(&doc, invocation(&["rumdl", "check"], false, true));
    let step = advance(step, ToolEvent::IsFile(false), &mut doc);
    assert_eq!(step, done("Current file path 'notes/a.md' is not a file."));
}

#[test]
fn existing_file_becomes_the_final_argument() {
    let mut doc = Document::from_file(s("notes/a.md"), s("# Hi"));
    let step = start(&doc, invocation(&["rumdl", "check", "--quiet"], false, true));
    let step = advance(step, ToolEvent::IsFile(true), &mut doc);
    assert_eq!(
        step,
        ToolStep::Spawn {
            job: job("rumdl", &["check", "--quiet", "notes/a.md"], false),
            target: s("notes/a.md"),
        }
    );
}

#[test]
fn temp_copy_is_seeded_with_the_buffer() {
    let mut doc = Document::from_file(s("a.md"), s("# Hi"));
    doc.set_content(s("# Hi there"));
    let step = start(&doc, invocation(&["rumdl", "fmt"], true, false));
    assert_eq!(
        step,
        ToolStep::CreateTemp { job: job("rumdl", &["fmt"], true), content: s("# Hi there") }
    );
}

#[test]
fn temp_failure_is_reported() {
    let mut doc = Document::new();
    let step = start(&doc, invocation(&["rumdl", "fmt"], true, false));
    let step = advance(step, ToolEvent::TempCreated(Err(s("disk full"))), &mut doc);
    assert_eq!(step, done("Failed to prepare temp file: disk full"));
}

#[test]
fn spawn_failure_is_reported() {
    let mut doc = Document::new();
    let step = start(&doc, invocation(&["no-such-tool", "fmt"], true, false));
    let step = advance(step, ToolEvent::TempCreated(Ok(s("/tmp/t.md"))), &mut doc);
    let step = advance(step, ToolEvent::Exited(Err(s("No such file or directory"))), &mut doc);
    assert_eq!(step, done("Failed to run 'no-such-tool': No such file or directory"));
    assert_eq!(doc.content(), "");
}

#[test]
fn lint_run_reports_and_leaves_buffer_alone() {
    let mut doc = Document::from_file(s("a.md"), s("# Hi"));
    let tools = ToolsConfig::default();
    let step = start_lint(&doc, &tools);
    assert_eq!(step, ToolStep::CreateTemp { job: job("rumdl", &["check"], false), content: s("# Hi") });
    let step = advance(step, ToolEvent::TempCreated(Ok(s("/tmp/.tmpAbC.md"))), &mut doc);
    assert_eq!(
        step,
        ToolStep::Spawn {
            job: job("rumdl", &["check", "/tmp/.tmpAbC.md"], false),
            target: s("/tmp/.tmpAbC.md"),
        }
    );
    let left = output("ExitStatus(unix_wait_status(256))", false, b"", b"MD041 first line\n");
    let step = advance(step, ToolEvent::Exited(Ok(left)), &mut doc);
    assert_eq!(
        step,
        done(
            "$ rumdl check /tmp/.tmpAbC.md\nStatus: ExitStatus(unix_wait_status(256))\n\nstderr:\nMD041 first line\n"
        )
    );
    assert_eq!(doc.content(), "# Hi");
    assert!(!doc.is_modified());
}

#[test]
fn successful_lint_does_not_read_back() {
    let mut doc = Document::from_file(s("a.md"), s("# Hi"));
    let step = ToolStep::Spawn { job: job("rumdl", &["check", "/tmp/t.md"], false), target: s("/tmp/t.md") };
    let step = advance(step, ToolEvent::Exited(Ok(output("ok", true, b"fine", b""))), &mut doc);
    assert_eq!(step, done("$ rumdl check /tmp/t.md\nStatus: ok\n\nstdout:\nfine\n"));
}

#[test]
fn failed_format_does_not_read_back() {
    let mut doc = Document::from_file(s("a.md"), s("# Hi"));
    let step = ToolStep::Spawn { job: job("rumdl", &["fmt", "/tmp/t.md"], true), target: s("/tmp/t.md") };
    let step = advance(step, ToolEvent::Exited(Ok(output("failed", false, b"", b""))), &mut doc);
    assert_eq!(step, done("$ rumdl fmt /tmp/t.md\nStatus: failed\n"));
    assert_eq!(doc.content(), "# Hi");
}

#[test]
fn successful_format_updates_buffer_only() {
    let mut doc = Document::from_file(s("a.md"), s("#Hi"));
    let step = start(&doc, invocation(&["rumdl", "fmt"], true, false));
    let step = advance(step, ToolEvent::TempCreated(Ok(s("/tmp/t.md"))), &mut doc);
    let left = output("ExitStatus(unix_wait_status(0))", true, b"Fixed 1 issue\n\n", b"  \n");
    let step = advance(step, ToolEvent::Exited(Ok(left)), &mut doc);
    let report = "$ rumdl fmt /tmp/t.md\nStatus: ExitStatus(unix_wait_status(0))\n\nstdout:\nFixed 1 issue\n";
    assert_eq!(step, ToolStep::ReadBack { target: s("/tmp/t.md"), report: s(report) });
    assert_eq!(doc.content(), "#Hi");
    let step = advance(step, ToolEvent::Read(Ok(s("# Hi\n"))), &mut doc);
    assert_eq!(step, done(report));
    assert_eq!(doc.content(), "# Hi\n");
    assert_eq!(doc.original_content(), "#Hi");
    assert_eq!(doc.path(), Some(&s("a.md")));
    assert!(doc.is_modified());
}

#[test]
fn format_that_changes_nothing_leaves_buffer_unmodified() {
    let mut doc = Document::from_file(s("a.md"), s("# Hi\n"));
    let step = ToolStep::ReadBack { target: s("a.md"), report: s("report") };
    let step = advance(step, ToolEvent::Read(Ok(s("# Hi\n"))), &mut doc);
    assert_eq!(step, done("report"));
    assert_eq!(doc.content(), "# Hi\n");
    assert!(!doc.is_modified());
}

#[test]
fn format_that_restores_saved_text_clears_the_flag() {
    let mut doc = Document::from_file(s("a.md"), s("# Hi\n"));
    doc.set_content(s("#Hi"));
    let step = ToolStep::ReadBack { target: s("/tmp/t.md"), report: s("report") };
    let _ = advance(step, ToolEvent::Read(Ok(s("# Hi\n"))), &mut doc);
    assert_eq!(doc.content(), "# Hi\n");
    assert!(!doc.is_modified());
}

#[test]
fn read_back_failure_is_noted_in_the_report() {
    let mut doc = Document::from_file(s("a.md"), s("#Hi"));
    let step = ToolStep::ReadBack { target: s("/tmp/t.md"), report: s("$ rumdl fmt /tmp/t.md\nStatus: ok\n") };
    let step = advance(step, ToolEvent::Read(Err(s("gone"))), &mut doc);
    assert_eq!(
        step,
        done("$ rumdl fmt /tmp/t.md\nStatus: ok\n\nFormat note: failed to read formatter output (/tmp/t.md): gone\n")
    );
    assert_eq!(doc.content(), "#Hi");
    assert!(!doc.is_modified());
}

#[test]
fn event_that_answers_nothing_is_ignored() {
    let mut doc = Document::from_file(s("a.md"), s("# Hi"));
    let step = advance(
        ToolStep::CheckIsFile { job: job("rumdl", &["check"], false), path: s("a.md") },
        ToolEvent::Read(Ok(s("other"))),
        &mut doc,
    );
    assert_eq!(step, ToolStep::CheckIsFile { job: job("rumdl", &["check"], false), path: s("a.md") });
    let step = advance(
        ToolStep::Spawn { job: job("rumdl", &["check", "a.md"], false), target: s("a.md") },
        ToolEvent::IsFile(true),
        &mut doc,
    );
    assert_eq!(step, ToolStep::Spawn { job: job("rumdl", &["check", "a.md"], false), target: s("a.md") });
    let step = advance(
        ToolStep::ReadBack { target: s("a.md"), report: s("r") },
        ToolEvent::TempCreated(Ok(s("/tmp/t.md"))),
        &mut doc,
    );
    assert_eq!(step, ToolStep::ReadBack { target: s("a.md"), report: s("r") });
    assert_eq!(doc.content(), "# Hi");
}

#[test]
fn unconfigured_tools_say_so() {
    let doc = Document::new();
    let tools = ToolsConfig {
        lint: None,
        lint_use_open_file: true,
        format: None,
        format_use_open_file: true,
    };
    assert_eq!(
        start_lint(&doc, &tools),
        done("No lint command configured. Add a [tools] lint entry to config.toml.")
    );
    assert_eq!(
        start_format(&doc, &tools),
        done("No format command configured. Add a [tools] format entry to config.toml.")
    );
}

#[test]
fn configured_flags_reach_the_run() {
    let doc = Document::from_file(s("a.md"), s("# Hi"));
    let tools = ToolsConfig {
        lint: Some(command(&["mdl"])),
        lint_use_open_file: true,
        format: Some(command(&["prettier", "--write"])),
        format_use_open_file: false,
    };
    assert_eq!(
        start_lint(&doc, &tools),
        ToolStep::CheckIsFile { job: job("mdl", &[], false), path: s("a.md") }
    );
    assert_eq!(
        start_format(&doc, &tools),
        ToolStep::CreateTemp { job: job("prettier", &["--write"], true), content: s("# Hi") }
    );
}

#[test]
fn job_splits_the_command_line() {
    assert_eq!(ToolJob::of(invocation(&[], true, true)), None);
    assert_eq!(ToolJob::of(invocation(&["tool"], true, false)), Some(job("tool", &[], true)));
    assert_eq!(
        ToolJob::of(invocation(&["tool", "-a", "b c"], false, true)),
        Some(job("tool", &["-a", "b c"], false))
    );
}

#[test]
fn command_line_is_joined_by_single_spaces() {
    assert_eq!(job("rumdl", &[], false).command_line(), "rumdl");
    assert_eq!(job("rumdl", &["fmt", "/tmp/a b.md"], false).command_line(), "rumdl fmt /tmp/a b.md");
}

#[test]
fn report_has_sections_for_streams_that_say_something() {
    assert_eq!(format_report("t a.md", "ok", "", ""), "$ t a.md\nStatus: ok\n");
    assert_eq!(format_report("t a.md", "ok", " \n\t", "\n"), "$ t a.md\nStatus: ok\n");
    assert_eq!(
        format_report("t a.md", "ok", "  out  \n\n", ""),
        "$ t a.md\nStatus: ok\n\nstdout:\n  out\n"
    );
    assert_eq!(
        format_report("t a.md", "ok", "", "err\n"),
        "$ t a.md\nStatus: ok\n\nstderr:\nerr\n"
    );
    assert_eq!(
        format_report("t a.md", "exit status: 1", "one\ntwo\n", "\nthree \n"),
        "$ t a.md\nStatus: exit status: 1\n\nstdout:\none\ntwo\n\nstderr:\n\nthree\n"
    );
}

#[test]
fn streams_are_decoded_lossily() {
    let left = output("ok", true, &[0x66, 0x6f, 0xff, 0x6f, 0x0a], &[0xc3, 0xa9, 0x0a]);
    assert_eq!(
        job("t", &["a.md"], false).report(&left),
        "$ t a.md\nStatus: ok\n\nstdout:\nfo\u{fffd}o\n\nstderr:\n\u{e9}\n"
    );
}

#[test]
fn panel_shows_and_closes() {
    let mut panel = ToolPanel::new();
    assert_eq!(panel.output, None);
    assert!(!panel.visible);
    panel.show(s("report"));
    assert_eq!(panel.output, Some(s("report")));
    assert!(panel.visible);
    panel.close();
    assert_eq!(panel.output, Some(s("report")));
    assert!(!panel.visible);
}
