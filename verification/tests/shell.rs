use md_echo::config::{ThemeConfig, ToolsConfig};
use md_echo::document::{Document, SaveTarget};
use md_echo::shell::{shortcut, status_label, Effect, ExitChoice, Intent, IntentQueue, Key, Shell};
use md_echo::tool::{ToolJob, ToolStep};

fn s(text: &str) -> String {
    text.to_string()
}

fn modified_doc() -> Document {
    let mut doc = Document::from_file(s("a.md"), s("# Hi"));
    doc.set_content(s("# Hi there"));
    doc
}

#[test]
fn shortcuts_follow_the_key_map() {
    assert_eq!(shortcut(Key::Q, true, false), Some(Intent::Exit));
    assert_eq!(shortcut(Key::Q, true, true), Some(Intent::Exit));
    assert_eq!(shortcut(Key::N, true, false), Some(Intent::New));
    assert_eq!(shortcut(Key::O, true, false), Some(Intent::Open));
    assert_eq!(shortcut(Key::S, true, false), Some(Intent::Save));
    assert_eq!(shortcut(Key::S, true, true), Some(Intent::SaveAs));
    assert_eq!(shortcut(Key::L, true, true), Some(Intent::Lint));
    assert_eq!(shortcut(Key::F, true, true), Some(Intent::Format));
}

#[test]
fn keys_without_their_modifiers_are_no_shortcuts() {
    for key in [Key::Q, Key::N, Key::O, Key::S, Key::L, Key::F] {
        assert_eq!(shortcut(key, false, false), None);
        assert_eq!(shortcut(key, false, true), None);
    }
    assert_eq!(shortcut(Key::L, true, false), None);
    assert_eq!(shortcut(Key::F, true, false), None);
}

#[test]
fn queue_is_first_in_first_out() {
    let mut queue = IntentQueue::new();
    assert!(queue.is_empty());
    assert_eq!(queue.pop(), None);
    queue.push(Intent::Save);
    queue.push(Intent::Lint);
    queue.push(Intent::Save);
    assert_eq!(queue.len(), 3);
    assert_eq!(queue.pop(), Some(Intent::Save));
    assert_eq!(queue.pop(), Some(Intent::Lint));
    queue.push(Intent::Exit);
    assert_eq!(queue.pop(), Some(Intent::Save));
    assert_eq!(queue.pop(), Some(Intent::Exit));
    assert_eq!(queue.pop(), None);
    assert!(queue.is_empty());
}

#[test]
fn presses_and_clicks_are_handled_in_order() {
    let mut shell = Shell::new();
    let mut doc = Document::from_file(s("a.md"), s("# Hi"));
    let tools = ToolsConfig::default();
    shell.press(Key::S, true, false);
    shell.press(Key::L, false, false);
    shell.request(Intent::Open);
    shell.press(Key::Q, true, false);
    assert_eq!(shell.intents.len(), 3);
    assert_eq!(
        shell.handle_next(&mut doc, &tools),
        Some(Effect::Save { target: SaveTarget::Existing(s("a.md")), then_exit: false })
    );
    assert_eq!(shell.handle_next(&mut doc, &tools), Some(Effect::PickFile));
    assert_eq!(shell.handle_next(&mut doc, &tools), Some(Effect::Exit));
    assert_eq!(shell.handle_next(&mut doc, &tools), None);
}

#[test]
fn new_on_saved_buffer_resets_at_once() {
    let mut shell = Shell::new();
    let mut doc = Document::from_file(s("a.md"), s("# Hi"));
    let effect = shell.dispatch(Intent::New, &mut doc, &ToolsConfig::default());
    assert_eq!(effect, Effect::Nothing);
    assert_eq!(doc.content(), "");
    assert_eq!(doc.path(), None);
    assert_eq!(shell.confirming, None);
}

#[test]
fn destructive_intents_wait_on_a_modified_buffer() {
    for intent in [Intent::New, Intent::Open, Intent::Exit] {
        let mut shell = Shell::new();
        let mut doc = modified_doc();
        let effect = shell.dispatch(intent, &mut doc, &ToolsConfig::default());
        if intent == Intent::Exit {
            assert_eq!(effect, Effect::ConfirmExit);
        } else {
            assert_eq!(effect, Effect::ConfirmDiscard(intent));
        }
        assert_eq!(shell.confirming, Some(intent));
        assert_eq!(doc.content(), "# Hi there");
        assert!(doc.is_modified());
    }
}

#[test]
fn confirmed_new_discards_the_buffer() {
    let mut shell = Shell::new();
    let mut doc = modified_doc();
    shell.dispatch(Intent::New, &mut doc, &ToolsConfig::default());
    assert_eq!(shell.confirm_discard(true, &mut doc), Effect::Nothing);
    assert_eq!(shell.confirming, None);
    assert_eq!(doc.content(), "");
    assert!(!doc.is_modified());
}

#[test]
fn declined_new_keeps_the_buffer() {
    let mut shell = Shell::new();
    let mut doc = modified_doc();
    shell.dispatch(Intent::New, &mut doc, &ToolsConfig::default());
    assert_eq!(shell.confirm_discard(false, &mut doc), Effect::Nothing);
    assert_eq!(shell.confirming, None);
    assert_eq!(doc.content(), "# Hi there");
    assert!(doc.is_modified());
}

#[test]
fn confirmed_open_picks_a_file() {
    let mut shell = Shell::new();
    let mut doc = modified_doc();
    shell.dispatch(Intent::Open, &mut doc, &ToolsConfig::default());
    assert_eq!(shell.confirm_discard(true, &mut doc), Effect::PickFile);
    assert_eq!(shell.confirming, None);
    assert_eq!(doc.content(), "# Hi there");
}

#[test]
fn tree_click_reads_the_file_when_nothing_is_lost() {
    let mut shell = Shell::new();
    let doc = Document::from_file(s("a.md"), s("# Hi"));
    assert_eq!(shell.open_path(s("b.md"), &doc), Effect::ReadFile(s("b.md")));
    assert_eq!(shell.confirming, None);
    assert_eq!(shell.chosen_path, None);
}

#[test]
fn tree_click_on_modified_buffer_remembers_the_file() {
    let mut shell = Shell::new();
    let mut doc = modified_doc();
    assert_eq!(shell.open_path(s("b.md"), &doc), Effect::ConfirmDiscard(Intent::Open));
    assert_eq!(shell.confirming, Some(Intent::Open));
    assert_eq!(shell.chosen_path, Some(s("b.md")));
    assert_eq!(shell.confirm_discard(true, &mut doc), Effect::ReadFile(s("b.md")));
    assert_eq!(shell.confirming, None);
    assert_eq!(shell.chosen_path, None);
}

#[test]
fn declined_tree_click_forgets_the_file() {
    let mut shell = Shell::new();
    let mut doc = modified_doc();
    shell.open_path(s("b.md"), &doc);
    assert_eq!(shell.confirm_discard(false, &mut doc), Effect::Nothing);
    assert_eq!(shell.chosen_path, None);
    shell.dispatch(Intent::Open, &mut doc, &ToolsConfig::default());
    assert_eq!(shell.confirm_discard(true, &mut doc), Effect::PickFile);
}

#[test]
fn answers_without_a_question_do_nothing() {
    let mut shell = Shell::new();
    let mut doc = modified_doc();
    assert_eq!(shell.confirm_discard(true, &mut doc), Effect::Nothing);
    assert_eq!(shell.confirm_exit(ExitChoice::DiscardAndExit, &doc), Effect::Nothing);
    assert_eq!(doc.content(), "# Hi there");
    shell.dispatch(Intent::Exit, &mut doc, &ToolsConfig::default());
    assert_eq!(shell.confirm_discard(true, &mut doc), Effect::Nothing);
    assert_eq!(shell.confirming, Some(Intent::Exit));
    assert_eq!(doc.content(), "# Hi there");
}

#[test]
fn exit_choices() {
    let tools = ToolsConfig::default();
    let mut doc = modified_doc();

    let mut shell = Shell::new();
    shell.dispatch(Intent::Exit, &mut doc, &tools);
    assert_eq!(
        shell.confirm_exit(ExitChoice::SaveAndExit, &doc),
        Effect::Save { target: SaveTarget::Existing(s("a.md")), then_exit: true }
    );
    assert_eq!(shell.confirming, None);

    shell.dispatch(Intent::Exit, &mut doc, &tools);
    assert_eq!(shell.confirm_exit(ExitChoice::DiscardAndExit, &doc), Effect::Exit);
    assert_eq!(shell.confirming, None);

    shell.dispatch(Intent::Exit, &mut doc, &tools);
    assert_eq!(shell.confirm_exit(ExitChoice::Cancel, &doc), Effect::Nothing);
    assert_eq!(shell.confirming, None);
    assert_eq!(doc.content(), "# Hi there");
}

#[test]
fn save_and_exit_on_untitled_buffer_prompts() {
    let mut shell = Shell::new();
    let mut doc = Document::new();
    doc.set_content(s("draft"));
    shell.dispatch(Intent::Exit, &mut doc, &ToolsConfig::default());
    assert_eq!(
        shell.confirm_exit(ExitChoice::SaveAndExit, &doc),
        Effect::Save { target: SaveTarget::Prompt, then_exit: true }
    );
}

#[test]
fn save_intents() {
    let mut shell = Shell::new();
    let tools = ToolsConfig::default();
    let mut titled = modified_doc();
    assert_eq!(
        shell.dispatch(Intent::Save, &mut titled, &tools),
        Effect::Save { target: SaveTarget::Existing(s("a.md")), then_exit: false }
    );
    assert_eq!(
        shell.dispatch(Intent::SaveAs, &mut titled, &tools),
        Effect::Save { target: SaveTarget::Prompt, then_exit: false }
    );
    let mut untitled = Document::new();
    assert_eq!(
        shell.dispatch(Intent::Save, &mut untitled, &tools),
        Effect::Save { target: SaveTarget::Prompt, then_exit: false }
    );
    assert_eq!(shell.confirming, None);
}

#[test]
fn tool_intents_start_a_run() {
    let mut shell = Shell::new();
    let tools = ToolsConfig::default();
    let mut doc = modified_doc();
    let lint = shell.dispatch(Intent::Lint, &mut doc, &tools);
    assert_eq!(
        lint,
        Effect::RunTool(ToolStep::CreateTemp {
            job: ToolJob { program: s("rumdl"), arguments: vec![s("check")], modifies_content: false },
            content: s("# Hi there"),
        })
    );
    let format = shell.dispatch(Intent::Format, &mut doc, &tools);
    assert_eq!(
        format,
        Effect::RunTool(ToolStep::CreateTemp {
            job: ToolJob { program: s("rumdl"), arguments: vec![s("fmt")], modifies_content: true },
            content: s("# Hi there"),
        })
    );
    assert_eq!(doc.content(), "# Hi there");
}

#[test]
fn theme_is_handed_out_once() {
    let mut shell = Shell::new();
    let theme = ThemeConfig::default();
    let first = shell.ensure_theme(&theme);
    assert_eq!(first, Some(theme.to_visuals()));
    assert!(shell.theme_applied);
    assert_eq!(shell.ensure_theme(&theme), None);
    assert_eq!(shell.ensure_theme(&theme), None);
}

#[test]
fn status_label_marks_modified_buffers() {
    let untitled = Document::new();
    assert_eq!(status_label(&untitled), "\u{1F7E2} Untitled");
    let saved = Document::from_file(s("notes/a.md"), s("# Hi"));
    assert_eq!(status_label(&saved), "\u{1F7E2} notes/a.md");
    assert_eq!(status_label(&modified_doc()), "\u{1F7E1} a.md");
}
