//! The application shell: what the user asks for, and what is to be done
//! about it.
//!
//! Menu clicks and keyboard shortcuts become [`Intent`]s. They wait in a
//! queue that is drained once per frame, first in, first out. Handling an
//! intent never performs an effect; it yields an [`Effect`] for the host to
//! carry out. An intent that would throw unsaved changes away is held back
//! until the user has answered for it.

use crate::config::{option_text, ThemeConfig, ToolsConfig, ToolsConfigView};
use crate::document::{Document, DocumentView, SaveTarget};
use crate::theme::{realises, Visuals};
use crate::tool::{
    no_format_message, no_lint_message, start_configured_spec, start_format, start_lint, ToolStep,
    ToolStepView,
};
use std::collections::VecDeque;
use vstd::prelude::*;

verus! {

/// What the user asks for.
#[derive(Clone, Copy, Debug, PartialEq, Eq, Structural)]
pub enum Intent {
    New,
    Open,
    Save,
    SaveAs,
    Exit,
    Lint,
    Format,
}

/// The keys that carry a shortcut.
#[derive(Clone, Copy, Debug, PartialEq, Eq, Structural)]
pub enum Key {
    Q,
    N,
    O,
    S,
    L,
    F,
}

/// The answers to "save before exiting?".
#[derive(Clone, Copy, Debug, PartialEq, Eq, Structural)]
pub enum ExitChoice {
    SaveAndExit,
    DiscardAndExit,
    Cancel,
}

/// What the host has to do.
#[derive(Debug, PartialEq, Eq)]
pub enum Effect {
    Nothing,
    /// Ask whether the unsaved changes may be discarded for this intent, and
    /// bring the answer to [`Shell::confirm_discard`].
    ConfirmDiscard(Intent),
    /// Ask whether to save before exiting, and bring the answer to
    /// [`Shell::confirm_exit`].
    ConfirmExit,
    /// Let the user pick a file, read it, and bring the outcome to
    /// [`Document::open`].
    PickFile,
    /// Read this file and bring the outcome to [`Document::open`].
    ReadFile(String),
    /// Write the content to the target, asking for a destination first if the
    /// target is a prompt, and bring the outcome to [`Document::finish_save`].
    /// With `then_exit`, leave afterwards whatever came of it.
    Save { target: SaveTarget, then_exit: bool },
    /// Drive this tool run to its end and show its message.
    RunTool(ToolStep),
    /// Leave.
    Exit,
}

/// An effect as a mathematical value.
pub enum EffectView {
    Nothing,
    ConfirmDiscard(Intent),
    ConfirmExit,
    PickFile,
    ReadFile(Seq<char>),
    Save { target: Option<Seq<char>>, then_exit: bool },
    RunTool(ToolStepView),
    Exit,
}

impl View for Effect {
    type V = EffectView;

    open spec fn view(&self) -> EffectView {
        match self {
            Effect::Nothing => EffectView::Nothing,
            Effect::ConfirmDiscard(intent) => EffectView::ConfirmDiscard(*intent),
            Effect::ConfirmExit => EffectView::ConfirmExit,
            Effect::PickFile => EffectView::PickFile,
            Effect::ReadFile(path) => EffectView::ReadFile(path@),
            Effect::Save { target, then_exit } => EffectView::Save {
                target: target@,
                then_exit: *then_exit,
            },
            Effect::RunTool(step) => EffectView::RunTool(step@),
            Effect::Exit => EffectView::Exit,
        }
    }
}

/// The intent behind a key press: Ctrl+Q exit, Ctrl+N new, Ctrl+O open,
/// Ctrl+S save, Ctrl+Shift+S save as, Ctrl+Shift+L lint, Ctrl+Shift+F format.
pub open spec fn shortcut_spec(key: Key, ctrl: bool, shift: bool) -> Option<Intent> {
    if !ctrl {
        None
    } else {
        match key {
            Key::Q => Some(Intent::Exit),
            Key::N => Some(Intent::New),
            Key::O => Some(Intent::Open),
            Key::S => if shift {
                Some(Intent::SaveAs)
            } else {
                Some(Intent::Save)
            },
            Key::L => if shift {
                Some(Intent::Lint)
            } else {
                None
            },
            Key::F => if shift {
                Some(Intent::Format)
            } else {
                None
            },
        }
    }
}

/// Whether an intent would throw the buffer away.
pub open spec fn is_destructive(intent: Intent) -> bool {
    intent is New || intent is Open || intent is Exit
}

/// Whether an intent has to wait for the user's word: it would throw the
/// buffer away, and the buffer has unsaved changes.
pub open spec fn needs_confirmation(doc: DocumentView, intent: Intent) -> bool {
    doc.modified && is_destructive(intent)
}

/// What is to be done about an intent that has the user's word, or needs
/// none. Starting a new document is done on the spot and leaves nothing to do.
pub open spec fn proceed_spec(doc: DocumentView, tools: ToolsConfigView, intent: Intent) -> EffectView {
    match intent {
        Intent::New => EffectView::Nothing,
        Intent::Open => EffectView::PickFile,
        Intent::Exit => EffectView::Exit,
        Intent::Save => EffectView::Save { target: doc.save_target(false), then_exit: false },
        Intent::SaveAs => EffectView::Save { target: doc.save_target(true), then_exit: false },
        Intent::Lint => EffectView::RunTool(
            start_configured_spec(
                doc,
                tools.lint,
                false,
                tools.lint_use_open_file,
                no_lint_message(),
            ),
        ),
        Intent::Format => EffectView::RunTool(
            start_configured_spec(
                doc,
                tools.format,
                true,
                tools.format_use_open_file,
                no_format_message(),
            ),
        ),
    }
}

/// What is to be done about an intent.
pub open spec fn dispatch_spec(doc: DocumentView, tools: ToolsConfigView, intent: Intent) -> EffectView {
    if needs_confirmation(doc, intent) {
        if intent is Exit {
            EffectView::ConfirmExit
        } else {
            EffectView::ConfirmDiscard(intent)
        }
    } else {
        proceed_spec(doc, tools, intent)
    }
}

/// The document after an intent was carried out: a new document is empty,
/// and no other intent touches the buffer by itself.
pub open spec fn carried_out(doc: DocumentView, intent: Intent) -> DocumentView {
    if intent is New {
        DocumentView::blank()
    } else {
        doc
    }
}

/// The document after an intent was dispatched.
pub open spec fn dispatch_document(doc: DocumentView, intent: Intent) -> DocumentView {
    if needs_confirmation(doc, intent) {
        doc
    } else {
        carried_out(doc, intent)
    }
}

/// The status line: a marker that tells a modified buffer from a saved one,
/// and the document's path, or `Untitled`.
pub open spec fn status_label_spec(doc: DocumentView) -> Seq<char> {
    (if doc.modified {
        "🟡 "@
    } else {
        "🟢 "@
    }) + (match doc.path {
        Some(path) => path,
        None => "Untitled"@,
    })
}

/// No destructive intent goes ahead on a modified buffer without the user's
/// word: it yields a question, and the buffer stays as it is.
pub proof fn lemma_unsaved_changes_are_guarded(
    doc: DocumentView,
    tools: ToolsConfigView,
    intent: Intent,
)
    requires
        doc.modified,
        is_destructive(intent),
    ensures
        dispatch_spec(doc, tools, intent) is ConfirmExit || dispatch_spec(doc, tools, intent)
            is ConfirmDiscard,
        dispatch_document(doc, intent) == doc,
{
}

/// The intent behind a key press, if the key press is a shortcut.
pub fn shortcut(key: Key, ctrl: bool, shift: bool) -> (intent: Option<Intent>)
    ensures
        intent == shortcut_spec(key, ctrl, shift),
{
    if !ctrl {
        return None;
    }
    match key {
        Key::Q => Some(Intent::Exit),
        Key::N => Some(Intent::New),
        Key::O => Some(Intent::Open),
        Key::S => if shift {
            Some(Intent::SaveAs)
        } else {
            Some(Intent::Save)
        },
        Key::L => if shift {
            Some(Intent::Lint)
        } else {
            None
        },
        Key::F => if shift {
            Some(Intent::Format)
        } else {
            None
        },
    }
}

/// The status line for a document.
pub fn status_label(doc: &Document) -> (label: String)
    ensures
        label@ == status_label_spec(doc@),
{
    let mut label = if doc.is_modified() {
        String::from_str("🟡 ")
    } else {
        String::from_str("🟢 ")
    };
    match doc.path() {
        Some(path) => label.append(path.as_str()),
        None => label.append("Untitled"),
    }
    label
}

/// The intents that wait to be handled, oldest first.
pub struct IntentQueue {
    waiting: VecDeque<Intent>,
}

impl View for IntentQueue {
    type V = Seq<Intent>;

    closed spec fn view(&self) -> Seq<Intent> {
        self.waiting@
    }
}

impl Default for IntentQueue {
    fn default() -> (queue: IntentQueue)
        ensures
            queue@ == Seq::<Intent>::empty(),
    {
        IntentQueue::new()
    }
}

impl IntentQueue {
    /// An empty queue.
    pub fn new() -> (queue: IntentQueue)
        ensures
            queue@ == Seq::<Intent>::empty(),
    {
        IntentQueue { waiting: VecDeque::new() }
    }

    /// How many intents wait.
    pub fn len(&self) -> (len: usize)
        ensures
            len == self@.len(),
    {
        self.waiting.len()
    }

    /// Whether no intent waits.
    pub fn is_empty(&self) -> (empty: bool)
        ensures
            empty == (self@.len() == 0),
    {
        self.waiting.len() == 0
    }

    /// Puts an intent behind those that wait already.
    pub fn push(&mut self, intent: Intent)
        ensures
            final(self)@ == old(self)@.push(intent),
    {
        self.waiting.push_back(intent);
    }

    /// Takes the intent that has waited longest.
    pub fn pop(&mut self) -> (intent: Option<Intent>)
        ensures
            old(self)@.len() == 0 ==> intent is None && final(self)@ == old(self)@,
            old(self)@.len() > 0 ==> intent == Some(old(self)@.first()) && final(self)@ == old(
                self,
            )@.drop_first(),
    {
        self.waiting.pop_front()
    }
}

/// The shell's own state.
pub struct Shell {
    /// The intents that wait for the next frame.
    pub intents: IntentQueue,
    /// The destructive intent that waits for the user's word, if any.
    pub confirming: Option<Intent>,
    /// The file that a waiting open is to read; without one the user picks.
    pub chosen_path: Option<String>,
    /// Whether the theme was handed to the host already.
    pub theme_applied: bool,
}

/// The shell's state as a mathematical value.
pub struct ShellView {
    pub intents: Seq<Intent>,
    pub confirming: Option<Intent>,
    pub chosen_path: Option<Seq<char>>,
    pub theme_applied: bool,
}

impl View for Shell {
    type V = ShellView;

    open spec fn view(&self) -> ShellView {
        ShellView {
            intents: self.intents@,
            confirming: self.confirming,
            chosen_path: option_text(self.chosen_path),
            theme_applied: self.theme_applied,
        }
    }
}

impl ShellView {
    /// A shell with nothing pending.
    pub open spec fn idle() -> ShellView {
        ShellView {
            intents: Seq::empty(),
            confirming: None,
            chosen_path: None,
            theme_applied: false,
        }
    }

    /// The shell with one more intent waiting.
    pub open spec fn queued(self, intent: Intent) -> ShellView {
        ShellView { intents: self.intents.push(intent), ..self }
    }

    /// The shell after an intent was dispatched: an intent that needs the
    /// user's word takes the place of whatever waited for it before.
    pub open spec fn dispatched(self, doc: DocumentView, intent: Intent) -> ShellView {
        if needs_confirmation(doc, intent) {
            ShellView { confirming: Some(intent), chosen_path: None, ..self }
        } else {
            self
        }
    }

    /// The shell after a click on a file in the tree: on a modified buffer
    /// the open waits for the user's word and remembers the file.
    pub open spec fn path_chosen(self, doc: DocumentView, path: Seq<char>) -> ShellView {
        if doc.modified {
            ShellView { confirming: Some(Intent::Open), chosen_path: Some(path), ..self }
        } else {
            self
        }
    }

    /// Whether a new or open intent waits for the user's word.
    pub open spec fn awaits_discard(self) -> bool {
        self.confirming == Some(Intent::New) || self.confirming == Some(Intent::Open)
    }

    /// Whether an exit waits for the user's word.
    pub open spec fn awaits_exit(self) -> bool {
        self.confirming == Some(Intent::Exit)
    }

    /// The shell once the user has answered: nothing waits any more.
    pub open spec fn answered(self) -> ShellView {
        ShellView { confirming: None, chosen_path: None, ..self }
    }

    /// What is to be done once the user has answered "discard unsaved
    /// changes?" for the intent that waits.
    pub open spec fn discard_effect(self, discard: bool) -> EffectView {
        if self.awaits_discard() && discard && self.confirming == Some(Intent::Open) {
            match self.chosen_path {
                Some(path) => EffectView::ReadFile(path),
                None => EffectView::PickFile,
            }
        } else {
            EffectView::Nothing
        }
    }

    /// The document once the user has answered "discard unsaved changes?".
    pub open spec fn discard_document(self, discard: bool, doc: DocumentView) -> DocumentView {
        if discard && self.confirming == Some(Intent::New) {
            DocumentView::blank()
        } else {
            doc
        }
    }

    /// What is to be done once the user has answered "save before exiting?".
    pub open spec fn exit_effect(self, choice: ExitChoice, doc: DocumentView) -> EffectView {
        if self.awaits_exit() {
            match choice {
                ExitChoice::SaveAndExit => EffectView::Save {
                    target: doc.save_target(false),
                    then_exit: true,
                },
                ExitChoice::DiscardAndExit => EffectView::Exit,
                ExitChoice::Cancel => EffectView::Nothing,
            }
        } else {
            EffectView::Nothing
        }
    }
}

/// Intents are handled in the order in which they were asked for: what is
/// queued behind a run of waiting intents comes out after them.
pub proof fn lemma_queue_is_fifo(shell: ShellView, first: Intent, second: Intent)
    ensures
        shell.queued(first).queued(second).intents == shell.intents + seq![first, second],
        shell.intents.len() == 0 ==> shell.queued(first).queued(second).intents.first() == first,
{
    assert(shell.queued(first).queued(second).intents =~= shell.intents + seq![first, second]);
}

impl Default for Shell {
    fn default() -> (shell: Shell)
        ensures
            shell@ == ShellView::idle(),
    {
        Shell::new()
    }
}

impl Shell {
    /// A shell with nothing pending.
    pub fn new() -> (shell: Shell)
        ensures
            shell@ == ShellView::idle(),
    {
        Shell { intents: IntentQueue::new(), confirming: None, chosen_path: None, theme_applied: false }
    }

    /// Takes in a key press: if it is a shortcut, its intent joins the queue.
    pub fn press(&mut self, key: Key, ctrl: bool, shift: bool)
        ensures
            final(self)@ == (match shortcut_spec(key, ctrl, shift) {
                Some(intent) => old(self)@.queued(intent),
                None => old(self)@,
            }),
    {
        match shortcut(key, ctrl, shift) {
            Some(intent) => self.intents.push(intent),
            None => {},
        }
    }

    /// Takes in a menu click: its intent joins the queue.
    pub fn request(&mut self, intent: Intent)
        ensures
            final(self)@ == old(self)@.queued(intent),
    {
        self.intents.push(intent);
    }

    /// Decides what is to be done about an intent. A destructive intent on a
    /// modified buffer is held back and a question is put to the user; a new
    /// document is started on the spot; everything else is the host's to do.
    pub fn dispatch(&mut self, intent: Intent, doc: &mut Document, tools: &ToolsConfig) -> (effect:
        Effect)
        ensures
            effect@ == dispatch_spec(old(doc)@, tools@, intent),
            final(doc)@ == dispatch_document(old(doc)@, intent),
            final(self)@ == old(self)@.dispatched(old(doc)@, intent),
    {
        let modified = doc.is_modified();
        match intent {
            Intent::New => {
                if modified {
                    self.hold(intent);
                    Effect::ConfirmDiscard(intent)
                } else {
                    doc.reset();
                    Effect::Nothing
                }
            },
            Intent::Open => {
                if modified {
                    self.hold(intent);
                    Effect::ConfirmDiscard(intent)
                } else {
                    Effect::PickFile
                }
            },
            Intent::Exit => {
                if modified {
                    self.hold(intent);
                    Effect::ConfirmExit
                } else {
                    Effect::Exit
                }
            },
            Intent::Save => Effect::Save { target: doc.save_target(false), then_exit: false },
            Intent::SaveAs => Effect::Save { target: doc.save_target(true), then_exit: false },
            Intent::Lint => Effect::RunTool(start_lint(doc, tools)),
            Intent::Format => Effect::RunTool(start_format(doc, tools)),
        }
    }

    fn hold(&mut self, intent: Intent)
        ensures
            final(self)@ == (ShellView {
                confirming: Some(intent),
                chosen_path: None,
                ..old(self)@
            }),
    {
        self.confirming = Some(intent);
        self.chosen_path = None;
    }

    /// Handles the intent that has waited longest, if any waits.
    pub fn handle_next(&mut self, doc: &mut Document, tools: &ToolsConfig) -> (effect: Option<Effect>)
        ensures
            old(self)@.intents.len() == 0 ==> {
                &&& effect is None
                &&& final(doc)@ == old(doc)@
                &&& final(self)@ == old(self)@
            },
            old(self)@.intents.len() > 0 ==> {
                let intent = old(self)@.intents.first();
                let rest = ShellView { intents: old(self)@.intents.drop_first(), ..old(self)@ };
                &&& effect matches Some(e)
                &&& e@ == dispatch_spec(old(doc)@, tools@, intent)
                &&& final(doc)@ == dispatch_document(old(doc)@, intent)
                &&& final(self)@ == rest.dispatched(old(doc)@, intent)
            },
    {
        match self.intents.pop() {
            Some(intent) => Some(self.dispatch(intent, doc, tools)),
            None => None,
        }
    }

    /// Takes in a click on a file in the tree. On an unmodified buffer the
    /// file is to be read at once; on a modified one the open is held back,
    /// the file is remembered, and a question is put to the user.
    pub fn open_path(&mut self, path: String, doc: &Document) -> (effect: Effect)
        ensures
            effect@ == (if doc@.modified {
                EffectView::ConfirmDiscard(Intent::Open)
            } else {
                EffectView::ReadFile(path@)
            }),
            final(self)@ == old(self)@.path_chosen(doc@, path@),
    {
        if doc.is_modified() {
            self.confirming = Some(Intent::Open);
            self.chosen_path = Some(path);
            Effect::ConfirmDiscard(Intent::Open)
        } else {
            Effect::ReadFile(path)
        }
    }

    /// Takes in the answer to "discard unsaved changes?". With a yes the
    /// intent that waited goes ahead; with a no it is dropped. Without a new
    /// or open intent waiting, nothing happens.
    pub fn confirm_discard(&mut self, discard: bool, doc: &mut Document) -> (effect: Effect)
        ensures
            effect@ == old(self)@.discard_effect(discard),
            old(self)@.awaits_discard() ==> {
                &&& final(self)@ == old(self)@.answered()
                &&& final(doc)@ == old(self)@.discard_document(discard, old(doc)@)
            },
            !old(self)@.awaits_discard() ==> {
                &&& final(self)@ == old(self)@
                &&& final(doc)@ == old(doc)@
            },
    {
        match self.confirming {
            Some(Intent::New) => {
                self.confirming = None;
                self.chosen_path = None;
                if discard {
                    doc.reset();
                }
                Effect::Nothing
            },
            Some(Intent::Open) => {
                self.confirming = None;
                let chosen = self.chosen_path.take();
                if discard {
                    match chosen {
                        Some(path) => Effect::ReadFile(path),
                        None => Effect::PickFile,
                    }
                } else {
                    Effect::Nothing
                }
            },
            _ => Effect::Nothing,
        }
    }

    /// Takes in the answer to "save before exiting?". Saving and exiting is a
    /// plain save followed by the exit; discarding exits at once; cancelling
    /// drops the exit. Without an exit waiting, nothing happens.
    pub fn confirm_exit(&mut self, choice: ExitChoice, doc: &Document) -> (effect: Effect)
        ensures
            effect@ == old(self)@.exit_effect(choice, doc@),
            final(self)@ == (if old(self)@.awaits_exit() {
                old(self)@.answered()
            } else {
                old(self)@
            }),
    {
        match self.confirming {
            Some(Intent::Exit) => {
                self.confirming = None;
                self.chosen_path = None;
                match choice {
                    ExitChoice::SaveAndExit => Effect::Save {
                        target: doc.save_target(false),
                        then_exit: true,
                    },
                    ExitChoice::DiscardAndExit => Effect::Exit,
                    ExitChoice::Cancel => Effect::Nothing,
                }
            },
            _ => Effect::Nothing,
        }
    }

    /// Hands out the palette to apply, once: the first call yields the
    /// palette for `theme`, every later call nothing.
    pub fn ensure_theme(&mut self, theme: &ThemeConfig) -> (visuals: Option<Visuals>)
        ensures
            final(self)@ == (ShellView { theme_applied: true, ..old(self)@ }),
            old(self)@.theme_applied ==> visuals is None,
            !old(self)@.theme_applied ==> (visuals matches Some(v) && realises(theme@, v)),
    {
        if self.theme_applied {
            None
        } else {
            self.theme_applied = true;
            Some(theme.to_visuals())
        }
    }
}

} // verus!
