//! The document buffer: the text being edited, the text as it was last saved,
//! the path it belongs to and the flag that tells the two texts apart.
//!
//! The buffer never reads or writes a file. Whoever owns it does, and hands
//! over what came of it: the text that was read, or the error.

use vstd::prelude::*;

verus! {

/// The buffer of the open document.
///
/// `modified` is kept equal to `content != original_content` by every
/// operation; the fields are private so that nothing else can change them.
#[derive(Debug)]
pub struct Document {
    content: String,
    original_content: String,
    path: Option<String>,
    modified: bool,
}

/// A document as a mathematical value.
pub struct DocumentView {
    pub content: Seq<char>,
    pub original_content: Seq<char>,
    pub path: Option<Seq<char>>,
    pub modified: bool,
}

/// A change to the document, as a mathematical value.
pub enum Mutation {
    /// Start an empty, untitled document.
    New,
    /// Replace the document by what was read from a file.
    Open { path: Seq<char>, data: Seq<char> },
    /// Replace the text being edited.
    Edit { text: Seq<char> },
    /// Record that the text was written to a file.
    Save { path: Seq<char> },
}

/// Where a save has to write.
#[derive(Debug, PartialEq, Eq)]
pub enum SaveTarget {
    /// The user has to choose a destination.
    Prompt,
    /// The file the document already belongs to.
    Existing(String),
}

/// The line to log when a file could not be read.
pub open spec fn read_error_message(path: Seq<char>, error: Seq<char>) -> Seq<char> {
    "Error reading file '"@ + path + "': "@ + error
}

/// The line to log when the document could not be written.
pub open spec fn save_error_message(error: Seq<char>) -> Seq<char> {
    "Save error: "@ + error
}

impl DocumentView {
    /// The flag says whether the text differs from the saved text.
    pub open spec fn consistent(self) -> bool {
        self.modified == (self.content != self.original_content)
    }

    /// The empty, untitled, unmodified document.
    pub open spec fn blank() -> DocumentView {
        DocumentView {
            content: Seq::empty(),
            original_content: Seq::empty(),
            path: None,
            modified: false,
        }
    }

    /// The document right after `data` was read from `path`.
    pub open spec fn opened(path: Seq<char>, data: Seq<char>) -> DocumentView {
        DocumentView { content: data, original_content: data, path: Some(path), modified: false }
    }

    /// The document with `text` in place of its content and the flag
    /// recomputed; the saved text and the path stay.
    pub open spec fn edited(self, text: Seq<char>) -> DocumentView {
        DocumentView { content: text, modified: text != self.original_content, ..self }
    }

    /// The document right after its content was written to `path`.
    pub open spec fn saved_as(self, path: Seq<char>) -> DocumentView {
        DocumentView {
            content: self.content,
            original_content: self.content,
            path: Some(path),
            modified: false,
        }
    }

    /// The document after one change.
    pub open spec fn apply(self, change: Mutation) -> DocumentView {
        match change {
            Mutation::New => DocumentView::blank(),
            Mutation::Open { path, data } => DocumentView::opened(path, data),
            Mutation::Edit { text } => self.edited(text),
            Mutation::Save { path } => self.saved_as(path),
        }
    }

    /// The document after a run of changes, first to last.
    pub open spec fn apply_all(self, changes: Seq<Mutation>) -> DocumentView
        decreases changes.len(),
    {
        if changes.len() == 0 {
            self
        } else {
            self.apply_all(changes.drop_last()).apply(changes.last())
        }
    }

    /// Where a save writes, or `None` if it has to ask: "save as" always asks,
    /// a plain save goes to the document's path and asks only when there is
    /// none.
    pub open spec fn save_target(self, as_new: bool) -> Option<Seq<char>> {
        if as_new {
            None
        } else {
            self.path
        }
    }
}

impl View for SaveTarget {
    type V = Option<Seq<char>>;

    /// The path to write to, or `None` for a prompt.
    open spec fn view(&self) -> Option<Seq<char>> {
        match self {
            SaveTarget::Prompt => None,
            SaveTarget::Existing(path) => Some(path@),
        }
    }
}

/// "Save as" always asks for a destination. A plain save writes to the
/// document's path if it has one, and else does what "save as" does.
pub proof fn lemma_save_target(doc: DocumentView)
    ensures
        doc.save_target(true) is None,
        doc.path is Some ==> doc.save_target(false) == doc.path,
        doc.path is None ==> doc.save_target(false) == doc.save_target(true),
{
}

/// After any one change the flag says whether the text differs from the
/// saved text, whatever the document was before.
pub proof fn lemma_change_keeps_flag(doc: DocumentView, change: Mutation)
    requires
        doc.consistent(),
    ensures
        doc.apply(change).consistent(),
{
}

/// After any run of changes, and after each of its steps, the flag says
/// whether the text differs from the saved text.
pub proof fn lemma_changes_keep_flag(doc: DocumentView, changes: Seq<Mutation>)
    requires
        doc.consistent(),
    ensures
        forall|n: int| 0 <= n <= changes.len() ==> (#[trigger] doc.apply_all(changes.take(n))).consistent(),
        doc.apply_all(changes).consistent(),
{
    assert forall|n: int| 0 <= n <= changes.len() implies (#[trigger] doc.apply_all(
        changes.take(n),
    )).consistent() by {
        lemma_run_keeps_flag(doc, changes.take(n));
    }
    lemma_run_keeps_flag(doc, changes);
}

proof fn lemma_run_keeps_flag(doc: DocumentView, changes: Seq<Mutation>)
    requires
        doc.consistent(),
    ensures
        doc.apply_all(changes).consistent(),
    decreases changes.len(),
{
    if changes.len() > 0 {
        lemma_run_keeps_flag(doc, changes.drop_last());
        lemma_change_keeps_flag(doc.apply_all(changes.drop_last()), changes.last());
    }
}

/// Saving a document and opening what was written gives back the same text,
/// unmodified, provided the file hands back what was written to it.
pub proof fn lemma_save_then_open(doc: DocumentView, path: Seq<char>)
    ensures
        DocumentView::opened(path, doc.saved_as(path).content).content == doc.content,
        DocumentView::opened(path, doc.saved_as(path).content) == doc.saved_as(path),
{
}

impl View for Document {
    type V = DocumentView;

    closed spec fn view(&self) -> DocumentView {
        DocumentView {
            content: self.content@,
            original_content: self.original_content@,
            path: match self.path {
                Some(p) => Some(p@),
                None => None,
            },
            modified: self.modified,
        }
    }
}

impl Default for Document {
    fn default() -> (doc: Document)
        ensures
            doc@ == DocumentView::blank(),
    {
        Document::new()
    }
}

impl Document {
    #[verifier::type_invariant]
    spec fn flag_tracks_content(self) -> bool {
        self.modified == (self.content@ != self.original_content@)
    }

    /// An empty, untitled document.
    pub fn new() -> (doc: Document)
        ensures
            doc@ == DocumentView::blank(),
    {
        Document {
            content: String::new(),
            original_content: String::new(),
            path: None,
            modified: false,
        }
    }

    /// A document holding `data`, as read from `path`.
    pub fn from_file(path: String, data: String) -> (doc: Document)
        ensures
            doc@ == DocumentView::opened(path@, data@),
    {
        let original_content = data.clone();
        Document { content: data, original_content, path: Some(path), modified: false }
    }

    /// The text being edited.
    pub fn content(&self) -> (text: &String)
        ensures
            text@ == self@.content,
    {
        &self.content
    }

    /// The text as it was last read or saved.
    pub fn original_content(&self) -> (text: &String)
        ensures
            text@ == self@.original_content,
    {
        &self.original_content
    }

    /// The file the document belongs to, if any.
    pub fn path(&self) -> (path: Option<&String>)
        ensures
            match path {
                Some(p) => self@.path == Some(p@),
                None => self@.path is None,
            },
    {
        match &self.path {
            Some(p) => Some(p),
            None => None,
        }
    }

    /// Whether the text differs from the saved text.
    pub fn is_modified(&self) -> (modified: bool)
        ensures
            modified == self@.modified,
            modified == (self@.content != self@.original_content),
            self@.consistent(),
    {
        proof {
            use_type_invariant(self);
        }
        self.modified
    }

    /// Discards everything: the document becomes empty and untitled.
    pub fn reset(&mut self)
        ensures
            final(self)@ == DocumentView::blank(),
            final(self)@ == old(self)@.apply(Mutation::New),
    {
        *self = Document::new();
    }

    /// Takes in the outcome of reading `path`. On success the document is
    /// replaced by what was read. On failure it is left as it was and the line
    /// to log is returned.
    pub fn open(&mut self, path: &str, read: Result<String, String>) -> (failure: Option<String>)
        ensures
            match read {
                Ok(data) => {
                    &&& failure is None
                    &&& final(self)@ == DocumentView::opened(path@, data@)
                    &&& final(self)@ == old(self)@.apply(Mutation::Open { path: path@, data: data@ })
                },
                Err(error) => {
                    &&& failure matches Some(line)
                    &&& line@ == read_error_message(path@, error@)
                    &&& final(self)@ == old(self)@
                },
            },
    {
        match read {
            Ok(data) => {
                *self = Document::from_file(String::from_str(path), data);
                None
            },
            Err(error) => {
                let mut line = String::from_str("Error reading file '");
                line.append(path);
                line.append("': ");
                line.append(error.as_str());
                Some(line)
            },
        }
    }

    /// Replaces the text being edited and recomputes the flag. The saved text
    /// and the path stay as they are.
    pub fn set_content(&mut self, text: String)
        ensures
            final(self)@ == old(self)@.edited(text@),
            final(self)@ == old(self)@.apply(Mutation::Edit { text: text@ }),
            final(self)@.consistent(),
    {
        let mut taken = Document::new();
        core::mem::swap(self, &mut taken);
        let Document { content: _, original_content, path, modified: _ } = taken;
        let modified = text != original_content;
        *self = Document { content: text, original_content, path, modified };
    }

    /// Where a save has to write: "save as" always asks for a destination, a
    /// plain save goes to the document's path and asks only when there is none.
    pub fn save_target(&self, as_new: bool) -> (target: SaveTarget)
        ensures
            target@ == self@.save_target(as_new),
    {
        if as_new {
            SaveTarget::Prompt
        } else {
            match &self.path {
                Some(path) => SaveTarget::Existing(path.clone()),
                None => SaveTarget::Prompt,
            }
        }
    }

    /// Takes in the outcome of writing the content to `path`. On success the
    /// document belongs to `path` and counts as saved. On failure it is left
    /// as it was and the line to log is returned.
    pub fn finish_save(&mut self, path: &str, written: Result<(), String>) -> (failure: Option<
        String,
    >)
        ensures
            match written {
                Ok(_) => {
                    &&& failure is None
                    &&& final(self)@ == old(self)@.saved_as(path@)
                    &&& final(self)@ == old(self)@.apply(Mutation::Save { path: path@ })
                },
                Err(error) => {
                    &&& failure matches Some(line)
                    &&& line@ == save_error_message(error@)
                    &&& final(self)@ == old(self)@
                },
            },
    {
        match written {
            Ok(_) => {
                let mut taken = Document::new();
                core::mem::swap(self, &mut taken);
                let Document { content, original_content: _, path: _, modified: _ } = taken;
                let original_content = content.clone();
                *self = Document {
                    content,
                    original_content,
                    path: Some(String::from_str(path)),
                    modified: false,
                };
                None
            },
            Err(error) => {
                let mut line = String::from_str("Save error: ");
                line.append(error.as_str());
                Some(line)
            },
        }
    }
}

} // verus!
