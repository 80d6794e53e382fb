//! The file tree: the order in which the entries of one directory are shown.
//!
//! The host reads the directory and hands over each entry's path and whether
//! it is a directory. Directories come first, then files, each group in
//! ascending order of their paths.

use crate::document::Document;
use vstd::prelude::*;
use vstd::relations::{antisymmetric, reflexive, sorted_by, strongly_connected, transitive};
use vstd::seq_lib::lemma_sorted_unique;
use vstd::utf8::char_u32_cast;

verus! {

/// One entry of a directory.
#[derive(Debug, PartialEq, Eq)]
pub struct Entry {
    pub path: String,
    pub is_dir: bool,
}

/// A directory entry as a mathematical value.
pub struct EntryView {
    pub path: Seq<char>,
    pub is_dir: bool,
}

impl View for Entry {
    type V = EntryView;

    open spec fn view(&self) -> EntryView {
        EntryView { path: self.path@, is_dir: self.is_dir }
    }
}

/// The entries of a directory in the order in which they are shown.
#[derive(Debug, PartialEq, Eq)]
pub struct Listing {
    pub directories: Vec<String>,
    pub files: Vec<String>,
}

/// The views of a run of entries.
pub open spec fn entry_views(entries: Seq<Entry>) -> Seq<EntryView> {
    Seq::new(entries.len(), |i: int| entries[i]@)
}

/// The order of texts: character by character, by code point, a proper
/// prefix before what it is a prefix of.
pub open spec fn text_le(a: Seq<char>, b: Seq<char>) -> bool
    decreases a.len(),
{
    if a.len() == 0 {
        true
    } else if b.len() == 0 {
        false
    } else if a.first() != b.first() {
        (a.first() as u32) < (b.first() as u32)
    } else {
        text_le(a.drop_first(), b.drop_first())
    }
}

/// Whether no text stands before one that it should follow.
pub open spec fn ascending(texts: Seq<Seq<char>>) -> bool {
    forall|i: int, j: int| 0 <= i <= j < texts.len() ==> text_le(texts[i], texts[j])
}

/// The paths of the entries that are directories (`dirs`) or that are not
/// (`!dirs`), in the order of the entries.
pub open spec fn paths_of(entries: Seq<EntryView>, dirs: bool) -> Seq<Seq<char>>
    decreases entries.len(),
{
    if entries.len() == 0 {
        Seq::empty()
    } else if entries.last().is_dir == dirs {
        paths_of(entries.drop_last(), dirs).push(entries.last().path)
    } else {
        paths_of(entries.drop_last(), dirs)
    }
}

/// Whether `listing` shows `entries`: its directories are the entries that
/// are directories, its files the others, nothing lost and nothing added, and
/// each group ascends.
pub open spec fn shows(listing: Listing, entries: Seq<EntryView>) -> bool {
    &&& listing.directories.deep_view().to_multiset() == paths_of(entries, true).to_multiset()
    &&& listing.files.deep_view().to_multiset() == paths_of(entries, false).to_multiset()
    &&& ascending(listing.directories.deep_view())
    &&& ascending(listing.files.deep_view())
}

/// A text stands before itself.
pub proof fn lemma_text_le_reflexive(a: Seq<char>)
    ensures
        text_le(a, a),
    decreases a.len(),
{
    if a.len() > 0 {
        lemma_text_le_reflexive(a.drop_first());
    }
}

/// Two texts that stand before each other are the same text.
pub proof fn lemma_text_le_antisymmetric(a: Seq<char>, b: Seq<char>)
    requires
        text_le(a, b),
        text_le(b, a),
    ensures
        a == b,
    decreases a.len(),
{
    if a.len() == 0 || b.len() == 0 {
        assert(a =~= b);
    } else {
        lemma_text_le_antisymmetric(a.drop_first(), b.drop_first());
        assert(a =~= seq![a.first()] + a.drop_first());
        assert(b =~= seq![b.first()] + b.drop_first());
    }
}

/// Standing before is handed on: if `a` stands before `b` and `b` before `c`,
/// then `a` stands before `c`.
pub proof fn lemma_text_le_transitive(a: Seq<char>, b: Seq<char>, c: Seq<char>)
    requires
        text_le(a, b),
        text_le(b, c),
    ensures
        text_le(a, c),
    decreases a.len(),
{
    if a.len() > 0 && b.len() > 0 && c.len() > 0 {
        if a.first() == b.first() && b.first() == c.first() {
            lemma_text_le_transitive(a.drop_first(), b.drop_first(), c.drop_first());
        }
    }
}

/// Of two texts one stands before the other.
pub proof fn lemma_text_le_connected(a: Seq<char>, b: Seq<char>)
    ensures
        text_le(a, b) || text_le(b, a),
    decreases a.len(),
{
    if a.len() > 0 && b.len() > 0 {
        if a.first() == b.first() {
            lemma_text_le_connected(a.drop_first(), b.drop_first());
        } else {
            assert(a.first() as u32 != b.first() as u32) by {
                char_u32_cast(a.first(), a.first() as u32);
                char_u32_cast(b.first(), b.first() as u32);
            }
        }
    }
}

/// The entries decide the listing: two listings that show the same entries
/// hold the same paths in the same order.
pub proof fn lemma_listing_is_determined(first: Listing, second: Listing, entries: Seq<EntryView>)
    requires
        shows(first, entries),
        shows(second, entries),
    ensures
        first.directories.deep_view() == second.directories.deep_view(),
        first.files.deep_view() == second.files.deep_view(),
{
    let leq = |a: Seq<char>, b: Seq<char>| text_le(a, b);
    assert(reflexive(leq)) by {
        assert forall|a: Seq<char>| #[trigger] leq(a, a) by {
            lemma_text_le_reflexive(a);
        }
    }
    assert(antisymmetric(leq)) by {
        assert forall|a: Seq<char>, b: Seq<char>| #[trigger] leq(a, b) && #[trigger] leq(
            b,
            a,
        ) implies a == b by {
            lemma_text_le_antisymmetric(a, b);
        }
    }
    assert(transitive(leq)) by {
        assert forall|a: Seq<char>, b: Seq<char>, c: Seq<char>| #[trigger] leq(a, b)
            && #[trigger] leq(b, c) implies leq(a, c) by {
            lemma_text_le_transitive(a, b, c);
        }
    }
    assert(strongly_connected(leq)) by {
        assert forall|a: Seq<char>, b: Seq<char>| #[trigger] leq(a, b) || #[trigger] leq(b, a) by {
            lemma_text_le_connected(a, b);
        }
    }
    assert(sorted_by(first.directories.deep_view(), leq));
    assert(sorted_by(second.directories.deep_view(), leq));
    assert(sorted_by(first.files.deep_view(), leq));
    assert(sorted_by(second.files.deep_view(), leq));
    lemma_sorted_unique(first.directories.deep_view(), second.directories.deep_view(), leq);
    lemma_sorted_unique(first.files.deep_view(), second.files.deep_view(), leq);
}

/// The label shown in place of a directory that could not be read.
pub open spec fn unreadable_label_spec(path: Seq<char>, error: Seq<char>) -> Seq<char> {
    "Cannot read "@ + path + ": "@ + error
}

/// Calls `sort` of the standard library's slices on a vector of `String`s.
/// The sort puts the strings in ascending order, which for strings is the
/// order of their bytes and so of their code points, and neither drops nor
/// adds one.
#[verifier::external_body]
fn sort_texts(texts: &mut Vec<String>)
    ensures
        final(texts).deep_view().to_multiset() == old(texts).deep_view().to_multiset(),
        ascending(final(texts).deep_view()),
{
    texts.sort();
}

/// Puts the entries of one directory in the order in which they are shown.
pub fn arrange(entries: &Vec<Entry>) -> (listing: Listing)
    ensures
        shows(listing, entry_views(entries@)),
{
    let mut directories: Vec<String> = Vec::new();
    let mut files: Vec<String> = Vec::new();
    let ghost views = entry_views(entries@);
    let mut i: usize = 0;
    while i < entries.len()
        invariant
            i <= entries.len(),
            views == entry_views(entries@),
            directories.deep_view() == paths_of(views.take(i as int), true),
            files.deep_view() == paths_of(views.take(i as int), false),
        decreases entries.len() - i,
    {
        let ghost seen = views.take(i as int);
        let ghost more = views.take(i + 1);
        proof {
            assert(more.drop_last() =~= seen);
            assert(more.last() == entries[i as int]@);
        }
        let ghost dirs_before = directories.deep_view();
        let ghost files_before = files.deep_view();
        if entries[i].is_dir {
            directories.push(entries[i].path.clone());
            proof {
                assert(directories.deep_view() =~= dirs_before.push(entries[i as int].path@));
            }
        } else {
            files.push(entries[i].path.clone());
            proof {
                assert(files.deep_view() =~= files_before.push(entries[i as int].path@));
            }
        }
        i = i + 1;
    }
    proof {
        assert(views.take(entries.len() as int) =~= views);
    }
    sort_texts(&mut directories);
    sort_texts(&mut files);
    Listing { directories, files }
}

/// Whether `path` is the file that the document belongs to.
pub fn is_selected(doc: &Document, path: &str) -> (selected: bool)
    ensures
        selected == (doc@.path == Some(path@)),
{
    match doc.path() {
        Some(current) => *current == String::from_str(path),
        None => false,
    }
}

/// The label shown in place of a directory that could not be read.
pub fn unreadable_label(path: &str, error: &str) -> (label: String)
    ensures
        label@ == unreadable_label_spec(path@, error@),
{
    let mut label = String::from_str("Cannot read ");
    label.append(path);
    label.append(": ");
    label.append(error);
    label
}

} // verus!
