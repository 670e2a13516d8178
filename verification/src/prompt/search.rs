//! Choosing the one file that a read command names.
//!
//! A read command gives a directory and a search term. Of all that lies
//! under the directory, at any depth, the regular files whose names contain
//! the term are the candidates. One candidate is the answer; none, or more
//! than one, is no answer: the search never guesses among several.

use crate::prompt::command::ParseError;
use crate::text::{chars_of, contains, includes};
use vstd::prelude::*;

verus! {

/// One entry found under a directory.
#[derive(Debug, Clone, PartialEq, Eq)]
pub struct DirectoryEntry {
    /// The path of the entry, from the directory that was searched.
    pub path: String,
    /// The last component of the path.
    pub file_name: String,
    /// Whether the entry is a regular file: no directory and no symbolic link.
    pub is_file: bool,
}

/// An entry with its texts as sequences of characters.
pub struct DirectoryEntryView {
    pub path: Seq<char>,
    pub file_name: Seq<char>,
    pub is_file: bool,
}

impl View for DirectoryEntry {
    type V = DirectoryEntryView;

    open spec fn view(&self) -> DirectoryEntryView {
        DirectoryEntryView { path: self.path@, file_name: self.file_name@, is_file: self.is_file }
    }
}

/// The file that a read command resolved to, or the sign that it resolved to
/// none.
#[derive(Debug, Clone, PartialEq, Eq)]
pub enum ResolvedPath {
    /// The path of the one candidate.
    File(String),
    /// There was no candidate, or more than one.
    NoUniqueMatch,
}

/// A resolved path with its text as a sequence of characters.
pub enum ResolvedPathView {
    File(Seq<char>),
    NoUniqueMatch,
}

impl View for ResolvedPath {
    type V = ResolvedPathView;

    open spec fn view(&self) -> ResolvedPathView {
        match *self {
            ResolvedPath::File(path) => ResolvedPathView::File(path@),
            ResolvedPath::NoUniqueMatch => ResolvedPathView::NoUniqueMatch,
        }
    }
}

/// The entries as the search sees them.
pub open spec fn listing_of(entries: Seq<DirectoryEntry>) -> Seq<DirectoryEntryView> {
    entries.map_values(|entry: DirectoryEntry| entry@)
}

/// The entry is a regular file whose name contains `search_term`. Case
/// counts, and the term may stand anywhere in the name.
pub open spec fn is_candidate(entry: DirectoryEntryView, search_term: Seq<char>) -> bool {
    entry.is_file && contains(entry.file_name, search_term)
}

/// The candidates among `listing`, in the order of the listing.
pub open spec fn candidates(listing: Seq<DirectoryEntryView>, search_term: Seq<char>) -> Seq<
    DirectoryEntryView,
> {
    listing.filter(|entry: DirectoryEntryView| is_candidate(entry, search_term))
}

/// The paths of `entries`, in their order.
pub open spec fn paths_of(entries: Seq<DirectoryEntryView>) -> Seq<Seq<char>> {
    entries.map_values(|entry: DirectoryEntryView| entry.path)
}

/// The strings as sequences of characters.
pub open spec fn texts_of(strings: Seq<String>) -> Seq<Seq<char>> {
    strings.map_values(|string: String| string@)
}

/// The choice among the paths of the candidates: the one path where there is
/// exactly one, and no path where there is none or more than one.
pub open spec fn choice(paths: Seq<Seq<char>>) -> ResolvedPathView {
    if paths.len() == 1 {
        ResolvedPathView::File(paths[0])
    } else {
        ResolvedPathView::NoUniqueMatch
    }
}

/// The file that a search for `search_term` selects from `listing`.
pub open spec fn selection(
    listing: Seq<DirectoryEntryView>,
    search_term: Seq<char>,
) -> ResolvedPathView {
    choice(paths_of(candidates(listing, search_term)))
}

/// What a read command reports for a resolved path: the path, or that no
/// single file matched.
pub open spec fn report_of(resolved: ResolvedPathView) -> Result<Seq<char>, ParseError> {
    match resolved {
        ResolvedPathView::File(path) => Ok(path),
        ResolvedPathView::NoUniqueMatch => Err(ParseError::AmbiguousOrNotFound),
    }
}

/// The view of a report: that of the path, or the error.
pub open spec fn path_outcome(outcome: Result<String, ParseError>) -> Result<
    Seq<char>,
    ParseError,
> {
    match outcome {
        Ok(path) => Ok(path@),
        Err(error) => Err(error),
    }
}

/// Filtering a sequence and then forgetting its order gives what forgetting
/// the order and then filtering gives.
proof fn lemma_filter_to_multiset<A>(items: Seq<A>, wanted: spec_fn(A) -> bool)
    ensures
        items.filter(wanted).to_multiset() == items.to_multiset().filter(wanted),
    decreases items.len(),
{
    broadcast use vstd::multiset::group_multiset_axioms;

    reveal(Seq::filter);
    if items.len() == 0 {
        items.to_multiset_ensures();
        assert(items.to_multiset().len() == 0);
        assert(items.filter(wanted).to_multiset() =~= items.to_multiset().filter(wanted));
    } else {
        let front = items.drop_last();
        let last = items.last();
        lemma_filter_to_multiset(front, wanted);
        assert(items =~= front.push(last));
        vstd::seq_lib::to_multiset_build(front, last);
        if wanted(last) {
            vstd::seq_lib::to_multiset_build(front.filter(wanted), last);
        }
        assert(items.filter(wanted).to_multiset() =~= items.to_multiset().filter(wanted));
    }
}

/// The order of a listing does not matter to the search: two walks over the
/// same entries, in whatever order each came upon them, select the same
/// file, or both select none. Resolving one read command again while the
/// files stay as they are therefore gives the same answer.
pub proof fn lemma_selection_ignores_order(
    first: Seq<DirectoryEntryView>,
    second: Seq<DirectoryEntryView>,
    search_term: Seq<char>,
)
    requires
        first.to_multiset() == second.to_multiset(),
    ensures
        selection(first, search_term) == selection(second, search_term),
{
    let wanted = |entry: DirectoryEntryView| is_candidate(entry, search_term);
    let in_first = candidates(first, search_term);
    let in_second = candidates(second, search_term);
    assert(in_first == first.filter(wanted));
    assert(in_second == second.filter(wanted));
    lemma_filter_to_multiset(first, wanted);
    lemma_filter_to_multiset(second, wanted);
    assert(in_first.to_multiset() == in_second.to_multiset());
    in_first.to_multiset_ensures();
    in_second.to_multiset_ensures();
    if in_first.len() == 1 {
        let only = in_first[0];
        assert(in_first.contains(only));
        assert(in_first.to_multiset().count(only) > 0);
        assert(in_second.to_multiset().count(only) > 0);
        assert(in_second.contains(only));
        assert(in_second[0] == only);
    }
}

impl ResolvedPath {
    /// The text that stands for the resolved path: the path itself, or the
    /// word `none` where no single file matched.
    pub open spec fn text_of(resolved: ResolvedPathView) -> Seq<char> {
        match resolved {
            ResolvedPathView::File(path) => path,
            ResolvedPathView::NoUniqueMatch => "none"@,
        }
    }

    /// The choice among the paths of the candidates that a search found:
    /// one candidate is the answer, and none or several are no answer.
    pub fn among(candidates: &Vec<String>) -> (resolved: ResolvedPath)
        ensures
            resolved@ == choice(texts_of(candidates@)),
    {
        if candidates.len() == 1 {
            ResolvedPath::File(candidates[0].clone())
        } else {
            ResolvedPath::NoUniqueMatch
        }
    }

    /// The path, or the word `none`.
    pub fn text(&self) -> (text: String)
        ensures
            text@ == Self::text_of(self@),
    {
        match self {
            ResolvedPath::File(path) => path.clone(),
            ResolvedPath::NoUniqueMatch => "none".to_owned(),
        }
    }

    /// The path, or the failure that the read command reports.
    pub fn report(self) -> (outcome: Result<String, ParseError>)
        ensures
            path_outcome(outcome) == report_of(self@),
    {
        match self {
            ResolvedPath::File(path) => Ok(path),
            ResolvedPath::NoUniqueMatch => Err(ParseError::AmbiguousOrNotFound),
        }
    }
}

/// Lists what lies under `root`, the root itself included, as
/// `walkdir::WalkDir::new(root)` yields it with its default settings: a root
/// that is a symbolic link to a directory is walked through, no link below
/// the root is followed, every link is listed as a link, and what cannot be
/// read is passed over. Each entry is given by `DirEntry::path`,
/// `DirEntry::file_name` and `DirEntry::file_type`, with text that is not
/// Unicode replaced as `to_string_lossy` does. Nothing is claimed of the
/// result: it is whatever the file system holds at the time of the call, in
/// the order of the walk.
#[verifier::external_body]
pub(crate) fn walk(root: &str) -> (entries: Vec<DirectoryEntry>) {
    let mut entries = Vec::new();
    for entry in walkdir::WalkDir::new(root).into_iter().filter_map(|e| e.ok()) {
        entries.push(DirectoryEntry {
            path: entry.path().to_string_lossy().into_owned(),
            file_name: entry.file_name().to_string_lossy().into_owned(),
            is_file: entry.file_type().is_file(),
        });
    }
    entries
}

/// The paths of the regular files among `entries` whose names contain
/// `search_term`, in the order of `entries`.
pub fn candidate_paths(entries: &Vec<DirectoryEntry>, search_term: &str) -> (paths: Vec<String>)
    ensures
        texts_of(paths@) == paths_of(candidates(listing_of(entries@), search_term@)),
{
    let term = chars_of(search_term);
    let ghost listing = listing_of(entries@);
    let ghost wanted = |entry: DirectoryEntryView| is_candidate(entry, search_term@);
    let mut paths: Vec<String> = Vec::new();
    let mut seen: usize = 0;
    proof {
        reveal(Seq::filter);
    }
    while seen < entries.len()
        invariant
            seen <= entries.len(),
            term@ == search_term@,
            listing == listing_of(entries@),
            wanted == |entry: DirectoryEntryView| is_candidate(entry, search_term@),
            texts_of(paths@) == paths_of(listing.take(seen as int).filter(wanted)),
        decreases entries.len() - seen,
    {
        let entry = &entries[seen];
        let ghost found = listing.take(seen as int).filter(wanted);
        proof {
            reveal(Seq::filter);
            assert(listing.take(seen + 1).drop_last() =~= listing.take(seen as int));
        }
        if entry.is_file && includes(&chars_of(entry.file_name.as_str()), &term) {
            paths.push(entry.path.clone());
            assert(paths_of(found.push(entry@)) =~= paths_of(found).push(entry.path@));
        }
        seen += 1;
    }
    assert(listing.take(seen as int) =~= listing);
    paths
}

/// Chooses among `entries` the one regular file whose name contains
/// `search_term`.
pub fn select(entries: &Vec<DirectoryEntry>, search_term: &str) -> (resolved: ResolvedPath)
    ensures
        resolved@ == selection(listing_of(entries@), search_term@),
{
    ResolvedPath::among(&candidate_paths(entries, search_term))
}

} // verus!
