//! Listing the workspaces of a state source, page by page.

use vstd::prelude::*;
use crate::source::{Source, SourceView};

verus! {

/// The entries of all pages, in order.
pub open spec fn all_entries(pages: Seq<Seq<Seq<char>>>) -> Seq<Seq<char>>
    decreases pages.len(),
{
    if pages.len() == 0 {
        Seq::empty()
    } else {
        all_entries(pages.drop_last()) + pages.last()
    }
}

/// The workspaces that a listing has after it took in `pages` one by one.
pub open spec fn listed(source: SourceView, pages: Seq<Seq<Seq<char>>>) -> Seq<Seq<char>>
    decreases pages.len(),
{
    if pages.len() == 0 {
        Seq::empty()
    } else {
        listed(source, pages.drop_last()) + source.workspaces_in(pages.last())
    }
}

/// The token with which the next page of a truncated listing is asked for:
/// none where the listing says it is complete, or names no token.
pub open spec fn next_token(is_truncated: Option<bool>, token: Option<String>) -> Option<String> {
    if is_truncated == Some(true) {
        token
    } else {
        None
    }
}

/// The workspaces of a listing split in two are those of the first part
/// followed by those of the second.
pub proof fn lemma_workspaces_concat(source: SourceView, a: Seq<Seq<char>>, b: Seq<Seq<char>>)
    ensures
        source.workspaces_in(a + b) == source.workspaces_in(a) + source.workspaces_in(b),
    decreases b.len(),
{
    if b.len() == 0 {
        assert(a + b =~= a);
        assert(source.workspaces_in(a) + source.workspaces_in(b) =~= source.workspaces_in(a));
    } else {
        assert((a + b).drop_last() =~= a + b.drop_last());
        assert((a + b).last() == b.last());
        lemma_workspaces_concat(source, a, b.drop_last());
        let front = source.workspaces_in(a) + source.workspaces_in(b.drop_last());
        match source.workspace_of(b.last()) {
            Some(w) => {
                assert(front.push(w) =~= source.workspaces_in(a) + source.workspaces_in(
                    b.drop_last(),
                ).push(w));
            },
            None => {},
        }
    }
}

/// A listing taken page by page shows the workspaces of all entries together.
pub proof fn lemma_listed_by_pages(source: SourceView, pages: Seq<Seq<Seq<char>>>)
    ensures
        listed(source, pages) == source.workspaces_in(all_entries(pages)),
    decreases pages.len(),
{
    if pages.len() > 0 {
        lemma_listed_by_pages(source, pages.drop_last());
        lemma_workspaces_concat(source, all_entries(pages.drop_last()), pages.last());
    }
}

/// The size of the pages does not matter: two ways of cutting the same entries
/// into pages list the same workspaces.
pub proof fn lemma_paging_does_not_matter(
    source: SourceView,
    pages: Seq<Seq<Seq<char>>>,
    other_pages: Seq<Seq<Seq<char>>>,
)
    requires
        all_entries(pages) == all_entries(other_pages),
    ensures
        listed(source, pages) == listed(source, other_pages),
{
    lemma_listed_by_pages(source, pages);
    lemma_listed_by_pages(source, other_pages);
}

/// A listing shows exactly the workspaces of the state records among its
/// entries: each workspace listed is that of some entry, and the workspace of
/// each entry that is a state record is listed.
pub proof fn lemma_listing_exact(source: SourceView, entries: Seq<Seq<char>>, workspace: Seq<char>)
    ensures
        source.workspaces_in(entries).contains(workspace) <==> exists|i: int|
            0 <= i < entries.len() && source.workspace_of(#[trigger] entries[i]) == Some(workspace),
    decreases entries.len(),
{
    let listing = source.workspaces_in(entries);
    if entries.len() > 0 {
        let front_entries = entries.drop_last();
        let front = source.workspaces_in(front_entries);
        lemma_listing_exact(source, front_entries, workspace);
        if listing.contains(workspace) {
            let k = choose|k: int| 0 <= k < listing.len() && listing[k] == workspace;
            if k < front.len() {
                assert(front[k] == workspace);
                assert(front.contains(workspace));
                let i = choose|i: int|
                    0 <= i < front_entries.len() && source.workspace_of(
                        #[trigger] front_entries[i],
                    ) == Some(workspace);
                assert(entries[i] == front_entries[i]);
            } else {
                assert(source.workspace_of(entries[entries.len() - 1]) == Some(workspace));
            }
        }
        if exists|i: int|
            0 <= i < entries.len() && source.workspace_of(#[trigger] entries[i]) == Some(
                workspace,
            ) {
            let i = choose|i: int|
                0 <= i < entries.len() && source.workspace_of(#[trigger] entries[i]) == Some(
                    workspace,
                );
            if i < entries.len() - 1 {
                assert(front_entries[i] == entries[i]);
                assert(front.contains(workspace));
                let k = choose|k: int| 0 <= k < front.len() && front[k] == workspace;
                assert(listing[k] == workspace);
            } else {
                assert(listing[listing.len() - 1] == workspace);
            }
        }
    }
}

/// The workspaces that one page of a listing shows.
pub fn workspaces_in_page(source: &Source, entries: &Vec<String>) -> (names: Vec<String>)
    ensures
        names.deep_view() == source@.workspaces_in(entries.deep_view()),
{
    let mut names: Vec<String> = Vec::new();
    let mut i: usize = 0;
    assert(entries.deep_view().subrange(0, 0) =~= Seq::<Seq<char>>::empty());
    assert(names.deep_view() =~= Seq::<Seq<char>>::empty());
    while i < entries.len()
        invariant
            i <= entries.len(),
            names.deep_view() == source@.workspaces_in(entries.deep_view().subrange(0, i as int)),
        decreases entries.len() - i,
    {
        let ghost before = names.deep_view();
        proof {
            let upto = entries.deep_view().subrange(0, i + 1);
            assert(upto.drop_last() =~= entries.deep_view().subrange(0, i as int));
            assert(upto.last() == entries[i as int]@);
        }
        match source.workspace_of(entries[i].as_str()) {
            Some(name) => {
                names.push(name);
                assert(names.deep_view() =~= before.push(name@));
            },
            None => {},
        }
        i += 1;
    }
    assert(entries.deep_view().subrange(0, i as int) =~= entries.deep_view());
    names
}

/// The token with which the next page of a truncated listing is asked for.
pub fn continuation(is_truncated: Option<bool>, token: Option<String>) -> (r: Option<String>)
    ensures
        r == next_token(is_truncated, token),
{
    match is_truncated {
        Some(true) => token,
        _ => None,
    }
}

/// The workspaces of a state source, gathered from the pages of a listing as
/// they arrive.
pub struct Listing {
    source: Source,
    names: Vec<String>,
}

impl Listing {
    /// The state source that is listed.
    pub closed spec fn source(&self) -> SourceView {
        self.source@
    }

    /// The workspaces gathered so far.
    pub closed spec fn names(&self) -> Seq<Seq<char>> {
        self.names.deep_view()
    }

    /// A listing of `source` that has seen no page.
    pub fn new(source: Source) -> (listing: Listing)
        ensures
            listing.source() == source@,
            listing.names() == Seq::<Seq<char>>::empty(),
    {
        let listing = Listing { source, names: Vec::new() };
        assert(listing.names.deep_view() =~= Seq::<Seq<char>>::empty());
        listing
    }

    /// Takes in one page of entries: the workspaces of its state records are
    /// added behind those gathered so far.
    pub fn add_page(&mut self, entries: &Vec<String>)
        ensures
            final(self).source() == old(self).source(),
            final(self).names() == old(self).names() + old(self).source().workspaces_in(
                entries.deep_view(),
            ),
    {
        let mut page = workspaces_in_page(&self.source, entries);
        let ghost before = self.names.deep_view();
        let ghost added = page.deep_view();
        self.names.append(&mut page);
        assert(self.names.deep_view() =~= before + added);
    }

    /// The workspaces gathered.
    pub fn into_workspaces(self) -> (names: Vec<String>)
        ensures
            names.deep_view() == self.names(),
    {
        self.names
    }
}

} // verus!
