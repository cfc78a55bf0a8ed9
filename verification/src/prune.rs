//! Which entries of the working directory are installs of other versions
//! and are to be deleted after an install.

use crate::install::{version_dir_of, version_dir_prefix_of};
use crate::model::views;
use crate::text::starts_with;
use vstd::prelude::*;
use vstd::string::*;

verus! {

/// One entry of a directory listing.
#[derive(Debug, PartialEq, Eq)]
pub enum DirEntry {
    /// An entry with its file name. `exact` is false where the file name is
    /// not valid Unicode, so that `name` only comes close to it.
    Named { name: String, exact: bool },
    /// An entry that could not be read.
    Unreadable,
}

/// A [`DirEntry`] as plain values.
pub enum DirEntryView {
    Named { name: Seq<char>, exact: bool },
    Unreadable,
}

impl View for DirEntry {
    type V = DirEntryView;

    open spec fn view(&self) -> DirEntryView {
        match self {
            DirEntry::Named { name, exact } => DirEntryView::Named { name: name@, exact: *exact },
            DirEntry::Unreadable => DirEntryView::Unreadable,
        }
    }
}

/// Whether `entry` is an install that is to go: its name begins with
/// `prefix` and it is not the directory `keep` itself. An entry that could
/// not be read is left alone.
pub open spec fn is_stale(entry: DirEntryView, prefix: Seq<char>, keep: Seq<char>) -> bool {
    match entry {
        DirEntryView::Named { name, exact } => prefix.is_prefix_of(name) && !(exact && name
            == keep),
        DirEntryView::Unreadable => false,
    }
}

/// The positions in `listing` of the entries that are to go, in rising
/// order.
pub open spec fn stale_positions(
    listing: Seq<DirEntryView>,
    prefix: Seq<char>,
    keep: Seq<char>,
) -> Seq<int>
    decreases listing.len(),
{
    if listing.len() == 0 {
        Seq::empty()
    } else {
        let before = stale_positions(listing.drop_last(), prefix, keep);
        if is_stale(listing.last(), prefix, keep) {
            before.push(listing.len() - 1)
        } else {
            before
        }
    }
}

/// The positions as mathematical integers.
pub open spec fn positions_view(positions: Seq<usize>) -> Seq<int> {
    Seq::new(positions.len(), |i: int| positions[i] as int)
}

impl DirEntry {
    /// Whether this entry is an install that is to go.
    pub fn is_stale(&self, prefix: &str, keep: &str) -> (stale: bool)
        ensures
            stale == is_stale(self@, prefix@, keep@),
    {
        match self {
            DirEntry::Named { name, exact } => {
                if !starts_with(name.as_str(), prefix) {
                    false
                } else if !*exact {
                    true
                } else {
                    let kept = String::from_str(keep);
                    !(*name == kept)
                }
            },
            DirEntry::Unreadable => false,
        }
    }
}

/// The positions in `listing` of the entries that are to go, in rising
/// order.
pub fn stale_entries(listing: &Vec<DirEntry>, prefix: &str, keep: &str) -> (stale: Vec<usize>)
    ensures
        positions_view(stale@) == stale_positions(views(listing@), prefix@, keep@),
{
    let mut stale: Vec<usize> = Vec::new();
    let mut i: usize = 0;
    assert(positions_view(stale@) =~= Seq::<int>::empty());
    while i < listing.len()
        invariant
            i <= listing.len(),
            positions_view(stale@) == stale_positions(
                views(listing@).take(i as int),
                prefix@,
                keep@,
            ),
        decreases listing.len() - i,
    {
        let ghost seen = views(listing@).take(i + 1);
        assert(seen.drop_last() =~= views(listing@).take(i as int));
        assert(seen.last() == listing@[i as int]@);
        let ghost before = positions_view(stale@);
        if listing[i].is_stale(prefix, keep) {
            stale.push(i);
            assert(positions_view(stale@) =~= before.push(i as int));
        }
        i = i + 1;
    }
    assert(views(listing@).take(listing@.len() as int) =~= views(listing@));
    stale
}

/// The positions that `stale_positions` gives are exactly those of the
/// entries that are to go, each once and in rising order.
pub proof fn lemma_stale_positions(listing: Seq<DirEntryView>, prefix: Seq<char>, keep: Seq<char>)
    ensures
        forall|p: int|
            stale_positions(listing, prefix, keep).contains(p) <==> 0 <= p < listing.len()
                && is_stale(listing[p], prefix, keep),
        forall|i: int, j: int|
            0 <= i < j < stale_positions(listing, prefix, keep).len() ==> stale_positions(
                listing,
                prefix,
                keep,
            )[i] < stale_positions(listing, prefix, keep)[j],
    decreases listing.len(),
{
    let all = stale_positions(listing, prefix, keep);
    if listing.len() == 0 {
    } else {
        let front = listing.drop_last();
        let before = stale_positions(front, prefix, keep);
        let last = listing.len() - 1;
        lemma_stale_positions(front, prefix, keep);
        assert(forall|p: int| 0 <= p < front.len() ==> front[p] == listing[p]);
        assert forall|p: int| all.contains(p) <==> 0 <= p < listing.len() && is_stale(
            listing[p],
            prefix,
            keep,
        ) by {
            if all.contains(p) {
                let k = choose|k: int| 0 <= k < all.len() && all[k] == p;
                if k < before.len() {
                    assert(before[k] == p);
                    assert(before.contains(p));
                }
            }
            if 0 <= p < listing.len() && is_stale(listing[p], prefix, keep) {
                if p < last {
                    assert(before.contains(p));
                    let k = choose|k: int| 0 <= k < before.len() && before[k] == p;
                    assert(all[k] == p);
                } else {
                    assert(all[all.len() - 1] == p);
                }
            }
        }
        assert forall|i: int, j: int| 0 <= i < j < all.len() implies all[i] < all[j] by {
            if j >= before.len() {
                assert(before[i] == all[i]);
                assert(before.contains(all[i]));
            }
        }
    }
}

/// Whether `entry` has the name of an install of the tool, of whatever
/// version.
pub open spec fn is_install(entry: DirEntryView, prefix: Seq<char>) -> bool {
    match entry {
        DirEntryView::Named { name, exact } => prefix.is_prefix_of(name),
        DirEntryView::Unreadable => false,
    }
}

/// After an install of `version`, and once every entry that is to go is
/// gone, no install of another version is left: the entries of the listing
/// that stay and have the name of an install are exactly those that are
/// the directory of `version` itself. So a working directory that held the
/// new install once, beside any number of others, holds one install in the
/// end.
pub proof fn lemma_prune_leaves_one_version(
    listing: Seq<DirEntryView>,
    tool_name: Seq<char>,
    version: Seq<char>,
)
    ensures
        ({
            let prefix = version_dir_prefix_of(tool_name);
            let keep = version_dir_of(tool_name, version);
            let gone = stale_positions(listing, prefix, keep);
            forall|p: int|
                0 <= p < listing.len() ==> ((!gone.contains(p) && is_install(
                    #[trigger] listing[p],
                    prefix,
                )) <==> listing[p] == (DirEntryView::Named { name: keep, exact: true }))
        }),
{
    let prefix = version_dir_prefix_of(tool_name);
    let keep = version_dir_of(tool_name, version);
    lemma_stale_positions(listing, prefix, keep);
    assert(keep.subrange(0, prefix.len() as int) =~= prefix);
}

} // verus!
