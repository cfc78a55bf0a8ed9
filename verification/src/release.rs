//! Releases of a tool and the files attached to them.

use crate::model::views;
use vstd::prelude::*;
use vstd::string::*;

verus! {

/// A downloadable file attached to a release.
#[derive(Debug, PartialEq, Eq)]
pub struct Asset {
    pub name: String,
    pub download_url: String,
}

/// An [`Asset`] as plain values.
pub struct AssetView {
    pub name: Seq<char>,
    pub download_url: Seq<char>,
}

impl View for Asset {
    type V = AssetView;

    open spec fn view(&self) -> AssetView {
        AssetView { name: self.name@, download_url: self.download_url@ }
    }
}

/// One release of a tool: its version and its files, in the order in which
/// the release lists them.
#[derive(Debug, PartialEq, Eq)]
pub struct ReleaseDescriptor {
    pub version: String,
    pub assets: Vec<Asset>,
}

/// A [`ReleaseDescriptor`] as plain values.
pub struct ReleaseView {
    pub version: Seq<char>,
    pub assets: Seq<AssetView>,
}

impl View for ReleaseDescriptor {
    type V = ReleaseView;

    open spec fn view(&self) -> ReleaseView {
        ReleaseView {
            version: self.version@,
            assets: views(self.assets@),
        }
    }
}

/// The first of `assets` whose name is exactly `name`, if there is one.
pub open spec fn first_named(assets: Seq<AssetView>, name: Seq<char>) -> Option<AssetView>
    decreases assets.len(),
{
    if assets.len() == 0 {
        None
    } else if assets[0].name == name {
        Some(assets[0])
    } else {
        first_named(assets.drop_first(), name)
    }
}

/// `first_named` finds nothing exactly when no asset has the name, and
/// otherwise finds an asset of that name before which none has it.
pub proof fn lemma_first_named(assets: Seq<AssetView>, name: Seq<char>)
    ensures
        first_named(assets, name) is None <==> forall|i: int|
            0 <= i < assets.len() ==> (#[trigger] assets[i]).name != name,
        first_named(assets, name) is Some ==> exists|i: int|
            0 <= i < assets.len() && #[trigger] assets[i] == first_named(assets, name)->0
                && assets[i].name == name && forall|j: int|
                0 <= j < i ==> (#[trigger] assets[j]).name != name,
    decreases assets.len(),
{
    if assets.len() == 0 {
    } else if assets[0].name == name {
        assert(assets[0] == first_named(assets, name)->0);
    } else {
        let rest = assets.drop_first();
        lemma_first_named(rest, name);
        assert(forall|i: int| 0 <= i < rest.len() ==> rest[i] == assets[i + 1]);
        if first_named(rest, name) is Some {
            let i = choose|i: int|
                0 <= i < rest.len() && #[trigger] rest[i] == first_named(rest, name)->0
                    && rest[i].name == name && forall|j: int|
                    0 <= j < i ==> (#[trigger] rest[j]).name != name;
            assert(assets[i + 1] == first_named(assets, name)->0);
            assert forall|j: int| 0 <= j < i + 1 implies (#[trigger] assets[j]).name != name by {
                if j > 0 {
                    assert(rest[j - 1] == assets[j]);
                }
            }
        } else {
            assert forall|i: int| 0 <= i < assets.len() implies (#[trigger] assets[i]).name
                != name by {
                if i > 0 {
                    assert(rest[i - 1] == assets[i]);
                }
            }
        }
    }
}

impl ReleaseDescriptor {
    /// The first file of this release whose name is exactly `name`.
    pub fn find_asset(&self, name: &str) -> (found: Option<&Asset>)
        ensures
            match found {
                Some(asset) => first_named(self@.assets, name@) == Some(asset@),
                None => first_named(self@.assets, name@) is None,
            },
    {
        let wanted = String::from_str(name);
        let mut i: usize = 0;
        assert(self@.assets.skip(0) =~= self@.assets);
        while i < self.assets.len()
            invariant
                i <= self.assets.len(),
                wanted@ == name@,
                first_named(self@.assets, name@) == first_named(
                    self@.assets.skip(i as int),
                    name@,
                ),
            decreases self.assets.len() - i,
        {
            let ghost rest = self@.assets.skip(i as int);
            assert(rest[0] == self.assets@[i as int]@);
            if self.assets[i].name == wanted {
                return Some(&self.assets[i]);
            }
            assert(rest.drop_first() =~= self@.assets.skip(i + 1));
            i = i + 1;
        }
        None
    }
}

} // verus!
