//! Releases on GitHub and the assets attached to them.

use vstd::prelude::*;

verus! {

/// An asset of a release.
#[derive(Debug, PartialEq, Eq)]
pub struct GithubReleaseAsset {
    pub name: String,
    pub download_url: String,
}

/// A release.
#[derive(Debug, PartialEq, Eq)]
pub struct GithubRelease {
    pub version: String,
    pub assets: Vec<GithubReleaseAsset>,
}

/// Which releases count as the latest.
#[derive(Clone, Copy, Debug, PartialEq, Eq, Structural)]
pub struct GithubReleaseOptions {
    pub require_assets: bool,
    pub pre_release: bool,
}

/// What a [`GithubReleaseAsset`] stands for.
pub struct AssetModel {
    pub name: Seq<char>,
    pub download_url: Seq<char>,
}

/// What a [`GithubRelease`] stands for.
pub struct ReleaseModel {
    pub version: Seq<char>,
    pub assets: Seq<AssetModel>,
}

impl DeepView for GithubReleaseAsset {
    type V = AssetModel;

    open spec fn deep_view(&self) -> AssetModel {
        AssetModel { name: self.name@, download_url: self.download_url@ }
    }
}

impl DeepView for GithubRelease {
    type V = ReleaseModel;

    open spec fn deep_view(&self) -> ReleaseModel {
        ReleaseModel { version: self.version@, assets: self.assets.deep_view() }
    }
}

/// The first of `assets` that is called `name`.
pub open spec fn first_named(assets: Seq<AssetModel>, name: Seq<char>) -> Option<AssetModel>
    decreases assets.len(),
{
    if assets.len() == 0 {
        None
    } else if assets.first().name == name {
        Some(assets.first())
    } else {
        first_named(assets.drop_first(), name)
    }
}

impl GithubRelease {
    /// The first asset of the release that is called `name`.
    pub fn find_asset(&self, name: &String) -> (res: Option<&GithubReleaseAsset>)
        ensures
            res.deep_view() == first_named(self.deep_view().assets, name@),
    {
        let ghost assets = self.deep_view().assets;
        let mut i: usize = 0;
        assert(assets.skip(0) =~= assets);
        while i < self.assets.len()
            invariant
                i <= self.assets.len(),
                assets == self.assets.deep_view(),
                first_named(assets, name@) == first_named(assets.skip(i as int), name@),
            decreases self.assets.len() - i,
        {
            let asset = &self.assets[i];
            assert(assets.skip(i as int).first() == asset.deep_view());
            if asset.name == *name {
                return Some(asset);
            }
            assert(assets.skip(i as int).drop_first() =~= assets.skip(i + 1));
            i = i + 1;
        }
        None
    }
}

/// The asset found is one of the release's and has the name; no earlier one has it; and none is
/// found only where none has it.
pub proof fn law_first_named(assets: Seq<AssetModel>, name: Seq<char>)
    ensures
        match first_named(assets, name) {
            Some(asset) => exists|i: int|
                0 <= i < assets.len() && #[trigger] assets[i] == asset && asset.name == name && (
                forall|j: int| 0 <= j < i ==> (#[trigger] assets[j]).name != name),
            None => forall|j: int| 0 <= j < assets.len() ==> (#[trigger] assets[j]).name != name,
        },
    decreases assets.len(),
{
    if assets.len() > 0 && assets.first().name != name {
        let rest = assets.drop_first();
        law_first_named(rest, name);
        match first_named(rest, name) {
            Some(asset) => {
                let i = choose|i: int|
                    0 <= i < rest.len() && #[trigger] rest[i] == asset && asset.name == name && (
                    forall|j: int| 0 <= j < i ==> (#[trigger] rest[j]).name != name);
                assert(assets[i + 1] == asset);
                assert forall|j: int| 0 <= j < i + 1 implies (#[trigger] assets[j]).name
                    != name by {
                    if j > 0 {
                        assert(rest[j - 1] == assets[j]);
                    }
                }
            },
            None => {
                assert forall|j: int| 0 <= j < assets.len() implies (#[trigger] assets[j]).name
                    != name by {
                    if j > 0 {
                        assert(rest[j - 1] == assets[j]);
                    }
                }
            },
        }
    }
}

} // verus!
