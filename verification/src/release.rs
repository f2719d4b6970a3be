//! Releases and their assets, and the choice of the one asset that fits a
//! platform.

use crate::error::ErrorKind;
use crate::platform::{host_target, name_fits, name_matches, target_named, Target};
use vstd::prelude::*;

verus! {

/// One downloadable artifact of a release. A field is `None` where the
/// release listing gives no text for it.
#[derive(Clone, Debug, PartialEq, Eq)]
pub struct Asset {
    pub name: Option<String>,
    pub download_url: Option<String>,
}

/// Mathematical model of an [`Asset`].
pub struct AssetModel {
    pub name: Option<Seq<char>>,
    pub download_url: Option<Seq<char>>,
}

impl View for Asset {
    type V = AssetModel;

    open spec fn view(&self) -> AssetModel {
        AssetModel { name: self.name.deep_view(), download_url: self.download_url.deep_view() }
    }
}

impl DeepView for Asset {
    type V = AssetModel;

    open spec fn deep_view(&self) -> AssetModel {
        self@
    }
}

/// A published release: its display name, its tag, and its assets in the
/// order of the listing.
#[derive(Clone, Debug, PartialEq, Eq)]
pub struct Release {
    pub name: Option<String>,
    pub tag: String,
    pub assets: Vec<Asset>,
}

/// Mathematical model of a [`Release`].
pub struct ReleaseModel {
    pub name: Option<Seq<char>>,
    pub tag: Seq<char>,
    pub assets: Seq<AssetModel>,
}

impl View for Release {
    type V = ReleaseModel;

    open spec fn view(&self) -> ReleaseModel {
        ReleaseModel {
            name: self.name.deep_view(),
            tag: self.tag@,
            assets: self.assets.deep_view(),
        }
    }
}

impl DeepView for Release {
    type V = ReleaseModel;

    open spec fn deep_view(&self) -> ReleaseModel {
        self@
    }
}

/// The asset has a name, and the name fits the target.
pub open spec fn asset_fits(asset: AssetModel, target: Target) -> bool {
    match asset.name {
        Some(name) => name_fits(name, target),
        None => false,
    }
}

/// The assets that fit the target, in their order.
pub open spec fn fitting_assets(assets: Seq<AssetModel>, target: Target) -> Seq<AssetModel> {
    assets.filter(|asset: AssetModel| asset_fits(asset, target))
}

/// The name under which a release is shown: its display name, or its tag
/// where it has none.
pub open spec fn shown_name(release: ReleaseModel) -> Seq<char> {
    match release.name {
        Some(name) => name,
        None => release.tag,
    }
}

/// Position `i` holds the only asset that fits the target.
pub open spec fn is_only_fit(assets: Seq<AssetModel>, target: Target, i: int) -> bool {
    &&& 0 <= i < assets.len()
    &&& asset_fits(assets[i], target)
    &&& forall|j: int| 0 <= j < assets.len() && asset_fits(#[trigger] assets[j], target) ==> j == i
}

/// Whether the asset is built for the target.
pub fn asset_matches(asset: &Asset, target: Target) -> (fits: bool)
    ensures
        fits == asset_fits(asset@, target),
{
    match &asset.name {
        Some(name) => name_matches(name.as_str(), target),
        None => false,
    }
}

/// Selects the asset of the release that fits the target. Succeeds exactly
/// where one asset fits, with that asset; fails with `AmbiguousAsset` where
/// none or more than one does.
pub fn select_asset<'a>(release: &'a Release, target: Target) -> (selected: Result<
    &'a Asset,
    ErrorKind,
>)
    ensures
        match selected {
            Ok(asset) => {
                &&& fitting_assets(release@.assets, target).len() == 1
                &&& asset@ == fitting_assets(release@.assets, target)[0]
            },
            Err(kind) => {
                &&& fitting_assets(release@.assets, target).len() != 1
                &&& kind == ErrorKind::AmbiguousAsset
            },
        },
{
    let assets = &release.assets;
    let ghost models = release@.assets;
    let ghost fits = |asset: AssetModel| asset_fits(asset, target);
    let mut candidates: usize = 0;
    let mut first: usize = 0;
    let mut i: usize = 0;
    while i < assets.len()
        invariant
            i <= assets.len(),
            models == release@.assets,
            models.len() == assets.len(),
            assets == &release.assets,
            fits == (|asset: AssetModel| asset_fits(asset, target)),
            candidates == models.take(i as int).filter(fits).len(),
            candidates <= i,
            candidates > 0 ==> first < i && models.take(i as int).filter(fits)[0]
                == assets[first as int]@,
        decreases assets.len() - i,
    {
        proof {
            assert(models.take(i + 1) =~= models.take(i as int).push(models[i as int]));
            Seq::lemma_filter_push(models.take(i as int), models[i as int], fits);
        }
        if asset_matches(&assets[i], target) {
            if candidates == 0 {
                first = i;
            }
            candidates += 1;
        }
        i += 1;
    }
    proof {
        assert(models.take(i as int) =~= models);
    }
    if candidates == 1 {
        Ok(&assets[first])
    } else {
        Err(ErrorKind::AmbiguousAsset)
    }
}

/// Selects the asset of the release for the platform that goes by these
/// names (see [`host_target`]). Fails with `AmbiguousAsset` where artifacts
/// are published for no such platform, and otherwise as [`select_asset`]
/// does.
pub fn select_asset_for<'a>(release: &'a Release, arch: &str, os: &str, musl: bool) -> (selected:
    Result<&'a Asset, ErrorKind>)
    ensures
        match (target_named(arch@, os@, musl), selected) {
            (Some(target), Ok(asset)) => {
                &&& fitting_assets(release@.assets, target).len() == 1
                &&& asset@ == fitting_assets(release@.assets, target)[0]
            },
            (Some(target), Err(kind)) => {
                &&& fitting_assets(release@.assets, target).len() != 1
                &&& kind == ErrorKind::AmbiguousAsset
            },
            (None, outcome) => outcome == Err::<&Asset, ErrorKind>(ErrorKind::AmbiguousAsset),
        },
{
    match host_target(arch, os, musl) {
        Some(target) => select_asset(release, target),
        None => Err(ErrorKind::AmbiguousAsset),
    }
}

/// The name under which the release is shown.
pub fn display_name(release: &Release) -> (name: &str)
    ensures
        name@ == shown_name(release@),
{
    match &release.name {
        Some(name) => name.as_str(),
        None => release.tag.as_str(),
    }
}

/// The selection succeeds exactly where one asset, and no other, has a name
/// that satisfies all three predicates for the target; that asset is the one
/// selected.
pub proof fn lemma_selected_iff_only_fit(assets: Seq<AssetModel>, target: Target)
    ensures
        fitting_assets(assets, target).len() == 1 <==> exists|i: int|
            is_only_fit(assets, target, i),
        forall|i: int|
            is_only_fit(assets, target, i) ==> fitting_assets(assets, target)[0] == assets[i],
    decreases assets.len(),
{
    if assets.len() > 0 {
        let fits = |asset: AssetModel| asset_fits(asset, target);
        let front = assets.drop_last();
        let last = assets.len() - 1;
        assert(assets =~= front.push(assets.last()));
        Seq::lemma_filter_push(front, assets.last(), fits);
        lemma_none_fit(front, target);
        lemma_selected_iff_only_fit(front, target);
        if asset_fits(assets.last(), target) {
            // The last asset fits: it is the only one exactly where none before it fits.
            if fitting_assets(front, target).len() == 0 {
                assert(is_only_fit(assets, target, last));
            }
            assert forall|i: int| is_only_fit(assets, target, i) implies i == last
                && fitting_assets(front, target).len() == 0 by {
                assert forall|j: int| 0 <= j < front.len() implies !asset_fits(
                    #[trigger] front[j],
                    target,
                ) by {}
            }
        } else {
            // The last asset does not fit: the only fit is the same with or without it.
            assert forall|i: int| is_only_fit(front, target, i) implies is_only_fit(
                assets,
                target,
                i,
            ) by {}
            assert forall|i: int| is_only_fit(assets, target, i) implies is_only_fit(
                front,
                target,
                i,
            ) by {}
        }
    }
}

/// No asset is kept exactly where no asset fits.
proof fn lemma_none_fit(assets: Seq<AssetModel>, target: Target)
    ensures
        fitting_assets(assets, target).len() == 0 <==> forall|j: int|
            0 <= j < assets.len() ==> !asset_fits(#[trigger] assets[j], target),
    decreases assets.len(),
{
    if assets.len() > 0 {
        let fits = |asset: AssetModel| asset_fits(asset, target);
        let front = assets.drop_last();
        assert(assets =~= front.push(assets.last()));
        Seq::lemma_filter_push(front, assets.last(), fits);
        lemma_none_fit(front, target);
        if !asset_fits(assets.last(), target) && fitting_assets(front, target).len() > 0 {
            let j = choose|j: int| 0 <= j < front.len() && asset_fits(#[trigger] front[j], target);
            assert(asset_fits(assets[j], target));
        }
    }
}

} // verus!
