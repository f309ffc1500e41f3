//! Release metadata and the choice of the archive to download.

use vstd::prelude::*;
use crate::platform::{archive_suffix, Platform};
use crate::text::{ends_with, has_suffix};

verus! {

/// One downloadable file of a release.
#[derive(Clone, Debug)]
pub struct Asset {
    pub name: String,
    pub browser_download_url: String,
}

/// What an asset holds, as character sequences.
pub struct AssetView {
    pub name: Seq<char>,
    pub url: Seq<char>,
}

impl View for Asset {
    type V = AssetView;

    open spec fn view(&self) -> AssetView {
        AssetView { name: self.name@, url: self.browser_download_url@ }
    }
}

/// A release, reduced to the list of its assets.
#[derive(Clone, Debug)]
pub struct Release {
    pub assets: Vec<Asset>,
}

impl View for Release {
    type V = Seq<AssetView>;

    open spec fn view(&self) -> Seq<AssetView> {
        self.assets@.map_values(|a: Asset| a@)
    }
}

/// Why no archive could be chosen from a release.
#[derive(Clone, Debug, PartialEq, Eq)]
pub enum ResolveError {
    /// No asset name ends with the given suffix.
    NoMatchingAsset(String),
}

/// `i` is the first position whose asset name ends with `suffix`.
pub open spec fn is_first_match(assets: Seq<AssetView>, suffix: Seq<char>, i: int) -> bool {
    &&& 0 <= i < assets.len()
    &&& has_suffix(assets[i].name, suffix)
    &&& forall|j: int| 0 <= j < i ==> !has_suffix(#[trigger] assets[j].name, suffix)
}

/// Position of the first asset whose name ends with `suffix`, if any.
pub open spec fn first_match(assets: Seq<AssetView>, suffix: Seq<char>) -> Option<int> {
    if exists|i: int| is_first_match(assets, suffix, i) {
        Some(choose|i: int| is_first_match(assets, suffix, i))
    } else {
        None
    }
}

/// There is at most one first match.
pub proof fn lemma_first_match_unique(assets: Seq<AssetView>, suffix: Seq<char>, i: int, k: int)
    requires
        is_first_match(assets, suffix, i),
        is_first_match(assets, suffix, k),
    ensures
        i == k,
{
    if i < k {
        assert(!has_suffix(assets[i].name, suffix));
    } else if k < i {
        assert(!has_suffix(assets[k].name, suffix));
    }
}

/// A first match exists exactly when some asset name ends with `suffix`.
pub proof fn lemma_first_match_exists(assets: Seq<AssetView>, suffix: Seq<char>, i: int)
    requires
        0 <= i < assets.len(),
        has_suffix(assets[i].name, suffix),
    ensures
        first_match(assets, suffix) is Some,
        first_match(assets, suffix)->Some_0 <= i,
        is_first_match(assets, suffix, first_match(assets, suffix)->Some_0),
    decreases i,
{
    if is_first_match(assets, suffix, i) {
    } else {
        let j = choose|j: int| 0 <= j < i && has_suffix(#[trigger] assets[j].name, suffix);
        lemma_first_match_exists(assets, suffix, j);
    }
}

/// Position of the first asset whose name ends with `suffix`.
pub fn find_asset(release: &Release, suffix: &str) -> (r: Option<usize>)
    ensures
        r matches Some(i) ==> first_match(release@, suffix@) == Some(i as int),
        r is None ==> first_match(release@, suffix@) is None,
        r is None <==> forall|j: int|
            0 <= j < release@.len() ==> !has_suffix(#[trigger] release@[j].name, suffix@),
{
    let n = release.assets.len();
    let mut i: usize = 0;
    while i < n
        invariant
            n == release.assets@.len(),
            n == release@.len(),
            i <= n,
            forall|j: int| 0 <= j < i ==> !has_suffix(#[trigger] release@[j].name, suffix@),
        decreases n - i,
    {
        if ends_with(release.assets[i].name.as_str(), suffix) {
            proof {
                assert(release@[i as int] == release.assets@[i as int]@);
                assert(is_first_match(release@, suffix@, i as int));
                let k = choose|k: int| is_first_match(release@, suffix@, k);
                lemma_first_match_unique(release@, suffix@, i as int, k);
            }
            return Some(i);
        }
        assert(release@[i as int] == release.assets@[i as int]@);
        i = i + 1;
    }
    None
}

/// Download location of the archive built for `platform`: the URL of the first
/// asset whose name ends with `{os}-{arch}.zip`.
pub fn resolve_download_url(release: &Release, platform: &Platform) -> (r: Result<
    String,
    ResolveError,
>)
    ensures
        ({
            let suffix = archive_suffix(platform.os, platform.arch);
            &&& first_match(release@, suffix) matches Some(i) ==> (r matches Ok(u) && u@
                == release@[i].url)
            &&& first_match(release@, suffix) is None ==> (r matches Err(
                ResolveError::NoMatchingAsset(s),
            ) && s@ == suffix)
        }),
{
    let suffix = platform.asset_suffix();
    match find_asset(release, suffix.as_str()) {
        Some(i) => {
            assert(release@[i as int] == release.assets@[i as int]@);
            Ok(release.assets[i].browser_download_url.clone())
        },
        None => Err(ResolveError::NoMatchingAsset(suffix)),
    }
}

/// When exactly one asset matches, that asset is the one chosen.
pub proof fn lemma_single_match_chosen(assets: Seq<AssetView>, suffix: Seq<char>, i: int)
    requires
        0 <= i < assets.len(),
        has_suffix(assets[i].name, suffix),
        forall|j: int| 0 <= j < assets.len() && has_suffix(#[trigger] assets[j].name, suffix) ==> j == i,
    ensures
        first_match(assets, suffix) == Some(i),
{
    lemma_first_match_exists(assets, suffix, i);
    let k = first_match(assets, suffix)->Some_0;
    assert(has_suffix(assets[k].name, suffix));
}

/// With exactly one matching asset, the chosen asset does not depend on the
/// order of the list: any reordering of the same assets leads to the same one.
pub proof fn lemma_choice_independent_of_order(
    a: Seq<AssetView>,
    b: Seq<AssetView>,
    suffix: Seq<char>,
    i: int,
)
    requires
        a.to_multiset() == b.to_multiset(),
        0 <= i < a.len(),
        has_suffix(a[i].name, suffix),
        forall|j: int| 0 <= j < a.len() && has_suffix(#[trigger] a[j].name, suffix) ==> j == i,
    ensures
        first_match(a, suffix) == Some(i),
        first_match(b, suffix) is Some,
        b[first_match(b, suffix)->Some_0] == a[i],
{
    lemma_single_match_chosen(a, suffix, i);
    a.to_multiset_ensures();
    b.to_multiset_ensures();
    assert(a.contains(a[i]));
    assert(a.to_multiset().count(a[i]) > 0);
    assert(b.contains(a[i]));
    let m = choose|m: int| 0 <= m < b.len() && b[m] == a[i];
    lemma_first_match_exists(b, suffix, m);
    let k = first_match(b, suffix)->Some_0;
    assert(b.contains(b[k]));
    assert(b.to_multiset().count(b[k]) > 0);
    assert(a.contains(b[k]));
    let j = choose|j: int| 0 <= j < a.len() && a[j] == b[k];
    assert(has_suffix(a[j].name, suffix));
}

} // verus!
