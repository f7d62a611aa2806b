//! Releases as the registry publishes them, and the choice of the asset to
//! install.

use crate::archive::{format_of, lemma_suffix_of_suffix, ArchiveFormat};
use crate::failure::{Failure, FailureView};
use crate::text::{ends_with, joined, trim_leading, trim_start};
use vstd::prelude::*;
use vstd::string::StringExecFns;

verus! {

/// What this client calls itself towards the registry.
pub const USER_AGENT: &'static str = "Story-Launcher/1.0";

/// A file attached to a release.
#[derive(Debug, PartialEq, Eq)]
pub struct GitHubAsset {
    pub name: String,
    pub browser_download_url: String,
}

/// A published release: its tag and its assets, in the registry's order.
#[derive(Debug, PartialEq, Eq)]
pub struct GitHubRelease {
    pub tag_name: String,
    pub assets: Vec<GitHubAsset>,
}

/// A `GitHubAsset` with its texts as sequences of characters.
pub struct AssetView {
    pub name: Seq<char>,
    pub url: Seq<char>,
}

/// A `GitHubRelease` with its texts as sequences of characters.
pub struct ReleaseView {
    pub tag_name: Seq<char>,
    pub assets: Seq<AssetView>,
}

impl View for GitHubAsset {
    type V = AssetView;

    open spec fn view(&self) -> AssetView {
        AssetView { name: self.name@, url: self.browser_download_url@ }
    }
}

impl View for GitHubRelease {
    type V = ReleaseView;

    open spec fn view(&self) -> ReleaseView {
        ReleaseView {
            tag_name: self.tag_name@,
            assets: Seq::new(self.assets@.len(), |i: int| self.assets@[i]@),
        }
    }
}

impl Clone for GitHubAsset {
    fn clone(&self) -> (r: Self)
        ensures
            r@ == self@,
    {
        GitHubAsset {
            name: self.name.clone(),
            browser_download_url: self.browser_download_url.clone(),
        }
    }
}

impl Clone for GitHubRelease {
    fn clone(&self) -> (r: Self)
        ensures
            r@ == self@,
    {
        let mut assets: Vec<GitHubAsset> = Vec::new();
        let mut i: usize = 0;
        while i < self.assets.len()
            invariant
                i <= self.assets@.len(),
                assets@.len() == i,
                forall|j: int| 0 <= j < i ==> assets@[j]@ == self.assets@[j]@,
            decreases self.assets@.len() - i,
        {
            assets.push(self.assets[i].clone());
            i += 1;
        }
        let r = GitHubRelease { tag_name: self.tag_name.clone(), assets };
        assert(r@.assets =~= self@.assets);
        r
    }
}

/// The first asset, at or after `from`, whose name ends with `suffix`.
pub open spec fn first_with_suffix(assets: Seq<AssetView>, suffix: Seq<char>, from: int) -> Option<
    int,
>
    decreases assets.len() - from,
{
    if from < 0 || from >= assets.len() {
        None
    } else if suffix.is_suffix_of(assets[from].name) {
        Some(from)
    } else {
        first_with_suffix(assets, suffix, from + 1)
    }
}

/// The asset to install: the first packed application in a tar stream, else the
/// first packed application in a zip archive, else the first disk image.
pub open spec fn preferred_asset(assets: Seq<AssetView>) -> Option<int> {
    if first_with_suffix(assets, ".app.tar.gz"@, 0) is Some {
        first_with_suffix(assets, ".app.tar.gz"@, 0)
    } else if first_with_suffix(assets, ".app.zip"@, 0) is Some {
        first_with_suffix(assets, ".app.zip"@, 0)
    } else {
        first_with_suffix(assets, ".dmg"@, 0)
    }
}

/// An asset's name marks it as installable.
pub open spec fn is_installable(name: Seq<char>) -> bool {
    ||| ".app.tar.gz"@.is_suffix_of(name)
    ||| ".app.zip"@.is_suffix_of(name)
    ||| ".dmg"@.is_suffix_of(name)
}

/// `first_with_suffix` finds the least position, and finds one whenever an
/// asset's name ends with the suffix.
pub proof fn lemma_first_with_suffix(assets: Seq<AssetView>, suffix: Seq<char>, from: int)
    requires
        0 <= from,
    ensures
        match first_with_suffix(assets, suffix, from) {
            Some(i) => from <= i < assets.len() && suffix.is_suffix_of(assets[i].name)
                && forall|j: int| from <= j < i ==> !suffix.is_suffix_of(assets[j].name),
            None => forall|j: int|
                from <= j < assets.len() ==> !suffix.is_suffix_of(assets[j].name),
        },
    decreases assets.len() - from,
{
    if from < assets.len() && !suffix.is_suffix_of(assets[from].name) {
        lemma_first_with_suffix(assets, suffix, from + 1);
    }
}

/// The position of the first asset of `assets` whose name ends with `suffix`.
fn position_with_suffix(assets: &Vec<GitHubAsset>, suffix: &str) -> (r: Option<usize>)
    ensures
        match r {
            Some(i) => first_with_suffix(asset_views(assets@), suffix@, 0) == Some(i as int) && i
                < assets@.len(),
            None => first_with_suffix(asset_views(assets@), suffix@, 0) is None,
        },
{
    let ghost views = asset_views(assets@);
    let mut i: usize = 0;
    while i < assets.len()
        invariant
            i <= assets@.len(),
            views == asset_views(assets@),
            first_with_suffix(views, suffix@, 0) == first_with_suffix(views, suffix@, i as int),
        decreases assets@.len() - i,
    {
        if ends_with(assets[i].name.as_str(), suffix) {
            return Some(i);
        }
        i += 1;
    }
    None
}

/// The views of a run of assets.
pub open spec fn asset_views(assets: Seq<GitHubAsset>) -> Seq<AssetView> {
    Seq::new(assets.len(), |i: int| assets[i]@)
}

/// The asset of `release` to install, if it has one.
pub fn find_app_asset(release: &GitHubRelease) -> (r: Option<&GitHubAsset>)
    ensures
        match preferred_asset(release@.assets) {
            Some(i) => 0 <= i < release.assets@.len() && r == Some(&release.assets@[i]),
            None => r is None,
        },
{
    match position_with_suffix(&release.assets, ".app.tar.gz") {
        Some(i) => Some(&release.assets[i]),
        None => match position_with_suffix(&release.assets, ".app.zip") {
            Some(i) => Some(&release.assets[i]),
            None => match position_with_suffix(&release.assets, ".dmg") {
                Some(i) => Some(&release.assets[i]),
                None => None,
            },
        },
    }
}

/// Where a release lists a packed application in a tar stream, that kind is
/// chosen, whatever else the release lists: the first such asset.
pub proof fn lemma_tar_gz_preferred(assets: Seq<AssetView>, tar: int, other: int)
    requires
        0 <= tar < assets.len(),
        0 <= other < assets.len(),
        ".app.tar.gz"@.is_suffix_of(assets[tar].name),
        ".dmg"@.is_suffix_of(assets[other].name),
    ensures
        preferred_asset(assets) is Some,
        ".app.tar.gz"@.is_suffix_of(assets[preferred_asset(assets)->0].name),
        preferred_asset(assets)->0 <= tar,
        forall|j: int|
            0 <= j < preferred_asset(assets)->0 ==> !".app.tar.gz"@.is_suffix_of(assets[j].name),
{
    lemma_first_with_suffix(assets, ".app.tar.gz"@, 0);
}

/// The order of preference is total: a zip-packed application is chosen only
/// where no tar-packed one is listed, a disk image only where neither is.
pub proof fn lemma_preference_order(assets: Seq<AssetView>)
    ensures
        match preferred_asset(assets) {
            Some(i) => {
                &&& 0 <= i < assets.len()
                &&& is_installable(assets[i].name)
                &&& !".app.tar.gz"@.is_suffix_of(assets[i].name) ==> forall|j: int|
                    0 <= j < assets.len() ==> !".app.tar.gz"@.is_suffix_of(
                        #[trigger] assets[j].name,
                    )
                &&& !".app.tar.gz"@.is_suffix_of(assets[i].name) && !".app.zip"@.is_suffix_of(
                    assets[i].name,
                ) ==> forall|j: int|
                    0 <= j < assets.len() ==> !".app.zip"@.is_suffix_of(#[trigger] assets[j].name)
            },
            None => true,
        },
{
    lemma_first_with_suffix(assets, ".app.tar.gz"@, 0);
    lemma_first_with_suffix(assets, ".app.zip"@, 0);
    lemma_first_with_suffix(assets, ".dmg"@, 0);
}

/// An asset is chosen exactly where some asset is installable.
pub proof fn lemma_none_iff_nothing_installable(assets: Seq<AssetView>)
    ensures
        preferred_asset(assets) is None <==> forall|j: int|
            0 <= j < assets.len() ==> !is_installable(#[trigger] assets[j].name),
{
    lemma_first_with_suffix(assets, ".app.tar.gz"@, 0);
    lemma_first_with_suffix(assets, ".app.zip"@, 0);
    lemma_first_with_suffix(assets, ".dmg"@, 0);
}

/// The name of an installable asset announces an archive format.
pub proof fn lemma_installable_has_format(name: Seq<char>)
    requires
        is_installable(name),
    ensures
        ".app.tar.gz"@.is_suffix_of(name) ==> format_of(name) == Some(ArchiveFormat::TarGz),
        format_of(name) is Some,
{
    reveal_strlit(".app.tar.gz");
    reveal_strlit(".app.zip");
    reveal_strlit(".tar.gz");
    reveal_strlit(".zip");
    if ".app.tar.gz"@.is_suffix_of(name) {
        lemma_suffix_of_suffix(".tar.gz"@, ".app.tar.gz"@, name);
    } else if ".app.zip"@.is_suffix_of(name) {
        lemma_suffix_of_suffix(".zip"@, ".app.zip"@, name);
    }
}

/// The version that a release tag stands for: the tag without leading `v`s.
pub open spec fn version_text(tag: Seq<char>) -> Seq<char> {
    trim_leading(tag, 'v')
}

/// The version that a release tag stands for: the tag without leading `v`s.
pub fn version_of_tag(tag: &str) -> (r: String)
    ensures
        r@ == version_text(tag@),
{
    trim_start(tag, 'v')
}

/// The address that answers with the latest release of `repo`.
pub open spec fn latest_release_url_text(repo: Seq<char>) -> Seq<char> {
    "https://api.github.com/repos/"@ + repo + "/releases/latest"@
}

/// The address that answers with the latest release of `repo`.
pub fn latest_release_url(repo: &str) -> (r: String)
    ensures
        r@ == latest_release_url_text(repo@),
{
    joined("https://api.github.com/repos/", repo).concat("/releases/latest")
}

/// A status code in the range of success, 200 to 299.
pub open spec fn is_success(code: u16) -> bool {
    200 <= code < 300
}

/// What a status of the registry's answer means for the request for a release.
pub open spec fn release_status_failure(code: u16, status: Seq<char>) -> Option<FailureView> {
    if code == 403 {
        Some(FailureView::RateLimited)
    } else if code == 404 {
        Some(FailureView::NoReleases)
    } else if !is_success(code) {
        Some(FailureView::RegistryError { code, status })
    } else {
        None
    }
}

/// What a status means for a download.
pub open spec fn download_status_failure(code: u16, status: Seq<char>) -> Option<FailureView> {
    if !is_success(code) {
        Some(FailureView::HttpError { code, status })
    } else {
        None
    }
}

/// Reads the status of the registry's answer to the request for a release:
/// 403 is the rate limit, 404 means no release, any other status outside 200 to
/// 299 is reported with its text `status`. On success the body is due.
pub fn check_release_status(code: u16, status: &str) -> (r: Result<(), Failure>)
    ensures
        match release_status_failure(code, status@) {
            Some(f) => r is Err && r->Err_0@ == f,
            None => r is Ok,
        },
{
    if code == 403 {
        Err(Failure::RateLimited)
    } else if code == 404 {
        Err(Failure::NoReleases)
    } else if !(200 <= code && code < 300) {
        Err(Failure::RegistryError { code, status: status.to_owned() })
    } else {
        Ok(())
    }
}

/// Reads the status of the answer to a download: outside 200 to 299 it is
/// reported with its text `status`.
pub fn check_download_status(code: u16, status: &str) -> (r: Result<(), Failure>)
    ensures
        match download_status_failure(code, status@) {
            Some(f) => r is Err && r->Err_0@ == f,
            None => r is Ok,
        },
{
    if !(200 <= code && code < 300) {
        Err(Failure::HttpError { code, status: status.to_owned() })
    } else {
        Ok(())
    }
}

} // verus!
