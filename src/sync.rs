use vstd::prelude::*;
use crate::api::{download_url, spec_download_url, ResolveError, Version};
use crate::github::{find_asset, spec_release_hash, Release};
use crate::version::{compare_hashes, same_hash};

verus! {

/// What the download decision needs of a resolved version: its content hash
/// and the address of its file.
#[derive(Clone, Debug, PartialEq, Eq)]
pub struct Resolved {
    pub hash: String,
    pub download_url: String,
}

/// The resolved form of a portal version of the artifact `slug`.
pub fn resolve_portal(slug: &str, version: &Version) -> (r: Resolved)
    ensures
        r.hash@ == version.version_hash@,
        r.download_url@ == spec_download_url(slug@, version.track, version.id),
{
    Resolved { hash: version.version_hash.clone(), download_url: download_url(slug, version) }
}

/// The resolved form of a release whose asset `file_name` is the artifact.
/// Fails when no asset carries that name.
pub fn resolve_release(release: Release, file_name: &str) -> (r: Result<Resolved, ResolveError>)
    ensures
        (r is Ok) <==> exists|i: int| 0 <= i < release.assets@.len() && (#[trigger] release.assets@[i]).name@ == file_name@,
        r is Err ==> r->Err_0 == ResolveError::AssetNotFound,
        r is Ok ==> r->Ok_0.hash@ == spec_release_hash(release.id),
        r is Ok ==> exists|i: int|
            0 <= i < release.assets@.len() && (#[trigger] release.assets@[i]).name@ == file_name@
                && release.assets@[i].browser_download_url@ == r->Ok_0.download_url@
                && forall|j: int| 0 <= j < i ==> (#[trigger] release.assets@[j]).name@ != file_name@,
{
    let hash = release.version_hash();
    match find_asset(release.assets, file_name) {
        Ok(asset) => Ok(Resolved { hash, download_url: asset.browser_download_url }),
        Err(e) => Err(e),
    }
}

/// Whether the artifact must be fetched: unless the file is present and the
/// stored hash is the resolved one.
pub open spec fn spec_should_download(file_exists: bool, stored_hash: Option<Seq<char>>, latest: Seq<char>) -> bool {
    !(file_exists && stored_hash is Some && same_hash(stored_hash->Some_0, latest))
}

/// Decides whether the artifact must be fetched again.
pub fn should_download(file_exists: bool, stored_hash: &Option<String>, latest_hash: &str) -> (r: bool)
    ensures
        r == spec_should_download(file_exists, match stored_hash { Some(h) => Some(h@), None => None }, latest_hash@),
        !r <==> (file_exists && stored_hash is Some && same_hash(stored_hash->Some_0@, latest_hash@)),
{
    match stored_hash {
        Some(h) => !file_exists || !compare_hashes(h.as_str(), latest_hash),
        None => true,
    }
}

/// What to do about an artifact whose latest version is resolved.
#[derive(Clone, Debug, PartialEq, Eq)]
pub enum DownloadPlan {
    /// The local file is current.
    Skip,
    /// Fetch the file from `url`, then store `hash` for the artifact.
    Fetch { url: String, hash: String },
}

/// Plans the download of a resolved version.
pub fn plan_download(resolved: Resolved, file_exists: bool, stored_hash: &Option<String>) -> (r: DownloadPlan)
    ensures
        (r is Skip) <==> (file_exists && stored_hash is Some && same_hash(stored_hash->Some_0@, resolved.hash@)),
        r is Fetch ==> r->url@ == resolved.download_url@ && r->Fetch_hash@ == resolved.hash@,
{
    if should_download(file_exists, stored_hash, resolved.hash.as_str()) {
        DownloadPlan::Fetch { url: resolved.download_url, hash: resolved.hash }
    } else {
        DownloadPlan::Skip
    }
}

/// A download is skipped exactly when the file is present and its stored
/// hash equals the resolved one; every other combination downloads.
pub proof fn lemma_download_skipped_iff_current(file_exists: bool, stored: Option<Seq<char>>, latest: Seq<char>)
    ensures
        !spec_should_download(file_exists, stored, latest) <==> (file_exists && stored is Some && same_hash(
            stored->Some_0,
            latest,
        )),
        !file_exists ==> spec_should_download(file_exists, stored, latest),
        stored is None ==> spec_should_download(file_exists, stored, latest),
        stored is Some && !same_hash(stored->Some_0, latest) ==> spec_should_download(file_exists, stored, latest),
{
}

} // verus!
