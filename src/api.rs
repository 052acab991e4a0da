use vstd::prelude::*;
use crate::text::{hyphenated, uuid_text};

verus! {

/// The portal's metadata of one artifact. Identifiers are 128-bit values.
#[derive(Clone, Debug, PartialEq, Eq)]
pub struct Artifact {
    pub id: u128,
    pub slug: String,
    pub name: String,
    pub description: String,
    pub default_track: u128,
    pub sort_index: String,
    pub private: bool,
}

/// A release channel of an artifact, pointing at its latest version.
#[derive(Clone, Debug, PartialEq, Eq)]
pub struct Track {
    pub id: u128,
    pub artifact: u128,
    pub slug: String,
    pub name: String,
    pub last_version: u128,
    pub sort_index: String,
    pub private: bool,
}

/// One published version of an artifact on a track.
#[derive(Clone, Debug, PartialEq, Eq)]
pub struct Version {
    pub id: u128,
    pub artifact: u128,
    pub track: u128,
    /// Milliseconds since the Unix epoch.
    pub timestamp: i64,
    pub version: String,
    pub version_hash: String,
    pub file_size: String,
    pub file_name: String,
    pub file_extension: String,
    pub file_type: String,
    pub requires_signing: bool,
    pub download_count: String,
}

/// The portal's answer for an artifact.
#[derive(Clone, Debug, PartialEq, Eq)]
pub struct ArtifactResponse {
    pub artifact: Artifact,
    pub tracks: Vec<Track>,
}

/// The portal's answer for a track of an artifact.
#[derive(Clone, Debug, PartialEq, Eq)]
pub struct TrackResponse {
    pub artifact: Artifact,
    pub track: Track,
    pub versions: Vec<Version>,
}

/// The portal's answer for one version.
#[derive(Clone, Debug, PartialEq, Eq)]
pub struct VersionResponse {
    pub artifact: Artifact,
    pub track: Track,
    pub version: Version,
}

/// Why the latest version of an artifact could not be determined from what
/// its source returned.
#[derive(Clone, Copy, Debug, PartialEq, Eq, Structural)]
pub enum ResolveError {
    /// The track's latest version is not among the versions listed for it.
    NotFound,
    /// The latest release holds no asset with the artifact's file name.
    AssetNotFound,
}

/// The base address of the portal's artifact metadata.
pub const ARTIFACTS_URL: &'static str = "https://valth.run/api/artifacts/";

/// The address of the metadata of the artifact `slug`.
pub open spec fn spec_artifact_url(slug: Seq<char>) -> Seq<char> {
    ARTIFACTS_URL@ + slug
}

/// The address of the versions of `track` of the artifact `slug`.
pub open spec fn spec_track_url(slug: Seq<char>, track: Seq<char>) -> Seq<char> {
    ARTIFACTS_URL@ + slug + "/"@ + track
}

/// The address from which a version is downloaded.
pub open spec fn spec_download_url(artifact: Seq<char>, track: u128, id: u128) -> Seq<char> {
    ARTIFACTS_URL@ + artifact + "/"@ + hyphenated(track) + "/"@ + hyphenated(id) + "/download"@
}

/// The address of the metadata of the artifact `slug`.
pub fn artifact_url(slug: &str) -> (r: String)
    ensures
        r@ == spec_artifact_url(slug@),
{
    let mut r = String::from_str(ARTIFACTS_URL);
    r.append(slug);
    r
}

/// The address of the versions of `track` of the artifact `slug`.
pub fn track_url(slug: &str, track: &str) -> (r: String)
    ensures
        r@ == spec_track_url(slug@, track@),
{
    let mut r = String::from_str(ARTIFACTS_URL);
    r.append(slug);
    r.append("/");
    r.append(track);
    r
}

/// The address from which `version` of the artifact named `artifact` (its
/// slug or its identifier) is downloaded.
pub fn download_url(artifact: &str, version: &Version) -> (r: String)
    ensures
        r@ == spec_download_url(artifact@, version.track, version.id),
{
    let mut r = String::from_str(ARTIFACTS_URL);
    r.append(artifact);
    r.append("/");
    r.append(uuid_text(version.track).as_str());
    r.append("/");
    r.append(uuid_text(version.id).as_str());
    r.append("/download");
    r
}

/// The track that is resolved when none is asked for: the artifact's default.
pub fn default_track_slug(artifact: &Artifact) -> (r: String)
    ensures
        r@ == hyphenated(artifact.default_track),
{
    uuid_text(artifact.default_track)
}

/// The entry whose identifier is the track's latest version; the first such
/// entry if several carry it.
pub fn find_latest_version(response: TrackResponse) -> (r: Result<Version, ResolveError>)
    ensures
        match r {
            Ok(v) => exists|i: int|
                0 <= i < response.versions@.len() && response.versions@[i] == v
                    && v.id == response.track.last_version
                    && forall|j: int| 0 <= j < i ==> (#[trigger] response.versions@[j]).id != response.track.last_version,
            Err(e) => e == ResolveError::NotFound && forall|i: int|
                0 <= i < response.versions@.len() ==> (#[trigger] response.versions@[i]).id != response.track.last_version,
        },
{
    let last = response.track.last_version;
    let mut i: usize = 0;
    while i < response.versions.len()
        invariant
            last == response.track.last_version,
            i <= response.versions@.len(),
            forall|j: int| 0 <= j < i ==> (#[trigger] response.versions@[j]).id != last,
        decreases response.versions@.len() - i,
    {
        if response.versions[i].id == last {
            let ghost listed = response.versions@;
            let mut versions = response.versions;
            let v = versions.remove(i);
            assert(listed[i as int] == v);
            return Ok(v);
        }
        i += 1;
    }
    Err(ResolveError::NotFound)
}

} // verus!
