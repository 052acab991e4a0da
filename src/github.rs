use vstd::prelude::*;
use crate::api::ResolveError;
use crate::text::{decimal, decimal_string};

verus! {

/// The latest release of a repository, as the release feed describes it.
#[derive(Clone, Debug, PartialEq, Eq)]
pub struct Release {
    pub id: usize,
    pub tag_name: String,
    pub assets: Vec<Asset>,
}

/// A file attached to a release.
#[derive(Clone, Debug, PartialEq, Eq)]
pub struct Asset {
    pub name: String,
    pub browser_download_url: String,
}

/// The hash that stands for a release: derived from its identifier, not
/// from the bytes of its files.
pub open spec fn spec_release_hash(id: usize) -> Seq<char> {
    "github-"@ + decimal(id as nat)
}

/// The address of the latest release of `owner/repo`.
pub open spec fn spec_release_url(owner: Seq<char>, repo: Seq<char>) -> Seq<char> {
    "https://api.github.com/repos/"@ + owner + "/"@ + repo + "/releases/latest"@
}

impl Release {
    /// The hash under which this release is stored.
    pub fn version_hash(&self) -> (r: String)
        ensures
            r@ == spec_release_hash(self.id),
    {
        let mut r = String::from_str("github-");
        r.append(decimal_string(self.id).as_str());
        r
    }
}

/// The address of the latest release of `owner/repo`.
pub fn release_url(owner: &str, repo: &str) -> (r: String)
    ensures
        r@ == spec_release_url(owner@, repo@),
{
    let mut r = String::from_str("https://api.github.com/repos/");
    r.append(owner);
    r.append("/");
    r.append(repo);
    r.append("/releases/latest");
    r
}

/// The first asset named `file_name`.
pub fn find_asset(assets: Vec<Asset>, file_name: &str) -> (r: Result<Asset, ResolveError>)
    ensures
        match r {
            Ok(a) => exists|i: int|
                0 <= i < assets@.len() && assets@[i] == a && a.name@ == file_name@
                    && forall|j: int| 0 <= j < i ==> (#[trigger] assets@[j]).name@ != file_name@,
            Err(e) => e == ResolveError::AssetNotFound && forall|i: int|
                0 <= i < assets@.len() ==> (#[trigger] assets@[i]).name@ != file_name@,
        },
{
    let wanted = String::from_str(file_name);
    let mut i: usize = 0;
    while i < assets.len()
        invariant
            wanted@ == file_name@,
            i <= assets@.len(),
            forall|j: int| 0 <= j < i ==> (#[trigger] assets@[j]).name@ != file_name@,
        decreases assets@.len() - i,
    {
        if assets[i].name == wanted {
            let ghost listed = assets@;
            let mut assets = assets;
            let a = assets.remove(i);
            assert(listed[i as int] == a);
            return Ok(a);
        }
        i += 1;
    }
    Err(ResolveError::AssetNotFound)
}

} // verus!
