use vstd::prelude::*;

use crate::text::{decimal, decimal_of, last_segment};
use crate::worker::{ends_in_parent, is_plain_name, is_portable_path, upload_key};

verus! {

/// An asset already attached to a release.
#[derive(Clone, Debug, PartialEq, Eq)]
pub struct ReleaseAsset {
    pub id: u64,
    pub name: String,
}

pub open spec fn release_by_tag_of(repo: Seq<char>, tag: Seq<char>) -> Seq<char> {
    "https://api.github.com/repos/"@ + repo + "/releases/tags/"@ + tag
}

/// The API address of the release tagged `tag` in `repo` (`owner/name`).
pub fn release_by_tag_url(repo: &str, tag: &str) -> (r: String)
    ensures
        r@ == release_by_tag_of(repo@, tag@),
{
    String::from_str("https://api.github.com/repos/").concat(repo).concat("/releases/tags/").concat(
        tag,
    )
}

pub open spec fn asset_of(repo: Seq<char>, asset_id: nat) -> Seq<char> {
    "https://api.github.com/repos/"@ + repo + "/releases/assets/"@ + decimal_of(asset_id)
}

/// The API address of one release asset, as used to delete it.
pub fn asset_url(repo: &str, asset_id: u64) -> (r: String)
    ensures
        r@ == asset_of(repo@, asset_id as nat),
{
    String::from_str("https://api.github.com/repos/").concat(repo).concat(
        "/releases/assets/",
    ).concat(decimal(asset_id).as_str())
}

pub open spec fn asset_upload_of(repo: Seq<char>, release_id: nat, file_name: Seq<char>) -> Seq<
    char,
> {
    "https://uploads.github.com/repos/"@ + repo + "/releases/"@ + decimal_of(release_id)
        + "/assets?name="@ + file_name
}

/// Where a file named `file_name` is uploaded as an asset of release `release_id`.
pub fn asset_upload_url(repo: &str, release_id: u64, file_name: &str) -> (r: String)
    ensures
        r@ == asset_upload_of(repo@, release_id as nat, file_name@),
{
    String::from_str("https://uploads.github.com/repos/").concat(repo).concat("/releases/").concat(
        decimal(release_id).as_str(),
    ).concat("/assets?name=").concat(file_name)
}

/// The id of the first asset named `name`, which is replaced before the new upload.
pub fn find_asset_id(assets: &Vec<ReleaseAsset>, name: &str) -> (r: Option<u64>)
    ensures
        r matches Some(id) ==> exists|i: int|
            0 <= i < assets@.len() && #[trigger] assets@[i].name@ == name@ && assets@[i].id == id
                && forall|j: int| 0 <= j < i ==> #[trigger] assets@[j].name@ != name@,
        r is None ==> forall|i: int| 0 <= i < assets@.len() ==> #[trigger] assets@[i].name@ != name@,
{
    let target = String::from_str(name);
    let mut i: usize = 0;
    while i < assets.len()
        invariant
            i <= assets@.len(),
            target@ == name@,
            forall|j: int| 0 <= j < i ==> #[trigger] assets@[j].name@ != name@,
        decreases assets@.len() - i,
    {
        if assets[i].name.eq(&target) {
            return Some(assets[i].id);
        }
        i = i + 1;
    }
    None
}

/// Whether a failed delete of the replaced asset is worth a warning: any status outside
/// 200-299 but 404 (already gone).
pub fn delete_failure_warrants_warning(status: u16) -> (r: bool)
    ensures
        r == (!(200 <= status < 300) && status != 404),
{
    !(200 <= status && status < 300) && status != 404
}

/// The asset name a file is uploaded under: its file name (`dist/pack.zip` gives `pack.zip`),
/// or `unknown.jar` where the path has none.
pub fn asset_file_name(file_path: &str) -> (r: String)
    ensures
        is_portable_path(file_path@) && is_plain_name(last_segment(file_path@, '/')) ==> r@
            == last_segment(file_path@, '/'),
        file_path@.len() == 0 || file_path@ == "."@ || file_path@ == "/"@ || file_path@ == ".."@
            ==> r@ == "unknown.jar"@,
        !file_path@.contains('\\') && ends_in_parent(file_path@) ==> r@ == "unknown.jar"@,
{
    match upload_key(file_path) {
        Ok(name) => name,
        Err(_) => String::from_str("unknown.jar"),
    }
}

} // verus!
