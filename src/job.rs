use vstd::prelude::*;

use crate::outcome::BatchError;

verus! {

/// What `serde_json` decodes from `text` as a JSON array of strings, or `None` where the text
/// is not one.
pub uninterp spec fn json_string_list(text: Seq<char>) -> Option<Seq<Seq<char>>>;

#[verifier::external_type_specification]
#[verifier::external_body]
pub struct ExJsonError(serde_json::Error);

/// Relies on `serde_json::from_str::<Vec<String>>`: success and the decoded strings depend on
/// the text alone.
#[verifier::external_body]
fn decode_string_list(text: &str) -> (r: Result<Vec<String>, serde_json::Error>)
    ensures
        r is Ok <==> json_string_list(text@) is Some,
        r matches Ok(v) ==> v@.map_values(|s: String| s@) == json_string_list(text@)->0,
{
    serde_json::from_str::<Vec<String>>(text)
}

/// Decodes an upload job list: a JSON array of local file paths.
pub fn parse_files_json(text: &str) -> (r: Result<Vec<String>, BatchError>)
    ensures
        match json_string_list(text@) {
            Some(list) => r matches Ok(v) && v@.map_values(|s: String| s@) == list,
            None => r == Err::<Vec<String>, BatchError>(BatchError::MalformedInput),
        },
{
    match decode_string_list(text) {
        Ok(v) => Ok(v),
        Err(_) => Err(BatchError::MalformedInput),
    }
}

/// One entry of a download job list.
#[derive(Clone, Debug, PartialEq, Eq)]
pub struct ModEntry {
    pub name: String,
    pub url: String,
    pub sha1: String,
}

/// One file to send to the store.
#[derive(Clone, Debug, PartialEq, Eq)]
pub struct UploadJob {
    /// Position in the submitted list.
    pub id: usize,
    /// The file whose bytes are sent.
    pub local_path: String,
}

/// One file to fetch and verify.
#[derive(Clone, Debug, PartialEq, Eq)]
pub struct DownloadJob {
    /// Position in the submitted list.
    pub id: usize,
    /// Where the verified bytes are written.
    pub local_path: String,
    /// The fully-qualified URL fetched.
    pub url: String,
    /// Lowercase hexadecimal SHA-1 the fetched bytes must have.
    pub expected_digest: String,
}

/// The destination of a download named `name` under `dir`: `{dir}/{name}`.
pub open spec fn destination_of(dir: Seq<char>, name: Seq<char>) -> Seq<char> {
    dir + seq!['/'] + name
}

pub fn destination_path(output_dir: &str, name: &str) -> (r: String)
    ensures
        r@ == destination_of(output_dir@, name@),
{
    let sep = "/";
    proof {
        reveal_strlit("/");
    }
    let r = String::from_str(output_dir).concat(sep).concat(name);
    r
}

/// One upload job per path, with `id` its position; duplicates stay.
pub fn upload_jobs(paths: &Vec<String>) -> (r: Vec<UploadJob>)
    ensures
        r@.len() == paths@.len(),
        forall|i: int|
            0 <= i < r@.len() ==> #[trigger] r@[i].id == i && r@[i].local_path@ == paths@[i]@,
{
    let mut r: Vec<UploadJob> = Vec::new();
    let mut i: usize = 0;
    while i < paths.len()
        invariant
            i <= paths@.len(),
            r@.len() == i,
            forall|j: int|
                0 <= j < i ==> #[trigger] r@[j].id == j && r@[j].local_path@ == paths@[j]@,
        decreases paths@.len() - i,
    {
        r.push(UploadJob { id: i, local_path: paths[i].clone() });
        i = i + 1;
    }
    r
}

/// One download job per entry, with `id` its position and the destination `{output_dir}/{name}`;
/// duplicates stay.
pub fn download_jobs(entries: &Vec<ModEntry>, output_dir: &str) -> (r: Vec<DownloadJob>)
    ensures
        r@.len() == entries@.len(),
        forall|i: int|
            0 <= i < r@.len() ==> {
                &&& #[trigger] r@[i].id == i
                &&& r@[i].local_path@ == destination_of(output_dir@, entries@[i].name@)
                &&& r@[i].url@ == entries@[i].url@
                &&& r@[i].expected_digest@ == entries@[i].sha1@
            },
{
    let mut r: Vec<DownloadJob> = Vec::new();
    let mut i: usize = 0;
    while i < entries.len()
        invariant
            i <= entries@.len(),
            r@.len() == i,
            forall|j: int|
                0 <= j < i ==> {
                    &&& #[trigger] r@[j].id == j
                    &&& r@[j].local_path@ == destination_of(output_dir@, entries@[j].name@)
                    &&& r@[j].url@ == entries@[j].url@
                    &&& r@[j].expected_digest@ == entries@[j].sha1@
                },
        decreases entries@.len() - i,
    {
        let entry = &entries[i];
        let local_path = destination_path(output_dir, entry.name.as_str());
        r.push(
            DownloadJob {
                id: i,
                local_path,
                url: entry.url.clone(),
                expected_digest: entry.sha1.clone(),
            },
        );
        i = i + 1;
    }
    r
}

} // verus!
