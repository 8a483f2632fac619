use vstd::prelude::*;

use crate::digest::{digest_matches, hex_lower, sha1_hex, sha1_of};
use crate::outcome::Outcome;
use crate::text::last_segment;

verus! {

/// The digest text a download is checked against: lowercase hexadecimal SHA-1 of its bytes.
pub open spec fn digest_text(data: Seq<u8>) -> Seq<char> {
    hex_lower(sha1_of(data))
}

/// What a download worker does with what it fetched.
#[derive(Debug)]
pub enum DownloadPlan {
    /// The bytes passed verification: write them to the job's destination.
    Persist(Vec<u8>),
    /// Nothing is written; the job ends with this outcome.
    Reject(Outcome),
}

/// The bytes `written` are what a download persists after fetching `fetched`: the fetched bytes,
/// unchanged, and only when their digest is the expected one.
pub open spec fn persists(fetched: Seq<u8>, expected: Seq<char>, written: Seq<u8>) -> bool {
    &&& digest_text(fetched) == expected
    &&& written == fetched
}

/// Compares a computed digest with the expected one, case-sensitively.
pub fn judge_digest(actual: String, expected: &String) -> (r: Outcome)
    ensures
        actual@ == expected@ ==> r == Outcome::Succeeded,
        actual@ != expected@ ==> (r matches Outcome::IntegrityMismatch { expected: e, actual: a }
            && e@ == expected@ && a == actual),
{
    if digest_matches(&actual, expected) {
        Outcome::Succeeded
    } else {
        Outcome::IntegrityMismatch { expected: expected.clone(), actual }
    }
}

/// Decides a download: a fetch failure is `TransferFailed`; fetched bytes whose digest differs
/// from `expected` are `IntegrityMismatch`; bytes that match are handed back to be persisted.
/// Verification comes before anything is written.
pub fn plan_download(fetched: Result<Vec<u8>, String>, expected: &String) -> (r: DownloadPlan)
    ensures
        match fetched {
            Err(cause) => r == DownloadPlan::Reject(Outcome::TransferFailed { cause }),
            Ok(data) => if digest_text(data@) == expected@ {
                &&& r == DownloadPlan::Persist(data)
                &&& persists(data@, expected@, data@)
            } else {
                r matches DownloadPlan::Reject(Outcome::IntegrityMismatch { expected: e, actual: a })
                    && e@ == expected@ && a@ == digest_text(data@)
            },
        },
{
    match fetched {
        Err(cause) => DownloadPlan::Reject(Outcome::TransferFailed { cause }),
        Ok(data) => {
            let actual = sha1_hex(data.as_slice());
            match judge_digest(actual, expected) {
                Outcome::Succeeded => DownloadPlan::Persist(data),
                other => DownloadPlan::Reject(other),
            }
        },
    }
}

/// The outcome of a download once its verified bytes were (or were not) written.
pub fn write_outcome(written: Result<(), String>) -> (r: Outcome)
    ensures
        match written {
            Ok(_) => r == Outcome::Succeeded,
            Err(cause) => r == Outcome::IOFailed { cause },
        },
{
    match written {
        Ok(_) => Outcome::Succeeded,
        Err(cause) => Outcome::IOFailed { cause },
    }
}

/// Why an upload did not complete.
#[derive(Clone, Debug, PartialEq, Eq)]
pub enum UploadError {
    /// The local path names no file.
    InvalidPath,
    /// The local file could not be opened or read.
    SourceUnreadable(String),
    /// The store refused the object or could not be reached.
    PutFailed(String),
}

pub fn upload_outcome(sent: Result<(), UploadError>) -> (r: Outcome)
    ensures
        match sent {
            Ok(_) => r == Outcome::Succeeded,
            Err(UploadError::InvalidPath) => (r matches Outcome::IOFailed { cause } && cause@
                == "invalid file path"@),
            Err(UploadError::SourceUnreadable(cause)) => r == Outcome::IOFailed { cause },
            Err(UploadError::PutFailed(cause)) => r == Outcome::TransferFailed { cause },
        },
{
    match sent {
        Ok(_) => Outcome::Succeeded,
        Err(UploadError::InvalidPath) => {
            let cause = String::from_str("invalid file path");
            Outcome::IOFailed { cause }
        },
        Err(UploadError::SourceUnreadable(cause)) => Outcome::IOFailed { cause },
        Err(UploadError::PutFailed(cause)) => Outcome::TransferFailed { cause },
    }
}

/// A path of one plain component: non-empty, without `/`, `\` or `:`, and neither `.` nor `..`.
/// On every platform it is its own final component.
pub open spec fn is_plain_name(p: Seq<char>) -> bool {
    &&& p.len() > 0
    &&& !p.contains('/')
    &&& !p.contains('\\')
    &&& !p.contains(':')
    &&& p != "."@
    &&& p != ".."@
}

/// A path that every platform splits the same way, on `/` alone: it holds no `\` (so no
/// Windows verbatim or device prefix), no `:` (no drive prefix), and does not start with `//`
/// (no UNC prefix).
pub open spec fn is_portable_path(p: Seq<char>) -> bool {
    &&& !p.contains('\\')
    &&& !p.contains(':')
    &&& !(p.len() >= 2 && p[0] == '/' && p[1] == '/')
}

/// The path terminates in a `..` component, written with `/`.
pub open spec fn ends_in_parent(p: Seq<char>) -> bool {
    p == ".."@ || (p.len() >= 3 && p.subrange(p.len() - 3, p.len() as int) == "/.."@)
}

/// Relies on `std::path::Path::file_name`: the final component of `path`, if it has one (the
/// text is UTF-8 throughout, so the component reads back as a string). Stated only where
/// Windows and Unix agree:
/// - an empty path, `.`, `/` and `..` have none;
/// - a path without `\` that terminates in `..` has none;
/// - a portable path (split on `/` alone) whose last `/`-segment is a plain name has that
///   segment as its final component;
/// - a component is never empty, and in a path without `\` it holds no `/` (only Windows
///   verbatim paths, which start with `\\?\`, keep `/` inside a component).
#[verifier::external_body]
fn final_component(path: &str) -> (r: Option<String>)
    ensures
        path@.len() == 0 ==> r is None,
        path@ == "."@ || path@ == "/"@ || path@ == ".."@ ==> r is None,
        !path@.contains('\\') && ends_in_parent(path@) ==> r is None,
        is_portable_path(path@) && is_plain_name(last_segment(path@, '/')) ==> r is Some,
        r matches Some(n) ==> n@.len() > 0,
        r matches Some(n) ==> (!path@.contains('\\') ==> !n@.contains('/')),
        r matches Some(n) ==> (is_portable_path(path@) && is_plain_name(last_segment(path@, '/'))
            ==> n@ == last_segment(path@, '/')),
{
    let name = std::path::Path::new(path).file_name()?;
    Some(name.to_str()?.to_string())
}

/// The store key an upload is sent under: the file name of its local path (`mods/a.jar` is
/// stored as `a.jar`). A path with no file name (empty, `.`, `/`, or terminating in `..`) is
/// `InvalidPath`.
pub fn upload_key(local_path: &str) -> (r: Result<String, UploadError>)
    ensures
        r matches Err(e) ==> e == UploadError::InvalidPath,
        local_path@.len() == 0 || local_path@ == "."@ || local_path@ == "/"@ || local_path@ == ".."@
            ==> r == Err::<String, UploadError>(UploadError::InvalidPath),
        !local_path@.contains('\\') && ends_in_parent(local_path@) ==> r == Err::<
            String,
            UploadError,
        >(UploadError::InvalidPath),
        is_portable_path(local_path@) && is_plain_name(last_segment(local_path@, '/')) ==> (r matches Ok(k)
            && k@ == last_segment(local_path@, '/')),
        r matches Ok(k) ==> k@.len() > 0,
        r matches Ok(k) ==> (!local_path@.contains('\\') ==> !k@.contains('/')),
{
    match final_component(local_path) {
        Some(name) => Ok(name),
        None => Err(UploadError::InvalidPath),
    }
}

/// What a download batch writes for each job, by position: the fetched bytes where their digest
/// is the expected one, nothing otherwise.
pub open spec fn batch_written(fetched: Seq<Seq<u8>>, expected: Seq<Seq<char>>) -> Seq<
    Option<Seq<u8>>,
> {
    Seq::new(
        fetched.len(),
        |i: int|
            if digest_text(fetched[i]) == expected[i] {
                Some(fetched[i])
            } else {
                None
            },
    )
}

/// Re-running an identical download batch against unchanged remote content writes identical
/// bytes for every job, each carrying its expected digest, and leaves the same jobs unwritten.
pub proof fn lemma_repeat_batch_identical(
    first: Seq<Seq<u8>>,
    second: Seq<Seq<u8>>,
    expected: Seq<Seq<char>>,
)
    requires
        first == second,
        first.len() == expected.len(),
    ensures
        batch_written(first, expected) == batch_written(second, expected),
        forall|i: int|
            0 <= i < first.len() ==> (#[trigger] batch_written(first, expected)[i] matches Some(w)
                ==> persists(first[i], expected[i], w) && digest_text(w) == expected[i]),
{
}

} // verus!
