use crystal_native::batch::Batch;
use crystal_native::job::{download_jobs, parse_files_json, upload_jobs, ModEntry};
use crystal_native::outcome::{BatchError, BatchStatus, Outcome};
use crystal_native::worker::{
    judge_digest, plan_download, upload_key, upload_outcome, write_outcome, DownloadPlan,
    UploadError,
};

const ABC_SHA1: &str = "a9993e364706816aba3e25717850c26c9cd0d89d";
const FOX_SHA1: &str = "2fd4e1c67a2d28fced849ee1bb76e7391b93eb12";
const FOX: &[u8] = b"The quick brown fox jumps over the lazy dog";

fn entry(name: &str, url: &str, sha1: &str) -> ModEntry {
    ModEntry { name: name.to_string(), url: url.to_string(), sha1: sha1.to_string() }
}

/// Drives a download batch the way the runtime does, with `fetch` standing for the network.
fn run_downloads(
    entries: &Vec<ModEntry>,
    output_dir: &str,
    max_concurrent: i32,
    fetch: &dyn Fn(&str) -> Result<Vec<u8>, String>,
) -> (i32, Vec<usize>, Vec<(String, Vec<u8>)>, Batch) {
    let jobs = download_jobs(entries, output_dir);
    let mut batch = Batch::new(jobs.len(), max_concurrent);
    let mut events = Vec::new();
    let mut written = Vec::new();
    loop {
        let mut started = Vec::new();
        while let Some(id) = batch.next_job() {
            started.push(id);
        }
        if started.is_empty() && batch.is_complete() {
            break;
        }
        for id in started {
            let job = &jobs[id];
            let outcome = match plan_download(fetch(&job.url), &job.expected_digest) {
                DownloadPlan::Persist(data) => {
                    written.push((job.local_path.clone(), data));
                    write_outcome(Ok(()))
                }
                DownloadPlan::Reject(outcome) => outcome,
            };
            if batch.finish(id, outcome) {
                events.push(id);
            }
        }
    }
    (batch.status().code(), events, written, batch)
}

fn store(url: &str) -> Result<Vec<u8>, String> {
    match url {
        "https://store/alpha.jar" => Ok(b"abc".to_vec()),
        "https://store/beta.jar" => Ok(FOX.to_vec()),
        _ => Err("404 Not Found".to_string()),
    }
}

#[test]
fn two_matching_downloads_succeed() {
    let entries = vec![
        entry("alpha.jar", "https://store/alpha.jar", ABC_SHA1),
        entry("beta.jar", "https://store/beta.jar", FOX_SHA1),
    ];
    let (code, mut events, written, _) = run_downloads(&entries, "/tmp/mods", 2, &store);
    assert_eq!(code, 0);
    events.sort();
    assert_eq!(events, vec![0, 1]);
    assert_eq!(written.len(), 2);
    assert!(written.contains(&("/tmp/mods/alpha.jar".to_string(), b"abc".to_vec())));
    assert!(written.contains(&("/tmp/mods/beta.jar".to_string(), FOX.to_vec())));
}

#[test]
fn mismatching_download_fails_batch_and_sibling_still_written() {
    let wrong = "cccccccccccccccccccccccccccccccccccccccc";
    let entries = vec![
        entry("alpha.jar", "https://store/alpha.jar", ABC_SHA1),
        entry("beta.jar", "https://store/beta.jar", wrong),
    ];
    let (code, events, written, batch) = run_downloads(&entries, "/tmp/mods", 2, &store);
    assert_eq!(code, -1);
    assert_eq!(events, vec![0]);
    assert_eq!(written, vec![("/tmp/mods/alpha.jar".to_string(), b"abc".to_vec())]);
    assert_eq!(batch.outcome(0), Some(Outcome::Succeeded));
    assert_eq!(
        batch.outcome(1),
        Some(Outcome::IntegrityMismatch {
            expected: wrong.to_string(),
            actual: FOX_SHA1.to_string()
        })
    );
}

#[test]
fn repeated_download_batch_writes_identical_bytes() {
    let entries = vec![
        entry("alpha.jar", "https://store/alpha.jar", ABC_SHA1),
        entry("beta.jar", "https://store/beta.jar", FOX_SHA1),
    ];
    let (code1, _, mut first, _) = run_downloads(&entries, "/tmp/mods", 1, &store);
    let (code2, _, mut second, _) = run_downloads(&entries, "/tmp/mods", 2, &store);
    first.sort();
    second.sort();
    assert_eq!(code1, 0);
    assert_eq!(code2, 0);
    assert_eq!(first, second);
}

#[test]
fn empty_download_list_succeeds_with_no_events() {
    let (code, events, written, _) = run_downloads(&Vec::new(), "/tmp/mods", 3, &store);
    assert_eq!(code, 0);
    assert!(events.is_empty());
    assert!(written.is_empty());
}

#[test]
fn fetch_failure_is_transfer_failed() {
    let plan = plan_download(Err("timed out".to_string()), &ABC_SHA1.to_string());
    match plan {
        DownloadPlan::Reject(o) => {
            assert_eq!(o, Outcome::TransferFailed { cause: "timed out".to_string() })
        }
        DownloadPlan::Persist(_) => panic!("a failed fetch persists nothing"),
    }
}

#[test]
fn matching_bytes_are_persisted_unchanged() {
    match plan_download(Ok(FOX.to_vec()), &FOX_SHA1.to_string()) {
        DownloadPlan::Persist(data) => assert_eq!(data, FOX.to_vec()),
        DownloadPlan::Reject(o) => panic!("unexpected rejection {:?}", o),
    }
}

#[test]
fn uppercase_expected_digest_is_a_mismatch() {
    let upper = ABC_SHA1.to_uppercase();
    match plan_download(Ok(b"abc".to_vec()), &upper) {
        DownloadPlan::Reject(o) => assert_eq!(
            o,
            Outcome::IntegrityMismatch { expected: upper.clone(), actual: ABC_SHA1.to_string() }
        ),
        DownloadPlan::Persist(_) => panic!("digests compare case-sensitively"),
    }
}

#[test]
fn judge_digest_on_given_values() {
    assert_eq!(judge_digest("ab12".to_string(), &"ab12".to_string()), Outcome::Succeeded);
    assert_eq!(
        judge_digest("ab12".to_string(), &"ab13".to_string()),
        Outcome::IntegrityMismatch { expected: "ab13".to_string(), actual: "ab12".to_string() }
    );
}

#[test]
fn write_failure_is_io_failed() {
    assert_eq!(write_outcome(Ok(())), Outcome::Succeeded);
    assert_eq!(
        write_outcome(Err("permission denied".to_string())),
        Outcome::IOFailed { cause: "permission denied".to_string() }
    );
}

#[test]
fn upload_outcomes() {
    assert_eq!(upload_outcome(Ok(())), Outcome::Succeeded);
    assert_eq!(
        upload_outcome(Err(UploadError::InvalidPath)),
        Outcome::IOFailed { cause: "invalid file path".to_string() }
    );
    assert_eq!(
        upload_outcome(Err(UploadError::PutFailed("403".to_string()))),
        Outcome::TransferFailed { cause: "403".to_string() }
    );
}

#[test]
fn upload_key_is_file_name() {
    assert_eq!(upload_key("mods/sodium-0.5.jar"), Ok("sodium-0.5.jar".to_string()));
    assert_eq!(upload_key("plain.jar"), Ok("plain.jar".to_string()));
    assert_eq!(upload_key(""), Err(UploadError::InvalidPath));
    assert_eq!(upload_key("mods/.."), Err(UploadError::InvalidPath));
    assert_eq!(upload_key(".."), Err(UploadError::InvalidPath));
    assert_eq!(upload_key("."), Err(UploadError::InvalidPath));
    assert_eq!(upload_key("/"), Err(UploadError::InvalidPath));
    assert_eq!(upload_key("/srv/mods/b.jar"), Ok("b.jar".to_string()));
}

#[test]
fn parse_files_json_accepts_string_arrays() {
    let files = parse_files_json(r#"["a.jar", "dir/b.jar", "a.jar"]"#).unwrap();
    assert_eq!(files, vec!["a.jar".to_string(), "dir/b.jar".to_string(), "a.jar".to_string()]);
    assert_eq!(parse_files_json("[]").unwrap(), Vec::<String>::new());
}

#[test]
fn parse_files_json_rejects_other_shapes() {
    assert_eq!(parse_files_json("not json"), Err(BatchError::MalformedInput));
    assert_eq!(parse_files_json("[1, 2]"), Err(BatchError::MalformedInput));
    assert_eq!(parse_files_json(r#"{"a": "b"}"#), Err(BatchError::MalformedInput));
}

#[test]
fn jobs_keep_positions_and_duplicates() {
    let paths = vec!["x.jar".to_string(), "y.jar".to_string(), "x.jar".to_string()];
    let jobs = upload_jobs(&paths);
    assert_eq!(jobs.len(), 3);
    for (i, job) in jobs.iter().enumerate() {
        assert_eq!(job.id, i);
        assert_eq!(job.local_path, paths[i]);
    }
    let entries = vec![entry("m.jar", "https://h/m.jar", "00"), entry("m.jar", "https://h/m.jar", "00")];
    let downloads = download_jobs(&entries, "out");
    assert_eq!(downloads.len(), 2);
    assert_eq!(downloads[1].id, 1);
    assert_eq!(downloads[1].local_path, "out/m.jar");
    assert_eq!(downloads[1].url, "https://h/m.jar");
    assert_eq!(downloads[1].expected_digest, "00");
}

#[test]
fn upload_batch_with_missing_source_fails() {
    let paths = parse_files_json(r#"["/nonexistent/dir/missing.jar", "ok.jar"]"#).unwrap();
    let jobs = upload_jobs(&paths);
    let mut batch = Batch::new(jobs.len(), 10);
    let mut events = Vec::new();
    while let Some(id) = batch.next_job() {
        let sent = match upload_key(&jobs[id].local_path) {
            Ok(_) if id == 0 => Err(UploadError::SourceUnreadable("No such file".to_string())),
            Ok(_) => Ok(()),
            Err(e) => Err(e),
        };
        if batch.finish(id, upload_outcome(sent)) {
            events.push(id);
        }
    }
    assert!(batch.is_complete());
    assert_eq!(events, vec![1]);
    assert_eq!(batch.status(), BatchStatus::Failure);
}
