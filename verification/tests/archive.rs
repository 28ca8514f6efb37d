use hcaptcha_monitor::archiver::{
    archive_results, archived_content, asset_url, plan_downloads, AssetJob, DownloadError,
};
use hcaptcha_monitor::detector::{archive_dir_path, trailing_segment, ArchiveLedger};
use hcaptcha_monitor::notify::new_version_notification;

#[test]
fn trailing_segment_after_last_slash() {
    assert_eq!(trailing_segment("/deadbeef/abcdefg"), "abcdefg");
    assert_eq!(trailing_segment("no_slash"), "no_slash");
    assert_eq!(trailing_segment("ends/with/"), "");
    assert_eq!(trailing_segment(""), "");
}

#[test]
fn archive_dir_is_output_host_segment() {
    assert_eq!(
        archive_dir_path("example.com", "abcdefg"),
        "output/example.com/abcdefg"
    );
}

#[test]
fn ledger_new_until_marked_then_never_again() {
    let mut ledger = ArchiveLedger::new();
    // idempotent read: querying twice without marking changes nothing
    assert!(ledger.is_new("example.com", "abcdefg"));
    assert!(ledger.is_new("example.com", "abcdefg"));
    ledger.mark_archived("example.com", "abcdefg");
    assert!(!ledger.is_new("example.com", "abcdefg"));
    // other pairs are independent
    assert!(ledger.is_new("example.com", "0000000"));
    assert!(ledger.is_new("other.org", "abcdefg"));
    // later marks never revive the pair
    ledger.mark_archived("other.org", "abcdefg");
    assert!(!ledger.is_new("example.com", "abcdefg"));
    assert!(!ledger.is_new("other.org", "abcdefg"));
}

#[test]
fn asset_url_concatenates_host_path_and_file() {
    assert_eq!(
        asset_url("/deadbeef/abcdefg", "checksiteconfig.js"),
        "https://newassets.hcaptcha.com/deadbeef/abcdefg/checksiteconfig.js"
    );
}

#[test]
fn archived_file_starts_with_provenance_comment() {
    let content = archived_content("https://host/x.js", &b"body bytes".to_vec());
    let mut expected = b"/* Source URL: https://host/x.js */\n".to_vec();
    expected.extend_from_slice(b"body bytes");
    assert_eq!(content, expected);
}

#[test]
fn plan_one_job_per_script_in_order() {
    let names = vec!["a.js".to_string(), "b.js".to_string()];
    let jobs = plan_downloads("/p/v", &names);
    assert_eq!(jobs.len(), 2);
    assert_eq!(jobs[0].file, "a.js");
    assert_eq!(jobs[0].url, "https://newassets.hcaptcha.com/p/v/a.js");
    assert_eq!(jobs[1].file, "b.js");
    assert_eq!(jobs[1].url, "https://newassets.hcaptcha.com/p/v/b.js");
}

#[test]
fn one_failed_fetch_leaves_other_results_intact() {
    let names = vec!["a.js".to_string(), "b.js".to_string(), "c.js".to_string()];
    let jobs: Vec<AssetJob> = plan_downloads("/p/v", &names);
    let fetched = vec![Some(b"aa".to_vec()), None, Some(b"cc".to_vec())];
    let results = archive_results(&jobs, &fetched);
    assert_eq!(results.len(), 3);
    let failures = results.iter().filter(|r| r.is_err()).count();
    assert_eq!(failures, 1);
    assert_eq!(results[1], Err(DownloadError::FetchFailed));
    let first = results[0].as_ref().unwrap();
    assert!(first.starts_with(b"/* Source URL: https://newassets.hcaptcha.com/p/v/a.js */\n"));
    assert!(first.ends_with(b"aa"));
    let third = results[2].as_ref().unwrap();
    assert!(third.ends_with(b"cc"));
}

#[test]
fn notification_carries_the_four_fields() {
    let n = new_version_notification("example.com", "abc", "deadbeef", "/deadbeef/abcdefg");
    assert_eq!(n.title, "hCaptcha Monitor");
    assert_eq!(n.description, "New hCaptcha version detected.");
    assert_eq!(n.color, 0x2B2D31);
    assert_eq!(n.fields.len(), 4);
    assert_eq!(n.fields[0].name, "Website");
    assert_eq!(n.fields[0].value, "example.com");
    assert_eq!(n.fields[1].name, "Sitekey");
    assert_eq!(n.fields[1].value, "abc");
    assert_eq!(n.fields[2].name, "Version");
    assert_eq!(n.fields[2].value, "deadbeef");
    assert_eq!(n.fields[3].name, "Resource URL");
    assert_eq!(n.fields[3].value, "[View](/deadbeef/abcdefg)");
    assert!(n.fields.iter().all(|f| !f.inline));
}
