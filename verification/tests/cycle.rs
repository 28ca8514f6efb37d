use base64::Engine as _;
use base64::engine::general_purpose::STANDARD_NO_PAD;
use hcaptcha_monitor::archiver::archive_results;
use hcaptcha_monitor::config::{Config, Target};
use hcaptcha_monitor::cycle::{process_config_response, CycleStep};
use hcaptcha_monitor::detector::ArchiveLedger;
use hcaptcha_monitor::locator::LocatorError;
use hcaptcha_monitor::version::extract_version;

fn config_body(resource_path: &str) -> String {
    let payload = format!("{{\"l\": \"{}\"}}", resource_path);
    let encoded = STANDARD_NO_PAD.encode(payload.as_bytes());
    format!("{{\"c\": {{\"req\": \"header.{}.signature\"}}}}", encoded)
}

#[test]
fn config_interval_must_be_positive() {
    let mut config = Config {
        interval: 60,
        webhook_url: "https://example.invalid/hook".to_string(),
        websites: vec![Target::new("example.com", "abc")],
        scripts: vec!["checksiteconfig.js".to_string()],
    };
    assert!(config.is_valid());
    config.interval = 0;
    assert!(!config.is_valid());
}

#[test]
fn first_cycle_archives_second_cycle_skips() {
    // one website, interval 60, one script: the full first cycle
    let target = Target::new("example.com", "abc");
    let scripts = vec!["checksiteconfig.js".to_string()];
    let mut ledger = ArchiveLedger::new();

    let script_body = "boot(\"/captcha/v1/deadbeef/static/api.js\")";
    let version = extract_version(script_body).unwrap();
    assert_eq!(version, "deadbeef");

    let body = config_body("/deadbeef/abcdefg");
    let step = process_config_response(&mut ledger, &target, &version, &body, &scripts);
    let plan = match step {
        CycleStep::NewVersion(plan) => plan,
        _ => panic!("first cycle must detect a new version"),
    };
    assert_eq!(plan.resource_path, "/deadbeef/abcdefg");
    assert_eq!(plan.segment, "abcdefg");
    assert_eq!(plan.dir_path, "output/example.com/abcdefg");
    assert_eq!(plan.jobs.len(), 1);
    assert_eq!(
        plan.jobs[0].url,
        "https://newassets.hcaptcha.com/deadbeef/abcdefg/checksiteconfig.js"
    );
    assert_eq!(plan.notification.fields[2].value, "deadbeef");

    // the one script downloads, and its file opens with the provenance line
    let fetched = vec![Some(b"site config script".to_vec())];
    let results = archive_results(&plan.jobs, &fetched);
    assert_eq!(results.len(), 1);
    let file = results[0].as_ref().unwrap();
    let expected_comment =
        "/* Source URL: https://newassets.hcaptcha.com/deadbeef/abcdefg/checksiteconfig.js */\n";
    assert!(file.starts_with(expected_comment.as_bytes()));

    // second cycle, identical responses: no new version, nothing planned
    let step = process_config_response(&mut ledger, &target, &version, &body, &scripts);
    match step {
        CycleStep::AlreadyArchived { resource_path } => {
            assert_eq!(resource_path, "/deadbeef/abcdefg");
        },
        _ => panic!("second cycle must see the version as archived"),
    }
}

#[test]
fn malformed_config_fails_gracefully_and_touches_nothing() {
    let target = Target::new("example.com", "abc");
    let other = Target::new("other.org", "xyz");
    let scripts = vec!["checksiteconfig.js".to_string()];
    let mut ledger = ArchiveLedger::new();

    let step = process_config_response(&mut ledger, &target, "deadbeef", "{broken", &scripts);
    match step {
        CycleStep::Failed(e) => assert_eq!(e, LocatorError::ConfigParse),
        _ => panic!("malformed JSON must fail the cycle"),
    }

    // the pass goes on: the next target in the same pass is unaffected
    let body = config_body("/feed/0001");
    let step = process_config_response(&mut ledger, &other, "feed", &body, &scripts);
    assert!(matches!(step, CycleStep::NewVersion(_)));

    // and the failed target's state was not poisoned: a later good response
    // still detects its version as new
    let body = config_body("/deadbeef/abcdefg");
    let step = process_config_response(&mut ledger, &target, "deadbeef", &body, &scripts);
    assert!(matches!(step, CycleStep::NewVersion(_)));
}

#[test]
fn version_mismatch_between_script_and_path_is_tolerated() {
    // the trailing segment of the resource path, not the script version,
    // names the archive
    let target = Target::new("example.com", "abc");
    let scripts: Vec<String> = vec![];
    let mut ledger = ArchiveLedger::new();
    let body = config_body("/otherhash/zzz");
    let step = process_config_response(&mut ledger, &target, "deadbeef", &body, &scripts);
    match step {
        CycleStep::NewVersion(plan) => {
            assert_eq!(plan.segment, "zzz");
            assert_eq!(plan.dir_path, "output/example.com/zzz");
            assert_eq!(plan.jobs.len(), 0);
        },
        _ => panic!("expected a new version"),
    }
}
