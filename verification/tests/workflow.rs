use gustasum::errors::{HashError, Stage};
use gustasum::retry::should_retry;
use gustasum::sample::FileSample;
use gustasum::workflow::{
    exit_code, generate_record, judge_record, plan_check, summarize, summarize_generate,
    CheckPlan, RemapPair, VerificationOutcome,
};

fn small_sample(content: &[u8], mod_time_secs: u64, include_modtime: bool) -> FileSample {
    // A file that fits in one 100-byte window: the first window is the whole
    // content, the middle and last windows are empty.
    FileSample::new(
        content.len() as u64,
        mod_time_secs,
        include_modtime,
        content.to_vec(),
        Vec::new(),
        Vec::new(),
    )
}

#[test]
fn generate_then_verify_reports_ok() {
    let content = b"some file content";
    let path = b"/data/f.txt".to_vec();
    let line = generate_record(&path, &small_sample(content, 0, false));

    let plan = plan_check(&line, &None);
    match plan {
        CheckPlan::Hash { expected, recorded_path, lookup_path } => {
            assert_eq!(recorded_path, path);
            assert_eq!(lookup_path, path);
            let outcome = judge_record(&expected, &Ok(small_sample(content, 0, false)));
            assert_eq!(outcome, VerificationOutcome::Match);
        }
        CheckPlan::Malformed => panic!("generated line must parse"),
    }
}

#[test]
fn changed_content_reports_mismatch() {
    let path = b"/data/f.txt".to_vec();
    let line = generate_record(&path, &small_sample(b"original", 0, false));

    match plan_check(&line, &None) {
        CheckPlan::Hash { expected, .. } => {
            let outcome = judge_record(&expected, &Ok(small_sample(b"altered!", 0, false)));
            assert_eq!(outcome, VerificationOutcome::Mismatch);
        }
        CheckPlan::Malformed => panic!("generated line must parse"),
    }
}

#[test]
fn malformed_line_needs_no_file_access() {
    let plan = plan_check(&b"no separator here".to_vec(), &None);
    assert!(matches!(plan, CheckPlan::Malformed));
}

#[test]
fn failed_computation_keeps_its_classification() {
    let outcome = judge_record(&b"abcd".to_vec(), &Err(HashError::Open));
    assert_eq!(outcome, VerificationOutcome::ComputationFailed(HashError::Open));
}

#[test]
fn plan_check_applies_remap_but_reports_recorded_path() {
    let line = b"aabb  /old/sub/f.txt".to_vec();
    let remap = Some(RemapPair { old_base: b"/old".to_vec(), new_base: b"/new".to_vec() });
    match plan_check(&line, &remap) {
        CheckPlan::Hash { expected, recorded_path, lookup_path } => {
            assert_eq!(expected, b"aabb".to_vec());
            assert_eq!(recorded_path, b"/old/sub/f.txt".to_vec());
            assert_eq!(lookup_path, b"/new/sub/f.txt".to_vec());
        }
        CheckPlan::Malformed => panic!("line must parse"),
    }
}

#[test]
fn summarize_counts_matches_only() {
    let outcomes = vec![
        VerificationOutcome::Match,
        VerificationOutcome::Mismatch,
        VerificationOutcome::ComputationFailed(HashError::Metadata),
        VerificationOutcome::Malformed,
        VerificationOutcome::Match,
    ];
    let s = summarize(&outcomes);
    assert_eq!(s.total, 5);
    assert_eq!(s.succeeded, 2);
    assert_eq!(s.failed, 3);
}

#[test]
fn summarize_generate_counts_records() {
    let results = vec![
        Ok(b"aa  /x".to_vec()),
        Err(HashError::Open),
        Ok(b"bb  /y".to_vec()),
    ];
    let s = summarize_generate(&results);
    assert_eq!(s.total, 3);
    assert_eq!(s.succeeded, 2);
    assert_eq!(s.failed, 1);
}

#[test]
fn exit_codes_follow_skip_errors() {
    assert_eq!(exit_code(0, false), 0);
    assert_eq!(exit_code(0, true), 0);
    assert_eq!(exit_code(2, false), 1);
    assert_eq!(exit_code(2, true), 0);
}

#[test]
fn transient_errors_are_retried_within_budget() {
    assert!(should_retry(&HashError::Read(Stage::First), 1));
    assert!(should_retry(&HashError::Read(Stage::Middle), 2));
    assert!(should_retry(&HashError::Seek(Stage::Last), 1));
    assert!(should_retry(&HashError::Seek(Stage::Middle), 2));
    // The budget allows two extra attempts: a third failure is final.
    assert!(!should_retry(&HashError::Read(Stage::First), 3));
}

#[test]
fn fatal_errors_are_never_retried() {
    assert!(!should_retry(&HashError::Open, 1));
    assert!(!should_retry(&HashError::Metadata, 1));
}
