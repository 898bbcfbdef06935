use gustasum::digest::{digest_of_sample, to_hex};
use gustasum::sample::{window_plan, FileSample};
use sha2::{Digest, Sha256};

fn hex_string(bytes: &[u8]) -> String {
    let mut s = String::new();
    for b in bytes {
        s.push_str(&format!("{:02x}", b));
    }
    s
}

fn expected_digest(mod_time_secs: u64, size: u64, windows: &[&[u8]]) -> String {
    let mut hasher = Sha256::new();
    hasher.update(mod_time_secs.to_le_bytes());
    hasher.update(size.to_le_bytes());
    for w in windows {
        hasher.update(w);
    }
    hex_string(&hasher.finalize())
}

#[test]
fn to_hex_lowercase_two_digits_per_byte() {
    let r = to_hex(&vec![0x00u8, 0xff, 0x1a]);
    assert_eq!(r, b"00ff1a".to_vec());
}

#[test]
fn hello_world_small_file() {
    // 11 bytes with a 100-byte window: the first window is the whole file,
    // the other windows are empty, and the excluded modification time is 0.
    let content = b"hello world";
    let sample = FileSample::new(11, 987654321, false, content.to_vec(), Vec::new(), Vec::new());
    assert_eq!(sample.mod_time_secs, 0);
    let digest = digest_of_sample(&sample);
    assert_eq!(digest.len(), 64);
    let expected = expected_digest(0, 11, &[content]);
    assert_eq!(String::from_utf8(digest).unwrap(), expected);
}

#[test]
fn empty_file_digest_is_well_defined() {
    let sample = FileSample::new(0, 0, false, Vec::new(), Vec::new(), Vec::new());
    let digest = digest_of_sample(&sample);
    let expected = expected_digest(0, 0, &[]);
    assert_eq!(String::from_utf8(digest).unwrap(), expected);
}

#[test]
fn same_sample_hashes_identically() {
    let mk = || FileSample::new(11, 0, false, b"hello world".to_vec(), Vec::new(), Vec::new());
    assert_eq!(digest_of_sample(&mk()), digest_of_sample(&mk()));
}

#[test]
fn size_change_changes_digest() {
    // Identical windows, sizes 11 and 12: the digests differ even though no
    // sampled byte differs.
    let a = FileSample::new(11, 0, false, b"hello world".to_vec(), Vec::new(), Vec::new());
    let b = FileSample::new(12, 0, false, b"hello world".to_vec(), Vec::new(), Vec::new());
    assert_ne!(digest_of_sample(&a), digest_of_sample(&b));
}

#[test]
fn modtime_excluded_normalizes_digest() {
    let a = FileSample::new(11, 111, false, b"hello world".to_vec(), Vec::new(), Vec::new());
    let b = FileSample::new(11, 222, false, b"hello world".to_vec(), Vec::new(), Vec::new());
    assert_eq!(digest_of_sample(&a), digest_of_sample(&b));
}

#[test]
fn modtime_included_separates_digest() {
    let a = FileSample::new(11, 111, true, b"hello world".to_vec(), Vec::new(), Vec::new());
    let b = FileSample::new(11, 222, true, b"hello world".to_vec(), Vec::new(), Vec::new());
    assert_ne!(digest_of_sample(&a), digest_of_sample(&b));
}

#[test]
fn overlapping_windows_both_enter_the_fold() {
    // 150 bytes with a 100-byte window: first covers bytes 0..100, last
    // covers bytes 50..150; the shared 50 bytes are hashed twice.
    let content: Vec<u8> = (0..150u32).map(|i| (i % 251) as u8).collect();
    let first = content[..100].to_vec();
    let last = content[50..150].to_vec();
    let sample = FileSample::new(150, 0, false, first.clone(), Vec::new(), last.clone());
    let digest = digest_of_sample(&sample);
    let expected = expected_digest(0, 150, &[&first, &last]);
    assert_eq!(String::from_utf8(digest).unwrap(), expected);
}

#[test]
fn window_plan_small_file_reads_nothing_extra() {
    let p = window_plan(50, 100);
    assert!(!p.read_middle);
    assert!(!p.read_last);
}

#[test]
fn window_plan_boundary_sizes() {
    // Exactly one window: still nothing extra.
    let p = window_plan(100, 100);
    assert!(!p.read_middle);
    assert!(!p.read_last);
    // One byte over: a last window appears.
    let p = window_plan(101, 100);
    assert!(!p.read_middle);
    assert!(p.read_last);
    assert_eq!(p.last_offset, 1);
    // Exactly two windows: still no middle window.
    let p = window_plan(200, 100);
    assert!(!p.read_middle);
    assert!(p.read_last);
    assert_eq!(p.last_offset, 100);
    // One byte over two windows: the middle window appears.
    let p = window_plan(201, 100);
    assert!(p.read_middle);
    assert_eq!(p.middle_offset, 100);
    assert!(p.read_last);
    assert_eq!(p.last_offset, 101);
}

#[test]
fn window_plan_large_file() {
    let p = window_plan(1000, 100);
    assert!(p.read_middle);
    assert_eq!(p.middle_offset, 500);
    assert!(p.read_last);
    assert_eq!(p.last_offset, 900);
}
