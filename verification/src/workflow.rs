use vstd::prelude::*;
use vstd::slice::{slice_index_get, slice_to_vec};
use crate::codec::{format_spec, parse_spec, split_line, format_line, lemma_format_parse};
use crate::digest::{digest_spec, digest_of_sample, lemma_hex_no_space};
use crate::errors::HashError;
use crate::remap::{remap_spec, remap_path};
use crate::sample::FileSample;

verus! {

/// What verifying one record ended in.
#[derive(Clone, Copy, PartialEq, Eq, Debug, Structural)]
pub enum VerificationOutcome {
    /// The recomputed digest equals the recorded one.
    Match,
    /// The recomputed digest differs from the recorded one.
    Mismatch,
    /// The digest could not be computed.
    ComputationFailed(HashError),
    /// The record line has no double-space separator.
    Malformed,
}

/// An enabled remapping: the two base paths it substitutes.
pub struct RemapPair {
    pub old_base: Vec<u8>,
    pub new_base: Vec<u8>,
}

/// The run's configuration, immutable once a run starts.
pub struct Config {
    /// Size of each sampled window.
    pub partial_bytes: usize,
    /// Whether the modification time enters the digest.
    pub include_modtime: bool,
    /// Whether per-item failures are absorbed into a successful exit status.
    pub skip_errors: bool,
    /// Path prefix substitution applied when locating files to verify.
    pub remap: Option<RemapPair>,
}

/// Byte-for-byte equality of two byte strings.
pub fn bytes_equal(a: &Vec<u8>, b: &Vec<u8>) -> (r: bool)
    ensures
        r == (a@ == b@),
{
    let n = a.len();
    if n != b.len() {
        return false;
    }
    let mut i: usize = 0;
    while i < n
        invariant
            n == a@.len(),
            n == b@.len(),
            i <= n,
            forall|k: int| 0 <= k < i ==> a@[k] == b@[k],
        decreases n - i,
    {
        if a[i] != b[i] {
            return false;
        }
        i += 1;
    }
    assert(a@ =~= b@);
    true
}

/// The outcome owed for one well-formed record, given what the sampling
/// ended in: a digest match or mismatch if a sample was read, the classified
/// failure otherwise.
pub open spec fn judge_spec(expected: Seq<u8>, computed: Result<FileSample, HashError>) -> VerificationOutcome {
    match computed {
        Ok(s) => if digest_spec(s) == expected {
            VerificationOutcome::Match
        } else {
            VerificationOutcome::Mismatch
        },
        Err(e) => VerificationOutcome::ComputationFailed(e),
    }
}

/// Compare one record's expected digest against what sampling the file
/// produced: the recomputed digest is compared byte for byte.
pub fn judge_record(expected: &Vec<u8>, computed: &Result<FileSample, HashError>) -> (o: VerificationOutcome)
    ensures
        o == judge_spec(expected@, *computed),
{
    match computed {
        Ok(s) => {
            let d = digest_of_sample(s);
            if bytes_equal(&d, expected) {
                VerificationOutcome::Match
            } else {
                VerificationOutcome::Mismatch
            }
        },
        Err(e) => VerificationOutcome::ComputationFailed(*e),
    }
}

/// What to do with one input line of a verify run.
pub enum CheckPlan {
    /// The line has no double-space separator: report it failed, attempt no
    /// file access.
    Malformed,
    /// Hash the file at `lookup_path` and compare against `expected`;
    /// `recorded_path` is reported, exactly as it stood in the record.
    Hash { expected: Vec<u8>, recorded_path: Vec<u8>, lookup_path: Vec<u8> },
}

/// The path a record's file is looked up at: the recorded path, remapped
/// exactly when a remap pair is configured.
pub open spec fn lookup_spec(path: Seq<u8>, remap: Option<RemapPair>) -> Seq<u8> {
    match remap {
        Some(pair) => remap_spec(path, pair.old_base@, pair.new_base@),
        None => path,
    }
}

/// Decide what one verify input line asks for: a malformed line is rejected
/// without any file access, a well-formed one names the digest to expect,
/// the path to report, and the (possibly remapped) path to read.
pub fn plan_check(line: &Vec<u8>, remap: &Option<RemapPair>) -> (p: CheckPlan)
    ensures
        parse_spec(line@) is None ==> p == CheckPlan::Malformed,
        parse_spec(line@) matches Some((d, path)) ==> (p matches CheckPlan::Hash {
            expected,
            recorded_path,
            lookup_path,
        } && expected@ == d && recorded_path@ == path && lookup_path@ == lookup_spec(
            path,
            *remap,
        )),
{
    match split_line(line) {
        None => CheckPlan::Malformed,
        Some((expected, recorded_path)) => {
            let lookup_path = match remap {
                Some(pair) => remap_path(&recorded_path, &pair.old_base, &pair.new_base),
                None => slice_to_vec(recorded_path.as_slice()),
            };
            CheckPlan::Hash { expected, recorded_path, lookup_path }
        },
    }
}

/// One generate item: digest the sample and format its record line.
pub fn generate_record(path: &Vec<u8>, sample: &FileSample) -> (line: Vec<u8>)
    ensures
        line@ == format_spec(digest_spec(*sample), path@),
{
    let d = digest_of_sample(sample);
    format_line(&d, path)
}

/// End-of-run tally: how many items there were, how many succeeded, how many
/// failed.
pub struct Summary {
    pub total: usize,
    pub succeeded: usize,
    pub failed: usize,
}

/// How many outcomes report a match.
pub open spec fn count_ok(outcomes: Seq<VerificationOutcome>) -> nat
    decreases outcomes.len(),
{
    if outcomes.len() == 0 {
        0
    } else {
        count_ok(outcomes.drop_last()) + (if outcomes.last() is Match {
            1nat
        } else {
            0nat
        })
    }
}

proof fn lemma_count_ok_le(outcomes: Seq<VerificationOutcome>)
    ensures
        count_ok(outcomes) <= outcomes.len(),
    decreases outcomes.len(),
{
    if outcomes.len() > 0 {
        lemma_count_ok_le(outcomes.drop_last());
    }
}

/// Tally a verify run: every outcome other than a match counts as failed.
pub fn summarize(outcomes: &Vec<VerificationOutcome>) -> (s: Summary)
    ensures
        s.total == outcomes@.len(),
        s.succeeded == count_ok(outcomes@),
        s.failed == outcomes@.len() - count_ok(outcomes@),
{
    let n = outcomes.len();
    let mut succeeded: usize = 0;
    let mut i: usize = 0;
    while i < n
        invariant
            n == outcomes@.len(),
            i <= n,
            succeeded == count_ok(outcomes@.take(i as int)),
            succeeded <= i,
        decreases n - i,
    {
        let hit = match outcomes[i] {
            VerificationOutcome::Match => true,
            _ => false,
        };
        proof {
            assert(outcomes@.take(i as int + 1).drop_last() =~= outcomes@.take(i as int));
            assert(outcomes@.take(i as int + 1).last() == outcomes@[i as int]);
        }
        if hit {
            succeeded = succeeded + 1;
        }
        i += 1;
    }
    proof {
        assert(outcomes@.take(n as int) =~= outcomes@);
        lemma_count_ok_le(outcomes@);
    }
    Summary { total: n, succeeded, failed: n - succeeded }
}

/// How many generate results carry a record line.
pub open spec fn count_generated(results: Seq<Result<Vec<u8>, HashError>>) -> nat
    decreases results.len(),
{
    if results.len() == 0 {
        0
    } else {
        count_generated(results.drop_last()) + (if results.last() is Ok {
            1nat
        } else {
            0nat
        })
    }
}

proof fn lemma_count_generated_le(results: Seq<Result<Vec<u8>, HashError>>)
    ensures
        count_generated(results) <= results.len(),
    decreases results.len(),
{
    if results.len() > 0 {
        lemma_count_generated_le(results.drop_last());
    }
}

/// Tally a generate run: each file either produced a record line or failed.
pub fn summarize_generate(results: &Vec<Result<Vec<u8>, HashError>>) -> (s: Summary)
    ensures
        s.total == results@.len(),
        s.succeeded == count_generated(results@),
        s.failed == results@.len() - count_generated(results@),
{
    let n = results.len();
    let mut succeeded: usize = 0;
    let mut i: usize = 0;
    while i < n
        invariant
            n == results@.len(),
            i <= n,
            succeeded == count_generated(results@.take(i as int)),
            succeeded <= i,
        decreases n - i,
    {
        let hit = slice_index_get(results.as_slice(), i).is_ok();
        proof {
            assert(results@.take(i as int + 1).drop_last() =~= results@.take(i as int));
            assert(results@.take(i as int + 1).last() == results@[i as int]);
        }
        if hit {
            succeeded = succeeded + 1;
        }
        i += 1;
    }
    proof {
        assert(results@.take(n as int) =~= results@);
        lemma_count_generated_le(results@);
    }
    Summary { total: n, succeeded, failed: n - succeeded }
}

/// The process exit status: failures make the run fail unless `skip_errors`
/// absorbs them.
pub fn exit_code(failed: usize, skip_errors: bool) -> (r: i32)
    ensures
        r == (if failed > 0 && !skip_errors {
            1int
        } else {
            0int
        }),
{
    if failed > 0 && !skip_errors {
        1
    } else {
        0
    }
}

/// A run whose every record matches counts no failures, so its exit status
/// is success.
pub proof fn lemma_all_matches_succeed(outcomes: Seq<VerificationOutcome>)
    requires
        forall|i: int| 0 <= i < outcomes.len() ==> outcomes[i] is Match,
    ensures
        count_ok(outcomes) == outcomes.len(),
    decreases outcomes.len(),
{
    if outcomes.len() > 0 {
        lemma_all_matches_succeed(outcomes.drop_last());
    }
}

/// Round trip: a record line generated from a sample parses back to exactly
/// the digest and path it was written from, and verifying it against the
/// same sample reports a match.
pub proof fn lemma_generate_verify_round_trip(s: FileSample, path: Seq<u8>)
    ensures
        parse_spec(format_spec(digest_spec(s), path)) == Some((digest_spec(s), path)),
        judge_spec(digest_spec(s), Result::Ok(s)) == VerificationOutcome::Match,
{
    lemma_hex_no_space(crate::digest::sha256_of(crate::digest::fold_bytes(s)));
    lemma_format_parse(digest_spec(s), path);
}

} // verus!
