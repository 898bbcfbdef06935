use vstd::prelude::*;
use vstd::bytes::{spec_u64_to_le_bytes, spec_u64_from_le_bytes, lemma_auto_spec_u64_to_from_le_bytes, u64_to_le_bytes};
use vstd::slice::slice_to_vec;
use crate::sample::{FileSample, window_first, window_middle, window_last};
use sha2::{Digest, Sha256};

verus! {

/// The canonical byte string that is hashed for one file: the modification
/// time as 8 bytes little-endian, the size as 8 bytes little-endian, then
/// the first, middle and last windows, in that order. This layout is the
/// wire contract: it must be reproduced bit for bit for digests to stay
/// comparable with previously saved record files.
pub open spec fn fold_spec(
    mod_time_secs: u64,
    size: u64,
    first: Seq<u8>,
    middle: Seq<u8>,
    last: Seq<u8>,
) -> Seq<u8> {
    spec_u64_to_le_bytes(mod_time_secs) + spec_u64_to_le_bytes(size) + first + middle + last
}

/// The folded byte string of a sample.
pub open spec fn fold_bytes(s: FileSample) -> Seq<u8> {
    fold_spec(s.mod_time_secs, s.size, s.first@, s.middle@, s.last@)
}

/// The SHA-256 digest of a byte string, as the `sha2` crate computes it.
pub uninterp spec fn sha256_of(data: Seq<u8>) -> Seq<u8>;

/// Relies on `sha2::Sha256` through the one-shot `Digest::digest`: the
/// 32-byte SHA-256 digest of the input, a function of the input bytes alone.
#[verifier::external_body]
fn sha256(data: &Vec<u8>) -> (r: Vec<u8>)
    ensures
        r@ == sha256_of(data@),
        r@.len() == 32,
{
    Sha256::digest(data.as_slice()).to_vec()
}

/// One lowercase hex digit: `0x30..0x39` for 0..9, `0x61..0x66` for 10..15.
pub open spec fn hex_digit(n: u8) -> u8
    recommends
        n < 16,
{
    if n < 10 {
        (0x30 + n) as u8
    } else {
        (0x57 + n) as u8
    }
}

/// Lowercase hex encoding of a byte string: two digits per byte, high nibble
/// first.
pub open spec fn hex_of(bytes: Seq<u8>) -> Seq<u8> {
    Seq::new(
        2 * bytes.len(),
        |i: int|
            if i % 2 == 0 {
                hex_digit(bytes[i / 2] / 16)
            } else {
                hex_digit(bytes[i / 2] % 16)
            },
    )
}

/// Hex digests contain no space byte, so the two spaces written after a
/// digest in a record line are always its first double space.
pub proof fn lemma_hex_no_space(bytes: Seq<u8>)
    ensures
        forall|k: int| 0 <= k < hex_of(bytes).len() ==> hex_of(bytes)[k] != 32u8,
{
}

pub fn to_hex(bytes: &Vec<u8>) -> (r: Vec<u8>)
    ensures
        r@ == hex_of(bytes@),
{
    let n = bytes.len();
    let mut r: Vec<u8> = Vec::new();
    let mut i: usize = 0;
    while i < n
        invariant
            n == bytes@.len(),
            i <= n,
            r@.len() == 2 * i,
            forall|k: int| 0 <= k < r@.len() ==> r@[k] == hex_of(bytes@)[k],
        decreases n - i,
    {
        let b = bytes[i];
        let hi = b / 16;
        let lo = b % 16;
        r.push(if hi < 10 { 0x30 + hi } else { 0x57 + hi });
        r.push(if lo < 10 { 0x30 + lo } else { 0x57 + lo });
        i += 1;
    }
    assert(r@ =~= hex_of(bytes@));
    r
}

/// Build the folded byte string of a sample.
pub fn fold_sample(s: &FileSample) -> (r: Vec<u8>)
    ensures
        r@ == fold_bytes(*s),
{
    let mut r = u64_to_le_bytes(s.mod_time_secs);
    let mut size_bytes = u64_to_le_bytes(s.size);
    r.append(&mut size_bytes);
    let mut first = slice_to_vec(s.first.as_slice());
    r.append(&mut first);
    let mut middle = slice_to_vec(s.middle.as_slice());
    r.append(&mut middle);
    let mut last = slice_to_vec(s.last.as_slice());
    r.append(&mut last);
    assert(r@ =~= fold_bytes(*s));
    r
}

/// The digest of a sample: SHA-256 over the folded bytes, in lowercase hex.
pub open spec fn digest_spec(s: FileSample) -> Seq<u8> {
    hex_of(sha256_of(fold_bytes(s)))
}

/// Compute the partial-checksum digest of one sample: SHA-256 over
/// `[mod_time LE8][size LE8][first][middle][last]`, formatted as 64
/// lowercase hex digits.
pub fn digest_of_sample(s: &FileSample) -> (r: Vec<u8>)
    ensures
        r@ == digest_spec(*s),
        r@.len() == 64,
{
    let folded = fold_sample(s);
    let h = sha256(&folded);
    to_hex(&h)
}

/// The folded byte string of a whole file, at the level of its content.
pub open spec fn file_fold(
    content: Seq<u8>,
    mod_time_secs: u64,
    include_modtime: bool,
    pb: int,
) -> Seq<u8>
    recommends
        content.len() <= u64::MAX,
{
    fold_spec(
        if include_modtime { mod_time_secs } else { 0u64 },
        content.len() as u64,
        window_first(content, pb),
        window_middle(content, pb),
        window_last(content, pb),
    )
}

/// The digest of a whole file, at the level of its content.
pub open spec fn file_digest(
    content: Seq<u8>,
    mod_time_secs: u64,
    include_modtime: bool,
    pb: int,
) -> Seq<u8>
    recommends
        content.len() <= u64::MAX,
{
    hex_of(sha256_of(file_fold(content, mod_time_secs, include_modtime, pb)))
}

/// A faithful sample of a file folds, and so digests, exactly as the file's
/// content does.
pub proof fn lemma_sample_digest_is_file_digest(
    s: FileSample,
    content: Seq<u8>,
    mod_time_secs: u64,
    include_modtime: bool,
    pb: int,
)
    requires
        crate::sample::is_sample_of(s, content, mod_time_secs, include_modtime, pb),
    ensures
        fold_bytes(s) == file_fold(content, mod_time_secs, include_modtime, pb),
        digest_spec(s) == file_digest(content, mod_time_secs, include_modtime, pb),
{
}

/// Determinism: two faithful samplings of the same unmodified file, under
/// the same configuration, yield the same digest.
pub proof fn lemma_digest_deterministic(
    s1: FileSample,
    s2: FileSample,
    content: Seq<u8>,
    mod_time_secs: u64,
    include_modtime: bool,
    pb: int,
)
    requires
        crate::sample::is_sample_of(s1, content, mod_time_secs, include_modtime, pb),
        crate::sample::is_sample_of(s2, content, mod_time_secs, include_modtime, pb),
    ensures
        digest_spec(s1) == digest_spec(s2),
{
}

/// Equal folds have equal header fields: the first 16 bytes of the fold
/// encode the modification time and the size little-endian, and that
/// encoding is injective.
pub proof fn lemma_fold_header_injective(
    m1: u64,
    s1: u64,
    f1: Seq<u8>,
    mi1: Seq<u8>,
    l1: Seq<u8>,
    m2: u64,
    s2: u64,
    f2: Seq<u8>,
    mi2: Seq<u8>,
    l2: Seq<u8>,
)
    requires
        fold_spec(m1, s1, f1, mi1, l1) == fold_spec(m2, s2, f2, mi2, l2),
    ensures
        m1 == m2,
        s1 == s2,
{
    lemma_auto_spec_u64_to_from_le_bytes();
    let a = fold_spec(m1, s1, f1, mi1, l1);
    let b = fold_spec(m2, s2, f2, mi2, l2);
    assert(a.subrange(0, 8) =~= spec_u64_to_le_bytes(m1));
    assert(a.subrange(8, 16) =~= spec_u64_to_le_bytes(s1));
    assert(b.subrange(0, 8) =~= spec_u64_to_le_bytes(m2));
    assert(b.subrange(8, 16) =~= spec_u64_to_le_bytes(s2));
    assert(spec_u64_from_le_bytes(spec_u64_to_le_bytes(m1)) == m1);
    assert(spec_u64_from_le_bytes(spec_u64_to_le_bytes(s1)) == s1);
    assert(spec_u64_from_le_bytes(spec_u64_to_le_bytes(m2)) == m2);
    assert(spec_u64_from_le_bytes(spec_u64_to_le_bytes(s2)) == s2);
}

/// Size sensitivity: samples that differ in file size fold to different byte
/// strings before hashing, even when every sampled window is identical.
pub proof fn lemma_size_sensitivity(s1: FileSample, s2: FileSample)
    requires
        s1.size != s2.size,
    ensures
        fold_bytes(s1) != fold_bytes(s2),
{
    if fold_bytes(s1) == fold_bytes(s2) {
        lemma_fold_header_injective(
            s1.mod_time_secs, s1.size, s1.first@, s1.middle@, s1.last@,
            s2.mod_time_secs, s2.size, s2.first@, s2.middle@, s2.last@,
        );
    }
}

/// Appending a byte to a file changes its size and with it the folded byte
/// string that is hashed — whatever the sampled windows then contain, and
/// even though the appended byte itself may lie in no window.
pub proof fn lemma_append_changes_fold(
    content: Seq<u8>,
    b: u8,
    mod_time_secs: u64,
    include_modtime: bool,
    pb: int,
)
    requires
        content.len() + 1 <= u64::MAX,
    ensures
        file_fold(content.push(b), mod_time_secs, include_modtime, pb) != file_fold(
            content,
            mod_time_secs,
            include_modtime,
            pb,
        ),
{
    if file_fold(content.push(b), mod_time_secs, include_modtime, pb) == file_fold(
        content,
        mod_time_secs,
        include_modtime,
        pb,
    ) {
        let c2 = content.push(b);
        lemma_fold_header_injective(
            if include_modtime { mod_time_secs } else { 0u64 },
            c2.len() as u64,
            window_first(c2, pb),
            window_middle(c2, pb),
            window_last(c2, pb),
            if include_modtime { mod_time_secs } else { 0u64 },
            content.len() as u64,
            window_first(content, pb),
            window_middle(content, pb),
            window_last(content, pb),
        );
    }
}

/// Modtime toggle, excluded: with modification times excluded, faithful
/// samples of two files with identical content digest identically, whatever
/// their actual modification times are.
pub proof fn lemma_modtime_excluded(
    s1: FileSample,
    s2: FileSample,
    content: Seq<u8>,
    t1: u64,
    t2: u64,
    pb: int,
)
    requires
        crate::sample::is_sample_of(s1, content, t1, false, pb),
        crate::sample::is_sample_of(s2, content, t2, false, pb),
    ensures
        digest_spec(s1) == digest_spec(s2),
{
}

/// Modtime toggle, included: with modification times included, faithful
/// samples of two files whose modification times differ fold to different
/// byte strings before hashing.
pub proof fn lemma_modtime_included(
    s1: FileSample,
    s2: FileSample,
    content: Seq<u8>,
    t1: u64,
    t2: u64,
    pb: int,
)
    requires
        t1 != t2,
        crate::sample::is_sample_of(s1, content, t1, true, pb),
        crate::sample::is_sample_of(s2, content, t2, true, pb),
    ensures
        fold_bytes(s1) != fold_bytes(s2),
{
    if fold_bytes(s1) == fold_bytes(s2) {
        lemma_fold_header_injective(
            s1.mod_time_secs, s1.size, s1.first@, s1.middle@, s1.last@,
            s2.mod_time_secs, s2.size, s2.first@, s2.middle@, s2.last@,
        );
    }
}

} // verus!
