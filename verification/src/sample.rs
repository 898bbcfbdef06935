use vstd::prelude::*;
use vstd::math::min;

verus! {

/// The data sampled from one file: the size and modification time from its
/// metadata, and the three byte windows read from it.
///
/// `mod_time_secs` is 0 whenever modification times are excluded from the
/// digest, so that copies that do not preserve timestamps still compare
/// equal.
pub struct FileSample {
    pub size: u64,
    pub mod_time_secs: u64,
    pub first: Vec<u8>,
    pub middle: Vec<u8>,
    pub last: Vec<u8>,
}

/// The first window: up to `pb` bytes from the start of the file.
pub open spec fn window_first(content: Seq<u8>, pb: int) -> Seq<u8>
    recommends
        0 <= pb,
{
    content.take(min(pb, content.len() as int))
}

/// The middle window: `pb` bytes from offset `len / 2`, present only when
/// the file is longer than two windows.
pub open spec fn window_middle(content: Seq<u8>, pb: int) -> Seq<u8>
    recommends
        0 <= pb,
{
    if content.len() > 2 * pb {
        content.subrange(content.len() as int / 2, content.len() as int / 2 + pb)
    } else {
        Seq::empty()
    }
}

/// The last window: the final `pb` bytes, present only when the file is
/// longer than one window.
pub open spec fn window_last(content: Seq<u8>, pb: int) -> Seq<u8>
    recommends
        0 <= pb,
{
    if content.len() > pb {
        content.subrange(content.len() as int - pb, content.len() as int)
    } else {
        Seq::empty()
    }
}

/// What it means for a sample to be the faithful sampling of a file whose
/// whole content is `content`, under window size `pb` and the given flags.
pub open spec fn is_sample_of(
    s: FileSample,
    content: Seq<u8>,
    mod_time_secs: u64,
    include_modtime: bool,
    pb: int,
) -> bool {
    &&& s.size as int == content.len() as int
    &&& s.mod_time_secs == (if include_modtime {
        mod_time_secs
    } else {
        0u64
    })
    &&& s.first@ == window_first(content, pb)
    &&& s.middle@ == window_middle(content, pb)
    &&& s.last@ == window_last(content, pb)
}

impl FileSample {
    /// The shape every faithful sample has: no window exceeds the configured
    /// size, the middle window is empty unless the file is longer than two
    /// windows, and the last window is empty unless it is longer than one.
    pub open spec fn wf(&self, pb: int) -> bool {
        &&& self.first@.len() <= pb
        &&& self.middle@.len() <= pb
        &&& self.last@.len() <= pb
        &&& (self.size as int <= 2 * pb ==> self.middle@.len() == 0)
        &&& (self.size as int <= pb ==> self.last@.len() == 0)
    }

    /// Assemble a sample from metadata and the three windows as read; the
    /// modification time is normalized to 0 unless `include_modtime` is set.
    pub fn new(
        size: u64,
        mod_time_secs: u64,
        include_modtime: bool,
        first: Vec<u8>,
        middle: Vec<u8>,
        last: Vec<u8>,
    ) -> (s: FileSample)
        ensures
            s.size == size,
            s.mod_time_secs == (if include_modtime {
                mod_time_secs
            } else {
                0u64
            }),
            s.first == first,
            s.middle == middle,
            s.last == last,
    {
        FileSample {
            size,
            mod_time_secs: if include_modtime {
                mod_time_secs
            } else {
                0
            },
            first,
            middle,
            last,
        }
    }
}

/// A faithful sample of a file is well formed.
pub proof fn lemma_sample_of_wf(
    s: FileSample,
    content: Seq<u8>,
    mod_time_secs: u64,
    include_modtime: bool,
    pb: int,
)
    requires
        0 <= pb,
        is_sample_of(s, content, mod_time_secs, include_modtime, pb),
    ensures
        s.wf(pb),
{
}

/// Where the extra windows of a file of `size` bytes are read: the middle
/// window at offset `size / 2` only when `size > 2 * partial_bytes`, the
/// last window at offset `size - partial_bytes` only when
/// `size > partial_bytes`. The first window is always read from offset 0.
pub struct WindowPlan {
    pub read_middle: bool,
    pub middle_offset: u64,
    pub read_last: bool,
    pub last_offset: u64,
}

pub fn window_plan(size: u64, partial_bytes: usize) -> (p: WindowPlan)
    ensures
        p.read_middle == (size as int > 2 * (partial_bytes as int)),
        p.read_middle ==> p.middle_offset == size / 2,
        p.read_last == (size as int > partial_bytes as int),
        p.read_last ==> p.last_offset as int == size as int - partial_bytes as int,
{
    let pb64: u64 = partial_bytes as u64;
    let read_last = size > pb64;
    let read_middle = read_last && size - pb64 > pb64;
    WindowPlan {
        read_middle,
        middle_offset: if read_middle {
            size / 2
        } else {
            0
        },
        read_last,
        last_offset: if read_last {
            size - pb64
        } else {
            0
        },
    }
}

/// Small-file collapse: when the whole file fits in one window, the middle
/// and last windows are empty and the first window is the entire content.
pub proof fn lemma_small_file_collapse(content: Seq<u8>, pb: int)
    requires
        content.len() <= pb,
    ensures
        window_first(content, pb) == content,
        window_middle(content, pb) == Seq::<u8>::empty(),
        window_last(content, pb) == Seq::<u8>::empty(),
{
    assert(window_first(content, pb) =~= content);
}

/// Overlap allowed: when the file is longer than one window but no longer
/// than two, the middle window is empty while the first and last windows are
/// both full length and may overlap — every byte of the file at a position
/// in `[len - pb, pb)` lies in both windows. Both windows still enter the
/// fold; the shared bytes are intentionally not deduplicated.
pub proof fn lemma_window_overlap(content: Seq<u8>, pb: int)
    requires
        pb < content.len(),
        content.len() <= 2 * pb,
    ensures
        window_middle(content, pb) == Seq::<u8>::empty(),
        window_first(content, pb) == content.take(pb),
        window_last(content, pb) == content.subrange(content.len() as int - pb, content.len() as int),
        forall|j: int|
            content.len() as int - pb <= j < pb ==> window_first(content, pb)[j] == content[j]
                && window_last(content, pb)[j - (content.len() as int - pb)] == content[j],
{
}

} // verus!
