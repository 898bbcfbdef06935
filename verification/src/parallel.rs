use vstd::prelude::*;
use rayon::iter::{IntoParallelRefIterator, ParallelIterator};
use crate::codec::format_spec;
use crate::digest::digest_spec;
use crate::errors::HashError;
use crate::sample::FileSample;
use crate::workflow::generate_record;

verus! {

/// One generate item, after sampling: the file's path as it will be
/// recorded, and what sampling the file ended in.
pub struct GenerateItem {
    pub path: Vec<u8>,
    pub sampled: Result<FileSample, HashError>,
}

/// The result owed for one generate item: its formatted record line when a
/// sample was read, its classified failure otherwise.
pub open spec fn generate_item_spec(item: GenerateItem) -> Result<Seq<u8>, HashError> {
    match item.sampled {
        Ok(s) => Ok(format_spec(digest_spec(s), item.path@)),
        Err(e) => Err(e),
    }
}

/// The relation between one generate item and its result.
pub open spec fn generate_item_matches(r: Result<Vec<u8>, HashError>, item: GenerateItem) -> bool {
    match generate_item_spec(item) {
        Ok(l) => r matches Ok(line) && line@ == l,
        Err(e) => r == Err::<Vec<u8>, HashError>(e),
    }
}

/// Produce one item's record line, or pass its failure through unchanged.
pub fn generate_item(item: &GenerateItem) -> (r: Result<Vec<u8>, HashError>)
    ensures
        generate_item_matches(r, *item),
{
    match &item.sampled {
        Ok(s) => Ok(generate_record(&item.path, s)),
        Err(e) => Err(*e),
    }
}

/// Relies on rayon's indexed parallel iterators: `par_iter().map().collect()`
/// into a `Vec` yields the closure's result for every item at that item's own
/// position, whatever order the workers completed in. The closure only calls
/// the verified `generate_item`, whose contract gives each element's value.
#[verifier::external_body]
fn par_map_generate(items: &Vec<GenerateItem>) -> (r: Vec<Result<Vec<u8>, HashError>>)
    ensures
        r@.len() == items@.len(),
        forall|i: int| 0 <= i < r@.len() ==> generate_item_matches(#[trigger] r@[i], items@[i]),
{
    items.par_iter().map(generate_item).collect()
}

/// Digest and format all generate items concurrently. The results stand in
/// input order, one per item — downstream formatting assumes positional
/// correspondence — and one item's failure never disturbs another's result.
pub fn generate_records(items: &Vec<GenerateItem>) -> (r: Vec<Result<Vec<u8>, HashError>>)
    ensures
        r@.len() == items@.len(),
        forall|i: int| 0 <= i < r@.len() ==> generate_item_matches(#[trigger] r@[i], items@[i]),
{
    par_map_generate(items)
}

} // verus!
