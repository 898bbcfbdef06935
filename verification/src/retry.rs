use vstd::prelude::*;
use crate::errors::HashError;

verus! {

/// Extra attempts allowed after a transient failure; a single file's hash is
/// computed at most `READ_RETRIES + 1` times in all.
pub const READ_RETRIES: usize = 2;

/// The retry decision: after `attempts` completed attempts, the last of
/// which ended in `err`, the computation is attempted again exactly when the
/// failure is transient (a read or seek error, as from a flaky device) and
/// the retry budget is not yet exhausted. Metadata and open failures are
/// never retried; exhausting the budget surfaces the last error with its
/// original classification.
pub fn should_retry(err: &HashError, attempts: usize) -> (r: bool)
    ensures
        r == (attempts <= READ_RETRIES && err.is_transient_spec()),
{
    attempts <= READ_RETRIES && err.is_transient()
}

} // verus!
