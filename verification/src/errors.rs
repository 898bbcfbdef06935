use vstd::prelude::*;

verus! {

/// Which sampling window an I/O failure belongs to.
#[derive(Clone, Copy, PartialEq, Eq, Debug, Structural)]
pub enum Stage {
    First,
    Middle,
    Last,
}

/// Classified failure of one file's hash computation.
///
/// The classification is fixed at the point the failure originates, so that
/// the retry policy never has to infer it from a formatted message: reads and
/// seeks are considered transient (a flaky device may succeed on a second
/// attempt), while metadata and open failures are fatal for that file.
#[derive(Clone, Copy, PartialEq, Eq, Debug, Structural)]
pub enum HashError {
    /// Reading the file's metadata (size, modification time) failed.
    Metadata,
    /// Opening the file failed (missing file, permission denied).
    Open,
    /// Reading one of the sampled windows failed.
    Read(Stage),
    /// Seeking to the offset of one of the sampled windows failed.
    Seek(Stage),
}

impl HashError {
    /// Whether this failure is expected to be retry-recoverable.
    pub open spec fn is_transient_spec(&self) -> bool {
        match *self {
            HashError::Read(_) => true,
            HashError::Seek(_) => true,
            _ => false,
        }
    }

    /// Read and seek failures are transient; metadata and open failures are not.
    pub fn is_transient(&self) -> (r: bool)
        ensures
            r == self.is_transient_spec(),
    {
        match *self {
            HashError::Read(_) => true,
            HashError::Seek(_) => true,
            _ => false,
        }
    }
}

} // verus!
