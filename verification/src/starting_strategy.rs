use vstd::prelude::*;

verus! {

/// Where in the server's log a replication session starts.
#[derive(Clone, Copy, Debug, PartialEq, Eq, Structural)]
pub enum StartingStrategy {
    /// From the first event of the first log file.
    FromStart,
    /// From the end of the current log file.
    FromEnd,
    /// From a known file and offset.
    FromPosition,
    /// From a set or list of global transaction identifiers.
    FromGtid,
}

} // verus!
