//! The typed failures of the core operations. Every operation returns its
//! result or exactly one of these; nothing here retries or logs.

use vstd::prelude::*;

verus! {

#[derive(Clone, Copy, PartialEq, Eq, Structural, Debug)]
pub enum Error {
    /// `begin` found a session already open.
    AlreadyOpen,
    /// An operation that needs an open session found none.
    NoOpenSession,
    /// A month archive was attempted with nothing to move.
    EmptyArchive,
    /// An aggregation was attempted over zero records.
    EmptyLog,
}

} // verus!
