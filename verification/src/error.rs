//! What can go wrong with a single record.

use vstd::prelude::*;

verus! {

/// The failures of a run. Two are local: they only keep a record out of
/// the split evidence. Two are fatal: they end the run at the record that
/// met them.
#[derive(Clone, Copy, Debug, PartialEq, Eq, Structural)]
pub enum EvidenceError {
    /// Reading a record or writing one failed. The evidence rules never
    /// give this error themselves: it is the caller's to report.
    IoFailure,
    /// The supplementary tag is present but cannot be read as expected.
    MalformedTag,
    /// The record carries no supplementary tag.
    MissingSupplementary,
    /// A packed alignment operation has a code outside the known set.
    UnsupportedOperation,
}

impl EvidenceError {
    /// An I/O failure and an unknown operation are fatal; a malformed or
    /// missing tag is local.
    pub open spec fn fatal(self) -> bool {
        self is IoFailure || self is UnsupportedOperation
    }

    /// Whether the error ends the whole run.
    pub fn is_fatal(&self) -> (fatal: bool)
        ensures
            fatal == self.fatal(),
    {
        match self {
            EvidenceError::IoFailure => true,
            EvidenceError::UnsupportedOperation => true,
            EvidenceError::MalformedTag => false,
            EvidenceError::MissingSupplementary => false,
        }
    }
}

} // verus!
