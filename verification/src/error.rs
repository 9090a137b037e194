//! Failure values reported by the dissection engine.

use vstd::prelude::*;

verus! {

/// Why a byte range could not be decoded as some protocol layer.
#[derive(Debug, Clone, Copy, PartialEq, Eq, Structural)]
pub enum ParseError {
    /// The buffer is shorter than a fixed or computed header length.
    NotEnoughData,
    /// The header declares something that contradicts the protocol's layout.
    InvalidHeader,
    /// The next layer has no registered decoder and no fallback is installed.
    UnsupportedProtocol,
}

/// Why a decoder could not be entered into a dissection table.
#[derive(Debug, Clone, Copy, PartialEq, Eq, Structural)]
pub enum RegistryError {
    /// The table already holds a decoder under that key.
    DuplicateRegistration,
}

/// Why an arena could not satisfy an allocation.
#[derive(Debug, Clone, Copy, PartialEq, Eq, Structural)]
pub enum AllocError {
    /// The arena has fewer free bytes than were asked for.
    InsufficientSpace,
}

impl ParseError {
    /// The message shown for every parse failure.
    pub fn message(&self) -> (s: &'static str)
        ensures
            s@ == "pdu parsing failed"@,
    {
        "pdu parsing failed"
    }
}

impl RegistryError {
    /// The message shown when a key is registered twice.
    pub fn message(&self) -> (s: &'static str)
        ensures
            s@ == "Pdu types can only be added to tables once."@,
    {
        "Pdu types can only be added to tables once."
    }
}

impl AllocError {
    /// The message shown for an allocation failure.
    pub fn message(&self) -> (s: &'static str)
        ensures
            s@ == "insufficient space"@,
    {
        "insufficient space"
    }
}

} // verus!
