//! Shared error vocabulary for binary inspection and patching.

use vstd::prelude::*;
use crate::fuses::Fuse;
use crate::patcher::{DevToolsMessage, ElectronOption, NodeJsCommandLineFlag};

verus! {

/// An error that the provided binary didn't contain the required information
/// for an operation on it.
#[derive(Debug, Clone, Copy, PartialEq, Eq, Structural)]
#[non_exhaustive]
pub enum BinaryError {
    /// No sentinel byte marker could be found in the binary.
    NoSentinel,
    /// No fuse version was found in the binary.
    NoFuseVersion,
    /// The length of the fuse wire was not found in the binary.
    NoFuseLength,
    /// The requested fuse wasn't present in the fuse wire.
    FuseDoesNotExist(Fuse),
    /// An unknown fuse status byte was encountered.
    UnknownFuse {
        /// The fuse that returned an unknown value.
        fuse: Fuse,
        /// The value found querying the fuse.
        value: u8,
    },
    /// The Node.JS command line flag attempted to be disabled wasn't present.
    NodeJsFlagNotPresent(NodeJsCommandLineFlag),
    /// The Electron command line flag attempted to be disabled wasn't present.
    ElectronOptionNotPresent(ElectronOption),
    /// The Node.JS debugging message attempted to be disabled wasn't present.
    MessageNotPresent(DevToolsMessage),
}

/// An error that can result from parsing an Electron binary and attempting to
/// modify it.
#[derive(Debug, Clone, Copy, PartialEq, Eq, Structural)]
#[non_exhaustive]
pub enum PatcherError {
    /// A part of the provided binary's contents was invalid.
    Binary(BinaryError),
    /// A different fuse schema version was found than what the library
    /// supports.
    FuseVersion {
        /// The fuse schema version supported by this library.
        expected: u8,
        /// The fuse schema version found in the provided binary.
        found: u8,
    },
    /// An attempt was made to modify a fuse which has been removed from the
    /// schema.  Modifying a removed fuse has no effect, so the attempt is
    /// rejected instead of silently ignored.
    RemovedFuse(Fuse),
}

impl From<BinaryError> for PatcherError {
    fn from(e: BinaryError) -> (r: Self)
        ensures
            r == PatcherError::Binary(e),
    {
        PatcherError::Binary(e)
    }
}

impl vstd::std_specs::convert::FromSpecImpl<BinaryError> for PatcherError {
    open spec fn obeys_from_spec() -> bool {
        true
    }

    open spec fn from_spec(e: BinaryError) -> Self {
        PatcherError::Binary(e)
    }
}

} // verus!
