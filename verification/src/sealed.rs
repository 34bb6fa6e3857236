//! Private marker restricting which types can implement the patching
//! interface: the three pattern families are not meant to be
//! user-extensible.

use vstd::prelude::*;
use crate::patcher::{DevToolsMessage, ElectronOption, NodeJsCommandLineFlag};

verus! {

/// Implemented exactly by the library's own pattern families.
pub trait Sealed {
}

impl Sealed for NodeJsCommandLineFlag {
}

impl Sealed for ElectronOption {
}

impl Sealed for DevToolsMessage {
}

} // verus!
