//! Hardening of packaged Electron application binaries.
//!
//! The library locates the fuse wire (a fixed-layout metadata block) inside a
//! binary's bytes, decodes and toggles single-byte feature fuses, and
//! neutralizes known debug-flag strings and diagnostic message templates by
//! length-preserving in-place substitution.  All mutation is bounded,
//! in-place binary surgery: the buffer never changes length, so no offsets
//! elsewhere in the binary are invalidated.
//!
//! File loading and saving, argument parsing and the sequencing of operations
//! are the caller's responsibility; the library works purely on an in-memory
//! byte buffer.

use vstd::prelude::*;

pub mod error;
pub mod fuses;
pub mod patcher;
pub mod search;
mod sealed;

pub use error::{BinaryError, PatcherError};
pub use fuses::{Fuse, FuseStatus};

use fuses::{spec_find_wire, spec_fuse_status, spec_set_fuse, spec_wire};

verus! {

/// An Electron application binary: the byte buffer together with the
/// resolved byte range of its fuse wire.
pub struct ElectronApp {
    contents: Vec<u8>,
    wire_start: usize,
    wire_end: usize,
}

impl View for ElectronApp {
    type V = Seq<u8>;

    closed spec fn view(&self) -> Seq<u8> {
        self.contents@
    }
}

impl ElectronApp {
    /// Start offset of the fuse wire within the buffer.
    pub closed spec fn spec_wire_start(&self) -> int {
        self.wire_start as int
    }

    /// End offset (exclusive) of the fuse wire within the buffer.
    pub closed spec fn spec_wire_end(&self) -> int {
        self.wire_end as int
    }

    /// The effective wire bytes of this application.
    pub open spec fn wire_view(&self) -> Seq<u8> {
        spec_wire(self@, self.spec_wire_start(), self.spec_wire_end())
    }

    /// Constructs a new handle over an application's bytes, verifying that
    /// they contain a fuse wire of the supported schema version.
    pub fn from_bytes(application_bytes: Vec<u8>) -> (r: Result<ElectronApp, PatcherError>)
        requires
            application_bytes@.len() + 255 <= usize::MAX,
        ensures
            match r {
                Ok(app) => {
                    &&& app@ == application_bytes@
                    &&& spec_find_wire(application_bytes@) == Ok::<(int, int), PatcherError>(
                        (app.spec_wire_start(), app.spec_wire_end()),
                    )
                    &&& app.spec_wire_start() <= app.spec_wire_end()
                    &&& app.spec_wire_start() <= app@.len()
                },
                Err(e) => spec_find_wire(application_bytes@) == Err::<(int, int), PatcherError>(e),
            },
    {
        match Fuse::find_wire(application_bytes.as_slice()) {
            Ok(range) => Ok(
                ElectronApp { contents: application_bytes, wire_start: range.0, wire_end: range.1 },
            ),
            Err(e) => Err(e),
        }
    }

    /// Parses and returns a fuse's status in this application.  Read-only:
    /// this never returns `Modified`.
    pub fn get_fuse_status(&self, fuse: Fuse) -> (r: Result<FuseStatus, PatcherError>)
        ensures
            r == spec_fuse_status(fuse, self.wire_view()),
    {
        let len = self.contents.len();
        let we = if self.wire_end <= len {
            self.wire_end
        } else {
            len
        };
        if self.wire_start <= we {
            let wire = vstd::slice::slice_subrange(self.contents.as_slice(), self.wire_start, we);
            fuse.fuse_status(wire)
        } else {
            let empty = vstd::slice::slice_subrange(self.contents.as_slice(), 0, 0);
            assert(self.wire_view() =~= empty@);
            fuse.fuse_status(empty)
        }
    }

    /// Sets a fuse to enabled or disabled: a no-op returning the current
    /// `Present` status when the target state already holds, a single-byte
    /// in-place write returning `Modified` when the opposite state holds, and
    /// an error (with the buffer untouched) when the fuse is removed, missing
    /// or unknown.
    pub fn set_fuse_status(&mut self, fuse: Fuse, enabled: bool) -> (r: Result<
        FuseStatus,
        PatcherError,
    >)
        ensures
            final(self)@ == spec_set_fuse(
                old(self)@,
                old(self).spec_wire_start(),
                old(self).spec_wire_end(),
                fuse,
                enabled,
            ).0,
            r == spec_set_fuse(
                old(self)@,
                old(self).spec_wire_start(),
                old(self).spec_wire_end(),
                fuse,
                enabled,
            ).1,
            final(self).spec_wire_start() == old(self).spec_wire_start(),
            final(self).spec_wire_end() == old(self).spec_wire_end(),
    {
        let current = self.get_fuse_status(fuse);
        match current {
            Ok(FuseStatus::Present(cur)) => {
                if cur == enabled {
                    Ok(FuseStatus::Present(cur))
                } else {
                    let pos = fuse.schema_pos();
                    let idx = self.wire_start + pos;
                    self.contents[idx] = if enabled {
                        fuses::ENABLED
                    } else {
                        fuses::DISABLED
                    };
                    Ok(FuseStatus::Modified)
                }
            },
            Ok(FuseStatus::Removed) => Err(PatcherError::RemovedFuse(fuse)),
            Ok(FuseStatus::Modified) => {
                proof {
                    assert(false);
                }
                Err(PatcherError::RemovedFuse(fuse))
            },
            Err(e) => Err(e),
        }
    }

    /// Gives back the (possibly mutated) application bytes, so the caller can
    /// persist them.
    pub fn into_bytes(self) -> (r: Vec<u8>)
        ensures
            r@ == self@,
    {
        self.contents
    }

    /// The application's current bytes.
    pub fn as_bytes(&self) -> (r: &Vec<u8>)
        ensures
            r@ == self@,
    {
        &self.contents
    }

    /// Disables the ability to use a command line flag, option or diagnostic
    /// message in the application by patching its first occurrence anywhere
    /// in the buffer, length-preservingly and in place.  The removal is a
    /// best-effort attempt; when no occurrence exists the buffer is untouched
    /// and the option's own "not present" error is returned.
    pub fn patch_option<P: patcher::Patchable>(&mut self, to_disable: P) -> (r: Result<
        (),
        PatcherError,
    >)
        ensures
            patcher::disable_post(
                to_disable.spec_primary(),
                to_disable.spec_replacement_of(to_disable.spec_primary()),
                match to_disable.spec_fallback() {
                    Some(fb) => Some((fb, to_disable.spec_replacement_of(fb))),
                    None => None,
                },
                to_disable.spec_not_present(),
                old(self)@,
                final(self)@,
                r,
            ),
            final(self).spec_wire_start() == old(self).spec_wire_start(),
            final(self).spec_wire_end() == old(self).spec_wire_end(),
    {
        to_disable.disable(&mut self.contents)
    }
}

} // verus!
