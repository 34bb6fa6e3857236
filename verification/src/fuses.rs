//! Viewing and modifying fuses: single-byte, fixed-position feature switches
//! embedded in a reserved metadata block (the fuse wire) of an Electron
//! application binary.
//!
//! In the binary, the wire looks like this:
//! ```text
//! | ...binary | sentinel | version byte | wire length byte | wire bytes | ...binary |
//! ```

use vstd::prelude::*;
use crate::error::{BinaryError, PatcherError};
use crate::search::{contains_pattern, find_first, first_match_index, is_first_match};

verus! {

/// Wire byte marking a fuse as disabled.
pub const DISABLED: u8 = 48;

/// Wire byte marking a fuse as enabled.
pub const ENABLED: u8 = 49;

/// Wire byte marking a fuse as removed from the schema.  Removed fuses must
/// never be written to.
pub const REMOVED: u8 = 114;

/// The single version of the fuse schema this library understands.
pub const EXPECTED_VERSION: u8 = 1;

/// Length of the sentinel marker that anchors the wire header.
pub const SENTINEL_LEN: usize = 32;

/// A feature switch built into an Electron application binary.  Each variant
/// owns exactly one byte at a fixed position (its schema position) inside the
/// fuse wire.
#[derive(Debug, Clone, Copy, PartialEq, Eq, Structural)]
#[non_exhaustive]
pub enum Fuse {
    /// Controls the `ELECTRON_RUN_AS_NODE` functionality of the application.
    RunAsNode,
    /// Controls experimental cookie encryption support in the application.
    EncryptedCookies,
    /// Controls the `NODE_OPTIONS` environment variable on the application.
    NodeOptions,
    /// Controls the Node.JS debugging command-line flags on the application.
    NodeCliInspect,
}

/// The result of an operation on a fuse.
#[derive(Debug, Clone, Copy, PartialEq, Eq, Structural)]
#[non_exhaustive]
pub enum FuseStatus {
    /// The fuse existed in the binary; the payload tells whether it is
    /// enabled.
    Present(bool),
    /// The fuse existed in the binary and was updated with the supplied
    /// value.
    Modified,
    /// The fuse existed in the binary, but was marked as removed.  The binary
    /// contents are never modified for such a fuse.
    Removed,
}

/// The fixed byte sequence that anchors the start of the wire header.
pub open spec fn spec_sentinel() -> Seq<u8> {
    seq![
        100u8, 76u8, 55u8, 112u8, 75u8, 71u8, 100u8, 110u8, 78u8, 122u8, 55u8, 57u8, 54u8, 80u8,
        98u8, 98u8, 106u8, 81u8, 87u8, 78u8, 75u8, 109u8, 72u8, 88u8, 66u8, 90u8, 97u8, 66u8,
        57u8, 116u8, 115u8, 88u8,
    ]
}

/// The marker bytes (`dL7pKGdnNz796PbbjQWNKmHXBZaB9tsX`) that signal where
/// the fuse wire starts inside an Electron app's bytes.
pub fn sentinel_bytes() -> (r: Vec<u8>)
    ensures
        r@ == spec_sentinel(),
        r@.len() == SENTINEL_LEN,
{
    let a: [u8; 32] = [
        100, 76, 55, 112, 75, 71, 100, 110, 78, 122, 55, 57, 54, 80, 98, 98, 106, 81, 87, 78, 75,
        109, 72, 88, 66, 90, 97, 66, 57, 116, 115, 88,
    ];
    let v = vstd::slice::slice_to_vec(a.as_slice());
    assert(v@ =~= spec_sentinel());
    v
}

/// Schema position of a fuse: the offset of its byte within the wire.
/// Distinct fuses always have distinct schema positions.
pub open spec fn spec_schema_pos(f: Fuse) -> int {
    match f {
        Fuse::RunAsNode => 0,
        Fuse::EncryptedCookies => 1,
        Fuse::NodeOptions => 2,
        Fuse::NodeCliInspect => 3,
    }
}

/// The wire byte that encodes an enabled or disabled fuse.
pub open spec fn spec_state_byte(enabled: bool) -> u8 {
    if enabled {
        ENABLED
    } else {
        DISABLED
    }
}

/// Decodes the status of fuse `f` from the wire bytes: a missing position is
/// `FuseDoesNotExist`, the three reserved byte values decode to their states,
/// and any other byte is `UnknownFuse` carrying the byte observed.
pub open spec fn spec_fuse_status(f: Fuse, wire: Seq<u8>) -> Result<FuseStatus, PatcherError> {
    if wire.len() <= spec_schema_pos(f) {
        Err(PatcherError::Binary(BinaryError::FuseDoesNotExist(f)))
    } else {
        let b = wire[spec_schema_pos(f)];
        if b == ENABLED {
            Ok(FuseStatus::Present(true))
        } else if b == DISABLED {
            Ok(FuseStatus::Present(false))
        } else if b == REMOVED {
            Ok(FuseStatus::Removed)
        } else {
            Err(PatcherError::Binary(BinaryError::UnknownFuse { fuse: f, value: b }))
        }
    }
}

/// The wire after setting fuse `f` to `enabled`, with the status returned:
/// a no-op when the fuse already holds the target state, a single-byte update
/// when it holds the opposite state, and an error (with the wire unchanged)
/// when the fuse is removed, missing or unknown.
pub open spec fn spec_apply_fuse(f: Fuse, wire: Seq<u8>, enabled: bool) -> (Seq<u8>, Result<
    FuseStatus,
    PatcherError,
>) {
    match spec_fuse_status(f, wire) {
        Ok(FuseStatus::Present(cur)) => {
            if cur == enabled {
                (wire, Ok(FuseStatus::Present(cur)))
            } else {
                (wire.update(spec_schema_pos(f), spec_state_byte(enabled)), Ok(FuseStatus::Modified))
            }
        },
        Ok(FuseStatus::Removed) => (wire, Err(PatcherError::RemovedFuse(f))),
        Ok(FuseStatus::Modified) => (wire, Ok(FuseStatus::Modified)),
        Err(e) => (wire, Err(e)),
    }
}

/// The effective wire span of a buffer: the bytes from `ws` up to `we`,
/// truncated to the buffer's end.  Access past the truncation point fails as
/// a missing fuse rather than trapping.
pub open spec fn spec_wire(b: Seq<u8>, ws: int, we: int) -> Seq<u8> {
    let e = if we <= b.len() {
        we
    } else {
        b.len() as int
    };
    if 0 <= ws <= e {
        b.subrange(ws, e)
    } else {
        Seq::empty()
    }
}

/// The wire range of a buffer: the first sentinel occurrence is followed by a
/// version byte (which must equal `EXPECTED_VERSION`) and a wire length byte;
/// the wire itself is the half-open range starting right after those two
/// bytes.  The range is not validated against the buffer's length.
pub open spec fn spec_find_wire(b: Seq<u8>) -> Result<(int, int), PatcherError> {
    if !contains_pattern(b, spec_sentinel()) {
        Err(PatcherError::Binary(BinaryError::NoSentinel))
    } else {
        let start = first_match_index(b, spec_sentinel()) + SENTINEL_LEN;
        if b.len() <= start {
            Err(PatcherError::Binary(BinaryError::NoFuseVersion))
        } else if b[start] != EXPECTED_VERSION {
            Err(PatcherError::FuseVersion { expected: EXPECTED_VERSION, found: b[start] })
        } else if b.len() <= start + 1 {
            Err(PatcherError::Binary(BinaryError::NoFuseLength))
        } else {
            Ok((start + 2, start + 2 + b[start + 1]))
        }
    }
}

/// The buffer after setting fuse `f` to `enabled` through the wire range
/// `[ws, we)`, with the status returned.  Only the fuse's own byte inside the
/// wire range can change.
pub open spec fn spec_set_fuse(b: Seq<u8>, ws: int, we: int, f: Fuse, enabled: bool) -> (
    Seq<u8>,
    Result<FuseStatus, PatcherError>,
) {
    match spec_fuse_status(f, spec_wire(b, ws, we)) {
        Ok(FuseStatus::Present(cur)) => {
            if cur == enabled {
                (b, Ok(FuseStatus::Present(cur)))
            } else {
                (b.update(ws + spec_schema_pos(f), spec_state_byte(enabled)), Ok(FuseStatus::Modified))
            }
        },
        Ok(FuseStatus::Removed) => (b, Err(PatcherError::RemovedFuse(f))),
        Ok(FuseStatus::Modified) => (b, Ok(FuseStatus::Modified)),
        Err(e) => (b, Err(e)),
    }
}

impl Fuse {
    /// Returns where in the fuse wire this fuse is located.
    pub fn schema_pos(&self) -> (r: usize)
        ensures
            r == spec_schema_pos(*self),
    {
        let wire_pos: usize = match self {
            Self::RunAsNode => 1,
            Self::EncryptedCookies => 2,
            Self::NodeOptions => 3,
            Self::NodeCliInspect => 4,
        };
        wire_pos - 1
    }

    /// Locates the fuse wire inside a binary's bytes and returns its
    /// half-open byte range `(start, end)`.
    pub fn find_wire(binary: &[u8]) -> (r: Result<(usize, usize), PatcherError>)
        requires
            binary@.len() + 255 <= usize::MAX,
        ensures
            match r {
                Ok(range) => spec_find_wire(binary@) == Ok::<(int, int), PatcherError>(
                    (range.0 as int, range.1 as int),
                ) && range.0 <= range.1 && range.0 <= binary@.len(),
                Err(e) => spec_find_wire(binary@) == Err::<(int, int), PatcherError>(e),
            },
    {
        let sentinel = sentinel_bytes();
        let pos = match find_first(binary, sentinel.as_slice()) {
            Some(p) => p,
            None => {
                return Err(PatcherError::Binary(BinaryError::NoSentinel));
            },
        };
        proof {
            assert(is_first_match(binary@, spec_sentinel(), pos as int));
            crate::search::lemma_first_match_unique(
                binary@,
                spec_sentinel(),
                pos as int,
                first_match_index(binary@, spec_sentinel()),
            );
        }
        let start = pos + SENTINEL_LEN;
        if start >= binary.len() {
            return Err(PatcherError::Binary(BinaryError::NoFuseVersion));
        }
        let version = binary[start];
        if version != EXPECTED_VERSION {
            return Err(PatcherError::FuseVersion { expected: EXPECTED_VERSION, found: version });
        }
        let len_pos = start + 1;
        if len_pos >= binary.len() {
            return Err(PatcherError::Binary(BinaryError::NoFuseLength));
        }
        let wire_len = binary[len_pos];
        let wire_start = len_pos + 1;
        Ok((wire_start, wire_start + wire_len as usize))
    }

    /// Parses and returns this fuse's status in the provided wire bytes.
    pub fn fuse_status(&self, wire: &[u8]) -> (r: Result<FuseStatus, PatcherError>)
        ensures
            r == spec_fuse_status(*self, wire@),
    {
        let pos = self.schema_pos();
        if pos >= wire.len() {
            return Err(PatcherError::Binary(BinaryError::FuseDoesNotExist(*self)));
        }
        let status = wire[pos];
        if status == ENABLED {
            Ok(FuseStatus::Present(true))
        } else if status == DISABLED {
            Ok(FuseStatus::Present(false))
        } else if status == REMOVED {
            Ok(FuseStatus::Removed)
        } else {
            Err(PatcherError::Binary(BinaryError::UnknownFuse { fuse: *self, value: status }))
        }
    }

    /// Sets this fuse to `enabled` in the wire: a no-op returning the current
    /// status when the target state already holds, a single-byte write
    /// returning `Modified` when the opposite state holds, and an error (with
    /// the wire untouched) when the fuse is removed, missing or unknown.
    fn apply(&self, wire: &mut Vec<u8>, enabled: bool) -> (r: Result<FuseStatus, PatcherError>)
        ensures
            final(wire)@ == spec_apply_fuse(*self, old(wire)@, enabled).0,
            r == spec_apply_fuse(*self, old(wire)@, enabled).1,
    {
        let current = self.fuse_status(wire.as_slice());
        match current {
            Ok(FuseStatus::Present(cur)) => {
                if cur == enabled {
                    Ok(FuseStatus::Present(cur))
                } else {
                    let pos = self.schema_pos();
                    wire[pos] = if enabled {
                        ENABLED
                    } else {
                        DISABLED
                    };
                    Ok(FuseStatus::Modified)
                }
            },
            Ok(FuseStatus::Removed) => Err(PatcherError::RemovedFuse(*self)),
            Ok(FuseStatus::Modified) => {
                proof {
                    assert(false);
                }
                Err(PatcherError::RemovedFuse(*self))
            },
            Err(e) => Err(e),
        }
    }

    /// Disables this fuse in the wire.
    pub fn disable(&self, wire: &mut Vec<u8>) -> (r: Result<FuseStatus, PatcherError>)
        ensures
            final(wire)@ == spec_apply_fuse(*self, old(wire)@, false).0,
            r == spec_apply_fuse(*self, old(wire)@, false).1,
    {
        self.apply(wire, false)
    }

    /// Enables this fuse in the wire.
    pub fn enable(&self, wire: &mut Vec<u8>) -> (r: Result<FuseStatus, PatcherError>)
        ensures
            final(wire)@ == spec_apply_fuse(*self, old(wire)@, true).0,
            r == spec_apply_fuse(*self, old(wire)@, true).1,
    {
        self.apply(wire, true)
    }
}

/// Law: decoding a fuse's status never changes and never depends on anything
/// but the fuse and the wire bytes, so reading it twice without a mutation in
/// between yields the same result.
pub proof fn lemma_status_read_is_pure(f: Fuse, first: Seq<u8>, second: Seq<u8>)
    requires
        first == second,
    ensures
        spec_fuse_status(f, first) == spec_fuse_status(f, second),
{
}

/// Law: setting one fuse never touches another fuse's byte, so every other
/// fuse decodes to the same status before and after the write.
pub proof fn lemma_set_fuse_preserves_others(
    b: Seq<u8>,
    ws: int,
    we: int,
    f: Fuse,
    g: Fuse,
    enabled: bool,
)
    requires
        g != f,
        0 <= ws,
    ensures
        spec_fuse_status(g, spec_wire(spec_set_fuse(b, ws, we, f, enabled).0, ws, we))
            == spec_fuse_status(g, spec_wire(b, ws, we)),
{
    let b2 = spec_set_fuse(b, ws, we, f, enabled).0;
    if b2 != b {
        assert(spec_schema_pos(f) != spec_schema_pos(g));
        assert(b2 == b.update(ws + spec_schema_pos(f), spec_state_byte(enabled)));
        assert(b2.len() == b.len());
        let w1 = spec_wire(b, ws, we);
        let w2 = spec_wire(b2, ws, we);
        assert(w2.len() == w1.len());
        if spec_schema_pos(g) < w1.len() {
            assert(w2[spec_schema_pos(g)] == b2[ws + spec_schema_pos(g)]);
            assert(w1[spec_schema_pos(g)] == b[ws + spec_schema_pos(g)]);
            assert(b2[ws + spec_schema_pos(g)] == b[ws + spec_schema_pos(g)]);
        }
    }
}

/// Law: setting a fuse to a state it already holds never changes any byte
/// and returns the pre-existing `Present` status, not `Modified`.
pub proof fn lemma_set_fuse_idempotent(b: Seq<u8>, ws: int, we: int, f: Fuse, enabled: bool)
    requires
        spec_fuse_status(f, spec_wire(b, ws, we)) == Ok::<FuseStatus, PatcherError>(
            FuseStatus::Present(enabled),
        ),
    ensures
        spec_set_fuse(b, ws, we, f, enabled).0 == b,
        spec_set_fuse(b, ws, we, f, enabled).1 == Ok::<FuseStatus, PatcherError>(
            FuseStatus::Present(enabled),
        ),
{
}

/// Law: setting a fuse to the opposite state changes exactly one byte (the
/// fuse's schema position inside the wire) and returns `Modified`.
pub proof fn lemma_set_fuse_flips_one_byte(b: Seq<u8>, ws: int, we: int, f: Fuse, enabled: bool)
    requires
        spec_fuse_status(f, spec_wire(b, ws, we)) == Ok::<FuseStatus, PatcherError>(
            FuseStatus::Present(!enabled),
        ),
        0 <= ws,
    ensures
        spec_set_fuse(b, ws, we, f, enabled).1 == Ok::<FuseStatus, PatcherError>(
            FuseStatus::Modified,
        ),
        spec_set_fuse(b, ws, we, f, enabled).0.len() == b.len(),
        spec_set_fuse(b, ws, we, f, enabled).0[ws + spec_schema_pos(f)] == spec_state_byte(enabled),
        forall|m: int|
            0 <= m < b.len() && m != ws + spec_schema_pos(f) ==> spec_set_fuse(
                b,
                ws,
                we,
                f,
                enabled,
            ).0[m] == b[m],
{
    let w = spec_wire(b, ws, we);
    assert(spec_schema_pos(f) < w.len());
}

/// Law: a wire byte of `r` always decodes as `Removed`, and setting such a
/// fuse to either state fails with the removed-fuse error without mutating
/// the buffer.
pub proof fn lemma_removed_fuse_rejected(b: Seq<u8>, ws: int, we: int, f: Fuse, enabled: bool)
    requires
        spec_schema_pos(f) < spec_wire(b, ws, we).len(),
        spec_wire(b, ws, we)[spec_schema_pos(f)] == REMOVED,
    ensures
        spec_fuse_status(f, spec_wire(b, ws, we)) == Ok::<FuseStatus, PatcherError>(
            FuseStatus::Removed,
        ),
        spec_set_fuse(b, ws, we, f, enabled).0 == b,
        spec_set_fuse(b, ws, we, f, enabled).1 == Err::<FuseStatus, PatcherError>(
            PatcherError::RemovedFuse(f),
        ),
{
}

/// Law: a wire byte outside the three reserved encodings decodes as an
/// unknown-fuse error carrying the exact byte value observed, and setting
/// such a fuse fails with that error without mutating the buffer.
pub proof fn lemma_unknown_fuse_byte(b: Seq<u8>, ws: int, we: int, f: Fuse, enabled: bool)
    requires
        spec_schema_pos(f) < spec_wire(b, ws, we).len(),
        spec_wire(b, ws, we)[spec_schema_pos(f)] != ENABLED,
        spec_wire(b, ws, we)[spec_schema_pos(f)] != DISABLED,
        spec_wire(b, ws, we)[spec_schema_pos(f)] != REMOVED,
    ensures
        spec_fuse_status(f, spec_wire(b, ws, we)) == Err::<FuseStatus, PatcherError>(
            PatcherError::Binary(
                BinaryError::UnknownFuse {
                    fuse: f,
                    value: spec_wire(b, ws, we)[spec_schema_pos(f)],
                },
            ),
        ),
        spec_set_fuse(b, ws, we, f, enabled).0 == b,
{
}

} // verus!
