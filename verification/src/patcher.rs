//! Length-preserving neutralization of debug-flag strings and diagnostic
//! message templates embedded as literal data in an application binary.
//!
//! Each patchable option carries a literal search byte pattern (a short,
//! NUL-framed ASCII token) and a deterministic, length-preserving replacement
//! rule.  A patch locates the first byte-exact occurrence of the pattern
//! anywhere in the binary and overwrites exactly that range, so no offsets
//! elsewhere in the binary are invalidated.

use vstd::prelude::*;
use crate::error::{BinaryError, PatcherError};
use crate::sealed::Sealed;
use crate::search::{
    aligned_agrees, contains_pattern, find_first, first_match_index, is_match_at,
    lemma_first_match_unique, lemma_splice_adds_no_match, lemma_splice_removes_unique_match,
    patch_compat, spliced, write_range,
};

verus! {

/// List of known Node.JS command line debugging flags that can be disabled.
/// Superseded by the `NodeCliInspect` fuse, but kept for behavioural parity
/// with historical binaries.
#[allow(missing_docs)]
#[derive(Debug, Clone, Copy, PartialEq, Eq, Structural)]
#[non_exhaustive]
pub enum NodeJsCommandLineFlag {
    Inspect,
    InspectBrk,
    InspectPort,
    Debug,
    DebugBrk,
    DebugPort,
    InspectBrkNode,
    InspectPublishUid,
}

/// List of known Electron command line flags that can be disabled.
#[allow(missing_docs)]
#[derive(Debug, Clone, Copy, PartialEq, Eq, Structural)]
#[non_exhaustive]
pub enum ElectronOption {
    JsFlags,
    RemoteDebuggingPipe,
    RemoteDebuggingPort,
    WaitForDebuggerChildren,
}

/// List of known developer tool messages that Node.JS can write to stdout
/// during debugging.  Blanking one is a worst-case fallback protection: if a
/// debugging flag ever slips through and the message is about to be printed,
/// the application aborts instead of exposing a debugger endpoint.
#[derive(Debug, Clone, Copy, PartialEq, Eq, Structural)]
#[non_exhaustive]
pub enum DevToolsMessage {
    /// The message printed when Node.JS listens on a TCP port.
    Listening,
    /// The message printed when Node.JS listens on a websocket.
    ListeningWs,
}

/// A matched byte range with every ASCII hyphen replaced by a space.  This
/// turns a recognizable flag token such as `--inspect` into a sequence the
/// argument parser will not recognize, without changing the byte count.
pub open spec fn hyphens_to_spaces(pat: Seq<u8>) -> Seq<u8> {
    Seq::new(
        pat.len(),
        |i: int|
            if pat[i] == 45 {
                32u8
            } else {
                pat[i]
            },
    )
}

/// The Electron option replacement of length `len`: a fixed five-byte
/// lead-in (NUL, `x`, `x`, CR, LF) padded with NUL bytes to the length of the
/// matched range.
pub open spec fn option_replacement(len: int) -> Seq<u8> {
    Seq::new(
        len as nat,
        |i: int|
            if i == 1 || i == 2 {
                120u8
            } else if i == 3 {
                13u8
            } else if i == 4 {
                10u8
            } else {
                0u8
            },
    )
}

/// The diagnostic message replacement of length `len`: a NUL, then repeated
/// two-byte `%s` placeholders over the interior, then a LF and (when a byte
/// remains) a final NUL.  The placeholder arity of the format string is
/// preserved while the human-readable text is destroyed.
pub open spec fn message_replacement(len: int) -> Seq<u8> {
    let pairs = (len - 2) / 2;
    Seq::new(
        len as nat,
        |i: int|
            if i == 0 {
                0u8
            } else if i < 1 + 2 * pairs {
                if (i - 1) % 2 == 0 {
                    37u8
                } else {
                    115u8
                }
            } else if i == 1 + 2 * pairs {
                10u8
            } else {
                0u8
            },
    )
}

/// What `disable` guarantees: the first occurrence of the primary pattern
/// (or, failing that, of the fallback pattern) is overwritten in place by the
/// family's replacement, and when neither pattern occurs the buffer is
/// untouched and the option's own "not present" error is returned.
pub open spec fn disable_post(
    primary: Seq<u8>,
    primary_repl: Seq<u8>,
    fallback: Option<(Seq<u8>, Seq<u8>)>,
    err: BinaryError,
    old_b: Seq<u8>,
    new_b: Seq<u8>,
    r: Result<(), PatcherError>,
) -> bool {
    if contains_pattern(old_b, primary) {
        r == Ok::<(), PatcherError>(()) && new_b == spliced(
            old_b,
            first_match_index(old_b, primary),
            primary_repl,
        )
    } else {
        match fallback {
            Some(fb) => {
                if contains_pattern(old_b, fb.0) {
                    r == Ok::<(), PatcherError>(()) && new_b == spliced(
                        old_b,
                        first_match_index(old_b, fb.0),
                        fb.1,
                    )
                } else {
                    r == Err::<(), PatcherError>(PatcherError::Binary(err)) && new_b == old_b
                }
            },
            None => r == Err::<(), PatcherError>(PatcherError::Binary(err)) && new_b == old_b,
        }
    }
}

/// A flag inside an Electron application binary that can be patched to
/// disable it.
pub trait Patchable: Sealed {
    /// The literal byte pattern searched for first.
    spec fn spec_primary(&self) -> Seq<u8>;

    /// An alternate byte layout searched when the primary pattern is absent.
    spec fn spec_fallback(&self) -> Option<Seq<u8>>;

    /// The bytes written over a matched occurrence of `pat`.
    spec fn spec_replacement_of(&self, pat: Seq<u8>) -> Seq<u8>;

    /// The error reported when no pattern occurs in the binary.
    spec fn spec_not_present(&self) -> BinaryError;

    /// Law: the replacement for either search pattern has exactly the length
    /// of the range it overwrites, so a patch never shifts later offsets.
    proof fn replacement_preserves_len(&self, pat: Seq<u8>)
        requires
            pat == self.spec_primary() || Some(pat) == self.spec_fallback(),
        ensures
            self.spec_replacement_of(pat).len() == pat.len(),
    ;

    /// Disables the option by patching its first occurrence in the binary.
    ///
    /// Callers normally go through
    /// [`patch_option`](crate::ElectronApp::patch_option).
    fn disable(&self, binary: &mut Vec<u8>) -> (r: Result<(), PatcherError>)
        ensures
            disable_post(
                self.spec_primary(),
                self.spec_replacement_of(self.spec_primary()),
                match self.spec_fallback() {
                    Some(fb) => Some((fb, self.spec_replacement_of(fb))),
                    None => None,
                },
                self.spec_not_present(),
                old(binary)@,
                final(binary)@,
                r,
            ),
    ;
}

impl NodeJsCommandLineFlag {
    /// The literal byte pattern (a NUL-framed flag token) this flag is
    /// located by.
    pub open spec fn spec_search_string(&self) -> Seq<u8> {
        match *self {
            NodeJsCommandLineFlag::Inspect => seq![
                0u8, 45u8, 45u8, 105u8, 110u8, 115u8, 112u8, 101u8, 99u8, 116u8, 0u8,
            ],
            NodeJsCommandLineFlag::InspectBrk => seq![
                0u8, 45u8, 45u8, 105u8, 110u8, 115u8, 112u8, 101u8, 99u8, 116u8, 45u8, 98u8,
                114u8, 107u8, 0u8,
            ],
            NodeJsCommandLineFlag::InspectPort => seq![
                0u8, 45u8, 45u8, 105u8, 110u8, 115u8, 112u8, 101u8, 99u8, 116u8, 45u8, 112u8,
                111u8, 114u8, 116u8, 0u8,
            ],
            NodeJsCommandLineFlag::Debug => seq![
                0u8, 45u8, 45u8, 100u8, 101u8, 98u8, 117u8, 103u8, 0u8,
            ],
            NodeJsCommandLineFlag::DebugBrk => seq![
                0u8, 45u8, 45u8, 100u8, 101u8, 98u8, 117u8, 103u8, 45u8, 98u8, 114u8, 107u8, 0u8,
            ],
            NodeJsCommandLineFlag::DebugPort => seq![
                0u8, 45u8, 45u8, 100u8, 101u8, 98u8, 117u8, 103u8, 45u8, 112u8, 111u8, 114u8,
                116u8, 0u8,
            ],
            NodeJsCommandLineFlag::InspectBrkNode => seq![
                0u8, 45u8, 45u8, 105u8, 110u8, 115u8, 112u8, 101u8, 99u8, 116u8, 45u8, 98u8,
                114u8, 107u8, 45u8, 110u8, 111u8, 100u8, 101u8, 0u8,
            ],
            NodeJsCommandLineFlag::InspectPublishUid => seq![
                0u8, 45u8, 45u8, 105u8, 110u8, 115u8, 112u8, 101u8, 99u8, 116u8, 45u8, 112u8,
                117u8, 98u8, 108u8, 105u8, 115u8, 104u8, 45u8, 117u8, 105u8, 100u8, 0u8,
            ],
        }
    }

    /// The alternate byte layout used by some platform variants, searched
    /// when the primary pattern is absent.  Only the plain inspect flag has
    /// one.
    pub open spec fn spec_fallback_search_string(&self) -> Option<Seq<u8>> {
        match *self {
            NodeJsCommandLineFlag::Inspect => Some(
                seq![
                    170u8, 45u8, 45u8, 105u8, 110u8, 115u8, 112u8, 101u8, 99u8, 116u8, 0u8,
                ],
            ),
            _ => None,
        }
    }

    /// The byte pattern this flag is located by.
    pub fn search_string(&self) -> (r: Vec<u8>)
        ensures
            r@ == self.spec_search_string(),
    {
        match self {
            Self::Inspect => {
                let a: [u8; 11] = [
                    0, 45, 45, 105, 110, 115, 112, 101, 99, 116, 0,
                ];
                vstd::slice::slice_to_vec(a.as_slice())
            },
            Self::InspectBrk => {
                let a: [u8; 15] = [
                    0, 45, 45, 105, 110, 115, 112, 101, 99, 116, 45, 98, 114, 107, 0,
                ];
                vstd::slice::slice_to_vec(a.as_slice())
            },
            Self::InspectPort => {
                let a: [u8; 16] = [
                    0, 45, 45, 105, 110, 115, 112, 101, 99, 116, 45, 112, 111, 114, 116, 0,
                ];
                vstd::slice::slice_to_vec(a.as_slice())
            },
            Self::Debug => {
                let a: [u8; 9] = [
                    0, 45, 45, 100, 101, 98, 117, 103, 0,
                ];
                vstd::slice::slice_to_vec(a.as_slice())
            },
            Self::DebugBrk => {
                let a: [u8; 13] = [
                    0, 45, 45, 100, 101, 98, 117, 103, 45, 98, 114, 107, 0,
                ];
                vstd::slice::slice_to_vec(a.as_slice())
            },
            Self::DebugPort => {
                let a: [u8; 14] = [
                    0, 45, 45, 100, 101, 98, 117, 103, 45, 112, 111, 114, 116, 0,
                ];
                vstd::slice::slice_to_vec(a.as_slice())
            },
            Self::InspectBrkNode => {
                let a: [u8; 20] = [
                    0, 45, 45, 105, 110, 115, 112, 101, 99, 116, 45, 98, 114, 107, 45, 110, 111,
                    100, 101, 0,
                ];
                vstd::slice::slice_to_vec(a.as_slice())
            },
            Self::InspectPublishUid => {
                let a: [u8; 23] = [
                    0, 45, 45, 105, 110, 115, 112, 101, 99, 116, 45, 112, 117, 98, 108, 105, 115,
                    104, 45, 117, 105, 100, 0,
                ];
                vstd::slice::slice_to_vec(a.as_slice())
            },
        }
    }

    /// The alternate byte layout this flag can fall back to.
    pub fn fallback_search_string(&self) -> (r: Option<Vec<u8>>)
        ensures
            match r {
                Some(v) => self.spec_fallback_search_string() == Some(v@),
                None => self.spec_fallback_search_string() is None,
            },
    {
        match self {
            Self::Inspect => {
                let a: [u8; 11] = [
                    170, 45, 45, 105, 110, 115, 112, 101, 99, 116, 0,
                ];
                Some(vstd::slice::slice_to_vec(a.as_slice()))
            },
            _ => None,
        }
    }
}

impl ElectronOption {
    /// The literal byte pattern (a NUL-framed option token) this option is
    /// located by.
    pub open spec fn spec_search_string(&self) -> Seq<u8> {
        match *self {
            ElectronOption::JsFlags => seq![
                0u8, 106u8, 115u8, 45u8, 102u8, 108u8, 97u8, 103u8, 115u8, 0u8,
            ],
            ElectronOption::RemoteDebuggingPipe => seq![
                0u8, 114u8, 101u8, 109u8, 111u8, 116u8, 101u8, 45u8, 100u8, 101u8, 98u8, 117u8,
                103u8, 103u8, 105u8, 110u8, 103u8, 45u8, 112u8, 105u8, 112u8, 101u8, 0u8,
            ],
            ElectronOption::RemoteDebuggingPort => seq![
                0u8, 114u8, 101u8, 109u8, 111u8, 116u8, 101u8, 45u8, 100u8, 101u8, 98u8, 117u8,
                103u8, 103u8, 105u8, 110u8, 103u8, 45u8, 112u8, 111u8, 114u8, 116u8, 0u8,
            ],
            ElectronOption::WaitForDebuggerChildren => seq![
                0u8, 119u8, 97u8, 105u8, 116u8, 45u8, 102u8, 111u8, 114u8, 45u8, 100u8, 101u8,
                98u8, 117u8, 103u8, 103u8, 101u8, 114u8, 45u8, 99u8, 104u8, 105u8, 108u8, 100u8,
                114u8, 101u8, 110u8, 0u8,
            ],
        }
    }

    /// The byte pattern this option is located by.
    pub fn search_string(&self) -> (r: Vec<u8>)
        ensures
            r@ == self.spec_search_string(),
    {
        match self {
            Self::JsFlags => {
                let a: [u8; 10] = [
                    0, 106, 115, 45, 102, 108, 97, 103, 115, 0,
                ];
                vstd::slice::slice_to_vec(a.as_slice())
            },
            Self::RemoteDebuggingPipe => {
                let a: [u8; 23] = [
                    0, 114, 101, 109, 111, 116, 101, 45, 100, 101, 98, 117, 103, 103, 105, 110,
                    103, 45, 112, 105, 112, 101, 0,
                ];
                vstd::slice::slice_to_vec(a.as_slice())
            },
            Self::RemoteDebuggingPort => {
                let a: [u8; 23] = [
                    0, 114, 101, 109, 111, 116, 101, 45, 100, 101, 98, 117, 103, 103, 105, 110,
                    103, 45, 112, 111, 114, 116, 0,
                ];
                vstd::slice::slice_to_vec(a.as_slice())
            },
            Self::WaitForDebuggerChildren => {
                let a: [u8; 28] = [
                    0, 119, 97, 105, 116, 45, 102, 111, 114, 45, 100, 101, 98, 117, 103, 103,
                    101, 114, 45, 99, 104, 105, 108, 100, 114, 101, 110, 0,
                ];
                vstd::slice::slice_to_vec(a.as_slice())
            },
        }
    }
}

impl DevToolsMessage {
    /// The literal byte pattern (a NUL-framed message template) this message
    /// is located by.
    pub open spec fn spec_search_string(&self) -> Seq<u8> {
        match *self {
            DevToolsMessage::Listening => seq![
                0u8, 68u8, 101u8, 98u8, 117u8, 103u8, 103u8, 101u8, 114u8, 32u8, 108u8, 105u8,
                115u8, 116u8, 101u8, 110u8, 105u8, 110u8, 103u8, 32u8, 111u8, 110u8, 32u8, 37u8,
                115u8, 10u8, 0u8,
            ],
            DevToolsMessage::ListeningWs => seq![
                0u8, 10u8, 68u8, 101u8, 118u8, 84u8, 111u8, 111u8, 108u8, 115u8, 32u8, 108u8,
                105u8, 115u8, 116u8, 101u8, 110u8, 105u8, 110u8, 103u8, 32u8, 111u8, 110u8, 32u8,
                119u8, 115u8, 58u8, 47u8, 47u8, 37u8, 115u8, 37u8, 115u8, 10u8, 0u8,
            ],
        }
    }

    /// The byte pattern this message is located by.
    pub fn search_string(&self) -> (r: Vec<u8>)
        ensures
            r@ == self.spec_search_string(),
    {
        match self {
            Self::Listening => {
                let a: [u8; 27] = [
                    0, 68, 101, 98, 117, 103, 103, 101, 114, 32, 108, 105, 115, 116, 101, 110,
                    105, 110, 103, 32, 111, 110, 32, 37, 115, 10, 0,
                ];
                vstd::slice::slice_to_vec(a.as_slice())
            },
            Self::ListeningWs => {
                let a: [u8; 35] = [
                    0, 10, 68, 101, 118, 84, 111, 111, 108, 115, 32, 108, 105, 115, 116, 101,
                    110, 105, 110, 103, 32, 111, 110, 32, 119, 115, 58, 47, 47, 37, 115, 37, 115,
                    10, 0,
                ];
                vstd::slice::slice_to_vec(a.as_slice())
            },
        }
    }
}

/// Builds the hyphens-to-spaces replacement for a matched range whose bytes
/// equal `pat`.
fn hyphen_replacement(pat: &Vec<u8>) -> (r: Vec<u8>)
    ensures
        r@ == hyphens_to_spaces(pat@),
{
    let mut v: Vec<u8> = Vec::new();
    let mut i: usize = 0;
    while i < pat.len()
        invariant
            i <= pat@.len(),
            v@.len() == i,
            forall|j: int| 0 <= j < i ==> v@[j] == hyphens_to_spaces(pat@)[j],
        decreases pat@.len() - i,
    {
        let b = pat[i];
        if b == 45 {
            v.push(32);
        } else {
            v.push(b);
        }
        i = i + 1;
    }
    assert(v@ =~= hyphens_to_spaces(pat@));
    v
}

/// Builds the Electron option replacement of length `len`.
fn option_replacement_bytes(len: usize) -> (r: Vec<u8>)
    ensures
        r@ == option_replacement(len as int),
{
    let mut v: Vec<u8> = Vec::new();
    let mut i: usize = 0;
    while i < len
        invariant
            i <= len,
            v@.len() == i,
            forall|j: int| 0 <= j < i ==> v@[j] == option_replacement(len as int)[j],
        decreases len - i,
    {
        if i == 1 || i == 2 {
            v.push(120);
        } else if i == 3 {
            v.push(13);
        } else if i == 4 {
            v.push(10);
        } else {
            v.push(0);
        }
        i = i + 1;
    }
    assert(v@ =~= option_replacement(len as int));
    v
}

/// Builds the diagnostic message replacement of length `len`.
fn message_replacement_bytes(len: usize) -> (r: Vec<u8>)
    requires
        3 <= len,
    ensures
        r@ == message_replacement(len as int),
{
    let pairs = (len - 2) / 2;
    let mut v: Vec<u8> = Vec::new();
    let mut i: usize = 0;
    while i < len
        invariant
            pairs == (len - 2) / 2,
            i <= len,
            v@.len() == i,
            forall|j: int| 0 <= j < i ==> v@[j] == message_replacement(len as int)[j],
        decreases len - i,
    {
        if i == 0 {
            v.push(0);
        } else if i < 1 + 2 * pairs {
            if (i - 1) % 2 == 0 {
                v.push(37);
            } else {
                v.push(115);
            }
        } else if i == 1 + 2 * pairs {
            v.push(10);
        } else {
            v.push(0);
        }
        i = i + 1;
    }
    assert(v@ =~= message_replacement(len as int));
    v
}

/// Overwrites the first occurrence of `pattern` in `binary` with `repl` and
/// reports whether an occurrence was found; the buffer is untouched when not.
fn patch_first(binary: &mut Vec<u8>, pattern: &Vec<u8>, repl: &Vec<u8>) -> (r: bool)
    requires
        repl@.len() == pattern@.len(),
    ensures
        contains_pattern(old(binary)@, pattern@) ==> r == true && final(binary)@ == spliced(
            old(binary)@,
            first_match_index(old(binary)@, pattern@),
            repl@,
        ),
        !contains_pattern(old(binary)@, pattern@) ==> r == false && final(binary)@ == old(
            binary,
        )@,
{
    match find_first(binary.as_slice(), pattern.as_slice()) {
        Some(p) => {
            proof {
                lemma_first_match_unique(
                    binary@,
                    pattern@,
                    p as int,
                    first_match_index(binary@, pattern@),
                );
            }
            write_range(binary, p, repl);
            true
        },
        None => false,
    }
}

impl Patchable for NodeJsCommandLineFlag {
    open spec fn spec_primary(&self) -> Seq<u8> {
        self.spec_search_string()
    }

    open spec fn spec_fallback(&self) -> Option<Seq<u8>> {
        self.spec_fallback_search_string()
    }

    open spec fn spec_replacement_of(&self, pat: Seq<u8>) -> Seq<u8> {
        hyphens_to_spaces(pat)
    }

    open spec fn spec_not_present(&self) -> BinaryError {
        BinaryError::NodeJsFlagNotPresent(*self)
    }

    proof fn replacement_preserves_len(&self, pat: Seq<u8>) {
    }

    fn disable(&self, binary: &mut Vec<u8>) -> (r: Result<(), PatcherError>) {
        let pattern = self.search_string();
        let repl = hyphen_replacement(&pattern);
        if patch_first(binary, &pattern, &repl) {
            return Ok(());
        }
        match self.fallback_search_string() {
            Some(fb) => {
                let fb_repl = hyphen_replacement(&fb);
                if patch_first(binary, &fb, &fb_repl) {
                    return Ok(());
                }
                Err(PatcherError::Binary(BinaryError::NodeJsFlagNotPresent(*self)))
            },
            None => Err(PatcherError::Binary(BinaryError::NodeJsFlagNotPresent(*self))),
        }
    }
}

impl Patchable for ElectronOption {
    open spec fn spec_primary(&self) -> Seq<u8> {
        self.spec_search_string()
    }

    open spec fn spec_fallback(&self) -> Option<Seq<u8>> {
        None
    }

    open spec fn spec_replacement_of(&self, pat: Seq<u8>) -> Seq<u8> {
        option_replacement(pat.len() as int)
    }

    open spec fn spec_not_present(&self) -> BinaryError {
        BinaryError::ElectronOptionNotPresent(*self)
    }

    proof fn replacement_preserves_len(&self, pat: Seq<u8>) {
    }

    fn disable(&self, binary: &mut Vec<u8>) -> (r: Result<(), PatcherError>) {
        let pattern = self.search_string();
        let repl = option_replacement_bytes(pattern.len());
        if patch_first(binary, &pattern, &repl) {
            return Ok(());
        }
        Err(PatcherError::Binary(BinaryError::ElectronOptionNotPresent(*self)))
    }
}

impl Patchable for DevToolsMessage {
    open spec fn spec_primary(&self) -> Seq<u8> {
        self.spec_search_string()
    }

    open spec fn spec_fallback(&self) -> Option<Seq<u8>> {
        None
    }

    open spec fn spec_replacement_of(&self, pat: Seq<u8>) -> Seq<u8> {
        message_replacement(pat.len() as int)
    }

    open spec fn spec_not_present(&self) -> BinaryError {
        BinaryError::MessageNotPresent(*self)
    }

    proof fn replacement_preserves_len(&self, pat: Seq<u8>) {
    }

    fn disable(&self, binary: &mut Vec<u8>) -> (r: Result<(), PatcherError>) {
        let pattern = self.search_string();
        let repl = message_replacement_bytes(pattern.len());
        if patch_first(binary, &pattern, &repl) {
            return Ok(());
        }
        Err(PatcherError::Binary(BinaryError::MessageNotPresent(*self)))
    }
}

/// No byte of `s` equals `v`.
pub open spec fn lacks_byte(s: Seq<u8>, v: u8) -> bool {
    forall|i: int| 0 <= i < s.len() ==> s[i] != v
}

/// A NUL-framed token: a NUL byte at each end and none in the interior.
pub open spec fn nul_framed(s: Seq<u8>) -> bool {
    &&& s.len() >= 2
    &&& s[0] == 0
    &&& s[s.len() - 1] == 0
    &&& forall|i: int| 1 <= i < s.len() - 1 ==> s[i] != 0
}

/// Replacing hyphens by spaces is compatible (in the sense of
/// [`patch_compat`]) with any needle that contains no space byte.
proof fn lemma_hyphen_compat(pat: Seq<u8>, n: Seq<u8>)
    requires
        lacks_byte(n, 32),
    ensures
        patch_compat(pat, hyphens_to_spaces(pat), n),
{
    let repl = hyphens_to_spaces(pat);
    assert forall|off: int| aligned_agrees(n, off, repl) implies aligned_agrees(n, off, pat) by {
        assert forall|i: int| 0 <= i < n.len() && 0 <= off + i < pat.len() implies n[i]
            == pat[off + i] by {
            assert(n[i] == repl[off + i]);
            assert(n[i] != 32);
        }
    }
}

/// The Electron option replacement is compatible with the pattern it
/// overwrites, for any NUL-framed pattern of at least six bytes.
proof fn lemma_option_compat(pat: Seq<u8>)
    requires
        nul_framed(pat),
        pat.len() >= 6,
    ensures
        patch_compat(pat, option_replacement(pat.len() as int), pat),
{
    let l = pat.len() as int;
    let repl = option_replacement(l);
    assert forall|off: int| aligned_agrees(pat, off, repl) implies aligned_agrees(pat, off, pat) by {
        if 1 <= off < l {
            if off <= 4 {
                assert(pat[0] == repl[off + 0]);
                assert(false);
            } else if off < l - 1 {
                assert(pat[1] == repl[off + 1]);
                assert(false);
            } else {
                assert forall|i: int| #![trigger pat[i]] 0 <= i < pat.len() && 0 <= off + i < pat.len() implies pat[i]
                    == pat[off + i] by {
                    assert(i == 0);
                }
            }
        } else if -l < off < 0 {
            let k = -off;
            assert(pat[k] == repl[off + k]);
            if k < l - 1 {
                assert(false);
            } else {
                assert forall|i: int| #![trigger pat[i]] 0 <= i < pat.len() && 0 <= off + i < pat.len() implies pat[i]
                    == pat[off + i] by {
                    assert(i == l - 1);
                }
            }
        } else if off != 0 {
            assert forall|i: int| #![trigger pat[i]] 0 <= i < pat.len() && 0 <= off + i < pat.len() implies pat[i]
                == pat[off + i] by {
                assert(false);
            }
        }
    }
}

/// The diagnostic message replacement is compatible with the pattern it
/// overwrites, for any NUL-framed pattern of at least four bytes.
proof fn lemma_message_compat(pat: Seq<u8>)
    requires
        nul_framed(pat),
        pat.len() >= 4,
    ensures
        patch_compat(pat, message_replacement(pat.len() as int), pat),
{
    let l = pat.len() as int;
    let repl = message_replacement(l);
    let pairs = (l - 2) / 2;
    assert(1 + 2 * pairs >= l - 2);
    assert forall|j: int| 1 <= j < l - 1 implies repl[j] != 0 by {}
    assert forall|off: int| aligned_agrees(pat, off, repl) implies aligned_agrees(pat, off, pat) by {
        if 1 <= off < l {
            assert(pat[0] == repl[off + 0]);
            if off < l - 1 {
                assert(false);
            } else {
                assert forall|i: int| #![trigger pat[i]] 0 <= i < pat.len() && 0 <= off + i < pat.len() implies pat[i]
                    == pat[off + i] by {
                    assert(i == 0);
                }
            }
        } else if -l < off < 0 {
            let k = -off;
            assert(pat[k] == repl[off + k]);
            if k < l - 1 {
                assert(false);
            } else {
                assert forall|i: int| #![trigger pat[i]] 0 <= i < pat.len() && 0 <= off + i < pat.len() implies pat[i]
                    == pat[off + i] by {
                    assert(i == l - 1);
                }
            }
        } else if off != 0 {
            assert forall|i: int| #![trigger pat[i]] 0 <= i < pat.len() && 0 <= off + i < pat.len() implies pat[i]
                == pat[off + i] by {
                assert(false);
            }
        }
    }
}

/// Byte-level facts about the Node.JS flag patterns: none contains a space,
/// and each has a hyphen right after its leading byte (so a patch changes
/// the matched range).
proof fn lemma_flag_pattern_facts(flag: NodeJsCommandLineFlag)
    ensures
        lacks_byte(flag.spec_search_string(), 32),
        flag.spec_search_string().len() >= 2,
        flag.spec_search_string()[1] == 45,
        match flag.spec_fallback_search_string() {
            Some(fb) => lacks_byte(fb, 32) && fb.len() >= 2 && fb[1] == 45,
            None => true,
        },
{
}

/// Byte-level facts about the Electron option patterns: each is a NUL-framed
/// token of at least six bytes whose second byte is not the replacement's
/// `x` byte (so a patch changes the matched range).
proof fn lemma_option_pattern_facts(opt: ElectronOption)
    ensures
        nul_framed(opt.spec_search_string()),
        opt.spec_search_string().len() >= 6,
        opt.spec_search_string()[1] != 120,
{
}

/// Byte-level facts about the diagnostic message patterns: each is a
/// NUL-framed template of at least four bytes whose second byte is not the
/// replacement's `%` byte (so a patch changes the matched range).
proof fn lemma_message_pattern_facts(msg: DevToolsMessage)
    ensures
        nul_framed(msg.spec_search_string()),
        msg.spec_search_string().len() >= 4,
        msg.spec_search_string()[1] != 37,
{
}

/// Law: patching a Node.JS flag succeeds exactly once.  When the flag's
/// search pattern occurs exactly once in the buffer and its fallback layout
/// (when it has one) occurs nowhere, then after the successful patch neither
/// pattern occurs any more, and the only outcome `disable`'s contract allows
/// for a second call on the patched buffer is the flag's own "not present"
/// error with the buffer unchanged.
pub proof fn lemma_nodejs_patch_once(
    flag: NodeJsCommandLineFlag,
    b: Seq<u8>,
    p: int,
    b2: Seq<u8>,
    r2: Result<(), PatcherError>,
)
    requires
        is_match_at(b, flag.spec_search_string(), p),
        forall|j: int| j != p ==> !is_match_at(b, flag.spec_search_string(), j),
        match flag.spec_fallback_search_string() {
            Some(fb) => !contains_pattern(b, fb),
            None => true,
        },
        disable_post(
            flag.spec_search_string(),
            hyphens_to_spaces(flag.spec_search_string()),
            match flag.spec_fallback_search_string() {
                Some(fb) => Some((fb, hyphens_to_spaces(fb))),
                None => None,
            },
            BinaryError::NodeJsFlagNotPresent(flag),
            spliced(b, p, hyphens_to_spaces(flag.spec_search_string())),
            b2,
            r2,
        ),
    ensures
        r2 == Err::<(), PatcherError>(
            PatcherError::Binary(BinaryError::NodeJsFlagNotPresent(flag)),
        ),
        b2 == spliced(b, p, hyphens_to_spaces(flag.spec_search_string())),
{
    let pat = flag.spec_search_string();
    let repl = hyphens_to_spaces(pat);
    lemma_flag_pattern_facts(flag);
    lemma_hyphen_compat(pat, pat);
    assert(repl[1] == 32 && pat[1] == 45);
    assert(repl != pat);
    lemma_splice_removes_unique_match(b, p, pat, repl);
    match flag.spec_fallback_search_string() {
        Some(fb) => {
            lemma_hyphen_compat(pat, fb);
            lemma_splice_adds_no_match(b, p, pat, repl, fb);
        },
        None => {},
    }
}

/// Law: patching an Electron option succeeds exactly once.  When the
/// option's search pattern occurs exactly once in the buffer, then after the
/// successful patch it occurs nowhere, and the only outcome `disable`'s
/// contract allows for a second call on the patched buffer is the option's
/// own "not present" error with the buffer unchanged.
pub proof fn lemma_option_patch_once(
    opt: ElectronOption,
    b: Seq<u8>,
    p: int,
    b2: Seq<u8>,
    r2: Result<(), PatcherError>,
)
    requires
        is_match_at(b, opt.spec_search_string(), p),
        forall|j: int| j != p ==> !is_match_at(b, opt.spec_search_string(), j),
        disable_post(
            opt.spec_search_string(),
            option_replacement(opt.spec_search_string().len() as int),
            None,
            BinaryError::ElectronOptionNotPresent(opt),
            spliced(b, p, option_replacement(opt.spec_search_string().len() as int)),
            b2,
            r2,
        ),
    ensures
        r2 == Err::<(), PatcherError>(
            PatcherError::Binary(BinaryError::ElectronOptionNotPresent(opt)),
        ),
        b2 == spliced(b, p, option_replacement(opt.spec_search_string().len() as int)),
{
    let pat = opt.spec_search_string();
    let repl = option_replacement(pat.len() as int);
    lemma_option_pattern_facts(opt);
    lemma_option_compat(pat);
    assert(repl[1] == 120);
    assert(repl != pat);
    lemma_splice_removes_unique_match(b, p, pat, repl);
}

/// Law: blanking a diagnostic message succeeds exactly once.  When the
/// message's template occurs exactly once in the buffer, then after the
/// successful patch it occurs nowhere, and the only outcome `disable`'s
/// contract allows for a second call on the patched buffer is the message's
/// own "not present" error with the buffer unchanged.
pub proof fn lemma_message_patch_once(
    msg: DevToolsMessage,
    b: Seq<u8>,
    p: int,
    b2: Seq<u8>,
    r2: Result<(), PatcherError>,
)
    requires
        is_match_at(b, msg.spec_search_string(), p),
        forall|j: int| j != p ==> !is_match_at(b, msg.spec_search_string(), j),
        disable_post(
            msg.spec_search_string(),
            message_replacement(msg.spec_search_string().len() as int),
            None,
            BinaryError::MessageNotPresent(msg),
            spliced(b, p, message_replacement(msg.spec_search_string().len() as int)),
            b2,
            r2,
        ),
    ensures
        r2 == Err::<(), PatcherError>(PatcherError::Binary(BinaryError::MessageNotPresent(msg))),
        b2 == spliced(b, p, message_replacement(msg.spec_search_string().len() as int)),
{
    let pat = msg.spec_search_string();
    let repl = message_replacement(pat.len() as int);
    lemma_message_pattern_facts(msg);
    lemma_message_compat(pat);
    let pairs = (pat.len() - 2) / 2;
    assert(pairs >= 1);
    assert(repl[1] == 37);
    assert(repl != pat);
    lemma_splice_removes_unique_match(b, p, pat, repl);
}

} // verus!
