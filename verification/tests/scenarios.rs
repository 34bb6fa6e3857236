use electron_hardener::patcher::NodeJsCommandLineFlag;
use electron_hardener::{BinaryError, ElectronApp, Fuse, FuseStatus, PatcherError};

fn marker() -> Vec<u8> {
    b"dL7pKGdnNz796PbbjQWNKmHXBZaB9tsX".to_vec()
}

/// End-to-end over the fuse wire: a single enabled fuse is read, disabled in
/// place (flipping its wire byte to `'0'`) and read back as disabled.
#[test]
fn end_to_end_single_fuse_toggle() {
    let mut bytes = marker();
    bytes.push(1);
    bytes.push(1);
    bytes.push(b'1');
    let wire_byte_pos = bytes.len() - 1;

    let mut app = ElectronApp::from_bytes(bytes).unwrap();
    let fuse = Fuse::RunAsNode;

    assert_eq!(app.get_fuse_status(fuse).unwrap(), FuseStatus::Present(true));
    assert_eq!(app.set_fuse_status(fuse, false).unwrap(), FuseStatus::Modified);
    assert_eq!(app.as_bytes()[wire_byte_pos], b'0');
    assert_eq!(app.get_fuse_status(fuse).unwrap(), FuseStatus::Present(false));
}

/// End-to-end over the patcher: a buffer holding `\0--inspect\0` is patched
/// to `\0  inspect\0` (hyphens replaced by spaces, length unchanged), and a
/// second attempt fails with the flag's own not-present error.
#[test]
fn end_to_end_inspect_flag_patch() {
    let mut bytes = marker();
    bytes.push(1);
    bytes.push(1);
    bytes.push(b'1');
    let flag_pos = bytes.len();
    bytes.extend_from_slice(b"\0--inspect\0");
    let original_len = bytes.len();

    let mut app = ElectronApp::from_bytes(bytes).unwrap();
    let flag = NodeJsCommandLineFlag::Inspect;

    app.patch_option(flag).unwrap();
    assert_eq!(app.as_bytes().len(), original_len);
    assert_eq!(&app.as_bytes()[flag_pos..flag_pos + 11], b"\0  inspect\0");

    assert_eq!(
        app.patch_option(flag),
        Err(PatcherError::Binary(BinaryError::NodeJsFlagNotPresent(flag)))
    );
}

/// Reading a fuse twice without mutation yields the same result.
#[test]
fn fuse_status_read_is_pure() {
    let mut bytes = marker();
    bytes.push(1);
    bytes.push(4);
    bytes.extend_from_slice(b"10r9");

    let app = ElectronApp::from_bytes(bytes).unwrap();
    let all_fuses = [
        Fuse::RunAsNode,
        Fuse::EncryptedCookies,
        Fuse::NodeOptions,
        Fuse::NodeCliInspect,
    ];
    for fuse in all_fuses {
        assert_eq!(app.get_fuse_status(fuse), app.get_fuse_status(fuse));
    }
}

/// Setting a fuse to the state it already holds changes no byte at all.
#[test]
fn idempotent_set_changes_no_byte() {
    let mut bytes = marker();
    bytes.push(1);
    bytes.push(4);
    bytes.extend_from_slice(b"1011");

    let before = bytes.clone();
    let mut app = ElectronApp::from_bytes(bytes).unwrap();
    assert_eq!(
        app.set_fuse_status(Fuse::RunAsNode, true).unwrap(),
        FuseStatus::Present(true)
    );
    assert_eq!(
        app.set_fuse_status(Fuse::EncryptedCookies, false).unwrap(),
        FuseStatus::Present(false)
    );
    assert_eq!(app.into_bytes(), before);
}

/// Setting a fuse to the opposite state changes exactly one byte.
#[test]
fn opposite_set_changes_exactly_one_byte() {
    let mut bytes = marker();
    bytes.push(1);
    bytes.push(4);
    bytes.extend_from_slice(b"1011");

    let before = bytes.clone();
    let mut app = ElectronApp::from_bytes(bytes).unwrap();
    assert_eq!(
        app.set_fuse_status(Fuse::NodeOptions, false).unwrap(),
        FuseStatus::Modified
    );
    let after = app.into_bytes();
    assert_eq!(after.len(), before.len());
    let changed: Vec<usize> = (0..before.len()).filter(|&i| before[i] != after[i]).collect();
    assert_eq!(changed.len(), 1);
    assert_eq!(after[changed[0]], b'0');
}

/// The wire range returned by `find_wire` has exactly the advertised length
/// and starts right after the length byte.
#[test]
fn find_wire_range_has_advertised_length() {
    let mut bytes = b"prefix".to_vec();
    let marker_pos = bytes.len();
    bytes.extend_from_slice(&marker());
    bytes.push(1);
    bytes.push(7);
    bytes.extend_from_slice(b"1111111suffix");

    let (start, end) = Fuse::find_wire(&bytes).unwrap();
    assert_eq!(start, marker_pos + 32 + 2);
    assert_eq!(end - start, 7);
}

/// A version byte other than 1 yields the structured version error, not a
/// generic parse failure.
#[test]
fn unsupported_version_is_reported() {
    let mut bytes = marker();
    bytes.push(2);
    bytes.push(1);
    bytes.push(b'1');

    assert_eq!(
        Fuse::find_wire(&bytes),
        Err(PatcherError::FuseVersion {
            expected: 1,
            found: 2
        })
    );
}

/// Every header truncation has its own structural error.
#[test]
fn truncated_headers_are_reported() {
    assert_eq!(
        Fuse::find_wire(b"no marker anywhere here"),
        Err(PatcherError::Binary(BinaryError::NoSentinel))
    );

    let bytes = marker();
    assert_eq!(
        Fuse::find_wire(&bytes),
        Err(PatcherError::Binary(BinaryError::NoFuseVersion))
    );

    let mut bytes = marker();
    bytes.push(1);
    assert_eq!(
        Fuse::find_wire(&bytes),
        Err(PatcherError::Binary(BinaryError::NoFuseLength))
    );
}

/// A wire that advertises more bytes than the buffer holds fails fuse lookup
/// with `FuseDoesNotExist` instead of trapping.
#[test]
fn overlong_wire_fails_lookup() {
    let mut bytes = marker();
    bytes.push(1);
    bytes.push(200);
    bytes.push(b'1');

    let app = ElectronApp::from_bytes(bytes).unwrap();
    assert_eq!(
        app.get_fuse_status(Fuse::EncryptedCookies),
        Err(PatcherError::Binary(BinaryError::FuseDoesNotExist(
            Fuse::EncryptedCookies
        )))
    );
}

/// A zero-length wire reports every fuse as missing.
#[test]
fn empty_wire_has_no_fuses() {
    let mut bytes = marker();
    bytes.push(1);
    bytes.push(0);

    let app = ElectronApp::from_bytes(bytes).unwrap();
    assert_eq!(
        app.get_fuse_status(Fuse::RunAsNode),
        Err(PatcherError::Binary(BinaryError::FuseDoesNotExist(
            Fuse::RunAsNode
        )))
    );
}
