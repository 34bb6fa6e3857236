use electron_hardener::fuses;
use electron_hardener::{BinaryError, ElectronApp, Fuse, FuseStatus, PatcherError};

/// A stand-in for a packaged Electron binary: some surrounding data, the
/// sentinel marker, schema version 1, a wire length of 4 and four enabled
/// fuse bytes.
fn test_bytes() -> Vec<u8> {
    let mut v = Vec::new();
    v.extend_from_slice(b"some leading binary data ");
    v.extend_from_slice(b"dL7pKGdnNz796PbbjQWNKmHXBZaB9tsX");
    v.push(1);
    v.push(4);
    v.extend_from_slice(b"1111");
    v.extend_from_slice(b" trailing binary data");
    v
}

fn get_wire() -> Vec<u8> {
    let bytes = test_bytes();
    let (start, end) = Fuse::find_wire(&bytes).unwrap();
    bytes[start..end].to_vec()
}

#[test]
fn sentinal_is_found() {
    assert!(Fuse::find_wire(&test_bytes()).is_ok());
}

#[test]
fn enabled_fuse_is_correct() {
    let fuse = Fuse::RunAsNode;
    assert_eq!(
        fuse.fuse_status(&get_wire()).unwrap(),
        FuseStatus::Present(true)
    );
}

#[test]
fn disabled_fuse_is_correct() {
    let fuse = Fuse::RunAsNode;
    let mut wire = get_wire();
    assert_eq!(fuse.disable(&mut wire).unwrap(), FuseStatus::Modified);
    assert_eq!(fuse.fuse_status(&wire).unwrap(), FuseStatus::Present(false));
}

#[test]
fn removed_fuse_is_correct() {
    let fuse = Fuse::RunAsNode;
    let mut wire = get_wire();
    wire[fuse.schema_pos()] = fuses::REMOVED;

    assert_eq!(fuse.fuse_status(&wire).unwrap(), FuseStatus::Removed);
}

#[test]
fn unknown_fuse_value_is_correct() {
    let fuse = Fuse::RunAsNode;
    let value = 9;
    let mut wire = get_wire();
    wire[fuse.schema_pos()] = value;

    assert_eq!(
        fuse.fuse_status(&wire),
        Err(PatcherError::Binary(BinaryError::UnknownFuse {
            fuse,
            value,
        }))
    );
}

#[test]
fn modfying_removed_fuse_errors() {
    let fuse = Fuse::RunAsNode;
    let mut wire = get_wire();
    wire[fuse.schema_pos()] = fuses::REMOVED;

    assert_eq!(fuse.disable(&mut wire), Err(PatcherError::RemovedFuse(fuse)));
    assert_eq!(fuse.enable(&mut wire), Err(PatcherError::RemovedFuse(fuse)));
}

#[test]
fn test_app_fuse_actions() {
    let fuse = Fuse::RunAsNode;
    let application_bytes = test_bytes();
    let mut app = ElectronApp::from_bytes(application_bytes).unwrap();

    assert_eq!(app.get_fuse_status(fuse).unwrap(), FuseStatus::Present(true));

    // Setting the fuse to what it already is shouldn't modify anything.
    assert_eq!(
        app.set_fuse_status(fuse, true).unwrap(),
        FuseStatus::Present(true)
    );

    assert_eq!(app.set_fuse_status(fuse, false).unwrap(), FuseStatus::Modified);
    assert_eq!(app.get_fuse_status(fuse).unwrap(), FuseStatus::Present(false));
}

#[test]
fn can_read_all_fuses() {
    let wire = get_wire();

    let all_fuses = [
        Fuse::RunAsNode,
        Fuse::EncryptedCookies,
        Fuse::NodeOptions,
        Fuse::NodeCliInspect,
    ];
    for fuse in all_fuses {
        assert!(matches!(
            fuse.fuse_status(&wire).unwrap(),
            FuseStatus::Present(_)
        ));
    }
}

#[test]
fn fuse_modifies_correct_position() {
    let mut wire = get_wire();

    let fuse1 = Fuse::RunAsNode;
    let fuse2 = Fuse::EncryptedCookies;
    let fuse3 = Fuse::NodeOptions;

    let fuse_2_original_status = fuse2.fuse_status(&wire).unwrap();

    fuse1.disable(&mut wire).unwrap();

    // Check that modifying one fuse doesn't affect others.
    assert_eq!(fuse2.fuse_status(&wire).unwrap(), fuse_2_original_status);

    let fuse_1_original_status = fuse1.fuse_status(&wire).unwrap();

    fuse2.disable(&mut wire).unwrap();

    assert_eq!(fuse1.fuse_status(&wire).unwrap(), fuse_1_original_status);

    let left_fuse_original_status = fuse1.fuse_status(&wire).unwrap();
    let right_fuse_original_status = fuse3.fuse_status(&wire).unwrap();

    fuse2.enable(&mut wire).unwrap();

    assert_eq!(fuse1.fuse_status(&wire).unwrap(), left_fuse_original_status);
    assert_eq!(fuse3.fuse_status(&wire).unwrap(), right_fuse_original_status);
}
