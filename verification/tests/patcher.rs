use electron_hardener::patcher::{
    DevToolsMessage, ElectronOption, NodeJsCommandLineFlag, Patchable,
};
use electron_hardener::{BinaryError, PatcherError};

/// A stand-in for the non-wire part of a packaged binary: every supported
/// flag, option and message pattern occurs exactly once, with filler bytes in
/// between, plus the alternate (fallback) layout of the inspect flag.
fn test_data() -> Vec<u8> {
    let mut v = Vec::new();
    v.extend_from_slice(b"zzheaderzz");
    v.extend_from_slice(b"\0--inspect\0");
    v.extend_from_slice(b"zz");
    v.extend_from_slice(b"\0--inspect-brk\0");
    v.extend_from_slice(b"zz");
    v.extend_from_slice(b"\0--inspect-port\0");
    v.extend_from_slice(b"zz");
    v.extend_from_slice(b"\0--debug\0");
    v.extend_from_slice(b"zz");
    v.extend_from_slice(b"\0--debug-brk\0");
    v.extend_from_slice(b"zz");
    v.extend_from_slice(b"\0--debug-port\0");
    v.extend_from_slice(b"zz");
    v.extend_from_slice(b"\0--inspect-brk-node\0");
    v.extend_from_slice(b"zz");
    v.extend_from_slice(b"\0--inspect-publish-uid\0");
    v.extend_from_slice(b"zz");
    // The alternate Electron 13 Windows layout of the inspect flag.
    v.push(0xAA);
    v.extend_from_slice(b"--inspect\0");
    v.extend_from_slice(b"zz");
    v.extend_from_slice(b"\0js-flags\0");
    v.extend_from_slice(b"zz");
    v.extend_from_slice(b"\0remote-debugging-pipe\0");
    v.extend_from_slice(b"zz");
    v.extend_from_slice(b"\0remote-debugging-port\0");
    v.extend_from_slice(b"zz");
    v.extend_from_slice(b"\0wait-for-debugger-children\0");
    v.extend_from_slice(b"zz");
    v.extend_from_slice(b"\0Debugger listening on %s\n\0");
    v.extend_from_slice(b"zz");
    v.extend_from_slice(b"\0\nDevTools listening on ws://%s%s\n\0");
    v.extend_from_slice(b"zztrailerzz");
    v
}

#[test]
fn disabling_nodejs_flags_works() {
    let mut data = test_data();

    let all_flags: &[NodeJsCommandLineFlag] = &[
        NodeJsCommandLineFlag::Inspect,
        NodeJsCommandLineFlag::InspectBrk,
        NodeJsCommandLineFlag::InspectPort,
        NodeJsCommandLineFlag::Debug,
        NodeJsCommandLineFlag::DebugBrk,
        NodeJsCommandLineFlag::DebugPort,
        NodeJsCommandLineFlag::InspectBrkNode,
        NodeJsCommandLineFlag::InspectPublishUid,
    ];

    // Remove all the flags supported.
    for flag in all_flags {
        flag.disable(&mut data).unwrap();

        if flag.fallback_search_string().is_some() {
            let _ = flag.disable(&mut data);
        }
    }

    // Ensure they no longer exist
    for flag in all_flags {
        assert_eq!(
            flag.disable(&mut data),
            Err(PatcherError::Binary(BinaryError::NodeJsFlagNotPresent(
                *flag
            )))
        );
    }
}

#[test]
fn disabling_electron_options_works() {
    let mut data = test_data();

    let all_options = [
        ElectronOption::JsFlags,
        ElectronOption::RemoteDebuggingPipe,
        ElectronOption::RemoteDebuggingPort,
        ElectronOption::WaitForDebuggerChildren,
    ];

    // Remove all the options supported.
    for opt in all_options {
        opt.disable(&mut data).unwrap();
    }

    // Ensure they no longer exist
    for opt in all_options {
        assert_eq!(
            opt.disable(&mut data),
            Err(PatcherError::Binary(BinaryError::ElectronOptionNotPresent(
                opt
            )))
        );
    }
}

#[test]
fn disabling_debugging_messages_works() {
    let mut data = test_data();

    let all_messages: &[DevToolsMessage] =
        &[DevToolsMessage::ListeningWs, DevToolsMessage::Listening];

    // Remove all the options supported.
    for msg in all_messages.iter().copied() {
        msg.disable(&mut data).unwrap();
    }

    // Ensure they no longer exist
    for msg in all_messages.iter().copied() {
        assert_eq!(
            msg.disable(&mut data),
            Err(PatcherError::Binary(BinaryError::MessageNotPresent(msg)))
        );
    }
}

#[test]
fn patches_preserve_length() {
    let mut data = test_data();
    let original_len = data.len();

    NodeJsCommandLineFlag::Inspect.disable(&mut data).unwrap();
    assert_eq!(data.len(), original_len);
    ElectronOption::JsFlags.disable(&mut data).unwrap();
    assert_eq!(data.len(), original_len);
    DevToolsMessage::Listening.disable(&mut data).unwrap();
    assert_eq!(data.len(), original_len);
}

#[test]
fn electron_option_replacement_bytes_are_exact() {
    let mut data = Vec::new();
    data.extend_from_slice(b"aa");
    data.extend_from_slice(b"\0js-flags\0");
    data.extend_from_slice(b"bb");

    ElectronOption::JsFlags.disable(&mut data).unwrap();

    let mut expected = Vec::new();
    expected.extend_from_slice(b"aa");
    expected.extend_from_slice(b"\0xx\r\n\0\0\0\0\0");
    expected.extend_from_slice(b"bb");
    assert_eq!(data, expected);
}

#[test]
fn message_replacement_bytes_are_exact() {
    let mut data = Vec::new();
    data.extend_from_slice(b"aa");
    data.extend_from_slice(b"\0Debugger listening on %s\n\0");
    data.extend_from_slice(b"bb");

    DevToolsMessage::Listening.disable(&mut data).unwrap();

    // The 27-byte template becomes a NUL, twelve `%s` placeholders, a
    // line-feed and a final NUL: same length, same placeholder arity.
    let mut expected = Vec::new();
    expected.extend_from_slice(b"aa");
    expected.extend_from_slice(b"\0%s%s%s%s%s%s%s%s%s%s%s%s\n\0");
    expected.extend_from_slice(b"bb");
    assert_eq!(data, expected);
}

#[test]
fn fallback_inspect_layout_is_patched() {
    let mut data = Vec::new();
    data.extend_from_slice(b"zz");
    data.push(0xAA);
    data.extend_from_slice(b"--inspect\0");
    data.extend_from_slice(b"zz");

    // The primary pattern is absent, so the fallback layout is patched.
    NodeJsCommandLineFlag::Inspect.disable(&mut data).unwrap();

    let mut expected = Vec::new();
    expected.extend_from_slice(b"zz");
    expected.push(0xAA);
    expected.extend_from_slice(b"  inspect\0");
    expected.extend_from_slice(b"zz");
    assert_eq!(data, expected);

    assert_eq!(
        NodeJsCommandLineFlag::Inspect.disable(&mut data),
        Err(PatcherError::Binary(BinaryError::NodeJsFlagNotPresent(
            NodeJsCommandLineFlag::Inspect
        )))
    );
}
