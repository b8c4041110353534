use dbgatlas::dbgeng::{
    bytes_from_reply, command_to_cstring, native_version, path_to_cstring, session_from_reply,
    session_from_status, symbol_path_to_cstring, text_from_reply, DbgEngCall, DbgEngError,
    DbgEngSession, NativeVersion, OpenReply, StatusReply, TextReply, VersionReply,
};
use dbgatlas::dbgeng_sys::DA_Version;
use dbgatlas::native::{error_buffer_len, last_error_text, LastError, LentText};
use dbgatlas::path::HostPath;

fn ok() -> StatusReply {
    StatusReply {
        status: 0,
        last_error: LastError {
            status: 0,
            buffer: Vec::new(),
        },
    }
}

fn failed(status: i32, text: &str) -> StatusReply {
    let mut buffer = text.as_bytes().to_vec();
    buffer.extend([0, b'x']);
    StatusReply {
        status,
        last_error: LastError { status: 0, buffer },
    }
}

fn session() -> DbgEngSession {
    session_from_status(OpenReply {
        outcome: ok(),
        handle: 42,
    })
    .unwrap()
}

fn text_reply(data: Option<&[u8]>) -> TextReply {
    TextReply {
        outcome: ok(),
        view: LentText {
            len: data.map_or(0, |bytes| bytes.len() as u64),
            data: data.map(|bytes| bytes.to_vec()),
        },
    }
}

#[test]
fn lib_native_version_is_readable() {
    let version = native_version(Some(VersionReply {
        outcome: ok(),
        version: DA_Version {
            struct_size: 20,
            flags: 0,
            abi_major: 0,
            abi_minor: 2,
            abi_patch: 3,
        },
    }))
    .unwrap();
    assert_eq!(version.abi_major, 0);
    assert_eq!(
        version,
        NativeVersion {
            abi_major: 0,
            abi_minor: 2,
            abi_patch: 3,
        }
    );
}

#[test]
fn lib_native_version_reports_unsupported_platform() {
    assert!(matches!(
        native_version(None),
        Err(DbgEngError::UnsupportedPlatform)
    ));
}

#[test]
fn rejects_empty_dump_path() {
    assert!(matches!(
        DbgEngSession::open_dump(&HostPath::new("")),
        Err(DbgEngError::EmptyPath)
    ));
}

#[test]
fn rejects_dump_path_with_nul() {
    assert_eq!(
        DbgEngSession::open_dump(&HostPath::new("bad\0path")).unwrap_err(),
        DbgEngError::InteriorNul(3)
    );
}

#[test]
fn rejects_non_utf8_dump_path() {
    let mut path = HostPath::new("\u{fffd}");
    path.raw = Some(vec![0xed, 0xa0, 0x80]);
    assert!(matches!(
        DbgEngSession::open_dump(&path),
        Err(DbgEngError::NonUtf8Path)
    ));
}

#[test]
fn lib_rejects_empty_debug_command() {
    assert!(matches!(
        command_to_cstring("  "),
        Err(DbgEngError::EmptyCommand)
    ));
}

#[test]
fn rejects_empty_symbol_path() {
    assert!(matches!(
        symbol_path_to_cstring("  "),
        Err(DbgEngError::EmptySymbolPath)
    ));
}

#[test]
fn lib_rejects_zero_attach_pid() {
    assert!(matches!(
        DbgEngSession::attach(0),
        Err(DbgEngError::InvalidPid)
    ));
}

#[test]
fn rejects_zero_memory_read_length() {
    assert!(matches!(
        session().read_memory(0x1000, 0),
        Err(DbgEngError::EmptyMemoryRead)
    ));
}

#[test]
fn rejects_debug_command_with_nul() {
    assert!(matches!(
        command_to_cstring(".echo bad\0command"),
        Err(DbgEngError::InteriorNul(9))
    ));
}

#[test]
fn opening_missing_dump_reports_native_failure() {
    let call = DbgEngSession::open_dump(&HostPath::new("dbgatlas-missing-sample.dmp")).unwrap();
    assert_eq!(
        call,
        DbgEngCall::OpenDump {
            path: b"dbgatlas-missing-sample.dmp".to_vec(),
        }
    );
    let error = session_from_reply(Some(OpenReply {
        outcome: failed(-3, "file not found"),
        handle: 0,
    }))
    .unwrap_err();
    assert!(matches!(error, DbgEngError::Native { .. }));
    assert_eq!(
        error.message(),
        "native call failed with status -3: file not found"
    );
}

#[test]
fn calls_carry_the_handle_and_c_strings() {
    let session = session();
    assert_eq!(
        session.execute(".echo dbgatlas-probe").unwrap(),
        DbgEngCall::Execute {
            handle: 42,
            command: b".echo dbgatlas-probe".to_vec(),
        }
    );
    assert_eq!(
        session.add_symbols(r"cache*C:\symbols", false).unwrap(),
        DbgEngCall::AddSymbols {
            handle: 42,
            symbol_path: br"cache*C:\symbols".to_vec(),
            reload: 0,
        }
    );
    assert!(matches!(
        session.add_symbols("srv*", true).unwrap(),
        DbgEngCall::AddSymbols { reload: 1, .. }
    ));
    assert_eq!(
        session.read_memory(0x1000, 8).unwrap(),
        DbgEngCall::ReadVirtual {
            handle: 42,
            address: 0x1000,
            length: 8,
        }
    );
    assert_eq!(
        DbgEngSession::attach(7).unwrap(),
        DbgEngCall::AttachProcess { pid: 7 }
    );
    assert_eq!(
        path_to_cstring(&HostPath::new("é.dmp")).unwrap(),
        "é.dmp".as_bytes()
    );
}

#[test]
fn positions_of_nul_count_bytes() {
    assert_eq!(
        command_to_cstring("é\0").unwrap_err(),
        DbgEngError::InteriorNul(2)
    );
}

#[test]
fn replies_become_texts_and_bytes() {
    assert_eq!(
        text_from_reply(Some(text_reply(Some(b"out\xffput")))).unwrap(),
        "out\u{fffd}put"
    );
    assert_eq!(text_from_reply(Some(text_reply(None))).unwrap(), "");
    assert_eq!(
        bytes_from_reply(Some(text_reply(Some(&[1, 0, 255])))).unwrap(),
        [1, 0, 255]
    );
    let lost = || {
        let mut reply = text_reply(None);
        reply.view.len = 3;
        reply
    };
    assert_eq!(
        text_from_reply(Some(lost())).unwrap_err(),
        DbgEngError::NullText
    );
    assert_eq!(
        bytes_from_reply(Some(lost())).unwrap_err(),
        DbgEngError::NullText
    );
    assert_eq!(
        text_from_reply(None).unwrap_err(),
        DbgEngError::UnsupportedPlatform
    );
    assert_eq!(
        bytes_from_reply(None).unwrap_err(),
        DbgEngError::UnsupportedPlatform
    );
    let mut refused = text_reply(Some(b"x"));
    refused.outcome = failed(5, "busy");
    assert_eq!(
        text_from_reply(Some(refused)).unwrap_err(),
        DbgEngError::Native {
            status: 5,
            message: "busy".to_string(),
        }
    );
}

#[test]
fn a_session_needs_a_handle() {
    assert_eq!(
        session_from_reply(Some(OpenReply {
            outcome: ok(),
            handle: 0,
        }))
        .unwrap_err(),
        DbgEngError::NullSessionHandle
    );
    assert_eq!(
        session_from_reply(None).unwrap_err(),
        DbgEngError::UnsupportedPlatform
    );
}

#[test]
fn a_session_is_closed_once() {
    let mut session = session();
    assert_eq!(session.release(), Some(42));
    assert_eq!(session.release(), None);
}

#[test]
fn last_errors_are_texts_up_to_a_nul() {
    let reply = |status: i32, buffer: &[u8]| LastError {
        status,
        buffer: buffer.to_vec(),
    };
    assert_eq!(last_error_text("f", &reply(0, b"ab\0cd")), "ab");
    assert_eq!(last_error_text("f", &reply(0, b"ab")), "ab");
    assert_eq!(last_error_text("f", &reply(0, b"\0")), "");
    assert_eq!(
        last_error_text("f", &reply(-2, b"ab")),
        "f failed with status -2"
    );
    assert_eq!(error_buffer_len(0), 1);
    assert_eq!(error_buffer_len(1), 1);
    assert_eq!(error_buffer_len(9), 9);
}

#[test]
fn dbgeng_errors_have_texts() {
    for (error, text) in [
        (
            DbgEngError::UnsupportedPlatform,
            "native adapter is only available on Windows",
        ),
        (
            DbgEngError::NullSessionHandle,
            "native returned a null session handle",
        ),
        (DbgEngError::NullText, "native returned a null text pointer"),
        (DbgEngError::EmptyPath, "dump path must not be empty"),
        (
            DbgEngError::InvalidPid,
            "attach pid must be greater than zero",
        ),
        (DbgEngError::NonUtf8Path, "dump path must be valid UTF-8"),
        (DbgEngError::EmptyCommand, "debug command must not be empty"),
        (
            DbgEngError::EmptySymbolPath,
            "symbol path must not be empty",
        ),
        (
            DbgEngError::EmptyMemoryRead,
            "memory read length must be greater than zero",
        ),
        (
            DbgEngError::InteriorNul(0),
            "input contains interior nul byte",
        ),
    ] {
        assert_eq!(error.message(), text);
    }
}
