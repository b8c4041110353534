use dbgatlas::etw::{
    adapter_info, capabilities_from_flags, extract_file_events, extraction_from_reply,
    filter_trace_file, native_version, session_from_reply, stack_trace_status_from_native,
    write_minimal_file_trace, EtwCall, EtwError, EtwEventExtractionResult, EtwFileSession,
    EtwPresetFlags, ExtractionReply, InfoReply, RootPid, StackTraceReply, StartReply, StatusReply,
    VersionReply,
};
use dbgatlas::etw_sys::{
    DA_EtwAdapterInfo, DA_EtwEventExtractionResult, DA_EtwSessionHandle, DA_EtwStackTraceStatus,
    DA_EtwVersion, DA_ETW_CAP_EVENT_STACK_TRACE, DA_ETW_CAP_FILE_TRACE,
    DA_ETW_CAP_PROCESS_TREE_FILTER, DA_ETW_CAP_REALTIME_CONSUME, DA_ETW_ERR_INTERNAL, DA_ETW_OK,
    DA_ETW_PRESET_NETWORK, DA_ETW_PRESET_PROCESS,
};
use dbgatlas::native::LastError;
use dbgatlas::path::HostPath;

fn outcome(status: i32, message: &str) -> StatusReply {
    StatusReply {
        status,
        last_error: LastError {
            status: DA_ETW_OK,
            buffer: format!("{message}\0rest").into_bytes(),
        },
    }
}

fn version_reply() -> VersionReply {
    VersionReply {
        outcome: outcome(DA_ETW_OK, ""),
        version: DA_EtwVersion {
            struct_size: 20,
            flags: 0,
            abi_major: 0,
            abi_minor: 1,
            abi_patch: 2,
        },
    }
}

fn started() -> EtwFileSession {
    session_from_reply(Some(StartReply {
        outcome: outcome(DA_ETW_OK, ""),
        handle: DA_EtwSessionHandle { value: 9 },
    }))
    .unwrap()
}

#[test]
fn native_version_is_readable() {
    let version = native_version(Some(version_reply())).unwrap();
    assert_eq!(version.abi_major, 0);
    assert_eq!(version.abi_minor, 1);
    assert_eq!(version.abi_patch, 2);
}

#[test]
fn adapter_reports_file_trace_and_process_tree_filter() {
    let info = adapter_info(
        Some(version_reply()),
        Some(InfoReply {
            outcome: outcome(DA_ETW_OK, ""),
            info: DA_EtwAdapterInfo {
                struct_size: 12,
                flags: 0,
                capability_flags: DA_ETW_CAP_REALTIME_CONSUME
                    | DA_ETW_CAP_FILE_TRACE
                    | DA_ETW_CAP_PROCESS_TREE_FILTER
                    | DA_ETW_CAP_EVENT_STACK_TRACE,
            },
        }),
    )
    .unwrap();
    assert!(info.capabilities.file_trace);
    assert!(info.capabilities.process_tree_filter);
    assert!(info.capabilities.realtime_consume);
    assert!(info.capabilities.event_stack_trace);
}

#[test]
fn native_version_reports_unsupported_platform() {
    assert!(matches!(
        native_version(None),
        Err(EtwError::UnsupportedPlatform)
    ));
}

#[test]
fn decodes_capability_flags() {
    let capabilities =
        capabilities_from_flags(DA_ETW_CAP_REALTIME_CONSUME | DA_ETW_CAP_PROCESS_TREE_FILTER);
    assert!(capabilities.realtime_consume);
    assert!(!capabilities.file_trace);
    assert!(capabilities.process_tree_filter);
    assert!(!capabilities.event_stack_trace);
}

#[test]
fn decodes_stack_trace_status() {
    let status = stack_trace_status_from_native(DA_EtwStackTraceStatus {
        requested: 1,
        enabled: 1,
        provider_stack_enabled: 1,
        provider_stack_warning_count: 2,
        kernel_stack_enabled: 0,
        kernel_stack_warning_count: 1,
        ..Default::default()
    });
    assert!(status.requested);
    assert!(status.enabled);
    assert!(status.provider_stack_enabled);
    assert_eq!(status.provider_stack_warning_count, 2);
    assert!(!status.kernel_stack_enabled);
    assert_eq!(status.kernel_stack_warning_count, 1);
}

#[test]
fn rejects_empty_session_name() {
    assert!(matches!(
        write_minimal_file_trace("  ", &HostPath::new("trace.etl"), EtwPresetFlags::empty()),
        Err(EtwError::EmptySessionName)
    ));
}

#[test]
fn rejects_empty_trace_path() {
    assert!(matches!(
        write_minimal_file_trace("dbgatlas-test", &HostPath::new(""), EtwPresetFlags::empty()),
        Err(EtwError::EmptyTracePath)
    ));
}

#[test]
fn rejects_empty_session_start_name() {
    assert!(matches!(
        EtwFileSession::start(" ", &HostPath::new("trace.etl"), EtwPresetFlags::empty()),
        Err(EtwError::EmptySessionName)
    ));
}

#[test]
fn rejects_empty_extraction_trace_path() {
    assert!(matches!(
        extract_file_events(
            &HostPath::new(""),
            &HostPath::new("events"),
            EtwPresetFlags::empty(),
            None
        ),
        Err(EtwError::EmptyTracePath)
    ));
}

#[test]
fn rejects_empty_filter_trace_path() {
    assert!(matches!(
        filter_trace_file(
            &HostPath::new(""),
            &HostPath::new("filtered.etl"),
            EtwPresetFlags::empty(),
            None
        ),
        Err(EtwError::EmptyTracePath)
    ));
}

#[test]
fn rejects_empty_realtime_events_dir_after_session_validation() {
    let session = EtwFileSession::start(" ", &HostPath::new("trace.etl"), EtwPresetFlags::empty());
    assert!(matches!(session, Err(EtwError::EmptySessionName)));
    assert_eq!(
        started()
            .start_realtime_consumer(&HostPath::new(""), EtwPresetFlags::empty(), None)
            .unwrap_err(),
        EtwError::EmptyTracePath
    );
}

fn no_events() -> DA_EtwEventExtractionResult {
    DA_EtwEventExtractionResult {
        struct_size: 16,
        events_written: 0,
        files_written: 0,
        skipped_events: 0,
    }
}

#[test]
fn extracting_missing_trace_reports_native_error() {
    let call = extract_file_events(
        &HostPath::new("case/missing.etl"),
        &HostPath::new("case/events"),
        EtwPresetFlags::process(),
        Some(42),
    )
    .unwrap();
    assert_eq!(
        call,
        EtwCall::ExtractFileEvents {
            trace_path: b"case/missing.etl".to_vec(),
            events_dir: b"case/events".to_vec(),
            preset_flags: DA_ETW_PRESET_PROCESS,
            root_pid: RootPid { present: 1, pid: 42 },
        }
    );
    let reply = ExtractionReply {
        outcome: outcome(DA_ETW_ERR_INTERNAL, "OpenTraceW failed"),
        result: no_events(),
    };
    match extraction_from_reply(Some(reply)) {
        Err(EtwError::Native { message, .. }) => assert!(!message.trim().is_empty()),
        other => panic!("expected native error for missing trace, got {other:?}"),
    }
}

#[test]
fn filtering_missing_trace_reports_native_error() {
    let call = filter_trace_file(
        &HostPath::new("case/missing.etl"),
        &HostPath::new("case/filtered.etl"),
        EtwPresetFlags::process(),
        Some(42),
    )
    .unwrap();
    assert_eq!(
        call,
        EtwCall::FilterTraceFile {
            input_trace_path: b"case/missing.etl".to_vec(),
            output_trace_path: b"case/filtered.etl".to_vec(),
            preset_flags: DA_ETW_PRESET_PROCESS,
            root_pid: RootPid { present: 1, pid: 42 },
        }
    );
    let reply = ExtractionReply {
        outcome: outcome(DA_ETW_ERR_INTERNAL, "OpenTraceW failed"),
        result: no_events(),
    };
    match extraction_from_reply(Some(reply)) {
        Err(EtwError::Native { message, .. }) => assert!(!message.trim().is_empty()),
        other => panic!("expected native error for missing trace filter, got {other:?}"),
    }
}

#[test]
fn combines_preset_flags() {
    let mut flags = EtwPresetFlags::empty();
    flags.insert(EtwPresetFlags::process());
    flags.insert(EtwPresetFlags::network());

    assert_eq!(flags.bits(), DA_ETW_PRESET_PROCESS | DA_ETW_PRESET_NETWORK);
}

#[test]
fn all_families_are_the_union_of_each() {
    let mut flags = EtwPresetFlags::process();
    flags.insert(EtwPresetFlags::thread());
    flags.insert(EtwPresetFlags::image());
    flags.insert(EtwPresetFlags::file());
    flags.insert(EtwPresetFlags::registry());
    flags.insert(EtwPresetFlags::network());
    assert_eq!(flags, EtwPresetFlags::all());
    assert_eq!(flags.bits(), 63);
    let before = flags;
    flags.insert(EtwPresetFlags::file());
    assert_eq!(flags, before);
}

#[test]
fn calls_carry_their_arguments() {
    assert_eq!(
        EtwFileSession::start("name", &HostPath::new("é.etl"), EtwPresetFlags::file()).unwrap(),
        EtwCall::StartFileTrace {
            session_name: b"name".to_vec(),
            trace_path: vec![0xc3, 0xa9, b'.', b'e', b't', b'l'],
            preset_flags: 8,
        }
    );
    assert_eq!(
        started()
            .start_realtime_consumer(&HostPath::new("events"), EtwPresetFlags::all(), Some(7))
            .unwrap(),
        EtwCall::StartRealtimeConsumer {
            handle: DA_EtwSessionHandle { value: 9 },
            events_dir: b"events".to_vec(),
            preset_flags: 63,
            root_pid: RootPid { present: 1, pid: 7 },
        }
    );
    assert_eq!(
        extract_file_events(
            &HostPath::new("a.etl"),
            &HostPath::new("events"),
            EtwPresetFlags::empty(),
            None
        )
        .unwrap(),
        EtwCall::ExtractFileEvents {
            trace_path: b"a.etl".to_vec(),
            events_dir: b"events".to_vec(),
            preset_flags: 0,
            root_pid: RootPid { present: 0, pid: 0 },
        }
    );
    assert_eq!(
        filter_trace_file(
            &HostPath::new("a.etl"),
            &HostPath::new("b.etl"),
            EtwPresetFlags::thread(),
            Some(3)
        )
        .unwrap(),
        EtwCall::FilterTraceFile {
            input_trace_path: b"a.etl".to_vec(),
            output_trace_path: b"b.etl".to_vec(),
            preset_flags: 2,
            root_pid: RootPid { present: 1, pid: 3 },
        }
    );
    assert_eq!(
        write_minimal_file_trace("n", &HostPath::new("t"), EtwPresetFlags::image()).unwrap(),
        EtwCall::WriteMinimalFileTrace {
            session_name: b"n".to_vec(),
            trace_path: b"t".to_vec(),
            preset_flags: 4,
        }
    );
}

#[test]
fn inputs_hold_no_nul() {
    assert_eq!(
        write_minimal_file_trace("a\0b", &HostPath::new("t"), EtwPresetFlags::empty())
            .unwrap_err(),
        EtwError::InteriorNul(1)
    );
    let mut path = HostPath::new("trace");
    path.raw = Some(vec![0xff]);
    assert_eq!(
        write_minimal_file_trace("a", &path, EtwPresetFlags::empty()).unwrap_err(),
        EtwError::NonUtf8Path
    );
}

#[test]
fn failures_carry_the_native_message() {
    let error = extraction_from_reply(Some(ExtractionReply {
        outcome: outcome(DA_ETW_ERR_INTERNAL, "missing trace"),
        result: DA_EtwEventExtractionResult {
            struct_size: 16,
            events_written: 0,
            files_written: 0,
            skipped_events: 0,
        },
    }))
    .unwrap_err();
    assert_eq!(
        error.message(),
        "native ETW call failed with status 500: missing trace"
    );
    let unread = StatusReply {
        status: 2,
        last_error: LastError {
            status: -3,
            buffer: vec![0],
        },
    };
    assert_eq!(
        started().stop(Some(unread)).unwrap_err().message(),
        "native ETW call failed with status 2: da_etw_last_error failed with status -3"
    );
}

#[test]
fn replies_are_read() {
    assert_eq!(
        extraction_from_reply(Some(ExtractionReply {
            outcome: outcome(DA_ETW_OK, ""),
            result: DA_EtwEventExtractionResult {
                struct_size: 16,
                events_written: 4,
                files_written: 2,
                skipped_events: 1,
            },
        }))
        .unwrap(),
        EtwEventExtractionResult {
            events_written: 4,
            files_written: 2,
            skipped_events: 1,
        }
    );
    assert_eq!(
        extraction_from_reply(None).unwrap_err(),
        EtwError::UnsupportedPlatform
    );
    let status = started()
        .stack_trace_status(Some(StackTraceReply {
            outcome: outcome(DA_ETW_OK, ""),
            status: DA_EtwStackTraceStatus {
                requested: 1,
                ..Default::default()
            },
        }))
        .unwrap();
    assert!(status.requested);
    assert_eq!(
        started().stack_trace_status(None).unwrap_err(),
        EtwError::UnsupportedPlatform
    );
    assert!(started().stop(Some(outcome(DA_ETW_OK, ""))).is_ok());
    assert!(matches!(
        adapter_info(None, None),
        Err(EtwError::UnsupportedPlatform)
    ));
}

#[test]
fn handles_are_given_back_once() {
    let mut session = started();
    assert_eq!(session.release(), Some(DA_EtwSessionHandle { value: 9 }));
    assert_eq!(session.release(), None);
    let null = session_from_reply(Some(StartReply {
        outcome: outcome(DA_ETW_OK, ""),
        handle: DA_EtwSessionHandle { value: 0 },
    }));
    assert_eq!(null.unwrap_err(), EtwError::NullSessionHandle);
}

#[test]
fn etw_errors_are_told() {
    let told = vec![
        (
            EtwError::UnsupportedPlatform,
            "native ETW adapter is only available on Windows",
        ),
        (
            EtwError::EmptySessionName,
            "ETW session name must not be empty",
        ),
        (EtwError::EmptyTracePath, "ETW trace path must not be empty"),
        (EtwError::NonUtf8Path, "ETW trace path must be valid UTF-8"),
        (EtwError::InteriorNul(0), "input contains interior nul byte"),
        (
            EtwError::NullSessionHandle,
            "native returned a null ETW session handle",
        ),
    ];
    for (error, text) in told {
        assert_eq!(error.message(), text);
    }
}
