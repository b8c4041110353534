use dbgatlas::debug::{
    validate_command, CreateDebugSession, DebugError, DebugSessionState, DebugTarget,
    EvalDebugCommand,
};
use dbgatlas::model::{Id, SessionRef};
use dbgatlas::path::HostPath;

const CURRENT_PID: u32 = 4242;

#[test]
fn session_state_classifies_terminal_and_reusable_states() {
    assert!(DebugSessionState::Closed.is_terminal());
    assert!(DebugSessionState::Error.is_terminal());
    assert!(!DebugSessionState::Break.is_terminal());
    assert!(DebugSessionState::Ready.is_reusable());
    assert!(DebugSessionState::Break.is_reusable());
    assert!(!DebugSessionState::Running.is_reusable());
    assert!(!DebugSessionState::Starting.is_reusable());
    assert!(!DebugSessionState::Closed.is_reusable());
}

#[test]
fn rejects_empty_debug_command() {
    let request = EvalDebugCommand {
        session_id: SessionRef::new(Id::new("session-001").unwrap()),
        command: "  ".to_string(),
        timeout_ms: None,
    };
    assert!(matches!(request.validate(), Err(DebugError::EmptyCommand)));
}

#[test]
fn rejects_invalid_targets() {
    assert!(matches!(
        DebugTarget::Attach { pid: 0 }.validate(CURRENT_PID),
        Err(DebugError::InvalidPid)
    ));
    assert!(matches!(
        DebugTarget::Dump {
            path: HostPath::new("")
        }
        .validate(CURRENT_PID),
        Err(DebugError::EmptyPath)
    ));
    assert!(matches!(
        DebugTarget::Launch {
            executable: HostPath::new("app.exe"),
            args: vec!["bad\0arg".to_string()]
        }
        .validate(CURRENT_PID),
        Err(DebugError::ArgumentContainsNul)
    ));
}

#[test]
fn refuses_to_attach_to_itself() {
    assert_eq!(
        DebugTarget::Attach { pid: CURRENT_PID }
            .validate(CURRENT_PID)
            .unwrap_err(),
        DebugError::AttachCurrentProcess
    );
    assert_eq!(
        DebugTarget::Attach { pid: 7 }.validate(CURRENT_PID).unwrap(),
        DebugTarget::Attach { pid: 7 }
    );
}

#[test]
fn refuses_paths_with_nul() {
    assert_eq!(
        DebugTarget::Dump {
            path: HostPath::new("bad\0path")
        }
        .validate(CURRENT_PID)
        .unwrap_err(),
        DebugError::PathContainsNul
    );
}

#[test]
fn accepted_requests_are_unchanged() {
    let request = CreateDebugSession {
        target: DebugTarget::Launch {
            executable: HostPath::new("app.exe"),
            args: vec!["--flag".to_string()],
        },
        startup_timeout_ms: Some(5),
    }
    .validate(CURRENT_PID)
    .unwrap()
    .validate(CURRENT_PID)
    .unwrap();
    assert_eq!(request.startup_timeout_ms, Some(5));
    assert_eq!(
        request.target,
        DebugTarget::Launch {
            executable: HostPath::new("app.exe"),
            args: vec!["--flag".to_string()],
        }
    );
}

#[test]
fn debug_errors_are_told() {
    assert!(validate_command(".echo").is_ok());
    assert_eq!(
        validate_command("\u{3000}").unwrap_err().message(),
        "debug command must not be empty"
    );
    assert_eq!(
        DebugError::EmptyPath.message(),
        "debug target path must not be empty"
    );
    assert_eq!(
        DebugError::PathContainsNul.message(),
        "debug target path contains a NUL byte"
    );
    assert_eq!(
        DebugError::InvalidPid.message(),
        "attach pid must be greater than zero"
    );
    assert_eq!(
        DebugError::AttachCurrentProcess.message(),
        "refusing to attach to the current DbgAtlas process"
    );
    assert_eq!(
        DebugError::ArgumentContainsNul.message(),
        "launch argument contains a NUL byte"
    );
}
