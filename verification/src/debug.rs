//! Debug sessions: targets, states, commands and their results.

use crate::model::{ArtifactRef, OperationRef, SessionRef, Timestamp};
use crate::path::HostPath;
use crate::text::{blank, contains_char, is_blank};
use vstd::prelude::*;
use vstd::string::*;

verus! {

/// Why a debug request is refused.
#[derive(Clone, Copy, Debug, PartialEq, Eq, Structural)]
pub enum DebugError {
    EmptyPath,
    PathContainsNul,
    InvalidPid,
    AttachCurrentProcess,
    ArgumentContainsNul,
    EmptyCommand,
}

/// The text of a refusal.
pub open spec fn debug_error_text(error: DebugError) -> Seq<char> {
    match error {
        DebugError::EmptyPath => "debug target path must not be empty"@,
        DebugError::PathContainsNul => "debug target path contains a NUL byte"@,
        DebugError::InvalidPid => "attach pid must be greater than zero"@,
        DebugError::AttachCurrentProcess => "refusing to attach to the current DbgAtlas process"@,
        DebugError::ArgumentContainsNul => "launch argument contains a NUL byte"@,
        DebugError::EmptyCommand => "debug command must not be empty"@,
    }
}

impl DebugError {
    /// The error as text.
    pub fn message(&self) -> (text: String)
        ensures
            text@ == debug_error_text(*self),
    {
        match self {
            DebugError::EmptyPath => "debug target path must not be empty".to_owned(),
            DebugError::PathContainsNul => "debug target path contains a NUL byte".to_owned(),
            DebugError::InvalidPid => "attach pid must be greater than zero".to_owned(),
            DebugError::AttachCurrentProcess => "refusing to attach to the current DbgAtlas process".to_owned(),
            DebugError::ArgumentContainsNul => "launch argument contains a NUL byte".to_owned(),
            DebugError::EmptyCommand => "debug command must not be empty".to_owned(),
        }
    }
}

/// What a session debugs.
#[derive(Debug, PartialEq, Eq)]
pub enum DebugTarget {
    Dump { path: HostPath },
    Attach { pid: u32 },
    Launch { executable: HostPath, args: Vec<String> },
}

/// Why a path is refused as a target, if it is.
pub open spec fn path_refusal(path: HostPath) -> Option<DebugError> {
    if path@.text.len() == 0 {
        Some(DebugError::EmptyPath)
    } else if path@.text.contains('\0') {
        Some(DebugError::PathContainsNul)
    } else {
        None
    }
}

/// Some text of the list holds a NUL.
pub open spec fn any_has_nul(args: Seq<String>) -> bool {
    exists|i: int| 0 <= i < args.len() && #[trigger] args[i]@.contains('\0')
}

/// Why a target is refused in the process `current_pid`, if it is.
pub open spec fn target_refusal(target: DebugTarget, current_pid: u32) -> Option<DebugError> {
    match target {
        DebugTarget::Dump { path } => path_refusal(path),
        DebugTarget::Attach { pid } => if pid == 0 {
            Some(DebugError::InvalidPid)
        } else if pid == current_pid {
            Some(DebugError::AttachCurrentProcess)
        } else {
            None
        },
        DebugTarget::Launch { executable, args } => if path_refusal(executable) is Some {
            path_refusal(executable)
        } else if any_has_nul(args@) {
            Some(DebugError::ArgumentContainsNul)
        } else {
            None
        },
    }
}

/// What validation answers when it refuses a value for a reason, or keeps it.
pub open spec fn verdict<T>(refusal: Option<DebugError>, value: T) -> Result<T, DebugError> {
    match refusal {
        Some(error) => Err(error),
        None => Ok(value),
    }
}

fn validate_path(path: &HostPath) -> (verdict: Result<(), DebugError>)
    ensures
        verdict == self::verdict(path_refusal(*path), ()),
{
    if path.is_empty() {
        return Err(DebugError::EmptyPath);
    }
    if contains_char(path.text.as_str(), '\0') {
        return Err(DebugError::PathContainsNul);
    }
    Ok(())
}

fn validate_attach_pid(pid: u32, current_pid: u32) -> (target: Result<DebugTarget, DebugError>)
    ensures
        target == verdict(
            target_refusal(DebugTarget::Attach { pid }, current_pid),
            DebugTarget::Attach { pid },
        ),
{
    if pid == 0 {
        return Err(DebugError::InvalidPid);
    }
    if pid == current_pid {
        return Err(DebugError::AttachCurrentProcess);
    }
    Ok(DebugTarget::Attach { pid })
}

fn validate_launch_target(executable: HostPath, args: Vec<String>) -> (target: Result<
    DebugTarget,
    DebugError,
>)
    ensures
        target == verdict(
            target_refusal(DebugTarget::Launch { executable, args }, 0),
            DebugTarget::Launch { executable, args },
        ),
{
    if let Err(error) = validate_path(&executable) {
        return Err(error);
    }
    let mut i: usize = 0;
    while i < args.len()
        invariant
            i <= args.len(),
            path_refusal(executable) is None,
            forall|k: int| 0 <= k < i ==> !(#[trigger] args@[k]@.contains('\0')),
        decreases args.len() - i,
    {
        if contains_char(args[i].as_str(), '\0') {
            assert(args@[i as int]@.contains('\0'));
            return Err(DebugError::ArgumentContainsNul);
        }
        i = i + 1;
    }
    Ok(DebugTarget::Launch { executable, args })
}

impl DebugTarget {
    /// Accepts a target that the process `current_pid` may debug, unchanged.
    pub fn validate(self, current_pid: u32) -> (target: Result<Self, DebugError>)
        ensures
            target == verdict(target_refusal(self, current_pid), self),
    {
        match self {
            DebugTarget::Dump { path } => match validate_path(&path) {
                Ok(()) => Ok(DebugTarget::Dump { path }),
                Err(error) => Err(error),
            },
            DebugTarget::Attach { pid } => validate_attach_pid(pid, current_pid),
            DebugTarget::Launch { executable, args } => validate_launch_target(executable, args),
        }
    }
}

/// The stages of a debug session.
#[derive(Clone, Copy, Debug, PartialEq, Eq, Structural)]
pub enum DebugSessionState {
    Created,
    Starting,
    Ready,
    Break,
    Running,
    Closing,
    Closed,
    Error,
}

impl DebugSessionState {
    /// Whether the session has ended.
    pub fn is_terminal(self) -> (yes: bool)
        ensures
            yes == (self is Closed || self is Error),
    {
        match self {
            DebugSessionState::Closed => true,
            DebugSessionState::Error => true,
            _ => false,
        }
    }

    /// Whether the session takes a command now.
    pub fn is_reusable(self) -> (yes: bool)
        ensures
            yes == (self is Ready || self is Break),
    {
        match self {
            DebugSessionState::Ready => true,
            DebugSessionState::Break => true,
            _ => false,
        }
    }
}

/// A debug session.
#[derive(Debug, PartialEq, Eq)]
pub struct DebugSession {
    pub id: SessionRef,
    pub target: DebugTarget,
    pub state: DebugSessionState,
    pub created_at: Timestamp,
    pub updated_at: Timestamp,
    pub current_operation: Option<OperationRef>,
    pub last_operation: Option<OperationRef>,
    pub warnings: Vec<String>,
    pub error: Option<String>,
}

/// A request for a new debug session.
#[derive(Debug, PartialEq, Eq)]
pub struct CreateDebugSession {
    pub target: DebugTarget,
    pub startup_timeout_ms: Option<u64>,
}

impl CreateDebugSession {
    /// Accepts a request whose target the process `current_pid` may debug,
    /// unchanged.
    pub fn validate(self, current_pid: u32) -> (request: Result<Self, DebugError>)
        ensures
            request == verdict(target_refusal(self.target, current_pid), self),
    {
        let startup_timeout_ms: Option<u64> = self.startup_timeout_ms;
        match self.target.validate(current_pid) {
            Ok(target) => Ok(CreateDebugSession { target, startup_timeout_ms }),
            Err(error) => Err(error),
        }
    }
}

/// A request to run a debugger command.
#[derive(Debug, PartialEq, Eq)]
pub struct EvalDebugCommand {
    pub session_id: SessionRef,
    pub command: String,
    pub timeout_ms: Option<u64>,
}

impl EvalDebugCommand {
    /// Accepts a request whose command is not blank.
    pub fn validate(&self) -> (verdict: Result<(), DebugError>)
        ensures
            verdict == (if blank(self.command@) {
                Err::<(), DebugError>(DebugError::EmptyCommand)
            } else {
                Ok::<(), DebugError>(())
            }),
    {
        validate_command(self.command.as_str())
    }
}

/// What a debugger command gave.
#[derive(Debug, PartialEq, Eq)]
pub struct DebugCommandResult {
    pub session_id: SessionRef,
    pub operation_id: Option<OperationRef>,
    pub command: String,
    pub output: String,
    pub final_state: Option<DebugSessionState>,
    pub raw_output: Option<ArtifactRef>,
    pub warnings: Vec<String>,
    pub error: Option<String>,
}

/// What a memory read gave.
#[derive(Debug, PartialEq, Eq)]
pub struct DebugMemoryResult {
    pub session_id: SessionRef,
    pub operation_id: Option<OperationRef>,
    pub address: u64,
    pub requested_length: u64,
    pub bytes_read: u64,
    pub memory: Option<ArtifactRef>,
    pub warnings: Vec<String>,
    pub error: Option<String>,
}

/// Who keeps debug sessions. An implementation decides what each request
/// gives.
pub trait DebugSessionManager: Send + Sync {
    fn create_session(&self, request: CreateDebugSession) -> Result<DebugSession, DebugError>;

    fn get_session(&self, session_id: &SessionRef) -> Result<DebugSession, DebugError>;

    fn list_sessions(&self) -> Result<Vec<DebugSession>, DebugError>;

    fn close_session(&self, session_id: &SessionRef) -> Result<DebugSession, DebugError>;

    fn eval(&self, request: EvalDebugCommand) -> Result<DebugCommandResult, DebugError>;
}

/// Accepts a command that is not blank.
pub fn validate_command(command: &str) -> (verdict: Result<(), DebugError>)
    ensures
        verdict == (if blank(command@) {
            Err::<(), DebugError>(DebugError::EmptyCommand)
        } else {
            Ok::<(), DebugError>(())
        }),
{
    if is_blank(command) {
        return Err(DebugError::EmptyCommand);
    }
    Ok(())
}

/// A session that takes a command has not ended.
pub proof fn law_reusable_sessions_have_not_ended(state: DebugSessionState)
    ensures
        state is Ready || state is Break ==> !(state is Closed || state is Error),
{
}

/// A target that was accepted is accepted again in the same process.
pub proof fn law_accepted_targets_stay_accepted(target: DebugTarget, current_pid: u32)
    requires
        verdict(target_refusal(target, current_pid), target) is Ok,
    ensures
        verdict(
            target_refusal(verdict(target_refusal(target, current_pid), target)->Ok_0, current_pid),
            target,
        ) == Ok::<DebugTarget, DebugError>(target),
{
}

} // verus!
