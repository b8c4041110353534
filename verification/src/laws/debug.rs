//! Laws on debug sessions.

use crate::debug::{
    validate_command, CreateDebugSession, DebugError, DebugSessionState, DebugTarget,
    EvalDebugCommand,
};
use crate::laws;
use crate::laws::text::all_white;
use vstd::prelude::*;
use vstd::string::*;

verus! {

/// A process may debug a dump or a program that has a path without a NUL, and
/// any process but none and itself.
pub open spec fn may_debug(target: DebugTarget, current_pid: u32) -> bool {
    match target {
        DebugTarget::Dump { path } => path@.text.len() > 0 && !path@.text.contains('\0'),
        DebugTarget::Attach { pid } => pid != 0 && pid != current_pid,
        DebugTarget::Launch { executable, args } => {
            &&& executable@.text.len() > 0
            &&& !executable@.text.contains('\0')
            &&& forall|i: int| 0 <= i < args@.len() ==> !(#[trigger] args@[i]@.contains('\0'))
        },
    }
}

/// A request for a debug session is accepted, as it is, where its target may
/// be debugged, and is refused otherwise by what is wrong with it.
pub proof fn law_debuggable_targets_are_accepted(
    request: CreateDebugSession,
    current_pid: u32,
    outcome: Result<CreateDebugSession, DebugError>,
    target: Result<DebugTarget, DebugError>,
)
    requires
        call_ensures(CreateDebugSession::validate, (request, current_pid), outcome),
        call_ensures(DebugTarget::validate, (request.target, current_pid), target),
    ensures
        outcome is Ok <==> may_debug(request.target, current_pid),
        target is Ok <==> may_debug(request.target, current_pid),
        outcome matches Ok(accepted) ==> accepted == request,
        target matches Ok(accepted) ==> accepted == request.target,
        outcome matches Err(error) ==> match request.target {
            DebugTarget::Dump { path } => if path@.text.len() == 0 {
                error is EmptyPath
            } else {
                error is PathContainsNul
            },
            DebugTarget::Attach { pid } => if pid == 0 {
                error is InvalidPid
            } else {
                error is AttachCurrentProcess
            },
            DebugTarget::Launch { executable, args } => if executable@.text.len() == 0 {
                error is EmptyPath
            } else if executable@.text.contains('\0') {
                error is PathContainsNul
            } else {
                error is ArgumentContainsNul
            },
        },
{
}

/// A command is accepted where it is not blank.
pub proof fn law_commands_are_not_blank(
    request: EvalDebugCommand,
    command: &str,
    outcome: Result<(), DebugError>,
    verdict: Result<(), DebugError>,
)
    requires
        call_ensures(EvalDebugCommand::validate, (&request,), outcome),
        call_ensures(validate_command, (command,), verdict),
    ensures
        outcome is Ok <==> !all_white(request.command@),
        verdict is Ok <==> !all_white(command@),
        outcome matches Err(error) ==> error is EmptyCommand,
        verdict matches Err(error) ==> error is EmptyCommand,
{
    laws::text::lemma_blank_is_white(request.command@);
    laws::text::lemma_blank_is_white(command@);
}

/// A session has ended once it is closed or failed, and takes a command while
/// it is stopped, which is never both.
pub proof fn law_sessions_take_commands_while_stopped(
    state: DebugSessionState,
    ended: bool,
    reusable: bool,
)
    requires
        call_ensures(DebugSessionState::is_terminal, (state,), ended),
        call_ensures(DebugSessionState::is_reusable, (state,), reusable),
    ensures
        ended <==> state is Closed || state is Error,
        reusable <==> state is Ready || state is Break,
        !(ended && reusable),
        state is Running || state is Starting || state is Closing || state is Created ==> !ended
            && !reusable,
{
}

} // verus!
