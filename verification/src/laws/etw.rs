//! Laws on event tracing.

use crate::etw::{
    adapter_info, capabilities_from_flags, done_from_reply, extract_file_events,
    extraction_from_reply, filter_trace_file, native_version, path_to_cstring, session_from_reply,
    session_name_to_cstring, stack_trace_status_from_native, status_to_result,
    write_minimal_file_trace, EtwAdapterInfo, EtwCall, EtwCapabilities, EtwError,
    EtwEventExtractionResult, EtwFileSession, EtwPresetFlags, EtwStackTraceStatus, ExtractionReply,
    InfoReply, NativeVersion, RootPid, StackTraceReply, StartReply, StatusReply, VersionReply,
};
use crate::etw_sys::{DA_EtwSessionHandle, DA_EtwStackTraceStatus};
use crate::etw_sys;
use crate::laws;
use crate::laws::text::all_white;
use crate::laws::worker::can_be_handed_on;
use crate::native::last_error_text;
use crate::path;
use crate::path::HostPath;
use vstd::prelude::*;
use vstd::string::*;
use vstd::utf8::*;

verus! {

/// The path can be handed to the native adapter.
pub open spec fn usable(given: path::PathView) -> bool {
    given.text.len() > 0 && given.raw is None && !encode_utf8(given.text).contains(0u8)
}

/// The native form tells whether a process was given, and which.
pub open spec fn roots_at(root: RootPid, pid: Option<u32>) -> bool {
    match pid {
        Some(wanted) => root.present == 1 && root.pid == wanted,
        None => root.present == 0 && root.pid == 0,
    }
}

/// A trace is started under its name, to its file, for the families that are
/// wanted.
pub proof fn law_traces_are_started_as_asked(
    name: &str,
    trace: HostPath,
    families: EtwPresetFlags,
    started: Result<EtwCall, EtwError>,
    minimal: Result<EtwCall, EtwError>,
)
    requires
        call_ensures(EtwFileSession::start, (name, &trace, families), started),
        call_ensures(write_minimal_file_trace, (name, &trace, families), minimal),
    ensures
        started is Ok <==> can_be_handed_on(name@) && usable(trace@),
        minimal is Ok <==> can_be_handed_on(name@) && usable(trace@),
        started matches Ok(call) ==> (call matches EtwCall::StartFileTrace {
            session_name,
            trace_path,
            preset_flags,
        } && session_name@ == encode_utf8(name@) && trace_path@ == encode_utf8(trace@.text)
            && preset_flags == families.value()),
        minimal matches Ok(call) ==> (call matches EtwCall::WriteMinimalFileTrace {
            session_name,
            trace_path,
            preset_flags,
        } && session_name@ == encode_utf8(name@) && trace_path@ == encode_utf8(trace@.text)
            && preset_flags == families.value()),
        all_white(name@) ==> started == Err::<EtwCall, EtwError>(EtwError::EmptySessionName)
            && minimal == Err::<EtwCall, EtwError>(EtwError::EmptySessionName),
        can_be_handed_on(name@) && trace@.text.len() == 0 ==> started == Err::<EtwCall, EtwError>(
            EtwError::EmptyTracePath,
        ) && minimal == Err::<EtwCall, EtwError>(EtwError::EmptyTracePath),
{
    laws::text::lemma_blank_is_white(name@);
}

/// Events are extracted from the trace that is named, to the directory that is
/// named, for the families and the process that are wanted.
pub proof fn law_events_are_extracted_as_asked(
    trace: HostPath,
    events: HostPath,
    families: EtwPresetFlags,
    pid: Option<u32>,
    outcome: Result<EtwCall, EtwError>,
)
    requires
        call_ensures(extract_file_events, (&trace, &events, families, pid), outcome),
    ensures
        outcome is Ok <==> usable(trace@) && usable(events@),
        outcome matches Ok(call) ==> (call matches EtwCall::ExtractFileEvents {
            trace_path,
            events_dir,
            preset_flags,
            root_pid,
        } && trace_path@ == encode_utf8(trace@.text) && events_dir@ == encode_utf8(events@.text)
            && preset_flags == families.value() && roots_at(root_pid, pid)),
{
}

/// A trace is filtered from the one file to the other, and never the other way
/// round.
pub proof fn law_traces_are_filtered_as_asked(
    input: HostPath,
    output: HostPath,
    families: EtwPresetFlags,
    pid: Option<u32>,
    outcome: Result<EtwCall, EtwError>,
)
    requires
        call_ensures(filter_trace_file, (&input, &output, families, pid), outcome),
    ensures
        outcome is Ok <==> usable(input@) && usable(output@),
        outcome matches Ok(call) ==> (call matches EtwCall::FilterTraceFile {
            input_trace_path,
            output_trace_path,
            preset_flags,
            root_pid,
        } && input_trace_path@ == encode_utf8(input@.text) && output_trace_path@ == encode_utf8(
            output@.text,
        ) && preset_flags == families.value() && roots_at(root_pid, pid)),
{
}

/// Events of a running session are written by its own handle.
pub proof fn law_consumers_read_their_session(
    session: EtwFileSession,
    events: HostPath,
    families: EtwPresetFlags,
    pid: Option<u32>,
    outcome: Result<EtwCall, EtwError>,
)
    requires
        call_ensures(
            EtwFileSession::start_realtime_consumer,
            (&session, &events, families, pid),
            outcome,
        ),
    ensures
        outcome is Ok <==> usable(events@),
        outcome matches Ok(call) ==> (call matches EtwCall::StartRealtimeConsumer {
            handle,
            events_dir,
            preset_flags,
            root_pid,
        } && handle == session.handle_value() && events_dir@ == encode_utf8(events@.text)
            && preset_flags == families.value() && roots_at(root_pid, pid)),
{
}

/// Each family has a bit of its own, and all of them together are every
/// family.
pub proof fn law_families_have_bits_of_their_own(
    process: EtwPresetFlags,
    thread: EtwPresetFlags,
    image: EtwPresetFlags,
    file: EtwPresetFlags,
    registry: EtwPresetFlags,
    network: EtwPresetFlags,
    all: EtwPresetFlags,
    empty: EtwPresetFlags,
)
    requires
        call_ensures(EtwPresetFlags::process, (), process),
        call_ensures(EtwPresetFlags::thread, (), thread),
        call_ensures(EtwPresetFlags::image, (), image),
        call_ensures(EtwPresetFlags::file, (), file),
        call_ensures(EtwPresetFlags::registry, (), registry),
        call_ensures(EtwPresetFlags::network, (), network),
        call_ensures(EtwPresetFlags::all, (), all),
        call_ensures(EtwPresetFlags::empty, (), empty),
    ensures
        process.value() == 1,
        thread.value() == 2,
        image.value() == 4,
        file.value() == 8,
        registry.value() == 16,
        network.value() == 32,
        all.value() == process.value() + thread.value() + image.value() + file.value()
            + registry.value() + network.value(),
        empty.value() == 0,
{
    assert(1u32 | 2 | 4 | 8 | 16 | 32 == 63) by (bit_vector);
}

/// Adding families keeps those that were there and adds those of the other
/// set, and no more.
pub proof fn law_added_families_are_in_the_set(
    flags: &mut EtwPresetFlags,
    other: EtwPresetFlags,
    family: u32,
)
    requires
        call_ensures(EtwPresetFlags::insert, (flags, other), ()),
    ensures
        final(flags).value() & family != 0 <==> old(flags).value() & family != 0 || other.value()
            & family != 0,
{
    crate::etw::law_inserted_families_are_the_union(old(flags).value(), other.value(), family);
}

/// A capability is told where its own bit is set.
pub proof fn law_capabilities_are_told_by_their_bits(flags: u32, told: EtwCapabilities)
    requires
        call_ensures(capabilities_from_flags, (flags,), told),
    ensures
        told.realtime_consume <==> (flags / 1) % 2 == 1,
        told.file_trace <==> (flags / 2) % 2 == 1,
        told.process_tree_filter <==> (flags / 4) % 2 == 1,
        told.event_stack_trace <==> (flags / 8) % 2 == 1,
{
    assert((flags & 1 != 0) == ((flags / 1) % 2 == 1)) by (bit_vector);
    assert((flags & 2 != 0) == ((flags / 2) % 2 == 1)) by (bit_vector);
    assert((flags & 4 != 0) == ((flags / 4) % 2 == 1)) by (bit_vector);
    assert((flags & 8 != 0) == ((flags / 8) % 2 == 1)) by (bit_vector);
}

/// The status of stacks is told as the native adapter has it, each in its
/// place.
pub proof fn law_stack_status_is_told(native: DA_EtwStackTraceStatus, told: EtwStackTraceStatus)
    requires
        call_ensures(stack_trace_status_from_native, (native,), told),
    ensures
        told.requested <==> native.requested != 0,
        told.enabled <==> native.enabled != 0,
        told.provider_stack_enabled <==> native.provider_stack_enabled != 0,
        told.kernel_stack_enabled <==> native.kernel_stack_enabled != 0,
        told.provider_stack_warning_count == native.provider_stack_warning_count,
        told.kernel_stack_warning_count == native.kernel_stack_warning_count,
{
}

/// What an extraction counted is told, each count in its place, and a failure
/// carries its status.
pub proof fn law_extractions_are_counted(
    reply: Option<ExtractionReply>,
    outcome: Result<EtwEventExtractionResult, EtwError>,
)
    requires
        call_ensures(extraction_from_reply, (reply,), outcome),
    ensures
        outcome is Ok <==> reply is Some && reply->0.outcome.status == 0,
        outcome matches Ok(found) ==> {
            &&& found.events_written == reply->0.result.events_written
            &&& found.files_written == reply->0.result.files_written
            &&& found.skipped_events == reply->0.result.skipped_events
        },
        reply matches Some(given) ==> (given.outcome.status != 0 ==> (outcome matches Err(
            EtwError::Native { status, .. },
        ) && status == given.outcome.status)),
        reply is None ==> outcome == Err::<EtwEventExtractionResult, EtwError>(
            EtwError::UnsupportedPlatform,
        ),
{
}

/// A session is the one that the native adapter started, and stops where it
/// says so; its handle is given back once.
pub proof fn law_trace_sessions_are_started_and_stopped(
    reply: Option<StartReply>,
    outcome: Result<EtwFileSession, EtwError>,
    session: EtwFileSession,
    stopped: Option<StatusReply>,
    end: Result<(), EtwError>,
)
    requires
        call_ensures(session_from_reply, (reply,), outcome),
        call_ensures(EtwFileSession::stop, (session, stopped), end),
    ensures
        outcome is Ok <==> reply is Some && reply->0.outcome.status == 0 && reply->0.handle.value
            != 0,
        outcome matches Ok(opened) ==> opened.handle_value() == reply->0.handle,
        end is Ok <==> stopped is Some && stopped->0.status == 0,
{
}

/// A native trace session is given back once.
pub proof fn law_trace_sessions_are_given_back_once(
    session: &mut EtwFileSession,
    handle: Option<DA_EtwSessionHandle>,
)
    requires
        call_ensures(EtwFileSession::release, (session,), handle),
    ensures
        final(session).handle_value().value == 0,
        old(session).handle_value().value == 0 <==> handle is None,
        handle matches Some(given) ==> given == old(session).handle_value(),
{
}

/// What the adapter says of itself is told: its version, number by number, and
/// what it can do.
pub proof fn law_adapters_are_told(
    version: Option<VersionReply>,
    info: Option<InfoReply>,
    outcome: Result<EtwAdapterInfo, EtwError>,
)
    requires
        call_ensures(adapter_info, (version, info), outcome),
    ensures
        outcome is Ok <==> version is Some && version->0.outcome.status == 0 && info is Some
            && info->0.outcome.status == 0,
        outcome matches Ok(told) ==> {
            let flags = info->0.info.capability_flags;
            &&& told.version.abi_major == version->0.version.abi_major
            &&& told.version.abi_minor == version->0.version.abi_minor
            &&& told.version.abi_patch == version->0.version.abi_patch
            &&& told.capabilities.realtime_consume <==> (flags / 1) % 2 == 1
            &&& told.capabilities.file_trace <==> (flags / 2) % 2 == 1
            &&& told.capabilities.process_tree_filter <==> (flags / 4) % 2 == 1
            &&& told.capabilities.event_stack_trace <==> (flags / 8) % 2 == 1
        },
{
    if let Some(given) = info {
        let flags = given.info.capability_flags;
        assert((flags & 1 != 0) == ((flags / 1) % 2 == 1)) by (bit_vector);
        assert((flags & 2 != 0) == ((flags / 2) % 2 == 1)) by (bit_vector);
        assert((flags & 4 != 0) == ((flags / 4) % 2 == 1)) by (bit_vector);
        assert((flags & 8 != 0) == ((flags / 8) % 2 == 1)) by (bit_vector);
    }
}

/// A call succeeded where its status is zero; the error of another carries its
/// status and what the adapter said last.
pub proof fn law_trace_statuses_are_judged(
    reply: StatusReply,
    outcome: Result<(), EtwError>,
    given: Option<StatusReply>,
    done: Result<(), EtwError>,
    message: String,
)
    requires
        call_ensures(status_to_result, (&reply,), outcome),
        call_ensures(done_from_reply, (given,), done),
        call_ensures(last_error_text, ("da_etw_last_error", &reply.last_error), message),
    ensures
        outcome is Ok <==> reply.status == 0,
        outcome matches Err(error) ==> (error matches EtwError::Native { status, message: told }
            && status == reply.status && told@ == message@),
        done is Ok <==> given is Some && given->0.status == 0,
        given is None ==> done == Err::<(), EtwError>(EtwError::UnsupportedPlatform),
{
}

/// A session name and a path are handed on as their bytes, where they are not
/// empty and hold no NUL.
pub proof fn law_names_are_handed_on_as_bytes(
    name: &str,
    name_bytes: Result<Vec<u8>, EtwError>,
    given: HostPath,
    path_bytes: Result<Vec<u8>, EtwError>,
)
    requires
        call_ensures(session_name_to_cstring, (name,), name_bytes),
        call_ensures(path_to_cstring, (&given,), path_bytes),
    ensures
        name_bytes is Ok <==> !all_white(name@) && !encode_utf8(name@).contains(0u8),
        name_bytes matches Ok(bytes) ==> bytes@ == encode_utf8(name@),
        all_white(name@) ==> name_bytes == Err::<Vec<u8>, EtwError>(EtwError::EmptySessionName),
        path_bytes is Ok <==> given@.text.len() > 0 && given@.raw is None && !encode_utf8(
            given@.text,
        ).contains(0u8),
        path_bytes matches Ok(bytes) ==> bytes@ == encode_utf8(given@.text),
        given@.text.len() == 0 ==> path_bytes == Err::<Vec<u8>, EtwError>(
            EtwError::EmptyTracePath,
        ),
        given@.text.len() > 0 && given@.raw is Some ==> path_bytes == Err::<Vec<u8>, EtwError>(
            EtwError::NonUtf8Path,
        ),
{
    laws::text::lemma_blank_is_white(name@);
}

/// A session tells of stacks what the native adapter told of them.
pub proof fn law_sessions_tell_of_stacks(
    session: EtwFileSession,
    reply: Option<StackTraceReply>,
    status: Result<EtwStackTraceStatus, EtwError>,
    told: EtwStackTraceStatus,
    flags: EtwPresetFlags,
    bits: u32,
)
    requires
        call_ensures(EtwFileSession::stack_trace_status, (&session, reply), status),
        reply is Some ==> call_ensures(
            stack_trace_status_from_native,
            (reply->0.status,),
            told,
        ),
        call_ensures(EtwPresetFlags::bits, (flags,), bits),
    ensures
        status is Ok <==> reply is Some && reply->0.outcome.status == 0,
        status matches Ok(found) ==> found == told,
        reply is None ==> status == Err::<EtwStackTraceStatus, EtwError>(
            EtwError::UnsupportedPlatform,
        ),
        bits == flags.value(),
{
}

/// A NUL is told of by its first position.
pub proof fn law_nuls_are_told_by_their_position(
    name: &str,
    name_bytes: Result<Vec<u8>, EtwError>,
    given: HostPath,
    path_bytes: Result<Vec<u8>, EtwError>,
)
    requires
        call_ensures(session_name_to_cstring, (name,), name_bytes),
        call_ensures(path_to_cstring, (&given,), path_bytes),
    ensures
        name_bytes matches Err(EtwError::InteriorNul(at)) ==> is_first_nul(
            encode_utf8(name@),
            at as int,
        ),
        path_bytes matches Err(EtwError::InteriorNul(at)) ==> is_first_nul(
            encode_utf8(given@.text),
            at as int,
        ),
{
}

/// The first NUL of the bytes stands there.
pub open spec fn is_first_nul(bytes: Seq<u8>, at: int) -> bool {
    0 <= at < bytes.len() && bytes[at] == 0 && forall|k: int| 0 <= k < at ==> bytes[k] != 0
}

/// Of two paths the first that cannot be handed on is refused, by what is
/// wrong with it.
pub proof fn law_the_first_wrong_path_is_refused(
    one: HostPath,
    other: HostPath,
    families: EtwPresetFlags,
    pid: Option<u32>,
    one_bytes: Result<Vec<u8>, EtwError>,
    other_bytes: Result<Vec<u8>, EtwError>,
    extracted: Result<EtwCall, EtwError>,
    filtered: Result<EtwCall, EtwError>,
)
    requires
        call_ensures(path_to_cstring, (&one,), one_bytes),
        call_ensures(path_to_cstring, (&other,), other_bytes),
        call_ensures(extract_file_events, (&one, &other, families, pid), extracted),
        call_ensures(filter_trace_file, (&one, &other, families, pid), filtered),
    ensures
        one_bytes matches Err(error) ==> extracted == Err::<EtwCall, EtwError>(error) && filtered
            == Err::<EtwCall, EtwError>(error),
        one_bytes is Ok && other_bytes is Err ==> extracted == Err::<EtwCall, EtwError>(
            other_bytes->Err_0,
        ) && filtered == Err::<EtwCall, EtwError>(other_bytes->Err_0),
{
}

/// A name that cannot be handed on is refused before the path.
pub proof fn law_the_name_is_refused_before_the_path(
    name: &str,
    trace: HostPath,
    families: EtwPresetFlags,
    name_bytes: Result<Vec<u8>, EtwError>,
    path_bytes: Result<Vec<u8>, EtwError>,
    started: Result<EtwCall, EtwError>,
    minimal: Result<EtwCall, EtwError>,
)
    requires
        call_ensures(session_name_to_cstring, (name,), name_bytes),
        call_ensures(path_to_cstring, (&trace,), path_bytes),
        call_ensures(EtwFileSession::start, (name, &trace, families), started),
        call_ensures(write_minimal_file_trace, (name, &trace, families), minimal),
    ensures
        name_bytes matches Err(error) ==> started == Err::<EtwCall, EtwError>(error) && minimal
            == Err::<EtwCall, EtwError>(error),
        name_bytes is Ok && path_bytes is Err ==> started == Err::<EtwCall, EtwError>(
            path_bytes->Err_0,
        ) && minimal == Err::<EtwCall, EtwError>(path_bytes->Err_0),
{
}

/// The version is the one that the native adapter told, number by number; a
/// host without it has none.
pub proof fn law_trace_versions_are_told(
    reply: Option<VersionReply>,
    outcome: Result<NativeVersion, EtwError>,
)
    requires
        call_ensures(native_version, (reply,), outcome),
    ensures
        outcome is Ok <==> reply is Some && reply->0.outcome.status == 0,
        outcome matches Ok(told) ==> {
            &&& told.abi_major == reply->0.version.abi_major
            &&& told.abi_minor == reply->0.version.abi_minor
            &&& told.abi_patch == reply->0.version.abi_patch
        },
        reply is None ==> outcome == Err::<NativeVersion, EtwError>(
            EtwError::UnsupportedPlatform,
        ),
        reply matches Some(given) ==> (given.outcome.status != 0 ==> (outcome matches Err(
            EtwError::Native { status, .. },
        ) && status == given.outcome.status)),
{
}

/// A status of stacks that was not filled in says that nothing was asked for.
pub proof fn law_unfilled_stack_status_says_nothing(
    native: DA_EtwStackTraceStatus,
    told: EtwStackTraceStatus,
)
    requires
        call_ensures(DA_EtwStackTraceStatus::default, (), native),
        call_ensures(stack_trace_status_from_native, (native,), told),
    ensures
        native.struct_size == 0 && native.flags == 0,
        !told.requested && !told.enabled,
        !told.provider_stack_enabled && !told.kernel_stack_enabled,
        told.provider_stack_warning_count == 0 && told.kernel_stack_warning_count == 0,
{
}

/// The statuses and capabilities of the native interface have the numbers that
/// the adapter was built with.
pub proof fn law_trace_numbers_are_the_adapters()
    ensures
        etw_sys::DA_ETW_OK == 0,
        etw_sys::DA_ETW_ERR_INVALID_ARGUMENT == 1,
        etw_sys::DA_ETW_ERR_NOT_IMPLEMENTED == 2,
        etw_sys::DA_ETW_ERR_BUFFER_TOO_SMALL == 3,
        etw_sys::DA_ETW_ERR_INTERNAL == 500,
        etw_sys::DA_ETW_CAP_REALTIME_CONSUME == 1,
        etw_sys::DA_ETW_CAP_FILE_TRACE == 2,
        etw_sys::DA_ETW_CAP_PROCESS_TREE_FILTER == 4,
        etw_sys::DA_ETW_CAP_EVENT_STACK_TRACE == 8,
{
}

} // verus!
