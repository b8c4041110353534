//! Laws on the debugger engine.

use crate::dbgeng::{
    bytes_from_reply, command_to_cstring, native_version, path_to_cstring, session_from_reply,
    session_from_status, status_to_result, symbol_path_to_cstring, text_from_reply,
    text_view_to_bytes, text_view_to_string, DbgEngCall, DbgEngError, DbgEngSession, NativeVersion,
    OpenReply, StatusReply, TextReply, VersionReply,
};
use crate::laws::text::all_white;
use crate::laws::worker::{bytes_given, can_be_handed_on, gave};
use crate::native::{error_buffer_len, last_error_text, LastError, LentText};
use crate::path::HostPath;
use crate::{dbgeng_sys, laws, native, text};
use vstd::prelude::*;
use vstd::string::*;
use vstd::utf8::*;

verus! {

/// A session runs a command, adds symbols and reads memory by its own handle,
/// with what it was given.
pub proof fn law_sessions_use_their_handle(
    session: DbgEngSession,
    input: &str,
    reload: bool,
    address: u64,
    length: u32,
    run: Result<DbgEngCall, DbgEngError>,
    symbols: Result<DbgEngCall, DbgEngError>,
    read: Result<DbgEngCall, DbgEngError>,
)
    requires
        call_ensures(DbgEngSession::execute, (&session, input), run),
        call_ensures(DbgEngSession::add_symbols, (&session, input, reload), symbols),
        call_ensures(DbgEngSession::read_memory, (&session, address, length), read),
    ensures
        run is Ok <==> can_be_handed_on(input@),
        run matches Ok(call) ==> (call matches DbgEngCall::Execute { handle, command } && handle
            == session.handle_value() && command@ == encode_utf8(input@)),
        run matches Err(error) ==> (error is EmptyCommand <==> all_white(input@)),
        symbols is Ok <==> can_be_handed_on(input@),
        symbols matches Ok(call) ==> (call matches DbgEngCall::AddSymbols {
            handle,
            symbol_path,
            reload: flag,
        } && handle == session.handle_value() && symbol_path@ == encode_utf8(input@) && flag
            == if reload {
            1i32
        } else {
            0i32
        }),
        symbols matches Err(error) ==> (error is EmptySymbolPath <==> all_white(input@)),
        read is Ok <==> length > 0,
        read matches Err(error) ==> error is EmptyMemoryRead,
        read matches Ok(call) ==> (call matches DbgEngCall::ReadVirtual {
            handle,
            address: from,
            length: count,
        } && handle == session.handle_value() && from == address && count == length),
{
    laws::text::lemma_blank_is_white(input@);
}

/// A dump is opened by its path and a process by its number.
pub proof fn law_targets_are_opened(
    path: HostPath,
    pid: u32,
    dump: Result<DbgEngCall, DbgEngError>,
    process: Result<DbgEngCall, DbgEngError>,
)
    requires
        call_ensures(DbgEngSession::open_dump, (&path,), dump),
        call_ensures(DbgEngSession::attach, (pid,), process),
    ensures
        dump matches Ok(call) ==> (call matches DbgEngCall::OpenDump { path: bytes } && bytes@
            == encode_utf8(path@.text)),
        dump is Ok <==> path@.text.len() > 0 && path@.raw is None && !encode_utf8(
            path@.text,
        ).contains(0u8),
        process is Ok <==> pid > 0,
        process matches Err(error) ==> error is InvalidPid,
        process matches Ok(call) ==> (call matches DbgEngCall::AttachProcess { pid: to } && to
            == pid),
{
}

/// A native session is given back once: the first time its handle is asked
/// for, and never again.
pub proof fn law_sessions_are_given_back_once(
    session: &mut DbgEngSession,
    handle: Option<u64>,
)
    requires
        call_ensures(DbgEngSession::release, (session,), handle),
    ensures
        final(session).handle_value() == 0,
        old(session).handle_value() == 0 <==> handle is None,
        handle matches Some(given) ==> given == old(session).handle_value(),
{
}

/// A session is the one that the native adapter opened, and there is none
/// where it opened none.
pub proof fn law_opened_sessions_have_their_handle(
    reply: Option<OpenReply>,
    outcome: Result<DbgEngSession, DbgEngError>,
)
    requires
        call_ensures(session_from_reply, (reply,), outcome),
    ensures
        outcome is Ok <==> reply is Some && reply->0.outcome.status == 0 && reply->0.handle != 0,
        outcome matches Ok(session) ==> session.handle_value() == reply->0.handle,
        reply matches Some(given) ==> (given.outcome.status != 0 ==> (outcome matches Err(
            DbgEngError::Native { status, .. },
        ) && status == given.outcome.status)),
{
}

/// What the native adapter gave is given as it is, as bytes and as a text.
pub proof fn law_replies_are_given(
    reply: Option<TextReply>,
    bytes: Result<Vec<u8>, DbgEngError>,
    words: Result<String, DbgEngError>,
)
    requires
        call_ensures(bytes_from_reply, (reply,), bytes),
        call_ensures(text_from_reply, (reply,), words),
    ensures
        bytes is Ok <==> gave(reply),
        words is Ok <==> gave(reply),
        bytes matches Ok(found) ==> found@ == bytes_given(reply),
        words matches Ok(found) ==> found@ == text::lossy_text(bytes_given(reply)),
{
}

/// The version is the one that the native adapter told, each number in its
/// place.
pub proof fn law_versions_are_told(
    reply: Option<VersionReply>,
    outcome: Result<NativeVersion, DbgEngError>,
)
    requires
        call_ensures(native_version, (reply,), outcome),
    ensures
        outcome is Ok <==> reply is Some && reply->0.outcome.status == 0,
        outcome matches Ok(found) ==> found.abi_major == reply->0.version.abi_major
            && found.abi_minor == reply->0.version.abi_minor && found.abi_patch
            == reply->0.version.abi_patch,
{
}

/// The last error of an adapter is the text before the first NUL of what it
/// filled in.
pub proof fn law_errors_end_at_the_first_nul(
    function: &str,
    reply: LastError,
    message: String,
    end: int,
)
    requires
        call_ensures(last_error_text, (function, &reply), message),
        reply.status == 0,
        0 <= end < reply.buffer@.len(),
        reply.buffer@[end] == 0,
        forall|i: int| 0 <= i < end ==> reply.buffer@[i] != 0,
    ensures
        message@ == text::lossy_text(reply.buffer@.take(end)),
{
    lemma_until(reply.buffer@, end);
}

proof fn lemma_until(bytes: Seq<u8>, end: int)
    requires
        0 <= end < bytes.len(),
        bytes[end] == 0,
        forall|i: int| 0 <= i < end ==> bytes[i] != 0,
    ensures
        native::until_nul(bytes) == bytes.take(end),
    decreases end,
{
    if end > 0 {
        let rest = bytes.drop_first();
        assert forall|i: int| 0 <= i < end - 1 implies rest[i] != 0 by {
            assert(rest[i] == bytes[i + 1]);
        }
        lemma_until(rest, end - 1);
        assert(bytes.take(end) =~= seq![bytes[0]] + rest.take(end - 1));
    } else {
        assert(bytes.take(0) =~= seq![]);
    }
}

/// The buffer for an error holds what is needed, and never nothing.
pub proof fn law_error_buffers_are_large_enough(required: usize, len: usize)
    requires
        call_ensures(error_buffer_len, (required,), len),
    ensures
        len >= required,
        len >= 1,
        required >= 1 ==> len == required,
{
}

/// A call succeeded where its status is zero; the error of another carries its
/// status.
pub proof fn law_statuses_are_judged(
    reply: StatusReply,
    outcome: Result<(), DbgEngError>,
    open: OpenReply,
    session: Result<DbgEngSession, DbgEngError>,
    message: String,
)
    requires
        call_ensures(status_to_result, (&reply,), outcome),
        call_ensures(session_from_status, (open,), session),
        call_ensures(last_error_text, ("da_dbgeng_last_error", &reply.last_error), message),
    ensures
        outcome is Ok <==> reply.status == 0,
        outcome matches Err(error) ==> (error matches DbgEngError::Native { status, message: told }
            && status == reply.status && told@ == message@),
        session is Ok <==> open.outcome.status == 0 && open.handle != 0,
        session matches Ok(opened) ==> opened.handle_value() == open.handle,
        open.outcome.status == 0 && open.handle == 0 ==> session == Err::<
            DbgEngSession,
            DbgEngError,
        >(DbgEngError::NullSessionHandle),
{
}

/// A path, a command and a symbol path are handed on as their bytes, where
/// they are not empty and hold no NUL.
pub proof fn law_texts_are_handed_on_as_bytes(
    path: HostPath,
    path_bytes: Result<Vec<u8>, DbgEngError>,
    command: &str,
    command_bytes: Result<Vec<u8>, DbgEngError>,
    symbols: &str,
    symbol_bytes: Result<Vec<u8>, DbgEngError>,
)
    requires
        call_ensures(path_to_cstring, (&path,), path_bytes),
        call_ensures(command_to_cstring, (command,), command_bytes),
        call_ensures(symbol_path_to_cstring, (symbols,), symbol_bytes),
    ensures
        path_bytes is Ok <==> path@.text.len() > 0 && path@.raw is None && !encode_utf8(
            path@.text,
        ).contains(0u8),
        path_bytes matches Ok(bytes) ==> bytes@ == encode_utf8(path@.text),
        path@.text.len() == 0 ==> path_bytes == Err::<Vec<u8>, DbgEngError>(DbgEngError::EmptyPath),
        path@.text.len() > 0 && path@.raw is Some ==> path_bytes == Err::<Vec<u8>, DbgEngError>(
            DbgEngError::NonUtf8Path,
        ),
        command_bytes is Ok <==> !all_white(command@) && !encode_utf8(command@).contains(0u8),
        command_bytes matches Ok(bytes) ==> bytes@ == encode_utf8(command@),
        all_white(command@) ==> command_bytes == Err::<Vec<u8>, DbgEngError>(
            DbgEngError::EmptyCommand,
        ),
        symbol_bytes is Ok <==> !all_white(symbols@) && !encode_utf8(symbols@).contains(0u8),
        symbol_bytes matches Ok(bytes) ==> bytes@ == encode_utf8(symbols@),
        all_white(symbols@) ==> symbol_bytes == Err::<Vec<u8>, DbgEngError>(
            DbgEngError::EmptySymbolPath,
        ),
{
    laws::text::lemma_blank_is_white(command@);
    laws::text::lemma_blank_is_white(symbols@);
    if let Err(DbgEngError::InteriorNul(at)) = path_bytes {
        if path@.text.len() > 0 && path@.raw is None {
            text::lemma_first_nul(path@.text, at as int);
        }
    }
    if let Err(DbgEngError::InteriorNul(at)) = command_bytes {
        if !all_white(command@) {
            text::lemma_first_nul(command@, at as int);
        }
    }
    if let Err(DbgEngError::InteriorNul(at)) = symbol_bytes {
        if !all_white(symbols@) {
            text::lemma_first_nul(symbols@, at as int);
        }
    }
}

/// A lent text is read as the bytes that it points to; one that points to
/// none must be empty.
pub proof fn law_lent_texts_are_read(
    view: LentText,
    bytes: Result<Vec<u8>, DbgEngError>,
    words: Result<String, DbgEngError>,
)
    requires
        call_ensures(text_view_to_bytes, (view,), bytes),
        call_ensures(text_view_to_string, (view,), words),
    ensures
        bytes is Err <==> view.data is None && view.len > 0,
        words is Err <==> view.data is None && view.len > 0,
        bytes matches Err(error) ==> error == DbgEngError::NullText,
        words matches Err(error) ==> error == DbgEngError::NullText,
        view.len == 0 ==> bytes is Ok && bytes->Ok_0@.len() == 0,
        view.len > 0 && view.data is Some ==> bytes is Ok && bytes->Ok_0@ == view.data->0@,
        bytes is Ok ==> words is Ok && words->Ok_0@ == text::lossy_text(bytes->Ok_0@),
{
    if let Ok(found) = bytes {
        if found@.len() == 0 {
            assert(found@ =~= seq![]);
        }
    }
}

/// An adapter that cannot say its last error is told of by the function that
/// was asked and its status; a text without a NUL is read to its end.
pub proof fn law_unsaid_errors_are_told(function: &str, reply: LastError, message: String)
    requires
        call_ensures(last_error_text, (function, &reply), message),
    ensures
        reply.status != 0 ==> message@ == function@ + " failed with status "@
            + text::signed_decimal(reply.status as int),
        reply.status == 0 && (forall|i: int|
            0 <= i < reply.buffer@.len() ==> #[trigger] reply.buffer@[i] != 0) ==> message@
            == text::lossy_text(reply.buffer@),
{
    if forall|i: int| 0 <= i < reply.buffer@.len() ==> #[trigger] reply.buffer@[i] != 0 {
        lemma_no_nul(reply.buffer@);
    }
}

proof fn lemma_no_nul(bytes: Seq<u8>)
    requires
        forall|i: int| 0 <= i < bytes.len() ==> #[trigger] bytes[i] != 0,
    ensures
        native::until_nul(bytes) == bytes,
    decreases bytes.len(),
{
    if bytes.len() > 0 {
        let rest = bytes.drop_first();
        assert forall|i: int| 0 <= i < rest.len() implies #[trigger] rest[i] != 0 by {
            assert(rest[i] == bytes[i + 1]);
        }
        lemma_no_nul(rest);
        assert(seq![bytes[0]] + rest =~= bytes);
    }
}

/// A NUL is told of by its first position.
pub proof fn law_nuls_are_told_by_their_position(
    path: HostPath,
    path_bytes: Result<Vec<u8>, DbgEngError>,
    command: &str,
    command_bytes: Result<Vec<u8>, DbgEngError>,
    symbols: &str,
    symbol_bytes: Result<Vec<u8>, DbgEngError>,
)
    requires
        call_ensures(path_to_cstring, (&path,), path_bytes),
        call_ensures(command_to_cstring, (command,), command_bytes),
        call_ensures(symbol_path_to_cstring, (symbols,), symbol_bytes),
    ensures
        path_bytes matches Err(DbgEngError::InteriorNul(at)) ==> laws::etw::is_first_nul(
            encode_utf8(path@.text),
            at as int,
        ),
        command_bytes matches Err(DbgEngError::InteriorNul(at)) ==> laws::etw::is_first_nul(
            encode_utf8(command@),
            at as int,
        ),
        symbol_bytes matches Err(DbgEngError::InteriorNul(at)) ==> laws::etw::is_first_nul(
            encode_utf8(symbols@),
            at as int,
        ),
{
}

/// What cannot be handed on is refused by what is wrong with it.
pub proof fn law_refusals_are_those_of_the_texts(
    session: DbgEngSession,
    path: HostPath,
    input: &str,
    reload: bool,
    path_bytes: Result<Vec<u8>, DbgEngError>,
    command_bytes: Result<Vec<u8>, DbgEngError>,
    symbol_bytes: Result<Vec<u8>, DbgEngError>,
    dump: Result<DbgEngCall, DbgEngError>,
    run: Result<DbgEngCall, DbgEngError>,
    symbols: Result<DbgEngCall, DbgEngError>,
)
    requires
        call_ensures(path_to_cstring, (&path,), path_bytes),
        call_ensures(command_to_cstring, (input,), command_bytes),
        call_ensures(symbol_path_to_cstring, (input,), symbol_bytes),
        call_ensures(DbgEngSession::open_dump, (&path,), dump),
        call_ensures(DbgEngSession::execute, (&session, input), run),
        call_ensures(DbgEngSession::add_symbols, (&session, input, reload), symbols),
    ensures
        path_bytes matches Err(error) ==> dump == Err::<DbgEngCall, DbgEngError>(error),
        command_bytes matches Err(error) ==> run == Err::<DbgEngCall, DbgEngError>(error),
        symbol_bytes matches Err(error) ==> symbols == Err::<DbgEngCall, DbgEngError>(error),
{
}

/// The statuses of the native interface have the numbers that the adapter was
/// built with.
pub proof fn law_engine_numbers_are_the_adapters()
    ensures
        dbgeng_sys::DA_OK == 0,
        dbgeng_sys::DA_ERR_INVALID_ARGUMENT == 1,
        dbgeng_sys::DA_ERR_BUFFER_TOO_SMALL == 2,
        dbgeng_sys::DA_ERR_INTERNAL == 500,
{
}

} // verus!
