//! Laws on reverse engineering sessions.

use crate::ida::{
    adapter_candidates, core_call, core_result, export_text, find_adapter_path, load_step,
    last_os_error, native_core, native_error, native_lookup, native_version, reply_or_stopped,
    take_text_view, validate_path, warnings_in, CloseOutcome, CommandReply, CoreCall,
    CoreFunctionResult, CoreReply, ErrorReply, ExeLocation, FunctionLookup, HostAction, IdaCommand,
    IdaError, IdaSession, LoadReply, LoadStep, LoadTurn, LookupReply, NativeVersion, SessionEvent,
    SessionOutput, SessionPhase,
};
use crate::ida_sys::{DA_IdaSessionHandle, DA_IdaTextView};
use crate::json::{Json, JsonView};
use crate::laws;
use crate::laws::text::tells;
use crate::path::{HostPath, JoinedPath};
use crate::{ida, ida_sys, json, path, text};
use vstd::prelude::*;
use vstd::string::*;
use vstd::utf8::*;

verus! {

/// The outcome is an error that carries the status.
pub open spec fn failed_with<T>(outcome: Result<T, IdaError>, code: i32) -> bool {
    outcome matches Err(IdaError::Native { status, .. }) && status == code
}

/// A lookup keeps what the native adapter found: the address lies within the
/// function where it did there, and each bound is the native one.
pub proof fn law_lookups_keep_the_native_bounds(
    reply: LookupReply,
    outcome: Result<FunctionLookup, IdaError>,
)
    requires
        call_ensures(native_lookup, (reply,), outcome),
    ensures
        outcome is Ok <==> reply.status == 0,
        reply.status != 0 ==> failed_with(outcome, reply.status),
        outcome matches Ok(found) ==> {
            let native = reply.lookup;
            &&& found.found <==> native.found != 0
            &&& found.function_start == native.function_start
            &&& found.function_end == native.function_end
            &&& native.function_start <= native.ida_ea < native.function_end
                ==> found.function_start <= found.ida_ea < found.function_end
            &&& found.runtime_address == native.runtime_address
            &&& found.runtime_module_base == native.runtime_module_base
            &&& found.ida_image_base == native.ida_image_base
            &&& found.rva == native.rva
            &&& found.ida_ea == native.ida_ea
            &&& native.rva == native.runtime_address - native.runtime_module_base ==> found.rva
                == found.runtime_address - found.runtime_module_base
            &&& native.ida_ea == native.ida_image_base + native.rva ==> found.ida_ea
                == found.ida_image_base + found.rva
            &&& native.function_name.data matches Some(bytes) ==> found.function_name@
                == text::lossy_text(bytes@)
            &&& native.function_name.data is None ==> found.function_name@.len() == 0
        },
{
}

/// A session that is asked for a function asks the native session for the
/// function at those addresses, and answers with what that one found.
pub proof fn law_sessions_look_up_what_is_asked(
    session: IdaSession,
    runtime_address: u64,
    runtime_module_base: u64,
    ida_image_base: u64,
    command: IdaCommand,
    asked: (IdaSession, SessionOutput),
    action: HostAction,
    reply: LookupReply,
    answered: (IdaSession, SessionOutput),
)
    requires
        session.phase is Idle,
        call_ensures(
            IdaSession::lookup_function,
            (runtime_address, runtime_module_base, ida_image_base),
            command,
        ),
        call_ensures(IdaSession::advance, (session, SessionEvent::Command(command)), asked),
        call_ensures(IdaSession::next_action, (&asked.0,), action),
        call_ensures(IdaSession::advance, (asked.0, SessionEvent::LookedUp(reply)), answered),
    ensures
        action matches HostAction::LookUp {
            handle,
            runtime_address: at,
            runtime_module_base: module,
            ida_image_base: image,
        } && handle == session.phase->Idle_handle && at == runtime_address && module
            == runtime_module_base && image == ida_image_base,
        answered.0.phase == session.phase,
        answered.1.reply matches Some(CommandReply::Lookup(outcome)) && (outcome is Ok
            <==> reply.status == 0) && (outcome matches Ok(found) ==> found.function_start
            == reply.lookup.function_start && found.function_end == reply.lookup.function_end
            && found.ida_ea == reply.lookup.ida_ea && found.rva == reply.lookup.rva),
{
}

/// A session that is asked for a core function runs it by its name on the
/// arguments as a document, and answers with the document that came back.
pub proof fn law_sessions_run_the_core_function_asked(
    session: IdaSession,
    function: &str,
    arguments: Json,
    command: IdaCommand,
    asked: (IdaSession, SessionOutput),
    action: HostAction,
    reply: CoreReply,
    answered: (IdaSession, SessionOutput),
)
    requires
        session.phase is Idle,
        call_ensures(IdaSession::core_function, (function, arguments), command),
        call_ensures(IdaSession::advance, (session, SessionEvent::Command(command)), asked),
        asked.0.phase is RunningCore,
        call_ensures(IdaSession::next_action, (&asked.0,), action),
        call_ensures(IdaSession::advance, (asked.0, SessionEvent::CoreReplied(reply)), answered),
    ensures
        action matches HostAction::RunCore { handle, function: named, arguments: given } && handle
            == session.phase->Idle_handle && named@ == encode_utf8(function@) && (
        json::compact_text(arguments@) matches Ok(written) && given@ == encode_utf8(written)),
        answered.0.phase == session.phase,
        answered.1.reply matches Some(CommandReply::Core(outcome)) && (outcome matches Ok(found)
            ==> reply.status == 0 && found.function@ == function@),
{
}

/// A session that is closed closes its native session, and says how that went.
pub proof fn law_sessions_close_their_native_session(
    session: IdaSession,
    command: IdaCommand,
    asked: (IdaSession, SessionOutput),
    action: HostAction,
    status: i32,
    error: ErrorReply,
    closed: (IdaSession, SessionOutput),
    last: HostAction,
)
    requires
        session.phase is Idle,
        call_ensures(IdaSession::close, (), command),
        call_ensures(IdaSession::advance, (session, SessionEvent::Command(command)), asked),
        call_ensures(IdaSession::next_action, (&asked.0,), action),
        call_ensures(
            IdaSession::advance,
            (asked.0, SessionEvent::Closed { status, error }),
            closed,
        ),
        call_ensures(IdaSession::next_action, (&closed.0,), last),
    ensures
        action matches HostAction::CloseSession { handle } && handle
            == session.phase->Idle_handle,
        last is Exit,
        closed.1.reply matches Some(CommandReply::Close(outcome)) && (outcome is Ok <==> status
            == 0) && (status != 0 ==> failed_with(outcome, status)),
{
}

/// A native session that was opened is the one that the session then uses, and
/// one that was not ends the session with the native error.
pub proof fn law_opened_sessions_are_used(
    session: IdaSession,
    status: i32,
    handle: DA_IdaSessionHandle,
    error: ErrorReply,
    opened: (IdaSession, SessionOutput),
    action: HostAction,
)
    requires
        session.phase is Opening,
        call_ensures(
            IdaSession::advance,
            (session, SessionEvent::Opened { status, handle, error }),
            opened,
        ),
        call_ensures(IdaSession::next_action, (&opened.0,), action),
    ensures
        status == 0 ==> action is AwaitCommand && opened.0.phase == (SessionPhase::Idle { handle })
            && opened.1.ready == Some(Ok::<(), IdaError>(())),
        status != 0 ==> action is Exit && (opened.1.ready matches Some(outcome) && failed_with(
            outcome,
            status,
        )),
{
}

/// The host says that what the session waits for is not there.
pub open spec fn reports_missing(phase: SessionPhase, event: SessionEvent) -> bool {
    match event {
        SessionEvent::InstallDir { present } => phase is CheckingInstallDir && !present,
        SessionEvent::Dll { present, .. } => phase is CheckingDll && !present,
        SessionEvent::Loaded(outcome) => phase is Loading && outcome is Err,
        _ => false,
    }
}

/// An install directory or a library that is not there ends the session before
/// anything is loaded.
pub proof fn law_missing_installations_end_the_session(
    session: IdaSession,
    event: SessionEvent,
    turn: (IdaSession, SessionOutput),
    action: HostAction,
)
    requires
        call_ensures(IdaSession::advance, (session, event), turn),
        call_ensures(IdaSession::next_action, (&turn.0,), action),
        reports_missing(session.phase, event),
    ensures
        action is Exit,
        turn.1.ready matches Some(Err(_)),
        turn.1.reply is None,
{
}

/// A session is opened only with two paths that are not empty and hold no NUL,
/// and keeps each in its own place; the path that is wrong is named.
pub proof fn law_sessions_keep_their_paths(
    install_dir: HostPath,
    database_path: HostPath,
    supported: bool,
    outcome: Result<IdaSession, IdaError>,
)
    requires
        call_ensures(IdaSession::open, (install_dir, database_path, supported), outcome),
    ensures
        outcome is Ok <==> supported && install_dir@.text.len() > 0 && !install_dir@.text.contains(
            '\0',
        ) && database_path@.text.len() > 0 && !database_path@.text.contains('\0'),
        outcome matches Ok(session) ==> session.install_dir == install_dir && session.database_path
            == database_path,
        install_dir@.text.len() == 0 ==> outcome == Err::<IdaSession, IdaError>(
            IdaError::EmptyPath { field: "install_dir" },
        ),
        install_dir@.text.len() > 0 && !install_dir@.text.contains('\0')
            && database_path@.text.len() == 0 ==> outcome == Err::<IdaSession, IdaError>(
            IdaError::EmptyPath { field: "database_path" },
        ),
{
}

/// A core call carries the name of the function and the document of its
/// arguments as C strings, each in its own place.
pub proof fn law_core_calls_carry_function_and_arguments(
    function: &str,
    arguments: Json,
    outcome: Result<CoreCall, IdaError>,
)
    requires
        call_ensures(core_call, (function, &arguments), outcome),
    ensures
        outcome matches Ok(call) ==> {
            &&& call.function@ == encode_utf8(function@)
            &&& json::compact_text(arguments@) matches Ok(written) && call.arguments@
                == encode_utf8(written)
        },
        outcome is Ok <==> !encode_utf8(function@).contains(0u8) && (json::compact_text(arguments@)
            matches Ok(written) && !encode_utf8(written).contains(0u8)),
{
}

/// A core function gives the document that came back under its own name.
pub proof fn law_core_results_are_the_documents(
    function: String,
    reply: CoreReply,
    outcome: Result<CoreFunctionResult, IdaError>,
)
    requires
        call_ensures(native_core, (function, reply), outcome),
        reply.result.result_json.data is Some,
    ensures
        ({
            let read = json::parsed(text::lossy_text(reply.result.result_json.data->0@));
            &&& outcome is Ok <==> reply.status == 0 && read is Ok
            &&& reply.status != 0 ==> failed_with(outcome, reply.status)
            &&& reply.status == 0 && read is Err ==> failed_with(outcome, 1)
            &&& outcome matches Ok(found) ==> found.function == function && found.result@
                == read->Ok_0
        }),
{
}

/// The warnings of a result are the texts of its list of warnings, in order;
/// what is no text is passed over.
pub proof fn law_warnings_are_those_listed(result: Json, field: &Json, warnings: Vec<String>)
    requires
        call_ensures(Json::get, (&result, "warnings"), Some(field)),
        call_ensures(warnings_in, (&result,), warnings),
        field@ is Array,
    ensures
        ({
            let texts = field@->Array_0.filter(|item: JsonView| item is Text);
            &&& warnings@.len() == texts.len()
            &&& forall|i: int|
                0 <= i < texts.len() ==> #[trigger] texts[i] == JsonView::Text(warnings@[i]@)
        }),
{
    let items = field@->Array_0;
    let texts = items.filter(|item: JsonView| item is Text);
    let shown = path::text_views(warnings@);
    assert(shown.len() == warnings@.len());
    lemma_texts_among(items);
    assert forall|i: int| 0 <= i < texts.len() implies #[trigger] texts[i] == JsonView::Text(
        warnings@[i]@,
    ) by {
        assert(shown[i] == warnings@[i]@);
    }
}

proof fn lemma_texts_among(items: Seq<JsonView>)
    ensures
        ({
            let texts = items.filter(|item: JsonView| item is Text);
            &&& ida::texts_among(items).len() == texts.len()
            &&& forall|i: int|
                0 <= i < texts.len() ==> #[trigger] texts[i] == JsonView::Text(
                    ida::texts_among(items)[i],
                )
        }),
    decreases items.len(),
{
    reveal(Seq::filter);
    if items.len() > 0 {
        lemma_texts_among(items.drop_last());
    }
}

/// A result without a list of warnings has none.
pub proof fn law_unlisted_warnings_are_none(
    result: Json,
    field: Option<&Json>,
    warnings: Vec<String>,
)
    requires
        call_ensures(Json::get, (&result, "warnings"), field),
        call_ensures(warnings_in, (&result,), warnings),
        !(field matches Some(value) && value@ is Array),
    ensures
        warnings@.len() == 0,
{
    assert(path::text_views(warnings@).len() == warnings@.len());
}

/// A native error carries the status of the call that failed, and the text of
/// the adapter's last error without its closing NUL, where it gave one.
pub proof fn law_native_errors_are_told(status: i32, reply: ErrorReply, error: IdaError)
    requires
        call_ensures(native_error, (status, reply), error),
    ensures
        error matches IdaError::Native { status: kept, .. } && kept == status,
        reply.required > 0 && reply.status == 0 && reply.buffer@.len() > 0 ==> {
            let last = reply.buffer@.len() - 1;
            &&& reply.buffer@[last] == 0 ==> error->message@ == text::lossy_text(
                reply.buffer@.take(last),
            )
            &&& reply.buffer@[last] != 0 ==> error->message@ == text::lossy_text(reply.buffer@)
        },
        reply.required == 0 || reply.status != 0 ==> error->message@
            == "unknown native IDA error"@,
{
    if reply.buffer@.len() > 0 {
        assert(reply.buffer@.drop_last() =~= reply.buffer@.take(reply.buffer@.len() - 1));
    }
}

/// A caller hears what the worker answered, and that the worker stopped where
/// it did not take the command or did not answer.
pub proof fn law_stopped_workers_are_told<T>(
    sent: bool,
    received: Option<Result<T, IdaError>>,
    outcome: Result<T, IdaError>,
)
    requires
        call_ensures(reply_or_stopped::<T>, (sent, received), outcome),
    ensures
        sent && received is Some ==> outcome == received->0,
        !(sent && received is Some) ==> outcome == Err::<T, IdaError>(IdaError::WorkerStopped),
{
}

/// A worker that is gone is closed already; one that took the command and did
/// not answer stopped, and is not waited for.
pub proof fn law_gone_workers_are_closed(
    sent: bool,
    received: Option<Result<(), IdaError>>,
    outcome: CloseOutcome,
)
    requires
        call_ensures(IdaSession::try_close, (sent, received), outcome),
    ensures
        !sent ==> outcome.result is Ok && outcome.join,
        sent && received is Some ==> outcome.result == received->0 && outcome.join,
        sent && received is None ==> outcome.result == Err::<(), IdaError>(IdaError::WorkerStopped)
            && !outcome.join,
{
}

/// Loading goes through its steps in order, and gives back what it holds where
/// one fails: the search directory once it was added, and the module once it
/// was loaded.
pub proof fn law_loading_gives_back_what_it_holds(
    step: LoadStep,
    reply: LoadReply,
    shown: &str,
    turn: LoadTurn,
)
    requires
        call_ensures(load_step, (step, reply, shown), turn),
    ensures
        turn is Failed <==> !(reply is Done),
        turn matches LoadTurn::Failed { release, .. } ==> {
            &&& release.directory <==> step is FindAdapter || step is LoadModule || step is Bind
            &&& release.module <==> step is Bind
        },
        turn matches LoadTurn::Next(next) ==> {
            &&& step is SetDefaultDirectories ==> next is AddDirectory
            &&& step is AddDirectory ==> next is FindAdapter
            &&& step is FindAdapter ==> next is LoadModule
            &&& step is LoadModule ==> next == (LoadStep::Bind { symbol: 0 })
            &&& step matches LoadStep::Bind { symbol } ==> symbol <= 5 && next == (LoadStep::Bind {
                symbol: (symbol + 1) as usize,
            })
        },
        turn is Loaded ==> (step matches LoadStep::Bind { symbol } && symbol >= 6),
{
}

/// The exports that are bound are all different.
pub proof fn law_exports_are_different(i: usize, k: usize, one: &'static str, other: &'static str)
    requires
        call_ensures(export_text, (i,), one),
        call_ensures(export_text, (k,), other),
        i < 7,
        k < 7,
        i != k,
    ensures
        one@ != other@,
{
    reveal_strlit("da_ida_abi_version");
    reveal_strlit("da_ida_release_view");
    reveal_strlit("da_ida_last_error");
    reveal_strlit("da_ida_session_open");
    reveal_strlit("da_ida_lookup_function");
    reveal_strlit("da_ida_core_function");
    reveal_strlit("da_ida_session_close");
    assert("da_ida_release_view"@[7] == 'r');
    assert("da_ida_session_open"@[7] == 's');
    assert("da_ida_core_function"@[7] == 'c');
    assert("da_ida_session_close"@[7] == 's');
    if one@.len() == other@.len() {
        assert(one@[7] != other@[7]);
    }
}

/// The adapter is taken from the first place that holds it: beside the
/// program, then in `deps` beside it, then above.
pub proof fn law_the_nearest_adapter_is_taken(
    shown: String,
    dir: HostPath,
    above: HostPath,
    present: [bool; 3],
    outcome: Result<JoinedPath, IdaError>,
)
    requires
        call_ensures(
            find_adapter_path,
            (ExeLocation::At { shown, dir, above: Some(above) }, present),
            outcome,
        ),
    ensures
        outcome is Ok <==> present@[0] || present@[1] || present@[2],
        outcome matches Ok(place) ==> {
            &&& place@.names.last() == "dbgatlas_ida.dll"@
            &&& present@[0] ==> place@.base == dir@ && place@.names.len() == 1
            &&& !present@[0] && present@[1] ==> place@.base == dir@ && place@.names
                == seq!["deps"@, "dbgatlas_ida.dll"@]
            &&& !present@[0] && !present@[1] ==> place@.base == above@ && place@.names.len() == 1
        },
{
}

/// A path is refused where it is empty or holds a NUL, by the field that it
/// was given in.
pub proof fn law_session_paths_are_checked(
    given: HostPath,
    field: &'static str,
    verdict: Result<(), IdaError>,
)
    requires
        call_ensures(validate_path, (&given, field), verdict),
    ensures
        verdict is Ok <==> given@.text.len() > 0 && forall|i: int|
            0 <= i < given@.text.len() ==> #[trigger] given@.text[i] != '\0',
        given@.text.len() == 0 ==> verdict == Err::<(), IdaError>(IdaError::EmptyPath { field }),
        given@.text.len() > 0 && verdict is Err ==> verdict == Err::<(), IdaError>(
            IdaError::NulByte { field },
        ),
{
    let shown = given@.text;
    if shown.contains('\0') {
        let i = choose|i: int| 0 <= i < shown.len() && shown[i] == '\0';
        assert(shown[i] == '\0');
    } else {
        assert forall|i: int| 0 <= i < shown.len() implies #[trigger] shown[i] != '\0' by {
            assert(shown.contains(shown[i]));
        }
    }
}

/// A lent text is read as the bytes that it points to, and is empty where it
/// points to none.
pub proof fn law_lent_texts_are_taken(view: DA_IdaTextView, found: String)
    requires
        call_ensures(take_text_view, (view,), found),
    ensures
        view.data is None ==> found@.len() == 0,
        view.data matches Some(bytes) ==> found@ == text::lossy_text(bytes@),
{
}

/// A core result is the document that was read, under the function that was
/// asked; one that could not be read is an error that says why.
pub proof fn law_core_documents_are_kept(
    function: String,
    document: Result<Json, String>,
    outcome: Result<CoreFunctionResult, IdaError>,
    warnings: Vec<String>,
)
    requires
        call_ensures(core_result, (function, document), outcome),
        document is Ok ==> call_ensures(warnings_in, (&document->Ok_0,), warnings),
    ensures
        outcome is Ok <==> document is Ok,
        outcome matches Ok(found) ==> {
            &&& found.function == function
            &&& found.result == document->Ok_0
            &&& path::text_views(found.warnings@) == path::text_views(warnings@)
        },
        document matches Err(reason) ==> (outcome matches Err(IdaError::Native { status, message })
            && status == 1 && message@ == "native IDA core result is not valid JSON: "@ + reason@),
{
}

/// A system call that failed is told with its name and its code.
pub proof fn law_failed_system_calls_are_told(context: &str, code: u32, error: IdaError)
    requires
        call_ensures(last_os_error, (context, code), error),
    ensures
        error matches IdaError::DynamicLoad(reason) && exists|number: Seq<char>| #[trigger]
            tells(number, code as int) && reason@ == context@ + " failed with GetLastError="@
                + number,
{
    let number = text::decimal(code as nat);
    laws::text::law_numbers_are_read_back(code as nat);
    assert(tells(number, code as int));
}

/// The adapter is looked for beside the program, in `deps` beside it, and
/// above, in this order.
pub proof fn law_adapters_are_looked_for(
    dir: HostPath,
    above: Option<HostPath>,
    places: Vec<JoinedPath>,
)
    requires
        call_ensures(adapter_candidates, (&dir, &above), places),
    ensures
        places@.len() == 3,
        places@[0]@.base == dir@ && places@[0]@.names == seq!["dbgatlas_ida.dll"@],
        places@[1]@.base == dir@ && places@[1]@.names == seq!["deps"@, "dbgatlas_ida.dll"@],
        places@[2]@.names == seq!["dbgatlas_ida.dll"@],
        above matches Some(parent) ==> places@[2]@.base == parent@,
        above is None ==> places@[2]@.base == dir@,
{
    let views = places@.map_values(|place: JoinedPath| place@);
    assert(views.len() == 3);
    assert(views[0] == places@[0]@);
    assert(views[1] == places@[1]@);
    assert(views[2] == places@[2]@);
}

/// A host without the adapter has no version of it; another has the version
/// that was built against.
pub proof fn law_versions_need_the_adapter(
    supported: bool,
    version: Result<NativeVersion, IdaError>,
)
    requires
        call_ensures(native_version, (supported,), version),
    ensures
        version is Ok <==> supported,
        !supported ==> version == Err::<NativeVersion, IdaError>(IdaError::UnsupportedPlatform),
        version matches Ok(built) ==> {
            &&& built.abi_major == 0 && built.abi_minor == 1 && built.abi_patch == 0
            &&& built.ida_major == 0 && built.ida_minor == 0 && built.ida_build == 0
        },
{
}

/// The exports are bound in this order, so that each is called as what it is.
pub proof fn law_exports_are_bound_in_order(symbol: usize, name: &'static str)
    requires
        call_ensures(export_text, (symbol,), name),
        symbol < 7,
    ensures
        symbol == 0 <==> name@ == "da_ida_abi_version"@,
        symbol == 1 <==> name@ == "da_ida_release_view"@,
        symbol == 2 <==> name@ == "da_ida_last_error"@,
        symbol == 3 <==> name@ == "da_ida_session_open"@,
        symbol == 4 <==> name@ == "da_ida_lookup_function"@,
        symbol == 5 <==> name@ == "da_ida_core_function"@,
        symbol == 6 <==> name@ == "da_ida_session_close"@,
{
    reveal_strlit("da_ida_abi_version");
    reveal_strlit("da_ida_release_view");
    reveal_strlit("da_ida_last_error");
    reveal_strlit("da_ida_session_open");
    reveal_strlit("da_ida_lookup_function");
    reveal_strlit("da_ida_core_function");
    reveal_strlit("da_ida_session_close");
    assert("da_ida_release_view"@[7] == 'r' && "da_ida_session_open"@[7] == 's'
        && "da_ida_core_function"@[7] == 'c' && "da_ida_session_close"@[7] == 's');
    assert("da_ida_abi_version"@.len() == 18 && "da_ida_last_error"@.len() == 17
        && "da_ida_lookup_function"@.len() == 22 && "da_ida_session_open"@.len() == 19
        && "da_ida_session_close"@.len() == 20);
}

/// A step that failed is told by the system call that it makes, and a missing
/// export by its name.
pub proof fn law_failed_loading_says_where(
    step: LoadStep,
    reply: LoadReply,
    shown: &str,
    turn: LoadTurn,
    context: &str,
    told: IdaError,
)
    requires
        call_ensures(load_step, (step, reply, shown), turn),
        step is SetDefaultDirectories ==> context@ == "SetDefaultDllDirectories"@,
        step is AddDirectory ==> context@ == "AddDllDirectory"@,
        step is FindAdapter ==> context@ == "current_exe"@,
        step is LoadModule ==> context@ == "LoadLibraryExW("@ + shown@ + ")"@,
        step matches LoadStep::Bind { symbol } ==> call_ensures(
            export_text,
            (symbol,),
            context,
        ),
        reply matches LoadReply::OsFailure { code } ==> call_ensures(
            last_os_error,
            (context, code),
            told,
        ),
    ensures
        reply is OsFailure ==> (turn matches LoadTurn::Failed { error, .. } && says_the_same(
            error,
            told,
        )),
        reply matches LoadReply::NotFound(missing) ==> (turn matches LoadTurn::Failed {
            error,
            ..
        } && error == missing),
        reply is Missing ==> (turn matches LoadTurn::Failed { error, .. } && error
            matches IdaError::DynamicLoad(reason) && reason@
            == "missing native IDA adapter export `"@ + context@ + "`"@),
{
}

/// Both are failures to load for the same reason.
pub open spec fn says_the_same(error: IdaError, told: IdaError) -> bool {
    error matches IdaError::DynamicLoad(reason) && told matches IdaError::DynamicLoad(same)
        && reason@ == same@
}

/// What is missing is named: the directory, or the library and where it was
/// looked for; what loading met is told as it is.
pub proof fn law_missing_installations_are_named(
    session: IdaSession,
    event: SessionEvent,
    turn: (IdaSession, SessionOutput),
)
    requires
        call_ensures(IdaSession::advance, (session, event), turn),
        reports_missing(session.phase, event),
    ensures
        turn.1.ready matches Some(Err(error)) && match event {
            SessionEvent::Dll { shown, .. } => error matches IdaError::DynamicLoad(reason)
                && reason@ == "tools.ida.install_dir is missing "@ + (if session.phase->dll == 0 {
                "ida.dll"@
            } else {
                "idalib.dll"@
            }) + ": "@ + shown@,
            SessionEvent::Loaded(Err(met)) => error == met,
            _ => error matches IdaError::DynamicLoad(reason) && reason@
                == "tools.ida.install_dir does not exist or is not a directory: "@
                + session.install_dir@.text,
        },
{
}

/// A program whose place is not known finds no adapter, and says why.
pub proof fn law_unplaced_programs_find_no_adapter(
    exe: ExeLocation,
    present: [bool; 3],
    outcome: Result<JoinedPath, IdaError>,
)
    requires
        call_ensures(find_adapter_path, (exe, present), outcome),
    ensures
        exe matches ExeLocation::Unknown(reason) ==> (outcome matches Err(
            IdaError::DynamicLoad(told),
        ) && told@ == "failed to locate current exe: "@ + reason@),
        exe is NoParent ==> (outcome matches Err(IdaError::DynamicLoad(told)) && told@
            == "current exe has no parent directory"@),
        exe matches ExeLocation::At { shown, dir, above } ==> {
            &&& outcome is Ok <==> present@[0] || present@[1] || present@[2]
            &&& outcome matches Err(error) ==> (error matches IdaError::DynamicLoad(told) && told@
                == "dbgatlas_ida.dll was not found next to "@ + shown@)
            &&& outcome matches Ok(place) ==> {
                &&& place@.base == dir@ || (above matches Some(parent) && place@.base == parent@)
                &&& above is None ==> place@.base == dir@
                &&& place@.names.last() == "dbgatlas_ida.dll"@
            }
        },
{
}

/// A session answers a lookup with what the native reply means, field by field.
pub proof fn law_sessions_answer_with_the_native_lookup(
    session: IdaSession,
    reply: LookupReply,
    answered: (IdaSession, SessionOutput),
    direct: Result<FunctionLookup, IdaError>,
)
    requires
        session.phase is LookingUp,
        call_ensures(IdaSession::advance, (session, SessionEvent::LookedUp(reply)), answered),
        call_ensures(native_lookup, (reply,), direct),
    ensures
        answered.1.ready is None,
        answered.1.reply matches Some(CommandReply::Lookup(outcome)) && (outcome is Ok <==> direct
            is Ok) && (outcome matches Ok(found) ==> same_lookup(found, direct->Ok_0)),
{
}

/// Two lookups found the same.
pub open spec fn same_lookup(one: FunctionLookup, other: FunctionLookup) -> bool {
    &&& one.runtime_address == other.runtime_address
    &&& one.runtime_module_base == other.runtime_module_base
    &&& one.rva == other.rva
    &&& one.ida_image_base == other.ida_image_base
    &&& one.ida_ea == other.ida_ea
    &&& one.function_start == other.function_start
    &&& one.function_end == other.function_end
    &&& one.function_name@ == other.function_name@
    &&& one.found == other.found
}

/// A session answers a core function with what the native reply means.
pub proof fn law_sessions_answer_with_the_native_core(
    session: IdaSession,
    reply: CoreReply,
    answered: (IdaSession, SessionOutput),
    direct: Result<CoreFunctionResult, IdaError>,
)
    requires
        session.phase is RunningCore,
        call_ensures(IdaSession::advance, (session, SessionEvent::CoreReplied(reply)), answered),
        call_ensures(native_core, (session.phase->RunningCore_function, reply), direct),
    ensures
        answered.1.ready is None,
        answered.1.reply matches Some(CommandReply::Core(outcome)) && (outcome is Ok <==> direct
            is Ok) && (outcome matches Ok(found) ==> found.function == direct->Ok_0.function
            && found.result@ == direct->Ok_0.result@ && path::text_views(found.warnings@)
            == path::text_views(direct->Ok_0.warnings@)),
{
}

/// A session without further commands closes its native session, where it has
/// one, without an answer.
pub proof fn law_ended_sessions_close_without_an_answer(
    session: IdaSession,
    ended: (IdaSession, SessionOutput),
    action: HostAction,
    status: i32,
    error: ErrorReply,
    closed: (IdaSession, SessionOutput),
    last: HostAction,
)
    requires
        session.phase is Idle,
        call_ensures(IdaSession::advance, (session, SessionEvent::CommandsEnded), ended),
        call_ensures(IdaSession::next_action, (&ended.0,), action),
        call_ensures(
            IdaSession::advance,
            (ended.0, SessionEvent::Closed { status, error }),
            closed,
        ),
        call_ensures(IdaSession::next_action, (&closed.0,), last),
    ensures
        session.phase->Idle_handle.value != 0 ==> (action matches HostAction::CloseSession { handle }
            && handle == session.phase->Idle_handle),
        session.phase->Idle_handle.value == 0 ==> action is Exit,
        ended.1.ready is None && ended.1.reply is None,
        closed.1.ready is None && closed.1.reply is None,
        last is Exit,
{
}

/// The event is one that the session waits for.
pub open spec fn is_awaited(phase: SessionPhase, event: SessionEvent) -> bool {
    match event {
        SessionEvent::InstallDir { .. } => phase is CheckingInstallDir,
        SessionEvent::Dll { .. } => phase is CheckingDll,
        SessionEvent::Loaded(_) => phase is Loading,
        SessionEvent::Opened { .. } => phase is Opening,
        SessionEvent::Command(_) => phase is Idle,
        SessionEvent::CommandsEnded => phase is Idle,
        SessionEvent::LookedUp(_) => phase is LookingUp,
        SessionEvent::CoreReplied(_) => phase is RunningCore,
        SessionEvent::Closed { .. } => phase is Closing,
    }
}

/// A session keeps its two paths whatever it hears, and what it does not wait
/// for changes nothing and is not answered.
pub proof fn law_unawaited_events_change_nothing(
    session: IdaSession,
    event: SessionEvent,
    turn: (IdaSession, SessionOutput),
)
    requires
        call_ensures(IdaSession::advance, (session, event), turn),
    ensures
        turn.0.install_dir == session.install_dir,
        turn.0.database_path == session.database_path,
        !is_awaited(session.phase, event) ==> turn.0.phase == session.phase && turn.1.ready is None
            && turn.1.reply is None,
{
}

/// The libraries are looked for in the install directory, one after the other,
/// and then the adapter is loaded.
pub proof fn law_libraries_are_looked_for_in_turn(
    session: IdaSession,
    first: HostAction,
    shown: String,
    turn: (IdaSession, SessionOutput),
    next: HostAction,
)
    requires
        session.phase is CheckingDll,
        call_ensures(IdaSession::next_action, (&session,), first),
        call_ensures(
            IdaSession::advance,
            (session, SessionEvent::Dll { present: true, shown }),
            turn,
        ),
        call_ensures(IdaSession::next_action, (&turn.0,), next),
    ensures
        first matches HostAction::ProbeDll(file) && file@.base == session.install_dir@
            && file@.names == seq![
            if session.phase->dll == 0 {
                "ida.dll"@
            } else {
                "idalib.dll"@
            },
        ],
        session.phase->dll == 0 ==> (next matches HostAction::ProbeDll(file) && file@.base
            == session.install_dir@ && file@.names == seq!["idalib.dll"@]),
        session.phase->dll != 0 ==> (next matches HostAction::LoadAdapter(dir) && dir@
            == session.install_dir@),
        turn.1.ready is None && turn.1.reply is None,
{
}

/// A core function whose name or arguments cannot be handed on is refused, and
/// the session waits on.
pub proof fn law_refused_core_calls_name_the_field(
    session: IdaSession,
    function: &str,
    arguments: Json,
    call: Result<CoreCall, IdaError>,
    command: IdaCommand,
    turn: (IdaSession, SessionOutput),
)
    requires
        session.phase is Idle,
        call_ensures(core_call, (function, &arguments), call),
        call_ensures(IdaSession::core_function, (function, arguments), command),
        call_ensures(IdaSession::advance, (session, SessionEvent::Command(command)), turn),
    ensures
        encode_utf8(function@).contains(0u8) ==> (call matches Err(IdaError::NulByte { field })
            && field@ == "function"@),
        !encode_utf8(function@).contains(0u8) && call is Err ==> match json::compact_text(
            arguments@,
        ) {
            Ok(_) => call matches Err(IdaError::NulByte { field }) && field@ == "arguments"@,
            Err(reason) => call matches Err(IdaError::Native { status, message }) && status == 1
                && message@ == reason,
        },
        call is Err ==> turn.0.phase == session.phase && (turn.1.reply matches Some(
            CommandReply::Core(Err(_)),
        )),
        call is Ok ==> turn.0.phase is RunningCore && turn.1.reply is None,
{
}

/// The statuses of the native interface have the numbers that the adapter was
/// built with.
pub proof fn law_reverse_numbers_are_the_adapters()
    ensures
        ida_sys::DA_IDA_OK == 0,
        ida_sys::DA_IDA_ERR_INVALID_ARGUMENT == 1,
        ida_sys::DA_IDA_ERR_BUFFER_TOO_SMALL == 2,
        ida_sys::DA_IDA_ERR_NOT_FOUND == 3,
        ida_sys::DA_IDA_ERR_DYNAMIC_LOAD == 4,
        ida_sys::DA_IDA_ERR_IDA == 5,
        ida_sys::DA_IDA_ERR_INTERNAL == 500,
{
}

} // verus!
