//! Laws on operations.

use crate::adapter::{
    AdapterError, AdapterId, AdapterMetadata, ArtifactOutput, Capability, Invocation,
    InvocationResult,
};
use crate::dispatch::{
    invocation_report, next_operation_ref, Core, CoreError, EntryStep, Entering, InvokeReport,
    LogEntry, SharedAdapter, StartedOperation,
};
use crate::json::Json;
use crate::laws::text::tells;
use crate::model::{ArtifactRef, OperationRef, Timestamp};
use crate::path::HostPath;
use crate::workspace::{
    OperationRecord, OperationStatus, Workspace, WorkspaceError, WorkspaceManifest,
};
use crate::{adapter, dispatch, laws, text};
use vstd::prelude::*;
use vstd::string::*;

verus! {

/// The entry is that of an artifact: it names the file that was written, the
/// operation that wrote it, and the moment.
pub open spec fn enters(
    entry: LogEntry,
    output: ArtifactOutput,
    operation_id: OperationRef,
    now: Timestamp,
) -> bool {
    &&& entry matches LogEntry::Artifact(metadata)
    &&& metadata.artifact_id == output.artifact_id
    &&& metadata.kind == output.kind
    &&& metadata.relative_path@ == output.relative_path@
    &&& metadata.description == output.description
    &&& metadata.operation_id == Some(operation_id)
    &&& metadata.created_at == now
    &&& metadata.byte_len is None
}

/// The entry is the record of an operation with a status.
pub open spec fn records(
    entry: LogEntry,
    operation_id: OperationRef,
    asked: Seq<char>,
    capability: Seq<char>,
    status: OperationStatus,
    now: Timestamp,
) -> bool {
    &&& entry matches LogEntry::Operation(record)
    &&& record.operation_id == operation_id
    &&& record.adapter_id@ == asked
    &&& record.capability@ == capability
    &&& record.status == status
    &&& record.created_at == now
    &&& record.raw_output is None
}

/// What an adapter answered is entered: every file that it created, in order,
/// then its raw output, and then the operation, which succeeded where the
/// adapter says so and failed where it says so or did not answer. The answer
/// itself comes out as it was.
pub proof fn law_answers_are_entered(
    operation_id: OperationRef,
    adapter_id: AdapterId,
    capability: Capability,
    reply: Result<InvocationResult, AdapterError>,
    now: Timestamp,
    report: InvokeReport,
    refs: Vec<ArtifactRef>,
    message: String,
)
    requires
        call_ensures(
            invocation_report,
            (operation_id, &adapter_id, &capability, reply, now),
            report,
        ),
        reply is Ok ==> call_ensures(InvocationResult::artifact_refs, (&reply->Ok_0,), refs),
        reply is Err ==> call_ensures(AdapterError::message, (&reply->Err_0,), message),
    ensures
        reply matches Ok(result) ==> {
            let created = result.created_artifacts@;
            let files = created.len() + if result.raw_output is Some {
                1int
            } else {
                0int
            };
            let last = report.entries@[files];
            &&& report.outcome == Ok::<InvocationResult, CoreError>(result)
            &&& report.entries@.len() == files + 1
            &&& forall|i: int|
                0 <= i < created.len() ==> enters(
                    #[trigger] report.entries@[i],
                    created[i],
                    operation_id,
                    now,
                )
            &&& result.raw_output matches Some(raw) ==> enters(
                report.entries@[files - 1],
                raw,
                operation_id,
                now,
            )
            &&& records(
                last,
                operation_id,
                adapter_id@,
                capability@,
                last->Operation_0.status,
                now,
            )
            &&& last->Operation_0.summary@ == result.summary@
            &&& result.status is Success <==> last->Operation_0.status is Success
            &&& result.status is Failed <==> last->Operation_0.status is Failed
            &&& forall|i: int|
                0 <= i < created.len() ==> #[trigger] last->Operation_0.artifacts@[i]
                    == created[i].artifact_id
            &&& last->Operation_0.artifacts@ == refs@
        },
        reply matches Err(error) ==> {
            &&& report.outcome == Err::<InvocationResult, CoreError>(CoreError::Adapter(error))
            &&& report.entries@.len() == 1
            &&& records(
                report.entries@[0],
                operation_id,
                adapter_id@,
                capability@,
                OperationStatus::Failed,
                now,
            )
            &&& report.entries@[0]->Operation_0.artifacts@.len() == 0
            &&& report.entries@[0]->Operation_0.summary@ == message@
        },
{
    if let Ok(result) = reply {
        let outputs = dispatch::outputs(result);
        let created = result.created_artifacts@;
        assert forall|i: int| 0 <= i < created.len() implies enters(
            #[trigger] report.entries@[i],
            created[i],
            operation_id,
            now,
        ) by {
            assert(dispatch::is_artifact_entry(report.entries@[i], operation_id, outputs[i], now));
            assert(outputs[i] == created[i]);
        }
        if result.raw_output is Some {
            let at = created.len() as int;
            assert(dispatch::is_artifact_entry(
                report.entries@[at],
                operation_id,
                outputs[at],
                now,
            ));
        }
    }
}

/// An adapter that is not registered is not asked, and nothing is entered. An
/// operation on one that is has the last entry to itself, under the adapter and
/// capability that were asked, and its status says how the invocation came out.
pub proof fn law_operations_are_recorded(
    core: Core,
    adapter_id: AdapterId,
    capability: Capability,
    params: Json,
    count: u64,
    report: InvokeReport,
)
    requires
        call_ensures(Core::invoke, (&core, &adapter_id, &capability, params, count), report),
    ensures
        core.registered(adapter_id@) is None ==> {
            &&& report.entries@.len() == 0
            &&& report.outcome matches Err(CoreError::AdapterNotRegistered(name)) && name@
                == adapter_id@
        },
        core.registered(adapter_id@) is Some ==> {
            &&& report.entries@.len() > 0
            &&& report.entries@.last() matches LogEntry::Operation(record)
            &&& record.adapter_id@ == adapter_id@
            &&& record.capability@ == capability@
            &&& record.status is Success <==> (report.outcome matches Ok(result)
                && result.status is Success)
            &&& record.status is Success || record.status is Failed
            &&& report.outcome matches Ok(result) ==> record.summary@ == result.summary@
        },
{
}

/// A long operation is recorded as running when it starts, and as what became
/// of it when it ends, under its own name and with its own files.
pub proof fn law_long_operations_are_recorded(
    core: Core,
    operation_id: OperationRef,
    adapter_id: AdapterId,
    capability: Capability,
    summary: &str,
    artifacts: Vec<ArtifactRef>,
    now: Timestamp,
    count: u64,
    started: StartedOperation,
    finished: OperationRecord,
    failed: OperationRecord,
    canceled: OperationRecord,
)
    requires
        call_ensures(
            Core::start_operation,
            (&core, &adapter_id, &capability, summary, now, count),
            started,
        ),
        call_ensures(
            Core::finish_operation,
            (&core, operation_id, &adapter_id, &capability, summary, artifacts, now),
            finished,
        ),
        call_ensures(
            Core::fail_operation,
            (&core, operation_id, &adapter_id, &capability, summary, artifacts, now),
            failed,
        ),
        call_ensures(
            Core::cancel_operation,
            (&core, operation_id, &adapter_id, &capability, summary, now),
            canceled,
        ),
    ensures
        started.record.operation_id == started.operation_id,
        started.record.status is Running,
        finished.status is Success,
        failed.status is Failed,
        canceled.status is Canceled,
        finished.operation_id == operation_id && failed.operation_id == operation_id
            && canceled.operation_id == operation_id,
        finished.artifacts@ == artifacts@ && failed.artifacts@ == artifacts@,
        canceled.artifacts@.len() == 0 && started.record.artifacts@.len() == 0,
        started.record.summary@ == summary@ && finished.summary@ == summary@ && failed.summary@
            == summary@ && canceled.summary@ == summary@,
        started.record.adapter_id@ == adapter_id@ && finished.adapter_id@ == adapter_id@
            && failed.adapter_id@ == adapter_id@ && canceled.adapter_id@ == adapter_id@,
        started.record.capability@ == capability@ && finished.capability@ == capability@
            && failed.capability@ == capability@ && canceled.capability@ == capability@,
        started.record.raw_output is None && finished.raw_output is None && failed.raw_output is None
            && canceled.raw_output is None,
        started.record.created_at == now && finished.created_at == now && failed.created_at == now
            && canceled.created_at == now,
        names_moment_and_count(started.operation_id.id@, now, count),
{
    lemma_names(now, count);
}

/// The name tells the moment and the count of an operation.
pub open spec fn names_moment_and_count(name: Seq<char>, now: Timestamp, count: u64) -> bool {
    exists|millis: Seq<char>, number: Seq<char>|
        #![trigger tells(millis, now.unix_millis as int), tells(number, count as int)]
        tells(millis, now.unix_millis as int) && tells(number, count as int) && name == "op-"@
            + millis + "-"@ + number
}

proof fn lemma_names(now: Timestamp, count: u64)
    ensures
        names_moment_and_count(
            dispatch::operation_text(now.unix_millis as nat, count as nat),
            now,
            count,
        ),
{
    laws::text::law_numbers_are_read_back(now.unix_millis as nat);
    laws::text::law_numbers_are_read_back(count as nat);
    assert(tells(text::decimal(now.unix_millis as nat), now.unix_millis as int));
    assert(tells(text::decimal(count as nat), count as int));
}

/// The name of an operation tells its moment and its count.
pub proof fn law_operation_names_tell_their_moment(
    now: Timestamp,
    count: u64,
    operation_id: OperationRef,
)
    requires
        call_ensures(next_operation_ref, (now, count), operation_id),
    ensures
        names_moment_and_count(operation_id.id@, now, count),
{
    lemma_names(now, count);
}

/// An adapter is asked what the caller asks, in the workspace of the core.
pub proof fn law_adapters_are_asked_what_is_asked(
    core: Core,
    operation_id: OperationRef,
    adapter_id: AdapterId,
    capability: Capability,
    params: Json,
    invocation: Invocation,
)
    requires
        call_ensures(
            Core::invocation,
            (&core, operation_id, &adapter_id, &capability, params),
            invocation,
        ),
    ensures
        invocation.operation_id == operation_id,
        invocation.adapter_id == adapter_id,
        invocation.capability == capability,
        invocation.params == params,
        invocation.workspace_root matches Some(root) && root@ == core.workspace_value().root_view(),
        invocation.artifact_output_dir matches Some(dir) && dir@.base
            == core.workspace_value().root_view() && dir@.names == seq!["artifacts"@],
{
}

/// An adapter is found under its name once it was registered, in place of the
/// one before it, and no other name changes.
pub proof fn law_registered_adapters_are_found(
    core: &mut Core,
    id: AdapterId,
    shared: SharedAdapter,
    other: Seq<char>,
)
    requires
        call_ensures(Core::insert_adapter, (core, id, shared), ()),
    ensures
        final(core).registered(id@) == Some(shared),
        other != id@ ==> final(core).registered(other) == old(core).registered(other),
        final(core).workspace_value() == old(core).workspace_value(),
{
}

/// Entering begins with the first entry, goes on behind each that was made,
/// and ends with the result behind the last; the first that is refused ends it
/// with the workspace's error.
pub proof fn law_entries_are_made_one_by_one(
    report: InvokeReport,
    first: EntryStep,
    entering: Entering,
    answer: Result<(), WorkspaceError>,
    next: EntryStep,
)
    requires
        call_ensures(InvokeReport::enter, (report,), first),
        call_ensures(Entering::entered, (entering, answer), next),
    ensures
        report.entries@.len() == 0 ==> first == EntryStep::Done(report.outcome),
        report.entries@.len() > 0 ==> (first matches EntryStep::Enter(begun)
            && begun.report_value() == report && begun.made_count() == 0),
        answer matches Err(error) ==> next == EntryStep::Done(Err(CoreError::Workspace(error))),
        answer is Ok && entering.made_count() + 1 < entering.report_value().entries@.len() ==> (next
            matches EntryStep::Enter(more) && more.report_value() == entering.report_value()
            && more.made_count() == entering.made_count() + 1),
        answer is Ok && entering.made_count() + 1 >= entering.report_value().entries@.len() ==> next
            == EntryStep::Done(entering.report_value().outcome),
{
}

/// A core is opened with the workspace that stands at the root, or not at all,
/// and begins without adapters.
pub proof fn law_cores_are_opened_on_their_workspace(
    root: HostPath,
    manifest: Option<Result<WorkspaceManifest, WorkspaceError>>,
    opened: Result<Core, CoreError>,
    kept: Workspace,
    made: Core,
    told: &Workspace,
    name: Seq<char>,
)
    requires
        call_ensures(Core::open_workspace, (root, manifest), opened),
        call_ensures(Core::with_workspace, (kept,), made),
        call_ensures(Core::workspace, (&made,), told),
    ensures
        opened is Ok <==> manifest is Some && manifest->0 is Ok,
        opened matches Ok(core) ==> {
            &&& core.workspace_value().root_view() == root@
            &&& core.workspace_value().manifest_value() == manifest->0->Ok_0
            &&& core.registered(name) is None
        },
        manifest matches Some(Err(error)) ==> opened == Err::<Core, CoreError>(
            CoreError::Workspace(error),
        ),
        manifest is None ==> (opened matches Err(
            CoreError::Workspace(WorkspaceError::ManifestNotFound(missing)),
        ) && missing@.base == root@ && missing@.names == seq!["dbgatlas-workspace.json"@]),
        *told == kept,
        made.registered(name) is None,
{
}

/// An adapter that says its name is found under that name.
pub proof fn law_adapters_are_registered_under_their_name(
    core: &mut Core,
    shared: SharedAdapter,
    name: Seq<char>,
)
    requires
        call_ensures(Core::register_adapter, (core, shared), ()),
        forall|described: AdapterMetadata| #[trigger]
            shared.adapter.may_describe(described) ==> described.id@ == name,
    ensures
        final(core).registered(name) == Some(shared),
        forall|other: Seq<char>|
            other != name ==> #[trigger] final(core).registered(other) == old(core).registered(
                other,
            ),
        final(core).workspace_value() == old(core).workspace_value(),
{
}

/// The entry that is made next is the first that was not made yet.
pub proof fn law_the_next_entry_is_made(entering: Entering, entry: &LogEntry)
    requires
        call_ensures(Entering::entry, (&entering,), entry),
    ensures
        *entry == entering.report_value().entries@[entering.made_count()],
{
}

/// An adapter is asked with the parameters of the caller, under the name of
/// the operation that is entered; what it answered to that is the outcome, and
/// every entry belongs to that operation. Only an adapter that may say that it
/// supports the capability is asked.
pub proof fn law_outcomes_are_the_adapters(
    core: Core,
    adapter_id: AdapterId,
    capability: Capability,
    params: Json,
    count: u64,
    report: InvokeReport,
    result: InvocationResult,
)
    requires
        call_ensures(Core::invoke, (&core, &adapter_id, &capability, params, count), report),
        core.registered(adapter_id@) is Some,
        report.outcome == Ok::<InvocationResult, CoreError>(result),
    ensures
        ({
            let asked = core.registered(adapter_id@)->0;
            let operation = report.entries@.last()->Operation_0.operation_id;
            &&& exists|invocation: Invocation| #[trigger]
                asked.adapter.may_answer(invocation, Ok(result)) && invocation.params == params
                    && invocation.capability == capability && invocation.adapter_id == adapter_id
                    && invocation.operation_id == operation
            &&& adapter::may_support(&*asked.adapter, capability@, true)
            &&& forall|i: int|
                0 <= i < report.entries@.len() - 1 ==> (#[trigger] report.entries@[i]
                    matches LogEntry::Artifact(metadata) && metadata.operation_id == Some(
                    operation,
                ))
            &&& exists|started: Timestamp| #[trigger]
                names_moment_and_count(operation.id@, started, count)
        }),
{
    let asked = core.registered(adapter_id@)->0;
    let (operation_id, reply, started, now) = choose|
        operation_id: OperationRef,
        reply: Result<InvocationResult, AdapterError>,
        started: Timestamp,
        now: Timestamp,
    |
        operation_id.id@ == #[trigger] dispatch::operation_text(
            started.unix_millis as nat,
            count as nat,
        ) && #[trigger] dispatch::is_report(
            report,
            operation_id,
            adapter_id@,
            capability@,
            reply,
            now,
        ) && core.may_reply(asked, operation_id, adapter_id, capability, params, reply);
    lemma_names(started, count);
    assert(names_moment_and_count(operation_id.id@, started, count));
    let invocation = choose|invocation: Invocation|
        core.asks(invocation, operation_id, adapter_id, capability, params)
            && #[trigger] asked.adapter.may_answer(invocation, reply);
    assert(asked.adapter.may_answer(invocation, Ok(result)));
    assert forall|i: int| 0 <= i < report.entries@.len() - 1 implies (
    #[trigger] report.entries@[i] matches LogEntry::Artifact(metadata) && metadata.operation_id
        == Some(operation_id)) by {
        assert(dispatch::is_artifact_entry(
            report.entries@[i],
            operation_id,
            dispatch::outputs(result)[i],
            now,
        ));
    }
}

} // verus!
