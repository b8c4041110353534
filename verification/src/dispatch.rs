//! The core: which adapters there are, what they are asked, and what is kept
//! of every operation.

use crate::adapter::{
    ensure_capability, Adapter, AdapterError, AdapterId, AdapterMetadata, ArtifactOutput, Capability,
    Invocation, InvocationResult, InvocationStatus,
};
use crate::json::Json;
use crate::model::{ArtifactRef, Id, OperationRef, Timestamp};
use crate::path::{HostPath, JoinedPath};
use crate::workspace::{
    ArtifactMetadata, OperationRecord, OperationStatus, Workspace, WorkspaceError,
    WorkspaceManifest, ARTIFACTS_DIR,
};
use crate::{adapter, model, path, text, workspace};
use vstd::prelude::*;
use vstd::string::*;

verus! {

/// Why an operation gave no result.
#[derive(Debug, PartialEq, Eq)]
pub enum CoreError {
    AdapterNotRegistered(String),
    Adapter(AdapterError),
    Workspace(WorkspaceError),
}

/// The text of an error whose path, where it has one, the host shows as
/// `shown`.
pub open spec fn core_error_text(error: CoreError, shown: Seq<char>) -> Seq<char> {
    match error {
        CoreError::AdapterNotRegistered(name) => "adapter `"@ + name@ + "` is not registered"@,
        CoreError::Adapter(error) => adapter::adapter_error_text(error),
        CoreError::Workspace(error) => workspace::workspace_error_text(error, shown),
    }
}

impl CoreError {
    /// The error as text. `shown` is how the host shows the error's path.
    pub fn message(&self, shown: &str) -> (message: String)
        ensures
            message@ == core_error_text(*self, shown@),
    {
        match self {
            CoreError::AdapterNotRegistered(name) => "adapter `".to_owned().concat(
                name.as_str(),
            ).concat("` is not registered"),
            CoreError::Adapter(error) => error.message(),
            CoreError::Workspace(error) => error.message(shown),
        }
    }
}

/// What is entered in a log of the workspace.
#[derive(Debug)]
pub enum LogEntry {
    Artifact(ArtifactMetadata),
    Operation(OperationRecord),
}

/// What came of an invocation: what is entered in the logs, in order, and the
/// result where every entry was made. See [`InvokeReport::enter`].
#[derive(Debug)]
pub struct InvokeReport {
    pub entries: Vec<LogEntry>,
    pub outcome: Result<InvocationResult, CoreError>,
}

/// The entries of an invocation, and how many of them were made. At least one
/// is left.
#[derive(Debug)]
pub struct Entering {
    report: InvokeReport,
    made: usize,
}

/// How the entering of an invocation goes on.
#[derive(Debug)]
pub enum EntryStep {
    /// One more entry is made.
    Enter(Entering),
    /// Nothing more is entered, and the invocation ends.
    Done(Result<InvocationResult, CoreError>),
}

/// How the entering goes on behind the first entries.
pub open spec fn is_entry_step(step: EntryStep, report: InvokeReport, made: int) -> bool {
    if made < report.entries@.len() {
        step matches EntryStep::Enter(entering) && entering.report_value() == report
            && entering.made_count() == made
    } else {
        step == EntryStep::Done(report.outcome)
    }
}

/// How the entering goes on once the host answered the entry behind the first.
pub open spec fn is_answered_step(
    step: EntryStep,
    report: InvokeReport,
    made: int,
    answer: Result<(), WorkspaceError>,
) -> bool {
    match answer {
        Ok(()) => is_entry_step(step, report, made + 1),
        Err(error) => step == EntryStep::Done(Err(CoreError::Workspace(error))),
    }
}

impl InvokeReport {
    /// Begins to enter what came of the invocation.
    pub fn enter(self) -> (step: EntryStep)
        ensures
            is_entry_step(step, self, 0),
    {
        if self.entries.len() > 0 {
            EntryStep::Enter(Entering { report: self, made: 0 })
        } else {
            EntryStep::Done(self.outcome)
        }
    }
}

impl Entering {
    /// What came of the invocation.
    pub closed spec fn report_value(&self) -> InvokeReport {
        self.report
    }

    /// How many entries were made.
    pub closed spec fn made_count(&self) -> int {
        self.made as int
    }

    #[verifier::type_invariant]
    spec fn is_within(self) -> bool {
        self.made < self.report.entries@.len()
    }

    /// The entry that is made next.
    pub fn entry(&self) -> (entry: &LogEntry)
        ensures
            0 <= self.made_count() < self.report_value().entries@.len(),
            *entry == self.report_value().entries@[self.made_count()],
    {
        proof {
            use_type_invariant(self);
        }
        &self.report.entries[self.made]
    }

    /// Goes on once the host answered the entry. The first that is refused
    /// ends the invocation with the workspace's error.
    pub fn entered(self, answer: Result<(), WorkspaceError>) -> (step: EntryStep)
        ensures
            is_answered_step(step, self.report_value(), self.made_count(), answer),
    {
        proof {
            use_type_invariant(&self);
        }
        match answer {
            Err(error) => EntryStep::Done(Err(CoreError::Workspace(error))),
            Ok(()) => {
                let total: usize = self.report.entries.len();
                let made: usize = self.made + 1;
                if made < total {
                    EntryStep::Enter(Entering { report: self.report, made })
                } else {
                    EntryStep::Done(self.report.outcome)
                }
            },
        }
    }
}

/// The step behind one that makes an entry follows from it and from the host's
/// answer.
pub open spec fn follows(
    steps: Seq<EntryStep>,
    answers: Seq<Result<(), WorkspaceError>>,
    at: int,
) -> bool {
    steps[at] matches EntryStep::Enter(entering) && is_answered_step(
        steps[at + 1],
        entering.report_value(),
        entering.made_count(),
        answers[at],
    )
}

/// A run of the entering: each step follows from the one before and from the
/// host's answer to its entry.
pub open spec fn is_entry_run(
    steps: Seq<EntryStep>,
    report: InvokeReport,
    answers: Seq<Result<(), WorkspaceError>>,
) -> bool {
    &&& steps.len() == answers.len() + 1
    &&& is_entry_step(steps[0], report, 0)
    &&& forall|i: int| 0 <= i < answers.len() ==> #[trigger] follows(steps, answers, i)
}

/// In a run of the entering the steps before the end make the entries in
/// order, none of them refused before.
proof fn lemma_entries_are_made_in_order(
    steps: Seq<EntryStep>,
    report: InvokeReport,
    answers: Seq<Result<(), WorkspaceError>>,
    at: int,
)
    requires
        is_entry_run(steps, report, answers),
        0 <= at < answers.len(),
    ensures
        at < report.entries@.len(),
        steps[at] matches EntryStep::Enter(entering) && entering.report_value() == report
            && entering.made_count() == at,
        at > 0 ==> answers[at - 1] is Ok,
    decreases at,
{
    assert(follows(steps, answers, at));
    if at > 0 {
        lemma_entries_are_made_in_order(steps, report, answers, at - 1);
        assert(follows(steps, answers, at - 1));
    }
}

/// The entries of an invocation are made in order, and the first that is
/// refused is the last that is tried: the invocation then ends with the
/// workspace's error, whatever the adapter replied, and nothing behind the
/// refused entry is entered. Where none is refused the result stands, once
/// every entry was made.
pub proof fn law_a_refused_entry_ends_the_invocation(
    steps: Seq<EntryStep>,
    report: InvokeReport,
    answers: Seq<Result<(), WorkspaceError>>,
)
    requires
        is_entry_run(steps, report, answers),
        steps.last() is Done,
    ensures
        answers.len() <= report.entries@.len(),
        forall|i: int|
            0 <= i < answers.len() ==> (#[trigger] steps[i] matches EntryStep::Enter(entering)
                && entering.report_value() == report && entering.made_count() == i),
        forall|i: int| 0 <= i < answers.len() - 1 ==> #[trigger] answers[i] is Ok,
        answers.len() > 0 && answers.last() is Err ==> steps.last() == EntryStep::Done(
            Err(CoreError::Workspace(answers.last()->Err_0)),
        ),
        answers.len() == 0 || answers.last() is Ok ==> answers.len() == report.entries@.len()
            && steps.last() == EntryStep::Done(report.outcome),
{
    assert forall|i: int| 0 <= i < answers.len() implies (
    #[trigger] steps[i] matches EntryStep::Enter(entering) && entering.report_value() == report
        && entering.made_count() == i) by {
        lemma_entries_are_made_in_order(steps, report, answers, i);
    }
    assert forall|i: int| 0 <= i < answers.len() - 1 implies #[trigger] answers[i] is Ok by {
        lemma_entries_are_made_in_order(steps, report, answers, i + 1);
    }
    if answers.len() > 0 {
        lemma_entries_are_made_in_order(steps, report, answers, answers.len() - 1);
        assert(follows(steps, answers, answers.len() - 1));
    }
}

/// A new operation: its name, and its first record.
#[derive(Debug)]
pub struct StartedOperation {
    pub operation_id: OperationRef,
    pub record: OperationRecord,
}

/// An adapter of any kind.
pub struct SharedAdapter {
    pub adapter: Box<dyn Adapter>,
}

/// The adapters, each under its name.
pub struct Core {
    workspace: Workspace,
    adapters: Vec<(AdapterId, SharedAdapter)>,
}

/// The first adapter of that name.
pub open spec fn find_adapter(
    adapters: Seq<(AdapterId, SharedAdapter)>,
    name: Seq<char>,
) -> Option<SharedAdapter>
    decreases adapters.len(),
{
    if adapters.len() == 0 {
        None
    } else if adapters[0].0@ == name {
        Some(adapters[0].1)
    } else {
        find_adapter(adapters.drop_first(), name)
    }
}

/// The text that names an operation.
pub open spec fn operation_text(millis: nat, count: nat) -> Seq<char> {
    "op-"@ + text::decimal(millis) + "-"@ + text::decimal(count)
}

/// The record is that of an operation.
pub open spec fn is_record(
    record: OperationRecord,
    operation_id: OperationRef,
    adapter_name: Seq<char>,
    capability: Seq<char>,
    status: OperationStatus,
    summary: Seq<char>,
    artifacts: Seq<ArtifactRef>,
    now: Timestamp,
) -> bool {
    &&& record.operation_id == operation_id
    &&& record.adapter_id@ == adapter_name
    &&& record.capability@ == capability
    &&& record.status == status
    &&& record.created_at == now
    &&& record.summary@ == summary
    &&& record.artifacts@ == artifacts
    &&& record.raw_output is None
}

/// The entry is that of a file that an operation wrote.
pub open spec fn is_artifact_entry(
    entry: LogEntry,
    operation_id: OperationRef,
    output: ArtifactOutput,
    now: Timestamp,
) -> bool {
    &&& entry matches LogEntry::Artifact(metadata)
    &&& metadata.artifact_id == output.artifact_id
    &&& metadata.kind == output.kind
    &&& metadata.relative_path@ == output.relative_path@
    &&& metadata.created_at == now
    &&& metadata.operation_id == Some(operation_id)
    &&& metadata.byte_len is None
    &&& metadata.description == output.description
}

/// The files of an answer, in the order in which they are entered.
pub open spec fn outputs(result: InvocationResult) -> Seq<ArtifactOutput> {
    match result.raw_output {
        None => result.created_artifacts@,
        Some(raw) => result.created_artifacts@.push(raw),
    }
}

/// The status that an answer is recorded with.
pub open spec fn recorded_status(status: InvocationStatus) -> OperationStatus {
    match status {
        InvocationStatus::Success => OperationStatus::Success,
        InvocationStatus::Failed => OperationStatus::Failed,
    }
}

/// The report on what an adapter replied. An answer enters its files and then
/// the operation; an error enters the operation alone, as failed.
pub open spec fn is_report(
    report: InvokeReport,
    operation_id: OperationRef,
    adapter_name: Seq<char>,
    capability: Seq<char>,
    reply: Result<InvocationResult, AdapterError>,
    now: Timestamp,
) -> bool {
    match reply {
        Ok(result) => {
            &&& report.outcome == Ok::<InvocationResult, CoreError>(result)
            &&& report.entries@.len() == outputs(result).len() + 1
            &&& forall|i: int|
                0 <= i < outputs(result).len() ==> is_artifact_entry(
                    #[trigger] report.entries@[i],
                    operation_id,
                    outputs(result)[i],
                    now,
                )
            &&& report.entries@.last() matches LogEntry::Operation(record)
            &&& is_record(
                record,
                operation_id,
                adapter_name,
                capability,
                recorded_status(result.status),
                result.summary@,
                adapter::result_refs(result),
                now,
            )
        },
        Err(error) => {
            &&& report.outcome == Err::<InvocationResult, CoreError>(CoreError::Adapter(error))
            &&& report.entries@.len() == 1
            &&& report.entries@[0] matches LogEntry::Operation(record)
            &&& is_record(
                record,
                operation_id,
                adapter_name,
                capability,
                OperationStatus::Failed,
                adapter::adapter_error_text(error),
                seq![],
                now,
            )
        },
    }
}

fn artifact_entry(operation_id: &OperationRef, output: &ArtifactOutput, now: Timestamp) -> (entry:
    LogEntry)
    ensures
        is_artifact_entry(entry, *operation_id, *output, now),
{
    let description: Option<String> = match &output.description {
        Some(text) => Some(text.clone()),
        None => None,
    };
    LogEntry::Artifact(
        ArtifactMetadata {
            artifact_id: output.artifact_id.clone(),
            kind: output.kind.clone(),
            relative_path: output.relative_path.clone(),
            created_at: now,
            operation_id: Some(operation_id.clone()),
            byte_len: None,
            description,
        },
    )
}

fn operation_record(
    operation_id: OperationRef,
    adapter_id: &AdapterId,
    capability: &Capability,
    status: OperationStatus,
    summary: String,
    artifacts: Vec<ArtifactRef>,
    now: Timestamp,
) -> (record: OperationRecord)
    ensures
        is_record(
            record,
            operation_id,
            adapter_id@,
            capability@,
            status,
            summary@,
            artifacts@,
            now,
        ),
{
    OperationRecord {
        operation_id,
        adapter_id: adapter_id.as_str().to_owned(),
        capability: capability.as_str().to_owned(),
        status,
        created_at: now,
        summary,
        artifacts,
        raw_output: None,
    }
}

fn register_artifacts(operation_id: &OperationRef, result: &InvocationResult, now: Timestamp) -> (
    entries: Vec<LogEntry>)
    ensures
        entries@.len() == outputs(*result).len(),
        forall|i: int|
            0 <= i < outputs(*result).len() ==> is_artifact_entry(
                #[trigger] entries@[i],
                *operation_id,
                outputs(*result)[i],
                now,
            ),
{
    let mut entries: Vec<LogEntry> = Vec::new();
    let mut i: usize = 0;
    while i < result.created_artifacts.len()
        invariant
            i <= result.created_artifacts.len(),
            entries.len() == i,
            forall|k: int|
                0 <= k < i ==> is_artifact_entry(
                    #[trigger] entries@[k],
                    *operation_id,
                    result.created_artifacts@[k],
                    now,
                ),
        decreases result.created_artifacts.len() - i,
    {
        entries.push(artifact_entry(operation_id, &result.created_artifacts[i], now));
        i = i + 1;
    }
    if let Some(raw) = &result.raw_output {
        entries.push(artifact_entry(operation_id, raw, now));
    }
    entries
}

/// The report on what an adapter replied to an operation.
pub fn invocation_report(
    operation_id: OperationRef,
    adapter_id: &AdapterId,
    capability: &Capability,
    reply: Result<InvocationResult, AdapterError>,
    now: Timestamp,
) -> (report: InvokeReport)
    ensures
        is_report(report, operation_id, adapter_id@, capability@, reply, now),
{
    match reply {
        Ok(result) => {
            let mut entries: Vec<LogEntry> = register_artifacts(&operation_id, &result, now);
            let status: OperationStatus = match result.status {
                InvocationStatus::Success => OperationStatus::Success,
                InvocationStatus::Failed => OperationStatus::Failed,
            };
            let artifacts: Vec<ArtifactRef> = result.artifact_refs();
            let summary: String = result.summary.clone();
            entries.push(
                LogEntry::Operation(
                    operation_record(
                        operation_id,
                        adapter_id,
                        capability,
                        status,
                        summary,
                        artifacts,
                        now,
                    ),
                ),
            );
            InvokeReport { entries, outcome: Ok(result) }
        },
        Err(error) => {
            let record: OperationRecord = operation_record(
                operation_id,
                adapter_id,
                capability,
                OperationStatus::Failed,
                error.message(),
                Vec::new(),
                now,
            );
            assert(record.artifacts@ =~= seq![]);
            InvokeReport {
                entries: vec![LogEntry::Operation(record)],
                outcome: Err(CoreError::Adapter(error)),
            }
        },
    }
}

/// The name of the operation that starts at a moment, as the `count`-th.
pub fn next_operation_ref(now: Timestamp, count: u64) -> (operation_id: OperationRef)
    ensures
        operation_id.id@ == operation_text(now.unix_millis as nat, count as nat),
        model::valid_id(operation_id.id@),
{
    let name: String = "op-".to_owned().concat(text::decimal_text(now.unix_millis).as_str()).concat(
        "-",
    ).concat(text::decimal_text(count).as_str());
    proof {
        law_operation_names_are_valid(now.unix_millis as nat, count as nat);
    }
    OperationRef::new(Id::from_stored(name))
}

/// The name of an operation is an identifier.
pub proof fn law_operation_names_are_valid(millis: nat, count: nat)
    ensures
        model::valid_id(operation_text(millis, count)),
{
    reveal_strlit("op-");
    reveal_strlit("-");
    text::law_decimal_is_digits(millis);
    text::law_decimal_is_digits(count);
    let name = operation_text(millis, count);
    let first = text::decimal(millis);
    let second = text::decimal(count);
    assert(name[0] == 'o');
    assert(!text::is_white_space(name[0]));
    assert forall|i: int| 0 <= i < name.len() implies #[trigger] name[i] != '/' && name[i]
        != '\\' by {
        if i < 3 {
            assert(name[i] == "op-"@[i]);
        } else if i < 3 + first.len() {
            assert(name[i] == first[i - 3]);
        } else if i == 3 + first.len() {
            assert(name[i] == '-');
        } else {
            assert(name[i] == second[i - 4 - first.len()]);
        }
    }
}

/// Two operations that start at different moments, or with different counts,
/// have different names.
pub proof fn law_operation_names_are_distinct(
    millis1: nat,
    count1: nat,
    millis2: nat,
    count2: nat,
)
    requires
        operation_text(millis1, count1) == operation_text(millis2, count2),
    ensures
        millis1 == millis2,
        count1 == count2,
{
    reveal_strlit("op-");
    reveal_strlit("-");
    text::law_decimal_is_digits(millis1);
    text::law_decimal_is_digits(count1);
    text::law_decimal_is_digits(millis2);
    text::law_decimal_is_digits(count2);
    let name1 = operation_text(millis1, count1);
    let name2 = operation_text(millis2, count2);
    let a1 = text::decimal(millis1);
    let a2 = text::decimal(millis2);
    assert(name1[3 + a1.len() as int] == '-');
    assert(name2[3 + a2.len() as int] == '-');
    if a1.len() < a2.len() {
        assert(name2[3 + a1.len() as int] == a2[a1.len() as int]);
    } else if a2.len() < a1.len() {
        assert(name1[3 + a2.len() as int] == a1[a2.len() as int]);
    }
    assert(a1 =~= name1.subrange(3, 3 + a1.len() as int));
    assert(a2 =~= name2.subrange(3, 3 + a2.len() as int));
    let b1 = text::decimal(count1);
    let b2 = text::decimal(count2);
    assert(b1 =~= name1.subrange(4 + a1.len() as int, name1.len() as int));
    assert(b2 =~= name2.subrange(4 + a2.len() as int, name2.len() as int));
    text::law_decimal_is_injective(millis1, millis2);
    text::law_decimal_is_injective(count1, count2);
}

/// Replacing the first adapter of a name changes what is found under that name
/// and under no other.
proof fn lemma_replaced_adapter(
    adapters: Seq<(AdapterId, SharedAdapter)>,
    at: int,
    entry: (AdapterId, SharedAdapter),
    name: Seq<char>,
)
    requires
        0 <= at < adapters.len(),
        adapters[at].0@ == entry.0@,
        forall|k: int| 0 <= k < at ==> (#[trigger] adapters[k]).0@ != entry.0@,
    ensures
        find_adapter(adapters.update(at, entry), name) == (if name == entry.0@ {
            Some(entry.1)
        } else {
            find_adapter(adapters, name)
        }),
    decreases adapters.len(),
{
    let updated = adapters.update(at, entry);
    if at == 0 {
        assert(updated.drop_first() =~= adapters.drop_first());
    } else {
        assert(updated.drop_first() =~= adapters.drop_first().update(at - 1, entry));
        assert forall|k: int| 0 <= k < at - 1 implies (#[trigger] adapters.drop_first()[k]).0@
            != entry.0@ by {
            assert(adapters.drop_first()[k] == adapters[k + 1]);
        }
        lemma_replaced_adapter(adapters.drop_first(), at - 1, entry, name);
    }
}

/// A new adapter is found under its name where no other has it.
proof fn lemma_added_adapter(
    adapters: Seq<(AdapterId, SharedAdapter)>,
    entry: (AdapterId, SharedAdapter),
    name: Seq<char>,
)
    requires
        forall|k: int| 0 <= k < adapters.len() ==> (#[trigger] adapters[k]).0@ != entry.0@,
    ensures
        find_adapter(adapters.push(entry), name) == (if name == entry.0@ {
            Some(entry.1)
        } else {
            find_adapter(adapters, name)
        }),
    decreases adapters.len(),
{
    let added = adapters.push(entry);
    if adapters.len() == 0 {
        assert(added[0] == entry);
        assert(added.drop_first() =~= adapters);
    } else {
        assert(added[0] == adapters[0]);
        assert(added.drop_first() =~= adapters.drop_first().push(entry));
        assert forall|k: int| 0 <= k < adapters.drop_first().len() implies (
        #[trigger] adapters.drop_first()[k]).0@ != entry.0@ by {
            assert(adapters.drop_first()[k] == adapters[k + 1]);
        }
        lemma_added_adapter(adapters.drop_first(), entry, name);
    }
}

impl Core {
    /// The workspace that operations are recorded in.
    pub closed spec fn workspace_value(&self) -> Workspace {
        self.workspace
    }

    /// The adapter that is registered under a name.
    pub closed spec fn registered(&self, name: Seq<char>) -> Option<SharedAdapter> {
        find_adapter(self.adapters@, name)
    }

    /// Opens the workspace at `root`, without adapters. `manifest` is what its
    /// manifest holds, where there is one.
    pub fn open_workspace(
        root: HostPath,
        manifest: Option<Result<WorkspaceManifest, WorkspaceError>>,
    ) -> (core: Result<Self, CoreError>)
        ensures
            match (manifest, core) {
                (None, Err(CoreError::Workspace(WorkspaceError::ManifestNotFound(missing)))) =>
                    missing@ == workspace::below(root@, seq![workspace::MANIFEST_FILE@]),
                (Some(Err(error)), Err(CoreError::Workspace(returned))) => returned == error,
                (Some(Ok(found)), Ok(opened)) => {
                    &&& opened.workspace_value().root_view() == root@
                    &&& opened.workspace_value().manifest_value() == found
                    &&& forall|name: Seq<char>| (#[trigger] opened.registered(name)) is None
                },
                _ => false,
            },
    {
        match Workspace::open(root, manifest) {
            Ok(workspace) => Ok(Core::with_workspace(workspace)),
            Err(error) => Err(CoreError::Workspace(error)),
        }
    }

    /// A core without adapters.
    pub fn with_workspace(workspace: Workspace) -> (core: Self)
        ensures
            core.workspace_value() == workspace,
            forall|name: Seq<char>| (#[trigger] core.registered(name)) is None,
    {
        Core { workspace, adapters: Vec::new() }
    }

    pub fn workspace(&self) -> (workspace: &Workspace)
        ensures
            *workspace == self.workspace_value(),
    {
        &self.workspace
    }

    /// Registers an adapter under a name, in place of one that has it.
    pub fn insert_adapter(&mut self, id: AdapterId, adapter: SharedAdapter)
        ensures
            final(self).workspace_value() == old(self).workspace_value(),
            forall|name: Seq<char>| #[trigger]
                final(self).registered(name) == (if name == id@ {
                    Some(adapter)
                } else {
                    old(self).registered(name)
                }),
    {
        let ghost before = self.adapters@;
        let ghost entry = (id, adapter);
        let mut i: usize = 0;
        while i < self.adapters.len()
            invariant_except_break
                i <= self.adapters.len(),
                forall|k: int| 0 <= k < i ==> (#[trigger] self.adapters@[k]).0@ != id@,
            invariant
                self.adapters@ == before,
                self.workspace == old(self).workspace,
            ensures
                i <= self.adapters.len(),
                forall|k: int| 0 <= k < i ==> (#[trigger] self.adapters@[k]).0@ != id@,
                i < self.adapters.len() ==> self.adapters@[i as int].0@ == id@,
            decreases self.adapters.len() - i,
        {
            if text::text_eq(self.adapters[i].0.as_str(), id.as_str()) {
                break;
            }
            i = i + 1;
        }
        if i < self.adapters.len() {
            self.adapters.set(i, (id, adapter));
            proof {
                assert(self.adapters@ =~= before.update(i as int, entry));
                assert forall|name: Seq<char>| #[trigger]
                    self.registered(name) == (if name == entry.0@ {
                        Some(entry.1)
                    } else {
                        old(self).registered(name)
                    }) by {
                    lemma_replaced_adapter(before, i as int, entry, name);
                }
            }
        } else {
            self.adapters.push((id, adapter));
            proof {
                assert(self.adapters@ =~= before.push(entry));
                assert forall|name: Seq<char>| #[trigger]
                    self.registered(name) == (if name == entry.0@ {
                        Some(entry.1)
                    } else {
                        old(self).registered(name)
                    }) by {
                    lemma_added_adapter(before, entry, name);
                }
            }
        }
    }

    /// Registers an adapter under the name that it says it has.
    pub fn register_adapter(&mut self, adapter: SharedAdapter)
        ensures
            final(self).workspace_value() == old(self).workspace_value(),
            exists|metadata: AdapterMetadata| #[trigger]
                adapter.adapter.may_describe(metadata) && forall|name: Seq<char>| #[trigger]
                    final(self).registered(name) == (if name == metadata.id@ {
                        Some(adapter)
                    } else {
                        old(self).registered(name)
                    }),
    {
        let metadata: AdapterMetadata = adapter.adapter.metadata();
        let ghost described = metadata;
        let ghost shared = adapter;
        self.insert_adapter(metadata.id, adapter);
        assert(shared.adapter.may_describe(described));
    }

    /// What an adapter is asked in an operation.
    pub open spec fn asks(
        &self,
        invocation: Invocation,
        operation_id: OperationRef,
        adapter_id: AdapterId,
        capability: Capability,
        params: Json,
    ) -> bool {
        &&& invocation.operation_id == operation_id
        &&& invocation.adapter_id == adapter_id
        &&& invocation.capability == capability
        &&& invocation.params == params
        &&& invocation.workspace_root matches Some(root) && root@
            == self.workspace_value().root_view()
        &&& invocation.artifact_output_dir matches Some(dir) && dir@ == workspace::below(
            self.workspace_value().root_view(),
            seq![ARTIFACTS_DIR@],
        )
    }

    /// What an adapter can reply in an operation: it refuses a capability that
    /// it does not support, and answers the invocation otherwise.
    pub open spec fn may_reply(
        &self,
        adapter: SharedAdapter,
        operation_id: OperationRef,
        adapter_id: AdapterId,
        capability: Capability,
        params: Json,
        reply: Result<InvocationResult, AdapterError>,
    ) -> bool {
        ||| reply matches Err(error) && adapter::refuses(&*adapter.adapter, capability@, error)
        ||| adapter::may_support(&*adapter.adapter, capability@, true) && exists|
            invocation: Invocation,
        |
            self.asks(invocation, operation_id, adapter_id, capability, params)
                && #[trigger] adapter.adapter.may_answer(invocation, reply)
    }

    /// What an adapter is asked in an operation.
    pub fn invocation(
        &self,
        operation_id: OperationRef,
        adapter_id: &AdapterId,
        capability: &Capability,
        params: Json,
    ) -> (invocation: Invocation)
        ensures
            self.asks(invocation, operation_id, *adapter_id, *capability, params),
    {
        Invocation {
            operation_id,
            adapter_id: adapter_id.clone(),
            capability: capability.clone(),
            params,
            workspace_root: Some(self.workspace.root().clone()),
            artifact_output_dir: Some(JoinedPath::below(self.workspace.root(), ARTIFACTS_DIR)),
        }
    }

    /// The position of the first adapter of that name.
    fn position(&self, name: &AdapterId) -> (found: Option<usize>)
        ensures
            match found {
                Some(at) => at < self.adapters@.len() && self.registered(name@) == Some(
                    self.adapters@[at as int].1,
                ),
                None => self.registered(name@) is None,
            },
    {
        let ghost all = self.adapters@;
        assert(all.skip(0) =~= all);
        let mut i: usize = 0;
        while i < self.adapters.len()
            invariant
                i <= self.adapters.len(),
                all == self.adapters@,
                find_adapter(all, name@) == find_adapter(all.skip(i as int), name@),
            decreases self.adapters.len() - i,
        {
            let ghost rest = all.skip(i as int);
            assert(rest[0] == all[i as int]);
            assert(rest.drop_first() =~= all.skip(i + 1));
            if text::text_eq(self.adapters[i].0.as_str(), name.as_str()) {
                return Some(i);
            }
            i = i + 1;
        }
        None
    }

    /// Asks an adapter for something, as the `count`-th operation, and reports
    /// what came of it. An adapter that is not registered is not asked, and
    /// nothing is entered. One that does not list the capability is not asked
    /// either, and the operation is entered as failed.
    pub fn invoke(
        &self,
        adapter_id: &AdapterId,
        capability: &Capability,
        params: Json,
        count: u64,
    ) -> (report: InvokeReport)
        ensures
            match self.registered(adapter_id@) {
                None => {
                    &&& report.entries@.len() == 0
                    &&& report.outcome matches Err(CoreError::AdapterNotRegistered(name))
                    &&& name@ == adapter_id@
                },
                Some(adapter) => exists|
                    operation_id: OperationRef,
                    reply: Result<InvocationResult, AdapterError>,
                    started: Timestamp,
                    now: Timestamp,
                |
                    operation_id.id@ == #[trigger] operation_text(
                        started.unix_millis as nat,
                        count as nat,
                    ) && #[trigger] is_report(
                        report,
                        operation_id,
                        adapter_id@,
                        capability@,
                        reply,
                        now,
                    ) && self.may_reply(
                        adapter,
                        operation_id,
                        *adapter_id,
                        *capability,
                        params,
                        reply,
                    ),
            },
    {
        let at: usize = match self.position(adapter_id) {
            Some(at) => at,
            None => return InvokeReport {
                entries: Vec::new(),
                outcome: Err(CoreError::AdapterNotRegistered(adapter_id.as_str().to_owned())),
            },
        };
        let started: Timestamp = Timestamp::now();
        let operation_id: OperationRef = next_operation_ref(started, count);
        let ghost named = operation_id;
        let ghost given = params;
        let invocation: Invocation = self.invocation(
            operation_id.clone(),
            adapter_id,
            capability,
            params,
        );
        let ghost asked = invocation;
        let ghost shared = self.adapters@[at as int].1;
        let reply: Result<InvocationResult, AdapterError> = match ensure_capability(
            &*self.adapters[at].1.adapter,
            capability,
        ) {
            Err(error) => Err(error),
            Ok(()) => self.adapters[at].1.adapter.invoke(invocation),
        };
        let ghost replied = reply;
        let now: Timestamp = Timestamp::now();
        let report: InvokeReport = invocation_report(
            operation_id,
            adapter_id,
            capability,
            reply,
            now,
        );
        proof {
            assert(self.may_reply(shared, named, *adapter_id, *capability, given, replied));
            let text = operation_text(started.unix_millis as nat, count as nat);
            assert(named.id@ == text && is_report(
                report,
                named,
                adapter_id@,
                capability@,
                replied,
                now,
            ));
        }
        report
    }

    /// Starts a long operation, as the `count`-th.
    pub fn start_operation(
        &self,
        adapter_id: &AdapterId,
        capability: &Capability,
        summary: &str,
        now: Timestamp,
        count: u64,
    ) -> (started: StartedOperation)
        ensures
            started.operation_id.id@ == operation_text(now.unix_millis as nat, count as nat),
            is_record(
                started.record,
                started.operation_id,
                adapter_id@,
                capability@,
                OperationStatus::Running,
                summary@,
                seq![],
                now,
            ),
    {
        let operation_id: OperationRef = next_operation_ref(now, count);
        let artifacts: Vec<ArtifactRef> = Vec::new();
        assert(artifacts@ =~= seq![]);
        let record: OperationRecord = operation_record(
            operation_id.clone(),
            adapter_id,
            capability,
            OperationStatus::Running,
            summary.to_owned(),
            artifacts,
            now,
        );
        StartedOperation { operation_id, record }
    }

    /// The record of an operation that succeeded.
    pub fn finish_operation(
        &self,
        operation_id: OperationRef,
        adapter_id: &AdapterId,
        capability: &Capability,
        summary: &str,
        artifacts: Vec<ArtifactRef>,
        now: Timestamp,
    ) -> (record: OperationRecord)
        ensures
            is_record(
                record,
                operation_id,
                adapter_id@,
                capability@,
                OperationStatus::Success,
                summary@,
                artifacts@,
                now,
            ),
    {
        operation_record(
            operation_id,
            adapter_id,
            capability,
            OperationStatus::Success,
            summary.to_owned(),
            artifacts,
            now,
        )
    }

    /// The record of an operation that failed.
    pub fn fail_operation(
        &self,
        operation_id: OperationRef,
        adapter_id: &AdapterId,
        capability: &Capability,
        summary: &str,
        artifacts: Vec<ArtifactRef>,
        now: Timestamp,
    ) -> (record: OperationRecord)
        ensures
            is_record(
                record,
                operation_id,
                adapter_id@,
                capability@,
                OperationStatus::Failed,
                summary@,
                artifacts@,
                now,
            ),
    {
        operation_record(
            operation_id,
            adapter_id,
            capability,
            OperationStatus::Failed,
            summary.to_owned(),
            artifacts,
            now,
        )
    }

    /// The record of an operation that was canceled.
    pub fn cancel_operation(
        &self,
        operation_id: OperationRef,
        adapter_id: &AdapterId,
        capability: &Capability,
        summary: &str,
        now: Timestamp,
    ) -> (record: OperationRecord)
        ensures
            is_record(
                record,
                operation_id,
                adapter_id@,
                capability@,
                OperationStatus::Canceled,
                summary@,
                seq![],
                now,
            ),
    {
        let artifacts: Vec<ArtifactRef> = Vec::new();
        assert(artifacts@ =~= seq![]);
        operation_record(
            operation_id,
            adapter_id,
            capability,
            OperationStatus::Canceled,
            summary.to_owned(),
            artifacts,
            now,
        )
    }
}

/// Whatever an adapter replies, the report enters the operation exactly once,
/// behind the files that it wrote, and the record lists every one of them.
pub proof fn law_operations_are_recorded_once(
    report: InvokeReport,
    operation_id: OperationRef,
    adapter_name: Seq<char>,
    capability: Seq<char>,
    reply: Result<InvocationResult, AdapterError>,
    now: Timestamp,
)
    requires
        is_report(report, operation_id, adapter_name, capability, reply, now),
    ensures
        report.entries@.len() > 0,
        report.entries@.last() is Operation,
        forall|i: int|
            0 <= i < report.entries@.len() - 1 ==> (#[trigger] report.entries@[i]) is Artifact,
        forall|i: int|
            0 <= i < report.entries@.len() - 1 ==> exists|k: int|
                0 <= k < report.entries@.last()->Operation_0.artifacts@.len() && (
                #[trigger] report.entries@.last()->Operation_0.artifacts@[k]).id@ == (
                #[trigger] report.entries@[i])->Artifact_0.artifact_id.id@,
{
    let record = report.entries@.last()->Operation_0;
    assert forall|i: int| 0 <= i < report.entries@.len() - 1 implies exists|k: int|
        0 <= k < record.artifacts@.len() && (#[trigger] record.artifacts@[k]).id@ == (
        #[trigger] report.entries@[i])->Artifact_0.artifact_id.id@ by {
        let result = reply->Ok_0;
        let created = result.created_artifacts@.map_values(
            |output: ArtifactOutput| output.artifact_id,
        );
        let refs = adapter::result_refs(result);
        assert(is_artifact_entry(report.entries@[i], operation_id, outputs(result)[i], now));
        if i < result.created_artifacts@.len() {
            assert(refs[i] == created[i]);
            assert(record.artifacts@[i].id@ == report.entries@[i]->Artifact_0.artifact_id.id@);
        } else {
            let raw = result.raw_output->0;
            if exists|k: int|
                0 <= k < created.len() && (#[trigger] created[k]).id@ == raw.artifact_id.id@ {
                let k = choose|k: int|
                    0 <= k < created.len() && (#[trigger] created[k]).id@ == raw.artifact_id.id@;
                assert(record.artifacts@[k].id@ == raw.artifact_id.id@);
            } else {
                assert(refs.last() == raw.artifact_id);
                assert(record.artifacts@[refs.len() - 1].id@ == raw.artifact_id.id@);
            }
        }
    }
}

/// An artifact that is refused leaves no record of its operation: what was
/// tried before it, and it itself, are all artifacts.
pub proof fn law_a_refused_artifact_leaves_no_record(
    steps: Seq<EntryStep>,
    report: InvokeReport,
    answers: Seq<Result<(), WorkspaceError>>,
    operation_id: OperationRef,
    adapter_name: Seq<char>,
    capability: Seq<char>,
    reply: Result<InvocationResult, AdapterError>,
    now: Timestamp,
)
    requires
        is_report(report, operation_id, adapter_name, capability, reply, now),
        is_entry_run(steps, report, answers),
        steps.last() is Done,
        answers.len() > 0,
        answers.last() is Err,
        report.entries@[answers.len() - 1] is Artifact,
    ensures
        answers.len() < report.entries@.len(),
        forall|i: int| 0 <= i < answers.len() ==> (#[trigger] report.entries@[i]) is Artifact,
        steps.last() == EntryStep::Done(Err(CoreError::Workspace(answers.last()->Err_0))),
{
    law_operations_are_recorded_once(
        report,
        operation_id,
        adapter_name,
        capability,
        reply,
        now,
    );
    law_a_refused_entry_ends_the_invocation(steps, report, answers);
}

} // verus!
