use dbgatlas::adapter::{
    Adapter, AdapterError, AdapterId, AdapterMetadata, ArtifactOutput, Capability, Invocation,
    InvocationResult, InvocationStatus,
};
use dbgatlas::dispatch::{
    invocation_report, next_operation_ref, Core, CoreError, EntryStep, InvokeReport, LogEntry,
    SharedAdapter,
};
use dbgatlas::json::Json;
use dbgatlas::model::{ArtifactRef, Id, OperationRef, Timestamp};
use dbgatlas::path::HostPath;
use dbgatlas::workspace::{
    ArtifactMetadata, OperationRecord, OperationStatus, Workspace, WorkspaceError,
    WorkspaceInitOptions,
};

struct MockAdapter {
    result_status: InvocationStatus,
    artifact_output: bool,
}

impl Adapter for MockAdapter {
    fn metadata(&self) -> AdapterMetadata {
        AdapterMetadata {
            id: AdapterId::new("mock"),
            display_name: "Mock Adapter".to_string(),
            version: "0.1.0".to_string(),
        }
    }

    fn capabilities(&self) -> Vec<Capability> {
        vec![Capability::new("native.version")]
    }

    fn invoke(&self, _invocation: Invocation) -> Result<InvocationResult, AdapterError> {
        let mut result = InvocationResult {
            status: self.result_status,
            summary: "mock invocation complete".to_string(),
            payload: Json::object1("version", Json::text("0.1.0")),
            created_artifacts: Vec::new(),
            raw_output: None,
        };
        if self.artifact_output {
            let mut artifact = ArtifactOutput::new(
                ArtifactRef::new(Id::new("artifact-001").unwrap()),
                "raw",
                HostPath::new("artifacts/raw/output.txt"),
            );
            artifact.description = Some("raw output".to_string());
            result.raw_output = Some(artifact);
        }
        Ok(result)
    }
}

fn core_of(name: &str) -> Core {
    let plan = Workspace::init(
        HostPath::new(name),
        WorkspaceInitOptions::default(),
        false,
        Timestamp { unix_millis: 1 },
    )
    .unwrap();
    Core::with_workspace(plan.workspace.unwrap())
}

fn register(core: &mut Core, result_status: InvocationStatus, artifact_output: bool) {
    core.register_adapter(SharedAdapter {
        adapter: Box::new(MockAdapter {
            result_status,
            artifact_output,
        }),
    });
}

fn operations(report: &InvokeReport) -> Vec<&OperationRecord> {
    report
        .entries
        .iter()
        .filter_map(|entry| match entry {
            LogEntry::Operation(record) => Some(record),
            LogEntry::Artifact(_) => None,
        })
        .collect()
}

fn artifacts(report: &InvokeReport) -> Vec<&ArtifactMetadata> {
    report
        .entries
        .iter()
        .filter_map(|entry| match entry {
            LogEntry::Artifact(metadata) => Some(metadata),
            LogEntry::Operation(_) => None,
        })
        .collect()
}

#[test]
fn invokes_adapter_and_records_operation() {
    let mut core = core_of("case-core");
    register(&mut core, InvocationStatus::Success, false);

    let report = core.invoke(
        &AdapterId::new("mock"),
        &Capability::new("native.version"),
        Json::empty_object(),
        1,
    );

    let operations = operations(&report);
    assert_eq!(operations.len(), 1);
    assert_eq!(operations[0].adapter_id, "mock");
    let result = report.outcome.unwrap();
    assert!(matches!(result.status, InvocationStatus::Success));
}

#[test]
fn records_structured_failed_result_as_failed_operation() {
    let mut core = core_of("case-failed");
    register(&mut core, InvocationStatus::Failed, false);

    let report = core.invoke(
        &AdapterId::new("mock"),
        &Capability::new("native.version"),
        Json::empty_object(),
        1,
    );

    let operations = operations(&report);
    assert!(matches!(operations[0].status, OperationStatus::Failed));
    let result = report.outcome.unwrap();
    assert!(matches!(result.status, InvocationStatus::Failed));
}

#[test]
fn registers_raw_output_artifact_metadata() {
    let mut core = core_of("case-artifact");
    register(&mut core, InvocationStatus::Success, true);

    let report = core.invoke(
        &AdapterId::new("mock"),
        &Capability::new("native.version"),
        Json::empty_object(),
        1,
    );

    let artifacts = artifacts(&report);
    assert_eq!(artifacts.len(), 1);
    assert_eq!(artifacts[0].artifact_id.id.as_str(), "artifact-001");
    assert_eq!(artifacts[0].description.as_deref(), Some("raw output"));
    assert_eq!(artifacts[0].byte_len, None);

    let operations = operations(&report);
    assert_eq!(operations[0].artifacts.len(), 1);
    assert_eq!(
        artifacts[0].operation_id.as_ref(),
        Some(&operations[0].operation_id)
    );
}

#[test]
fn records_long_running_operation_status_transitions() {
    let core = core_of("case-long-op");
    let adapter_id = AdapterId::new("mock");
    let capability = Capability::new("debug.eval");

    let started = core.start_operation(
        &adapter_id,
        &capability,
        "debug command running",
        Timestamp { unix_millis: 5 },
        1,
    );
    let operation_id = started.operation_id;
    let canceled = core.cancel_operation(
        operation_id.clone(),
        &adapter_id,
        &capability,
        "debug command canceled",
        Timestamp { unix_millis: 6 },
    );

    let operations = [started.record, canceled];
    assert_eq!(operations.len(), 2);
    assert_eq!(operations[0].operation_id.id, operation_id.id);
    assert_eq!(operations[1].operation_id.id, operation_id.id);
    assert!(matches!(operations[0].status, OperationStatus::Running));
    assert!(matches!(operations[1].status, OperationStatus::Canceled));
    assert_eq!(operations[1].created_at.unix_millis, 6);
}

#[test]
fn finished_and_failed_operations_keep_their_artifacts() {
    let core = core_of("case-ends");
    let adapter_id = AdapterId::new("mock");
    let capability = Capability::new("debug.eval");
    let operation = OperationRef::new(Id::new("op-1").unwrap());
    let artifact = ArtifactRef::new(Id::new("artifact-001").unwrap());
    let now = Timestamp { unix_millis: 9 };

    let finished = core.finish_operation(
        operation.clone(),
        &adapter_id,
        &capability,
        "done",
        vec![artifact.clone()],
        now,
    );
    assert_eq!(finished.status, OperationStatus::Success);
    assert_eq!(finished.artifacts, vec![artifact.clone()]);
    assert_eq!(finished.summary, "done");
    assert_eq!(finished.capability, "debug.eval");
    assert!(finished.raw_output.is_none());

    let failed = core.fail_operation(
        operation.clone(),
        &adapter_id,
        &capability,
        "broken",
        vec![artifact.clone()],
        now,
    );
    assert_eq!(failed.status, OperationStatus::Failed);
    assert_eq!(failed.operation_id, operation);
    assert_eq!(failed.artifacts, vec![artifact]);
}

#[test]
fn an_adapter_that_is_not_registered_is_not_asked() {
    let core = core_of("case-none");
    let report = core.invoke(
        &AdapterId::new("mock"),
        &Capability::new("native.version"),
        Json::Null,
        1,
    );
    assert!(report.entries.is_empty());
    let error = report.outcome.unwrap_err();
    assert_eq!(error.message(""), "adapter `mock` is not registered");
}

#[test]
fn an_unsupported_capability_is_recorded_as_failed() {
    let mut core = core_of("case-unsupported");
    register(&mut core, InvocationStatus::Success, true);
    let report = core.invoke(
        &AdapterId::new("mock"),
        &Capability::new("debug.eval"),
        Json::Null,
        4,
    );
    assert!(artifacts(&report).is_empty());
    let operations = operations(&report);
    assert_eq!(operations.len(), 1);
    assert_eq!(operations[0].status, OperationStatus::Failed);
    assert_eq!(
        operations[0].summary,
        "unsupported capability `debug.eval` for adapter `mock`"
    );
    assert!(operations[0].operation_id.id.as_str().ends_with("-4"));
    assert!(matches!(
        report.outcome,
        Err(CoreError::Adapter(
            AdapterError::UnsupportedCapability { .. }
        ))
    ));
}

#[test]
fn an_error_of_the_adapter_is_recorded_as_failed() {
    let report = invocation_report(
        OperationRef::new(Id::new("op-7").unwrap()),
        &AdapterId::new("mock"),
        &Capability::new("native.version"),
        Err(AdapterError::NativeFailure("no dll".to_string())),
        Timestamp { unix_millis: 3 },
    );
    let operations = operations(&report);
    assert_eq!(operations.len(), 1);
    assert_eq!(operations[0].status, OperationStatus::Failed);
    assert_eq!(operations[0].summary, "native adapter failure: no dll");
    assert_eq!(operations[0].created_at.unix_millis, 3);
    assert_eq!(
        report.outcome.unwrap_err().message(""),
        "native adapter failure: no dll"
    );
}

#[test]
fn an_operation_is_entered_behind_its_artifacts() {
    let output = |id: &str| {
        ArtifactOutput::new(
            ArtifactRef::new(Id::new(id).unwrap()),
            "raw",
            HostPath::new("artifacts/raw/x"),
        )
    };
    let mut result = InvocationResult::success("ok", Json::Null);
    result.created_artifacts = vec![output("a"), output("b")];
    result.raw_output = Some(output("a"));
    let report = invocation_report(
        OperationRef::new(Id::new("op-8").unwrap()),
        &AdapterId::new("mock"),
        &Capability::new("native.version"),
        Ok(result),
        Timestamp { unix_millis: 3 },
    );
    assert_eq!(report.entries.len(), 4);
    assert_eq!(artifacts(&report).len(), 3);
    match report.entries.last() {
        Some(LogEntry::Operation(record)) => assert_eq!(record.artifacts.len(), 2),
        other => panic!("unexpected last entry {other:?}"),
    }
}

fn artifact_named(id: &str) -> ArtifactOutput {
    ArtifactOutput::new(
        ArtifactRef::new(Id::new(id).unwrap()),
        "raw",
        HostPath::new("artifacts/raw/x"),
    )
}

/// Enters a report. The entry at `refused` is refused. Gives what was tried and
/// how the invocation ended.
fn entered(
    report: InvokeReport,
    refused: Option<usize>,
) -> (Vec<String>, Result<InvocationResult, CoreError>) {
    let mut tried = Vec::new();
    let mut step = report.enter();
    loop {
        let entering = match step {
            EntryStep::Done(outcome) => return (tried, outcome),
            EntryStep::Enter(entering) => entering,
        };
        let answer = if refused == Some(tried.len()) {
            Err(WorkspaceError::InvalidArtifactPath(HostPath::new("x")))
        } else {
            Ok(())
        };
        tried.push(match entering.entry() {
            LogEntry::Artifact(metadata) => metadata.artifact_id.id.as_str().to_string(),
            LogEntry::Operation(record) => record.operation_id.id.as_str().to_string(),
        });
        step = entering.entered(answer);
    }
}

fn report_of(reply: Result<InvocationResult, AdapterError>) -> InvokeReport {
    invocation_report(
        OperationRef::new(Id::new("op").unwrap()),
        &AdapterId::new("mock"),
        &Capability::new("native.version"),
        reply,
        Timestamp { unix_millis: 3 },
    )
}

#[test]
fn a_refused_entry_ends_the_invocation() {
    let answered = || {
        report_of(Ok(InvocationResult {
            status: InvocationStatus::Success,
            summary: "done".to_string(),
            payload: Json::Null,
            created_artifacts: vec![artifact_named("a"), artifact_named("b")],
            raw_output: Some(artifact_named("c")),
        }))
    };
    let refusal =
        || CoreError::Workspace(WorkspaceError::InvalidArtifactPath(HostPath::new("x")));

    let (tried, outcome) = entered(answered(), None);
    assert_eq!(tried, ["a", "b", "c", "op"]);
    assert_eq!(outcome.unwrap().summary, "done");

    let (tried, outcome) = entered(answered(), Some(1));
    assert_eq!(tried, ["a", "b"]);
    assert_eq!(outcome.unwrap_err(), refusal());

    let (tried, outcome) = entered(answered(), Some(3));
    assert_eq!(tried, ["a", "b", "c", "op"]);
    assert_eq!(outcome.unwrap_err(), refusal());

    let failed = || report_of(Err(AdapterError::Internal("no".to_string())));
    let (tried, outcome) = entered(failed(), None);
    assert_eq!(tried, ["op"]);
    assert!(matches!(outcome, Err(CoreError::Adapter(_))));
    let (tried, outcome) = entered(failed(), Some(0));
    assert_eq!(tried, ["op"]);
    assert_eq!(outcome.unwrap_err(), refusal());

    let unknown = core_of("case-entries").invoke(
        &AdapterId::new("missing"),
        &Capability::new("native.version"),
        Json::Null,
        1,
    );
    let (tried, outcome) = entered(unknown, Some(0));
    assert!(tried.is_empty());
    assert!(matches!(outcome, Err(CoreError::AdapterNotRegistered(_))));
}

#[test]
fn an_adapter_replaces_one_of_the_same_name() {
    let mut core = core_of("case-replace");
    register(&mut core, InvocationStatus::Failed, false);
    register(&mut core, InvocationStatus::Success, false);
    core.insert_adapter(
        AdapterId::new("other"),
        SharedAdapter {
            adapter: Box::new(MockAdapter {
                result_status: InvocationStatus::Failed,
                artifact_output: false,
            }),
        },
    );
    let ask = |name: &str| {
        core.invoke(
            &AdapterId::new(name),
            &Capability::new("native.version"),
            Json::Null,
            1,
        )
        .outcome
        .unwrap()
        .status
    };
    assert_eq!(ask("mock"), InvocationStatus::Success);
    assert_eq!(ask("other"), InvocationStatus::Failed);
}

#[test]
fn an_invocation_names_the_workspace() {
    let core = core_of("case-invocation");
    let invocation = core.invocation(
        OperationRef::new(Id::new("op-1").unwrap()),
        &AdapterId::new("mock"),
        &Capability::new("native.version"),
        Json::Bool(true),
    );
    assert_eq!(invocation.params, Json::Bool(true));
    assert_eq!(
        invocation.workspace_root,
        Some(HostPath::new("case-invocation"))
    );
    let dir = invocation.artifact_output_dir.unwrap();
    assert_eq!(dir.base, HostPath::new("case-invocation"));
    assert_eq!(dir.names, ["artifacts"]);
    assert_eq!(core.workspace().root().text, "case-invocation");
}

#[test]
fn operations_are_named_by_moment_and_count() {
    let name = |millis: u64, count: u64| {
        next_operation_ref(
            Timestamp {
                unix_millis: millis,
            },
            count,
        )
        .id
        .as_str()
        .to_string()
    };
    assert_eq!(name(1700000000000, 1), "op-1700000000000-1");
    assert_eq!(name(0, 0), "op-0-0");
    assert_ne!(name(1, 11), name(11, 1));
}

#[test]
fn a_core_opens_what_the_manifest_says() {
    let made = Workspace::init(
        HostPath::new("case-open"),
        WorkspaceInitOptions::default(),
        false,
        Timestamp { unix_millis: 1 },
    )
    .unwrap()
    .workspace
    .unwrap();
    let opened = Core::open_workspace(
        HostPath::new("case-open"),
        Some(Ok(made.manifest().clone())),
    )
    .unwrap();
    assert_eq!(
        opened.workspace().manifest().workspace_id.as_str(),
        "case-open"
    );

    let missing = Core::open_workspace(HostPath::new("case-open"), None)
        .err()
        .unwrap();
    assert!(matches!(
        missing,
        CoreError::Workspace(WorkspaceError::ManifestNotFound(_))
    ));
    assert_eq!(
        missing.message("case-open/dbgatlas-workspace.json"),
        "workspace manifest not found at case-open/dbgatlas-workspace.json"
    );
}
