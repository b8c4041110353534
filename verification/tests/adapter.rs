use dbgatlas::adapter::{
    check_capability, ensure_capability, lists_capability, Adapter, AdapterError, AdapterId,
    AdapterMetadata, ArtifactOutput, Capability, Invocation, InvocationResult, InvocationStatus,
};
use dbgatlas::json::Json;
use dbgatlas::model::{ArtifactRef, Id, OperationRef};
use dbgatlas::path::HostPath;

struct MockAdapter;

impl Adapter for MockAdapter {
    fn metadata(&self) -> AdapterMetadata {
        AdapterMetadata {
            id: AdapterId::new("mock"),
            display_name: "Mock Adapter".to_string(),
            version: "0.1.0".to_string(),
        }
    }

    fn capabilities(&self) -> Vec<Capability> {
        vec![Capability::new("native.version")]
    }

    fn invoke(&self, invocation: Invocation) -> Result<InvocationResult, AdapterError> {
        ensure_capability(self, &invocation.capability)?;
        Ok(InvocationResult::success(
            "ok",
            Json::object1("mock", Json::Bool(true)),
        ))
    }
}

fn invocation(capability: &str) -> Invocation {
    Invocation {
        operation_id: OperationRef::new(Id::new("op-001").unwrap()),
        adapter_id: AdapterId::new("mock"),
        capability: Capability::new(capability),
        params: Json::empty_object(),
        workspace_root: None,
        artifact_output_dir: None,
    }
}

fn output(id: &str) -> ArtifactOutput {
    ArtifactOutput::new(
        ArtifactRef::new(Id::new(id).unwrap()),
        "raw",
        HostPath::new("artifacts/raw/output.txt"),
    )
}

fn names(refs: &[ArtifactRef]) -> Vec<&str> {
    refs.iter().map(|artifact| artifact.id.as_str()).collect()
}

#[test]
fn reports_supported_capabilities() {
    let adapter = MockAdapter;
    assert!(adapter.supports(&Capability::new("native.version")));
    assert!(!adapter.supports(&Capability::new("debug.attach")));
}

#[test]
fn rejects_unsupported_capability() {
    let adapter = MockAdapter;

    let error = adapter.invoke(invocation("debug.attach")).unwrap_err();
    assert!(matches!(error, AdapterError::UnsupportedCapability { .. }));
    assert_eq!(
        error.message(),
        "unsupported capability `debug.attach` for adapter `mock`"
    );
}

#[test]
fn answers_a_supported_capability() {
    let result = MockAdapter.invoke(invocation("native.version")).unwrap();
    assert_eq!(result.status, InvocationStatus::Success);
    assert_eq!(result.summary, "ok");
    assert_eq!(result.payload.get("mock"), Some(&Json::Bool(true)));
    assert!(result.created_artifacts.is_empty());
    assert!(result.raw_output.is_none());
}

#[test]
fn capabilities_are_looked_up_by_name() {
    let listed = vec![Capability::new("a"), Capability::new("b")];
    assert!(lists_capability(&listed, &Capability::new("b")));
    assert!(!lists_capability(&listed, &Capability::new("B")));
    assert!(!lists_capability(&Vec::new(), &Capability::new("a")));
}

#[test]
fn a_check_follows_what_the_adapter_said() {
    let adapter = AdapterId::new("mock");
    let capability = Capability::new("debug.eval");
    assert!(check_capability(true, &adapter, &capability).is_ok());
    assert_eq!(
        check_capability(false, &adapter, &capability).unwrap_err(),
        AdapterError::UnsupportedCapability {
            adapter: "mock".to_string(),
            capability: "debug.eval".to_string(),
        }
    );
}

#[test]
fn raw_output_is_listed_once_behind_the_created_artifacts() {
    let mut result = InvocationResult::success("done", Json::Null);
    result.created_artifacts = vec![output("a"), output("b")];
    assert_eq!(names(&result.artifact_refs()), ["a", "b"]);

    result.raw_output = Some(output("c"));
    assert_eq!(names(&result.artifact_refs()), ["a", "b", "c"]);

    result.raw_output = Some(output("a"));
    assert_eq!(names(&result.artifact_refs()), ["a", "b"]);
}

#[test]
fn adapter_errors_have_texts() {
    let reason = || "why".to_string();
    assert_eq!(
        AdapterError::InvalidInput(reason()).message(),
        "invalid adapter input: why"
    );
    assert_eq!(
        AdapterError::NativeFailure(reason()).message(),
        "native adapter failure: why"
    );
    assert_eq!(AdapterError::Io(reason()).message(), "io failure: why");
    assert_eq!(
        AdapterError::Internal(reason()).message(),
        "internal adapter failure: why"
    );
}
