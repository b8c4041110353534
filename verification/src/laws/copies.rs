//! Laws on copies, and on values that are made of their parts.

use crate::adapter::{AdapterId, ArtifactOutput, Capability, InvocationResult};
use crate::json::Json;
use crate::model::{
    ArtifactRef, ErrorContext, Id, OperationRef, RecordingRef, SessionRef, TargetRef, WorkspaceRef,
};
use crate::path::{copy_bytes, copy_parts, copy_texts, HostPath, JoinedPath, PathPart};
use crate::runtime::{BindAddr, ToolDir, ToolLocation};
use crate::workspace::{ToolInfo, WorkspaceManifest};
use crate::path;
use vstd::prelude::*;
use vstd::string::*;

verus! {

/// A copied list holds what the list holds.
pub proof fn law_copied_lists_are_the_same(
    bytes: Vec<u8>,
    copied_bytes: Vec<u8>,
    texts: Vec<String>,
    copied_texts: Vec<String>,
    parts: Vec<PathPart>,
    copied_parts: Vec<PathPart>,
)
    requires
        call_ensures(copy_bytes, (&bytes,), copied_bytes),
        call_ensures(copy_texts, (&texts,), copied_texts),
        call_ensures(copy_parts, (&parts,), copied_parts),
    ensures
        copied_bytes@ == bytes@,
        copied_texts@.len() == texts@.len(),
        forall|i: int| 0 <= i < texts@.len() ==> (#[trigger] copied_texts@[i])@ == texts@[i]@,
        copied_parts@.len() == parts@.len(),
        forall|i: int| 0 <= i < parts@.len() ==> (#[trigger] copied_parts@[i])@ == parts@[i]@,
{
    let a = path::text_views(texts@);
    let b = path::text_views(copied_texts@);
    assert(a.len() == texts@.len());
    assert(b.len() == copied_texts@.len());
    assert forall|i: int| 0 <= i < texts@.len() implies (#[trigger] copied_texts@[i])@
        == texts@[i]@ by {
        assert(a[i] == texts@[i]@);
        assert(b[i] == copied_texts@[i]@);
    }
    let c = path::part_views(parts@);
    let d = path::part_views(copied_parts@);
    assert(c.len() == parts@.len());
    assert(d.len() == copied_parts@.len());
    assert forall|i: int| 0 <= i < parts@.len() implies (#[trigger] copied_parts@[i])@
        == parts@[i]@ by {
        assert(c[i] == parts@[i]@);
        assert(d[i] == copied_parts@[i]@);
    }
}

/// A copied path is the path.
pub proof fn law_copied_paths_are_the_same(
    host: HostPath,
    copied: HostPath,
    joined: JoinedPath,
    copied_joined: JoinedPath,
    dir: ToolDir,
    copied_dir: ToolDir,
    location: ToolLocation,
    copied_location: ToolLocation,
)
    requires
        call_ensures(HostPath::clone, (&host,), copied),
        call_ensures(JoinedPath::clone, (&joined,), copied_joined),
        call_ensures(ToolDir::clone, (&dir,), copied_dir),
        call_ensures(ToolLocation::clone, (&location,), copied_location),
    ensures
        copied@ == host@,
        copied_joined@ == joined@,
        copied_dir@ == dir@,
        copied_location.dir@ == location.dir@,
        copied_location.source == location.source,
{
    assert(copied_location@ == location@);
}

/// A copied value is the value.
pub proof fn law_copied_values_are_the_same(
    id: Id,
    copied_id: Id,
    document: Json,
    copied_document: Json,
    bind: BindAddr,
    copied_bind: BindAddr,
    adapter: AdapterId,
    copied_adapter: AdapterId,
    capability: Capability,
    copied_capability: Capability,
    tool: ToolInfo,
    copied_tool: ToolInfo,
    manifest: WorkspaceManifest,
    copied_manifest: WorkspaceManifest,
)
    requires
        call_ensures(Id::clone, (&id,), copied_id),
        call_ensures(Json::clone, (&document,), copied_document),
        call_ensures(BindAddr::clone, (&bind,), copied_bind),
        call_ensures(AdapterId::clone, (&adapter,), copied_adapter),
        call_ensures(Capability::clone, (&capability,), copied_capability),
        call_ensures(ToolInfo::clone, (&tool,), copied_tool),
        call_ensures(WorkspaceManifest::clone, (&manifest,), copied_manifest),
    ensures
        copied_id@ == id@,
        copied_document@ == document@,
        copied_bind.host == bind.host,
        copied_bind.port == bind.port,
        copied_bind.shown@ == bind.shown@,
        copied_adapter@ == adapter@,
        copied_capability@ == capability@,
        copied_tool.name@ == tool.name@,
        copied_tool.version@ == tool.version@,
        copied_manifest == manifest,
{
}

/// A copied reference names what the reference names.
pub proof fn law_copied_references_are_the_same(
    target: TargetRef,
    copied_target: TargetRef,
    session: SessionRef,
    copied_session: SessionRef,
    recording: RecordingRef,
    copied_recording: RecordingRef,
    artifact: ArtifactRef,
    copied_artifact: ArtifactRef,
    operation: OperationRef,
    copied_operation: OperationRef,
)
    requires
        call_ensures(TargetRef::clone, (&target,), copied_target),
        call_ensures(SessionRef::clone, (&session,), copied_session),
        call_ensures(RecordingRef::clone, (&recording,), copied_recording),
        call_ensures(ArtifactRef::clone, (&artifact,), copied_artifact),
        call_ensures(OperationRef::clone, (&operation,), copied_operation),
    ensures
        copied_target.id@ == target.id@,
        copied_session.id@ == session.id@,
        copied_recording.id@ == recording.id@,
        copied_artifact.id@ == artifact.id@,
        copied_operation.id@ == operation.id@,
{
}

/// A reference names the identifier that it was made of.
pub proof fn law_references_name_their_identifier(
    id: Id,
    root: HostPath,
    target: TargetRef,
    session: SessionRef,
    recording: RecordingRef,
    artifact: ArtifactRef,
    operation: OperationRef,
    workspace: WorkspaceRef,
)
    requires
        call_ensures(TargetRef::new, (id,), target),
        call_ensures(SessionRef::new, (id,), session),
        call_ensures(RecordingRef::new, (id,), recording),
        call_ensures(ArtifactRef::new, (id,), artifact),
        call_ensures(OperationRef::new, (id,), operation),
        call_ensures(WorkspaceRef::new, (root,), workspace),
    ensures
        target.id == id,
        session.id == id,
        recording.id == id,
        artifact.id == id,
        operation.id == id,
        workspace.root == root,
{
}

/// A name is the text that it was made of, and gives that text back.
pub proof fn law_names_give_their_text_back(
    value: &str,
    adapter: AdapterId,
    adapter_text: &str,
    capability: Capability,
    capability_text: &str,
    stored: String,
    id: Id,
    id_text: &str,
)
    requires
        call_ensures(AdapterId::new, (value,), adapter),
        call_ensures(AdapterId::as_str, (&adapter,), adapter_text),
        call_ensures(Capability::new, (value,), capability),
        call_ensures(Capability::as_str, (&capability,), capability_text),
        call_ensures(Id::from_stored, (stored,), id),
        call_ensures(Id::as_str, (&id,), id_text),
    ensures
        adapter_text@ == value@,
        capability_text@ == value@,
        id_text@ == stored@,
{
}

/// What an adapter gives is made of its parts; a success names no file until
/// one is added.
pub proof fn law_answers_are_made_of_their_parts(
    artifact: ArtifactRef,
    kind: &str,
    relative: HostPath,
    output: ArtifactOutput,
    summary: &str,
    payload: Json,
    result: InvocationResult,
    code: &str,
    message: &str,
    context: ErrorContext,
)
    requires
        call_ensures(ArtifactOutput::new, (artifact, kind, relative), output),
        call_ensures(InvocationResult::success, (summary, payload), result),
        call_ensures(ErrorContext::new, (code, message), context),
    ensures
        output.artifact_id == artifact,
        output.kind@ == kind@,
        output.relative_path == relative,
        output.description is None,
        result.status is Success,
        result.summary@ == summary@,
        result.payload == payload,
        result.created_artifacts@.len() == 0,
        result.raw_output is None,
        context.code@ == code@,
        context.message@ == message@,
{
}

} // verus!
