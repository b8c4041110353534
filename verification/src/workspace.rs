//! Analysis workspaces: their layout, their artifacts and their logs.
//!
//! The host reads and writes files; this module says which, and decides on
//! what was read.

use crate::model::{ArtifactRef, Id, InvalidId, OperationRef, SessionRef, Timestamp};
use crate::path::{HostPath, JoinedPath, PathPart};
use crate::{model, path, text};
use vstd::prelude::*;
use vstd::string::*;

verus! {

pub const MANIFEST_FILE: &'static str = "dbgatlas-workspace.json";

pub const ARTIFACTS_DIR: &'static str = "artifacts";

pub const ANALYSIS_DIR: &'static str = "analysis";

pub const INPUTS_DIR: &'static str = "inputs";

pub const ARTIFACTS_LOG: &'static str = "artifacts/artifacts.jsonl";

pub const OPERATIONS_LOG: &'static str = "artifacts/operations.jsonl";

pub const COMMAND_AUDIT_LOG: &'static str = "artifacts/command_audit.jsonl";

pub const SESSIONS_DIR: &'static str = "sessions";

pub const PROFILES_DIR: &'static str = "profiles";

pub const TTD_RECORDINGS_DIR: &'static str = "ttd_recordings";

pub const REVERSE_SESSIONS_DIR: &'static str = "reverse_sessions";

/// The version of this tool, as manifests record it.
pub const TOOL_VERSION: &'static str = "0.1.0";

/// Why a workspace refuses a request.
#[derive(Debug, PartialEq, Eq)]
pub enum WorkspaceError {
    AlreadyExists(HostPath),
    ManifestNotFound(JoinedPath),
    InvalidPathSegment(String),
    InvalidArtifactPath(HostPath),
    /// Reading or writing failed, by the host's message.
    Io { path: JoinedPath, source: String },
    /// A document could not be read or written, by the reader's message.
    Json { path: JoinedPath, source: String },
    InvalidId(InvalidId),
}

/// The text of an error whose path the host shows as `shown`.
pub open spec fn workspace_error_text(error: WorkspaceError, shown: Seq<char>) -> Seq<char> {
    match error {
        WorkspaceError::AlreadyExists(_) => "workspace already exists at "@ + shown,
        WorkspaceError::ManifestNotFound(_) => "workspace manifest not found at "@ + shown,
        WorkspaceError::InvalidPathSegment(segment) => "invalid path segment `"@ + segment@ + "`"@,
        WorkspaceError::InvalidArtifactPath(_) => "artifact path must be relative and stay under artifacts/: "@
            + shown,
        WorkspaceError::Io { source, .. } => "io error at "@ + shown + ": "@ + source@,
        WorkspaceError::Json { source, .. } => "json error at "@ + shown + ": "@ + source@,
        WorkspaceError::InvalidId(error) => "invalid DbgAtlas id: "@ + error@,
    }
}

impl WorkspaceError {
    /// The error as text. `shown` is how the host shows the error's path.
    pub fn message(&self, shown: &str) -> (message: String)
        ensures
            message@ == workspace_error_text(*self, shown@),
    {
        match self {
            WorkspaceError::AlreadyExists(_) => "workspace already exists at ".to_owned().concat(
                shown,
            ),
            WorkspaceError::ManifestNotFound(
                _,
            ) => "workspace manifest not found at ".to_owned().concat(shown),
            WorkspaceError::InvalidPathSegment(
                segment,
            ) => "invalid path segment `".to_owned().concat(segment.as_str()).concat("`"),
            WorkspaceError::InvalidArtifactPath(
                _,
            ) => "artifact path must be relative and stay under artifacts/: ".to_owned().concat(
                shown,
            ),
            WorkspaceError::Io { source, .. } => "io error at ".to_owned().concat(shown).concat(
                ": ",
            ).concat(source.as_str()),
            WorkspaceError::Json { source, .. } => "json error at ".to_owned().concat(shown).concat(
                ": ",
            ).concat(source.as_str()),
            WorkspaceError::InvalidId(error) => error.message(),
        }
    }
}

/// Which tool made a workspace.
#[derive(Debug, PartialEq, Eq)]
pub struct ToolInfo {
    pub name: String,
    pub version: String,
}

impl Clone for ToolInfo {
    fn clone(&self) -> (copy: Self)
        ensures
            copy == *self,
    {
        ToolInfo { name: self.name.clone(), version: self.version.clone() }
    }
}

/// What a workspace says of itself.
#[derive(Debug, PartialEq, Eq)]
pub struct WorkspaceManifest {
    pub schema_version: u32,
    pub workspace_id: Id,
    pub created_at: Timestamp,
    pub tool: ToolInfo,
}

impl Clone for WorkspaceManifest {
    fn clone(&self) -> (copy: Self)
        ensures
            copy == *self,
    {
        WorkspaceManifest {
            schema_version: self.schema_version,
            workspace_id: self.workspace_id.clone(),
            created_at: self.created_at,
            tool: self.tool.clone(),
        }
    }
}

/// How a workspace is made.
#[derive(Debug)]
pub struct WorkspaceInitOptions {
    pub create_inputs: bool,
}

impl Default for WorkspaceInitOptions {
    fn default() -> (options: Self)
        ensures
            !options.create_inputs,
    {
        WorkspaceInitOptions { create_inputs: false }
    }
}

/// Which directories of the layout are there.
#[derive(Clone, Copy, Debug, PartialEq, Eq, Structural)]
pub struct LayoutDirs {
    pub artifacts: bool,
    pub analysis: bool,
    pub inputs: bool,
}

/// A summary of a workspace.
#[derive(Debug)]
pub struct WorkspaceInfo {
    pub root: HostPath,
    pub manifest: WorkspaceManifest,
    pub has_artifacts_dir: bool,
    pub has_analysis_dir: bool,
    pub has_inputs_dir: bool,
}

/// A file that the workspace keeps.
#[derive(Debug)]
pub struct ArtifactMetadata {
    pub artifact_id: ArtifactRef,
    pub kind: String,
    pub relative_path: HostPath,
    pub created_at: Timestamp,
    pub operation_id: Option<OperationRef>,
    pub byte_len: Option<u64>,
    pub description: Option<String>,
}

/// How an operation stands.
#[derive(Clone, Copy, Debug, PartialEq, Eq, Structural)]
pub enum OperationStatus {
    Running,
    Success,
    Failed,
    Canceled,
}

impl OperationStatus {
    /// The name of a status in a log.
    pub open spec fn name(self) -> Seq<char> {
        match self {
            OperationStatus::Running => "running"@,
            OperationStatus::Success => "success"@,
            OperationStatus::Failed => "failed"@,
            OperationStatus::Canceled => "canceled"@,
        }
    }

    /// The name that older logs give a status.
    pub open spec fn legacy_name(self) -> Seq<char> {
        match self {
            OperationStatus::Running => "Running"@,
            OperationStatus::Success => "Success"@,
            OperationStatus::Failed => "Failed"@,
            OperationStatus::Canceled => "Canceled"@,
        }
    }

    pub fn as_str(self) -> (name: &'static str)
        ensures
            name@ == self.name(),
    {
        match self {
            OperationStatus::Running => "running",
            OperationStatus::Success => "success",
            OperationStatus::Failed => "failed",
            OperationStatus::Canceled => "canceled",
        }
    }

    /// The status that a log names, in its present or its older form.
    pub fn from_name(name: &str) -> (status: Option<Self>)
        ensures
            match status {
                Some(found) => name@ == found.name() || name@ == found.legacy_name(),
                None => forall|other: OperationStatus|
                    name@ != #[trigger] other.name() && name@ != other.legacy_name(),
            },
    {
        if text::text_eq(name, "running") || text::text_eq(name, "Running") {
            return Some(OperationStatus::Running);
        }
        if text::text_eq(name, "success") || text::text_eq(name, "Success") {
            return Some(OperationStatus::Success);
        }
        if text::text_eq(name, "failed") || text::text_eq(name, "Failed") {
            return Some(OperationStatus::Failed);
        }
        if text::text_eq(name, "canceled") || text::text_eq(name, "Canceled") {
            return Some(OperationStatus::Canceled);
        }
        None
    }
}

/// A line of the operation log.
#[derive(Debug)]
pub struct OperationRecord {
    pub operation_id: OperationRef,
    pub adapter_id: String,
    pub capability: String,
    pub status: OperationStatus,
    pub created_at: Timestamp,
    pub summary: String,
    pub artifacts: Vec<ArtifactRef>,
    pub raw_output: Option<ArtifactRef>,
}

/// A line of the command audit log.
#[derive(Debug)]
pub struct CommandAuditRecord {
    pub operation_id: OperationRef,
    pub session_id: Option<SessionRef>,
    pub capability: String,
    pub command: String,
    pub created_at: Timestamp,
    pub status: OperationStatus,
    pub artifacts: Vec<ArtifactRef>,
    pub raw_output: Option<ArtifactRef>,
}

/// Everything that the logs of a workspace say.
#[derive(Debug)]
pub struct WorkspaceFacts {
    pub artifacts: Vec<ArtifactMetadata>,
    pub operations: Vec<OperationRecord>,
    pub command_audit: Vec<CommandAuditRecord>,
}

/// A workspace.
#[derive(Debug)]
pub struct Workspace {
    root: HostPath,
    manifest: WorkspaceManifest,
}

/// How a new workspace is made: the directories to create, in order, and then
/// the workspace, whose manifest is written to its place, or the error.
#[derive(Debug)]
pub struct InitPlan {
    pub dirs: Vec<JoinedPath>,
    pub workspace: Result<Workspace, WorkspaceError>,
}

/// The paths behind a list.
pub open spec fn joined_views(paths: Seq<JoinedPath>) -> Seq<path::JoinedView> {
    paths.map_values(|path: JoinedPath| path@)
}

/// A path below a root.
pub open spec fn below(root: path::PathView, names: Seq<Seq<char>>) -> path::JoinedView {
    path::JoinedView { base: root, names }
}

/// The name of a workspace: that of its root directory, where it has one that
/// is not blank.
pub open spec fn workspace_name(root: path::PathView) -> Seq<char> {
    if root.parts.len() == 0 {
        "workspace"@
    } else {
        match root.parts.last() {
            path::PartView::Normal(name) => if text::blank(name) {
                "workspace"@
            } else {
                name
            },
            _ => "workspace"@,
        }
    }
}

/// The directories of a new workspace.
pub open spec fn layout(root: path::PathView, with_inputs: bool) -> Seq<path::JoinedView> {
    let dirs = seq![
        below(root, seq![]),
        below(root, seq![ARTIFACTS_DIR@]),
        below(root, seq![ANALYSIS_DIR@]),
    ];
    if with_inputs {
        dirs.push(below(root, seq![INPUTS_DIR@]))
    } else {
        dirs
    }
}

/// The name of a workspace.
pub fn name_for(root: &HostPath) -> (name: String)
    ensures
        name@ == workspace_name(root@),
{
    match root.file_name() {
        Some(PathPart::Normal(name)) => if text::is_blank(name.as_str()) {
            "workspace".to_owned()
        } else {
            name.clone()
        },
        _ => "workspace".to_owned(),
    }
}

/// A segment of a path that stays where it is put: a name that is not blank,
/// not a step, and without a separator.
pub open spec fn valid_segment(value: Seq<char>) -> bool {
    &&& !text::blank(value)
    &&& value != "."@
    &&& value != ".."@
    &&& !value.contains('/')
    &&& !value.contains('\\')
}

/// Accepts a segment of an artifact path.
pub fn validate_path_segment(value: &str) -> (verdict: Result<(), WorkspaceError>)
    ensures
        match verdict {
            Ok(()) => valid_segment(value@),
            Err(WorkspaceError::InvalidPathSegment(refused)) => !valid_segment(value@) && refused@
                == value@,
            Err(_) => false,
        },
{
    if text::is_blank(value) || text::text_eq(value, ".") || text::text_eq(value, "..")
        || text::contains_char(value, '/') || text::contains_char(value, '\\') {
        return Err(WorkspaceError::InvalidPathSegment(value.to_owned()));
    }
    Ok(())
}

/// A path that names an artifact: relative, under `artifacts`, and made of
/// names only.
pub open spec fn valid_artifact_path(candidate: path::PathView) -> bool {
    &&& !candidate.absolute
    &&& candidate.parts.len() > 0
    &&& candidate.parts[0] == path::PartView::Normal(ARTIFACTS_DIR@)
    &&& forall|i: int| 0 <= i < candidate.parts.len() ==> (#[trigger] candidate.parts[i]).is_name()
}

/// Accepts a path that names an artifact.
pub fn validate_artifact_relative_path(candidate: &HostPath) -> (verdict: Result<(), WorkspaceError>)
    ensures
        match verdict {
            Ok(()) => valid_artifact_path(candidate@),
            Err(WorkspaceError::InvalidArtifactPath(refused)) => !valid_artifact_path(candidate@)
                && refused@ == candidate@,
            Err(_) => false,
        },
{
    if candidate.absolute {
        return Err(WorkspaceError::InvalidArtifactPath(candidate.clone()));
    }
    let starts: bool = if candidate.parts.len() > 0 {
        assert(candidate@.parts[0] == candidate.parts@[0]@);
        match &candidate.parts[0] {
            PathPart::Normal(first) => text::text_eq(first.as_str(), ARTIFACTS_DIR),
            _ => false,
        }
    } else {
        false
    };
    if !starts {
        return Err(WorkspaceError::InvalidArtifactPath(candidate.clone()));
    }
    let mut i: usize = 1;
    while i < candidate.parts.len()
        invariant
            1 <= i <= candidate.parts.len(),
            forall|k: int| 0 <= k < i ==> (#[trigger] candidate@.parts[k]).is_name(),
        decreases candidate.parts.len() - i,
    {
        assert(candidate@.parts[i as int] == candidate.parts@[i as int]@);
        let named: bool = match &candidate.parts[i] {
            PathPart::Normal(_) => true,
            PathPart::Opaque(_) => true,
            _ => false,
        };
        if !named {
            return Err(WorkspaceError::InvalidArtifactPath(candidate.clone()));
        }
        i = i + 1;
    }
    Ok(())
}

/// The first path of a list that exists, by its position; the first of all
/// where none does. The list holds a path and its ancestors in turn.
pub fn nearest_existing_ancestor(exists: &Vec<bool>) -> (at: usize)
    requires
        exists@.len() > 0,
    ensures
        at < exists@.len(),
        if exists@.contains(true) {
            exists@[at as int] && forall|k: int| 0 <= k < at ==> !#[trigger] exists@[k]
        } else {
            at == 0
        },
{
    let mut i: usize = 0;
    while i < exists.len()
        invariant
            i <= exists.len(),
            forall|k: int| 0 <= k < i ==> !#[trigger] exists@[k],
        decreases exists.len() - i,
    {
        if exists[i] {
            assert(exists@[i as int]);
            return i;
        }
        i = i + 1;
    }
    0
}

/// Where the host's links lead: the canonical paths of the artifact directory,
/// of the workspace, and of the nearest directory above an artifact that is
/// there.
#[derive(Debug)]
pub struct Containment {
    pub artifact_root: Result<HostPath, WorkspaceError>,
    pub workspace_root: Result<HostPath, WorkspaceError>,
    pub ancestor: Result<HostPath, WorkspaceError>,
}

/// The links lead nowhere outside: the artifact directory lies in the
/// workspace, and the artifact in the artifact directory.
pub open spec fn contained(links: Containment) -> bool {
    &&& links.artifact_root matches Ok(artifact_root)
    &&& links.workspace_root matches Ok(workspace_root)
    &&& links.ancestor matches Ok(ancestor)
    &&& path::keys(workspace_root@.parts).is_prefix_of(path::keys(artifact_root@.parts))
    &&& path::keys(artifact_root@.parts).is_prefix_of(path::keys(ancestor@.parts))
}

/// The first error that following the links met, if any. The ancestor is
/// followed last, and only for an artifact directory that lies in the
/// workspace.
pub open spec fn link_error(links: Containment) -> Option<WorkspaceError> {
    match (links.artifact_root, links.workspace_root) {
        (Err(error), _) => Some(error),
        (_, Err(error)) => Some(error),
        (Ok(artifact_root), Ok(workspace_root)) => if path::keys(
            workspace_root@.parts,
        ).is_prefix_of(path::keys(artifact_root@.parts)) {
            match links.ancestor {
                Err(error) => Some(error),
                Ok(_) => None,
            }
        } else {
            None
        },
    }
}

/// The artifact directory itself lies outside the workspace.
pub open spec fn artifact_root_escapes(links: Containment) -> bool {
    &&& links.artifact_root matches Ok(artifact_root)
    &&& links.workspace_root matches Ok(workspace_root)
    &&& !path::keys(workspace_root@.parts).is_prefix_of(path::keys(artifact_root@.parts))
}

/// The artifact directory, relative to the root.
pub open spec fn artifacts_dir() -> path::PathView {
    path::PathView {
        text: ARTIFACTS_DIR@,
        raw: None,
        absolute: false,
        parts: path::portable_parts(ARTIFACTS_DIR@),
    }
}

/// Accepts an artifact below a root whose links lead nowhere outside.
pub fn ensure_contained(root: &HostPath, relative: &HostPath, links: Containment) -> (verdict:
    Result<(), WorkspaceError>)
    ensures
        match verdict {
            Ok(()) => contained(links),
            Err(error) => {
                &&& !contained(links)
                &&& match link_error(links) {
                    Some(met) => error == met,
                    None => error matches WorkspaceError::InvalidArtifactPath(refused)
                        && if artifact_root_escapes(links) {
                        refused@ == artifacts_dir()
                    } else {
                        refused@ == path::below_root(relative@, root@)
                    },
                }
            },
        },
{
    let artifact_root: HostPath = match links.artifact_root {
        Ok(found) => found,
        Err(error) => return Err(error),
    };
    let workspace_root: HostPath = match links.workspace_root {
        Ok(found) => found,
        Err(error) => return Err(error),
    };
    if !artifact_root.starts_with(&workspace_root) {
        let refused: HostPath = HostPath::new(ARTIFACTS_DIR);
        proof {
            reveal_strlit("artifacts");
            assert(path::portable(ARTIFACTS_DIR@));
            assert(refused@ =~= artifacts_dir());
        }
        return Err(WorkspaceError::InvalidArtifactPath(refused));
    }
    let ancestor: HostPath = match links.ancestor {
        Ok(found) => found,
        Err(error) => return Err(error),
    };
    if !ancestor.starts_with(&artifact_root) {
        return Err(WorkspaceError::InvalidArtifactPath(relative.below(root)));
    }
    Ok(())
}

/// The place of an artifact: a path relative to a workspace root.
#[derive(Debug)]
pub struct ArtifactPath {
    pub root: HostPath,
    pub relative: HostPath,
}

/// A new artifact's place: the directory to create, and the file in it.
#[derive(Debug)]
pub struct AllocatedPath {
    pub dir: JoinedPath,
    pub path: JoinedPath,
}

/// The outcomes of resolving an artifact path.
pub open spec fn resolves(
    outcome: Result<ArtifactPath, WorkspaceError>,
    root: path::PathView,
    relative: path::PathView,
    links: Containment,
) -> bool {
    match outcome {
        Ok(found) => {
            &&& valid_artifact_path(relative)
            &&& contained(links)
            &&& found.root@ == root
            &&& found.relative@ == relative
        },
        Err(error) => if !valid_artifact_path(relative) {
            error matches WorkspaceError::InvalidArtifactPath(refused) && refused@ == relative
        } else {
            &&& !contained(links)
            &&& match link_error(links) {
                Some(met) => error == met,
                None => error matches WorkspaceError::InvalidArtifactPath(refused)
                    && if artifact_root_escapes(links) {
                    refused@ == artifacts_dir()
                } else {
                    refused@ == path::below_root(relative, root)
                },
            }
        },
    }
}

/// The outcomes of planning a new workspace.
pub open spec fn makes(
    plan: Result<InitPlan, WorkspaceError>,
    root: HostPath,
    options: WorkspaceInitOptions,
    manifest_exists: bool,
    now: Timestamp,
) -> bool {
    match plan {
        Err(error) => manifest_exists && error == WorkspaceError::AlreadyExists(root),
        Ok(made) => {
            &&& !manifest_exists
            &&& joined_views(made.dirs@) == layout(root@, options.create_inputs)
            &&& match made.workspace {
                Ok(workspace) => {
                    let manifest = workspace.manifest_value();
                    &&& model::valid_id(workspace_name(root@))
                    &&& workspace.root_view() == root@
                    &&& manifest.schema_version == 1
                    &&& manifest.workspace_id@ == workspace_name(root@)
                    &&& manifest.created_at == now
                    &&& manifest.tool.name@ == "DbgAtlas"@
                    &&& manifest.tool.version@ == TOOL_VERSION@
                },
                Err(error) => {
                    &&& !model::valid_id(workspace_name(root@))
                    &&& error matches WorkspaceError::InvalidId(invalid)
                    &&& invalid@ == model::invalid_id_reason(workspace_name(root@))
                },
            }
        },
    }
}

/// The outcomes of opening a workspace.
pub open spec fn opens(
    outcome: Result<Workspace, WorkspaceError>,
    root: path::PathView,
    manifest: Option<Result<WorkspaceManifest, WorkspaceError>>,
) -> bool {
    match manifest {
        None => outcome matches Err(WorkspaceError::ManifestNotFound(missing)) && missing@ == below(
            root,
            seq![MANIFEST_FILE@],
        ),
        Some(Err(error)) => outcome == Err::<Workspace, WorkspaceError>(error),
        Some(Ok(found)) => outcome matches Ok(opened) && opened.root_view() == root
            && opened.manifest_value() == found,
    }
}

/// The outcomes of registering an artifact: the log to enter it in, or why it
/// is refused.
pub open spec fn registers(
    log: Result<JoinedPath, WorkspaceError>,
    root: path::PathView,
    relative: path::PathView,
    links: Containment,
) -> bool {
    match log {
        Ok(found) => {
            &&& valid_artifact_path(relative)
            &&& contained(links)
            &&& found@ == below(root, seq![ARTIFACTS_LOG@])
        },
        Err(error) => resolves(Err(error), root, relative, links),
    }
}

impl Workspace {
    /// The root directory.
    pub closed spec fn root_view(&self) -> path::PathView {
        self.root@
    }

    /// The manifest.
    pub closed spec fn manifest_value(&self) -> WorkspaceManifest {
        self.manifest
    }

    /// Plans a new workspace at `root`. `manifest_exists` says whether the
    /// root holds a manifest already.
    pub fn init(
        root: HostPath,
        options: WorkspaceInitOptions,
        manifest_exists: bool,
        now: Timestamp,
    ) -> (plan: Result<InitPlan, WorkspaceError>)
        ensures
            makes(plan, root, options, manifest_exists, now),
    {
        if manifest_exists {
            return Err(WorkspaceError::AlreadyExists(root));
        }
        let mut dirs: Vec<JoinedPath> = Vec::new();
        dirs.push(JoinedPath::at(&root));
        dirs.push(JoinedPath::below(&root, ARTIFACTS_DIR));
        dirs.push(JoinedPath::below(&root, ANALYSIS_DIR));
        if options.create_inputs {
            dirs.push(JoinedPath::below(&root, INPUTS_DIR));
        }
        assert(joined_views(dirs@) =~= layout(root@, options.create_inputs));
        let name: String = name_for(&root);
        let workspace: Result<Workspace, WorkspaceError> = match Id::new(name.as_str()) {
            Err(error) => Err(WorkspaceError::InvalidId(error)),
            Ok(workspace_id) => {
                let manifest: WorkspaceManifest = WorkspaceManifest {
                    schema_version: 1,
                    workspace_id,
                    created_at: now,
                    tool: ToolInfo {
                        name: "DbgAtlas".to_owned(),
                        version: TOOL_VERSION.to_owned(),
                    },
                };
                Ok(Workspace { root, manifest })
            },
        };
        Ok(InitPlan { dirs, workspace })
    }

    /// Opens the workspace at `root`. `manifest` is what its manifest holds,
    /// where there is one.
    pub fn open(
        root: HostPath,
        manifest: Option<Result<WorkspaceManifest, WorkspaceError>>,
    ) -> (workspace: Result<Self, WorkspaceError>)
        ensures
            opens(workspace, root@, manifest),
    {
        match manifest {
            None => Err(
                WorkspaceError::ManifestNotFound(JoinedPath::below(&root, MANIFEST_FILE)),
            ),
            Some(Err(error)) => Err(error),
            Some(Ok(manifest)) => Ok(Workspace { root, manifest }),
        }
    }

    pub fn root(&self) -> (root: &HostPath)
        ensures
            root@ == self.root_view(),
    {
        &self.root
    }

    pub fn manifest(&self) -> (manifest: &WorkspaceManifest)
        ensures
            *manifest == self.manifest_value(),
    {
        &self.manifest
    }

    pub fn manifest_path(&self) -> (path: JoinedPath)
        ensures
            path@ == below(self.root_view(), seq![MANIFEST_FILE@]),
    {
        JoinedPath::below(&self.root, MANIFEST_FILE)
    }

    /// A summary of the workspace. `dirs` says which directories are there.
    pub fn info(&self, dirs: LayoutDirs) -> (info: WorkspaceInfo)
        ensures
            info.root@ == self.root_view(),
            info.manifest == self.manifest_value(),
            info.has_artifacts_dir == dirs.artifacts,
            info.has_analysis_dir == dirs.analysis,
            info.has_inputs_dir == dirs.inputs,
    {
        WorkspaceInfo {
            root: self.root.clone(),
            manifest: self.manifest.clone(),
            has_artifacts_dir: dirs.artifacts,
            has_analysis_dir: dirs.analysis,
            has_inputs_dir: dirs.inputs,
        }
    }

    /// The place of a new artifact of a kind.
    pub fn allocate_artifact_path(&self, kind: &str, file_name: &str) -> (allocated: Result<
        AllocatedPath,
        WorkspaceError,
    >)
        ensures
            match allocated {
                Ok(made) => {
                    &&& valid_segment(kind@)
                    &&& valid_segment(file_name@)
                    &&& made.dir@ == below(self.root_view(), seq![ARTIFACTS_DIR@, kind@])
                    &&& made.path@ == below(
                        self.root_view(),
                        seq![ARTIFACTS_DIR@, kind@, file_name@],
                    )
                },
                Err(WorkspaceError::InvalidPathSegment(refused)) => if !valid_segment(kind@) {
                    refused@ == kind@
                } else {
                    !valid_segment(file_name@) && refused@ == file_name@
                },
                Err(_) => false,
            },
    {
        if let Err(error) = validate_path_segment(kind) {
            return Err(error);
        }
        if let Err(error) = validate_path_segment(file_name) {
            return Err(error);
        }
        let dir: JoinedPath = JoinedPath::below(&self.root, ARTIFACTS_DIR).join(kind);
        assert(dir@ =~= below(self.root_view(), seq![ARTIFACTS_DIR@, kind@]));
        let file: JoinedPath = dir.clone().join(file_name);
        assert(file@ =~= below(self.root_view(), seq![ARTIFACTS_DIR@, kind@, file_name@]));
        Ok(AllocatedPath { dir, path: file })
    }

    fn ensure_domain_artifact_dir(&self, domain: &str, id: &Id) -> (dir: JoinedPath)
        ensures
            dir@ == below(self.root_view(), seq![ARTIFACTS_DIR@, domain@, id@]),
    {
        let dir: JoinedPath = JoinedPath::below(&self.root, ARTIFACTS_DIR).join(domain).join(
            id.as_str(),
        );
        assert(dir@ =~= below(self.root_view(), seq![ARTIFACTS_DIR@, domain@, id@]));
        dir
    }

    /// The directory to create for the artifacts of a debug session.
    pub fn ensure_session_artifact_dir(&self, session_id: &Id) -> (dir: JoinedPath)
        ensures
            dir@ == below(self.root_view(), seq![ARTIFACTS_DIR@, SESSIONS_DIR@, session_id@]),
    {
        self.ensure_domain_artifact_dir(SESSIONS_DIR, session_id)
    }

    /// The directory to create for the artifacts of a profile.
    pub fn ensure_profile_artifact_dir(&self, profile_id: &Id) -> (dir: JoinedPath)
        ensures
            dir@ == below(self.root_view(), seq![ARTIFACTS_DIR@, PROFILES_DIR@, profile_id@]),
    {
        self.ensure_domain_artifact_dir(PROFILES_DIR, profile_id)
    }

    /// The directory to create for the artifacts of a time travel recording.
    pub fn ensure_ttd_recording_artifact_dir(&self, recording_id: &Id) -> (dir: JoinedPath)
        ensures
            dir@ == below(
                self.root_view(),
                seq![ARTIFACTS_DIR@, TTD_RECORDINGS_DIR@, recording_id@],
            ),
    {
        self.ensure_domain_artifact_dir(TTD_RECORDINGS_DIR, recording_id)
    }

    /// The directory to create for the artifacts of a reverse session.
    pub fn ensure_reverse_session_artifact_dir(&self, session_id: &Id) -> (dir: JoinedPath)
        ensures
            dir@ == below(
                self.root_view(),
                seq![ARTIFACTS_DIR@, REVERSE_SESSIONS_DIR@, session_id@],
            ),
    {
        self.ensure_domain_artifact_dir(REVERSE_SESSIONS_DIR, session_id)
    }

    /// The place of an artifact that is named relative to the root. `links`
    /// says where the host's links lead.
    pub fn resolve_artifact_relative_path(&self, relative: &HostPath, links: Containment) -> (place:
        Result<ArtifactPath, WorkspaceError>)
        ensures
            resolves(place, self.root_view(), relative@, links),
    {
        if let Err(error) = validate_artifact_relative_path(relative) {
            return Err(error);
        }
        if let Err(error) = ensure_contained(&self.root, relative, links) {
            return Err(error);
        }
        Ok(ArtifactPath { root: self.root.clone(), relative: relative.clone() })
    }

    /// The log that an artifact is entered in, where its path is accepted.
    pub fn register_artifact(&self, metadata: &ArtifactMetadata, links: Containment) -> (log: Result<
        JoinedPath,
        WorkspaceError,
    >)
        ensures
            registers(log, self.root_view(), metadata.relative_path@, links),
    {
        match self.resolve_artifact_relative_path(&metadata.relative_path, links) {
            Err(error) => Err(error),
            Ok(_) => Ok(JoinedPath::below(&self.root, ARTIFACTS_LOG)),
        }
    }

    /// The artifacts that the lines of the artifact log enter.
    pub fn list_artifacts<F: Fn(String) -> Result<ArtifactMetadata, String>>(
        &self,
        lines: Option<Vec<String>>,
        parse: F,
    ) -> (artifacts: Result<Vec<ArtifactMetadata>, WorkspaceError>)
        requires
            forall|line: String| #[trigger] call_requires(parse, (line,)),
        ensures
            read_outcome(artifacts, below(self.root_view(), seq![ARTIFACTS_LOG@]), lines, parse),
    {
        read_json_lines(JoinedPath::below(&self.root, ARTIFACTS_LOG), lines, parse)
    }

    /// The first artifact of that name among those that the log enters.
    pub fn get_artifact(
        artifacts: Result<Vec<ArtifactMetadata>, WorkspaceError>,
        artifact_id: &ArtifactRef,
    ) -> (artifact: Result<Option<ArtifactMetadata>, WorkspaceError>)
        ensures
            match (artifacts, artifact) {
                (Err(error), Err(returned)) => returned == error,
                (Ok(all), Ok(Some(found))) => exists|i: int|
                    0 <= i < all@.len() && #[trigger] all@[i] == found && found.artifact_id.id@
                        == artifact_id.id@ && forall|k: int|
                        0 <= k < i ==> (#[trigger] all@[k]).artifact_id.id@ != artifact_id.id@,
                (Ok(all), Ok(None)) => forall|k: int|
                    0 <= k < all@.len() ==> (#[trigger] all@[k]).artifact_id.id@ != artifact_id.id@,
                _ => false,
            },
    {
        let mut all: Vec<ArtifactMetadata> = match artifacts {
            Ok(all) => all,
            Err(error) => return Err(error),
        };
        let mut i: usize = 0;
        while i < all.len()
            invariant_except_break
                i <= all.len(),
                forall|k: int| 0 <= k < i ==> (#[trigger] all@[k]).artifact_id.id@ != artifact_id.id@,
            ensures
                i <= all.len(),
                forall|k: int| 0 <= k < i ==> (#[trigger] all@[k]).artifact_id.id@ != artifact_id.id@,
                i < all.len() ==> all@[i as int].artifact_id.id@ == artifact_id.id@,
            decreases all.len() - i,
        {
            if all[i].artifact_id.id.same(&artifact_id.id) {
                break;
            }
            i = i + 1;
        }
        if i < all.len() {
            let ghost before = all@;
            let found: ArtifactMetadata = all.remove(i);
            assert(before[i as int] == found);
            return Ok(Some(found));
        }
        Ok(None)
    }

    /// The log that an operation is entered in.
    pub fn append_operation(&self) -> (log: JoinedPath)
        ensures
            log@ == below(self.root_view(), seq![OPERATIONS_LOG@]),
    {
        JoinedPath::below(&self.root, OPERATIONS_LOG)
    }

    /// The operations that the lines of the operation log enter.
    pub fn list_operations<F: Fn(String) -> Result<OperationRecord, String>>(
        &self,
        lines: Option<Vec<String>>,
        parse: F,
    ) -> (operations: Result<Vec<OperationRecord>, WorkspaceError>)
        requires
            forall|line: String| #[trigger] call_requires(parse, (line,)),
        ensures
            read_outcome(operations, below(self.root_view(), seq![OPERATIONS_LOG@]), lines, parse),
    {
        read_json_lines(JoinedPath::below(&self.root, OPERATIONS_LOG), lines, parse)
    }

    /// The last record of that operation among those that the log enters.
    pub fn get_operation(
        operations: Result<Vec<OperationRecord>, WorkspaceError>,
        operation_id: &OperationRef,
    ) -> (operation: Result<Option<OperationRecord>, WorkspaceError>)
        ensures
            match (operations, operation) {
                (Err(error), Err(returned)) => returned == error,
                (Ok(all), Ok(Some(found))) => exists|i: int|
                    0 <= i < all@.len() && #[trigger] all@[i] == found && found.operation_id.id@
                        == operation_id.id@ && forall|k: int|
                        i < k < all@.len() ==> (#[trigger] all@[k]).operation_id.id@
                            != operation_id.id@,
                (Ok(all), Ok(None)) => forall|k: int|
                    0 <= k < all@.len() ==> (#[trigger] all@[k]).operation_id.id@
                        != operation_id.id@,
                _ => false,
            },
    {
        let mut all: Vec<OperationRecord> = match operations {
            Ok(all) => all,
            Err(error) => return Err(error),
        };
        let mut i: usize = all.len();
        while i > 0
            invariant_except_break
                i <= all.len(),
                forall|k: int|
                    i <= k < all.len() ==> (#[trigger] all@[k]).operation_id.id@ != operation_id.id@,
            ensures
                i <= all.len(),
                forall|k: int|
                    i <= k < all.len() ==> (#[trigger] all@[k]).operation_id.id@ != operation_id.id@,
                i > 0 ==> all@[i - 1].operation_id.id@ == operation_id.id@,
            decreases i,
        {
            if all[i - 1].operation_id.id.same(&operation_id.id) {
                break;
            }
            i = i - 1;
        }
        if i > 0 {
            let ghost before = all@;
            let found: OperationRecord = all.remove(i - 1);
            assert(before[i - 1] == found);
            return Ok(Some(found));
        }
        Ok(None)
    }

    /// The log that a command is entered in.
    pub fn append_command_audit(&self) -> (log: JoinedPath)
        ensures
            log@ == below(self.root_view(), seq![COMMAND_AUDIT_LOG@]),
    {
        JoinedPath::below(&self.root, COMMAND_AUDIT_LOG)
    }

    /// The commands that the lines of the command audit log enter.
    pub fn list_command_audit<F: Fn(String) -> Result<CommandAuditRecord, String>>(
        &self,
        lines: Option<Vec<String>>,
        parse: F,
    ) -> (commands: Result<Vec<CommandAuditRecord>, WorkspaceError>)
        requires
            forall|line: String| #[trigger] call_requires(parse, (line,)),
        ensures
            read_outcome(commands, below(self.root_view(), seq![COMMAND_AUDIT_LOG@]), lines, parse),
    {
        read_json_lines(JoinedPath::below(&self.root, COMMAND_AUDIT_LOG), lines, parse)
    }

    /// Everything that the logs say, or the first error met in reading them.
    pub fn facts(
        artifacts: Result<Vec<ArtifactMetadata>, WorkspaceError>,
        operations: Result<Vec<OperationRecord>, WorkspaceError>,
        command_audit: Result<Vec<CommandAuditRecord>, WorkspaceError>,
    ) -> (facts: Result<WorkspaceFacts, WorkspaceError>)
        ensures
            facts == match (artifacts, operations, command_audit) {
                (Err(error), _, _) => Err::<WorkspaceFacts, WorkspaceError>(error),
                (_, Err(error), _) => Err::<WorkspaceFacts, WorkspaceError>(error),
                (_, _, Err(error)) => Err::<WorkspaceFacts, WorkspaceError>(error),
                (Ok(artifacts), Ok(operations), Ok(command_audit)) => Ok::<
                    WorkspaceFacts,
                    WorkspaceError,
                >(WorkspaceFacts { artifacts, operations, command_audit }),
            },
    {
        let artifacts: Vec<ArtifactMetadata> = match artifacts {
            Ok(found) => found,
            Err(error) => return Err(error),
        };
        let operations: Vec<OperationRecord> = match operations {
            Ok(found) => found,
            Err(error) => return Err(error),
        };
        let command_audit: Vec<CommandAuditRecord> = match command_audit {
            Ok(found) => found,
            Err(error) => return Err(error),
        };
        Ok(WorkspaceFacts { artifacts, operations, command_audit })
    }

    /// The file that an event is appended to, where its path is accepted.
    pub fn append_event_jsonl(&self, relative: &HostPath, links: Containment) -> (place: Result<
        ArtifactPath,
        WorkspaceError,
    >)
        ensures
            resolves(place, self.root_view(), relative@, links),
    {
        self.resolve_artifact_relative_path(relative, links)
    }

    /// The file that a text is appended to, where its path is accepted.
    pub fn append_text_artifact(&self, relative: &HostPath, links: Containment) -> (place: Result<
        ArtifactPath,
        WorkspaceError,
    >)
        ensures
            resolves(place, self.root_view(), relative@, links),
    {
        self.resolve_artifact_relative_path(relative, links)
    }
}

/// The records come from the lines in order: each line that is not blank gives
/// one.
pub open spec fn records_of<T, F: Fn(String) -> Result<T, String>>(
    lines: Seq<String>,
    parse: F,
    records: Seq<T>,
) -> bool
    decreases lines.len(),
{
    if lines.len() == 0 {
        records.len() == 0
    } else if text::blank(lines.last()@) {
        records_of(lines.drop_last(), parse, records)
    } else {
        &&& records.len() > 0
        &&& call_ensures(parse, (lines.last(),), Ok::<T, String>(records.last()))
        &&& records_of(lines.drop_last(), parse, records.drop_last())
    }
}

/// The line at `at` is the first that is not blank and gives no record.
pub open spec fn stops_at<T, F: Fn(String) -> Result<T, String>>(
    lines: Seq<String>,
    parse: F,
    at: int,
    source: String,
) -> bool {
    &&& 0 <= at < lines.len()
    &&& !text::blank(lines[at]@)
    &&& call_ensures(parse, (lines[at],), Err::<T, String>(source))
    &&& exists|records: Seq<T>| records_of(lines.take(at), parse, records)
}

/// The outcomes of reading a log: none of its lines where it is not there, its
/// records, or the error of the first line that gives none.
pub open spec fn read_outcome<T, F: Fn(String) -> Result<T, String>>(
    outcome: Result<Vec<T>, WorkspaceError>,
    log: path::JoinedView,
    lines: Option<Vec<String>>,
    parse: F,
) -> bool {
    match (lines, outcome) {
        (None, Ok(records)) => records@.len() == 0,
        (Some(read), Ok(records)) => records_of(read@, parse, records@),
        (Some(read), Err(WorkspaceError::Json { path: named, source })) => {
            &&& named@ == log
            &&& exists|at: int| #[trigger] stops_at::<T, F>(read@, parse, at, source)
        },
        _ => false,
    }
}

/// Reads the records of a log, one from each line that is not blank.
pub fn read_json_lines<T, F: Fn(String) -> Result<T, String>>(
    log: JoinedPath,
    lines: Option<Vec<String>>,
    parse: F,
) -> (records: Result<Vec<T>, WorkspaceError>)
    requires
        forall|line: String| #[trigger] call_requires(parse, (line,)),
    ensures
        read_outcome(records, log@, lines, parse),
{
    let read: Vec<String> = match lines {
        None => return Ok(Vec::new()),
        Some(read) => read,
    };
    let mut records: Vec<T> = Vec::new();
    let mut i: usize = 0;
    while i < read.len()
        invariant
            i <= read.len(),
            lines == Some(read),
            forall|line: String| #[trigger] call_requires(parse, (line,)),
            records_of(read@.take(i as int), parse, records@),
        decreases read.len() - i,
    {
        assert(read@.take(i + 1).drop_last() =~= read@.take(i as int));
        assert(read@.take(i + 1).last() == read@[i as int]);
        if !text::is_blank(read[i].as_str()) {
            match parse(read[i].clone()) {
                Ok(record) => {
                    let ghost before = records@;
                    records.push(record);
                    assert(records@.drop_last() =~= before);
                },
                Err(source) => {
                    assert(stops_at::<T, F>(lines->0@, parse, i as int, source));
                    let refusal: Result<Vec<T>, WorkspaceError> = Err(
                        WorkspaceError::Json { path: log, source },
                    );
                    assert(stops_at::<T, F>(
                        lines->0@,
                        parse,
                        i as int,
                        refusal->Err_0->Json_source,
                    ));
                    return refusal;
                },
            }
        }
        i = i + 1;
    }
    assert(read@.take(i as int) =~= read@);
    Ok(records)
}

/// What is appended to a log is read back behind everything before it: a line
/// that is not blank and that stands for a record adds that record, and
/// changes no other.
pub proof fn law_appended_records_are_read_back<T, F: Fn(String) -> Result<T, String>>(
    lines: Seq<String>,
    parse: F,
    records: Seq<T>,
    line: String,
    record: T,
)
    requires
        records_of(lines, parse, records),
        !text::blank(line@),
        call_ensures(parse, (line,), Ok::<T, String>(record)),
    ensures
        records_of(lines.push(line), parse, records.push(record)),
{
    assert(lines.push(line).drop_last() =~= lines);
    assert(records.push(record).drop_last() =~= records);
}

/// A blank line in a log changes nothing.
pub proof fn law_blank_lines_are_skipped<T, F: Fn(String) -> Result<T, String>>(
    lines: Seq<String>,
    parse: F,
    records: Seq<T>,
    line: String,
)
    requires
        records_of(lines, parse, records),
        text::blank(line@),
    ensures
        records_of(lines.push(line), parse, records),
{
    assert(lines.push(line).drop_last() =~= lines);
}

/// The reader of a log reads a line in one way only.
pub open spec fn reads_in_one_way<T, F: Fn(String) -> Result<T, String>>(parse: F) -> bool {
    forall|line: String, first: Result<T, String>, second: Result<T, String>|
        #[trigger] call_ensures(parse, (line,), first) && #[trigger] call_ensures(
            parse,
            (line,),
            second,
        ) ==> first == second
}

/// A line is not blank, and is read as `record`.
pub open spec fn stands_for<T, F: Fn(String) -> Result<T, String>>(
    line: String,
    parse: F,
    record: T,
) -> bool {
    !text::blank(line@) && call_ensures(parse, (line,), Ok::<T, String>(record))
}

/// The lines of a log, none where it is not there.
pub open spec fn lines_of(log: Option<Vec<String>>) -> Seq<String> {
    match log {
        Some(lines) => lines@,
        None => seq![],
    }
}

/// Each line that is not blank is read as a record.
proof fn lemma_each_line_is_read<T, F: Fn(String) -> Result<T, String>>(
    lines: Seq<String>,
    parse: F,
    records: Seq<T>,
    at: int,
)
    requires
        records_of(lines, parse, records),
        0 <= at < lines.len(),
        !text::blank(lines[at]@),
    ensures
        exists|record: T| #[trigger]
            call_ensures(parse, (lines[at],), Ok::<T, String>(record)),
    decreases lines.len(),
{
    if at < lines.len() - 1 {
        let before = if text::blank(lines.last()@) {
            records
        } else {
            records.drop_last()
        };
        lemma_each_line_is_read(lines.drop_last(), parse, before, at);
    } else {
        assert(call_ensures(parse, (lines[at],), Ok::<T, String>(records.last())));
    }
}

/// Lines that are read in one way only stand for one list of records.
proof fn lemma_one_list<T, F: Fn(String) -> Result<T, String>>(
    lines: Seq<String>,
    parse: F,
    first: Seq<T>,
    second: Seq<T>,
)
    requires
        reads_in_one_way::<T, F>(parse),
        records_of(lines, parse, first),
        records_of(lines, parse, second),
    ensures
        first == second,
    decreases lines.len(),
{
    if lines.len() == 0 {
        assert(first =~= second);
    } else if text::blank(lines.last()@) {
        lemma_one_list(lines.drop_last(), parse, first, second);
    } else {
        lemma_one_list(lines.drop_last(), parse, first.drop_last(), second.drop_last());
        assert(Ok::<T, String>(first.last()) == Ok::<T, String>(second.last()));
        assert(first =~= first.drop_last().push(first.last()));
        assert(second =~= second.drop_last().push(second.last()));
    }
}

/// A log whose lines stand for records is read as those records: where its
/// reader reads a line in one way only, no other list and no error comes back.
pub proof fn law_logs_are_read_as_they_stand<T, F: Fn(String) -> Result<T, String>>(
    outcome: Result<Vec<T>, WorkspaceError>,
    log: path::JoinedView,
    lines: Option<Vec<String>>,
    parse: F,
    records: Seq<T>,
)
    requires
        reads_in_one_way::<T, F>(parse),
        read_outcome(outcome, log, lines, parse),
        records_of(lines_of(lines), parse, records),
    ensures
        outcome matches Ok(read) && read@ == records,
{
    match (lines, outcome) {
        (None, Ok(read)) => {
            assert(read@ =~= records);
        },
        (Some(read), Ok(found)) => {
            lemma_one_list(read@, parse, found@, records);
        },
        (Some(read), Err(WorkspaceError::Json { path: named, source })) => {
            let at = choose|at: int| #[trigger] stops_at::<T, F>(read@, parse, at, source);
            lemma_each_line_is_read(read@, parse, records, at);
            let record = choose|record: T| #[trigger]
                call_ensures(parse, (read@[at],), Ok::<T, String>(record));
            assert(Ok::<T, String>(record) == Err::<T, String>(source));
        },
        _ => {},
    }
}

/// What was read from a log is what its lines stand for.
proof fn lemma_read_records<T, F: Fn(String) -> Result<T, String>>(
    read: Vec<T>,
    log: path::JoinedView,
    lines: Option<Vec<String>>,
    parse: F,
)
    requires
        read_outcome(Ok(read), log, lines, parse),
    ensures
        records_of(lines_of(lines), parse, read@),
{
}

/// A record that is entered in a log is read behind those that were read
/// before, and none of them changes.
pub proof fn law_entered_records_are_listed<T, F: Fn(String) -> Result<T, String>>(
    log: path::JoinedView,
    before: Option<Vec<String>>,
    listed: Vec<T>,
    line: String,
    record: T,
    after: Option<Vec<String>>,
    outcome: Result<Vec<T>, WorkspaceError>,
    parse: F,
)
    requires
        reads_in_one_way::<T, F>(parse),
        read_outcome(Ok(listed), log, before, parse),
        !text::blank(line@),
        call_ensures(parse, (line,), Ok::<T, String>(record)),
        lines_of(after) == lines_of(before).push(line),
        read_outcome(outcome, log, after, parse),
    ensures
        outcome matches Ok(read) && read@ == listed@.push(record),
{
    lemma_read_records(listed, log, before, parse);
    law_appended_records_are_read_back(lines_of(before), parse, listed@, line, record);
    law_logs_are_read_as_they_stand(outcome, log, after, parse, listed@.push(record));
}

/// Records that were entered in a new log one after another are read in that
/// order, repeated ones too, and none where none was entered.
pub proof fn law_records_are_listed_in_order<T, F: Fn(String) -> Result<T, String>>(
    log: path::JoinedView,
    records: Seq<T>,
    lines: Option<Vec<String>>,
    outcome: Result<Vec<T>, WorkspaceError>,
    parse: F,
)
    requires
        reads_in_one_way::<T, F>(parse),
        lines_of(lines).len() == records.len(),
        forall|i: int|
            0 <= i < records.len() ==> #[trigger] stands_for(
                lines_of(lines)[i],
                parse,
                records[i],
            ),
        read_outcome(outcome, log, lines, parse),
    ensures
        outcome matches Ok(read) && read@ == records,
{
    lemma_lines_stand_for_records(lines_of(lines), records, parse);
    law_logs_are_read_as_they_stand(outcome, log, lines, parse, records);
}

proof fn lemma_lines_stand_for_records<T, F: Fn(String) -> Result<T, String>>(
    lines: Seq<String>,
    records: Seq<T>,
    parse: F,
)
    requires
        lines.len() == records.len(),
        forall|i: int|
            0 <= i < records.len() ==> #[trigger] stands_for(lines[i], parse, records[i]),
    ensures
        records_of(lines, parse, records),
    decreases lines.len(),
{
    if lines.len() > 0 {
        assert(stands_for(lines[lines.len() - 1], parse, records[lines.len() - 1]));
        assert forall|i: int| 0 <= i < records.drop_last().len() implies #[trigger] stands_for(
            lines.drop_last()[i],
            parse,
            records.drop_last()[i],
        ) by {
            assert(stands_for(lines[i], parse, records[i]));
        }
        lemma_lines_stand_for_records(lines.drop_last(), records.drop_last(), parse);
    }
}

/// The logs of a workspace are three different files.
pub proof fn law_logs_are_apart(root: path::PathView)
    ensures
        below(root, seq![ARTIFACTS_LOG@]) != below(root, seq![OPERATIONS_LOG@]),
        below(root, seq![ARTIFACTS_LOG@]) != below(root, seq![COMMAND_AUDIT_LOG@]),
        below(root, seq![OPERATIONS_LOG@]) != below(root, seq![COMMAND_AUDIT_LOG@]),
{
    reveal_strlit("artifacts/artifacts.jsonl");
    reveal_strlit("artifacts/operations.jsonl");
    reveal_strlit("artifacts/command_audit.jsonl");
    assert(seq![ARTIFACTS_LOG@][0].len() != seq![OPERATIONS_LOG@][0].len());
    assert(seq![ARTIFACTS_LOG@][0].len() != seq![COMMAND_AUDIT_LOG@][0].len());
    assert(seq![OPERATIONS_LOG@][0].len() != seq![COMMAND_AUDIT_LOG@][0].len());
}

/// An artifact that is registered is listed behind those that were listed
/// before; one that is refused is not entered, and the list stays as it was.
/// The log it is entered in is neither of the other two. The log's reader gives
/// back what its writer wrote, and a line that was written is not blank.
pub proof fn law_registered_artifacts_are_listed<
    F: Fn(String) -> Result<ArtifactMetadata, String>,
>(
    root: path::PathView,
    metadata: ArtifactMetadata,
    links: Containment,
    log: Result<JoinedPath, WorkspaceError>,
    before: Option<Vec<String>>,
    listed: Vec<ArtifactMetadata>,
    line: String,
    after: Option<Vec<String>>,
    outcome: Result<Vec<ArtifactMetadata>, WorkspaceError>,
    parse: F,
)
    requires
        reads_in_one_way::<ArtifactMetadata, F>(parse),
        call_ensures(parse, (line,), Ok::<ArtifactMetadata, String>(metadata)),
        !text::blank(line@),
        registers(log, root, metadata.relative_path@, links),
        read_outcome(Ok(listed), below(root, seq![ARTIFACTS_LOG@]), before, parse),
        log is Ok ==> lines_of(after) == lines_of(before).push(line),
        log is Err ==> after == before,
        read_outcome(outcome, below(root, seq![ARTIFACTS_LOG@]), after, parse),
    ensures
        outcome matches Ok(read) && read@ == if log is Ok {
            listed@.push(metadata)
        } else {
            listed@
        },
        log is Ok <==> valid_artifact_path(metadata.relative_path@) && contained(links),
        log matches Ok(entered) ==> entered@ == below(root, seq![ARTIFACTS_LOG@]) && entered@
            != below(root, seq![OPERATIONS_LOG@]) && entered@ != below(
            root,
            seq![COMMAND_AUDIT_LOG@],
        ),
{
    let place = below(root, seq![ARTIFACTS_LOG@]);
    law_logs_are_apart(root);
    lemma_read_records(listed, place, before, parse);
    if log is Ok {
        law_entered_records_are_listed(
            place,
            before,
            listed,
            line,
            metadata,
            after,
            outcome,
            parse,
        );
    } else {
        law_logs_are_read_as_they_stand(outcome, place, after, parse, listed@);
    }
}

/// A command that is entered in the audit log is listed behind those that were
/// listed before. The log's reader gives back what its writer wrote, and a
/// line that was written is not blank.
pub proof fn law_entered_commands_are_listed<F: Fn(String) -> Result<CommandAuditRecord, String>>(
    root: path::PathView,
    record: CommandAuditRecord,
    before: Option<Vec<String>>,
    listed: Vec<CommandAuditRecord>,
    line: String,
    after: Option<Vec<String>>,
    outcome: Result<Vec<CommandAuditRecord>, WorkspaceError>,
    parse: F,
)
    requires
        reads_in_one_way::<CommandAuditRecord, F>(parse),
        call_ensures(parse, (line,), Ok::<CommandAuditRecord, String>(record)),
        !text::blank(line@),
        read_outcome(Ok(listed), below(root, seq![COMMAND_AUDIT_LOG@]), before, parse),
        lines_of(after) == lines_of(before).push(line),
        read_outcome(outcome, below(root, seq![COMMAND_AUDIT_LOG@]), after, parse),
    ensures
        outcome matches Ok(read) && read@ == listed@.push(record),
        before is None ==> listed@.len() == 0,
{
    law_entered_records_are_listed(
        below(root, seq![COMMAND_AUDIT_LOG@]),
        before,
        listed,
        line,
        record,
        after,
        outcome,
        parse,
    );
}

/// A workspace that was made opens again, with its root and with every field
/// of its manifest, where the reader of manifests gives back what was written;
/// a root without a manifest does not open, and the error names the manifest
/// that is missing.
pub proof fn law_made_workspaces_open_again(
    plan: Result<InitPlan, WorkspaceError>,
    root: HostPath,
    options: WorkspaceInitOptions,
    now: Timestamp,
    made: Workspace,
    opened: Result<Workspace, WorkspaceError>,
    missing: Result<Workspace, WorkspaceError>,
)
    requires
        makes(plan, root, options, false, now),
        plan matches Ok(planned) && planned.workspace == Ok::<Workspace, WorkspaceError>(made),
        opens(opened, root@, Some(Ok(made.manifest_value()))),
        opens(missing, root@, None),
    ensures
        opened matches Ok(again) && again.root_view() == made.root_view() && again.manifest_value()
            == made.manifest_value() && again.manifest_value().schema_version == 1
            && again.manifest_value().workspace_id@ == workspace_name(root@)
            && again.manifest_value().created_at == now,
        missing matches Err(WorkspaceError::ManifestNotFound(place)) && place@ == below(
            root@,
            seq![MANIFEST_FILE@],
        ),
{
}

/// An artifact that is accepted stays under `artifacts`: its path is relative,
/// begins there, takes no step upwards, and its links lead nowhere else.
pub proof fn law_accepted_artifacts_stay_inside(
    outcome: Result<ArtifactPath, WorkspaceError>,
    root: path::PathView,
    relative: path::PathView,
    links: Containment,
)
    requires
        resolves(outcome, root, relative, links),
        outcome is Ok,
    ensures
        !relative.absolute,
        relative.parts.len() > 0,
        relative.parts[0] == path::PartView::Normal(ARTIFACTS_DIR@),
        !relative.parts.contains(path::PartView::ParentDir),
        path::keys(links.workspace_root->Ok_0@.parts).is_prefix_of(
            path::keys(links.ancestor->Ok_0@.parts),
        ),
{
    if relative.parts.contains(path::PartView::ParentDir) {
        let i = choose|i: int|
            0 <= i < relative.parts.len() && relative.parts[i] == path::PartView::ParentDir;
        assert(relative.parts[i].is_name());
    }
    let a = path::keys(links.workspace_root->Ok_0@.parts);
    let b = path::keys(links.artifact_root->Ok_0@.parts);
    let c = path::keys(links.ancestor->Ok_0@.parts);
    assert(c.subrange(0, a.len() as int) =~= c.subrange(0, b.len() as int).subrange(
        0,
        a.len() as int,
    ));
}

/// The place that is allocated for an artifact is one that is accepted: its
/// path below the root, written with slashes, names an artifact, where the
/// kind and the file name mean the same on every host.
pub proof fn law_allocated_paths_are_accepted(
    kind: Seq<char>,
    file_name: Seq<char>,
    candidate: path::PathView,
)
    requires
        valid_segment(kind),
        valid_segment(file_name),
        path::portable(kind),
        path::portable(file_name),
        candidate.text == ARTIFACTS_DIR@ + seq!['/'] + kind + seq!['/'] + file_name,
        path::portable(candidate.text) ==> !candidate.absolute && candidate.parts
            == path::portable_parts(candidate.text),
    ensures
        valid_artifact_path(candidate),
{
    let dir = ARTIFACTS_DIR@;
    reveal_strlit("artifacts");
    reveal_strlit(".");
    reveal_strlit("..");
    let whole = candidate.text;
    assert(whole[0] == 'a');
    assert forall|c: char| c == '\\' || c == ':' implies !whole.contains(c) by {
        if whole.contains(c) {
            let i = choose|i: int| 0 <= i < whole.len() && whole[i] == c;
            if i < 9 {
                assert(whole[i] == dir[i]);
            } else if i == 9 {
            } else if i < 10 + kind.len() {
                assert(whole[i] == kind[i - 10]);
                assert(kind.contains(c));
            } else if i == 10 + kind.len() {
            } else {
                assert(whole[i] == file_name[i - 11 - kind.len()]);
                assert(file_name.contains(c));
            }
        }
    }
    assert(path::portable(whole));
    assert(!dir.contains('/'));
    path::lemma_one_segment(dir);
    path::lemma_one_segment(kind);
    path::lemma_one_segment(file_name);
    path::lemma_segments_join(dir, kind);
    path::lemma_segments_join(dir + seq!['/'] + kind, file_name);
    let list = path::segments(whole);
    assert(list =~= seq![dir, kind, file_name]);
    let tail = list.drop_first();
    assert(tail =~= seq![kind, file_name]);
    assert(tail.drop_first() =~= seq![file_name]);
    assert(tail.drop_first().drop_first() =~= Seq::<Seq<char>>::empty());
    assert(kind != seq!['.']) by {
        assert("."@ =~= seq!['.']);
    }
    assert(kind != seq!['.', '.']) by {
        assert(".."@ =~= seq!['.', '.']);
    }
    assert(file_name != seq!['.']) by {
        assert("."@ =~= seq!['.']);
    }
    assert(file_name != seq!['.', '.']) by {
        assert(".."@ =~= seq!['.', '.']);
    }
    assert(kind.len() > 0 && file_name.len() > 0);
    assert(dir != seq!['.'] && dir != seq!['.', '.']);
    reveal_with_fuel(path::inner_parts, 4);
    assert(path::portable_parts(whole) =~= seq![
        path::PartView::Normal(dir),
        path::PartView::Normal(kind),
        path::PartView::Normal(file_name),
    ]);
}

} // verus!
