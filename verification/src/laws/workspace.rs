//! Laws on workspaces: where they keep what, and what their logs say.

use crate::laws::model::can_be_id;
use crate::laws::text::all_white;
use crate::model::{ArtifactRef, Id, OperationRef, Timestamp};
use crate::path::{HostPath, JoinedPath, PartView};
use crate::workspace::{
    ensure_contained, name_for, nearest_existing_ancestor, read_json_lines,
    validate_artifact_relative_path, validate_path_segment, AllocatedPath, ArtifactMetadata,
    ArtifactPath, CommandAuditRecord, Containment, InitPlan, LayoutDirs, OperationRecord,
    OperationStatus, Workspace, WorkspaceError, WorkspaceFacts, WorkspaceInfo, WorkspaceInitOptions,
    WorkspaceManifest,
};
use crate::{laws, path, text, workspace};
use vstd::prelude::*;
use vstd::string::*;

verus! {

/// A name that stays where it is put.
pub open spec fn is_segment(value: Seq<char>) -> bool {
    &&& !all_white(value)
    &&& value != "."@
    &&& value != ".."@
    &&& forall|i: int| 0 <= i < value.len() ==> (#[trigger] value[i]) != '/' && value[i] != '\\'
}

proof fn lemma_is_segment(value: Seq<char>)
    ensures
        workspace::valid_segment(value) == is_segment(value),
{
    laws::text::lemma_blank_is_white(value);
    if value.contains('/') {
        let i = choose|i: int| 0 <= i < value.len() && value[i] == '/';
        assert(value[i] == '/');
    }
    if value.contains('\\') {
        let i = choose|i: int| 0 <= i < value.len() && value[i] == '\\';
        assert(value[i] == '\\');
    }
    if workspace::valid_segment(value) {
        assert forall|i: int| 0 <= i < value.len() implies (#[trigger] value[i]) != '/' && value[i]
            != '\\' by {
            if value[i] == '/' {
                assert(value.contains('/'));
            }
            if value[i] == '\\' {
                assert(value.contains('\\'));
            }
        }
    }
}

/// A segment is accepted where it stays where it is put, and is handed back
/// where it is refused.
pub proof fn law_segments_stay_where_they_are_put(
    value: &str,
    verdict: Result<(), WorkspaceError>,
)
    requires
        call_ensures(validate_path_segment, (value,), verdict),
    ensures
        verdict is Ok <==> is_segment(value@),
        verdict matches Err(error) ==> (error matches WorkspaceError::InvalidPathSegment(refused)
            && refused@ == value@),
{
    lemma_is_segment(value@);
}

/// A new artifact is kept below the directory of its kind, under its own
/// name, where both names stay where they are put; the kind is tested first.
pub proof fn law_artifacts_are_kept_by_kind(
    kept: Workspace,
    kind: &str,
    file_name: &str,
    allocated: Result<AllocatedPath, WorkspaceError>,
)
    requires
        call_ensures(Workspace::allocate_artifact_path, (&kept, kind, file_name), allocated),
    ensures
        allocated is Ok <==> is_segment(kind@) && is_segment(file_name@),
        allocated matches Ok(made) ==> {
            &&& made.dir@.base == kept.root_view()
            &&& made.dir@.names == seq!["artifacts"@, kind@]
            &&& made.path@.base == kept.root_view()
            &&& made.path@.names == seq!["artifacts"@, kind@, file_name@]
        },
        allocated matches Err(error) ==> (error matches WorkspaceError::InvalidPathSegment(refused)
            && refused@ == if is_segment(kind@) {
            file_name@
        } else {
            kind@
        }),
{
    lemma_is_segment(kind@);
    lemma_is_segment(file_name@);
}

/// The artifacts of sessions, profiles and recordings are kept below the
/// directory of their domain, under their own id.
pub proof fn law_domains_are_kept_apart(
    kept: Workspace,
    id: Id,
    sessions: JoinedPath,
    profiles: JoinedPath,
    recordings: JoinedPath,
    reverse: JoinedPath,
)
    requires
        call_ensures(Workspace::ensure_session_artifact_dir, (&kept, &id), sessions),
        call_ensures(Workspace::ensure_profile_artifact_dir, (&kept, &id), profiles),
        call_ensures(Workspace::ensure_ttd_recording_artifact_dir, (&kept, &id), recordings),
        call_ensures(Workspace::ensure_reverse_session_artifact_dir, (&kept, &id), reverse),
    ensures
        sessions@.base == kept.root_view(),
        sessions@.names == seq!["artifacts"@, "sessions"@, id@],
        profiles@.base == kept.root_view(),
        profiles@.names == seq!["artifacts"@, "profiles"@, id@],
        recordings@.base == kept.root_view(),
        recordings@.names == seq!["artifacts"@, "ttd_recordings"@, id@],
        reverse@.base == kept.root_view(),
        reverse@.names == seq!["artifacts"@, "reverse_sessions"@, id@],
{
}

/// The manifest and the logs stand at their places below the root.
pub proof fn law_logs_stand_at_their_places(
    kept: Workspace,
    manifest: JoinedPath,
    operations: JoinedPath,
    commands: JoinedPath,
)
    requires
        call_ensures(Workspace::manifest_path, (&kept,), manifest),
        call_ensures(Workspace::append_operation, (&kept,), operations),
        call_ensures(Workspace::append_command_audit, (&kept,), commands),
    ensures
        manifest@.base == kept.root_view(),
        manifest@.names == seq!["dbgatlas-workspace.json"@],
        operations@.base == kept.root_view(),
        operations@.names == seq!["artifacts/operations.jsonl"@],
        commands@.base == kept.root_view(),
        commands@.names == seq!["artifacts/command_audit.jsonl"@],
{
}

/// A path names an artifact: relative, below the artifact directory, and
/// without a step.
pub open spec fn names_artifact(candidate: path::PathView) -> bool {
    &&& !candidate.absolute
    &&& candidate.parts.len() > 0
    &&& candidate.parts[0] == PartView::Normal("artifacts"@)
    &&& forall|i: int|
        0 <= i < candidate.parts.len() ==> ((#[trigger] candidate.parts[i]) is Normal
            || candidate.parts[i] is Opaque)
}

proof fn lemma_names_artifact(candidate: path::PathView)
    ensures
        workspace::valid_artifact_path(candidate) == names_artifact(candidate),
{
    if workspace::valid_artifact_path(candidate) {
        assert forall|i: int| 0 <= i < candidate.parts.len() implies ((
        #[trigger] candidate.parts[i]) is Normal || candidate.parts[i] is Opaque) by {
            assert(candidate.parts[i].is_name());
        }
    }
    if names_artifact(candidate) {
        assert forall|i: int| 0 <= i < candidate.parts.len() implies (
        #[trigger] candidate.parts[i]).is_name() by {
            assert(candidate.parts[i] is Normal || candidate.parts[i] is Opaque);
        }
    }
}

/// The first components of a path are those of the other, as the host compares
/// them.
pub open spec fn lies_in(inner: path::PathView, outer: path::PathView) -> bool {
    outer.parts.len() <= inner.parts.len() && forall|i: int|
        0 <= i < outer.parts.len() ==> path::part_key(#[trigger] outer.parts[i]) == path::part_key(
            inner.parts[i],
        )
}

proof fn lemma_lies_in(inner: path::PathView, outer: path::PathView)
    ensures
        path::keys(outer.parts).is_prefix_of(path::keys(inner.parts)) == lies_in(inner, outer),
{
    let a = path::keys(outer.parts);
    let b = path::keys(inner.parts);
    assert(a.len() == outer.parts.len());
    assert(b.len() == inner.parts.len());
    if a.is_prefix_of(b) {
        assert forall|i: int| 0 <= i < outer.parts.len() implies path::part_key(
            #[trigger] outer.parts[i],
        ) == path::part_key(inner.parts[i]) by {
            assert(a[i] == path::part_key(outer.parts[i]));
            assert(b.subrange(0, a.len() as int)[i] == b[i]);
        }
    }
    if lies_in(inner, outer) {
        assert forall|i: int| 0 <= i < a.len() implies a[i] == b.subrange(0, a.len() as int)[i] by {
            assert(path::part_key(outer.parts[i]) == path::part_key(inner.parts[i]));
        }
        assert(a =~= b.subrange(0, a.len() as int));
    }
}

/// No link leads out of the workspace or out of its artifact directory.
pub open spec fn stays_inside(links: Containment) -> bool {
    &&& links.artifact_root is Ok
    &&& links.workspace_root is Ok
    &&& links.ancestor is Ok
    &&& lies_in(links.artifact_root->Ok_0@, links.workspace_root->Ok_0@)
    &&& lies_in(links.ancestor->Ok_0@, links.artifact_root->Ok_0@)
}

proof fn lemma_stays_inside(links: Containment)
    ensures
        workspace::contained(links) == stays_inside(links),
{
    if links.artifact_root is Ok && links.workspace_root is Ok {
        lemma_lies_in(links.artifact_root->Ok_0@, links.workspace_root->Ok_0@);
        if links.ancestor is Ok {
            lemma_lies_in(links.ancestor->Ok_0@, links.artifact_root->Ok_0@);
        }
    }
}

/// An artifact is resolved, read and entered only where its path names an
/// artifact and no link leads out; its place is that path below the root, and
/// it is entered in the artifact log.
pub proof fn law_artifacts_stay_inside(
    kept: Workspace,
    root: HostPath,
    relative: HostPath,
    metadata: ArtifactMetadata,
    links: Containment,
    named: Result<(), WorkspaceError>,
    inside: Result<(), WorkspaceError>,
    place: Result<ArtifactPath, WorkspaceError>,
    events: Result<ArtifactPath, WorkspaceError>,
    texts: Result<ArtifactPath, WorkspaceError>,
    log: Result<JoinedPath, WorkspaceError>,
)
    requires
        call_ensures(validate_artifact_relative_path, (&relative,), named),
        call_ensures(ensure_contained, (&root, &relative, links), inside),
        call_ensures(Workspace::resolve_artifact_relative_path, (&kept, &relative, links), place),
        call_ensures(Workspace::append_event_jsonl, (&kept, &relative, links), events),
        call_ensures(Workspace::append_text_artifact, (&kept, &relative, links), texts),
        call_ensures(Workspace::register_artifact, (&kept, &metadata, links), log),
    ensures
        named is Ok <==> names_artifact(relative@),
        inside is Ok <==> stays_inside(links),
        place is Ok <==> names_artifact(relative@) && stays_inside(links),
        events is Ok <==> names_artifact(relative@) && stays_inside(links),
        texts is Ok <==> names_artifact(relative@) && stays_inside(links),
        log is Ok <==> names_artifact(metadata.relative_path@) && stays_inside(links),
        place matches Ok(found) ==> found.root@ == kept.root_view() && found.relative@ == relative@,
        events matches Ok(found) ==> found.root@ == kept.root_view() && found.relative@
            == relative@,
        texts matches Ok(found) ==> found.root@ == kept.root_view() && found.relative@ == relative@,
        log matches Ok(found) ==> found@.base == kept.root_view() && found@.names == seq![
            "artifacts/artifacts.jsonl"@,
        ],
        !names_artifact(relative@) ==> (place matches Err(WorkspaceError::InvalidArtifactPath(refused))
            && refused@ == relative@),
{
    lemma_names_artifact(relative@);
    lemma_names_artifact(metadata.relative_path@);
    lemma_stays_inside(links);
}

/// An error that following the links met is handed on as it is.
pub proof fn law_link_errors_are_handed_on(
    root: HostPath,
    relative: HostPath,
    links: Containment,
    verdict: Result<(), WorkspaceError>,
)
    requires
        call_ensures(ensure_contained, (&root, &relative, links), verdict),
    ensures
        links.artifact_root matches Err(error) ==> verdict == Err::<(), WorkspaceError>(error),
        links.artifact_root is Ok && links.workspace_root is Err ==> verdict == Err::<
            (),
            WorkspaceError,
        >(links.workspace_root->Err_0),
        links.artifact_root is Ok && links.workspace_root is Ok && lies_in(
            links.artifact_root->Ok_0@,
            links.workspace_root->Ok_0@,
        ) && links.ancestor is Err ==> verdict == Err::<(), WorkspaceError>(links.ancestor->Err_0),
        links.artifact_root is Ok && links.workspace_root is Ok && !lies_in(
            links.artifact_root->Ok_0@,
            links.workspace_root->Ok_0@,
        ) ==> (verdict matches Err(WorkspaceError::InvalidArtifactPath(refused)) && refused@.text
            == "artifacts"@),
{
    lemma_stays_inside(links);
    if links.artifact_root is Ok && links.workspace_root is Ok {
        lemma_lies_in(links.artifact_root->Ok_0@, links.workspace_root->Ok_0@);
    }
}

/// The nearest ancestor is the first that is there.
pub proof fn law_the_nearest_ancestor_is_there(exists: Vec<bool>, at: usize, other: int)
    requires
        call_ensures(nearest_existing_ancestor, (&exists,), at),
        exists@.len() > 0,
        0 <= other < exists@.len(),
    ensures
        exists@[other] ==> exists@[at as int] && at <= other,
        at > 0 ==> exists@[at as int],
{
    if exists@[other] {
        assert(exists@.contains(true));
    }
}

/// A workspace is named after its root directory, where that has a name that
/// is not blank.
pub proof fn law_workspaces_are_named_after_their_root(root: HostPath, name: String)
    requires
        call_ensures(name_for, (&root,), name),
    ensures
        root@.parts.len() > 0 && root@.parts.last() is Normal && !all_white(
            root@.parts.last()->Normal_0,
        ) ==> name@ == root@.parts.last()->Normal_0,
        root@.parts.len() == 0 || !(root@.parts.last() is Normal) || all_white(
            root@.parts.last()->Normal_0,
        ) ==> name@ == "workspace"@,
{
    if root@.parts.len() > 0 && root@.parts.last() is Normal {
        laws::text::lemma_blank_is_white(root@.parts.last()->Normal_0);
    }
}

/// A new workspace has a root, a directory for artifacts, one for analysis,
/// and one for inputs where that was asked; its manifest holds its name and
/// the time. Where a manifest stands already, nothing is planned.
pub proof fn law_new_workspaces_are_laid_out(
    root: HostPath,
    options: WorkspaceInitOptions,
    manifest_exists: bool,
    now: Timestamp,
    plan: Result<InitPlan, WorkspaceError>,
    name: String,
)
    requires
        call_ensures(Workspace::init, (root, options, manifest_exists, now), plan),
        call_ensures(name_for, (&root,), name),
    ensures
        plan is Err <==> manifest_exists,
        plan matches Err(error) ==> error == WorkspaceError::AlreadyExists(root),
        plan matches Ok(made) ==> {
            &&& made.dirs@.len() == if options.create_inputs {
                4int
            } else {
                3int
            }
            &&& forall|i: int| 0 <= i < made.dirs@.len() ==> (#[trigger] made.dirs@[i])@.base == root@
            &&& made.dirs@[0]@.names.len() == 0
            &&& made.dirs@[1]@.names == seq!["artifacts"@]
            &&& made.dirs@[2]@.names == seq!["analysis"@]
            &&& options.create_inputs ==> made.dirs@[3]@.names == seq!["inputs"@]
            &&& made.workspace is Ok <==> can_be_id(name@)
        },
        plan matches Ok(made) ==> (made.workspace matches Ok(kept) ==> {
            let manifest = kept.manifest_value();
            &&& kept.root_view() == root@
            &&& manifest.schema_version == 1
            &&& manifest.workspace_id@ == name@
            &&& manifest.created_at == now
            &&& manifest.tool.name@ == "DbgAtlas"@
            &&& manifest.tool.version@ == "0.1.0"@
        }),
        plan matches Ok(made) ==> (made.workspace matches Err(error) ==> error is InvalidId),
{
    laws::model::lemma_can_be_id(name@);
    if let Ok(made) = plan {
        let views = workspace::joined_views(made.dirs@);
        assert(views.len() == made.dirs@.len());
        assert forall|i: int| 0 <= i < made.dirs@.len() implies (#[trigger] made.dirs@[i])@.base
            == root@ by {
            assert(views[i] == made.dirs@[i]@);
        }
        assert(views[0] == made.dirs@[0]@);
        assert(views[1] == made.dirs@[1]@);
        assert(views[2] == made.dirs@[2]@);
        if options.create_inputs {
            assert(views[3] == made.dirs@[3]@);
        }
    }
}

/// A workspace is opened with the manifest that stands at its root.
pub proof fn law_workspaces_are_opened_by_their_manifest(
    root: HostPath,
    manifest: Option<Result<WorkspaceManifest, WorkspaceError>>,
    opened: Result<Workspace, WorkspaceError>,
)
    requires
        call_ensures(Workspace::open, (root, manifest), opened),
    ensures
        opened is Ok <==> manifest is Some && manifest->0 is Ok,
        opened matches Ok(kept) ==> kept.root_view() == root@ && kept.manifest_value()
            == manifest->0->Ok_0,
        manifest matches Some(Err(error)) ==> opened == Err::<Workspace, WorkspaceError>(error),
        manifest is None ==> (opened matches Err(WorkspaceError::ManifestNotFound(missing))
            && missing@.base == root@ && missing@.names == seq!["dbgatlas-workspace.json"@]),
{
}

/// A workspace tells its root, its manifest, and which of its directories are
/// there.
pub proof fn law_workspaces_tell_what_they_hold(
    kept: Workspace,
    dirs: LayoutDirs,
    root: &HostPath,
    manifest: &WorkspaceManifest,
    info: WorkspaceInfo,
)
    requires
        call_ensures(Workspace::root, (&kept,), root),
        call_ensures(Workspace::manifest, (&kept,), manifest),
        call_ensures(Workspace::info, (&kept, dirs), info),
    ensures
        info.root@ == root@,
        info.manifest == *manifest,
        info.has_artifacts_dir <==> dirs.artifacts,
        info.has_analysis_dir <==> dirs.analysis,
        info.has_inputs_dir <==> dirs.inputs,
{
}

/// The lines that records were drawn from, by their positions: the positions
/// ascend, each line is not blank and is read as its record, and every line
/// that is not blank is among them.
pub open spec fn drawn_from<T, F: Fn(String) -> Result<T, String>>(
    lines: Seq<String>,
    parse: F,
    records: Seq<T>,
    at: Seq<int>,
) -> bool {
    &&& at.len() == records.len()
    &&& forall|i: int|
        0 <= i < at.len() ==> 0 <= #[trigger] at[i] < lines.len() && !all_white(lines[at[i]]@)
            && call_ensures(parse, (lines[at[i]],), Ok::<T, String>(records[i]))
    &&& forall|i: int, k: int| 0 <= i < k < at.len() ==> #[trigger] at[i] < #[trigger] at[k]
    &&& forall|n: int|
        0 <= n < lines.len() && !all_white((#[trigger] lines[n])@) ==> at.contains(n)
}

/// The line is not blank and is not read as a record, and every line before it
/// that is not blank is.
pub open spec fn breaks_off<T, F: Fn(String) -> Result<T, String>>(
    lines: Seq<String>,
    parse: F,
    at: int,
    source: String,
) -> bool {
    &&& 0 <= at < lines.len()
    &&& !all_white(lines[at]@)
    &&& call_ensures(parse, (lines[at],), Err::<T, String>(source))
    &&& exists|records: Seq<T>, before: Seq<int>| #[trigger]
        drawn_from(lines.take(at), parse, records, before)
}

/// The log is read: nothing where it is not there, else one record from every
/// line that is not blank, in order, or the error of the first line that gives
/// none.
pub open spec fn is_read<T, F: Fn(String) -> Result<T, String>>(
    outcome: Result<Vec<T>, WorkspaceError>,
    base: path::PathView,
    names: Seq<Seq<char>>,
    lines: Option<Vec<String>>,
    parse: F,
) -> bool {
    match outcome {
        Ok(records) => match lines {
            None => records@.len() == 0,
            Some(read) => exists|at: Seq<int>| #[trigger]
                drawn_from(read@, parse, records@, at),
        },
        Err(WorkspaceError::Json { path: named, source }) => {
            &&& named@.base == base
            &&& named@.names == names
            &&& lines is Some
            &&& exists|at: int| #[trigger] breaks_off::<T, F>(lines->0@, parse, at, source)
        },
        Err(_) => false,
    }
}

proof fn lemma_drawn_from<T, F: Fn(String) -> Result<T, String>>(
    lines: Seq<String>,
    parse: F,
    records: Seq<T>,
) -> (at: Seq<int>)
    requires
        workspace::records_of(lines, parse, records),
    ensures
        drawn_from(lines, parse, records, at),
    decreases lines.len(),
{
    if lines.len() == 0 {
        Seq::empty()
    } else {
        let rest = lines.drop_last();
        let last = lines.len() - 1;
        laws::text::lemma_blank_is_white(lines.last()@);
        if text::blank(lines.last()@) {
            let at = lemma_drawn_from(rest, parse, records);
            assert forall|i: int| 0 <= i < at.len() implies 0 <= #[trigger] at[i] < lines.len()
                && !all_white(lines[at[i]]@) && call_ensures(
                parse,
                (lines[at[i]],),
                Ok::<T, String>(records[i]),
            ) by {
                assert(rest[at[i]] == lines[at[i]]);
            }
            assert forall|n: int|
                0 <= n < lines.len() && !all_white((#[trigger] lines[n])@) implies at.contains(
                n,
            ) by {
                assert(n < last);
                assert(rest[n] == lines[n]);
            }
            at
        } else {
            let before = lemma_drawn_from(rest, parse, records.drop_last());
            let at = before.push(last);
            assert forall|i: int| 0 <= i < at.len() implies 0 <= #[trigger] at[i] < lines.len()
                && !all_white(lines[at[i]]@) && call_ensures(
                parse,
                (lines[at[i]],),
                Ok::<T, String>(records[i]),
            ) by {
                if i < before.len() {
                    assert(at[i] == before[i]);
                    assert(rest[before[i]] == lines[before[i]]);
                    assert(records.drop_last()[i] == records[i]);
                }
            }
            assert forall|i: int, k: int| 0 <= i < k < at.len() implies #[trigger] at[i]
                < #[trigger] at[k] by {
                assert(at[i] == before[i]);
                if k < before.len() {
                    assert(at[k] == before[k]);
                }
            }
            assert forall|n: int|
                0 <= n < lines.len() && !all_white((#[trigger] lines[n])@) implies at.contains(
                n,
            ) by {
                if n < last {
                    assert(rest[n] == lines[n]);
                    let i = choose|i: int| 0 <= i < before.len() && before[i] == n;
                    assert(at[i] == n);
                } else {
                    assert(at[at.len() - 1] == n);
                }
            }
            at
        }
    }
}

proof fn lemma_is_read<T, F: Fn(String) -> Result<T, String>>(
    outcome: Result<Vec<T>, WorkspaceError>,
    log: path::JoinedView,
    lines: Option<Vec<String>>,
    parse: F,
)
    requires
        workspace::read_outcome(outcome, log, lines, parse),
    ensures
        is_read(outcome, log.base, log.names, lines, parse),
{
    match (lines, outcome) {
        (Some(read), Ok(records)) => {
            let at = lemma_drawn_from(read@, parse, records@);
            assert(drawn_from(read@, parse, records@, at));
        },
        (Some(read), Err(WorkspaceError::Json { path: named, source })) => {
            let at = choose|at: int| #[trigger]
                workspace::stops_at::<T, F>(read@, parse, at, source);
            laws::text::lemma_blank_is_white(read@[at]@);
            let records = choose|records: Seq<T>|
                workspace::records_of(read@.take(at), parse, records);
            let before = lemma_drawn_from(read@.take(at), parse, records);
            assert(drawn_from(read@.take(at), parse, records, before));
            assert(breaks_off::<T, F>(read@, parse, at, source));
        },
        _ => {},
    }
}

/// A log is read line by line.
pub proof fn law_logs_are_read_line_by_line<T, F: Fn(String) -> Result<T, String>>(
    log: JoinedPath,
    lines: Option<Vec<String>>,
    parse: F,
    outcome: Result<Vec<T>, WorkspaceError>,
)
    requires
        call_ensures(read_json_lines::<T, F>, (log, lines, parse), outcome),
    ensures
        is_read(outcome, log@.base, log@.names, lines, parse),
{
    lemma_is_read(outcome, log@, lines, parse);
}

/// The artifacts are read from the artifact log.
pub proof fn law_artifacts_are_read_from_their_log<
    F: Fn(String) -> Result<ArtifactMetadata, String>,
>(
    kept: Workspace,
    lines: Option<Vec<String>>,
    parse: F,
    outcome: Result<Vec<ArtifactMetadata>, WorkspaceError>,
)
    requires
        call_ensures(Workspace::list_artifacts::<F>, (&kept, lines, parse), outcome),
    ensures
        is_read(outcome, kept.root_view(), seq!["artifacts/artifacts.jsonl"@], lines, parse),
{
    lemma_is_read(
        outcome,
        workspace::below(kept.root_view(), seq!["artifacts/artifacts.jsonl"@]),
        lines,
        parse,
    );
}

/// The operations are read from the operation log.
pub proof fn law_operations_are_read_from_their_log<
    F: Fn(String) -> Result<OperationRecord, String>,
>(
    kept: Workspace,
    lines: Option<Vec<String>>,
    parse: F,
    outcome: Result<Vec<OperationRecord>, WorkspaceError>,
)
    requires
        call_ensures(Workspace::list_operations::<F>, (&kept, lines, parse), outcome),
    ensures
        is_read(outcome, kept.root_view(), seq!["artifacts/operations.jsonl"@], lines, parse),
{
    lemma_is_read(
        outcome,
        workspace::below(kept.root_view(), seq!["artifacts/operations.jsonl"@]),
        lines,
        parse,
    );
}

/// The commands are read from the command audit log.
pub proof fn law_commands_are_read_from_their_log<
    F: Fn(String) -> Result<CommandAuditRecord, String>,
>(
    kept: Workspace,
    lines: Option<Vec<String>>,
    parse: F,
    outcome: Result<Vec<CommandAuditRecord>, WorkspaceError>,
)
    requires
        call_ensures(Workspace::list_command_audit::<F>, (&kept, lines, parse), outcome),
    ensures
        is_read(outcome, kept.root_view(), seq!["artifacts/command_audit.jsonl"@], lines, parse),
{
    lemma_is_read(
        outcome,
        workspace::below(kept.root_view(), seq!["artifacts/command_audit.jsonl"@]),
        lines,
        parse,
    );
}

/// The artifact of an id is the first that was entered under it.
pub proof fn law_the_first_artifact_is_found(
    all: Vec<ArtifactMetadata>,
    id: ArtifactRef,
    found: Result<Option<ArtifactMetadata>, WorkspaceError>,
    at: int,
)
    requires
        call_ensures(Workspace::get_artifact, (Ok(all), &id), found),
    ensures
        found is Ok,
        0 <= at < all@.len() && all@[at].artifact_id.id@ == id.id@ && (forall|k: int|
            0 <= k < at ==> (#[trigger] all@[k]).artifact_id.id@ != id.id@) ==> found == Ok::<
            Option<ArtifactMetadata>,
            WorkspaceError,
        >(Some(all@[at])),
        (forall|k: int| 0 <= k < all@.len() ==> (#[trigger] all@[k]).artifact_id.id@ != id.id@)
            ==> found == Ok::<Option<ArtifactMetadata>, WorkspaceError>(None),
{
}

/// The record of an operation is the last that was entered of it.
pub proof fn law_the_last_operation_is_found(
    all: Vec<OperationRecord>,
    id: OperationRef,
    found: Result<Option<OperationRecord>, WorkspaceError>,
    at: int,
)
    requires
        call_ensures(Workspace::get_operation, (Ok(all), &id), found),
    ensures
        found is Ok,
        0 <= at < all@.len() && all@[at].operation_id.id@ == id.id@ && (forall|k: int|
            at < k < all@.len() ==> (#[trigger] all@[k]).operation_id.id@ != id.id@) ==> found
            == Ok::<Option<OperationRecord>, WorkspaceError>(Some(all@[at])),
        (forall|k: int| 0 <= k < all@.len() ==> (#[trigger] all@[k]).operation_id.id@ != id.id@)
            ==> found == Ok::<Option<OperationRecord>, WorkspaceError>(None),
{
}

/// An error in reading a log is handed on by what searches it.
pub proof fn law_log_errors_are_handed_on(
    error: WorkspaceError,
    artifact: ArtifactRef,
    operation: OperationRef,
    found: Result<Option<ArtifactMetadata>, WorkspaceError>,
    record: Result<Option<OperationRecord>, WorkspaceError>,
)
    requires
        call_ensures(Workspace::get_artifact, (Err(error), &artifact), found),
        call_ensures(Workspace::get_operation, (Err(error), &operation), record),
    ensures
        found == Err::<Option<ArtifactMetadata>, WorkspaceError>(error),
        record == Err::<Option<OperationRecord>, WorkspaceError>(error),
{
}

/// The facts of a workspace are what its three logs say, each under its own
/// name, and there are none where a log could not be read.
pub proof fn law_facts_are_what_the_logs_say(
    artifacts: Result<Vec<ArtifactMetadata>, WorkspaceError>,
    operations: Result<Vec<OperationRecord>, WorkspaceError>,
    commands: Result<Vec<CommandAuditRecord>, WorkspaceError>,
    facts: Result<WorkspaceFacts, WorkspaceError>,
)
    requires
        call_ensures(Workspace::facts, (artifacts, operations, commands), facts),
    ensures
        facts is Ok <==> artifacts is Ok && operations is Ok && commands is Ok,
        facts matches Ok(found) ==> {
            &&& found.artifacts == artifacts->Ok_0
            &&& found.operations == operations->Ok_0
            &&& found.command_audit == commands->Ok_0
        },
        artifacts is Err ==> facts->Err_0 == artifacts->Err_0,
        artifacts is Ok && operations is Err ==> facts->Err_0 == operations->Err_0,
        artifacts is Ok && operations is Ok && commands is Err ==> facts->Err_0 == commands->Err_0,
{
}

/// A status is written under its own name, and is read back from that name.
pub proof fn law_statuses_are_read_back(
    status: OperationStatus,
    name: &'static str,
    read: Option<OperationStatus>,
)
    requires
        call_ensures(OperationStatus::as_str, (status,), name),
        call_ensures(OperationStatus::from_name, (name,), read),
    ensures
        read == Some(status),
        status is Running <==> name@ == "running"@,
        status is Success <==> name@ == "success"@,
        status is Failed <==> name@ == "failed"@,
        status is Canceled <==> name@ == "canceled"@,
{
    lemma_status_names();
}

/// The older names of statuses are read too, and no other name is.
pub proof fn law_older_statuses_are_read(name: &str, read: Option<OperationStatus>)
    requires
        call_ensures(OperationStatus::from_name, (name,), read),
    ensures
        read == Some(OperationStatus::Running) <==> name@ == "running"@ || name@ == "Running"@,
        read == Some(OperationStatus::Success) <==> name@ == "success"@ || name@ == "Success"@,
        read == Some(OperationStatus::Failed) <==> name@ == "failed"@ || name@ == "Failed"@,
        read == Some(OperationStatus::Canceled) <==> name@ == "canceled"@ || name@ == "Canceled"@,
{
    lemma_status_names();
    assert(OperationStatus::Running.name() == "running"@);
    assert(OperationStatus::Success.name() == "success"@);
    assert(OperationStatus::Failed.name() == "failed"@);
    assert(OperationStatus::Canceled.name() == "canceled"@);
}

/// No two names of statuses are the same.
proof fn lemma_status_names()
    ensures
        "running"@[0] == 'r',
        "Running"@[0] == 'R',
        "success"@[0] == 's',
        "Success"@[0] == 'S',
        "failed"@[0] == 'f',
        "Failed"@[0] == 'F',
        "canceled"@[0] == 'c',
        "Canceled"@[0] == 'C',
{
    reveal_strlit("running");
    reveal_strlit("Running");
    reveal_strlit("success");
    reveal_strlit("Success");
    reveal_strlit("failed");
    reveal_strlit("Failed");
    reveal_strlit("canceled");
    reveal_strlit("Canceled");
}

/// An error says what is wrong, and where the host says that is.
pub proof fn law_workspace_errors_say_where(error: WorkspaceError, shown: &str, message: String)
    requires
        call_ensures(WorkspaceError::message, (&error, shown), message),
    ensures
        match error {
            WorkspaceError::AlreadyExists(_) => message@ == "workspace already exists at "@
                + shown@,
            WorkspaceError::ManifestNotFound(_) => message@ == "workspace manifest not found at "@
                + shown@,
            WorkspaceError::InvalidPathSegment(segment) => message@ == "invalid path segment `"@
                + segment@ + "`"@,
            WorkspaceError::InvalidArtifactPath(_) => message@
                == "artifact path must be relative and stay under artifacts/: "@ + shown@,
            WorkspaceError::Io { source, .. } => message@ == "io error at "@ + shown@ + ": "@
                + source@,
            WorkspaceError::Json { source, .. } => message@ == "json error at "@ + shown@ + ": "@
                + source@,
            WorkspaceError::InvalidId(invalid) => message@ == "invalid DbgAtlas id: "@ + invalid@,
        },
{
}

/// A workspace that is made without options has no directory for inputs.
pub proof fn law_inputs_are_made_where_asked(options: WorkspaceInitOptions)
    requires
        call_ensures(WorkspaceInitOptions::default, (), options),
    ensures
        !options.create_inputs,
{
}

} // verus!
