use dbgatlas::model::{ArtifactRef, Id, OperationRef, Timestamp};
use dbgatlas::path::{HostPath, JoinedPath, PathPart};
use dbgatlas::workspace::{
    ensure_contained, name_for, nearest_existing_ancestor, read_json_lines,
    validate_artifact_relative_path, validate_path_segment, ArtifactMetadata, CommandAuditRecord,
    Containment, LayoutDirs, OperationRecord, OperationStatus, Workspace, WorkspaceError,
    WorkspaceInitOptions, ANALYSIS_DIR, ARTIFACTS_DIR, ARTIFACTS_LOG, COMMAND_AUDIT_LOG,
    INPUTS_DIR, MANIFEST_FILE, OPERATIONS_LOG,
};
use serde_json::Value;

fn workspace(root: &str) -> Workspace {
    Workspace::init(
        HostPath::new(root),
        WorkspaceInitOptions::default(),
        false,
        Timestamp { unix_millis: 7 },
    )
    .unwrap()
    .workspace
    .unwrap()
}

fn links(ancestor: &str) -> Containment {
    Containment {
        artifact_root: Ok(HostPath::new("/case/artifacts")),
        workspace_root: Ok(HostPath::new("/case")),
        ancestor: Ok(HostPath::new(ancestor)),
    }
}

fn names(path: &JoinedPath) -> Vec<&str> {
    path.names.iter().map(String::as_str).collect()
}

fn metadata(id: &str, path: &str) -> ArtifactMetadata {
    ArtifactMetadata {
        artifact_id: ArtifactRef::new(Id::new(id).unwrap()),
        kind: "raw".to_string(),
        relative_path: HostPath::new(path),
        created_at: Timestamp { unix_millis: 1 },
        operation_id: None,
        byte_len: Some(0),
        description: Some("raw command output".to_string()),
    }
}

fn record(id: &str, summary: &str) -> OperationRecord {
    OperationRecord {
        operation_id: OperationRef::new(Id::new(id).unwrap()),
        adapter_id: "mock".to_string(),
        capability: "debug.eval".to_string(),
        status: OperationStatus::Running,
        created_at: Timestamp { unix_millis: 1 },
        summary: summary.to_string(),
        artifacts: Vec::new(),
        raw_output: None,
    }
}

#[test]
fn init_creates_visible_workspace_layout() {
    let root = HostPath::new("/tmp/case-001");
    let plan = Workspace::init(
        root.clone(),
        WorkspaceInitOptions {
            create_inputs: true,
        },
        false,
        Timestamp { unix_millis: 7 },
    )
    .unwrap();

    let dirs: Vec<Vec<&str>> = plan.dirs.iter().map(names).collect();
    assert_eq!(
        dirs,
        [
            vec![],
            vec![ARTIFACTS_DIR],
            vec![ANALYSIS_DIR],
            vec![INPUTS_DIR]
        ]
    );
    assert!(plan.dirs.iter().all(|dir| dir.base == root));
    let workspace = plan.workspace.unwrap();
    assert_eq!(workspace.root(), &root);
    assert_eq!(names(&workspace.manifest_path()), [MANIFEST_FILE]);

    let reopened = Workspace::open(root, Some(Ok(workspace.manifest().clone()))).unwrap();
    assert_eq!(reopened.manifest().schema_version, 1);
    assert_eq!(reopened.manifest().workspace_id.as_str(), "case-001");
    assert_eq!(reopened.manifest().tool.name, "DbgAtlas");
    assert_eq!(reopened.manifest().created_at.unix_millis, 7);
}

#[test]
fn init_without_inputs_creates_three_directories() {
    let plan = Workspace::init(
        HostPath::new("case"),
        WorkspaceInitOptions::default(),
        false,
        Timestamp { unix_millis: 0 },
    )
    .unwrap();
    assert_eq!(plan.dirs.len(), 3);
}

#[test]
fn init_refuses_a_workspace_that_is_there() {
    let error = Workspace::init(
        HostPath::new("case"),
        WorkspaceInitOptions::default(),
        true,
        Timestamp { unix_millis: 0 },
    )
    .unwrap_err();
    assert!(matches!(error, WorkspaceError::AlreadyExists(_)));
    assert_eq!(error.message("case"), "workspace already exists at case");
}

#[test]
fn init_creates_directories_before_it_refuses_a_name() {
    let mut root = HostPath::new("case");
    root.parts = vec![PathPart::Normal("a\\b".to_string())];
    let plan = Workspace::init(
        root,
        WorkspaceInitOptions::default(),
        false,
        Timestamp { unix_millis: 0 },
    )
    .unwrap();
    assert_eq!(plan.dirs.len(), 3);
    let error = plan.workspace.unwrap_err();
    assert_eq!(
        error.message(""),
        "invalid DbgAtlas id: id must not contain path separators"
    );
}

#[test]
fn workspaces_are_named_after_their_root() {
    assert_eq!(name_for(&HostPath::new("a/case-001")), "case-001");
    assert_eq!(name_for(&HostPath::new("a/..")), "workspace");
    assert_eq!(name_for(&HostPath::new("")), "workspace");
    assert_eq!(name_for(&HostPath::new("a/ ")), "workspace");
    let mut opaque = HostPath::new("x");
    opaque.parts = vec![PathPart::Opaque(vec![0xff])];
    assert_eq!(name_for(&opaque), "workspace");
}

#[test]
fn open_needs_a_manifest_that_can_be_read() {
    let root = HostPath::new("case");
    let missing = Workspace::open(root.clone(), None).unwrap_err();
    assert_eq!(
        missing,
        WorkspaceError::ManifestNotFound(JoinedPath::below(&root, MANIFEST_FILE))
    );
    let broken = WorkspaceError::Json {
        path: JoinedPath::below(&root, MANIFEST_FILE),
        source: "EOF".to_string(),
    };
    let error = Workspace::open(root, Some(Err(broken))).unwrap_err();
    assert_eq!(error.message("m"), "json error at m: EOF");
}

#[test]
fn info_reports_which_directories_are_there() {
    let info = workspace("case").info(LayoutDirs {
        artifacts: true,
        analysis: false,
        inputs: true,
    });
    assert_eq!(info.root, HostPath::new("case"));
    assert!(info.has_artifacts_dir);
    assert!(!info.has_analysis_dir);
    assert!(info.has_inputs_dir);
    assert_eq!(info.manifest.workspace_id.as_str(), "case");
}

#[test]
fn register_and_list_artifacts() {
    let workspace = workspace("/case");
    let place = workspace
        .allocate_artifact_path("raw", "command-output.txt")
        .unwrap();
    assert_eq!(names(&place.dir), ["artifacts", "raw"]);
    let relative = place.path.names.join("/");

    let entry = metadata("artifact-001", &relative);
    let log = workspace
        .register_artifact(&entry, links("/case/artifacts/raw"))
        .unwrap();
    assert_eq!(names(&log), [ARTIFACTS_LOG]);

    let lines = Some(vec![artifact_line(&entry)]);
    let artifacts = workspace.list_artifacts(lines, parse_artifact).unwrap();
    assert_eq!(artifacts.len(), 1);
    assert_eq!(artifacts[0].artifact_id.id.as_str(), "artifact-001");
    let artifact = Workspace::get_artifact(
        Ok(artifacts),
        &ArtifactRef::new(Id::new("artifact-001").unwrap()),
    )
    .unwrap()
    .unwrap();
    assert_eq!(artifact.kind, "raw");
}

#[test]
fn the_first_artifact_and_the_last_record_count() {
    let wanted = ArtifactRef::new(Id::new("a").unwrap());
    let all = || {
        vec![
            metadata("b", "artifacts/0"),
            metadata("a", "artifacts/1"),
            metadata("a", "artifacts/2"),
        ]
    };
    let found = Workspace::get_artifact(Ok(all()), &wanted)
        .unwrap()
        .unwrap();
    assert_eq!(found.relative_path.text, "artifacts/1");
    assert!(Workspace::get_artifact(Ok(Vec::new()), &wanted)
        .unwrap()
        .is_none());

    let operation = OperationRef::new(Id::new("op").unwrap());
    let records = vec![
        record("op", "first"),
        record("op", "second"),
        record("other", "third"),
    ];
    let found = Workspace::get_operation(Ok(records), &operation)
        .unwrap()
        .unwrap();
    assert_eq!(found.summary, "second");
    assert!(Workspace::get_operation(Ok(vec![record("x", "")]), &operation)
        .unwrap()
        .is_none());
    let broken = WorkspaceError::InvalidPathSegment("x".to_string());
    assert!(Workspace::get_operation(Err(broken), &operation).is_err());
}

#[test]
fn creates_domain_artifact_directories() {
    let workspace = workspace("case-layout");
    let id = Id::new("session-001").unwrap();

    assert_eq!(
        names(&workspace.ensure_session_artifact_dir(&id)),
        ["artifacts", "sessions", "session-001"]
    );
    assert_eq!(
        names(&workspace.ensure_profile_artifact_dir(&id)),
        ["artifacts", "profiles", "session-001"]
    );
    assert_eq!(
        names(&workspace.ensure_ttd_recording_artifact_dir(&id)),
        ["artifacts", "ttd_recordings", "session-001"]
    );
    assert_eq!(
        names(&workspace.ensure_reverse_session_artifact_dir(&id)),
        ["artifacts", "reverse_sessions", "session-001"]
    );
}

#[test]
fn rejects_artifact_paths_outside_workspace_artifacts() {
    let workspace = workspace("case-paths");

    for path in [
        r"C:\absolute.txt",
        "../escape.txt",
        "analysis/report.md",
        "artifacts/../escape.txt",
    ] {
        let candidate = HostPath::new(path);
        assert_eq!(
            workspace
                .resolve_artifact_relative_path(&candidate, links("/case/artifacts"))
                .unwrap_err(),
            WorkspaceError::InvalidArtifactPath(candidate),
            "expected invalid artifact path: {}",
            path
        );
    }
}

#[test]
fn rejects_absolute_and_empty_artifact_paths() {
    for path in ["/artifacts/x", "", ".", "./artifacts/x", "artifacts2/x"] {
        assert!(validate_artifact_relative_path(&HostPath::new(path)).is_err());
    }
    for path in ["artifacts", "artifacts/x", "artifacts//x/./y"] {
        assert!(validate_artifact_relative_path(&HostPath::new(path)).is_ok());
    }
    let error = validate_artifact_relative_path(&HostPath::new("x")).unwrap_err();
    assert_eq!(
        error.message("x"),
        "artifact path must be relative and stay under artifacts/: x"
    );
}

#[test]
fn rejects_artifact_paths_through_directory_links_when_available() {
    let workspace = workspace("/case");
    let relative = HostPath::new("artifacts/linked/output.txt");
    assert_eq!(
        workspace
            .resolve_artifact_relative_path(&relative, links("/outside"))
            .unwrap_err(),
        WorkspaceError::InvalidArtifactPath(relative.clone())
    );
    let place = workspace
        .resolve_artifact_relative_path(&relative, links("/case/artifacts/linked"))
        .unwrap();
    assert_eq!(place.root, HostPath::new("/case"));
    assert_eq!(place.relative, relative);
}

#[test]
fn a_refused_path_ends_with_its_last_name() {
    for text in ["artifacts/link", "artifacts/link/", "artifacts/link/."] {
        assert_eq!(
            workspace("/case")
                .resolve_artifact_relative_path(&HostPath::new(text), links("/outside"))
                .unwrap_err(),
            WorkspaceError::InvalidArtifactPath(HostPath::new("artifacts/link")),
            "{text}"
        );
    }
}

#[test]
fn an_artifact_directory_outside_the_workspace_is_refused() {
    let relative = HostPath::new("artifacts/x");
    let escaped = Containment {
        artifact_root: Ok(HostPath::new("/elsewhere")),
        workspace_root: Ok(HostPath::new("/case")),
        ancestor: Ok(HostPath::new("/elsewhere")),
    };
    match ensure_contained(&HostPath::new("/case"), &relative, escaped).unwrap_err() {
        WorkspaceError::InvalidArtifactPath(path) => {
            assert_eq!(path, HostPath::new("artifacts"));
        }
        other => panic!("unexpected error {other:?}"),
    }
    let sibling = Containment {
        artifact_root: Ok(HostPath::new("/case-2/artifacts")),
        workspace_root: Ok(HostPath::new("/case")),
        ancestor: Ok(HostPath::new("/case-2/artifacts")),
    };
    assert!(ensure_contained(&HostPath::new("/case"), &relative, sibling).is_err());
}

#[test]
fn errors_in_following_links_come_in_order() {
    let relative = HostPath::new("artifacts/x");
    let io = |name: &str| WorkspaceError::Io {
        path: JoinedPath::at(&HostPath::new(name)),
        source: "denied".to_string(),
    };
    let both = Containment {
        artifact_root: Err(io("first")),
        workspace_root: Err(io("second")),
        ancestor: Err(io("third")),
    };
    assert_eq!(ensure_contained(&HostPath::new("/case"), &relative, both).unwrap_err(), io("first"));
    let second = Containment {
        artifact_root: Ok(HostPath::new("/case/artifacts")),
        workspace_root: Err(io("second")),
        ancestor: Err(io("third")),
    };
    assert_eq!(
        ensure_contained(&HostPath::new("/case"), &relative, second).unwrap_err(),
        io("second")
    );
    let third = Containment {
        artifact_root: Ok(HostPath::new("/case/artifacts")),
        workspace_root: Ok(HostPath::new("/case")),
        ancestor: Err(io("third")),
    };
    let error = ensure_contained(&HostPath::new("/case"), &relative, third).unwrap_err();
    assert_eq!(error, io("third"));
    assert_eq!(error.message("third"), "io error at third: denied");
}

#[test]
fn the_nearest_existing_ancestor_is_the_first_that_exists() {
    assert_eq!(nearest_existing_ancestor(&vec![false, true, true]), 1);
    assert_eq!(nearest_existing_ancestor(&vec![true]), 0);
    assert_eq!(nearest_existing_ancestor(&vec![false, false]), 0);
}

#[test]
fn appends_event_jsonl_and_text_artifacts() {
    let workspace = workspace("/case");
    let dir = "/case/artifacts";
    let events = workspace
        .append_event_jsonl(
            &HostPath::new("artifacts/sessions/session-001/events.jsonl"),
            links(dir),
        )
        .unwrap();
    assert_eq!(
        events.relative.text,
        "artifacts/sessions/session-001/events.jsonl"
    );
    let transcript = workspace
        .append_text_artifact(
            &HostPath::new("artifacts/sessions/session-001/transcript.log"),
            links(dir),
        )
        .unwrap();
    assert_eq!(
        transcript.relative.text,
        "artifacts/sessions/session-001/transcript.log"
    );
    assert!(workspace
        .append_text_artifact(&HostPath::new("analysis/x"), links(dir))
        .is_err());
}

fn artifact_line(entry: &ArtifactMetadata) -> String {
    let mut line = serde_json::Map::new();
    let mut enter = |name: &str, value: Value| line.insert(name.to_string(), value);
    enter("artifact_id", Value::from(entry.artifact_id.id.as_str()));
    enter("kind", Value::from(entry.kind.as_str()));
    enter("relative_path", Value::from(entry.relative_path.text.as_str()));
    enter("created_at", Value::from(entry.created_at.unix_millis));
    enter("byte_len", Value::from(entry.byte_len));
    enter("description", Value::from(entry.description.clone()));
    Value::Object(line).to_string()
}

fn parse_artifact(line: String) -> Result<ArtifactMetadata, String> {
    let value: Value = serde_json::from_str(&line).map_err(|error| error.to_string())?;
    let text = |name: &str| value[name].as_str().map(str::to_string);
    Ok(ArtifactMetadata {
        artifact_id: ArtifactRef::new(Id::from_stored(text("artifact_id").ok_or("no id")?)),
        kind: text("kind").ok_or("no kind")?,
        relative_path: HostPath::new(&text("relative_path").ok_or("no path")?),
        created_at: Timestamp {
            unix_millis: value["created_at"].as_u64().ok_or("no time")?,
        },
        operation_id: None,
        byte_len: value["byte_len"].as_u64(),
        description: text("description"),
    })
}

fn audit_line(entry: &CommandAuditRecord) -> String {
    let mut line = serde_json::Map::new();
    let mut enter = |name: &str, value: Value| line.insert(name.to_string(), value);
    enter("operation_id", Value::from(entry.operation_id.id.as_str()));
    enter("capability", Value::from(entry.capability.as_str()));
    enter("command", Value::from(entry.command.as_str()));
    enter("created_at", Value::from(entry.created_at.unix_millis));
    enter("status", Value::from(entry.status.as_str()));
    Value::Object(line).to_string()
}

fn parse_audit(line: String) -> Result<CommandAuditRecord, String> {
    let value: Value = serde_json::from_str(&line).map_err(|error| error.to_string())?;
    let text = |name: &str| value[name].as_str().map(str::to_string);
    Ok(CommandAuditRecord {
        operation_id: OperationRef::new(Id::from_stored(text("operation_id").ok_or("no id")?)),
        session_id: None,
        capability: text("capability").ok_or("no capability")?,
        command: text("command").ok_or("no command")?,
        created_at: Timestamp {
            unix_millis: value["created_at"].as_u64().ok_or("no time")?,
        },
        status: OperationStatus::from_name(&text("status").ok_or("no status")?)
            .ok_or("unknown status")?,
        artifacts: Vec::new(),
        raw_output: None,
    })
}

#[test]
fn artifacts_are_listed_in_the_order_of_their_registration() {
    let workspace = workspace("/case");
    let shown = |lines: &Option<Vec<String>>| -> Vec<(String, String)> {
        workspace
            .list_artifacts(lines.clone(), parse_artifact)
            .unwrap()
            .into_iter()
            .map(|entry| {
                (
                    entry.artifact_id.id.as_str().to_string(),
                    entry.relative_path.text,
                )
            })
            .collect()
    };
    let mut log: Option<Vec<String>> = None;
    let mut expected: Vec<(String, String)> = Vec::new();
    assert_eq!(shown(&log), expected);
    for (id, path, linked) in [
        ("b", "artifacts/raw/1", "/case/artifacts/raw"),
        ("a", "artifacts/raw/2", "/case/artifacts"),
        ("c", "artifacts/../x", "/case/artifacts"),
        ("d", "artifacts/link/x", "/outside"),
        ("b", "artifacts/raw/1", "/case/artifacts/raw"),
    ] {
        let entry = metadata(id, path);
        if let Ok(place) = workspace.register_artifact(&entry, links(linked)) {
            assert_eq!(names(&place), [ARTIFACTS_LOG]);
            log.get_or_insert_with(Vec::new).push(artifact_line(&entry));
            expected.push((id.to_string(), path.to_string()));
        }
        assert_eq!(shown(&log), expected);
    }
    assert_eq!(
        expected.iter().map(|entry| entry.0.as_str()).collect::<Vec<_>>(),
        ["b", "a", "b"]
    );
}

fn parse_operation(line: String) -> Result<OperationRecord, String> {
    let value: Value = serde_json::from_str(&line).map_err(|error| error.to_string())?;
    let text = |name: &str| value[name].as_str().unwrap_or_default().to_string();
    Ok(OperationRecord {
        operation_id: OperationRef::new(Id::from_stored(
            value["operation_id"]["id"]
                .as_str()
                .unwrap_or_default()
                .to_string(),
        )),
        adapter_id: text("adapter_id"),
        capability: text("capability"),
        status: OperationStatus::from_name(&text("status")).ok_or("unknown status")?,
        created_at: Timestamp {
            unix_millis: value["created_at"]["unix_millis"].as_u64().unwrap_or(0),
        },
        summary: text("summary"),
        artifacts: Vec::new(),
        raw_output: None,
    })
}

#[test]
fn list_operations_accepts_legacy_pascal_case_status() {
    let workspace = workspace("case-legacy");
    let line = r#"{"operation_id":{"id":"op-legacy"},"adapter_id":"mock","capability":"native.version","status":"Success","created_at":{"unix_millis":1},"summary":"legacy success","artifacts":[]}"#;

    let operations = workspace
        .list_operations(Some(vec![line.to_string()]), parse_operation)
        .unwrap();
    assert_eq!(operations.len(), 1);
    assert!(matches!(operations[0].status, OperationStatus::Success));
    assert!(operations[0].raw_output.is_none());
    assert_eq!(operations[0].operation_id.id.as_str(), "op-legacy");
}

#[test]
fn statuses_are_named_in_two_forms() {
    for (status, name, legacy) in [
        (OperationStatus::Running, "running", "Running"),
        (OperationStatus::Success, "success", "Success"),
        (OperationStatus::Failed, "failed", "Failed"),
        (OperationStatus::Canceled, "canceled", "Canceled"),
    ] {
        assert_eq!(status.as_str(), name);
        assert_eq!(OperationStatus::from_name(name), Some(status));
        assert_eq!(OperationStatus::from_name(legacy), Some(status));
    }
    assert_eq!(OperationStatus::from_name("SUCCESS"), None);
}

#[test]
fn command_audit_round_trips_and_facts_include_logs() {
    let workspace = workspace("case-audit");
    let operation_id = OperationRef::new(Id::new("op-audit").unwrap());
    let entry = || CommandAuditRecord {
        operation_id: OperationRef::new(Id::new("op-audit").unwrap()),
        session_id: None,
        capability: "debug.eval".to_string(),
        command: ".echo hello".to_string(),
        created_at: Timestamp { unix_millis: 1 },
        status: OperationStatus::Success,
        artifacts: Vec::new(),
        raw_output: None,
    };
    assert_eq!(
        names(&workspace.append_command_audit()),
        [COMMAND_AUDIT_LOG]
    );

    let audit = workspace
        .list_command_audit(Some(vec![audit_line(&entry())]), parse_audit)
        .unwrap();
    assert_eq!(audit.len(), 1);
    assert_eq!(audit[0].operation_id, operation_id);
    assert_eq!(audit[0].capability, "debug.eval");
    assert_eq!(audit[0].command, ".echo hello");
    assert_eq!(audit[0].created_at.unix_millis, 1);
    assert_eq!(audit[0].status, OperationStatus::Success);
    assert_eq!(
        workspace
            .list_command_audit(Some(vec!["entry".to_string()]), parse_audit)
            .unwrap_err(),
        WorkspaceError::Json {
            path: JoinedPath::below(&HostPath::new("case-audit"), COMMAND_AUDIT_LOG),
            source: "expected value at line 1 column 1".to_string(),
        }
    );
    let facts = Workspace::facts(Ok(Vec::new()), Ok(Vec::new()), Ok(audit)).unwrap();
    assert_eq!(facts.command_audit.len(), 1);
}

#[test]
fn facts_report_the_first_error() {
    let error = |name: &str| WorkspaceError::InvalidPathSegment(name.to_string());
    let facts = Workspace::facts(Err(error("a")), Err(error("b")), Err(error("c")));
    assert_eq!(facts.unwrap_err(), error("a"));
    let facts = Workspace::facts(Ok(Vec::new()), Ok(Vec::new()), Err(error("c")));
    assert_eq!(facts.unwrap_err(), error("c"));
}

#[test]
fn logs_are_read_line_by_line() {
    let log = || JoinedPath::below(&HostPath::new("case"), OPERATIONS_LOG);
    let number = |line: String| line.parse::<u8>().map_err(|error| error.to_string());
    let lines = |list: &[&str]| Some(list.iter().map(|line| line.to_string()).collect());

    assert_eq!(read_json_lines(log(), None, number).unwrap(), Vec::<u8>::new());
    assert_eq!(
        read_json_lines(log(), lines(&["1", " \t", "", "2"]), number).unwrap(),
        [1u8, 2]
    );
    assert_eq!(
        read_json_lines(log(), lines(&["1", "x", "y"]), number).unwrap_err(),
        WorkspaceError::Json {
            path: log(),
            source: "invalid digit found in string".to_string(),
        }
    );
    assert_eq!(names(&workspace("case").append_operation()), [OPERATIONS_LOG]);
}

#[test]
fn path_segments_stay_where_they_are_put() {
    for refused in ["", "  ", ".", "..", "a/b", "a\\b"] {
        let error = validate_path_segment(refused).unwrap_err();
        assert_eq!(error.message(""), format!("invalid path segment `{refused}`"));
    }
    assert!(validate_path_segment("raw").is_ok());
    let workspace = workspace("case");
    assert_eq!(
        workspace.allocate_artifact_path("..", ".").unwrap_err(),
        WorkspaceError::InvalidPathSegment("..".to_string())
    );
    assert_eq!(
        workspace.allocate_artifact_path("raw", ".").unwrap_err(),
        WorkspaceError::InvalidPathSegment(".".to_string())
    );
}
