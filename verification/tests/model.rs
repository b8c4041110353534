use dbgatlas::model::{
    read_ref, ErrorContext, Id, RefError, RefField, RefForm, SessionRef, Timestamp, WorkspaceRef,
};
use dbgatlas::path::HostPath;

#[test]
fn id_rejects_empty_and_path_like_values() {
    assert!(Id::new("").is_err());
    assert!(Id::new("a/b").is_err());
    assert!(Id::new("a\\b").is_err());
}

#[test]
fn id_accepts_plain_values() {
    let id = Id::new("artifact-001").unwrap();
    assert_eq!(id.as_str(), "artifact-001");
}

#[test]
fn id_errors_say_why() {
    assert_eq!(
        Id::new(" \t").unwrap_err().message(),
        "invalid DbgAtlas id: id must not be empty"
    );
    assert_eq!(
        Id::new("a/b").unwrap_err().message(),
        "invalid DbgAtlas id: id must not contain path separators"
    );
}

#[test]
fn session_ref_deserializes_from_string() {
    let id = read_ref(RefForm::Text("session-001".to_string())).unwrap();
    let session = SessionRef::new(id);
    assert_eq!(session.id.as_str(), "session-001");
}

#[test]
fn session_ref_deserializes_from_object_and_ignores_kind() {
    let id = read_ref(RefForm::Object(vec![
        RefField {
            name: "kind".to_string(),
            text: Some("reverse".to_string()),
        },
        RefField {
            name: "id".to_string(),
            text: Some("session-001".to_string()),
        },
    ]))
    .unwrap();
    assert_eq!(SessionRef::new(id).id.as_str(), "session-001");
}

#[test]
fn refs_refuse_other_documents() {
    let field = |name: &str, text: Option<&str>| RefField {
        name: name.to_string(),
        text: text.map(str::to_string),
    };
    assert!(matches!(
        read_ref(RefForm::Text("a/b".to_string())),
        Err(RefError::InvalidId(_))
    ));
    assert_eq!(
        read_ref(RefForm::Object(vec![field("kind", None)])).unwrap_err(),
        RefError::MissingId
    );
    assert_eq!(
        read_ref(RefForm::Object(vec![
            field("id", Some("a")),
            field("id", Some("b"))
        ]))
        .unwrap_err(),
        RefError::DuplicateId
    );
    assert_eq!(
        read_ref(RefForm::Object(vec![field("id", None), field("id", Some("b"))])).unwrap_err(),
        RefError::IdIsNotText
    );
    // An object's identifier is taken as it is.
    let id = read_ref(RefForm::Object(vec![field("id", Some("a/b"))])).unwrap();
    assert_eq!(id.as_str(), "a/b");
}

#[test]
fn timestamps_saturate() {
    assert_eq!(Timestamp::from_millis(None).unix_millis, 0);
    assert_eq!(Timestamp::from_millis(Some(7)).unix_millis, 7);
    assert_eq!(
        Timestamp::from_millis(Some(u128::from(u64::MAX) + 1)).unix_millis,
        u64::MAX
    );
}

#[test]
fn timestamps_follow_the_clock() {
    let first = Timestamp::now();
    let second = Timestamp::now();
    assert!(first.unix_millis > 1_500_000_000_000);
    assert!(second >= first);
}

#[test]
fn plain_values_are_kept() {
    let context = ErrorContext::new("code", "message");
    assert_eq!(context.code, "code");
    assert_eq!(context.message, "message");
    let root = WorkspaceRef::new(HostPath::new("case"));
    assert_eq!(root.root, HostPath::new("case"));
}
