use dbgatlas::json::Json;
use dbgatlas::path::{HostPath, JoinedPath, PathPart};
use dbgatlas::text::{
    c_bytes, contains_char, decimal_text, eq_ignore_ascii_case, has_control_characters, is_blank,
    position_of, signed_decimal_text, starts_with, text_eq, text_precedes, utf8_len,
};
use dbgatlas::worker::event_line;

fn normal(name: &str) -> PathPart {
    PathPart::Normal(name.to_string())
}

#[test]
fn texts_are_compared_by_characters() {
    assert!(text_eq("é", "é"));
    assert!(!text_eq("e", "é"));
    assert!(!text_eq("a", "ab"));
    assert!(starts_with("Microsoft.WinDbg_1", "Microsoft.WinDbg"));
    assert!(!starts_with("Micro", "Microsoft"));
    assert!(eq_ignore_ascii_case("DbgEng.DLL", "dbgeng.dll"));
    assert!(!eq_ignore_ascii_case("É", "é"));
    assert!(!eq_ignore_ascii_case("[", "{"));
}

#[test]
fn texts_are_ordered_like_their_bytes() {
    let texts = ["", "A", "Aa", "B", "a", "é", "\u{ffff}", "\u{10000}"];
    for (i, left) in texts.iter().enumerate() {
        for (k, right) in texts.iter().enumerate() {
            assert_eq!(text_precedes(left, right), i < k);
            assert_eq!(text_precedes(left, right), left < right);
        }
    }
}

#[test]
fn blank_texts_hold_white_space_only() {
    for text in ["", " ", "\t\r\n", "\u{a0}\u{2003}\u{3000}\u{85}"] {
        assert!(is_blank(text));
        assert!(text.trim().is_empty());
    }
    for text in ["a", " a ", "\u{200b}", "\u{feff}"] {
        assert!(!is_blank(text));
        assert!(!text.trim().is_empty());
    }
}

#[test]
fn white_space_is_that_of_unicode() {
    for code in 0..0x11_0000u32 {
        if let Some(ch) = char::from_u32(code) {
            assert_eq!(dbgatlas::text::white_space(ch), ch.is_whitespace());
        }
    }
}

#[test]
fn control_characters_are_found() {
    for text in ["\0", "a\nb", "\u{7f}", "\u{9f}", "\u{2028}", "\u{2029}"] {
        assert!(has_control_characters(text));
    }
    for text in ["", "a b", "\u{a0}", "\u{2027}"] {
        assert!(!has_control_characters(text));
    }
    assert!(contains_char("a\\b", '\\'));
    assert!(!contains_char("ab", '/'));
}

#[test]
fn numbers_are_written_in_decimal() {
    for value in [0u64, 9, 10, 99, 100, 1_234_567_890, u64::MAX] {
        assert_eq!(decimal_text(value), value.to_string());
    }
    for value in [0i64, -1, 42, i64::MIN, i64::MAX] {
        assert_eq!(signed_decimal_text(value), value.to_string());
    }
}

#[test]
fn c_strings_hold_no_nul() {
    assert_eq!(c_bytes("aé").unwrap(), "aé".as_bytes());
    assert_eq!(c_bytes("é\0\0").unwrap_err(), 2);
    assert_eq!(c_bytes("").unwrap(), b"");
    assert_eq!(utf8_len("aé\u{10000}"), 7);
    assert_eq!(position_of(b"abca", b'a'), Some(0));
    assert_eq!(position_of(b"abca", b'x'), None);
}

#[test]
fn paths_fall_into_components() {
    assert_eq!(
        HostPath::new("a//b/./c/").parts,
        [normal("a"), normal("b"), normal("c")]
    );
    assert_eq!(
        HostPath::new("./a/..").parts,
        [PathPart::CurDir, normal("a"), PathPart::ParentDir]
    );
    assert!(HostPath::new("").parts.is_empty());
    assert!(HostPath::new("").is_empty());
    assert!(!HostPath::new("a/b").absolute);
    assert!(HostPath::new("a/..").has_parent_dir());
    assert!(!HostPath::new("a/..b").has_parent_dir());
    assert!(HostPath::new("a\\b").has_separator());
    assert_eq!(HostPath::new("a/b").file_name(), Some(&normal("b")));
    assert_eq!(HostPath::new("a/..").file_name(), None);
}

#[test]
fn a_path_that_starts_with_a_name_is_not_absolute() {
    assert!(!HostPath::new(r"bin\app.exe").absolute);
    assert!(!HostPath::new("app.exe").absolute);
    assert!(!HostPath::new("C:app.exe").absolute);
    assert!(!HostPath::new("").absolute);
}

#[test]
fn what_stands_behind_the_last_name_is_dropped_below_a_root() {
    let root = HostPath::new("/case");
    for text in ["artifacts/link", "artifacts/link/", "artifacts/link//", "artifacts/link/."] {
        assert_eq!(
            HostPath::new(text).below(&root),
            HostPath::new("artifacts/link"),
            "{text}"
        );
    }
    assert_eq!(
        HostPath::new("artifacts//a/./link/").below(&root),
        HostPath::new("artifacts//a/./link")
    );
    let mut raw = HostPath::new("artifacts/x/");
    raw.text = "artifacts/\u{fffd}/".to_string();
    raw.raw = Some(b"artifacts/\xff/".to_vec());
    raw.parts = vec![normal("artifacts"), PathPart::Opaque(vec![0xff])];
    let below = raw.below(&root);
    assert_eq!(below.raw, Some(b"artifacts/\xff".to_vec()));
    assert_eq!(below.parts, raw.parts);

    let mut verbatim = HostPath::new("x");
    verbatim.text = r"\\?\C:\case".to_string();
    verbatim.absolute = true;
    verbatim.parts = vec![
        PathPart::Prefix(r"\\?\C:".to_string()),
        PathPart::RootDir,
        normal("case"),
    ];
    assert_eq!(
        HostPath::new("artifacts//a/link/").below(&verbatim).text,
        r"artifacts\a\link"
    );
}

fn drive(prefix: &str) -> HostPath {
    let mut path = HostPath::new("x");
    path.text = format!("{prefix}\\case");
    path.absolute = true;
    path.parts = vec![
        PathPart::Prefix(prefix.to_string()),
        PathPart::RootDir,
        normal("case"),
    ];
    path
}

#[test]
fn drives_and_shares_go_by_what_they_name() {
    let same = |left: &str, right: &str| drive(left).starts_with(&drive(right));
    assert!(same("c:", "C:"));
    assert!(!same("c:", "D:"));
    assert!(same(r"\\?\c:", r"\\?\C:"));
    assert!(!same(r"\\?\c:", "C:"));
    assert!(!same(r"\\?\name", r"\\?\NAME"));
    assert!(same("//server/share", r"\\server\share"));
    assert!(!same(r"\\server\share", r"\\SERVER\share"));
    assert!(!same("//?/C:", r"\\?\C:"));
    assert!(same(r"\\?\UNC/server\share", r"\\?\UNC\server\share"));
    assert!(same("//./COM1", r"\\.\COM1"));

    let mut other = drive("C:");
    other.parts[2] = normal("CASE");
    assert!(!drive("C:").starts_with(&other));
}

#[test]
fn prefixes_of_paths_are_made_of_components() {
    let path = HostPath::new("a/bc");
    assert!(path.starts_with(&HostPath::new("a")));
    assert!(path.starts_with(&HostPath::new("")));
    assert!(!path.starts_with(&HostPath::new("a/b")));
    assert!(!HostPath::new("a").starts_with(&path));
    let joined = JoinedPath::below(&path, "x").join("y");
    assert_eq!(joined.base, path);
    assert_eq!(joined.names, ["x", "y"]);
    assert!(JoinedPath::at(&path).names.is_empty());
}

#[test]
fn documents_hold_fields() {
    let json = Json::object3(
        "a",
        Json::number(-5),
        "b",
        Json::number(5),
        "a",
        Json::Null,
    );
    assert_eq!(json.get("a"), Some(&Json::Int(-5)));
    assert_eq!(json.get("b"), Some(&Json::Uint(5)));
    assert_eq!(json.get("c"), None);
    assert_eq!(Json::Null.get("a"), None);
    assert!(json.is_object());
    assert!(!Json::array(Vec::new()).is_object());
    assert_eq!(json.clone(), json);
}

#[test]
fn a_document_is_written_as_one_line() {
    let json = Json::object2(
        "text",
        Json::text("a\nb\u{e9}\"\\"),
        "list",
        Json::array(vec![
            Json::Bool(true),
            Json::Int(-1),
            Json::Real("1.5".to_string()),
        ]),
    );
    assert_eq!(
        event_line(&json).unwrap(),
        "{\"list\":[true,-1,1.5],\"text\":\"a\\nb\u{e9}\\\"\\\\\"}\n"
    );
}
