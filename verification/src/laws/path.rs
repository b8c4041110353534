//! Laws on paths.

use crate::path;
use crate::path::{
    keys, part_eq, part_key, prefix_eq, HostPath, JoinedPath, PartView, PathPart, PathView,
};
use vstd::prelude::*;
use vstd::string::*;

verus! {

/// Two components that are no prefixes are the same to the host where they are
/// the same; a name is never the same as anything but that name.
pub proof fn law_names_are_told_apart(left: PathPart, right: PathPart, same: bool)
    requires
        call_ensures(part_eq, (&left, &right), same),
    ensures
        !(left@ is Prefix) || !(right@ is Prefix) ==> (same <==> left@ == right@),
        left@ == right@ ==> same,
{
}

/// Two drives are the same where their letters are, whatever their case.
pub proof fn law_drives_are_told_apart(left: &str, right: &str, same: bool)
    requires
        call_ensures(prefix_eq, (left, right), same),
        left@.len() == 2,
        right@.len() == 2,
        left@[1] == ':',
        right@[1] == ':',
        left@[0] != '\\' && right@[0] != '\\' && left@[0] != '/' && right@[0] != '/',
    ensures
        same <==> crate::laws::text::same_letter(left@[0], right@[0]),
{
    lemma_folded_drive(left@);
    lemma_folded_drive(right@);
    let a = path::folded(left@);
    let b = path::folded(right@);
    if crate::laws::text::same_letter(left@[0], right@[0]) {
        assert(a[0] == b[0]);
        assert(a =~= b);
    }
    if same {
        assert(a[0] == b[0]);
    }
}

proof fn lemma_folded_drive(text: Seq<char>)
    requires
        text.len() == 2,
        text[1] == ':',
    ensures
        path::folded(text).len() == 2,
        path::folded(text)[1] == ':',
        97 <= text[0] as int <= 122 ==> path::folded(text)[0] as int == text[0] as int - 32,
        !(97 <= text[0] as int <= 122) ==> path::folded(text)[0] == text[0],
{
    assert(path::drive_at(text) == Some(0int));
    assert(path::folded(text)[0] == path::folded_char(text, 0));
    assert(path::folded(text)[1] == path::folded_char(text, 1));
}

/// The host takes what follows the prefix literally.
pub open spec fn is_taken_literally(prefix: Seq<char>) -> bool {
    prefix.len() >= 4 && prefix[0] == '\\' && prefix[1] == '\\' && prefix[2] == '?' && prefix[3]
        == '\\'
}

/// The path begins with a prefix that is taken literally.
pub open spec fn has_literal_root(root: PathView) -> bool {
    root.parts.len() > 0 && (root.parts[0] matches PartView::Prefix(text) && is_taken_literally(
        text,
    ))
}

proof fn lemma_literally(prefix: Seq<char>)
    ensures
        path::is_literal(prefix) == is_taken_literally(prefix),
{
    reveal_strlit("\\\\?\\");
    let head = "\\\\?\\"@;
    if path::is_literal(prefix) {
        assert(prefix.subrange(0, 4) == head);
        assert(prefix.subrange(0, 4)[0] == prefix[0]);
        assert(prefix.subrange(0, 4)[1] == prefix[1]);
        assert(prefix.subrange(0, 4)[2] == prefix[2]);
        assert(prefix.subrange(0, 4)[3] == prefix[3]);
    }
    if is_taken_literally(prefix) {
        assert(prefix.subrange(0, 4) =~= head);
    }
}

proof fn lemma_literal_root(root: PathView)
    ensures
        path::is_verbatim(root) == has_literal_root(root),
{
    if root.parts.len() > 0 {
        if let PartView::Prefix(text) = root.parts[0] {
            lemma_literally(text);
        }
    }
}

/// Two shares are the same where they have the same names, whichever separator
/// stands between them.
pub proof fn law_shares_are_told_apart(left: &str, right: &str, same: bool)
    requires
        call_ensures(prefix_eq, (left, right), same),
        left@.len() > 2,
        right@.len() > 2,
        !is_taken_literally(left@),
        !is_taken_literally(right@),
    ensures
        same <==> left@.len() == right@.len() && forall|i: int|
            0 <= i < left@.len() ==> same_in_share(#[trigger] left@[i], right@[i]),
{
    lemma_literally(left@);
    lemma_literally(right@);
    let a = path::folded(left@);
    let b = path::folded(right@);
    assert forall|i: int| 0 <= i < left@.len() implies #[trigger] a[i] == (if left@[i] == '\\' {
        '/'
    } else {
        left@[i]
    }) by {
        assert(path::drive_at(left@) is None);
        lemma_not_slashed(left@);
    }
    assert forall|i: int| 0 <= i < right@.len() implies #[trigger] b[i] == (if right@[i] == '\\' {
        '/'
    } else {
        right@[i]
    }) by {
        assert(path::drive_at(right@) is None);
        lemma_not_slashed(right@);
    }
    if same {
        assert forall|i: int| 0 <= i < left@.len() implies same_in_share(
            #[trigger] left@[i],
            right@[i],
        ) by {
            assert(a[i] == b[i]);
        }
    } else if left@.len() == right@.len() && (forall|i: int|
        0 <= i < left@.len() ==> same_in_share(#[trigger] left@[i], right@[i])) {
        assert forall|i: int| 0 <= i < a.len() implies a[i] == b[i] by {
            assert(same_in_share(left@[i], right@[i]));
        }
        assert(a =~= b);
    }
}

/// One character, or two separators.
pub open spec fn same_in_share(a: char, b: char) -> bool {
    a == b || ((a == '/' || a == '\\') && (b == '/' || b == '\\'))
}

/// A prefix that is not literal is no literal share.
proof fn lemma_not_slashed(prefix: Seq<char>)
    requires
        !path::is_literal(prefix),
    ensures
        !path::is_slashed_share(prefix),
{
    reveal_strlit("\\\\?\\");
    reveal_strlit("\\\\?\\UNC/");
    if path::is_slashed_share(prefix) {
        let long = "\\\\?\\UNC/"@;
        assert(long == prefix.subrange(0, 8));
        assert(prefix.subrange(0, 4) =~= "\\\\?\\"@) by {
            assert(forall|i: int| 0 <= i < 4 ==> prefix[i] == #[trigger] long[i]);
        }
        assert("\\\\?\\"@.is_prefix_of(prefix));
    }
}

/// A path begins with another where its first components are those of the
/// other, one by one; the empty path begins every one.
pub proof fn law_paths_begin_with_components(whole: HostPath, base: HostPath, yes: bool)
    requires
        call_ensures(HostPath::starts_with, (&whole, &base), yes),
    ensures
        yes <==> base@.parts.len() <= whole@.parts.len() && forall|i: int|
            0 <= i < base@.parts.len() ==> part_key(#[trigger] base@.parts[i]) == part_key(
                whole@.parts[i],
            ),
        base@.parts.len() == 0 ==> yes,
        base@.parts == whole@.parts ==> yes,
{
    let a = keys(base@.parts);
    let b = keys(whole@.parts);
    assert(a.len() == base@.parts.len());
    assert(b.len() == whole@.parts.len());
    if yes {
        assert forall|i: int| 0 <= i < base@.parts.len() implies part_key(
            #[trigger] base@.parts[i],
        ) == part_key(whole@.parts[i]) by {
            assert(a[i] == part_key(base@.parts[i]));
            assert(b.subrange(0, a.len() as int)[i] == b[i]);
        }
    }
    if base@.parts.len() <= whole@.parts.len() && (forall|i: int|
        0 <= i < base@.parts.len() ==> part_key(#[trigger] base@.parts[i]) == part_key(
            whole@.parts[i],
        )) {
        assert forall|i: int| 0 <= i < a.len() implies a[i] == b.subrange(0, a.len() as int)[i] by {
            assert(part_key(base@.parts[i]) == part_key(whole@.parts[i]));
        }
        assert(a =~= b.subrange(0, a.len() as int));
    }
}

/// A path is the text that it was made of; a text of plain names between
/// slashes is a relative path.
pub proof fn law_paths_are_their_text(text: &str, made: HostPath)
    requires
        call_ensures(HostPath::new, (text,), made),
    ensures
        made@.text == text@,
        made@.raw is None,
        text@.len() > 0 && text@[0] != '/' && text@[0] != '\\' && !text@.contains(':')
            ==> !made@.absolute,
{
    if text@.len() > 2 {
        if text@[1] == ':' {
            assert(text@.contains(text@[1]));
        }
    }
}

/// What a path says of itself: whether it is empty, steps upwards, holds a
/// separator, and which name it ends with.
pub proof fn law_paths_tell_their_parts(
    given: HostPath,
    empty: bool,
    upwards: bool,
    separated: bool,
    name: Option<&PathPart>,
)
    requires
        call_ensures(HostPath::is_empty, (&given,), empty),
        call_ensures(HostPath::has_parent_dir, (&given,), upwards),
        call_ensures(HostPath::has_separator, (&given,), separated),
        call_ensures(HostPath::file_name, (&given,), name),
    ensures
        empty <==> given@.text.len() == 0,
        upwards <==> exists|i: int|
            0 <= i < given@.parts.len() && (#[trigger] given@.parts[i]) is ParentDir,
        separated <==> exists|i: int|
            0 <= i < given@.text.len() && ((#[trigger] given@.text[i]) == '/' || given@.text[i]
                == '\\'),
        name matches Some(part) ==> given@.parts.len() > 0 && part@ == given@.parts.last() && (part@
            is Normal || part@ is Opaque),
        name is None ==> given@.parts.len() == 0 || !(given@.parts.last() is Normal
            || given@.parts.last() is Opaque),
{
    if given@.parts.contains(PartView::ParentDir) {
        let i = choose|i: int|
            0 <= i < given@.parts.len() && given@.parts[i] == PartView::ParentDir;
        assert(given@.parts[i] is ParentDir);
    }
    if exists|i: int| 0 <= i < given@.parts.len() && (#[trigger] given@.parts[i]) is ParentDir {
        let i = choose|i: int|
            0 <= i < given@.parts.len() && (#[trigger] given@.parts[i]) is ParentDir;
        assert(given@.parts[i] == PartView::ParentDir);
    }
    let text = given@.text;
    if text.contains('/') {
        let i = choose|i: int| 0 <= i < text.len() && text[i] == '/';
        assert(text[i] == '/');
    }
    if text.contains('\\') {
        let i = choose|i: int| 0 <= i < text.len() && text[i] == '\\';
        assert(text[i] == '\\');
    }
}

/// A path that is told apart from its root keeps its components; where the root
/// is not taken literally, its text is cut at the end and nowhere else.
pub proof fn law_paths_below_a_root_keep_their_names(
    given: HostPath,
    root: HostPath,
    found: HostPath,
)
    requires
        call_ensures(HostPath::below, (&given, &root), found),
    ensures
        found@.parts == given@.parts,
        found@.absolute == given@.absolute,
        found@.raw is Some <==> given@.raw is Some,
        !has_literal_root(root@) ==> found@.text.is_prefix_of(given@.text),
{
    lemma_literal_root(root@);
    if !path::is_verbatim(root@) {
        let by = path::tail_len(given@);
        let short = path::shortened(given@.text, by);
        assert(found@.text == short);
        assert(given@.text.subrange(0, short.len() as int) =~= short);
    }
}

/// A path below another has the names below it in order.
pub proof fn law_joined_paths_have_their_names_in_order(
    base: HostPath,
    name: &str,
    at: JoinedPath,
    below: JoinedPath,
    given: JoinedPath,
    joined: JoinedPath,
)
    requires
        call_ensures(JoinedPath::at, (&base,), at),
        call_ensures(JoinedPath::below, (&base, name), below),
        call_ensures(JoinedPath::join, (given, name), joined),
    ensures
        at@.base == base@ && at@.names.len() == 0,
        below@.base == base@ && below@.names == seq![name@],
        joined@.base == given@.base && joined@.names == given@.names.push(name@),
{
}

/// A literal prefix is no other kind of prefix; two literal ones are the same
/// where their characters are, but for the case of a drive and for the
/// separator behind the name of a share.
pub proof fn law_literal_prefixes_are_told_apart(left: &str, right: &str, same: bool)
    requires
        call_ensures(prefix_eq, (left, right), same),
        is_taken_literally(left@),
    ensures
        !is_taken_literally(right@) ==> !same,
        is_taken_literally(right@) ==> (same <==> left@.len() == right@.len() && forall|i: int|
            0 <= i < left@.len() ==> same_literally(left@, right@, i)),
{
    lemma_literally(left@);
    lemma_literally(right@);
    reveal_strlit("\\\\?\\");
    reveal_strlit("\\\\?\\UNC/");
    let a = path::folded(left@);
    let b = path::folded(right@);
    let head = "\\\\?\\"@;
    assert(left@.subrange(0, 4) == head);
    assert(left@[0] == left@.subrange(0, 4)[0]);
    assert(left@[0] == '\\');
    assert(left@.len() >= 4);
    assert(a.len() == left@.len());
    assert(b.len() == right@.len());
    if same {
        assert(a[0] == path::folded_char(left@, 0));
        assert(b[0] == path::folded_char(right@, 0));
    }
    if path::is_literal(right@) && left@.len() == right@.len() {
        lemma_slashed(left@);
        lemma_slashed(right@);
        assert forall|i: int| 0 <= i < left@.len() implies (a[i] == b[i] <==> same_literally(
            left@,
            right@,
            i,
        )) by {
            assert(a[i] == path::folded_char(left@, i));
            assert(b[i] == path::folded_char(right@, i));
        }
        if same {
            assert forall|i: int| 0 <= i < left@.len() implies same_literally(left@, right@, i) by {
                assert(a[i] == b[i]);
            }
        }
        if forall|i: int| 0 <= i < left@.len() ==> same_literally(left@, right@, i) {
            assert forall|i: int| 0 <= i < a.len() implies a[i] == b[i] by {
                assert(same_literally(left@, right@, i));
            }
            assert(a =~= b);
        }
    }
}

/// What a literal prefix shows at a position, as the host compares it.
pub open spec fn literal_char(prefix: Seq<char>, i: int) -> char {
    if i == 7 && names_share(prefix) && prefix[7] == '/' {
        '\\'
    } else if i == 4 && prefix.len() == 6 && prefix[5] == ':' && 97 <= prefix[4] as int <= 122 {
        (prefix[4] as int - 32) as char
    } else {
        prefix[i]
    }
}

/// The prefix names a share behind its first four characters.
pub open spec fn names_share(prefix: Seq<char>) -> bool {
    prefix.len() >= 8 && prefix[4] == 'U' && prefix[5] == 'N' && prefix[6] == 'C'
}

/// Two literal prefixes show the same at a position.
pub open spec fn same_literally(left: Seq<char>, right: Seq<char>, i: int) -> bool {
    literal_char(left, i) == literal_char(right, i)
}

proof fn lemma_slashed(prefix: Seq<char>)
    requires
        path::is_literal(prefix),
    ensures
        path::is_slashed_share(prefix) <==> names_share(prefix) && prefix[7] == '/',
{
    reveal_strlit("\\\\?\\");
    reveal_strlit("\\\\?\\UNC/");
    let head = "\\\\?\\"@;
    let long = "\\\\?\\UNC/"@;
    assert(prefix.subrange(0, 4) == head);
    assert forall|i: int| 0 <= i < 4 implies prefix[i] == #[trigger] head[i] by {
        assert(prefix.subrange(0, 4)[i] == prefix[i]);
    }
    if path::is_slashed_share(prefix) {
        assert(prefix.subrange(0, 8) == long);
        assert(prefix.subrange(0, 8)[4] == prefix[4]);
        assert(prefix.subrange(0, 8)[5] == prefix[5]);
        assert(prefix.subrange(0, 8)[6] == prefix[6]);
        assert(prefix.subrange(0, 8)[7] == prefix[7]);
    }
    if names_share(prefix) && prefix[7] == '/' {
        assert(prefix[0] == head[0] && prefix[1] == head[1] && prefix[2] == head[2] && prefix[3]
            == head[3]);
        assert(prefix.subrange(0, 8) =~= long);
    }
}

/// A text without a separator, a colon or a step is one name.
pub proof fn law_plain_names_are_one_component(text: &str, made: HostPath)
    requires
        call_ensures(HostPath::new, (text,), made),
        text@.len() > 0,
        forall|i: int|
            0 <= i < text@.len() ==> (#[trigger] text@[i]) != '/' && text@[i] != '\\' && text@[i]
                != ':',
        text@ != seq!['.'],
        text@ != seq!['.', '.'],
    ensures
        made@.parts == seq![PartView::Normal(text@)],
        !made@.absolute,
{
    if text@.contains('\\') {
        let i = choose|i: int| 0 <= i < text@.len() && text@[i] == '\\';
        assert(text@[i] == '\\');
    }
    if text@.contains(':') {
        let i = choose|i: int| 0 <= i < text@.len() && text@[i] == ':';
        assert(text@[i] == ':');
    }
    lemma_one_segment(text@);
    assert(path::segments(text@).drop_first() =~= seq![]);
    assert(made@.parts =~= seq![PartView::Normal(text@)]);
}

proof fn lemma_one_segment(text: Seq<char>)
    requires
        forall|i: int| 0 <= i < text.len() ==> (#[trigger] text[i]) != '/',
    ensures
        path::segments(text) == seq![text],
    decreases text.len(),
{
    if text.len() > 0 {
        let rest = text.drop_first();
        assert forall|i: int| 0 <= i < rest.len() implies (#[trigger] rest[i]) != '/' by {
            assert(rest[i] == text[i + 1]);
        }
        lemma_one_segment(rest);
        assert(seq![text[0]] + rest =~= text);
        assert(path::segments(text) =~= seq![text]);
    } else {
        assert(text =~= Seq::empty());
    }
}

/// The first bytes of a path, up to a length, end with a name.
pub open spec fn ends_with_name(whole: Seq<u8>, len: int, name: Seq<u8>) -> bool {
    0 <= len <= whole.len() && name.is_suffix_of(whole.take(len))
}

/// A path below a root that is not taken literally is cut behind the last
/// place where its last name stands, and nowhere else.
pub proof fn law_paths_end_with_their_last_name(
    given: HostPath,
    root: HostPath,
    found: HostPath,
    other: int,
)
    requires
        call_ensures(HostPath::below, (&given, &root), found),
        !has_literal_root(root@),
        given@.parts.len() > 0,
        given@.raw is Some,
        given@.parts.last() is Opaque,
    ensures
        ({
            let whole = given@.raw->0;
            let name = given@.parts.last()->Opaque_0;
            let kept = found@.raw->0;
            ends_with_name(whole, other, name) ==> {
                &&& other <= kept.len()
                &&& kept == whole.take(kept.len() as int)
                &&& name.is_suffix_of(kept)
            }
        }),
{
    lemma_literal_root(root@);
    let whole = given@.raw->0;
    let name = given@.parts.last()->Opaque_0;
    if ends_with_name(whole, other, name) {
        lemma_last_end(whole, name, other);
        let end = path::last_end(whole, name)->0;
        assert(found@.raw->0 =~= whole.take(end as int));
    }
}

proof fn lemma_last_end(whole: Seq<u8>, name: Seq<u8>, other: int)
    requires
        ends_with_name(whole, other, name),
    ensures
        path::last_end(whole, name) matches Some(end) && other <= end <= whole.len()
            && name.is_suffix_of(whole.take(end as int)),
    decreases whole.len(),
{
    if name.is_suffix_of(whole) {
        assert(whole.take(whole.len() as int) =~= whole);
    } else {
        if other == whole.len() {
            assert(whole.take(other) =~= whole);
        }
        let rest = whole.drop_last();
        assert(rest.take(other) =~= whole.take(other));
        lemma_last_end(rest, name, other);
        let end = path::last_end(rest, name)->0;
        assert(rest.take(end as int) =~= whole.take(end as int));
    }
}

/// A path that ends with its last name is told as it is, below a root that is
/// not taken literally.
pub proof fn law_paths_without_a_tail_stay_as_they_are(
    given: HostPath,
    root: HostPath,
    found: HostPath,
)
    requires
        call_ensures(HostPath::below, (&given, &root), found),
        !has_literal_root(root@),
        given@.parts.len() > 0,
        given@.raw is None,
        given@.parts.last() matches PartView::Normal(name) && vstd::utf8::encode_utf8(
            name,
        ).is_suffix_of(vstd::utf8::encode_utf8(given@.text)),
    ensures
        found@ == given@,
{
    lemma_literal_root(root@);
    assert(path::tail_len(given@) == 0);
    assert(found@.text =~= given@.text);
    assert(found@ =~= given@);
}

/// The character separates names.
pub open spec fn is_separator(ch: char) -> bool {
    ch == '/' || ch == '\\'
}

/// Names between single separators, none of them a step in place.
pub open spec fn is_clean(text: Seq<char>) -> bool {
    &&& text.len() > 0
    &&& !is_separator(text[0])
    &&& !is_separator(text.last())
    &&& forall|i: int|
        0 < i < text.len() ==> !(is_separator(#[trigger] text[i]) && is_separator(text[i - 1]))
    &&& forall|i: int| 0 <= i < text.len() ==> !#[trigger] stays_in_place(text, i)
}

/// The character is a dot that is a name of its own.
pub open spec fn stays_in_place(text: Seq<char>, i: int) -> bool {
    &&& text[i] == '.'
    &&& i == 0 || is_separator(text[i - 1])
    &&& i == text.len() - 1 || is_separator(text[i + 1])
}

/// Below a root that is taken literally, clean names are told with backslashes
/// between them, whichever separator stood there, and are else unchanged.
pub proof fn law_literal_roots_take_backslashes(
    given: HostPath,
    root: HostPath,
    found: HostPath,
    i: int,
)
    requires
        call_ensures(HostPath::below, (&given, &root), found),
        has_literal_root(root@),
        is_clean(given@.text),
    ensures
        found@.text.len() == given@.text.len(),
        0 <= i < given@.text.len() ==> found@.text[i] == if is_separator(given@.text[i]) {
            '\\'
        } else {
            given@.text[i]
        },
{
    lemma_literal_root(root@);
    let text = given@.text;
    assert(text.take(text.len() as int) =~= text);
    lemma_clean_names(text, text.len() as int);
    let (names, rest) = path::names_and_rest(text);
    let last = text.len() - 1;
    assert(rest.len() > 0);
    if rest == seq!['.'] {
        assert(rest[0] == text[last]);
        assert(stays_in_place(text, last));
    }
    if names.len() == 0 {
        assert(found@.text =~= rest);
    }
    assert(found@.text =~= mapped(text, text.len() as int));
}

/// The first characters of a text, with backslashes for separators.
pub open spec fn mapped(text: Seq<char>, len: int) -> Seq<char> {
    Seq::new(
        len as nat,
        |i: int|
            if is_separator(text[i]) {
                '\\'
            } else {
                text[i]
            },
    )
}

proof fn lemma_clean_names(text: Seq<char>, len: int)
    requires
        is_clean(text),
        0 < len <= text.len(),
    ensures
        ({
            let (names, rest) = path::names_and_rest(text.take(len));
            &&& rest.len() <= len
            &&& rest == text.subrange(len - rest.len(), len)
            &&& rest.len() == len || is_separator(text[len - rest.len() - 1])
            &&& is_separator(text[len - 1]) <==> rest.len() == 0
            &&& rest.len() == len ==> names.len() == 0
            &&& rest.len() < len ==> names.len() > 0
            &&& rest.len() < len ==> names + seq!['\\'] + rest == mapped(text, len)
            &&& rest.len() == len ==> rest == mapped(text, len)
        }),
    decreases len,
{
    let p = text.take(len);
    assert(p.drop_last() =~= text.take(len - 1));
    assert(p.last() == text[len - 1]);
    if len == 1 {
        assert(text.take(0) =~= seq![]);
        assert(path::names_and_rest(text.take(0)) == (Seq::<char>::empty(), Seq::<char>::empty()));
        let (names, rest) = path::names_and_rest(p);
        assert(rest =~= text.subrange(0, 1));
        assert(rest =~= mapped(text, 1));
    } else {
        lemma_clean_names(text, len - 1);
        let (before, piece) = path::names_and_rest(text.take(len - 1));
        let (names, rest) = path::names_and_rest(p);
        if is_separator(text[len - 1]) {
            assert(!is_separator(text[len - 2]));
            assert(piece.len() > 0);
            if piece == seq!['.'] {
                assert(piece[0] == text[len - 2]);
                assert(stays_in_place(text, len - 2));
            }
            assert(names == path::with_name(before, piece));
            assert(rest =~= text.subrange(len, len));
            assert(names =~= mapped(text, len - 1));
            assert(names + seq!['\\'] + rest =~= mapped(text, len));
        } else {
            assert(names == before);
            assert(rest == piece.push(text[len - 1]));
            assert(rest =~= text.subrange(len - rest.len(), len));
            if rest.len() < len {
                assert(names + seq!['\\'] + rest =~= (names + seq!['\\'] + piece).push(
                    text[len - 1],
                ));
                assert(names + seq!['\\'] + rest =~= mapped(text, len));
            } else {
                assert(rest =~= mapped(text, len));
            }
        }
    }
}

/// Below a root that is taken literally, the bytes of a path are those of its
/// names: one more name adds a backslash and its bytes.
pub proof fn law_literal_roots_join_the_bytes_of_names(
    one: HostPath,
    two: HostPath,
    root: HostPath,
    short: HostPath,
    long: HostPath,
    name: Seq<u8>,
)
    requires
        call_ensures(HostPath::below, (&one, &root), short),
        call_ensures(HostPath::below, (&two, &root), long),
        has_literal_root(root@),
        one@.raw is Some,
        two@.raw is Some,
        two@.parts == one@.parts.push(PartView::Opaque(name)),
    ensures
        one@.parts.len() > 0 ==> long@.raw == Some(short@.raw->0 + seq![92u8] + name),
        one@.parts.len() == 0 ==> long@.raw == Some(name),
{
    lemma_literal_root(root@);
    assert(two@.parts.drop_last() =~= one@.parts);
    assert(two@.parts.last() == PartView::Opaque(name));
}

/// Two lists of bytes are the same where their bytes are.
pub proof fn law_bytes_are_told_apart(left: Vec<u8>, right: Vec<u8>, same: bool)
    requires
        call_ensures(path::bytes_eq, (&left, &right), same),
    ensures
        same <==> left@.len() == right@.len() && forall|i: int|
            0 <= i < left@.len() ==> #[trigger] left@[i] == right@[i],
{
    if left@.len() == right@.len() && (forall|i: int|
        0 <= i < left@.len() ==> #[trigger] left@[i] == right@[i]) {
        assert(left@ =~= right@);
    }
}

/// A Unicode path below a root that is not taken literally loses, at its end,
/// as many characters as bytes stand behind the last place of its last name.
pub proof fn law_texts_end_with_their_last_name(
    given: HostPath,
    root: HostPath,
    found: HostPath,
    name: Seq<char>,
    other: int,
)
    requires
        call_ensures(HostPath::below, (&given, &root), found),
        !has_literal_root(root@),
        given@.parts.len() > 0,
        given@.raw is None,
        given@.parts.last() == PartView::Normal(name),
        ends_with_name(
            vstd::utf8::encode_utf8(given@.text),
            other,
            vstd::utf8::encode_utf8(name),
        ),
    ensures
        found@.raw is None,
        exists|end: int|
            {
                &&& #[trigger] ends_with_name(
                    vstd::utf8::encode_utf8(given@.text),
                    end,
                    vstd::utf8::encode_utf8(name),
                )
                &&& other <= end
                &&& vstd::utf8::encode_utf8(given@.text).len() - end <= given@.text.len()
                    ==> found@.text == given@.text.take(
                    given@.text.len() - (vstd::utf8::encode_utf8(given@.text).len() - end),
                )
            },
{
    lemma_literal_root(root@);
    let whole = vstd::utf8::encode_utf8(given@.text);
    let bytes = vstd::utf8::encode_utf8(name);
    lemma_last_end(whole, bytes, other);
    let end = path::last_end(whole, bytes)->0 as int;
    assert(ends_with_name(whole, end, bytes));
    assert(path::tail_len(given@) == whole.len() - end);
}

} // verus!
