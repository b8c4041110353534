//! File system paths as plain values.

use crate::text;
use crate::text::{chars_of, contains_char, text_eq};
use vstd::prelude::*;
use vstd::string::*;
use vstd::utf8::*;

verus! {

/// A component of a path.
#[derive(Debug, PartialEq, Eq)]
pub enum PathPart {
    /// A drive, share or device prefix, by its text.
    Prefix(String),
    RootDir,
    CurDir,
    ParentDir,
    /// A name.
    Normal(String),
    /// A name that is not Unicode, by its encoded bytes.
    Opaque(Vec<u8>),
}

/// A component of a path, as contracts speak of it.
pub enum PartView {
    Prefix(Seq<char>),
    RootDir,
    CurDir,
    ParentDir,
    Normal(Seq<char>),
    Opaque(Seq<u8>),
}

impl View for PathPart {
    type V = PartView;

    open spec fn view(&self) -> PartView {
        match self {
            PathPart::Prefix(text) => PartView::Prefix(text@),
            PathPart::RootDir => PartView::RootDir,
            PathPart::CurDir => PartView::CurDir,
            PathPart::ParentDir => PartView::ParentDir,
            PathPart::Normal(name) => PartView::Normal(name@),
            PathPart::Opaque(bytes) => PartView::Opaque(bytes@),
        }
    }
}

impl PartView {
    /// A name, Unicode or not.
    pub open spec fn is_name(self) -> bool {
        self is Normal || self is Opaque
    }
}

/// The components behind a list of parts.
pub open spec fn part_views(parts: Seq<PathPart>) -> Seq<PartView> {
    parts.map_values(|part: PathPart| part@)
}

/// Copies bytes.
pub fn copy_bytes(bytes: &Vec<u8>) -> (copy: Vec<u8>)
    ensures
        copy@ == bytes@,
{
    let mut copy: Vec<u8> = Vec::new();
    let mut i: usize = 0;
    while i < bytes.len()
        invariant
            i <= bytes.len(),
            copy@ == bytes@.take(i as int),
        decreases bytes.len() - i,
    {
        copy.push(bytes[i]);
        i = i + 1;
    }
    assert(bytes@.take(bytes@.len() as int) =~= bytes@);
    copy
}

/// Whether two byte strings are the same.
pub fn bytes_eq(left: &Vec<u8>, right: &Vec<u8>) -> (same: bool)
    ensures
        same == (left@ == right@),
{
    if left.len() != right.len() {
        return false;
    }
    let mut i: usize = 0;
    while i < left.len()
        invariant
            left.len() == right.len(),
            i <= left.len(),
            forall|k: int| 0 <= k < i ==> left@[k] == right@[k],
        decreases left.len() - i,
    {
        if left[i] != right[i] {
            assert(left@[i as int] != right@[i as int]);
            return false;
        }
        i = i + 1;
    }
    assert(left@ =~= right@);
    true
}

impl Clone for PathPart {
    fn clone(&self) -> (copy: Self)
        ensures
            copy@ == self@,
    {
        match self {
            PathPart::Prefix(text) => PathPart::Prefix(text.clone()),
            PathPart::RootDir => PathPart::RootDir,
            PathPart::CurDir => PathPart::CurDir,
            PathPart::ParentDir => PathPart::ParentDir,
            PathPart::Normal(name) => PathPart::Normal(name.clone()),
            PathPart::Opaque(bytes) => PathPart::Opaque(copy_bytes(bytes)),
        }
    }
}

/// A prefix whose path the host takes literally.
pub open spec fn is_literal(prefix: Seq<char>) -> bool {
    "\\\\?\\"@.is_prefix_of(prefix)
}

/// A literal prefix that names a share, with a slash behind its first name.
pub open spec fn is_slashed_share(prefix: Seq<char>) -> bool {
    "\\\\?\\UNC/"@.is_prefix_of(prefix)
}

/// Where the letter of a prefix that names a drive stands.
pub open spec fn drive_at(prefix: Seq<char>) -> Option<int> {
    if prefix.len() == 2 && prefix[1] == ':' {
        Some(0)
    } else if is_literal(prefix) && prefix.len() == 6 && prefix[5] == ':' {
        Some(4)
    } else {
        None
    }
}

/// A character of a prefix, as prefixes are compared.
pub open spec fn folded_char(prefix: Seq<char>, at: int) -> char {
    if drive_at(prefix) == Some(at) {
        text::ascii_upper(prefix[at])
    } else if !is_literal(prefix) && prefix[at] == '\\' {
        '/'
    } else if is_slashed_share(prefix) && at == 7 {
        '\\'
    } else {
        prefix[at]
    }
}

/// A prefix, as prefixes are compared: the letter of a drive counts whatever
/// its case, and but for a literal prefix both separators count as one.
pub open spec fn folded(prefix: Seq<char>) -> Seq<char> {
    Seq::new(prefix.len(), |i: int| folded_char(prefix, i))
}

/// A component, as components are compared.
pub open spec fn part_key(part: PartView) -> PartView {
    match part {
        PartView::Prefix(text) => PartView::Prefix(folded(text)),
        _ => part,
    }
}

/// The components of a path, as paths are compared.
pub open spec fn keys(parts: Seq<PartView>) -> Seq<PartView> {
    parts.map_values(|part: PartView| part_key(part))
}

fn folded_chars(prefix: &str) -> (chars: Vec<char>)
    ensures
        chars@ == folded(prefix@),
{
    let given: Vec<char> = chars_of(prefix);
    let literal: bool = text::starts_with(prefix, "\\\\?\\");
    let slashed: bool = text::starts_with(prefix, "\\\\?\\UNC/");
    let letter: Option<usize> = if given.len() == 2 && given[1] == ':' {
        Some(0)
    } else if literal && given.len() == 6 && given[5] == ':' {
        Some(4)
    } else {
        None
    };
    let mut chars: Vec<char> = Vec::new();
    let mut i: usize = 0;
    while i < given.len()
        invariant
            given@ == prefix@,
            literal == is_literal(prefix@),
            slashed == is_slashed_share(prefix@),
            match letter {
                Some(at) => drive_at(prefix@) == Some(at as int),
                None => drive_at(prefix@) is None,
            },
            i <= given.len(),
            chars@.len() == i,
            forall|k: int| 0 <= k < i ==> chars@[k] == folded_char(prefix@, k),
        decreases given.len() - i,
    {
        let is_letter: bool = match letter {
            Some(at) => at == i,
            None => false,
        };
        if is_letter {
            chars.push(text::upper_char(given[i]));
        } else if !literal && given[i] == '\\' {
            chars.push('/');
        } else if slashed && i == 7 {
            chars.push('\\');
        } else {
            chars.push(given[i]);
        }
        i = i + 1;
    }
    assert(chars@ =~= folded(prefix@));
    chars
}

/// Whether two prefixes are the same to the host.
pub fn prefix_eq(left: &str, right: &str) -> (same: bool)
    ensures
        same == (folded(left@) == folded(right@)),
{
    let a: Vec<char> = folded_chars(left);
    let b: Vec<char> = folded_chars(right);
    if a.len() != b.len() {
        return false;
    }
    let mut i: usize = 0;
    while i < a.len()
        invariant
            a@ == folded(left@),
            b@ == folded(right@),
            a.len() == b.len(),
            i <= a.len(),
            forall|k: int| 0 <= k < i ==> a@[k] == b@[k],
        decreases a.len() - i,
    {
        if a[i] != b[i] {
            assert(a@[i as int] != b@[i as int]);
            return false;
        }
        i = i + 1;
    }
    assert(a@ =~= b@);
    true
}

/// Whether two components are the same to the host.
pub fn part_eq(left: &PathPart, right: &PathPart) -> (same: bool)
    ensures
        same == (part_key(left@) == part_key(right@)),
{
    match (left, right) {
        (PathPart::Prefix(a), PathPart::Prefix(b)) => prefix_eq(a.as_str(), b.as_str()),
        (PathPart::RootDir, PathPart::RootDir) => true,
        (PathPart::CurDir, PathPart::CurDir) => true,
        (PathPart::ParentDir, PathPart::ParentDir) => true,
        (PathPart::Normal(a), PathPart::Normal(b)) => text_eq(a.as_str(), b.as_str()),
        (PathPart::Opaque(a), PathPart::Opaque(b)) => bytes_eq(a, b),
        _ => false,
    }
}

/// A path as the host reads it.
///
/// How a text falls into components, and whether it is absolute, is the
/// host's convention; equality and prefixes of paths go by the components, and
/// drive and share prefixes by what they name.
#[derive(Debug, PartialEq, Eq)]
pub struct HostPath {
    /// The path as text, with U+FFFD in place of what is not Unicode.
    pub text: String,
    /// The encoded bytes of a path that is not Unicode.
    pub raw: Option<Vec<u8>>,
    pub absolute: bool,
    pub parts: Vec<PathPart>,
}

/// A path, as contracts speak of it.
#[verifier::ext_equal]
pub struct PathView {
    pub text: Seq<char>,
    pub raw: Option<Seq<u8>>,
    pub absolute: bool,
    pub parts: Seq<PartView>,
}

impl View for HostPath {
    type V = PathView;

    open spec fn view(&self) -> PathView {
        PathView {
            text: self.text@,
            raw: match self.raw {
                Some(bytes) => Some(bytes@),
                None => None,
            },
            absolute: self.absolute,
            parts: part_views(self.parts@),
        }
    }
}

/// The texts that every host reads as the same relative path: names, `.` and
/// `..` between slashes.
pub open spec fn portable(text: Seq<char>) -> bool {
    &&& !text.contains('\\')
    &&& !text.contains(':')
    &&& (text.len() > 0 ==> text[0] != '/')
}

/// What stands between the slashes of a text, empty pieces included.
pub open spec fn segments(text: Seq<char>) -> Seq<Seq<char>>
    decreases text.len(),
{
    if text.len() == 0 {
        seq![Seq::<char>::empty()]
    } else {
        let rest = segments(text.drop_first());
        if text[0] == '/' {
            seq![Seq::<char>::empty()] + rest
        } else {
            seq![seq![text[0]] + rest[0]] + rest.drop_first()
        }
    }
}

/// The component that a segment stands for: none for an empty one, and none
/// for a `.` behind the first segment.
pub open spec fn segment_part(segment: Seq<char>, leading: bool) -> Seq<PartView> {
    if segment.len() == 0 {
        seq![]
    } else if segment == seq!['.'] {
        if leading {
            seq![PartView::CurDir]
        } else {
            seq![]
        }
    } else if segment == seq!['.', '.'] {
        seq![PartView::ParentDir]
    } else {
        seq![PartView::Normal(segment)]
    }
}

/// The components of a list of segments behind the first.
pub open spec fn inner_parts(list: Seq<Seq<char>>) -> Seq<PartView>
    decreases list.len(),
{
    if list.len() == 0 {
        seq![]
    } else {
        segment_part(list[0], false) + inner_parts(list.drop_first())
    }
}

/// The components of a portable text.
pub open spec fn portable_parts(text: Seq<char>) -> Seq<PartView> {
    segment_part(segments(text)[0], true) + inner_parts(segments(text).drop_first())
}

/// Calls `std::path::Path::components` and copies each component. A portable
/// text has the components of its segments: repeated and trailing slashes
/// fall away, and so does `.` behind the beginning. Of other texts nothing is
/// stated, because hosts read them differently.
#[verifier::external_body]
fn host_components(text: &str) -> (parts: Vec<PathPart>)
    ensures
        portable(text@) ==> part_views(parts@) == portable_parts(text@),
{
    std::path::Path::new(text).components().map(|part| match part {
        std::path::Component::Prefix(prefix) => PathPart::Prefix(prefix.as_os_str().to_string_lossy().into_owned()),
        std::path::Component::RootDir => PathPart::RootDir,
        std::path::Component::CurDir => PathPart::CurDir,
        std::path::Component::ParentDir => PathPart::ParentDir,
        std::path::Component::Normal(name) => PathPart::Normal(name.to_string_lossy().into_owned()),
    }).collect()
}

/// The texts that some host reads as an absolute path: those that begin with a
/// slash, with two separators, or with a drive and a separator.
pub open spec fn can_be_absolute(text: Seq<char>) -> bool {
    ||| text.len() > 0 && text[0] == '/'
    ||| text.len() > 1 && text[0] == '\\' && (text[1] == '\\' || text[1] == '/')
    ||| text.len() > 2 && text[1] == ':' && (text[2] == '\\' || text[2] == '/')
}

/// Calls `std::path::Path::is_absolute`. An absolute path begins with the
/// root, which is a slash, or with a prefix (a drive, or what follows two
/// separators) and the root; which of the two counts is the host's convention.
#[verifier::external_body]
fn host_is_absolute(text: &str) -> (absolute: bool)
    ensures
        absolute ==> can_be_absolute(text@),
{
    std::path::Path::new(text).is_absolute()
}

/// Copies components.
pub fn copy_parts(parts: &Vec<PathPart>) -> (copy: Vec<PathPart>)
    ensures
        part_views(copy@) == part_views(parts@),
{
    let mut copy: Vec<PathPart> = Vec::new();
    let mut i: usize = 0;
    while i < parts.len()
        invariant
            i <= parts.len(),
            copy.len() == i,
            forall|k: int| 0 <= k < i ==> #[trigger] copy@[k]@ == parts@[k]@,
        decreases parts.len() - i,
    {
        copy.push(parts[i].clone());
        i = i + 1;
    }
    assert(part_views(copy@) =~= part_views(parts@));
    copy
}

impl Clone for HostPath {
    fn clone(&self) -> (copy: Self)
        ensures
            copy@ == self@,
    {
        let raw: Option<Vec<u8>> = match &self.raw {
            Some(bytes) => Some(copy_bytes(bytes)),
            None => None,
        };
        HostPath {
            text: self.text.clone(),
            raw,
            absolute: self.absolute,
            parts: copy_parts(&self.parts),
        }
    }
}

impl HostPath {
    /// The path that the host reads from a text.
    pub fn new(text: &str) -> (path: Self)
        ensures
            path@.text == text@,
            path@.raw is None,
            path@.absolute ==> can_be_absolute(text@),
            portable(text@) ==> !path@.absolute && path@.parts == portable_parts(text@),
    {
        assert(portable(text@) && text@.len() > 2 ==> text@[1] != ':');
        assert(portable(text@) && text@.len() > 1 ==> text@[0] != '\\');
        HostPath {
            text: text.to_owned(),
            raw: None,
            absolute: host_is_absolute(text),
            parts: host_components(text),
        }
    }

    /// Whether the path is the empty path.
    pub fn is_empty(&self) -> (empty: bool)
        ensures
            empty == (self@.text.len() == 0),
    {
        self.text.as_str().is_empty()
    }

    /// Whether a component steps to the parent directory.
    pub fn has_parent_dir(&self) -> (yes: bool)
        ensures
            yes == self@.parts.contains(PartView::ParentDir),
    {
        let mut i: usize = 0;
        while i < self.parts.len()
            invariant
                i <= self.parts.len(),
                forall|k: int| 0 <= k < i ==> self@.parts[k] != PartView::ParentDir,
            decreases self.parts.len() - i,
        {
            if part_eq(&self.parts[i], &PathPart::ParentDir) {
                assert(self@.parts[i as int] == PartView::ParentDir);
                return true;
            }
            assert(self@.parts[i as int] == self.parts@[i as int]@);
            i = i + 1;
        }
        false
    }

    /// Whether the text holds a forward or backward slash.
    pub fn has_separator(&self) -> (yes: bool)
        ensures
            yes == (self@.text.contains('\\') || self@.text.contains('/')),
    {
        contains_char(self.text.as_str(), '\\') || contains_char(self.text.as_str(), '/')
    }

    /// The last component, where it is a name.
    pub fn file_name(&self) -> (name: Option<&PathPart>)
        ensures
            match name {
                Some(part) => self@.parts.len() > 0 && part@ == self@.parts.last()
                    && part@.is_name(),
                None => self@.parts.len() == 0 || !self@.parts.last().is_name(),
            },
    {
        if self.parts.len() == 0 {
            return None;
        }
        let last: &PathPart = &self.parts[self.parts.len() - 1];
        assert(self@.parts.last() == last@);
        match last {
            PathPart::Normal(_) => Some(last),
            PathPart::Opaque(_) => Some(last),
            _ => None,
        }
    }

    /// Whether the components of `base` begin those of this path.
    pub fn starts_with(&self, base: &HostPath) -> (yes: bool)
        ensures
            yes == keys(base@.parts).is_prefix_of(keys(self@.parts)),
    {
        if self.parts.len() < base.parts.len() {
            return false;
        }
        let mut i: usize = 0;
        while i < base.parts.len()
            invariant
                base.parts.len() <= self.parts.len(),
                i <= base.parts.len(),
                forall|k: int| 0 <= k < i ==> keys(self@.parts)[k] == keys(base@.parts)[k],
            decreases base.parts.len() - i,
        {
            assert(self@.parts[i as int] == self.parts@[i as int]@);
            assert(base@.parts[i as int] == base.parts@[i as int]@);
            if !part_eq(&self.parts[i], &base.parts[i]) {
                assert(keys(self@.parts).subrange(0, base@.parts.len() as int)[i as int]
                    != keys(base@.parts)[i as int]);
                return false;
            }
            i = i + 1;
        }
        assert(keys(self@.parts).subrange(0, base@.parts.len() as int) =~= keys(base@.parts));
        true
    }
}

/// The bytes of a component that is a name.
pub open spec fn name_bytes(part: PartView) -> Seq<u8> {
    match part {
        PartView::Normal(name) => encode_utf8(name),
        PartView::Opaque(bytes) => bytes,
        _ => seq![],
    }
}

/// The bytes of a path.
pub open spec fn path_bytes(path: PathView) -> Seq<u8> {
    match path.raw {
        Some(bytes) => bytes,
        None => encode_utf8(path.text),
    }
}

/// Where the last occurrence of a name ends, if there is one.
pub open spec fn last_end(whole: Seq<u8>, name: Seq<u8>) -> Option<nat>
    decreases whole.len(),
{
    if name.is_suffix_of(whole) {
        Some(whole.len())
    } else if whole.len() == 0 {
        None
    } else {
        last_end(whole.drop_last(), name)
    }
}

/// How much stands behind the last name of a path: separators, and `.` between
/// them, one byte and one character each.
pub open spec fn tail_len(path: PathView) -> nat {
    if path.parts.len() == 0 {
        0
    } else {
        match last_end(path_bytes(path), name_bytes(path.parts.last())) {
            Some(end) => (path_bytes(path).len() - end) as nat,
            None => 0,
        }
    }
}

/// All but the last of a sequence.
pub open spec fn shortened<T>(whole: Seq<T>, by: nat) -> Seq<T> {
    if by <= whole.len() {
        whole.take(whole.len() - by)
    } else {
        seq![]
    }
}

/// The path without what stands behind its last name.
pub open spec fn without_tail(path: PathView) -> PathView {
    PathView {
        text: shortened(path.text, tail_len(path)),
        raw: match path.raw {
            Some(bytes) => Some(shortened(bytes, tail_len(path))),
            None => None,
        },
        absolute: path.absolute,
        parts: path.parts,
    }
}

/// A path that the host takes literally, by its prefix. What is joined to it
/// is written with backslashes between its names.
pub open spec fn is_verbatim(root: PathView) -> bool {
    &&& root.parts.len() > 0
    &&& root.parts[0] matches PartView::Prefix(text)
    &&& is_literal(text)
}

/// One more name behind others; what is empty or `.` is no name.
pub open spec fn with_name(names: Seq<char>, piece: Seq<char>) -> Seq<char> {
    if piece.len() == 0 || piece == seq!['.'] {
        names
    } else if names.len() == 0 {
        piece
    } else {
        names + seq!['\\'] + piece
    }
}

/// The names of a text that are closed by a separator, and what stands behind
/// the last separator.
pub open spec fn names_and_rest(text: Seq<char>) -> (Seq<char>, Seq<char>)
    decreases text.len(),
{
    if text.len() == 0 {
        (seq![], seq![])
    } else {
        let (names, rest) = names_and_rest(text.drop_last());
        if text.last() == '/' || text.last() == '\\' {
            (with_name(names, rest), seq![])
        } else {
            (names, rest.push(text.last()))
        }
    }
}

/// The names of a text with backslashes between them.
pub open spec fn backslashed(text: Seq<char>) -> Seq<char> {
    with_name(names_and_rest(text).0, names_and_rest(text).1)
}

/// The bytes of names with backslashes between them.
pub open spec fn joined_names(parts: Seq<PartView>) -> Seq<u8>
    decreases parts.len(),
{
    if parts.len() == 0 {
        seq![]
    } else if parts.len() == 1 {
        name_bytes(parts[0])
    } else {
        joined_names(parts.drop_last()) + seq![92u8] + name_bytes(parts.last())
    }
}

/// A relative path made of names, as it is told apart from the root that it
/// was joined to.
pub open spec fn below_root(path: PathView, root: PathView) -> PathView {
    if is_verbatim(root) {
        PathView {
            text: backslashed(path.text),
            raw: match path.raw {
                Some(_) => Some(joined_names(path.parts)),
                None => None,
            },
            absolute: path.absolute,
            parts: path.parts,
        }
    } else {
        without_tail(path)
    }
}

fn bytes_of_name(part: &PathPart) -> (bytes: Vec<u8>)
    ensures
        bytes@ == name_bytes(part@),
{
    match part {
        PathPart::Normal(name) => name.as_str().as_bytes_vec(),
        PathPart::Opaque(bytes) => copy_bytes(bytes),
        _ => {
            let bytes: Vec<u8> = Vec::new();
            assert(bytes@ =~= seq![]);
            bytes
        },
    }
}

/// Whether the first bytes end with a name.
fn ends_with(whole: &Vec<u8>, end: usize, name: &Vec<u8>) -> (yes: bool)
    requires
        end <= whole@.len(),
    ensures
        yes == name@.is_suffix_of(whole@.take(end as int)),
{
    if name.len() > end {
        return false;
    }
    let from: usize = end - name.len();
    let ghost behind = whole@.take(end as int).subrange(from as int, end as int);
    let mut i: usize = 0;
    while i < name.len()
        invariant
            i <= name.len(),
            from + name.len() == end,
            end <= whole@.len(),
            behind == whole@.take(end as int).subrange(from as int, end as int),
            forall|k: int| 0 <= k < i ==> name@[k] == behind[k],
        decreases name.len() - i,
    {
        assert(behind[i as int] == whole@[from + i]);
        if whole[from + i] != name[i] {
            assert(name@ != behind);
            return false;
        }
        i = i + 1;
    }
    assert(name@ =~= behind);
    true
}

fn find_last_end(whole: &Vec<u8>, name: &Vec<u8>) -> (end: Option<usize>)
    ensures
        match end {
            Some(found) => last_end(whole@, name@) == Some(found as nat) && found <= whole@.len(),
            None => last_end(whole@, name@) is None,
        },
{
    let mut end: usize = whole.len();
    assert(whole@.take(end as int) =~= whole@);
    while !ends_with(whole, end, name)
        invariant
            end <= whole@.len(),
            last_end(whole@, name@) == last_end(whole@.take(end as int), name@),
        decreases end,
    {
        if end == 0 {
            return None;
        }
        assert(whole@.take(end as int).drop_last() =~= whole@.take(end - 1));
        end = end - 1;
    }
    Some(end)
}

fn shorten_bytes(bytes: &Vec<u8>, by: usize) -> (short: Vec<u8>)
    ensures
        short@ == shortened(bytes@, by as nat),
{
    let mut short: Vec<u8> = copy_bytes(bytes);
    if by <= short.len() {
        short.truncate(bytes.len() - by);
    } else {
        short.truncate(0);
    }
    assert(short@ =~= shortened(bytes@, by as nat));
    short
}

fn shorten_text(text: &str, by: usize) -> (short: String)
    ensures
        short@ == shortened(text@, by as nat),
{
    let len: usize = chars_of(text).len();
    let left: usize = if by <= len {
        len - by
    } else {
        0
    };
    let short: String = text.substring_char(0, left).to_owned();
    assert(short@ =~= shortened(text@, by as nat));
    short
}

fn add_name(names: String, piece: &str) -> (joined: String)
    ensures
        joined@ == with_name(names@, piece@),
{
    proof {
        reveal_strlit(".");
        reveal_strlit("\\");
        assert("."@ =~= seq!['.']);
        assert("\\"@ =~= seq!['\\']);
    }
    if chars_of(piece).len() == 0 || text_eq(piece, ".") {
        return names;
    }
    if chars_of(names.as_str()).len() == 0 {
        return piece.to_owned();
    }
    names.concat("\\").concat(piece)
}

fn backslashed_text(text: &str) -> (names: String)
    ensures
        names@ == backslashed(text@),
{
    proof {
        reveal_strlit("");
    }
    let chars: Vec<char> = chars_of(text);
    let mut names: String = "".to_owned();
    let mut from: usize = 0;
    let mut i: usize = 0;
    assert(text@.take(0) =~= seq![]);
    assert(names@ =~= seq![]);
    assert(text@.subrange(0, 0) =~= seq![]);
    while i < chars.len()
        invariant
            chars@ == text@,
            from <= i <= chars.len(),
            names_and_rest(text@.take(i as int)) == (
                names@,
                text@.subrange(from as int, i as int),
            ),
        decreases chars.len() - i,
    {
        assert(text@.take(i + 1).drop_last() =~= text@.take(i as int));
        assert(text@.take(i + 1).last() == text@[i as int]);
        if chars[i] == '/' || chars[i] == '\\' {
            names = add_name(names, text.substring_char(from, i));
            from = i + 1;
            assert(text@.subrange(from as int, i + 1) =~= seq![]);
        } else {
            assert(text@.subrange(from as int, i + 1) =~= text@.subrange(
                from as int,
                i as int,
            ).push(text@[i as int]));
        }
        i = i + 1;
    }
    assert(text@.take(i as int) =~= text@);
    add_name(names, text.substring_char(from, i))
}

fn join_names(parts: &Vec<PathPart>) -> (bytes: Vec<u8>)
    ensures
        bytes@ == joined_names(part_views(parts@)),
{
    let ghost all = part_views(parts@);
    let mut bytes: Vec<u8> = Vec::new();
    let mut i: usize = 0;
    assert(bytes@ =~= joined_names(all.take(0)));
    while i < parts.len()
        invariant
            i <= parts.len(),
            all == part_views(parts@),
            bytes@ == joined_names(all.take(i as int)),
        decreases parts.len() - i,
    {
        let ghost before = bytes@;
        assert(all.take(i + 1).drop_last() =~= all.take(i as int));
        assert(all.take(i + 1).last() == parts@[i as int]@);
        let mut name: Vec<u8> = bytes_of_name(&parts[i]);
        let ghost named = name@;
        if i > 0 {
            bytes.push(92);
        }
        bytes.append(&mut name);
        assert(i > 0 ==> bytes@ =~= before + seq![92u8] + named);
        assert(i == 0 ==> bytes@ =~= named);
        i = i + 1;
    }
    assert(all.take(i as int) =~= all);
    bytes
}

impl HostPath {
    fn bytes(&self) -> (bytes: Vec<u8>)
        ensures
            bytes@ == path_bytes(self@),
    {
        match &self.raw {
            Some(bytes) => copy_bytes(bytes),
            None => self.text.as_str().as_bytes_vec(),
        }
    }

    fn tail(&self) -> (len: usize)
        ensures
            len == tail_len(self@),
    {
        if self.parts.len() == 0 {
            return 0;
        }
        let whole: Vec<u8> = self.bytes();
        assert(self@.parts.last() == self.parts@.last()@);
        match find_last_end(&whole, &bytes_of_name(&self.parts[self.parts.len() - 1])) {
            Some(end) => whole.len() - end,
            None => 0,
        }
    }

    /// A relative path made of names, as it is told apart from the root that
    /// it was joined to: without what stands behind its last name.
    pub fn below(&self, root: &HostPath) -> (path: HostPath)
        ensures
            path@ == below_root(self@, root@),
    {
        let verbatim: bool = if root.parts.len() > 0 {
            assert(root@.parts[0] == root.parts@[0]@);
            match &root.parts[0] {
                PathPart::Prefix(text) => text::starts_with(text.as_str(), "\\\\?\\"),
                _ => false,
            }
        } else {
            false
        };
        let tail: usize = self.tail();
        let raw: Option<Vec<u8>> = match &self.raw {
            None => None,
            Some(bytes) => Some(
                if verbatim {
                    join_names(&self.parts)
                } else {
                    shorten_bytes(bytes, tail)
                },
            ),
        };
        let text: String = if verbatim {
            backslashed_text(self.text.as_str())
        } else {
            shorten_text(self.text.as_str(), tail)
        };
        HostPath { text, raw, absolute: self.absolute, parts: copy_parts(&self.parts) }
    }
}

/// A path below another: `base`, and the names that are joined to it in turn.
/// The host joins them.
#[derive(Debug, PartialEq, Eq)]
pub struct JoinedPath {
    pub base: HostPath,
    pub names: Vec<String>,
}

/// A path below another, as contracts speak of it.
#[verifier::ext_equal]
pub struct JoinedView {
    pub base: PathView,
    pub names: Seq<Seq<char>>,
}

/// The texts behind a list.
pub open spec fn text_views(texts: Seq<String>) -> Seq<Seq<char>> {
    texts.map_values(|text: String| text@)
}

impl View for JoinedPath {
    type V = JoinedView;

    open spec fn view(&self) -> JoinedView {
        JoinedView { base: self.base@, names: text_views(self.names@) }
    }
}

/// Copies texts.
pub fn copy_texts(texts: &Vec<String>) -> (copy: Vec<String>)
    ensures
        copy@ == texts@,
{
    let mut copy: Vec<String> = Vec::new();
    let mut i: usize = 0;
    while i < texts.len()
        invariant
            i <= texts.len(),
            copy@ == texts@.take(i as int),
        decreases texts.len() - i,
    {
        copy.push(texts[i].clone());
        i = i + 1;
    }
    assert(texts@.take(texts@.len() as int) =~= texts@);
    copy
}

impl Clone for JoinedPath {
    fn clone(&self) -> (copy: Self)
        ensures
            copy@ == self@,
    {
        JoinedPath { base: self.base.clone(), names: copy_texts(&self.names) }
    }
}

impl JoinedPath {
    /// The base itself.
    pub fn at(base: &HostPath) -> (path: Self)
        ensures
            path@ == (JoinedView { base: base@, names: seq![] }),
    {
        let path: JoinedPath = JoinedPath { base: base.clone(), names: Vec::new() };
        assert(path@ =~= (JoinedView { base: base@, names: seq![] }));
        path
    }

    /// One name below the base.
    pub fn below(base: &HostPath, name: &str) -> (path: Self)
        ensures
            path@ == (JoinedView { base: base@, names: seq![name@] }),
    {
        JoinedPath::at(base).join(name)
    }

    /// One more name below.
    pub fn join(self, name: &str) -> (path: Self)
        ensures
            path@ == (JoinedView { base: self@.base, names: self@.names.push(name@) }),
    {
        let mut names: Vec<String> = self.names;
        let ghost before = text_views(names@);
        names.push(name.to_owned());
        assert(text_views(names@) =~= before.push(name@));
        JoinedPath { base: self.base, names }
    }
}

/// Joining two texts by a slash joins their segments.
pub proof fn lemma_segments_join(left: Seq<char>, right: Seq<char>)
    ensures
        segments(left + seq!['/'] + right) == segments(left) + segments(right),
        segments(left).len() > 0,
    decreases left.len(),
{
    let whole = left + seq!['/'] + right;
    if left.len() == 0 {
        assert(whole[0] == '/');
        assert(whole.drop_first() =~= right);
        assert(segments(whole) =~= segments(left) + segments(right));
    } else {
        let rest = left.drop_first();
        lemma_segments_join(rest, right);
        assert(whole[0] == left[0]);
        assert(whole.drop_first() =~= rest + seq!['/'] + right);
        assert(segments(whole) =~= segments(left) + segments(right));
    }
}

/// A text without a slash is its own only segment.
pub proof fn lemma_one_segment(text: Seq<char>)
    requires
        !text.contains('/'),
    ensures
        segments(text) == seq![text],
    decreases text.len(),
{
    if text.len() > 0 {
        assert(text.contains(text[0]));
        assert(!text.drop_first().contains('/')) by {
            if text.drop_first().contains('/') {
                let i = choose|i: int| 0 <= i < text.drop_first().len() && text.drop_first()[i] == '/';
                assert(text[i + 1] == '/');
            }
        }
        lemma_one_segment(text.drop_first());
        assert(seq![text[0]] + text.drop_first() =~= text);
        assert(segments(text) =~= seq![text]);
    } else {
        assert(text =~= Seq::<char>::empty());
    }
}

} // verus!
