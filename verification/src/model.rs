//! Identifiers, references and time stamps shared by every part of the
//! platform.

use crate::path::HostPath;
use crate::text::{blank, contains_char, is_blank, text_eq};
use vstd::prelude::*;
use vstd::string::*;

verus! {

/// Why a text is no identifier.
#[derive(Debug, PartialEq, Eq)]
pub struct InvalidId {
    reason: &'static str,
}

impl View for InvalidId {
    type V = Seq<char>;

    closed spec fn view(&self) -> Seq<char> {
        self.reason@
    }
}

impl InvalidId {
    fn new(reason: &'static str) -> (error: Self)
        ensures
            error@ == reason@,
    {
        InvalidId { reason }
    }

    /// The error as text.
    pub fn message(&self) -> (text: String)
        ensures
            text@ == "invalid DbgAtlas id: "@ + self@,
    {
        "invalid DbgAtlas id: ".to_owned().concat(self.reason)
    }
}

/// The texts that are identifiers: not blank, and without a path separator.
pub open spec fn valid_id(value: Seq<char>) -> bool {
    !blank(value) && !value.contains('/') && !value.contains('\\')
}

/// The reason given for a text that is no identifier.
pub open spec fn invalid_id_reason(value: Seq<char>) -> Seq<char> {
    if blank(value) {
        "id must not be empty"@
    } else {
        "id must not contain path separators"@
    }
}

/// An identifier.
#[derive(Debug, PartialEq, Eq, Hash)]
pub struct Id(String);

impl View for Id {
    type V = Seq<char>;

    closed spec fn view(&self) -> Seq<char> {
        self.0@
    }
}

impl Clone for Id {
    fn clone(&self) -> (copy: Self)
        ensures
            copy == *self,
    {
        Id(self.0.clone())
    }
}

impl Id {
    pub fn new(value: &str) -> (id: Result<Self, InvalidId>)
        ensures
            match id {
                Ok(found) => valid_id(value@) && found@ == value@,
                Err(error) => !valid_id(value@) && error@ == invalid_id_reason(value@),
            },
    {
        if is_blank(value) {
            return Err(InvalidId::new("id must not be empty"));
        }
        if contains_char(value, '/') || contains_char(value, '\\') {
            return Err(InvalidId::new("id must not contain path separators"));
        }
        Ok(Id(value.to_owned()))
    }

    /// The identifier that a stored document names. Documents are read as
    /// they are: the text is not tested.
    pub fn from_stored(value: String) -> (id: Self)
        ensures
            id@ == value@,
    {
        Id(value)
    }

    pub fn as_str(&self) -> (text: &str)
        ensures
            text@ == self@,
    {
        self.0.as_str()
    }

    /// Whether two identifiers are the same.
    pub fn same(&self, other: &Id) -> (yes: bool)
        ensures
            yes == (self@ == other@),
    {
        text_eq(self.0.as_str(), other.0.as_str())
    }
}

/// A moment, in milliseconds since the beginning of 1970.
#[derive(Clone, Copy, Debug, PartialEq, Eq, PartialOrd, Ord)]
pub struct Timestamp {
    pub unix_millis: u64,
}

/// Calls `SystemTime::elapsed` on the Unix epoch and takes the milliseconds of
/// the duration; `None` where the clock stands before the epoch. What the
/// clock says is not stated.
#[verifier::external_body]
fn millis_since_epoch() -> (millis: Option<u128>) {
    std::time::UNIX_EPOCH.elapsed().ok().map(|elapsed| elapsed.as_millis())
}

impl Timestamp {
    /// The current moment, as the system clock tells it.
    pub fn now() -> Self {
        Timestamp::from_millis(millis_since_epoch())
    }

    /// The moment that a clock reading stands for: the epoch where the clock
    /// is before it, and the last moment that fits where it does not fit.
    pub fn from_millis(millis: Option<u128>) -> (moment: Self)
        ensures
            moment.unix_millis == match millis {
                None => 0int,
                Some(value) => if value <= u64::MAX {
                    value as int
                } else {
                    u64::MAX as int
                },
            },
    {
        let unix_millis: u64 = match millis {
            None => 0,
            Some(value) => if value <= u64::MAX as u128 {
                value as u64
            } else {
                u64::MAX
            },
        };
        Timestamp { unix_millis }
    }
}

/// A workspace, by its root directory.
#[derive(Debug, PartialEq, Eq)]
pub struct WorkspaceRef {
    pub root: HostPath,
}

impl WorkspaceRef {
    pub fn new(root: HostPath) -> (workspace: Self)
        ensures
            workspace.root == root,
    {
        WorkspaceRef { root }
    }
}

/// A debug target, by its identifier.
#[derive(Debug, PartialEq, Eq, Hash)]
pub struct TargetRef {
    pub id: Id,
}

impl TargetRef {
    pub fn new(id: Id) -> (made: Self)
        ensures
            made.id == id,
    {
        TargetRef { id }
    }
}

impl Clone for TargetRef {
    fn clone(&self) -> (copy: Self)
        ensures
            copy == *self,
    {
        TargetRef { id: self.id.clone() }
    }
}

/// A session, by its identifier.
#[derive(Debug, PartialEq, Eq, Hash)]
pub struct SessionRef {
    pub id: Id,
}

impl SessionRef {
    pub fn new(id: Id) -> (made: Self)
        ensures
            made.id == id,
    {
        SessionRef { id }
    }
}

impl Clone for SessionRef {
    fn clone(&self) -> (copy: Self)
        ensures
            copy == *self,
    {
        SessionRef { id: self.id.clone() }
    }
}

/// A recording, by its identifier.
#[derive(Debug, PartialEq, Eq, Hash)]
pub struct RecordingRef {
    pub id: Id,
}

impl RecordingRef {
    pub fn new(id: Id) -> (made: Self)
        ensures
            made.id == id,
    {
        RecordingRef { id }
    }
}

impl Clone for RecordingRef {
    fn clone(&self) -> (copy: Self)
        ensures
            copy == *self,
    {
        RecordingRef { id: self.id.clone() }
    }
}

/// An artifact, by its identifier.
#[derive(Debug, PartialEq, Eq, Hash)]
pub struct ArtifactRef {
    pub id: Id,
}

impl ArtifactRef {
    pub fn new(id: Id) -> (made: Self)
        ensures
            made.id == id,
    {
        ArtifactRef { id }
    }
}

impl Clone for ArtifactRef {
    fn clone(&self) -> (copy: Self)
        ensures
            copy == *self,
    {
        ArtifactRef { id: self.id.clone() }
    }
}

/// An operation, by its identifier.
#[derive(Debug, PartialEq, Eq, Hash)]
pub struct OperationRef {
    pub id: Id,
}

impl OperationRef {
    pub fn new(id: Id) -> (made: Self)
        ensures
            made.id == id,
    {
        OperationRef { id }
    }
}

impl Clone for OperationRef {
    fn clone(&self) -> (copy: Self)
        ensures
            copy == *self,
    {
        OperationRef { id: self.id.clone() }
    }
}

/// A field of a document that stands for a reference: its name and its value,
/// where the value is a text.
#[derive(Debug)]
pub struct RefField {
    pub name: String,
    pub text: Option<String>,
}

/// The two forms in which a document writes a reference.
#[derive(Debug)]
pub enum RefForm {
    /// The identifier alone.
    Text(String),
    /// An object with an `id` field, by its fields in order.
    Object(Vec<RefField>),
}

/// Why a document holds no reference.
#[derive(Debug, PartialEq, Eq)]
pub enum RefError {
    InvalidId(InvalidId),
    /// The `id` field is not a text.
    IdIsNotText,
    DuplicateId,
    MissingId,
}


/// What an object says when its fields up to `end` have been read: the
/// position of its identifier, or the error that the reading stops with.
pub open spec fn object_scan(fields: Seq<RefField>, end: int) -> Result<Option<int>, RefError>
    decreases end,
{
    if end <= 0 {
        Ok(None)
    } else {
        match object_scan(fields, end - 1) {
            Err(error) => Err(error),
            Ok(found) => if fields[end - 1].name@ != "id"@ {
                Ok(found)
            } else if found is Some {
                Err(RefError::DuplicateId)
            } else if fields[end - 1].text is None {
                Err(RefError::IdIsNotText)
            } else {
                Ok(Some(end - 1))
            },
        }
    }
}

/// Reads a reference from a document. A text is tested as an identifier; an
/// object has exactly one `id` field, whose text is taken as it is, and its
/// other fields are ignored.
#[verifier::loop_isolation(false)]
pub fn read_ref(form: RefForm) -> (id: Result<Id, RefError>)
    ensures
        match form {
            RefForm::Text(value) => match id {
                Ok(found) => valid_id(value@) && found@ == value@,
                Err(RefError::InvalidId(error)) => !valid_id(value@) && error@
                    == invalid_id_reason(value@),
                Err(_) => false,
            },
            RefForm::Object(fields) => match object_scan(fields@, fields@.len() as int) {
                Err(error) => id == Err::<Id, RefError>(error),
                Ok(None) => id == Err::<Id, RefError>(RefError::MissingId),
                Ok(Some(at)) => id matches Ok(found) && fields@[at].text matches Some(text)
                    && found@ == text@,
            },
        },
{
    match form {
        RefForm::Text(value) => match Id::new(value.as_str()) {
            Ok(id) => Ok(id),
            Err(error) => Err(RefError::InvalidId(error)),
        },
        RefForm::Object(fields) => {
            let mut found: Option<usize> = None;
            let mut i: usize = 0;
            while i < fields.len()
                invariant
                    i <= fields.len(),
                    object_scan(fields@, i as int) == Ok::<Option<int>, RefError>(
                        match found {
                            Some(at) => Some(at as int),
                            None => None,
                        },
                    ),
                    found matches Some(at) ==> at < i && fields@[at as int].text is Some,
                decreases fields.len() - i,
            {
                let is_id: bool = text_eq(fields[i].name.as_str(), "id");
                if is_id {
                    if found.is_some() {
                        proof {
                            lemma_scan_stops(fields@, i + 1, fields@.len() as int);
                        }
                        return Err(RefError::DuplicateId);
                    }
                    if fields[i].text.is_none() {
                        proof {
                            lemma_scan_stops(fields@, i + 1, fields@.len() as int);
                        }
                        return Err(RefError::IdIsNotText);
                    }
                    found = Some(i);
                }
                i = i + 1;
            }
            match found {
                None => Err(RefError::MissingId),
                Some(at) => match &fields[at].text {
                    Some(text) => Ok(Id::from_stored(text.clone())),
                    None => Err(RefError::MissingId),
                },
            }
        },
    }
}

/// An error met while reading stays the answer.
proof fn lemma_scan_stops(fields: Seq<RefField>, at: int, end: int)
    requires
        0 <= at <= end,
        object_scan(fields, at) is Err,
    ensures
        object_scan(fields, end) == object_scan(fields, at),
    decreases end,
{
    if at < end {
        lemma_scan_stops(fields, at, end - 1);
    }
}

/// An error as a client sees it.
#[derive(Debug, PartialEq, Eq)]
pub struct ErrorContext {
    pub code: String,
    pub message: String,
}

impl ErrorContext {
    pub fn new(code: &str, message: &str) -> (context: Self)
        ensures
            context.code@ == code@,
            context.message@ == message@,
    {
        ErrorContext { code: code.to_owned(), message: message.to_owned() }
    }
}

/// An identifier that was accepted is not empty and holds no path separator.
pub proof fn law_accepted_ids_are_valid(value: Seq<char>)
    requires
        valid_id(value),
    ensures
        value.len() > 0,
        forall|i: int| 0 <= i < value.len() ==> #[trigger] value[i] != '/' && value[i] != '\\',
{
    if value.len() == 0 {
        assert(blank(value));
    }
    assert forall|i: int| 0 <= i < value.len() implies #[trigger] value[i] != '/' && value[i]
        != '\\' by {
        assert(value.contains(value[i]));
    }
}

} // verus!
