//! Adapters: what they can do, what they are asked, and what they answer.

use crate::json::Json;
use crate::model::{ArtifactRef, OperationRef};
use crate::path::{HostPath, JoinedPath};
use crate::text;
use vstd::prelude::*;
use vstd::string::*;

verus! {

/// The name of an adapter.
#[derive(Debug, PartialEq, Eq, Hash)]
pub struct AdapterId(String);

impl View for AdapterId {
    type V = Seq<char>;

    closed spec fn view(&self) -> Seq<char> {
        self.0@
    }
}

impl Clone for AdapterId {
    fn clone(&self) -> (copy: Self)
        ensures
            copy == *self,
    {
        AdapterId(self.0.clone())
    }
}

impl AdapterId {
    pub fn new(value: &str) -> (id: Self)
        ensures
            id@ == value@,
    {
        AdapterId(value.to_owned())
    }

    pub fn as_str(&self) -> (text: &str)
        ensures
            text@ == self@,
    {
        self.0.as_str()
    }
}

/// The name of something that an adapter can do.
#[derive(Debug, PartialEq, Eq, Hash)]
pub struct Capability(String);

impl View for Capability {
    type V = Seq<char>;

    closed spec fn view(&self) -> Seq<char> {
        self.0@
    }
}

impl Clone for Capability {
    fn clone(&self) -> (copy: Self)
        ensures
            copy == *self,
    {
        Capability(self.0.clone())
    }
}

impl Capability {
    pub fn new(value: &str) -> (capability: Self)
        ensures
            capability@ == value@,
    {
        Capability(value.to_owned())
    }

    pub fn as_str(&self) -> (text: &str)
        ensures
            text@ == self@,
    {
        self.0.as_str()
    }
}

/// What an adapter says of itself.
#[derive(Debug)]
pub struct AdapterMetadata {
    pub id: AdapterId,
    pub display_name: String,
    pub version: String,
}

/// What an adapter is asked to do.
#[derive(Debug)]
pub struct Invocation {
    pub operation_id: OperationRef,
    pub adapter_id: AdapterId,
    pub capability: Capability,
    pub params: Json,
    pub workspace_root: Option<HostPath>,
    pub artifact_output_dir: Option<JoinedPath>,
}

/// Whether an adapter did what it was asked.
#[derive(Clone, Copy, Debug, PartialEq, Eq, Structural)]
pub enum InvocationStatus {
    Success,
    Failed,
}

/// A file that an adapter wrote.
#[derive(Debug)]
pub struct ArtifactOutput {
    pub artifact_id: ArtifactRef,
    pub kind: String,
    pub relative_path: HostPath,
    pub description: Option<String>,
}

impl ArtifactOutput {
    pub fn new(artifact_id: ArtifactRef, kind: &str, relative_path: HostPath) -> (output: Self)
        ensures
            output.artifact_id == artifact_id,
            output.kind@ == kind@,
            output.relative_path == relative_path,
            output.description is None,
    {
        ArtifactOutput { artifact_id, kind: kind.to_owned(), relative_path, description: None }
    }
}

/// What an adapter answers.
#[derive(Debug)]
pub struct InvocationResult {
    pub status: InvocationStatus,
    pub summary: String,
    pub payload: Json,
    pub created_artifacts: Vec<ArtifactOutput>,
    pub raw_output: Option<ArtifactOutput>,
}

/// The artifacts of an answer: those that were created, in order, and the raw
/// output where it is not among them.
pub open spec fn result_refs(result: InvocationResult) -> Seq<ArtifactRef> {
    let created = result.created_artifacts@.map_values(
        |output: ArtifactOutput| output.artifact_id,
    );
    match result.raw_output {
        None => created,
        Some(raw) => if exists|i: int|
            0 <= i < created.len() && (#[trigger] created[i]).id@ == raw.artifact_id.id@ {
            created
        } else {
            created.push(raw.artifact_id)
        },
    }
}

impl InvocationResult {
    pub fn success(summary: &str, payload: Json) -> (result: Self)
        ensures
            result.status == InvocationStatus::Success,
            result.summary@ == summary@,
            result.payload == payload,
            result.created_artifacts@.len() == 0,
            result.raw_output is None,
    {
        InvocationResult {
            status: InvocationStatus::Success,
            summary: summary.to_owned(),
            payload,
            created_artifacts: Vec::new(),
            raw_output: None,
        }
    }

    /// The artifacts of the answer.
    pub fn artifact_refs(&self) -> (refs: Vec<ArtifactRef>)
        ensures
            refs@ == result_refs(*self),
    {
        let ghost created = self.created_artifacts@.map_values(
            |output: ArtifactOutput| output.artifact_id,
        );
        let mut refs: Vec<ArtifactRef> = Vec::new();
        let mut i: usize = 0;
        while i < self.created_artifacts.len()
            invariant
                i <= self.created_artifacts.len(),
                created == self.created_artifacts@.map_values(
                    |output: ArtifactOutput| output.artifact_id,
                ),
                refs@ == created.take(i as int),
            decreases self.created_artifacts.len() - i,
        {
            refs.push(self.created_artifacts[i].artifact_id.clone());
            assert(refs@ =~= created.take(i + 1));
            i = i + 1;
        }
        assert(created.take(i as int) =~= created);
        if let Some(raw) = &self.raw_output {
            if !holds_ref(&refs, &raw.artifact_id) {
                refs.push(raw.artifact_id.clone());
            }
        }
        refs
    }
}

fn holds_ref(refs: &Vec<ArtifactRef>, wanted: &ArtifactRef) -> (yes: bool)
    ensures
        yes == exists|i: int| 0 <= i < refs@.len() && (#[trigger] refs@[i]).id@ == wanted.id@,
{
    let mut i: usize = 0;
    while i < refs.len()
        invariant
            i <= refs.len(),
            forall|k: int| 0 <= k < i ==> (#[trigger] refs@[k]).id@ != wanted.id@,
        decreases refs.len() - i,
    {
        if refs[i].id.same(&wanted.id) {
            assert(refs@[i as int].id@ == wanted.id@);
            return true;
        }
        i = i + 1;
    }
    false
}

/// Why an adapter did not answer.
#[derive(Debug, PartialEq, Eq)]
pub enum AdapterError {
    InvalidInput(String),
    UnsupportedCapability { adapter: String, capability: String },
    NativeFailure(String),
    Io(String),
    Internal(String),
}

/// The text of an error.
pub open spec fn adapter_error_text(error: AdapterError) -> Seq<char> {
    match error {
        AdapterError::InvalidInput(reason) => "invalid adapter input: "@ + reason@,
        AdapterError::UnsupportedCapability { adapter, capability } => "unsupported capability `"@
            + capability@ + "` for adapter `"@ + adapter@ + "`"@,
        AdapterError::NativeFailure(reason) => "native adapter failure: "@ + reason@,
        AdapterError::Io(reason) => "io failure: "@ + reason@,
        AdapterError::Internal(reason) => "internal adapter failure: "@ + reason@,
    }
}

impl AdapterError {
    /// The error as text.
    pub fn message(&self) -> (message: String)
        ensures
            message@ == adapter_error_text(*self),
    {
        match self {
            AdapterError::InvalidInput(reason) => "invalid adapter input: ".to_owned().concat(
                reason.as_str(),
            ),
            AdapterError::UnsupportedCapability { adapter, capability } => {
                "unsupported capability `".to_owned().concat(capability.as_str()).concat(
                    "` for adapter `",
                ).concat(adapter.as_str()).concat("`")
            },
            AdapterError::NativeFailure(reason) => "native adapter failure: ".to_owned().concat(
                reason.as_str(),
            ),
            AdapterError::Io(reason) => "io failure: ".to_owned().concat(reason.as_str()),
            AdapterError::Internal(reason) => "internal adapter failure: ".to_owned().concat(
                reason.as_str(),
            ),
        }
    }
}

/// A list names a capability.
pub open spec fn lists(capabilities: Seq<Capability>, wanted: Seq<char>) -> bool {
    exists|i: int| 0 <= i < capabilities.len() && (#[trigger] capabilities[i])@ == wanted
}

/// Something that the platform can ask. An implementation decides what it can
/// do and what it answers: it says by the `may_` relations which answers it
/// can give, any unless it says otherwise, and two calls may be answered
/// differently.
pub trait Adapter: Send + Sync {
    /// The adapter can describe itself so.
    open spec fn may_describe(&self, metadata: AdapterMetadata) -> bool {
        true
    }

    /// The adapter can list these capabilities.
    open spec fn may_list(&self, capabilities: Seq<Capability>) -> bool {
        true
    }

    /// The adapter can say this of a capability, whatever it lists.
    open spec fn may_claim(&self, capability: Seq<char>, yes: bool) -> bool {
        true
    }

    /// The adapter can answer an invocation so.
    open spec fn may_answer(
        &self,
        invocation: Invocation,
        reply: Result<InvocationResult, AdapterError>,
    ) -> bool {
        true
    }

    fn metadata(&self) -> (metadata: AdapterMetadata)
        ensures
            self.may_describe(metadata),
    ;

    fn capabilities(&self) -> (capabilities: Vec<Capability>)
        ensures
            self.may_list(capabilities@),
    ;

    fn invoke(&self, invocation: Invocation) -> (reply: Result<InvocationResult, AdapterError>)
        ensures
            self.may_answer(invocation, reply),
    ;

    /// Whether the adapter lists a capability.
    fn supports(&self, capability: &Capability) -> (yes: bool)
        ensures
            self.may_claim(capability@, yes) || exists|capabilities: Seq<Capability>| #[trigger]
                self.may_list(capabilities) && yes == lists(capabilities, capability@),
    {
        let capabilities: Vec<Capability> = self.capabilities();
        lists_capability(&capabilities, capability)
    }
}

/// What an adapter can say of a capability: what a list that it can give says,
/// or what it claims apart from that.
pub open spec fn may_support<A: Adapter + ?Sized>(
    adapter: &A,
    capability: Seq<char>,
    yes: bool,
) -> bool {
    adapter.may_claim(capability, yes) || exists|capabilities: Seq<Capability>| #[trigger]
        adapter.may_list(capabilities) && yes == lists(capabilities, capability)
}

/// Whether a list names a capability.
pub fn lists_capability(capabilities: &Vec<Capability>, wanted: &Capability) -> (yes: bool)
    ensures
        yes == lists(capabilities@, wanted@),
{
    let mut i: usize = 0;
    while i < capabilities.len()
        invariant
            i <= capabilities.len(),
            forall|k: int| 0 <= k < i ==> (#[trigger] capabilities@[k])@ != wanted@,
        decreases capabilities.len() - i,
    {
        if text::text_eq(capabilities[i].as_str(), wanted.as_str()) {
            assert(capabilities@[i as int]@ == wanted@);
            return true;
        }
        i = i + 1;
    }
    false
}

/// Accepts a capability that an adapter supports, and refuses another in the
/// adapter's name.
pub fn check_capability(
    supported: bool,
    adapter: &AdapterId,
    capability: &Capability,
) -> (verdict: Result<(), AdapterError>)
    ensures
        match verdict {
            Ok(()) => supported,
            Err(AdapterError::UnsupportedCapability { adapter: named, capability: refused }) => {
                &&& !supported
                &&& named@ == adapter@
                &&& refused@ == capability@
            },
            Err(_) => false,
        },
{
    if supported {
        return Ok(());
    }
    Err(
        AdapterError::UnsupportedCapability {
            adapter: adapter.as_str().to_owned(),
            capability: capability.as_str().to_owned(),
        },
    )
}

/// The adapter's refusal of a capability, in a name that the adapter has.
pub open spec fn refuses<A: Adapter + ?Sized>(
    adapter: &A,
    capability: Seq<char>,
    error: AdapterError,
) -> bool {
    &&& may_support(adapter, capability, false)
    &&& error matches AdapterError::UnsupportedCapability { adapter: named, capability: refused }
    &&& refused@ == capability
    &&& exists|metadata: AdapterMetadata| #[trigger]
        adapter.may_describe(metadata) && named@ == metadata.id@
}

/// Accepts a capability that the adapter says it supports, and refuses another
/// in the adapter's name.
pub fn ensure_capability<A: Adapter + ?Sized>(adapter: &A, capability: &Capability) -> (verdict:
    Result<(), AdapterError>)
    ensures
        match verdict {
            Ok(()) => may_support(adapter, capability@, true),
            Err(error) => refuses(adapter, capability@, error),
        },
{
    if adapter.supports(capability) {
        return Ok(());
    }
    let metadata: AdapterMetadata = adapter.metadata();
    check_capability(false, &metadata.id, capability)
}

} // verus!
