//! Laws on adapters.

use crate::adapter;
use crate::adapter::{
    check_capability, ensure_capability, lists_capability, Adapter, AdapterError, AdapterId,
    AdapterMetadata, ArtifactOutput, Capability, InvocationResult,
};
use crate::model::ArtifactRef;
use vstd::prelude::*;
use vstd::string::*;

verus! {

/// The artifacts of an answer are those that were created, in order, and then
/// the raw output where no other has its identifier: none is left out, and the
/// raw output is not named twice.
pub proof fn law_artifacts_are_named(result: InvocationResult, refs: Vec<ArtifactRef>)
    requires
        call_ensures(InvocationResult::artifact_refs, (&result,), refs),
    ensures
        refs@.len() >= result.created_artifacts@.len(),
        refs@.len() <= result.created_artifacts@.len() + 1,
        forall|i: int|
            0 <= i < result.created_artifacts@.len() ==> #[trigger] refs@[i]
                == result.created_artifacts@[i].artifact_id,
        result.raw_output matches Some(raw) ==> exists|i: int|
            0 <= i < refs@.len() && (#[trigger] refs@[i]).id@ == raw.artifact_id.id@,
        refs@.len() > result.created_artifacts@.len() ==> result.raw_output is Some && refs@.last()
            == result.raw_output->0.artifact_id && forall|i: int|
            0 <= i < result.created_artifacts@.len() ==> (
            #[trigger] result.created_artifacts@[i]).artifact_id.id@
                != result.raw_output->0.artifact_id.id@,
{
    let created = result.created_artifacts@.map_values(
        |output: ArtifactOutput| output.artifact_id,
    );
    if let Some(raw) = result.raw_output {
        if refs@.len() > created.len() {
            assert(refs@[created.len() as int].id@ == raw.artifact_id.id@);
            assert forall|i: int| 0 <= i < result.created_artifacts@.len() implies (
            #[trigger] result.created_artifacts@[i]).artifact_id.id@ != raw.artifact_id.id@ by {
                assert(created[i].id@ != raw.artifact_id.id@);
            }
        } else {
            let i = choose|i: int|
                0 <= i < created.len() && (#[trigger] created[i]).id@ == raw.artifact_id.id@;
            assert(refs@[i].id@ == raw.artifact_id.id@);
        }
    }
}

/// A capability is refused where it is not supported, in the name of the
/// adapter and of the capability, and never else.
pub proof fn law_unsupported_capabilities_are_refused(
    supported: bool,
    named: AdapterId,
    capability: Capability,
    verdict: Result<(), AdapterError>,
)
    requires
        call_ensures(check_capability, (supported, &named, &capability), verdict),
    ensures
        verdict is Ok <==> supported,
        verdict matches Err(error) ==> (error matches AdapterError::UnsupportedCapability {
            adapter: who,
            capability: what,
        } && who@ == named@ && what@ == capability@),
{
}

/// A capability is listed where one of the list has its name.
pub proof fn law_capabilities_are_listed_by_name(
    capabilities: Vec<Capability>,
    wanted: Capability,
    yes: bool,
    at: int,
)
    requires
        call_ensures(lists_capability, (&capabilities, &wanted), yes),
    ensures
        0 <= at < capabilities@.len() && capabilities@[at]@ == wanted@ ==> yes,
        (forall|i: int| 0 <= i < capabilities@.len() ==> (#[trigger] capabilities@[i])@ != wanted@)
            ==> !yes,
{
}

/// A capability is accepted only of an adapter that may say it supports it,
/// and is refused only of one that may say it does not, in the name that the
/// adapter gives itself.
pub proof fn law_adapters_are_believed<A: Adapter>(
    asked: A,
    capability: Capability,
    verdict: Result<(), AdapterError>,
)
    requires
        call_ensures(ensure_capability::<A>, (&asked, &capability), verdict),
        forall|yes: bool| !(#[trigger] asked.may_claim(capability@, yes)),
    ensures
        verdict is Ok ==> exists|listed: Seq<Capability>| #[trigger]
            asked.may_list(listed) && exists|i: int|
                0 <= i < listed.len() && (#[trigger] listed[i])@ == capability@,
        verdict is Err ==> exists|listed: Seq<Capability>| #[trigger]
            asked.may_list(listed) && forall|i: int|
                0 <= i < listed.len() ==> (#[trigger] listed[i])@ != capability@,
        verdict matches Err(error) ==> (error matches AdapterError::UnsupportedCapability {
            adapter: who,
            capability: what,
        } && what@ == capability@ && exists|described: AdapterMetadata| #[trigger]
            asked.may_describe(described) && who@ == described.id@),
{
}

} // verus!
