//! Laws on identifiers and moments.

use crate::laws;
use crate::laws::text::all_white;
use crate::model::{read_ref, Id, InvalidId, RefError, RefField, RefForm, Timestamp};
use crate::{model, text};
use vstd::prelude::*;
use vstd::string::*;

verus! {

/// The text can be an identifier: it is not blank, and names no place in
/// another directory.
pub open spec fn can_be_id(text: Seq<char>) -> bool {
    !all_white(text) && forall|i: int|
        0 <= i < text.len() ==> (#[trigger] text[i]) != '/' && text[i] != '\\'
}

/// An identifier is the text that it was made of, and only a text that can be
/// one makes it.
pub proof fn law_identifiers_are_their_text(value: &str, outcome: Result<Id, InvalidId>)
    requires
        call_ensures(Id::new, (value,), outcome),
    ensures
        outcome is Ok <==> can_be_id(value@),
        outcome matches Ok(id) ==> id@ == value@,
{
    lemma_can_be_id(value@);
}

pub(crate) proof fn lemma_can_be_id(value: Seq<char>)
    ensures
        model::valid_id(value) == can_be_id(value),
{
    laws::text::lemma_blank_is_white(value);
    if value.contains('/') {
        let i = choose|i: int| 0 <= i < value.len() && value[i] == '/';
        assert(value[i] == '/');
    }
    if value.contains('\\') {
        let i = choose|i: int| 0 <= i < value.len() && value[i] == '\\';
        assert(value[i] == '\\');
    }
}

/// Two identifiers are the same where their texts are.
pub proof fn law_same_identifiers_have_the_same_text(one: Id, other: Id, same: bool)
    requires
        call_ensures(Id::same, (&one, &other), same),
    ensures
        same <==> one@ == other@,
{
}

/// The field is the identifier of an object.
pub open spec fn is_id_field(field: RefField) -> bool {
    field.name@ == "id"@
}

/// A reference is read from a text that can be an identifier, or from an
/// object with exactly one identifier, which is a text; it is that text.
pub proof fn law_references_are_read(form: RefForm, outcome: Result<Id, RefError>)
    requires
        call_ensures(read_ref, (form,), outcome),
    ensures
        form matches RefForm::Text(value) ==> {
            &&& outcome is Ok <==> can_be_id(value@)
            &&& outcome matches Ok(id) ==> id@ == value@
        },
        form matches RefForm::Object(fields) ==> {
            &&& outcome matches Ok(id) ==> exists|at: int|
                #![trigger fields@[at]]
                {
                    &&& 0 <= at < fields@.len()
                    &&& is_id_field(fields@[at])
                    &&& fields@[at].text matches Some(text) && text@ == id@
                    &&& forall|k: int|
                        0 <= k < fields@.len() && k != at ==> !is_id_field(#[trigger] fields@[k])
                }
            &&& (forall|k: int|
                0 <= k < fields@.len() ==> !is_id_field(#[trigger] fields@[k])) ==> outcome == Err::<
                Id,
                RefError,
            >(RefError::MissingId)
            &&& forall|at: int|
                #![trigger fields@[at]]
                (0 <= at < fields@.len() && is_id_field(fields@[at]) && fields@[at].text is Some
                    && forall|k: int|
                    0 <= k < fields@.len() && k != at ==> !is_id_field(#[trigger] fields@[k]))
                    ==> outcome is Ok
        },
{
    match form {
        RefForm::Text(value) => {
            lemma_can_be_id(value@);
        },
        RefForm::Object(fields) => {
            lemma_scan(fields@, fields@.len() as int);
            if let Ok(id) = outcome {
                let at = model::object_scan(fields@, fields@.len() as int)->Ok_0->0;
                assert(is_id_field(fields@[at]));
            }
        },
    }
}

proof fn lemma_scan(fields: Seq<RefField>, end: int)
    requires
        0 <= end <= fields.len(),
    ensures
        match model::object_scan(fields, end) {
            Ok(Some(at)) => {
                &&& 0 <= at < end
                &&& is_id_field(fields[at])
                &&& fields[at].text is Some
                &&& forall|k: int| 0 <= k < end && k != at ==> !is_id_field(#[trigger] fields[k])
            },
            Ok(None) => forall|k: int| 0 <= k < end ==> !is_id_field(#[trigger] fields[k]),
            Err(_) => {
                ||| exists|k: int|
                    0 <= k < end && is_id_field(#[trigger] fields[k]) && fields[k].text is None
                ||| exists|k: int, l: int|
                    0 <= k < l < end && is_id_field(#[trigger] fields[k]) && is_id_field(
                        #[trigger] fields[l],
                    )
            },
        },
    decreases end,
{
    if end > 0 {
        lemma_scan(fields, end - 1);
        assert(is_id_field(fields[end - 1]) == (fields[end - 1].name@ == "id"@));
    }
}

/// A moment is the clock's reading, kept within what fits.
pub proof fn law_moments_are_the_clocks(millis: Option<u128>, moment: Timestamp)
    requires
        call_ensures(Timestamp::from_millis, (millis,), moment),
    ensures
        millis is None ==> moment.unix_millis == 0,
        millis matches Some(value) ==> {
            &&& value <= 18446744073709551615 ==> moment.unix_millis == value
            &&& value > 18446744073709551615 ==> moment.unix_millis == 18446744073709551615
        },
{
}

/// A refused identifier says whether it is blank or holds a separator.
pub proof fn law_refused_identifiers_say_why(value: &str, outcome: Result<Id, InvalidId>)
    requires
        call_ensures(Id::new, (value,), outcome),
    ensures
        outcome matches Err(error) ==> error@ == if all_white(value@) {
            "id must not be empty"@
        } else {
            "id must not contain path separators"@
        },
{
    laws::text::lemma_blank_is_white(value@);
}

/// The first identifier of an object decides: one that is no text is refused
/// as such, and behind one that is a text a second one is refused.
pub proof fn law_refused_references_say_why(
    form: RefForm,
    outcome: Result<Id, RefError>,
    first: int,
)
    requires
        call_ensures(read_ref, (form,), outcome),
    ensures
        form matches RefForm::Text(value) ==> (outcome matches Err(error) ==> (error
            matches RefError::InvalidId(invalid) && invalid@ == if all_white(value@) {
            "id must not be empty"@
        } else {
            "id must not contain path separators"@
        })),
        form matches RefForm::Object(fields) ==> {
            0 <= first < fields@.len() && is_id_field(fields@[first]) && (forall|k: int|
                0 <= k < first ==> !is_id_field(#[trigger] fields@[k])) ==> {
                &&& fields@[first].text is None ==> outcome == Err::<Id, RefError>(
                    RefError::IdIsNotText,
                )
                &&& fields@[first].text is Some && (exists|k: int|
                    first < k < fields@.len() && is_id_field(#[trigger] fields@[k])) ==> outcome
                    == Err::<Id, RefError>(RefError::DuplicateId)
            }
        },
{
    match form {
        RefForm::Text(value) => {
            laws::text::lemma_blank_is_white(value@);
        },
        RefForm::Object(fields) => {
            if 0 <= first < fields@.len() && is_id_field(fields@[first]) && (forall|k: int|
                0 <= k < first ==> !is_id_field(#[trigger] fields@[k])) {
                lemma_first_decides(fields@, first, fields@.len() as int);
            }
        },
    }
}

proof fn lemma_first_decides(fields: Seq<RefField>, first: int, end: int)
    requires
        0 <= first < end <= fields.len(),
        is_id_field(fields[first]),
        forall|k: int| 0 <= k < first ==> !is_id_field(#[trigger] fields[k]),
    ensures
        fields[first].text is None ==> model::object_scan(fields, end) == Err::<
            Option<int>,
            RefError,
        >(RefError::IdIsNotText),
        fields[first].text is Some && (exists|k: int|
            first < k < end && is_id_field(#[trigger] fields[k])) ==> model::object_scan(fields, end)
            == Err::<Option<int>, RefError>(RefError::DuplicateId),
        fields[first].text is Some && !(exists|k: int|
            first < k < end && is_id_field(#[trigger] fields[k])) ==> model::object_scan(fields, end)
            == Ok::<Option<int>, RefError>(Some(first)),
    decreases end,
{
    if end - 1 == first {
        lemma_scan(fields, first);
    } else {
        lemma_first_decides(fields, first, end - 1);
        assert(is_id_field(fields[end - 1]) == (fields[end - 1].name@ == "id"@));
    }
}

} // verus!
