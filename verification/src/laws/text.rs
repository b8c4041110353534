//! Laws on texts.

use crate::text::{
    c_bytes, chars_of, contains_char, decimal, decimal_text, eq_ignore_ascii_case,
    has_control_characters, is_blank, position_of, signed_decimal_text, starts_with, text_eq,
    text_precedes, upper_char, utf8_len, white_space,
};
use vstd::prelude::*;
use vstd::string::*;
use vstd::utf8::*;

verus! {

/// The number that a text of digits stands for, the highest digit first.
pub open spec fn number_in(digits: Seq<char>) -> int
    decreases digits.len(),
{
    if digits.len() == 0 {
        0
    } else {
        number_in(digits.drop_last()) * 10 + (digits.last() as int - '0' as int)
    }
}

/// The text is made of digits and has no zero before another digit.
pub open spec fn is_numeral(text: Seq<char>) -> bool {
    &&& text.len() > 0
    &&& forall|i: int| 0 <= i < text.len() ==> '0' <= #[trigger] text[i] <= '9'
    &&& text.len() > 1 ==> text[0] != '0'
}

/// The text is the numeral of a number.
pub open spec fn tells(text: Seq<char>, value: int) -> bool {
    is_numeral(text) && number_in(text) == value
}

/// A number is read back from its decimal notation.
pub proof fn law_numbers_are_read_back(value: nat)
    ensures
        tells(decimal(value), value as int),
        value > 0 ==> decimal(value)[0] != '0',
    decreases value,
{
    let text = decimal(value);
    if value >= 10 {
        law_numbers_are_read_back(value / 10);
        let high = decimal(value / 10);
        assert(text.drop_last() =~= high);
        assert(text[0] == high[0]);
        assert forall|i: int| 0 <= i < text.len() implies '0' <= #[trigger] text[i] <= '9' by {
            if i < high.len() {
                assert(text[i] == high[i]);
            }
        }
    } else {
        assert(text.drop_last() =~= seq![]);
        assert(number_in(text.drop_last()) == 0);
    }
}

/// A number is read back from its text.
pub proof fn law_number_texts_are_read_back(value: u64, text: String)
    requires
        call_ensures(decimal_text, (value,), text),
    ensures
        tells(text@, value as int),
{
    law_numbers_are_read_back(value as nat);
}

/// A number below zero is its opposite behind a minus sign, and no other number
/// begins with one.
pub proof fn law_signs_are_kept(value: i64, text: String)
    requires
        call_ensures(signed_decimal_text, (value,), text),
    ensures
        value >= 0 ==> tells(text@, value as int),
        value < 0 ==> text@.len() > 1 && text@[0] == '-' && tells(text@.drop_first(), -value),
{
    reveal_strlit("-");
    if value < 0 {
        law_numbers_are_read_back((-value) as nat);
        assert(text@.drop_first() =~= decimal((-value) as nat));
    } else {
        law_numbers_are_read_back(value as nat);
    }
}

/// The codes of white space.
pub open spec fn white_code(code: int) -> bool {
    9 <= code <= 13 || code == 32 || code == 133 || code == 160 || code == 5760 || 8192 <= code
        <= 8202 || code == 8232 || code == 8233 || code == 8239 || code == 8287 || code == 12288
}

/// The codes of control characters and of line and paragraph separators.
pub open spec fn control_code(code: int) -> bool {
    code <= 31 || 127 <= code <= 159 || code == 8232 || code == 8233
}

/// Every character of the text is white space.
pub open spec fn all_white(text: Seq<char>) -> bool {
    forall|i: int| 0 <= i < text.len() ==> white_code((#[trigger] text[i]) as int)
}

/// Some character of the text is a control character or a line separator.
pub open spec fn some_control(text: Seq<char>) -> bool {
    exists|i: int| 0 <= i < text.len() && control_code((#[trigger] text[i]) as int)
}

/// A text is blank where trimming it leaves nothing.
pub proof fn law_blank_texts_are_white(text: &str, yes: bool)
    requires
        call_ensures(is_blank, (text,), yes),
    ensures
        yes == all_white(text@),
{
    lemma_blank_is_white(text@);
}

pub(crate) proof fn lemma_blank_is_white(text: Seq<char>)
    ensures
        crate::text::blank(text) == all_white(text),
{
    assert(forall|ch: char| #[trigger]
        crate::text::is_white_space(ch) == white_code(ch as int));
    if all_white(text) {
        assert forall|i: int| 0 <= i < text.len() implies crate::text::is_white_space(
            #[trigger] text[i],
        ) by {
            assert(white_code(text[i] as int));
        }
    }
}

/// A text holds a control character where one of its codes is that of one.
pub proof fn law_control_characters_are_found(text: &str, yes: bool)
    requires
        call_ensures(has_control_characters, (text,), yes),
    ensures
        yes == some_control(text@),
{
    lemma_control_is_found(text@);
}

pub(crate) proof fn lemma_control_is_found(text: Seq<char>)
    ensures
        crate::text::has_control(text) == some_control(text),
{
    if crate::text::has_control(text) {
        let i = choose|i: int|
            0 <= i < text.len() && crate::text::is_control(#[trigger] text[i]);
        assert(control_code(text[i] as int));
    }
    if some_control(text) {
        let i = choose|i: int| 0 <= i < text.len() && control_code((#[trigger] text[i]) as int);
        assert(crate::text::is_control(text[i]));
    }
}

/// Two texts are the same but for case where each two characters are the same,
/// or are the small and the capital form of one ASCII letter.
pub proof fn law_case_is_ignored_for_letters_alone(left: &str, right: &str, same: bool)
    requires
        call_ensures(eq_ignore_ascii_case, (left, right), same),
    ensures
        same == (left@.len() == right@.len() && forall|i: int|
            0 <= i < left@.len() ==> same_letter(#[trigger] left@[i], right@[i])),
{
    if same {
        assert forall|i: int| 0 <= i < left@.len() implies same_letter(
            #[trigger] left@[i],
            right@[i],
        ) by {
            assert(crate::text::ascii_lower(left@[i]) == crate::text::ascii_lower(right@[i]));
        }
    } else if left@.len() == right@.len() {
        let i = choose|i: int|
            0 <= i < left@.len() && crate::text::ascii_lower(#[trigger] left@[i])
                != crate::text::ascii_lower(right@[i]);
        assert(!same_letter(left@[i], right@[i]));
    }
}

/// One character, or the two forms of one ASCII letter.
pub open spec fn same_letter(a: char, b: char) -> bool {
    ||| a == b
    ||| 65 <= a as int <= 90 && b as int == a as int + 32
    ||| 65 <= b as int <= 90 && a as int == b as int + 32
}

/// A small letter is raised to its capital, and nothing else changes.
pub proof fn law_letters_are_raised(ch: char, upper: char)
    requires
        call_ensures(upper_char, (ch,), upper),
    ensures
        97 <= ch as int <= 122 ==> upper as int == ch as int - 32,
        !(97 <= ch as int <= 122) ==> upper == ch,
{
}

/// A text comes before another where it begins it, or where it has the smaller
/// character at the first place where they differ.
pub proof fn law_texts_are_ordered_by_their_first_difference(left: &str, right: &str, yes: bool)
    requires
        call_ensures(text_precedes, (left, right), yes),
    ensures
        yes == comes_before(left@, right@),
{
    lemma_order_is_by_difference(left@, right@);
}

/// The texts agree up to a place, where the first ends or has the smaller
/// character.
pub open spec fn differs_at(left: Seq<char>, right: Seq<char>, at: int) -> bool {
    &&& 0 <= at < right.len()
    &&& at <= left.len()
    &&& left.take(at) == right.take(at)
    &&& at < left.len() ==> left[at] < right[at]
}

pub open spec fn comes_before(left: Seq<char>, right: Seq<char>) -> bool {
    exists|at: int| differs_at(left, right, at)
}

pub(crate) proof fn lemma_order_is_by_difference(left: Seq<char>, right: Seq<char>)
    ensures
        crate::text::precedes(left, right) == comes_before(left, right),
    decreases left.len(),
{
    if right.len() > 0 && left.len() > 0 && left[0] == right[0] {
        let l = left.drop_first();
        let r = right.drop_first();
        lemma_order_is_by_difference(l, r);
        if comes_before(l, r) {
            let at = choose|at: int| differs_at(l, r, at);
            assert(left.take(at + 1) =~= seq![left[0]] + l.take(at));
            assert(right.take(at + 1) =~= seq![right[0]] + r.take(at));
            assert(differs_at(left, right, at + 1));
        }
        if comes_before(left, right) {
            let at = choose|at: int| differs_at(left, right, at);
            assert(at > 0);
            assert(l.take(at - 1) =~= left.take(at).drop_first());
            assert(r.take(at - 1) =~= right.take(at).drop_first());
            assert(differs_at(l, r, at - 1));
        }
    } else if right.len() > 0 {
        assert(left.take(0) =~= right.take(0));
        if left.len() == 0 || left[0] < right[0] {
            assert(differs_at(left, right, 0));
        } else if comes_before(left, right) {
            let at = choose|at: int| differs_at(left, right, at);
            if at > 0 {
                assert(left.take(at)[0] == right.take(at)[0]);
            }
        }
    }
}

/// The characters of a text are its characters in order, and two texts are the
/// same where these are.
pub proof fn law_texts_are_their_characters(
    left: &str,
    right: &str,
    chars: Vec<char>,
    same: bool,
    wanted: char,
    holds: bool,
)
    requires
        call_ensures(chars_of, (left,), chars),
        call_ensures(text_eq, (left, right), same),
        call_ensures(contains_char, (left, wanted), holds),
    ensures
        chars@ == left@,
        same <==> left@.len() == right@.len() && forall|i: int|
            0 <= i < left@.len() ==> #[trigger] left@[i] == right@[i],
        holds <==> exists|i: int| 0 <= i < left@.len() && #[trigger] left@[i] == wanted,
{
    if left@.len() == right@.len() && (forall|i: int|
        0 <= i < left@.len() ==> #[trigger] left@[i] == right@[i]) {
        assert(left@ =~= right@);
    }
}

/// White space is what Unicode calls so.
pub proof fn law_white_space_is_by_its_code(ch: char, yes: bool)
    requires
        call_ensures(white_space, (ch,), yes),
    ensures
        yes <==> white_code(ch as int),
{
}

/// A byte is found at its first position.
pub proof fn law_bytes_are_found_at_their_first_position(
    bytes: &[u8],
    wanted: u8,
    found: Option<usize>,
    at: int,
)
    requires
        call_ensures(position_of, (bytes, wanted), found),
    ensures
        0 <= at < bytes@.len() && bytes@[at] == wanted ==> (found matches Some(first) && first
            <= at && bytes@[first as int] == wanted),
        found matches Some(first) ==> first < bytes@.len() && bytes@[first as int] == wanted,
{
}

/// A text is handed on as its bytes, unless one of them is NUL: then the first
/// such position comes back.
pub proof fn law_texts_without_nul_are_c_strings(
    text: &str,
    outcome: Result<Vec<u8>, usize>,
    len: u64,
)
    requires
        call_ensures(c_bytes, (text,), outcome),
        call_ensures(utf8_len, (text,), len),
    ensures
        outcome matches Ok(bytes) ==> bytes@ == encode_utf8(text@) && !bytes@.contains(0u8),
        outcome matches Err(at) ==> at < encode_utf8(text@).len() && encode_utf8(text@)[at as int]
            == 0u8 && forall|k: int| 0 <= k < at ==> encode_utf8(text@)[k] != 0u8,
        encode_utf8(text@).len() <= u32::MAX ==> len == encode_utf8(text@).len(),
{
}

/// A text begins with another where its first characters are those of the
/// other.
pub proof fn law_texts_begin_with_their_first_characters(text: &str, prefix: &str, yes: bool)
    requires
        call_ensures(starts_with, (text, prefix), yes),
    ensures
        yes <==> prefix@.len() <= text@.len() && forall|i: int|
            0 <= i < prefix@.len() ==> #[trigger] prefix@[i] == text@[i],
{
    if yes {
        assert forall|i: int| 0 <= i < prefix@.len() implies #[trigger] prefix@[i] == text@[i] by {
            assert(text@.subrange(0, prefix@.len() as int)[i] == text@[i]);
        }
    }
    if prefix@.len() <= text@.len() && (forall|i: int|
        0 <= i < prefix@.len() ==> #[trigger] prefix@[i] == text@[i]) {
        assert(text@.subrange(0, prefix@.len() as int) =~= prefix@);
    }
}

} // verus!
