//! Text as sequences of characters: classification, comparison, decimal
//! numbers and C strings.

use vstd::prelude::*;
use vstd::string::*;
use vstd::utf8::*;

verus! {

/// The characters of `text`, in order.
pub fn chars_of(text: &str) -> (chars: Vec<char>)
    ensures
        chars@ == text@,
{
    let mut chars: Vec<char> = Vec::new();
    for ch in it: text.chars()
        invariant
            chars@ == it.seq().take(it.index() as int),
            it.seq() == text@,
    {
        chars.push(ch);
    }
    chars
}

/// Whether two texts hold the same characters.
pub fn text_eq(left: &str, right: &str) -> (same: bool)
    ensures
        same == (left@ == right@),
{
    let a: Vec<char> = chars_of(left);
    let b: Vec<char> = chars_of(right);
    if a.len() != b.len() {
        return false;
    }
    let mut i: usize = 0;
    while i < a.len()
        invariant
            a@ == left@,
            b@ == right@,
            a.len() == b.len(),
            i <= a.len(),
            forall|k: int| 0 <= k < i ==> a@[k] == b@[k],
        decreases a.len() - i,
    {
        if a[i] != b[i] {
            assert(left@[i as int] != right@[i as int]);
            return false;
        }
        i = i + 1;
    }
    assert(left@ =~= right@);
    true
}

/// The characters with Unicode's `White_Space` property.
pub open spec fn is_white_space(ch: char) -> bool {
    ||| '\u{9}' <= ch <= '\u{d}'
    ||| ch == ' '
    ||| ch == '\u{85}'
    ||| ch == '\u{a0}'
    ||| ch == '\u{1680}'
    ||| '\u{2000}' <= ch <= '\u{200a}'
    ||| ch == '\u{2028}'
    ||| ch == '\u{2029}'
    ||| ch == '\u{202f}'
    ||| ch == '\u{205f}'
    ||| ch == '\u{3000}'
}

/// Whether `ch` is white space.
pub fn white_space(ch: char) -> (yes: bool)
    ensures
        yes == is_white_space(ch),
{
    ('\u{9}' <= ch && ch <= '\u{d}') || ch == ' ' || ch == '\u{85}' || ch == '\u{a0}' || ch
        == '\u{1680}' || ('\u{2000}' <= ch && ch <= '\u{200a}') || ch == '\u{2028}' || ch
        == '\u{2029}' || ch == '\u{202f}' || ch == '\u{205f}' || ch == '\u{3000}'
}

/// A text without anything but white space, the empty text included.
pub open spec fn blank(text: Seq<char>) -> bool {
    forall|i: int| 0 <= i < text.len() ==> is_white_space(#[trigger] text[i])
}

/// Whether trimming `text` leaves nothing.
pub fn is_blank(text: &str) -> (yes: bool)
    ensures
        yes == blank(text@),
{
    let chars: Vec<char> = chars_of(text);
    let mut i: usize = 0;
    while i < chars.len()
        invariant
            chars@ == text@,
            i <= chars.len(),
            forall|k: int| 0 <= k < i ==> is_white_space(#[trigger] text@[k]),
        decreases chars.len() - i,
    {
        if !white_space(chars[i]) {
            assert(!is_white_space(text@[i as int]));
            return false;
        }
        i = i + 1;
    }
    true
}

/// The control characters (Unicode category `Cc`) and the line separators.
pub open spec fn is_control(ch: char) -> bool {
    ||| ch <= '\u{1f}'
    ||| '\u{7f}' <= ch <= '\u{9f}'
    ||| ch == '\u{2028}'
    ||| ch == '\u{2029}'
}

/// A text that holds a control character or a line separator.
pub open spec fn has_control(text: Seq<char>) -> bool {
    exists|i: int| 0 <= i < text.len() && is_control(#[trigger] text[i])
}

/// Whether `value` holds a control character or a line separator.
pub fn has_control_characters(value: &str) -> (yes: bool)
    ensures
        yes == has_control(value@),
{
    let chars: Vec<char> = chars_of(value);
    let mut i: usize = 0;
    while i < chars.len()
        invariant
            chars@ == value@,
            i <= chars.len(),
            forall|k: int| 0 <= k < i ==> !is_control(#[trigger] value@[k]),
        decreases chars.len() - i,
    {
        let ch: char = chars[i];
        if ch <= '\u{1f}' || ('\u{7f}' <= ch && ch <= '\u{9f}') || ch == '\u{2028}' || ch
            == '\u{2029}' {
            assert(is_control(value@[i as int]));
            return true;
        }
        i = i + 1;
    }
    false
}

/// Whether `text` holds `wanted`.
pub fn contains_char(text: &str, wanted: char) -> (yes: bool)
    ensures
        yes == text@.contains(wanted),
{
    let chars: Vec<char> = chars_of(text);
    let mut i: usize = 0;
    while i < chars.len()
        invariant
            chars@ == text@,
            i <= chars.len(),
            forall|k: int| 0 <= k < i ==> text@[k] != wanted,
        decreases chars.len() - i,
    {
        if chars[i] == wanted {
            assert(text@[i as int] == wanted);
            return true;
        }
        i = i + 1;
    }
    false
}

/// Whether `text` begins with `prefix`.
pub fn starts_with(text: &str, prefix: &str) -> (yes: bool)
    ensures
        yes == prefix@.is_prefix_of(text@),
{
    let t: Vec<char> = chars_of(text);
    let p: Vec<char> = chars_of(prefix);
    if t.len() < p.len() {
        return false;
    }
    let mut i: usize = 0;
    while i < p.len()
        invariant
            t@ == text@,
            p@ == prefix@,
            p.len() <= t.len(),
            i <= p.len(),
            forall|k: int| 0 <= k < i ==> t@[k] == p@[k],
        decreases p.len() - i,
    {
        if t[i] != p[i] {
            assert(text@.subrange(0, prefix@.len() as int)[i as int] != prefix@[i as int]);
            return false;
        }
        i = i + 1;
    }
    assert(text@.subrange(0, prefix@.len() as int) =~= prefix@);
    true
}

/// A character with ASCII capitals folded to small letters.
pub open spec fn ascii_lower(ch: char) -> int {
    if 'A' <= ch <= 'Z' {
        ch as int + 32
    } else {
        ch as int
    }
}

/// A character with small ASCII letters raised to capitals.
pub open spec fn ascii_upper(ch: char) -> char {
    if 'a' <= ch <= 'z' {
        (ch as u8 - 32) as u8 as char
    } else {
        ch
    }
}

/// Raises a small ASCII letter to the capital.
pub fn upper_char(ch: char) -> (upper: char)
    ensures
        upper == ascii_upper(ch),
{
    if 'a' <= ch && ch <= 'z' {
        let small: u8 = ch as u8;
        (small - 32) as char
    } else {
        ch
    }
}

/// Two texts that differ at most in the case of ASCII letters.
pub open spec fn same_ignoring_ascii_case(left: Seq<char>, right: Seq<char>) -> bool {
    &&& left.len() == right.len()
    &&& forall|i: int|
        0 <= i < left.len() ==> ascii_lower(#[trigger] left[i]) == ascii_lower(right[i])
}

fn lower_code(ch: char) -> (code: u32)
    ensures
        code == ascii_lower(ch),
{
    let code: u32 = ch as u32;
    if 'A' <= ch && ch <= 'Z' {
        code + 32
    } else {
        code
    }
}

/// Whether two texts are the same but for the case of ASCII letters.
pub fn eq_ignore_ascii_case(left: &str, right: &str) -> (same: bool)
    ensures
        same == same_ignoring_ascii_case(left@, right@),
{
    let a: Vec<char> = chars_of(left);
    let b: Vec<char> = chars_of(right);
    if a.len() != b.len() {
        return false;
    }
    let mut i: usize = 0;
    while i < a.len()
        invariant
            a@ == left@,
            b@ == right@,
            a.len() == b.len(),
            i <= a.len(),
            forall|k: int| 0 <= k < i ==> ascii_lower(#[trigger] left@[k]) == ascii_lower(right@[k]),
        decreases a.len() - i,
    {
        if lower_code(a[i]) != lower_code(b[i]) {
            assert(ascii_lower(left@[i as int]) != ascii_lower(right@[i as int]));
            return false;
        }
        i = i + 1;
    }
    true
}

/// The decimal digit for `value`, which is below ten.
pub open spec fn digit(value: nat) -> char {
    (48 + value) as char
}

/// The decimal notation of a number, without leading zeros.
pub open spec fn decimal(value: nat) -> Seq<char>
    decreases value,
{
    if value < 10 {
        seq![digit(value)]
    } else {
        decimal(value / 10).push(digit(value % 10))
    }
}

fn digit_text(value: u64) -> (text: &'static str)
    requires
        value < 10,
    ensures
        text@ == seq![digit(value as nat)],
{
    proof {
        reveal_strlit("0");
        reveal_strlit("1");
        reveal_strlit("2");
        reveal_strlit("3");
        reveal_strlit("4");
        reveal_strlit("5");
        reveal_strlit("6");
        reveal_strlit("7");
        reveal_strlit("8");
        reveal_strlit("9");
    }
    match value {
        0 => "0",
        1 => "1",
        2 => "2",
        3 => "3",
        4 => "4",
        5 => "5",
        6 => "6",
        7 => "7",
        8 => "8",
        _ => "9",
    }
}

/// The decimal notation of `value`.
pub fn decimal_text(value: u64) -> (text: String)
    ensures
        text@ == decimal(value as nat),
    decreases value,
{
    if value < 10 {
        digit_text(value).to_owned()
    } else {
        let high: String = decimal_text(value / 10);
        let text: String = high.concat(digit_text(value % 10));
        assert(text@ =~= decimal(value as nat));
        text
    }
}

/// The decimal notation of a status code, with a minus sign where it is negative.
pub open spec fn signed_decimal(value: int) -> Seq<char> {
    if value < 0 {
        "-"@ + decimal((-value) as nat)
    } else {
        decimal(value as nat)
    }
}

/// The decimal notation of a signed number.
pub fn signed_decimal_text(value: i64) -> (text: String)
    ensures
        text@ == signed_decimal(value as int),
{
    if value < 0 {
        let magnitude: i128 = -(value as i128);
        "-".to_owned().concat(decimal_text(magnitude as u64).as_str())
    } else {
        decimal_text(value as u64)
    }
}

/// The number of bytes of `text` in UTF-8, as a size of the machine.
pub open spec fn byte_len(text: Seq<char>) -> u64 {
    (encode_utf8(text).len() as usize) as u64
}

/// The number of bytes of `text` in UTF-8.
pub fn utf8_len(text: &str) -> (len: u64)
    ensures
        len == byte_len(text@),
{
    text.len() as u64
}

/// The first position of `wanted` in `bytes`, if there is one.
pub fn position_of(bytes: &[u8], wanted: u8) -> (found: Option<usize>)
    ensures
        match found {
            Some(i) => {
                &&& i < bytes@.len()
                &&& bytes@[i as int] == wanted
                &&& forall|k: int| 0 <= k < i ==> bytes@[k] != wanted
            },
            None => !bytes@.contains(wanted),
        },
{
    let mut i: usize = 0;
    while i < bytes.len()
        invariant
            i <= bytes@.len(),
            forall|k: int| 0 <= k < i ==> bytes@[k] != wanted,
        decreases bytes.len() - i,
    {
        if bytes[i] == wanted {
            return Some(i);
        }
        i = i + 1;
    }
    None
}

/// The bytes are those of a C string for `text`, without the closing NUL.
pub open spec fn is_c_string(bytes: Seq<u8>, text: Seq<char>) -> bool {
    bytes == encode_utf8(text) && !bytes.contains(0u8)
}

/// A text that stands in a C string.
pub open spec fn c_text(text: Seq<char>) -> bool {
    !encode_utf8(text).contains(0u8)
}

/// The first NUL byte inside `text` stands at `at`.
pub open spec fn first_nul(text: Seq<char>, at: int) -> bool {
    &&& 0 <= at < encode_utf8(text).len()
    &&& encode_utf8(text)[at] == 0u8
    &&& forall|k: int| 0 <= k < at ==> encode_utf8(text)[k] != 0u8
}

/// A text with a NUL byte stands in no C string.
pub proof fn lemma_first_nul(text: Seq<char>, at: int)
    requires
        first_nul(text, at),
    ensures
        !c_text(text),
{
    assert(encode_utf8(text)[at] == 0u8);
}

/// The bytes of `text` for a C string, without the closing NUL, or the
/// position of the first NUL byte inside `text`.
pub fn c_bytes(text: &str) -> (bytes: Result<Vec<u8>, usize>)
    ensures
        match bytes {
            Ok(found) => is_c_string(found@, text@),
            Err(at) => first_nul(text@, at as int),
        },
{
    let bytes: Vec<u8> = text.as_bytes_vec();
    match position_of(bytes.as_slice(), 0u8) {
        Some(at) => Err(at),
        None => Ok(bytes),
    }
}

/// What `String::from_utf8_lossy` makes of bytes: the text they encode, with
/// U+FFFD in place of what is not UTF-8.
pub uninterp spec fn lossy_text(bytes: Seq<u8>) -> Seq<char>;

/// Calls `String::from_utf8_lossy`. Its result depends on the bytes alone, and
/// bytes that are UTF-8 give the text that they encode.
#[verifier::external_body]
pub(crate) fn utf8_lossy(bytes: &[u8]) -> (text: String)
    ensures
        text@ == lossy_text(bytes@),
        valid_utf8(bytes@) ==> text@ == decode_utf8(bytes@),
{
    String::from_utf8_lossy(bytes).into_owned()
}

/// What `String::from_utf8` says of bytes that are not UTF-8.
pub uninterp spec fn utf8_reason(bytes: Seq<u8>) -> Seq<char>;

/// Calls `String::from_utf8`: bytes that are UTF-8 give the text that they
/// encode; for others the error comes back as its message, which depends on
/// the bytes alone.
#[verifier::external_body]
pub(crate) fn utf8_text(bytes: Vec<u8>) -> (text: Result<String, String>)
    ensures
        text is Ok <==> valid_utf8(bytes@),
        text matches Ok(found) ==> found@ == decode_utf8(bytes@),
        text matches Err(reason) ==> reason@ == utf8_reason(bytes@),
{
    String::from_utf8(bytes).map_err(|error| error.to_string())
}

/// Every character of a decimal notation is a digit.
pub proof fn law_decimal_is_digits(value: nat)
    ensures
        decimal(value).len() > 0,
        forall|i: int| 0 <= i < decimal(value).len() ==> '0' <= #[trigger] decimal(value)[i] <= '9',
    decreases value,
{
    if value >= 10 {
        law_decimal_is_digits(value / 10);
    }
}

/// Different numbers have different decimal notations.
pub proof fn law_decimal_is_injective(left: nat, right: nat)
    requires
        decimal(left) == decimal(right),
    ensures
        left == right,
    decreases left,
{
    law_decimal_is_digits(left / 10);
    law_decimal_is_digits(right / 10);
    if left < 10 && right < 10 {
        assert(decimal(left)[0] == digit(left));
        assert(decimal(right)[0] == digit(right));
        assert(digit(left) as int == 48 + left);
        assert(digit(right) as int == 48 + right);
    } else if left >= 10 && right >= 10 {
        assert(decimal(left).drop_last() =~= decimal(left / 10));
        assert(decimal(right).drop_last() =~= decimal(right / 10));
        law_decimal_is_injective(left / 10, right / 10);
        assert(decimal(left).last() == digit(left % 10));
        assert(decimal(right).last() == digit(right % 10));
        assert(digit(left % 10) as int == 48 + left % 10);
        assert(digit(right % 10) as int == 48 + right % 10);
    } else {
        assert(decimal(left).len() != decimal(right).len());
    }
}

/// The first byte of an ASCII character is its number, and every byte of
/// another character is above ASCII.
proof fn lemma_scalar_bytes(scalar: u32)
    by (bit_vector)
    ensures
        scalar <= 0x7f ==> ((scalar & 0x7f) as u8) as u32 == scalar,
        0xc0u8 | ((scalar >> 6) & 0x1f) as u8 >= 0x80u8,
        0xe0u8 | ((scalar >> 12) & 0x0f) as u8 >= 0x80u8,
        0xf0u8 | ((scalar >> 18) & 0x7) as u8 >= 0x80u8,
        0x80u8 | (scalar & 0x3f) as u8 >= 0x80u8,
        0x80u8 | ((scalar >> 6) & 0x3f) as u8 >= 0x80u8,
        0x80u8 | ((scalar >> 12) & 0x3f) as u8 >= 0x80u8,
{
}

/// A character other than an ASCII one has no byte of that number.
proof fn lemma_other_scalar(ch: char, ascii: char)
    requires
        ascii <= '\u{7f}',
        ch != ascii,
    ensures
        !encode_scalar(ch as u32).contains(ascii as u8),
{
    let scalar = ch as u32;
    let bytes = encode_scalar(scalar);
    lemma_scalar_bytes(scalar);
    if bytes.contains(ascii as u8) {
        let i = choose|i: int| 0 <= i < bytes.len() && bytes[i] == ascii as u8;
        assert(bytes[i] <= 0x7f);
        assert(has_width_1_encoding(scalar));
        assert(bytes[0] as u32 == scalar);
        assert(scalar as int == ch as int);
    }
}

/// A text without an ASCII character has no byte of that number.
pub proof fn lemma_ascii_bytes(text: Seq<char>, ascii: char)
    requires
        ascii <= '\u{7f}',
        !text.contains(ascii),
    ensures
        !encode_utf8(text).contains(ascii as u8),
    decreases text.len(),
{
    if text.len() > 0 {
        let rest = text.drop_first();
        assert(!rest.contains(ascii)) by {
            if rest.contains(ascii) {
                let i = choose|i: int| 0 <= i < rest.len() && rest[i] == ascii;
                assert(text[i + 1] == ascii);
            }
        }
        lemma_ascii_bytes(rest, ascii);
        let first = encode_scalar(text[0] as u32);
        assert(text[0] != ascii) by {
            assert(text.contains(text[0]));
        }
        lemma_other_scalar(text[0], ascii);
        let whole = encode_utf8(text);
        if whole.contains(ascii as u8) {
            let i = choose|i: int| 0 <= i < whole.len() && whole[i] == ascii as u8;
            if i < first.len() {
                assert(first[i] == ascii as u8);
            } else {
                assert(encode_utf8(rest)[i - first.len()] == ascii as u8);
            }
        }
    }
}

/// A text without a NUL has no NUL byte.
pub proof fn lemma_nul_bytes(text: Seq<char>)
    requires
        !text.contains('\0'),
    ensures
        !encode_utf8(text).contains(0u8),
{
    lemma_ascii_bytes(text, '\0');
}

/// The bytes of two texts together are the bytes of each.
pub proof fn lemma_encoded_sum(left: Seq<char>, right: Seq<char>)
    ensures
        encode_utf8(left + right) == encode_utf8(left) + encode_utf8(right),
    decreases left.len(),
{
    if left.len() == 0 {
        assert(left + right =~= right);
        assert(encode_utf8(left) =~= seq![]);
        assert(seq![] + encode_utf8(right) =~= encode_utf8(right));
    } else {
        lemma_encoded_sum(left.drop_first(), right);
        assert((left + right).drop_first() =~= left.drop_first() + right);
        assert((left + right)[0] == left[0]);
        assert(encode_utf8(left + right) =~= encode_utf8(left) + encode_utf8(right));
    }
}

/// The line feed is one byte.
pub proof fn lemma_line_feed()
    ensures
        encode_utf8(seq!['\n']) == seq![10u8],
{
    lemma_scalar_bytes(10);
    let text = seq!['\n'];
    assert(text.drop_first() =~= Seq::<char>::empty());
    reveal_with_fuel(encode_utf8, 2);
    assert('\n' as u32 == 10);
    assert(encode_utf8(text) =~= seq![10u8]);
}

/// The first text comes before the second in the order of their characters.
pub open spec fn precedes(left: Seq<char>, right: Seq<char>) -> bool
    decreases left.len(),
{
    if right.len() == 0 {
        false
    } else if left.len() == 0 {
        true
    } else if left[0] == right[0] {
        precedes(left.drop_first(), right.drop_first())
    } else {
        left[0] < right[0]
    }
}

/// Whether the first text comes before the second in the order of their
/// characters.
#[verifier::loop_isolation(false)]
pub fn text_precedes(left: &str, right: &str) -> (yes: bool)
    ensures
        yes == precedes(left@, right@),
{
    let a: Vec<char> = chars_of(left);
    let b: Vec<char> = chars_of(right);
    let mut i: usize = 0;
    assert(a@.skip(0) =~= a@);
    assert(b@.skip(0) =~= b@);
    while i < a.len() && i < b.len()
        invariant
            i <= a.len(),
            i <= b.len(),
            precedes(a@, b@) == precedes(a@.skip(i as int), b@.skip(i as int)),
        decreases a.len() - i,
    {
        assert(a@.skip(i as int)[0] == a@[i as int]);
        assert(b@.skip(i as int)[0] == b@[i as int]);
        if a[i] != b[i] {
            return a[i] < b[i];
        }
        assert(a@.skip(i as int).drop_first() =~= a@.skip(i + 1));
        assert(b@.skip(i as int).drop_first() =~= b@.skip(i + 1));
        i = i + 1;
    }
    i < b.len()
}

/// The order of texts is transitive: what does not come before a text does not
/// come before one that the text does not come before.
pub proof fn lemma_order_is_transitive(first: Seq<char>, second: Seq<char>, third: Seq<char>)
    requires
        !precedes(second, first),
        !precedes(third, second),
    ensures
        !precedes(third, first),
    decreases first.len(),
{
    if first.len() > 0 && second.len() > 0 && third.len() > 0 && first[0] == second[0] && second[0]
        == third[0] {
        lemma_order_is_transitive(first.drop_first(), second.drop_first(), third.drop_first());
    }
}

/// What comes before a text comes before all that the text comes before.
pub proof fn lemma_precedes_through(first: Seq<char>, second: Seq<char>, third: Seq<char>)
    requires
        precedes(first, second),
        precedes(second, third),
    ensures
        precedes(first, third),
    decreases first.len(),
{
    if first.len() > 0 && second.len() > 0 && third.len() > 0 && first[0] == second[0] && second[0]
        == third[0] {
        lemma_precedes_through(first.drop_first(), second.drop_first(), third.drop_first());
    }
}

/// Of two different texts one comes before the other, and no text comes before
/// itself.
pub proof fn law_texts_are_ordered(left: Seq<char>, right: Seq<char>)
    ensures
        left == right || precedes(left, right) || precedes(right, left),
        !(precedes(left, right) && precedes(right, left)),
        !precedes(left, left),
    decreases left.len(),
{
    if left.len() > 0 {
        law_texts_are_ordered(left.drop_first(), left.drop_first());
    }
    if left.len() > 0 && right.len() > 0 && left[0] == right[0] {
        law_texts_are_ordered(left.drop_first(), right.drop_first());
        if left.drop_first() == right.drop_first() {
            assert(left =~= seq![left[0]] + left.drop_first());
            assert(right =~= seq![right[0]] + right.drop_first());
        }
    } else if left.len() == 0 && right.len() == 0 {
        assert(left =~= right);
    }
}

} // verus!
