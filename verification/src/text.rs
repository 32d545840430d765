//! Strings: comparison, substring search and UTF-16.

use std::string::FromUtf16Error;
use vstd::prelude::*;

verus! {

/// `FromUtf16Error` of std, carried as it is.
#[verifier::external_type_specification]
#[verifier::external_body]
pub struct ExFromUtf16Error(FromUtf16Error);

/// Whether `needle` stands somewhere in `haystack`, without gaps.
pub open spec fn occurs_in(needle: Seq<char>, haystack: Seq<char>) -> bool {
    exists|at: int| #[trigger] occurs_at(needle, haystack, at)
}

/// Whether `needle` stands in `haystack` from index `at` on.
pub open spec fn occurs_at(needle: Seq<char>, haystack: Seq<char>, at: int) -> bool {
    &&& 0 <= at <= haystack.len() - needle.len()
    &&& haystack.subrange(at, at + needle.len()) == needle
}

/// Calls `==` of std on two string slices: it tells whether they hold the same characters.
#[verifier::external_body]
pub(crate) fn same_text(left: &str, right: &str) -> (same: bool)
    ensures
        same == (left@ == right@),
{
    left == right
}

/// Calls `str::contains` of std with a string slice as its pattern: it tells whether that
/// pattern is a sub-slice of the text.
#[verifier::external_body]
pub(crate) fn contains_text(haystack: &str, needle: &str) -> (found: bool)
    ensures
        found == occurs_in(needle@, haystack@),
{
    haystack.contains(needle)
}

/// The UTF-16 code units of one character: itself, or a surrogate pair.
pub open spec fn utf16_units(c: char) -> Seq<u16> {
    let code = c as int;
    if code < 0x10000 {
        seq![code as u16]
    } else {
        seq![
            (0xD800 + (code - 0x10000) / 0x400) as u16,
            (0xDC00 + (code - 0x10000) % 0x400) as u16,
        ]
    }
}

/// The UTF-16 encoding of a text.
pub open spec fn utf16_encode(text: Seq<char>) -> Seq<u16>
    decreases text.len(),
{
    if text.len() == 0 {
        seq![]
    } else {
        utf16_units(text[0]) + utf16_encode(text.drop_first())
    }
}

/// Calls `String::from_utf16` of std: the text that has these code units as its UTF-16
/// encoding, an error if there is none.
#[verifier::external_body]
pub(crate) fn from_utf16(units: &[u16]) -> (decoded: Result<String, FromUtf16Error>)
    ensures
        match decoded {
            Ok(text) => utf16_encode(text@) == units@,
            Err(_) => forall|text: Seq<char>| #[trigger] utf16_encode(text) != units@,
        },
{
    String::from_utf16(units)
}

/// A unit that stands alone is no surrogate; a pair starts with a high surrogate. Either way
/// the units give the character back.
proof fn utf16_units_of(c: char)
    ensures
        utf16_units(c).len() == 1 ==> {
            &&& c as int == utf16_units(c)[0]
            &&& !(0xD800 <= utf16_units(c)[0] < 0xE000)
        },
        utf16_units(c).len() != 1 ==> {
            &&& utf16_units(c).len() == 2
            &&& 0xD800 <= utf16_units(c)[0] < 0xDC00
            &&& c as int == 0x10000 + (utf16_units(c)[0] - 0xD800) * 0x400 + (utf16_units(c)[1]
                - 0xDC00)
        },
{
}

/// No two texts have the same UTF-16 encoding, so code units stand for one text at most.
pub proof fn utf16_encoding_is_unambiguous(left: Seq<char>, right: Seq<char>)
    requires
        utf16_encode(left) == utf16_encode(right),
    ensures
        left == right,
    decreases left.len(),
{
    if left.len() > 0 && right.len() > 0 {
        let l = utf16_units(left[0]);
        let r = utf16_units(right[0]);
        let units = utf16_encode(left);
        utf16_units_of(left[0]);
        utf16_units_of(right[0]);
        assert(l[0] == units[0] && r[0] == units[0]);
        assert(l.len() == r.len());
        if l.len() == 2 {
            assert(l[1] == units[1] && r[1] == units[1]);
        }
        assert(utf16_encode(left.drop_first()) =~= units.skip(l.len() as int));
        assert(utf16_encode(right.drop_first()) =~= units.skip(r.len() as int));
        utf16_encoding_is_unambiguous(left.drop_first(), right.drop_first());
        assert(left =~= seq![left[0]] + left.drop_first());
        assert(right =~= seq![right[0]] + right.drop_first());
    } else {
        if left.len() > 0 {
            utf16_units_of(left[0]);
            assert(utf16_encode(left).len() > 0 && utf16_encode(right).len() == 0);
        }
        if right.len() > 0 {
            utf16_units_of(right[0]);
            assert(utf16_encode(right).len() > 0 && utf16_encode(left).len() == 0);
        }
        assert(left =~= right);
    }
}

/// A text stands in another exactly if the other is made of it and of what stands before and
/// behind it.
pub proof fn what_occurs_is_a_part(needle: Seq<char>, haystack: Seq<char>)
    ensures
        occurs_in(needle, haystack) <==> exists|before: Seq<char>, behind: Seq<char>|
            haystack == #[trigger] (before + needle + behind),
{
    if occurs_in(needle, haystack) {
        let at = choose|at: int| #[trigger] occurs_at(needle, haystack, at);
        let before = haystack.take(at);
        let behind = haystack.skip(at + needle.len());
        assert forall|i: int| 0 <= i < needle.len() implies haystack[at + i] == needle[i] by {
            assert(haystack.subrange(at, at + needle.len())[i] == needle[i]);
        }
        assert(haystack =~= before + needle + behind);
    }
    assert forall|before: Seq<char>, behind: Seq<char>|
        haystack == #[trigger] (before + needle + behind) implies occurs_in(needle, haystack) by {
        let at = before.len() as int;
        assert(haystack.subrange(at, at + needle.len()) =~= needle);
        assert(occurs_at(needle, haystack, at));
    }
}

/// Texts that stand one behind the other are encoded one behind the other.
pub proof fn utf16_encodes_part_by_part(left: Seq<char>, right: Seq<char>)
    ensures
        utf16_encode(left + right) == utf16_encode(left) + utf16_encode(right),
    decreases left.len(),
{
    if left.len() == 0 {
        assert(left + right =~= right);
        assert(utf16_encode(left) + utf16_encode(right) =~= utf16_encode(right));
    } else {
        let both = left + right;
        assert(both.drop_first() =~= left.drop_first() + right);
        utf16_encodes_part_by_part(left.drop_first(), right);
        assert(utf16_encode(both) =~= utf16_encode(left) + utf16_encode(right));
    }
}

/// A character of the basic plane is encoded by its number. Every other is encoded by a high and
/// a low surrogate, which hold ten bits each of what its number is above that plane.
pub proof fn utf16_encodes_one_character(c: char)
    ensures
        c as int <= 0xFFFF ==> utf16_encode(seq![c]).len() == 1 && utf16_encode(seq![c])[0] == c
            as int,
        c as int > 0xFFFF ==> {
            &&& utf16_encode(seq![c]).len() == 2
            &&& 0xD800 <= utf16_encode(seq![c])[0] <= 0xDBFF
            &&& 0xDC00 <= utf16_encode(seq![c])[1] <= 0xDFFF
            &&& c as int == 0x10000 + (utf16_encode(seq![c])[0] - 0xD800) * 0x400 + (utf16_encode(
                seq![c],
            )[1] - 0xDC00)
        },
{
    let text = seq![c];
    reveal_with_fuel(utf16_encode, 2);
    assert(text.drop_first() =~= seq![]);
    assert(utf16_encode(text) =~= utf16_units(c));
}

} // verus!
