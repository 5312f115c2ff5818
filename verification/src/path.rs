//! Text as the engine takes it: zero-terminated strings, narrow (UTF-8 bytes)
//! or wide (16-bit units), with no zero inside.

use crate::engine::{HostPath, HostPathView};
use crate::error::StormError;
use vstd::prelude::*;
use vstd::slice::slice_to_vec;
use vstd::string::StringSliceAdditionalSpecFns;
use vstd::utf8::{char_is_scalar, encode_scalar, encode_utf8};

verus! {

/// Whether the text holds the character with code zero.
pub open spec fn has_nul(text: Seq<char>) -> bool {
    text.contains('\0')
}

/// A text as a zero-terminated byte string: its UTF-8 bytes and a zero byte
/// after them.
pub open spec fn c_string(text: Seq<char>) -> Seq<u8> {
    encode_utf8(text).push(0u8)
}

/// Units as a zero-terminated wide string: the units and a zero unit after
/// them.
pub open spec fn wide_c_string(units: Seq<u16>) -> Seq<u16> {
    units.push(0u16)
}

/// The path of an archive as narrow text, or nothing where the path holds
/// the character with code zero.
pub open spec fn narrow_path(path: Seq<char>) -> Option<HostPathView> {
    if has_nul(path) {
        None
    } else {
        Some(HostPathView::Narrow(c_string(path)))
    }
}

/// The path of an archive as wide text, or nothing where the units hold a
/// zero.
pub open spec fn wide_path(units: Seq<u16>) -> Option<HostPathView> {
    if units.contains(0u16) {
        None
    } else {
        Some(HostPathView::Wide(wide_c_string(units)))
    }
}

proof fn lemma_scalar_bytes(s: u32)
    by (bit_vector)
    ensures
        s != 0 ==> (s & 0x7F) as u8 != 0 || s > 0x7F,
        0xC0u8 | ((s >> 6) & 0x1F) as u8 != 0,
        0xE0u8 | ((s >> 12) & 0x0F) as u8 != 0,
        0xF0u8 | ((s >> 18) & 0x7) as u8 != 0,
        0x80u8 | (s & 0x3F) as u8 != 0,
        0x80u8 | ((s >> 6) & 0x3F) as u8 != 0,
        0x80u8 | ((s >> 12) & 0x3F) as u8 != 0,
        s == 0 ==> (s & 0x7F) as u8 == 0,
{
}

/// A value stands in two sequences put together exactly when it stands in
/// one of them.
proof fn lemma_contains_in_parts<T>(head: Seq<T>, rest: Seq<T>, x: T)
    ensures
        (head + rest).contains(x) <==> head.contains(x) || rest.contains(x),
{
    if head.contains(x) {
        let i = choose|i: int| 0 <= i < head.len() && head[i] == x;
        assert((head + rest)[i] == x);
    }
    if rest.contains(x) {
        let i = choose|i: int| 0 <= i < rest.len() && rest[i] == x;
        assert((head + rest)[head.len() + i] == x);
    }
    if (head + rest).contains(x) {
        let i = choose|i: int| 0 <= i < (head + rest).len() && (head + rest)[i] == x;
        if i < head.len() {
            assert(head[i] == x);
        } else {
            assert(rest[i - head.len()] == x);
        }
    }
}

/// A text holds the character with code zero exactly when it begins with it
/// or holds it later.
proof fn lemma_nul_first_or_later(text: Seq<char>)
    requires
        text.len() > 0,
    ensures
        has_nul(text) <==> text[0] == '\0' || has_nul(text.drop_first()),
{
    assert(text =~= seq![text[0]] + text.drop_first());
    lemma_contains_in_parts(seq![text[0]], text.drop_first(), '\0');
    if text[0] == '\0' {
        assert(seq![text[0]][0] == '\0');
    }
}

/// The UTF-8 encoding of a character holds a zero byte exactly when the
/// character is the one with code zero.
pub proof fn lemma_char_utf8_nul(c: char)
    ensures
        encode_scalar(c as u32).contains(0u8) <==> c == '\0',
{
    let s = c as u32;
    let e = encode_scalar(s);
    char_is_scalar(c);
    lemma_scalar_bytes(s);
    if c == '\0' {
        assert(e[0] == 0u8);
    } else {
        assert(s != 0);
        assert(forall|i: int| 0 <= i < e.len() ==> e[i] != 0u8);
    }
}

/// The UTF-8 encoding of a text holds a zero byte exactly when the text holds
/// the character with code zero.
pub proof fn lemma_utf8_nul(text: Seq<char>)
    ensures
        encode_utf8(text).contains(0u8) <==> has_nul(text),
    decreases text.len(),
{
    if text.len() > 0 {
        lemma_char_utf8_nul(text[0]);
        lemma_utf8_nul(text.drop_first());
        lemma_nul_first_or_later(text);
        lemma_contains_in_parts(
            encode_scalar(text[0] as u32),
            encode_utf8(text.drop_first()),
            0u8,
        );
    }
}

/// A text without the character with code zero, and units without a zero,
/// are written as proper zero-terminated strings: the zero at the end is the
/// only one.
pub proof fn law_terminator_is_the_only_zero(text: Seq<char>, units: Seq<u16>)
    requires
        !has_nul(text),
        !units.contains(0u16),
    ensures
        c_string(text).last() == 0u8,
        forall|i: int| 0 <= i < c_string(text).len() - 1 ==> c_string(text)[i] != 0u8,
        wide_c_string(units).last() == 0u16,
        forall|i: int| 0 <= i < wide_c_string(units).len() - 1 ==> wide_c_string(units)[i] != 0u16,
{
    lemma_utf8_nul(text);
    assert forall|i: int| 0 <= i < c_string(text).len() - 1 implies c_string(text)[i] != 0u8 by {
        assert(c_string(text)[i] == encode_utf8(text)[i]);
    }
    assert forall|i: int| 0 <= i < wide_c_string(units).len() - 1 implies wide_c_string(units)[i]
        != 0u16 by {
        assert(wide_c_string(units)[i] == units[i]);
    }
}

/// An error of `widestring`: a zero unit stands inside the string.
#[verifier::external_type_specification]
#[verifier::external_body]
#[verifier::reject_recursive_types(C)]
pub struct ExContainsNul<C>(widestring::error::ContainsNul<C>);

/// A sequence of units with a zero unit at its end: the sequence itself
/// where it ends with one, with one added where it does not.
pub open spec fn zero_terminated(units: Seq<u16>) -> Seq<u16> {
    if units.len() > 0 && units.last() == 0u16 {
        units
    } else {
        units.push(0u16)
    }
}

/// `widestring::U16CString::from_vec`, and `U16CString::into_vec_with_nul` on
/// the string it gives. The first refuses the units where a zero stands
/// anywhere but at the end; the second hands out the units with the
/// terminator, which is their own final zero where they have one.
#[verifier::external_body]
fn wide_units(units: Vec<u16>) -> (r: Result<Vec<u16>, widestring::error::ContainsNul<u16>>)
    ensures
        r is Ok <==> (forall|i: int| 0 <= i < units@.len() - 1 ==> units@[i] != 0u16),
        r matches Ok(terminated) ==> terminated@ == zero_terminated(units@),
{
    match widestring::U16CString::from_vec(units) {
        Ok(s) => Ok(s.into_vec_with_nul()),
        Err(e) => Err(e),
    }
}

/// Whether the text holds the character with code zero.
pub fn contains_nul(text: &str) -> (b: bool)
    ensures
        b == has_nul(text@),
{
    let bytes = text.as_bytes();
    let n: usize = bytes.len();
    let mut i: usize = 0;
    proof {
        lemma_utf8_nul(text@);
    }
    while i < n
        invariant
            i <= n,
            n == bytes@.len(),
            bytes@ == text.spec_bytes(),
            bytes@.contains(0u8) <==> has_nul(text@),
            forall|j: int| 0 <= j < i ==> bytes@[j] != 0u8,
        decreases n - i,
    {
        if bytes[i] == 0 {
            assert(bytes@.contains(0u8));
            return true;
        }
        i += 1;
    }
    false
}

/// Writes a text as a zero-terminated byte string: its UTF-8 bytes and a
/// zero byte after them. A text that holds the character with code zero
/// cannot be written so, and is refused.
pub fn to_c_string(text: &str) -> (r: Result<Vec<u8>, StormError>)
    ensures
        r is Err <==> has_nul(text@),
        r matches Err(e) ==> e == StormError::InvalidPath,
        r matches Ok(bytes) ==> bytes@ == c_string(text@),
{
    if contains_nul(text) {
        return Err(StormError::InvalidPath);
    }
    let mut out: Vec<u8> = slice_to_vec(text.as_bytes());
    out.push(0);
    Ok(out)
}

/// Whether the units hold a zero.
pub fn contains_zero(units: &[u16]) -> (b: bool)
    ensures
        b == units@.contains(0u16),
{
    let n: usize = units.len();
    let mut i: usize = 0;
    while i < n
        invariant
            i <= n,
            n == units@.len(),
            forall|j: int| 0 <= j < i ==> units@[j] != 0u16,
        decreases n - i,
    {
        if units[i] == 0 {
            assert(units@.contains(0u16));
            return true;
        }
        i += 1;
    }
    false
}

/// Writes units as a zero-terminated wide string: the units and a zero unit
/// after them. Units that hold a zero are refused, at the end as well as
/// inside, as [`to_c_string`] refuses a text.
pub fn to_wide_c_string(units: &[u16]) -> (r: Result<Vec<u16>, StormError>)
    ensures
        r is Err <==> units@.contains(0u16),
        r matches Err(e) ==> e == StormError::InvalidPath,
        r matches Ok(terminated) ==> terminated@ == wide_c_string(units@),
{
    if contains_zero(units) {
        return Err(StormError::InvalidPath);
    }
    match wide_units(slice_to_vec(units)) {
        Ok(terminated) => Ok(terminated),
        Err(_) => Err(StormError::InvalidPath),
    }
}

/// The view of a path that was written, or nothing where it was refused.
pub open spec fn written(r: Result<HostPath, StormError>) -> Option<HostPathView> {
    match r {
        Ok(path) => Some(path@),
        Err(_) => None,
    }
}

/// Writes the path of an archive as narrow text. A path that holds the
/// character with code zero is refused.
pub fn to_narrow_path(path: &str) -> (r: Result<HostPath, StormError>)
    ensures
        written(r) == narrow_path(path@),
        r matches Err(e) ==> e == StormError::InvalidPath,
{
    match to_c_string(path) {
        Ok(bytes) => Ok(HostPath::Narrow(bytes)),
        Err(e) => Err(e),
    }
}

/// Writes the path of an archive as wide text. Units that hold a zero are
/// refused.
pub fn to_wide_path(units: &[u16]) -> (r: Result<HostPath, StormError>)
    ensures
        written(r) == wide_path(units@),
        r matches Err(e) ==> e == StormError::InvalidPath,
{
    match to_wide_c_string(units) {
        Ok(terminated) => Ok(HostPath::Wide(terminated)),
        Err(e) => Err(e),
    }
}

} // verus!
