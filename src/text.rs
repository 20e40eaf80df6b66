//! Fixed-capacity strings of the `heapless` crate, as used for command text
//! and terminal lines.
use vstd::prelude::*;

use vstd::string::StringSliceAdditionalSpecFns;

verus! {

#[verifier::external_type_specification]
#[verifier::external_body]
pub struct ExHeaplessString<const N: usize>(heapless::String<N>);

/// The bytes held by a 64-byte heapless string.
pub uninterp spec fn text64_bytes(s: heapless::String<64>) -> Seq<u8>;

/// The bytes held by a 512-byte heapless string.
pub uninterp spec fn text512_bytes(s: heapless::String<512>) -> Seq<u8>;

/// Relies on heapless::String::new: the new string holds no bytes.
#[verifier::external_body]
pub(crate) fn text64_new() -> (r: heapless::String<64>)
    ensures
        text64_bytes(r) == Seq::<u8>::empty(),
{
    heapless::String::new()
}

/// Relies on heapless::String::push_str, which appends the bytes of `t` when
/// they fit in the capacity and otherwise changes nothing and fails.
#[verifier::external_body]
pub(crate) fn text64_push_str(s: &mut heapless::String<64>, t: &str) -> (r: Result<(), ()>)
    ensures
        text64_bytes(*old(s)).len() + t.spec_bytes().len() <= 64 ==> r is Ok && text64_bytes(
            *final(s),
        ) == text64_bytes(*old(s)) + t.spec_bytes(),
        text64_bytes(*old(s)).len() + t.spec_bytes().len() > 64 ==> r is Err && text64_bytes(
            *final(s),
        ) == text64_bytes(*old(s)),
{
    s.push_str(t)
}

/// Relies on heapless::String::new: the new string holds no bytes.
#[verifier::external_body]
pub(crate) fn text512_new() -> (r: heapless::String<512>)
    ensures
        text512_bytes(r) == Seq::<u8>::empty(),
{
    heapless::String::new()
}

/// Relies on heapless::String::push_str, which appends the bytes of `t` when
/// they fit in the capacity and otherwise changes nothing and fails.
#[verifier::external_body]
pub(crate) fn text512_push_str(s: &mut heapless::String<512>, t: &str) -> (r: Result<(), ()>)
    ensures
        text512_bytes(*old(s)).len() + t.spec_bytes().len() <= 512 ==> r is Ok && text512_bytes(
            *final(s),
        ) == text512_bytes(*old(s)) + t.spec_bytes(),
        text512_bytes(*old(s)).len() + t.spec_bytes().len() > 512 ==> r is Err
            && text512_bytes(*final(s)) == text512_bytes(*old(s)),
{
    s.push_str(t)
}

/// Relies on heapless::String::as_str: a view of the held bytes.
#[verifier::external_body]
pub(crate) fn text512_as_str(s: &heapless::String<512>) -> (r: &str)
    ensures
        r.spec_bytes() == text512_bytes(*s),
{
    s.as_str()
}

/// The characters of a string with leading and trailing white space (the
/// Unicode White_Space property) removed.
pub uninterp spec fn trimmed(s: Seq<char>) -> Seq<char>;

/// Relies on core::str::from_utf8: it accepts exactly the valid UTF-8 byte
/// sequences, and the string it returns is made of those bytes.
#[verifier::external_body]
pub(crate) fn utf8_str(b: &[u8]) -> (r: Option<&str>)
    ensures
        r is Some <==> vstd::utf8::valid_utf8(b@),
        r matches Some(s) ==> s.spec_bytes() == b@,
{
    core::str::from_utf8(b).ok()
}

/// Relies on str::trim: the string without leading and trailing white space.
#[verifier::external_body]
pub(crate) fn trim_str(s: &str) -> (r: &str)
    ensures
        r@ == trimmed(s@),
{
    s.trim()
}

} // verus!
