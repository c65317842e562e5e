//! Text assembly on character vectors.
//!
//! Generated code is built as `Vec<char>`, whose view is a `Seq<char>`; a
//! `String` is produced or consumed only at the library's boundary, through
//! the two conversion wrappers below.

use vstd::prelude::*;

use crate::error::DecompileError;

verus! {

/// Relies on `String::from_iter` over `char`: the string holds exactly the
/// characters of the vector, in order.
#[verifier::external_body]
pub fn string_from_chars(v: Vec<char>) -> (r: String)
    ensures
        r@ == v@,
{
    v.into_iter().collect()
}

/// Relies on `str::chars`: the iterator yields exactly the characters of the
/// string, in order.
#[verifier::external_body]
pub fn chars_from_str(s: &str) -> (r: Vec<char>)
    ensures
        r@ == s@,
{
    s.chars().collect()
}

/// Relies on `String::from_utf8`: it succeeds exactly on valid UTF-8 and
/// decodes the bytes to their scalar values (stated with vstd's UTF-8 model).
#[verifier::external_body]
pub fn string_from_utf8_bytes(bytes: Vec<u8>) -> (r: Result<String, DecompileError>)
    ensures
        match r {
            Ok(s) => vstd::utf8::valid_utf8(bytes@) && s@ == vstd::utf8::decode_utf8(bytes@),
            Err(e) => !vstd::utf8::valid_utf8(bytes@) && e == DecompileError::InvalidUtf8,
        },
{
    match String::from_utf8(bytes) {
        Ok(s) => Ok(s),
        Err(_) => Err(DecompileError::InvalidUtf8),
    }
}

/// Appends the characters of `s` to `out`.
pub fn push_str_chars(out: &mut Vec<char>, s: &str)
    ensures
        final(out)@ == old(out)@ + s@,
{
    let mut extra = chars_from_str(s);
    out.append(&mut extra);
}

/// Appends a copy of the characters of `v` to `out`.
pub fn push_chars(out: &mut Vec<char>, v: &Vec<char>)
    ensures
        final(out)@ == old(out)@ + v@,
{
    out.extend_from_slice(v.as_slice());
}

} // verus!
