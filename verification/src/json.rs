//! JSON text, read and written through `serde_json`.
//!
//! Everything in this module that touches `serde_json` is trusted: Verus takes
//! the contracts below as given.

use vstd::prelude::*;

verus! {

/// The error type of `serde_json`. Nothing is known of a value of it.
#[verifier::external_type_specification]
#[verifier::external_body]
pub struct ExJsonError(serde_json::Error);

/// The string that a JSON text holds, as `serde_json` reads it: `Some(s)` when
/// the bytes are a single JSON string literal, with nothing but whitespace
/// around it, that stands for `s`; `None` for any other bytes.
pub uninterp spec fn json_string(bytes: Seq<u8>) -> Option<Seq<char>>;

/// Calls `serde_json::from_slice` at type `String`.
///
/// Trusted: the call reads nothing but `bytes`, so its outcome is
/// [`json_string`] of them, and it fails on empty input, where it finds the
/// end of the text in place of a value.
#[verifier::external_body]
pub(crate) fn parse_json_string(bytes: &[u8]) -> (res: Result<String, serde_json::Error>)
    ensures
        match res {
            Ok(s) => json_string(bytes@) == Some(s@),
            Err(_) => json_string(bytes@) is None,
        },
        bytes@.len() == 0 ==> res is Err,
{
    serde_json::from_slice::<String>(bytes)
}

/// The decimal digits of `n` in ASCII, most significant first, without
/// leading zeros.
pub open spec fn decimal_digits(n: nat) -> Seq<u8>
    decreases n,
{
    if n < 10 {
        seq![(0x30 + n) as u8]
    } else {
        decimal_digits(n / 10).push((0x30 + n % 10) as u8)
    }
}

/// The JSON text of the integer `v`: a minus sign if it is negative, then
/// the decimal digits of its absolute value.
pub open spec fn json_integer(v: int) -> Seq<u8> {
    if v < 0 {
        seq![0x2du8] + decimal_digits((-v) as nat)
    } else {
        decimal_digits(v as nat)
    }
}

/// Calls `serde_json::to_vec` at type `i32`.
///
/// Trusted: for an `i32` the call writes [`json_integer`] of it into a fresh
/// vector, which cannot fail.
#[verifier::external_body]
pub(crate) fn write_json_integer(value: i32) -> (res: Result<Vec<u8>, serde_json::Error>)
    ensures
        res is Ok,
        res->Ok_0@ == json_integer(value as int),
{
    serde_json::to_vec(&value)
}

} // verus!
