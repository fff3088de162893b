//! Byte arrays in the layout that the C side reads.

use ffi_convert::{AsRust, AsRustError, CArray, CReprOf, CReprOfError};
use vstd::prelude::*;
use vstd::utf8::{decode_utf8, encode_utf8, encode_utf8_decode_utf8, encode_utf8_valid_utf8, valid_utf8};

verus! {

/// A C array: a pointer to its first element and the number of its elements, which it owns.
#[verifier::external_type_specification]
#[verifier::external_body]
#[verifier::reject_recursive_types(T)]
pub struct ExCArray<T>(CArray<T>);

/// Why a value has no C representation.
#[verifier::external_type_specification]
#[verifier::external_body]
pub struct ExCReprOfError(CReprOfError);

/// Why a C value has no Rust counterpart.
#[verifier::external_type_specification]
#[verifier::external_body]
pub struct ExAsRustError(AsRustError);

/// The bytes that a C array holds.
pub uninterp spec fn array_bytes(array: CArray<u8>) -> Seq<u8>;

/// The byte strings that a C array of C arrays holds.
pub uninterp spec fn array_rows(array: CArray<CArray<u8>>) -> Seq<Seq<u8>>;

/// Calls `CArray::c_repr_of` on a vector of bytes. The conversion of a primitive element type
/// cannot fail; the array holds the bytes of the vector.
#[verifier::external_body]
fn c_repr_of_bytes(bytes: Vec<u8>) -> (r: Result<CArray<u8>, CReprOfError>)
    ensures
        r is Ok,
        array_bytes(r->Ok_0) == bytes@,
{
    CArray::c_repr_of(bytes)
}

/// Calls `CArray::c_repr_of` on a vector of byte vectors. Each row is converted as
/// [`c_repr_of_bytes`] converts it, in order, so the whole cannot fail either.
#[verifier::external_body]
pub(crate) fn c_repr_of_rows(rows: Vec<Vec<u8>>) -> (r: Result<CArray<CArray<u8>>, CReprOfError>)
    ensures
        r is Ok,
        array_rows(r->Ok_0) == rows@.map_values(|row: Vec<u8>| row@),
{
    CArray::c_repr_of(rows)
}

/// Calls `CArray::as_rust` on an array of bytes, which copies the elements out. A primitive
/// element type makes the copy infallible.
#[verifier::external_body]
fn bytes_as_rust(array: &CArray<u8>) -> (r: Result<Vec<u8>, AsRustError>)
    ensures
        r is Ok,
        r->Ok_0@ == array_bytes(*array),
{
    array.as_rust()
}

/// Packs an error message as the UTF-8 bytes that the C side reads through an error slot.
pub fn hs_error_message(message: &str) -> (array: CArray<u8>)
    ensures
        array_bytes(array) == encode_utf8(message@),
        valid_utf8(array_bytes(array)),
        decode_utf8(array_bytes(array)) == message@,
{
    proof {
        encode_utf8_valid_utf8(message@);
        encode_utf8_decode_utf8(message@);
    }
    c_repr_of_bytes(message.as_bytes_vec()).unwrap()
}

/// Copies the bytes out of an array that the C side keeps.
pub fn copied_bytes(array: &CArray<u8>) -> (bytes: Vec<u8>)
    ensures
        bytes@ == array_bytes(*array),
{
    bytes_as_rust(array).unwrap()
}

} // verus!
