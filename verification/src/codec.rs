//! How a record's fields become bytes and come back: text as UTF-8, numbers
//! as eight little-endian bytes, flags as one byte, and the contract that each
//! kind of record keeps.

use core::str::Utf8Error;
use vstd::bytes::*;
use vstd::prelude::*;
use vstd::utf8::*;

verus! {

/// No record may take more bytes than this once encoded.
pub const MAX_ENCODED_SIZE: usize = 512;

/// The error of `core::str::from_utf8`, carried through and never looked into.
#[verifier::external_type_specification]
#[verifier::external_body]
pub struct ExUtf8Error(Utf8Error);

/// `core::str::from_utf8` accepts exactly the byte strings that are valid
/// UTF-8, and the string it returns holds the characters they encode.
pub assume_specification<'a>[ core::str::from_utf8 ](v: &'a [u8]) -> (r: Result<&'a str, Utf8Error>)
    ensures
        r is Ok == valid_utf8(v@),
        r matches Ok(s) ==> s@ == decode_utf8(v@),
;

/// The bytes of a text field.
pub open spec fn text_field(s: Seq<char>) -> Seq<u8> {
    encode_utf8(s)
}

/// The text that a field holds, if its bytes are valid UTF-8.
pub open spec fn text_of(field: Seq<u8>) -> Option<Seq<char>> {
    if valid_utf8(field) {
        Some(decode_utf8(field))
    } else {
        None
    }
}

/// The bytes of a number field.
pub open spec fn number_field(n: u64) -> Seq<u8> {
    spec_u64_to_le_bytes(n)
}

/// The number that a field holds, if it is eight bytes long.
pub open spec fn number_of(field: Seq<u8>) -> Option<u64> {
    if field.len() == 8 {
        Some(spec_u64_from_le_bytes(field))
    } else {
        None
    }
}

/// The bytes of a flag field.
pub open spec fn flag_field(b: bool) -> Seq<u8> {
    seq![if b { 1u8 } else { 0u8 }]
}

/// The flag that a field holds, if it is the single byte 0 or 1.
pub open spec fn flag_of(field: Seq<u8>) -> Option<bool> {
    if field.len() == 1 && field[0] <= 1 {
        Some(field[0] == 1)
    } else {
        None
    }
}

/// Each kind of field reads back what was written.
pub proof fn lemma_fields_read_back(s: Seq<char>, n: u64, b: bool)
    ensures
        text_of(text_field(s)) == Some(s),
        number_of(number_field(n)) == Some(n),
        flag_of(flag_field(b)) == Some(b),
{
    encode_utf8_valid_utf8(s);
    encode_utf8_decode_utf8(s);
    lemma_auto_spec_u64_to_from_le_bytes();
}

/// A kind of record that the tables can hold: it has a mathematical view, a
/// byte encoding of that view, and a decoding that undoes the encoding.
pub trait Entity: View + Sized {
    /// The bytes that stand for `v` in a table.
    spec fn encoding(v: Self::V) -> Seq<u8>;

    /// The record that `bytes` stand for, if they stand for one of this kind.
    spec fn decoding(bytes: Seq<u8>) -> Option<Self::V>;

    /// Decoding undoes encoding.
    proof fn lemma_round_trip(v: Self::V)
        requires
            Self::encoding(v).len() <= u64::MAX,
        ensures
            Self::decoding(Self::encoding(v)) == Some(v),
    ;

    /// Encodes the record; the bytes decode to the same record.
    fn encode(&self) -> (bytes: Vec<u8>)
        ensures
            bytes@ == Self::encoding(self@),
            Self::decoding(bytes@) == Some(self@),
    ;

    /// Decodes a record: `Some` exactly when `bytes` stand for one of this kind.
    fn decode(bytes: &[u8]) -> (r: Option<Self>)
        ensures
            match r {
                Some(e) => Self::decoding(bytes@) == Some(e@),
                None => Self::decoding(bytes@) is None,
            },
    ;

    /// Reads a stored record back. Bytes that stand for no record of this
    /// kind, the empty buffer among them, are no input of this function:
    /// nothing could be returned for them but a made-up record.
    fn from_bytes(bytes: &[u8]) -> (record: Self)
        requires
            Self::decoding(bytes@) is Some,
        ensures
            Self::decoding(bytes@) == Some(record@),
    {
        Self::decode(bytes).unwrap()
    }
}

/// Whether an encoded record of `len` bytes may be stored.
pub open spec fn storable(len: nat) -> bool {
    len <= MAX_ENCODED_SIZE
}

/// Whether `record` may be stored: whether its encoding is within the bound.
pub fn is_storable<E: Entity>(record: &E) -> (ok: bool)
    ensures
        ok == storable(E::encoding(record@).len()),
{
    record.encode().len() <= MAX_ENCODED_SIZE
}

/// The text held by the last field of `fields`, which is taken off.
pub fn take_text(fields: &mut Vec<Vec<u8>>) -> (r: Option<String>)
    requires
        old(fields)@.len() > 0,
    ensures
        final(fields)@ == old(fields)@.drop_last(),
        match r {
            Some(s) => text_of(old(fields)@.last()@) == Some(s@),
            None => text_of(old(fields)@.last()@) is None,
        },
{
    let field = fields.pop().unwrap();
    match core::str::from_utf8(field.as_slice()) {
        Ok(s) => Some(s.to_owned()),
        Err(_) => None,
    }
}

/// The number held by the last field of `fields`, which is taken off.
pub fn take_number(fields: &mut Vec<Vec<u8>>) -> (r: Option<u64>)
    requires
        old(fields)@.len() > 0,
    ensures
        final(fields)@ == old(fields)@.drop_last(),
        r == number_of(old(fields)@.last()@),
{
    let field = fields.pop().unwrap();
    if field.len() == 8 {
        Some(u64_from_le_bytes(field.as_slice()))
    } else {
        None
    }
}

/// The flag held by the last field of `fields`, which is taken off.
pub fn take_flag(fields: &mut Vec<Vec<u8>>) -> (r: Option<bool>)
    requires
        old(fields)@.len() > 0,
    ensures
        final(fields)@ == old(fields)@.drop_last(),
        r == flag_of(old(fields)@.last()@),
{
    let field = fields.pop().unwrap();
    if field.len() == 1 && field[0] <= 1 {
        Some(field[0] == 1)
    } else {
        None
    }
}

} // verus!
