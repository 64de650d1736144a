//! The compact integer encoding: one byte for 8-bit integers, a tagged
//! variable-length form for wider ones, zig-zag for signed ones.
//!
//! The bytes are produced and read by `bincode`; this module states what they
//! are and proves that reading undoes writing.

use bincode::Options;
use vstd::bytes::*;
use vstd::prelude::*;
use crate::error::Error;

verus! {

/// The largest value that is written as a single byte.
pub const SINGLE_BYTE_MAX: u8 = 250;

/// Tag of a value that follows as two little-endian bytes.
pub const U16_TAG: u8 = 251;

/// Tag of a value that follows as four little-endian bytes.
pub const U32_TAG: u8 = 252;

/// Tag of a value that follows as eight little-endian bytes.
pub const U64_TAG: u8 = 253;

/// Tag of a value that follows as sixteen little-endian bytes.
pub const U128_TAG: u8 = 254;

/// The bytes of an unsigned integer of up to 64 bits.
pub open spec fn uvarint_bytes(v: u64) -> Seq<u8> {
    if v <= SINGLE_BYTE_MAX {
        seq![v as u8]
    } else if v <= u16::MAX {
        seq![U16_TAG] + spec_u16_to_le_bytes(v as u16)
    } else if v <= u32::MAX {
        seq![U32_TAG] + spec_u32_to_le_bytes(v as u32)
    } else {
        seq![U64_TAG] + spec_u64_to_le_bytes(v)
    }
}

/// The unsigned integer of up to 64 bits that `bytes` hold, if they hold
/// exactly one: a tag and as many bytes as the tag announces, nothing more.
pub open spec fn uvarint_value(bytes: Seq<u8>) -> Option<u64> {
    if bytes.len() == 0 {
        None
    } else {
        let tag = bytes[0];
        let rest = bytes.subrange(1, bytes.len() as int);
        if tag <= SINGLE_BYTE_MAX {
            if rest.len() == 0 {
                Some(tag as u64)
            } else {
                None
            }
        } else if tag == U16_TAG {
            if rest.len() == 2 {
                Some(spec_u16_from_le_bytes(rest) as u64)
            } else {
                None
            }
        } else if tag == U32_TAG {
            if rest.len() == 4 {
                Some(spec_u32_from_le_bytes(rest) as u64)
            } else {
                None
            }
        } else if tag == U64_TAG {
            if rest.len() == 8 {
                Some(spec_u64_from_le_bytes(rest))
            } else {
                None
            }
        } else {
            None
        }
    }
}

/// The bytes of an unsigned integer of up to 128 bits.
pub open spec fn uvarint128_bytes(v: u128) -> Seq<u8> {
    if v <= u64::MAX {
        uvarint_bytes(v as u64)
    } else {
        seq![U128_TAG] + spec_u128_to_le_bytes(v)
    }
}

/// The unsigned integer of up to 128 bits that `bytes` hold, if they hold
/// exactly one.
pub open spec fn uvarint128_value(bytes: Seq<u8>) -> Option<u128> {
    if bytes.len() == 17 && bytes[0] == U128_TAG {
        Some(spec_u128_from_le_bytes(bytes.subrange(1, 17)))
    } else {
        match uvarint_value(bytes) {
            Some(v) => Some(v as u128),
            None => None,
        }
    }
}

/// Zig-zag: maps 0, -1, 1, -2, 2, ... to 0, 1, 2, 3, 4, ...
pub open spec fn zigzag(n: int) -> int {
    if n < 0 {
        -2 * n - 1
    } else {
        2 * n
    }
}

/// The inverse of [`zigzag`].
pub open spec fn unzigzag(u: int) -> int {
    if u % 2 == 0 {
        u / 2
    } else {
        -(u / 2) - 1
    }
}

/// The bytes of a signed integer of up to 64 bits.
pub open spec fn ivarint_bytes(n: i64) -> Seq<u8> {
    uvarint_bytes(zigzag(n as int) as u64)
}

/// The signed integer of up to 64 bits that `bytes` hold, if they hold
/// exactly one.
pub open spec fn ivarint_value(bytes: Seq<u8>) -> Option<i64> {
    match uvarint_value(bytes) {
        Some(u) => Some(unzigzag(u as int) as i64),
        None => None,
    }
}

/// The bytes of a signed integer of up to 128 bits.
pub open spec fn ivarint128_bytes(n: i128) -> Seq<u8> {
    uvarint128_bytes(zigzag(n as int) as u128)
}

/// The signed integer of up to 128 bits that `bytes` hold, if they hold
/// exactly one.
pub open spec fn ivarint128_value(bytes: Seq<u8>) -> Option<i128> {
    match uvarint128_value(bytes) {
        Some(u) => Some(unzigzag(u as int) as i128),
        None => None,
    }
}

/// The byte of an 8-bit integer, signed ones in two's complement.
pub open spec fn byte_bytes(v: u8) -> Seq<u8> {
    seq![v]
}

/// The 8-bit integer that `bytes` hold, if they are exactly one byte.
pub open spec fn byte_value(bytes: Seq<u8>) -> Option<u8> {
    if bytes.len() == 1 {
        Some(bytes[0])
    } else {
        None
    }
}

/// Why `bincode` refused to write or read a value.
#[verifier::external_type_specification]
#[verifier::external_body]
pub struct ExBincodeErrorKind(bincode::ErrorKind);

/// `bincode::Options::serialize` for a `u8`, with the default options and the
/// variable-length integer encoding. The options set no size limit and the
/// bytes go to a `Vec`, so the call succeeds; a `u8` is written as itself.
#[verifier::external_body]
fn bincode_serialize_u8(value: u8) -> (r: Result<Vec<u8>, Box<bincode::ErrorKind>>)
    ensures
        r is Ok,
        r matches Ok(bytes) ==> bytes@ == byte_bytes(value),
{
    bincode::DefaultOptions::new().with_varint_encoding().serialize(&value)
}

/// `bincode::Options::deserialize` to a `u8`, with the same options: one byte
/// is read, and input that is empty or longer than that is refused.
#[verifier::external_body]
fn bincode_deserialize_u8(bytes: &[u8]) -> (r: Result<u8, Box<bincode::ErrorKind>>)
    ensures
        r is Ok <==> byte_value(bytes@) is Some,
        r matches Ok(v) ==> byte_value(bytes@) == Some(v),
{
    bincode::DefaultOptions::new().with_varint_encoding().deserialize(bytes)
}

/// `bincode::Options::serialize` for an `i8`, with the same options: the byte
/// is the integer in two's complement.
#[verifier::external_body]
fn bincode_serialize_i8(value: i8) -> (r: Result<Vec<u8>, Box<bincode::ErrorKind>>)
    ensures
        r is Ok,
        r matches Ok(bytes) ==> bytes@ == byte_bytes(value as u8),
{
    bincode::DefaultOptions::new().with_varint_encoding().serialize(&value)
}

/// `bincode::Options::deserialize` to an `i8`, with the same options.
#[verifier::external_body]
fn bincode_deserialize_i8(bytes: &[u8]) -> (r: Result<i8, Box<bincode::ErrorKind>>)
    ensures
        r is Ok <==> byte_value(bytes@) is Some,
        r matches Ok(v) ==> byte_value(bytes@) == Some(v as u8),
{
    bincode::DefaultOptions::new().with_varint_encoding().deserialize(bytes)
}

/// `bincode::Options::serialize` for a `u64`, with the same options: values up
/// to 250 are one byte, larger ones a tag and the value in the narrowest of
/// two, four or eight little-endian bytes.
#[verifier::external_body]
fn bincode_serialize_u64(value: u64) -> (r: Result<Vec<u8>, Box<bincode::ErrorKind>>)
    ensures
        r is Ok,
        r matches Ok(bytes) ==> bytes@ == uvarint_bytes(value),
{
    bincode::DefaultOptions::new().with_varint_encoding().serialize(&value)
}

/// `bincode::Options::deserialize` to a `u64`, with the same options: the tag
/// decides how many bytes follow, a tag above 253 is refused, and so is input
/// that is shorter or longer than the tag announces. A value in a wider form
/// than it needs is accepted.
#[verifier::external_body]
fn bincode_deserialize_u64(bytes: &[u8]) -> (r: Result<u64, Box<bincode::ErrorKind>>)
    ensures
        r is Ok <==> uvarint_value(bytes@) is Some,
        r matches Ok(v) ==> uvarint_value(bytes@) == Some(v),
{
    bincode::DefaultOptions::new().with_varint_encoding().deserialize(bytes)
}

/// `bincode::Options::serialize` for an `i64`, with the same options: the
/// zig-zag image of the value, written as an unsigned integer.
#[verifier::external_body]
fn bincode_serialize_i64(value: i64) -> (r: Result<Vec<u8>, Box<bincode::ErrorKind>>)
    ensures
        r is Ok,
        r matches Ok(bytes) ==> bytes@ == ivarint_bytes(value),
{
    bincode::DefaultOptions::new().with_varint_encoding().serialize(&value)
}

/// `bincode::Options::deserialize` to an `i64`, with the same options.
#[verifier::external_body]
fn bincode_deserialize_i64(bytes: &[u8]) -> (r: Result<i64, Box<bincode::ErrorKind>>)
    ensures
        r is Ok <==> ivarint_value(bytes@) is Some,
        r matches Ok(v) ==> ivarint_value(bytes@) == Some(v),
{
    bincode::DefaultOptions::new().with_varint_encoding().deserialize(bytes)
}

/// `bincode::Options::serialize` for a `u128`, with the same options: as a
/// `u64` where the value fits one, else the tag 254 and sixteen little-endian
/// bytes.
#[verifier::external_body]
fn bincode_serialize_u128(value: u128) -> (r: Result<Vec<u8>, Box<bincode::ErrorKind>>)
    ensures
        r is Ok,
        r matches Ok(bytes) ==> bytes@ == uvarint128_bytes(value),
{
    bincode::DefaultOptions::new().with_varint_encoding().serialize(&value)
}

/// `bincode::Options::deserialize` to a `u128`, with the same options: as for
/// a `u64`, and the tag 254 is accepted with sixteen bytes behind it.
#[verifier::external_body]
fn bincode_deserialize_u128(bytes: &[u8]) -> (r: Result<u128, Box<bincode::ErrorKind>>)
    ensures
        r is Ok <==> uvarint128_value(bytes@) is Some,
        r matches Ok(v) ==> uvarint128_value(bytes@) == Some(v),
{
    bincode::DefaultOptions::new().with_varint_encoding().deserialize(bytes)
}

/// `bincode::Options::serialize` for an `i128`, with the same options.
#[verifier::external_body]
fn bincode_serialize_i128(value: i128) -> (r: Result<Vec<u8>, Box<bincode::ErrorKind>>)
    ensures
        r is Ok,
        r matches Ok(bytes) ==> bytes@ == ivarint128_bytes(value),
{
    bincode::DefaultOptions::new().with_varint_encoding().serialize(&value)
}

/// `bincode::Options::deserialize` to an `i128`, with the same options.
#[verifier::external_body]
fn bincode_deserialize_i128(bytes: &[u8]) -> (r: Result<i128, Box<bincode::ErrorKind>>)
    ensures
        r is Ok <==> ivarint128_value(bytes@) is Some,
        r matches Ok(v) ==> ivarint128_value(bytes@) == Some(v),
{
    bincode::DefaultOptions::new().with_varint_encoding().deserialize(bytes)
}

/// Writes an unsigned integer of up to 64 bits.
pub fn encode_unsigned(value: u64) -> (r: Result<Vec<u8>, Error>)
    ensures
        r is Ok,
        r matches Ok(bytes) ==> bytes@ == uvarint_bytes(value),
{
    match bincode_serialize_u64(value) {
        Ok(bytes) => Ok(bytes),
        Err(_) => Err(Error::SerializationError),
    }
}

/// Reads an unsigned integer of up to 64 bits; input that does not hold
/// exactly one is a `SerializationError`.
pub fn decode_unsigned(bytes: &[u8]) -> (r: Result<u64, Error>)
    ensures
        match uvarint_value(bytes@) {
            Some(v) => r == Ok::<u64, Error>(v),
            None => r == Err::<u64, Error>(Error::SerializationError),
        },
{
    match bincode_deserialize_u64(bytes) {
        Ok(v) => Ok(v),
        Err(_) => Err(Error::SerializationError),
    }
}

/// Writes a signed integer of up to 64 bits.
pub fn encode_signed(value: i64) -> (r: Result<Vec<u8>, Error>)
    ensures
        r is Ok,
        r matches Ok(bytes) ==> bytes@ == ivarint_bytes(value),
{
    match bincode_serialize_i64(value) {
        Ok(bytes) => Ok(bytes),
        Err(_) => Err(Error::SerializationError),
    }
}

/// Reads a signed integer of up to 64 bits; input that does not hold exactly
/// one is a `SerializationError`.
pub fn decode_signed(bytes: &[u8]) -> (r: Result<i64, Error>)
    ensures
        match ivarint_value(bytes@) {
            Some(v) => r == Ok::<i64, Error>(v),
            None => r == Err::<i64, Error>(Error::SerializationError),
        },
{
    match bincode_deserialize_i64(bytes) {
        Ok(v) => Ok(v),
        Err(_) => Err(Error::SerializationError),
    }
}

/// Writes an unsigned integer of up to 128 bits.
pub fn encode_unsigned128(value: u128) -> (r: Result<Vec<u8>, Error>)
    ensures
        r is Ok,
        r matches Ok(bytes) ==> bytes@ == uvarint128_bytes(value),
{
    match bincode_serialize_u128(value) {
        Ok(bytes) => Ok(bytes),
        Err(_) => Err(Error::SerializationError),
    }
}

/// Reads an unsigned integer of up to 128 bits; input that does not hold
/// exactly one is a `SerializationError`.
pub fn decode_unsigned128(bytes: &[u8]) -> (r: Result<u128, Error>)
    ensures
        match uvarint128_value(bytes@) {
            Some(v) => r == Ok::<u128, Error>(v),
            None => r == Err::<u128, Error>(Error::SerializationError),
        },
{
    match bincode_deserialize_u128(bytes) {
        Ok(v) => Ok(v),
        Err(_) => Err(Error::SerializationError),
    }
}

/// Writes a signed integer of up to 128 bits.
pub fn encode_signed128(value: i128) -> (r: Result<Vec<u8>, Error>)
    ensures
        r is Ok,
        r matches Ok(bytes) ==> bytes@ == ivarint128_bytes(value),
{
    match bincode_serialize_i128(value) {
        Ok(bytes) => Ok(bytes),
        Err(_) => Err(Error::SerializationError),
    }
}

/// Reads a signed integer of up to 128 bits; input that does not hold exactly
/// one is a `SerializationError`.
pub fn decode_signed128(bytes: &[u8]) -> (r: Result<i128, Error>)
    ensures
        match ivarint128_value(bytes@) {
            Some(v) => r == Ok::<i128, Error>(v),
            None => r == Err::<i128, Error>(Error::SerializationError),
        },
{
    match bincode_deserialize_i128(bytes) {
        Ok(v) => Ok(v),
        Err(_) => Err(Error::SerializationError),
    }
}

/// Writes an unsigned 8-bit integer.
pub fn encode_u8(value: u8) -> (r: Result<Vec<u8>, Error>)
    ensures
        r is Ok,
        r matches Ok(bytes) ==> bytes@ == byte_bytes(value),
{
    match bincode_serialize_u8(value) {
        Ok(bytes) => Ok(bytes),
        Err(_) => Err(Error::SerializationError),
    }
}

/// Reads an unsigned 8-bit integer; input that is not exactly one byte is a
/// `SerializationError`.
pub fn decode_u8(bytes: &[u8]) -> (r: Result<u8, Error>)
    ensures
        match byte_value(bytes@) {
            Some(v) => r == Ok::<u8, Error>(v),
            None => r == Err::<u8, Error>(Error::SerializationError),
        },
{
    match bincode_deserialize_u8(bytes) {
        Ok(v) => Ok(v),
        Err(_) => Err(Error::SerializationError),
    }
}

/// Writes a signed 8-bit integer.
pub fn encode_i8(value: i8) -> (r: Result<Vec<u8>, Error>)
    ensures
        r is Ok,
        r matches Ok(bytes) ==> bytes@ == byte_bytes(value as u8),
{
    match bincode_serialize_i8(value) {
        Ok(bytes) => Ok(bytes),
        Err(_) => Err(Error::SerializationError),
    }
}

/// Reads a signed 8-bit integer; input that is not exactly one byte is a
/// `SerializationError`.
pub fn decode_i8(bytes: &[u8]) -> (r: Result<i8, Error>)
    ensures
        match byte_value(bytes@) {
            Some(v) => r == Ok::<i8, Error>(v as i8),
            None => r == Err::<i8, Error>(Error::SerializationError),
        },
{
    match bincode_deserialize_i8(bytes) {
        Ok(v) => {
            assert(v as u8 as i8 == v) by (bit_vector);
            Ok(v)
        },
        Err(_) => Err(Error::SerializationError),
    }
}

/// The unsigned integer that `bytes` hold, where it is at most `max`.
pub open spec fn unsigned_value(bytes: Seq<u8>, max: u64) -> Option<u64> {
    match uvarint_value(bytes) {
        Some(v) => if v <= max {
            Some(v)
        } else {
            None
        },
        None => None,
    }
}

/// The signed integer that `bytes` hold, where it lies between `min` and
/// `max`.
pub open spec fn signed_value(bytes: Seq<u8>, min: i64, max: i64) -> Option<i64> {
    match ivarint_value(bytes) {
        Some(v) => if min <= v <= max {
            Some(v)
        } else {
            None
        },
        None => None,
    }
}

/// Zig-zag stays within the unsigned range of the same width, and
/// [`unzigzag`] undoes it.
pub proof fn lemma_zigzag_round_trip(n: int)
    ensures
        unzigzag(zigzag(n)) == n,
        0 <= zigzag(n),
        i64::MIN <= n <= i64::MAX ==> zigzag(n) <= u64::MAX,
        i128::MIN <= n <= i128::MAX ==> zigzag(n) <= u128::MAX,
{
}

/// Reading the bytes of an unsigned integer gives the integer back.
pub proof fn lemma_uvarint_round_trip(v: u64)
    ensures
        uvarint_value(uvarint_bytes(v)) == Some(v),
{
    lemma_auto_spec_u16_to_from_le_bytes();
    lemma_auto_spec_u32_to_from_le_bytes();
    lemma_auto_spec_u64_to_from_le_bytes();
    let bytes = uvarint_bytes(v);
    let rest = bytes.subrange(1, bytes.len() as int);
    if v <= SINGLE_BYTE_MAX {
    } else if v <= u16::MAX {
        assert(rest =~= spec_u16_to_le_bytes(v as u16));
    } else if v <= u32::MAX {
        assert(rest =~= spec_u32_to_le_bytes(v as u32));
    } else {
        assert(rest =~= spec_u64_to_le_bytes(v));
    }
}

/// Reading the bytes of an unsigned 128-bit integer gives the integer back.
pub proof fn lemma_uvarint128_round_trip(v: u128)
    ensures
        uvarint128_value(uvarint128_bytes(v)) == Some(v),
{
    lemma_auto_spec_u128_to_from_le_bytes();
    if v <= u64::MAX {
        lemma_uvarint_round_trip(v as u64);
        lemma_auto_spec_u16_to_from_le_bytes();
        lemma_auto_spec_u32_to_from_le_bytes();
        lemma_auto_spec_u64_to_from_le_bytes();
    } else {
        let bytes = uvarint128_bytes(v);
        assert(bytes.subrange(1, 17) =~= spec_u128_to_le_bytes(v));
    }
}

/// Reading the bytes of a signed integer gives the integer back.
pub proof fn lemma_ivarint_round_trip(n: i64)
    ensures
        ivarint_value(ivarint_bytes(n)) == Some(n),
{
    lemma_zigzag_round_trip(n as int);
    lemma_uvarint_round_trip(zigzag(n as int) as u64);
}

/// Reading the bytes of a signed 128-bit integer gives the integer back.
pub proof fn lemma_ivarint128_round_trip(n: i128)
    ensures
        ivarint128_value(ivarint128_bytes(n)) == Some(n),
{
    lemma_zigzag_round_trip(n as int);
    lemma_uvarint128_round_trip(zigzag(n as int) as u128);
}

/// Reading the byte of an 8-bit integer gives the integer back.
pub proof fn lemma_byte_round_trip(v: u8)
    ensures
        byte_value(byte_bytes(v)) == Some(v),
{
}

/// Reading the bytes of an unsigned integer into a type that holds it gives
/// the integer back.
pub proof fn lemma_unsigned_round_trip(v: u64, max: u64)
    requires
        v <= max,
    ensures
        unsigned_value(uvarint_bytes(v), max) == Some(v),
{
    lemma_uvarint_round_trip(v);
}

/// Reading the bytes of a signed integer into a type that holds it gives the
/// integer back.
pub proof fn lemma_signed_round_trip(n: i64, min: i64, max: i64)
    requires
        min <= n <= max,
    ensures
        signed_value(ivarint_bytes(n), min, max) == Some(n),
{
    lemma_ivarint_round_trip(n);
}

} // verus!
