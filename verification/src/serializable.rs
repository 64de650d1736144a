//! Values that can be stored: each type names its format, its schema id and
//! schema version, and what older schemas it can be read from.

use serde_bytes::ByteBuf;
use vstd::prelude::*;
use vstd::slice::slice_to_vec;
use vstd::string::*;
use vstd::utf8::*;
use crate::error::Error;
use crate::varint::{
    byte_bytes, byte_value, decode_i8, decode_signed, decode_signed128, decode_u8, decode_unsigned,
    decode_unsigned128, encode_i8, encode_signed, encode_signed128, encode_u8, encode_unsigned,
    encode_unsigned128, ivarint128_bytes, ivarint128_value, ivarint_bytes, ivarint_value,
    signed_value, unsigned_value, uvarint128_bytes, uvarint128_value, uvarint_bytes, uvarint_value,
};

verus! {

/// A format that turns values of `T` into bytes and back.
pub trait SerializationFormat<T> {
    /// The bytes of `val`.
    fn serialize(val: &T) -> (r: Result<Vec<u8>, Error>);

    /// The value that `val` holds.
    fn deserialize(val: &[u8]) -> (r: Result<T, Error>);
}

/// The compact format that does not describe itself: integers in the
/// variable-length encoding, 8-bit ones as one byte.
pub struct BincodeFormat;

/// The format of byte buffers and text: the bytes themselves.
pub struct DirectFormats;

/// A type whose values can be stored.
pub trait DbSerializable: Sized {
    /// The format of the current schema.
    type Format: SerializationFormat<Self>;

    /// Tells apart types that replace one another entirely.
    const ID: &'static str = "default";

    /// The version of the current schema.
    const SCHEMA_VERSION: u32;

    /// Whether a value stored under another id or version can be read.
    fn can_migrate_from(from_id: &str, from_version: u32) -> (supported: bool)
        ensures
            supported ==> Self::migrates_from(from_id, from_version),
    {
        false
    }

    /// Reads a value stored under another id or version.
    fn do_migration(from_id: &str, from_version: u32, data: &[u8]) -> (r: Result<Self, Error>)
        ensures
            !Self::migrates_from(from_id, from_version) ==> r == Err::<Self, Error>(
                Error::MigrationUnsupported,
            ),
    {
        Err(Error::MigrationUnsupported)
    }

    /// The schemas, besides the current one, that the type declares its
    /// values can be read from: none, unless the type says otherwise.
    /// `can_migrate_from` accepts only a declared schema, and under any
    /// other `do_migration` is `MigrationUnsupported`: a type that declares
    /// none refuses every schema and migrates nothing.
    open spec fn migrates_from(from_id: &str, from_version: u32) -> bool {
        false
    }
}

/// The contents of a `ByteBuf`.
pub uninterp spec fn byte_buf_bytes(buf: ByteBuf) -> Seq<u8>;

/// A growable byte buffer of `serde_bytes`.
#[verifier::external_type_specification]
#[verifier::external_body]
pub struct ExByteBuf(ByteBuf);

/// `ByteBuf` dereferences to the `Vec` it wraps; this copies that `Vec`.
#[verifier::external_body]
fn byte_buf_to_vec(buf: &ByteBuf) -> (bytes: Vec<u8>)
    ensures
        bytes@ == byte_buf_bytes(*buf),
{
    buf.to_vec()
}

/// `ByteBuf::from` wraps the `Vec` it is given.
#[verifier::external_body]
fn byte_buf_from_vec(bytes: Vec<u8>) -> (buf: ByteBuf)
    ensures
        byte_buf_bytes(buf) == bytes@,
{
    ByteBuf::from(bytes)
}

/// Why bytes are not text: they are not valid UTF-8.
#[verifier::external_type_specification]
#[verifier::external_body]
pub struct ExFromUtf8Error(std::string::FromUtf8Error);

/// `String::from_utf8`: the text that the bytes spell, where they are valid
/// UTF-8, and a failure where they are not.
#[verifier::external_body]
fn string_from_utf8(bytes: Vec<u8>) -> (text: Result<String, std::string::FromUtf8Error>)
    ensures
        text is Ok <==> valid_utf8(bytes@),
        text matches Ok(s) ==> s@ == decode_utf8(bytes@),
{
    String::from_utf8(bytes)
}

impl SerializationFormat<Vec<u8>> for DirectFormats {
    fn serialize(val: &Vec<u8>) -> (r: Result<Vec<u8>, Error>)
        ensures
            r is Ok,
            r matches Ok(bytes) ==> bytes@ == val@,
    {
        Ok(slice_to_vec(val.as_slice()))
    }

    fn deserialize(val: &[u8]) -> (r: Result<Vec<u8>, Error>)
        ensures
            match r {
                Ok(v) => {
                    let v: Vec<u8> = v;
                    v@ == val@
                },
                Err(_) => false,
            },
    {
        Ok(slice_to_vec(val))
    }
}

impl SerializationFormat<ByteBuf> for DirectFormats {
    fn serialize(val: &ByteBuf) -> (r: Result<Vec<u8>, Error>)
        ensures
            r is Ok,
            r matches Ok(bytes) ==> bytes@ == byte_buf_bytes(*val),
    {
        Ok(byte_buf_to_vec(val))
    }

    fn deserialize(val: &[u8]) -> (r: Result<ByteBuf, Error>)
        ensures
            match r {
                Ok(buf) => byte_buf_bytes(buf) == val@,
                Err(_) => false,
            },
    {
        Ok(byte_buf_from_vec(slice_to_vec(val)))
    }
}

impl SerializationFormat<String> for DirectFormats {
    fn serialize(val: &String) -> (r: Result<Vec<u8>, Error>)
        ensures
            r is Ok,
            r matches Ok(bytes) ==> bytes@ == encode_utf8(val@),
    {
        Ok(val.as_str().as_bytes_vec())
    }

    fn deserialize(val: &[u8]) -> (r: Result<String, Error>)
        ensures
            match r {
                Ok(s) => {
                    let s: String = s;
                    valid_utf8(val@) && s@ == decode_utf8(val@)
                },
                Err(e) => !valid_utf8(val@) && e == Error::SerializationError,
            },
    {
        match string_from_utf8(slice_to_vec(val)) {
            Ok(s) => Ok(s),
            Err(_) => Err(Error::SerializationError),
        }
    }
}

impl SerializationFormat<u8> for BincodeFormat {
    fn serialize(val: &u8) -> (r: Result<Vec<u8>, Error>)
        ensures
            r is Ok,
            r matches Ok(bytes) ==> bytes@ == byte_bytes(*val),
    {
        encode_u8(*val)
    }

    fn deserialize(val: &[u8]) -> (r: Result<u8, Error>)
        ensures
            match r {
                Ok(x) => {
                    let x: u8 = x;
                    byte_value(val@) matches Some(v) && x == v
                },
                Err(e) => byte_value(val@) is None && e == Error::SerializationError,
            },
    {
        decode_u8(val)
    }
}

impl SerializationFormat<i8> for BincodeFormat {
    fn serialize(val: &i8) -> (r: Result<Vec<u8>, Error>)
        ensures
            r is Ok,
            r matches Ok(bytes) ==> bytes@ == byte_bytes(*val as u8),
    {
        encode_i8(*val)
    }

    fn deserialize(val: &[u8]) -> (r: Result<i8, Error>)
        ensures
            match r {
                Ok(x) => {
                    let x: i8 = x;
                    byte_value(val@) matches Some(v) && x == v as i8
                },
                Err(e) => byte_value(val@) is None && e == Error::SerializationError,
            },
    {
        decode_i8(val)
    }
}

impl SerializationFormat<u16> for BincodeFormat {
    fn serialize(val: &u16) -> (r: Result<Vec<u8>, Error>)
        ensures
            r is Ok,
            r matches Ok(bytes) ==> bytes@ == uvarint_bytes(*val as u64),
    {
        encode_unsigned(*val as u64)
    }

    fn deserialize(val: &[u8]) -> (r: Result<u16, Error>)
        ensures
            match r {
                Ok(x) => {
                    let x: u16 = x;
                    unsigned_value(val@, u16::MAX as u64) matches Some(v) && x == v as u16
                },
                Err(e) => unsigned_value(val@, u16::MAX as u64) is None && e == Error::SerializationError,
            },
    {
        match decode_unsigned(val) {
            Ok(v) => if v <= u16::MAX as u64 {
                Ok(v as u16)
            } else {
                Err(Error::SerializationError)
            },
            Err(e) => Err(e),
        }
    }
}

impl SerializationFormat<u32> for BincodeFormat {
    fn serialize(val: &u32) -> (r: Result<Vec<u8>, Error>)
        ensures
            r is Ok,
            r matches Ok(bytes) ==> bytes@ == uvarint_bytes(*val as u64),
    {
        encode_unsigned(*val as u64)
    }

    fn deserialize(val: &[u8]) -> (r: Result<u32, Error>)
        ensures
            match r {
                Ok(x) => {
                    let x: u32 = x;
                    unsigned_value(val@, u32::MAX as u64) matches Some(v) && x == v as u32
                },
                Err(e) => unsigned_value(val@, u32::MAX as u64) is None && e == Error::SerializationError,
            },
    {
        match decode_unsigned(val) {
            Ok(v) => if v <= u32::MAX as u64 {
                Ok(v as u32)
            } else {
                Err(Error::SerializationError)
            },
            Err(e) => Err(e),
        }
    }
}

impl SerializationFormat<u64> for BincodeFormat {
    fn serialize(val: &u64) -> (r: Result<Vec<u8>, Error>)
        ensures
            r is Ok,
            r matches Ok(bytes) ==> bytes@ == uvarint_bytes(*val),
    {
        encode_unsigned(*val)
    }

    fn deserialize(val: &[u8]) -> (r: Result<u64, Error>)
        ensures
            match r {
                Ok(x) => {
                    let x: u64 = x;
                    uvarint_value(val@) matches Some(v) && x == v
                },
                Err(e) => uvarint_value(val@) is None && e == Error::SerializationError,
            },
    {
        decode_unsigned(val)
    }
}

impl SerializationFormat<u128> for BincodeFormat {
    fn serialize(val: &u128) -> (r: Result<Vec<u8>, Error>)
        ensures
            r is Ok,
            r matches Ok(bytes) ==> bytes@ == uvarint128_bytes(*val),
    {
        encode_unsigned128(*val)
    }

    fn deserialize(val: &[u8]) -> (r: Result<u128, Error>)
        ensures
            match r {
                Ok(x) => {
                    let x: u128 = x;
                    uvarint128_value(val@) matches Some(v) && x == v
                },
                Err(e) => uvarint128_value(val@) is None && e == Error::SerializationError,
            },
    {
        decode_unsigned128(val)
    }
}

impl SerializationFormat<usize> for BincodeFormat {
    fn serialize(val: &usize) -> (r: Result<Vec<u8>, Error>)
        ensures
            r is Ok,
            r matches Ok(bytes) ==> bytes@ == uvarint_bytes(*val as u64),
    {
        encode_unsigned(*val as u64)
    }

    fn deserialize(val: &[u8]) -> (r: Result<usize, Error>)
        ensures
            match r {
                Ok(x) => {
                    let x: usize = x;
                    unsigned_value(val@, usize::MAX as u64) matches Some(v) && x == v as usize
                },
                Err(e) => unsigned_value(val@, usize::MAX as u64) is None && e == Error::SerializationError,
            },
    {
        match decode_unsigned(val) {
            Ok(v) => if v <= usize::MAX as u64 {
                Ok(v as usize)
            } else {
                Err(Error::SerializationError)
            },
            Err(e) => Err(e),
        }
    }
}

impl SerializationFormat<i16> for BincodeFormat {
    fn serialize(val: &i16) -> (r: Result<Vec<u8>, Error>)
        ensures
            r is Ok,
            r matches Ok(bytes) ==> bytes@ == ivarint_bytes(*val as i64),
    {
        encode_signed(*val as i64)
    }

    fn deserialize(val: &[u8]) -> (r: Result<i16, Error>)
        ensures
            match r {
                Ok(x) => {
                    let x: i16 = x;
                    signed_value(val@, i16::MIN as i64, i16::MAX as i64) matches Some(v) && x == v as i16
                },
                Err(e) => signed_value(val@, i16::MIN as i64, i16::MAX as i64) is None && e == Error::SerializationError,
            },
    {
        match decode_signed(val) {
            Ok(v) => if i16::MIN as i64 <= v && v <= i16::MAX as i64 {
                Ok(v as i16)
            } else {
                Err(Error::SerializationError)
            },
            Err(e) => Err(e),
        }
    }
}

impl SerializationFormat<i32> for BincodeFormat {
    fn serialize(val: &i32) -> (r: Result<Vec<u8>, Error>)
        ensures
            r is Ok,
            r matches Ok(bytes) ==> bytes@ == ivarint_bytes(*val as i64),
    {
        encode_signed(*val as i64)
    }

    fn deserialize(val: &[u8]) -> (r: Result<i32, Error>)
        ensures
            match r {
                Ok(x) => {
                    let x: i32 = x;
                    signed_value(val@, i32::MIN as i64, i32::MAX as i64) matches Some(v) && x == v as i32
                },
                Err(e) => signed_value(val@, i32::MIN as i64, i32::MAX as i64) is None && e == Error::SerializationError,
            },
    {
        match decode_signed(val) {
            Ok(v) => if i32::MIN as i64 <= v && v <= i32::MAX as i64 {
                Ok(v as i32)
            } else {
                Err(Error::SerializationError)
            },
            Err(e) => Err(e),
        }
    }
}

impl SerializationFormat<i64> for BincodeFormat {
    fn serialize(val: &i64) -> (r: Result<Vec<u8>, Error>)
        ensures
            r is Ok,
            r matches Ok(bytes) ==> bytes@ == ivarint_bytes(*val),
    {
        encode_signed(*val)
    }

    fn deserialize(val: &[u8]) -> (r: Result<i64, Error>)
        ensures
            match r {
                Ok(x) => {
                    let x: i64 = x;
                    ivarint_value(val@) matches Some(v) && x == v
                },
                Err(e) => ivarint_value(val@) is None && e == Error::SerializationError,
            },
    {
        decode_signed(val)
    }
}

impl SerializationFormat<i128> for BincodeFormat {
    fn serialize(val: &i128) -> (r: Result<Vec<u8>, Error>)
        ensures
            r is Ok,
            r matches Ok(bytes) ==> bytes@ == ivarint128_bytes(*val),
    {
        encode_signed128(*val)
    }

    fn deserialize(val: &[u8]) -> (r: Result<i128, Error>)
        ensures
            match r {
                Ok(x) => {
                    let x: i128 = x;
                    ivarint128_value(val@) matches Some(v) && x == v
                },
                Err(e) => ivarint128_value(val@) is None && e == Error::SerializationError,
            },
    {
        decode_signed128(val)
    }
}

impl SerializationFormat<isize> for BincodeFormat {
    fn serialize(val: &isize) -> (r: Result<Vec<u8>, Error>)
        ensures
            r is Ok,
            r matches Ok(bytes) ==> bytes@ == ivarint_bytes(*val as i64),
    {
        encode_signed(*val as i64)
    }

    fn deserialize(val: &[u8]) -> (r: Result<isize, Error>)
        ensures
            match r {
                Ok(x) => {
                    let x: isize = x;
                    signed_value(val@, isize::MIN as i64, isize::MAX as i64) matches Some(v) && x == v as isize
                },
                Err(e) => signed_value(val@, isize::MIN as i64, isize::MAX as i64) is None && e == Error::SerializationError,
            },
    {
        match decode_signed(val) {
            Ok(v) => if isize::MIN as i64 <= v && v <= isize::MAX as i64 {
                Ok(v as isize)
            } else {
                Err(Error::SerializationError)
            },
            Err(e) => Err(e),
        }
    }
}

impl DbSerializable for String {
    type Format = DirectFormats;

    const ID: &'static str = "std::string::String";

    const SCHEMA_VERSION: u32 = 0;

    fn can_migrate_from(from_id: &str, from_version: u32) -> (supported: bool)
        ensures
            !supported,
    {
        false
    }

    fn do_migration(from_id: &str, from_version: u32, data: &[u8]) -> (r: Result<String, Error>)
        ensures
            r matches Err(e) && e == Error::MigrationUnsupported,
    {
        Err(Error::MigrationUnsupported)
    }
}

impl DbSerializable for Vec<u8> {
    type Format = DirectFormats;

    const ID: &'static str = "std::vec::Vec<u8>";

    const SCHEMA_VERSION: u32 = 0;

    fn can_migrate_from(from_id: &str, from_version: u32) -> (supported: bool)
        ensures
            !supported,
    {
        false
    }

    fn do_migration(from_id: &str, from_version: u32, data: &[u8]) -> (r: Result<Vec<u8>, Error>)
        ensures
            r matches Err(e) && e == Error::MigrationUnsupported,
    {
        Err(Error::MigrationUnsupported)
    }
}

impl DbSerializable for ByteBuf {
    type Format = DirectFormats;

    const ID: &'static str = "std::vec::Vec<u8>";

    const SCHEMA_VERSION: u32 = 0;

    fn can_migrate_from(from_id: &str, from_version: u32) -> (supported: bool)
        ensures
            !supported,
    {
        false
    }

    fn do_migration(from_id: &str, from_version: u32, data: &[u8]) -> (r: Result<ByteBuf, Error>)
        ensures
            r matches Err(e) && e == Error::MigrationUnsupported,
    {
        Err(Error::MigrationUnsupported)
    }
}

impl DbSerializable for u8 {
    type Format = BincodeFormat;

    const ID: &'static str = "u8";

    const SCHEMA_VERSION: u32 = 0;

    fn can_migrate_from(from_id: &str, from_version: u32) -> (supported: bool)
        ensures
            !supported,
    {
        false
    }

    fn do_migration(from_id: &str, from_version: u32, data: &[u8]) -> (r: Result<u8, Error>)
        ensures
            r matches Err(e) && e == Error::MigrationUnsupported,
    {
        Err(Error::MigrationUnsupported)
    }
}

impl DbSerializable for u16 {
    type Format = BincodeFormat;

    const ID: &'static str = "uvarint";

    const SCHEMA_VERSION: u32 = 0;

    fn can_migrate_from(from_id: &str, from_version: u32) -> (supported: bool)
        ensures
            !supported,
    {
        false
    }

    fn do_migration(from_id: &str, from_version: u32, data: &[u8]) -> (r: Result<u16, Error>)
        ensures
            r matches Err(e) && e == Error::MigrationUnsupported,
    {
        Err(Error::MigrationUnsupported)
    }
}

impl DbSerializable for u32 {
    type Format = BincodeFormat;

    const ID: &'static str = "uvarint";

    const SCHEMA_VERSION: u32 = 0;

    fn can_migrate_from(from_id: &str, from_version: u32) -> (supported: bool)
        ensures
            !supported,
    {
        false
    }

    fn do_migration(from_id: &str, from_version: u32, data: &[u8]) -> (r: Result<u32, Error>)
        ensures
            r matches Err(e) && e == Error::MigrationUnsupported,
    {
        Err(Error::MigrationUnsupported)
    }
}

impl DbSerializable for u64 {
    type Format = BincodeFormat;

    const ID: &'static str = "uvarint";

    const SCHEMA_VERSION: u32 = 0;

    fn can_migrate_from(from_id: &str, from_version: u32) -> (supported: bool)
        ensures
            !supported,
    {
        false
    }

    fn do_migration(from_id: &str, from_version: u32, data: &[u8]) -> (r: Result<u64, Error>)
        ensures
            r matches Err(e) && e == Error::MigrationUnsupported,
    {
        Err(Error::MigrationUnsupported)
    }
}

impl DbSerializable for u128 {
    type Format = BincodeFormat;

    const ID: &'static str = "uvarint";

    const SCHEMA_VERSION: u32 = 0;

    fn can_migrate_from(from_id: &str, from_version: u32) -> (supported: bool)
        ensures
            !supported,
    {
        false
    }

    fn do_migration(from_id: &str, from_version: u32, data: &[u8]) -> (r: Result<u128, Error>)
        ensures
            r matches Err(e) && e == Error::MigrationUnsupported,
    {
        Err(Error::MigrationUnsupported)
    }
}

impl DbSerializable for usize {
    type Format = BincodeFormat;

    const ID: &'static str = "uvarint";

    const SCHEMA_VERSION: u32 = 0;

    fn can_migrate_from(from_id: &str, from_version: u32) -> (supported: bool)
        ensures
            !supported,
    {
        false
    }

    fn do_migration(from_id: &str, from_version: u32, data: &[u8]) -> (r: Result<usize, Error>)
        ensures
            r matches Err(e) && e == Error::MigrationUnsupported,
    {
        Err(Error::MigrationUnsupported)
    }
}

impl DbSerializable for i8 {
    type Format = BincodeFormat;

    const ID: &'static str = "i8";

    const SCHEMA_VERSION: u32 = 0;

    fn can_migrate_from(from_id: &str, from_version: u32) -> (supported: bool)
        ensures
            !supported,
    {
        false
    }

    fn do_migration(from_id: &str, from_version: u32, data: &[u8]) -> (r: Result<i8, Error>)
        ensures
            r matches Err(e) && e == Error::MigrationUnsupported,
    {
        Err(Error::MigrationUnsupported)
    }
}

impl DbSerializable for i16 {
    type Format = BincodeFormat;

    const ID: &'static str = "ivarint";

    const SCHEMA_VERSION: u32 = 0;

    fn can_migrate_from(from_id: &str, from_version: u32) -> (supported: bool)
        ensures
            !supported,
    {
        false
    }

    fn do_migration(from_id: &str, from_version: u32, data: &[u8]) -> (r: Result<i16, Error>)
        ensures
            r matches Err(e) && e == Error::MigrationUnsupported,
    {
        Err(Error::MigrationUnsupported)
    }
}

impl DbSerializable for i32 {
    type Format = BincodeFormat;

    const ID: &'static str = "ivarint";

    const SCHEMA_VERSION: u32 = 0;

    fn can_migrate_from(from_id: &str, from_version: u32) -> (supported: bool)
        ensures
            !supported,
    {
        false
    }

    fn do_migration(from_id: &str, from_version: u32, data: &[u8]) -> (r: Result<i32, Error>)
        ensures
            r matches Err(e) && e == Error::MigrationUnsupported,
    {
        Err(Error::MigrationUnsupported)
    }
}

impl DbSerializable for i64 {
    type Format = BincodeFormat;

    const ID: &'static str = "ivarint";

    const SCHEMA_VERSION: u32 = 0;

    fn can_migrate_from(from_id: &str, from_version: u32) -> (supported: bool)
        ensures
            !supported,
    {
        false
    }

    fn do_migration(from_id: &str, from_version: u32, data: &[u8]) -> (r: Result<i64, Error>)
        ensures
            r matches Err(e) && e == Error::MigrationUnsupported,
    {
        Err(Error::MigrationUnsupported)
    }
}

impl DbSerializable for i128 {
    type Format = BincodeFormat;

    const ID: &'static str = "ivarint";

    const SCHEMA_VERSION: u32 = 0;

    fn can_migrate_from(from_id: &str, from_version: u32) -> (supported: bool)
        ensures
            !supported,
    {
        false
    }

    fn do_migration(from_id: &str, from_version: u32, data: &[u8]) -> (r: Result<i128, Error>)
        ensures
            r matches Err(e) && e == Error::MigrationUnsupported,
    {
        Err(Error::MigrationUnsupported)
    }
}

impl DbSerializable for isize {
    type Format = BincodeFormat;

    const ID: &'static str = "ivarint";

    const SCHEMA_VERSION: u32 = 0;

    fn can_migrate_from(from_id: &str, from_version: u32) -> (supported: bool)
        ensures
            !supported,
    {
        false
    }

    fn do_migration(from_id: &str, from_version: u32, data: &[u8]) -> (r: Result<isize, Error>)
        ensures
            r matches Err(e) && e == Error::MigrationUnsupported,
    {
        Err(Error::MigrationUnsupported)
    }
}

/// A value as it is stored: its bytes, tagged with the schema they were
/// written under.
pub struct StoredValue {
    pub schema_id: String,
    pub schema_version: u32,
    pub data: Vec<u8>,
}

/// Whether a stored tag is the current schema of `T`.
pub open spec fn is_current<T: DbSerializable>(stored_id: Seq<char>, stored_version: u32) -> bool {
    stored_id == T::ID@ && stored_version == T::SCHEMA_VERSION
}

/// What `encode` may return for `val`: the bytes that the format of `T`
/// wrote, under the current id and version of `T`, or the format's error.
pub open spec fn encoded<T: DbSerializable>(val: &T, r: Result<StoredValue, Error>) -> bool {
    match r {
        Ok(stored) => {
            &&& stored.schema_id@ == T::ID@
            &&& stored.schema_version == T::SCHEMA_VERSION
            &&& call_ensures(
                <T::Format as SerializationFormat<T>>::serialize,
                (val,),
                Ok::<Vec<u8>, Error>(stored.data),
            )
        },
        Err(e) => call_ensures(
            <T::Format as SerializationFormat<T>>::serialize,
            (val,),
            Err::<Vec<u8>, Error>(e),
        ),
    }
}

/// What `migrate` may return: what `do_migration` returned, where
/// `can_migrate_from` accepted the tag, and `MigrationUnsupported` where it
/// did not.
pub open spec fn migrated<T: DbSerializable>(
    stored_id: &str,
    stored_version: u32,
    data: &[u8],
    r: Result<T, Error>,
) -> bool {
    exists|supported: bool| #[trigger]
        call_ensures(T::can_migrate_from, (stored_id, stored_version), supported)
            && migration_outcome(supported, stored_id, stored_version, data, r)
}

/// What reading a stale value gives once `can_migrate_from` has answered.
pub open spec fn migration_outcome<T: DbSerializable>(
    supported: bool,
    stored_id: &str,
    stored_version: u32,
    data: &[u8],
    r: Result<T, Error>,
) -> bool {
    if supported {
        call_ensures(T::do_migration, (stored_id, stored_version, data), r)
    } else {
        r == Err::<T, Error>(Error::MigrationUnsupported)
    }
}

/// What `decode` may return: under the current tag what the format read,
/// under any other tag what one migration step gave.
pub open spec fn decoded<T: DbSerializable>(
    stored_id: &str,
    stored_version: u32,
    data: &[u8],
    r: Result<T, Error>,
) -> bool {
    if is_current::<T>(stored_id@, stored_version) {
        call_ensures(<T::Format as SerializationFormat<T>>::deserialize, (data,), r)
    } else {
        migrated::<T>(stored_id, stored_version, data, r)
    }
}

/// Whether a stored tag is the current schema of `T`.
pub fn schema_matches<T: DbSerializable>(stored_id: &str, stored_version: u32) -> (current: bool)
    ensures
        current == is_current::<T>(stored_id@, stored_version),
{
    stored_version == T::SCHEMA_VERSION && stored_id.to_owned() == T::ID.to_owned()
}

/// Writes `val` in the current format of its type and tags the bytes with the
/// current schema id and version.
pub fn encode<T: DbSerializable>(val: &T) -> (r: Result<StoredValue, Error>)
    ensures
        encoded::<T>(val, r),
{
    match <T::Format as SerializationFormat<T>>::serialize(val) {
        Ok(data) => Ok(
            StoredValue { schema_id: T::ID.to_owned(), schema_version: T::SCHEMA_VERSION, data },
        ),
        Err(e) => Err(e),
    }
}

/// Reads a value stored under a tag that is not the current one, in one
/// migration step. Under a schema that `T` does not declare this is
/// `MigrationUnsupported`.
pub fn migrate<T: DbSerializable>(stored_id: &str, stored_version: u32, data: &[u8]) -> (r: Result<
    T,
    Error,
>)
    ensures
        migrated::<T>(stored_id, stored_version, data, r),
        !T::migrates_from(stored_id, stored_version) ==> r == Err::<T, Error>(
            Error::MigrationUnsupported,
        ),
{
    if T::can_migrate_from(stored_id, stored_version) {
        T::do_migration(stored_id, stored_version, data)
    } else {
        Err(Error::MigrationUnsupported)
    }
}

/// Reads a stored value: directly where its tag is the current schema of `T`,
/// else through one migration step, else not at all. Under a tag that is
/// neither current nor declared by `T` this is `MigrationUnsupported`.
pub fn decode<T: DbSerializable>(stored_id: &str, stored_version: u32, data: &[u8]) -> (r: Result<
    T,
    Error,
>)
    ensures
        decoded::<T>(stored_id, stored_version, data, r),
        !is_current::<T>(stored_id@, stored_version) && !T::migrates_from(stored_id, stored_version)
            ==> r == Err::<T, Error>(Error::MigrationUnsupported),
{
    if schema_matches::<T>(stored_id, stored_version) {
        <T::Format as SerializationFormat<T>>::deserialize(data)
    } else {
        migrate::<T>(stored_id, stored_version, data)
    }
}

/// Text survives being written and read: its bytes are valid UTF-8 and spell
/// the same text.
pub proof fn lemma_text_round_trip(text: Seq<char>)
    ensures
        valid_utf8(encode_utf8(text)),
        decode_utf8(encode_utf8(text)) == text,
{
    encode_utf8_valid_utf8(text);
    encode_utf8_decode_utf8(text);
}

/// The schema tags of the built-in types: text and byte buffers under the
/// names of their std types, 8-bit integers under their own names, wider
/// integers under `uvarint` or `ivarint`, all at version 0.
pub proof fn lemma_builtin_tags()
    ensures
        <String as DbSerializable>::ID@ == "std::string::String"@,
        <String as DbSerializable>::SCHEMA_VERSION == 0,
        <Vec<u8> as DbSerializable>::ID@ == "std::vec::Vec<u8>"@,
        <Vec<u8> as DbSerializable>::SCHEMA_VERSION == 0,
        <ByteBuf as DbSerializable>::ID@ == "std::vec::Vec<u8>"@,
        <ByteBuf as DbSerializable>::SCHEMA_VERSION == 0,
        <u8 as DbSerializable>::ID@ == "u8"@,
        <u8 as DbSerializable>::SCHEMA_VERSION == 0,
        <u16 as DbSerializable>::ID@ == "uvarint"@,
        <u16 as DbSerializable>::SCHEMA_VERSION == 0,
        <u32 as DbSerializable>::ID@ == "uvarint"@,
        <u32 as DbSerializable>::SCHEMA_VERSION == 0,
        <u64 as DbSerializable>::ID@ == "uvarint"@,
        <u64 as DbSerializable>::SCHEMA_VERSION == 0,
        <u128 as DbSerializable>::ID@ == "uvarint"@,
        <u128 as DbSerializable>::SCHEMA_VERSION == 0,
        <usize as DbSerializable>::ID@ == "uvarint"@,
        <usize as DbSerializable>::SCHEMA_VERSION == 0,
        <i8 as DbSerializable>::ID@ == "i8"@,
        <i8 as DbSerializable>::SCHEMA_VERSION == 0,
        <i16 as DbSerializable>::ID@ == "ivarint"@,
        <i16 as DbSerializable>::SCHEMA_VERSION == 0,
        <i32 as DbSerializable>::ID@ == "ivarint"@,
        <i32 as DbSerializable>::SCHEMA_VERSION == 0,
        <i64 as DbSerializable>::ID@ == "ivarint"@,
        <i64 as DbSerializable>::SCHEMA_VERSION == 0,
        <i128 as DbSerializable>::ID@ == "ivarint"@,
        <i128 as DbSerializable>::SCHEMA_VERSION == 0,
        <isize as DbSerializable>::ID@ == "ivarint"@,
        <isize as DbSerializable>::SCHEMA_VERSION == 0,
{
}

} // verus!
