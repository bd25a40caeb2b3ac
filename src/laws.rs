//! Laws that relate encoding, decoding and nullability across the codecs.

use vstd::prelude::*;
use vstd::utf8::*;

use crate::bytes::{lemma_be_bytes_len, lemma_be_round_trip, lemma_byte_caps};
use crate::codec::{emitted, was_null, FromSql, ToSql};
use crate::error::{Error, IsNull};
use crate::hstore::HstoreMap;
use crate::primitive::{
    bool_bytes, char_bytes, decode_bool, decode_char, decode_int2, decode_int4, decode_int8,
    decode_u32, decode_u64, int2_bytes, int4_bytes, int8_bytes, text_decodes, u32_bytes, u64_bytes,
    Float4Bits, Float8Bits,
};

verus! {

/// Decoding the payload of a boolean gives it back.
pub proof fn lemma_bool_round_trip(x: bool)
    ensures
        decode_bool(bool_bytes(x)) == Ok::<bool, Error>(x),
{
}

/// Decoding the payload of an 8-bit integer gives it back.
pub proof fn lemma_char_round_trip(x: i8)
    ensures
        decode_char(char_bytes(x)) == Ok::<i8, Error>(x),
{
    assert(((x as u8) as i8) == x) by (bit_vector);
}

/// Decoding the payload of a 16-bit integer gives it back.
pub proof fn lemma_int2_round_trip(x: i16)
    ensures
        decode_int2(int2_bytes(x)) == Ok::<i16, Error>(x),
{
    let u = x as u16;
    lemma_byte_caps();
    lemma_be_bytes_len(u as nat, 2);
    lemma_be_round_trip(u as nat, 2);
    assert(int2_bytes(x).take(2) =~= int2_bytes(x));
    assert((u as i16) == x) by (bit_vector)
        requires
            u == x as u16,
    ;
}

/// Decoding the payload of a 32-bit integer gives it back.
pub proof fn lemma_int4_round_trip(x: i32)
    ensures
        decode_int4(int4_bytes(x)) == Ok::<i32, Error>(x),
{
    let u = x as u32;
    lemma_byte_caps();
    lemma_be_bytes_len(u as nat, 4);
    lemma_be_round_trip(u as nat, 4);
    assert(int4_bytes(x).take(4) =~= int4_bytes(x));
    assert((u as i32) == x) by (bit_vector)
        requires
            u == x as u32,
    ;
}

/// Decoding the payload of a 64-bit integer gives it back.
pub proof fn lemma_int8_round_trip(x: i64)
    ensures
        decode_int8(int8_bytes(x)) == Ok::<i64, Error>(x),
{
    let u = x as u64;
    lemma_byte_caps();
    lemma_be_bytes_len(u as nat, 8);
    lemma_be_round_trip(u as nat, 8);
    assert(int8_bytes(x).take(8) =~= int8_bytes(x));
    assert((u as i64) == x) by (bit_vector)
        requires
            u == x as u64,
    ;
}

/// Decoding the payload of an OID, or of a single-precision bit pattern,
/// gives it back.
pub proof fn lemma_u32_round_trip(x: u32)
    ensures
        decode_u32(u32_bytes(x)) == Ok::<u32, Error>(x),
        <Float4Bits as FromSql>::decodes(u32_bytes(x), Ok(Float4Bits(x))),
{
    lemma_byte_caps();
    lemma_be_bytes_len(x as nat, 4);
    lemma_be_round_trip(x as nat, 4);
    assert(u32_bytes(x).take(4) =~= u32_bytes(x));
}

/// Decoding the payload of a double-precision bit pattern gives it back.
pub proof fn lemma_u64_round_trip(x: u64)
    ensures
        decode_u64(u64_bytes(x)) == Ok::<u64, Error>(x),
        <Float8Bits as FromSql>::decodes(u64_bytes(x), Ok(Float8Bits(x))),
{
    lemma_byte_caps();
    lemma_be_bytes_len(x as nat, 8);
    lemma_be_round_trip(x as nat, 8);
    assert(u64_bytes(x).take(8) =~= u64_bytes(x));
}

/// Decoding the payload of a text gives the same characters back.
pub proof fn lemma_text_round_trip(s: Seq<char>, r: Result<String, Error>)
    requires
        text_decodes(encode_utf8(s), r),
    ensures
        r matches Ok(t) && t@ == s,
{
    encode_utf8_valid_utf8(s);
    encode_utf8_decode_utf8(s);
}

/// Decoding the payload of a byte sequence gives the same bytes back.
pub proof fn lemma_bytes_round_trip(b: Vec<u8>, r: Result<Vec<u8>, Error>)
    requires
        b.encoding() matches Ok(Some(p)) && <Vec<u8> as FromSql>::decodes(p, r),
    ensures
        r matches Ok(d) && d@ == b@,
{
}

/// Encoding an absent optional value reports NULL and appends nothing: what
/// `to_sql`, and `to_sql_checked` on an accepted type, promise for `None`
/// under any inner representation.
pub proof fn lemma_absent_encodes_null<T: ToSql>(
    before: Seq<u8>,
    after: Seq<u8>,
    r: Result<IsNull, Error>,
)
    requires
        emitted(None::<T>.encoding(), before, after, r),
    ensures
        r == Ok::<IsNull, Error>(IsNull::Yes),
        after == before,
{
}

/// Decoding NULL into an optional representation gives absence: what
/// `from_sql_null`, and `from_sql_checked` on an accepted type, promise for
/// `Option<T>` under any inner representation.
pub proof fn lemma_null_decodes_absent<T: FromSql>(r: Result<Option<T>, Error>)
    requires
        <Option<T> as FromSql>::decodes_null(r),
    ensures
        r == Ok::<Option<T>, Error>(None),
{
}

/// Decoding NULL into any representation that cannot hold absence fails
/// with the was-null error: what `from_sql_null`, and `from_sql_checked` on
/// an accepted type, promise for each of them.
pub proof fn lemma_null_rejected()
    ensures
        forall|r: Result<bool, Error>| #[trigger]
            <bool as FromSql>::decodes_null(r) ==> r == was_null::<bool>(),
        forall|r: Result<i8, Error>| #[trigger]
            <i8 as FromSql>::decodes_null(r) ==> r == was_null::<i8>(),
        forall|r: Result<i16, Error>| #[trigger]
            <i16 as FromSql>::decodes_null(r) ==> r == was_null::<i16>(),
        forall|r: Result<i32, Error>| #[trigger]
            <i32 as FromSql>::decodes_null(r) ==> r == was_null::<i32>(),
        forall|r: Result<i64, Error>| #[trigger]
            <i64 as FromSql>::decodes_null(r) ==> r == was_null::<i64>(),
        forall|r: Result<u32, Error>| #[trigger]
            <u32 as FromSql>::decodes_null(r) ==> r == was_null::<u32>(),
        forall|r: Result<Float4Bits, Error>| #[trigger]
            <Float4Bits as FromSql>::decodes_null(r) ==> r == was_null::<Float4Bits>(),
        forall|r: Result<Float8Bits, Error>| #[trigger]
            <Float8Bits as FromSql>::decodes_null(r) ==> r == was_null::<Float8Bits>(),
        forall|r: Result<Vec<u8>, Error>| #[trigger]
            <Vec<u8> as FromSql>::decodes_null(r) ==> r == was_null::<Vec<u8>>(),
        forall|r: Result<String, Error>| #[trigger]
            <String as FromSql>::decodes_null(r) ==> r == was_null::<String>(),
        forall|r: Result<HstoreMap, Error>| #[trigger]
            <HstoreMap as FromSql>::decodes_null(r) ==> r == was_null::<HstoreMap>(),
{
}

} // verus!
