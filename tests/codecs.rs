use byteorder::{BigEndian, WriteBytesExt};
use pgtypes::{
    from_sql_checked, ConversionError, Error, Float4Bits, Float8Bits, FromSql, IsNull, Kind, Other,
    SessionInfo, ToSql, Type, WasNull, WrongType,
};

fn encode<T: ToSql>(v: &T, ty: &Type) -> (Result<IsNull, Error>, Vec<u8>) {
    let params: Vec<(String, String)> = Vec::new();
    let ctx = SessionInfo::new(&params);
    let mut out = Vec::new();
    let r = v.to_sql_checked(ty, &mut out, &ctx);
    (r, out)
}

fn decode<T: FromSql>(ty: &Type, raw: &[u8]) -> Result<T, Error> {
    let params: Vec<(String, String)> = Vec::new();
    let ctx = SessionInfo::new(&params);
    from_sql_checked::<T>(ty, Some(raw), &ctx)
}

fn decode_null<T: FromSql>(ty: &Type) -> Result<T, Error> {
    let params: Vec<(String, String)> = Vec::new();
    let ctx = SessionInfo::new(&params);
    from_sql_checked::<T>(ty, None, &ctx)
}

fn citext() -> Type {
    Type::Other(Other::new("citext".to_string(), 16_500, Kind::Simple, "public".to_string()))
}

#[test]
fn int4_decode_example() {
    assert_eq!(decode::<i32>(&Type::Int4, &[0x00, 0x00, 0x00, 0x2A]), Ok(42));
}

#[test]
fn int4_encode_example() {
    let (r, out) = encode(&42i32, &Type::Int4);
    assert_eq!(r, Ok(IsNull::No));
    assert_eq!(out, vec![0x00, 0x00, 0x00, 0x2A]);
}

#[test]
fn bool_round_trip() {
    for b in [true, false] {
        let (r, out) = encode(&b, &Type::Bool);
        assert_eq!(r, Ok(IsNull::No));
        assert_eq!(out, vec![b as u8]);
        assert_eq!(decode::<bool>(&Type::Bool, &out), Ok(b));
    }
}

#[test]
fn bool_decode_nonzero_is_true() {
    assert_eq!(decode::<bool>(&Type::Bool, &[7]), Ok(true));
    assert_eq!(decode::<bool>(&Type::Bool, &[0]), Ok(false));
}

#[test]
fn char_round_trip_boundaries() {
    for x in [i8::MIN, -1, 0, 1, i8::MAX] {
        let (r, out) = encode(&x, &Type::Char);
        assert_eq!(r, Ok(IsNull::No));
        assert_eq!(out, vec![x as u8]);
        assert_eq!(decode::<i8>(&Type::Char, &out), Ok(x));
    }
}

#[test]
fn int2_round_trip_boundaries() {
    for x in [i16::MIN, -1, 0, 1, i16::MAX] {
        let (r, out) = encode(&x, &Type::Int2);
        assert_eq!(r, Ok(IsNull::No));
        let mut expected = Vec::new();
        expected.write_i16::<BigEndian>(x).unwrap();
        assert_eq!(out, expected);
        assert_eq!(decode::<i16>(&Type::Int2, &out), Ok(x));
    }
}

#[test]
fn int4_round_trip_boundaries() {
    for x in [i32::MIN, -1, 0, 1, 42, i32::MAX] {
        let (r, out) = encode(&x, &Type::Int4);
        assert_eq!(r, Ok(IsNull::No));
        let mut expected = Vec::new();
        expected.write_i32::<BigEndian>(x).unwrap();
        assert_eq!(out, expected);
        assert_eq!(decode::<i32>(&Type::Int4, &out), Ok(x));
    }
}

#[test]
fn int8_round_trip_boundaries() {
    for x in [i64::MIN, -1, 0, 1, i64::MAX] {
        let (r, out) = encode(&x, &Type::Int8);
        assert_eq!(r, Ok(IsNull::No));
        let mut expected = Vec::new();
        expected.write_i64::<BigEndian>(x).unwrap();
        assert_eq!(out, expected);
        assert_eq!(decode::<i64>(&Type::Int8, &out), Ok(x));
    }
}

#[test]
fn int8_min_bytes() {
    let (_, out) = encode(&i64::MIN, &Type::Int8);
    assert_eq!(out, vec![0x80, 0, 0, 0, 0, 0, 0, 0]);
}

#[test]
fn oid_round_trip_boundaries() {
    for x in [0u32, 1, 0xDEAD_BEEF, u32::MAX] {
        let (r, out) = encode(&x, &Type::Oid);
        assert_eq!(r, Ok(IsNull::No));
        let mut expected = Vec::new();
        expected.write_u32::<BigEndian>(x).unwrap();
        assert_eq!(out, expected);
        assert_eq!(decode::<u32>(&Type::Oid, &out), Ok(x));
    }
}

#[test]
fn float4_round_trip() {
    for x in [0.0f32, -0.0, 1.5, -3.25, f32::MAX, f32::MIN_POSITIVE, f32::INFINITY] {
        let (r, out) = encode(&Float4Bits(x.to_bits()), &Type::Float4);
        assert_eq!(r, Ok(IsNull::No));
        let mut expected = Vec::new();
        expected.write_f32::<BigEndian>(x).unwrap();
        assert_eq!(out, expected);
        let back = decode::<Float4Bits>(&Type::Float4, &out).unwrap();
        assert_eq!(f32::from_bits(back.0).to_bits(), x.to_bits());
    }
}

#[test]
fn float8_round_trip() {
    for x in [0.0f64, -0.0, 1.5, -3.25, f64::MAX, f64::MIN_POSITIVE, f64::NEG_INFINITY] {
        let (r, out) = encode(&Float8Bits(x.to_bits()), &Type::Float8);
        assert_eq!(r, Ok(IsNull::No));
        let mut expected = Vec::new();
        expected.write_f64::<BigEndian>(x).unwrap();
        assert_eq!(out, expected);
        let back = decode::<Float8Bits>(&Type::Float8, &out).unwrap();
        assert_eq!(f64::from_bits(back.0).to_bits(), x.to_bits());
    }
}

#[test]
fn negative_zero_keeps_sign() {
    let (_, out) = encode(&Float8Bits((-0.0f64).to_bits()), &Type::Float8);
    assert_eq!(out, vec![0x80, 0, 0, 0, 0, 0, 0, 0]);
}

#[test]
fn text_round_trip_multibyte() {
    for s in ["", "hello", "grüße", "日本語", "emoji 🎉"] {
        let (r, out) = encode(&s.to_string(), &Type::Text);
        assert_eq!(r, Ok(IsNull::No));
        assert_eq!(out, s.as_bytes().to_vec());
        assert_eq!(decode::<String>(&Type::Text, &out), Ok(s.to_string()));
    }
}

#[test]
fn str_encodes_as_utf8() {
    let (r, out) = encode(&"é", &Type::Varchar);
    assert_eq!(r, Ok(IsNull::No));
    assert_eq!(out, vec![0xC3, 0xA9]);
}

#[test]
fn text_accepts_text_types() {
    for t in [Type::Varchar, Type::Text, Type::Bpchar, Type::Name, citext()] {
        assert!(<String as FromSql>::accepts(&t));
        assert!(<String as ToSql>::accepts(&t));
        assert!(<&str as ToSql>::accepts(&t));
    }
    assert!(!<String as FromSql>::accepts(&Type::Int4));
    let other = Type::Other(Other::new("citextx".to_string(), 1, Kind::Simple, "public".to_string()));
    assert!(!<String as FromSql>::accepts(&other));
}

#[test]
fn text_decode_invalid_utf8() {
    assert_eq!(
        decode::<String>(&Type::Text, &[0x66, 0xFF, 0x6F]),
        Err(Error::Conversion(ConversionError::InvalidUtf8))
    );
}

#[test]
fn bytes_round_trip() {
    for b in [vec![], vec![0u8], vec![1, 2, 3, 255, 0, 7]] {
        let (r, out) = encode(&b, &Type::Bytea);
        assert_eq!(r, Ok(IsNull::No));
        assert_eq!(out, b);
        assert_eq!(decode::<Vec<u8>>(&Type::Bytea, &out), Ok(b.clone()));
        let (r2, out2) = encode(&b.as_slice(), &Type::Bytea);
        assert_eq!(r2, Ok(IsNull::No));
        assert_eq!(out2, b);
    }
}

#[test]
fn short_payload_is_truncated() {
    assert_eq!(
        decode::<i32>(&Type::Int4, &[0, 0, 1]),
        Err(Error::Conversion(ConversionError::Truncated))
    );
    assert_eq!(
        decode::<bool>(&Type::Bool, &[]),
        Err(Error::Conversion(ConversionError::Truncated))
    );
    assert_eq!(
        decode::<i64>(&Type::Int8, &[0; 7]),
        Err(Error::Conversion(ConversionError::Truncated))
    );
}

#[test]
fn absent_encodes_null() {
    let (r, out) = encode(&None::<i32>, &Type::Int4);
    assert_eq!(r, Ok(IsNull::Yes));
    assert!(out.is_empty());
    let (r2, out2) = encode(&Some(7i32), &Type::Int4);
    assert_eq!(r2, Ok(IsNull::No));
    assert_eq!(out2, vec![0, 0, 0, 7]);
}

#[test]
fn null_into_option_is_absent() {
    assert_eq!(decode_null::<Option<i32>>(&Type::Int4), Ok(None));
    assert_eq!(decode_null::<Option<String>>(&Type::Text), Ok(None));
    assert_eq!(decode::<Option<i32>>(&Type::Int4, &[0, 0, 0, 5]), Ok(Some(5)));
}

#[test]
fn null_into_plain_is_was_null() {
    assert_eq!(decode_null::<i32>(&Type::Int4), Err(Error::WasNull(WasNull)));
    assert_eq!(decode_null::<String>(&Type::Text), Err(Error::WasNull(WasNull)));
    assert_eq!(decode_null::<bool>(&Type::Bool), Err(Error::WasNull(WasNull)));
    assert_eq!(decode_null::<Vec<u8>>(&Type::Bytea), Err(Error::WasNull(WasNull)));
}

#[test]
fn checked_encode_wrong_type() {
    let (r, out) = encode(&42i32, &Type::Int8);
    assert_eq!(r, Err(Error::WrongType(WrongType(Type::Int8))));
    assert!(out.is_empty());
    let (r2, out2) = encode(&None::<bool>, &Type::Text);
    assert_eq!(r2, Err(Error::WrongType(WrongType(Type::Text))));
    assert!(out2.is_empty());
    let (r3, out3) = encode(&"x", &Type::Bytea);
    assert_eq!(r3, Err(Error::WrongType(WrongType(Type::Bytea))));
    assert!(out3.is_empty());
}

#[test]
fn checked_decode_wrong_type() {
    assert_eq!(
        decode::<i32>(&Type::Int2, &[0, 1]),
        Err(Error::WrongType(WrongType(Type::Int2)))
    );
    assert_eq!(
        decode_null::<Option<bool>>(&Type::Int4),
        Err(Error::WrongType(WrongType(Type::Int4)))
    );
}

#[test]
fn reference_encodes_like_value() {
    let x = 9i64;
    let (r, out) = encode(&&x, &Type::Int8);
    assert_eq!(r, Ok(IsNull::No));
    assert_eq!(out, vec![0, 0, 0, 0, 0, 0, 0, 9]);
}

#[test]
fn encode_appends_to_existing_output() {
    let params: Vec<(String, String)> = Vec::new();
    let ctx = SessionInfo::new(&params);
    let mut out = vec![9u8];
    assert_eq!(1i16.to_sql(&Type::Int2, &mut out, &ctx), Ok(IsNull::No));
    assert_eq!(out, vec![9, 0, 1]);
}
