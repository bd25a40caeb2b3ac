//! Codecs of the fixed-width scalars, byte sequences and text.

use vstd::prelude::*;
use vstd::slice::slice_to_vec;
use vstd::utf8::*;

use crate::bytes::{be_bytes, be_value, read_be, write_be};
use crate::codec::{truncated, was_null, FromSql, ToSql};
use crate::error::{ConversionError, Error, IsNull, WasNull};
use crate::session::SessionInfo;
use crate::text::str_eq;
use crate::types::Type;

verus! {

/// The first `n` bytes of `b` as an unsigned big-endian number, or a
/// truncation error when `b` is shorter.
pub open spec fn fixed_field(b: Seq<u8>, n: nat) -> Result<u64, Error> {
    if b.len() < n {
        truncated()
    } else {
        Ok(be_value(b.take(n as int)) as u64)
    }
}

fn read_fixed(raw: &[u8], n: usize) -> (r: Result<u64, Error>)
    requires
        n <= 8,
    ensures
        r == fixed_field(raw@, n as nat),
{
    if raw.len() < n {
        Err(Error::Conversion(ConversionError::Truncated))
    } else {
        Ok(read_be(raw, n))
    }
}

/// Appends `b` to `out`.
pub fn append_bytes(out: &mut Vec<u8>, b: &[u8])
    ensures
        final(out)@ == old(out)@ + b@,
{
    let ghost before = out@;
    let mut i: usize = 0;
    while i < b.len()
        invariant
            i <= b@.len(),
            out@ == before + b@.take(i as int),
        decreases b@.len() - i,
    {
        out.push(b[i]);
        i += 1;
        assert(out@ =~= before + b@.take(i as int));
    }
    assert(b@.take(i as int) =~= b@);
}

/// The payload of a boolean.
pub open spec fn bool_bytes(x: bool) -> Seq<u8> {
    seq![if x { 1u8 } else { 0u8 }]
}

/// Decodes a boolean: any nonzero byte is true.
pub open spec fn decode_bool(b: Seq<u8>) -> Result<bool, Error> {
    if b.len() < 1 {
        truncated()
    } else {
        Ok(b[0] != 0)
    }
}

/// The payload of an 8-bit signed integer.
pub open spec fn char_bytes(x: i8) -> Seq<u8> {
    seq![x as u8]
}

pub open spec fn decode_char(b: Seq<u8>) -> Result<i8, Error> {
    if b.len() < 1 {
        truncated()
    } else {
        Ok(b[0] as i8)
    }
}

pub open spec fn int2_bytes(x: i16) -> Seq<u8> {
    be_bytes(x as u16 as nat, 2)
}

pub open spec fn decode_int2(b: Seq<u8>) -> Result<i16, Error> {
    match fixed_field(b, 2) {
        Ok(u) => Ok(u as u16 as i16),
        Err(e) => Err(e),
    }
}

pub open spec fn int4_bytes(x: i32) -> Seq<u8> {
    be_bytes(x as u32 as nat, 4)
}

pub open spec fn decode_int4(b: Seq<u8>) -> Result<i32, Error> {
    match fixed_field(b, 4) {
        Ok(u) => Ok(u as u32 as i32),
        Err(e) => Err(e),
    }
}

pub open spec fn int8_bytes(x: i64) -> Seq<u8> {
    be_bytes(x as u64 as nat, 8)
}

pub open spec fn decode_int8(b: Seq<u8>) -> Result<i64, Error> {
    match fixed_field(b, 8) {
        Ok(u) => Ok(u as i64),
        Err(e) => Err(e),
    }
}

pub open spec fn u32_bytes(x: u32) -> Seq<u8> {
    be_bytes(x as nat, 4)
}

pub open spec fn decode_u32(b: Seq<u8>) -> Result<u32, Error> {
    match fixed_field(b, 4) {
        Ok(u) => Ok(u as u32),
        Err(e) => Err(e),
    }
}

pub open spec fn u64_bytes(x: u64) -> Seq<u8> {
    be_bytes(x as nat, 8)
}

pub open spec fn decode_u64(b: Seq<u8>) -> Result<u64, Error> {
    fixed_field(b, 8)
}

/// The bit pattern of a single-precision IEEE-754 float.
#[derive(Debug, Clone, Copy, PartialEq, Eq, Structural)]
pub struct Float4Bits(pub u32);

/// The bit pattern of a double-precision IEEE-754 float.
#[derive(Debug, Clone, Copy, PartialEq, Eq, Structural)]
pub struct Float8Bits(pub u64);

/// Whether a text representation converts to or from `ty`: the built-in
/// text types, and the case-insensitive text extension type by name.
pub open spec fn is_text_type(ty: Type) -> bool {
    match ty {
        Type::Varchar => true,
        Type::Text => true,
        Type::Bpchar => true,
        Type::Name => true,
        Type::Other(o) => o.spec_name() == "citext"@,
        _ => false,
    }
}

fn text_accepts(ty: &Type) -> (r: bool)
    ensures
        r == is_text_type(*ty),
{
    match ty {
        Type::Varchar => true,
        Type::Text => true,
        Type::Bpchar => true,
        Type::Name => true,
        Type::Other(o) => str_eq(o.name(), "citext"),
        _ => false,
    }
}

/// Relies on `String::from_utf8`: it succeeds exactly on valid UTF-8, and
/// the string then holds the characters that the bytes encode.
#[verifier::external_body]
pub(crate) fn string_from_utf8(bytes: Vec<u8>) -> (r: Option<String>)
    ensures
        r is Some <==> valid_utf8(bytes@),
        r matches Some(s) ==> s@ == decode_utf8(bytes@),
{
    String::from_utf8(bytes).ok()
}

/// Whether `r` is the outcome of decoding `bytes` as text.
pub open spec fn text_decodes(bytes: Seq<u8>, r: Result<String, Error>) -> bool {
    match r {
        Ok(s) => valid_utf8(bytes) && s@ == decode_utf8(bytes),
        Err(e) => !valid_utf8(bytes) && e == Error::Conversion(ConversionError::InvalidUtf8),
    }
}

impl FromSql for bool {
    open spec fn accepts_spec(ty: Type) -> bool {
        ty is Bool
    }

    open spec fn decodes(bytes: Seq<u8>, r: Result<bool, Error>) -> bool {
        r == decode_bool(bytes)
    }

    open spec fn decodes_null(r: Result<bool, Error>) -> bool {
        r == was_null::<bool>()
    }

    fn accepts(ty: &Type) -> (r: bool) {
        matches!(ty, Type::Bool)
    }

    fn from_sql(ty: &Type, raw: &[u8], ctx: &SessionInfo) -> (r: Result<bool, Error>) {
        if raw.len() < 1 {
            Err(Error::Conversion(ConversionError::Truncated))
        } else {
            Ok(raw[0] != 0)
        }
    }

    fn from_sql_null(ty: &Type, ctx: &SessionInfo) -> (r: Result<bool, Error>) {
        Err(Error::WasNull(WasNull))
    }
}

impl ToSql for bool {
    open spec fn accepts_spec(ty: Type) -> bool {
        ty is Bool
    }

    open spec fn encoding(&self) -> Result<Option<Seq<u8>>, Error> {
        Ok(Some(bool_bytes(*self)))
    }

    fn accepts(ty: &Type) -> (r: bool) {
        matches!(ty, Type::Bool)
    }

    fn to_sql(&self, ty: &Type, out: &mut Vec<u8>, ctx: &SessionInfo) -> (r: Result<IsNull, Error>) {
        let ghost before = out@;
        out.push(if *self { 1u8 } else { 0u8 });
        assert(out@ =~= before + bool_bytes(*self));
        Ok(IsNull::No)
    }
}

impl FromSql for i8 {
    open spec fn accepts_spec(ty: Type) -> bool {
        ty is Char
    }

    open spec fn decodes(bytes: Seq<u8>, r: Result<i8, Error>) -> bool {
        r == decode_char(bytes)
    }

    open spec fn decodes_null(r: Result<i8, Error>) -> bool {
        r == was_null::<i8>()
    }

    fn accepts(ty: &Type) -> (r: bool) {
        matches!(ty, Type::Char)
    }

    fn from_sql(ty: &Type, raw: &[u8], ctx: &SessionInfo) -> (r: Result<i8, Error>) {
        if raw.len() < 1 {
            Err(Error::Conversion(ConversionError::Truncated))
        } else {
            Ok(#[verifier::truncate] (raw[0] as i8))
        }
    }

    fn from_sql_null(ty: &Type, ctx: &SessionInfo) -> (r: Result<i8, Error>) {
        Err(Error::WasNull(WasNull))
    }
}

impl ToSql for i8 {
    open spec fn accepts_spec(ty: Type) -> bool {
        ty is Char
    }

    open spec fn encoding(&self) -> Result<Option<Seq<u8>>, Error> {
        Ok(Some(char_bytes(*self)))
    }

    fn accepts(ty: &Type) -> (r: bool) {
        matches!(ty, Type::Char)
    }

    fn to_sql(&self, ty: &Type, out: &mut Vec<u8>, ctx: &SessionInfo) -> (r: Result<IsNull, Error>) {
        let ghost before = out@;
        out.push(#[verifier::truncate] (*self as u8));
        assert(out@ =~= before + char_bytes(*self));
        Ok(IsNull::No)
    }
}

impl FromSql for i16 {
    open spec fn accepts_spec(ty: Type) -> bool {
        ty is Int2
    }

    open spec fn decodes(bytes: Seq<u8>, r: Result<i16, Error>) -> bool {
        r == decode_int2(bytes)
    }

    open spec fn decodes_null(r: Result<i16, Error>) -> bool {
        r == was_null::<i16>()
    }

    fn accepts(ty: &Type) -> (r: bool) {
        matches!(ty, Type::Int2)
    }

    fn from_sql(ty: &Type, raw: &[u8], ctx: &SessionInfo) -> (r: Result<i16, Error>) {
        match read_fixed(raw, 2) {
            Ok(u) => Ok(#[verifier::truncate] ((#[verifier::truncate] (u as u16)) as i16)),
            Err(e) => Err(e),
        }
    }

    fn from_sql_null(ty: &Type, ctx: &SessionInfo) -> (r: Result<i16, Error>) {
        Err(Error::WasNull(WasNull))
    }
}

impl ToSql for i16 {
    open spec fn accepts_spec(ty: Type) -> bool {
        ty is Int2
    }

    open spec fn encoding(&self) -> Result<Option<Seq<u8>>, Error> {
        Ok(Some(int2_bytes(*self)))
    }

    fn accepts(ty: &Type) -> (r: bool) {
        matches!(ty, Type::Int2)
    }

    fn to_sql(&self, ty: &Type, out: &mut Vec<u8>, ctx: &SessionInfo) -> (r: Result<IsNull, Error>) {
        write_be((#[verifier::truncate] (*self as u16)) as u64, 2, out);
        Ok(IsNull::No)
    }
}

impl FromSql for i32 {
    open spec fn accepts_spec(ty: Type) -> bool {
        ty is Int4
    }

    open spec fn decodes(bytes: Seq<u8>, r: Result<i32, Error>) -> bool {
        r == decode_int4(bytes)
    }

    open spec fn decodes_null(r: Result<i32, Error>) -> bool {
        r == was_null::<i32>()
    }

    fn accepts(ty: &Type) -> (r: bool) {
        matches!(ty, Type::Int4)
    }

    fn from_sql(ty: &Type, raw: &[u8], ctx: &SessionInfo) -> (r: Result<i32, Error>) {
        match read_fixed(raw, 4) {
            Ok(u) => Ok(#[verifier::truncate] ((#[verifier::truncate] (u as u32)) as i32)),
            Err(e) => Err(e),
        }
    }

    fn from_sql_null(ty: &Type, ctx: &SessionInfo) -> (r: Result<i32, Error>) {
        Err(Error::WasNull(WasNull))
    }
}

impl ToSql for i32 {
    open spec fn accepts_spec(ty: Type) -> bool {
        ty is Int4
    }

    open spec fn encoding(&self) -> Result<Option<Seq<u8>>, Error> {
        Ok(Some(int4_bytes(*self)))
    }

    fn accepts(ty: &Type) -> (r: bool) {
        matches!(ty, Type::Int4)
    }

    fn to_sql(&self, ty: &Type, out: &mut Vec<u8>, ctx: &SessionInfo) -> (r: Result<IsNull, Error>) {
        write_be((#[verifier::truncate] (*self as u32)) as u64, 4, out);
        Ok(IsNull::No)
    }
}

impl FromSql for i64 {
    open spec fn accepts_spec(ty: Type) -> bool {
        ty is Int8
    }

    open spec fn decodes(bytes: Seq<u8>, r: Result<i64, Error>) -> bool {
        r == decode_int8(bytes)
    }

    open spec fn decodes_null(r: Result<i64, Error>) -> bool {
        r == was_null::<i64>()
    }

    fn accepts(ty: &Type) -> (r: bool) {
        matches!(ty, Type::Int8)
    }

    fn from_sql(ty: &Type, raw: &[u8], ctx: &SessionInfo) -> (r: Result<i64, Error>) {
        match read_fixed(raw, 8) {
            Ok(u) => Ok(#[verifier::truncate] (u as i64)),
            Err(e) => Err(e),
        }
    }

    fn from_sql_null(ty: &Type, ctx: &SessionInfo) -> (r: Result<i64, Error>) {
        Err(Error::WasNull(WasNull))
    }
}

impl ToSql for i64 {
    open spec fn accepts_spec(ty: Type) -> bool {
        ty is Int8
    }

    open spec fn encoding(&self) -> Result<Option<Seq<u8>>, Error> {
        Ok(Some(int8_bytes(*self)))
    }

    fn accepts(ty: &Type) -> (r: bool) {
        matches!(ty, Type::Int8)
    }

    fn to_sql(&self, ty: &Type, out: &mut Vec<u8>, ctx: &SessionInfo) -> (r: Result<IsNull, Error>) {
        write_be(#[verifier::truncate] (*self as u64), 8, out);
        Ok(IsNull::No)
    }
}

impl FromSql for u32 {
    open spec fn accepts_spec(ty: Type) -> bool {
        ty is Oid
    }

    open spec fn decodes(bytes: Seq<u8>, r: Result<u32, Error>) -> bool {
        r == decode_u32(bytes)
    }

    open spec fn decodes_null(r: Result<u32, Error>) -> bool {
        r == was_null::<u32>()
    }

    fn accepts(ty: &Type) -> (r: bool) {
        matches!(ty, Type::Oid)
    }

    fn from_sql(ty: &Type, raw: &[u8], ctx: &SessionInfo) -> (r: Result<u32, Error>) {
        match read_fixed(raw, 4) {
            Ok(u) => Ok(#[verifier::truncate] (u as u32)),
            Err(e) => Err(e),
        }
    }

    fn from_sql_null(ty: &Type, ctx: &SessionInfo) -> (r: Result<u32, Error>) {
        Err(Error::WasNull(WasNull))
    }
}

impl ToSql for u32 {
    open spec fn accepts_spec(ty: Type) -> bool {
        ty is Oid
    }

    open spec fn encoding(&self) -> Result<Option<Seq<u8>>, Error> {
        Ok(Some(u32_bytes(*self)))
    }

    fn accepts(ty: &Type) -> (r: bool) {
        matches!(ty, Type::Oid)
    }

    fn to_sql(&self, ty: &Type, out: &mut Vec<u8>, ctx: &SessionInfo) -> (r: Result<IsNull, Error>) {
        write_be(*self as u64, 4, out);
        Ok(IsNull::No)
    }
}

impl FromSql for Float4Bits {
    open spec fn accepts_spec(ty: Type) -> bool {
        ty is Float4
    }

    open spec fn decodes(bytes: Seq<u8>, r: Result<Float4Bits, Error>) -> bool {
        r == match decode_u32(bytes) {
            Ok(u) => Ok(Float4Bits(u)),
            Err(e) => Err(e),
        }
    }

    open spec fn decodes_null(r: Result<Float4Bits, Error>) -> bool {
        r == was_null::<Float4Bits>()
    }

    fn accepts(ty: &Type) -> (r: bool) {
        matches!(ty, Type::Float4)
    }

    fn from_sql(ty: &Type, raw: &[u8], ctx: &SessionInfo) -> (r: Result<Float4Bits, Error>) {
        match read_fixed(raw, 4) {
            Ok(u) => Ok(Float4Bits(#[verifier::truncate] (u as u32))),
            Err(e) => Err(e),
        }
    }

    fn from_sql_null(ty: &Type, ctx: &SessionInfo) -> (r: Result<Float4Bits, Error>) {
        Err(Error::WasNull(WasNull))
    }
}

impl ToSql for Float4Bits {
    open spec fn accepts_spec(ty: Type) -> bool {
        ty is Float4
    }

    open spec fn encoding(&self) -> Result<Option<Seq<u8>>, Error> {
        Ok(Some(u32_bytes(self.0)))
    }

    fn accepts(ty: &Type) -> (r: bool) {
        matches!(ty, Type::Float4)
    }

    fn to_sql(&self, ty: &Type, out: &mut Vec<u8>, ctx: &SessionInfo) -> (r: Result<IsNull, Error>) {
        write_be(self.0 as u64, 4, out);
        Ok(IsNull::No)
    }
}

impl FromSql for Float8Bits {
    open spec fn accepts_spec(ty: Type) -> bool {
        ty is Float8
    }

    open spec fn decodes(bytes: Seq<u8>, r: Result<Float8Bits, Error>) -> bool {
        r == match decode_u64(bytes) {
            Ok(u) => Ok(Float8Bits(u)),
            Err(e) => Err(e),
        }
    }

    open spec fn decodes_null(r: Result<Float8Bits, Error>) -> bool {
        r == was_null::<Float8Bits>()
    }

    fn accepts(ty: &Type) -> (r: bool) {
        matches!(ty, Type::Float8)
    }

    fn from_sql(ty: &Type, raw: &[u8], ctx: &SessionInfo) -> (r: Result<Float8Bits, Error>) {
        match read_fixed(raw, 8) {
            Ok(u) => Ok(Float8Bits(u)),
            Err(e) => Err(e),
        }
    }

    fn from_sql_null(ty: &Type, ctx: &SessionInfo) -> (r: Result<Float8Bits, Error>) {
        Err(Error::WasNull(WasNull))
    }
}

impl ToSql for Float8Bits {
    open spec fn accepts_spec(ty: Type) -> bool {
        ty is Float8
    }

    open spec fn encoding(&self) -> Result<Option<Seq<u8>>, Error> {
        Ok(Some(u64_bytes(self.0)))
    }

    fn accepts(ty: &Type) -> (r: bool) {
        matches!(ty, Type::Float8)
    }

    fn to_sql(&self, ty: &Type, out: &mut Vec<u8>, ctx: &SessionInfo) -> (r: Result<IsNull, Error>) {
        write_be(self.0, 8, out);
        Ok(IsNull::No)
    }
}

impl FromSql for Vec<u8> {
    open spec fn accepts_spec(ty: Type) -> bool {
        ty is Bytea
    }

    open spec fn decodes(bytes: Seq<u8>, r: Result<Vec<u8>, Error>) -> bool {
        r matches Ok(v) && v@ == bytes
    }

    open spec fn decodes_null(r: Result<Vec<u8>, Error>) -> bool {
        r == was_null::<Vec<u8>>()
    }

    fn accepts(ty: &Type) -> (r: bool) {
        matches!(ty, Type::Bytea)
    }

    fn from_sql(ty: &Type, raw: &[u8], ctx: &SessionInfo) -> (r: Result<Vec<u8>, Error>) {
        Ok(slice_to_vec(raw))
    }

    fn from_sql_null(ty: &Type, ctx: &SessionInfo) -> (r: Result<Vec<u8>, Error>) {
        Err(Error::WasNull(WasNull))
    }
}

impl<'a> ToSql for &'a [u8] {
    open spec fn accepts_spec(ty: Type) -> bool {
        ty is Bytea
    }

    open spec fn encoding(&self) -> Result<Option<Seq<u8>>, Error> {
        Ok(Some(self@))
    }

    fn accepts(ty: &Type) -> (r: bool) {
        matches!(ty, Type::Bytea)
    }

    fn to_sql(&self, ty: &Type, out: &mut Vec<u8>, ctx: &SessionInfo) -> (r: Result<IsNull, Error>) {
        append_bytes(out, *self);
        Ok(IsNull::No)
    }
}

impl ToSql for Vec<u8> {
    open spec fn accepts_spec(ty: Type) -> bool {
        ty is Bytea
    }

    open spec fn encoding(&self) -> Result<Option<Seq<u8>>, Error> {
        Ok(Some(self@))
    }

    fn accepts(ty: &Type) -> (r: bool) {
        matches!(ty, Type::Bytea)
    }

    fn to_sql(&self, ty: &Type, out: &mut Vec<u8>, ctx: &SessionInfo) -> (r: Result<IsNull, Error>) {
        append_bytes(out, self.as_slice());
        Ok(IsNull::No)
    }
}

impl FromSql for String {
    open spec fn accepts_spec(ty: Type) -> bool {
        is_text_type(ty)
    }

    open spec fn decodes(bytes: Seq<u8>, r: Result<String, Error>) -> bool {
        text_decodes(bytes, r)
    }

    open spec fn decodes_null(r: Result<String, Error>) -> bool {
        r == was_null::<String>()
    }

    fn accepts(ty: &Type) -> (r: bool) {
        text_accepts(ty)
    }

    fn from_sql(ty: &Type, raw: &[u8], ctx: &SessionInfo) -> (r: Result<String, Error>) {
        match string_from_utf8(slice_to_vec(raw)) {
            Some(s) => Ok(s),
            None => Err(Error::Conversion(ConversionError::InvalidUtf8)),
        }
    }

    fn from_sql_null(ty: &Type, ctx: &SessionInfo) -> (r: Result<String, Error>) {
        Err(Error::WasNull(WasNull))
    }
}

impl<'a> ToSql for &'a str {
    open spec fn accepts_spec(ty: Type) -> bool {
        is_text_type(ty)
    }

    open spec fn encoding(&self) -> Result<Option<Seq<u8>>, Error> {
        Ok(Some(encode_utf8((*self)@)))
    }

    fn accepts(ty: &Type) -> (r: bool) {
        text_accepts(ty)
    }

    fn to_sql(&self, ty: &Type, out: &mut Vec<u8>, ctx: &SessionInfo) -> (r: Result<IsNull, Error>) {
        append_bytes(out, self.as_bytes());
        Ok(IsNull::No)
    }
}

impl ToSql for String {
    open spec fn accepts_spec(ty: Type) -> bool {
        is_text_type(ty)
    }

    open spec fn encoding(&self) -> Result<Option<Seq<u8>>, Error> {
        Ok(Some(encode_utf8(self@)))
    }

    fn accepts(ty: &Type) -> (r: bool) {
        text_accepts(ty)
    }

    fn to_sql(&self, ty: &Type, out: &mut Vec<u8>, ctx: &SessionInfo) -> (r: Result<IsNull, Error>) {
        append_bytes(out, self.as_str().as_bytes());
        Ok(IsNull::No)
    }
}

} // verus!
