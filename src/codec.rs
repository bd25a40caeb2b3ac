//! The decode and encode capabilities, the checked entry points, and the
//! codecs of the scalar, byte and text representations.

use vstd::prelude::*;

use crate::error::{ConversionError, Error, IsNull, WasNull, WrongType};
use crate::session::SessionInfo;
use crate::types::Type;

verus! {

pub open spec fn truncated<T>() -> Result<T, Error> {
    Err(Error::Conversion(ConversionError::Truncated))
}

pub open spec fn was_null<T>() -> Result<T, Error> {
    Err(Error::WasNull(WasNull))
}

/// A representation that can be created from a wire value.
pub trait FromSql: Sized {
    /// The wire types that this representation decodes.
    spec fn accepts_spec(ty: Type) -> bool;

    /// Whether `r` is the outcome of decoding the non-NULL payload `bytes`.
    spec fn decodes(bytes: Seq<u8>, r: Result<Self, Error>) -> bool;

    /// Whether `r` is the outcome of decoding a NULL value.
    spec fn decodes_null(r: Result<Self, Error>) -> bool;

    /// Determines if a value of this representation can be created from the
    /// given type.
    fn accepts(ty: &Type) -> (r: bool)
        ensures
            r == Self::accepts_spec(*ty),
    ;

    /// Creates a value from the binary payload of one non-NULL wire value.
    fn from_sql(ty: &Type, raw: &[u8], ctx: &SessionInfo) -> (r: Result<Self, Error>)
        requires
            Self::accepts_spec(*ty),
        ensures
            Self::decodes(raw@, r),
    ;

    /// Creates a value from a NULL wire value.
    fn from_sql_null(ty: &Type, ctx: &SessionInfo) -> (r: Result<Self, Error>)
        requires
            Self::accepts_spec(*ty),
        ensures
            Self::decodes_null(r),
    ;
}

/// Decodes one wire value, `None` standing for NULL, after checking that
/// the representation accepts its type.
pub fn from_sql_checked<T: FromSql>(ty: &Type, raw: Option<&[u8]>, ctx: &SessionInfo) -> (r: Result<
    T,
    Error,
>)
    ensures
        !T::accepts_spec(*ty) ==> r == Err::<T, Error>(Error::WrongType(WrongType(*ty))),
        T::accepts_spec(*ty) ==> match raw {
            None => T::decodes_null(r),
            Some(b) => T::decodes(b@, r),
        },
{
    if !T::accepts(ty) {
        return Err(Error::WrongType(WrongType::new(ty.clone())));
    }
    match raw {
        None => T::from_sql_null(ty, ctx),
        Some(b) => T::from_sql(ty, b, ctx),
    }
}

/// Whether an encoder that was to produce `e` appended to `before` to give
/// `after` and returned `r`. `Ok(None)` stands for NULL, `Ok(Some(b))` for
/// the payload `b`.
pub open spec fn emitted(
    e: Result<Option<Seq<u8>>, Error>,
    before: Seq<u8>,
    after: Seq<u8>,
    r: Result<IsNull, Error>,
) -> bool {
    match e {
        Ok(None) => r == Ok::<IsNull, Error>(IsNull::Yes) && after == before,
        Ok(Some(b)) => r == Ok::<IsNull, Error>(IsNull::No) && after == before + b,
        Err(err) => r == Err::<IsNull, Error>(err) && after == before,
    }
}

/// A representation that can be converted into a wire value.
pub trait ToSql {
    /// The wire types that this representation encodes to.
    spec fn accepts_spec(ty: Type) -> bool;

    /// What encoding `self` gives: NULL, a payload, or an error.
    spec fn encoding(&self) -> Result<Option<Seq<u8>>, Error>;

    /// Determines if a value of this representation can be converted to the
    /// given type.
    fn accepts(ty: &Type) -> (r: bool)
        ensures
            r == Self::accepts_spec(*ty),
    ;

    /// Appends the binary payload of `self` to `out`, or reports NULL having
    /// appended nothing.
    fn to_sql(&self, ty: &Type, out: &mut Vec<u8>, ctx: &SessionInfo) -> (r: Result<IsNull, Error>)
        requires
            Self::accepts_spec(*ty),
        ensures
            emitted(self.encoding(), old(out)@, final(out)@, r),
    ;

    /// The checked entry point: fails with a wrong-type error, appending
    /// nothing, unless this representation accepts `ty`.
    fn to_sql_checked(&self, ty: &Type, out: &mut Vec<u8>, ctx: &SessionInfo) -> (r: Result<
        IsNull,
        Error,
    >) where Self: Sized
        ensures
            !Self::accepts_spec(*ty) ==> r == Err::<IsNull, Error>(
                Error::WrongType(WrongType(*ty)),
            ) && final(out)@ == old(out)@,
            Self::accepts_spec(*ty) ==> emitted(self.encoding(), old(out)@, final(out)@, r),
    {
        if !Self::accepts(ty) {
            return Err(Error::WrongType(WrongType::new(ty.clone())));
        }
        self.to_sql(ty, out, ctx)
    }
}

impl<T: FromSql> FromSql for Option<T> {
    open spec fn accepts_spec(ty: Type) -> bool {
        T::accepts_spec(ty)
    }

    open spec fn decodes(bytes: Seq<u8>, r: Result<Option<T>, Error>) -> bool {
        match r {
            Ok(Some(v)) => T::decodes(bytes, Ok(v)),
            Ok(None) => false,
            Err(e) => T::decodes(bytes, Err(e)),
        }
    }

    open spec fn decodes_null(r: Result<Option<T>, Error>) -> bool {
        r == Ok::<Option<T>, Error>(None)
    }

    fn accepts(ty: &Type) -> (r: bool) {
        T::accepts(ty)
    }

    fn from_sql(ty: &Type, raw: &[u8], ctx: &SessionInfo) -> (r: Result<Option<T>, Error>) {
        match T::from_sql(ty, raw, ctx) {
            Ok(v) => Ok(Some(v)),
            Err(e) => Err(e),
        }
    }

    fn from_sql_null(ty: &Type, ctx: &SessionInfo) -> (r: Result<Option<T>, Error>) {
        Ok(None)
    }
}

impl<T: ToSql> ToSql for Option<T> {
    open spec fn accepts_spec(ty: Type) -> bool {
        T::accepts_spec(ty)
    }

    open spec fn encoding(&self) -> Result<Option<Seq<u8>>, Error> {
        match self {
            Some(v) => v.encoding(),
            None => Ok(None),
        }
    }

    fn accepts(ty: &Type) -> (r: bool) {
        T::accepts(ty)
    }

    fn to_sql(&self, ty: &Type, out: &mut Vec<u8>, ctx: &SessionInfo) -> (r: Result<IsNull, Error>) {
        match self {
            Some(v) => v.to_sql(ty, out, ctx),
            None => Ok(IsNull::Yes),
        }
    }
}

impl<'a, T: ToSql> ToSql for &'a T {
    open spec fn accepts_spec(ty: Type) -> bool {
        T::accepts_spec(ty)
    }

    open spec fn encoding(&self) -> Result<Option<Seq<u8>>, Error> {
        (**self).encoding()
    }

    fn accepts(ty: &Type) -> (r: bool) {
        T::accepts(ty)
    }

    fn to_sql(&self, ty: &Type, out: &mut Vec<u8>, ctx: &SessionInfo) -> (r: Result<IsNull, Error>) {
        (**self).to_sql(ty, out, ctx)
    }
}

} // verus!
