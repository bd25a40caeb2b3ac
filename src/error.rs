//! The ways a conversion fails.

use vstd::prelude::*;

use crate::types::Type;

verus! {

/// An error indicating that a `NULL` value was handed to a representation
/// that cannot hold `NULL`.
#[derive(Debug, Clone, Copy, PartialEq, Eq)]
pub struct WasNull;

impl WasNull {
    /// A short description of the error.
    pub fn description(&self) -> (r: &'static str)
        ensures
            r@ == "a Postgres value was `NULL`"@,
    {
        "a Postgres value was `NULL`"
    }
}

/// An error indicating that a conversion was attempted between incompatible
/// host and server types.
#[derive(Debug, PartialEq, Eq)]
pub struct WrongType(pub Type);

impl WrongType {
    pub fn new(ty: Type) -> (r: WrongType)
        ensures
            r.0 == ty,
    {
        WrongType(ty)
    }

    /// A short description of the error.
    pub fn description(&self) -> (r: &'static str)
        ensures
            r@ == "cannot convert to or from a Postgres value"@,
    {
        "cannot convert to or from a Postgres value"
    }

    /// The full message, naming the type.
    pub fn to_display_string(&self) -> (r: String)
        ensures
            r@ == "cannot convert to or from a Postgres value of type `"@ + self.0.spec_display()
                + "`"@,
    {
        let head = "cannot convert to or from a Postgres value of type `".to_owned();
        let name = self.0.to_display_string();
        head.concat(name.as_str()).concat("`")
    }
}

/// What was wrong with the bytes or the value of a failed conversion.
#[derive(Debug, Clone, Copy, PartialEq, Eq)]
pub enum ConversionError {
    /// Text that is not valid UTF-8.
    InvalidUtf8,
    /// The payload ends before the layout does.
    Truncated,
    /// A length field that is negative where it must not be.
    InvalidLength,
    /// A length or count that does not fit in a signed 32-bit field.
    TooLarge,
}

/// An error of a conversion.
#[derive(Debug, PartialEq, Eq)]
pub enum Error {
    /// The value was `NULL`, and the representation cannot hold that.
    WasNull(WasNull),
    /// The representation does not convert to or from the type.
    WrongType(WrongType),
    /// The bytes are malformed, or the value cannot be sent.
    Conversion(ConversionError),
}

/// An enum representing the nullability of a value.
#[derive(Debug, Clone, Copy, PartialEq, Eq, Structural)]
pub enum IsNull {
    /// The value is NULL.
    Yes,
    /// The value is not NULL.
    No,
}

} // verus!
