//! Conversion of single column values between host values and the binary
//! wire representation of a PostgreSQL server.

pub mod bytes;
pub mod codec;
pub mod error;
pub mod hstore;
pub mod laws;
pub mod primitive;
pub mod session;
pub mod text;
pub mod types;

pub use codec::{from_sql_checked, FromSql, ToSql};
pub use error::{ConversionError, Error, IsNull, WasNull, WrongType};
pub use hstore::HstoreMap;
pub use primitive::{Float4Bits, Float8Bits};
pub use session::SessionInfo;
pub use types::{Kind, Oid, Other, Type};
