//! An encoder for the Redis Serialization Protocol (RESP).
//!
//! The library turns structured values into RESP wire text: scalars become
//! bulk strings, optionals and the unit value become the null bulk string,
//! and fixed-length sequences become arrays. Shapes outside this protocol
//! subset (maps, named structs, enum variants, raw byte arrays) are rejected
//! with a typed error rather than mis-encoded.

pub mod digits;
pub mod error;
pub mod laws;
pub mod ser;
pub mod value;
pub mod wire;

pub use error::{Error, ErrorKind};
pub use ser::{to_string, Serializer};
pub use value::Value;
