//! Verified marshaling between Rust values and the C side of raylib: strings
//! become nul-terminated byte buffers before a native call, buffers that the
//! native library hands back become owned strings, and native results are
//! checked against their sentinels and promised ranges before use.

pub mod cstring;
pub mod error;
pub mod random;
pub mod text;

pub use crate::cstring::{c_bytes_prefix, to_c_bytes};
pub use crate::error::BindingError;
pub use crate::random::checked_random_value;
pub use crate::text::{text_from_c_bytes, text_from_loaded};
