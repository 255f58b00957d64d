//! A small string type with a fixed capacity, stored inline.
//!
//! `FixStr<N>` holds up to `N` octets of UTF-8 text in a buffer of its own,
//! without allocating. It is built from text that fits and is immutable
//! afterwards; it can be borrowed as `&str`, copied, compared, ordered and
//! hashed by the text it holds.
//!
//! ```
//! use fixstr::FixStr;
//!
//! let tiny: FixStr<16> = FixStr::new("Hello").unwrap();
//! assert_eq!(tiny.as_str(), "Hello");
//! assert_eq!(tiny.capacity(), 16);
//!
//! let tiny2: FixStr<16> = "World".try_into().unwrap();
//! let message: String = tiny2.into();
//! ```
//!
//! Every function is verified against its contract. The contracts speak of
//! the text a container holds (its view, a sequence of characters) and of
//! the octets that encode it.
pub mod compare;
pub mod container;
pub mod convert;
pub mod display;
pub mod message;
pub mod std_specs;
pub mod text;

pub use crate::container::FixStr;
