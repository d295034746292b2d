//! Compact unique identifiers: 128-bit values in three flavours, their text
//! forms, and random strings over a 64-symbol alphabet.
//!
//! - [`identifier`] holds the identifier itself: reading it from text or
//!   bytes, and its fields and canonical text.
//! - [`encoding`] gives its plain hexadecimal and base64 forms, among them
//!   the two short forms over the leading 9 and 12 bytes.
//! - [`generate`] makes fresh identifiers: time-ordered, time-ordered with a
//!   node, and random.
//! - [`nano`] makes random strings that have nothing to do with the 128-bit
//!   layout.
//! - [`batch`] makes many of any of these side by side.
//! - [`hex_text`], [`big_endian`] and [`strings`] are what the others are
//!   built from.

pub mod batch;
pub mod big_endian;
pub mod encoding;
pub mod error;
pub mod generate;
pub mod hex_text;
pub mod identifier;
pub mod nano;
pub mod strings;

pub use crate::batch::{
    generate_batch, generate_id_batch, nano_id_batch, short_id_batch, uuid4_batch, uuid7_batch,
};
pub use crate::error::InvalidFormat;
pub use crate::generate::{generate_id, short_id, uuid1, uuid4, uuid7};
pub use crate::identifier::UUID;
pub use crate::nano::nano_id;
