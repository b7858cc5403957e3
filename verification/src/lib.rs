//! Bit-exact encoding and decoding of the IPv4 packet header.
//!
//! The wire layout is defined once, as spec functions over `Seq<u8>`, and the
//! executable encoder and decoder are proved against that definition.

pub mod big_endian;
pub mod error;
pub mod header;
pub mod laws;
pub mod serializable;

pub use error::DecodeError;
pub use header::IPv4Header;
pub use header::IPv4HeaderView;
pub use serializable::BitSerializable;
