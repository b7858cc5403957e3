//! The capability of going to the wire and back.

use vstd::prelude::*;
use crate::error::DecodeError;

verus! {

/// A value with a canonical wire representation.
///
/// An implementor fixes the format as two spec functions over its view: the
/// bytes that a value is written as, and what a sequence of bytes is read as.
/// The two executable methods are held to these.
pub trait BitSerializable: Sized + View {
    /// The bytes that a value with view `v` is written as.
    spec fn encoding(v: Self::V) -> Seq<u8>;

    /// What `bytes` is read as: the view of a value, or why there is none.
    spec fn decoding(bytes: Seq<u8>) -> Result<Self::V, DecodeError>;

    /// Writes the value in its wire representation.
    fn to_bytes(&self) -> (bytes: Vec<u8>)
        ensures
            bytes@ == Self::encoding(self@),
    ;

    /// Reads a value from the start of `bytes`, or says why none can be read.
    fn from_bytes(bytes: &[u8]) -> (r: Result<Self, DecodeError>)
        ensures
            match r {
                Ok(v) => Self::decoding(bytes@) == Ok::<Self::V, DecodeError>(v@),
                Err(e) => Self::decoding(bytes@) == Err::<Self::V, DecodeError>(e),
            },
    ;
}

} // verus!
