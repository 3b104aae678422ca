//! Decoders for the binary asset containers of a 1990s 3-D game engine:
//! level geometry (`bsp`), skeletal models (`mdl`) and texture archives
//! (`wad`). All three formats address one flat byte buffer through tables of
//! offset/size pointers that are followed with a seek, read, and a restore of
//! the previous position. Every decoder here is specified against a
//! mathematical decoding function over the byte sequence, so decoding is
//! deterministic and never panics.
//!
//! Fields that the formats store as IEEE-754 single-precision floats are
//! carried as their raw 32-bit little-endian bit patterns; interpreting them
//! numerically is left to callers.

use vstd::prelude::*;

pub mod cursor;
pub mod records;
pub mod shared;
pub mod entities;
pub mod bsp;
pub mod wad;
pub mod mdl;

verus! {

/// The ways a decode can fail. Any failure aborts the whole decode of the
/// current container; no partial structure is returned.
#[derive(Clone, Copy, Debug, PartialEq, Eq, Structural)]
pub enum Error {
    /// The leading signature bytes are wrong or missing.
    MagicMismatch,
    /// The signature is present but the version field is unexpected.
    VersionMismatch,
    /// A read or seek would exceed the buffer bounds.
    UnexpectedEnd,
    /// A fixed-capacity string field is not valid UTF-8 after NUL-stripping.
    InvalidText,
    /// A stored discriminant or count field is outside its declared range.
    InvalidValue,
}

} // verus!
