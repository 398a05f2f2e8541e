//! The parsing interface shared by the header and its fields.

use vstd::prelude::*;

verus! {

/// A parse either yields a value or a textual message the caller must
/// branch on; parse failures never abort by themselves.
pub type ParseResult<T> = Result<T, String>;

/// Decoding a value of type `V` out of raw input of type `T`.
///
/// The impls carry no contract of their own here; each implementing type
/// exposes an inherent `parse` with the full contract, which the impl
/// forwards to.
pub trait Parse<T = u8, V = Self> {
    fn parse(t: T) -> ParseResult<V>;
}

} // verus!
