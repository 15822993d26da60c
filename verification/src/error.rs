//! Error taxonomy of the decoder.

use vstd::prelude::*;

verus! {

/// The seven body sections, in the order in which they appear on the wire.
#[derive(Clone, Copy, Debug, PartialEq, Eq, Structural)]
pub enum Section {
    TransitionTimes,
    TransitionTypeIndices,
    LocalTimeTypes,
    Designations,
    LeapSecondPairs,
    StandardWallIndicators,
    UtLocalIndicators,
}

/// Every way in which decoding a TZif buffer can fail.
#[derive(Clone, Copy, Debug, PartialEq, Eq, Structural)]
pub enum TzError {
    /// The input is too short to contain a required fixed-size region.
    FormatError,
    /// The first four header bytes are not the ASCII tag `TZif`.
    MagicMismatch,
    /// A header count field is negative; counts are non-negative by definition.
    NegativeCount,
    /// A body section, computed from the header counts, exceeds the remaining
    /// buffer.  Carries the first failing section and the number of missing
    /// bytes.
    TruncatedBody(Section, u64),
    /// A transition-type index or a designation index points outside its
    /// target collection.
    IndexOutOfRange,
    /// A designation index has no following NUL terminator within the blob.
    UnterminatedDesignation,
}

} // verus!
