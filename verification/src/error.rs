//! The error taxonomy shared by the codecs and the dispatcher.

use vstd::prelude::*;

verus! {

/// Which structural rule of a format was broken.
#[derive(Debug, Clone, Copy, PartialEq, Eq, Structural)]
pub enum FormatDetail {
    /// The four leading magic bytes of the binary format were wrong.
    HeaderMagic,
    /// The four magic bytes of the binary metadata section were wrong.
    MetaMagic,
    /// A metadata entry held no `=` separator.
    MetaEntryMissingEquals,
    /// A line-type tag of the web-service format was not 0, 1 or 2.
    LineTypeTag,
}

/// Which field of the binary format was being read when the input ended.
#[derive(Debug, Clone, Copy, PartialEq, Eq, Structural)]
pub enum TrkField {
    HeaderMagic,
    Version,
    FeaturesLength,
    FeaturesString,
    SongLength,
    Song,
    StartPosition,
    LineCount,
    LineFlags,
    Multiplier,
    ZoomFlag,
    ZoomPayload,
    LineId,
    ExtensionPayload,
    SceneryWidth,
    LinePoint,
    MetaCount,
    MetaEntryLength,
    MetaEntry,
}

/// Why a track cannot be represented in the requested format.
#[derive(Debug, Clone, Copy, PartialEq, Eq, Structural)]
pub enum UnsupportedKind {
    /// The binary format carries exactly one rider.
    MultipleEntities,
    /// The web-service format needs at least one rider.
    NoEntities,
    /// The target format only carries compact sled riders.
    CustomEntity,
    /// The target format cannot carry this acceleration multiplier.
    AccelerationAmount,
    /// The binary format only carries the two stock start velocities.
    EntityVelocity,
    /// The song name does not fit in its one-byte length field.
    SongLength,
    /// The line count does not fit in its 32-bit field.
    LineCount,
    /// The metadata entry count does not fit in its 16-bit signed field.
    MetaCount,
    /// A metadata entry does not fit in its 16-bit length field.
    MetaEntryLength,
    /// A metadata key holding `=` would not split back into the same key.
    MetaKeyDelimiter,
}

/// Everything that can go wrong while decoding, encoding or dispatching.
#[derive(Debug, Clone, Copy, PartialEq, Eq, Structural)]
pub enum TrackError {
    /// Structurally invalid input.
    FormatError(FormatDetail),
    /// The input ended inside mandatory data.
    TruncatedInput(TrkField),
    /// The track cannot be represented in the requested format.
    UnsupportedConversion(UnsupportedKind),
    /// The file's extension is not a registered format.
    UnknownExtension,
    /// The file has no extension to dispatch on.
    MissingExtension,
}

} // verus!
