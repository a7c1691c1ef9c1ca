use vstd::prelude::*;

verus! {

/// Everything that can go wrong while building, transforming or reading images.
#[derive(Debug, Clone, Copy, PartialEq, Eq, Structural)]
pub enum MangoError {
    /// A textual algorithm name names no known algorithm.
    UnsupportedAlgorithm,
    /// A textual media-type name names no known media type.
    UnsupportedMediaType,
    /// A payload is not valid text encoding, or not valid compressed data.
    CorruptPayload,
    /// Wrong credential, or a ciphertext that was tampered with.
    DecryptionFailed,
    /// The top of the stage record is already a compression stage.
    AlreadyCompressed,
    /// The top of the stage record is not a compression stage.
    NoCompressionApplied,
    /// The top of the stage record is not an encryption stage.
    NoEncryptionApplied,
    /// Raw bytes were asked for while stages are still applied.
    PipelineNotFullyReversed,
    /// No image stands at the given position.
    IndexOutOfRange,
    /// The payload is larger than the cipher accepts.
    PayloadTooLarge,
}

} // verus!
