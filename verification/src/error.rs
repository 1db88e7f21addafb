use vstd::prelude::*;

verus! {

/// Structured failure conditions surfaced by the binding layer.
///
/// Every public operation distinguishes these kinds so that a caller can
/// decide whether to retry, abort, or re-enumerate ports.
#[derive(Debug, Clone, PartialEq, Eq)]
pub enum RtMidiError {
    /// Handle construction failed: no usable native backend, or resource
    /// exhaustion on the native side.
    CreationError,
    /// A caller-supplied string holds an embedded null byte and cannot be
    /// passed to the native layer as a C string.
    EncodingError,
    /// A native byte sequence is not valid text.
    DecodingError,
    /// The two-phase length protocol produced an inconsistent length.
    MarshallingError,
    /// The native layer reported failure through its status flag; carries the
    /// native message when one was present and decodable.
    NativeFailure(String),
    /// The operation referenced a port index that is no longer valid.
    InvalidPort,
    /// A send payload exceeds the width of the native length type.
    MessageTooLarge,
}

} // verus!
