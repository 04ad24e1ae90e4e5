use vstd::prelude::*;

verus! {

/// Failure of an encoding step: the compression engine failed, or the
/// caller's producer failed with an error of its own, passed through as is.
pub enum EncodeError<E> {
    Io(String),
    Inner(E),
}

/// Failure of a decoding step: the decompression engine refused the input,
/// or the caller's consumer failed with an error of its own.
pub enum DecodeError<E> {
    Io(String),
    Inner(E),
}

} // verus!
