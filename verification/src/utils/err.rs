//! The closed error taxonomy of the codec.

use vstd::prelude::*;

verus! {

/// Everything that can go wrong while muxing or demuxing a stream.
/// Each kind is terminal for the call that raised it.
#[derive(Debug, Copy, Clone, PartialEq, Eq, Structural)]
pub enum RErr {
    /// Invalid start code: the input does not begin with the marker
    /// that identifies this container format.
    StartCode,
    /// The decoded sample-format code is one of the reserved values.
    Format,
    /// An I/O failure: too little header data, or a failure in the
    /// compressor or decompressor.
    IO,
    /// The sample rate handed to the encoder is not an allowed value.
    Rate,
    /// The channel count handed to the encoder is not in 1..=8.
    Channels,
}

} // verus!
