//! The header descriptor and its sample-format enumeration.

use vstd::prelude::*;

pub mod err;
pub use err::RErr;

verus! {

/// Sample format the audio data is coded with. Variants starting with
/// `Int` mean "signed integer" (`i` in Rust), `Float` means "floating
/// point" (`f`). The wire representation is a 3-bit code (0..6);
/// codes 6 and 7 are reserved and rejected on decode.
#[derive(Debug, Copy, Clone, PartialEq, Eq, Structural)]
pub enum Fmt {
    Int8,
    Int16,
    Int32,
    Int64,
    Float32,
    Float64,
}

/// The 3-bit wire code of a sample format.
pub open spec fn fmt_code(f: Fmt) -> u8 {
    match f {
        Fmt::Int8 => 0,
        Fmt::Int16 => 1,
        Fmt::Int32 => 2,
        Fmt::Int64 => 3,
        Fmt::Float32 => 4,
        Fmt::Float64 => 5,
    }
}

/// The sample format a 3-bit wire code stands for, `None` for the two
/// reserved codes.
pub open spec fn fmt_of_code(c: u8) -> Option<Fmt> {
    if c == 0 { Some(Fmt::Int8) }
    else if c == 1 { Some(Fmt::Int16) }
    else if c == 2 { Some(Fmt::Int32) }
    else if c == 3 { Some(Fmt::Int64) }
    else if c == 4 { Some(Fmt::Float32) }
    else if c == 5 { Some(Fmt::Float64) }
    else { None }
}

impl Fmt {
    /// The wire code of this format.
    pub fn code(&self) -> (r: u8)
        ensures
            r == fmt_code(*self),
    {
        match self {
            Fmt::Int8 => 0,
            Fmt::Int16 => 1,
            Fmt::Int32 => 2,
            Fmt::Int64 => 3,
            Fmt::Float32 => 4,
            Fmt::Float64 => 5,
        }
    }

    /// The format a wire code stands for; the reserved codes 6 and 7
    /// (and anything larger) are rejected with `RErr::Format`.
    pub fn try_from(f: u8) -> (r: Result<Fmt, RErr>)
        ensures
            r == (match fmt_of_code(f) {
                Some(x) => Ok::<Fmt, RErr>(x),
                None => Err::<Fmt, RErr>(RErr::Format),
            }),
    {
        match f {
            0 => Ok(Fmt::Int8),
            1 => Ok(Fmt::Int16),
            2 => Ok(Fmt::Int32),
            3 => Ok(Fmt::Int64),
            4 => Ok(Fmt::Float32),
            5 => Ok(Fmt::Float64),
            _ => Err(RErr::Format),
        }
    }
}

/// Header of the container format: the metadata needed to reproduce
/// the encapsulated audio data.
#[derive(Debug, Copy, Clone, PartialEq, Eq, Structural)]
pub struct Hdr {
    /// Sample format used to code audio samples to byte data.
    pub format: Fmt,

    /// Sampling rate of the PCM audio in Hz. Exactly eight values are
    /// allowed: 8000, 12000, 22050, 32000, 44100, 64000, 96000, 192000.
    pub rate: u32,

    /// Number of audio channels, in 1..=8. The channel layout is
    /// always interleaved.
    pub channels: u8,
}

impl Hdr {
    /// A header is valid when its rate is one of the eight allowed
    /// values and its channel count lies in 1..=8.
    pub open spec fn valid(self) -> bool {
        crate::rate_index_of(self.rate) is Some
            && 1 <= self.channels <= 8
    }
}

} // verus!
