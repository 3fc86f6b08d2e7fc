//! A minimal container format for PCM audio: a packed 2-byte header
//! carrying sample format, sample rate and channel count, followed by
//! the raw (or zstd-compressed) sample bytes.

use vstd::prelude::*;

mod utils;
pub use utils::{Fmt, Hdr, RErr, fmt_code, fmt_of_code};

verus! {

/// The sample rate stored at a given wire index (0..8).
pub open spec fn rate_at(i: u8) -> u32 {
    if i == 0 { 8000 }
    else if i == 1 { 12000 }
    else if i == 2 { 22050 }
    else if i == 3 { 32000 }
    else if i == 4 { 44100 }
    else if i == 5 { 64000 }
    else if i == 6 { 96000 }
    else { 192000 }
}

/// The wire index of an allowed sample rate, `None` for any other rate.
pub open spec fn rate_index_of(rate: u32) -> Option<u8> {
    if rate == 8000 { Some(0) }
    else if rate == 12000 { Some(1) }
    else if rate == 22050 { Some(2) }
    else if rate == 32000 { Some(3) }
    else if rate == 44100 { Some(4) }
    else if rate == 64000 { Some(5) }
    else if rate == 96000 { Some(6) }
    else if rate == 192000 { Some(7) }
    else { None }
}

/// Look up a sample rate in the fixed 8-entry rate table.
pub fn rate_index(rate: u32) -> (r: Option<u8>)
    ensures
        r == rate_index_of(rate),
{
    if rate == 8000 { Some(0) }
    else if rate == 12000 { Some(1) }
    else if rate == 22050 { Some(2) }
    else if rate == 32000 { Some(3) }
    else if rate == 44100 { Some(4) }
    else if rate == 64000 { Some(5) }
    else if rate == 96000 { Some(6) }
    else if rate == 192000 { Some(7) }
    else { None }
}

/// Read a wire index back as a sample rate.
pub fn rate_of_index(i: u8) -> (r: u32)
    ensures
        r == rate_at(i),
{
    if i == 0 { 8000 }
    else if i == 1 { 12000 }
    else if i == 2 { 22050 }
    else if i == 3 { 32000 }
    else if i == 4 { 44100 }
    else if i == 5 { 64000 }
    else if i == 6 { 96000 }
    else { 192000 }
}

/// First header byte: the 6-bit start code `0x3d` in bits 7..2, the
/// compression flag in bit 1, and the top bit of the format code in
/// bit 0.
pub open spec fn byte0_of(compressed: bool, fc: u8) -> u8 {
    (0x3du8 << 2) | ((if compressed { 1u8 } else { 0u8 }) << 1) | (fc >> 2)
}

/// Second header byte: the low two bits of the format code in bits
/// 7..6, the rate-table index in bits 5..3, and `channels - 1` in
/// bits 2..0.
pub open spec fn byte1_of(fc: u8, ri: u8, ch0: u8) -> u8 {
    ((fc & 3) << 6) | (ri << 3) | ch0
}

/// The two wire bytes a valid header packs into.
pub open spec fn header_bytes(h: Hdr, compressed: bool) -> Seq<u8> {
    let fc = fmt_code(h.format);
    let ri = rate_index_of(h.rate).unwrap();
    let ch0 = (h.channels - 1) as u8;
    seq![byte0_of(compressed, fc), byte1_of(fc, ri, ch0)]
}

/// What decoding two wire bytes yields: the start code is checked
/// first, then the reconstructed format code; rate index and channel
/// count are always in range by construction.
pub open spec fn decode2(b0: u8, b1: u8) -> Result<(Hdr, bool), RErr> {
    if b0 >> 2 != 0x3d {
        Err(RErr::StartCode)
    } else {
        match fmt_of_code(((b0 & 1) << 2) | (b1 >> 6)) {
            None => Err(RErr::Format),
            Some(f) => Ok((
                Hdr {
                    format: f,
                    rate: rate_at((b1 >> 3) & 7),
                    channels: ((b1 & 7) + 1) as u8,
                },
                ((b0 >> 1) & 1) == 1,
            )),
        }
    }
}

/// Serialise a header into its two wire bytes, with the given
/// compression flag. The rate is validated first, then the channel
/// count; a valid header always encodes.
pub fn encode_header(h: &Hdr, compressed: bool) -> (r: Result<(u8, u8), RErr>)
    ensures
        (r == Err::<(u8, u8), RErr>(RErr::Rate)) <==> rate_index_of(h.rate) is None,
        (r == Err::<(u8, u8), RErr>(RErr::Channels))
            <==> (rate_index_of(h.rate) is Some && !(1 <= h.channels <= 8)),
        h.valid() <==> r is Ok,
        (match r {
            Ok(p) => seq![p.0, p.1] == header_bytes(*h, compressed),
            Err(_) => true,
        }),
{
    let ri: u8 = match rate_index(h.rate) {
        Some(i) => i,
        None => { return Err(RErr::Rate); }
    };
    if !(1 <= h.channels && h.channels <= 8) {
        return Err(RErr::Channels);
    }
    let fc: u8 = h.format.code();
    let fl: u8 = if compressed { 1 } else { 0 };
    let b0: u8 = (0x3du8 << 2) | (fl << 1) | (fc >> 2);
    let b1: u8 = ((fc & 3) << 6) | (ri << 3) | (h.channels - 1);
    proof {
        assert(seq![b0, b1] =~= header_bytes(*h, compressed));
    }
    Ok((b0, b1))
}

/// Parse two wire bytes back into a header and the compression flag.
pub fn decode_header(b0: u8, b1: u8) -> (r: Result<(Hdr, bool), RErr>)
    ensures
        r == decode2(b0, b1),
{
    if (b0 >> 2) != 0x3d {
        return Err(RErr::StartCode);
    }
    let fc: u8 = ((b0 & 1) << 2) | (b1 >> 6);
    let format = match Fmt::try_from(fc) {
        Ok(f) => f,
        Err(e) => { return Err(e); }
    };
    let ri: u8 = (b1 >> 3) & 7;
    let rate: u32 = rate_of_index(ri);
    assert((b1 & 7) < 8) by (bit_vector);
    let channels: u8 = (b1 & 7) + 1;
    Ok((Hdr { format, rate, channels }, ((b0 >> 1) & 1) == 1))
}

/// The zstd frame that compressing the given bytes at the given level
/// produces.
pub uninterp spec fn zstd_frame_of(data: Seq<u8>, level: u8) -> Seq<u8>;

/// The bytes a zstd frame decompresses to.
pub uninterp spec fn zstd_plain_of(frame: Seq<u8>) -> Seq<u8>;

/// Relies on zstd::stream::encode_all: compresses the whole input into
/// one zstd frame, whose bytes depend on the input and the level alone.
#[verifier::external_body]
fn zstd_compress(data: &Vec<u8>, level: u8) -> (r: Result<Vec<u8>, RErr>)
    ensures
        (match r {
            Ok(v) => v@ == zstd_frame_of(data@, level),
            Err(e) => e == RErr::IO,
        }),
{
    match zstd::stream::encode_all(data.as_slice(), level as i32) {
        Ok(v) => Ok(v),
        Err(_) => Err(RErr::IO),
    }
}

/// Relies on zstd::stream::decode_all: decompresses a zstd frame and
/// fails on input that is not one; the output depends on the input
/// bytes alone.
#[verifier::external_body]
fn zstd_decompress(data: &Vec<u8>) -> (r: Result<Vec<u8>, RErr>)
    ensures
        (match r {
            Ok(v) => v@ == zstd_plain_of(data@),
            Err(e) => e == RErr::IO,
        }),
{
    match zstd::stream::decode_all(data.as_slice()) {
        Ok(v) => Ok(v),
        Err(_) => Err(RErr::IO),
    }
}

/// Copy of the bytes of `data` from position `start` on.
fn tail_from(data: &Vec<u8>, start: usize) -> (v: Vec<u8>)
    requires
        start <= data@.len(),
    ensures
        v@ == data@.skip(start as int),
{
    let mut v: Vec<u8> = Vec::new();
    let mut i: usize = start;
    while i < data.len()
        invariant
            start <= i <= data@.len(),
            v@ == data@.subrange(start as int, i as int),
        decreases data@.len() - i,
    {
        v.push(data[i]);
        i = i + 1;
    }
    proof {
        assert(v@ =~= data@.skip(start as int));
    }
    v
}

/// Mux a header and a sample payload into one byte stream: the two
/// header bytes, then the payload, compressed with zstd at level `lev`
/// when a level is given and raw otherwise.
pub fn mux(h: &Hdr, lev: Option<u8>, payload: &Vec<u8>) -> (r: Result<Vec<u8>, RErr>)
    ensures
        (r == Err::<Vec<u8>, RErr>(RErr::Rate)) <==> rate_index_of(h.rate) is None,
        (r == Err::<Vec<u8>, RErr>(RErr::Channels))
            <==> (rate_index_of(h.rate) is Some && !(1 <= h.channels <= 8)),
        (r == Err::<Vec<u8>, RErr>(RErr::IO)) ==> (h.valid() && lev is Some),
        r is Ok ==> h.valid(),
        (h.valid() && lev is None) ==> (match r {
            Ok(v) => v@ == header_bytes(*h, false) + payload@,
            Err(_) => false,
        }),
        (match lev {
            Some(l) => h.valid() ==> (match r {
                Ok(v) => v@ == header_bytes(*h, true) + zstd_frame_of(payload@, l),
                Err(e) => e == RErr::IO,
            }),
            None => true,
        }),
{
    let compressed = lev.is_some();
    let (b0, b1) = match encode_header(h, compressed) {
        Ok(p) => p,
        Err(e) => { return Err(e); }
    };
    let mut out: Vec<u8> = Vec::new();
    out.push(b0);
    out.push(b1);
    proof {
        assert(out@ =~= seq![b0, b1]);
    }
    match lev {
        None => {
            let mut body = tail_from(payload, 0);
            proof {
                assert(body@ =~= payload@);
            }
            out.append(&mut body);
            Ok(out)
        }
        Some(l) => {
            match zstd_compress(payload, l) {
                Ok(mut c) => {
                    out.append(&mut c);
                    Ok(out)
                }
                Err(e) => Err(e),
            }
        }
    }
}

/// What demuxing a byte stream yields before any decompression: fewer
/// than two bytes is an I/O failure; otherwise the decoded header, the
/// compression flag, and the bytes after the header.
pub open spec fn demux_spec(data: Seq<u8>) -> Result<(Hdr, bool, Seq<u8>), RErr> {
    if data.len() < 2 {
        Err(RErr::IO)
    } else {
        match decode2(data[0], data[1]) {
            Err(e) => Err(e),
            Ok(d) => Ok((d.0, d.1, data.skip(2))),
        }
    }
}

/// Demux a byte stream: parse and validate the two header bytes, and
/// hand back the header together with the payload, decompressed with
/// zstd when the header's compression flag is set.
pub fn demux(data: &Vec<u8>) -> (r: Result<(Hdr, Vec<u8>), RErr>)
    ensures
        (match demux_spec(data@) {
            Err(e) => r == Err::<(Hdr, Vec<u8>), RErr>(e),
            Ok(d) => if !d.1 {
                match r {
                    Ok(p) => p.0 == d.0 && p.1@ == d.2,
                    Err(_) => false,
                }
            } else {
                match r {
                    Ok(p) => p.0 == d.0 && p.1@ == zstd_plain_of(d.2),
                    Err(e) => e == RErr::IO,
                }
            },
        }),
{
    if data.len() < 2 {
        return Err(RErr::IO);
    }
    let b0: u8 = data[0];
    let b1: u8 = data[1];
    let (h, flag) = match decode_header(b0, b1) {
        Ok(d) => d,
        Err(e) => { return Err(e); }
    };
    let rest = tail_from(data, 2);
    if flag {
        match zstd_decompress(&rest) {
            Ok(v) => Ok((h, v)),
            Err(e) => Err(e),
        }
    } else {
        Ok((h, rest))
    }
}

/// Round trip of the header bytes: decoding the two bytes a valid
/// header encodes to gives back that header and the compression flag
/// unchanged.
pub proof fn lemma_header_round_trip(h: Hdr, compressed: bool)
    requires
        h.valid(),
    ensures
        decode2(header_bytes(h, compressed)[0], header_bytes(h, compressed)[1])
            == Ok::<(Hdr, bool), RErr>((h, compressed)),
{
    let fc: u8 = fmt_code(h.format);
    let ri: u8 = rate_index_of(h.rate).unwrap();
    let ch0: u8 = (h.channels - 1) as u8;
    let fl: u8 = if compressed { 1 } else { 0 };
    let b0: u8 = byte0_of(compressed, fc);
    let b1: u8 = byte1_of(fc, ri, ch0);
    assert(fc < 6);
    assert(ri < 8);
    assert(ch0 < 8);
    assert(b0 >> 2 == 0x3d && ((b0 >> 1) & 1) == fl
        && (((b0 & 1) << 2) | (b1 >> 6)) == fc
        && ((b1 >> 3) & 7) == ri && (b1 & 7) == ch0) by (bit_vector)
        requires
            fc < 6,
            ri < 8,
            ch0 < 8,
            fl < 2,
            b0 == (0x3du8 << 2) | (fl << 1) | (fc >> 2),
            b1 == ((fc & 3) << 6) | (ri << 3) | ch0,
    ;
    assert(fmt_of_code(fc) == Some(h.format));
    assert(rate_at(ri) == h.rate);
}

/// Round trip of an uncompressed stream: muxing a valid header with a
/// raw payload and demuxing the produced bytes gives back the header,
/// a clear compression flag, and the payload unchanged.
pub proof fn lemma_plain_round_trip(h: Hdr, payload: Seq<u8>)
    requires
        h.valid(),
    ensures
        demux_spec(header_bytes(h, false) + payload)
            == Ok::<(Hdr, bool, Seq<u8>), RErr>((h, false, payload)),
{
    let data = header_bytes(h, false) + payload;
    assert(data[0] == header_bytes(h, false)[0]);
    assert(data[1] == header_bytes(h, false)[1]);
    lemma_header_round_trip(h, false);
    assert(data.skip(2) =~= payload);
}

} // verus!
