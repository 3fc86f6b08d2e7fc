use rkpi2::{demux, mux, rate_index, rate_of_index, Fmt, Hdr, RErr};

fn all_rates() -> [u32; 8] {
    [8000, 12000, 22050, 32000, 44100, 64000, 96000, 192000]
}

fn all_formats() -> [Fmt; 6] {
    [
        Fmt::Int8,
        Fmt::Int16,
        Fmt::Int32,
        Fmt::Int64,
        Fmt::Float32,
        Fmt::Float64,
    ]
}

#[test]
fn rkpi2_hdr_and_data() {
    // use the most minimalist configuration, for the least
    // cpu and ram load.
    let ihdr = Hdr {
        format: Fmt::Int8,
        rate: 8000,
        channels: 1,
    };

    let isamples = vec![127u8; ihdr.rate as usize * ihdr.channels as usize];

    // use zstd with the least power available to it, and also check
    // that the compression round trip reproduces the data exactly.
    let stream = mux(&ihdr, Some(1), &isamples).unwrap();
    let (ohdr, osamples) = demux(&stream).unwrap();

    assert!(ihdr == ohdr);
    assert!(isamples == osamples);
}

#[test]
fn header_round_trip_all_valid_headers() {
    for &format in all_formats().iter() {
        for &rate in all_rates().iter() {
            for channels in 1u8..=8 {
                let h = Hdr {
                    format,
                    rate,
                    channels,
                };
                for lev in [None, Some(1u8)] {
                    let stream = mux(&h, lev, &vec![9u8, 8, 7]).unwrap();
                    let (ohdr, _) = demux(&stream).unwrap();
                    assert_eq!(h, ohdr);
                }
            }
        }
    }
}

#[test]
fn header_round_trip_highest_level() {
    // the highest zstd level is costly to set up, so sweep the formats
    // at one rate and channel count
    for &format in all_formats().iter() {
        let h = Hdr {
            format,
            rate: 192000,
            channels: 8,
        };
        let stream = mux(&h, Some(21), &vec![9u8, 8, 7]).unwrap();
        let (ohdr, _) = demux(&stream).unwrap();
        assert_eq!(h, ohdr);
    }
}

#[test]
fn payload_round_trip_uncompressed() {
    let h = Hdr {
        format: Fmt::Int16,
        rate: 44100,
        channels: 2,
    };
    let payload: Vec<u8> = (0..44100u32 * 2).map(|i| (i % 251) as u8).collect();
    let stream = mux(&h, None, &payload).unwrap();
    assert_eq!(stream.len(), 2 + payload.len());
    let (ohdr, opayload) = demux(&stream).unwrap();
    assert_eq!(h, ohdr);
    assert_eq!(payload, opayload);
}

#[test]
fn payload_round_trip_compressed() {
    let h = Hdr {
        format: Fmt::Float64,
        rate: 8000,
        channels: 1,
    };
    let payload = vec![0u8; 8000];
    let stream = mux(&h, Some(3), &payload).unwrap();
    // the compressor must actually have transformed the payload:
    // 8000 equal bytes compress to far fewer.
    assert!(stream.len() < 2 + payload.len());
    let (ohdr, opayload) = demux(&stream).unwrap();
    assert_eq!(h, ohdr);
    assert_eq!(payload, opayload);
}

#[test]
fn invalid_rate_rejected() {
    let h = Hdr {
        format: Fmt::Int8,
        rate: 50000,
        channels: 1,
    };
    assert_eq!(mux(&h, None, &vec![1u8]), Err(RErr::Rate));
    assert_eq!(mux(&h, Some(1), &vec![1u8]), Err(RErr::Rate));
}

#[test]
fn invalid_channels_rejected() {
    for channels in [0u8, 9u8] {
        let h = Hdr {
            format: Fmt::Int8,
            rate: 8000,
            channels,
        };
        assert_eq!(mux(&h, None, &vec![1u8]), Err(RErr::Channels));
    }
}

#[test]
fn bad_start_code_rejected() {
    // top six bits of byte0 are 0, not 0b111101
    assert_eq!(demux(&vec![0x00, 0x00]), Err(RErr::StartCode));
    // one bit of the start code flipped
    assert_eq!(demux(&vec![0xf4 ^ 0x80, 0x00]), Err(RErr::StartCode));
}

#[test]
fn reserved_format_rejected() {
    // byte0 bit 0 = 1 and byte1 bits 7..6 = 0b10 give format code 6
    assert_eq!(demux(&vec![0xf5, 0x80]), Err(RErr::Format));
    // byte1 bits 7..6 = 0b11 give format code 7
    assert_eq!(demux(&vec![0xf5, 0xc0]), Err(RErr::Format));
}

#[test]
fn short_input_rejected() {
    assert_eq!(demux(&vec![]), Err(RErr::IO));
    assert_eq!(demux(&vec![0xf4]), Err(RErr::IO));
}

#[test]
fn corrupt_compressed_payload_rejected() {
    // a valid header with the compression flag set, followed by bytes
    // that are no zstd frame
    assert_eq!(demux(&vec![0xf6, 0x00, 1, 2, 3, 4]), Err(RErr::IO));
}

#[test]
fn bit_layout_exact() {
    let h = Hdr {
        format: Fmt::Int8,
        rate: 8000,
        channels: 1,
    };
    let stream = mux(&h, None, &vec![]).unwrap();
    assert_eq!(stream, vec![0xf4, 0x00]);
}

#[test]
fn bit_layout_fields() {
    // Float32 (code 4), rate 96000 (index 6), 3 channels, compressed:
    // byte0 = start code | flag 1 | top bit of code 4,
    // byte1 = low bits of code 4 | index 6 | channels - 1.
    let h = Hdr {
        format: Fmt::Float32,
        rate: 96000,
        channels: 3,
    };
    let stream = mux(&h, Some(1), &vec![]).unwrap();
    assert_eq!(stream[0], 0xf4 | 0x02 | 0x01);
    assert_eq!(stream[1], 0x00 | (6 << 3) | 2);
}

#[test]
fn fmt_codes_round_trip() {
    for (i, &f) in all_formats().iter().enumerate() {
        assert_eq!(f.code(), i as u8);
        assert_eq!(Fmt::try_from(i as u8), Ok(f));
    }
    assert_eq!(Fmt::try_from(6), Err(RErr::Format));
    assert_eq!(Fmt::try_from(7), Err(RErr::Format));
    assert_eq!(Fmt::try_from(200), Err(RErr::Format));
}

#[test]
fn rate_table_round_trip() {
    for (i, &r) in all_rates().iter().enumerate() {
        assert_eq!(rate_index(r), Some(i as u8));
        assert_eq!(rate_of_index(i as u8), r);
    }
    assert_eq!(rate_index(48000), None);
    assert_eq!(rate_index(0), None);
}
