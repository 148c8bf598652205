use vstd::prelude::*;
use crate::sample::{quantize_spec, quantize_sample, lemma_quant_mag_bound};

verus! {

// The canonical uncompressed audio container: a 44-byte header declaring
// 16-bit integer samples at a given rate and channel count, followed by the
// samples little-endian.  `wav_bytes` pins the layout byte for byte; the
// encoder is held to it, and `parse_wav_spec` reads it back.

/// Byte `j` (0 = lowest) of the little-endian encoding of `x`.
pub open spec fn le_byte(x: int, j: int) -> u8 {
    if j == 0 {
        (x % 0x100) as u8
    } else if j == 1 {
        ((x / 0x100) % 0x100) as u8
    } else if j == 2 {
        ((x / 0x1_0000) % 0x100) as u8
    } else {
        ((x / 0x100_0000) % 0x100) as u8
    }
}

/// The unsigned 16-bit representation (two's complement) of a sample value.
pub open spec fn u16_rep(s: i16) -> int {
    if s < 0 {
        s + 0x1_0000
    } else {
        s as int
    }
}

/// The sample value encoded by an unsigned 16-bit representation.
pub open spec fn i16_of_rep(u: int) -> i16 {
    if u >= 0x8000 {
        (u - 0x1_0000) as i16
    } else {
        u as i16
    }
}

/// Byte `k` of the 44-byte container header for `data_len` bytes of sample
/// data: the RIFF chunk, a PCM format chunk with 16 bits per sample, and the
/// data chunk header.
#[verifier::opaque]
pub open spec fn wav_header_byte(data_len: int, rate: u32, ch: u16, k: int) -> u8 {
    if k == 0 {
        0x52  // 'R'
    } else if k == 1 {
        0x49  // 'I'
    } else if k == 2 {
        0x46  // 'F'
    } else if k == 3 {
        0x46  // 'F'
    } else if k < 8 {
        le_byte(36 + data_len, k - 4)
    } else if k == 8 {
        0x57  // 'W'
    } else if k == 9 {
        0x41  // 'A'
    } else if k == 10 {
        0x56  // 'V'
    } else if k == 11 {
        0x45  // 'E'
    } else if k == 12 {
        0x66  // 'f'
    } else if k == 13 {
        0x6d  // 'm'
    } else if k == 14 {
        0x74  // 't'
    } else if k == 15 {
        0x20  // ' '
    } else if k < 20 {
        le_byte(16, k - 16)
    } else if k < 22 {
        le_byte(1, k - 20)
    } else if k < 24 {
        le_byte(ch as int, k - 22)
    } else if k < 28 {
        le_byte(rate as int, k - 24)
    } else if k < 32 {
        le_byte(rate as int * 2 * ch as int, k - 28)
    } else if k < 34 {
        le_byte(2 * ch as int, k - 32)
    } else if k < 36 {
        le_byte(16, k - 34)
    } else if k == 36 {
        0x64  // 'd'
    } else if k == 37 {
        0x61  // 'a'
    } else if k == 38 {
        0x74  // 't'
    } else {
        if k == 39 {
            0x61  // 'a'
        } else {
            le_byte(data_len, k - 40)
        }
    }
}

/// The whole container: the header, then each sample as two little-endian
/// bytes of its two's-complement representation, in order.
pub open spec fn wav_bytes(samples: Seq<i16>, rate: u32, ch: u16) -> Seq<u8> {
    Seq::new(
        (44 + 2 * samples.len()) as nat,
        |k: int|
            if k < 44 {
                wav_header_byte(2 * samples.len() as int, rate, ch, k)
            } else if (k - 44) % 2 == 0 {
                le_byte(u16_rep(samples[(k - 44) / 2]), 0)
            } else {
                le_byte(u16_rep(samples[(k - 44) / 2]), 1)
            },
    )
}

/// Relies on hound::WavWriter: for 16-bit integer PCM with one or two
/// channels it writes the canonical 44-byte header, then each sample
/// little-endian, and `finalize` patches the two size fields; it reports an
/// error exactly when the sample count is no whole number of frames.
#[verifier::external_body]
fn wav_encode_pcm16(samples: &Vec<i16>, sample_rate: u32, channels: u16) -> (r: Result<
    Vec<u8>,
    String,
>)
    requires
        1 <= channels <= 2,
        sample_rate >= 1,
        sample_rate as int * 2 * channels as int <= u32::MAX as int,
        2 * samples@.len() + 44 <= u32::MAX as int,
    ensures
        r matches Ok(bytes) ==> bytes@ == wav_bytes(samples@, sample_rate, channels),
        (r is Ok) == (samples@.len() as int % channels as int == 0),
{
    let wspec = hound::WavSpec {
        channels, sample_rate, bits_per_sample: 16, sample_format: hound::SampleFormat::Int,
    };
    let mut buffer: Vec<u8> = Vec::new();
    let mut writer = match hound::WavWriter::new(std::io::Cursor::new(&mut buffer), wspec) {
        Ok(w) => w, Err(e) => return Err(e.to_string()),
    };
    for s in samples.iter() {
        if let Err(e) = writer.write_sample(*s) { return Err(e.to_string()); }
    }
    if let Err(e) = writer.finalize() { return Err(e.to_string()); }
    Ok(buffer)
}

/// The quantized form of a stream of sample bit patterns.
pub open spec fn quantized(samples: Seq<u32>) -> Seq<i16> {
    samples.map_values(|b: u32| quantize_spec(b) as i16)
}

/// Quantizes every sample of a stream, in order.
pub fn quantize_samples(samples: &Vec<u32>) -> (r: Vec<i16>)
    ensures
        r@ == quantized(samples@),
{
    let mut out: Vec<i16> = Vec::new();
    let mut i: usize = 0;
    while i < samples.len()
        invariant
            i <= samples@.len(),
            out@.len() == i,
            forall|j: int| 0 <= j < i ==> out@[j] == quantize_spec(samples@[j]) as i16,
        decreases samples@.len() - i,
    {
        let q = quantize_sample(samples[i]);
        proof {
            lemma_quant_mag_bound(samples@[i as int]);
        }
        out.push(q);
        i = i + 1;
    }
    proof {
        assert(out@ =~= quantized(samples@));
    }
    out
}

/// Serializes a finished stream of sample bit patterns into the container:
/// every sample is quantized to 16 bits, and the result is exactly the
/// canonical byte layout.  Fails exactly when the samples do not fill a whole
/// number of frames.
pub fn samples_to_wav(samples: &Vec<u32>, sample_rate: u32, channels: u16) -> (r: Result<
    Vec<u8>,
    String,
>)
    requires
        1 <= channels <= 2,
        sample_rate >= 1,
        sample_rate as int * 2 * channels as int <= u32::MAX as int,
        2 * samples@.len() + 44 <= u32::MAX as int,
    ensures
        r matches Ok(bytes) ==> bytes@ == wav_bytes(quantized(samples@), sample_rate, channels),
        (r is Ok) == (samples@.len() as int % channels as int == 0),
{
    let q = quantize_samples(samples);
    wav_encode_pcm16(&q, sample_rate, channels)
}

/// The unsigned 16-bit value stored little-endian at `off`.
pub open spec fn le16_at(b: Seq<u8>, off: int) -> int {
    b[off] + 0x100 * b[off + 1]
}

/// The unsigned 32-bit value stored little-endian at `off`.
pub open spec fn le32_at(b: Seq<u8>, off: int) -> int {
    b[off] + 0x100 * b[off + 1] + 0x1_0000 * b[off + 2] + 0x100_0000 * b[off + 3]
}

/// Whether `b` carries a well-formed container of the layout this library
/// writes: the magic strings, a 16-byte PCM format chunk at 16 bits per
/// sample, consistent derived fields, and a data chunk that fills the rest.
pub open spec fn wav_header_ok(b: Seq<u8>) -> bool {
    &&& b.len() >= 44
    &&& b[0] == 0x52
    &&& b[1] == 0x49
    &&& b[2] == 0x46
    &&& b[3] == 0x46
    &&& le32_at(b, 4) == b.len() - 8
    &&& b[8] == 0x57
    &&& b[9] == 0x41
    &&& b[10] == 0x56
    &&& b[11] == 0x45
    &&& b[12] == 0x66
    &&& b[13] == 0x6d
    &&& b[14] == 0x74
    &&& b[15] == 0x20
    &&& le32_at(b, 16) == 16
    &&& le16_at(b, 20) == 1
    &&& le16_at(b, 22) >= 1
    &&& le32_at(b, 24) >= 1
    &&& le32_at(b, 28) == le32_at(b, 24) * 2 * le16_at(b, 22)
    &&& le16_at(b, 32) == 2 * le16_at(b, 22)
    &&& le16_at(b, 34) == 16
    &&& b[36] == 0x64
    &&& b[37] == 0x61
    &&& b[38] == 0x74
    &&& b[39] == 0x61
    &&& le32_at(b, 40) == b.len() - 44
    &&& (b.len() - 44) % 2 == 0
}

/// The samples stored after a well-formed header, in order.
pub open spec fn parsed_samples(b: Seq<u8>) -> Seq<i16> {
    Seq::new(((b.len() - 44) / 2) as nat, |i: int| i16_of_rep(le16_at(b, 44 + 2 * i)))
}

/// Reads a container back: the samples, the sample rate and the channel
/// count it declares, or nothing if the layout is not the one this library
/// writes.
pub open spec fn parse_wav_spec(b: Seq<u8>) -> Option<(Seq<i16>, u32, u16)> {
    if wav_header_ok(b) {
        Some((parsed_samples(b), le32_at(b, 24) as u32, le16_at(b, 22) as u16))
    } else {
        Option::None
    }
}

/// The four little-endian bytes of a 32-bit value decode back to it.
pub proof fn lemma_le32_id(x: int)
    requires
        0 <= x < 0x1_0000_0000,
    ensures
        le_byte(x, 0) + 0x100 * le_byte(x, 1) + 0x1_0000 * le_byte(x, 2)
            + 0x100_0000 * le_byte(x, 3) == x,
{
    assert(x == 0x100 * (x / 0x100) + x % 0x100);
    assert(x / 0x100 == 0x100 * ((x / 0x100) / 0x100) + (x / 0x100) % 0x100);
    assert((x / 0x100) / 0x100 == x / 0x1_0000) by {
        vstd::arithmetic::div_mod::lemma_div_denominator(x, 0x100, 0x100);
    }
    assert(x / 0x1_0000 == 0x100 * ((x / 0x1_0000) / 0x100) + (x / 0x1_0000) % 0x100);
    assert((x / 0x1_0000) / 0x100 == x / 0x100_0000) by {
        vstd::arithmetic::div_mod::lemma_div_denominator(x, 0x1_0000, 0x100);
    }
    assert((x / 0x100_0000) % 0x100 == x / 0x100_0000);
}

/// The two little-endian bytes of a 16-bit value decode back to it.
pub proof fn lemma_le16_id(x: int)
    requires
        0 <= x < 0x1_0000,
    ensures
        le_byte(x, 0) + 0x100 * le_byte(x, 1) == x,
{
    assert(x == 0x100 * (x / 0x100) + x % 0x100);
    assert((x / 0x100) % 0x100 == x / 0x100);
}

/// Round trip: a container encoded from any sample stream parses back to
/// exactly that stream, with the sample rate and channel count it was
/// The encoded header carries every field the reader checks.
proof fn lemma_wav_header_fields(samples: Seq<i16>, rate: u32, ch: u16)
    requires
        1 <= ch <= 2,
        rate >= 1,
        rate as int * 2 * ch as int <= u32::MAX as int,
        2 * samples.len() + 44 <= u32::MAX as int,
    ensures
        wav_header_ok(wav_bytes(samples, rate, ch)),
        le16_at(wav_bytes(samples, rate, ch), 22) == ch as int,
        le32_at(wav_bytes(samples, rate, ch), 24) == rate as int,
{
    let b = wav_bytes(samples, rate, ch);
    let n = samples.len() as int;
    assert(b[0] == 0x52 && b[1] == 0x49 && b[2] == 0x46 && b[3] == 0x46) by {
        reveal(wav_header_byte);
    }
    assert(b[8] == 0x57 && b[9] == 0x41 && b[10] == 0x56 && b[11] == 0x45) by {
        reveal(wav_header_byte);
    }
    assert(b[12] == 0x66 && b[13] == 0x6d && b[14] == 0x74 && b[15] == 0x20) by {
        reveal(wav_header_byte);
    }
    assert(b[36] == 0x64 && b[37] == 0x61 && b[38] == 0x74 && b[39] == 0x61) by {
        reveal(wav_header_byte);
    }
    assert(le32_at(b, 4) == 36 + 2 * n) by {
        reveal(wav_header_byte);
        lemma_le32_id(36 + 2 * n);
    }
    assert(le32_at(b, 16) == 16) by {
        reveal(wav_header_byte);
    }
    assert(le16_at(b, 20) == 1) by {
        reveal(wav_header_byte);
    }
    assert(le16_at(b, 34) == 16) by {
        reveal(wav_header_byte);
    }
    assert(le16_at(b, 22) == ch as int) by {
        reveal(wav_header_byte);
        lemma_le16_id(ch as int);
    }
    assert(le32_at(b, 24) == rate as int) by {
        reveal(wav_header_byte);
        lemma_le32_id(rate as int);
    }
    assert(le32_at(b, 28) == rate as int * 2 * ch as int) by {
        reveal(wav_header_byte);
        assert(rate as int * 2 * ch as int >= 0) by (nonlinear_arith)
            requires
                rate >= 1,
                ch >= 1,
        ;
        lemma_le32_id(rate as int * 2 * ch as int);
    }
    assert(le16_at(b, 32) == 2 * ch as int) by {
        reveal(wav_header_byte);
        lemma_le16_id(2 * ch as int);
    }
    assert(le32_at(b, 40) == 2 * n) by {
        reveal(wav_header_byte);
        lemma_le32_id(2 * n);
    }
}

/// The encoded sample data reads back as the stream it was made from.
proof fn lemma_wav_data_round_trip(samples: Seq<i16>, rate: u32, ch: u16)
    requires
        2 * samples.len() + 44 <= u32::MAX as int,
    ensures
        parsed_samples(wav_bytes(samples, rate, ch)) =~= samples,
{
    let b = wav_bytes(samples, rate, ch);
    let n = samples.len() as int;
    assert forall|i: int| 0 <= i < n implies parsed_samples(b)[i] == samples[i] by {
        assert(b[44 + 2 * i] == le_byte(u16_rep(samples[i]), 0));
        assert(b[44 + 2 * i + 1] == le_byte(u16_rep(samples[i]), 1));
        assert(le16_at(b, 44 + 2 * i) == u16_rep(samples[i])) by {
            lemma_le16_id(u16_rep(samples[i]));
        }
    }
}

/// Round trip: a container encoded from any sample stream parses back to
/// exactly that stream, with the sample rate and channel count it was
/// encoded with.
pub proof fn lemma_wav_round_trip(samples: Seq<i16>, rate: u32, ch: u16)
    requires
        1 <= ch <= 2,
        rate >= 1,
        rate as int * 2 * ch as int <= u32::MAX as int,
        2 * samples.len() + 44 <= u32::MAX as int,
    ensures
        parse_wav_spec(wav_bytes(samples, rate, ch)) == Some((samples, rate, ch)),
{
    lemma_wav_header_fields(samples, rate, ch);
    lemma_wav_data_round_trip(samples, rate, ch);
}

} // verus!
