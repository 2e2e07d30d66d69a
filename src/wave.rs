//! Canonical uncompressed 16-bit PCM container (RIFF/WAVE) encoding.
use vstd::prelude::*;

verus! {

/// Bits in each sample.
pub const BITS_PER_SAMPLE: u16 = 16;

/// Size of everything before the sample data.
pub const HEADER_LEN: usize = 44;

/// Why a buffer cannot be encoded.
#[derive(Debug, Clone, Copy, PartialEq, Eq, Structural)]
pub enum WavError {
    /// A format without channels.
    NoChannels,
    /// The buffer does not hold a whole number of frames.
    PartialFrame,
    /// The sample data is too long for the 32-bit size fields.
    DataTooLong,
    /// The byte rate or block alignment does not fit its field.
    FormatOverflow,
}

/// The two little-endian bytes of `x`.
pub open spec fn le16(x: u16) -> Seq<u8> {
    seq![(x % 256) as u8, (x / 256) as u8]
}

/// The four little-endian bytes of `x`.
pub open spec fn le32(x: u32) -> Seq<u8> {
    seq![(x % 256) as u8, ((x / 256) % 256) as u8, ((x / 65536) % 256) as u8, (x / 16777216) as u8]
}

/// The 16-bit little-endian integer at `off`.
pub open spec fn read_le16(b: Seq<u8>, off: int) -> int {
    b[off] + 256 * b[off + 1]
}

/// The 32-bit little-endian integer at `off`.
pub open spec fn read_le32(b: Seq<u8>, off: int) -> int {
    b[off] + 256 * b[off + 1] + 65536 * b[off + 2] + 16777216 * b[off + 3]
}

/// The ASCII bytes of a four-letter chunk tag.
pub open spec fn tag(a: u8, b: u8, c: u8, d: u8) -> Seq<u8> {
    seq![a, b, c, d]
}

/// The samples as little-endian bytes, in order.
pub open spec fn pcm_bytes(s: Seq<i16>) -> Seq<u8> {
    Seq::new(
        2 * s.len(),
        |k: int|
            if k % 2 == 0 {
                ((#[verifier::truncate] (s[k / 2] as u16)) % 256) as u8
            } else {
                ((#[verifier::truncate] (s[k / 2] as u16)) / 256) as u8
            },
    )
}

/// Byte length of the sample data.
pub open spec fn data_len(s: Seq<i16>) -> int {
    2 * s.len() as int
}

/// Bytes per second of audio.
pub open spec fn byte_rate(sample_rate: u32, channels: u16) -> int {
    sample_rate * channels * 2
}

/// Whether a buffer of interleaved samples can be encoded in this format.
pub open spec fn encodable(s: Seq<i16>, sample_rate: u32, channels: u16) -> bool {
    &&& channels > 0
    &&& s.len() % (channels as nat) == 0
    &&& 36 + data_len(s) <= u32::MAX
    &&& byte_rate(sample_rate, channels) <= u32::MAX
    &&& channels * 2 <= u16::MAX
}

/// The error for a buffer that cannot be encoded, checked in this order.
pub open spec fn wav_error(s: Seq<i16>, sample_rate: u32, channels: u16) -> WavError {
    if channels == 0 {
        WavError::NoChannels
    } else if s.len() % (channels as nat) != 0 {
        WavError::PartialFrame
    } else if 36 + data_len(s) > u32::MAX {
        WavError::DataTooLong
    } else {
        WavError::FormatOverflow
    }
}

/// The container for a buffer of interleaved samples: the master chunk, the
/// format chunk and the data chunk.
pub open spec fn wav_bytes(s: Seq<i16>, sample_rate: u32, channels: u16) -> Seq<u8> {
    tag(0x52, 0x49, 0x46, 0x46) + le32((36 + data_len(s)) as u32) + tag(0x57, 0x41, 0x56, 0x45) + tag(
        0x66,
        0x6d,
        0x74,
        0x20,
    ) + le32(16) + le16(1) + le16(channels) + le32(sample_rate) + le32(
        byte_rate(sample_rate, channels) as u32,
    ) + le16((channels * 2) as u16) + le16(16) + tag(0x64, 0x61, 0x74, 0x61) + le32(
        data_len(s) as u32,
    ) + pcm_bytes(s)
}

fn push_le16(out: &mut Vec<u8>, x: u16)
    ensures
        final(out)@ == old(out)@ + le16(x),
{
    out.push((x % 256) as u8);
    out.push((x / 256) as u8);
    assert(final(out)@ =~= old(out)@ + le16(x));
}

fn push_le32(out: &mut Vec<u8>, x: u32)
    ensures
        final(out)@ == old(out)@ + le32(x),
{
    out.push((x % 256) as u8);
    out.push(((x / 256) % 256) as u8);
    out.push(((x / 65536) % 256) as u8);
    out.push((x / 16777216) as u8);
    assert(final(out)@ =~= old(out)@ + le32(x));
}

fn push_tag(out: &mut Vec<u8>, a: u8, b: u8, c: u8, d: u8)
    ensures
        final(out)@ == old(out)@ + tag(a, b, c, d),
{
    out.push(a);
    out.push(b);
    out.push(c);
    out.push(d);
    assert(final(out)@ =~= old(out)@ + tag(a, b, c, d));
}

/// Encodes interleaved 16-bit samples with the given rate and channel count.
pub fn encode_wav(samples: &Vec<i16>, sample_rate: u32, channels: u16) -> (r: Result<Vec<u8>, WavError>)
    ensures
        encodable(samples@, sample_rate, channels) ==> (r matches Ok(b) && b@ == wav_bytes(samples@, sample_rate, channels)),
        !encodable(samples@, sample_rate, channels) ==> r == Err::<Vec<u8>, WavError>(wav_error(samples@, sample_rate, channels)),
{
    if channels == 0 {
        return Err(WavError::NoChannels);
    }
    if samples.len() % (channels as usize) != 0 {
        return Err(WavError::PartialFrame);
    }
    if samples.len() as u128 * 2 + 36 > u32::MAX as u128 {
        return Err(WavError::DataTooLong);
    }
    assert(sample_rate as u128 * channels as u128 <= 0xffff_ffff_ffff_ffff) by (nonlinear_arith)
        requires
            sample_rate <= 0xffff_ffff,
            channels <= 0xffff,
    ;
    let rate_wide: u128 = sample_rate as u128 * channels as u128;
    if rate_wide * 2 > u32::MAX as u128 || channels as u32 * 2 > u16::MAX as u32 {
        return Err(WavError::FormatOverflow);
    }
    let data: u32 = (samples.len() * 2) as u32;
    let rate: u32 = (sample_rate as u64 * channels as u64 * 2) as u32;
    let mut out: Vec<u8> = Vec::new();
    push_tag(&mut out, 0x52, 0x49, 0x46, 0x46);
    push_le32(&mut out, 36 + data);
    push_tag(&mut out, 0x57, 0x41, 0x56, 0x45);
    push_tag(&mut out, 0x66, 0x6d, 0x74, 0x20);
    push_le32(&mut out, 16);
    push_le16(&mut out, 1);
    push_le16(&mut out, channels);
    push_le32(&mut out, sample_rate);
    push_le32(&mut out, rate);
    push_le16(&mut out, channels * 2);
    push_le16(&mut out, BITS_PER_SAMPLE);
    push_tag(&mut out, 0x64, 0x61, 0x74, 0x61);
    push_le32(&mut out, data);
    let ghost header = out@;
    assert(header.len() == HEADER_LEN);
    let mut i: usize = 0;
    while i < samples.len()
        invariant
            i <= samples.len(),
            header.len() == HEADER_LEN,
            out@.len() == HEADER_LEN + 2 * i,
            out@.subrange(0, HEADER_LEN as int) == header,
            forall|k: int| 0 <= k < 2 * i ==> out@[HEADER_LEN + k] == pcm_bytes(samples@)[k],
        decreases samples.len() - i,
    {
        let u = #[verifier::truncate] (samples[i] as u16);
        out.push((u % 256) as u8);
        out.push((u / 256) as u8);
        assert(out@.subrange(0, HEADER_LEN as int) =~= header);
        assert forall|k: int| 0 <= k < 2 * (i + 1) implies out@[HEADER_LEN + k] == pcm_bytes(samples@)[k] by {
            if k >= 2 * i {
                assert((k / 2) == i);
            }
        }
        i = i + 1;
    }
    assert(out@ =~= header + pcm_bytes(samples@));
    assert(header + pcm_bytes(samples@) =~= wav_bytes(samples@, sample_rate, channels));
    Ok(out)
}

proof fn lemma_le32_read(x: u32, b: Seq<u8>, off: int)
    requires
        0 <= off,
        off + 4 <= b.len(),
        b.subrange(off, off + 4) == le32(x),
    ensures
        read_le32(b, off) == x,
{
    assert(b[off] == le32(x)[0] && b[off + 1] == le32(x)[1] && b[off + 2] == le32(x)[2] && b[off + 3] == le32(x)[3]) by {
        assert(b.subrange(off, off + 4)[0] == b[off]);
        assert(b.subrange(off, off + 4)[1] == b[off + 1]);
        assert(b.subrange(off, off + 4)[2] == b[off + 2]);
        assert(b.subrange(off, off + 4)[3] == b[off + 3]);
    }
    assert((x % 256) + 256 * ((x / 256) % 256) + 65536 * ((x / 65536) % 256) + 16777216 * (x / 16777216) == x) by (bit_vector);
}

proof fn lemma_le16_read(x: u16, b: Seq<u8>, off: int)
    requires
        0 <= off,
        off + 2 <= b.len(),
        b.subrange(off, off + 2) == le16(x),
    ensures
        read_le16(b, off) == x,
{
    assert(b[off] == le16(x)[0] && b[off + 1] == le16(x)[1]) by {
        assert(b.subrange(off, off + 2)[0] == b[off]);
        assert(b.subrange(off, off + 2)[1] == b[off + 1]);
    }
    assert((x % 256) + 256 * (x / 256) == x) by (bit_vector);
}

/// The header of every encoded container is consistent: the master chunk
/// declares `36` plus the data length, the data length is two bytes for each
/// sample of each channel, the byte rate is two bytes for each sample of each
/// channel in a second, and the format fields hold the channel count, the
/// rate, the block alignment and 16 bits per sample.
pub proof fn lemma_wav_header_fields(s: Seq<i16>, sample_rate: u32, channels: u16)
    requires
        encodable(s, sample_rate, channels),
    ensures
        ({
            let w = wav_bytes(s, sample_rate, channels);
            &&& w.len() == HEADER_LEN + data_len(s)
            &&& read_le32(w, 4) == 36 + read_le32(w, 40)
            &&& read_le32(w, 40) == (s.len() / (channels as nat)) * channels * 2
            &&& read_le32(w, 28) == sample_rate * channels * 2
            &&& read_le16(w, 22) == channels
            &&& read_le32(w, 24) == sample_rate
            &&& read_le16(w, 32) == channels * 2
            &&& read_le16(w, 34) == 16
            &&& read_le16(w, 20) == 1
            &&& read_le32(w, 16) == 16
        }),
{
    let w = wav_bytes(s, sample_rate, channels);
    let riff = (36 + data_len(s)) as u32;
    let rate = byte_rate(sample_rate, channels) as u32;
    let data = data_len(s) as u32;
    assert(w.subrange(4, 8) =~= le32(riff));
    assert(w.subrange(16, 20) =~= le32(16));
    assert(w.subrange(20, 22) =~= le16(1));
    assert(w.subrange(22, 24) =~= le16(channels));
    assert(w.subrange(24, 28) =~= le32(sample_rate));
    assert(w.subrange(28, 32) =~= le32(rate));
    assert(w.subrange(32, 34) =~= le16((channels * 2) as u16));
    assert(w.subrange(34, 36) =~= le16(16));
    assert(w.subrange(40, 44) =~= le32(data));
    lemma_le32_read(riff, w, 4);
    lemma_le32_read(16, w, 16);
    lemma_le16_read(1, w, 20);
    lemma_le16_read(channels, w, 22);
    lemma_le32_read(sample_rate, w, 24);
    lemma_le32_read(rate, w, 28);
    lemma_le16_read((channels * 2) as u16, w, 32);
    lemma_le16_read(16, w, 34);
    lemma_le32_read(data, w, 40);
    let c = channels as int;
    let n = s.len() as int;
    assert(n == (n / c) * c) by (nonlinear_arith)
        requires
            c > 0,
            n % c == 0,
    ;
    assert(2 * n == (n / c) * c * 2);
}

} // verus!
