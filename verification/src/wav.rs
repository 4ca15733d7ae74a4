//! Verified WAV encoding: quantized 16-bit PCM samples are packed into a
//! RIFF/WAVE container declaring mono, 16 kHz, 16-bit signed PCM. The byte
//! layout is pinned down exactly by `spec_wav_bytes`.

use vstd::prelude::*;
use crate::errors::TranscribeError;

verus! {

/// The largest sample count whose data chunk and RIFF size both fit in the
/// container's 32-bit size fields: 36 + 2 * n <= u32::MAX.
pub const MAX_WAV_SAMPLES: usize = 2147483629;

/// Integer clamp used when quantizing audio samples to 16-bit PCM.
pub open spec fn spec_clamp_i16(x: int) -> i16 {
    if x < -32767 {
        -32767i16
    } else if x > 32767 {
        32767i16
    } else {
        x as i16
    }
}

/// Clamp a pre-scaled sample to the signed 16-bit PCM range.
pub fn clamp_sample(x: i64) -> (r: i16)
    ensures
        r == spec_clamp_i16(x as int),
{
    if x < -32767 {
        -32767
    } else if x > 32767 {
        32767
    } else {
        x as i16
    }
}

/// Quantization saturates: every pre-scaled sample lands inside the signed
/// 16-bit PCM range, values already inside pass through unchanged, and values
/// beyond it clamp to the nearest bound instead of wrapping.
pub proof fn lemma_clamp_saturates(x: int)
    ensures
        -32767 <= spec_clamp_i16(x) as int <= 32767,
        -32767 <= x <= 32767 ==> spec_clamp_i16(x) as int == x,
        x > 32767 ==> spec_clamp_i16(x) == 32767i16,
        x < -32767 ==> spec_clamp_i16(x) == -32767i16,
{
}

/// Little-endian bytes of a 16-bit word.
pub open spec fn spec_le16(u: u16) -> Seq<u8> {
    seq![(u % 256) as u8, (u / 256) as u8]
}

/// Little-endian bytes of a 32-bit word.
pub open spec fn spec_le32(u: u32) -> Seq<u8> {
    seq![
        (u % 256) as u8,
        ((u / 256) % 256) as u8,
        ((u / 65536) % 256) as u8,
        (u / 16777216) as u8,
    ]
}

/// The two's-complement 16-bit pattern of a signed sample.
pub open spec fn spec_u16_repr(x: i16) -> u16 {
    if x >= 0 {
        x as u16
    } else {
        (x + 65536) as u16
    }
}

/// The 44-byte RIFF/WAVE header for `n` mono 16-bit samples at 16 kHz.
pub open spec fn spec_wav_header(n: int) -> Seq<u8> {
    seq![0x52u8, 0x49u8, 0x46u8, 0x46u8]  // "RIFF"
    + spec_le32((36 + 2 * n) as u32)
    + seq![0x57u8, 0x41u8, 0x56u8, 0x45u8]  // "WAVE"
    + seq![0x66u8, 0x6du8, 0x74u8, 0x20u8]  // "fmt "
    + spec_le32(16u32)  // fmt chunk size
    + spec_le16(1u16)  // PCM
    + spec_le16(1u16)  // channels: mono
    + spec_le32(16000u32)  // sample rate
    + spec_le32(32000u32)  // byte rate
    + spec_le16(2u16)  // block align
    + spec_le16(16u16)  // bits per sample
    + seq![0x64u8, 0x61u8, 0x74u8, 0x61u8]  // "data"
    + spec_le32((2 * n) as u32)
}

/// The PCM data chunk: each sample as two little-endian bytes, in order.
pub open spec fn spec_data_bytes(s: Seq<i16>) -> Seq<u8>
    decreases s.len(),
{
    if s.len() == 0 {
        Seq::empty()
    } else {
        spec_data_bytes(s.drop_last()) + spec_le16(spec_u16_repr(s.last()))
    }
}

/// The complete WAV file for a sample sequence.
pub open spec fn spec_wav_bytes(s: Seq<i16>) -> Seq<u8> {
    spec_wav_header(s.len() as int) + spec_data_bytes(s)
}

pub proof fn lemma_data_bytes_len(s: Seq<i16>)
    ensures
        spec_data_bytes(s).len() == 2 * s.len(),
    decreases s.len(),
{
    if s.len() > 0 {
        lemma_data_bytes_len(s.drop_last());
    }
}

fn push_le16(out: &mut Vec<u8>, u: u16)
    ensures
        final(out)@ == old(out)@ + spec_le16(u),
{
    out.push((u % 256) as u8);
    out.push((u / 256) as u8);
    proof {
        assert(out@ =~= old(out)@ + spec_le16(u));
    }
}

fn push_le32(out: &mut Vec<u8>, u: u32)
    ensures
        final(out)@ == old(out)@ + spec_le32(u),
{
    out.push((u % 256) as u8);
    out.push(((u / 256) % 256) as u8);
    out.push(((u / 65536) % 256) as u8);
    out.push((u / 16777216) as u8);
    proof {
        assert(out@ =~= old(out)@ + spec_le32(u));
    }
}

/// The bit pattern written into the data chunk for one sample.
fn sample_to_u16(x: i16) -> (u: u16)
    ensures
        u == spec_u16_repr(x),
{
    if x >= 0 {
        x as u16
    } else {
        ((x as i32) + 65536) as u16
    }
}

/// Clamp each pre-scaled sample to the signed 16-bit PCM range. Values beyond
/// the range saturate instead of wrapping.
pub fn quantize_samples(scaled: &Vec<i64>) -> (r: Vec<i16>)
    ensures
        r@.len() == scaled@.len(),
        forall|i: int| 0 <= i < scaled@.len() ==> r@[i] == spec_clamp_i16(scaled@[i] as int),
{
    let mut r: Vec<i16> = Vec::new();
    let mut idx: usize = 0;
    while idx < scaled.len()
        invariant
            idx <= scaled@.len(),
            r@.len() == idx,
            forall|i: int| 0 <= i < idx ==> r@[i] == spec_clamp_i16(scaled@[i] as int),
        decreases scaled@.len() - idx,
    {
        r.push(clamp_sample(scaled[idx]));
        idx = idx + 1;
    }
    r
}

/// Encode quantized samples as a mono, 16 kHz, 16-bit PCM WAV file.
pub fn encode_wav(samples: &Vec<i16>) -> (r: Vec<u8>)
    requires
        samples@.len() <= MAX_WAV_SAMPLES,
    ensures
        r@ == spec_wav_bytes(samples@),
{
    let n: usize = samples.len();
    let data_size: u32 = ((n as u64) * 2) as u32;
    let mut out: Vec<u8> = Vec::new();
    out.push(0x52);
    out.push(0x49);
    out.push(0x46);
    out.push(0x46);
    proof {
        assert(out@ =~= seq![0x52u8, 0x49u8, 0x46u8, 0x46u8]);
    }
    push_le32(&mut out, 36 + data_size);
    out.push(0x57);
    out.push(0x41);
    out.push(0x56);
    out.push(0x45);
    out.push(0x66);
    out.push(0x6d);
    out.push(0x74);
    out.push(0x20);
    push_le32(&mut out, 16);
    push_le16(&mut out, 1);
    push_le16(&mut out, 1);
    push_le32(&mut out, 16000);
    push_le32(&mut out, 32000);
    push_le16(&mut out, 2);
    push_le16(&mut out, 16);
    out.push(0x64);
    out.push(0x61);
    out.push(0x74);
    out.push(0x61);
    push_le32(&mut out, data_size);
    proof {
        assert(out@ =~= spec_wav_header(n as int));
        assert(samples@.subrange(0, 0) =~= Seq::<i16>::empty());
    }
    let mut idx: usize = 0;
    while idx < n
        invariant
            idx <= n,
            n == samples@.len(),
            n <= MAX_WAV_SAMPLES,
            out@ == spec_wav_header(n as int) + spec_data_bytes(samples@.subrange(0, idx as int)),
        decreases n - idx,
    {
        let u = sample_to_u16(samples[idx]);
        push_le16(&mut out, u);
        proof {
            let pre = samples@.subrange(0, idx as int);
            let post = samples@.subrange(0, idx as int + 1);
            assert(post.drop_last() =~= pre);
            assert(post.last() == samples@[idx as int]);
            assert(out@ =~= spec_wav_header(n as int) + spec_data_bytes(post));
        }
        idx = idx + 1;
    }
    proof {
        assert(samples@.subrange(0, n as int) =~= samples@);
    }
    out
}

/// Encode quantized samples, rejecting inputs too large for the container's
/// 32-bit size fields with an `EncodingError`.
pub fn samples_to_wav(samples: &Vec<i16>) -> (r: Result<Vec<u8>, TranscribeError>)
    ensures
        samples@.len() <= MAX_WAV_SAMPLES ==> r is Ok && r->Ok_0@ == spec_wav_bytes(samples@),
        samples@.len() > MAX_WAV_SAMPLES ==> r matches Err(
            TranscribeError::EncodingError { .. },
        ),
{
    if samples.len() <= MAX_WAV_SAMPLES {
        Ok(encode_wav(samples))
    } else {
        Err(TranscribeError::EncodingError {
            message: String::from_str("audio too long for a WAV container"),
        })
    }
}

/// The container produced for any admissible sample sequence declares one
/// channel, a 16000 Hz sample rate and 16 bits per sample, and its data chunk
/// size equals twice the sample count, so the declared sample count equals
/// the input length.
pub proof fn lemma_wav_declares_format(samples: Seq<i16>)
    requires
        samples.len() <= MAX_WAV_SAMPLES,
    ensures
        spec_wav_bytes(samples).len() == 44 + 2 * samples.len(),
        spec_wav_bytes(samples).subrange(22, 24) == spec_le16(1u16),
        spec_wav_bytes(samples).subrange(24, 28) == spec_le32(16000u32),
        spec_wav_bytes(samples).subrange(34, 36) == spec_le16(16u16),
        spec_wav_bytes(samples).subrange(40, 44) == spec_le32((2 * samples.len()) as u32),
{
    lemma_data_bytes_len(samples);
    assert(spec_wav_header(samples.len() as int).len() == 44);
    assert(spec_wav_bytes(samples).subrange(22, 24) =~= spec_le16(1u16));
    assert(spec_wav_bytes(samples).subrange(24, 28) =~= spec_le32(16000u32));
    assert(spec_wav_bytes(samples).subrange(34, 36) =~= spec_le16(16u16));
    assert(spec_wav_bytes(samples).subrange(40, 44) =~= spec_le32((2 * samples.len()) as u32));
}

} // verus!
