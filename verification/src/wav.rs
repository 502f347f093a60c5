//! The WAV container and its transport encoding.
//!
//! A finished utterance leaves the pipeline as mono 16-bit PCM in a minimal
//! RIFF/WAVE container — the standard 44-byte header followed by the samples
//! in order, two little-endian bytes each — and reaches the consumer as a
//! base64 string of the container bytes.

use vstd::prelude::*;
use base64::Engine;

use crate::errors::EncodeError;

verus! {

/// Greatest number of samples one container is asked to hold — a machine
/// limit: it keeps the container's 32-bit size fields and the transport
/// encoding's buffer arithmetic within bounds, and lies far above anything
/// the pipeline can accumulate under its safety caps.
pub const MAX_WAV_SAMPLES: usize = 0x2000_0000;

/// The four bytes of a `u32`, least significant first.
pub open spec fn u32_le_bytes(v: u32) -> Seq<u8> {
    seq![
        (v & 0xff) as u8,
        ((v >> 8) & 0xff) as u8,
        ((v >> 16) & 0xff) as u8,
        ((v >> 24) & 0xff) as u8,
    ]
}

/// The two bytes of a `u16`, least significant first.
pub open spec fn u16_le_bytes(v: u16) -> Seq<u8> {
    seq![(v & 0xff) as u8, ((v >> 8) & 0xff) as u8]
}

/// One 16-bit sample as its two little-endian bytes.
pub open spec fn sample_le_bytes(s: i16) -> Seq<u8> {
    u16_le_bytes(s as u16)
}

/// All samples in order, two bytes each.
pub open spec fn pcm16_bytes(samples: Seq<i16>) -> Seq<u8>
    decreases samples.len(),
{
    if samples.len() == 0 {
        Seq::empty()
    } else {
        sample_le_bytes(samples[0]) + pcm16_bytes(samples.drop_first())
    }
}

/// The 44-byte header of a mono 16-bit PCM WAV container holding `n`
/// samples: the RIFF magic and remaining file size, the WAVE form type, a
/// 16-byte fmt chunk (PCM, one channel, the sample rate, the derived byte
/// rate of two bytes per sample, block alignment two, sixteen bits), and the
/// data chunk header declaring `2 * n` bytes of samples.
pub open spec fn wav_header(sample_rate: u32, n: nat) -> Seq<u8> {
    seq![0x52u8, 0x49u8, 0x46u8, 0x46u8]  // "RIFF"
        + u32_le_bytes((36 + 2 * n) as u32)
        + seq![0x57u8, 0x41u8, 0x56u8, 0x45u8]  // "WAVE"
        + seq![0x66u8, 0x6du8, 0x74u8, 0x20u8]  // "fmt "
        + u32_le_bytes(16)
        + u16_le_bytes(1)
        + u16_le_bytes(1)
        + u32_le_bytes(sample_rate)
        + u32_le_bytes((2 * sample_rate) as u32)
        + u16_le_bytes(2)
        + u16_le_bytes(16)
        + seq![0x64u8, 0x61u8, 0x74u8, 0x61u8]  // "data"
        + u32_le_bytes((2 * n) as u32)
}

/// The complete container: header, then the samples.
pub open spec fn wav_bytes(sample_rate: u32, samples: Seq<i16>) -> Seq<u8> {
    wav_header(sample_rate, samples.len()) + pcm16_bytes(samples)
}

/// The sample bytes take exactly two bytes per sample.
pub proof fn lemma_pcm16_len(samples: Seq<i16>)
    ensures
        pcm16_bytes(samples).len() == 2 * samples.len(),
    decreases samples.len(),
{
    if samples.len() > 0 {
        lemma_pcm16_len(samples.drop_first());
    }
}

/// Appending one sample appends its two bytes.
pub proof fn lemma_pcm16_snoc(samples: Seq<i16>, s: i16)
    ensures
        pcm16_bytes(samples.push(s)) == pcm16_bytes(samples) + sample_le_bytes(s),
    decreases samples.len(),
{
    assert(samples.push(s)[0] == if samples.len() == 0 {
        s
    } else {
        samples[0]
    });
    if samples.len() == 0 {
        assert(samples.push(s).drop_first() =~= Seq::<i16>::empty());
        assert(pcm16_bytes(Seq::<i16>::empty()) == Seq::<u8>::empty());
        assert(pcm16_bytes(samples.push(s)) == sample_le_bytes(s) + Seq::<u8>::empty());
        assert(pcm16_bytes(samples.push(s)) =~= pcm16_bytes(samples) + sample_le_bytes(s));
    } else {
        assert(samples.push(s).drop_first() =~= samples.drop_first().push(s));
        lemma_pcm16_snoc(samples.drop_first(), s);
        assert(pcm16_bytes(samples.push(s)) == sample_le_bytes(samples[0]) + (pcm16_bytes(
            samples.drop_first(),
        ) + sample_le_bytes(s)));
        assert(pcm16_bytes(samples.push(s)) =~= pcm16_bytes(samples) + sample_le_bytes(s));
    }
}

/// The container names its contents: it is 44 bytes of header plus two bytes
/// per sample, and the data chunk size field at bytes 40..44 declares exactly
/// twice the sample count, so a decoder recovers as many samples as were
/// encoded.
pub proof fn lemma_wav_declared_sample_count(sample_rate: u32, samples: Seq<i16>)
    requires
        samples.len() <= MAX_WAV_SAMPLES,
    ensures
        wav_bytes(sample_rate, samples).len() == 44 + 2 * samples.len(),
        wav_bytes(sample_rate, samples).subrange(40, 44) == u32_le_bytes(
            (2 * samples.len()) as u32,
        ),
{
    lemma_pcm16_len(samples);
    assert(wav_header(sample_rate, samples.len()).len() == 44);
    assert(wav_bytes(sample_rate, samples).subrange(40, 44) =~= u32_le_bytes(
        (2 * samples.len()) as u32,
    ));
}

/// Append the four little-endian bytes of `v`.
fn push_u32_le(out: &mut Vec<u8>, v: u32)
    ensures
        final(out)@ == old(out)@ + u32_le_bytes(v),
{
    out.push((v & 0xff) as u8);
    out.push(((v >> 8) & 0xff) as u8);
    out.push(((v >> 16) & 0xff) as u8);
    out.push(((v >> 24) & 0xff) as u8);
    assert(out@ =~= old(out)@ + u32_le_bytes(v));
}

/// Append the two little-endian bytes of `v`.
fn push_u16_le(out: &mut Vec<u8>, v: u16)
    ensures
        final(out)@ == old(out)@ + u16_le_bytes(v),
{
    out.push((v & 0xff) as u8);
    out.push(((v >> 8) & 0xff) as u8);
    assert(out@ =~= old(out)@ + u16_le_bytes(v));
}

/// Build the WAV container for one utterance.
///
/// Succeeds exactly when the sample rate lies in the supported band and
/// there is at least one sample; the result is then the standard container,
/// byte for byte.
pub fn encode_wav_pcm16(sample_rate: u32, samples: &Vec<i16>) -> (r: Result<
    Vec<u8>,
    EncodeError,
>)
    requires
        samples@.len() <= MAX_WAV_SAMPLES,
    ensures
        (r is Ok) <==> (8000 <= sample_rate <= 96000 && samples@.len() > 0),
        (r matches Ok(bytes) ==> bytes@ == wav_bytes(sample_rate, samples@)),
        (r matches Err(e) ==> (e is SampleRateOutOfRange <==> !(8000 <= sample_rate <= 96000))),
{
    if sample_rate < 8000 || sample_rate > 96000 {
        return Err(EncodeError::SampleRateOutOfRange);
    }
    if samples.len() == 0 {
        return Err(EncodeError::EmptyBuffer);
    }

    let n = samples.len();
    let data_len: u32 = (2 * n) as u32;
    let riff_len: u32 = 36 + data_len;
    let byte_rate: u32 = 2 * sample_rate;

    let mut out: Vec<u8> = Vec::with_capacity(44 + 2 * n);
    out.push(0x52);  // 'R'
    out.push(0x49);  // 'I'
    out.push(0x46);  // 'F'
    out.push(0x46);  // 'F'
    push_u32_le(&mut out, riff_len);
    out.push(0x57);  // 'W'
    out.push(0x41);  // 'A'
    out.push(0x56);  // 'V'
    out.push(0x45);  // 'E'
    out.push(0x66);  // 'f'
    out.push(0x6d);  // 'm'
    out.push(0x74);  // 't'
    out.push(0x20);  // ' '
    push_u32_le(&mut out, 16);
    push_u16_le(&mut out, 1);
    push_u16_le(&mut out, 1);
    push_u32_le(&mut out, sample_rate);
    push_u32_le(&mut out, byte_rate);
    push_u16_le(&mut out, 2);
    push_u16_le(&mut out, 16);
    out.push(0x64);  // 'd'
    out.push(0x61);  // 'a'
    out.push(0x74);  // 't'
    out.push(0x61);  // 'a'
    push_u32_le(&mut out, data_len);

    assert(out@ =~= wav_header(sample_rate, samples@.len()));

    for i in 0..n
        invariant
            n == samples@.len(),
            n <= MAX_WAV_SAMPLES,
            out@ == wav_header(sample_rate, samples@.len()) + pcm16_bytes(samples@.take(i as int)),
    {
        let u = samples[i] as u16;
        out.push((u & 0xff) as u8);
        out.push(((u >> 8) & 0xff) as u8);
        proof {
            lemma_pcm16_snoc(samples@.take(i as int), samples@[i as int]);
            assert(samples@.take(i + 1) =~= samples@.take(i as int).push(samples@[i as int]));
            assert(out@ =~= wav_header(sample_rate, samples@.len()) + pcm16_bytes(
                samples@.take(i + 1),
            ));
        }
    }
    proof {
        assert(samples@.take(n as int) =~= samples@);
    }
    Ok(out)
}

/// What the base64 crate's standard engine returns for the given bytes.
pub uninterp spec fn base64_of(bytes: Seq<u8>) -> Seq<char>;

/// Relies on `base64::engine::general_purpose::STANDARD.encode`:
/// standard-alphabet base64 with `=` padding.  The result is a pure function
/// of the input bytes, four characters for every three input bytes, rounded
/// up.
#[verifier::external_body]
fn base64_encode(bytes: &Vec<u8>) -> (r: String)
    requires
        bytes@.len() <= 0x6000_0000,
    ensures
        r@ == base64_of(bytes@),
        r@.len() == 4 * ((bytes@.len() + 2) / 3),
{
    base64::engine::general_purpose::STANDARD.encode(bytes.as_slice())
}

/// Encode one utterance as a WAV container carried in a base64 string.
///
/// Succeeds exactly when the sample rate lies in the supported band and
/// there is at least one sample.
pub fn samples_to_wav_b64(sample_rate: u32, samples: &Vec<i16>) -> (r: Result<
    String,
    EncodeError,
>)
    requires
        samples@.len() <= MAX_WAV_SAMPLES,
    ensures
        (r is Ok) <==> (8000 <= sample_rate <= 96000 && samples@.len() > 0),
        (r matches Ok(s) ==> s@ == base64_of(wav_bytes(sample_rate, samples@))),
        (r matches Err(e) ==> (e is SampleRateOutOfRange <==> !(8000 <= sample_rate <= 96000))),
{
    match encode_wav_pcm16(sample_rate, samples) {
        Ok(bytes) => {
            proof {
                lemma_wav_declared_sample_count(sample_rate, samples@);
            }
            Ok(base64_encode(&bytes))
        },
        Err(e) => Err(e),
    }
}

} // verus!
