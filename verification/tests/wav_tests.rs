//! The WAV container and its base64 transport encoding.

use base64::Engine;
use freely_core::errors::EncodeError;
use freely_core::wav::encode_wav_pcm16;
use freely_core::wav::samples_to_wav_b64;

/// Quantize one float sample exactly as the capture application does before
/// it hands a finished utterance to the encoder.
fn to_i16(s: f32) -> i16 {
    (s.clamp(-1.0, 1.0) * i16::MAX as f32) as i16
}

fn to_i16_vec(samples: &[f32]) -> Vec<i16> {
    samples.iter().map(|&s| to_i16(s)).collect()
}

#[test]
fn wav_b64_valid_input_produces_valid_riff_header() {
    let sr = 44100u32;
    let samples = to_i16_vec(&vec![0.0f32; 1024]);
    let result = samples_to_wav_b64(sr, &samples);
    assert!(result.is_ok(), "valid input should succeed");
    let b64 = result.unwrap();
    let bytes = base64::engine::general_purpose::STANDARD
        .decode(&b64)
        .expect("should be valid base64");
    // WAV starts with "RIFF"
    assert!(bytes.len() >= 4, "decoded bytes should have RIFF header");
    assert_eq!(&bytes[0..4], b"RIFF", "WAV should start with RIFF");
    // Offset 8: "WAVE"
    assert_eq!(&bytes[8..12], b"WAVE", "WAV should have WAVE marker");
}

#[test]
fn wav_b64_empty_buffer_returns_err() {
    let result = samples_to_wav_b64(44100, &Vec::new());
    assert!(result.is_err(), "empty buffer should return Err");
}

#[test]
fn wav_b64_zero_sample_rate_returns_err() {
    let samples = to_i16_vec(&vec![0.1f32; 64]);
    let result = samples_to_wav_b64(0, &samples);
    assert!(result.is_err(), "sample rate 0 should return Err");
}

#[test]
fn wav_b64_too_high_sample_rate_returns_err() {
    let samples = to_i16_vec(&vec![0.1f32; 64]);
    let result = samples_to_wav_b64(100_000, &samples);
    assert!(result.is_err(), "sample rate 100000 should return Err");
}

#[test]
fn wav_b64_known_signal_correct_sample_count() {
    let sr = 16000u32;
    let n_samples = 1600usize; // 0.1 seconds
    let samples = to_i16_vec(&vec![0.5f32; n_samples]);
    let result = samples_to_wav_b64(sr, &samples);
    assert!(result.is_ok());
    let bytes = base64::engine::general_purpose::STANDARD
        .decode(result.unwrap())
        .expect("valid base64");
    // WAV header is 44 bytes; each 16-bit sample is 2 bytes
    // data chunk size is at offset 40 (4 bytes, little-endian)
    assert!(bytes.len() >= 44, "WAV must have at least a 44-byte header");
    let data_size = u32::from_le_bytes([bytes[40], bytes[41], bytes[42], bytes[43]]) as usize;
    let samples_in_wav = data_size / 2; // 16-bit = 2 bytes per sample
    assert_eq!(
        samples_in_wav, n_samples,
        "WAV should contain {} samples, found {}",
        n_samples, samples_in_wav
    );
}

#[test]
fn wav_header_matches_standard_layout_byte_for_byte() {
    let samples: Vec<i16> = vec![1, -1, 32767];
    let bytes = encode_wav_pcm16(22050, &samples).expect("should encode");
    assert_eq!(bytes.len(), 44 + 2 * samples.len());
    assert_eq!(&bytes[0..4], b"RIFF");
    assert_eq!(u32::from_le_bytes([bytes[4], bytes[5], bytes[6], bytes[7]]), 36 + 6);
    assert_eq!(&bytes[8..12], b"WAVE");
    assert_eq!(&bytes[12..16], b"fmt ");
    assert_eq!(u32::from_le_bytes([bytes[16], bytes[17], bytes[18], bytes[19]]), 16);
    assert_eq!(u16::from_le_bytes([bytes[20], bytes[21]]), 1, "PCM format tag");
    assert_eq!(u16::from_le_bytes([bytes[22], bytes[23]]), 1, "mono");
    assert_eq!(u32::from_le_bytes([bytes[24], bytes[25], bytes[26], bytes[27]]), 22050);
    assert_eq!(u32::from_le_bytes([bytes[28], bytes[29], bytes[30], bytes[31]]), 44100, "byte rate");
    assert_eq!(u16::from_le_bytes([bytes[32], bytes[33]]), 2, "block align");
    assert_eq!(u16::from_le_bytes([bytes[34], bytes[35]]), 16, "bits per sample");
    assert_eq!(&bytes[36..40], b"data");
    assert_eq!(u32::from_le_bytes([bytes[40], bytes[41], bytes[42], bytes[43]]), 6);
    // The samples, little-endian, in order.
    assert_eq!(i16::from_le_bytes([bytes[44], bytes[45]]), 1);
    assert_eq!(i16::from_le_bytes([bytes[46], bytes[47]]), -1);
    assert_eq!(i16::from_le_bytes([bytes[48], bytes[49]]), 32767);
}

#[test]
fn wav_container_parses_with_independent_reader() {
    let samples: Vec<i16> = (0..200).map(|i| (i * 17 - 1000) as i16).collect();
    let bytes = encode_wav_pcm16(16000, &samples).expect("should encode");
    let reader = hound::WavReader::new(std::io::Cursor::new(bytes)).expect("well-formed WAV");
    let spec = reader.spec();
    assert_eq!(spec.channels, 1);
    assert_eq!(spec.sample_rate, 16000);
    assert_eq!(spec.bits_per_sample, 16);
    assert_eq!(spec.sample_format, hound::SampleFormat::Int);
    let decoded: Vec<i16> = reader.into_samples::<i16>().map(|s| s.unwrap()).collect();
    assert_eq!(decoded, samples);
}

#[test]
fn wav_b64_matches_direct_encoding_of_container_bytes() {
    let samples: Vec<i16> = vec![12345, -12345, 0, 42];
    let bytes = encode_wav_pcm16(48000, &samples).expect("should encode");
    let b64 = samples_to_wav_b64(48000, &samples).expect("should encode");
    assert_eq!(b64, base64::engine::general_purpose::STANDARD.encode(&bytes));
    // Four characters for every three bytes, rounded up.
    assert_eq!(b64.len(), 4 * ((bytes.len() + 2) / 3));
}

#[test]
fn wav_encode_error_variants_name_their_causes() {
    let err = encode_wav_pcm16(44100, &Vec::new()).unwrap_err();
    assert_eq!(err, EncodeError::EmptyBuffer);
    assert_eq!(err.message(), "Empty audio buffer");

    let err = encode_wav_pcm16(7999, &vec![1i16]).unwrap_err();
    assert_eq!(err, EncodeError::SampleRateOutOfRange);
    assert_eq!(err.message(), "Invalid sample rate. Expected 8000-96000 Hz");

    let err = encode_wav_pcm16(96001, &vec![1i16]).unwrap_err();
    assert_eq!(err, EncodeError::SampleRateOutOfRange);

    // The band edges themselves encode.
    assert!(encode_wav_pcm16(8000, &vec![1i16]).is_ok());
    assert!(encode_wav_pcm16(96000, &vec![1i16]).is_ok());
}
