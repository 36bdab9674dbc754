use asr_core::calculate_duration_ms;
use asr_core::encode_i16_to_wav;
use asr_core::encode_to_wav;
use asr_core::samples_to_bytes;
use asr_core::AudioData;
use asr_core::EncodingError;
use asr_core::WavEncoder;

#[test]
fn test_encode_i16_to_wav_layout() {
    let wav = encode_i16_to_wav(&[0, 1, -1], 16000, 1).unwrap();
    assert_eq!(wav.len(), 44 + 6);
    assert_eq!(&wav[0..4], b"RIFF");
    assert_eq!(&wav[8..12], b"WAVE");
    // the sample data sits after the 44-byte header, little-endian
    assert_eq!(&wav[44..], &[0, 0, 1, 0, 0xff, 0xff]);
}

#[test]
fn test_encode_empty_rejected() {
    assert!(matches!(
        encode_i16_to_wav(&[], 16000, 1),
        Err(EncodingError::InvalidAudioData)
    ));
    let audio = AudioData::new(Vec::new(), 16000, 1);
    assert!(matches!(encode_to_wav(&audio), Err(EncodingError::InvalidAudioData)));
    let enc = WavEncoder::default_config();
    assert!(matches!(enc.encode_i16_samples(&[]), Err(EncodingError::InvalidAudioData)));
}

#[test]
fn test_encoder_default_config() {
    let enc = WavEncoder::default_config();
    assert_eq!(enc.sample_rate, 16000);
    assert_eq!(enc.channels, 1);
    assert_eq!(enc.bits_per_sample, 16);
}

#[test]
fn test_encode_audio_data() {
    let audio = AudioData::new(vec![5, -5], 8000, 1);
    let wav = encode_to_wav(&audio).unwrap();
    assert_eq!(wav.len(), 44 + 4);
    // the sample rate field of the fmt chunk, little-endian at offset 24
    assert_eq!(&wav[24..28], &8000u32.to_le_bytes());
}

#[test]
fn test_samples_to_bytes_little_endian() {
    assert_eq!(samples_to_bytes(&[0x0102, -2]), vec![0x02, 0x01, 0xfe, 0xff]);
    assert_eq!(samples_to_bytes(&[]), Vec::<u8>::new());
}

#[test]
fn test_calculate_duration_ms() {
    assert_eq!(calculate_duration_ms(16000, 16000, 1), 1000);
    assert_eq!(calculate_duration_ms(8000, 16000, 1), 500);
    assert_eq!(calculate_duration_ms(16000, 16000, 2), 500);
    assert_eq!(calculate_duration_ms(100, 0, 1), 0);
    assert_eq!(calculate_duration_ms(100, 16000, 0), 0);
}
