use speaker_capture::samples::decode_samples;

#[test]
fn decodes_little_endian_words() {
    let buffer: Vec<u8> = vec![0x00, 0x00, 0x80, 0x3F, 0x78, 0x56, 0x34, 0x12];
    let samples = decode_samples(&buffer);
    assert_eq!(samples, vec![0x3F80_0000, 0x1234_5678]);
}

#[test]
fn decoded_words_are_float_bit_patterns() {
    let floats: Vec<f32> = vec![1.0, -0.5, 0.0, 0.25];
    let mut buffer: Vec<u8> = Vec::new();
    for f in &floats {
        buffer.extend_from_slice(&f.to_le_bytes());
    }
    let samples = decode_samples(&buffer);
    assert_eq!(samples.len(), 4);
    for (word, f) in samples.iter().zip(floats.iter()) {
        assert_eq!(f32::from_bits(*word), *f);
    }
}

#[test]
fn trailing_partial_chunk_is_ignored() {
    let buffer: Vec<u8> = vec![1, 0, 0, 0, 0xFF, 0xFF];
    let samples = decode_samples(&buffer);
    assert_eq!(samples, vec![1]);
}

#[test]
fn empty_buffer_decodes_to_nothing() {
    let samples = decode_samples(&Vec::new());
    assert!(samples.is_empty());
}

#[test]
fn full_read_buffer_yields_1024_samples() {
    // One blocking read fills 4096 bytes: exactly 1024 samples per cycle.
    let buffer: Vec<u8> = vec![0u8; 4096];
    let samples = decode_samples(&buffer);
    assert_eq!(samples.len(), 1024);
    assert!(samples.iter().all(|w| f32::from_bits(*w) == 0.0));
}
