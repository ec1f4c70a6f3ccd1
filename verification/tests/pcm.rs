use rust_vad::convert_pcm::{decode_pcm, pcm16_samples, pcm32_words, PcmSamples};

#[test]
fn pcm16_little_endian_signed() {
    let bytes = [0x00u8, 0x80, 0xff, 0x7f, 0x01, 0x00, 0xff, 0xff, 0x34, 0x12];
    assert_eq!(pcm16_samples(&bytes), vec![-32768i16, 32767, 1, -1, 0x1234]);
}

#[test]
fn pcm16_ignores_trailing_byte() {
    assert_eq!(pcm16_samples(&[0x01, 0x02, 0x03]), vec![0x0201i16]);
    assert_eq!(pcm16_samples(&[]), Vec::<i16>::new());
}

#[test]
fn pcm32_words_little_endian() {
    let one = 1.0f32.to_le_bytes();
    let half = (-0.5f32).to_le_bytes();
    let mut bytes = one.to_vec();
    bytes.extend_from_slice(&half);
    let words = pcm32_words(&bytes);
    assert_eq!(words, vec![1.0f32.to_bits(), (-0.5f32).to_bits()]);
    assert_eq!(pcm32_words(&[1, 2, 3, 4]), vec![0x04030201u32]);
}

#[test]
fn pcm32_rejects_partial_words() {
    assert!(pcm32_words(&[1, 2, 3, 4, 5]).is_empty());
}

#[test]
fn decode_pcm_dispatches_on_bit_depth() {
    let bytes = [0x00u8, 0x40, 0x00, 0xc0];
    match decode_pcm(&bytes, 16) {
        PcmSamples::Int16(v) => assert_eq!(v, vec![16384i16, -16384]),
        _ => panic!("expected 16-bit samples"),
    }
    match decode_pcm(&bytes, 32) {
        PcmSamples::Float32Bits(v) => assert_eq!(v, vec![0xc0004000u32]),
        _ => panic!("expected float bit patterns"),
    }
    assert!(matches!(decode_pcm(&bytes, 24), PcmSamples::Unsupported));
    assert!(matches!(decode_pcm(&bytes, 8), PcmSamples::Unsupported));
}
