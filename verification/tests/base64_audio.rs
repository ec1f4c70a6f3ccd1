use rust_vad::base64_2_vecu8::{accept_decoded, accept_decoding, base64_2_vecu8, failure_to_text, Base64Failure};
use rust_vad::vad_error::{ErrorType, VadError};

#[test]
fn decodes_even_length_audio() {
    assert_eq!(base64_2_vecu8("AAECAw==".to_string()).unwrap(), vec![0u8, 1, 2, 3]);
    assert_eq!(base64_2_vecu8(String::new()).unwrap(), Vec::<u8>::new());
}

#[test]
fn rejects_odd_length_audio() {
    let e = base64_2_vecu8("AAEC".to_string()).unwrap_err();
    assert_eq!(e.msg, "decoded data can't mod by 2 TAT");
    assert_eq!(e.get_error_type(), ErrorType::TpParseErr);
}

#[test]
fn rejects_invalid_base64() {
    let e = base64_2_vecu8("!!!!".to_string()).unwrap_err();
    assert_eq!(e.msg, "parse base64 error because Invalid symbol 33, offset 0. TAT");
    assert_eq!(e.get_error_type(), ErrorType::TpParseErr);
    let e = base64_2_vecu8("AAE".to_string()).unwrap_err();
    assert_eq!(e.msg, "parse base64 error because Invalid padding TAT");
    let e = base64_2_vecu8("A".to_string()).unwrap_err();
    assert_eq!(e.msg, "parse base64 error because Invalid input length: 1 TAT");
    let e = base64_2_vecu8("AB==".to_string()).unwrap_err();
    assert_eq!(e.msg, "parse base64 error because Invalid last symbol 66, offset 1. TAT");
}

#[test]
fn accept_decoded_checks_parity() {
    assert_eq!(accept_decoded(vec![1, 2]).unwrap(), vec![1u8, 2]);
    assert_eq!(accept_decoded(vec![1]).unwrap_err().msg, "decoded data can't mod by 2 TAT");
}

#[test]
fn failure_texts_show_numbers_in_decimal() {
    assert_eq!(failure_to_text(Base64Failure::InvalidByte(1234, 255)), "Invalid symbol 255, offset 1234.");
    assert_eq!(failure_to_text(Base64Failure::InvalidLength(0)), "Invalid input length: 0");
    assert_eq!(failure_to_text(Base64Failure::InvalidLastSymbol(10, 9)), "Invalid last symbol 9, offset 10.");
    assert_eq!(failure_to_text(Base64Failure::InvalidPadding), "Invalid padding");
}

#[test]
fn accept_decoding_handles_both_outcomes() {
    assert_eq!(accept_decoding(Ok(vec![5, 6])).unwrap(), vec![5u8, 6]);
    assert_eq!(accept_decoding(Ok(vec![5])).unwrap_err().msg, "decoded data can't mod by 2 TAT");
    assert_eq!(
        accept_decoding(Err(Base64Failure::InvalidLength(7))).unwrap_err().msg,
        "parse base64 error because Invalid input length: 7 TAT"
    );
}
