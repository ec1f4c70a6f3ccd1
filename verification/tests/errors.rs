use rust_vad::vad_error::{
    ConfigErr, ErrorType, ModelHandelErr, ParseErr, TypeConvertErr, VadError,
};

struct Plain;
impl VadError for Plain {}

#[test]
fn config_err_defaults_and_kind() {
    let e = ConfigErr::new();
    assert_eq!(e.msg, "config failed >_<");
    assert_eq!(e.get_error_type(), ErrorType::TpConfigErr);
    assert_eq!(e.to_display_string(), "Config Error: config failed >_<");
    let d = ConfigErr::default();
    assert_eq!(d.msg, "config failed >_<");
    let w = ConfigErr::with_msg("no file".to_string());
    assert_eq!(w.msg, "no file");
    assert_eq!(w.get_error_type(), ErrorType::TpConfigErr);
    assert_eq!(w.to_display_string(), "Config Error: no file");
}

#[test]
fn parse_err_defaults_and_kind() {
    let e = ParseErr::new();
    assert_eq!(e.msg, "parse params failed >_<");
    assert_eq!(e.get_error_type(), ErrorType::TpParseErr);
    assert_eq!(ParseErr::default().msg, "parse params failed >_<");
    let w = ParseErr::with_msg("bad".to_string());
    assert_eq!(w.to_display_string(), "Parse Error: bad");
    assert_eq!(w.get_error_type(), ErrorType::TpParseErr);
}

#[test]
fn type_convert_err_defaults_and_kind() {
    let e = TypeConvertErr::new();
    assert_eq!(e.msg, "type conversion failed >_<");
    assert_eq!(e.get_error_type(), ErrorType::TpTypeConvertErr);
    assert_eq!(TypeConvertErr::default().msg, "type conversion failed >_<");
    let w = TypeConvertErr::with_msg("x".to_string());
    assert_eq!(w.to_display_string(), "Type Conversion Error: x");
}

#[test]
fn model_handel_err_defaults_and_kind() {
    let e = ModelHandelErr::new();
    assert_eq!(e.msg, "model handling failed >_<");
    assert_eq!(e.get_error_type(), ErrorType::TpModelHandelErr);
    assert_eq!(ModelHandelErr::default().msg, "model handling failed >_<");
    let w = ModelHandelErr::with_msg("y".to_string());
    assert_eq!(w.to_display_string(), "Model Handling Error: y");
    assert_eq!(w.get_error_type(), ErrorType::TpModelHandelErr);
}

#[test]
fn default_error_kind_is_void() {
    assert_eq!(Plain.get_error_type(), ErrorType::TpVoidErr);
}
