use rust_vad::data_model::{JsonValue, NetworkData, SlicedVoiceData, VoiceData};

fn text(s: &str) -> JsonValue {
    JsonValue::Text(s.to_string())
}

fn message(audio: JsonValue) -> NetworkData {
    NetworkData {
        status: text("ok"),
        device_id: text("dev"),
        user_id: text("user"),
        id: text("42"),
        image: text("img"),
        audio,
        start_time: text("t0"),
        end_time: text("t1"),
        sample_rate: JsonValue::NonText,
        bit_depth: JsonValue::NonText,
        format: JsonValue::NonText,
    }
}

#[test]
fn init_to_voice_data_copies_strings() {
    let v: VoiceData<f32> = message(JsonValue::NonText).init_to_voice_data().unwrap();
    assert_eq!(v.status, "ok");
    assert_eq!(v.device_id, "dev");
    assert_eq!(v.user_id, "user");
    assert_eq!(v.id, "42");
    assert_eq!(v.img, "img");
    assert_eq!(v.time_stamp, "t1");
    assert!(v.audio.is_none());
}

#[test]
fn init_to_voice_data_names_first_bad_field() {
    let mut m = message(JsonValue::NonText);
    m.user_id = JsonValue::NonText;
    m.image = JsonValue::NonText;
    let e = m.init_to_voice_data::<f32>().unwrap_err();
    assert_eq!(e.msg, "cannot parse user_id TAT");

    let mut m = message(JsonValue::NonText);
    m.status = JsonValue::NonText;
    assert_eq!(m.init_to_voice_data::<f32>().unwrap_err().msg, "cannot parse status TAT");

    let mut m = message(JsonValue::NonText);
    m.device_id = JsonValue::NonText;
    assert_eq!(m.init_to_voice_data::<f32>().unwrap_err().msg, "cannot parse device_id TAT");

    let mut m = message(JsonValue::NonText);
    m.id = JsonValue::NonText;
    assert_eq!(m.init_to_voice_data::<f32>().unwrap_err().msg, "cannot parse id TAT");

    let mut m = message(JsonValue::NonText);
    m.image = JsonValue::NonText;
    assert_eq!(m.init_to_voice_data::<f32>().unwrap_err().msg, "cannot parse image TAT");

    let mut m = message(JsonValue::NonText);
    m.end_time = JsonValue::NonText;
    assert_eq!(m.init_to_voice_data::<f32>().unwrap_err().msg, "cannot parse time stamp TAT");
}

#[test]
fn into_voice_data_decodes_audio() {
    // bytes 00 80 ff 7f: samples -32768, 32767
    let v = message(text("AID/fw==")).into_voice_data().unwrap();
    assert_eq!(v.audio, Some(vec![-32768i16, 32767]));
    assert_eq!(v.time_stamp, "t1");
    assert_eq!(v.img, "img");
}

#[test]
fn into_voice_data_errors_in_order() {
    assert_eq!(message(JsonValue::NonText).into_voice_data().unwrap_err().msg, "parse audio failed TAT");
    assert_eq!(
        message(text("AAEC")).into_voice_data().unwrap_err().msg,
        "decoded data can't mod by 2 TAT"
    );
    assert_eq!(
        message(text("%%%%")).into_voice_data().unwrap_err().msg,
        "parse base64 error because Invalid symbol 37, offset 0. TAT"
    );
    let mut m = message(text("AAECAw=="));
    m.end_time = JsonValue::NonText;
    assert_eq!(m.into_voice_data().unwrap_err().msg, "cannot parse time stamp TAT");
    let mut m = message(JsonValue::NonText);
    m.status = JsonValue::NonText;
    assert_eq!(m.into_voice_data().unwrap_err().msg, "cannot parse status TAT");
}

#[test]
fn sliced_and_text_records_carry_ids() {
    let v = VoiceData {
        status: "s".to_string(),
        device_id: "d".to_string(),
        user_id: "u".to_string(),
        id: "i".to_string(),
        img: "picture".to_string(),
        audio: Some(vec![1i16, 2]),
        time_stamp: "ts".to_string(),
    };
    let sliced: SlicedVoiceData<i16> = v.init_to_sliced_voice_data_with_ref();
    assert_eq!(sliced.status, "s");
    assert_eq!(sliced.device_id, "d");
    assert_eq!(sliced.user_id, "u");
    assert_eq!(sliced.id, "i");
    assert_eq!(sliced.img, "");
    assert!(sliced.audio.is_none());
    assert_eq!(sliced.start_time, "");
    assert_eq!(sliced.end_time, "");

    let mut full = sliced.clone();
    full.img = "pic".to_string();
    full.start_time = "a".to_string();
    full.end_time = "b".to_string();
    let t = full.init_to_text_data();
    assert_eq!(t.status, "s");
    assert_eq!(t.img, "pic");
    assert_eq!(t.text, "");
    assert_eq!(t.start_time, "a");
    assert_eq!(t.end_time, "b");
}
