use rust_vad::data_model::VoiceData;
use rust_vad::ws_handler::{Buf, INPUT_LEN};

fn data(audio: Option<Vec<u32>>, ts: &str) -> VoiceData<u32> {
    VoiceData {
        status: "s".to_string(),
        device_id: "d".to_string(),
        user_id: "u".to_string(),
        id: "i".to_string(),
        img: "m".to_string(),
        audio,
        time_stamp: ts.to_string(),
    }
}

#[test]
fn frames_are_full_and_in_order() {
    let mut buf = Buf::new();
    let first: Vec<u32> = (0..700).collect();
    let out = buf.push_vec(data(Some(first), "a"));
    assert_eq!(out.len(), 1);
    assert_eq!(out[0].audio.as_ref().unwrap(), &(0..512).collect::<Vec<u32>>());
    assert_eq!(out[0].time_stamp, "a");

    let second: Vec<u32> = (700..1100).collect();
    let out = buf.push_vec(data(Some(second), "b"));
    assert_eq!(out.len(), 1);
    assert_eq!(out[0].audio.as_ref().unwrap(), &(512..1024).collect::<Vec<u32>>());
    assert_eq!(out[0].time_stamp, "b");
    assert_eq!(out[0].device_id, "d");
}

#[test]
fn large_message_gives_several_frames() {
    let mut buf = Buf::new();
    let audio: Vec<u32> = (0..(3 * INPUT_LEN as u32 + 5)).collect();
    let out = buf.push_vec(data(Some(audio), "x"));
    assert_eq!(out.len(), 3);
    for (k, f) in out.iter().enumerate() {
        let a = f.audio.as_ref().unwrap();
        assert_eq!(a.len(), INPUT_LEN);
        assert_eq!(a[0], (k * INPUT_LEN) as u32);
    }
    let out = buf.push_vec(data(Some((0..(INPUT_LEN as u32 - 5)).collect()), "y"));
    assert_eq!(out.len(), 1);
    let a = out[0].audio.as_ref().unwrap();
    assert_eq!(&a[..5], &[1536, 1537, 1538, 1539, 1540]);
    assert_eq!(a[5], 0);
}

#[test]
fn no_audio_changes_nothing() {
    let mut buf: Buf<u32> = Buf::new();
    assert!(buf.push_vec(data(None, "n")).is_empty());
    assert!(buf.push_vec(data(Some(vec![]), "e")).is_empty());
    assert!(buf.push_vec(data(Some(vec![9; 511]), "p")).is_empty());
    let out = buf.push_vec(data(Some(vec![7]), "q"));
    assert_eq!(out.len(), 1);
    assert_eq!(out[0].audio.as_ref().unwrap()[511], 7);
}
