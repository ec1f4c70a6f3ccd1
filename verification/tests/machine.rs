use rust_vad::data_model::VoiceData;
use rust_vad::state::{SpeakingStates, StateMachine, VadSignal};

fn clip(k: u32) -> VoiceData<u32> {
    VoiceData {
        status: "st".to_string(),
        device_id: "dev".to_string(),
        user_id: "usr".to_string(),
        id: format!("id{}", k),
        img: format!("img{}", k),
        audio: Some(vec![k, k + 100]),
        time_stamp: format!("t{}", k),
    }
}

fn step(m: &mut StateMachine<u32>, k: u32, hit: bool) -> VadSignal<u32> {
    m.process(0, 0, hit, clip(k))
}

#[test]
fn utterance_is_cut_with_history() {
    let mut m = StateMachine::new(2, 2, 1);
    assert_eq!(m.state(), SpeakingStates::Idle);
    assert!(matches!(step(&mut m, 1, true), VadSignal::Quiet));
    assert!(matches!(step(&mut m, 2, true), VadSignal::Pause));
    assert_eq!(m.state(), SpeakingStates::Active);
    assert!(matches!(step(&mut m, 3, true), VadSignal::Quiet));
    assert!(matches!(step(&mut m, 4, false), VadSignal::Quiet));
    assert!(matches!(step(&mut m, 5, false), VadSignal::Quiet));
    assert_eq!(m.state(), SpeakingStates::InActive);
    assert!(matches!(step(&mut m, 6, false), VadSignal::Quiet));
    match step(&mut m, 7, false) {
        VadSignal::Resume(Some(seg)) => {
            assert_eq!(
                seg.audio,
                Some(vec![1, 101, 2, 102, 3, 103, 4, 104, 5, 105, 6, 106, 7, 107])
            );
            assert_eq!(seg.start_time, "t1");
            assert_eq!(seg.end_time, "t7");
            assert_eq!(seg.id, "id7");
            assert_eq!(seg.img, "img7");
            assert_eq!(seg.device_id, "dev");
        }
        _ => panic!("expected an utterance"),
    }
    assert_eq!(m.state(), SpeakingStates::Idle);
}

#[test]
fn short_speech_resumes_without_utterance() {
    let mut m = StateMachine::new(1, 1, 2);
    assert!(matches!(step(&mut m, 1, true), VadSignal::Pause));
    assert!(matches!(step(&mut m, 2, false), VadSignal::Quiet));
    assert_eq!(m.state(), SpeakingStates::InActive);
    assert!(matches!(step(&mut m, 3, false), VadSignal::Resume(None)));
    assert_eq!(m.state(), SpeakingStates::Idle);
}

#[test]
fn misses_reset_hit_streak_while_idle() {
    let mut m = StateMachine::new(2, 3, 0);
    assert!(matches!(step(&mut m, 1, true), VadSignal::Quiet));
    assert!(matches!(step(&mut m, 2, false), VadSignal::Quiet));
    assert!(matches!(step(&mut m, 3, true), VadSignal::Quiet));
    assert_eq!(m.state(), SpeakingStates::Idle);
    assert!(matches!(step(&mut m, 4, true), VadSignal::Pause));
}

#[test]
fn hits_while_uncertain_resume_speech() {
    let mut m = StateMachine::new(1, 1, 1);
    assert!(matches!(step(&mut m, 1, true), VadSignal::Pause));
    assert!(matches!(step(&mut m, 2, false), VadSignal::Quiet));
    assert_eq!(m.state(), SpeakingStates::InActive);
    assert!(matches!(step(&mut m, 3, true), VadSignal::Quiet));
    assert_eq!(m.state(), SpeakingStates::Active);
}

#[test]
fn clip_without_audio_changes_nothing() {
    let mut m = StateMachine::new(1, 1, 1);
    let mut c = clip(1);
    c.audio = None;
    assert!(matches!(m.process(0, 0, true, c), VadSignal::Quiet));
    assert_eq!(m.state(), SpeakingStates::Idle);
}

#[test]
fn history_is_bounded_before_speech() {
    // history ring of 2 clips: only the last two idle clips precede the speech
    let mut m = StateMachine::new(1, 1, 1);
    assert!(matches!(step(&mut m, 1, false), VadSignal::Quiet));
    assert!(matches!(step(&mut m, 2, false), VadSignal::Quiet));
    assert!(matches!(step(&mut m, 3, true), VadSignal::Pause));
    for k in 4..=7 {
        assert!(matches!(step(&mut m, k, true), VadSignal::Quiet));
    }
    assert!(matches!(step(&mut m, 8, false), VadSignal::Quiet));
    match step(&mut m, 9, false) {
        VadSignal::Resume(Some(seg)) => {
            assert_eq!(
                seg.audio,
                Some(vec![2, 102, 3, 103, 4, 104, 5, 105, 6, 106, 7, 107, 8, 108, 9, 109])
            );
            assert_eq!(seg.start_time, "t2");
            assert_eq!(seg.end_time, "t9");
        }
        _ => panic!("expected an utterance"),
    }
}
