use rust_vad::handlers::{
    model_input, needs_reset, next_context, CONTEXT_LEN,
    asr_window, check_asr_input, check_frame_len, check_vad_input, vad_window, ASR_INPUT_LEN,
    ASR_TASK_LEN, VAD_INPUT_LEN,
};

#[test]
fn vad_window_takes_tail_or_pads() {
    let long: Vec<i32> = (0..600).collect();
    let w = vad_window(&long, -1);
    assert_eq!(w.len(), VAD_INPUT_LEN);
    assert_eq!(w[0], 88);
    assert_eq!(w[511], 599);
    let short = vec![5, 6, 7];
    let w = vad_window(&short, 0);
    assert_eq!(w.len(), 512);
    assert_eq!(&w[..4], &[5, 6, 7, 0]);
    assert_eq!(w[511], 0);
}

#[test]
fn asr_window_takes_head_or_pads() {
    let short = vec![1u8, 2, 3];
    let w = asr_window(&short, 0);
    assert_eq!(w.len(), ASR_TASK_LEN);
    assert_eq!(&w[..4], &[1, 2, 3, 0]);
    let long: Vec<u32> = (0..40000).collect();
    let w = asr_window(&long, 0);
    assert_eq!(w.len(), 32000);
    assert_eq!(w[31999], 31999);
}

#[test]
fn model_input_checks() {
    assert!(check_frame_len(512).is_ok());
    assert_eq!(check_frame_len(511).unwrap_err().msg, "data not match to 512 samples >_<");
    assert!(check_vad_input(512, 16000).is_ok());
    assert_eq!(
        check_vad_input(512, 8000).unwrap_err().msg,
        "sample rate which input to model is not match to 16000kHz TAT"
    );
    assert_eq!(
        check_vad_input(100, 16000).unwrap_err().msg,
        "length which input to model is not match to 512 QAQ"
    );
    assert!(check_asr_input(ASR_INPUT_LEN, 16000).is_ok());
    assert_eq!(check_asr_input(5, 44100).unwrap_err().msg, "input length must fit to 16kHz QwQ");
    assert_eq!(check_asr_input(5, 16000).unwrap_err().msg, "input length must fit to 32000 >_<");
}

#[test]
fn stream_context_bookkeeping() {
    assert!(needs_reset(0, 1, 0, 16000));
    assert!(!needs_reset(1, 1, 0, 16000));
    assert!(!needs_reset(1, 1, 16000, 16000));
    assert!(needs_reset(1, 1, 8000, 16000));
    let ctx = vec![0u32; CONTEXT_LEN];
    let x: Vec<u32> = (1..=512).collect();
    let input = model_input(&ctx, &x);
    assert_eq!(input.len(), 576);
    assert_eq!(input[63], 0);
    assert_eq!(input[64], 1);
    let next = next_context(&input);
    assert_eq!(next.len(), CONTEXT_LEN);
    assert_eq!(next[0], 449);
    assert_eq!(next[63], 512);
}
