//! Voice-activity segmentation: the data model of incoming audio messages,
//! PCM decoding, a bounded history queue, frame buffering and the speaking
//! state machine that cuts an audio stream into utterances.

pub mod base64_2_vecu8;
pub mod convert_pcm;
pub mod data_model;
pub mod fixed_deque;
pub mod handlers;
pub mod state;
pub mod vad_error;
pub mod ws_handler;
