# rust_vad

A voice-activity service that cuts a stream of audio messages into
utterances and hands them to speech recognition.

- `src/` is the verified library (Verus): the message data model and its
  decoding (base64 audio, little-endian PCM), the bounded history queue, the
  framing buffer that turns arbitrary audio messages into fixed-size frames,
  the speaking state machine that decides when speech starts and ends and
  what audio each utterance carries, the model input checks, and the error
  types.
- `app/` is the service around it: configuration loading, the websocket
  endpoint and worker tasks, the ONNX and whisper models, and every
  floating-point computation (loudness, smoothing, sample scaling).
- `tests/` exercises the library on concrete values.
