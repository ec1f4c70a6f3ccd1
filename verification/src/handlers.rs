use crate::base64_2_vecu8::is_parse_err;
use crate::vad_error::ParseErr;
use vstd::prelude::*;

verus! {

/// The number of samples the voice-activity model takes at once.
pub const VAD_INPUT_LEN: usize = 512;

/// The number of samples handed to speech recognition at once.
pub const ASR_TASK_LEN: usize = 32000;

/// The number of samples the speech-recognition model checks its input against.
pub const ASR_INPUT_LEN: usize = 1600000;

/// The only sample rate the models take.
pub const MODEL_SAMPLE_RATE: u32 = 16000;

/// Accepts a frame for the voice-activity model only when it has exactly
/// `VAD_INPUT_LEN` samples.
pub fn check_frame_len(len: usize) -> (r: Result<(), ParseErr>)
    ensures
        len == VAD_INPUT_LEN ==> r is Ok,
        len != VAD_INPUT_LEN ==> (r matches Err(e) && is_parse_err(e, "data not match to 512 samples >_<"@)),
{
    if VAD_INPUT_LEN != len {
        return Err(ParseErr::with_msg(String::from_str("data not match to 512 samples >_<")));
    }
    Ok(())
}

/// The samples of a frame for the voice-activity model: the last
/// `VAD_INPUT_LEN` samples of `data`, or, when there are fewer, all of them
/// followed by `pad` up to that length.
pub fn vad_window<T: Copy>(data: &[T], pad: T) -> (r: Vec<T>)
    ensures
        r.len() == VAD_INPUT_LEN,
        data.len() >= VAD_INPUT_LEN ==> r@ == data@.subrange(
            data.len() - VAD_INPUT_LEN,
            data.len() as int,
        ),
        data.len() < VAD_INPUT_LEN ==> r@ == data@ + Seq::new(
            (VAD_INPUT_LEN - data.len()) as nat,
            |i: int| pad,
        ),
{
    let n: usize = data.len();
    let start: usize = if n >= VAD_INPUT_LEN { n - VAD_INPUT_LEN } else { 0 };
    let mut r: Vec<T> = Vec::with_capacity(VAD_INPUT_LEN);
    let mut i: usize = start;
    while i < n
        invariant
            n == data.len(),
            start <= i <= n,
            start == if n >= VAD_INPUT_LEN { n - VAD_INPUT_LEN } else { 0 },
            r@ == data@.subrange(start as int, i as int),
        decreases n - i,
    {
        r.push(data[i]);
        i = i + 1;
        assert(r@ =~= data@.subrange(start as int, i as int));
    }
    let ghost taken = r@;
    while r.len() < VAD_INPUT_LEN
        invariant
            taken == data@.subrange(start as int, n as int),
            taken.len() <= r.len() <= VAD_INPUT_LEN,
            r@ == taken + Seq::new((r.len() - taken.len()) as nat, |j: int| pad),
        decreases VAD_INPUT_LEN - r.len(),
    {
        r.push(pad);
        assert(r@ =~= taken + Seq::new((r.len() - taken.len()) as nat, |j: int| pad));
    }
    assert(data@.subrange(0, n as int) =~= data@);
    r
}

/// The samples handed to speech recognition: the first `ASR_TASK_LEN`
/// samples of `data` (all of them when there are fewer), followed by `pad`
/// up to that length.
pub fn asr_window<T: Copy>(data: &[T], pad: T) -> (r: Vec<T>)
    ensures
        r.len() == ASR_TASK_LEN,
        forall|i: int|
            0 <= i < ASR_TASK_LEN ==> #[trigger] r[i] == if i < data.len() {
                data[i]
            } else {
                pad
            },
{
    let n: usize = if data.len() < ASR_TASK_LEN { data.len() } else { ASR_TASK_LEN };
    let mut r: Vec<T> = Vec::with_capacity(ASR_TASK_LEN);
    let mut i: usize = 0;
    while i < ASR_TASK_LEN
        invariant
            n == if data.len() < ASR_TASK_LEN { data.len() } else { ASR_TASK_LEN },
            i <= ASR_TASK_LEN,
            r.len() == i,
            forall|k: int| 0 <= k < i ==> #[trigger] r[k] == if k < data.len() { data[k] } else { pad },
        decreases ASR_TASK_LEN - i,
    {
        if i < n {
            r.push(data[i]);
        } else {
            r.push(pad);
        }
        i = i + 1;
    }
    r
}

/// Accepts input for the voice-activity model only at 16 kHz and with
/// exactly `VAD_INPUT_LEN` samples; the sample rate is checked first.
pub fn check_vad_input(len: usize, sr: u32) -> (r: Result<(), ParseErr>)
    ensures
        sr != MODEL_SAMPLE_RATE ==> (r matches Err(e) && is_parse_err(
            e,
            "sample rate which input to model is not match to 16000kHz TAT"@,
        )),
        sr == MODEL_SAMPLE_RATE && len != VAD_INPUT_LEN ==> (r matches Err(e) && is_parse_err(
            e,
            "length which input to model is not match to 512 QAQ"@,
        )),
        sr == MODEL_SAMPLE_RATE && len == VAD_INPUT_LEN ==> r is Ok,
{
    if sr != MODEL_SAMPLE_RATE {
        return Err(
            ParseErr::with_msg(
                String::from_str("sample rate which input to model is not match to 16000kHz TAT"),
            ),
        );
    }
    if len != VAD_INPUT_LEN {
        return Err(
            ParseErr::with_msg(String::from_str("length which input to model is not match to 512 QAQ")),
        );
    }
    Ok(())
}

/// Accepts input for the speech-recognition model only at 16 kHz and with
/// exactly `ASR_INPUT_LEN` samples; the sample rate is checked first.
pub fn check_asr_input(len: usize, sr: u32) -> (r: Result<(), ParseErr>)
    ensures
        sr != MODEL_SAMPLE_RATE ==> (r matches Err(e) && is_parse_err(
            e,
            "input length must fit to 16kHz QwQ"@,
        )),
        sr == MODEL_SAMPLE_RATE && len != ASR_INPUT_LEN ==> (r matches Err(e) && is_parse_err(
            e,
            "input length must fit to 32000 >_<"@,
        )),
        sr == MODEL_SAMPLE_RATE && len == ASR_INPUT_LEN ==> r is Ok,
{
    if sr != MODEL_SAMPLE_RATE {
        return Err(ParseErr::with_msg(String::from_str("input length must fit to 16kHz QwQ")));
    }
    if len != ASR_INPUT_LEN {
        return Err(ParseErr::with_msg(String::from_str("input length must fit to 32000 >_<")));
    }
    Ok(())
}

/// How many samples of context the voice-activity model gets before each frame.
pub const CONTEXT_LEN: usize = 64;

/// Whether the model's recurrent state and context must be reset before a
/// chunk: when the batch size changed, or when a sample rate was seen before
/// and this one differs from it.
pub fn needs_reset(last_batch_size: usize, batch_size: usize, last_sr: u32, sr: u32) -> (r: bool)
    ensures
        r == (last_batch_size != batch_size || (last_sr != 0 && last_sr != sr)),
{
    last_batch_size != batch_size || (last_sr != 0 && last_sr != sr)
}

/// The model's input for one chunk: the context followed by the chunk.
pub fn model_input<T: Copy>(context: &[T], x: &[T]) -> (r: Vec<T>)
    requires
        context.len() + x.len() <= usize::MAX,
    ensures
        r@ == context@ + x@,
{
    let mut r: Vec<T> = Vec::with_capacity(context.len() + x.len());
    let mut i: usize = 0;
    while i < context.len()
        invariant
            i <= context.len(),
            r@ == context@.take(i as int),
        decreases context.len() - i,
    {
        r.push(context[i]);
        i = i + 1;
        assert(r@ =~= context@.take(i as int));
    }
    assert(context@.take(context.len() as int) =~= context@);
    let mut j: usize = 0;
    while j < x.len()
        invariant
            j <= x.len(),
            r@ == context@ + x@.take(j as int),
        decreases x.len() - j,
    {
        r.push(x[j]);
        j = j + 1;
        assert(r@ =~= context@ + x@.take(j as int));
    }
    assert(x@.take(x.len() as int) =~= x@);
    r
}

/// The context for the next chunk: the last `CONTEXT_LEN` samples of the
/// model's input.
pub fn next_context<T: Copy>(input: &[T]) -> (r: Vec<T>)
    requires
        input.len() >= CONTEXT_LEN,
    ensures
        r@ == input@.subrange(input.len() - CONTEXT_LEN, input.len() as int),
{
    let start: usize = input.len() - CONTEXT_LEN;
    let mut r: Vec<T> = Vec::with_capacity(CONTEXT_LEN);
    let mut i: usize = start;
    while i < input.len()
        invariant
            start == input.len() - CONTEXT_LEN,
            start <= i <= input.len(),
            r@ == input@.subrange(start as int, i as int),
        decreases input.len() - i,
    {
        r.push(input[i]);
        i = i + 1;
        assert(r@ =~= input@.subrange(start as int, i as int));
    }
    r
}

} // verus!
