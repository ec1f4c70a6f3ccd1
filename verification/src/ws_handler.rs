use crate::data_model::VoiceData;
use vstd::prelude::*;

verus! {

/// The number of samples in one frame handed to the voice-activity model.
pub const INPUT_LEN: usize = 512;

/// The samples a piece of voice data carries (none when it has no audio).
pub open spec fn audio_of<T>(v: VoiceData<T>) -> Seq<T> {
    match v.audio {
        Some(a) => a@,
        None => Seq::empty(),
    }
}

/// The samples of `frames`, one frame after the other.
pub open spec fn joined_audio<T>(frames: Seq<VoiceData<T>>) -> Seq<T>
    decreases frames.len(),
{
    if frames.len() == 0 {
        Seq::empty()
    } else {
        joined_audio(frames.drop_last()) + audio_of(frames.last())
    }
}

/// `f` is a full frame cut from a message `data`: the same strings, exactly
/// `INPUT_LEN` samples.
pub open spec fn is_frame_of<T>(f: VoiceData<T>, data: VoiceData<T>) -> bool {
    &&& f.status == data.status
    &&& f.device_id == data.device_id
    &&& f.user_id == data.user_id
    &&& f.id == data.id
    &&& f.img == data.img
    &&& f.time_stamp == data.time_stamp
    &&& f.audio matches Some(a) && a.len() == INPUT_LEN
}

/// Full frames hold `INPUT_LEN` samples each.
proof fn lemma_joined_len<T>(frames: Seq<VoiceData<T>>, data: VoiceData<T>)
    requires
        forall|k: int| 0 <= k < frames.len() ==> is_frame_of(#[trigger] frames[k], data),
    ensures
        joined_audio(frames).len() == INPUT_LEN * frames.len(),
        forall|k: int|
            0 <= k < frames.len() ==> joined_audio(frames).subrange(
                INPUT_LEN * k,
                INPUT_LEN * k + INPUT_LEN,
            ) == audio_of(#[trigger] frames[k]),
    decreases frames.len(),
{
    if frames.len() > 0 {
        let prev = frames.drop_last();
        assert forall|k: int| 0 <= k < prev.len() implies is_frame_of(#[trigger] prev[k], data) by {
            assert(prev[k] == frames[k]);
        }
        lemma_joined_len(prev, data);
        let last = frames[frames.len() - 1];
        assert(is_frame_of(last, data));
        let j = joined_audio(frames);
        assert(j == joined_audio(prev) + audio_of(last));
        assert forall|k: int| 0 <= k < frames.len() implies j.subrange(
            INPUT_LEN * k,
            INPUT_LEN * k + INPUT_LEN,
        ) == audio_of(#[trigger] frames[k]) by {
            if k < prev.len() {
                assert(prev[k] == frames[k]);
                assert(j.subrange(INPUT_LEN * k, INPUT_LEN * k + INPUT_LEN) =~= joined_audio(
                    prev,
                ).subrange(INPUT_LEN * k, INPUT_LEN * k + INPUT_LEN));
            } else {
                assert(j.subrange(INPUT_LEN * k, INPUT_LEN * k + INPUT_LEN) =~= audio_of(last));
            }
        }
    }
}

/// Cuts a stream of audio messages of any length into frames of exactly
/// `INPUT_LEN` samples, keeping the samples that do not fill a frame yet.
pub struct Buf<T> {
    buf: Vec<T>,
}

impl<T> View for Buf<T> {
    type V = Seq<T>;

    /// The samples waiting for a frame to fill.
    closed spec fn view(&self) -> Seq<T> {
        self.buf@
    }
}

impl<T: Copy> Buf<T> {
    /// Fewer than `INPUT_LEN` samples wait.
    pub open spec fn wf(&self) -> bool {
        self@.len() < INPUT_LEN
    }

    /// A buffer with no samples waiting.
    pub fn new() -> (r: Self)
        ensures
            r@ == Seq::<T>::empty(),
            r.wf(),
    {
        Buf { buf: Vec::new() }
    }

    /// Adds the audio of `data` after the waiting samples and returns every
    /// frame that fills, in order, each with the strings of `data`. Nothing
    /// is lost or repeated: the frames' samples followed by the samples still
    /// waiting are the samples that waited before followed by the new audio.
    /// A message without audio, or with empty audio, changes nothing.
    pub fn push_vec(&mut self, data: VoiceData<T>) -> (frames: Vec<VoiceData<T>>)
        requires
            old(self).wf(),
        ensures
            final(self).wf(),
            forall|k: int| 0 <= k < frames.len() ==> is_frame_of(#[trigger] frames[k], data),
            joined_audio(frames@) + final(self)@ == old(self)@ + audio_of(data),
            frames.len() == (old(self)@.len() + audio_of(data).len()) / (INPUT_LEN as nat),
            forall|k: int|
                0 <= k < frames.len() ==> audio_of(#[trigger] frames[k]) == (old(self)@ + audio_of(
                    data,
                )).subrange(INPUT_LEN * k, INPUT_LEN * k + INPUT_LEN),
            final(self)@ == (old(self)@ + audio_of(data)).subrange(
                INPUT_LEN * frames.len(),
                (old(self)@.len() + audio_of(data).len()) as int,
            ),
            audio_of(data).len() == 0 ==> frames.len() == 0 && final(self)@ == old(self)@,
    {
        let mut frames: Vec<VoiceData<T>> = Vec::new();
        let audio = match &data.audio {
            None => {
                assert(joined_audio(frames@) =~= Seq::<T>::empty());
                assert(old(self)@ + audio_of(data) =~= old(self)@);
                return frames;
            },
            Some(a) => a,
        };
        let n: usize = audio.len();
        let mut i: usize = 0;
        assert(joined_audio(frames@) =~= Seq::<T>::empty());
        while i < n
            invariant
                n == audio.len(),
                audio@ == audio_of(data),
                i <= n,
                self.buf@.len() < INPUT_LEN,
                forall|k: int| 0 <= k < frames.len() ==> is_frame_of(#[trigger] frames[k], data),
                joined_audio(frames@) + self.buf@ == old(self)@ + audio@.take(i as int),
                n == 0 ==> frames.len() == 0 && self.buf@ == old(self)@,
            decreases n - i,
        {
            let ghost before = joined_audio(frames@) + self.buf@;
            self.buf.push(audio[i]);
            assert(audio@.take(i + 1) =~= audio@.take(i as int).push(audio@[i as int]));
            assert(joined_audio(frames@) + self.buf@ =~= before.push(audio@[i as int]));
            if self.buf.len() == INPUT_LEN {
                let ghost full = self.buf@;
                let mut frame: Vec<T> = Vec::new();
                std::mem::swap(&mut frame, &mut self.buf);
                let f = VoiceData {
                    status: data.status.clone(),
                    device_id: data.device_id.clone(),
                    user_id: data.user_id.clone(),
                    id: data.id.clone(),
                    img: data.img.clone(),
                    audio: Some(frame),
                    time_stamp: data.time_stamp.clone(),
                };
                let ghost old_frames = frames@;
                frames.push(f);
                assert(frames@.drop_last() =~= old_frames);
                assert(audio_of(frames@.last()) == full);
                assert(joined_audio(frames@) == joined_audio(old_frames) + full);
                assert(joined_audio(frames@) + self.buf@ =~= old(self)@ + audio@.take(i + 1));
            } else {
                assert(joined_audio(frames@) + self.buf@ =~= old(self)@ + audio@.take(i + 1));
            }
            i = i + 1;
        }
        assert(audio@.take(n as int) =~= audio@);
        proof {
            lemma_joined_len(frames@, data);
            let stream = old(self)@ + audio_of(data);
            let j = joined_audio(frames@);
            assert(stream == j + self.buf@);
            assert forall|k: int| 0 <= k < frames.len() implies audio_of(#[trigger] frames@[k])
                == stream.subrange(INPUT_LEN * k, INPUT_LEN * k + INPUT_LEN) by {
                assert(stream.subrange(INPUT_LEN * k, INPUT_LEN * k + INPUT_LEN) =~= j.subrange(
                    INPUT_LEN * k,
                    INPUT_LEN * k + INPUT_LEN,
                ));
            }
            assert(self.buf@ =~= stream.subrange(INPUT_LEN * frames.len(), stream.len() as int));
            let total: nat = old(self)@.len() + audio_of(data).len();
            assert(total == 512 * frames.len() + self.buf@.len());
            assert(total / 512 == frames.len()) by (nonlinear_arith)
                requires
                    total == 512 * frames.len() + self.buf@.len(),
                    self.buf@.len() < 512,
            ;
        }
        frames
    }
}

} // verus!
