use crate::base64_2_vecu8::{
    base64_2_vecu8, base64_failure_message, base64_standard_decode, is_parse_err, standard_encode,
};
use crate::convert_pcm::{pcm16_samples, pcm16_samples_spec};
use crate::vad_error::ParseErr;
use vstd::prelude::*;

verus! {

/// A field of an incoming JSON message, as far as the messages are read:
/// either a JSON string, or any other JSON value.
#[derive(Debug, Clone)]
pub enum JsonValue {
    Text(String),
    NonText,
}

/// An audio message as it arrives over the network, one JSON value per field.
#[derive(Debug, Clone)]
pub struct NetworkData {
    pub status: JsonValue,
    pub device_id: JsonValue,
    pub user_id: JsonValue,
    pub id: JsonValue,
    pub image: JsonValue,
    pub audio: JsonValue,
    pub start_time: JsonValue,
    pub end_time: JsonValue,
    pub sample_rate: JsonValue,
    pub bit_depth: JsonValue,
    pub format: JsonValue,
}

/// One piece of audio from a device, with the message it came with.
#[derive(Debug, Clone)]
pub struct VoiceData<T> {
    pub status: String,
    pub device_id: String,
    pub user_id: String,
    pub id: String,
    pub img: String,
    pub audio: Option<Vec<T>>,
    pub time_stamp: String,
}

/// One utterance cut out of a stream, with its start and end times.
#[derive(Debug, Clone)]
pub struct SlicedVoiceData<T> {
    pub status: String,
    pub device_id: String,
    pub user_id: String,
    pub id: String,
    pub img: String,
    pub audio: Option<Vec<T>>,
    pub start_time: String,
    pub end_time: String,
}

/// The transcript of one utterance.
#[derive(Debug, Clone)]
pub struct TextData {
    pub status: String,
    pub device_id: String,
    pub user_id: String,
    pub id: String,
    pub img: String,
    pub text: String,
    pub start_time: String,
    pub end_time: String,
}

/// The message of the first field before the audio that is not a JSON
/// string (status, device id, user id, id, image, in that order), if any.
pub open spec fn leading_failure(n: NetworkData) -> Option<Seq<char>> {
    if n.status is NonText {
        Some("cannot parse status TAT"@)
    } else if n.device_id is NonText {
        Some("cannot parse device_id TAT"@)
    } else if n.user_id is NonText {
        Some("cannot parse user_id TAT"@)
    } else if n.id is NonText {
        Some("cannot parse id TAT"@)
    } else if n.image is NonText {
        Some("cannot parse image TAT"@)
    } else {
        None
    }
}

/// `v` carries the strings of `n`: status, ids, image and, as its time
/// stamp, the end time.
pub open spec fn carries_fields_of<T>(v: VoiceData<T>, n: NetworkData) -> bool {
    &&& n.status matches JsonValue::Text(s) && v.status == s
    &&& n.device_id matches JsonValue::Text(s) && v.device_id == s
    &&& n.user_id matches JsonValue::Text(s) && v.user_id == s
    &&& n.id matches JsonValue::Text(s) && v.id == s
    &&& n.image matches JsonValue::Text(s) && v.img == s
    &&& n.end_time matches JsonValue::Text(s) && v.time_stamp == s
}

/// The string of a field, or a parse error with `msg`.
fn text_field(v: &JsonValue, msg: &str) -> (r: Result<String, ParseErr>)
    ensures
        *v matches JsonValue::Text(s) ==> r == Ok::<String, ParseErr>(s),
        *v is NonText ==> (r matches Err(e) && is_parse_err(e, msg@)),
{
    match v {
        JsonValue::Text(s) => Ok(s.clone()),
        JsonValue::NonText => Err(ParseErr::with_msg(String::from_str(msg))),
    }
}

impl NetworkData {
    /// The message's strings as voice data without audio. Fails with a parse
    /// error naming the first of status, device id, user id, id, image and
    /// end time that is not a JSON string.
    pub fn init_to_voice_data<T>(&self) -> (r: Result<VoiceData<T>, ParseErr>)
        ensures
            leading_failure(*self) matches Some(t) ==> (r matches Err(e) && is_parse_err(e, t)),
            leading_failure(*self) is None && self.end_time is NonText ==> (r matches Err(e)
                && is_parse_err(e, "cannot parse time stamp TAT"@)),
            leading_failure(*self) is None && self.end_time is Text ==> (r matches Ok(v)
                && carries_fields_of(v, *self) && v.audio is None),
    {
        let status = text_field(&self.status, "cannot parse status TAT")?;
        let device_id = text_field(&self.device_id, "cannot parse device_id TAT")?;
        let user_id = text_field(&self.user_id, "cannot parse user_id TAT")?;
        let id = text_field(&self.id, "cannot parse id TAT")?;
        let img = text_field(&self.image, "cannot parse image TAT")?;
        let time_stamp = text_field(&self.end_time, "cannot parse time stamp TAT")?;
        Ok(VoiceData { status, device_id, user_id, id, img, audio: None, time_stamp })
    }

    /// The message as voice data whose audio is the base64 field decoded to
    /// little-endian 16-bit samples: the standard base64 encoding of an even
    /// number of bytes gives the samples those bytes hold. Fails with the
    /// parse error of the first problem: a non-string field before the audio, a non-string audio
    /// field, audio that is not base64 or decodes to an odd number of bytes,
    /// or a non-string end time.
    pub fn into_voice_data(self) -> (r: Result<VoiceData<i16>, ParseErr>)
        ensures
            forall|b: Seq<u8>|
                #[trigger] standard_encode(b) == self.audio->0@ && self.audio is Text && leading_failure(
                    self,
                ) is None && self.end_time is Text && b.len() % 2 == 0 ==> (r matches Ok(v)
                    && carries_fields_of(v, self) && (v.audio matches Some(a) && a@
                    == pcm16_samples_spec(b))),
            leading_failure(self) matches Some(t) ==> (r matches Err(e) && is_parse_err(e, t)),
            leading_failure(self) is None ==> match self.audio {
                JsonValue::NonText => r matches Err(e) && is_parse_err(e, "parse audio failed TAT"@),
                JsonValue::Text(s) => match base64_standard_decode(s@) {
                    Err(f) => r matches Err(e) && is_parse_err(e, base64_failure_message(f)),
                    Ok(d) => if d.len() % 2 != 0 {
                        r matches Err(e) && is_parse_err(e, "decoded data can't mod by 2 TAT"@)
                    } else if self.end_time is NonText {
                        r matches Err(e) && is_parse_err(e, "cannot parse time stamp TAT"@)
                    } else {
                        r matches Ok(v) && carries_fields_of(v, self) && (v.audio matches Some(a)
                            && a@ == pcm16_samples_spec(d))
                    },
                },
            },
    {
        let status = text_field(&self.status, "cannot parse status TAT")?;
        let device_id = text_field(&self.device_id, "cannot parse device_id TAT")?;
        let user_id = text_field(&self.user_id, "cannot parse user_id TAT")?;
        let id = text_field(&self.id, "cannot parse id TAT")?;
        let img = text_field(&self.image, "cannot parse image TAT")?;
        let encoded = text_field(&self.audio, "parse audio failed TAT")?;
        let bytes = base64_2_vecu8(encoded)?;
        let samples = pcm16_samples(bytes.as_slice());
        assert(samples@ =~= pcm16_samples_spec(bytes@));
        let time_stamp = text_field(&self.end_time, "cannot parse time stamp TAT")?;
        Ok(VoiceData { status, device_id, user_id, id, img, audio: Some(samples), time_stamp })
    }
}

impl<T> VoiceData<T> {
    /// An empty utterance record for the same device and message: the same
    /// status and ids, no image, no audio, no times.
    pub fn init_to_sliced_voice_data_with_ref(&self) -> (r: SlicedVoiceData<T>)
        ensures
            r.status == self.status,
            r.device_id == self.device_id,
            r.user_id == self.user_id,
            r.id == self.id,
            r.img@ == Seq::<char>::empty(),
            r.audio is None,
            r.start_time@ == Seq::<char>::empty(),
            r.end_time@ == Seq::<char>::empty(),
    {
        SlicedVoiceData {
            status: self.status.clone(),
            device_id: self.device_id.clone(),
            user_id: self.user_id.clone(),
            id: self.id.clone(),
            img: String::new(),
            audio: None,
            start_time: String::new(),
            end_time: String::new(),
        }
    }
}

impl<T> SlicedVoiceData<T> {
    /// A transcript record for the utterance: every string carried over, the
    /// text still empty.
    pub fn init_to_text_data(self) -> (r: TextData)
        ensures
            r.status == self.status,
            r.device_id == self.device_id,
            r.user_id == self.user_id,
            r.id == self.id,
            r.img == self.img,
            r.text@ == Seq::<char>::empty(),
            r.start_time == self.start_time,
            r.end_time == self.end_time,
    {
        TextData {
            status: self.status,
            device_id: self.device_id,
            user_id: self.user_id,
            id: self.id,
            img: self.img,
            text: String::new(),
            start_time: self.start_time,
            end_time: self.end_time,
        }
    }
}

} // verus!
