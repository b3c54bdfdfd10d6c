//! The dictation endpoint: audio in, a stream of transcription events out.
//!
//! The response body is a concatenation of JSON objects, each carrying a
//! `type` discriminator that is either `PARTIAL_TRANSCRIPTION` or
//! `FINAL_TRANSCRIPTION`. Every complete frame must decode; a frame that is
//! no JSON document or bears no recognised discriminator ends the stream
//! with a decode error.

use vstd::prelude::*;

use crate::decode::{json_ok, json_str_field, text_is_json, text_string_field};
use crate::error::{ApiError, DecodeError};
use crate::json::{frames_of, remainder_of};
use crate::stream::StreamBuffer;
use crate::text::{dec_str, format_u64, str_eq};

verus! {

/// The encoding format of the audio data sent to the API.
#[derive(Debug, Clone, Copy, Default, PartialEq, Eq, Structural)]
pub enum Encoding {
    /// Waveform Audio File Format.
    #[default]
    Wav,
    /// MPEG Audio Layer III.
    Mp3,
    /// Ogg Vorbis audio format.
    Ogg,
    /// u-law encoding, primarily used in telephony.
    Ulaw,
    /// Raw audio data; needs bit depth, sample rate, endianness and a raw
    /// encoding name.
    Raw,
}

/// Whether a transcription is still in flight or complete.
#[derive(Debug, Clone, Copy, Default, PartialEq, Eq, Structural)]
pub enum SpeechType {
    /// An ongoing, still changing transcription.
    #[default]
    PartialTranscription,
    /// A completed transcription.
    FinalTranscription,
}

/// One token of a transcription, with its position in the source.
#[derive(Debug, Clone)]
pub struct Token {
    /// The start index of the token in the original audio or text.
    pub start: usize,
    /// The end index of the token in the original audio or text.
    pub end: usize,
    /// The textual content of the token.
    pub token: String,
}

/// The format parameters of a dictation request. The audio itself is handed
/// to the transport separately; this type carries what shapes the request's
/// `Content-Type`.
#[derive(Debug, Clone, Default)]
pub struct DictationQuery {
    /// Encoding format of the audio.
    pub encoding: Encoding,
    /// Raw encoding name, required for raw audio.
    pub raw_encoding: Option<String>,
    /// Bit depth of the audio samples, required for raw audio.
    pub bits: Option<u8>,
    /// Sample rate in Hertz, required for raw audio.
    pub sample_rate: Option<u16>,
    /// `true` for little-endian, `false` for big-endian; required for raw
    /// audio.
    pub endian: Option<bool>,
}

/// The `Content-Type` a dictation query sends: fixed per encoding, and for
/// raw audio assembled from the four raw parameters, all of which must be
/// set.
pub open spec fn dictation_content_type(q: DictationQuery) -> Option<Seq<char>> {
    match q.encoding {
        Encoding::Wav => Some("audio/wav"@),
        Encoding::Mp3 => Some("audio/mpeg3"@),
        Encoding::Ogg => Some("audio/ogg"@),
        Encoding::Ulaw => Some("audio/ulaw"@),
        Encoding::Raw => {
            if q.raw_encoding is Some && q.bits is Some && q.sample_rate is Some && q.endian
                is Some {
                Some(
                    "audio/raw;encoding="@ + q.raw_encoding->Some_0@ + ";bits="@ + dec_str(
                        q.bits->Some_0 as int,
                    ) + ";rate="@ + dec_str(q.sample_rate->Some_0 as int) + ";endian="@ + (
                    if q.endian->Some_0 {
                        "little"@
                    } else {
                        "big"@
                    }),
                )
            } else {
                None
            }
        },
    }
}

impl DictationQuery {
    /// A new query for the given encoding, with no raw parameters set.
    pub fn new(encoding: Encoding) -> (r: DictationQuery)
        ensures
            r.encoding == encoding,
            r.raw_encoding is None,
            r.bits is None,
            r.sample_rate is None,
            r.endian is None,
    {
        DictationQuery {
            encoding,
            raw_encoding: None,
            bits: None,
            sample_rate: None,
            endian: None,
        }
    }

    /// Sets the raw encoding name for raw audio data.
    pub fn with_raw_encoding(self, raw_encoding: String) -> (r: DictationQuery)
        ensures
            r == (DictationQuery { raw_encoding: Some(raw_encoding), ..self }),
    {
        DictationQuery { raw_encoding: Some(raw_encoding), ..self }
    }

    /// Sets the bit depth of the audio samples.
    pub fn with_bits(self, bits: u8) -> (r: DictationQuery)
        ensures
            r == (DictationQuery { bits: Some(bits), ..self }),
    {
        DictationQuery { bits: Some(bits), ..self }
    }

    /// Sets the sample rate in Hertz.
    pub fn with_sample_rate(self, sample_rate: u16) -> (r: DictationQuery)
        ensures
            r == (DictationQuery { sample_rate: Some(sample_rate), ..self }),
    {
        DictationQuery { sample_rate: Some(sample_rate), ..self }
    }

    /// Sets the endianness of the audio data: `true` for little-endian.
    pub fn with_endian(self, endian: bool) -> (r: DictationQuery)
        ensures
            r == (DictationQuery { endian: Some(endian), ..self }),
    {
        DictationQuery { endian: Some(endian), ..self }
    }

    /// The `Content-Type` for this query, or `None` when raw audio misses
    /// one of its four parameters.
    pub fn content_type(&self) -> (r: Option<String>)
        ensures
            match r {
                Some(s) => dictation_content_type(*self) == Some(s@),
                None => dictation_content_type(*self) is None,
            },
    {
        match self.encoding {
            Encoding::Wav => Some("audio/wav".to_owned()),
            Encoding::Mp3 => Some("audio/mpeg3".to_owned()),
            Encoding::Ogg => Some("audio/ogg".to_owned()),
            Encoding::Ulaw => Some("audio/ulaw".to_owned()),
            Encoding::Raw => {
                match (&self.raw_encoding, self.bits, self.sample_rate, self.endian) {
                    (Some(enc), Some(bits), Some(rate), Some(endian)) => {
                        let mut s = String::new();
                        s.append("audio/raw;encoding=");
                        s.append(enc.as_str());
                        s.append(";bits=");
                        s.append(format_u64(bits as u64).as_str());
                        s.append(";rate=");
                        s.append(format_u64(rate as u64).as_str());
                        s.append(";endian=");
                        if endian {
                            s.append("little");
                        } else {
                            s.append("big");
                        }
                        proof {
                            assert(s@ =~= dictation_content_type(*self)->Some_0);
                        }
                        Some(s)
                    },
                    _ => None,
                }
            },
        }
    }
}

/// One decoded dictation event: whether the transcription is partial or
/// final, and the frame's full JSON text, from which the surrounding layer
/// reads the transcription itself.
#[derive(Debug, Clone)]
pub struct DictationEvent {
    /// Partial or final.
    pub speech_type: SpeechType,
    /// The frame's complete JSON text.
    pub body: String,
}

/// What one frame decodes to: its speech type paired with its text, or the
/// offending text itself when the frame is no JSON document, lacks the
/// `type` field, or bears an unrecognised discriminator.
pub open spec fn dictation_frame_spec(f: Seq<char>) -> Result<(SpeechType, Seq<char>), Seq<char>> {
    if !json_ok(f) {
        Err(f)
    } else {
        match json_str_field(f, "type"@) {
            None => Err(f),
            Some(t) => {
                if t == "PARTIAL_TRANSCRIPTION"@ {
                    Ok((SpeechType::PartialTranscription, f))
                } else if t == "FINAL_TRANSCRIPTION"@ {
                    Ok((SpeechType::FinalTranscription, f))
                } else {
                    Err(f)
                }
            },
        }
    }
}

/// What a row of frames decodes to: the events of the frames before the
/// first failing one, in order, and that failing frame's text if any.
pub open spec fn dictation_events_spec(fs: Seq<Seq<char>>) -> (
    Seq<(SpeechType, Seq<char>)>,
    Option<Seq<char>>,
)
    decreases fs.len(),
{
    if fs.len() == 0 {
        (Seq::empty(), None)
    } else {
        match dictation_frame_spec(fs.first()) {
            Err(f) => (Seq::empty(), Some(f)),
            Ok(ev) => {
                let rest = dictation_events_spec(fs.drop_first());
                (seq![ev] + rest.0, rest.1)
            },
        }
    }
}

/// Decodes one complete frame.
pub fn classify_dictation_frame(frame: String) -> (r: Result<DictationEvent, DecodeError>)
    ensures
        match r {
            Ok(ev) => {
                &&& dictation_frame_spec(frame@) == Ok::<_, Seq<char>>((ev.speech_type, ev.body@))
                &&& ev.body == frame
            },
            Err(e) => {
                &&& dictation_frame_spec(frame@) is Err
                &&& e.frame == frame
            },
        },
{
    if !text_is_json(frame.as_str()) {
        return Err(DecodeError { frame });
    }
    match text_string_field(frame.as_str(), "type") {
        None => Err(DecodeError { frame }),
        Some(t) => {
            if str_eq(t.as_str(), "PARTIAL_TRANSCRIPTION") {
                Ok(DictationEvent { speech_type: SpeechType::PartialTranscription, body: frame })
            } else if str_eq(t.as_str(), "FINAL_TRANSCRIPTION") {
                Ok(DictationEvent { speech_type: SpeechType::FinalTranscription, body: frame })
            } else {
                Err(DecodeError { frame })
            }
        },
    }
}

/// The streaming consumption adapter for dictation: an accumulation buffer
/// fed one transport chunk at a time, drained of every complete frame as
/// soon as it arrives.
pub struct DictationSession {
    buf: StreamBuffer,
}

impl View for DictationSession {
    type V = Seq<char>;

    closed spec fn view(&self) -> Seq<char> {
        self.buf@
    }
}

impl DictationSession {
    /// A session with an empty buffer.
    pub fn new() -> (r: DictationSession)
        ensures
            r@ == Seq::<char>::empty(),
    {
        DictationSession { buf: StreamBuffer::new() }
    }

    /// The text currently buffered: what arrived but has not yet formed a
    /// complete frame.
    pub fn buffered(&self) -> (r: &str)
        ensures
            r@ == self@,
    {
        self.buf.remaining()
    }

    /// Appends one chunk (an empty one is skipped), drains every complete
    /// frame, and decodes each in order. Events already decoded stay
    /// delivered even when a later frame fails; the decode error, if any,
    /// comes after them and ends the stream. The trailing partial frame
    /// stays buffered for the next chunk.
    pub fn push_chunk(&mut self, chunk: &str) -> (r: (Vec<DictationEvent>, Option<DecodeError>))
        ensures
            ({
                let fs = frames_of(old(self)@ + chunk@);
                let spec = dictation_events_spec(fs);
                &&& r.0@.map_values(|e: DictationEvent| (e.speech_type, e.body@)) == spec.0
                &&& match r.1 {
                    Some(d) => spec.1 == Some(d.frame@),
                    None => spec.1 is None,
                }
                &&& final(self)@ == remainder_of(old(self)@ + chunk@)
            }),
    {
        self.buf.push_chunk(chunk);
        let frames = self.buf.drain();
        let ghost fsv = frames@.map_values(|f: String| f@);
        let mut events: Vec<DictationEvent> = Vec::new();
        let mut failure: Option<DecodeError> = None;
        let mut t: usize = 0;
        proof {
            assert(fsv.skip(0) =~= fsv);
            assert(events@.map_values(|e: DictationEvent| (e.speech_type, e.body@)) =~= Seq::<
                (SpeechType, Seq<char>),
            >::empty());
        }
        while t < frames.len() && failure.is_none()
            invariant
                t <= frames@.len(),
                fsv == frames@.map_values(|f: String| f@),
                failure is None ==> dictation_events_spec(fsv) == (
                    events@.map_values(|e: DictationEvent| (e.speech_type, e.body@))
                        + dictation_events_spec(fsv.skip(t as int)).0,
                    dictation_events_spec(fsv.skip(t as int)).1,
                ),
                failure matches Some(d) ==> dictation_events_spec(fsv) == (
                    events@.map_values(|e: DictationEvent| (e.speech_type, e.body@)),
                    Some(d.frame@),
                ),
            decreases frames@.len() - t,
        {
            let ghost suffix = fsv.skip(t as int);
            proof {
                assert(suffix.first() == fsv[t as int]);
                assert(suffix.drop_first() =~= fsv.skip(t + 1));
            }
            match classify_dictation_frame(frames[t].clone()) {
                Ok(ev) => {
                    let ghost old_events = events@;
                    events.push(ev);
                    proof {
                        let ev_view = |e: DictationEvent| (e.speech_type, e.body@);
                        assert(events@.map_values(ev_view) =~= old_events.map_values(ev_view)
                            + seq![(ev.speech_type, ev.body@)]);
                        assert(old_events.map_values(ev_view) + (seq![(ev.speech_type, ev.body@)]
                            + dictation_events_spec(fsv.skip(t + 1)).0) =~= events@.map_values(
                            ev_view,
                        ) + dictation_events_spec(fsv.skip(t + 1)).0);
                    }
                },
                Err(d) => {
                    failure = Some(d);
                },
            }
            t = t + 1;
        }
        proof {
            if failure is None {
                assert(t == frames@.len());
                assert(fsv.skip(t as int) =~= Seq::<Seq<char>>::empty());
                assert(events@.map_values(|e: DictationEvent| (e.speech_type, e.body@)) + Seq::<
                    (SpeechType, Seq<char>),
                >::empty() =~= events@.map_values(|e: DictationEvent| (e.speech_type, e.body@)));
            }
        }
        (events, failure)
    }
}

/// The blocking consumption adapter for dictation: decodes a fully read
/// response body into the complete list of events, all or nothing — any
/// decode failure surfaces as the error and no partial list comes back.
pub fn parse_dictation_body(body: &str) -> (r: Result<Vec<DictationEvent>, ApiError>)
    ensures
        ({
            let spec = dictation_events_spec(frames_of(body@));
            match r {
                Ok(evs) => {
                    &&& spec.1 is None
                    &&& evs@.map_values(|e: DictationEvent| (e.speech_type, e.body@)) == spec.0
                },
                Err(e) => {
                    &&& e matches ApiError::SerializationError(d) && spec.1 == Some(d.frame@)
                },
            }
        }),
{
    let mut session = DictationSession::new();
    proof {
        assert(Seq::<char>::empty() + body@ =~= body@);
    }
    let (events, failure) = session.push_chunk(body);
    match failure {
        None => Ok(events),
        Some(d) => Err(ApiError::SerializationError(d)),
    }
}

} // verus!
