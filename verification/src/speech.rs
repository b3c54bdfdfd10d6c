//! The speech endpoint: audio in, a stream of transcription and
//! understanding events out.
//!
//! Each frame of the response carries a string `type` field with one of four
//! recognised values; a frame bearing any other value, or none, is silently
//! skipped — a deliberate forward-compatibility stance. A frame that does
//! not parse as JSON at all ends the stream with a decode error.

use vstd::prelude::*;

use crate::constants::BASE_URL;
use crate::decode::{json_ok, json_str_field, text_is_json, text_string_field};
use crate::dictation::Encoding;
use crate::entities::{dynamic_entities_json, entities_json, DynamicEntity};
use crate::error::{ApiError, DecodeError};
use crate::json::{frames_of, remainder_of};
use crate::stream::StreamBuffer;
use crate::text::{dec_str, format_u64, str_eq};
use crate::urls::{percent_encode, percent_encoded, url_with_params};

verus! {

/// Which of the four recognised event shapes a frame announces in its
/// `type` field.
#[derive(Debug, Clone, Copy, PartialEq, Eq, Structural)]
pub enum SpeechEventKind {
    /// An interim transcription that may still change.
    PartialTranscription,
    /// A completed transcription.
    FinalTranscription,
    /// An interim understanding (intents and entities) that may refine.
    PartialUnderstanding,
    /// The final understanding for the audio segment.
    FinalUnderstanding,
}

/// One decoded speech event: its kind and the frame's full JSON text, from
/// which the surrounding layer reads the payload.
#[derive(Debug, Clone)]
pub struct SpeechEvent {
    /// Which event shape the frame announced.
    pub kind: SpeechEventKind,
    /// The frame's complete JSON text.
    pub body: String,
}

/// The event kind a discriminator value selects, if it is one of the four
/// recognised values.
pub open spec fn kind_of_tag(tag: Seq<char>) -> Option<SpeechEventKind> {
    if tag == "PARTIAL_TRANSCRIPTION"@ {
        Some(SpeechEventKind::PartialTranscription)
    } else if tag == "FINAL_TRANSCRIPTION"@ {
        Some(SpeechEventKind::FinalTranscription)
    } else if tag == "PARTIAL_UNDERSTANDING"@ {
        Some(SpeechEventKind::PartialUnderstanding)
    } else if tag == "FINAL_UNDERSTANDING"@ {
        Some(SpeechEventKind::FinalUnderstanding)
    } else {
        None
    }
}

/// What one frame decodes to: an event when its discriminator is
/// recognised, nothing when the discriminator is missing, non-string or
/// unknown, and the offending text when the frame is no JSON document.
pub open spec fn speech_frame_spec(f: Seq<char>) -> Result<
    Option<(SpeechEventKind, Seq<char>)>,
    Seq<char>,
> {
    if !json_ok(f) {
        Err(f)
    } else {
        match json_str_field(f, "type"@) {
            None => Ok(None),
            Some(t) => match kind_of_tag(t) {
                None => Ok(None),
                Some(k) => Ok(Some((k, f))),
            },
        }
    }
}

/// What a row of frames decodes to: the events of the frames before the
/// first failing one, in order and with unrecognised frames skipped, and
/// that failing frame's text if any.
pub open spec fn speech_events_spec(fs: Seq<Seq<char>>) -> (
    Seq<(SpeechEventKind, Seq<char>)>,
    Option<Seq<char>>,
)
    decreases fs.len(),
{
    if fs.len() == 0 {
        (Seq::empty(), None)
    } else {
        match speech_frame_spec(fs.first()) {
            Err(f) => (Seq::empty(), Some(f)),
            Ok(head) => {
                let rest = speech_events_spec(fs.drop_first());
                match head {
                    None => rest,
                    Some(ev) => (seq![ev] + rest.0, rest.1),
                }
            },
        }
    }
}

/// Decodes one complete frame: an event, nothing for an unrecognised
/// discriminator, or a decode error for text that is no JSON document.
pub fn classify_speech_frame(frame: String) -> (r: Result<Option<SpeechEvent>, DecodeError>)
    ensures
        match r {
            Ok(Some(ev)) => {
                &&& speech_frame_spec(frame@) == Ok::<_, Seq<char>>(Some((ev.kind, ev.body@)))
                &&& ev.body == frame
            },
            Ok(None) => speech_frame_spec(frame@) == Ok::<Option<(SpeechEventKind, Seq<char>)>, Seq<char>>(None),
            Err(e) => {
                &&& speech_frame_spec(frame@) is Err
                &&& e.frame == frame
            },
        },
{
    if !text_is_json(frame.as_str()) {
        return Err(DecodeError { frame });
    }
    match text_string_field(frame.as_str(), "type") {
        None => Ok(None),
        Some(t) => {
            if str_eq(t.as_str(), "PARTIAL_TRANSCRIPTION") {
                Ok(Some(SpeechEvent { kind: SpeechEventKind::PartialTranscription, body: frame }))
            } else if str_eq(t.as_str(), "FINAL_TRANSCRIPTION") {
                Ok(Some(SpeechEvent { kind: SpeechEventKind::FinalTranscription, body: frame }))
            } else if str_eq(t.as_str(), "PARTIAL_UNDERSTANDING") {
                Ok(Some(SpeechEvent { kind: SpeechEventKind::PartialUnderstanding, body: frame }))
            } else if str_eq(t.as_str(), "FINAL_UNDERSTANDING") {
                Ok(Some(SpeechEvent { kind: SpeechEventKind::FinalUnderstanding, body: frame }))
            } else {
                Ok(None)
            }
        },
    }
}

/// The streaming consumption adapter for speech: an accumulation buffer fed
/// one transport chunk at a time, drained of every complete frame as soon
/// as it arrives.
pub struct SpeechSession {
    buf: StreamBuffer,
}

impl View for SpeechSession {
    type V = Seq<char>;

    closed spec fn view(&self) -> Seq<char> {
        self.buf@
    }
}

impl SpeechSession {
    /// A session with an empty buffer.
    pub fn new() -> (r: SpeechSession)
        ensures
            r@ == Seq::<char>::empty(),
    {
        SpeechSession { buf: StreamBuffer::new() }
    }

    /// The text currently buffered: what arrived but has not yet formed a
    /// complete frame.
    pub fn buffered(&self) -> (r: &str)
        ensures
            r@ == self@,
    {
        self.buf.remaining()
    }

    /// Appends one chunk (an empty one is skipped), drains every complete
    /// frame, and decodes each in order, skipping frames with unrecognised
    /// discriminators. Events already decoded stay delivered even when a
    /// later frame fails; the decode error, if any, comes after them and
    /// ends the stream. The trailing partial frame stays buffered.
    pub fn push_chunk(&mut self, chunk: &str) -> (r: (Vec<SpeechEvent>, Option<DecodeError>))
        ensures
            ({
                let fs = frames_of(old(self)@ + chunk@);
                let spec = speech_events_spec(fs);
                &&& r.0@.map_values(|e: SpeechEvent| (e.kind, e.body@)) == spec.0
                &&& match r.1 {
                    Some(d) => spec.1 == Some(d.frame@),
                    None => spec.1 is None,
                }
                &&& final(self)@ == remainder_of(old(self)@ + chunk@)
            }),
    {
        self.buf.push_chunk(chunk);
        let frames = self.buf.drain();
        let ghost fsv = frames@.map_values(|f: String| f@);
        let mut events: Vec<SpeechEvent> = Vec::new();
        let mut failure: Option<DecodeError> = None;
        let mut t: usize = 0;
        proof {
            assert(fsv.skip(0) =~= fsv);
            assert(events@.map_values(|e: SpeechEvent| (e.kind, e.body@)) =~= Seq::<
                (SpeechEventKind, Seq<char>),
            >::empty());
        }
        while t < frames.len() && failure.is_none()
            invariant
                t <= frames@.len(),
                fsv == frames@.map_values(|f: String| f@),
                failure is None ==> speech_events_spec(fsv) == (
                    events@.map_values(|e: SpeechEvent| (e.kind, e.body@)) + speech_events_spec(
                        fsv.skip(t as int),
                    ).0,
                    speech_events_spec(fsv.skip(t as int)).1,
                ),
                failure matches Some(d) ==> speech_events_spec(fsv) == (
                    events@.map_values(|e: SpeechEvent| (e.kind, e.body@)),
                    Some(d.frame@),
                ),
            decreases frames@.len() - t,
        {
            let ghost suffix = fsv.skip(t as int);
            proof {
                assert(suffix.first() == fsv[t as int]);
                assert(suffix.drop_first() =~= fsv.skip(t + 1));
            }
            match classify_speech_frame(frames[t].clone()) {
                Ok(Some(ev)) => {
                    let ghost old_events = events@;
                    events.push(ev);
                    proof {
                        let ev_view = |e: SpeechEvent| (e.kind, e.body@);
                        assert(events@.map_values(ev_view) =~= old_events.map_values(ev_view)
                            + seq![(ev.kind, ev.body@)]);
                        assert(old_events.map_values(ev_view) + (seq![(ev.kind, ev.body@)]
                            + speech_events_spec(fsv.skip(t + 1)).0) =~= events@.map_values(
                            ev_view,
                        ) + speech_events_spec(fsv.skip(t + 1)).0);
                    }
                },
                Ok(None) => {
                },
                Err(d) => {
                    failure = Some(d);
                },
            }
            t = t + 1;
        }
        proof {
            if failure is None {
                assert(t == frames@.len());
                assert(fsv.skip(t as int) =~= Seq::<Seq<char>>::empty());
                assert(events@.map_values(|e: SpeechEvent| (e.kind, e.body@)) + Seq::<
                    (SpeechEventKind, Seq<char>),
                >::empty() =~= events@.map_values(|e: SpeechEvent| (e.kind, e.body@)));
            }
        }
        (events, failure)
    }
}

/// The blocking consumption adapter for speech: decodes a fully read
/// response body into the complete list of events, all or nothing — any
/// decode failure surfaces as the error and no partial list comes back.
pub fn parse_speech_body(body: &str) -> (r: Result<Vec<SpeechEvent>, ApiError>)
    ensures
        ({
            let spec = speech_events_spec(frames_of(body@));
            match r {
                Ok(evs) => {
                    &&& spec.1 is None
                    &&& evs@.map_values(|e: SpeechEvent| (e.kind, e.body@)) == spec.0
                },
                Err(e) => {
                    &&& e matches ApiError::SerializationError(d) && spec.1 == Some(d.frame@)
                },
            }
        }),
{
    let mut session = SpeechSession::new();
    proof {
        assert(Seq::<char>::empty() + body@ =~= body@);
    }
    let (events, failure) = session.push_chunk(body);
    match failure {
        None => Ok(events),
        Some(d) => Err(ApiError::SerializationError(d)),
    }
}

/// The request parameters of a speech query. The audio itself is handed to
/// the transport separately; this type carries what shapes the request's
/// `Content-Type` and URL. The context, when given, is the context's JSON
/// rendering, passed through as-is.
#[derive(Debug, Clone, Default)]
pub struct SpeechQuery {
    /// Encoding format of the audio.
    pub encoding: Encoding,
    /// Raw encoding name, put on the content type when set.
    pub raw_encoding: Option<String>,
    /// Bit depth of the audio samples, put on the content type when set.
    pub bits: Option<u8>,
    /// Sample rate in Hertz, put on the content type when set.
    pub sample_rate: Option<u16>,
    /// `true` for little-endian, `false` for big-endian; put on the content
    /// type when set.
    pub endian: Option<bool>,
    /// Optional tag to be associated with the request.
    pub tag: Option<String>,
    /// Optional limit on the number of intents to return.
    pub n: Option<u8>,
    /// The dynamic entity array to be used in the request.
    pub dynamic_entities: Option<Vec<DynamicEntity>>,
    /// The context for the query, already rendered as JSON.
    pub context_json: Option<String>,
}

/// The `Content-Type` a speech query sends: fixed per encoding; for raw
/// audio, each raw parameter that is set appends its own segment.
pub open spec fn speech_content_type(q: SpeechQuery) -> Seq<char> {
    match q.encoding {
        Encoding::Wav => "audio/wav"@,
        Encoding::Mp3 => "audio/mpeg3"@,
        Encoding::Ogg => "audio/ogg"@,
        Encoding::Ulaw => "audio/ulaw"@,
        Encoding::Raw => {
            let s = "audio/raw"@;
            let s = if q.raw_encoding is Some {
                s + ";encoding="@ + q.raw_encoding->Some_0@
            } else {
                s
            };
            let s = if q.bits is Some {
                s + ";bits="@ + dec_str(q.bits->Some_0 as int)
            } else {
                s
            };
            let s = if q.sample_rate is Some {
                s + ";rate="@ + dec_str(q.sample_rate->Some_0 as int)
            } else {
                s
            };
            if q.endian is Some {
                s + ";endian="@ + (if q.endian->Some_0 {
                    "little"@
                } else {
                    "big"@
                })
            } else {
                s
            }
        },
    }
}

/// The parameter list of a speech query: `tag`, `n`, `context` and
/// `entities` exactly when they are set, in that order. The context and the
/// entities' JSON are percent-encoded.
pub open spec fn speech_params(q: SpeechQuery) -> Seq<(Seq<char>, Seq<char>)> {
    let ps = Seq::<(Seq<char>, Seq<char>)>::empty();
    let ps = if q.tag is Some {
        ps.push(("tag"@, q.tag->Some_0@))
    } else {
        ps
    };
    let ps = if q.n is Some {
        ps.push(("n"@, dec_str(q.n->Some_0 as int)))
    } else {
        ps
    };
    let ps = if q.context_json is Some {
        ps.push(("context"@, percent_encoded(q.context_json->Some_0@)))
    } else {
        ps
    };
    if q.dynamic_entities is Some && q.dynamic_entities->Some_0.len() > 0 {
        ps.push(("entities"@, percent_encoded(entities_json(q.dynamic_entities->Some_0@))))
    } else {
        ps
    }
}

impl SpeechQuery {
    /// A new query for the given encoding, with nothing else set.
    pub fn new(encoding: Encoding) -> (r: SpeechQuery)
        ensures
            r.encoding == encoding,
            r.raw_encoding is None,
            r.bits is None,
            r.sample_rate is None,
            r.endian is None,
            r.tag is None,
            r.n is None,
            r.dynamic_entities is None,
            r.context_json is None,
    {
        SpeechQuery {
            encoding,
            raw_encoding: None,
            bits: None,
            sample_rate: None,
            endian: None,
            tag: None,
            n: None,
            dynamic_entities: None,
            context_json: None,
        }
    }

    /// Sets the raw encoding name for raw audio data.
    pub fn with_raw_encoding(self, raw_encoding: String) -> (r: SpeechQuery)
        ensures
            r == (SpeechQuery { raw_encoding: Some(raw_encoding), ..self }),
    {
        SpeechQuery { raw_encoding: Some(raw_encoding), ..self }
    }

    /// Sets the bit depth of the audio samples.
    pub fn with_bits(self, bits: u8) -> (r: SpeechQuery)
        ensures
            r == (SpeechQuery { bits: Some(bits), ..self }),
    {
        SpeechQuery { bits: Some(bits), ..self }
    }

    /// Sets the sample rate in Hertz.
    pub fn with_sample_rate(self, sample_rate: u16) -> (r: SpeechQuery)
        ensures
            r == (SpeechQuery { sample_rate: Some(sample_rate), ..self }),
    {
        SpeechQuery { sample_rate: Some(sample_rate), ..self }
    }

    /// Sets the endianness of the audio data: `true` for little-endian.
    pub fn with_endian(self, endian: bool) -> (r: SpeechQuery)
        ensures
            r == (SpeechQuery { endian: Some(endian), ..self }),
    {
        SpeechQuery { endian: Some(endian), ..self }
    }

    /// Sets the tag to be associated with the request.
    pub fn with_tag(self, tag: String) -> (r: SpeechQuery)
        ensures
            r == (SpeechQuery { tag: Some(tag), ..self }),
    {
        SpeechQuery { tag: Some(tag), ..self }
    }

    /// Sets the limit on the number of intents to return.
    pub fn with_n(self, n: u8) -> (r: SpeechQuery)
        ensures
            r == (SpeechQuery { n: Some(n), ..self }),
    {
        SpeechQuery { n: Some(n), ..self }
    }

    /// Sets the dynamic entities to be used in the request.
    pub fn with_dynamic_entities(self, dynamic_entities: Vec<DynamicEntity>) -> (r: SpeechQuery)
        ensures
            r == (SpeechQuery { dynamic_entities: Some(dynamic_entities), ..self }),
    {
        SpeechQuery { dynamic_entities: Some(dynamic_entities), ..self }
    }

    /// Sets the context for the query, as its JSON rendering.
    pub fn with_context(self, context_json: String) -> (r: SpeechQuery)
        ensures
            r == (SpeechQuery { context_json: Some(context_json), ..self }),
    {
        SpeechQuery { context_json: Some(context_json), ..self }
    }

    /// The `Content-Type` this query sends.
    pub fn content_type(&self) -> (r: String)
        ensures
            r@ == speech_content_type(*self),
    {
        match self.encoding {
            Encoding::Wav => "audio/wav".to_owned(),
            Encoding::Mp3 => "audio/mpeg3".to_owned(),
            Encoding::Ogg => "audio/ogg".to_owned(),
            Encoding::Ulaw => "audio/ulaw".to_owned(),
            Encoding::Raw => {
                let mut s = String::new();
                s.append("audio/raw");
                if let Some(enc) = &self.raw_encoding {
                    s.append(";encoding=");
                    s.append(enc.as_str());
                }
                if let Some(bits) = self.bits {
                    s.append(";bits=");
                    s.append(format_u64(bits as u64).as_str());
                }
                if let Some(rate) = self.sample_rate {
                    s.append(";rate=");
                    s.append(format_u64(rate as u64).as_str());
                }
                if let Some(endian) = self.endian {
                    s.append(";endian=");
                    if endian {
                        s.append("little");
                    } else {
                        s.append("big");
                    }
                }
                proof {
                    assert(s@ =~= speech_content_type(*self));
                }
                s
            },
        }
    }

    /// The query parameters this query puts on the URL.
    pub fn to_params(&self) -> (r: Vec<(String, String)>)
        ensures
            r@.map_values(|p: (String, String)| (p.0@, p.1@)) == speech_params(*self),
    {
        let ghost pair_view = |p: (String, String)| (p.0@, p.1@);
        let mut ps: Vec<(String, String)> = Vec::new();
        proof {
            assert(ps@.map_values(pair_view) =~= Seq::<(Seq<char>, Seq<char>)>::empty());
        }
        if let Some(tag) = &self.tag {
            let ghost prev = ps@;
            ps.push(("tag".to_owned(), tag.clone()));
            proof {
                assert(ps@.map_values(pair_view) =~= prev.map_values(pair_view).push(
                    ("tag"@, tag@),
                ));
            }
        }
        if let Some(n) = self.n {
            let ghost prev = ps@;
            ps.push(("n".to_owned(), format_u64(n as u64)));
            proof {
                assert(ps@.map_values(pair_view) =~= prev.map_values(pair_view).push(
                    ("n"@, dec_str(n as int)),
                ));
            }
        }
        if let Some(ctx) = &self.context_json {
            let ghost prev = ps@;
            ps.push(("context".to_owned(), percent_encode(ctx.as_str())));
            proof {
                assert(ps@.map_values(pair_view) =~= prev.map_values(pair_view).push(
                    ("context"@, percent_encoded(ctx@)),
                ));
            }
        }
        if let Some(des) = &self.dynamic_entities {
            if des.len() > 0 {
                let ghost prev = ps@;
                let json = dynamic_entities_json(des);
                ps.push(("entities".to_owned(), percent_encode(json.as_str())));
                proof {
                    assert(ps@.map_values(pair_view) =~= prev.map_values(pair_view).push(
                        ("entities"@, percent_encoded(entities_json(des@))),
                    ));
                }
            }
        }
        ps
    }

    /// The full URL for the speech endpoint, with this query's parameters
    /// percent-encoded into the query string; `to_params` states exactly
    /// which parameters go on it.
    pub fn to_url(&self) -> (r: Result<url::Url, ApiError>)
        ensures
            r is Err ==> r->Err_0 is UrlError,
    {
        let params = self.to_params();
        let base = BASE_URL.to_owned().concat("speech");
        match url_with_params(base.as_str(), &params) {
            Ok(u) => Ok(u),
            Err(e) => Err(ApiError::UrlError(e)),
        }
    }
}

} // verus!
