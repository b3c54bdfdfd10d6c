//! Text-to-speech synthesis: the request parameters, their validity rules,
//! the JSON body they are sent as, and the audio codecs to choose from.

use vstd::prelude::*;

use crate::constants::BASE_URL;
use crate::entities::quoted;
use crate::error::ApiError;
use crate::text::{dec_str, dec_str_signed, format_i64, format_u64, json_escape};

verus! {

/// Audio codec options for synthesized speech; each names the MIME type
/// sent in the request's `Accept` header.
#[derive(Debug, Clone, Copy, PartialEq, Eq, Structural)]
pub enum SynthesizeCodec {
    /// Raw PCM audio (16-bit, mono, 16kHz).
    Pcm,
    /// MP3 compressed audio.
    Mp3,
    /// WAV container with PCM audio.
    Wav,
}

/// The MIME type of a codec.
pub open spec fn codec_mime(c: SynthesizeCodec) -> Seq<char> {
    match c {
        SynthesizeCodec::Pcm => "audio/pcm16"@,
        SynthesizeCodec::Mp3 => "audio/mpeg"@,
        SynthesizeCodec::Wav => "audio/wav"@,
    }
}

impl SynthesizeCodec {
    /// The MIME type for the `Accept` header.
    pub fn mime_type(&self) -> (r: String)
        ensures
            r@ == codec_mime(*self),
    {
        match self {
            SynthesizeCodec::Pcm => "audio/pcm16".to_owned(),
            SynthesizeCodec::Mp3 => "audio/mpeg".to_owned(),
            SynthesizeCodec::Wav => "audio/wav".to_owned(),
        }
    }
}

/// Parameters for one synthesis request: the text, the voice, and optional
/// style, speed and pitch modifiers.
#[derive(Debug, Clone)]
pub struct SynthesizeQuery {
    /// The text to be synthesized into speech.
    pub q: String,
    /// The voice identifier to use for synthesis.
    pub voice: String,
    /// Optional style modifier; available styles depend on the voice.
    pub style: Option<String>,
    /// Optional speed modifier; the API accepts 10 to 400, 100 is normal.
    pub speed: Option<u16>,
    /// Optional pitch modifier; the API accepts 25 to 400, 100 is normal.
    pub pitch: Option<i16>,
}

/// What makes a synthesis query acceptable: nonempty text and voice, and
/// speed and pitch, where set, within the ranges the API accepts.
pub open spec fn valid_query(q: SynthesizeQuery) -> bool {
    &&& q.q@.len() > 0
    &&& q.voice@.len() > 0
    &&& (q.speed is Some ==> 10 <= q.speed->Some_0 <= 400)
    &&& (q.pitch is Some ==> 25 <= q.pitch->Some_0 <= 400)
}

/// Whether a query meets the validity rules: nonempty text and voice, and
/// speed and pitch in range where set.
pub fn is_valid_query(query: &SynthesizeQuery) -> (r: bool)
    ensures
        r == valid_query(*query),
{
    if query.q.as_str().is_empty() || query.voice.as_str().is_empty() {
        return false;
    }
    if let Some(speed) = query.speed {
        if speed < 10 || speed > 400 {
            return false;
        }
    }
    if let Some(pitch) = query.pitch {
        if pitch < 25 || pitch > 400 {
            return false;
        }
    }
    true
}

/// The number of characters spoken in a text, skipping SSML tags: what
/// stands between `<` and `>` is markup, not speech.
pub open spec fn spoken_len(s: Seq<char>, in_tag: bool) -> int
    decreases s.len(),
{
    if s.len() == 0 {
        0
    } else if s.first() == '<' {
        spoken_len(s.drop_first(), true)
    } else if s.first() == '>' {
        spoken_len(s.drop_first(), false)
    } else if in_tag {
        spoken_len(s.drop_first(), true)
    } else {
        1 + spoken_len(s.drop_first(), false)
    }
}

impl SynthesizeQuery {
    /// A new synthesis query with the given text and voice, both nonempty,
    /// and no modifiers.
    pub fn new(q: String, voice: String) -> (r: SynthesizeQuery)
        requires
            q@.len() > 0,
            voice@.len() > 0,
        ensures
            r.q == q,
            r.voice == voice,
            r.style is None,
            r.speed is None,
            r.pitch is None,
            valid_query(r),
    {
        SynthesizeQuery { q, voice, style: None, speed: None, pitch: None }
    }

    /// The spoken length of the text: its character count with SSML tags
    /// left out.
    pub fn len(&self) -> (r: usize)
        ensures
            r == spoken_len(self.q@, false),
    {
        let n = self.q.as_str().unicode_len();
        let s = self.q.as_str();
        let mut count: usize = 0;
        let mut in_tag = false;
        let mut i: usize = 0;
        proof {
            assert(s@.skip(0) =~= s@);
        }
        while i < n
            invariant
                n == s@.len(),
                i <= n,
                count <= i,
                spoken_len(s@, false) == count + spoken_len(s@.skip(i as int), in_tag),
            decreases n - i,
        {
            let ghost suffix = s@.skip(i as int);
            proof {
                assert(suffix.first() == s@[i as int]);
                assert(suffix.drop_first() =~= s@.skip(i + 1));
            }
            let c = s.get_char(i);
            if c == '<' {
                in_tag = true;
            } else if c == '>' {
                in_tag = false;
            } else if !in_tag {
                count = count + 1;
            }
            i = i + 1;
        }
        proof {
            assert(s@.skip(n as int) =~= Seq::<char>::empty());
        }
        count
    }

    /// Sets the style for the synthesis query.
    pub fn with_style(self, style: String) -> (r: SynthesizeQuery)
        ensures
            r == (SynthesizeQuery { style: Some(style), ..self }),
    {
        SynthesizeQuery { style: Some(style), ..self }
    }

    /// Sets the speech speed for the synthesis query.
    pub fn with_speed(self, speed: u16) -> (r: SynthesizeQuery)
        ensures
            r == (SynthesizeQuery { speed: Some(speed), ..self }),
    {
        SynthesizeQuery { speed: Some(speed), ..self }
    }

    /// Sets the voice pitch for the synthesis query.
    pub fn with_pitch(self, pitch: i16) -> (r: SynthesizeQuery)
        ensures
            r == (SynthesizeQuery { pitch: Some(pitch), ..self }),
    {
        SynthesizeQuery { pitch: Some(pitch), ..self }
    }

    /// The request body this query is sent as: a JSON object holding the
    /// text and voice, and each modifier that is set.
    pub fn body_json(&self) -> (r: String)
        ensures
            r@ == synthesize_body_json(*self),
    {
        let mut s = String::new();
        s.append("{\"q\":");
        s.append(render_quoted_text(self.q.as_str()).as_str());
        s.append(",\"voice\":");
        s.append(render_quoted_text(self.voice.as_str()).as_str());
        if let Some(style) = &self.style {
            s.append(",\"style\":");
            s.append(render_quoted_text(style.as_str()).as_str());
        }
        if let Some(speed) = self.speed {
            s.append(",\"speed\":");
            s.append(format_u64(speed as u64).as_str());
        }
        if let Some(pitch) = self.pitch {
            s.append(",\"pitch\":");
            s.append(format_i64(pitch as i64).as_str());
        }
        s.append("}");
        proof {
            reveal_strlit("}");
            assert("}"@ =~= seq!['}']);
            assert(s@ =~= synthesize_body_json(*self));
        }
        s
    }

    /// The URL for the synthesize endpoint; the parameters all travel in
    /// the body, so the URL carries none.
    pub fn to_url(&self) -> (r: Result<url::Url, ApiError>)
        ensures
            r is Err ==> r->Err_0 is UrlError,
    {
        let base = BASE_URL.to_owned().concat("synthesize");
        match url::Url::parse(base.as_str()) {
            Ok(u) => Ok(u),
            Err(e) => Err(ApiError::UrlError(e)),
        }
    }
}

/// The JSON body of a synthesis request: text and voice always, then each
/// modifier that is set, in a fixed order.
pub open spec fn synthesize_body_json(q: SynthesizeQuery) -> Seq<char> {
    let s = "{\"q\":"@ + quoted(q.q@) + ",\"voice\":"@ + quoted(q.voice@);
    let s = if q.style is Some {
        s + ",\"style\":"@ + quoted(q.style->Some_0@)
    } else {
        s
    };
    let s = if q.speed is Some {
        s + ",\"speed\":"@ + dec_str(q.speed->Some_0 as int)
    } else {
        s
    };
    let s = if q.pitch is Some {
        s + ",\"pitch\":"@ + dec_str_signed(q.pitch->Some_0 as int)
    } else {
        s
    };
    s + seq!['}']
}

/// Renders a text as a quoted, escaped JSON string literal.
fn render_quoted_text(s: &str) -> (r: String)
    ensures
        r@ == quoted(s@),
{
    let quote = "\"";
    proof {
        reveal_strlit("\"");
        assert(quote@ =~= seq!['"']);
    }
    let mut out = String::new();
    out.append(quote);
    out.append(json_escape(s).as_str());
    out.append(quote);
    proof {
        assert(out@ =~= quoted(s@));
    }
    out
}

} // verus!
