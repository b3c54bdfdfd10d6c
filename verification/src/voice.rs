//! Voices available for text-to-speech synthesis, grouped by locale.

use vstd::prelude::*;

use crate::text::str_eq;

verus! {

/// The gender of a voice.
#[derive(Debug, Clone, Copy, PartialEq, Eq, Structural)]
pub enum VoiceGender {
    /// Female voice.
    Female,
    /// Male voice.
    Male,
    /// Neutral voice.
    Neutral,
    /// Non-binary voice.
    NonBinary,
}

/// A voice available for synthesis.
#[derive(Debug, Clone)]
pub struct Voice {
    /// The name of the voice.
    pub name: String,
    /// The locale of the voice.
    pub locale: String,
    /// The gender of the voice, as the API sends it.
    pub gender: String,
    /// Available styles for this voice.
    pub styles: Vec<String>,
    /// Features supported by this voice.
    pub supported_features: Vec<String>,
}

/// Whether some string in the list reads the same as the given text.
pub open spec fn contains_text(v: Seq<String>, x: Seq<char>) -> bool {
    exists|i: int| 0 <= i < v.len() && v[i]@ == x
}

/// Whether some string in the list reads the same as the given text.
fn vec_contains_str(v: &Vec<String>, x: &str) -> (r: bool)
    ensures
        r == contains_text(v@, x@),
{
    let mut i: usize = 0;
    while i < v.len()
        invariant
            i <= v@.len(),
            forall|k: int| 0 <= k < i ==> v@[k]@ != x@,
        decreases v@.len() - i,
    {
        if str_eq(v[i].as_str(), x) {
            return true;
        }
        i = i + 1;
    }
    false
}

impl Voice {
    /// Whether the voice supports a specific feature.
    pub fn supports_feature(&self, feature: &str) -> (r: bool)
        ensures
            r == contains_text(self.supported_features@, feature@),
    {
        vec_contains_str(&self.supported_features, feature)
    }

    /// Whether the voice supports a specific style.
    pub fn supports_style(&self, style: &str) -> (r: bool)
        ensures
            r == contains_text(self.styles@, style@),
    {
        vec_contains_str(&self.styles, style)
    }

    /// The voice's gender as an enum, when it matches a known value.
    pub fn gender_enum(&self) -> (r: Option<VoiceGender>)
        ensures
            r == gender_of(self.gender@),
    {
        if str_eq(self.gender.as_str(), "female") {
            Some(VoiceGender::Female)
        } else if str_eq(self.gender.as_str(), "male") {
            Some(VoiceGender::Male)
        } else if str_eq(self.gender.as_str(), "neutral") {
            Some(VoiceGender::Neutral)
        } else if str_eq(self.gender.as_str(), "nonbinary") {
            Some(VoiceGender::NonBinary)
        } else {
            None
        }
    }

    /// Whether the voice is from a specific locale.
    pub fn is_locale(&self, locale: &str) -> (r: bool)
        ensures
            r == (self.locale@ == locale@),
    {
        str_eq(self.locale.as_str(), locale)
    }
}

/// The gender a gender string denotes, when it is one of the known values.
pub open spec fn gender_of(g: Seq<char>) -> Option<VoiceGender> {
    if g == "female"@ {
        Some(VoiceGender::Female)
    } else if g == "male"@ {
        Some(VoiceGender::Male)
    } else if g == "neutral"@ {
        Some(VoiceGender::Neutral)
    } else if g == "nonbinary"@ {
        Some(VoiceGender::NonBinary)
    } else {
        None
    }
}

/// The voices the voices endpoint returns, grouped by locale.
#[derive(Debug, Clone)]
pub struct VoicesResponse {
    entries: Vec<(String, Vec<Voice>)>,
}

impl View for VoicesResponse {
    type V = Seq<(String, Vec<Voice>)>;

    closed spec fn view(&self) -> Seq<(String, Vec<Voice>)> {
        self.entries@
    }
}

/// All the voices of all the locales, in order of the locales and, within
/// one locale, in the order the voices came.
pub open spec fn all_voices_of(entries: Seq<(String, Vec<Voice>)>) -> Seq<Voice>
    decreases entries.len(),
{
    if entries.len() == 0 {
        Seq::empty()
    } else {
        entries.first().1@ + all_voices_of(entries.drop_first())
    }
}

impl VoicesResponse {
    /// An empty response.
    pub fn new() -> (r: VoicesResponse)
        ensures
            r@ == Seq::<(String, Vec<Voice>)>::empty(),
    {
        VoicesResponse { entries: Vec::new() }
    }

    /// Adds one locale's voices; a locale already present is refused, so
    /// that each locale keeps a single entry.
    pub fn add_locale(&mut self, locale: String, voices: Vec<Voice>) -> (r: bool)
        ensures
            r == !(exists|i: int| 0 <= i < old(self)@.len() && (#[trigger] old(self)@[i]).0@ == locale@),
            r ==> final(self)@ == old(self)@.push((locale, voices)),
            !r ==> final(self)@ == old(self)@,
    {
        let mut i: usize = 0;
        while i < self.entries.len()
            invariant
                i <= self.entries@.len(),
                forall|k: int| 0 <= k < i ==> (#[trigger] self.entries@[k]).0@ != locale@,
        decreases self.entries@.len() - i,
        {
            if str_eq(self.entries[i].0.as_str(), locale.as_str()) {
                proof {
                    assert((old(self)@[i as int]).0@ == locale@);
                }
                return false;
            }
            i = i + 1;
        }
        self.entries.push((locale, voices));
        true
    }

    /// All voices as one flat list, in locale order.
    pub fn all_voices(self) -> (r: Vec<Voice>)
        ensures
            r@ == all_voices_of(self@),
    {
        let ghost orig = self.entries@;
        let mut entries = self.entries;
        let mut out: Vec<Voice> = Vec::new();
        proof {
            assert(out@ + all_voices_of(entries@) =~= all_voices_of(orig));
        }
        while entries.len() > 0
            invariant
                all_voices_of(orig) == out@ + all_voices_of(entries@),
            decreases entries@.len(),
        {
            let ghost before = entries@;
            let (_locale, mut voices) = entries.remove(0);
            proof {
                assert(before.first().1 == voices);
                assert(before.drop_first() =~= entries@);
            }
            let ghost out_before = out@;
            out.append(&mut voices);
            proof {
                assert(out@ =~= out_before + before.first().1@);
                assert(out_before + (before.first().1@ + all_voices_of(entries@)) =~= out@
                    + all_voices_of(entries@));
            }
        }
        proof {
            assert(all_voices_of(entries@) =~= Seq::<Voice>::empty());
            assert(out@ + Seq::<Voice>::empty() =~= out@);
        }
        out
    }

    /// The voices of one locale, when the response holds that locale.
    pub fn voices_for_locale(&self, locale: &str) -> (r: Option<&Vec<Voice>>)
        ensures
            match r {
                Some(vs) => exists|i: int|
                    0 <= i < self@.len() && (#[trigger] self@[i]).0@ == locale@ && *vs
                        == self@[i].1,
                None => forall|i: int| 0 <= i < self@.len() ==> (#[trigger] self@[i]).0@ != locale@,
            },
    {
        let mut i: usize = 0;
        while i < self.entries.len()
            invariant
                i <= self.entries@.len(),
                forall|k: int| 0 <= k < i ==> (#[trigger] self.entries@[k]).0@ != locale@,
            decreases self.entries@.len() - i,
        {
            if str_eq(self.entries[i].0.as_str(), locale) {
                proof {
                    assert((self@[i as int]).0@ == locale@);
                }
                return Some(&self.entries[i].1);
            }
            i = i + 1;
        }
        None
    }

    /// All locales the response holds, in order.
    pub fn locales(&self) -> (r: Vec<String>)
        ensures
            r@.map_values(|s: String| s@) == self@.map_values(|e: (String, Vec<Voice>)| e.0@),
    {
        let mut out: Vec<String> = Vec::new();
        let mut i: usize = 0;
        while i < self.entries.len()
            invariant
                i <= self.entries@.len(),
                out@.len() == i,
                forall|k: int| 0 <= k < i ==> (#[trigger] out@[k])@ == self.entries@[k].0@,
            decreases self.entries@.len() - i,
        {
            out.push(self.entries[i].0.clone());
            i = i + 1;
        }
        proof {
            assert(out@.map_values(|s: String| s@) =~= self@.map_values(
                |e: (String, Vec<Voice>)| e.0@,
            ));
        }
        out
    }
}

} // verus!
