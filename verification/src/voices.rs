//! The compact voice listing: a map from locale to voices, with typed
//! gender, as the voices endpoint's older shape presents it.

use vstd::prelude::*;

use crate::text::str_eq;

verus! {

/// The gender of a voice.
#[derive(Debug, Clone, Copy, PartialEq, Eq, Structural)]
pub enum VoiceGender {
    /// Rather masculine voice.
    Male,
    /// Rather feminine voice.
    Female,
    /// None of those.
    NonBinary,
}

/// An available voice.
#[derive(Debug, Clone)]
pub struct Voice {
    /// The voice's name.
    pub name: String,
    /// The locale, and so accent, of the voice.
    pub locale: String,
    /// The voice's gender.
    pub gender: VoiceGender,
    /// The voice's variations.
    pub styles: Vec<String>,
}

/// A list of voices, grouped by locale.
#[derive(Debug, Clone)]
pub struct VoicesList {
    entries: Vec<(String, Vec<Voice>)>,
}

impl View for VoicesList {
    type V = Seq<(String, Vec<Voice>)>;

    closed spec fn view(&self) -> Seq<(String, Vec<Voice>)> {
        self.entries@
    }
}

impl VoicesList {
    /// An empty list.
    pub fn new() -> (r: VoicesList)
        ensures
            r@ == Seq::<(String, Vec<Voice>)>::empty(),
    {
        VoicesList { entries: Vec::new() }
    }

    /// Adds one locale's voices; a locale already present is refused, so
    /// that each locale keeps a single entry.
    pub fn add_locale(&mut self, locale: String, voices: Vec<Voice>) -> (r: bool)
        ensures
            r == !(exists|i: int|
                0 <= i < old(self)@.len() && (#[trigger] old(self)@[i]).0@ == locale@),
            r ==> final(self)@ == old(self)@.push((locale, voices)),
            !r ==> final(self)@ == old(self)@,
    {
        let mut i: usize = 0;
        while i < self.entries.len()
            invariant
                i <= self.entries@.len(),
                forall|k: int| 0 <= k < i ==> (#[trigger] self.entries@[k]).0@ != locale@,
            decreases self.entries@.len() - i,
        {
            if str_eq(self.entries[i].0.as_str(), locale.as_str()) {
                proof {
                    assert((old(self)@[i as int]).0@ == locale@);
                }
                return false;
            }
            i = i + 1;
        }
        self.entries.push((locale, voices));
        true
    }

    /// The voices of one locale, when the list holds that locale.
    pub fn get(&self, key: &str) -> (r: Option<&Vec<Voice>>)
        ensures
            match r {
                Some(vs) => exists|i: int|
                    0 <= i < self@.len() && (#[trigger] self@[i]).0@ == key@ && *vs == self@[i].1,
                None => forall|i: int| 0 <= i < self@.len() ==> (#[trigger] self@[i]).0@ != key@,
            },
    {
        let mut i: usize = 0;
        while i < self.entries.len()
            invariant
                i <= self.entries@.len(),
                forall|k: int| 0 <= k < i ==> (#[trigger] self.entries@[k]).0@ != key@,
            decreases self.entries@.len() - i,
        {
            if str_eq(self.entries[i].0.as_str(), key) {
                proof {
                    assert((self@[i as int]).0@ == key@);
                }
                return Some(&self.entries[i].1);
            }
            i = i + 1;
        }
        None
    }
}

} // verus!
