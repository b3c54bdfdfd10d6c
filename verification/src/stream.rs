//! The accumulation buffer behind both consumption modes.
//!
//! A buffer is created empty at the start of a request, fed chunk by chunk as
//! text arrives, and drained of every complete JSON frame the extractor can
//! produce before more data is requested. Frames come out in the order their
//! closing braces appear; a trailing partial object stays buffered for the
//! next chunk.

use vstd::prelude::*;

use crate::json::{extract_complete_json, extract_spec, frames_of, lemma_extract_shrinks,
    remainder_of};

verus! {

/// A growable text buffer holding everything received so far that has not
/// yet come out as a complete frame.
pub struct StreamBuffer {
    buf: String,
}

impl View for StreamBuffer {
    type V = Seq<char>;

    closed spec fn view(&self) -> Seq<char> {
        self.buf@
    }
}

impl StreamBuffer {
    /// An empty buffer.
    pub fn new() -> (r: StreamBuffer)
        ensures
            r@ == Seq::<char>::empty(),
    {
        StreamBuffer { buf: String::new() }
    }

    /// Appends one transport chunk. An empty chunk is skipped without being
    /// appended; either way the contents end up as the old text followed by
    /// the chunk.
    pub fn push_chunk(&mut self, chunk: &str)
        ensures
            final(self)@ == old(self)@ + chunk@,
    {
        if !chunk.is_empty() {
            self.buf.append(chunk);
        } else {
            proof {
                assert(old(self)@ + chunk@ =~= old(self)@);
            }
        }
    }

    /// The text currently buffered.
    pub fn remaining(&self) -> (r: &str)
        ensures
            r@ == self@,
    {
        self.buf.as_str()
    }

    /// Extracts at most one complete frame, leaving the remainder buffered.
    pub fn next_frame(&mut self) -> (r: Option<String>)
        ensures
            match r {
                Some(f) => extract_spec(old(self)@) == Some((f@, final(self)@)),
                None => {
                    &&& extract_spec(old(self)@) is None
                    &&& final(self)@ == old(self)@
                },
            },
    {
        match extract_complete_json(self.buf.as_str()) {
            Some(p) => {
                self.buf = p.1;
                Some(p.0)
            },
            None => None,
        }
    }

    /// Drains every complete frame currently buffered, in order, leaving
    /// only the trailing partial text (if any) behind.
    pub fn drain(&mut self) -> (frames: Vec<String>)
        ensures
            frames@.map_values(|f: String| f@) == frames_of(old(self)@),
            final(self)@ == remainder_of(old(self)@),
    {
        let mut out: Vec<String> = Vec::new();
        let mut done = false;
        while !done
            invariant
                frames_of(old(self)@) == out@.map_values(|f: String| f@) + frames_of(self@),
                remainder_of(old(self)@) == remainder_of(self@),
                done ==> extract_spec(self@) is None,
            decreases self@.len() + (if done { 0int } else { 1int }),
        {
            let ghost prev = self@;
            match self.next_frame() {
                Some(f) => {
                    proof {
                        lemma_extract_shrinks(prev);
                        assert(out@.push(f).map_values(|g: String| g@) =~= out@.map_values(
                            |g: String| g@,
                        ) + seq![f@]);
                        assert(out@.map_values(|g: String| g@) + (seq![f@] + frames_of(self@))
                            =~= (out@.map_values(|g: String| g@) + seq![f@]) + frames_of(self@));
                    }
                    out.push(f);
                },
                None => {
                    done = true;
                },
            }
        }
        proof {
            assert(frames_of(self@) =~= Seq::<Seq<char>>::empty());
            assert(out@.map_values(|f: String| f@) + Seq::<Seq<char>>::empty() =~= out@.map_values(
                |f: String| f@,
            ));
        }
        out
    }
}

} // verus!
