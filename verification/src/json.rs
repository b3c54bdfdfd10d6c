//! Incremental extraction of complete top-level JSON objects from a text
//! buffer.
//!
//! The scanner walks the buffer once, counting braces: a frame begins at the
//! first `{` met at depth zero and ends at the `}` that brings the depth back
//! to zero. Characters other than braces are inert, and a stray `}` met at
//! depth zero is ignored. The scanner is deliberately unaware of JSON string
//! literals, so a string value holding a bare brace would desynchronise the
//! count; the payloads this crate handles do not contain such values.

use vstd::prelude::*;

verus! {

/// One step short of the whole story: the scan over `s` starting at position
/// `i` with the given brace depth, where `start` is the position of the
/// opening brace of the frame being read (meaningful only when `depth > 0`).
/// Returns the start position and the exclusive end position of the first
/// complete frame, if the rest of the text holds one.
pub open spec fn scan(s: Seq<char>, i: int, depth: int, start: int) -> Option<(int, int)>
    decreases s.len() - i,
{
    if i < 0 || i >= s.len() {
        None
    } else {
        let c = s[i];
        if c == '{' {
            if depth == 0 {
                scan(s, i + 1, 1, i)
            } else {
                scan(s, i + 1, depth + 1, start)
            }
        } else if c == '}' {
            if depth == 1 {
                Some((start, i + 1))
            } else if depth > 1 {
                scan(s, i + 1, depth - 1, start)
            } else {
                scan(s, i + 1, 0, 0)
            }
        } else {
            scan(s, i + 1, depth, start)
        }
    }
}

/// What one extraction returns on a buffer: the first complete frame and the
/// text after its closing brace, or nothing if no frame is complete yet.
pub open spec fn extract_spec(s: Seq<char>) -> Option<(Seq<char>, Seq<char>)> {
    match scan(s, 0, 0, 0) {
        None => None,
        Some((st, en)) => Some((s.subrange(st, en), s.subrange(en, s.len() as int))),
    }
}

/// Bounds on a successful scan: the frame lies inside the text, opens with
/// `{`, closes with `}`, and starts at the recorded position when one is
/// already open.
pub proof fn lemma_scan_bounds(s: Seq<char>, i: int, depth: int, start: int)
    requires
        0 <= i <= s.len(),
        depth > 0 ==> 0 <= start < i && s[start] == '{',
        scan(s, i, depth, start) is Some,
    ensures
        ({
            let (st, en) = scan(s, i, depth, start)->Some_0;
            &&& 0 <= st < en <= s.len()
            &&& s[st] == '{'
            &&& s[en - 1] == '}'
            &&& en - st >= 2
            &&& (depth > 0 ==> st == start)
            &&& (depth == 0 ==> st >= i)
            &&& en >= i + 1
        }),
    decreases s.len() - i,
{
    if i < s.len() {
        let c = s[i];
        if c == '{' {
            if depth == 0 {
                lemma_scan_bounds(s, i + 1, 1, i);
            } else {
                lemma_scan_bounds(s, i + 1, depth + 1, start);
            }
        } else if c == '}' {
            if depth == 1 {
            } else if depth > 1 {
                lemma_scan_bounds(s, i + 1, depth - 1, start);
            } else {
                lemma_scan_bounds(s, i + 1, 0, 0);
            }
        } else {
            lemma_scan_bounds(s, i + 1, depth, start);
        }
    }
}

/// Whether the text contains no brace at all; such text is inert to the
/// scanner.
pub open spec fn brace_free(s: Seq<char>) -> bool {
    forall|k: int| 0 <= k < s.len() ==> s[k] != '{' && s[k] != '}'
}

/// The running brace balance of a text: `{` counts one up, `}` one down.
pub open spec fn brace_sum(s: Seq<char>) -> int
    decreases s.len(),
{
    if s.len() == 0 {
        0
    } else {
        brace_sum(s.drop_last()) + (if s.last() == '{' {
            1int
        } else if s.last() == '}' {
            -1int
        } else {
            0int
        })
    }
}

/// A text that the scanner reads as exactly one complete object: it opens
/// with `{`, its braces balance out only at the very end, and the balance
/// stays positive strictly inside. Every well-formed JSON object whose string
/// values hold no bare braces has this shape.
pub open spec fn is_object(w: Seq<char>) -> bool {
    &&& w.len() >= 2
    &&& w[0] == '{'
    &&& brace_sum(w) == 0
    &&& forall|i: int| 0 < i < w.len() ==> brace_sum(#[trigger] w.take(i)) > 0
}

/// The brace balance is additive over concatenation.
pub proof fn lemma_brace_sum_concat(a: Seq<char>, b: Seq<char>)
    ensures
        brace_sum(a + b) == brace_sum(a) + brace_sum(b),
    decreases b.len(),
{
    if b.len() == 0 {
        assert(a + b =~= a);
    } else {
        lemma_brace_sum_concat(a, b.drop_last());
        assert((a + b).drop_last() =~= a + b.drop_last());
        assert((a + b).last() == b.last());
    }
}

/// Extending a prefix by one character moves the balance by that character's
/// contribution.
proof fn lemma_brace_sum_step(w: Seq<char>, j: int)
    requires
        0 <= j < w.len(),
    ensures
        brace_sum(w.take(j + 1)) == brace_sum(w.take(j)) + (if w[j] == '{' {
            1int
        } else if w[j] == '}' {
            -1int
        } else {
            0int
        }),
{
    assert(w.take(j + 1).drop_last() =~= w.take(j));
    assert(w.take(j + 1).last() == w[j]);
}

/// The scanner passes over brace-free text without changing state.
proof fn lemma_scan_skip(s: Seq<char>, i: int, j: int, depth: int, start: int)
    requires
        0 <= i <= j <= s.len(),
        forall|k: int| i <= k < j ==> s[k] != '{' && s[k] != '}',
    ensures
        scan(s, i, depth, start) == scan(s, j, depth, start),
    decreases j - i,
{
    if i < j {
        lemma_scan_skip(s, i + 1, j, depth, start);
    }
}

/// Inside an object placed at `pos`, the scan state at offset `j` is the
/// brace balance of the prefix read so far, and the scan ends at the
/// object's last character.
proof fn lemma_scan_object_inner(s: Seq<char>, pos: int, w: Seq<char>, j: int)
    requires
        is_object(w),
        0 <= pos,
        pos + w.len() <= s.len(),
        s.subrange(pos, pos + w.len() as int) == w,
        1 <= j < w.len(),
    ensures
        scan(s, pos + j, brace_sum(w.take(j)), pos) == Some((pos, pos + w.len() as int)),
    decreases w.len() - j,
{
    let d = brace_sum(w.take(j));
    let c = w[j];
    assert(s[pos + j] == w[j]);
    assert(d > 0);
    lemma_brace_sum_step(w, j);
    if j + 1 == w.len() {
        assert(w.take(j + 1) =~= w);
        // the balance reaches zero only at the end, off a single `}`
        assert(brace_sum(w.take(j + 1)) == 0);
        assert(c == '}' && d == 1);
    } else {
        assert(brace_sum(w.take(j + 1)) > 0);
        if c == '}' && d == 1 {
            assert(brace_sum(w.take(j + 1)) == 0);
            assert(false);
        }
        lemma_scan_object_inner(s, pos, w, j + 1);
    }
}

/// A scan arriving at an object's opening brace with depth zero reads
/// exactly that object.
pub proof fn lemma_scan_object(s: Seq<char>, pos: int, w: Seq<char>)
    requires
        is_object(w),
        0 <= pos,
        pos + w.len() <= s.len(),
        s.subrange(pos, pos + w.len() as int) == w,
    ensures
        scan(s, pos, 0, 0) == Some((pos, pos + w.len() as int)),
{
    assert(s[pos] == w[0]);
    assert(brace_sum(w.take(1)) == 1) by {
        lemma_brace_sum_step(w, 0);
        assert(w.take(0) =~= Seq::<char>::empty());
    }
    lemma_scan_object_inner(s, pos, w, 1);
}

/// Leading bulk does not hide the first object, and everything after the
/// object comes back verbatim as the remainder: on `pre + w + rest`, where
/// `pre` holds no brace and `w` is one complete object, extraction returns
/// `w` and the remainder `rest`, whatever `rest` holds. In particular,
/// whitespace around and between objects neither prevents extraction nor
/// leaks into the frame: it is skipped before the frame and preserved,
/// unstripped, in the remainder.
pub proof fn lemma_extract_first_object(pre: Seq<char>, w: Seq<char>, rest: Seq<char>)
    requires
        brace_free(pre),
        is_object(w),
    ensures
        extract_spec(pre + w + rest) == Some((w, rest)),
{
    let s = pre + w + rest;
    lemma_scan_skip(s, 0, pre.len() as int, 0, 0);
    assert(s.subrange(pre.len() as int, pre.len() + w.len() as int) =~= w);
    lemma_scan_object(s, pre.len() as int, w);
    assert(s.subrange(pre.len() + w.len() as int, s.len() as int) =~= rest);
}

/// The scanner never reports a frame from text without a closing brace; in
/// particular any run of unmatched `{` characters, of any length, yields
/// nothing.
proof fn lemma_scan_no_close(s: Seq<char>, i: int, depth: int, start: int)
    requires
        0 <= i <= s.len(),
        forall|k: int| i <= k < s.len() ==> s[k] != '}',
    ensures
        scan(s, i, depth, start) is None,
    decreases s.len() - i,
{
    if i < s.len() {
        let c = s[i];
        if c == '{' {
            if depth == 0 {
                lemma_scan_no_close(s, i + 1, 1, i);
            } else {
                lemma_scan_no_close(s, i + 1, depth + 1, start);
            }
        } else {
            lemma_scan_no_close(s, i + 1, depth, start);
        }
    }
}

/// No false positive: a buffer without any `}` — empty, bare text, or any
/// number of unmatched `{` characters — never yields a frame.
pub proof fn lemma_no_close_no_frame(s: Seq<char>)
    requires
        forall|k: int| 0 <= k < s.len() ==> s[k] != '}',
    ensures
        extract_spec(s) is None,
{
    lemma_scan_no_close(s, 0, 0, 0);
}

/// A single complete object is extracted whole, with an empty remainder.
pub proof fn lemma_extract_single_object(w: Seq<char>)
    requires
        is_object(w),
    ensures
        extract_spec(w) == Some((w, Seq::<char>::empty())),
{
    assert(Seq::<char>::empty() + w + Seq::<char>::empty() =~= w);
    lemma_extract_first_object(Seq::<char>::empty(), w, Seq::<char>::empty());
}

/// A flat object — `{`, then brace-free content, then `}` — is an object in
/// the scanner's sense.
pub proof fn lemma_flat_object(mid: Seq<char>)
    requires
        brace_free(mid),
    ensures
        is_object(seq!['{'] + mid + seq!['}']),
{
    let w = seq!['{'] + mid + seq!['}'];
    assert(brace_sum(Seq::<char>::empty()) == 0);
    assert(brace_sum(seq!['{']) == 1) by {
        assert(seq!['{'].drop_last() =~= Seq::<char>::empty());
        assert(seq!['{'].last() == '{');
    }
    assert forall|i: int| 0 < i < w.len() implies brace_sum(#[trigger] w.take(i)) > 0 by {
        assert(w.take(i) =~= seq!['{'] + mid.take(i - 1));
        lemma_brace_sum_concat(seq!['{'], mid.take(i - 1));
        lemma_brace_free_sum(mid.take(i - 1));
    }
    assert(brace_sum(w) == 0) by {
        assert(w =~= (seq!['{'] + mid) + seq!['}']);
        lemma_brace_sum_concat(seq!['{'] + mid, seq!['}']);
        lemma_brace_sum_concat(seq!['{'], mid);
        lemma_brace_free_sum(mid);
        assert(brace_sum(seq!['}']) == -1) by {
            assert(brace_sum(Seq::<char>::empty()) == 0);
            assert(seq!['}'].drop_last() =~= Seq::<char>::empty());
            assert(seq!['}'].last() == '}');
        }
    }
}

/// Brace-free text has balance zero.
proof fn lemma_brace_free_sum(s: Seq<char>)
    requires
        brace_free(s),
    ensures
        brace_sum(s) == 0,
    decreases s.len(),
{
    if s.len() > 0 {
        lemma_brace_free_sum(s.drop_last());
    }
}

/// Single extraction: a buffer holding exactly one flat JSON object — `{`,
/// then brace-free content, then `}` — yields that exact object and an
/// empty remainder.
pub proof fn lemma_extract_flat_object(mid: Seq<char>)
    requires
        brace_free(mid),
    ensures
        extract_spec(seq!['{'] + mid + seq!['}']) == Some(
            (seq!['{'] + mid + seq!['}'], Seq::<char>::empty()),
        ),
{
    lemma_flat_object(mid);
    lemma_extract_single_object(seq!['{'] + mid + seq!['}']);
}

/// Order preservation over two back-to-back objects: the first call returns
/// object one with object two as the remainder, and a second call on that
/// remainder returns object two with an empty remainder.
pub proof fn lemma_extract_two_objects(w1: Seq<char>, w2: Seq<char>)
    requires
        is_object(w1),
        is_object(w2),
    ensures
        extract_spec(w1 + w2) == Some((w1, w2)),
        extract_spec(w2) == Some((w2, Seq::<char>::empty())),
{
    assert(Seq::<char>::empty() + w1 + w2 =~= w1 + w2);
    lemma_extract_first_object(Seq::<char>::empty(), w1, w2);
    lemma_extract_single_object(w2);
}

/// Partial tail preserved: one complete object followed by a truncated
/// fragment (which, lacking any `}`, cannot close) yields the object and the
/// fragment verbatim, and a further call on the fragment yields nothing.
pub proof fn lemma_extract_partial_tail(w: Seq<char>, frag: Seq<char>)
    requires
        is_object(w),
        forall|k: int| 0 <= k < frag.len() ==> frag[k] != '}',
    ensures
        extract_spec(w + frag) == Some((w, frag)),
        extract_spec(frag) is None,
{
    assert(Seq::<char>::empty() + w + frag =~= w + frag);
    lemma_extract_first_object(Seq::<char>::empty(), w, frag);
    lemma_no_close_no_frame(frag);
}

/// All the complete frames a buffer currently holds, in order of their
/// closing braces: what a loop of extractions drains before hitting `None`.
pub open spec fn frames_of(s: Seq<char>) -> Seq<Seq<char>>
    decreases s.len(),
{
    match extract_spec(s) {
        None => Seq::empty(),
        Some((f, r)) => {
            if r.len() < s.len() {
                seq![f] + frames_of(r)
            } else {
                Seq::empty()
            }
        },
    }
}

/// What is left in the buffer once every complete frame has been drained.
pub open spec fn remainder_of(s: Seq<char>) -> Seq<char>
    decreases s.len(),
{
    match extract_spec(s) {
        None => s,
        Some((f, r)) => {
            if r.len() < s.len() {
                remainder_of(r)
            } else {
                s
            }
        },
    }
}

/// A successful extraction strictly shrinks the buffer, so draining
/// terminates; unfolding `frames_of` and `remainder_of` is then exact.
pub proof fn lemma_extract_shrinks(s: Seq<char>)
    requires
        extract_spec(s) is Some,
    ensures
        ({
            let (f, r) = extract_spec(s)->Some_0;
            &&& r.len() < s.len()
            &&& f.len() >= 2
            &&& frames_of(s) == seq![f] + frames_of(r)
            &&& remainder_of(s) == remainder_of(r)
        }),
{
    lemma_scan_bounds(s, 0, 0, 0);
}

/// Idempotent drain: a buffer holding exactly a row of complete objects,
/// back to back, drains to precisely those objects, in their original order,
/// with no loss or duplication and nothing left over.
pub proof fn lemma_drain_reconstructs(ws: Seq<Seq<char>>)
    requires
        forall|i: int| 0 <= i < ws.len() ==> is_object(#[trigger] ws[i]),
    ensures
        frames_of(ws.flatten()) == ws,
        remainder_of(ws.flatten()) == Seq::<char>::empty(),
    decreases ws.len(),
{
    if ws.len() == 0 {
        assert(ws.flatten() =~= Seq::<char>::empty());
        lemma_no_close_no_frame(Seq::<char>::empty());
    } else {
        let w = ws.first();
        let rest = ws.drop_first();
        assert(ws.flatten() == w + rest.flatten());
        assert(Seq::<char>::empty() + w + rest.flatten() =~= ws.flatten());
        lemma_extract_first_object(Seq::<char>::empty(), w, rest.flatten());
        lemma_extract_shrinks(ws.flatten());
        assert(forall|i: int| 0 <= i < rest.len() ==> is_object(#[trigger] rest[i]));
        lemma_drain_reconstructs(rest);
        assert(frames_of(ws.flatten()) =~= ws);
    }
}

/// Extracts the first complete JSON object from a buffer and returns it along
/// with the remaining text, verbatim. Returns `None` while no complete object
/// has arrived yet. Each call extracts at most one frame; calling again on the
/// remainder drains the next one.
pub fn extract_complete_json(buffer: &str) -> (r: Option<(String, String)>)
    ensures
        match r {
            Some(p) => extract_spec(buffer@) == Some((p.0@, p.1@)),
            None => extract_spec(buffer@) is None,
        },
{
    let n = buffer.unicode_len();
    let mut i: usize = 0;
    let mut depth: usize = 0;
    let mut start: usize = 0;
    while i < n
        invariant
            n == buffer@.len(),
            i <= n,
            depth <= i,
            depth > 0 ==> start < i && buffer@[start as int] == '{',
            scan(buffer@, 0, 0, 0) == scan(
                buffer@,
                i as int,
                depth as int,
                if depth > 0 {
                    start as int
                } else {
                    0
                },
            ),
        decreases n - i,
    {
        let c = buffer.get_char(i);
        if c == '{' {
            if depth == 0 {
                start = i;
            }
            depth = depth + 1;
        } else if c == '}' {
            if depth == 1 {
                let frame = buffer.substring_char(start, i + 1).to_owned();
                let rest = buffer.substring_char(i + 1, n).to_owned();
                return Some((frame, rest));
            } else if depth > 1 {
                depth = depth - 1;
            }
        }
        i = i + 1;
    }
    None
}

} // verus!
