//! The message framer.
//!
//! A connection delivers text in CRLF-terminated frames. [`Decoder`] buffers
//! the received text and yields each complete frame in order: empty frames
//! are skipped, a frame over [`MAX_FRAME`] characters is surfaced as
//! [`DecodeError::TooLong`] without disturbing the stream, a clean end
//! between frames is [`DecodeError::Eof`], and an end mid-frame is
//! [`DecodeError::Incomplete`]. A bare LF does not terminate a frame.
//!
//! The framing is specified by [`wire_frames`]; [`lemma_framing_round_trip`]
//! states the law that joining frames with CRLF and framing the result
//! yields the frames again.

use vstd::prelude::*;
use vstd::string::StrSliceExecFns;
use vstd::string::StringExecFns;
use crate::util::{char_free, substr_string};

verus! {

/// The longest frame the decoder accepts, in characters.
pub const MAX_FRAME: usize = 8192;

/// Why the decoder yielded no frame.
#[derive(Clone, Copy, Debug, PartialEq, Eq, Structural)]
pub enum DecodeError {
    /// The stream ended cleanly between frames.
    Eof,
    /// The stream ended in the middle of a frame.
    Incomplete,
    /// The next frame is longer than [`MAX_FRAME`].
    TooLong,
    /// The transport handed bytes that are not valid UTF-8.
    InvalidUtf8,
}

/// First position `i >= from` where a CR is immediately followed by an LF,
/// or `s.len()` when there is none.
pub open spec fn find_crlf(s: Seq<char>, from: int) -> int
    recommends
        0 <= from,
    decreases s.len() - from,
{
    if from < 0 || from + 1 >= s.len() {
        s.len() as int
    } else if s[from] == '\r' && s[from + 1] == '\n' {
        from
    } else {
        find_crlf(s, from + 1)
    }
}

/// A position with CRLF and none before it is what `find_crlf` returns.
proof fn lemma_find_crlf_unique(s: Seq<char>, from: int, i: int)
    requires
        0 <= from <= i,
        i + 1 <= s.len(),
        forall|j: int| from <= j < i && j + 1 < s.len() ==> !(#[trigger] s[j] == '\r' && s[j + 1] == '\n'),
        i + 1 == s.len() || (s[i] == '\r' && s[i + 1] == '\n'),
    ensures
        i + 1 == s.len() ==> find_crlf(s, from) == s.len(),
        i + 1 < s.len() ==> find_crlf(s, from) == i,
    decreases i - from,
{
    if from < i {
        lemma_find_crlf_unique(s, from + 1, i);
    }
}

/// The complete, non-empty frames at the head of the buffered text.
pub open spec fn wire_frames(s: Seq<char>) -> Seq<Seq<char>>
    decreases s.len(),
{
    let i = find_crlf(s, 0);
    if 0 <= i && i + 1 < s.len() {
        let rest = wire_frames(s.skip(i + 2));
        if i == 0 {
            rest
        } else {
            seq![s.take(i)] + rest
        }
    } else {
        Seq::empty()
    }
}

/// What remains of the buffered text after every complete frame.
pub open spec fn wire_rest(s: Seq<char>) -> Seq<char>
    decreases s.len(),
{
    let i = find_crlf(s, 0);
    if 0 <= i && i + 1 < s.len() {
        wire_rest(s.skip(i + 2))
    } else {
        s
    }
}

/// Frames joined back to wire form, CRLF after each frame.
pub open spec fn frames_wire(fs: Seq<Seq<char>>) -> Seq<char>
    decreases fs.len(),
{
    if fs.len() == 0 {
        Seq::empty()
    } else {
        fs[0] + seq!['\r', '\n'] + frames_wire(fs.skip(1))
    }
}

/// A frame as it may stand on the wire: non-empty, with no CR and no LF.
pub open spec fn wf_frame(f: Seq<char>) -> bool {
    f.len() > 0 && char_free(f, '\r') && char_free(f, '\n')
}

/// Law: framing round-trip. Joining any sequence of well-formed frames with
/// CRLF and feeding the result to the framer yields exactly those frames.
pub proof fn lemma_framing_round_trip(fs: Seq<Seq<char>>)
    requires
        forall|k: int| 0 <= k < fs.len() ==> wf_frame(#[trigger] fs[k]),
    ensures
        wire_frames(frames_wire(fs)) == fs,
    decreases fs.len(),
{
    if fs.len() == 0 {
        assert(wire_frames(frames_wire(fs)) =~= fs);
    } else {
        let f0 = fs[0];
        let s = frames_wire(fs);
        assert(wf_frame(f0));
        assert(s == f0 + seq!['\r', '\n'] + frames_wire(fs.skip(1)));
        assert(s[f0.len() as int] == '\r' && s[f0.len() as int + 1] == '\n');
        assert(forall|j: int| 0 <= j < f0.len() ==> s[j] == f0[j] && s[j] != '\r');
        lemma_find_crlf_unique(s, 0, f0.len() as int);
        assert(find_crlf(s, 0) == f0.len());
        assert(s.take(f0.len() as int) =~= f0);
        assert(s.skip(f0.len() as int + 2) =~= frames_wire(fs.skip(1)));
        lemma_framing_round_trip(fs.skip(1));
        assert(wire_frames(s) =~= fs);
    }
}

/// The frames among `fs` that the decoder keeps: those within [`MAX_FRAME`].
pub open spec fn kept_frames(fs: Seq<Seq<char>>) -> Seq<Seq<char>>
    decreases fs.len(),
{
    if fs.len() == 0 {
        Seq::empty()
    } else if fs[0].len() <= MAX_FRAME {
        seq![fs[0]] + kept_frames(fs.skip(1))
    } else {
        kept_frames(fs.skip(1))
    }
}

/// Splits buffered text into CRLF-terminated frames.
#[derive(Debug)]
pub struct Decoder {
    buf: String,
    pos: usize,
}

impl Decoder {
    /// The text not yet consumed.
    pub closed spec fn rem(self) -> Seq<char> {
        self.buf@.skip(self.pos as int)
    }

    /// All text ever buffered, the consumed prefix included.
    pub closed spec fn buffered(self) -> Seq<char> {
        self.buf@
    }

    /// The consumed prefix never outruns the buffer.
    pub closed spec fn wf(self) -> bool {
        self.pos <= self.buf@.len() < usize::MAX
    }

    /// A decoder over the given received text.
    pub fn new(input: String) -> (r: Self)
        requires
            input@.len() < usize::MAX,
        ensures
            r.wf(),
            r.rem() == input@,
    {
        let r = Decoder { buf: input, pos: 0 };
        proof {
            assert(r.rem() =~= r.buf@);
        }
        r
    }

    /// Hand the decoder more received text.
    pub fn feed(&mut self, chunk: &str)
        requires
            old(self).wf(),
            old(self).buffered().len() + chunk@.len() < usize::MAX,
        ensures
            final(self).wf(),
            final(self).rem() == old(self).rem() + chunk@,
    {
        self.buf.append(chunk);
        proof {
            assert(self.buf@.skip(self.pos as int) =~= old(self).rem() + chunk@);
        }
    }

    /// The next complete frame.
    ///
    /// Empty frames are skipped. A complete frame longer than [`MAX_FRAME`]
    /// is consumed and reported as `TooLong`. With no complete frame left,
    /// the result is `Eof` when nothing remains and `Incomplete` when a
    /// partial frame does.
    pub fn next_frame(&mut self) -> (r: Result<String, DecodeError>)
        requires
            old(self).wf(),
        ensures
            final(self).wf(),
            wire_rest(final(self).rem()) == wire_rest(old(self).rem()),
            match r {
                Ok(f) => {
                    &&& wire_frames(old(self).rem()).len() > 0
                    &&& f@ == wire_frames(old(self).rem())[0]
                    &&& f@.len() <= MAX_FRAME
                    &&& wire_frames(final(self).rem()) == wire_frames(old(self).rem()).skip(1)
                },
                Err(DecodeError::TooLong) => {
                    &&& wire_frames(old(self).rem()).len() > 0
                    &&& wire_frames(old(self).rem())[0].len() > MAX_FRAME
                    &&& wire_frames(final(self).rem()) == wire_frames(old(self).rem()).skip(1)
                },
                Err(DecodeError::Eof) => {
                    &&& wire_frames(old(self).rem()).len() == 0
                    &&& wire_rest(old(self).rem()).len() == 0
                    &&& final(self).rem() == wire_rest(old(self).rem())
                },
                Err(DecodeError::Incomplete) => {
                    &&& wire_frames(old(self).rem()).len() == 0
                    &&& wire_rest(old(self).rem()).len() > 0
                    &&& final(self).rem() == wire_rest(old(self).rem())
                },
                Err(DecodeError::InvalidUtf8) => false,
            },
    {
        let n = self.buf.as_str().unicode_len();
        loop
            invariant
                self.wf(),
                n == self.buf@.len(),
                self.buf == old(self).buf,
                wire_frames(self.rem()) == wire_frames(old(self).rem()),
                wire_rest(self.rem()) == wire_rest(old(self).rem()),
            decreases n - self.pos,
        {
            let k = find_crlf_exec(self.buf.as_str(), self.pos);
            let ghost r0 = self.rem();
            if k + 1 >= n {
                // No complete frame remains.
                proof {
                    assert(find_crlf(r0, 0) == r0.len()) by {
                        lemma_find_crlf_shift(self.buf@, self.pos as int, k as int, n as int);
                    }
                    assert(wire_frames(r0) =~= Seq::<Seq<char>>::empty());
                    assert(wire_rest(r0) == r0);
                }
                if self.pos == n {
                    return Err(DecodeError::Eof);
                } else {
                    return Err(DecodeError::Incomplete);
                }
            }
            proof {
                lemma_find_crlf_shift(self.buf@, self.pos as int, k as int, n as int);
                assert(find_crlf(r0, 0) == k - self.pos);
                assert(r0.skip(k - self.pos + 2) =~= self.buf@.skip(k + 2));
            }
            if k == self.pos {
                // An empty frame: skip it.
                self.pos = self.pos + 2;
                continue;
            }
            let ghost frame_spec = r0.take(k - self.pos);
            proof {
                assert(wire_frames(r0) == seq![frame_spec] + wire_frames(self.buf@.skip(k + 2)));
                assert((seq![frame_spec] + wire_frames(self.buf@.skip(k + 2))).skip(1) =~= wire_frames(
                    self.buf@.skip(k + 2),
                ));
                assert(frame_spec =~= self.buf@.subrange(self.pos as int, k as int));
            }
            let start = self.pos;
            self.pos = k + 2;
            if k - start > MAX_FRAME {
                return Err(DecodeError::TooLong);
            }
            let f = substr_string(self.buf.as_str(), start, k);
            return Ok(f);
        }
    }
}

/// The leftover after every complete frame holds no complete frame.
proof fn lemma_wire_frames_of_rest(s: Seq<char>)
    ensures
        wire_frames(wire_rest(s)).len() == 0,
    decreases s.len(),
{
    let i = find_crlf(s, 0);
    if 0 <= i && i + 1 < s.len() {
        lemma_wire_frames_of_rest(s.skip(i + 2));
    }
}

/// With no CRLF at or after `from`, `find_crlf` runs to the end.
proof fn lemma_find_crlf_none(s: Seq<char>, from: int)
    requires
        0 <= from,
        forall|j: int| from <= j && j + 1 < s.len() ==> !(#[trigger] s[j] == '\r' && s[j + 1] == '\n'),
    ensures
        find_crlf(s, from) == s.len(),
    decreases s.len() - from,
{
    if from + 1 < s.len() {
        lemma_find_crlf_none(s, from + 1);
    }
}

/// Shifting the buffer start shifts the CRLF position found from it.
proof fn lemma_find_crlf_shift(s: Seq<char>, pos: int, k: int, n: int)
    requires
        n == s.len(),
        0 <= pos <= k <= n,
        forall|j: int| pos <= j < k && j + 1 < n ==> !(#[trigger] s[j] == '\r' && s[j + 1] == '\n'),
        k < n ==> k + 1 < n && s[k] == '\r' && s[k + 1] == '\n',
    ensures
        k == n ==> find_crlf(s.skip(pos), 0) == s.skip(pos).len(),
        k < n ==> find_crlf(s.skip(pos), 0) == k - pos,
{
    let u = s.skip(pos);
    assert(forall|j: int| 0 <= j < u.len() ==> u[j] == s[j + pos]);
    if k == n {
        lemma_find_crlf_none(u, 0);
    } else {
        lemma_find_crlf_unique(u, 0, k - pos);
    }
}

/// First position at or after `from` where a CR is immediately followed by
/// an LF, or the length of `s` when there is none.
fn find_crlf_exec(s: &str, from: usize) -> (r: usize)
    requires
        from <= s@.len() < usize::MAX,
    ensures
        from <= r <= s@.len(),
        r + 1 < s@.len() ==> s@[r as int] == '\r' && s@[r as int + 1] == '\n',
        r + 1 >= s@.len() ==> r == s@.len(),
        forall|j: int| from <= j < r && j + 1 < s@.len() ==> !(#[trigger] s@[j] == '\r' && s@[j + 1] == '\n'),
{
    let n = s.unicode_len();
    if n == 0 {
        return 0;
    }
    let mut i = from;
    while i + 1 < n
        invariant
            from <= i,
            i <= n,
            n == s@.len(),
            n < usize::MAX,
            forall|j: int| from <= j < i && j + 1 < n ==> !(#[trigger] s@[j] == '\r' && s@[j + 1] == '\n'),
        decreases n - i,
    {
        if s.get_char(i) == '\r' && s.get_char(i + 1) == '\n' {
            return i;
        }
        i = i + 1;
    }
    n
}

/// Every complete frame of the buffered text, in order, dropping frames
/// over [`MAX_FRAME`].
pub fn decode_all(input: &str) -> (r: Vec<String>)
    requires
        input@.len() < usize::MAX,
    ensures
        r@.len() == kept_frames(wire_frames(input@)).len(),
        forall|i: int|
            0 <= i < r@.len() ==> (#[trigger] r@[i])@ == kept_frames(wire_frames(input@))[i],
{
    let mut dec = Decoder::new(String::from_str(input));
    let mut out: Vec<String> = Vec::new();
    loop
        invariant
            dec.wf(),
            kept_frames(wire_frames(input@)) == out@.map_values(|x: String| x@) + kept_frames(
                wire_frames(dec.rem()),
            ),
        decreases wire_frames(dec.rem()).len(),
    {
        let ghost rold = dec.rem();
        let ghost before = wire_frames(dec.rem());
        let ghost done = out@.map_values(|x: String| x@);
        match dec.next_frame() {
            Ok(f) => {
                proof {
                    assert(kept_frames(before) == seq![before[0]] + kept_frames(before.skip(1)));
                }
                out.push(f);
                proof {
                    assert(out@.map_values(|x: String| x@) =~= done + seq![before[0]]);
                    assert(done + seq![before[0]] + kept_frames(before.skip(1)) =~= done
                        + kept_frames(before));
                }
            },
            Err(DecodeError::TooLong) => {
                proof {
                    assert(kept_frames(before) == kept_frames(before.skip(1)));
                }
            },
            Err(_) => {
                proof {
                    lemma_wire_frames_of_rest(rold);
                    assert(kept_frames(wire_frames(dec.rem())) =~= Seq::<Seq<char>>::empty());
                    assert(out@.map_values(|x: String| x@) =~= kept_frames(wire_frames(input@)));
                }
                return out;
            },
        }
    }
}

} // verus!
