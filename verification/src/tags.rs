//! The tag indexer.
//!
//! A message may begin with a tags fragment of the form `@k1=v1;k2=v2`.
//! [`TagIndices::build_indices`] parses such a fragment into `(key, value)`
//! index pairs over the backing string, without copying it. Duplicate keys
//! are tolerated and lookup returns the first match; empty values are legal;
//! empty keys are not and are dropped.
//!
//! The parse is specified by [`tag_pairs`]: the fragment after `@` splits on
//! `;` into segments; within a segment the key is everything before the
//! first `=` and the value everything after the last `=` (so neither ever
//! carries a `;` or `=`). [`lemma_tag_parse_idempotent`] states the law that
//! rendering the parsed pairs and parsing again changes nothing.

use vstd::prelude::*;
use vstd::string::StrSliceExecFns;
use vstd::string::StringExecFns;
use crate::strindex::StrIndex;
use crate::util::{
    find_from, rfind, split_char, join_char, char_free,
    lemma_find_from, lemma_find_from_unique, lemma_find_from_skip,
    lemma_rfind, lemma_rfind_unique, lemma_split_join,
    find_char, rfind_char_in, str_eq, substr_string,
};

verus! {

/// The key of a segment: everything before the first `=`, or the whole
/// segment when it has no `=`.
pub open spec fn seg_key(seg: Seq<char>) -> Seq<char> {
    seg.take(find_from(seg, '=', 0))
}

/// The value of a segment: everything after the last `=`, or empty when the
/// segment has no `=`.
pub open spec fn seg_val(seg: Seq<char>) -> Seq<char> {
    if rfind(seg, '=') >= 0 {
        seg.skip(rfind(seg, '=') + 1)
    } else {
        Seq::empty()
    }
}

/// The `(key, value)` pairs of the given segments, dropping those whose key
/// is empty.
pub open spec fn pairs_of_segs(segs: Seq<Seq<char>>) -> Seq<(Seq<char>, Seq<char>)>
    decreases segs.len(),
{
    if segs.len() == 0 {
        Seq::empty()
    } else {
        let head = if seg_key(segs[0]).len() > 0 {
            seq![(seg_key(segs[0]), seg_val(segs[0]))]
        } else {
            Seq::<(Seq<char>, Seq<char>)>::empty()
        };
        head + pairs_of_segs(segs.skip(1))
    }
}

/// What parsing a tags fragment yields: nothing unless it begins with `@`,
/// else the pairs of the `;`-separated segments after the `@`.
pub open spec fn tag_pairs(s: Seq<char>) -> Seq<(Seq<char>, Seq<char>)> {
    if s.len() > 0 && s[0] == '@' {
        pairs_of_segs(split_char(s.skip(1), ';'))
    } else {
        Seq::empty()
    }
}

/// The first value paired with `key`, if any.
pub open spec fn lookup_pairs(ps: Seq<(Seq<char>, Seq<char>)>, key: Seq<char>) -> Option<
    Seq<char>,
>
    decreases ps.len(),
{
    if ps.len() == 0 {
        None
    } else if ps[0].0 == key {
        Some(ps[0].1)
    } else {
        lookup_pairs(ps.skip(1), key)
    }
}

/// A pair a parse can produce: the key is non-empty, and neither side
/// carries a separator.
pub open spec fn wf_pair(p: (Seq<char>, Seq<char>)) -> bool {
    &&& p.0.len() > 0
    &&& char_free(p.0, ';')
    &&& char_free(p.0, '=')
    &&& char_free(p.1, ';')
    &&& char_free(p.1, '=')
}

/// Every pair is one a parse can produce.
pub open spec fn wf_pairs(ps: Seq<(Seq<char>, Seq<char>)>) -> bool {
    forall|i: int| 0 <= i < ps.len() ==> wf_pair(#[trigger] ps[i])
}

/// One segment of the rendering: `key=value`.
pub open spec fn render_seg(p: (Seq<char>, Seq<char>)) -> Seq<char> {
    p.0 + seq!['='] + p.1
}

/// The segments of the rendering of the given pairs.
pub open spec fn render_segs(ps: Seq<(Seq<char>, Seq<char>)>) -> Seq<Seq<char>>
    decreases ps.len(),
{
    if ps.len() == 0 {
        Seq::empty()
    } else {
        seq![render_seg(ps[0])] + render_segs(ps.skip(1))
    }
}

/// The wire form of the given pairs: `@k1=v1;k2=v2`, or nothing when there
/// are no pairs.
pub open spec fn render_pairs(ps: Seq<(Seq<char>, Seq<char>)>) -> Seq<char> {
    if ps.len() == 0 {
        Seq::empty()
    } else {
        seq!['@'] + join_char(render_segs(ps), ';')
    }
}

/// The pairs extracted by the given index ranges out of `s`.
pub open spec fn pairs_view(m: Seq<(StrIndex, StrIndex)>, s: Seq<char>) -> Seq<
    (Seq<char>, Seq<char>),
> {
    m.map_values(|p: (StrIndex, StrIndex)| (p.0.extract(s), p.1.extract(s)))
}

/// Pre-computed tag indices: the `(key, value)` index pairs of one tags
/// fragment, over the backing string they were built against.
#[derive(Clone, Debug, PartialEq)]
pub struct TagIndices {
    map: Vec<(StrIndex, StrIndex)>,
}

impl Default for TagIndices {
    /// No tags.
    fn default() -> (r: Self)
        ensures
            r.ranges().len() == 0,
    {
        TagIndices { map: Vec::new() }
    }
}

impl TagIndices {
    /// The raw index ranges.
    pub closed spec fn ranges(self) -> Seq<(StrIndex, StrIndex)> {
        self.map@
    }

    /// All ranges lie within a backing string of `n` characters.
    pub closed spec fn wf(self, n: nat) -> bool {
        forall|i: int|
            0 <= i < self.map@.len() ==> (#[trigger] self.map@[i]).0.in_bounds(n)
                && self.map@[i].1.in_bounds(n)
    }

    /// The `(key, value)` pairs the ranges select out of `s`.
    pub closed spec fn pairs(self, s: Seq<char>) -> Seq<(Seq<char>, Seq<char>)> {
        pairs_view(self.map@, s)
    }

    /// Build indices from this tags fragment.
    ///
    /// The fragment should be in the form of `@k1=v1;k2=v2`; anything that
    /// does not start with `@` yields no tags.
    pub fn build_indices(input: &str) -> (r: Self)
        requires
            input@.len() < usize::MAX,
        ensures
            r.wf(input@.len()),
            r.pairs(input@) == tag_pairs(input@),
    {
        let n = input.unicode_len();
        if n == 0 || input.get_char(0) != '@' {
            let r = TagIndices { map: Vec::new() };
            proof {
                assert(r.pairs(input@) =~= tag_pairs(input@));
            }
            return r;
        }
        let ghost t = input@.skip(1);
        let mut map: Vec<(StrIndex, StrIndex)> = Vec::new();
        let mut j: usize = 1;
        proof {
            assert(t.skip(0) =~= t);
            assert(pairs_view(map@, input@) =~= Seq::<(Seq<char>, Seq<char>)>::empty());
        }
        while j <= n
            invariant
                1 <= j <= n + 1,
                n == input@.len(),
                n < usize::MAX,
                n >= 1,
                input@[0] == '@',
                t == input@.skip(1),
                forall|i: int|
                    0 <= i < map@.len() ==> (#[trigger] map@[i]).0.in_bounds(n as nat)
                        && map@[i].1.in_bounds(n as nat),
                tag_pairs(input@) == pairs_view(map@, input@) + (if j <= n {
                    pairs_of_segs(split_char(t.skip(j - 1), ';'))
                } else {
                    Seq::<(Seq<char>, Seq<char>)>::empty()
                }),
            decreases n + 1 - j,
        {
            let k = find_char(input, ';', j);
            let ghost seg = input@.subrange(j as int, k as int);
            let ghost u = t.skip(j - 1);
            proof {
                // The segment at hand is the head of the remaining split.
                if k < n {
                    lemma_find_from_unique(t, ';', j - 1, k - 1);
                } else {
                    lemma_find_from_unique(t, ';', j - 1, n - 1);
                }
                lemma_find_from_skip(t, ';', j - 1, j - 1);
                if k < n {
                    assert(find_from(u, ';', 0) == k - j);
                    assert(u.take(k - j) =~= seg);
                    assert(u.skip(k - j + 1) =~= t.skip(k as int));
                    assert(split_char(u, ';') == seq![seg] + split_char(t.skip(k as int), ';'));
                } else {
                    assert(find_from(u, ';', 0) == u.len());
                    assert(u =~= seg);
                    assert(split_char(u, ';') == seq![seg]);
                    assert(seq![seg] =~= seq![seg] + Seq::<Seq<char>>::empty());
                    assert(split_char(u, ';') == seq![seg] + Seq::<Seq<char>>::empty());
                }
            }
            let ghost rest_segs: Seq<Seq<char>> = if k < n {
                split_char(t.skip(k as int), ';')
            } else {
                Seq::empty()
            };
            proof {
                assert(split_char(u, ';') == seq![seg] + rest_segs);
                assert((seq![seg] + rest_segs)[0] == seg);
                assert((seq![seg] + rest_segs).skip(1) =~= rest_segs);
                assert(pairs_of_segs(split_char(u, ';')) == (if seg_key(seg).len() > 0 {
                    seq![(seg_key(seg), seg_val(seg))]
                } else {
                    Seq::<(Seq<char>, Seq<char>)>::empty()
                }) + pairs_of_segs(rest_segs));
            }
            // The key ends at the first `=` within the segment, if any.
            let e1 = find_char(input, '=', j);
            let key_end = if e1 < k {
                e1
            } else {
                k
            };
            proof {
                if e1 < k {
                    lemma_find_from_unique(seg, '=', 0, e1 - j);
                    assert(seg.take(e1 - j) =~= input@.subrange(j as int, e1 as int));
                } else {
                    lemma_find_from_unique(seg, '=', 0, seg.len() as int);
                    assert(seg.take(seg.len() as int) =~= seg);
                }
                assert(seg_key(seg) == input@.subrange(j as int, key_end as int));
            }
            // The value starts after the last `=` within the segment, if any.
            let vopt = rfind_char_in(input, '=', j, k);
            proof {
                lemma_rfind(seg, '=');
            }
            let vrange = match vopt {
                Some(p) => StrIndex { start: p + 1, end: k },
                None => StrIndex { start: k, end: k },
            };
            proof {
                match vopt {
                    Some(p) => {
                        assert(rfind(seg, '=') == p - j);
                        assert(seg.skip(p - j + 1) =~= input@.subrange(p + 1, k as int));
                        assert(seg_val(seg) == vrange.extract(input@));
                    },
                    None => {
                        assert(rfind(seg, '=') == -1);
                        assert(seg_val(seg) =~= vrange.extract(input@));
                    },
                }
            }
            let ghost map_before = map@;
            if key_end > j {
                map.push((StrIndex { start: j, end: key_end }, vrange));
                proof {
                    assert(pairs_view(map@, input@) =~= pairs_view(map_before, input@) + seq![
                        (seg_key(seg), seg_val(seg)),
                    ]);
                }
            } else {
                proof {
                    assert(seg_key(seg).len() == 0);
                }
            }
            proof {
                assert(pairs_view(map@, input@) + pairs_of_segs(rest_segs) =~= pairs_view(
                    map_before,
                    input@,
                ) + pairs_of_segs(split_char(u, ';')));
            }
            j = k + 1;
        }
        TagIndices { map }
    }

    /// The number of parsed tags.
    pub fn len(&self) -> (r: usize)
        ensures
            r == self.ranges().len(),
    {
        self.map.len()
    }

    /// Whether no tags were parsed.
    pub fn is_empty(&self) -> (r: bool)
        ensures
            r == (self.ranges().len() == 0),
    {
        self.map.len() == 0
    }

    /// The first value paired with `key`, over the backing string the
    /// indices were built against.
    pub fn get<'t>(&self, key: &str, data: &'t str) -> (r: Option<&'t str>)
        requires
            self.wf(data@.len()),
        ensures
            match r {
                Some(v) => lookup_pairs(self.pairs(data@), key@) == Some(v@),
                None => lookup_pairs(self.pairs(data@), key@) is None,
            },
    {
        let ghost ps = self.pairs(data@);
        let mut i: usize = 0;
        proof {
            assert(ps.skip(0) =~= ps);
        }
        while i < self.map.len()
            invariant
                self.wf(data@.len()),
                ps == self.pairs(data@),
                0 <= i <= self.map@.len(),
                lookup_pairs(ps, key@) == lookup_pairs(ps.skip(i as int), key@),
            decreases self.map@.len() - i,
        {
            let (k, v) = self.map[i];
            let ks = data.substring_char(k.start, k.end);
            proof {
                assert(ps.skip(i as int)[0] == ps[i as int]);
                assert(ps.skip(i as int).skip(1) =~= ps.skip(i as int + 1));
            }
            if str_eq(ks, key) {
                let vs = data.substring_char(v.start, v.end);
                return Some(vs);
            }
            i = i + 1;
        }
        proof {
            assert(ps.skip(i as int) =~= Seq::<(Seq<char>, Seq<char>)>::empty());
        }
        None
    }

    /// All `(key, value)` pairs as owned strings, in parse order, over the
    /// backing string the indices were built against.
    pub fn iter(&self, data: &str) -> (r: Vec<(String, String)>)
        requires
            self.wf(data@.len()),
        ensures
            r@.len() == self.pairs(data@).len(),
            forall|i: int|
                0 <= i < r@.len() ==> ((#[trigger] r@[i]).0@, r@[i].1@) == self.pairs(data@)[i],
    {
        let ghost ps = self.pairs(data@);
        let mut out: Vec<(String, String)> = Vec::new();
        let mut i: usize = 0;
        while i < self.map.len()
            invariant
                self.wf(data@.len()),
                ps == self.pairs(data@),
                0 <= i <= self.map@.len(),
                out@.len() == i,
                forall|x: int| 0 <= x < i ==> ((#[trigger] out@[x]).0@, out@[x].1@) == ps[x],
            decreases self.map@.len() - i,
        {
            let (k, v) = self.map[i];
            let ks = substr_string(data, k.start, k.end);
            let vs = substr_string(data, v.start, v.end);
            out.push((ks, vs));
            i = i + 1;
        }
        out
    }

    /// Render the parsed tags back to their wire form, `@k1=v1;k2=v2`, over
    /// the backing string the indices were built against. No tags render as
    /// the empty string.
    pub fn render(&self, data: &str) -> (r: String)
        requires
            self.wf(data@.len()),
        ensures
            r@ == render_pairs(self.pairs(data@)),
    {
        let ghost ps = self.pairs(data@);
        let mut out = String::new();
        if self.map.len() == 0 {
            return out;
        }
        out.append("@");
        let mut i: usize = 0;
        proof {
            reveal_strlit("@");
            reveal_strlit("=");
            reveal_strlit(";");
            assert(out@ =~= seq!['@']);
        }
        while i < self.map.len()
            invariant
                self.wf(data@.len()),
                ps == self.pairs(data@),
                0 < self.map@.len(),
                0 <= i <= self.map@.len(),
                "="@ == seq!['='],
                ";"@ == seq![';'],
                i == 0 ==> out@ == seq!['@'],
                i > 0 ==> out@ == seq!['@'] + join_char(render_segs(ps.take(i as int)), ';'),
            decreases self.map@.len() - i,
        {
            if i > 0 {
                out.append(";");
            }
            let (k, v) = self.map[i];
            let ks = data.substring_char(k.start, k.end);
            out.append(ks);
            out.append("=");
            let vs = data.substring_char(v.start, v.end);
            out.append(vs);
            proof {
                lemma_render_take_one_more(ps, i as int);
                if i == 0 {
                    assert(render_segs(ps.take(1)) =~= seq![render_seg(ps[0])]);
                    assert(out@ =~= seq!['@'] + join_char(render_segs(ps.take(1)), ';'));
                } else {
                    lemma_join_char_push(render_segs(ps.take(i as int)), render_seg(ps[i as int]), ';');
                    assert(out@ =~= seq!['@'] + join_char(render_segs(ps.take(i as int + 1)), ';'));
                }
            }
            i = i + 1;
        }
        proof {
            assert(ps.take(i as int) =~= ps);
        }
        out
    }
}

/// Rendering one more pair appends one more segment.
proof fn lemma_render_take_one_more(ps: Seq<(Seq<char>, Seq<char>)>, i: int)
    requires
        0 <= i < ps.len(),
    ensures
        render_segs(ps.take(i + 1)) == render_segs(ps.take(i)).push(render_seg(ps[i])),
    decreases i,
{
    if i == 0 {
        let e = Seq::<(Seq<char>, Seq<char>)>::empty();
        assert(ps.take(1).skip(1) =~= e);
        assert(ps.take(0) =~= e);
        assert(render_segs(e) =~= Seq::<Seq<char>>::empty());
        assert(ps.take(1)[0] == ps[0]);
        assert(render_segs(ps.take(1)) == seq![render_seg(ps[0])] + render_segs(e));
        assert(render_segs(ps.take(1)) =~= render_segs(ps.take(0)).push(render_seg(ps[0])));
    } else {
        lemma_render_take_one_more(ps.skip(1), i - 1);
        assert(ps.take(i + 1)[0] == ps[0]);
        assert(ps.take(i + 1).skip(1) =~= ps.skip(1).take(i));
        assert(ps.take(i)[0] == ps[0]);
        assert(ps.take(i).skip(1) =~= ps.skip(1).take(i - 1));
        assert(ps.skip(1)[i - 1] == ps[i]);
        assert(render_segs(ps.take(i + 1)) =~= render_segs(ps.take(i)).push(render_seg(ps[i])));
    }
}

/// Joining one more segment appends a separator and the segment.
proof fn lemma_join_char_push(segs: Seq<Seq<char>>, x: Seq<char>, c: char)
    requires
        segs.len() >= 1,
    ensures
        join_char(segs.push(x), c) == join_char(segs, c) + seq![c] + x,
    decreases segs.len(),
{
    if segs.len() == 1 {
        assert(segs.push(x)[0] == segs[0]);
        assert(segs.push(x).skip(1) =~= seq![x]);
        assert(join_char(seq![x], c) == x);
        assert(join_char(segs.push(x), c) == segs[0] + seq![c] + join_char(segs.push(x).skip(1), c));
        assert(join_char(segs.push(x), c) =~= join_char(segs, c) + seq![c] + x);
    } else {
        lemma_join_char_push(segs.skip(1), x, c);
        assert(segs.push(x)[0] == segs[0]);
        assert(segs.push(x).skip(1) =~= segs.skip(1).push(x));
        assert(join_char(segs.push(x), c) =~= join_char(segs, c) + seq![c] + x);
    }
}

/// Every segment a split yields is free of the separator.
proof fn lemma_split_char_free(s: Seq<char>, c: char)
    ensures
        forall|k: int|
            0 <= k < split_char(s, c).len() ==> char_free(#[trigger] split_char(s, c)[k], c),
    decreases s.len(),
{
    lemma_find_from(s, c, 0);
    let i = find_from(s, c, 0);
    if 0 <= i && i < s.len() {
        lemma_split_char_free(s.skip(i + 1), c);
        assert forall|k: int|
            0 <= k < split_char(s, c).len() implies char_free(
            #[trigger] split_char(s, c)[k],
            c,
        ) by {
            if k == 0 {
                assert(split_char(s, c)[0] == s.take(i));
            } else {
                assert(split_char(s, c)[k] == split_char(s.skip(i + 1), c)[k - 1]);
            }
        }
    }
}

/// Every pair parsed out of separator-free segments is well formed.
proof fn lemma_pairs_of_segs_wf(segs: Seq<Seq<char>>)
    requires
        forall|k: int| 0 <= k < segs.len() ==> char_free(#[trigger] segs[k], ';'),
    ensures
        wf_pairs(pairs_of_segs(segs)),
    decreases segs.len(),
{
    if segs.len() > 0 {
        let seg = segs[0];
        lemma_find_from(seg, '=', 0);
        lemma_rfind(seg, '=');
        let key = seg_key(seg);
        let val = seg_val(seg);
        assert(char_free(key, '=') && char_free(key, ';')) by {
            assert(forall|j: int| 0 <= j < key.len() ==> key[j] == seg[j]);
        }
        assert(char_free(val, '=') && char_free(val, ';')) by {
            if rfind(seg, '=') >= 0 {
                let r = rfind(seg, '=');
                assert(forall|j: int| 0 <= j < val.len() ==> val[j] == seg[r + 1 + j]);
            }
        }
        lemma_pairs_of_segs_wf(segs.skip(1));
        let head: Seq<(Seq<char>, Seq<char>)> = if key.len() > 0 {
            seq![(key, val)]
        } else {
            Seq::empty()
        };
        assert forall|i: int|
            0 <= i < pairs_of_segs(segs).len() implies wf_pair(#[trigger] pairs_of_segs(segs)[i]) by {
            if i < head.len() {
                assert(pairs_of_segs(segs)[i] == (key, val));
            } else {
                assert(pairs_of_segs(segs)[i] == pairs_of_segs(segs.skip(1))[i - head.len()]);
            }
        }
    }
}

/// Every pair a parse yields is well formed.
pub proof fn lemma_tag_pairs_wf(s: Seq<char>)
    ensures
        wf_pairs(tag_pairs(s)),
{
    if s.len() > 0 && s[0] == '@' {
        lemma_split_char_free(s.skip(1), ';');
        lemma_pairs_of_segs_wf(split_char(s.skip(1), ';'));
    }
}

/// Parsing the rendering of well-formed pairs yields the pairs again.
proof fn lemma_parse_render(ps: Seq<(Seq<char>, Seq<char>)>)
    requires
        wf_pairs(ps),
    ensures
        tag_pairs(render_pairs(ps)) == ps,
{
    if ps.len() == 0 {
        assert(tag_pairs(render_pairs(ps)) =~= ps);
    } else {
        let segs = render_segs(ps);
        lemma_render_segs_wf(ps);
        let r = render_pairs(ps);
        assert(r[0] == '@');
        assert(r.skip(1) =~= join_char(segs, ';'));
        lemma_split_join(segs, ';');
        lemma_pairs_of_render_segs(ps);
    }
}

/// The rendered segments: one per pair, each free of the separator.
proof fn lemma_render_segs_wf(ps: Seq<(Seq<char>, Seq<char>)>)
    requires
        wf_pairs(ps),
    ensures
        render_segs(ps).len() == ps.len(),
        forall|k: int|
            0 <= k < render_segs(ps).len() ==> char_free(#[trigger] render_segs(ps)[k], ';'),
    decreases ps.len(),
{
    if ps.len() > 0 {
        lemma_render_segs_wf(ps.skip(1));
        let segs = render_segs(ps);
        assert forall|k: int| 0 <= k < segs.len() implies char_free(#[trigger] segs[k], ';') by {
            if k == 0 {
                assert(segs[0] == render_seg(ps[0]));
                assert(wf_pair(ps[0]));
                assert(char_free(render_seg(ps[0]), ';')) by {
                    let p = ps[0];
                    assert(forall|j: int|
                        0 <= j < render_seg(p).len() ==> render_seg(p)[j] == (if j < p.0.len() {
                            p.0[j]
                        } else if j == p.0.len() {
                            '='
                        } else {
                            p.1[j - p.0.len() - 1]
                        }));
                }
            } else {
                assert(segs[k] == render_segs(ps.skip(1))[k - 1]);
            }
        }
    }
}

/// Parsing the rendered segments of well-formed pairs yields the pairs.
proof fn lemma_pairs_of_render_segs(ps: Seq<(Seq<char>, Seq<char>)>)
    requires
        wf_pairs(ps),
    ensures
        pairs_of_segs(render_segs(ps)) == ps,
    decreases ps.len(),
{
    if ps.len() == 0 {
        assert(pairs_of_segs(render_segs(ps)) =~= ps);
    } else {
        let p = ps[0];
        let seg = render_seg(p);
        assert(forall|j: int|
            0 <= j < seg.len() ==> seg[j] == (if j < p.0.len() {
                p.0[j]
            } else if j == p.0.len() {
                '='
            } else {
                p.1[j - p.0.len() - 1]
            }));
        lemma_find_from_unique(seg, '=', 0, p.0.len() as int);
        lemma_rfind_unique(seg, '=', p.0.len() as int);
        assert(seg_key(seg) =~= p.0);
        assert(seg_val(seg) =~= p.1);
        lemma_pairs_of_render_segs(ps.skip(1));
        assert(render_segs(ps)[0] == seg);
        assert(render_segs(ps).skip(1) =~= render_segs(ps.skip(1)));
        assert(pairs_of_segs(render_segs(ps)) =~= ps);
    }
}

/// Law: tag parsing is idempotent through rendering. Rendering whatever a
/// parse yielded and parsing the rendering yields the same pairs again.
pub proof fn lemma_tag_parse_idempotent(s: Seq<char>)
    ensures
        tag_pairs(render_pairs(tag_pairs(s))) == tag_pairs(s),
{
    lemma_tag_pairs_wf(s);
    lemma_parse_render(tag_pairs(s));
}

} // verus!
