//! Character-level string helpers.
//!
//! The protocol is a text protocol: every parser in the crate is specified
//! over `Seq<char>` views. This module holds the few spec functions those
//! specifications are written with (first and last occurrence of a
//! character, splitting and joining on a separator) and the verified
//! executable helpers that compute them.

use vstd::prelude::*;
use vstd::string::StrSliceExecFns;

verus! {

/// First position `i` in `[from, s.len())` with `s[i] == c`, or `s.len()`
/// when there is none.
pub open spec fn find_from(s: Seq<char>, c: char, from: int) -> int
    recommends
        0 <= from <= s.len(),
    decreases s.len() - from,
{
    if from < 0 || from >= s.len() {
        s.len() as int
    } else if s[from] == c {
        from
    } else {
        find_from(s, c, from + 1)
    }
}

/// What `find_from` returns: the first occurrence of `c` at or after `from`.
pub proof fn lemma_find_from(s: Seq<char>, c: char, from: int)
    requires
        0 <= from <= s.len(),
    ensures
        from <= find_from(s, c, from) <= s.len(),
        find_from(s, c, from) < s.len() ==> s[find_from(s, c, from)] == c,
        forall|j: int| from <= j < find_from(s, c, from) ==> s[j] != c,
    decreases s.len() - from,
{
    if from < s.len() && s[from] != c {
        lemma_find_from(s, c, from + 1);
    }
}

/// A position that carries `c` with none before it is what `find_from`
/// returns.
pub proof fn lemma_find_from_unique(s: Seq<char>, c: char, from: int, i: int)
    requires
        0 <= from <= i <= s.len(),
        forall|j: int| from <= j < i ==> s[j] != c,
        i == s.len() || s[i] == c,
    ensures
        find_from(s, c, from) == i,
    decreases i - from,
{
    if from < i {
        lemma_find_from_unique(s, c, from + 1, i);
    }
}

/// Dropping a prefix shifts the first occurrence by the prefix length.
pub proof fn lemma_find_from_skip(s: Seq<char>, c: char, k: int, from: int)
    requires
        0 <= k <= from <= s.len(),
    ensures
        find_from(s.skip(k), c, from - k) == find_from(s, c, from) - k,
    decreases s.len() - from,
{
    if from < s.len() && s[from] != c {
        lemma_find_from_skip(s, c, k, from + 1);
    }
}

/// Last position `i` with `s[i] == c`, or `-1` when there is none.
pub open spec fn rfind(s: Seq<char>, c: char) -> int
    decreases s.len(),
{
    if s.len() == 0 {
        -1
    } else if s[s.len() - 1] == c {
        s.len() - 1
    } else {
        rfind(s.drop_last(), c)
    }
}

/// What `rfind` returns: the last occurrence of `c`, or `-1`.
pub proof fn lemma_rfind(s: Seq<char>, c: char)
    ensures
        -1 <= rfind(s, c) < s.len(),
        rfind(s, c) >= 0 ==> s[rfind(s, c)] == c,
        forall|j: int| rfind(s, c) < j < s.len() ==> s[j] != c,
    decreases s.len(),
{
    if s.len() > 0 && s[s.len() - 1] != c {
        lemma_rfind(s.drop_last(), c);
        assert(forall|j: int| 0 <= j < s.len() - 1 ==> s.drop_last()[j] == s[j]);
    }
}

/// A position that carries `c` with none after it is what `rfind` returns.
pub proof fn lemma_rfind_unique(s: Seq<char>, c: char, i: int)
    requires
        -1 <= i < s.len(),
        i >= 0 ==> s[i] == c,
        forall|j: int| i < j < s.len() ==> s[j] != c,
    ensures
        rfind(s, c) == i,
    decreases s.len(),
{
    if s.len() > 0 && i < s.len() - 1 {
        lemma_rfind_unique(s.drop_last(), c, i);
    }
}

/// No character of `s` is `c`.
pub open spec fn char_free(s: Seq<char>, c: char) -> bool {
    forall|j: int| 0 <= j < s.len() ==> s[j] != c
}

/// The segments of `s` between occurrences of the separator `c`.
///
/// The empty string yields one empty segment; `n` separators yield `n + 1`
/// segments.
pub open spec fn split_char(s: Seq<char>, c: char) -> Seq<Seq<char>>
    decreases s.len(),
{
    let i = find_from(s, c, 0);
    if 0 <= i && i < s.len() {
        seq![s.take(i)] + split_char(s.skip(i + 1), c)
    } else {
        seq![s]
    }
}

/// The segments joined back with the separator `c` between them.
pub open spec fn join_char(segs: Seq<Seq<char>>, c: char) -> Seq<char>
    decreases segs.len(),
{
    if segs.len() == 0 {
        Seq::empty()
    } else if segs.len() == 1 {
        segs[0]
    } else {
        segs[0] + seq![c] + join_char(segs.skip(1), c)
    }
}

/// Splitting undoes joining, as long as no segment carries the separator.
pub proof fn lemma_split_join(segs: Seq<Seq<char>>, c: char)
    requires
        segs.len() >= 1,
        forall|k: int| 0 <= k < segs.len() ==> char_free(#[trigger] segs[k], c),
    ensures
        split_char(join_char(segs, c), c) == segs,
    decreases segs.len(),
{
    let s = join_char(segs, c);
    if segs.len() == 1 {
        lemma_find_from_unique(s, c, 0, s.len() as int);
        assert(split_char(s, c) =~= segs);
    } else {
        let head = segs[0];
        let rest = join_char(segs.skip(1), c);
        assert(s == head + seq![c] + rest);
        assert(s[head.len() as int] == c);
        assert(forall|j: int| 0 <= j < head.len() ==> s[j] == head[j] && s[j] != c);
        lemma_find_from_unique(s, c, 0, head.len() as int);
        lemma_split_join(segs.skip(1), c);
        assert(s.take(head.len() as int) =~= head);
        assert(s.skip(head.len() as int + 1) =~= rest);
        assert(split_char(s, c) =~= seq![head] + split_char(rest, c));
        assert(seq![head] + segs.skip(1) =~= segs);
    }
}

/// First position at or after `from` whose character is `c`, or the length
/// of `s` when there is none.
pub fn find_char(s: &str, c: char, from: usize) -> (r: usize)
    requires
        from <= s@.len(),
    ensures
        r == find_from(s@, c, from as int),
        from <= r <= s@.len(),
        r < s@.len() ==> s@[r as int] == c,
        forall|j: int| from <= j < r ==> s@[j] != c,
{
    let n = s.unicode_len();
    let mut i = from;
    while i < n
        invariant
            from <= i <= n,
            n == s@.len(),
            forall|j: int| from <= j < i ==> s@[j] != c,
        decreases n - i,
    {
        if s.get_char(i) == c {
            proof {
                lemma_find_from_unique(s@, c, from as int, i as int);
            }
            return i;
        }
        i = i + 1;
    }
    proof {
        lemma_find_from_unique(s@, c, from as int, n as int);
    }
    n
}

/// Last position in `[from, to)` whose character is `c`, or `None`.
pub fn rfind_char_in(s: &str, c: char, from: usize, to: usize) -> (r: Option<usize>)
    requires
        from <= to <= s@.len(),
    ensures
        r == (if rfind(s@.subrange(from as int, to as int), c) >= 0 {
            Some((from + rfind(s@.subrange(from as int, to as int), c)) as usize)
        } else {
            None::<usize>
        }),
{
    let ghost seg = s@.subrange(from as int, to as int);
    let mut i = to;
    while i > from
        invariant
            from <= i <= to <= s@.len(),
            seg == s@.subrange(from as int, to as int),
            forall|j: int| i - from <= j < seg.len() ==> seg[j] != c,
        decreases i,
    {
        i = i - 1;
        if s.get_char(i) == c {
            proof {
                assert(seg[i - from] == c);
                lemma_rfind_unique(seg, c, i - from);
            }
            return Some(i);
        }
    }
    proof {
        lemma_rfind_unique(seg, c, -1);
    }
    None
}

/// Whether the two strings hold the same characters.
pub fn str_eq(a: &str, b: &str) -> (r: bool)
    ensures
        r == (a@ == b@),
{
    let na = a.unicode_len();
    let nb = b.unicode_len();
    if na != nb {
        return false;
    }
    let mut i: usize = 0;
    while i < na
        invariant
            0 <= i <= na,
            na == a@.len(),
            na == b@.len(),
            forall|j: int| 0 <= j < i ==> a@[j] == b@[j],
        decreases na - i,
    {
        let ca = a.get_char(i);
        let cb = b.get_char(i);
        if ca != cb {
            return false;
        }
        i = i + 1;
    }
    proof {
        assert(a@ =~= b@);
    }
    true
}

/// The head of a split: the separator-free run from `j` up to the first
/// separator at or after it.
pub proof fn lemma_split_char_unfold(s: Seq<char>, c: char, j: int, k: int)
    requires
        0 <= j <= k <= s.len(),
        forall|x: int| j <= x < k ==> s[x] != c,
        k < s.len() ==> s[k] == c,
    ensures
        k < s.len() ==> split_char(s.skip(j), c) == seq![s.subrange(j, k)] + split_char(
            s.skip(k + 1),
            c,
        ),
        k == s.len() ==> split_char(s.skip(j), c) == seq![s.subrange(j, k)],
{
    let u = s.skip(j);
    assert(forall|x: int| 0 <= x < u.len() ==> u[x] == s[x + j]);
    lemma_find_from_unique(u, c, 0, k - j);
    if k < s.len() {
        assert(u.take(k - j) =~= s.subrange(j, k));
        assert(u.skip(k - j + 1) =~= s.skip(k + 1));
    } else {
        assert(u =~= s.subrange(j, k));
        assert(split_char(u, c) == seq![u]);
    }
}

/// Split `s` into its segments between occurrences of `c`.
pub fn split_string(s: &str, c: char) -> (r: Vec<String>)
    requires
        s@.len() < usize::MAX,
    ensures
        r@.len() == split_char(s@, c).len(),
        forall|i: int| 0 <= i < r@.len() ==> (#[trigger] r@[i])@ == split_char(s@, c)[i],
{
    let n = s.unicode_len();
    let mut out: Vec<String> = Vec::new();
    let mut j: usize = 0;
    proof {
        assert(s@.skip(0) =~= s@);
        assert(out@.map_values(|x: String| x@) =~= Seq::<Seq<char>>::empty());
    }
    while j <= n
        invariant
            0 <= j <= n + 1,
            n == s@.len(),
            n < usize::MAX,
            split_char(s@, c) == out@.map_values(|x: String| x@) + (if j <= n {
                split_char(s@.skip(j as int), c)
            } else {
                Seq::<Seq<char>>::empty()
            }),
        decreases n + 1 - j,
    {
        let k = find_char(s, c, j);
        let ghost done = out@.map_values(|x: String| x@);
        proof {
            lemma_split_char_unfold(s@, c, j as int, k as int);
        }
        let piece = substr_string(s, j, k);
        out.push(piece);
        proof {
            assert(out@.map_values(|x: String| x@) =~= done + seq![
                s@.subrange(j as int, k as int),
            ]);
            if k < n {
                assert(done + (seq![s@.subrange(j as int, k as int)] + split_char(
                    s@.skip(k as int + 1),
                    c,
                )) =~= (done + seq![s@.subrange(j as int, k as int)]) + split_char(
                    s@.skip(k as int + 1),
                    c,
                ));
            } else {
                assert(done + seq![s@.subrange(j as int, k as int)] =~= (done + seq![
                    s@.subrange(j as int, k as int),
                ]) + Seq::<Seq<char>>::empty());
            }
        }
        j = k + 1;
    }
    proof {
        assert(split_char(s@, c) == out@.map_values(|x: String| x@));
        assert(forall|i: int|
            0 <= i < out@.len() ==> (#[trigger] out@[i])@ == out@.map_values(|x: String| x@)[i]);
    }
    out
}

/// A decimal digit.
pub open spec fn is_digit(c: char) -> bool {
    48 <= c as u32 <= 57
}

/// Every character of `s` is a decimal digit.
pub open spec fn all_digits(s: Seq<char>) -> bool {
    forall|j: int| 0 <= j < s.len() ==> is_digit(#[trigger] s[j])
}

/// The number the decimal digits of `s` spell.
pub open spec fn digits_val(s: Seq<char>) -> int
    decreases s.len(),
{
    if s.len() == 0 {
        0
    } else {
        digits_val(s.drop_last()) * 10 + (s.last() as u32 - 48)
    }
}

/// The number a digit string spells is never negative.
proof fn lemma_digits_val_nonneg(s: Seq<char>)
    requires
        all_digits(s),
    ensures
        digits_val(s) >= 0,
    decreases s.len(),
{
    if s.len() > 0 {
        assert(all_digits(s.drop_last())) by {
            assert(forall|j: int| 0 <= j < s.len() - 1 ==> s.drop_last()[j] == s[j]);
        }
        lemma_digits_val_nonneg(s.drop_last());
    }
}

/// A prefix of a digit string never spells more than the whole.
proof fn lemma_digits_val_monotone(s: Seq<char>, i: int)
    requires
        all_digits(s),
        0 <= i <= s.len(),
    ensures
        digits_val(s.take(i)) <= digits_val(s),
    decreases s.len() - i,
{
    if i < s.len() {
        lemma_digits_val_monotone(s, i + 1);
        assert(s.take(i + 1).drop_last() =~= s.take(i));
        assert(all_digits(s.take(i))) by {
            assert(forall|j: int| 0 <= j < i ==> s.take(i)[j] == s[j]);
        }
        lemma_digits_val_nonneg(s.take(i));
        assert(digits_val(s.take(i + 1)) == digits_val(s.take(i)) * 10 + (s.take(i + 1).last()
            as u32 - 48));
        assert(digits_val(s.take(i)) * 10 >= digits_val(s.take(i))) by (nonlinear_arith)
            requires
                digits_val(s.take(i)) >= 0,
        ;
        assert(is_digit(s[i]));
        assert(s.take(i + 1).last() == s[i]);
        assert(digits_val(s.take(i)) <= digits_val(s.take(i + 1)));
    } else {
        assert(s.take(i) =~= s);
    }
}

/// Parse a non-empty decimal digit string into a `usize`.
///
/// `None` exactly when the string is empty, holds a non-digit, or spells a
/// number over `usize::MAX`.
pub fn parse_usize(s: &str) -> (r: Option<usize>)
    ensures
        match r {
            Some(v) => s@.len() > 0 && all_digits(s@) && v == digits_val(s@),
            None => s@.len() == 0 || !all_digits(s@) || digits_val(s@) > usize::MAX,
        },
{
    let n = s.unicode_len();
    if n == 0 {
        return None;
    }
    let mut acc: usize = 0;
    let mut i: usize = 0;
    proof {
        assert(s@.take(0) =~= Seq::<char>::empty());
    }
    while i < n
        invariant
            0 <= i <= n,
            n == s@.len(),
            all_digits(s@.take(i as int)),
            acc == digits_val(s@.take(i as int)),
        decreases n - i,
    {
        let c = s.get_char(i);
        let d = c as u32;
        if d < 48 || d > 57 {
            proof {
                assert(!is_digit(s@[i as int]));
            }
            return None;
        }
        let dv = (d - 48) as usize;
        proof {
            assert(s@.take(i as int + 1).drop_last() =~= s@.take(i as int));
            assert(forall|j: int| 0 <= j < i + 1 ==> s@.take(i as int + 1)[j] == s@[j]);
            assert(digits_val(s@.take(i as int + 1)) == acc * 10 + dv);
            vstd::arithmetic::div_mod::lemma_fundamental_div_mod(
                (usize::MAX - dv) as int,
                10int,
            );
        }
        if acc > (usize::MAX - dv) / 10 {
            proof {
                let q = ((usize::MAX - dv) / 10) as int;
                assert(acc * 10 >= (q + 1) * 10) by (nonlinear_arith)
                    requires
                        acc >= q + 1,
                ;
                assert(acc * 10 + dv > usize::MAX);
                if all_digits(s@) {
                    lemma_digits_val_monotone(s@, i as int + 1);
                }
            }
            return None;
        }
        proof {
            let q = ((usize::MAX - dv) / 10) as int;
            assert(acc * 10 <= q * 10) by (nonlinear_arith)
                requires
                    acc <= q,
            ;
        }
        acc = acc * 10 + dv;
        i = i + 1;
    }
    proof {
        assert(s@.take(n as int) =~= s@);
    }
    Some(acc)
}

/// The characters of `s` in `[from, to)`, as an owned string.
pub fn substr_string(s: &str, from: usize, to: usize) -> (r: String)
    requires
        from <= to <= s@.len(),
    ensures
        r@ == s@.subrange(from as int, to as int),
{
    s.substring_char(from, to).to_owned()
}

} // verus!
