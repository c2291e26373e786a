//! Character-level utilities shared by the extraction and path logic:
//! conversions between `&str`/`String` and `Vec<char>`, searches for a
//! single character, and literal substring replacement.

use vstd::prelude::*;
use vstd::string::StrSliceExecFns;

verus! {

/// Index of the last occurrence of `c` in `s`, if any.
pub open spec fn find_last(s: Seq<char>, c: char) -> Option<int>
    decreases s.len(),
{
    if s.len() == 0 {
        None
    } else if s[s.len() - 1] == c {
        Some(s.len() - 1)
    } else {
        find_last(s.drop_last(), c)
    }
}

/// Index of the first occurrence of `c` in `s`, if any.
pub open spec fn find_first(s: Seq<char>, c: char) -> Option<int>
    decreases s.len(),
{
    if s.len() == 0 {
        None
    } else if s[0] == c {
        Some(0int)
    } else {
        match find_first(s.skip(1), c) {
            Some(i) => Some(i + 1),
            None => None,
        }
    }
}

pub proof fn lemma_find_last_at(s: Seq<char>, c: char, i: int)
    requires
        0 <= i < s.len(),
        s[i] == c,
        forall|j: int| i < j < s.len() ==> s[j] != c,
    ensures
        find_last(s, c) == Some(i),
    decreases s.len(),
{
    if s.len() - 1 == i {
    } else {
        assert(s.drop_last() =~= s.take(s.len() - 1));
        lemma_find_last_at(s.drop_last(), c, i);
    }
}

pub proof fn lemma_find_last_none(s: Seq<char>, c: char)
    requires
        forall|j: int| 0 <= j < s.len() ==> s[j] != c,
    ensures
        find_last(s, c) is None,
    decreases s.len(),
{
    if s.len() > 0 {
        lemma_find_last_none(s.drop_last(), c);
    }
}

pub proof fn lemma_find_first_at(s: Seq<char>, c: char, i: int)
    requires
        0 <= i < s.len(),
        s[i] == c,
        forall|j: int| 0 <= j < i ==> s[j] != c,
    ensures
        find_first(s, c) == Some(i),
    decreases i,
{
    if i > 0 {
        lemma_find_first_at(s.skip(1), c, i - 1);
    }
}

pub proof fn lemma_find_first_none(s: Seq<char>, c: char)
    requires
        forall|j: int| 0 <= j < s.len() ==> s[j] != c,
    ensures
        find_first(s, c) is None,
    decreases s.len(),
{
    if s.len() > 0 {
        lemma_find_first_none(s.skip(1), c);
    }
}

/// The characters of `s`, in order, as a vector.
pub fn str_chars(s: &str) -> (r: Vec<char>)
    ensures
        r@ == s@,
{
    let n = s.unicode_len();
    let mut r: Vec<char> = Vec::new();
    let mut i: usize = 0;
    while i < n
        invariant
            i <= n,
            n == s@.len(),
            r@ == s@.take(i as int),
        decreases n - i,
    {
        let c = s.get_char(i);
        r.push(c);
        proof {
            assert(s@.take(i + 1) =~= s@.take(i as int).push(s@[i as int]));
        }
        i += 1;
    }
    proof {
        assert(s@.take(n as int) =~= s@);
    }
    r
}

/// Relies on `String::push`: appends one character to the string.
pub assume_specification[ String::push ](s: &mut String, ch: char)
    ensures
        final(s)@ == old(s)@.push(ch),
;

/// A string holding exactly the characters of `v`, in order.
pub fn chars_string(v: &Vec<char>) -> (r: String)
    ensures
        r@ == v@,
{
    let mut r = String::new();
    let mut i: usize = 0;
    while i < v.len()
        invariant
            i <= v@.len(),
            r@ == v@.take(i as int),
        decreases v@.len() - i,
    {
        r.push(v[i]);
        proof {
            assert(v@.take(i + 1) =~= v@.take(i as int).push(v@[i as int]));
        }
        i += 1;
    }
    proof {
        assert(v@.take(v@.len() as int) =~= v@);
    }
    r
}

/// Index of the last occurrence of `c` in `v`, if any.
pub fn find_last_char(v: &Vec<char>, c: char) -> (r: Option<usize>)
    ensures
        match r {
            Some(i) => find_last(v@, c) == Some(i as int) && i < v@.len() && v@[i as int] == c,
            None => find_last(v@, c) is None,
        },
{
    let mut i: usize = v.len();
    while i > 0
        invariant
            i <= v@.len(),
            forall|j: int| i <= j < v@.len() ==> v@[j] != c,
        decreases i,
    {
        i -= 1;
        if v[i] == c {
            proof {
                lemma_find_last_at(v@, c, i as int);
            }
            return Some(i);
        }
    }
    proof {
        lemma_find_last_none(v@, c);
    }
    None
}

/// Index of the first occurrence of `c` in `v`, if any.
pub fn find_first_char(v: &Vec<char>, c: char) -> (r: Option<usize>)
    ensures
        match r {
            Some(i) => find_first(v@, c) == Some(i as int) && i < v@.len() && v@[i as int] == c,
            None => find_first(v@, c) is None,
        },
{
    let mut i: usize = 0;
    while i < v.len()
        invariant
            i <= v@.len(),
            forall|j: int| 0 <= j < i ==> v@[j] != c,
        decreases v@.len() - i,
    {
        if v[i] == c {
            proof {
                lemma_find_first_at(v@, c, i as int);
            }
            return Some(i);
        }
        i += 1;
    }
    proof {
        lemma_find_first_none(v@, c);
    }
    None
}

/// Appends `src[from..to]` to `out`.
pub fn push_range(out: &mut Vec<char>, src: &Vec<char>, from: usize, to: usize)
    requires
        from <= to <= src@.len(),
    ensures
        final(out)@ == old(out)@ + src@.subrange(from as int, to as int),
{
    proof {
        assert(old(out)@ + src@.subrange(from as int, from as int) =~= old(out)@);
    }
    let mut k: usize = from;
    while k < to
        invariant
            from <= k <= to <= src@.len(),
            out@ == old(out)@ + src@.subrange(from as int, k as int),
        decreases to - k,
    {
        out.push(src[k]);
        proof {
            assert(src@.subrange(from as int, k + 1) =~= src@.subrange(
                from as int,
                k as int,
            ).push(src@[k as int]));
        }
        k += 1;
    }
}

/// Character-wise equality of two strings.
pub fn str_eq(a: &str, b: &str) -> (r: bool)
    ensures
        r == (a@ == b@),
{
    let av = str_chars(a);
    let bv = str_chars(b);
    if av.len() != bv.len() {
        return false;
    }
    let mut i: usize = 0;
    while i < av.len()
        invariant
            i <= av@.len(),
            av@.len() == bv@.len(),
            av@ == a@,
            bv@ == b@,
            forall|j: int| 0 <= j < i ==> av@[j] == bv@[j],
        decreases av@.len() - i,
    {
        if av[i] != bv[i] {
            return false;
        }
        i += 1;
    }
    proof {
        assert(a@ =~= b@);
    }
    true
}

/// The pattern `p` matches `h` at position `i`.
pub open spec fn occurs_at(h: Seq<char>, p: Seq<char>, i: int) -> bool {
    0 <= i && i + p.len() <= h.len() && h.subrange(i, i + p.len()) == p
}

pub open spec fn has_occurrence(h: Seq<char>, p: Seq<char>) -> bool {
    exists|i: int| occurs_at(h, p, i)
}

/// `h` with every occurrence of `p` replaced by `r`, scanning left to
/// right over non-overlapping matches.
pub open spec fn replace_spec(h: Seq<char>, p: Seq<char>, r: Seq<char>) -> Seq<char>
    decreases h.len(),
{
    if p.len() == 0 || h.len() < p.len() {
        h
    } else if h.subrange(0, p.len() as int) == p {
        r + replace_spec(h.skip(p.len() as int), p, r)
    } else {
        seq![h[0]] + replace_spec(h.skip(1), p, r)
    }
}

/// A text without an occurrence of the pattern is left unchanged by the
/// replacement.
pub proof fn lemma_replace_no_occurrence(h: Seq<char>, p: Seq<char>, r: Seq<char>)
    requires
        p.len() > 0,
        !has_occurrence(h, p),
    ensures
        replace_spec(h, p, r) == h,
    decreases h.len(),
{
    if h.len() >= p.len() {
        assert(!occurs_at(h, p, 0));
        assert(!has_occurrence(h.skip(1), p)) by {
            if has_occurrence(h.skip(1), p) {
                let i = choose|i: int| occurs_at(h.skip(1), p, i);
                assert(h.subrange(i + 1, i + 1 + p.len()) =~= h.skip(1).subrange(i, i + p.len()));
                assert(occurs_at(h, p, i + 1));
            }
        }
        lemma_replace_no_occurrence(h.skip(1), p, r);
        assert(seq![h[0]] + h.skip(1) =~= h);
    }
}

/// Replacing in a text whose single occurrence of the pattern stands at
/// position `k` splices the replacement in at that position.
pub proof fn lemma_replace_single(h: Seq<char>, p: Seq<char>, r: Seq<char>, k: int)
    requires
        p.len() > 0,
        occurs_at(h, p, k),
        forall|j: int| 0 <= j < k ==> !occurs_at(h, p, j),
        !has_occurrence(h.skip(k + p.len() as int), p),
    ensures
        replace_spec(h, p, r) == h.take(k) + r + h.skip(k + p.len() as int),
    decreases k,
{
    if k == 0 {
        assert(h.subrange(0, p.len() as int) == p);
        lemma_replace_no_occurrence(h.skip(p.len() as int), p, r);
        assert(h.take(0) + r + h.skip(p.len() as int) =~= r + h.skip(p.len() as int));
    } else {
        let t = h.skip(1);
        assert(occurs_at(t, p, k - 1)) by {
            assert(t.subrange(k - 1, k - 1 + p.len()) =~= h.subrange(k, k + p.len()));
        }
        assert(forall|j: int| 0 <= j < k - 1 ==> !occurs_at(t, p, j)) by {
            assert forall|j: int| 0 <= j < k - 1 && occurs_at(t, p, j) implies false by {
                assert(h.subrange(j + 1, j + 1 + p.len()) =~= t.subrange(j, j + p.len()));
                assert(occurs_at(h, p, j + 1));
            }
        }
        assert(t.skip(k - 1 + p.len()) =~= h.skip(k + p.len() as int));
        lemma_replace_single(t, p, r, k - 1);
        assert(!occurs_at(h, p, 0));
        assert(h.len() >= p.len());
        assert(replace_spec(h, p, r) == seq![h[0]] + replace_spec(t, p, r));
        assert(seq![h[0]] + (t.take(k - 1) + r + t.skip(k - 1 + p.len())) =~= h.take(k) + r
            + h.skip(k + p.len() as int));
    }
}

fn match_at(hay: &Vec<char>, pat: &Vec<char>, i: usize) -> (r: bool)
    requires
        i + pat@.len() <= hay@.len(),
    ensures
        r == occurs_at(hay@, pat@, i as int),
{
    let n = hay.len();
    let mut k: usize = 0;
    while k < pat.len()
        invariant
            k <= pat@.len(),
            i + pat@.len() <= hay@.len(),
            n == hay@.len(),
            forall|j: int| 0 <= j < k ==> hay@[i + j] == pat@[j],
        decreases pat@.len() - k,
    {
        if hay[i + k] != pat[k] {
            proof {
                assert(hay@.subrange(i as int, i + pat@.len())[k as int] == hay@[i + k]);
            }
            return false;
        }
        k += 1;
    }
    proof {
        assert(hay@.subrange(i as int, i + pat@.len()) =~= pat@);
    }
    true
}

/// `hay` with every occurrence of `pat` replaced by `rep`.
pub fn replace_all(hay: &Vec<char>, pat: &Vec<char>, rep: &Vec<char>) -> (r: Vec<char>)
    requires
        pat@.len() > 0,
    ensures
        r@ == replace_spec(hay@, pat@, rep@),
{
    let mut out: Vec<char> = Vec::new();
    let mut i: usize = 0;
    proof {
        assert(hay@.skip(0) =~= hay@);
    }
    while i < hay.len()
        invariant
            i <= hay@.len(),
            pat@.len() > 0,
            replace_spec(hay@, pat@, rep@) == out@ + replace_spec(
                hay@.skip(i as int),
                pat@,
                rep@,
            ),
        decreases hay@.len() - i,
    {
        if pat.len() <= hay.len() - i && match_at(hay, pat, i) {
            proof {
                let tail = hay@.skip(i as int);
                assert(tail.subrange(0, pat@.len() as int) =~= hay@.subrange(
                    i as int,
                    i + pat@.len(),
                ));
                assert(tail.skip(pat@.len() as int) =~= hay@.skip(i + pat@.len()));
            }
            let mut k: usize = 0;
            let ghost out_before: Seq<char> = out@;
            while k < rep.len()
                invariant
                    k <= rep@.len(),
                    out@ == out_before + rep@.take(k as int),
                decreases rep@.len() - k,
            {
                out.push(rep[k]);
                proof {
                    assert(rep@.take(k + 1) =~= rep@.take(k as int).push(rep@[k as int]));
                }
                k += 1;
            }
            proof {
                assert(rep@.take(rep@.len() as int) =~= rep@);
                assert(out@ =~= out_before + rep@);
            }
            i += pat.len();
        } else {
            proof {
                let tail = hay@.skip(i as int);
                if tail.len() >= pat@.len() {
                    assert(tail.subrange(0, pat@.len() as int) =~= hay@.subrange(
                        i as int,
                        i + pat@.len(),
                    ));
                }
                assert(tail.skip(1) =~= hay@.skip(i + 1));
            }
            out.push(hay[i]);
            i += 1;
        }
        proof {
            assert(replace_spec(hay@, pat@, rep@) == out@ + replace_spec(
                hay@.skip(i as int),
                pat@,
                rep@,
            ));
        }
    }
    proof {
        assert(hay@.skip(hay@.len() as int) =~= Seq::<char>::empty());
        assert(out@ + Seq::<char>::empty() =~= out@);
    }
    out
}

} // verus!
