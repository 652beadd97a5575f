//! Verified text utilities over character sequences.

use vstd::prelude::*;
use vstd::string::StrSliceExecFns;
use vstd::string::StringExecFns;

verus! {

/// True when `pat` occurs as a contiguous run inside `hay`.
pub open spec fn contains_seq(hay: Seq<char>, pat: Seq<char>) -> bool {
    exists|i: int|
        0 <= i && i + pat.len() <= hay.len() && #[trigger] hay.subrange(i, i + pat.len())
            == pat
}

/// The characters of `s`, as a vector.
pub fn chars_of(s: &str) -> (v: Vec<char>)
    ensures
        v@ == s@,
{
    let n = s.unicode_len();
    let mut v: Vec<char> = Vec::new();
    let mut i: usize = 0;
    while i < n
        invariant
            i <= n,
            n == s@.len(),
            v@ =~= s@.subrange(0, i as int),
        decreases n - i,
    {
        v.push(s.get_char(i));
        proof {
            assert(s@.subrange(0, i + 1 as int) =~= s@.subrange(0, i as int).push(
                s@[i as int],
            ));
        }
        i = i + 1;
    }
    proof {
        assert(v@ =~= s@);
    }
    v
}

/// Character-for-character string equality.
pub fn str_eq(a: &str, b: &str) -> (r: bool)
    ensures
        r == (a@ == b@),
{
    let an = a.unicode_len();
    let bn = b.unicode_len();
    if an != bn {
        proof {
            if a@ == b@ {
                assert(a@.len() == b@.len());
            }
        }
        return false;
    }
    let mut i: usize = 0;
    while i < an
        invariant
            i <= an,
            an == a@.len(),
            bn == b@.len(),
            an == bn,
            forall|j: int| 0 <= j < i ==> a@[j] == b@[j],
        decreases an - i,
    {
        if a.get_char(i) != b.get_char(i) {
            proof {
                if a@ == b@ {
                    assert(a@[i as int] == b@[i as int]);
                }
            }
            return false;
        }
        i = i + 1;
    }
    proof {
        assert(a@ =~= b@);
    }
    true
}

/// True when `pat` occurs as a substring of `hay`.
pub fn str_contains_sub(hay: &str, pat: &str) -> (r: bool)
    ensures
        r == contains_seq(hay@, pat@),
{
    let h = chars_of(hay);
    let p = chars_of(pat);
    let hn = h.len();
    let pn = p.len();
    if pn > hn {
        proof {
            assert(!contains_seq(hay@, pat@));
        }
        return false;
    }
    if pn == 0 {
        proof {
            assert(contains_seq(hay@, pat@)) by {
                assert(hay@.subrange(0, 0 + pat@.len() as int) =~= pat@);
            }
        }
        return true;
    }
    let mut i: usize = 0;
    while i <= hn - pn
        invariant
            h@ == hay@,
            p@ == pat@,
            hn == h@.len(),
            pn == p@.len(),
            0 < pn <= hn,
            i <= hn - pn + 1,
            forall|k: int|
                0 <= k < i ==> #[trigger] hay@.subrange(k, k + pn as int) != pat@,
        decreases hn + 1 - i,
    {
        let mut j: usize = 0;
        let mut matches = true;
        while j < pn && matches
            invariant
                h@ == hay@,
                p@ == pat@,
                hn == h@.len(),
                pn == p@.len(),
                i + pn <= hn,
                j <= pn,
                matches ==> forall|l: int| 0 <= l < j ==> hay@[i + l] == pat@[l],
                !matches ==> hay@.subrange(i as int, i + pn as int) != pat@,
            decreases pn - j,
        {
            if h[i + j] != p[j] {
                matches = false;
                proof {
                    assert(hay@.subrange(i as int, i + pn as int) != pat@) by {
                        if hay@.subrange(i as int, i + pn as int) == pat@ {
                            assert(hay@.subrange(i as int, i + pn as int)[j as int]
                                == pat@[j as int]);
                        }
                    }
                }
                j = pn;
            } else {
                j = j + 1;
            }
        }
        if matches {
            proof {
                assert forall|l: int| 0 <= l < pn implies hay@.subrange(
                    i as int,
                    i + pn as int,
                )[l] == pat@[l] by {
                    assert(hay@[i + l] == pat@[l]);
                }
                assert(hay@.subrange(i as int, i + pn as int) =~= pat@);
            }
            return true;
        }
        i = i + 1;
    }
    proof {
        assert forall|k: int| 0 <= k && k + pn as int <= hn as int implies #[trigger] hay@.subrange(
            k,
            k + pn as int,
        ) != pat@ by {
            assert(k < i);
        }
    }
    false
}

/// True when the character `c` occurs in `s`.
pub fn str_contains_char(s: &str, c: char) -> (r: bool)
    ensures
        r == s@.contains(c),
{
    let n = s.unicode_len();
    let mut i: usize = 0;
    while i < n
        invariant
            i <= n,
            n == s@.len(),
            forall|j: int| 0 <= j < i ==> s@[j] != c,
        decreases n - i,
    {
        if s.get_char(i) == c {
            return true;
        }
        i = i + 1;
    }
    false
}

/// The character for a single decimal digit.
pub open spec fn spec_digit(d: int) -> char {
    if d == 0 {
        '0'
    } else if d == 1 {
        '1'
    } else if d == 2 {
        '2'
    } else if d == 3 {
        '3'
    } else if d == 4 {
        '4'
    } else if d == 5 {
        '5'
    } else if d == 6 {
        '6'
    } else if d == 7 {
        '7'
    } else if d == 8 {
        '8'
    } else {
        '9'
    }
}

/// The usual decimal rendering of a non-negative integer.
pub open spec fn spec_decimal(n: int) -> Seq<char>
    decreases n,
{
    if n < 10 {
        seq![spec_digit(n)]
    } else {
        spec_decimal(n / 10).push(spec_digit(n % 10))
    }
}

fn digit_str(d: u64) -> (r: &'static str)
    requires
        d < 10,
    ensures
        r@ =~= seq![spec_digit(d as int)],
{
    let r = if d == 0 {
        "0"
    } else if d == 1 {
        "1"
    } else if d == 2 {
        "2"
    } else if d == 3 {
        "3"
    } else if d == 4 {
        "4"
    } else if d == 5 {
        "5"
    } else if d == 6 {
        "6"
    } else if d == 7 {
        "7"
    } else if d == 8 {
        "8"
    } else {
        "9"
    };
    proof {
        reveal_strlit("0");
        reveal_strlit("1");
        reveal_strlit("2");
        reveal_strlit("3");
        reveal_strlit("4");
        reveal_strlit("5");
        reveal_strlit("6");
        reveal_strlit("7");
        reveal_strlit("8");
        reveal_strlit("9");
    }
    r
}

/// Render a number in decimal.
pub fn u64_to_string(n: u64) -> (s: String)
    ensures
        s@ == spec_decimal(n as int),
    decreases n,
{
    let d = n % 10;
    let ds = digit_str(d);
    if n < 10 {
        ds.to_owned()
    } else {
        proof {
            assert(n / 10 < n) by (nonlinear_arith)
                requires
                    n >= 10,
            ;
        }
        let mut s = u64_to_string(n / 10);
        s.append(ds);
        proof {
            assert(spec_decimal(n as int / 10).push(spec_digit(n as int % 10))
                =~= spec_decimal(n as int / 10) + seq![spec_digit(n as int % 10)]);
        }
        s
    }
}


/// `s` with every occurrence of `from` replaced by `to`, scanning left to
/// right without revisiting replaced text; an empty pattern replaces
/// nothing.
pub open spec fn spec_replaced(s: Seq<char>, from: Seq<char>, to: Seq<char>) -> Seq<char>
    decreases s.len(),
{
    if from.len() == 0 || s.len() == 0 {
        s
    } else if from.len() <= s.len() && s.subrange(0, from.len() as int) == from {
        to + spec_replaced(s.skip(from.len() as int), from, to)
    } else {
        s.take(1) + spec_replaced(s.skip(1), from, to)
    }
}

/// A stretch with no occurrence of the pattern passes through replacement
/// unchanged.
proof fn lemma_replaced_segment(s: Seq<char>, from: Seq<char>, to: Seq<char>, j: int)
    requires
        0 < from.len(),
        0 <= j <= s.len(),
        forall|k: int|
            0 <= k < j && k + from.len() <= s.len() ==> #[trigger] s.subrange(
                k,
                k + from.len(),
            ) != from,
    ensures
        spec_replaced(s, from, to) == s.take(j) + spec_replaced(s.skip(j), from, to),
    decreases j,
{
    if j == 0 {
        assert(s.take(0) =~= Seq::<char>::empty());
        assert(s.skip(0) =~= s);
        assert(s.take(0) + spec_replaced(s.skip(0), from, to) =~= spec_replaced(s, from, to));
    } else {
        if from.len() <= s.len() {
            assert(s.subrange(0int, 0 + from.len() as int) != from);
            assert(s.subrange(0, from.len() as int) != from);
        }
        assert(spec_replaced(s, from, to) == s.take(1) + spec_replaced(s.skip(1), from, to));
        let s1 = s.skip(1);
        assert forall|k: int|
            0 <= k < j - 1 && k + from.len() <= s1.len() implies #[trigger] s1.subrange(
            k,
            k + from.len(),
        ) != from by {
            assert(s1.subrange(k, k + from.len()) =~= s.subrange(k + 1, k + 1 + from.len()));
        }
        lemma_replaced_segment(s1, from, to, j - 1);
        assert(s1.take(j - 1) =~= s.subrange(1, j));
        assert(s1.skip(j - 1) =~= s.skip(j));
        assert(s.take(1) + s.subrange(1, j) =~= s.take(j));
        assert(s.take(1) + (s1.take(j - 1) + spec_replaced(s1.skip(j - 1), from, to)) =~= s.take(
            j,
        ) + spec_replaced(s.skip(j), from, to));
    }
}

/// Replace every occurrence of `from` in `s` by `to`, scanning left to
/// right.
pub fn replace_all(s: &str, from: &str, to: &str) -> (r: String)
    ensures
        r@ == spec_replaced(s@, from@, to@),
{
    let sv = chars_of(s);
    let fv = chars_of(from);
    let n = sv.len();
    let flen = fv.len();
    if flen == 0 {
        return s.to_owned();
    }
    let mut out = String::new();
    let mut seg_start: usize = 0;
    let mut i: usize = 0;
    proof {
        assert(s@.skip(0) =~= s@);
        assert(out@ + spec_replaced(s@, from@, to@) =~= spec_replaced(s@, from@, to@));
    }
    while i < n
        invariant
            sv@ == s@,
            fv@ == from@,
            n == s@.len(),
            flen == from@.len(),
            0 < flen,
            seg_start <= i <= n,
            out@ + spec_replaced(s@.skip(seg_start as int), from@, to@) =~= spec_replaced(
                s@,
                from@,
                to@,
            ),
            forall|k: int|
                seg_start <= k < i && k + flen <= n ==> #[trigger] s@.subrange(
                    k,
                    k + flen as int,
                ) != from@,
        decreases n - i,
    {
        let is_match = if flen <= n - i {
            let mut j: usize = 0;
            let mut m = true;
            while j < flen && m
                invariant
                    sv@ == s@,
                    fv@ == from@,
                    n == s@.len(),
                    flen == from@.len(),
                    i + flen <= n,
                    j <= flen,
                    m ==> forall|l: int| 0 <= l < j ==> s@[i + l] == from@[l],
                    !m ==> s@.subrange(i as int, i + flen as int) != from@,
                decreases flen - j,
            {
                if sv[i + j] != fv[j] {
                    m = false;
                    proof {
                        assert(s@.subrange(i as int, i + flen as int) != from@) by {
                            if s@.subrange(i as int, i + flen as int) == from@ {
                                assert(s@.subrange(i as int, i + flen as int)[j as int]
                                    == from@[j as int]);
                            }
                        }
                    }
                    j = flen;
                } else {
                    j = j + 1;
                }
            }
            proof {
                if m {
                    assert(s@.subrange(i as int, i + flen as int) =~= from@);
                }
            }
            m
        } else {
            false
        };
        if is_match {
            let chunk = s.substring_char(seg_start, i);
            out.append(chunk);
            out.append(to);
            proof {
                let tail = s@.skip(seg_start as int);
                assert forall|k: int|
                    0 <= k < i - seg_start && k + flen <= tail.len() implies #[trigger] tail.subrange(
                    k,
                    k + flen as int,
                ) != from@ by {
                    assert(tail.subrange(k, k + flen as int) =~= s@.subrange(
                        seg_start + k,
                        seg_start + k + flen,
                    ));
                }
                lemma_replaced_segment(tail, from@, to@, i - seg_start);
                assert(tail.take(i - seg_start) =~= s@.subrange(seg_start as int, i as int));
                assert(tail.skip(i - seg_start) =~= s@.skip(i as int));
                assert(s@.skip(i as int).subrange(0, flen as int) =~= s@.subrange(
                    i as int,
                    i + flen as int,
                ));
                assert(s@.skip(i as int).skip(flen as int) =~= s@.skip(i + flen as int));
                assert(spec_replaced(s@.skip(i as int), from@, to@) == to@ + spec_replaced(
                    s@.skip(i + flen as int),
                    from@,
                    to@,
                ));
            }
            i = i + flen;
            seg_start = i;
        } else {
            i = i + 1;
        }
    }
    let chunk = s.substring_char(seg_start, n);
    out.append(chunk);
    proof {
        let tail = s@.skip(seg_start as int);
        assert forall|k: int|
            0 <= k < n - seg_start && k + flen <= tail.len() implies #[trigger] tail.subrange(
            k,
            k + flen as int,
        ) != from@ by {
            assert(tail.subrange(k, k + flen as int) =~= s@.subrange(
                seg_start + k,
                seg_start + k + flen,
            ));
        }
        lemma_replaced_segment(tail, from@, to@, (n - seg_start) as int);
        assert(tail.take((n - seg_start) as int) =~= s@.subrange(seg_start as int, n as int));
        assert(tail.skip((n - seg_start) as int) =~= Seq::<char>::empty());
        assert(spec_replaced(Seq::<char>::empty(), from@, to@) =~= Seq::<char>::empty());
        assert(out@ =~= spec_replaced(s@, from@, to@));
    }
    out
}

} // verus!
