//! Character-level helpers over `str` and `String` used by the parsers.
use vstd::prelude::*;

verus! {

/// The characters of `s`, in order.
pub fn chars_of(s: &str) -> (r: Vec<char>)
    ensures
        r@ == s@,
{
    let mut out: Vec<char> = Vec::new();
    for c in it: s.chars()
        invariant
            out@ == it.seq().subrange(0, it.index() as int),
    {
        out.push(c);
    }
    out
}

/// Relies on std's `FromIterator<char>` for `String`: the string holds
/// exactly the given characters, in order.
#[verifier::external_body]
pub(crate) fn string_from_chars(v: &[char]) -> (r: String)
    ensures
        r@ == v@,
{
    v.iter().collect()
}

/// The characters `v[lo..hi]` as a new string.
pub fn string_of_range(v: &Vec<char>, lo: usize, hi: usize) -> (r: String)
    requires
        lo <= hi <= v.len(),
    ensures
        r@ == v@.subrange(lo as int, hi as int),
{
    let mut out: Vec<char> = Vec::new();
    let mut i: usize = lo;
    while i < hi
        invariant
            lo <= i <= hi <= v.len(),
            out@ == v@.subrange(lo as int, i as int),
        decreases hi - i,
    {
        out.push(v[i]);
        i = i + 1;
    }
    string_from_chars(out.as_slice())
}

/// Equality of two strings, character by character.
pub fn str_eq(a: &str, b: &str) -> (r: bool)
    ensures
        r == (a@ == b@),
{
    let va = chars_of(a);
    let vb = chars_of(b);
    if va.len() != vb.len() {
        return false;
    }
    let mut i: usize = 0;
    while i < va.len()
        invariant
            va@ == a@,
            vb@ == b@,
            va.len() == vb.len(),
            i <= va.len(),
            forall|k: int| 0 <= k < i ==> va@[k] == vb@[k],
        decreases va.len() - i,
    {
        if va[i] != vb[i] {
            return false;
        }
        i = i + 1;
    }
    assert(va@ =~= vb@);
    true
}

/// ASCII lower-casing of one character; other characters are unchanged.
pub open spec fn lower(c: char) -> char {
    if 'A' <= c && c <= 'Z' {
        ((c as u8) + 32) as char
    } else {
        c
    }
}

pub fn to_lower(c: char) -> (r: char)
    ensures
        r == lower(c),
{
    if 'A' <= c && c <= 'Z' {
        ((c as u8) + 32) as char
    } else {
        c
    }
}

/// `pat` occurs in `s` at position `i`, ignoring ASCII case.
pub open spec fn matches_at(s: Seq<char>, pat: Seq<char>, i: int) -> bool {
    &&& 0 <= i
    &&& i + pat.len() <= s.len()
    &&& forall|k: int| 0 <= k < pat.len() ==> lower(#[trigger] s[i + k]) == lower(pat[k])
}

pub fn matches_at_exec(s: &Vec<char>, pat: &Vec<char>, i: usize) -> (r: bool)
    ensures
        r == matches_at(s@, pat@, i as int),
{
    if i > s.len() || pat.len() > s.len() - i {
        return false;
    }
    let mut k: usize = 0;
    while k < pat.len()
        invariant
            i + pat.len() <= s.len(),
            k <= pat.len(),
            forall|j: int| 0 <= j < k ==> lower(#[trigger] s@[i + j]) == lower(pat@[j]),
        decreases pat.len() - k,
    {
        if to_lower(s[i + k]) != to_lower(pat[k]) {
            return false;
        }
        k = k + 1;
    }
    true
}

/// `i` is the first position at or after `from` where `pat` occurs in `s`,
/// ignoring ASCII case.
pub open spec fn is_first_ci(s: Seq<char>, pat: Seq<char>, from: int, i: int) -> bool {
    &&& from <= i
    &&& matches_at(s, pat, i)
    &&& forall|j: int| from <= j < i ==> !matches_at(s, pat, j)
}

/// The first position at or after `from` where `pat` occurs in `s`,
/// ignoring ASCII case.
pub open spec fn first_ci(s: Seq<char>, pat: Seq<char>, from: int) -> Option<int> {
    if exists|i: int| is_first_ci(s, pat, from, i) {
        Some(choose|i: int| is_first_ci(s, pat, from, i))
    } else {
        None
    }
}

proof fn lemma_first_ci_unique(s: Seq<char>, pat: Seq<char>, from: int, i: int)
    requires
        is_first_ci(s, pat, from, i),
    ensures
        first_ci(s, pat, from) == Some(i),
{
    let c = choose|k: int| is_first_ci(s, pat, from, k);
    assert(is_first_ci(s, pat, from, c));
    if c < i {
        assert(!matches_at(s, pat, c));
    } else if c > i {
        assert(!matches_at(s, pat, i));
    }
}

/// The first position at or after `from` where `pat` occurs in `s`,
/// ignoring ASCII case.
pub fn find_ci(s: &Vec<char>, pat: &Vec<char>, from: usize) -> (r: Option<usize>)
    ensures
        match r {
            Some(i) => from <= i && matches_at(s@, pat@, i as int) && forall|j: int|
                from <= j < i ==> !matches_at(s@, pat@, j),
            None => forall|j: int| from <= j ==> !matches_at(s@, pat@, j),
        },
        match r {
            Some(i) => first_ci(s@, pat@, from as int) == Some(i as int),
            None => first_ci(s@, pat@, from as int) is None,
        },
{
    let mut i: usize = from;
    while i < s.len()
        invariant
            from <= i,
            forall|j: int| from <= j < i ==> !matches_at(s@, pat@, j),
        decreases s.len() - i,
    {
        if matches_at_exec(s, pat, i) {
            proof {
                lemma_first_ci_unique(s@, pat@, from as int, i as int);
            }
            return Some(i);
        }
        i = i + 1;
    }
    if i == s.len() && matches_at_exec(s, pat, i) {
        proof {
            lemma_first_ci_unique(s@, pat@, from as int, i as int);
        }
        return Some(i);
    }
    None
}

/// Unicode `White_Space`, the set that `char::is_whitespace` tests.
pub open spec fn is_ws(c: char) -> bool {
    let u = c as u32;
    (0x9 <= u && u <= 0xD) || u == 0x20 || u == 0x85 || u == 0xA0 || u == 0x1680 || (0x2000 <= u
        && u <= 0x200A) || u == 0x2028 || u == 0x2029 || u == 0x202F || u == 0x205F || u == 0x3000
}

pub fn is_ws_exec(c: char) -> (r: bool)
    ensures
        r == is_ws(c),
{
    let u = c as u32;
    (0x9 <= u && u <= 0xD) || u == 0x20 || u == 0x85 || u == 0xA0 || u == 0x1680 || (0x2000 <= u
        && u <= 0x200A) || u == 0x2028 || u == 0x2029 || u == 0x202F || u == 0x205F || u == 0x3000
}

/// `s` with leading and trailing white space removed.
pub open spec fn trimmed(s: Seq<char>) -> Seq<char>
    decreases s.len(),
{
    if s.len() == 0 {
        s
    } else if is_ws(s[0]) {
        trimmed(s.drop_first())
    } else if is_ws(s.last()) {
        trimmed(s.drop_last())
    } else {
        s
    }
}

/// The bounds of `s[lo..hi]` once leading and trailing white space is
/// removed.
pub fn trim_range(s: &Vec<char>, lo: usize, hi: usize) -> (r: (usize, usize))
    requires
        lo <= hi <= s.len(),
    ensures
        lo <= r.0 <= r.1 <= hi,
        s@.subrange(r.0 as int, r.1 as int) == trimmed(s@.subrange(lo as int, hi as int)),
{
    let mut a: usize = lo;
    while a < hi && is_ws_exec(s[a])
        invariant
            lo <= a <= hi <= s.len(),
            trimmed(s@.subrange(a as int, hi as int)) == trimmed(s@.subrange(lo as int, hi as int)),
        decreases hi - a,
    {
        assert(s@.subrange(a as int, hi as int).drop_first() =~= s@.subrange(a + 1, hi as int));
        a = a + 1;
    }
    let mut b: usize = hi;
    while b > a && is_ws_exec(s[b - 1])
        invariant
            lo <= a <= b <= hi <= s.len(),
            a < b ==> !is_ws(s@[a as int]),
            trimmed(s@.subrange(a as int, b as int)) == trimmed(s@.subrange(lo as int, hi as int)),
        decreases b - a,
    {
        let ghost t = s@.subrange(a as int, b as int);
        assert(t[0] == s@[a as int]);
        assert(t.drop_last() =~= s@.subrange(a as int, b - 1));
        b = b - 1;
    }
    proof {
        let t = s@.subrange(a as int, b as int);
        if t.len() > 0 {
            assert(t[0] == s@[a as int]);
            assert(t.last() == s@[b - 1]);
        }
    }
    (a, b)
}

/// A token separator: white space, and also `,` when `commas` is set.
pub open spec fn is_sep(c: char, commas: bool) -> bool {
    is_ws(c) || (commas && c == ',')
}

pub fn is_sep_exec(c: char, commas: bool) -> (r: bool)
    ensures
        r == is_sep(c, commas),
{
    is_ws_exec(c) || (commas && c == ',')
}

/// The pieces of `s` between separators, in order; empty pieces included
/// (one piece when there is no separator).
pub open spec fn pieces(s: Seq<char>, commas: bool) -> Seq<Seq<char>>
    decreases s.len(),
{
    if s.len() == 0 {
        seq![Seq::<char>::empty()]
    } else {
        let p = pieces(s.drop_last(), commas);
        if is_sep(s.last(), commas) {
            p.push(Seq::<char>::empty())
        } else {
            p.update(p.len() - 1, p.last().push(s.last()))
        }
    }
}

proof fn lemma_pieces_nonempty(s: Seq<char>, commas: bool)
    ensures
        pieces(s, commas).len() >= 1,
    decreases s.len(),
{
    if s.len() > 0 {
        lemma_pieces_nonempty(s.drop_last(), commas);
    }
}

/// `a` and `b` are equal up to ASCII case.
pub open spec fn eq_ci(a: Seq<char>, b: Seq<char>) -> bool {
    a.len() == b.len() && matches_at(a, b, 0)
}

/// Some token of `s` (a piece between separators) equals `w`, ignoring
/// ASCII case.
pub open spec fn has_token(s: Seq<char>, w: Seq<char>, commas: bool) -> bool {
    exists|k: int| 0 <= k < pieces(s, commas).len() && eq_ci(#[trigger] pieces(s, commas)[k], w)
}

/// Whether `s[lo..hi]` equals `w` ignoring ASCII case.
pub fn eq_ci_range(s: &Vec<char>, lo: usize, hi: usize, w: &Vec<char>) -> (r: bool)
    requires
        lo <= hi <= s.len(),
    ensures
        r == eq_ci(s@.subrange(lo as int, hi as int), w@),
{
    let ghost sub = s@.subrange(lo as int, hi as int);
    if hi - lo != w.len() {
        return false;
    }
    let mut k: usize = 0;
    while k < w.len()
        invariant
            lo <= hi <= s.len(),
            hi - lo == w.len(),
            sub == s@.subrange(lo as int, hi as int),
            k <= w.len(),
            forall|j: int| 0 <= j < k ==> lower(#[trigger] sub[0 + j]) == lower(w@[j]),
        decreases w.len() - k,
    {
        if to_lower(s[lo + k]) != to_lower(w[k]) {
            assert(sub[0 + k as int] == s@[lo + k]);
            return false;
        }
        assert(sub[0 + k as int] == s@[lo + k]);
        k = k + 1;
    }
    true
}

/// Whether some token of `s` equals `w`, ignoring ASCII case.
pub fn has_token_exec(s: &Vec<char>, w: &Vec<char>, commas: bool) -> (r: bool)
    ensures
        r == has_token(s@, w@, commas),
{
    let mut found = false;
    let mut start: usize = 0;
    let mut i: usize = 0;
    proof {
        assert(s@.take(0) =~= Seq::<char>::empty());
        assert(s@.subrange(0, 0) =~= Seq::<char>::empty());
    }
    while i < s.len()
        invariant
            start <= i <= s.len(),
            pieces(s@.take(i as int), commas).len() >= 1,
            pieces(s@.take(i as int), commas).last() == s@.subrange(start as int, i as int),
            found == exists|k: int|
                0 <= k < pieces(s@.take(i as int), commas).len() - 1 && eq_ci(
                    #[trigger] pieces(s@.take(i as int), commas)[k],
                    w@,
                ),
        decreases s.len() - i,
    {
        let ghost p = pieces(s@.take(i as int), commas);
        proof {
            assert(s@.take(i + 1).drop_last() =~= s@.take(i as int));
            assert(s@.take(i + 1).last() == s@[i as int]);
            lemma_pieces_nonempty(s@.take(i + 1), commas);
        }
        if is_sep_exec(s[i], commas) {
            let hit = eq_ci_range(s, start, i, w);
            let ghost old_found = found;
            found = found || hit;
            start = i + 1;
            proof {
                let q = pieces(s@.take(i + 1), commas);
                assert(q == p.push(Seq::<char>::empty()));
                assert(s@.subrange(start as int, i + 1) =~= Seq::<char>::empty());
                if found {
                    if old_found {
                        let k = choose|k: int| 0 <= k < p.len() - 1 && eq_ci(#[trigger] p[k], w@);
                        assert(q[k] == p[k]);
                    } else {
                        assert(q[p.len() - 1] == p.last());
                    }
                }
                if exists|k: int| 0 <= k < q.len() - 1 && eq_ci(#[trigger] q[k], w@) {
                    let k = choose|k: int| 0 <= k < q.len() - 1 && eq_ci(#[trigger] q[k], w@);
                    assert(q[k] == p[k]);
                    if k < p.len() - 1 {
                        assert(old_found);
                    }
                }
            }
        } else {
            proof {
                let q = pieces(s@.take(i + 1), commas);
                assert(q == p.update(p.len() - 1, p.last().push(s@[i as int])));
                assert(s@.subrange(start as int, i + 1) =~= s@.subrange(start as int, i as int).push(
                    s@[i as int],
                ));
                if found {
                    let k = choose|k: int| 0 <= k < p.len() - 1 && eq_ci(#[trigger] p[k], w@);
                    assert(q[k] == p[k]);
                }
                if exists|k: int| 0 <= k < q.len() - 1 && eq_ci(#[trigger] q[k], w@) {
                    let k = choose|k: int| 0 <= k < q.len() - 1 && eq_ci(#[trigger] q[k], w@);
                    assert(q[k] == p[k]);
                }
            }
        }
        i = i + 1;
    }
    proof {
        assert(s@.take(i as int) =~= s@);
    }
    let hit = eq_ci_range(s, start, i, w);
    proof {
        let p = pieces(s@, commas);
        if hit {
            assert(p[p.len() - 1] == p.last());
        }
        if found {
            let k = choose|k: int| 0 <= k < p.len() - 1 && eq_ci(#[trigger] p[k], w@);
        }
        if has_token(s@, w@, commas) {
            let k = choose|k: int| 0 <= k < p.len() && eq_ci(#[trigger] p[k], w@);
            if k < p.len() - 1 {
                assert(found);
            } else {
                assert(hit);
            }
        }
    }
    found || hit
}

} // verus!
