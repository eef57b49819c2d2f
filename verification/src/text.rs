//! Character-level helpers over `str`, specified on the `Seq<char>` view.

use vstd::prelude::*;

verus! {

/// The characters of `s`, in order.
pub fn char_vec(s: &str) -> (v: Vec<char>)
    ensures
        v@ == s@,
{
    let n = s.unicode_len();
    let mut v: Vec<char> = Vec::new();
    let mut i: usize = 0;
    while i < n
        invariant
            n == s@.len(),
            i <= n,
            v@ == s@.subrange(0, i as int),
        decreases n - i,
    {
        v.push(s.get_char(i));
        i = i + 1;
    }
    assert(v@ =~= s@);
    v
}

/// Whether `a` and `b` hold the same characters.
pub fn str_equal(a: &str, b: &str) -> (r: bool)
    ensures
        r == (a@ == b@),
{
    let av = char_vec(a);
    let bv = char_vec(b);
    if av.len() != bv.len() {
        return false;
    }
    let mut i: usize = 0;
    while i < av.len()
        invariant
            av@ == a@,
            bv@ == b@,
            av@.len() == bv@.len(),
            i <= av@.len(),
            forall|j: int| 0 <= j < i ==> av@[j] == bv@[j],
        decreases av@.len() - i,
    {
        if av[i] != bv[i] {
            return false;
        }
        i = i + 1;
    }
    assert(a@ =~= b@);
    true
}

/// `needle` occurs in `hay` starting at position `at`.
pub open spec fn occurs_at(hay: Seq<char>, needle: Seq<char>, at: int) -> bool {
    0 <= at && at + needle.len() <= hay.len() && hay.subrange(at, at + needle.len()) == needle
}

/// `needle` occurs somewhere in `hay`.
pub open spec fn occurs_in(hay: Seq<char>, needle: Seq<char>) -> bool {
    exists|at: int| occurs_at(hay, needle, at)
}

/// Whether `needle` occurs as a contiguous run of characters in `hay`.
pub fn contains_str(hay: &str, needle: &str) -> (r: bool)
    ensures
        r == occurs_in(hay@, needle@),
{
    let h = char_vec(hay);
    let n = char_vec(needle);
    if n.len() > h.len() {
        assert forall|at: int| !occurs_at(hay@, needle@, at) by {}
        return false;
    }
    let last = h.len() - n.len();
    let mut at: usize = 0;
    loop
        invariant
            h@ == hay@,
            n@ == needle@,
            n@.len() <= h@.len(),
            last == h@.len() - n@.len(),
            at <= last,
            h@.len() <= usize::MAX,
            forall|p: int| 0 <= p < at ==> !occurs_at(hay@, needle@, p),
        ensures
            forall|p: int| 0 <= p <= last ==> !occurs_at(hay@, needle@, p),
        decreases last - at,
    {
        let mut j: usize = 0;
        let mut same = true;
        while j < n.len()
            invariant
                h@ == hay@,
                n@ == needle@,
                at <= last,
                last == h@.len() - n@.len(),
                h@.len() <= usize::MAX,
                j <= n@.len(),
                same == (forall|q: int| 0 <= q < j ==> h@[at + q] == n@[q]),
            decreases n@.len() - j,
        {
            if h[at + j] != n[j] {
                same = false;
            }
            j = j + 1;
        }
        if same {
            assert(hay@.subrange(at as int, at + needle@.len()) =~= needle@);
            assert(occurs_at(hay@, needle@, at as int));
            return true;
        }
        assert(!occurs_at(hay@, needle@, at as int)) by {
            let q = choose|q: int| 0 <= q < n@.len() && h@[at + q] != n@[q];
            if occurs_at(hay@, needle@, at as int) {
                assert(hay@.subrange(at as int, at + needle@.len())[q] == h@[at + q]);
            }
        }
        if at == last {
            break;
        }
        at = at + 1;
    }
    assert forall|p: int| !occurs_at(hay@, needle@, p) by {
        if 0 <= p && p + needle@.len() <= hay@.len() {
            assert(p <= last);
        }
    }
    false
}

/// Unicode `White_Space`: the characters `char::is_whitespace` accepts.
pub open spec fn is_white_space(c: char) -> bool {
    let u = c as u32;
    (0x09 <= u <= 0x0d) || u == 0x20 || u == 0x85 || u == 0xa0 || u == 0x1680 || (0x2000 <= u
        <= 0x200a) || u == 0x2028 || u == 0x2029 || u == 0x202f || u == 0x205f || u == 0x3000
}

/// Whether `c` is Unicode white space.
pub fn white_space(c: char) -> (r: bool)
    ensures
        r == is_white_space(c),
{
    let u = c as u32;
    (0x09 <= u && u <= 0x0d) || u == 0x20 || u == 0x85 || u == 0xa0 || u == 0x1680 || (0x2000 <= u
        && u <= 0x200a) || u == 0x2028 || u == 0x2029 || u == 0x202f || u == 0x205f || u == 0x3000
}

/// `s[lo..hi]` is `s` without its leading and trailing white space.
pub open spec fn is_trim_bounds(s: Seq<char>, lo: int, hi: int) -> bool {
    &&& 0 <= lo <= hi <= s.len()
    &&& forall|i: int| 0 <= i < lo ==> is_white_space(#[trigger] s[i])
    &&& forall|i: int| hi <= i < s.len() ==> is_white_space(#[trigger] s[i])
    &&& lo < hi ==> !is_white_space(s[lo]) && !is_white_space(s[hi - 1])
}

/// `s` without leading and trailing white space (`str::trim`).
pub open spec fn trimmed(s: Seq<char>) -> Seq<char> {
    let (lo, hi) = choose|lo: int, hi: int| is_trim_bounds(s, lo, hi);
    s.subrange(lo, hi)
}

/// The trim bounds of a string are unique, so `trimmed` is well defined.
pub proof fn lemma_trim_bounds_unique(s: Seq<char>, lo: int, hi: int, lo2: int, hi2: int)
    requires
        is_trim_bounds(s, lo, hi),
        is_trim_bounds(s, lo2, hi2),
    ensures
        s.subrange(lo, hi) == s.subrange(lo2, hi2),
{
    if lo < hi && lo2 < hi2 {
        if lo < lo2 {
            assert(is_white_space(s[lo]));
        }
        if lo2 < lo {
            assert(is_white_space(s[lo2]));
        }
        if hi < hi2 {
            assert(is_white_space(s[hi2 - 1]));
        }
        if hi2 < hi {
            assert(is_white_space(s[hi - 1]));
        }
    } else if lo < hi {
        assert(lo2 < hi2 || lo2 == hi2);
        if lo < lo2 {
            assert(is_white_space(s[lo]));
        } else {
            assert(lo2 <= lo && lo < hi);
            if hi2 <= lo {
                assert(is_white_space(s[lo]));
            } else {
                assert(lo2 == hi2);
            }
        }
    } else if lo2 < hi2 {
        if lo2 < lo {
            assert(is_white_space(s[lo2]));
        } else if hi <= lo2 {
            assert(is_white_space(s[lo2]));
        }
    }
    assert(s.subrange(lo, hi) =~= s.subrange(lo2, hi2));
}

/// `s` without leading and trailing white space.
pub fn trim(s: &str) -> (r: &str)
    ensures
        r@ == trimmed(s@),
{
    let c = char_vec(s);
    let n = c.len();
    let mut lo: usize = 0;
    while lo < n && white_space(c[lo])
        invariant
            c@ == s@,
            n == c@.len(),
            lo <= n,
            forall|i: int| 0 <= i < lo ==> is_white_space(#[trigger] s@[i]),
        decreases n - lo,
    {
        lo = lo + 1;
    }
    let mut hi: usize = n;
    while hi > lo && white_space(c[hi - 1])
        invariant
            c@ == s@,
            n == c@.len(),
            lo <= hi <= n,
            forall|i: int| hi <= i < n ==> is_white_space(#[trigger] s@[i]),
        decreases hi,
    {
        hi = hi - 1;
    }
    proof {
        assert(is_trim_bounds(s@, lo as int, hi as int));
        let (a, b) = choose|a: int, b: int| is_trim_bounds(s@, a, b);
        lemma_trim_bounds_unique(s@, lo as int, hi as int, a, b);
    }
    s.substring_char(lo, hi)
}

/// The lowercase mapping of `s` (`str::to_lowercase`).
pub uninterp spec fn spec_to_lowercase(s: Seq<char>) -> Seq<char>;

/// `str::to_lowercase`. Trusted: the result is the full Unicode lowercase
/// mapping of the input (named, not spelled out).
#[verifier::external_body]
pub(crate) fn to_lowercase(s: &str) -> (r: String)
    ensures
        r@ == spec_to_lowercase(s@),
{
    s.to_lowercase()
}

/// Trimming twice trims no more than trimming once.
pub proof fn law_trim_idempotent(s: Seq<char>)
    ensures
        trimmed(trimmed(s)) == trimmed(s),
{
    let (lo, hi) = lemma_trim_bounds_exist(s);
    let (a, b) = choose|a: int, b: int| is_trim_bounds(s, a, b);
    lemma_trim_bounds_unique(s, lo, hi, a, b);
    let t = s.subrange(lo, hi);
    assert(t == trimmed(s));
    assert(is_trim_bounds(t, 0, t.len() as int));
    let (c, d) = choose|c: int, d: int| is_trim_bounds(t, c, d);
    lemma_trim_bounds_unique(t, 0, t.len() as int, c, d);
    assert(t.subrange(0, t.len() as int) =~= t);
}

/// The first position at or after `i` that is not white space (or the end).
pub open spec fn skip_white_space(s: Seq<char>, i: int) -> int
    decreases s.len() - i,
{
    if i < 0 || i >= s.len() || !is_white_space(s[i]) {
        i
    } else {
        skip_white_space(s, i + 1)
    }
}

/// The end of `s[lo..j]` once its trailing white space is dropped.
pub open spec fn drop_white_space_back(s: Seq<char>, lo: int, j: int) -> int
    decreases j - lo,
{
    if j <= lo || !is_white_space(s[j - 1]) {
        j
    } else {
        drop_white_space_back(s, lo, j - 1)
    }
}

proof fn lemma_skip_white_space(s: Seq<char>, i: int)
    requires
        0 <= i <= s.len(),
    ensures
        i <= skip_white_space(s, i) <= s.len(),
        forall|j: int| i <= j < skip_white_space(s, i) ==> is_white_space(#[trigger] s[j]),
        skip_white_space(s, i) < s.len() ==> !is_white_space(s[skip_white_space(s, i)]),
    decreases s.len() - i,
{
    if i < s.len() && is_white_space(s[i]) {
        lemma_skip_white_space(s, i + 1);
    }
}

proof fn lemma_drop_white_space_back(s: Seq<char>, lo: int, j: int)
    requires
        0 <= lo <= j <= s.len(),
    ensures
        lo <= drop_white_space_back(s, lo, j) <= j,
        forall|k: int| drop_white_space_back(s, lo, j) <= k < j ==> is_white_space(#[trigger] s[k]),
        lo < drop_white_space_back(s, lo, j) ==> !is_white_space(s[drop_white_space_back(s, lo, j) - 1]),
    decreases j - lo,
{
    if lo < j && is_white_space(s[j - 1]) {
        lemma_drop_white_space_back(s, lo, j - 1);
    }
}

/// Every string has trim bounds.
pub proof fn lemma_trim_bounds_exist(s: Seq<char>) -> (b: (int, int))
    ensures
        is_trim_bounds(s, b.0, b.1),
{
    lemma_skip_white_space(s, 0);
    let lo = skip_white_space(s, 0);
    lemma_drop_white_space_back(s, lo, s.len() as int);
    let hi = drop_white_space_back(s, lo, s.len() as int);
    if lo == s.len() {
        assert(hi == lo);
    }
    assert forall|k: int| hi <= k < s.len() implies is_white_space(#[trigger] s[k]) by {}
    (lo, hi)
}

} // verus!
