//! Text and path helpers: substring search, path joining, case folding.
use vstd::prelude::*;

use crate::platform::Platform;

verus! {

/// `part` occurs in `s` as a contiguous run of characters.
pub open spec fn has_infix(s: Seq<char>, part: Seq<char>) -> bool {
    exists|i: int| 0 <= i && i + part.len() <= s.len() && #[trigger] s.subrange(i, i + part.len()) == part
}

/// Tells whether `part` occurs in `s`.
pub fn contains_text(s: &str, part: &str) -> (r: bool)
    ensures
        r == has_infix(s@, part@),
{
    let n = s.unicode_len();
    let m = part.unicode_len();
    if m > n {
        proof {
            assert forall|i: int| 0 <= i && i + part@.len() <= s@.len() implies #[trigger] s@.subrange(i, i + part@.len()) != part@ by {}
        }
        return false;
    }
    let mut i: usize = 0;
    while i <= n - m
        invariant
            n == s@.len(),
            m == part@.len(),
            m <= n,
            i <= n - m + 1,
            forall|k: int| 0 <= k < i ==> #[trigger] s@.subrange(k, k + m) != part@,
        decreases n - m + 1 - i,
    {
        let mut j: usize = 0;
        let mut same = true;
        while j < m
            invariant
                n == s@.len(),
                m == part@.len(),
                i + m <= n,
                j <= m,
                same == (forall|t: int| 0 <= t < j ==> s@[i + t] == part@[t]),
            decreases m - j,
        {
            if s.get_char(i + j) != part.get_char(j) {
                same = false;
            }
            j = j + 1;
        }
        if same {
            assert(s@.subrange(i as int, i + m) =~= part@);
            return true;
        }
        assert(s@.subrange(i as int, i + m)[0] == s@[i as int]);
        assert(s@.subrange(i as int, i + m) != part@) by {
            let t = choose|t: int| 0 <= t < m && s@[i + t] != part@[t];
            assert(s@.subrange(i as int, i + m)[t] == s@[i + t]);
        }
        i = i + 1;
    }
    false
}

/// Whether `c` separates path components on `p`.
pub open spec fn is_separator(c: char, p: Platform) -> bool {
    c == '/' || (p == Platform::Windows && c == '\\')
}

/// The separator that joining inserts on `p`.
pub open spec fn separator(p: Platform) -> char {
    if p == Platform::Windows {
        '\\'
    } else {
        '/'
    }
}

/// `seg` appended to `base` as one more path component: a separator goes
/// between them unless `base` is empty or already ends in one.
pub open spec fn join(base: Seq<char>, seg: Seq<char>, p: Platform) -> Seq<char> {
    if base.len() == 0 || is_separator(base.last(), p) {
        base + seg
    } else {
        base + seq![separator(p)] + seg
    }
}

/// `base` with every component of `segs` appended in order.
pub open spec fn join_all(base: Seq<char>, segs: Seq<Seq<char>>, p: Platform) -> Seq<char>
    decreases segs.len(),
{
    if segs.len() == 0 {
        base
    } else {
        join(join_all(base, segs.drop_last(), p), segs.last(), p)
    }
}

/// Appends `seg` to `base` as one more path component.
pub fn join_path(base: &str, seg: &str, p: Platform) -> (r: String)
    ensures
        r@ == join(base@, seg@, p),
{
    let n = base.unicode_len();
    let mut r = String::from_str(base);
    if n > 0 {
        let c = base.get_char(n - 1);
        let sep_end = c == '/' || (p == Platform::Windows && c == '\\');
        if !sep_end {
            if p == Platform::Windows {
                r.append("\\");
                proof { reveal_strlit("\\"); }
            } else {
                r.append("/");
                proof { reveal_strlit("/"); }
            }
        }
    }
    r.append(seg);
    r
}

/// Appends every component of `segs` to `base`, in order.
pub fn join_segments(base: &str, segs: &Vec<String>, p: Platform) -> (r: String)
    ensures
        r@ == join_all(base@, segs@.map_values(|s: String| s@), p),
{
    let ghost parts = segs@.map_values(|s: String| s@);
    let mut r = String::from_str(base);
    let mut i: usize = 0;
    assert(parts.take(0).len() == 0);
    while i < segs.len()
        invariant
            i <= segs.len(),
            parts == segs@.map_values(|s: String| s@),
            r@ == join_all(base@, parts.take(i as int), p),
        decreases segs.len() - i,
    {
        r = join_path(r.as_str(), segs[i].as_str(), p);
        assert(parts.take(i + 1).drop_last() =~= parts.take(i as int));
        i = i + 1;
    }
    assert(parts.take(segs.len() as int) =~= parts);
    r
}

/// Names what `str::to_lowercase` makes of a text.
pub uninterp spec fn lower_of(s: Seq<char>) -> Seq<char>;

/// Relies on `str::to_lowercase`: the lowercase form of `s`, which depends on
/// the characters of `s` alone.
#[verifier::external_body]
pub(crate) fn lowercase(s: &str) -> (r: String)
    ensures
        r@ == lower_of(s@),
{
    s.to_lowercase()
}

} // verus!
