use vstd::prelude::*;
use crate::text::{chars_of, strip_leading, strip_leading_start, string_from_range};

verus! {

/// Length of the longest common prefix of `a` and `b`.
pub open spec fn common_prefix_len(a: Seq<char>, b: Seq<char>) -> nat
    decreases a.len(),
{
    if a.len() == 0 || b.len() == 0 || a[0] != b[0] {
        0
    } else {
        1 + common_prefix_len(a.drop_first(), b.drop_first())
    }
}

/// The longest common prefix of `a` and `b`.
pub open spec fn common_prefix(a: Seq<char>, b: Seq<char>) -> Seq<char> {
    a.take(common_prefix_len(a, b) as int)
}

/// What `get_diff_by_prefix` computes: the shared start of two version strings, and what is
/// left of each once every leading copy of that shared start is removed.
pub open spec fn version_diff(xs: Seq<char>, ys: Seq<char>) -> (Seq<char>, Seq<char>, Seq<char>) {
    let base = common_prefix(xs, ys);
    (base, strip_leading(xs, base), strip_leading(ys, base))
}

/// `common_prefix_len` is the length of a common prefix that cannot be extended.
pub proof fn lemma_common_prefix_len(a: Seq<char>, b: Seq<char>)
    ensures
        common_prefix_len(a, b) <= a.len(),
        common_prefix_len(a, b) <= b.len(),
        forall|i: int| 0 <= i < common_prefix_len(a, b) ==> a[i] == b[i],
        common_prefix_len(a, b) < a.len() && common_prefix_len(a, b) < b.len() ==> a[common_prefix_len(a, b) as int]
            != b[common_prefix_len(a, b) as int],
    decreases a.len(),
{
    if a.len() == 0 || b.len() == 0 || a[0] != b[0] {
    } else {
        lemma_common_prefix_len(a.drop_first(), b.drop_first());
        let k = common_prefix_len(a, b);
        assert forall|i: int| 0 <= i < k implies a[i] == b[i] by {
            if i > 0 {
                assert(a[i] == a.drop_first()[i - 1]);
                assert(b[i] == b.drop_first()[i - 1]);
            }
        }
        if k < a.len() && k < b.len() {
            assert(a[k as int] == a.drop_first()[k - 1]);
            assert(b[k as int] == b.drop_first()[k - 1]);
        }
    }
}

/// A common prefix that cannot be extended has length `common_prefix_len`.
pub proof fn lemma_common_prefix_len_unique(a: Seq<char>, b: Seq<char>, k: nat)
    requires
        k <= a.len(),
        k <= b.len(),
        forall|i: int| 0 <= i < k ==> a[i] == b[i],
        k < a.len() && k < b.len() ==> a[k as int] != b[k as int],
    ensures
        common_prefix_len(a, b) == k,
    decreases a.len(),
{
    if k > 0 {
        assert(a[0] == b[0]);
        assert forall|i: int| 0 <= i < k - 1 implies a.drop_first()[i] == b.drop_first()[i] by {
            assert(a[i + 1] == b[i + 1]);
        }
        if k - 1 < a.len() - 1 && k - 1 < b.len() - 1 {
            assert(a.drop_first()[k - 1] == a[k as int]);
            assert(b.drop_first()[k - 1] == b[k as int]);
        }
        lemma_common_prefix_len_unique(a.drop_first(), b.drop_first(), (k - 1) as nat);
    }
}

/// Splits two version strings into the part they share at the start and the parts that
/// differ: `(shared, rest of xs, rest of ys)`. The shared part is the longest common
/// prefix, and every leading copy of it is trimmed from each string, as
/// `str::trim_start_matches` does.
pub fn get_diff_by_prefix(xs: &str, ys: &str) -> (r: (String, String, String))
    ensures
        r.0@ == version_diff(xs@, ys@).0,
        r.1@ == version_diff(xs@, ys@).1,
        r.2@ == version_diff(xs@, ys@).2,
{
    let xv = chars_of(xs);
    let yv = chars_of(ys);
    let mut k: usize = 0;
    while k < xv.len() && k < yv.len() && xv[k] == yv[k]
        invariant
            xv@ == xs@,
            yv@ == ys@,
            k <= xv.len(),
            k <= yv.len(),
            forall|i: int| 0 <= i < k ==> xv@[i] == yv@[i],
        decreases xv.len() - k,
    {
        k = k + 1;
    }
    proof {
        lemma_common_prefix_len_unique(xs@, ys@, k as nat);
    }
    let base = string_from_range(&xv, 0, k);
    assert(xv@.subrange(0, k as int) =~= xv@.take(k as int));
    let bv = chars_of(base.as_str());
    assert(ys@.take(k as int) =~= bv@);
    let xstart = strip_leading_start(&xv, &bv);
    let ystart = strip_leading_start(&yv, &bv);
    let xrest = string_from_range(&xv, xstart, xv.len());
    let yrest = string_from_range(&yv, ystart, yv.len());
    assert(xv@.subrange(xstart as int, xv@.len() as int) =~= xv@.skip(xstart as int));
    assert(yv@.subrange(ystart as int, yv@.len() as int) =~= yv@.skip(ystart as int));
    (base, xrest, yrest)
}

} // verus!

verus! {

proof fn lemma_common_prefix_len_symmetric(a: Seq<char>, b: Seq<char>)
    ensures
        common_prefix_len(a, b) == common_prefix_len(b, a),
    decreases a.len(),
{
    if a.len() == 0 || b.len() == 0 || a[0] != b[0] {
    } else {
        lemma_common_prefix_len_symmetric(a.drop_first(), b.drop_first());
    }
}

proof fn lemma_strip_leading_is_suffix(s: Seq<char>, p: Seq<char>)
    ensures
        strip_leading(s, p).is_suffix_of(s),
    decreases s.len(),
{
    if p.len() > 0 && p.is_prefix_of(s) {
        lemma_strip_leading_is_suffix(s.skip(p.len() as int), p);
        let r = strip_leading(s, p);
        let t = s.skip(p.len() as int);
        assert(r =~= s.subrange(s.len() - r.len(), s.len() as int)) by {
            assert forall|i: int| 0 <= i < r.len() implies r[i] == s[s.len() - r.len() + i] by {
                assert(r[i] == t[t.len() - r.len() + i]);
            }
        }
    } else {
        assert(s =~= s.subrange(0, s.len() as int));
    }
}

/// Swapping the two versions swaps the two differing parts and keeps the shared part.
pub proof fn law_version_diff_symmetric(xs: Seq<char>, ys: Seq<char>)
    ensures
        version_diff(ys, xs) == (version_diff(xs, ys).0, version_diff(xs, ys).2, version_diff(xs, ys).1),
{
    lemma_common_prefix_len_symmetric(xs, ys);
    lemma_common_prefix_len(xs, ys);
    let k = common_prefix_len(xs, ys) as int;
    assert(xs.take(k) =~= ys.take(k));
}

/// A version compared with itself is all shared part: both differing parts are empty.
pub proof fn law_version_diff_identical(xs: Seq<char>)
    ensures
        version_diff(xs, xs) == (xs, Seq::<char>::empty(), Seq::<char>::empty()),
{
    lemma_common_prefix_len(xs, xs);
    lemma_common_prefix_len_unique(xs, xs, xs.len());
    assert(xs.take(xs.len() as int) =~= xs);
    if xs.len() > 0 {
        assert(xs.is_prefix_of(xs));
        let t = xs.skip(xs.len() as int);
        assert(t.len() == 0);
        assert(!xs.is_prefix_of(t));
        assert(strip_leading(t, xs) == t);
        assert(strip_leading(xs, xs) == strip_leading(t, xs));
        assert(t =~= Seq::<char>::empty());
    } else {
        assert(xs =~= Seq::<char>::empty());
    }
}

/// Each differing part is what is left at the end of its version.
pub proof fn law_version_diff_parts_are_suffixes(xs: Seq<char>, ys: Seq<char>)
    ensures
        version_diff(xs, ys).1.is_suffix_of(xs),
        version_diff(xs, ys).2.is_suffix_of(ys),
{
    lemma_strip_leading_is_suffix(xs, version_diff(xs, ys).0);
    lemma_strip_leading_is_suffix(ys, version_diff(xs, ys).0);
}

/// Shared part followed by the differing part gives the version back, unless the shared part
/// repeats right after itself in that version (then more than one copy is trimmed; for
/// `"aa"` against `"a"` the shared part is `"a"` and the rest of `"aa"` is empty).
pub proof fn law_version_diff_reassembles(xs: Seq<char>, ys: Seq<char>)
    requires
        !(common_prefix(xs, ys).len() > 0 && common_prefix(xs, ys).is_prefix_of(
            xs.skip(common_prefix(xs, ys).len() as int),
        )),
    ensures
        version_diff(xs, ys).0 + version_diff(xs, ys).1 == xs,
{
    lemma_common_prefix_len(xs, ys);
    let base = common_prefix(xs, ys);
    let k = base.len() as int;
    if k > 0 {
        assert(base.is_prefix_of(xs)) by {
            assert(base =~= xs.subrange(0, k));
        }
        let t = xs.skip(k);
        assert(strip_leading(t, base) == t);
        assert(base + t =~= xs);
    } else {
        assert(base + xs =~= xs);
    }
}

} // verus!
