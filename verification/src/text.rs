use vstd::prelude::*;

verus! {

/// `String::push` appends one character at the end.
pub assume_specification[ String::push ](s: &mut String, ch: char)
    ensures
        final(s)@ == old(s)@.push(ch),
;

/// The characters of `s`, in order, as a vector.
pub fn chars_of(s: &str) -> (r: Vec<char>)
    ensures
        r@ == s@,
{
    let mut r: Vec<char> = Vec::new();
    for c in it: s.chars()
        invariant
            r@ == it.seq().take(it.index() as int),
    {
        r.push(c);
    }
    r
}

/// A `String` holding the characters `v[from..to]`.
pub fn string_from_range(v: &Vec<char>, from: usize, to: usize) -> (r: String)
    requires
        from <= to <= v.len(),
    ensures
        r@ == v@.subrange(from as int, to as int),
{
    let mut r = String::new();
    let mut i = from;
    while i < to
        invariant
            from <= i <= to <= v.len(),
            r@ == v@.subrange(from as int, i as int),
        decreases to - i,
    {
        r.push(v[i]);
        assert(v@.subrange(from as int, i + 1) == v@.subrange(from as int, i as int).push(v@[i as int]));
        i = i + 1;
    }
    r
}

/// A `String` holding all the characters of `v`.
pub fn string_from_chars(v: &Vec<char>) -> (r: String)
    ensures
        r@ == v@,
{
    let r = string_from_range(v, 0, v.len());
    assert(v@.subrange(0, v@.len() as int) == v@);
    r
}

} // verus!

verus! {

/// Whether `p` occurs in `v` starting at position `start`.
pub fn has_infix_at(v: &Vec<char>, start: usize, p: &Vec<char>) -> (r: bool)
    requires
        start <= v.len(),
    ensures
        r == (p@.len() <= v@.len() - start && p@ =~= v@.subrange(start as int, start + p@.len())),
{
    if p.len() > v.len() - start {
        return false;
    }
    let mut i: usize = 0;
    while i < p.len()
        invariant
            start <= v.len(),
            p@.len() <= v@.len() - start,
            0 <= i <= p.len(),
            forall|j: int| 0 <= j < i ==> p@[j] == v@[start + j],
        decreases p.len() - i,
    {
        if p[i] != v[start + i] {
            assert(p@[i as int] != v@.subrange(start as int, start + p@.len())[i as int]);
            return false;
        }
        i = i + 1;
    }
    true
}

/// `s` with every leading copy of a non-empty `p` removed, as `str::trim_start_matches`
/// does with a string pattern; an empty `p` leaves `s` unchanged.
pub open spec fn strip_leading(s: Seq<char>, p: Seq<char>) -> Seq<char>
    decreases s.len(),
{
    if p.len() > 0 && p.is_prefix_of(s) {
        strip_leading(s.skip(p.len() as int), p)
    } else {
        s
    }
}

/// `s` with every trailing copy of a non-empty `p` removed, as `str::trim_end_matches`
/// does with a string pattern; an empty `p` leaves `s` unchanged.
pub open spec fn strip_trailing(s: Seq<char>, p: Seq<char>) -> Seq<char>
    decreases s.len(),
{
    if p.len() > 0 && p.is_suffix_of(s) {
        strip_trailing(s.take(s.len() - p.len()), p)
    } else {
        s
    }
}

/// The position in `v` at which `strip_leading(v, p)` starts.
pub fn strip_leading_start(v: &Vec<char>, p: &Vec<char>) -> (start: usize)
    ensures
        start <= v.len(),
        v@.skip(start as int) == strip_leading(v@, p@),
{
    let mut start: usize = 0;
    assert(v@.skip(0) =~= v@);
    if p.len() == 0 {
        return 0;
    }
    while has_infix_at(v, start, p)
        invariant
            p@.len() > 0,
            start <= v.len(),
            strip_leading(v@.skip(start as int), p@) == strip_leading(v@, p@),
        decreases v.len() - start,
    {
        assert(p@.is_prefix_of(v@.skip(start as int))) by {
            assert(v@.skip(start as int).subrange(0, p@.len() as int) =~= v@.subrange(
                start as int,
                start + p@.len(),
            ));
        }
        assert(v@.skip(start as int).skip(p@.len() as int) =~= v@.skip(start + p@.len()));
        start = start + p.len();
    }
    assert(!p@.is_prefix_of(v@.skip(start as int))) by {
        if p@.is_prefix_of(v@.skip(start as int)) {
            assert(v@.skip(start as int).subrange(0, p@.len() as int) =~= v@.subrange(
                start as int,
                start + p@.len(),
            ));
        }
    }
    start
}

/// `s` with every leading copy of `p` removed (`str::trim_start_matches` with a string pattern).
pub fn trim_start_matches(s: &str, p: &str) -> (r: String)
    ensures
        r@ == strip_leading(s@, p@),
{
    let v = chars_of(s);
    let pv = chars_of(p);
    let start = strip_leading_start(&v, &pv);
    let r = string_from_range(&v, start, v.len());
    assert(v@.subrange(start as int, v@.len() as int) =~= v@.skip(start as int));
    r
}

/// The position in `v` at which `strip_trailing(v, p)` ends.
pub fn strip_trailing_end(v: &Vec<char>, p: &Vec<char>) -> (end: usize)
    ensures
        end <= v.len(),
        v@.take(end as int) == strip_trailing(v@, p@),
{
    let mut end: usize = v.len();
    assert(v@.take(v@.len() as int) =~= v@);
    if p.len() == 0 {
        return end;
    }
    while end >= p.len() && has_infix_at(v, end - p.len(), p)
        invariant
            p@.len() > 0,
            end <= v.len(),
            strip_trailing(v@.take(end as int), p@) == strip_trailing(v@, p@),
        decreases end,
    {
        assert(p@.is_suffix_of(v@.take(end as int))) by {
            assert(v@.take(end as int).subrange(end - p@.len(), end as int) =~= v@.subrange(
                end - p@.len(),
                end - p@.len() + p@.len(),
            ));
        }
        assert(v@.take(end as int).take(end - p@.len()) =~= v@.take(end - p@.len()));
        end = end - p.len();
    }
    assert(!p@.is_suffix_of(v@.take(end as int))) by {
        if p@.is_suffix_of(v@.take(end as int)) {
            assert(v@.take(end as int).subrange(end - p@.len(), end as int) =~= v@.subrange(
                end - p@.len(),
                end - p@.len() + p@.len(),
            ));
        }
    }
    end
}

/// `s` with every trailing copy of `p` removed (`str::trim_end_matches` with a string pattern).
pub fn trim_end_matches(s: &str, p: &str) -> (r: String)
    ensures
        r@ == strip_trailing(s@, p@),
{
    let v = chars_of(s);
    let pv = chars_of(p);
    let end = strip_trailing_end(&v, &pv);
    let r = string_from_range(&v, 0, end);
    assert(v@.subrange(0, end as int) =~= v@.take(end as int));
    r
}

} // verus!

verus! {

/// The decimal digit character for `d < 10`.
pub open spec fn digit_char(d: nat) -> char {
    (48 + d) as char
}

/// The decimal digits of `n`, most significant first, without leading zeros (`"0"` for 0).
pub open spec fn decimal_digits(n: nat) -> Seq<char>
    decreases n,
{
    if n < 10 {
        seq![digit_char(n)]
    } else {
        decimal_digits(n / 10).push(digit_char(n % 10))
    }
}

/// The decimal text of `i`, as `to_string` writes an integer: a `-` before negative numbers.
pub open spec fn decimal_text(i: int) -> Seq<char> {
    if i < 0 {
        seq!['-'] + decimal_digits((-i) as nat)
    } else {
        decimal_digits(i as nat)
    }
}

fn push_decimal_digits(n: u64, s: &mut String)
    ensures
        final(s)@ == old(s)@ + decimal_digits(n as nat),
    decreases n,
{
    if n >= 10 {
        push_decimal_digits(n / 10, s);
    }
    let d: u8 = (n % 10) as u8;
    s.push((48u8 + d) as char);
    assert(final(s)@ =~= old(s)@ + decimal_digits(n as nat));
}

/// The decimal text of an unsigned number (`u64::to_string`).
pub fn u64_to_decimal(n: u64) -> (r: String)
    ensures
        r@ == decimal_text(n as int),
{
    let mut s = String::new();
    push_decimal_digits(n, &mut s);
    assert(s@ =~= decimal_digits(n as nat));
    s
}

/// The decimal text of a signed number (`i64::to_string`).
pub fn i64_to_decimal(i: i64) -> (r: String)
    ensures
        r@ == decimal_text(i as int),
{
    let mut s = String::new();
    if i < 0 {
        s.push('-');
        let magnitude: u64 = if i == i64::MIN {
            9223372036854775808u64
        } else {
            (-i) as u64
        };
        push_decimal_digits(magnitude, &mut s);
    } else {
        push_decimal_digits(i as u64, &mut s);
        assert(s@ =~= decimal_digits(i as nat));
    }
    s
}

} // verus!

verus! {

/// Whether `needle` occurs in `hay` as a run of consecutive characters (`str::contains`
/// with a string pattern; the empty needle occurs everywhere).
pub open spec fn has_substring(hay: Seq<char>, needle: Seq<char>) -> bool {
    exists|i: int|
        0 <= i && i + needle.len() <= hay.len() && #[trigger] hay.subrange(i, i + needle.len())
            == needle
}

/// Whether two strings hold the same characters.
pub fn str_eq(a: &str, b: &str) -> (r: bool)
    ensures
        r == (a@ == b@),
{
    let av = chars_of(a);
    let bv = chars_of(b);
    if av.len() != bv.len() {
        return false;
    }
    let r = has_infix_at(&av, 0, &bv);
    assert(av@.subrange(0, bv@.len() as int) =~= av@);
    r
}

/// Whether `needle` occurs in `hay` (`str::contains` with a string pattern).
pub fn contains_str(hay: &str, needle: &str) -> (r: bool)
    ensures
        r == has_substring(hay@, needle@),
{
    let hv = chars_of(hay);
    let nv = chars_of(needle);
    if nv.len() > hv.len() {
        return false;
    }
    let mut i: usize = 0;
    while i <= hv.len() - nv.len()
        invariant
            hv@ == hay@,
            nv@ == needle@,
            nv.len() <= hv.len(),
            i <= hv.len() - nv.len() + 1,
            forall|j: int| 0 <= j < i ==> #[trigger] hay@.subrange(j, j + needle@.len()) != needle@,
        decreases hv.len() - nv.len() + 1 - i,
    {
        if has_infix_at(&hv, i, &nv) {
            assert(hay@.subrange(i as int, i + needle@.len()) == needle@);
            return true;
        }
        i = i + 1;
    }
    false
}

/// The characters of `s` before its first `stop` (all of `s` if there is none), as
/// `s.chars().take_while(|&c| c != stop)` collects them.
pub open spec fn prefix_before(s: Seq<char>, stop: char) -> Seq<char>
    decreases s.len(),
{
    if s.len() == 0 || s[0] == stop {
        Seq::<char>::empty()
    } else {
        seq![s[0]] + prefix_before(s.drop_first(), stop)
    }
}

proof fn lemma_prefix_before_step(s: Seq<char>, stop: char, i: int)
    requires
        0 <= i < s.len(),
        forall|j: int| 0 <= j <= i ==> s[j] != stop,
        prefix_before(s, stop) == s.take(i) + prefix_before(s.skip(i), stop),
    ensures
        prefix_before(s, stop) == s.take(i + 1) + prefix_before(s.skip(i + 1), stop),
{
    let t = s.skip(i);
    assert(t[0] == s[i]);
    assert(t.drop_first() =~= s.skip(i + 1));
    assert(prefix_before(t, stop) == seq![t[0]] + prefix_before(t.drop_first(), stop));
    assert(s.take(i) + (seq![s[i]] + prefix_before(s.skip(i + 1), stop)) =~= s.take(i + 1)
        + prefix_before(s.skip(i + 1), stop));
}

/// The characters of `s` before its first `stop`.
pub fn take_before(s: &str, stop: char) -> (r: String)
    ensures
        r@ == prefix_before(s@, stop),
{
    let v = chars_of(s);
    let mut i: usize = 0;
    assert(s@.take(0) + prefix_before(s@.skip(0), stop) =~= prefix_before(s@, stop)) by {
        assert(s@.skip(0) =~= s@);
    }
    while i < v.len() && v[i] != stop
        invariant
            v@ == s@,
            i <= v.len(),
            forall|j: int| 0 <= j < i ==> s@[j] != stop,
            prefix_before(s@, stop) == s@.take(i as int) + prefix_before(s@.skip(i as int), stop),
        decreases v.len() - i,
    {
        proof {
            lemma_prefix_before_step(s@, stop, i as int);
        }
        i = i + 1;
    }
    assert(prefix_before(s@.skip(i as int), stop) =~= Seq::<char>::empty());
    let r = string_from_range(&v, 0, i);
    assert(v@.subrange(0, i as int) =~= s@.take(i as int) + Seq::<char>::empty());
    r
}

/// What `str::to_lowercase` gives for a string (Unicode lowercase mapping).
pub uninterp spec fn lowercase(s: Seq<char>) -> Seq<char>;

/// Whether a character is an ASCII character.
pub open spec fn is_ascii_char(c: char) -> bool {
    (c as int) < 128
}

/// Whether every character of a text is an ASCII character.
pub open spec fn is_ascii_text(s: Seq<char>) -> bool {
    forall|i: int| 0 <= i < s.len() ==> is_ascii_char(#[trigger] s[i])
}

/// The ASCII lowercase of a character: `A`..`Z` become `a`..`z`, all else stays.
pub open spec fn ascii_lower_char(c: char) -> char {
    if 'A' <= c && c <= 'Z' {
        ((c as int) + 32) as char
    } else {
        c
    }
}

/// Calls `str::to_lowercase`. Claimed: the result is the one `lowercase` names for the
/// input; for an all-ASCII input, as std documents for ASCII characters, each of `A`..`Z`
/// becomes its lowercase letter and every other character stays. The Unicode mapping of
/// other characters is not stated.
#[verifier::external_body]
pub(crate) fn to_lowercase(s: &str) -> (r: String)
    ensures
        r@ == lowercase(s@),
        is_ascii_text(s@) ==> r@ == s@.map_values(|c: char| ascii_lower_char(c)),
{
    s.to_lowercase()
}

} // verus!
