//! Small verified helpers on byte strings. Paths and file contents are
//! held as `Vec<u8>` throughout the crate and specified over `Seq<u8>`.
use vstd::prelude::*;

verus! {

/// True when `a` and `b` hold the same bytes.
pub fn bytes_eq(a: &[u8], b: &[u8]) -> (r: bool)
    ensures
        r <==> a@ == b@,
{
    if a.len() != b.len() {
        assert(a@ != b@) by {
            assert(a@.len() != b@.len());
        }
        return false;
    }
    let n = a.len();
    let mut i: usize = 0;
    while i < n
        invariant
            n == a@.len() && n == b@.len(),
            0 <= i <= n,
            forall|j: int| 0 <= j < i ==> a@[j] == b@[j],
        decreases n - i,
    {
        if a[i] != b[i] {
            return false;
        }
        i += 1;
    }
    assert(a@ =~= b@);
    true
}

/// True when `s` begins with `prefix`.
pub open spec fn spec_starts_with(s: Seq<u8>, prefix: Seq<u8>) -> bool {
    prefix.len() <= s.len() && s.subrange(0, prefix.len() as int) == prefix
}

pub fn starts_with(s: &[u8], prefix: &[u8]) -> (r: bool)
    ensures
        r <==> spec_starts_with(s@, prefix@),
{
    if prefix.len() > s.len() {
        return false;
    }
    let r = bytes_eq(&s[0..prefix.len()], prefix);
    r
}

/// A fresh vector holding the same bytes as `v`.
pub fn copy_bytes(v: &[u8]) -> (r: Vec<u8>)
    ensures
        r@ == v@,
{
    let mut r: Vec<u8> = Vec::new();
    let n = v.len();
    let mut i: usize = 0;
    while i < n
        invariant
            n == v@.len(),
            0 <= i <= n,
            r@ == v@.subrange(0, i as int),
        decreases n - i,
    {
        r.push(v[i]);
        assert(r@ =~= v@.subrange(0, i + 1 as int));
        i += 1;
    }
    assert(r@ =~= v@);
    r
}

/// `a` followed by `b`.
pub fn concat_bytes(a: &[u8], b: &[u8]) -> (r: Vec<u8>)
    ensures
        r@ == a@ + b@,
{
    let mut r = copy_bytes(a);
    let n = b.len();
    let mut i: usize = 0;
    while i < n
        invariant
            n == b@.len(),
            0 <= i <= n,
            r@ == a@ + b@.subrange(0, i as int),
        decreases n - i,
    {
        r.push(b[i]);
        assert(r@ =~= a@ + b@.subrange(0, i + 1 as int));
        i += 1;
    }
    assert(r@ =~= a@ + b@);
    r
}

/// The bytes of `v` from `from` (inclusive) to `to` (exclusive).
pub fn slice_range(v: &[u8], from: usize, to: usize) -> (r: Vec<u8>)
    requires
        0 <= from <= to <= v@.len(),
    ensures
        r@ == v@.subrange(from as int, to as int),
{
    let r = copy_bytes(&v[from..to]);
    r
}

/// The position of the last occurrence of `b` strictly before `end`,
/// if there is one.
pub open spec fn spec_rfind_before(s: Seq<u8>, b: u8, end: int) -> Option<int>
    decreases end,
{
    if end <= 0 {
        None
    } else if s[end - 1] == b {
        Some(end - 1)
    } else {
        spec_rfind_before(s, b, end - 1)
    }
}

pub fn rfind_before(s: &[u8], b: u8, end: usize) -> (r: Option<usize>)
    requires
        end <= s@.len(),
    ensures
        match r {
            Some(i) => spec_rfind_before(s@, b, end as int) == Some(i as int) && i < end,
            None => spec_rfind_before(s@, b, end as int) is None,
        },
{
    let mut j: usize = end;
    while j > 0
        invariant
            j <= end <= s@.len(),
            spec_rfind_before(s@, b, end as int) == spec_rfind_before(s@, b, j as int),
        decreases j,
    {
        if s[j - 1] == b {
            return Some(j - 1);
        }
        j -= 1;
    }
    None
}

/// True when `needle` occurs somewhere inside `haystack`.
pub open spec fn spec_contains_sub(haystack: Seq<u8>, needle: Seq<u8>) -> bool {
    exists|i: int|
        0 <= i <= haystack.len() - needle.len() && #[trigger] haystack.subrange(
            i,
            i + needle.len(),
        ) == needle
}

pub fn contains_sub(haystack: &[u8], needle: &[u8]) -> (r: bool)
    ensures
        r <==> spec_contains_sub(haystack@, needle@),
{
    if needle.len() > haystack.len() {
        return false;
    }
    if needle.len() == 0 {
        assert(haystack@.subrange(0, 0 + needle@.len() as int) =~= needle@);
        return true;
    }
    let last = haystack.len() - needle.len();
    let mut i: usize = 0;
    while i <= last
        invariant
            1 <= needle@.len() <= haystack@.len(),
            haystack@.len() <= usize::MAX,
            last == haystack@.len() - needle@.len(),
            0 <= i <= last + 1,
            forall|k: int|
                0 <= k < i ==> #[trigger] haystack@.subrange(k, k + needle@.len()) != needle@,
        decreases last + 1 - i,
    {
        if bytes_eq(&haystack[i..i + needle.len()], needle) {
            return true;
        }
        i += 1;
    }
    false
}

/// The position of the first occurrence of `b` at or after `from`, if
/// there is one.
pub open spec fn spec_find_from(s: Seq<u8>, b: u8, from: int) -> Option<int>
    decreases s.len() - from,
{
    if from < 0 || from >= s.len() {
        None
    } else if s[from] == b {
        Some(from)
    } else {
        spec_find_from(s, b, from + 1)
    }
}

pub fn find_from(s: &[u8], b: u8, from: usize) -> (r: Option<usize>)
    ensures
        match r {
            Some(i) => spec_find_from(s@, b, from as int) == Some(i as int) && from <= i
                && i < s@.len(),
            None => spec_find_from(s@, b, from as int) is None,
        },
{
    let n = s.len();
    let mut j: usize = from;
    while j < n
        invariant
            from <= j,
            n == s@.len(),
            spec_find_from(s@, b, from as int) == spec_find_from(s@, b, j as int),
        decreases n - j,
    {
        if s[j] == b {
            return Some(j);
        }
        j += 1;
    }
    None
}

/// Where the backward search finds something, it lies below `end`.
pub proof fn lemma_rfind_bounds(s: Seq<u8>, b: u8, end: int)
    ensures
        match spec_rfind_before(s, b, end) {
            Some(i) => 0 <= i < end,
            None => true,
        },
    decreases end,
{
    if end > 0 {
        lemma_rfind_bounds(s, b, end - 1);
    }
}

/// Searching a concatenation below the boundary sees only the prefix.
pub proof fn lemma_rfind_prefix(x: Seq<u8>, y: Seq<u8>, b: u8, end: int)
    requires
        0 <= end <= x.len(),
    ensures
        spec_rfind_before(x + y, b, end) == spec_rfind_before(x, b, end),
    decreases end,
{
    if end > 0 {
        assert((x + y)[end - 1] == x[end - 1]);
        lemma_rfind_prefix(x, y, b, end - 1);
    }
}

/// Searching a concatenation from above the boundary finds the last
/// occurrence in the suffix, shifted; when the suffix has none, the
/// search falls through to the prefix.
pub proof fn lemma_rfind_concat(x: Seq<u8>, y: Seq<u8>, b: u8, k: int)
    requires
        0 <= k <= y.len(),
    ensures
        match spec_rfind_before(y, b, k) {
            Some(j) => spec_rfind_before(x + y, b, x.len() + k) == Some(x.len() + j),
            None => spec_rfind_before(x + y, b, x.len() + k) == spec_rfind_before(
                x,
                b,
                x.len() as int,
            ),
        },
    decreases k,
{
    if k == 0 {
        lemma_rfind_prefix(x, y, b, x.len() as int);
    } else {
        assert((x + y)[x.len() + k - 1] == y[k - 1]);
        if y[k - 1] == b {
        } else {
            lemma_rfind_concat(x, y, b, k - 1);
        }
    }
}

/// ASCII upper-case letters mapped to lower case; all other bytes kept.
pub open spec fn spec_ascii_lower(b: u8) -> u8 {
    if 65 <= b <= 90 {
        (b + 32) as u8
    } else {
        b
    }
}

pub fn ascii_lower(v: &[u8]) -> (r: Vec<u8>)
    ensures
        r@ == v@.map_values(|b: u8| spec_ascii_lower(b)),
{
    let mut r: Vec<u8> = Vec::new();
    let n = v.len();
    let mut i: usize = 0;
    while i < n
        invariant
            n == v@.len(),
            0 <= i <= n,
            r@ == v@.subrange(0, i as int).map_values(|b: u8| spec_ascii_lower(b)),
        decreases n - i,
    {
        let b = v[i];
        if 65 <= b && b <= 90 {
            r.push(b + 32);
        } else {
            r.push(b);
        }
        assert(r@ =~= v@.subrange(0, i + 1 as int).map_values(|b: u8| spec_ascii_lower(b)));
        i += 1;
    }
    assert(v@.subrange(0, n as int) =~= v@);
    r
}

} // verus!
