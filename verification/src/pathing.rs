//! Path manipulation on `/`-separated byte strings. Paths are handled as
//! plain byte strings; the helpers here mirror the usual component-wise
//! operations for paths that carry no trailing separator.
use vstd::prelude::*;
use crate::bytes::{
    concat_bytes, copy_bytes, rfind_before, slice_range, spec_rfind_before, spec_starts_with,
    starts_with,
};

verus! {

pub const SLASH: u8 = 47;

pub const DOT: u8 = 46;

/// `base` and `tail` joined with a single separator; an empty `base`
/// (or one that already ends in `/`) adds none.
pub open spec fn spec_join(base: Seq<u8>, tail: Seq<u8>) -> Seq<u8> {
    if base.len() == 0 {
        tail
    } else if base[base.len() - 1] == SLASH {
        base + tail
    } else {
        base + seq![SLASH] + tail
    }
}

pub fn path_join(base: &[u8], tail: &[u8]) -> (r: Vec<u8>)
    ensures
        r@ == spec_join(base@, tail@),
{
    if base.len() == 0 {
        return copy_bytes(tail);
    }
    if base[base.len() - 1] == SLASH {
        return concat_bytes(base, tail);
    }
    let mut r = copy_bytes(base);
    r.push(SLASH);
    let r2 = concat_bytes(r.as_slice(), tail);
    assert(r@ =~= base@ + seq![SLASH]);
    r2
}

/// The directory that holds `s`: everything before the last separator.
/// The root `/` and the empty path have no parent; a path without a
/// separator has the empty parent.
pub open spec fn spec_parent(s: Seq<u8>) -> Option<Seq<u8>> {
    if s.len() == 0 || s == seq![SLASH] {
        None
    } else {
        match spec_rfind_before(s, SLASH, s.len() as int) {
            Some(i) => if i == 0 {
                Some(seq![SLASH])
            } else {
                Some(s.subrange(0, i))
            },
            None => Some(Seq::empty()),
        }
    }
}

pub fn path_parent(s: &[u8]) -> (r: Option<Vec<u8>>)
    ensures
        match r {
            Some(p) => spec_parent(s@) == Some(p@),
            None => spec_parent(s@) is None,
        },
{
    if s.len() == 0 {
        return None;
    }
    if s.len() == 1 && s[0] == SLASH {
        assert(s@ =~= seq![SLASH]);
        return None;
    }
    assert(s@ != seq![SLASH]);
    match rfind_before(s, SLASH, s.len()) {
        Some(i) => {
            if i == 0 {
                let mut v: Vec<u8> = Vec::new();
                v.push(SLASH);
                assert(v@ =~= seq![SLASH]);
                Some(v)
            } else {
                Some(slice_range(s, 0, i))
            }
        },
        None => {
            let v: Vec<u8> = Vec::new();
            assert(v@ =~= Seq::<u8>::empty());
            Some(v)
        },
    }
}

/// The final component of `s`: everything after the last separator.
pub open spec fn spec_file_name(s: Seq<u8>) -> Seq<u8> {
    match spec_rfind_before(s, SLASH, s.len() as int) {
        Some(i) => s.subrange(i + 1, s.len() as int),
        None => s,
    }
}

pub fn path_file_name(s: &[u8]) -> (r: Vec<u8>)
    ensures
        r@ == spec_file_name(s@),
{
    match rfind_before(s, SLASH, s.len()) {
        Some(i) => slice_range(s, i + 1, s.len()),
        None => copy_bytes(s),
    }
}

/// Where the extension dot of the final component of `s` sits, if the
/// component has an extension: the last `.` of the component, provided
/// a non-empty stem comes before it.
pub open spec fn spec_ext_dot(s: Seq<u8>) -> Option<int> {
    let name = spec_file_name(s);
    let start = s.len() - name.len();
    match spec_rfind_before(s, DOT, s.len() as int) {
        Some(d) => if d > start {
            Some(d)
        } else {
            None
        },
        None => None,
    }
}

pub open spec fn spec_has_extension(s: Seq<u8>) -> bool {
    spec_ext_dot(s) is Some
}

/// An extension dot sits strictly inside the path.
pub proof fn lemma_ext_dot_bounds(s: Seq<u8>)
    ensures
        match spec_ext_dot(s) {
            Some(d) => 0 < d < s.len(),
            None => true,
        },
{
    crate::bytes::lemma_rfind_bounds(s, DOT, s.len() as int);
    crate::bytes::lemma_rfind_bounds(s, SLASH, s.len() as int);
    match spec_rfind_before(s, SLASH, s.len() as int) {
        Some(i) => {
            assert(spec_file_name(s).len() == s.len() - i - 1);
        },
        None => {
            assert(spec_file_name(s).len() == s.len());
        },
    }
}

/// The extension of the final component, if any: the bytes after its
/// last `.`.
pub open spec fn spec_extension(s: Seq<u8>) -> Option<Seq<u8>> {
    match spec_ext_dot(s) {
        Some(d) => Some(s.subrange(d + 1, s.len() as int)),
        None => None,
    }
}

fn ext_dot(s: &[u8]) -> (r: Option<usize>)
    ensures
        match r {
            Some(d) => spec_ext_dot(s@) == Some(d as int) && d < s@.len(),
            None => spec_ext_dot(s@) is None,
        },
{
    let name_start = match rfind_before(s, SLASH, s.len()) {
        Some(i) => i + 1,
        None => 0,
    };
    assert(name_start as int == s@.len() - spec_file_name(s@).len());
    match rfind_before(s, DOT, s.len()) {
        Some(d) => {
            if d > name_start {
                Some(d)
            } else {
                None
            }
        },
        None => None,
    }
}

pub fn has_extension(s: &[u8]) -> (r: bool)
    ensures
        r <==> spec_has_extension(s@),
{
    ext_dot(s).is_some()
}

pub fn path_extension(s: &[u8]) -> (r: Option<Vec<u8>>)
    ensures
        match r {
            Some(e) => spec_extension(s@) == Some(e@),
            None => spec_extension(s@) is None,
        },
{
    match ext_dot(s) {
        Some(d) => {
            let n = s.len();
            assert(d < n);
            Some(slice_range(s, d + 1, n))
        },
        None => None,
    }
}

/// `s` with its extension replaced by `ext` (or with `.ext` appended when
/// the final component has none).
pub open spec fn spec_with_extension(s: Seq<u8>, ext: Seq<u8>) -> Seq<u8> {
    let stem = match spec_ext_dot(s) {
        Some(d) => s.subrange(0, d),
        None => s,
    };
    stem + seq![DOT] + ext
}

pub fn with_extension(s: &[u8], ext: &[u8]) -> (r: Vec<u8>)
    ensures
        r@ == spec_with_extension(s@, ext@),
{
    let stem = match ext_dot(s) {
        Some(d) => slice_range(s, 0, d),
        None => copy_bytes(s),
    };
    let mut r = stem;
    r.push(DOT);
    let out = concat_bytes(r.as_slice(), ext);
    assert(out@ =~= spec_with_extension(s@, ext@));
    out
}

/// `s` with every leading `./` removed.
pub open spec fn spec_strip_dot_slash(s: Seq<u8>) -> Seq<u8>
    decreases s.len(),
{
    if s.len() >= 2 && s[0] == DOT && s[1] == SLASH {
        spec_strip_dot_slash(s.subrange(2, s.len() as int))
    } else {
        s
    }
}

pub fn strip_dot_slash(s: &[u8]) -> (r: Vec<u8>)
    ensures
        r@ == spec_strip_dot_slash(s@),
{
    let mut from: usize = 0;
    assert(s@.subrange(0, s@.len() as int) =~= s@);
    while from < s.len() && from + 1 < s.len() && s[from] == DOT && s[from + 1] == SLASH
        invariant
            0 <= from <= s@.len(),
            spec_strip_dot_slash(s@) == spec_strip_dot_slash(
                s@.subrange(from as int, s@.len() as int),
            ),
        decreases s@.len() - from,
    {
        assert(s@.subrange(from as int, s@.len() as int).subrange(
            2,
            s@.len() - from as int,
        ) =~= s@.subrange(from + 2 as int, s@.len() as int));
        from += 2;
    }
    let r = slice_range(s, from, s.len());
    r
}

/// Component-wise prefix test for a `prefix` that carries no trailing
/// separator: `path` starts with `prefix` as a whole component chain.
pub open spec fn spec_path_starts_with(path: Seq<u8>, prefix: Seq<u8>) -> bool {
    spec_starts_with(path, prefix) && (prefix.len() == 0 || path.len() == prefix.len()
        || path[prefix.len() as int] == SLASH)
}

pub fn path_starts_with(path: &[u8], prefix: &[u8]) -> (r: bool)
    ensures
        r <==> spec_path_starts_with(path@, prefix@),
{
    if !starts_with(path, prefix) {
        return false;
    }
    prefix.len() == 0 || path.len() == prefix.len() || path[prefix.len()] == SLASH
}

/// The remainder of `path` after a component-wise `prefix`, without its
/// leading separator.
pub open spec fn spec_strip_path_prefix(path: Seq<u8>, prefix: Seq<u8>) -> Seq<u8> {
    if path.len() > prefix.len() && prefix.len() > 0 && path[prefix.len() as int] == SLASH {
        path.subrange(prefix.len() as int + 1, path.len() as int)
    } else {
        path.subrange(prefix.len() as int, path.len() as int)
    }
}

pub fn strip_path_prefix(path: &[u8], prefix: &[u8]) -> (r: Vec<u8>)
    requires
        spec_path_starts_with(path@, prefix@),
    ensures
        r@ == spec_strip_path_prefix(path@, prefix@),
{
    if path.len() > prefix.len() && prefix.len() > 0 && path[prefix.len()] == SLASH {
        slice_range(path, prefix.len() + 1, path.len())
    } else {
        slice_range(path, prefix.len(), path.len())
    }
}

} // verus!
