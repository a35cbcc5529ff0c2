//! An association list from byte-string keys to byte-string values, and a
//! snapshot model of the filesystem slice a build works against. A later
//! entry for a key shadows an earlier one, so pushing is inserting.
use vstd::prelude::*;
use crate::bytes::bytes_eq;

verus! {

/// Last-match lookup over a sequence of key/value pairs.
pub open spec fn spec_lookup(pairs: Seq<(Seq<u8>, Seq<u8>)>, k: Seq<u8>) -> Option<Seq<u8>>
    decreases pairs.len(),
{
    if pairs.len() == 0 {
        None
    } else if pairs.last().0 == k {
        Some(pairs.last().1)
    } else {
        spec_lookup(pairs.drop_last(), k)
    }
}

/// Map from byte-string keys to byte-string values; the entry pushed
/// last wins.
pub struct ByteMap {
    pub pairs: Vec<(Vec<u8>, Vec<u8>)>,
}

impl View for ByteMap {
    type V = Seq<(Seq<u8>, Seq<u8>)>;

    open spec fn view(&self) -> Seq<(Seq<u8>, Seq<u8>)> {
        self.pairs@.map_values(|p: (Vec<u8>, Vec<u8>)| (p.0@, p.1@))
    }
}

impl ByteMap {
    pub fn new() -> (r: ByteMap)
        ensures
            r@ == Seq::<(Seq<u8>, Seq<u8>)>::empty(),
    {
        let r = ByteMap { pairs: Vec::new() };
        assert(r@ =~= Seq::<(Seq<u8>, Seq<u8>)>::empty());
        r
    }

    pub open spec fn spec_get(&self, k: Seq<u8>) -> Option<Seq<u8>> {
        spec_lookup(self@, k)
    }

    pub fn get(&self, k: &[u8]) -> (r: Option<&Vec<u8>>)
        ensures
            match r {
                Some(v) => self.spec_get(k@) == Some(v@),
                None => self.spec_get(k@) is None,
            },
    {
        let n = self.pairs.len();
        let mut i: usize = n;
        assert(self@.subrange(0, n as int) =~= self@);
        while i > 0
            invariant
                0 <= i <= n,
                n == self@.len(),
                spec_lookup(self@, k@) == spec_lookup(self@.subrange(0, i as int), k@),
            decreases i,
        {
            assert(self@.subrange(0, i as int).last() == self@[i - 1]);
            assert(self@.subrange(0, i as int).drop_last() =~= self@.subrange(0, i - 1));
            if bytes_eq(self.pairs[i - 1].0.as_slice(), k) {
                return Some(&self.pairs[i - 1].1);
            }
            i -= 1;
        }
        assert(self@.subrange(0, 0) =~= Seq::<(Seq<u8>, Seq<u8>)>::empty());
        None
    }

    pub fn contains_key(&self, k: &[u8]) -> (r: bool)
        ensures
            r <==> self.spec_get(k@) is Some,
    {
        self.get(k).is_some()
    }

    /// Adds an entry; it shadows any earlier entry for the same key.
    pub fn insert(&mut self, k: Vec<u8>, v: Vec<u8>)
        ensures
            final(self)@ == old(self)@.push((k@, v@)),
    {
        let ghost kv = (k@, v@);
        self.pairs.push((k, v));
        assert(self@ =~= old(self)@.push(kv));
    }

    pub fn len(&self) -> (r: usize)
        ensures
            r == self@.len(),
    {
        self.pairs.len()
    }
}

/// True when `k` occurs in `items`.
pub open spec fn spec_in_list(items: Seq<Seq<u8>>, k: Seq<u8>) -> bool {
    exists|i: int| 0 <= i < items.len() && items[i] == k
}

pub fn list_contains(items: &Vec<Vec<u8>>, k: &[u8]) -> (r: bool)
    ensures
        r <==> spec_in_list(items.deep_view(), k@),
{
    let n = items.len();
    let mut i: usize = 0;
    while i < n
        invariant
            0 <= i <= n,
            n == items@.len(),
            items.deep_view().len() == items@.len(),
            forall|j: int| 0 <= j < items@.len() ==> items.deep_view()[j] == items@[j]@,
            forall|j: int| 0 <= j < i ==> items.deep_view()[j] != k@,
        decreases n - i,
    {
        if bytes_eq(items[i].as_slice(), k) {
            assert(items.deep_view()[i as int] == k@);
            return true;
        }
        i += 1;
    }
    false
}

/// A read-only snapshot of the part of the filesystem a build reads:
/// file contents by path, and the directories that exist.
pub struct FsModel {
    pub files: ByteMap,
    pub dirs: Vec<Vec<u8>>,
}

impl FsModel {
    pub open spec fn spec_file(&self, path: Seq<u8>) -> Option<Seq<u8>> {
        self.files.spec_get(path)
    }

    pub open spec fn spec_file_exists(&self, path: Seq<u8>) -> bool {
        self.spec_file(path) is Some
    }

    pub open spec fn spec_dir_exists(&self, path: Seq<u8>) -> bool {
        spec_in_list(self.dirs.deep_view(), path)
    }

    /// True when a file or a directory sits at `path`.
    pub open spec fn spec_node_exists(&self, path: Seq<u8>) -> bool {
        self.spec_file_exists(path) || self.spec_dir_exists(path)
    }

    pub fn new() -> (r: FsModel)
        ensures
            r.files@ == Seq::<(Seq<u8>, Seq<u8>)>::empty(),
            r.dirs.deep_view() == Seq::<Seq<u8>>::empty(),
    {
        let r = FsModel { files: ByteMap::new(), dirs: Vec::new() };
        assert(r.dirs.deep_view() =~= Seq::<Seq<u8>>::empty());
        r
    }

    pub fn add_file(&mut self, path: Vec<u8>, content: Vec<u8>)
        ensures
            final(self).files@ == old(self).files@.push((path@, content@)),
            final(self).dirs == old(self).dirs,
    {
        self.files.insert(path, content);
    }

    pub fn add_dir(&mut self, path: Vec<u8>)
        ensures
            final(self).dirs.deep_view() == old(self).dirs.deep_view().push(path@),
            final(self).files == old(self).files,
    {
        let ghost p = path@;
        self.dirs.push(path);
        assert(self.dirs.deep_view() =~~= old(self).dirs.deep_view().push(p));
    }

    pub fn read_file(&self, path: &[u8]) -> (r: Option<&Vec<u8>>)
        ensures
            match r {
                Some(v) => self.spec_file(path@) == Some(v@),
                None => self.spec_file(path@) is None,
            },
    {
        self.files.get(path)
    }

    pub fn file_exists(&self, path: &[u8]) -> (r: bool)
        ensures
            r <==> self.spec_file_exists(path@),
    {
        self.files.contains_key(path)
    }

    pub fn dir_exists(&self, path: &[u8]) -> (r: bool)
        ensures
            r <==> self.spec_dir_exists(path@),
    {
        list_contains(&self.dirs, path)
    }

    pub fn node_exists(&self, path: &[u8]) -> (r: bool)
        ensures
            r <==> self.spec_node_exists(path@),
    {
        self.file_exists(path) || self.dir_exists(path)
    }
}

} // verus!
