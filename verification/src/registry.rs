//! Workspace discovery: the package manifest model, the walk upward to
//! the workspace root, and the index of internal packages built from one
//! recursive directory walk.
use vstd::prelude::*;
use crate::bytes::{bytes_eq, concat_bytes, copy_bytes, find_from, spec_find_from};
use crate::jsonio::{json_data, json_doc, json_get, json_is_list, json_is_null, json_parse, JsonData};
use crate::options::{lemma_pairs_to_map, pairs_to_map, view_bytes_list};
use crate::parse::{obj_of, spec_text_list_value, text_list_value, texts_ok, texts_vals};
use crate::pathing::{
    path_file_name, path_join, path_parent, path_starts_with, spec_file_name, spec_join,
    spec_parent, spec_path_starts_with, SLASH,
};
use crate::store::{ByteMap, FsModel};
use crate::words::{
    spec_w_dependencies, spec_w_dist, spec_w_name, spec_w_node_modules, spec_w_nohoist,
    spec_w_package_json, spec_w_packages, spec_w_workspaces, w_dependencies, w_dist, w_name,
    w_node_modules, w_nohoist, w_package_json, w_packages, w_workspaces,
};

verus! {

/// Ghost image of a workspaces declaration.
pub enum WorkspacesV {
    Npm(Seq<Seq<u8>>),
    Yarn { packages: Seq<Seq<u8>>, nohoist: Seq<Seq<u8>> },
}

/// The richer workspaces declaration: package globs and hoisting
/// exceptions.
pub struct YarnConfig {
    pub packages: Vec<Vec<u8>>,
    pub nohoist: Vec<Vec<u8>>,
}

/// A workspaces declaration: either a plain list of package globs or the
/// richer structure.
pub enum WorkspacesConfig {
    Npm(Vec<Vec<u8>>),
    Yarn(YarnConfig),
}

pub open spec fn view_opt_workspaces(o: Option<WorkspacesConfig>) -> Option<WorkspacesV> {
    match o {
        None => None,
        Some(WorkspacesConfig::Npm(v)) => Some(WorkspacesV::Npm(view_bytes_list(v@))),
        Some(WorkspacesConfig::Yarn(y)) => Some(
            WorkspacesV::Yarn {
                packages: view_bytes_list(y.packages@),
                nohoist: view_bytes_list(y.nohoist@),
            },
        ),
    }
}

/// Ghost image of `PackageJson`.
pub struct PackageJsonV {
    pub name: Seq<u8>,
    pub workspaces: Option<WorkspacesV>,
    pub dependencies: Option<Map<Seq<u8>, Seq<u8>>>,
}

/// A package manifest: its name, an optional workspaces declaration
/// (whose presence marks the workspace root), and its dependency map.
pub struct PackageJson {
    pub name: Vec<u8>,
    pub workspaces: Option<WorkspacesConfig>,
    pub dependencies: Option<Vec<(Vec<u8>, Vec<u8>)>>,
}

pub open spec fn view_dep_pairs(s: Seq<(Vec<u8>, Vec<u8>)>) -> Seq<(Seq<u8>, Seq<u8>)> {
    Seq::new(s.len(), |i: int| (s[i].0@, s[i].1@))
}

pub open spec fn view_opt_deps(o: Option<Vec<(Vec<u8>, Vec<u8>)>>) -> Option<
    Map<Seq<u8>, Seq<u8>>,
> {
    match o {
        Some(v) => Some(pairs_to_map(view_dep_pairs(v@))),
        None => None,
    }
}

impl View for PackageJson {
    type V = PackageJsonV;

    open spec fn view(&self) -> PackageJsonV {
        PackageJsonV {
            name: self.name@,
            workspaces: view_opt_workspaces(self.workspaces),
            dependencies: view_opt_deps(self.dependencies),
        }
    }
}

/// The manifest with an empty name and nothing else, used when a
/// manifest file is missing or malformed.
pub open spec fn spec_default_package_json() -> PackageJsonV {
    PackageJsonV { name: Seq::empty(), workspaces: None, dependencies: None }
}

impl Default for PackageJson {
    fn default() -> (r: Self)
        ensures
            r@ == spec_default_package_json(),
    {
        let r = PackageJson { name: Vec::new(), workspaces: None, dependencies: None };
        assert(r@ =~~= spec_default_package_json());
        r
    }
}

/// The workspaces member a JSON value denotes: an array of strings, or
/// an object whose `packages` and `nohoist` members are both arrays of
/// strings; anything else is a parse error.
pub open spec fn spec_workspaces_value(d: JsonData) -> Option<WorkspacesV> {
    match d {
        JsonData::List(s) => if texts_ok(s) {
            Some(WorkspacesV::Npm(texts_vals(s)))
        } else {
            None
        },
        JsonData::Object(m) => if m.dom().contains(spec_w_packages()) && m.dom().contains(
            spec_w_nohoist(),
        ) && spec_text_list_value(m[spec_w_packages()]) is Some && spec_text_list_value(
            m[spec_w_nohoist()],
        ) is Some {
            Some(
                WorkspacesV::Yarn {
                    packages: spec_text_list_value(m[spec_w_packages()]).unwrap(),
                    nohoist: spec_text_list_value(m[spec_w_nohoist()]).unwrap(),
                },
            )
        } else {
            None
        },
        _ => None,
    }
}

/// The dependency map a JSON value denotes: an object whose every member
/// is a string.
pub open spec fn spec_deps_value(d: JsonData) -> Option<Map<Seq<u8>, Seq<u8>>> {
    match d {
        JsonData::Object(m) => if forall|k: Seq<u8>|
            m.dom().contains(k) ==> (#[trigger] m[k]) is Text {
            Some(
                Map::new(
                    |k: Seq<u8>| m.dom().contains(k),
                    |k: Seq<u8>|
                        match m[k] {
                            JsonData::Text(t) => t,
                            _ => Seq::empty(),
                        },
                ),
            )
        } else {
            None
        },
        _ => None,
    }
}

/// The manifest a JSON document denotes: `name` is a required string;
/// `workspaces` and `dependencies` are optional with the shapes above.
pub open spec fn spec_package_json_data(d: JsonData) -> Option<PackageJsonV> {
    if !(d is Object) {
        None
    } else {
        let m = obj_of(d);
        if !(m.dom().contains(spec_w_name()) && m[spec_w_name()] is Text) {
            None
        } else {
            let ws: Option<Option<WorkspacesV>> = if !m.dom().contains(spec_w_workspaces()) {
                Some(None)
            } else if m[spec_w_workspaces()] is Null {
                Some(None)
            } else {
                match spec_workspaces_value(m[spec_w_workspaces()]) {
                    Some(w) => Some(Some(w)),
                    None => None,
                }
            };
            let deps: Option<Option<Map<Seq<u8>, Seq<u8>>>> = if !m.dom().contains(
                spec_w_dependencies(),
            ) {
                Some(None)
            } else if m[spec_w_dependencies()] is Null {
                Some(None)
            } else {
                match spec_deps_value(m[spec_w_dependencies()]) {
                    Some(dm) => Some(Some(dm)),
                    None => None,
                }
            };
            if ws is Some && deps is Some {
                match m[spec_w_name()] {
                    JsonData::Text(n) => Some(
                        PackageJsonV {
                            name: n,
                            workspaces: ws.unwrap(),
                            dependencies: deps.unwrap(),
                        },
                    ),
                    _ => None,
                }
            } else {
                None
            }
        }
    }
}

/// What these bytes parse to as a package manifest.
pub open spec fn spec_parse_package_json(bytes: Seq<u8>) -> Option<PackageJsonV> {
    match json_doc(bytes) {
        Some(d) => spec_package_json_data(d),
        None => None,
    }
}

fn workspaces_value(v: &serde_json::Value) -> (r: Option<WorkspacesConfig>)
    ensures
        match r {
            None => spec_workspaces_value(json_data(*v)) is None,
            Some(w) => spec_workspaces_value(json_data(*v)) == view_opt_workspaces(Some(w)),
        },
{
    if json_is_list(v) {
        match text_list_value(v) {
            Some(l) => Some(WorkspacesConfig::Npm(l)),
            None => None,
        }
    } else {
        let packages = match json_get(v, w_packages().as_slice()) {
            Some(f) => match text_list_value(f) {
                Some(l) => l,
                None => return None,
            },
            None => return None,
        };
        let nohoist = match json_get(v, w_nohoist().as_slice()) {
            Some(f) => match text_list_value(f) {
                Some(l) => l,
                None => return None,
            },
            None => return None,
        };
        Some(WorkspacesConfig::Yarn(YarnConfig { packages, nohoist }))
    }
}

fn deps_value(v: &serde_json::Value) -> (r: Option<Vec<(Vec<u8>, Vec<u8>)>>)
    ensures
        match r {
            None => spec_deps_value(json_data(*v)) is None,
            Some(dv) => spec_deps_value(json_data(*v)) == Some(pairs_to_map(view_dep_pairs(dv@))),
        },
{
    match crate::jsonio::json_object_entries(v) {
        None => None,
        Some(es) => {
            let ghost m = obj_of(json_data(*v));
            let mut out: Vec<(Vec<u8>, Vec<u8>)> = Vec::new();
            let n = es.len();
            let mut i: usize = 0;
            while i < n
                invariant
                    0 <= i <= n,
                    n == es@.len(),
                    json_data(*v) is Object,
                    m == obj_of(json_data(*v)),
                    forall|j: int|
                        0 <= j < es@.len() ==> m.dom().contains((#[trigger] es@[j]).0@)
                            && json_data(es@[j].1) == m[es@[j].0@],
                    forall|j: int, k: int|
                        0 <= j < k < es@.len() ==> (#[trigger] es@[j]).0@ != (#[trigger] es@[k]).0@,
                    forall|k: Seq<u8>|
                        m.dom().contains(k) ==> exists|j: int|
                            0 <= j < es@.len() && (#[trigger] es@[j]).0@ == k,
                    out@.len() == i,
                    forall|j: int|
                        0 <= j < i ==> (#[trigger] view_dep_pairs(out@)[j]).0 == es@[j].0@,
                    forall|j: int|
                        0 <= j < i ==> json_data(es@[j].1) == JsonData::Text(
                            (#[trigger] view_dep_pairs(out@)[j]).1,
                        ),
                decreases n - i,
            {
                match crate::jsonio::json_as_text(&es[i].1) {
                    Some(ver) => {
                        let ghost vv = ver@;
                        let key = copy_bytes(es[i].0.as_slice());
                        let ghost kv = key@;
                        let ghost prev = out@;
                        out.push((key, ver));
                        proof {
                            assert forall|j: int| 0 <= j <= i implies (#[trigger] view_dep_pairs(
                                out@,
                            )[j]).0 == es@[j].0@ && json_data(es@[j].1) == JsonData::Text(
                                view_dep_pairs(out@)[j].1,
                            ) by {
                                assert(view_dep_pairs(out@)[j] == (out@[j].0@, out@[j].1@));
                                if j < i {
                                    assert(out@[j] == prev[j]);
                                    assert(view_dep_pairs(prev)[j] == (prev[j].0@, prev[j].1@));
                                }
                            }
                        }
                    },
                    None => {
                        assert(!((m[es@[i as int].0@]) is Text));
                        return None;
                    },
                }
                i += 1;
            }
            proof {
                assert forall|k: Seq<u8>| m.dom().contains(k) implies (#[trigger] m[k]) is Text by {
                    let j = choose|j: int| 0 <= j < es@.len() && (#[trigger] es@[j]).0@ == k;
                    assert(json_data(es@[j].1) == JsonData::Text(view_dep_pairs(out@)[j].1));
                }
                let s = view_dep_pairs(out@);
                lemma_pairs_to_map(s);
                assert forall|j: int, k: int| 0 <= j < k < s.len() implies (#[trigger] s[j]).0 != (
                #[trigger] s[k]).0 by {
                    assert(s[j].0 == es@[j].0@ && s[k].0 == es@[k].0@);
                }
                let target = spec_deps_value(json_data(*v)).unwrap();
                assert forall|k: Seq<u8>| #![auto]
                    pairs_to_map(s).dom().contains(k) <==> target.dom().contains(k) by {
                    if target.dom().contains(k) {
                        let j = choose|j: int| 0 <= j < es@.len() && (#[trigger] es@[j]).0@ == k;
                        assert(s[j].0 == k);
                    }
                }
                assert forall|k: Seq<u8>| #![auto] pairs_to_map(s).dom().contains(k) implies
                    pairs_to_map(s)[k] == target[k] by {
                    let j = choose|j: int| 0 <= j < s.len() && (#[trigger] s[j]).0 == k;
                    assert(pairs_to_map(s)[s[j].0] == s[j].1);
                    assert(json_data(es@[j].1) == JsonData::Text(s[j].1));
                    assert(m[k] == JsonData::Text(s[j].1));
                }
                assert(pairs_to_map(s) =~= target);
            }
            Some(out)
        },
    }
}

/// Parses a package manifest's bytes: `None` exactly when the bytes are
/// not valid JSON or some field has the wrong shape.
pub fn parse_package_json(bytes: &[u8]) -> (r: Option<PackageJson>)
    ensures
        r is Some <==> spec_parse_package_json(bytes@) is Some,
        r matches Some(p) ==> spec_parse_package_json(bytes@) == Some(p@),
{
    let v = match json_parse(bytes) {
        Some(v) => v,
        None => return None,
    };
    if !crate::jsonio::json_is_object(&v) {
        return None;
    }
    let name = match json_get(&v, w_name().as_slice()) {
        Some(f) => match crate::jsonio::json_as_text(f) {
            Some(n) => n,
            None => return None,
        },
        None => return None,
    };
    let workspaces: Option<WorkspacesConfig> = match json_get(&v, w_workspaces().as_slice()) {
        None => None,
        Some(f) => {
            if json_is_null(f) {
                None
            } else {
                match workspaces_value(f) {
                    Some(w) => Some(w),
                    None => return None,
                }
            }
        },
    };
    let dependencies: Option<Vec<(Vec<u8>, Vec<u8>)>> = match json_get(
        &v,
        w_dependencies().as_slice(),
    ) {
        None => None,
        Some(f) => {
            if json_is_null(f) {
                None
            } else {
                match deps_value(f) {
                    Some(dm) => Some(dm),
                    None => return None,
                }
            }
        },
    };
    Some(PackageJson { name, workspaces, dependencies })
}

/// The manifest read at a path of the snapshot: the default manifest
/// when the file is missing or malformed.
pub open spec fn spec_package_json_at(fs: FsModel, path: Seq<u8>) -> PackageJsonV {
    match fs.spec_file(path) {
        Some(bytes) => match spec_parse_package_json(bytes) {
            Some(p) => p,
            None => spec_default_package_json(),
        },
        None => spec_default_package_json(),
    }
}

impl PackageJson {
    /// Reads and parses the manifest at `path`; a missing or malformed
    /// file yields the default manifest.
    pub fn from_path(fs: &FsModel, path: &[u8]) -> (r: PackageJson)
        ensures
            r@ == spec_package_json_at(*fs, path@),
    {
        match fs.read_file(path) {
            Some(bytes) => match parse_package_json(bytes.as_slice()) {
                Some(p) => p,
                None => PackageJson::default(),
            },
            None => PackageJson::default(),
        }
    }
}

/// Whether `dir` is the workspace root: its manifest parses and declares
/// a workspaces list.
pub open spec fn spec_is_workspace_root(fs: FsModel, dir: Seq<u8>) -> bool {
    spec_package_json_at(fs, spec_join(dir, spec_w_package_json())).workspaces is Some
}

/// The nearest directory at or above `start` whose manifest declares a
/// workspaces list.
pub open spec fn spec_find_workspace_root(fs: FsModel, dir: Seq<u8>) -> Option<Seq<u8>>
    decreases dir.len(),
{
    if spec_is_workspace_root(fs, dir) {
        Some(dir)
    } else {
        match spec_parent(dir) {
            Some(p) => if p.len() < dir.len() {
                spec_find_workspace_root(fs, p)
            } else {
                None
            },
            None => None,
        }
    }
}

/// Walks upward from `dir`, testing at each level whether the manifest
/// there declares a workspaces list; `None` when the filesystem root is
/// reached without a match.
pub fn find_workspace_root(fs: &FsModel, dir: &[u8]) -> (r: Option<Vec<u8>>)
    ensures
        match r {
            Some(root) => spec_find_workspace_root(*fs, dir@) == Some(root@),
            None => spec_find_workspace_root(*fs, dir@) is None,
        },
    decreases dir@.len(),
{
    let manifest_path = path_join(dir, w_package_json().as_slice());
    let manifest = PackageJson::from_path(fs, manifest_path.as_slice());
    if manifest.workspaces.is_some() {
        return Some(copy_bytes(dir));
    }
    match path_parent(dir) {
        Some(parent) => {
            if parent.len() < dir.len() {
                find_workspace_root(fs, parent.as_slice())
            } else {
                None
            }
        },
        None => None,
    }
}

/// One entry of a recursive directory walk, in depth-first order.
pub struct WalkEntry {
    pub path: Vec<u8>,
    pub is_dir: bool,
    pub is_symlink: bool,
}

/// Ghost image of `WalkEntry`.
pub struct WalkEntryV {
    pub path: Seq<u8>,
    pub is_dir: bool,
    pub is_symlink: bool,
}

impl View for WalkEntry {
    type V = WalkEntryV;

    open spec fn view(&self) -> WalkEntryV {
        WalkEntryV { path: self.path@, is_dir: self.is_dir, is_symlink: self.is_symlink }
    }
}

pub open spec fn view_entries(s: Seq<WalkEntry>) -> Seq<WalkEntryV> {
    Seq::new(s.len(), |i: int| s[i]@)
}

/// True when `p` sits at or below one of the pruned directories.
pub open spec fn spec_under_any(pruned: Seq<Seq<u8>>, p: Seq<u8>) -> bool {
    exists|i: int| 0 <= i < pruned.len() && spec_path_starts_with(p, #[trigger] pruned[i])
}

pub(crate) fn walk_under_any(pruned: &Vec<Vec<u8>>, p: &[u8]) -> (r: bool)
    ensures
        r <==> spec_under_any(view_bytes_list(pruned@), p@),
{
    let n = pruned.len();
    let mut i: usize = 0;
    while i < n
        invariant
            0 <= i <= n,
            n == pruned@.len(),
            forall|j: int|
                0 <= j < i ==> !spec_path_starts_with(p@, #[trigger] view_bytes_list(pruned@)[j]),
        decreases n - i,
    {
        if path_starts_with(p, pruned[i].as_slice()) {
            assert(spec_path_starts_with(p@, view_bytes_list(pruned@)[i as int]));
            return true;
        }
        i += 1;
    }
    false
}

/// The parent of `p`, or the empty path when it has none.
pub open spec fn spec_parent_or_empty(p: Seq<u8>) -> Seq<u8> {
    match spec_parent(p) {
        Some(q) => q,
        None => Seq::empty(),
    }
}

/// A directory whose whole subtree is left out of the index.
pub open spec fn spec_pruned_dir_name(name: Seq<u8>) -> bool {
    name == spec_w_node_modules() || name == spec_w_dist()
}

/// The package index that one depth-first walk yields: pruned
/// directories' subtrees are dropped, symlinks are never followed, and
/// every manifest file contributes one entry keyed by its declared name,
/// mapped to its directory.
pub open spec fn spec_index_rec(
    fs: FsModel,
    es: Seq<WalkEntryV>,
    pruned: Seq<Seq<u8>>,
    acc: Seq<(Seq<u8>, Seq<u8>)>,
) -> Seq<(Seq<u8>, Seq<u8>)>
    decreases es.len(),
{
    if es.len() == 0 {
        acc
    } else {
        let e = es[0];
        let rest = es.subrange(1, es.len() as int);
        if spec_under_any(pruned, e.path) {
            spec_index_rec(fs, rest, pruned, acc)
        } else if e.is_dir && spec_pruned_dir_name(spec_file_name(e.path)) {
            spec_index_rec(fs, rest, pruned.push(e.path), acc)
        } else if e.is_symlink || e.is_dir || spec_file_name(e.path) != spec_w_package_json() {
            spec_index_rec(fs, rest, pruned, acc)
        } else {
            spec_index_rec(
                fs,
                rest,
                pruned,
                acc.push(
                    (spec_package_json_at(fs, e.path).name, spec_parent_or_empty(e.path)),
                ),
            )
        }
    }
}

pub open spec fn spec_index_packages(fs: FsModel, es: Seq<WalkEntryV>) -> Seq<(Seq<u8>, Seq<u8>)> {
    spec_index_rec(fs, es, Seq::empty(), Seq::empty())
}

/// Builds the internal-package index from one depth-first walk:
/// `node_modules` and build-output subtrees are pruned whole, symlinks
/// are skipped, and each manifest file yields one entry keyed by its
/// declared name, mapped to its parent directory.
pub fn fetch_packages(fs: &FsModel, entries: &Vec<WalkEntry>) -> (r: ByteMap)
    ensures
        r@ == spec_index_packages(*fs, view_entries(entries@)),
{
    let mut pruned: Vec<Vec<u8>> = Vec::new();
    let mut acc = ByteMap::new();
    let n = entries.len();
    let mut i: usize = 0;
    let ghost full = view_entries(entries@);
    proof {
        assert(full.subrange(0, n as int) =~= full);
        assert(view_bytes_list(pruned@) =~= Seq::<Seq<u8>>::empty());
    }
    while i < n
        invariant
            0 <= i <= n,
            n == entries@.len(),
            full == view_entries(entries@),
            spec_index_packages(*fs, full) == spec_index_rec(
                *fs,
                full.subrange(i as int, n as int),
                view_bytes_list(pruned@),
                acc@,
            ),
        decreases n - i,
    {
        let ghost rem = full.subrange(i as int, n as int);
        proof {
            assert(rem[0] == full[i as int]);
            assert(rem.subrange(1, rem.len() as int) =~= full.subrange(i + 1 as int, n as int));
        }
        let entry = &entries[i];
        assert(entry@ == full[i as int]);
        let name = path_file_name(entry.path.as_slice());
        if walk_under_any(&pruned, entry.path.as_slice()) {
            // below a pruned directory: the walk would not have entered it
        } else if entry.is_dir && (bytes_eq(name.as_slice(), w_node_modules().as_slice())
            || bytes_eq(name.as_slice(), w_dist().as_slice())) {
            let ghost pv = view_bytes_list(pruned@);
            pruned.push(copy_bytes(entry.path.as_slice()));
            proof {
                assert(view_bytes_list(pruned@) =~= pv.push(full[i as int].path));
            }
        } else if entry.is_symlink || entry.is_dir
            || !bytes_eq(name.as_slice(), w_package_json().as_slice()) {
            // not a manifest file
        } else {
            let manifest = PackageJson::from_path(fs, entry.path.as_slice());
            let parent = match path_parent(entry.path.as_slice()) {
                Some(p) => p,
                None => Vec::new(),
            };
            assert(parent@ == spec_parent_or_empty(full[i as int].path));
            acc.insert(manifest.name, parent);
        }
        i += 1;
    }
    proof {
        assert(full.subrange(n as int, n as int) =~= Seq::<WalkEntryV>::empty());
    }
    acc
}

/// Why a workspace could not be set up.
#[derive(Debug)]
pub enum WorkspaceError {
    RootNotFound,
}

/// The monorepo registry: the workspace root and the index of internal
/// packages by name.
pub struct Manager {
    pub root: Vec<u8>,
    pub packages: ByteMap,
}

impl Manager {
    /// Finds the workspace root upward from `start_dir` and indexes the
    /// internal packages from `entries`, the depth-first walk of that
    /// root. Fails exactly when no directory at or above `start_dir`
    /// declares a workspaces list.
    pub fn new(fs: &FsModel, start_dir: &[u8], entries: &Vec<WalkEntry>) -> (r: Result<
        Manager,
        WorkspaceError,
    >)
        ensures
            r is Ok <==> spec_find_workspace_root(*fs, start_dir@) is Some,
            r matches Ok(m) ==> spec_find_workspace_root(*fs, start_dir@) == Some(m.root@)
                && m.packages@ == spec_index_packages(*fs, view_entries(entries@)),
    {
        match find_workspace_root(fs, start_dir) {
            Some(root) => Ok(Manager { root, packages: fetch_packages(fs, entries) }),
            None => Err(WorkspaceError::RootNotFound),
        }
    }

    /// The internal packages that the manifest at `package_json_path`
    /// declares as dependencies.
    pub fn fetch_used_dependencies(&self, fs: &FsModel, package_json_path: &[u8]) -> (r: ByteMap)
        ensures
            r@ == spec_used_dependencies(
                self.packages@,
                spec_package_json_at(*fs, package_json_path@).dependencies,
            ),
    {
        let manifest = PackageJson::from_path(fs, package_json_path);
        determine_internal_dependencies(&manifest, &self.packages)
    }
}

/// The pairs of the index whose package name is declared as a
/// dependency, in index order.
pub open spec fn spec_used_dependencies(
    pairs: Seq<(Seq<u8>, Seq<u8>)>,
    deps: Option<Map<Seq<u8>, Seq<u8>>>,
) -> Seq<(Seq<u8>, Seq<u8>)>
    decreases pairs.len(),
{
    if pairs.len() == 0 {
        Seq::empty()
    } else {
        let rest = spec_used_dependencies(pairs.subrange(1, pairs.len() as int), deps);
        let keep = match deps {
            Some(dm) => dm.dom().contains(pairs[0].0),
            None => false,
        };
        if keep {
            seq![pairs[0]] + rest
        } else {
            rest
        }
    }
}

/// True when the manifest declares a dependency of this name.
#[verifier::rlimit(50)]
fn declares_dependency(manifest: &PackageJson, name: &[u8]) -> (r: bool)
    ensures
        r <==> (manifest@.dependencies matches Some(dm) && dm.dom().contains(name@)),
{
    match &manifest.dependencies {
        None => false,
        Some(list) => {
            proof {
                lemma_pairs_to_map(view_dep_pairs(list@));
            }
            let n = list.len();
            let mut i: usize = 0;
            while i < n
                invariant
                    0 <= i <= n,
                    n == list@.len(),
                    manifest@.dependencies == Some(pairs_to_map(view_dep_pairs(list@))),
                    forall|j: int| 0 <= j < i ==> (#[trigger] view_dep_pairs(list@)[j]).0 != name@,
                decreases n - i,
            {
                if bytes_eq(list[i].0.as_slice(), name) {
                    proof {
                        lemma_pairs_to_map(view_dep_pairs(list@));
                        assert((view_dep_pairs(list@)[i as int]).0 == name@);
                        assert(exists|j: int|
                            0 <= j < view_dep_pairs(list@).len() && (#[trigger] view_dep_pairs(
                                list@,
                            )[j]).0 == name@);
                        assert(pairs_to_map(view_dep_pairs(list@)).dom().contains(name@));
                        assert(manifest@.dependencies == Some(
                            pairs_to_map(view_dep_pairs(list@)),
                        ));
                    }
                    return true;
                }
                i += 1;
            }
            assert forall|j: int| 0 <= j < list@.len() implies (#[trigger] view_dep_pairs(
                list@,
            )[j]).0 != name@ by {}
            false
        },
    }
}

/// Intersects the package index with the manifest's declared
/// dependencies: exactly the indexed packages the manifest uses, in
/// index order.
pub fn determine_internal_dependencies(manifest: &PackageJson, packages: &ByteMap) -> (r: ByteMap)
    ensures
        r@ == spec_used_dependencies(packages@, manifest@.dependencies),
{
    let mut acc = ByteMap::new();
    let n = packages.pairs.len();
    let mut i: usize = 0;
    proof {
        assert(packages@.subrange(0, n as int) =~= packages@);
    }
    while i < n
        invariant
            0 <= i <= n,
            n == packages@.len(),
            spec_used_dependencies(packages@, manifest@.dependencies) == acc@
                + spec_used_dependencies(
                packages@.subrange(i as int, n as int),
                manifest@.dependencies,
            ),
        decreases n - i,
    {
        let ghost rem = packages@.subrange(i as int, n as int);
        proof {
            assert(rem[0] == packages@[i as int]);
            assert(rem.subrange(1, rem.len() as int) =~= packages@.subrange(
                i + 1 as int,
                n as int,
            ));
        }
        let key = &packages.pairs[i].0;
        let val = &packages.pairs[i].1;
        assert((key@, val@) == packages@[i as int]);
        if declares_dependency(manifest, key.as_slice()) {
            let ghost accv = acc@;
            acc.insert(copy_bytes(key.as_slice()), copy_bytes(val.as_slice()));
            proof {
                assert(acc@ =~= accv.push(packages@[i as int]));
                assert(accv.push(packages@[i as int]) =~= accv + seq![packages@[i as int]]);
                assert((accv + seq![packages@[i as int]]) + spec_used_dependencies(
                    packages@.subrange(i + 1 as int, n as int),
                    manifest@.dependencies,
                ) =~= accv + (seq![packages@[i as int]] + spec_used_dependencies(
                    packages@.subrange(i + 1 as int, n as int),
                    manifest@.dependencies,
                )));
            }
        }
        i += 1;
    }
    proof {
        assert(packages@.subrange(n as int, n as int) =~= Seq::<(Seq<u8>, Seq<u8>)>::empty());
        assert(acc@ + Seq::<(Seq<u8>, Seq<u8>)>::empty() =~= acc@);
    }
    acc
}

pub const AT: u8 = 64;

/// The scope prefix of a workspace name: everything up to the first
/// `/`, or the whole name when it has none.
pub open spec fn spec_workspace_scope(name: Seq<u8>) -> Seq<u8> {
    match spec_find_from(name, SLASH, 0) {
        Some(i) => name.subrange(0, i),
        None => name,
    }
}

pub fn get_workspace_scope(manifest: &PackageJson) -> (r: Vec<u8>)
    ensures
        r@ == spec_workspace_scope(manifest@.name),
{
    match find_from(manifest.name.as_slice(), SLASH, 0) {
        Some(i) => crate::bytes::slice_range(manifest.name.as_slice(), 0, i),
        None => copy_bytes(manifest.name.as_slice()),
    }
}

/// The bare package name of a scoped name `@scope/name`; a name without
/// a scope, or a scoped name without a `/`, is returned whole.
pub open spec fn spec_unscoped_name(name: Seq<u8>) -> Seq<u8> {
    if name.len() == 0 || name[0] != AT {
        name
    } else {
        match spec_find_from(name, SLASH, 0) {
            Some(p) => match spec_find_from(name, SLASH, p + 1) {
                Some(q) => name.subrange(p + 1, q),
                None => name.subrange(p + 1, name.len() as int),
            },
            None => name,
        }
    }
}

pub fn extract_name_from_scoped_package_name(name: &[u8]) -> (r: Vec<u8>)
    ensures
        r@ == spec_unscoped_name(name@),
{
    if name.len() == 0 || name[0] != AT {
        return copy_bytes(name);
    }
    match find_from(name, SLASH, 0) {
        Some(p) => match find_from(name, SLASH, p + 1) {
            Some(q) => crate::bytes::slice_range(name, p + 1, q),
            None => crate::bytes::slice_range(name, p + 1, name.len()),
        },
        None => copy_bytes(name),
    }
}

/// A name qualified with the workspace scope: a name that already
/// carries a scope is kept, any other gets `scope/` in front.
pub open spec fn spec_scoped_name(name: Seq<u8>, scope: Seq<u8>) -> Seq<u8> {
    if name.len() > 0 && name[0] == AT {
        name
    } else {
        scope + seq![SLASH] + name
    }
}

pub fn determine_scoped_package_name(name: &[u8], scope: &[u8]) -> (r: Vec<u8>)
    ensures
        r@ == spec_scoped_name(name@, scope@),
{
    if name.len() > 0 && name[0] == AT {
        return copy_bytes(name);
    }
    let mut r = copy_bytes(scope);
    r.push(SLASH);
    let out = concat_bytes(r.as_slice(), name);
    assert(out@ =~= scope@ + seq![SLASH] + name@);
    out
}

} // verus!
