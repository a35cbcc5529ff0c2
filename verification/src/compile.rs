//! Compile planning: which files a directory walk feeds to the engine,
//! where each output lands, what gets appended to emitted code, and the
//! deduplicated set of directories already created. The engine itself
//! and all writes stay outside; everything decided here is exact.
use vstd::prelude::*;
use crate::bytes::{bytes_eq, concat_bytes, copy_bytes};
use crate::options::view_bytes_list;
use crate::bytes::{lemma_rfind_bounds, lemma_rfind_concat, spec_rfind_before};
use crate::pathing::{
    path_file_name, path_join, path_starts_with, spec_ext_dot, spec_file_name, spec_join,
    spec_path_starts_with, spec_strip_path_prefix, spec_with_extension, strip_path_prefix,
    with_extension, DOT, SLASH,
};
use crate::registry::{spec_under_any, WalkEntry, WalkEntryV, view_entries};
use crate::selector::{
    check_to_ignore_dir, globset_is_match, globset_patterns, spec_ignore_dir, spec_set_matches,
    GlobSetConfig,
};
use crate::store::spec_in_list;
use crate::words::{
    spec_w_js, spec_w_js_map, spec_w_json, spec_w_source_map_marker, spec_w_ts, spec_w_tsx, w_js,
    w_js_map, w_json, w_source_map_marker, w_ts, w_tsx,
};

verus! {

/// What one build invocation is asked to do.
pub struct TranspileOptions {
    pub input_path: Vec<u8>,
    pub out_dir: Vec<u8>,
    pub config_path: Vec<u8>,
    pub clean: bool,
    pub bundle: bool,
}

/// Ghost image of `TranspileOptions`.
pub struct TranspileOptionsV {
    pub input_path: Seq<u8>,
    pub out_dir: Seq<u8>,
    pub config_path: Seq<u8>,
    pub clean: bool,
    pub bundle: bool,
}

impl View for TranspileOptions {
    type V = TranspileOptionsV;

    open spec fn view(&self) -> TranspileOptionsV {
        TranspileOptionsV {
            input_path: self.input_path@,
            out_dir: self.out_dir@,
            config_path: self.config_path@,
            clean: self.clean,
            bundle: self.bundle,
        }
    }
}

/// The input path as the engine wants it: the working directory
/// stripped off when the path lies under it, and a leading `./` marker
/// removed (unless the path is just `.`).
pub open spec fn spec_prepare_input(input: Seq<u8>, app_dir: Seq<u8>) -> Seq<u8> {
    let p = if spec_path_starts_with(input, app_dir) {
        spec_strip_path_prefix(input, app_dir)
    } else {
        input
    };
    if p.len() >= 2 && p[0] == DOT && p[1] == SLASH && p != seq![DOT] {
        p.subrange(2, p.len() as int)
    } else {
        p
    }
}

pub fn prepare_input_path(input: &[u8], app_dir: &[u8]) -> (r: Vec<u8>)
    ensures
        r@ == spec_prepare_input(input@, app_dir@),
{
    let p: Vec<u8> = if path_starts_with(input, app_dir) {
        strip_path_prefix(input, app_dir)
    } else {
        copy_bytes(input)
    };
    if p.len() >= 2 && p[0] == DOT && p[1] == SLASH {
        assert(p@ != seq![DOT]);
        crate::bytes::slice_range(p.as_slice(), 2, p.len())
    } else {
        p
    }
}

/// Where the compiled code of `input` lands: the output directory joined
/// with the input's path, the extension substituted.
pub open spec fn spec_output_file(out_dir: Seq<u8>, input: Seq<u8>) -> Seq<u8> {
    spec_with_extension(spec_join(out_dir, input), spec_w_js())
}

/// Where the source map of `input` lands: beside the compiled code.
pub open spec fn spec_source_map_file(out_dir: Seq<u8>, input: Seq<u8>) -> Seq<u8> {
    spec_with_extension(spec_output_file(out_dir, input), spec_w_js_map())
}

/// One file to hand to the engine, with both its target paths.
pub struct CompileJob {
    pub input: Vec<u8>,
    pub output_file: Vec<u8>,
    pub source_map_file: Vec<u8>,
}

/// Ghost image of `CompileJob`.
pub struct CompileJobV {
    pub input: Seq<u8>,
    pub output_file: Seq<u8>,
    pub source_map_file: Seq<u8>,
}

impl View for CompileJob {
    type V = CompileJobV;

    open spec fn view(&self) -> CompileJobV {
        CompileJobV {
            input: self.input@,
            output_file: self.output_file@,
            source_map_file: self.source_map_file@,
        }
    }
}

pub open spec fn spec_compile_job(out_dir: Seq<u8>, input: Seq<u8>) -> CompileJobV {
    CompileJobV {
        input: input,
        output_file: spec_output_file(out_dir, input),
        source_map_file: spec_source_map_file(out_dir, input),
    }
}

/// Lays out the target paths for one input file.
pub fn plan_compile_file(input: &[u8], out_dir: &[u8]) -> (r: CompileJob)
    ensures
        r@ == spec_compile_job(out_dir@, input@),
{
    let joined = path_join(out_dir, input);
    let output_file = with_extension(joined.as_slice(), w_js().as_slice());
    let source_map_file = with_extension(output_file.as_slice(), w_js_map().as_slice());
    CompileJob { input: copy_bytes(input), output_file, source_map_file }
}

/// True when the extension is one the walk collects for compilation.
pub open spec fn spec_walk_compile_ext(p: Seq<u8>) -> bool {
    match crate::pathing::spec_extension(p) {
        Some(e) => e == spec_w_ts() || e == spec_w_tsx() || e == spec_w_js(),
        None => false,
    }
}

/// True when the extension marks a JSON passthrough candidate.
pub open spec fn spec_walk_json_ext(p: Seq<u8>) -> bool {
    match crate::pathing::spec_extension(p) {
        Some(e) => e == spec_w_json(),
        None => false,
    }
}

fn walk_compile_ext(p: &[u8]) -> (r: bool)
    ensures
        r == spec_walk_compile_ext(p@),
{
    match crate::pathing::path_extension(p) {
        Some(e) => bytes_eq(e.as_slice(), w_ts().as_slice()) || bytes_eq(
            e.as_slice(),
            w_tsx().as_slice(),
        ) || bytes_eq(e.as_slice(), w_js().as_slice()),
        None => false,
    }
}

fn walk_json_ext(p: &[u8]) -> (r: bool)
    ensures
        r == spec_walk_json_ext(p@),
{
    match crate::pathing::path_extension(p) {
        Some(e) => bytes_eq(e.as_slice(), w_json().as_slice()),
        None => false,
    }
}

/// What one directory walk feeds the build: the source files to
/// compile and the JSON files to consider for passthrough copying.
pub struct WalkPlan {
    pub sources: Vec<Vec<u8>>,
    pub json_files: Vec<Vec<u8>>,
}

/// The classification of a depth-first walk: directories matching the
/// exclude set (or dependency directories) are pruned whole, symlinks
/// are skipped, source files are collected for compilation, and JSON
/// files separately. The two accumulators are threaded front to back.
pub open spec fn spec_walk_rec(
    es: Seq<WalkEntryV>,
    excludes: Seq<Seq<u8>>,
    pruned: Seq<Seq<u8>>,
    sources: Seq<Seq<u8>>,
    json_files: Seq<Seq<u8>>,
) -> (Seq<Seq<u8>>, Seq<Seq<u8>>)
    decreases es.len(),
{
    if es.len() == 0 {
        (sources, json_files)
    } else {
        let e = es[0];
        let rest = es.subrange(1, es.len() as int);
        if spec_under_any(pruned, e.path) {
            spec_walk_rec(rest, excludes, pruned, sources, json_files)
        } else if e.is_dir && spec_ignore_dir(excludes, e.path) {
            spec_walk_rec(rest, excludes, pruned.push(e.path), sources, json_files)
        } else if e.is_symlink {
            spec_walk_rec(rest, excludes, pruned, sources, json_files)
        } else if spec_walk_compile_ext(e.path) {
            spec_walk_rec(rest, excludes, pruned, sources.push(e.path), json_files)
        } else if spec_walk_json_ext(e.path) {
            spec_walk_rec(rest, excludes, pruned, sources, json_files.push(e.path))
        } else {
            spec_walk_rec(rest, excludes, pruned, sources, json_files)
        }
    }
}

/// Classifies the entries of one depth-first walk for compilation.
pub fn compile_directory_plan(entries: &Vec<WalkEntry>, glob_sets: &GlobSetConfig) -> (r: WalkPlan)
    ensures
        (view_bytes_list(r.sources@), view_bytes_list(r.json_files@)) == spec_walk_rec(
            view_entries(entries@),
            globset_patterns(glob_sets.excludes),
            Seq::empty(),
            Seq::empty(),
            Seq::empty(),
        ),
{
    let mut pruned: Vec<Vec<u8>> = Vec::new();
    let mut sources: Vec<Vec<u8>> = Vec::new();
    let mut json_files: Vec<Vec<u8>> = Vec::new();
    let n = entries.len();
    let mut i: usize = 0;
    let ghost full = view_entries(entries@);
    let ghost excludes = globset_patterns(glob_sets.excludes);
    proof {
        assert(full.subrange(0, n as int) =~= full);
        assert(view_bytes_list(pruned@) =~= Seq::<Seq<u8>>::empty());
        assert(view_bytes_list(sources@) =~= Seq::<Seq<u8>>::empty());
        assert(view_bytes_list(json_files@) =~= Seq::<Seq<u8>>::empty());
    }
    while i < n
        invariant
            0 <= i <= n,
            n == entries@.len(),
            full == view_entries(entries@),
            excludes == globset_patterns(glob_sets.excludes),
            spec_walk_rec(full, excludes, Seq::empty(), Seq::empty(), Seq::empty())
                == spec_walk_rec(
                full.subrange(i as int, n as int),
                excludes,
                view_bytes_list(pruned@),
                view_bytes_list(sources@),
                view_bytes_list(json_files@),
            ),
        decreases n - i,
    {
        let ghost rem = full.subrange(i as int, n as int);
        proof {
            assert(rem[0] == full[i as int]);
            assert(rem.subrange(1, rem.len() as int) =~= full.subrange(i + 1 as int, n as int));
        }
        let entry = &entries[i];
        assert(entry@ == full[i as int]);
        if crate::registry::walk_under_any(&pruned, entry.path.as_slice()) {
            // inside a pruned subtree
        } else if entry.is_dir && check_to_ignore_dir(entry.path.as_slice(), glob_sets) {
            let ghost pv = view_bytes_list(pruned@);
            pruned.push(copy_bytes(entry.path.as_slice()));
            proof {
                assert(view_bytes_list(pruned@) =~= pv.push(full[i as int].path));
            }
        } else if entry.is_symlink {
            // never followed
        } else if walk_compile_ext(entry.path.as_slice()) {
            let ghost sv = view_bytes_list(sources@);
            sources.push(copy_bytes(entry.path.as_slice()));
            proof {
                assert(view_bytes_list(sources@) =~= sv.push(full[i as int].path));
            }
        } else if walk_json_ext(entry.path.as_slice()) {
            let ghost jv = view_bytes_list(json_files@);
            json_files.push(copy_bytes(entry.path.as_slice()));
            proof {
                assert(view_bytes_list(json_files@) =~= jv.push(full[i as int].path));
            }
        } else {
            // neither source nor JSON
        }
        i += 1;
    }
    proof {
        assert(full.subrange(n as int, n as int) =~= Seq::<WalkEntryV>::empty());
    }
    WalkPlan { sources, json_files }
}

/// Whether a JSON file is copied through: only when the configuration
/// resolves JSON modules and the file is explicitly included.
pub open spec fn spec_json_passthrough(
    resolve_json_module: Option<bool>,
    includes: Seq<Seq<u8>>,
    path: Seq<u8>,
) -> bool {
    (match resolve_json_module {
        Some(b) => b,
        None => false,
    }) && spec_set_matches(includes, path)
}

/// Decides the passthrough copy of one JSON file: `Some` destination
/// exactly when the configuration resolves JSON modules and the file is
/// included; the file is copied verbatim under the output directory.
pub fn handle_json_file(
    path: &[u8],
    resolve_json_module: Option<bool>,
    glob_sets: &GlobSetConfig,
    out_dir: &[u8],
) -> (r: Option<Vec<u8>>)
    ensures
        r is Some <==> spec_json_passthrough(
            resolve_json_module,
            globset_patterns(glob_sets.includes),
            path@,
        ),
        r matches Some(d) ==> d@ == spec_join(out_dir@, path@),
{
    let wanted = match resolve_json_module {
        Some(b) => b,
        None => false,
    };
    if !wanted {
        return None;
    }
    if !globset_is_match(&glob_sets.includes, path) {
        return None;
    }
    Some(path_join(out_dir, path))
}

/// What is written for one engine result: nothing for empty emitted
/// code; else the code alone, or — when a map was produced — the code
/// with the map reference appended, plus the map beside it.
pub enum WritePlan {
    Nothing,
    CodeOnly { code: Vec<u8> },
    CodeAndMap { code: Vec<u8>, map: Vec<u8> },
}

pub open spec fn spec_code_with_marker(code: Seq<u8>, source_map_file: Seq<u8>) -> Seq<u8> {
    code + spec_w_source_map_marker() + spec_file_name(source_map_file)
}

/// Lays out the writes for one engine result: empty code writes
/// nothing; code with a map gets `//# sourceMappingURL=` plus the map's
/// file name appended and the map written beside it.
pub fn finalize_output(code: Vec<u8>, map: Option<Vec<u8>>, source_map_file: &[u8]) -> (r:
    WritePlan)
    ensures
        code@.len() == 0 <==> r is Nothing,
        match map {
            None => code@.len() > 0 ==> (r matches WritePlan::CodeOnly { code: c } && c@
                == code@),
            Some(m) => code@.len() > 0 ==> (r matches WritePlan::CodeAndMap { code: c, map: m2 }
                && c@ == spec_code_with_marker(code@, source_map_file@) && m2@ == m@),
        },
{
    if code.len() == 0 {
        return WritePlan::Nothing;
    }
    match map {
        None => WritePlan::CodeOnly { code },
        Some(m) => {
            let marker = w_source_map_marker();
            let with_marker = concat_bytes(code.as_slice(), marker.as_slice());
            let name = path_file_name(source_map_file);
            let full = concat_bytes(with_marker.as_slice(), name.as_slice());
            assert(full@ =~= spec_code_with_marker(code@, source_map_file@));
            WritePlan::CodeAndMap { code: full, map: m }
        },
    }
}

/// The directories known to exist already, shared by all workers of a
/// build so that no directory is created twice.
pub struct DirSet {
    pub dirs: Vec<Vec<u8>>,
}

impl DirSet {
    pub fn new() -> (r: DirSet)
        ensures
            view_bytes_list(r.dirs@) == Seq::<Seq<u8>>::empty(),
    {
        let r = DirSet { dirs: Vec::new() };
        assert(view_bytes_list(r.dirs@) =~= Seq::<Seq<u8>>::empty());
        r
    }

    pub open spec fn spec_contains(&self, d: Seq<u8>) -> bool {
        spec_in_list(view_bytes_list(self.dirs@), d)
    }

    /// Checks and records in one step: true exactly when the directory
    /// was not yet known, so that each directory is created at most
    /// once across a whole build.
    pub fn mark_created(&mut self, d: &[u8]) -> (fresh: bool)
        ensures
            fresh <==> !old(self).spec_contains(d@),
            final(self).spec_contains(d@),
            forall|x: Seq<u8>|
                #[trigger] final(self).spec_contains(x) <==> old(self).spec_contains(x) || x
                    == d@,
    {
        let n = self.dirs.len();
        let mut i: usize = 0;
        while i < n
            invariant
                0 <= i <= n,
                n == self.dirs@.len(),
                forall|j: int| 0 <= j < i ==> view_bytes_list(self.dirs@)[j] != d@,
            decreases n - i,
        {
            if bytes_eq(self.dirs[i].as_slice(), d) {
                assert(view_bytes_list(self.dirs@)[i as int] == d@);
                return false;
            }
            i += 1;
        }
        let ghost before = view_bytes_list(self.dirs@);
        assert(!spec_in_list(before, d@));
        self.dirs.push(copy_bytes(d));
        proof {
            assert(view_bytes_list(self.dirs@) =~= before.push(d@));
            assert(view_bytes_list(self.dirs@)[before.len() as int] == d@);
            assert forall|x: Seq<u8>|
                #[trigger] spec_in_list(view_bytes_list(self.dirs@), x) <==> spec_in_list(
                    before,
                    x,
                ) || x == d@ by {
                if spec_in_list(view_bytes_list(self.dirs@), x) {
                    let j = choose|j: int|
                        0 <= j < view_bytes_list(self.dirs@).len() && view_bytes_list(
                            self.dirs@,
                        )[j] == x;
                    if j < before.len() {
                        assert(before[j] == x);
                    }
                }
                if spec_in_list(before, x) {
                    let j = choose|j: int| 0 <= j < before.len() && before[j] == x;
                    assert(view_bytes_list(self.dirs@)[j] == x);
                }
            }
        }
        true
    }
}

/// Lays out one job per input file: a batch of N files yields exactly
/// N planned outputs, in order.
pub fn plan_compile_jobs(files: &Vec<Vec<u8>>, out_dir: &[u8]) -> (r: Vec<CompileJob>)
    ensures
        r@.len() == files@.len(),
        forall|j: int|
            0 <= j < files@.len() ==> (#[trigger] r@[j])@ == spec_compile_job(
                out_dir@,
                files@[j]@,
            ),
{
    let mut r: Vec<CompileJob> = Vec::new();
    let n = files.len();
    let mut i: usize = 0;
    while i < n
        invariant
            0 <= i <= n,
            n == files@.len(),
            r@.len() == i,
            forall|j: int|
                0 <= j < i ==> (#[trigger] r@[j])@ == spec_compile_job(out_dir@, files@[j]@),
        decreases n - i,
    {
        r.push(plan_compile_file(files[i].as_slice(), out_dir));
        i += 1;
    }
    r
}

/// The path up to (and without) its extension dot.
pub open spec fn spec_stem(p: Seq<u8>) -> Seq<u8> {
    match spec_ext_dot(p) {
        Some(d) => p.subrange(0, d),
        None => p,
    }
}

/// What `spec_join` puts in front of its tail.
pub open spec fn spec_join_prefix(base: Seq<u8>) -> Seq<u8> {
    if base.len() == 0 {
        Seq::empty()
    } else if base[base.len() - 1] == SLASH {
        base
    } else {
        base + seq![SLASH]
    }
}

/// Joining shifts the extension dot of the tail and introduces none.
proof fn lemma_ext_dot_join(base: Seq<u8>, a: Seq<u8>)
    requires
        a.len() > 0,
    ensures
        match spec_ext_dot(a) {
            Some(d) => spec_ext_dot(spec_join(base, a)) == Some(spec_join_prefix(base).len() + d),
            None => spec_ext_dot(spec_join(base, a)) is None,
        },
{
    let pre = spec_join_prefix(base);
    let joined = spec_join(base, a);
    assert(joined =~= pre + a);
    lemma_rfind_concat(pre, a, SLASH, a.len() as int);
    lemma_rfind_concat(pre, a, DOT, a.len() as int);
    lemma_rfind_bounds(a, SLASH, a.len() as int);
    lemma_rfind_bounds(a, DOT, a.len() as int);
    lemma_rfind_bounds(pre, SLASH, pre.len() as int);
    lemma_rfind_bounds(pre, DOT, pre.len() as int);
    if pre.len() > 0 {
        assert(pre[pre.len() - 1] == SLASH);
        assert(spec_rfind_before(pre, SLASH, pre.len() as int) == Some(pre.len() - 1));
    }
    match spec_rfind_before(a, SLASH, a.len() as int) {
        Some(j) => {
            assert(spec_rfind_before(joined, SLASH, joined.len() as int) == Some(pre.len() + j));
            assert(spec_file_name(joined) == joined.subrange(
                pre.len() + j + 1,
                joined.len() as int,
            ));
            assert(spec_file_name(joined) =~= spec_file_name(a));
        },
        None => {
            if pre.len() == 0 {
                assert(joined =~= a);
                assert(spec_file_name(joined) =~= spec_file_name(a));
            } else {
                assert(spec_rfind_before(joined, SLASH, joined.len() as int) == Some(
                    pre.len() - 1,
                ));
                assert(spec_file_name(joined) =~= a);
            }
        },
    }
    assert(spec_file_name(joined) == spec_file_name(a));
    assert(joined.len() - spec_file_name(joined).len() == pre.len() + (a.len()
        - spec_file_name(a).len()));
    match spec_rfind_before(a, DOT, a.len() as int) {
        Some(d) => {
            assert(spec_rfind_before(joined, DOT, joined.len() as int) == Some(pre.len() + d));
        },
        None => {
            match spec_rfind_before(pre, DOT, pre.len() as int) {
                Some(dp) => {
                    assert(dp < pre.len());
                },
                None => {
                },
            }
        },
    }
}

/// The stem of a joined path is the joined stem.
proof fn proof_stem_join(base: Seq<u8>, a: Seq<u8>)
    requires
        a.len() > 0,
    ensures
        spec_stem(spec_join(base, a)) == spec_join_prefix(base) + spec_stem(a),
{
    let pre = spec_join_prefix(base);
    let joined = spec_join(base, a);
    assert(joined =~= pre + a);
    lemma_ext_dot_join(base, a);
    crate::pathing::lemma_ext_dot_bounds(a);
    match spec_ext_dot(a) {
        Some(d) => {
            assert(spec_stem(joined) == joined.subrange(0, pre.len() + d));
            assert(spec_stem(joined) =~= pre + a.subrange(0, d));
        },
        None => {
            assert(spec_stem(joined) =~= pre + a);
        },
    }
}

/// LAW: within one batch, files whose stems differ land in different
/// output files — outputs never collide, so a directory of N
/// independent sources yields exactly N distinct outputs.
pub proof fn lemma_output_files_distinct(out_dir: Seq<u8>, a: Seq<u8>, b: Seq<u8>)
    requires
        a.len() > 0,
        b.len() > 0,
        spec_stem(a) != spec_stem(b),
    ensures
        spec_output_file(out_dir, a) != spec_output_file(out_dir, b),
{
    let pre = spec_join_prefix(out_dir);
    lemma_ext_dot_join(out_dir, a);
    lemma_ext_dot_join(out_dir, b);
    assert(spec_join(out_dir, a) =~= pre + a);
    assert(spec_join(out_dir, b) =~= pre + b);
    proof_stem_join(out_dir, a);
    proof_stem_join(out_dir, b);
    let sa = spec_stem(spec_join(out_dir, a));
    let sb = spec_stem(spec_join(out_dir, b));
    assert(sa == pre + spec_stem(a));
    assert(sb == pre + spec_stem(b));
    let oa = spec_output_file(out_dir, a);
    let ob = spec_output_file(out_dir, b);
    assert(oa == sa + seq![DOT] + spec_w_js());
    assert(ob == sb + seq![DOT] + spec_w_js());
    if oa == ob {
        assert(sa.len() == sb.len());
        assert forall|i: int| 0 <= i < spec_stem(a).len() implies spec_stem(a)[i] == spec_stem(
            b,
        )[i] by {
            assert(oa[pre.len() + i] == sa[pre.len() + i]);
            assert(ob[pre.len() + i] == sb[pre.len() + i]);
        }
        assert(spec_stem(a) =~= spec_stem(b));
    }
}

} // verus!
