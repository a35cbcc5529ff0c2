//! File selection: the configuration's include/exclude patterns are
//! normalized into glob candidates, compiled through the globset crate,
//! and applied to decide which files take part in a build.
use vstd::prelude::*;
use crate::bytes::{bytes_eq, concat_bytes, copy_bytes, slice_range};
use crate::convert::Converter;
use crate::options::view_opt_bytes_list;
use crate::pathing::{has_extension, path_file_name, spec_file_name, spec_has_extension, DOT, SLASH};
use crate::words::{
    spec_w_js, spec_w_node_modules, spec_w_ts, spec_w_tsx, w_js, w_node_modules, w_ts, w_tsx,
};

verus! {

pub const STAR: u8 = 42;

#[verifier::external_type_specification]
#[verifier::external_body]
pub struct ExGlob(globset::Glob);

#[verifier::external_type_specification]
#[verifier::external_body]
pub struct ExGlobSet(globset::GlobSet);

#[verifier::external_type_specification]
#[verifier::external_body]
pub struct ExGlobSetBuilder(globset::GlobSetBuilder);

/// Whether these bytes are a well-formed glob pattern (valid UTF-8 that
/// globset's parser accepts); a pure function of the bytes.
pub uninterp spec fn glob_ok(pattern: Seq<u8>) -> bool;

/// Whether the glob pattern matches the path, as globset matches it; a
/// pure function of the two byte strings.
pub uninterp spec fn glob_matches(pattern: Seq<u8>, path: Seq<u8>) -> bool;

/// True when some pattern of the list matches the path.
pub open spec fn spec_set_matches(patterns: Seq<Seq<u8>>, path: Seq<u8>) -> bool {
    exists|i: int| 0 <= i < patterns.len() && glob_matches(#[trigger] patterns[i], path)
}

/// The pattern a compiled glob was built from.
pub uninterp spec fn glob_pattern(g: globset::Glob) -> Seq<u8>;

/// The patterns added to a set builder so far, in order.
pub uninterp spec fn builder_patterns(b: globset::GlobSetBuilder) -> Seq<Seq<u8>>;

/// The patterns a built set holds, in order.
pub uninterp spec fn globset_patterns(s: globset::GlobSet) -> Seq<Seq<u8>>;

/// Whether globset can assemble one set from these patterns; a pure
/// function of the pattern list.
pub uninterp spec fn globset_build_ok(patterns: Seq<Seq<u8>>) -> bool;

/// Relies on globset::Glob::new: compiles the pattern, `Err` exactly on
/// a malformed one, depending on the pattern alone.
#[verifier::external_body]
fn glob_new(pattern: &[u8]) -> (r: Option<globset::Glob>)
    ensures
        r is Some <==> glob_ok(pattern@),
        r matches Some(g) ==> glob_pattern(g) == pattern@,
{
    match core::str::from_utf8(pattern) {
        Ok(p) => globset::Glob::new(p).ok(),
        Err(_) => None,
    }
}

/// Relies on globset::GlobSetBuilder::new: a builder with no patterns.
#[verifier::external_body]
fn builder_new() -> (r: globset::GlobSetBuilder)
    ensures
        builder_patterns(r) == Seq::<Seq<u8>>::empty(),
{
    globset::GlobSetBuilder::new()
}

/// Relies on globset::GlobSetBuilder::add: appends one pattern.
#[verifier::external_body]
fn builder_add(b: &mut globset::GlobSetBuilder, g: globset::Glob)
    ensures
        builder_patterns(*final(b)) == builder_patterns(*old(b)).push(glob_pattern(g)),
{
    b.add(g);
}

/// Relies on globset::GlobSetBuilder::build: compiles the added
/// patterns into one set, succeeding as a function of the patterns
/// alone.
#[verifier::external_body]
fn builder_build(b: &globset::GlobSetBuilder) -> (r: Option<globset::GlobSet>)
    ensures
        r is Some <==> globset_build_ok(builder_patterns(*b)),
        r matches Some(s) ==> globset_patterns(s) == builder_patterns(*b),
{
    b.build().ok()
}

/// Relies on globset::GlobSet::is_match: true exactly when some glob of
/// the set matches the path.
#[verifier::external_body]
pub fn globset_is_match(s: &globset::GlobSet, path: &[u8]) -> (r: bool)
    ensures
        r <==> (exists|i: int| 0 <= i < globset_patterns(*s).len() && glob_matches(#[trigger] globset_patterns(*s)[i], path@)),
{
    let p = String::from_utf8_lossy(path);
    s.is_match(p.as_ref())
}

/// Relies on globset::GlobSet::is_empty: true exactly when the set was
/// built from no patterns.
#[verifier::external_body]
pub fn globset_is_empty(s: &globset::GlobSet) -> (r: bool)
    ensures
        r <==> globset_patterns(*s).len() == 0,
{
    s.is_empty()
}

/// The candidate patterns one raw pattern expands to. A trailing `/` is
/// stripped. A pattern that is not already relative (`./…`) and not a
/// bare wildcard may be anchored anywhere, so it is widened: one that
/// looks like a single file (it has an extension) also matches one
/// level down; one that looks like a directory is suffixed for
/// recursive matching at the root, one level down, and under the
/// working directory. The original pattern always stays last.
pub open spec fn spec_candidates(raw: Seq<u8>, app_dir: Seq<u8>) -> Seq<Seq<u8>> {
    let g = if raw.len() > 0 && raw[raw.len() - 1] == SLASH {
        raw.subrange(0, raw.len() - 1)
    } else {
        raw
    };
    if !(g.len() >= 2 && g[0] == DOT && g[1] == SLASH) && !(g.len() >= 1 && g[0] == STAR) {
        if spec_has_extension(g) {
            seq![seq![STAR, SLASH] + g, g]
        } else {
            seq![
                g + seq![SLASH, STAR, STAR],
                seq![STAR, SLASH] + g + seq![SLASH, STAR, STAR],
                app_dir + seq![SLASH] + g + seq![SLASH, STAR, STAR],
                g,
            ]
        }
    } else {
        seq![g]
    }
}

/// The full normalized pattern list of an optional raw list.
pub open spec fn spec_pattern_list(globs: Option<Seq<Seq<u8>>>, app_dir: Seq<u8>) -> Seq<Seq<u8>>
{
    match globs {
        None => Seq::empty(),
        Some(gs) => spec_pattern_list_rec(gs, app_dir),
    }
}

pub open spec fn spec_pattern_list_rec(gs: Seq<Seq<u8>>, app_dir: Seq<u8>) -> Seq<Seq<u8>>
    decreases gs.len(),
{
    if gs.len() == 0 {
        Seq::empty()
    } else {
        spec_candidates(gs[0], app_dir) + spec_pattern_list_rec(
            gs.subrange(1, gs.len() as int),
            app_dir,
        )
    }
}

fn push_candidates(out: &mut Vec<Vec<u8>>, raw: &[u8], app_dir: &[u8])
    ensures
        crate::options::view_bytes_list(final(out)@) == crate::options::view_bytes_list(
            old(out)@,
        ) + spec_candidates(raw@, app_dir@),
{
    let ghost before = crate::options::view_bytes_list(out@);
    let g: Vec<u8> = if raw.len() > 0 && raw[raw.len() - 1] == SLASH {
        slice_range(raw, 0, raw.len() - 1)
    } else {
        copy_bytes(raw)
    };
    let mut star_slash: Vec<u8> = Vec::new();
    star_slash.push(STAR);
    star_slash.push(SLASH);
    let mut slash_star_star: Vec<u8> = Vec::new();
    slash_star_star.push(SLASH);
    slash_star_star.push(STAR);
    slash_star_star.push(STAR);
    assert(star_slash@ =~= seq![STAR, SLASH]);
    assert(slash_star_star@ =~= seq![SLASH, STAR, STAR]);
    let relative = g.len() >= 2 && g[0] == DOT && g[1] == SLASH;
    let wildcard = g.len() >= 1 && g[0] == STAR;
    if !relative && !wildcard {
        if has_extension(g.as_slice()) {
            let widened = concat_bytes(star_slash.as_slice(), g.as_slice());
            out.push(widened);
            out.push(g);
        } else {
            let recursive = concat_bytes(g.as_slice(), slash_star_star.as_slice());
            let below = concat_bytes(star_slash.as_slice(), recursive.as_slice());
            assert(below@ =~= seq![STAR, SLASH] + g@ + seq![SLASH, STAR, STAR]);
            let mut anchored = copy_bytes(app_dir);
            anchored.push(SLASH);
            let anchored_full = concat_bytes(anchored.as_slice(), recursive.as_slice());
            assert(anchored_full@ =~= app_dir@ + seq![SLASH] + g@ + seq![SLASH, STAR, STAR]);
            out.push(recursive);
            out.push(below);
            out.push(anchored_full);
            out.push(g);
        }
    } else {
        out.push(g);
    }
    assert(crate::options::view_bytes_list(out@) =~= before + spec_candidates(raw@, app_dir@));
}

/// Why a glob set could not be built.
#[derive(Debug)]
pub enum SelectorError {
    /// A raw pattern did not compile; carries the offending candidate.
    Pattern { pattern: Vec<u8> },
    /// The compiled set could not be assembled.
    Build,
}

/// Builds one compiled glob set from an optional raw pattern list: it
/// succeeds exactly when every normalized candidate compiles and the
/// set assembles, and then holds exactly those candidates, in order; a
/// malformed candidate is reported as the error.
pub fn construct_glob_set(
    glob_candidates: &Option<Vec<Vec<u8>>>,
    app_dir: &[u8],
) -> (r: Result<globset::GlobSet, SelectorError>)
    ensures
        r matches Ok(s) ==> globset_patterns(s) == spec_pattern_list(
            view_opt_bytes_list(*glob_candidates),
            app_dir@,
        ),
        r is Ok <==> ({
            let list = spec_pattern_list(view_opt_bytes_list(*glob_candidates), app_dir@);
            (forall|i: int| 0 <= i < list.len() ==> glob_ok(#[trigger] list[i]))
                && globset_build_ok(list)
        }),
        r matches Err(SelectorError::Pattern { pattern }) ==> !glob_ok(pattern@),
{
    let mut patterns: Vec<Vec<u8>> = Vec::new();
    match glob_candidates {
        None => {
            assert(crate::options::view_bytes_list(patterns@) =~= spec_pattern_list(
                view_opt_bytes_list(*glob_candidates),
                app_dir@,
            ));
        },
        Some(gs) => {
            let n = gs.len();
            let mut i: usize = 0;
            proof {
                assert(crate::options::view_bytes_list(gs@).subrange(0, n as int)
                    =~= crate::options::view_bytes_list(gs@));
                assert(crate::options::view_bytes_list(patterns@)
                    =~= Seq::<Seq<u8>>::empty());
            }
            while i < n
                invariant
                    0 <= i <= n,
                    n == gs@.len(),
                    spec_pattern_list_rec(crate::options::view_bytes_list(gs@), app_dir@)
                        == crate::options::view_bytes_list(patterns@) + spec_pattern_list_rec(
                        crate::options::view_bytes_list(gs@).subrange(i as int, n as int),
                        app_dir@,
                    ),
                decreases n - i,
            {
                let ghost rem = crate::options::view_bytes_list(gs@).subrange(i as int, n as int);
                proof {
                    assert(rem[0] == crate::options::view_bytes_list(gs@)[i as int]);
                    assert(rem.subrange(1, rem.len() as int) =~= crate::options::view_bytes_list(
                        gs@,
                    ).subrange(i + 1 as int, n as int));
                }
                let ghost before = crate::options::view_bytes_list(patterns@);
                push_candidates(&mut patterns, gs[i].as_slice(), app_dir);
                proof {
                    assert((before + spec_candidates(
                        crate::options::view_bytes_list(gs@)[i as int],
                        app_dir@,
                    )) + spec_pattern_list_rec(
                        crate::options::view_bytes_list(gs@).subrange(i + 1 as int, n as int),
                        app_dir@,
                    ) =~= before + (spec_candidates(
                        crate::options::view_bytes_list(gs@)[i as int],
                        app_dir@,
                    ) + spec_pattern_list_rec(
                        crate::options::view_bytes_list(gs@).subrange(i + 1 as int, n as int),
                        app_dir@,
                    )));
                }
                i += 1;
            }
            proof {
                assert(crate::options::view_bytes_list(gs@).subrange(n as int, n as int)
                    =~= Seq::<Seq<u8>>::empty());
                assert(crate::options::view_bytes_list(patterns@) + Seq::<Seq<u8>>::empty()
                    =~= crate::options::view_bytes_list(patterns@));
            }
        },
    }
    let mut builder = builder_new();
    let n = patterns.len();
    let mut i: usize = 0;
    while i < n
        invariant
            0 <= i <= n,
            n == patterns@.len(),
            crate::options::view_bytes_list(patterns@) == spec_pattern_list(
                view_opt_bytes_list(*glob_candidates),
                app_dir@,
            ),
            builder_patterns(builder) == crate::options::view_bytes_list(patterns@).subrange(
                0,
                i as int,
            ),
            forall|j: int|
                0 <= j < i ==> glob_ok(#[trigger] crate::options::view_bytes_list(patterns@)[j]),
        decreases n - i,
    {
        match glob_new(patterns[i].as_slice()) {
            Some(g) => {
                builder_add(&mut builder, g);
                proof {
                    assert(builder_patterns(builder) =~= crate::options::view_bytes_list(
                        patterns@,
                    ).subrange(0, i + 1 as int));
                }
            },
            None => {
                let pattern = copy_bytes(patterns[i].as_slice());
                proof {
                    assert(!glob_ok(
                        crate::options::view_bytes_list(patterns@)[i as int],
                    ));
                }
                return Err(SelectorError::Pattern { pattern });
            },
        }
        i += 1;
    }
    assert(crate::options::view_bytes_list(patterns@).subrange(0, n as int)
        =~= crate::options::view_bytes_list(patterns@));
    match builder_build(&builder) {
        Some(s) => Ok(s),
        None => Err(SelectorError::Build),
    }
}

/// The compiled include and exclude matchers of one build invocation.
pub struct GlobSetConfig {
    pub includes: globset::GlobSet,
    pub excludes: globset::GlobSet,
}

impl Converter {
    /// Compiles the configuration's include and exclude pattern lists
    /// into matchers, each normalized as `spec_candidates` describes;
    /// it succeeds exactly when both lists compile and assemble.
    pub fn construct_globset(&self, app_dir: &[u8]) -> (r: Result<GlobSetConfig, SelectorError>)
        ensures
            r matches Ok(c) ==> globset_patterns(c.includes) == spec_pattern_list(
                self.tsconfig@.includes,
                app_dir@,
            ) && globset_patterns(c.excludes) == spec_pattern_list(
                self.tsconfig@.excludes,
                app_dir@,
            ),
            r is Ok <==> ({
                let inc = spec_pattern_list(self.tsconfig@.includes, app_dir@);
                let exc = spec_pattern_list(self.tsconfig@.excludes, app_dir@);
                &&& (forall|i: int| 0 <= i < inc.len() ==> glob_ok(#[trigger] inc[i]))
                &&& globset_build_ok(inc)
                &&& (forall|i: int| 0 <= i < exc.len() ==> glob_ok(#[trigger] exc[i]))
                &&& globset_build_ok(exc)
            }),
    {
        let includes = match construct_glob_set(&self.tsconfig.includes, app_dir) {
            Ok(s) => s,
            Err(e) => {
                return Err(e);
            },
        };
        let excludes = match construct_glob_set(&self.tsconfig.excludes, app_dir) {
            Ok(s) => s,
            Err(e) => {
                return Err(e);
            },
        };
        Ok(GlobSetConfig { includes, excludes })
    }
}

/// True when the extension marks a compilable source file.
pub open spec fn spec_compile_ext(ext: Seq<u8>) -> bool {
    ext == spec_w_ts() || ext == spec_w_tsx() || ext == spec_w_js()
}

/// Whether a file is left out of compilation: it matches the exclude
/// set, or an include set exists and the file misses it, or it lacks a
/// compile-eligible extension — a file without any extension included.
pub open spec fn spec_ignore_file(
    includes: Seq<Seq<u8>>,
    excludes: Seq<Seq<u8>>,
    file: Seq<u8>,
) -> bool {
    spec_set_matches(excludes, file) || (includes.len() > 0 && !spec_set_matches(includes, file))
        || (match crate::pathing::spec_extension(file) {
        Some(e) => !spec_compile_ext(e),
        None => true,
    })
}

/// Decides whether `file` is left out of compilation, against the
/// compiled include and exclude sets.
pub fn check_to_ignore_file(file: &[u8], glob_sets: &GlobSetConfig) -> (r: bool)
    ensures
        r == spec_ignore_file(
            globset_patterns(glob_sets.includes),
            globset_patterns(glob_sets.excludes),
            file@,
        ),
{
    if globset_is_match(&glob_sets.excludes, file) {
        return true;
    }
    if !globset_is_empty(&glob_sets.includes) && !globset_is_match(&glob_sets.includes, file) {
        return true;
    }
    match crate::pathing::path_extension(file) {
        Some(e) => {
            !(bytes_eq(e.as_slice(), w_ts().as_slice()) || bytes_eq(
                e.as_slice(),
                w_tsx().as_slice(),
            ) || bytes_eq(e.as_slice(), w_js().as_slice()))
        },
        None => true,
    }
}

/// Whether a directory's whole subtree is left out of the walk: it
/// matches the exclude set or is a dependency directory.
pub open spec fn spec_ignore_dir(excludes: Seq<Seq<u8>>, dir: Seq<u8>) -> bool {
    spec_set_matches(excludes, dir) || spec_file_name(dir) == spec_w_node_modules()
}

/// Decides whether the directory at `dir` is pruned from the walk.
pub fn check_to_ignore_dir(dir: &[u8], glob_sets: &GlobSetConfig) -> (r: bool)
    ensures
        r == spec_ignore_dir(globset_patterns(glob_sets.excludes), dir@),
{
    if globset_is_match(&glob_sets.excludes, dir) {
        return true;
    }
    let name = path_file_name(dir);
    bytes_eq(name.as_slice(), w_node_modules().as_slice())
}

} // verus!
