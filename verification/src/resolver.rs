//! Resolution of a project configuration: reading the file, falling back
//! to a monorepo-relative lookup when the path does not exist as a file,
//! following the `extends` chain, and merging the option bags along it.
//!
//! The chain has no a-priori bound and the on-disk graph may be cyclic,
//! so both the redirect lookup and the chain walk carry fuel; the public
//! entry point grants one unit per file of the snapshot plus one, which
//! every acyclic chain stays within, and reports a chain that runs out
//! as an error.
use vstd::prelude::*;
use crate::bytes::copy_bytes;
use crate::options::{
    merge_compiler_options, spec_merge_opt, spec_empty_tsconfig, CompilerOptionsV, TsConfigJson,
    TsConfigV,
};
use crate::parse::{parse_tsconfig, spec_parse_tsconfig};
use crate::pathing::{
    path_join, path_parent, spec_join, spec_strip_dot_slash, strip_dot_slash, DOT, SLASH,
};
use crate::registry::{spec_parent_or_empty, Manager};
use crate::store::{spec_lookup, ByteMap, FsModel};
use crate::bytes::{rfind_before, spec_rfind_before};

verus! {

/// Ghost image of `ConfigError`.
pub enum ConfigErrorV {
    /// The file's content is not a valid configuration; carries the
    /// offending path.
    Parse(Seq<u8>),
    /// The `extends` chain did not reach its end within the granted
    /// fuel; carries the path whose chain ran out.
    ChainTooDeep(Seq<u8>),
}

/// Why a configuration could not be resolved.
#[derive(Debug)]
pub enum ConfigError {
    Parse { path: Vec<u8> },
    ChainTooDeep { path: Vec<u8> },
}

impl View for ConfigError {
    type V = ConfigErrorV;

    open spec fn view(&self) -> ConfigErrorV {
        match self {
            ConfigError::Parse { path } => ConfigErrorV::Parse(path@),
            ConfigError::ChainTooDeep { path } => ConfigErrorV::ChainTooDeep(path@),
        }
    }
}

/// The configuration content found for `path`: the file itself when the
/// snapshot holds it, else the monorepo-relative lookup of
/// `spec_fetch_scan`; `None` when neither finds anything.
pub open spec fn spec_fetch_config(
    fs: FsModel,
    pkgs: Seq<(Seq<u8>, Seq<u8>)>,
    path: Seq<u8>,
    fuel: nat,
) -> Option<Seq<u8>>
    decreases fuel, path.len() + 1,
{
    match fs.spec_file(path) {
        Some(c) => Some(c),
        None => if fuel == 0 {
            None
        } else {
            spec_fetch_scan(fs, pkgs, path, path.len() as int, fuel)
        },
    }
}

/// Strips segments off the end of `path` (scanning the separators right
/// to left from `cut`) until the remaining prefix names an indexed
/// package; the stripped suffix is then re-rooted onto that package's
/// directory and fetched there.
pub open spec fn spec_fetch_scan(
    fs: FsModel,
    pkgs: Seq<(Seq<u8>, Seq<u8>)>,
    path: Seq<u8>,
    cut: int,
    fuel: nat,
) -> Option<Seq<u8>>
    decreases fuel, cut,
{
    if fuel == 0 || cut < 0 {
        None
    } else {
        match spec_rfind_before(path, SLASH, cut) {
            None => None,
            Some(idx) => if 0 <= idx < cut {
                let prefix = path.subrange(0, idx);
                match spec_lookup(pkgs, prefix) {
                    Some(pkg_dir) => spec_fetch_config(
                        fs,
                        pkgs,
                        spec_join(pkg_dir, path.subrange(idx + 1, path.len() as int)),
                        (fuel - 1) as nat,
                    ),
                    None => spec_fetch_scan(fs, pkgs, path, idx, fuel),
                }
            } else {
                None
            },
        }
    }
}

/// Reads the configuration content for `path`, falling back to the
/// monorepo-relative lookup when the file is missing.
pub fn fetch_config_content(
    fs: &FsModel,
    packages: &ByteMap,
    path: &[u8],
    fuel: usize,
) -> (r: Option<Vec<u8>>)
    ensures
        match r {
            Some(c) => spec_fetch_config(*fs, packages@, path@, fuel as nat) == Some(c@),
            None => spec_fetch_config(*fs, packages@, path@, fuel as nat) is None,
        },
    decreases fuel, path@.len() + 1,
{
    match fs.read_file(path) {
        Some(c) => Some(copy_bytes(c.as_slice())),
        None => {
            if fuel == 0 {
                return None;
            }
            let mut cut: usize = path.len();
            loop
                invariant
                    cut <= path@.len(),
                    fuel >= 1,
                    fs.spec_file(path@) is None,
                    spec_fetch_scan(*fs, packages@, path@, path@.len() as int, fuel as nat)
                        == spec_fetch_scan(*fs, packages@, path@, cut as int, fuel as nat),
                decreases cut,
            {
                match rfind_before(path, SLASH, cut) {
                    None => {
                        return None;
                    },
                    Some(idx) => {
                        let prefix = crate::bytes::slice_range(path, 0, idx);
                        match packages.get(prefix.as_slice()) {
                            Some(pkg_dir) => {
                                let suffix = crate::bytes::slice_range(path, idx + 1, path.len());
                                let full = path_join(pkg_dir.as_slice(), suffix.as_slice());
                                return fetch_config_content(fs, packages, full.as_slice(), fuel - 1);
                            },
                            None => {
                                cut = idx;
                            },
                        }
                    },
                }
            }
        },
    }
}

/// The option bag with nothing set.
pub open spec fn spec_empty_options() -> CompilerOptionsV {
    CompilerOptionsV {
        module: None,
        declaration: None,
        experimental_decorators: None,
        target: None,
        source_map: None,
        base_url: None,
        paths: None,
        inline_sources: None,
        inline_source_map: None,
        declaration_dir: None,
        out_dir: None,
        remove_comments: None,
        resolve_json_module: None,
        es_module_interop: None,
    }
}

/// The configuration used when a referenced file is nowhere to be found:
/// an empty option bag, so the caller degrades gracefully.
pub open spec fn spec_fallback_config() -> TsConfigV {
    TsConfigV {
        extends: None,
        compiler_options: Some(spec_empty_options()),
        includes: None,
        excludes: None,
    }
}

/// Where an `extends` reference points: a leading `.` marks a path
/// relative to the referring configuration's directory, with its `./`
/// markers folded away as the filesystem would; anything else is taken
/// as it stands and resolved monorepo-aware by the fetch.
pub open spec fn spec_extends_target(config_path: Seq<u8>, ext: Seq<u8>) -> Seq<u8> {
    if ext.len() > 0 && ext[0] == DOT {
        spec_join(spec_parent_or_empty(config_path), spec_strip_dot_slash(ext))
    } else {
        ext
    }
}

/// The resolved configuration of `path`: its own file (or the fallback
/// when none is found), with the `extends` chain walked recursively and
/// every option bag merged child-over-base.
pub open spec fn spec_load_merge(
    fs: FsModel,
    pkgs: Seq<(Seq<u8>, Seq<u8>)>,
    path: Seq<u8>,
    fuel: nat,
) -> Result<TsConfigV, ConfigErrorV>
    decreases fuel,
{
    match spec_fetch_config(fs, pkgs, path, fuel) {
        None => Ok(spec_fallback_config()),
        Some(bytes) => match spec_parse_tsconfig(bytes) {
            None => Err(ConfigErrorV::Parse(path)),
            Some(cfg) => match cfg.extends {
                None => Ok(cfg),
                Some(ext) => if fuel == 0 {
                    Err(ConfigErrorV::ChainTooDeep(path))
                } else {
                    match spec_load_merge(
                        fs,
                        pkgs,
                        spec_extends_target(path, ext),
                        (fuel - 1) as nat,
                    ) {
                        Err(e) => Err(e),
                        Ok(base) => Ok(
                            TsConfigV {
                                extends: Some(ext),
                                compiler_options: spec_merge_opt(
                                    base.compiler_options,
                                    cfg.compiler_options,
                                ),
                                includes: cfg.includes,
                                excludes: cfg.excludes,
                            },
                        ),
                    }
                },
            },
        },
    }
}

/// Loads the configuration at `config_path` and merges its whole
/// `extends` chain, child options over base options.
pub fn load_and_merge_tsconfig(
    fs: &FsModel,
    packages: &ByteMap,
    config_path: &[u8],
    fuel: usize,
) -> (r: Result<TsConfigJson, ConfigError>)
    ensures
        match r {
            Ok(cfg) => spec_load_merge(*fs, packages@, config_path@, fuel as nat) == Ok::<
                TsConfigV,
                ConfigErrorV,
            >(cfg@),
            Err(e) => spec_load_merge(*fs, packages@, config_path@, fuel as nat) == Err::<
                TsConfigV,
                ConfigErrorV,
            >(e@),
        },
    decreases fuel,
{
    let content = match fetch_config_content(fs, packages, config_path, fuel) {
        None => {
            let fallback = TsConfigJson {
                extends: None,
                compiler_options: Some(Default::default()),
                includes: None,
                excludes: None,
            };
            assert(fallback@ =~~= spec_fallback_config());
            return Ok(fallback);
        },
        Some(c) => c,
    };
    let cfg = match parse_tsconfig(content.as_slice()) {
        None => {
            return Err(ConfigError::Parse { path: copy_bytes(config_path) });
        },
        Some(cfg) => cfg,
    };
    let ext = match &cfg.extends {
        None => {
            return Ok(cfg);
        },
        Some(e) => e,
    };
    if fuel == 0 {
        return Err(ConfigError::ChainTooDeep { path: copy_bytes(config_path) });
    }
    let base_path: Vec<u8> = if ext.len() > 0 && ext[0] == DOT {
        let parent = match path_parent(config_path) {
            Some(p) => p,
            None => Vec::new(),
        };
        let folded = strip_dot_slash(ext.as_slice());
        path_join(parent.as_slice(), folded.as_slice())
    } else {
        copy_bytes(ext.as_slice())
    };
    let base = match load_and_merge_tsconfig(fs, packages, base_path.as_slice(), fuel - 1) {
        Ok(b) => b,
        Err(e) => {
            return Err(e);
        },
    };
    let merged = merge_compiler_options(&base.compiler_options, &cfg.compiler_options);
    Ok(
        TsConfigJson {
            extends: cfg.extends,
            compiler_options: merged,
            includes: cfg.includes,
            excludes: cfg.excludes,
        },
    )
}

/// The fuel the public entry point grants: one unit per file of the
/// snapshot, plus one.
pub open spec fn spec_resolve_fuel(fs: FsModel) -> nat {
    if fs.files@.len() + 1 <= usize::MAX {
        (fs.files@.len() + 1) as nat
    } else {
        usize::MAX as nat
    }
}

fn resolve_fuel(fs: &FsModel) -> (r: usize)
    ensures
        r as nat == spec_resolve_fuel(*fs),
{
    let n = fs.files.len();
    if n < usize::MAX {
        n + 1
    } else {
        n
    }
}

/// What resolving `config_path` yields: the empty configuration when no
/// such node exists at all, else the merged chain.
pub open spec fn spec_resolve_config(
    fs: FsModel,
    pkgs: Seq<(Seq<u8>, Seq<u8>)>,
    config_path: Seq<u8>,
) -> Result<TsConfigV, ConfigErrorV> {
    if !fs.spec_node_exists(config_path) {
        Ok(spec_empty_tsconfig())
    } else {
        spec_load_merge(fs, pkgs, config_path, spec_resolve_fuel(fs))
    }
}

impl TsConfigJson {
    /// Resolves the configuration at `config_path` against the
    /// snapshot and the workspace's package index: a missing path gives
    /// the empty configuration, a malformed file a parse error with the
    /// offending path, and otherwise the fully merged `extends` chain.
    pub fn from_path(fs: &FsModel, manager: &Manager, config_path: &[u8]) -> (r: Result<
        TsConfigJson,
        ConfigError,
    >)
        ensures
            match r {
                Ok(cfg) => spec_resolve_config(*fs, manager.packages@, config_path@) == Ok::<
                    TsConfigV,
                    ConfigErrorV,
                >(cfg@),
                Err(e) => spec_resolve_config(*fs, manager.packages@, config_path@) == Err::<
                    TsConfigV,
                    ConfigErrorV,
                >(e@),
            },
    {
        if !fs.node_exists(config_path) {
            let empty: TsConfigJson = Default::default();
            return Ok(empty);
        }
        let fuel = resolve_fuel(fs);
        load_and_merge_tsconfig(fs, &manager.packages, config_path, fuel)
    }
}

/// LAW: when a configuration path does not exist as a file but stripping
/// its last segment leaves the name of an indexed package, the content
/// is fetched from inside that package's directory: the stripped segment
/// re-rooted onto the package's path.
pub proof fn lemma_fetch_redirects_into_package(
    fs: FsModel,
    pkgs: Seq<(Seq<u8>, Seq<u8>)>,
    path: Seq<u8>,
    idx: int,
    pkg_dir: Seq<u8>,
    fuel: nat,
)
    requires
        fs.spec_file(path) is None,
        fuel >= 1,
        0 <= idx < path.len(),
        spec_rfind_before(path, SLASH, path.len() as int) == Some(idx),
        spec_lookup(pkgs, path.subrange(0, idx)) == Some(pkg_dir),
    ensures
        spec_fetch_config(fs, pkgs, path, fuel) == spec_fetch_config(
            fs,
            pkgs,
            spec_join(pkg_dir, path.subrange(idx + 1, path.len() as int)),
            (fuel - 1) as nat,
        ),
        fs.spec_file(spec_join(pkg_dir, path.subrange(idx + 1, path.len() as int))) matches Some(
            content,
        ) ==> spec_fetch_config(fs, pkgs, path, fuel) == Some(content),
{
}

} // verus!
