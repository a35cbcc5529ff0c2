//! Conversion of a resolved project configuration into the option shape
//! the external compile engine is invoked with: module kind, language
//! target, source-map mode, decorator and comment flags, base URL and
//! path aliases.
use vstd::prelude::*;
use crate::bytes::{ascii_lower, bytes_eq, copy_bytes, spec_ascii_lower};
use crate::options::{
    pairs_to_map, view_alias_seq, view_opt_bytes, CompilerOptionsV, PathAlias, TsConfigJson,
};
use crate::pathing::{path_join, spec_join, spec_strip_dot_slash, strip_dot_slash};
use crate::registry::{
    spec_find_workspace_root, spec_index_packages, view_entries, Manager, WalkEntry,
    WorkspaceError,
};
use crate::resolver::{spec_resolve_config, ConfigError};
use crate::options::TsConfigV;
use crate::store::FsModel;
use crate::words::{
    spec_w_amd, spec_w_cjs, spec_w_commonjs, spec_w_dist, spec_w_es2015, spec_w_es2016,
    spec_w_es2017, spec_w_es2018, spec_w_es2019, spec_w_es2020, spec_w_es2021, spec_w_es3,
    spec_w_es5, spec_w_es6, spec_w_esnext, spec_w_nodenext, spec_w_system, spec_w_umd, w_amd,
    w_cjs, w_commonjs, w_dist, w_es2015, w_es2016, w_es2017, w_es2018, w_es2019, w_es2020,
    w_es2021, w_es3, w_es5, w_es6, w_esnext, w_nodenext, w_system, w_umd,
};

verus! {

/// The language level handed to the engine; `Latest` stands for the
/// newest level the engine knows.
#[derive(PartialEq, Eq, Structural, Debug, Clone, Copy)]
pub enum EsTarget {
    Es3,
    Es5,
    Es2015,
    Es2016,
    Es2017,
    Es2018,
    Es2019,
    Es2020,
    Es2021,
    EsNext,
    Latest,
}

/// The module system handed to the engine.
#[derive(PartialEq, Eq, Structural, Debug, Clone, Copy)]
pub enum ModuleKind {
    Amd { no_interop: bool },
    CommonJs { no_interop: bool },
    Es6,
    NodeNext,
    Umd { no_interop: bool },
    SystemJs,
}

/// How source maps are requested from the engine.
#[derive(PartialEq, Eq, Structural, Debug, Clone, Copy)]
pub enum SourceMapsChoice {
    /// Maps embedded into the emitted code.
    Inline,
    /// Separate map files, on or off.
    Flag(bool),
}

/// Ghost image of `EngineOptions`.
pub struct EngineOptionsV {
    pub output_path: Option<Seq<u8>>,
    pub source_maps: Option<SourceMapsChoice>,
    pub minify: bool,
    pub module: Option<ModuleKind>,
    pub inline_sources_content: bool,
    pub base_url: Seq<u8>,
    pub paths: Map<Seq<u8>, Seq<Seq<u8>>>,
    pub legacy_decorator: bool,
    pub decorator_metadata: bool,
    pub preserve_all_comments: bool,
    pub keep_class_names: bool,
    pub target: Option<EsTarget>,
    pub syntax_dts: bool,
    pub decorators: bool,
    pub swcrc: bool,
}

/// The options the external compile engine is invoked with, as plain
/// values; a field left `None` keeps the engine's own default.
pub struct EngineOptions {
    pub output_path: Option<Vec<u8>>,
    pub source_maps: Option<SourceMapsChoice>,
    pub minify: bool,
    pub module: Option<ModuleKind>,
    pub inline_sources_content: bool,
    pub base_url: Vec<u8>,
    pub paths: Vec<PathAlias>,
    pub legacy_decorator: bool,
    pub decorator_metadata: bool,
    pub preserve_all_comments: bool,
    pub keep_class_names: bool,
    pub target: Option<EsTarget>,
    pub syntax_dts: bool,
    pub decorators: bool,
    pub swcrc: bool,
}

impl View for EngineOptions {
    type V = EngineOptionsV;

    open spec fn view(&self) -> EngineOptionsV {
        EngineOptionsV {
            output_path: view_opt_bytes(self.output_path),
            source_maps: self.source_maps,
            minify: self.minify,
            module: self.module,
            inline_sources_content: self.inline_sources_content,
            base_url: self.base_url@,
            paths: pairs_to_map(view_alias_seq(self.paths@)),
            legacy_decorator: self.legacy_decorator,
            decorator_metadata: self.decorator_metadata,
            preserve_all_comments: self.preserve_all_comments,
            keep_class_names: self.keep_class_names,
            target: self.target,
            syntax_dts: self.syntax_dts,
            decorators: self.decorators,
            swcrc: self.swcrc,
        }
    }
}

pub open spec fn spec_lower(s: Seq<u8>) -> Seq<u8> {
    s.map_values(|b: u8| spec_ascii_lower(b))
}

/// The language level a `target` string picks, matched without regard
/// to letter case; an unknown or missing target picks the newest level.
pub open spec fn spec_target_of(target: Option<Seq<u8>>) -> EsTarget {
    match target {
        None => EsTarget::Latest,
        Some(t) => {
            let l = spec_lower(t);
            if l == spec_w_es3() {
                EsTarget::Es3
            } else if l == spec_w_es5() {
                EsTarget::Es5
            } else if l == spec_w_es2015() {
                EsTarget::Es2015
            } else if l == spec_w_es2016() {
                EsTarget::Es2016
            } else if l == spec_w_es2017() {
                EsTarget::Es2017
            } else if l == spec_w_es2018() {
                EsTarget::Es2018
            } else if l == spec_w_es2019() {
                EsTarget::Es2019
            } else if l == spec_w_es2020() {
                EsTarget::Es2020
            } else if l == spec_w_es2021() {
                EsTarget::Es2021
            } else if l == spec_w_esnext() {
                EsTarget::EsNext
            } else {
                EsTarget::Latest
            }
        },
    }
}

/// Maps the configuration's `target` onto the engine's language levels.
pub fn convert_target_to_es_version(target: &Option<Vec<u8>>) -> (r: EsTarget)
    ensures
        r == spec_target_of(view_opt_bytes(*target)),
{
    match target {
        None => EsTarget::Latest,
        Some(t) => {
            let l = ascii_lower(t.as_slice());
            if bytes_eq(l.as_slice(), w_es3().as_slice()) {
                EsTarget::Es3
            } else if bytes_eq(l.as_slice(), w_es5().as_slice()) {
                EsTarget::Es5
            } else if bytes_eq(l.as_slice(), w_es2015().as_slice()) {
                EsTarget::Es2015
            } else if bytes_eq(l.as_slice(), w_es2016().as_slice()) {
                EsTarget::Es2016
            } else if bytes_eq(l.as_slice(), w_es2017().as_slice()) {
                EsTarget::Es2017
            } else if bytes_eq(l.as_slice(), w_es2018().as_slice()) {
                EsTarget::Es2018
            } else if bytes_eq(l.as_slice(), w_es2019().as_slice()) {
                EsTarget::Es2019
            } else if bytes_eq(l.as_slice(), w_es2020().as_slice()) {
                EsTarget::Es2020
            } else if bytes_eq(l.as_slice(), w_es2021().as_slice()) {
                EsTarget::Es2021
            } else if bytes_eq(l.as_slice(), w_esnext().as_slice()) {
                EsTarget::EsNext
            } else {
                EsTarget::Latest
            }
        },
    }
}

/// The interop flag the engine's module configurations carry: the
/// configuration's `esModuleInterop` negated, or off when unset.
pub open spec fn spec_no_interop(es_module_interop: Option<bool>) -> bool {
    match es_module_interop {
        Some(i) => !i,
        None => false,
    }
}

/// The module system a `module` string picks, matched without regard to
/// letter case; unknown or missing picks CommonJS.
pub open spec fn spec_module_of(module: Option<Seq<u8>>, es_module_interop: Option<bool>) -> ModuleKind {
    match module {
        None => ModuleKind::CommonJs { no_interop: false },
        Some(mname) => {
            let l = spec_lower(mname);
            if l == spec_w_amd() {
                ModuleKind::Amd { no_interop: spec_no_interop(es_module_interop) }
            } else if l == spec_w_commonjs() {
                ModuleKind::CommonJs { no_interop: spec_no_interop(es_module_interop) }
            } else if l == spec_w_cjs() {
                ModuleKind::CommonJs { no_interop: false }
            } else if l == spec_w_es6() || l == spec_w_es2015() {
                ModuleKind::Es6
            } else if l == spec_w_nodenext() {
                ModuleKind::NodeNext
            } else if l == spec_w_umd() {
                ModuleKind::Umd { no_interop: spec_no_interop(es_module_interop) }
            } else if l == spec_w_system() {
                ModuleKind::SystemJs
            } else {
                ModuleKind::CommonJs { no_interop: false }
            }
        },
    }
}

/// Maps the configuration's `module` onto the engine's module systems.
pub fn convert_module(module: &Option<Vec<u8>>, es_module_interop: Option<bool>) -> (r: ModuleKind)
    ensures
        r == spec_module_of(view_opt_bytes(*module), es_module_interop),
{
    let no_interop = match es_module_interop {
        Some(i) => !i,
        None => false,
    };
    match module {
        None => ModuleKind::CommonJs { no_interop: false },
        Some(mname) => {
            let l = ascii_lower(mname.as_slice());
            if bytes_eq(l.as_slice(), w_amd().as_slice()) {
                ModuleKind::Amd { no_interop }
            } else if bytes_eq(l.as_slice(), w_commonjs().as_slice()) {
                ModuleKind::CommonJs { no_interop }
            } else if bytes_eq(l.as_slice(), w_cjs().as_slice()) {
                ModuleKind::CommonJs { no_interop: false }
            } else if bytes_eq(l.as_slice(), w_es6().as_slice()) || bytes_eq(
                l.as_slice(),
                w_es2015().as_slice(),
            ) {
                ModuleKind::Es6
            } else if bytes_eq(l.as_slice(), w_nodenext().as_slice()) {
                ModuleKind::NodeNext
            } else if bytes_eq(l.as_slice(), w_umd().as_slice()) {
                ModuleKind::Umd { no_interop }
            } else if bytes_eq(l.as_slice(), w_system().as_slice()) {
                ModuleKind::SystemJs
            } else {
                ModuleKind::CommonJs { no_interop: false }
            }
        },
    }
}

/// The base URL the engine resolves aliases against: empty when unset,
/// else the working directory joined with the configured value, its
/// leading `./` markers removed.
pub open spec fn spec_base_url_of(base_url: Option<Seq<u8>>, cwd: Seq<u8>) -> Seq<u8> {
    match base_url {
        None => Seq::empty(),
        Some(b) => spec_join(cwd, spec_strip_dot_slash(b)),
    }
}

pub fn determine_base_url(base_url: &Option<Vec<u8>>, cwd: &[u8]) -> (r: Vec<u8>)
    ensures
        r@ == spec_base_url_of(view_opt_bytes(*base_url), cwd@),
{
    match base_url {
        None => Vec::new(),
        Some(b) => {
            let stripped = strip_dot_slash(b.as_slice());
            path_join(cwd, stripped.as_slice())
        },
    }
}

/// The alias table handed to the engine: empty unless a base URL is
/// set.
pub open spec fn spec_paths_of(
    base_url: Seq<u8>,
    paths: Option<Map<Seq<u8>, Seq<Seq<u8>>>>,
) -> Map<Seq<u8>, Seq<Seq<u8>>> {
    if base_url.len() == 0 {
        Map::empty()
    } else {
        match paths {
            Some(p) => p,
            None => Map::empty(),
        }
    }
}

fn determine_paths(base_url: &[u8], paths: &Option<Vec<PathAlias>>) -> (r: Vec<PathAlias>)
    ensures
        pairs_to_map(view_alias_seq(r@)) == spec_paths_of(
            base_url@,
            crate::options::view_opt_paths(*paths),
        ),
{
    if base_url.len() == 0 {
        let r: Vec<PathAlias> = Vec::new();
        assert(view_alias_seq(r@) =~= Seq::<(Seq<u8>, Seq<Seq<u8>>)>::empty());
        return r;
    }
    match paths {
        Some(p) => {
            let mut r: Vec<PathAlias> = Vec::new();
            let n = p.len();
            let mut i: usize = 0;
            while i < n
                invariant
                    0 <= i <= n,
                    n == p@.len(),
                    r@.len() == i,
                    forall|j: int| 0 <= j < i ==> r@[j]@ == p@[j]@,
                decreases n - i,
            {
                let a = &p[i];
                r.push(
                    PathAlias {
                        key: copy_bytes(a.key.as_slice()),
                        targets: crate::options::copy_bytes_list(&a.targets),
                    },
                );
                i += 1;
            }
            assert(view_alias_seq(r@) =~= view_alias_seq(p@));
            r
        },
        None => {
            let r: Vec<PathAlias> = Vec::new();
            assert(view_alias_seq(r@) =~= Seq::<(Seq<u8>, Seq<Seq<u8>>)>::empty());
            r
        },
    }
}

/// What the serde default of the engine's `swcrc` switch is.
pub fn default_swcrc() -> (r: bool)
    ensures
        r,
{
    true
}

/// The engine options a configuration without an option bag yields: the
/// engine's own defaults, with only minification and experimental
/// declaration output applied.
pub open spec fn spec_convert_fallback(minify: Option<bool>, experimental_dts: Option<bool>) -> EngineOptionsV {
    EngineOptionsV {
        output_path: None,
        source_maps: None,
        minify: match minify {
            Some(m) => m,
            None => false,
        },
        module: None,
        inline_sources_content: true,
        base_url: Seq::empty(),
        paths: Map::empty(),
        legacy_decorator: false,
        decorator_metadata: false,
        preserve_all_comments: false,
        keep_class_names: false,
        target: None,
        syntax_dts: match experimental_dts {
            Some(e) => e,
            None => false,
        },
        decorators: false,
        swcrc: false,
    }
}

/// The engine options a resolved configuration yields.
pub open spec fn spec_convert(
    cfg: TsConfigV,
    minify: Option<bool>,
    experimental_dts: Option<bool>,
    cwd: Seq<u8>,
) -> EngineOptionsV {
    match cfg.compiler_options {
        None => spec_convert_fallback(minify, experimental_dts),
        Some(co) => {
            let base_url = spec_base_url_of(co.base_url, cwd);
            let inline_source_map = match co.inline_source_map {
                Some(b) => b,
                None => false,
            };
            let out_dir = match co.out_dir {
                Some(o) => o,
                None => Seq::empty(),
            };
            EngineOptionsV {
                output_path: if out_dir.len() == 0 {
                    None
                } else {
                    Some(out_dir)
                },
                source_maps: Some(
                    if inline_source_map {
                        SourceMapsChoice::Inline
                    } else {
                        SourceMapsChoice::Flag(
                            match co.source_map {
                                Some(b) => b,
                                None => false,
                            },
                        )
                    },
                ),
                minify: match minify {
                    Some(m) => m,
                    None => false,
                },
                module: Some(spec_module_of(co.module, co.es_module_interop)),
                inline_sources_content: match co.inline_sources {
                    Some(b) => b,
                    None => false,
                },
                base_url: base_url,
                paths: spec_paths_of(base_url, co.paths),
                legacy_decorator: false,
                decorator_metadata: match co.experimental_decorators {
                    Some(b) => b,
                    None => false,
                },
                preserve_all_comments: match co.remove_comments {
                    Some(rc) => !rc,
                    None => true,
                },
                keep_class_names: true,
                target: Some(spec_target_of(co.target)),
                syntax_dts: (match experimental_dts {
                    Some(e) => e,
                    None => false,
                }) && (match co.declaration {
                    Some(d) => d,
                    None => false,
                }),
                decorators: match co.experimental_decorators {
                    Some(b) => b,
                    None => false,
                },
                swcrc: true,
            }
        },
    }
}

/// How a converter is created: an already-built registry may be handed
/// in, and the two engine switches set.
pub struct CreateConverterOptions {
    pub manager: Option<Manager>,
    pub minify_output: Option<bool>,
    pub enable_experimental_swc_declarations: Option<bool>,
}

impl Default for CreateConverterOptions {
    fn default() -> (r: Self)
        ensures
            r.manager is None,
            r.minify_output is None,
            r.enable_experimental_swc_declarations is None,
    {
        CreateConverterOptions {
            manager: None,
            minify_output: None,
            enable_experimental_swc_declarations: None,
        }
    }
}

/// Why a converter could not be built.
#[derive(Debug)]
pub enum ConverterError {
    Workspace(WorkspaceError),
    Config(ConfigError),
}

/// Turns a resolved project configuration into the option shape the
/// external compile engine expects.
pub struct Converter {
    pub minify_output: Option<bool>,
    pub enable_experimental_swc_declarations: Option<bool>,
    pub tsconfig: TsConfigJson,
}

impl Converter {
    /// Resolves the configuration at `config_path` (building the
    /// registry from the walk when none is handed in) and wraps it.
    pub fn from_path(
        fs: &FsModel,
        start_dir: &[u8],
        entries: &Vec<WalkEntry>,
        config_path: &[u8],
        options: CreateConverterOptions,
    ) -> (r: Result<Converter, ConverterError>)
        ensures
            r matches Ok(c) ==> c.minify_output == options.minify_output
                && c.enable_experimental_swc_declarations
                == options.enable_experimental_swc_declarations,
            match options.manager {
                Some(m) => {
                    &&& (r is Ok <==> spec_resolve_config(*fs, m.packages@, config_path@) is Ok)
                    &&& (r matches Ok(c) ==> spec_resolve_config(*fs, m.packages@, config_path@)
                        == Ok::<TsConfigV, crate::resolver::ConfigErrorV>(c.tsconfig@))
                    &&& (r matches Err(e) ==> (e matches ConverterError::Config(ce)
                        && spec_resolve_config(*fs, m.packages@, config_path@) == Err::<
                        TsConfigV,
                        crate::resolver::ConfigErrorV,
                    >(ce@)))
                },
                None => {
                    &&& (spec_find_workspace_root(*fs, start_dir@) is None ==> (r matches Err(e)
                        && e is Workspace))
                    &&& (spec_find_workspace_root(*fs, start_dir@) is Some ==> ({
                        let pkgs = spec_index_packages(*fs, view_entries(entries@));
                        &&& (r is Ok <==> spec_resolve_config(*fs, pkgs, config_path@) is Ok)
                        &&& (r matches Ok(c) ==> spec_resolve_config(*fs, pkgs, config_path@)
                            == Ok::<TsConfigV, crate::resolver::ConfigErrorV>(c.tsconfig@))
                        &&& (r matches Err(e) ==> (e matches ConverterError::Config(ce)
                            && spec_resolve_config(*fs, pkgs, config_path@) == Err::<
                            TsConfigV,
                            crate::resolver::ConfigErrorV,
                        >(ce@)))
                    }))
                },
            },
    {
        let manager = match options.manager {
            Some(m) => m,
            None => match Manager::new(fs, start_dir, entries) {
                Ok(m) => m,
                Err(e) => {
                    return Err(ConverterError::Workspace(e));
                },
            },
        };
        match TsConfigJson::from_path(fs, &manager, config_path) {
            Ok(tsconfig) => {
                Ok(
                    Converter {
                        tsconfig,
                        minify_output: options.minify_output,
                        enable_experimental_swc_declarations:
                            options.enable_experimental_swc_declarations,
                    },
                )
            },
            Err(e) => Err(ConverterError::Config(e)),
        }
    }

    /// Wraps an already-resolved configuration.
    pub fn from_tsconfig(tsconfig: &TsConfigJson, options: CreateConverterOptions) -> (r: Result<
        Converter,
        ConverterError,
    >)
        ensures
            r matches Ok(c) && c.tsconfig@ == tsconfig@ && c.minify_output
                == options.minify_output && c.enable_experimental_swc_declarations
                == options.enable_experimental_swc_declarations,
    {
        Ok(
            Converter {
                tsconfig: tsconfig.duplicate(),
                minify_output: options.minify_output,
                enable_experimental_swc_declarations:
                    options.enable_experimental_swc_declarations,
            },
        )
    }

    /// The compiled-output directory: an explicit override always wins;
    /// else the resolved `outDir` when the configuration sets one; else
    /// the fixed default.
    pub fn determine_out_dir(&self, override_out_dir: Option<Vec<u8>>) -> (r: Vec<u8>)
        ensures
            r@ == spec_determine_out_dir(self.tsconfig@, view_opt_bytes(override_out_dir)),
            override_out_dir matches Some(o) ==> r@ == o@,
            forall|co: CompilerOptionsV, d: Seq<u8>|
                override_out_dir is None && self.tsconfig@.compiler_options == Some(co)
                    && co.out_dir == Some(d) ==> r@ == d,
            override_out_dir is None && !(self.tsconfig@.compiler_options matches Some(co)
                && co.out_dir is Some) ==> r@ == spec_w_dist(),
    {
        match override_out_dir {
            Some(o) => o,
            None => match &self.tsconfig.compiler_options {
                Some(co) => match &co.out_dir {
                    Some(d) => copy_bytes(d.as_slice()),
                    None => w_dist(),
                },
                None => w_dist(),
            },
        }
    }

    /// The engine options this configuration yields, resolved against
    /// the given working directory.
    pub fn convert(&self, cwd: &[u8]) -> (r: EngineOptions)
        ensures
            r@ == spec_convert(
                self.tsconfig@,
                self.minify_output,
                self.enable_experimental_swc_declarations,
                cwd@,
            ),
    {
        let minify = match self.minify_output {
            Some(m) => m,
            None => false,
        };
        let experimental_dts = match self.enable_experimental_swc_declarations {
            Some(e) => e,
            None => false,
        };
        match &self.tsconfig.compiler_options {
            None => {
                let r = EngineOptions {
                    output_path: None,
                    source_maps: None,
                    minify,
                    module: None,
                    inline_sources_content: true,
                    base_url: Vec::new(),
                    paths: Vec::new(),
                    legacy_decorator: false,
                    decorator_metadata: false,
                    preserve_all_comments: false,
                    keep_class_names: false,
                    target: None,
                    syntax_dts: experimental_dts,
                    decorators: false,
                    swcrc: false,
                };
                proof {
                    assert(view_alias_seq(r.paths@) =~= Seq::<(Seq<u8>, Seq<Seq<u8>>)>::empty());
                    assert(r@ =~~= spec_convert_fallback(
                        self.minify_output,
                        self.enable_experimental_swc_declarations,
                    ));
                }
                r
            },
            Some(co) => {
                let base_url = determine_base_url(&co.base_url, cwd);
                let paths = determine_paths(base_url.as_slice(), &co.paths);
                let inline_source_map = match co.inline_source_map {
                    Some(b) => b,
                    None => false,
                };
                let output_path: Option<Vec<u8>> = match &co.out_dir {
                    Some(o) => {
                        if o.len() == 0 {
                            None
                        } else {
                            Some(copy_bytes(o.as_slice()))
                        }
                    },
                    None => None,
                };
                let source_maps = if inline_source_map {
                    SourceMapsChoice::Inline
                } else {
                    SourceMapsChoice::Flag(
                        match co.source_map {
                            Some(b) => b,
                            None => false,
                        },
                    )
                };
                let decorators = match co.experimental_decorators {
                    Some(b) => b,
                    None => false,
                };
                let declaration = match co.declaration {
                    Some(d) => d,
                    None => false,
                };
                let r = EngineOptions {
                    output_path,
                    source_maps: Some(source_maps),
                    minify,
                    module: Some(convert_module(&co.module, co.es_module_interop)),
                    inline_sources_content: match co.inline_sources {
                        Some(b) => b,
                        None => false,
                    },
                    base_url,
                    paths,
                    legacy_decorator: false,
                    decorator_metadata: decorators,
                    preserve_all_comments: match co.remove_comments {
                        Some(rc) => !rc,
                        None => true,
                    },
                    keep_class_names: true,
                    target: Some(convert_target_to_es_version(&co.target)),
                    syntax_dts: experimental_dts && declaration,
                    decorators,
                    swcrc: true,
                };
                proof {
                    assert(r@ =~~= spec_convert(
                        self.tsconfig@,
                        self.minify_output,
                        self.enable_experimental_swc_declarations,
                        cwd@,
                    ));
                }
                r
            },
        }
    }
}

/// The compiled-output directory `determine_out_dir` picks.
pub open spec fn spec_determine_out_dir(cfg: TsConfigV, override_out_dir: Option<Seq<u8>>) -> Seq<
    u8,
> {
    match override_out_dir {
        Some(o) => o,
        None => match cfg.compiler_options {
            Some(co) => match co.out_dir {
                Some(d) => d,
                None => spec_w_dist(),
            },
            None => spec_w_dist(),
        },
    }
}

} // verus!
