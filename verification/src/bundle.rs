//! Dependency bundling: which internal packages the current package
//! consumes, and for each the copy that brings its build artifacts (or,
//! when none exist, its sources) into the consumer's output tree.
use vstd::prelude::*;
use crate::bytes::copy_bytes;
use crate::convert::spec_determine_out_dir;
use crate::pathing::{path_join, spec_join};
use crate::registry::{spec_used_dependencies, Manager, spec_package_json_at};
use crate::resolver::spec_resolve_config;
use crate::store::FsModel;
use crate::words::{
    spec_w_node_modules, spec_w_package_json, spec_w_tsconfig_json, w_dist, w_node_modules,
    w_package_json, w_tsconfig_json,
};

verus! {

/// One directory copy the bundling pass performs: recursive, symlinks
/// skipped, existing files overwritten.
pub struct CopyJob {
    pub source: Vec<u8>,
    pub destination: Vec<u8>,
}

/// Ghost image of `CopyJob`.
pub struct CopyJobV {
    pub source: Seq<u8>,
    pub destination: Seq<u8>,
}

impl View for CopyJob {
    type V = CopyJobV;

    open spec fn view(&self) -> CopyJobV {
        CopyJobV { source: self.source@, destination: self.destination@ }
    }
}

/// Element-wise view of a list of copy jobs.
pub open spec fn view_copy_jobs(s: Seq<CopyJob>) -> Seq<CopyJobV> {
    Seq::new(s.len(), |i: int| s[i]@)
}

/// The directory bundled for one dependency: its own resolved output
/// directory when compiled artifacts sit there, else its raw sources.
/// A dependency whose configuration does not resolve also falls back to
/// its raw sources.
pub open spec fn spec_bundle_source(fs: FsModel, pkgs: Seq<(Seq<u8>, Seq<u8>)>, dep_path: Seq<u8>) -> Seq<
    u8,
> {
    match spec_resolve_config(fs, pkgs, spec_join(dep_path, spec_w_tsconfig_json())) {
        Err(_) => dep_path,
        Ok(cfg) => {
            let compiled = spec_join(dep_path, spec_determine_out_dir(cfg, None));
            if fs.spec_node_exists(compiled) {
                compiled
            } else {
                dep_path
            }
        },
    }
}

/// Where one dependency lands: always
/// `<app dir>/<out dir>/node_modules/<name>`.
pub open spec fn spec_bundle_destination(
    app_dir: Seq<u8>,
    app_out_path: Seq<u8>,
    name: Seq<u8>,
) -> Seq<u8> {
    spec_join(spec_join(spec_join(app_dir, app_out_path), spec_w_node_modules()), name)
}

/// The copy jobs of one bundling pass, one per used dependency, in
/// index order.
pub open spec fn spec_bundle_jobs(
    fs: FsModel,
    pkgs: Seq<(Seq<u8>, Seq<u8>)>,
    deps: Seq<(Seq<u8>, Seq<u8>)>,
    app_dir: Seq<u8>,
    app_out_path: Seq<u8>,
) -> Seq<CopyJobV> {
    Seq::new(
        deps.len(),
        |i: int|
            CopyJobV {
                source: spec_bundle_source(fs, pkgs, deps[i].1),
                destination: spec_bundle_destination(app_dir, app_out_path, deps[i].0),
            },
    )
}

/// In charge of bundling internal monorepo dependencies together.
pub struct Bundler {
    pub manager: Manager,
}

impl Bundler {
    /// Wraps a workspace registry.
    pub fn new(manager: Manager) -> (r: Bundler)
        ensures
            r.manager == manager,
    {
        Bundler { manager }
    }

    /// Plans one bundling pass: for every internal dependency the
    /// current package (the manifest in `app_dir`) uses, one copy whose
    /// source is the dependency's compiled output when it exists (else
    /// its raw sources) and whose destination is
    /// `<app dir>/<out path>/node_modules/<name>`. Each dependency is
    /// independent: a failing copy is reported by the caller and the
    /// others go on.
    pub fn bundle(&self, fs: &FsModel, app_dir: &[u8], app_out_path: &[u8]) -> (r: Vec<CopyJob>)
        ensures
            view_copy_jobs(r@) == spec_bundle_jobs(
                *fs,
                self.manager.packages@,
                spec_used_dependencies(
                    self.manager.packages@,
                    spec_package_json_at(
                        *fs,
                        spec_join(app_dir@, spec_w_package_json()),
                    ).dependencies,
                ),
                app_dir@,
                app_out_path@,
            ),
    {
        let manifest_path = path_join(app_dir, w_package_json().as_slice());
        let dependencies = self.manager.fetch_used_dependencies(fs, manifest_path.as_slice());
        let ghost deps = dependencies@;
        let mut jobs: Vec<CopyJob> = Vec::new();
        let n = dependencies.pairs.len();
        let mut i: usize = 0;
        while i < n
            invariant
                0 <= i <= n,
                n == deps.len(),
                deps == dependencies@,
                jobs@.len() == i,
                forall|j: int|
                    0 <= j < i ==> (#[trigger] jobs@[j])@ == (CopyJobV {
                        source: spec_bundle_source(*fs, self.manager.packages@, deps[j].1),
                        destination: spec_bundle_destination(app_dir@, app_out_path@, deps[j].0),
                    }),
            decreases n - i,
        {
            let name = &dependencies.pairs[i].0;
            let path = &dependencies.pairs[i].1;
            assert((name@, path@) == deps[i as int]);
            let config_path = path_join(path.as_slice(), w_tsconfig_json().as_slice());
            let source: Vec<u8> = match crate::options::TsConfigJson::from_path(
                fs,
                &self.manager,
                config_path.as_slice(),
            ) {
                Err(_) => copy_bytes(path.as_slice()),
                Ok(cfg) => {
                    let out_dir: Vec<u8> = match &cfg.compiler_options {
                        Some(co) => match &co.out_dir {
                            Some(d) => copy_bytes(d.as_slice()),
                            None => w_dist(),
                        },
                        None => w_dist(),
                    };
                    assert(out_dir@ == spec_determine_out_dir(cfg@, None));
                    let compiled = path_join(path.as_slice(), out_dir.as_slice());
                    if fs.node_exists(compiled.as_slice()) {
                        compiled
                    } else {
                        copy_bytes(path.as_slice())
                    }
                },
            };
            let destination = path_join(
                path_join(
                    path_join(app_dir, app_out_path).as_slice(),
                    w_node_modules().as_slice(),
                ).as_slice(),
                name.as_slice(),
            );
            jobs.push(CopyJob { source, destination });
            i += 1;
        }
        proof {
            assert(view_copy_jobs(jobs@) =~= spec_bundle_jobs(
                *fs,
                self.manager.packages@,
                deps,
                app_dir@,
                app_out_path@,
            ));
        }
        jobs
    }
}

} // verus!
