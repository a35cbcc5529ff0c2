use bndl::bundle::Bundler;
use bndl::registry::Manager;
use bndl::store::{ByteMap, FsModel};

fn workspace_with_dep(dep_has_dist: bool, dep_out_dir: Option<&str>) -> (FsModel, Manager) {
    let mut fs = FsModel::new();
    fs.add_file(
        b"/w/app/package.json".to_vec(),
        br#"{"name": "app", "dependencies": {"liba": "1.0.0"}}"#.to_vec(),
    );
    if let Some(out) = dep_out_dir {
        fs.add_file(
            b"/w/pkgs/a/tsconfig.json".to_vec(),
            format!("{{\"compilerOptions\": {{\"outDir\": \"{out}\"}}}}").into_bytes(),
        );
    }
    if dep_has_dist {
        let out = dep_out_dir.unwrap_or("dist");
        fs.add_dir(format!("/w/pkgs/a/{out}").into_bytes());
    }
    let mut packages = ByteMap::new();
    packages.insert(b"liba".to_vec(), b"/w/pkgs/a".to_vec());
    (fs, Manager { root: b"/w".to_vec(), packages })
}

#[test]
fn compiled_artifacts_are_bundled_when_they_exist() {
    let (fs, manager) = workspace_with_dep(true, None);
    let bundler = Bundler::new(manager);
    let jobs = bundler.bundle(&fs, b"/w/app", b"dist");
    assert_eq!(jobs.len(), 1);
    assert_eq!(jobs[0].source, b"/w/pkgs/a/dist".to_vec());
    assert_eq!(jobs[0].destination, b"/w/app/dist/node_modules/liba".to_vec());
}

#[test]
fn sources_are_bundled_when_no_artifacts_exist() {
    let (fs, manager) = workspace_with_dep(false, None);
    let bundler = Bundler::new(manager);
    let jobs = bundler.bundle(&fs, b"/w/app", b"dist");
    assert_eq!(jobs.len(), 1);
    assert_eq!(jobs[0].source, b"/w/pkgs/a".to_vec());
    assert_eq!(jobs[0].destination, b"/w/app/dist/node_modules/liba".to_vec());
}

#[test]
fn each_dependency_uses_its_own_output_directory() {
    let (fs, manager) = workspace_with_dep(true, Some("build"));
    let bundler = Bundler::new(manager);
    let jobs = bundler.bundle(&fs, b"/w/app", b"out");
    assert_eq!(jobs.len(), 1);
    assert_eq!(jobs[0].source, b"/w/pkgs/a/build".to_vec());
    assert_eq!(jobs[0].destination, b"/w/app/out/node_modules/liba".to_vec());
}

#[test]
fn unused_packages_are_not_bundled() {
    let mut fs = FsModel::new();
    fs.add_file(b"/w/app/package.json".to_vec(), br#"{"name": "app"}"#.to_vec());
    let mut packages = ByteMap::new();
    packages.insert(b"liba".to_vec(), b"/w/pkgs/a".to_vec());
    let bundler = Bundler::new(Manager { root: b"/w".to_vec(), packages });
    let jobs = bundler.bundle(&fs, b"/w/app", b"dist");
    assert!(jobs.is_empty());
}
