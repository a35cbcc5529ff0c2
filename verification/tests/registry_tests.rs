use bndl::registry::{
    determine_scoped_package_name, extract_name_from_scoped_package_name, find_workspace_root,
    get_workspace_scope, fetch_packages, parse_package_json, Manager, PackageJson, WalkEntry,
    WorkspaceError, WorkspacesConfig,
};
use bndl::store::{ByteMap, FsModel};

fn entry(path: &[u8], is_dir: bool, is_symlink: bool) -> WalkEntry {
    WalkEntry { path: path.to_vec(), is_dir, is_symlink }
}

#[test]
fn the_workspace_root_is_the_nearest_manifest_with_workspaces() {
    let mut fs = FsModel::new();
    fs.add_file(
        b"/w/package.json".to_vec(),
        br#"{"name": "w", "workspaces": ["packages/*"]}"#.to_vec(),
    );
    fs.add_file(b"/w/a/package.json".to_vec(), br#"{"name": "a"}"#.to_vec());
    assert_eq!(find_workspace_root(&fs, b"/w/a/b"), Some(b"/w".to_vec()));
    assert_eq!(find_workspace_root(&fs, b"/w"), Some(b"/w".to_vec()));
    assert_eq!(find_workspace_root(&fs, b"/elsewhere"), None);
}

#[test]
fn no_workspace_root_is_a_reported_error() {
    let fs = FsModel::new();
    match Manager::new(&fs, b"/w", &Vec::new()) {
        Err(WorkspaceError::RootNotFound) => {},
        _ => panic!("expected the root lookup to fail"),
    }
}

#[test]
fn the_walk_indexes_manifests_and_prunes_output_directories() {
    let mut fs = FsModel::new();
    fs.add_file(b"/w/pkgs/a/package.json".to_vec(), br#"{"name": "liba"}"#.to_vec());
    fs.add_file(b"/w/pkgs/b/package.json".to_vec(), br#"{"name": "libb"}"#.to_vec());
    fs.add_file(
        b"/w/pkgs/a/node_modules/x/package.json".to_vec(),
        br#"{"name": "hidden"}"#.to_vec(),
    );
    fs.add_file(b"/w/pkgs/a/dist/package.json".to_vec(), br#"{"name": "built"}"#.to_vec());
    let entries = vec![
        entry(b"/w/pkgs", true, false),
        entry(b"/w/pkgs/a", true, false),
        entry(b"/w/pkgs/a/package.json", false, false),
        entry(b"/w/pkgs/a/node_modules", true, false),
        entry(b"/w/pkgs/a/node_modules/x/package.json", false, false),
        entry(b"/w/pkgs/a/dist", true, false),
        entry(b"/w/pkgs/a/dist/package.json", false, false),
        entry(b"/w/pkgs/b", true, false),
        entry(b"/w/pkgs/b/package.json", false, false),
        entry(b"/w/pkgs/link/package.json", false, true),
    ];
    let index = fetch_packages(&fs, &entries);
    assert_eq!(index.get(b"liba"), Some(&b"/w/pkgs/a".to_vec()));
    assert_eq!(index.get(b"libb"), Some(&b"/w/pkgs/b".to_vec()));
    assert_eq!(index.get(b"hidden"), None);
    assert_eq!(index.get(b"built"), None);
    assert_eq!(index.len(), 2);
}

#[test]
fn used_dependencies_intersect_the_index_with_the_manifest() {
    let mut fs = FsModel::new();
    fs.add_file(
        b"/w/app/package.json".to_vec(),
        br#"{"name": "app", "dependencies": {"liba": "1.0.0", "outside": "2.0.0"}}"#.to_vec(),
    );
    let mut packages = ByteMap::new();
    packages.insert(b"liba".to_vec(), b"/w/pkgs/a".to_vec());
    packages.insert(b"libb".to_vec(), b"/w/pkgs/b".to_vec());
    let manager = Manager { root: b"/w".to_vec(), packages };
    let used = manager.fetch_used_dependencies(&fs, b"/w/app/package.json");
    assert_eq!(used.len(), 1);
    assert_eq!(used.get(b"liba"), Some(&b"/w/pkgs/a".to_vec()));
    assert_eq!(used.get(b"libb"), None);
}

#[test]
fn manifests_parse_with_both_workspace_shapes() {
    let npm = parse_package_json(br#"{"name": "w", "workspaces": ["packages/*"]}"#)
        .expect("plain list");
    match npm.workspaces {
        Some(WorkspacesConfig::Npm(globs)) => assert_eq!(globs, vec![b"packages/*".to_vec()]),
        _ => panic!("expected the plain list shape"),
    }

    let yarn = parse_package_json(
        br#"{"name": "w", "workspaces": {"packages": ["p/*"], "nohoist": ["**/x"]}}"#,
    )
    .expect("richer shape");
    match yarn.workspaces {
        Some(WorkspacesConfig::Yarn(y)) => {
            assert_eq!(y.packages, vec![b"p/*".to_vec()]);
            assert_eq!(y.nohoist, vec![b"**/x".to_vec()]);
        },
        _ => panic!("expected the richer shape"),
    }

    // a missing name is a parse failure
    assert!(parse_package_json(br#"{"workspaces": []}"#).is_none());
    // the richer shape without its hoisting list is a parse failure
    assert!(parse_package_json(br#"{"name": "w", "workspaces": {"packages": []}}"#).is_none());
    // a dependency that is not a string is a parse failure
    assert!(parse_package_json(br#"{"name": "w", "dependencies": {"a": 1}}"#).is_none());
}

#[test]
fn scoped_package_names_are_taken_apart_and_rebuilt() {
    assert_eq!(extract_name_from_scoped_package_name(b"@acme/core"), b"core".to_vec());
    assert_eq!(extract_name_from_scoped_package_name(b"plain"), b"plain".to_vec());
    assert_eq!(extract_name_from_scoped_package_name(b"@solo"), b"@solo".to_vec());
    assert_eq!(determine_scoped_package_name(b"core", b"@acme"), b"@acme/core".to_vec());
    assert_eq!(determine_scoped_package_name(b"@acme/core", b"@acme"), b"@acme/core".to_vec());
    let manifest = PackageJson {
        name: b"@acme/app".to_vec(),
        workspaces: None,
        dependencies: None,
    };
    assert_eq!(get_workspace_scope(&manifest), b"@acme".to_vec());
}
