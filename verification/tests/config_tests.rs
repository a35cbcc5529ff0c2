use bndl::options::{merge_compiler_options, CompilerOptions, TsConfigJson};
use bndl::parse::parse_tsconfig;
use bndl::registry::Manager;
use bndl::resolver::ConfigError;
use bndl::store::{ByteMap, FsModel};

fn empty_options() -> CompilerOptions {
    CompilerOptions {
        module: None,
        declaration: None,
        experimental_decorators: None,
        target: None,
        source_map: None,
        base_url: None,
        paths: None,
        inline_sources: None,
        inline_source_map: None,
        declaration_dir: None,
        out_dir: None,
        remove_comments: None,
        resolve_json_module: None,
        es_module_interop: None,
    }
}

#[test]
fn merge_keeps_disjoint_options_and_child_wins() {
    // grandparent -> parent -> child, each setting a disjoint subset,
    // plus `target` set at every level.
    let grandparent = CompilerOptions {
        module: Some(b"commonjs".to_vec()),
        target: Some(b"es5".to_vec()),
        ..empty_options()
    };
    let parent = CompilerOptions {
        out_dir: Some(b"build".to_vec()),
        target: Some(b"es2017".to_vec()),
        ..empty_options()
    };
    let child = CompilerOptions {
        declaration: Some(true),
        target: Some(b"es2021".to_vec()),
        ..empty_options()
    };

    let base = merge_compiler_options(&Some(grandparent), &Some(parent));
    let merged = merge_compiler_options(&base, &Some(child)).expect("merged bag");

    // the union of the disjoint subsets survives
    assert_eq!(merged.module, Some(b"commonjs".to_vec()));
    assert_eq!(merged.out_dir, Some(b"build".to_vec()));
    assert_eq!(merged.declaration, Some(true));
    // the child's value wins where several levels set the option
    assert_eq!(merged.target, Some(b"es2021".to_vec()));
    // options nobody set stay unset
    assert_eq!(merged.base_url, None);
}

#[test]
fn merge_with_missing_sides() {
    let only = CompilerOptions { out_dir: Some(b"lib".to_vec()), ..empty_options() };
    let from_child = merge_compiler_options(&None, &Some(only)).expect("child side");
    assert_eq!(from_child.out_dir, Some(b"lib".to_vec()));

    let only = CompilerOptions { out_dir: Some(b"lib".to_vec()), ..empty_options() };
    let from_base = merge_compiler_options(&Some(only), &None).expect("base side");
    assert_eq!(from_base.out_dir, Some(b"lib".to_vec()));

    assert!(merge_compiler_options(&None, &None).is_none());
}

fn empty_manager() -> Manager {
    Manager { root: b"/w".to_vec(), packages: ByteMap::new() }
}

#[test]
fn resolve_three_level_extends_chain() {
    let mut fs = FsModel::new();
    fs.add_file(
        b"/w/app/tsconfig.json".to_vec(),
        br#"{"extends": "./parent.json", "compilerOptions": {"target": "es2021", "declaration": true}}"#.to_vec(),
    );
    fs.add_file(
        b"/w/app/parent.json".to_vec(),
        br#"{"extends": "./grandparent.json", "compilerOptions": {"target": "es2017", "outDir": "build"}}"#.to_vec(),
    );
    fs.add_file(
        b"/w/app/grandparent.json".to_vec(),
        br#"{"compilerOptions": {"target": "es5", "module": "commonjs"}}"#.to_vec(),
    );

    let resolved = TsConfigJson::from_path(&fs, &empty_manager(), b"/w/app/tsconfig.json")
        .expect("chain resolves");
    let co = resolved.compiler_options.expect("merged options");
    assert_eq!(co.target, Some(b"es2021".to_vec()));
    assert_eq!(co.out_dir, Some(b"build".to_vec()));
    assert_eq!(co.module, Some(b"commonjs".to_vec()));
    assert_eq!(co.declaration, Some(true));
}

#[test]
fn resolve_extends_through_internal_package() {
    // The extends target does not exist as a relative file, but its
    // stripped prefix names an indexed package: the configuration is
    // found inside that package's directory.
    let mut fs = FsModel::new();
    fs.add_file(
        b"/w/app/tsconfig.json".to_vec(),
        br#"{"extends": "tsconfig-base/tsconfig.json", "compilerOptions": {"outDir": "dist"}}"#
            .to_vec(),
    );
    fs.add_file(
        b"/w/shared/tsconfig-base/tsconfig.json".to_vec(),
        br#"{"compilerOptions": {"module": "es6", "target": "es2020"}}"#.to_vec(),
    );
    let mut packages = ByteMap::new();
    packages.insert(b"tsconfig-base".to_vec(), b"/w/shared/tsconfig-base".to_vec());
    let manager = Manager { root: b"/w".to_vec(), packages };

    let resolved = TsConfigJson::from_path(&fs, &manager, b"/w/app/tsconfig.json")
        .expect("monorepo-relative extends resolves");
    let co = resolved.compiler_options.expect("merged options");
    assert_eq!(co.module, Some(b"es6".to_vec()));
    assert_eq!(co.target, Some(b"es2020".to_vec()));
    assert_eq!(co.out_dir, Some(b"dist".to_vec()));
}

#[test]
fn resolve_missing_extends_degrades_to_empty_base() {
    let mut fs = FsModel::new();
    fs.add_file(
        b"/w/app/tsconfig.json".to_vec(),
        br#"{"extends": "nowhere/tsconfig.json", "compilerOptions": {"outDir": "dist"}}"#.to_vec(),
    );
    let resolved = TsConfigJson::from_path(&fs, &empty_manager(), b"/w/app/tsconfig.json")
        .expect("unreachable base degrades gracefully");
    let co = resolved.compiler_options.expect("own options kept");
    assert_eq!(co.out_dir, Some(b"dist".to_vec()));
    assert_eq!(co.module, None);
}

#[test]
fn resolve_missing_config_gives_empty_configuration() {
    let fs = FsModel::new();
    let resolved = TsConfigJson::from_path(&fs, &empty_manager(), b"/w/app/tsconfig.json")
        .expect("missing path is not an error");
    assert!(resolved.compiler_options.is_none());
    assert!(resolved.extends.is_none());
}

#[test]
fn resolve_reports_parse_error_with_offending_path() {
    let mut fs = FsModel::new();
    fs.add_file(b"/w/app/tsconfig.json".to_vec(), b"this is not json".to_vec());
    match TsConfigJson::from_path(&fs, &empty_manager(), b"/w/app/tsconfig.json") {
        Err(ConfigError::Parse { path }) => assert_eq!(path, b"/w/app/tsconfig.json".to_vec()),
        _ => panic!("expected a parse error"),
    }
}

#[test]
fn resolve_reports_cyclic_extends_chain() {
    let mut fs = FsModel::new();
    fs.add_file(
        b"/w/app/tsconfig.json".to_vec(),
        br#"{"extends": "/w/app/tsconfig.json"}"#.to_vec(),
    );
    match TsConfigJson::from_path(&fs, &empty_manager(), b"/w/app/tsconfig.json") {
        Err(ConfigError::ChainTooDeep { path }) => {
            assert_eq!(path, b"/w/app/tsconfig.json".to_vec())
        },
        _ => panic!("expected the chain to run out"),
    }
}

#[test]
fn parse_tsconfig_extracts_every_field() {
    let cfg = parse_tsconfig(
        br#"{
        "extends": "./base.json",
        "compilerOptions": {
            "module": "umd",
            "declaration": true,
            "experimentalDecorators": false,
            "target": "es2019",
            "sourceMap": true,
            "baseUrl": "./src",
            "paths": {"@app/*": ["src/*", "gen/*"]},
            "inlineSources": false,
            "inlineSourceMap": false,
            "declarationDir": "types",
            "outDir": "dist",
            "removeComments": true,
            "resolveJsonModule": true,
            "esModuleInterop": false
        },
        "include": ["src/**"],
        "exclude": ["src/**/*.test.ts"]
    }"#,
    )
    .expect("well-formed configuration");
    assert_eq!(cfg.extends, Some(b"./base.json".to_vec()));
    let co = cfg.compiler_options.expect("options present");
    assert_eq!(co.module, Some(b"umd".to_vec()));
    assert_eq!(co.declaration, Some(true));
    assert_eq!(co.experimental_decorators, Some(false));
    assert_eq!(co.target, Some(b"es2019".to_vec()));
    assert_eq!(co.source_map, Some(true));
    assert_eq!(co.base_url, Some(b"./src".to_vec()));
    let paths = co.paths.expect("alias table");
    assert_eq!(paths.len(), 1);
    assert_eq!(paths[0].key, b"@app/*".to_vec());
    assert_eq!(paths[0].targets, vec![b"src/*".to_vec(), b"gen/*".to_vec()]);
    assert_eq!(co.inline_sources, Some(false));
    assert_eq!(co.inline_source_map, Some(false));
    assert_eq!(co.declaration_dir, Some(b"types".to_vec()));
    assert_eq!(co.out_dir, Some(b"dist".to_vec()));
    assert_eq!(co.remove_comments, Some(true));
    assert_eq!(co.resolve_json_module, Some(true));
    assert_eq!(co.es_module_interop, Some(false));
    assert_eq!(cfg.includes, Some(vec![b"src/**".to_vec()]));
    assert_eq!(cfg.excludes, Some(vec![b"src/**/*.test.ts".to_vec()]));
}

#[test]
fn parse_tsconfig_rejects_wrong_shapes() {
    // a string where a boolean belongs
    assert!(parse_tsconfig(br#"{"compilerOptions": {"declaration": "yes"}}"#).is_none());
    // a number where a string belongs
    assert!(parse_tsconfig(br#"{"compilerOptions": {"target": 5}}"#).is_none());
    // a non-object document
    assert!(parse_tsconfig(br#"[1, 2]"#).is_none());
    // malformed JSON
    assert!(parse_tsconfig(b"{oops").is_none());
    // null members and unknown members are fine
    let cfg = parse_tsconfig(br#"{"extends": null, "unknown": 1, "compilerOptions": null}"#)
        .expect("nulls leave options unset");
    assert!(cfg.extends.is_none());
    assert!(cfg.compiler_options.is_none());
}
