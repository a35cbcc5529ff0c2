use bndl::convert::{
    convert_module, convert_target_to_es_version, default_swcrc, determine_base_url, Converter,
    ConverterError, CreateConverterOptions, EsTarget, ModuleKind, SourceMapsChoice,
};
use bndl::options::{CompilerOptions, TsConfigJson};
use bndl::store::FsModel;

fn empty_options() -> CompilerOptions {
    CompilerOptions {
        module: None,
        declaration: None,
        experimental_decorators: None,
        target: None,
        source_map: None,
        base_url: None,
        paths: None,
        inline_sources: None,
        inline_source_map: None,
        declaration_dir: None,
        out_dir: None,
        remove_comments: None,
        resolve_json_module: None,
        es_module_interop: None,
    }
}

fn converter_for(tsconfig: TsConfigJson, minify: Option<bool>) -> Converter {
    Converter::from_tsconfig(
        &tsconfig,
        CreateConverterOptions {
            manager: None,
            minify_output: minify,
            enable_experimental_swc_declarations: None,
        },
    )
    .expect("converter")
}

#[test]
fn targets_are_matched_without_regard_to_case() {
    assert_eq!(convert_target_to_es_version(&Some(b"ES2015".to_vec())), EsTarget::Es2015);
    assert_eq!(convert_target_to_es_version(&Some(b"es3".to_vec())), EsTarget::Es3);
    assert_eq!(convert_target_to_es_version(&Some(b"esnext".to_vec())), EsTarget::EsNext);
    assert_eq!(convert_target_to_es_version(&Some(b"es9999".to_vec())), EsTarget::Latest);
    assert_eq!(convert_target_to_es_version(&None), EsTarget::Latest);
}

#[test]
fn module_kinds_carry_the_interop_flag() {
    assert_eq!(
        convert_module(&Some(b"commonjs".to_vec()), Some(true)),
        ModuleKind::CommonJs { no_interop: false }
    );
    assert_eq!(
        convert_module(&Some(b"CommonJS".to_vec()), Some(false)),
        ModuleKind::CommonJs { no_interop: true }
    );
    assert_eq!(convert_module(&Some(b"cjs".to_vec()), Some(false)), ModuleKind::CommonJs {
        no_interop: false,
    });
    assert_eq!(convert_module(&Some(b"es2015".to_vec()), None), ModuleKind::Es6);
    assert_eq!(convert_module(&Some(b"umd".to_vec()), Some(false)), ModuleKind::Umd {
        no_interop: true,
    });
    assert_eq!(convert_module(&Some(b"system".to_vec()), None), ModuleKind::SystemJs);
    assert_eq!(convert_module(&Some(b"whatever".to_vec()), None), ModuleKind::CommonJs {
        no_interop: false,
    });
    assert_eq!(convert_module(&None, None), ModuleKind::CommonJs { no_interop: false });
}

#[test]
fn the_base_url_is_rooted_at_the_working_directory() {
    assert_eq!(determine_base_url(&Some(b"./src".to_vec()), b"/app"), b"/app/src".to_vec());
    assert_eq!(determine_base_url(&Some(b"src".to_vec()), b"/app"), b"/app/src".to_vec());
    assert_eq!(determine_base_url(&None, b"/app"), Vec::<u8>::new());
}

#[test]
fn conversion_fills_the_engine_options() {
    let tsconfig = TsConfigJson {
        extends: None,
        compiler_options: Some(CompilerOptions {
            module: Some(b"commonjs".to_vec()),
            target: Some(b"es2019".to_vec()),
            source_map: Some(true),
            out_dir: Some(b"dist".to_vec()),
            remove_comments: Some(true),
            experimental_decorators: Some(true),
            declaration: Some(true),
            ..empty_options()
        }),
        includes: None,
        excludes: None,
    };
    let conv = converter_for(tsconfig, Some(true));
    let engine = conv.convert(b"/app");
    assert_eq!(engine.output_path, Some(b"dist".to_vec()));
    assert_eq!(engine.source_maps, Some(SourceMapsChoice::Flag(true)));
    assert!(engine.minify);
    assert_eq!(engine.module, Some(ModuleKind::CommonJs { no_interop: false }));
    assert_eq!(engine.target, Some(EsTarget::Es2019));
    assert!(!engine.preserve_all_comments);
    assert!(engine.keep_class_names);
    assert!(engine.decorator_metadata);
    assert!(engine.decorators);
    assert!(!engine.legacy_decorator);
    // declaration output is delegated unless the experimental switch is on
    assert!(!engine.syntax_dts);
    assert!(engine.swcrc);
}

#[test]
fn inline_source_maps_override_the_flag() {
    let tsconfig = TsConfigJson {
        extends: None,
        compiler_options: Some(CompilerOptions {
            inline_source_map: Some(true),
            source_map: Some(false),
            ..empty_options()
        }),
        includes: None,
        excludes: None,
    };
    let conv = converter_for(tsconfig, None);
    let engine = conv.convert(b"/app");
    assert_eq!(engine.source_maps, Some(SourceMapsChoice::Inline));
}

#[test]
fn a_configuration_without_options_keeps_the_engine_defaults() {
    let tsconfig = TsConfigJson {
        extends: None,
        compiler_options: None,
        includes: None,
        excludes: None,
    };
    let conv = converter_for(tsconfig, None);
    let engine = conv.convert(b"/app");
    assert_eq!(engine.output_path, None);
    assert_eq!(engine.source_maps, None);
    assert_eq!(engine.module, None);
    assert_eq!(engine.target, None);
    assert!(!engine.swcrc);
    assert!(engine.inline_sources_content);
}

#[test]
fn the_out_dir_override_always_wins() {
    let tsconfig = TsConfigJson {
        extends: None,
        compiler_options: Some(CompilerOptions {
            out_dir: Some(b"build".to_vec()),
            ..empty_options()
        }),
        includes: None,
        excludes: None,
    };
    let conv = converter_for(tsconfig, None);
    assert_eq!(conv.determine_out_dir(Some(b"forced".to_vec())), b"forced".to_vec());
    assert_eq!(conv.determine_out_dir(None), b"build".to_vec());

    let bare = converter_for(
        TsConfigJson { extends: None, compiler_options: None, includes: None, excludes: None },
        None,
    );
    assert_eq!(bare.determine_out_dir(None), b"dist".to_vec());

    let unset = converter_for(
        TsConfigJson {
            extends: None,
            compiler_options: Some(empty_options()),
            includes: None,
            excludes: None,
        },
        None,
    );
    assert_eq!(unset.determine_out_dir(None), b"dist".to_vec());
    assert!(default_swcrc());
}

#[test]
fn building_a_converter_reports_both_failure_kinds() {
    // no workspace root anywhere: the registry cannot be built
    let fs = FsModel::new();
    let no_manager = CreateConverterOptions {
        manager: None,
        minify_output: None,
        enable_experimental_swc_declarations: None,
    };
    match Converter::from_path(&fs, b"/w", &Vec::new(), b"tsconfig.json", no_manager) {
        Err(ConverterError::Workspace(_)) => {},
        _ => panic!("expected the workspace lookup to fail"),
    }

    // a malformed configuration behind a valid workspace
    let mut fs = FsModel::new();
    fs.add_file(
        b"/w/package.json".to_vec(),
        br#"{"name": "w", "workspaces": []}"#.to_vec(),
    );
    fs.add_file(b"/w/tsconfig.json".to_vec(), b"not json".to_vec());
    let no_manager = CreateConverterOptions {
        manager: None,
        minify_output: None,
        enable_experimental_swc_declarations: None,
    };
    match Converter::from_path(&fs, b"/w", &Vec::new(), b"/w/tsconfig.json", no_manager) {
        Err(ConverterError::Config(_)) => {},
        _ => panic!("expected the configuration parse to fail"),
    }
}
