use bndl::compile::{
    compile_directory_plan, finalize_output, plan_compile_file, plan_compile_jobs,
    prepare_input_path, handle_json_file, DirSet, WritePlan,
};
use bndl::convert::{Converter, CreateConverterOptions};
use bndl::options::TsConfigJson;
use bndl::registry::WalkEntry;
use bndl::sourcemap::determine_source_file_name;

#[test]
fn input_path_is_made_relative() {
    assert_eq!(prepare_input_path(b"/app/src", b"/app"), b"src".to_vec());
    assert_eq!(prepare_input_path(b"./src", b"/app"), b"src".to_vec());
    assert_eq!(prepare_input_path(b".", b"/app"), b".".to_vec());
    assert_eq!(prepare_input_path(b"other", b"/app"), b"other".to_vec());
}

#[test]
fn output_paths_mirror_the_input_under_the_out_dir() {
    let job = plan_compile_file(b"src/a.ts", b"dist");
    assert_eq!(job.input, b"src/a.ts".to_vec());
    assert_eq!(job.output_file, b"dist/src/a.js".to_vec());
    assert_eq!(job.source_map_file, b"dist/src/a.js.map".to_vec());
}

#[test]
fn a_batch_of_independent_files_yields_one_distinct_output_each() {
    let files = vec![b"src/a.ts".to_vec(), b"src/b.tsx".to_vec(), b"src/c/d.js".to_vec()];
    let jobs = plan_compile_jobs(&files, b"dist");
    assert_eq!(jobs.len(), 3);
    assert_eq!(jobs[0].output_file, b"dist/src/a.js".to_vec());
    assert_eq!(jobs[1].output_file, b"dist/src/b.js".to_vec());
    assert_eq!(jobs[2].output_file, b"dist/src/c/d.js".to_vec());
    for i in 0..jobs.len() {
        for j in i + 1..jobs.len() {
            assert_ne!(jobs[i].output_file, jobs[j].output_file);
        }
    }
}

#[test]
fn directory_creation_is_deduplicated() {
    let mut created = DirSet::new();
    assert!(created.mark_created(b"dist/src"));
    assert!(!created.mark_created(b"dist/src"));
    assert!(created.mark_created(b"dist/lib"));
    assert!(!created.mark_created(b"dist/lib"));
}

#[test]
fn empty_code_writes_nothing() {
    match finalize_output(Vec::new(), Some(b"{}".to_vec()), b"dist/a.js.map") {
        WritePlan::Nothing => {},
        _ => panic!("type-only files write nothing"),
    }
}

#[test]
fn a_source_map_gets_referenced_from_the_code() {
    match finalize_output(b"let x = 1;".to_vec(), Some(b"{\"v\":3}".to_vec()), b"dist/a.js.map") {
        WritePlan::CodeAndMap { code, map } => {
            assert_eq!(code, b"let x = 1;\n//# sourceMappingURL=a.js.map".to_vec());
            assert_eq!(map, b"{\"v\":3}".to_vec());
        },
        _ => panic!("expected code and map"),
    }
}

#[test]
fn code_without_a_map_is_written_as_is() {
    match finalize_output(b"let x = 1;".to_vec(), None, b"dist/a.js.map") {
        WritePlan::CodeOnly { code } => assert_eq!(code, b"let x = 1;".to_vec()),
        _ => panic!("expected plain code"),
    }
}

fn entry(path: &[u8], is_dir: bool, is_symlink: bool) -> WalkEntry {
    WalkEntry { path: path.to_vec(), is_dir, is_symlink }
}

#[test]
fn the_walk_collects_sources_and_json_and_prunes_dependencies() {
    let tsconfig = TsConfigJson {
        extends: None,
        compiler_options: None,
        includes: None,
        excludes: None,
    };
    let conv = Converter::from_tsconfig(
        &tsconfig,
        CreateConverterOptions {
            manager: None,
            minify_output: None,
            enable_experimental_swc_declarations: None,
        },
    )
    .expect("converter");
    let sets = conv.construct_globset(b"/app").expect("compiled sets");
    let entries = vec![
        entry(b"src", true, false),
        entry(b"src/a.ts", false, false),
        entry(b"src/b.tsx", false, false),
        entry(b"src/data.json", false, false),
        entry(b"src/link.ts", false, true),
        entry(b"node_modules", true, false),
        entry(b"node_modules/dep/c.ts", false, false),
        entry(b"src/notes.txt", false, false),
    ];
    let plan = compile_directory_plan(&entries, &sets);
    assert_eq!(plan.sources, vec![b"src/a.ts".to_vec(), b"src/b.tsx".to_vec()]);
    assert_eq!(plan.json_files, vec![b"src/data.json".to_vec()]);
}

#[test]
fn json_passthrough_needs_the_flag_and_an_include_match() {
    let tsconfig = TsConfigJson {
        extends: None,
        compiler_options: None,
        includes: Some(vec![b"src/**".to_vec()]),
        excludes: None,
    };
    let conv = Converter::from_tsconfig(
        &tsconfig,
        CreateConverterOptions {
            manager: None,
            minify_output: None,
            enable_experimental_swc_declarations: None,
        },
    )
    .expect("converter");
    let sets = conv.construct_globset(b"/app").expect("compiled sets");
    assert_eq!(
        handle_json_file(b"src/data.json", Some(true), &sets, b"dist"),
        Some(b"dist/src/data.json".to_vec())
    );
    assert_eq!(handle_json_file(b"src/data.json", None, &sets, b"dist"), None);
    assert_eq!(handle_json_file(b"other/data.json", Some(true), &sets, b"dist"), None);
}

#[test]
fn the_source_file_name_walks_back_to_the_input() {
    let name = determine_source_file_name(b"/app/src/a.ts", b"/app/dist/src")
        .expect("a relative path exists");
    assert_eq!(name, b"../../src/a.ts".to_vec());
}

#[test]
fn a_source_map_is_rewritten_with_name_and_root() {
    let map = br#"{"version":3,"sources":["old.ts"],"mappings":"AAAA"}"#;
    let out = bndl::sourcemap::extend_source_map(
        map,
        &Some(b"../../src/a.ts".to_vec()),
        &Some(b"/repo".to_vec()),
    )
    .expect("a JSON object rewrites");
    let value: serde_json::Value = serde_json::from_slice(&out).expect("output is JSON");
    let sources = value.get("sources").and_then(|s| s.as_array()).expect("sources kept");
    assert_eq!(sources.len(), 1);
    assert_eq!(sources[0].as_str(), Some("../../src/a.ts"));
    assert_eq!(value.get("sourceRoot").and_then(|r| r.as_str()), Some("/repo"));
    assert_eq!(value.get("mappings").and_then(|m| m.as_str()), Some("AAAA"));
    assert_eq!(value.get("version").and_then(|v| v.as_i64()), Some(3));
}

#[test]
fn a_source_map_without_sources_keeps_its_members() {
    let map = br#"{"version":3,"sources":[],"mappings":""}"#;
    let out = bndl::sourcemap::extend_source_map(map, &Some(b"a.ts".to_vec()), &None)
        .expect("a JSON object rewrites");
    let value: serde_json::Value = serde_json::from_slice(&out).expect("output is JSON");
    let sources = value.get("sources").and_then(|s| s.as_array()).expect("sources kept");
    assert!(sources.is_empty());
    assert!(value.get("sourceRoot").is_none());
    // bytes that are not a JSON object are refused
    assert!(bndl::sourcemap::extend_source_map(b"[1]", &None, &None).is_none());
    assert!(bndl::sourcemap::extend_source_map(b"not json", &None, &None).is_none());
}
