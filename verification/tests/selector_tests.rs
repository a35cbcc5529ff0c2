use bndl::convert::{Converter, CreateConverterOptions};
use bndl::options::TsConfigJson;
use bndl::selector::{check_to_ignore_dir, check_to_ignore_file, construct_glob_set, SelectorError};

fn converter_with_patterns(
    includes: Option<Vec<Vec<u8>>>,
    excludes: Option<Vec<Vec<u8>>>,
) -> Converter {
    let tsconfig = TsConfigJson { extends: None, compiler_options: None, includes, excludes };
    let options = CreateConverterOptions {
        manager: None,
        minify_output: None,
        enable_experimental_swc_declarations: None,
    };
    Converter::from_tsconfig(&tsconfig, options).expect("converter")
}

#[test]
fn include_and_exclude_decide_eligibility() {
    let conv = converter_with_patterns(
        Some(vec![b"src/**".to_vec()]),
        Some(vec![b"src/**/*.test.ts".to_vec()]),
    );
    let sets = conv.construct_globset(b"/app").expect("compiled sets");
    // an included source file is eligible
    assert!(!check_to_ignore_file(b"src/a.ts", &sets));
    // its test twin is excluded
    assert!(check_to_ignore_file(b"src/a.test.ts", &sets));
    // a file outside the include set is not eligible
    assert!(check_to_ignore_file(b"other/b.ts", &sets));
    // an included file of a non-source extension is not eligible
    assert!(check_to_ignore_file(b"src/readme.md", &sets));
}

#[test]
fn empty_include_set_admits_every_source_file() {
    let conv = converter_with_patterns(None, None);
    let sets = conv.construct_globset(b"/app").expect("compiled sets");
    assert!(!check_to_ignore_file(b"anything/at/all.ts", &sets));
    assert!(!check_to_ignore_file(b"lib.js", &sets));
    // a file without any extension is never compile-eligible
    assert!(check_to_ignore_file(b"Makefile", &sets));
}

#[test]
fn directories_are_pruned_by_exclude_or_name() {
    let conv = converter_with_patterns(None, Some(vec![b"generated".to_vec()]));
    let sets = conv.construct_globset(b"/app").expect("compiled sets");
    assert!(check_to_ignore_dir(b"generated", &sets));
    assert!(check_to_ignore_dir(b"pkg/node_modules", &sets));
    assert!(!check_to_ignore_dir(b"src", &sets));
}

#[test]
fn malformed_pattern_is_reported() {
    match construct_glob_set(&Some(vec![b"*[".to_vec()]), b"/app") {
        Err(SelectorError::Pattern { pattern }) => assert_eq!(pattern, b"*[".to_vec()),
        _ => panic!("expected the malformed pattern to be refused"),
    }
}

#[test]
fn anchored_patterns_match_one_level_down() {
    // A directory-looking pattern also matches one level down the tree.
    let conv = converter_with_patterns(Some(vec![b"src".to_vec()]), None);
    let sets = conv.construct_globset(b"/app").expect("compiled sets");
    assert!(!check_to_ignore_file(b"src/a.ts", &sets));
    assert!(!check_to_ignore_file(b"pkg/src/a.ts", &sets));
}
