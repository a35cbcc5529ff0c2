//! Extraction of a project configuration from its parsed JSON document,
//! with the exact meaning of every field spelled out: an absent or null
//! member leaves an option unset, a member of the wrong shape is a parse
//! error, and unknown members are ignored.
use vstd::prelude::*;
use crate::bytes::copy_bytes;
use crate::jsonio::{
    json_as_bool, json_as_list, json_as_text, json_data, json_doc, json_get, json_is_null,
    json_is_object, json_parse, json_object_entries, JsonData,
};
use crate::options::{
    pairs_to_map, lemma_pairs_to_map, view_alias_seq, view_bytes_list, view_opt_bytes,
    view_opt_bytes_list, CompilerOptions, CompilerOptionsV, PathAlias, TsConfigJson, TsConfigV,
};
use crate::words::{
    spec_w_base_url, spec_w_compiler_options, spec_w_declaration, spec_w_declaration_dir,
    spec_w_es_module_interop, spec_w_exclude, spec_w_experimental_decorators, spec_w_extends,
    spec_w_include, spec_w_inline_source_map, spec_w_inline_sources, spec_w_module,
    spec_w_out_dir, spec_w_paths, spec_w_remove_comments, spec_w_resolve_json_module,
    spec_w_source_map, spec_w_target, w_base_url, w_compiler_options, w_declaration,
    w_declaration_dir, w_es_module_interop, w_exclude, w_experimental_decorators, w_extends,
    w_include, w_inline_source_map, w_inline_sources, w_module, w_out_dir, w_paths,
    w_remove_comments, w_resolve_json_module, w_source_map, w_target,
};

verus! {

/// The members of `d` when it is an object; empty otherwise.
pub open spec fn obj_of(d: JsonData) -> Map<Seq<u8>, JsonData> {
    match d {
        JsonData::Object(m) => m,
        _ => Map::empty(),
    }
}

/// The elements of `d` when it is an array; empty otherwise.
pub open spec fn list_of(d: JsonData) -> Seq<JsonData> {
    match d {
        JsonData::List(s) => s,
        _ => Seq::empty(),
    }
}

/// An optional string member: absent or null leaves it unset, a string
/// sets it, anything else is a parse error (`None`).
pub open spec fn spec_text_field(m: Map<Seq<u8>, JsonData>, k: Seq<u8>) -> Option<
    Option<Seq<u8>>,
> {
    if !m.dom().contains(k) {
        Some(None)
    } else {
        match m[k] {
            JsonData::Null => Some(None),
            JsonData::Text(s) => Some(Some(s)),
            _ => None,
        }
    }
}

/// An optional boolean member, by the same rules.
pub open spec fn spec_bool_field(m: Map<Seq<u8>, JsonData>, k: Seq<u8>) -> Option<Option<bool>> {
    if !m.dom().contains(k) {
        Some(None)
    } else {
        match m[k] {
            JsonData::Null => Some(None),
            JsonData::Bool(b) => Some(Some(b)),
            _ => None,
        }
    }
}

pub open spec fn texts_ok(s: Seq<JsonData>) -> bool {
    forall|i: int| 0 <= i < s.len() ==> (#[trigger] s[i]) is Text
}

pub open spec fn texts_vals(s: Seq<JsonData>) -> Seq<Seq<u8>> {
    Seq::new(
        s.len(),
        |i: int|
            match s[i] {
                JsonData::Text(t) => t,
                _ => Seq::empty(),
            },
    )
}

/// The strings of `d` when it is an array of strings; a parse error
/// otherwise.
pub open spec fn spec_text_list_value(d: JsonData) -> Option<Seq<Seq<u8>>> {
    match d {
        JsonData::List(s) => if texts_ok(s) {
            Some(texts_vals(s))
        } else {
            None
        },
        _ => None,
    }
}

/// An optional array-of-strings member.
pub open spec fn spec_text_list_field(m: Map<Seq<u8>, JsonData>, k: Seq<u8>) -> Option<
    Option<Seq<Seq<u8>>>,
> {
    if !m.dom().contains(k) {
        Some(None)
    } else {
        match m[k] {
            JsonData::Null => Some(None),
            JsonData::List(s) => if texts_ok(s) {
                Some(Some(texts_vals(s)))
            } else {
                None
            },
            _ => None,
        }
    }
}

/// A path-alias table: an object whose every member is an array of
/// strings.
pub open spec fn spec_paths_value(d: JsonData) -> Option<Map<Seq<u8>, Seq<Seq<u8>>>> {
    match d {
        JsonData::Object(pm) => if forall|k: Seq<u8>|
            pm.dom().contains(k) ==> spec_text_list_value(#[trigger] pm[k]) is Some {
            Some(
                Map::new(
                    |k: Seq<u8>| pm.dom().contains(k),
                    |k: Seq<u8>| spec_text_list_value(pm[k]).unwrap(),
                ),
            )
        } else {
            None
        },
        _ => None,
    }
}

/// An optional path-alias member.
pub open spec fn spec_paths_field(m: Map<Seq<u8>, JsonData>, k: Seq<u8>) -> Option<
    Option<Map<Seq<u8>, Seq<Seq<u8>>>>,
> {
    if !m.dom().contains(k) {
        Some(None)
    } else {
        match m[k] {
            JsonData::Null => Some(None),
            _ => match spec_paths_value(m[k]) {
                Some(p) => Some(Some(p)),
                None => None,
            },
        }
    }
}

/// The compiler option bag a JSON value denotes: it must be an object,
/// and every known member must have its declared shape.
pub open spec fn spec_compiler_options_data(d: JsonData) -> Option<CompilerOptionsV> {
    if !(d is Object) {
        None
    } else {
        let m = obj_of(d);
        if spec_text_field(m, spec_w_module()) is Some && spec_bool_field(
            m,
            spec_w_declaration(),
        ) is Some && spec_bool_field(m, spec_w_experimental_decorators()) is Some
            && spec_text_field(m, spec_w_target()) is Some && spec_bool_field(
            m,
            spec_w_source_map(),
        ) is Some && spec_text_field(m, spec_w_base_url()) is Some && spec_paths_field(
            m,
            spec_w_paths(),
        ) is Some && spec_bool_field(m, spec_w_inline_sources()) is Some && spec_bool_field(
            m,
            spec_w_inline_source_map(),
        ) is Some && spec_text_field(m, spec_w_declaration_dir()) is Some && spec_text_field(
            m,
            spec_w_out_dir(),
        ) is Some && spec_bool_field(m, spec_w_remove_comments()) is Some && spec_bool_field(
            m,
            spec_w_resolve_json_module(),
        ) is Some && spec_bool_field(m, spec_w_es_module_interop()) is Some {
            Some(
                CompilerOptionsV {
                    module: spec_text_field(m, spec_w_module()).unwrap(),
                    declaration: spec_bool_field(m, spec_w_declaration()).unwrap(),
                    experimental_decorators: spec_bool_field(
                        m,
                        spec_w_experimental_decorators(),
                    ).unwrap(),
                    target: spec_text_field(m, spec_w_target()).unwrap(),
                    source_map: spec_bool_field(m, spec_w_source_map()).unwrap(),
                    base_url: spec_text_field(m, spec_w_base_url()).unwrap(),
                    paths: spec_paths_field(m, spec_w_paths()).unwrap(),
                    inline_sources: spec_bool_field(m, spec_w_inline_sources()).unwrap(),
                    inline_source_map: spec_bool_field(m, spec_w_inline_source_map()).unwrap(),
                    declaration_dir: spec_text_field(m, spec_w_declaration_dir()).unwrap(),
                    out_dir: spec_text_field(m, spec_w_out_dir()).unwrap(),
                    remove_comments: spec_bool_field(m, spec_w_remove_comments()).unwrap(),
                    resolve_json_module: spec_bool_field(
                        m,
                        spec_w_resolve_json_module(),
                    ).unwrap(),
                    es_module_interop: spec_bool_field(m, spec_w_es_module_interop()).unwrap(),
                },
            )
        } else {
            None
        }
    }
}

/// The whole configuration a JSON document denotes.
pub open spec fn spec_tsconfig_data(d: JsonData) -> Option<TsConfigV> {
    if !(d is Object) {
        None
    } else {
        let m = obj_of(d);
        let co: Option<Option<CompilerOptionsV>> = if !m.dom().contains(
            spec_w_compiler_options(),
        ) {
            Some(None)
        } else if m[spec_w_compiler_options()] is Null {
            Some(None)
        } else {
            match spec_compiler_options_data(m[spec_w_compiler_options()]) {
                Some(c) => Some(Some(c)),
                None => None,
            }
        };
        if spec_text_field(m, spec_w_extends()) is Some && co is Some && spec_text_list_field(
            m,
            spec_w_include(),
        ) is Some && spec_text_list_field(m, spec_w_exclude()) is Some {
            Some(
                TsConfigV {
                    extends: spec_text_field(m, spec_w_extends()).unwrap(),
                    compiler_options: co.unwrap(),
                    includes: spec_text_list_field(m, spec_w_include()).unwrap(),
                    excludes: spec_text_list_field(m, spec_w_exclude()).unwrap(),
                },
            )
        } else {
            None
        }
    }
}

/// What these bytes parse to as a project configuration: `None` when the
/// bytes are not JSON or any field has the wrong shape.
pub open spec fn spec_parse_tsconfig(bytes: Seq<u8>) -> Option<TsConfigV> {
    match json_doc(bytes) {
        Some(d) => spec_tsconfig_data(d),
        None => None,
    }
}

fn get_text_field(v: &serde_json::Value, key: &[u8]) -> (r: Option<Option<Vec<u8>>>)
    requires
        json_data(*v) is Object,
    ensures
        match r {
            None => spec_text_field(obj_of(json_data(*v)), key@) is None,
            Some(o) => spec_text_field(obj_of(json_data(*v)), key@) == Some(view_opt_bytes(o)),
        },
{
    match json_get(v, key) {
        None => Some(None),
        Some(f) => {
            if json_is_null(f) {
                Some(None)
            } else {
                match json_as_text(f) {
                    Some(b) => Some(Some(b)),
                    None => None,
                }
            }
        },
    }
}

fn get_bool_field(v: &serde_json::Value, key: &[u8]) -> (r: Option<Option<bool>>)
    requires
        json_data(*v) is Object,
    ensures
        match r {
            None => spec_bool_field(obj_of(json_data(*v)), key@) is None,
            Some(o) => spec_bool_field(obj_of(json_data(*v)), key@) == Some(o),
        },
{
    match json_get(v, key) {
        None => Some(None),
        Some(f) => {
            if json_is_null(f) {
                Some(None)
            } else {
                match json_as_bool(f) {
                    Some(b) => Some(Some(b)),
                    None => None,
                }
            }
        },
    }
}

pub(crate) fn text_list_value(v: &serde_json::Value) -> (r: Option<Vec<Vec<u8>>>)
    ensures
        match r {
            None => spec_text_list_value(json_data(*v)) is None,
            Some(l) => spec_text_list_value(json_data(*v)) == Some(view_bytes_list(l@)),
        },
{
    match json_as_list(v) {
        None => None,
        Some(a) => {
            let ghost s = list_of(json_data(*v));
            let mut out: Vec<Vec<u8>> = Vec::new();
            let n = a.len();
            let mut i: usize = 0;
            while i < n
                invariant
                    0 <= i <= n,
                    n == a@.len(),
                    n == s.len(),
                    json_data(*v) is List,
                    s == list_of(json_data(*v)),
                    forall|j: int| 0 <= j < s.len() ==> json_data(#[trigger] a@[j]) == s[j],
                    out@.len() == i,
                    forall|j: int| 0 <= j < i ==> (#[trigger] s[j]) is Text,
                    forall|j: int|
                        0 <= j < i ==> JsonData::Text((#[trigger] out@[j])@) == s[j],
                decreases n - i,
            {
                match json_as_text(&a[i]) {
                    Some(b) => {
                        out.push(b);
                    },
                    None => {
                        assert(!(s[i as int] is Text));
                        return None;
                    },
                }
                i += 1;
            }
            assert(texts_ok(s));
            assert(view_bytes_list(out@) =~= texts_vals(s));
            Some(out)
        },
    }
}

fn get_text_list_field(v: &serde_json::Value, key: &[u8]) -> (r: Option<Option<Vec<Vec<u8>>>>)
    requires
        json_data(*v) is Object,
    ensures
        match r {
            None => spec_text_list_field(obj_of(json_data(*v)), key@) is None,
            Some(o) => spec_text_list_field(obj_of(json_data(*v)), key@) == Some(
                view_opt_bytes_list(o),
            ),
        },
{
    match json_get(v, key) {
        None => Some(None),
        Some(f) => {
            if json_is_null(f) {
                Some(None)
            } else {
                match text_list_value(f) {
                    Some(l) => Some(Some(l)),
                    None => None,
                }
            }
        },
    }
}

fn paths_value(v: &serde_json::Value) -> (r: Option<Vec<PathAlias>>)
    ensures
        match r {
            None => spec_paths_value(json_data(*v)) is None,
            Some(al) => spec_paths_value(json_data(*v)) == Some(
                pairs_to_map(view_alias_seq(al@)),
            ),
        },
{
    match json_object_entries(v) {
        None => None,
        Some(es) => {
            let ghost pm = obj_of(json_data(*v));
            let mut out: Vec<PathAlias> = Vec::new();
            let n = es.len();
            let mut i: usize = 0;
            while i < n
                invariant
                    0 <= i <= n,
                    n == es@.len(),
                    json_data(*v) is Object,
                    pm == obj_of(json_data(*v)),
                    forall|j: int|
                        0 <= j < es@.len() ==> pm.dom().contains((#[trigger] es@[j]).0@)
                            && json_data(es@[j].1) == pm[es@[j].0@],
                    forall|j: int, k: int|
                        0 <= j < k < es@.len() ==> (#[trigger] es@[j]).0@ != (
                        #[trigger] es@[k]).0@,
                    forall|k: Seq<u8>|
                        pm.dom().contains(k) ==> exists|j: int|
                            0 <= j < es@.len() && (#[trigger] es@[j]).0@ == k,
                    out@.len() == i,
                    forall|j: int|
                        0 <= j < i ==> (#[trigger] view_alias_seq(out@)[j]).0 == es@[j].0@,
                    forall|j: int|
                        0 <= j < i ==> spec_text_list_value(json_data(es@[j].1)) == Some(
                            (#[trigger] view_alias_seq(out@)[j]).1,
                        ),
                decreases n - i,
            {
                match text_list_value(&es[i].1) {
                    Some(targets) => {
                        let ghost tv = view_bytes_list(targets@);
                        let key = copy_bytes(es[i].0.as_slice());
                        let ghost kv = key@;
                        let ghost prev = out@;
                        out.push(PathAlias { key, targets });
                        proof {
                            assert(out@[i as int]@ == (kv, tv));
                            assert forall|j: int| 0 <= j <= i implies (#[trigger] view_alias_seq(
                                out@,
                            )[j]).0 == es@[j].0@ && spec_text_list_value(json_data(es@[j].1))
                                == Some(view_alias_seq(out@)[j].1) by {
                                assert(view_alias_seq(out@)[j] == out@[j]@);
                                if j < i {
                                    assert(out@[j] == prev[j]);
                                    assert(view_alias_seq(prev)[j] == prev[j]@);
                                    assert((view_alias_seq(prev)[j]).0 == es@[j].0@);
                                    assert(spec_text_list_value(json_data(es@[j].1)) == Some(
                                        view_alias_seq(prev)[j].1,
                                    ));
                                }
                            }
                        }
                    },
                    None => {
                        assert(spec_text_list_value(pm[es@[i as int].0@]) is None);
                        return None;
                    },
                }
                i += 1;
            }
            proof {
                assert forall|k: Seq<u8>| pm.dom().contains(k) implies spec_text_list_value(
                    #[trigger] pm[k],
                ) is Some by {
                    let j = choose|j: int| 0 <= j < es@.len() && (#[trigger] es@[j]).0@ == k;
                    assert(spec_text_list_value(json_data(es@[j].1)) == Some(
                        view_alias_seq(out@)[j].1,
                    ));
                }
                let s = view_alias_seq(out@);
                lemma_pairs_to_map(s);
                assert forall|j: int, k: int| 0 <= j < k < s.len() implies (#[trigger] s[j]).0 != (
                #[trigger] s[k]).0 by {
                    assert(s[j].0 == es@[j].0@ && s[k].0 == es@[k].0@);
                }
                let target = spec_paths_value(json_data(*v)).unwrap();
                assert forall|k: Seq<u8>| #![auto]
                    pairs_to_map(s).dom().contains(k) <==> target.dom().contains(k) by {
                    if target.dom().contains(k) {
                        let j = choose|j: int|
                            0 <= j < es@.len() && (#[trigger] es@[j]).0@ == k;
                        assert(s[j].0 == k);
                    }
                }
                assert forall|k: Seq<u8>| #![auto] pairs_to_map(s).dom().contains(k) implies
                    pairs_to_map(s)[k] == target[k] by {
                    let j = choose|j: int| 0 <= j < s.len() && (#[trigger] s[j]).0 == k;
                    assert forall|j2: int| j < j2 < s.len() implies (#[trigger] s[j2]).0 != s[j].0
                        by {}
                    assert(pairs_to_map(s)[s[j].0] == s[j].1);
                    assert(spec_text_list_value(pm[k]) == Some(s[j].1));
                }
                assert(pairs_to_map(s) =~= target);
            }
            Some(out)
        },
    }
}

fn get_paths_field(v: &serde_json::Value, key: &[u8]) -> (r: Option<Option<Vec<PathAlias>>>)
    requires
        json_data(*v) is Object,
    ensures
        match r {
            None => spec_paths_field(obj_of(json_data(*v)), key@) is None,
            Some(None) => spec_paths_field(obj_of(json_data(*v)), key@) == Some(
                None::<Map<Seq<u8>, Seq<Seq<u8>>>>,
            ),
            Some(Some(al)) => spec_paths_field(obj_of(json_data(*v)), key@) == Some(
                Some(pairs_to_map(view_alias_seq(al@))),
            ),
        },
{
    match json_get(v, key) {
        None => Some(None),
        Some(f) => {
            if json_is_null(f) {
                Some(None)
            } else {
                match paths_value(f) {
                    Some(al) => Some(Some(al)),
                    None => None,
                }
            }
        },
    }
}

/// The compiler option bag held by a JSON value, when it has the
/// declared shape.
pub fn compiler_options_value(v: &serde_json::Value) -> (r: Option<CompilerOptions>)
    ensures
        match r {
            None => spec_compiler_options_data(json_data(*v)) is None,
            Some(c) => spec_compiler_options_data(json_data(*v)) == Some(c@),
        },
{
    if !json_is_object(v) {
        return None;
    }
    let module = match get_text_field(v, w_module().as_slice()) {
        Some(o) => o,
        None => return None,
    };
    let declaration = match get_bool_field(v, w_declaration().as_slice()) {
        Some(o) => o,
        None => return None,
    };
    let experimental_decorators = match get_bool_field(
        v,
        w_experimental_decorators().as_slice(),
    ) {
        Some(o) => o,
        None => return None,
    };
    let target = match get_text_field(v, w_target().as_slice()) {
        Some(o) => o,
        None => return None,
    };
    let source_map = match get_bool_field(v, w_source_map().as_slice()) {
        Some(o) => o,
        None => return None,
    };
    let base_url = match get_text_field(v, w_base_url().as_slice()) {
        Some(o) => o,
        None => return None,
    };
    let paths = match get_paths_field(v, w_paths().as_slice()) {
        Some(o) => o,
        None => return None,
    };
    let inline_sources = match get_bool_field(v, w_inline_sources().as_slice()) {
        Some(o) => o,
        None => return None,
    };
    let inline_source_map = match get_bool_field(v, w_inline_source_map().as_slice()) {
        Some(o) => o,
        None => return None,
    };
    let declaration_dir = match get_text_field(v, w_declaration_dir().as_slice()) {
        Some(o) => o,
        None => return None,
    };
    let out_dir = match get_text_field(v, w_out_dir().as_slice()) {
        Some(o) => o,
        None => return None,
    };
    let remove_comments = match get_bool_field(v, w_remove_comments().as_slice()) {
        Some(o) => o,
        None => return None,
    };
    let resolve_json_module = match get_bool_field(v, w_resolve_json_module().as_slice()) {
        Some(o) => o,
        None => return None,
    };
    let es_module_interop = match get_bool_field(v, w_es_module_interop().as_slice()) {
        Some(o) => o,
        None => return None,
    };
    Some(
        CompilerOptions {
            module,
            declaration,
            experimental_decorators,
            target,
            source_map,
            base_url,
            paths,
            inline_sources,
            inline_source_map,
            declaration_dir,
            out_dir,
            remove_comments,
            resolve_json_module,
            es_module_interop,
        },
    )
}

/// The whole configuration held by a parsed JSON document, when it has
/// the declared shape.
pub fn tsconfig_value(v: &serde_json::Value) -> (r: Option<TsConfigJson>)
    ensures
        match r {
            None => spec_tsconfig_data(json_data(*v)) is None,
            Some(c) => spec_tsconfig_data(json_data(*v)) == Some(c@),
        },
{
    if !json_is_object(v) {
        return None;
    }
    let extends = match get_text_field(v, w_extends().as_slice()) {
        Some(o) => o,
        None => return None,
    };
    let compiler_options: Option<CompilerOptions> = match json_get(
        v,
        w_compiler_options().as_slice(),
    ) {
        None => None,
        Some(f) => {
            if json_is_null(f) {
                None
            } else {
                match compiler_options_value(f) {
                    Some(c) => Some(c),
                    None => return None,
                }
            }
        },
    };
    let includes = match get_text_list_field(v, w_include().as_slice()) {
        Some(o) => o,
        None => return None,
    };
    let excludes = match get_text_list_field(v, w_exclude().as_slice()) {
        Some(o) => o,
        None => return None,
    };
    Some(TsConfigJson { extends, compiler_options, includes, excludes })
}

/// Parses a configuration file's bytes: `None` exactly when the bytes
/// are not valid JSON or some field has the wrong shape.
pub fn parse_tsconfig(bytes: &[u8]) -> (r: Option<TsConfigJson>)
    ensures
        r is Some <==> spec_parse_tsconfig(bytes@) is Some,
        r matches Some(c) ==> spec_parse_tsconfig(bytes@) == Some(c@),
{
    match json_parse(bytes) {
        None => None,
        Some(v) => tsconfig_value(&v),
    }
}

} // verus!
