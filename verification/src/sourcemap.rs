//! Source-map post-processing: the relative source file name embedded
//! into a map, and the rewrite that sets a map's declared source file
//! name and source root before it is written beside the emitted code.
use vstd::prelude::*;
use crate::bytes::{bytes_eq, copy_bytes};
use crate::jsonio::{
    json_as_list, json_clone, json_data, json_doc, json_list_value, json_object_entries,
    json_object_value, json_parse, json_serialized, json_text_value, json_to_bytes,
    lossy_decode, utf8_lossy, view_value_entries, JsonData,
};
use crate::options::{lemma_pairs_to_map, pairs_to_map, view_opt_bytes};
use crate::parse::{list_of, obj_of};
use crate::words::{spec_w_source_root, spec_w_sources, w_source_root, w_sources};

verus! {

/// The relative path from `base` to `path`, as the pathdiff crate
/// computes it; a pure function of the two byte strings.
pub uninterp spec fn path_diff(path: Seq<u8>, base: Seq<u8>) -> Option<Seq<u8>>;

/// Relies on pathdiff::diff_paths: the relative path that reaches
/// `path` from `base`, when one exists, depending on the two paths
/// alone.
#[verifier::external_body]
fn diff_paths(path: &[u8], base: &[u8]) -> (r: Option<Vec<u8>>)
    ensures
        r is Some <==> path_diff(path@, base@) is Some,
        r matches Some(d) ==> path_diff(path@, base@) == Some(d@),
{
    let p = String::from_utf8_lossy(path).into_owned();
    let b = String::from_utf8_lossy(base).into_owned();
    pathdiff::diff_paths(p, b).map(|d| d.to_string_lossy().into_owned().into_bytes())
}

/// The source file name written into a map: the input file relative to
/// the output file's directory. Both paths are expected canonical, as
/// the build hands them in.
pub fn determine_source_file_name(input_path: &[u8], output_dir: &[u8]) -> (r: Option<Vec<u8>>)
    ensures
        r is Some <==> path_diff(input_path@, output_dir@) is Some,
        r matches Some(d) ==> path_diff(input_path@, output_dir@) == Some(d@),
{
    diff_paths(input_path, output_dir)
}

/// What one member of the map becomes: the `sources` member, when it is
/// a non-empty array and a source file name is given, has its first
/// element replaced by that name; every other member is kept.
pub open spec fn spec_member_extended(
    d: JsonData,
    key: Seq<u8>,
    source_file_name: Option<Seq<u8>>,
) -> JsonData {
    match source_file_name {
        Some(name) => if key == spec_w_sources() && d is List && list_of(d).len() > 0 {
            JsonData::List(list_of(d).update(0, JsonData::Text(utf8_lossy(name))))
        } else {
            d
        },
        None => d,
    }
}

/// The members of the extended map: the per-member rewrite above, and —
/// when a source root is given — the `sourceRoot` member set to it.
pub open spec fn spec_extend_members(
    m: Map<Seq<u8>, JsonData>,
    source_file_name: Option<Seq<u8>>,
    source_root: Option<Seq<u8>>,
) -> Map<Seq<u8>, JsonData> {
    let renamed = Map::new(
        |k: Seq<u8>| m.dom().contains(k),
        |k: Seq<u8>| spec_member_extended(m[k], k, source_file_name),
    );
    match source_root {
        Some(root) => renamed.insert(spec_w_source_root(), JsonData::Text(utf8_lossy(root))),
        None => renamed,
    }
}

/// The whole extended document.
pub open spec fn spec_extend_source_map(
    d: JsonData,
    source_file_name: Option<Seq<u8>>,
    source_root: Option<Seq<u8>>,
) -> JsonData {
    JsonData::Object(spec_extend_members(obj_of(d), source_file_name, source_root))
}

fn extended_member(
    value: &serde_json::Value,
    key_is_sources: bool,
    source_file_name: &Option<Vec<u8>>,
    Ghost(key): Ghost<Seq<u8>>,
) -> (r: serde_json::Value)
    requires
        key_is_sources <==> key == spec_w_sources(),
    ensures
        json_data(r) == spec_member_extended(
            json_data(*value),
            key,
            view_opt_bytes(*source_file_name),
        ),
{
    let name = match source_file_name {
        Some(n) => n,
        None => {
            return json_clone(value);
        },
    };
    let ghost nv = name@;
    if !key_is_sources {
        return json_clone(value);
    }
    let olds = match json_as_list(value) {
        Some(a) => a,
        None => {
            return json_clone(value);
        },
    };
    let n = olds.len();
    if n == 0 {
        return json_clone(value);
    }
    let ghost s = list_of(json_data(*value));
    let mut items: Vec<serde_json::Value> = Vec::new();
    items.push(json_text_value(name.as_slice()));
    let mut i: usize = 1;
    while i < n
        invariant
            1 <= i <= n,
            n == olds@.len(),
            n == s.len(),
            json_data(*value) is List,
            s == list_of(json_data(*value)),
            forall|j: int| 0 <= j < s.len() ==> json_data(#[trigger] olds@[j]) == s[j],
            items@.len() == i,
            json_data(items@[0]) == JsonData::Text(utf8_lossy(nv)),
            forall|j: int| 1 <= j < i ==> json_data(#[trigger] items@[j]) == s[j],
        decreases n - i,
    {
        items.push(json_clone(&olds[i]));
        i += 1;
    }
    let r = json_list_value(items);
    proof {
        assert(list_of(json_data(r)) =~= s.update(0, JsonData::Text(utf8_lossy(nv))));
    }
    r
}

/// Rewrites a source map: its declared first source becomes
/// `source_file_name` (when given and the map lists any sources), and
/// its source root becomes `source_root` (when given); everything else
/// is kept. `None` exactly when the bytes are not a JSON object.
pub fn extend_source_map(
    source_map: &[u8],
    source_file_name: &Option<Vec<u8>>,
    source_root: &Option<Vec<u8>>,
) -> (r: Option<Vec<u8>>)
    ensures
        r is Some <==> (json_doc(source_map@) matches Some(d) && d is Object),
        r matches Some(out) ==> (json_doc(source_map@) matches Some(d) && exists|
            v2: serde_json::Value,
        |
            #![auto]
            json_data(v2) == spec_extend_source_map(
                d,
                view_opt_bytes(*source_file_name),
                view_opt_bytes(*source_root),
            ) && out@ == json_serialized(v2)),
{
    let parsed = match json_parse(source_map) {
        Some(v) => v,
        None => {
            return None;
        },
    };
    let entries = match json_object_entries(&parsed) {
        Some(es) => es,
        None => {
            return None;
        },
    };
    let ghost m = obj_of(json_data(parsed));
    let ghost name_view = view_opt_bytes(*source_file_name);
    let sources_key = w_sources();
    let mut out_entries: Vec<(Vec<u8>, serde_json::Value)> = Vec::new();
    let n = entries.len();
    let mut i: usize = 0;
    while i < n
        invariant
            0 <= i <= n,
            n == entries@.len(),
            json_data(parsed) is Object,
            m == obj_of(json_data(parsed)),
            name_view == view_opt_bytes(*source_file_name),
            sources_key@ == spec_w_sources(),
            forall|j: int|
                0 <= j < entries@.len() ==> m.dom().contains((#[trigger] entries@[j]).0@)
                    && json_data(entries@[j].1) == m[entries@[j].0@],
            forall|j: int, k: int|
                0 <= j < k < entries@.len() ==> (#[trigger] entries@[j]).0@ != (
                #[trigger] entries@[k]).0@,
            forall|k: Seq<u8>|
                m.dom().contains(k) ==> exists|j: int|
                    0 <= j < entries@.len() && (#[trigger] entries@[j]).0@ == k,
            forall|j: int|
                0 <= j < entries@.len() ==> utf8_lossy((#[trigger] entries@[j]).0@)
                    == entries@[j].0@,
            out_entries@.len() == i,
            forall|j: int|
                0 <= j < i ==> (#[trigger] view_value_entries(out_entries@)[j]) == (
                entries@[j].0@,
                spec_member_extended(json_data(entries@[j].1), entries@[j].0@, name_view),
            ),
        decreases n - i,
    {
        let key_is_sources = bytes_eq(entries[i].0.as_slice(), sources_key.as_slice());
        let new_value = extended_member(
            &entries[i].1,
            key_is_sources,
            source_file_name,
            Ghost(entries@[i as int].0@),
        );
        let key = copy_bytes(entries[i].0.as_slice());
        let ghost prev = out_entries@;
        out_entries.push((key, new_value));
        proof {
            assert forall|j: int| 0 <= j <= i implies (#[trigger] view_value_entries(
                out_entries@,
            )[j]) == (
                entries@[j].0@,
                spec_member_extended(json_data(entries@[j].1), entries@[j].0@, name_view),
            ) by {
                assert(view_value_entries(out_entries@)[j] == (
                    utf8_lossy(out_entries@[j].0@),
                    json_data(out_entries@[j].1),
                ));
                if j < i {
                    assert(out_entries@[j] == prev[j]);
                    assert(view_value_entries(prev)[j] == (
                        utf8_lossy(prev[j].0@),
                        json_data(prev[j].1),
                    ));
                }
            }
        }
        i += 1;
    }
    let ghost base = view_value_entries(out_entries@);
    let ghost renamed = Map::new(
        |k: Seq<u8>| m.dom().contains(k),
        |k: Seq<u8>| spec_member_extended(m[k], k, name_view),
    );
    proof {
        let es = entries@;
        lemma_pairs_to_map(base);
        assert forall|j: int, k: int| 0 <= j < k < base.len() implies (#[trigger] base[j]).0 != (
        #[trigger] base[k]).0 by {
            assert(base[j].0 == es[j].0@ && base[k].0 == es[k].0@);
        }
        assert forall|kk: Seq<u8>| #![auto]
            pairs_to_map(base).dom().contains(kk) <==> renamed.dom().contains(kk) by {
            if renamed.dom().contains(kk) {
                let j = choose|j: int| 0 <= j < es.len() && (#[trigger] es[j]).0@ == kk;
                assert(base[j].0 == kk);
            }
            if pairs_to_map(base).dom().contains(kk) {
                let j = choose|j: int| 0 <= j < base.len() && (#[trigger] base[j]).0 == kk;
                assert(m.dom().contains(es[j].0@));
            }
        }
        assert forall|kk: Seq<u8>| #![auto] pairs_to_map(base).dom().contains(kk) implies
            pairs_to_map(base)[kk] == renamed[kk] by {
            let j = choose|j: int| 0 <= j < base.len() && (#[trigger] base[j]).0 == kk;
            assert(forall|j2: int| j < j2 < base.len() ==> (#[trigger] base[j2]).0 != base[j].0);
            assert(pairs_to_map(base)[base[j].0] == base[j].1);
            assert(json_data(es[j].1) == m[kk]);
        }
        assert(pairs_to_map(base) =~= renamed);
    }
    if let Some(root) = source_root {
        let root_key = lossy_decode(w_source_root().as_slice());
        let root_value = json_text_value(root.as_slice());
        proof {
            let w = spec_w_source_root();
            assert(w[0] < 128 && w[1] < 128 && w[2] < 128 && w[3] < 128 && w[4] < 128 && w[5]
                < 128 && w[6] < 128 && w[7] < 128 && w[8] < 128 && w[9] < 128);
            assert(forall|j: int| 0 <= j < w.len() ==> w[j] < 128);
            assert(root_key@ == w);
            assert(utf8_lossy(w) == w);
        }
        let ghost prev = out_entries@;
        out_entries.push((root_key, root_value));
        proof {
            let built = view_value_entries(out_entries@);
            assert(built.len() == prev.len() + 1);
            assert forall|j: int| 0 <= j < prev.len() implies #[trigger] built[j] == base[j] by {
                assert(out_entries@[j] == prev[j]);
                assert(built[j] == (utf8_lossy(prev[j].0@), json_data(prev[j].1)));
                assert(base[j] == (utf8_lossy(prev[j].0@), json_data(prev[j].1)));
            }
            assert(built.drop_last() =~= base);
            assert(built.last() == (
                spec_w_source_root(),
                JsonData::Text(utf8_lossy(root@)),
            ));
            assert(pairs_to_map(built) == pairs_to_map(base).insert(
                spec_w_source_root(),
                JsonData::Text(utf8_lossy(root@)),
            ));
            assert(pairs_to_map(built) == spec_extend_members(
                m,
                name_view,
                view_opt_bytes(*source_root),
            ));
        }
    } else {
        proof {
            assert(pairs_to_map(view_value_entries(out_entries@)) == spec_extend_members(
                m,
                name_view,
                view_opt_bytes(*source_root),
            ));
        }
    }
    let rebuilt = json_object_value(out_entries);
    let out_bytes = json_to_bytes(&rebuilt);
    proof {
        assert(json_data(rebuilt) == spec_extend_source_map(
            json_data(parsed),
            name_view,
            view_opt_bytes(*source_root),
        ));
        assert(out_bytes@ == json_serialized(rebuilt));
    }
    Some(out_bytes)
}

} // verus!
