//! The project-configuration option bag and the merge used to flatten an
//! `extends` chain: a child's explicit value always wins, an unset option
//! falls through to the nearest ancestor that sets it.
use vstd::prelude::*;
use crate::bytes::copy_bytes;

verus! {

/// One path-alias entry: an alias pattern and the targets it maps to.
pub struct PathAlias {
    pub key: Vec<u8>,
    pub targets: Vec<Vec<u8>>,
}

impl View for PathAlias {
    type V = (Seq<u8>, Seq<Seq<u8>>);

    open spec fn view(&self) -> (Seq<u8>, Seq<Seq<u8>>) {
        (self.key@, view_bytes_list(self.targets@))
    }
}

/// Element-wise view of a list of byte strings.
pub open spec fn view_bytes_list(s: Seq<Vec<u8>>) -> Seq<Seq<u8>> {
    Seq::new(s.len(), |i: int| s[i]@)
}

/// Element-wise view of a list of path aliases.
pub open spec fn view_alias_seq(s: Seq<PathAlias>) -> Seq<(Seq<u8>, Seq<Seq<u8>>)> {
    Seq::new(s.len(), |i: int| s[i]@)
}

/// The mapping a key/value pair list denotes; a later entry for a key
/// shadows an earlier one.
pub open spec fn pairs_to_map<V>(s: Seq<(Seq<u8>, V)>) -> Map<Seq<u8>, V>
    decreases s.len(),
{
    if s.len() == 0 {
        Map::empty()
    } else {
        pairs_to_map(s.drop_last()).insert(s.last().0, s.last().1)
    }
}

/// What `pairs_to_map` holds: exactly the keys of the pairs, each mapped
/// to the value of its last occurrence.
pub proof fn lemma_pairs_to_map<V>(s: Seq<(Seq<u8>, V)>)
    ensures
        forall|k: Seq<u8>|
            pairs_to_map(s).dom().contains(k) <==> exists|i: int|
                0 <= i < s.len() && (#[trigger] s[i]).0 == k,
        forall|i: int|
            0 <= i < s.len() && (forall|j: int| i < j < s.len() ==> (#[trigger] s[j]).0 != s[i].0)
                ==> pairs_to_map(s)[(#[trigger] s[i]).0] == s[i].1,
    decreases s.len(),
{
    if s.len() > 0 {
        lemma_pairs_to_map(s.drop_last());
        assert forall|k: Seq<u8>| #![auto] pairs_to_map(s).dom().contains(k) implies exists|i: int|
            0 <= i < s.len() && (#[trigger] s[i]).0 == k by {
            if k == s.last().0 {
                assert(s[s.len() - 1].0 == k);
            } else {
                assert(pairs_to_map(s.drop_last()).dom().contains(k));
                let i = choose|i: int| 0 <= i < s.drop_last().len() && (#[trigger] s.drop_last()[i]).0 == k;
                assert(s[i].0 == k);
            }
        }
        assert forall|i: int| 0 <= i < s.len() implies pairs_to_map(s).dom().contains(
            (#[trigger] s[i]).0,
        ) by {
            if i < s.len() - 1 {
                assert(s.drop_last()[i] == s[i]);
                assert(pairs_to_map(s.drop_last()).dom().contains(s[i].0));
            }
        }
        assert forall|i: int|
            0 <= i < s.len() && (forall|j: int| i < j < s.len() ==> (#[trigger] s[j]).0 != s[i].0)
                implies pairs_to_map(s)[s[i].0] == s[i].1 by {
            if i == s.len() - 1 {
            } else {
                assert(s.drop_last()[i] == s[i]);
                assert(forall|j: int|
                    i < j < s.drop_last().len() ==> (#[trigger] s.drop_last()[j]).0 != s.drop_last()[i].0);
                assert(s[s.len() - 1].0 != s[i].0);
            }
        }
    }
}

/// Ghost image of `CompilerOptions`.
pub struct CompilerOptionsV {
    pub module: Option<Seq<u8>>,
    pub declaration: Option<bool>,
    pub experimental_decorators: Option<bool>,
    pub target: Option<Seq<u8>>,
    pub source_map: Option<bool>,
    pub base_url: Option<Seq<u8>>,
    pub paths: Option<Map<Seq<u8>, Seq<Seq<u8>>>>,
    pub inline_sources: Option<bool>,
    pub inline_source_map: Option<bool>,
    pub declaration_dir: Option<Seq<u8>>,
    pub out_dir: Option<Seq<u8>>,
    pub remove_comments: Option<bool>,
    pub resolve_json_module: Option<bool>,
    pub es_module_interop: Option<bool>,
}

/// The per-project compiler option bag; every field is independently
/// optional.
pub struct CompilerOptions {
    pub module: Option<Vec<u8>>,
    pub declaration: Option<bool>,
    pub experimental_decorators: Option<bool>,
    pub target: Option<Vec<u8>>,
    pub source_map: Option<bool>,
    pub base_url: Option<Vec<u8>>,
    pub paths: Option<Vec<PathAlias>>,
    pub inline_sources: Option<bool>,
    pub inline_source_map: Option<bool>,
    pub declaration_dir: Option<Vec<u8>>,
    pub out_dir: Option<Vec<u8>>,
    pub remove_comments: Option<bool>,
    pub resolve_json_module: Option<bool>,
    pub es_module_interop: Option<bool>,
}

pub open spec fn view_opt_bytes(o: Option<Vec<u8>>) -> Option<Seq<u8>> {
    match o {
        Some(v) => Some(v@),
        None => None,
    }
}

pub open spec fn view_opt_paths(o: Option<Vec<PathAlias>>) -> Option<Map<Seq<u8>, Seq<Seq<u8>>>> {
    match o {
        Some(v) => Some(pairs_to_map(view_alias_seq(v@))),
        None => None,
    }
}

impl View for CompilerOptions {
    type V = CompilerOptionsV;

    open spec fn view(&self) -> CompilerOptionsV {
        CompilerOptionsV {
            module: view_opt_bytes(self.module),
            declaration: self.declaration,
            experimental_decorators: self.experimental_decorators,
            target: view_opt_bytes(self.target),
            source_map: self.source_map,
            base_url: view_opt_bytes(self.base_url),
            paths: view_opt_paths(self.paths),
            inline_sources: self.inline_sources,
            inline_source_map: self.inline_source_map,
            declaration_dir: view_opt_bytes(self.declaration_dir),
            out_dir: view_opt_bytes(self.out_dir),
            remove_comments: self.remove_comments,
            resolve_json_module: self.resolve_json_module,
            es_module_interop: self.es_module_interop,
        }
    }
}

/// The child's value when it sets one, else the base's.
pub open spec fn spec_or<T>(child: Option<T>, base: Option<T>) -> Option<T> {
    match child {
        Some(v) => Some(v),
        None => base,
    }
}

/// Field-wise merge: every option takes the child's value if present,
/// otherwise the base's.
pub open spec fn spec_merge(base: CompilerOptionsV, child: CompilerOptionsV) -> CompilerOptionsV {
    CompilerOptionsV {
        module: spec_or(child.module, base.module),
        declaration: spec_or(child.declaration, base.declaration),
        experimental_decorators: spec_or(
            child.experimental_decorators,
            base.experimental_decorators,
        ),
        target: spec_or(child.target, base.target),
        source_map: spec_or(child.source_map, base.source_map),
        base_url: spec_or(child.base_url, base.base_url),
        paths: spec_or(child.paths, base.paths),
        inline_sources: spec_or(child.inline_sources, base.inline_sources),
        inline_source_map: spec_or(child.inline_source_map, base.inline_source_map),
        declaration_dir: spec_or(child.declaration_dir, base.declaration_dir),
        out_dir: spec_or(child.out_dir, base.out_dir),
        remove_comments: spec_or(child.remove_comments, base.remove_comments),
        resolve_json_module: spec_or(child.resolve_json_module, base.resolve_json_module),
        es_module_interop: spec_or(child.es_module_interop, base.es_module_interop),
    }
}

pub open spec fn view_opt_options(o: Option<CompilerOptions>) -> Option<CompilerOptionsV> {
    match o {
        Some(v) => Some(v@),
        None => None,
    }
}

/// Merge lifted to absent option bags: a missing side contributes
/// nothing.
pub open spec fn spec_merge_opt(base: Option<CompilerOptionsV>, child: Option<CompilerOptionsV>) -> Option<
    CompilerOptionsV,
> {
    match child {
        None => base,
        Some(c) => match base {
            Some(b) => Some(spec_merge(b, c)),
            None => Some(c),
        },
    }
}

pub fn copy_opt_bytes(o: &Option<Vec<u8>>) -> (r: Option<Vec<u8>>)
    ensures
        view_opt_bytes(r) == view_opt_bytes(*o),
{
    match o {
        Some(v) => Some(copy_bytes(v.as_slice())),
        None => None,
    }
}

pub fn copy_bytes_list(v: &Vec<Vec<u8>>) -> (r: Vec<Vec<u8>>)
    ensures
        view_bytes_list(r@) == view_bytes_list(v@),
{
    let mut r: Vec<Vec<u8>> = Vec::new();
    let n = v.len();
    let mut i: usize = 0;
    while i < n
        invariant
            0 <= i <= n,
            n == v@.len(),
            r@.len() == i,
            forall|j: int| 0 <= j < i ==> r@[j]@ == v@[j]@,
        decreases n - i,
    {
        r.push(copy_bytes(v[i].as_slice()));
        i += 1;
    }
    assert(view_bytes_list(r@) =~= view_bytes_list(v@));
    r
}

fn copy_alias(a: &PathAlias) -> (r: PathAlias)
    ensures
        r@ == a@,
{
    PathAlias { key: copy_bytes(a.key.as_slice()), targets: copy_bytes_list(&a.targets) }
}

fn copy_opt_paths(o: &Option<Vec<PathAlias>>) -> (r: Option<Vec<PathAlias>>)
    ensures
        view_opt_paths(r) == view_opt_paths(*o),
{
    match o {
        Some(v) => {
            let mut r: Vec<PathAlias> = Vec::new();
            let n = v.len();
            let mut i: usize = 0;
            while i < n
                invariant
                    0 <= i <= n,
                    n == v@.len(),
                    r@.len() == i,
                    forall|j: int| 0 <= j < i ==> r@[j]@ == v@[j]@,
                decreases n - i,
            {
                r.push(copy_alias(&v[i]));
                i += 1;
            }
            assert(view_alias_seq(r@) =~= view_alias_seq(v@));
            Some(r)
        },
        None => None,
    }
}

impl CompilerOptions {
    /// A fresh bag with the same contents.
    pub fn duplicate(&self) -> (r: Self)
        ensures
            r@ == self@,
    {
        CompilerOptions {
            module: copy_opt_bytes(&self.module),
            declaration: self.declaration,
            experimental_decorators: self.experimental_decorators,
            target: copy_opt_bytes(&self.target),
            source_map: self.source_map,
            base_url: copy_opt_bytes(&self.base_url),
            paths: copy_opt_paths(&self.paths),
            inline_sources: self.inline_sources,
            inline_source_map: self.inline_source_map,
            declaration_dir: copy_opt_bytes(&self.declaration_dir),
            out_dir: copy_opt_bytes(&self.out_dir),
            remove_comments: self.remove_comments,
            resolve_json_module: self.resolve_json_module,
            es_module_interop: self.es_module_interop,
        }
    }
}

impl Default for CompilerOptions {
    /// The bag with every option unset.
    fn default() -> (r: Self)
        ensures
            r@.module is None,
            r@.declaration is None,
            r@.experimental_decorators is None,
            r@.target is None,
            r@.source_map is None,
            r@.base_url is None,
            r@.paths is None,
            r@.inline_sources is None,
            r@.inline_source_map is None,
            r@.declaration_dir is None,
            r@.out_dir is None,
            r@.remove_comments is None,
            r@.resolve_json_module is None,
            r@.es_module_interop is None,
    {
        CompilerOptions {
            module: None,
            declaration: None,
            experimental_decorators: None,
            target: None,
            source_map: None,
            base_url: None,
            paths: None,
            inline_sources: None,
            inline_source_map: None,
            declaration_dir: None,
            out_dir: None,
            remove_comments: None,
            resolve_json_module: None,
            es_module_interop: None,
        }
    }
}

fn copy_opt_options(o: &Option<CompilerOptions>) -> (r: Option<CompilerOptions>)
    ensures
        view_opt_options(r) == view_opt_options(*o),
{
    match o {
        Some(v) => Some(v.duplicate()),
        None => None,
    }
}

/// Merges two optional option bags: for every field the child's value
/// wins when set, else the base's is kept; a missing bag on either side
/// leaves the other as it is.
pub fn merge_compiler_options(
    base: &Option<CompilerOptions>,
    child: &Option<CompilerOptions>,
) -> (r: Option<CompilerOptions>)
    ensures
        view_opt_options(r) == spec_merge_opt(view_opt_options(*base), view_opt_options(*child)),
{
    match child {
        None => copy_opt_options(base),
        Some(child_options) => match base {
            Some(base_options) => Some(
                CompilerOptions {
                    module: or_bytes(&child_options.module, &base_options.module),
                    declaration: or_bool(child_options.declaration, base_options.declaration),
                    experimental_decorators: or_bool(child_options.experimental_decorators, base_options.experimental_decorators),
                    target: or_bytes(&child_options.target, &base_options.target),
                    source_map: or_bool(child_options.source_map, base_options.source_map),
                    base_url: or_bytes(&child_options.base_url, &base_options.base_url),
                    paths: or_paths(&child_options.paths, &base_options.paths),
                    inline_sources: or_bool(child_options.inline_sources, base_options.inline_sources),
                    inline_source_map: or_bool(child_options.inline_source_map, base_options.inline_source_map),
                    declaration_dir: or_bytes(
                        &child_options.declaration_dir,
                        &base_options.declaration_dir,
                    ),
                    out_dir: or_bytes(&child_options.out_dir, &base_options.out_dir),
                    remove_comments: or_bool(child_options.remove_comments, base_options.remove_comments),
                    resolve_json_module: or_bool(child_options.resolve_json_module, base_options.resolve_json_module),
                    es_module_interop: or_bool(child_options.es_module_interop, base_options.es_module_interop),
                },
            ),
            None => Some(child_options.duplicate()),
        },
    }
}

fn or_bool(child: Option<bool>, base: Option<bool>) -> (r: Option<bool>)
    ensures
        r == spec_or(child, base),
{
    match child {
        Some(v) => Some(v),
        None => base,
    }
}

fn or_bytes(child: &Option<Vec<u8>>, base: &Option<Vec<u8>>) -> (r: Option<Vec<u8>>)
    ensures
        view_opt_bytes(r) == spec_or(view_opt_bytes(*child), view_opt_bytes(*base)),
{
    match child {
        Some(v) => Some(copy_bytes(v.as_slice())),
        None => copy_opt_bytes(base),
    }
}

fn or_paths(child: &Option<Vec<PathAlias>>, base: &Option<Vec<PathAlias>>) -> (r: Option<
    Vec<PathAlias>,
>)
    ensures
        view_opt_paths(r) == spec_or(view_opt_paths(*child), view_opt_paths(*base)),
{
    match child {
        Some(_) => copy_opt_paths(child),
        None => copy_opt_paths(base),
    }
}

/// LAW: across a grandparent → parent → child `extends` chain, every
/// option comes from the nearest level that sets it — the child's value
/// wins over the parent's and the grandparent's, the parent's over the
/// grandparent's; in particular, when each level sets a disjoint subset
/// of the options, the result is exactly their union.
pub proof fn lemma_merge_chain_precedence(
    grandparent: CompilerOptionsV,
    parent: CompilerOptionsV,
    child: CompilerOptionsV,
)
    ensures
        spec_merge(spec_merge(grandparent, parent), child).module == spec_or(
            child.module,
            spec_or(parent.module, grandparent.module),
        ),
        spec_merge(spec_merge(grandparent, parent), child).declaration == spec_or(
            child.declaration,
            spec_or(parent.declaration, grandparent.declaration),
        ),
        spec_merge(spec_merge(grandparent, parent), child).experimental_decorators == spec_or(
            child.experimental_decorators,
            spec_or(parent.experimental_decorators, grandparent.experimental_decorators),
        ),
        spec_merge(spec_merge(grandparent, parent), child).target == spec_or(
            child.target,
            spec_or(parent.target, grandparent.target),
        ),
        spec_merge(spec_merge(grandparent, parent), child).source_map == spec_or(
            child.source_map,
            spec_or(parent.source_map, grandparent.source_map),
        ),
        spec_merge(spec_merge(grandparent, parent), child).base_url == spec_or(
            child.base_url,
            spec_or(parent.base_url, grandparent.base_url),
        ),
        spec_merge(spec_merge(grandparent, parent), child).paths == spec_or(
            child.paths,
            spec_or(parent.paths, grandparent.paths),
        ),
        spec_merge(spec_merge(grandparent, parent), child).inline_sources == spec_or(
            child.inline_sources,
            spec_or(parent.inline_sources, grandparent.inline_sources),
        ),
        spec_merge(spec_merge(grandparent, parent), child).inline_source_map == spec_or(
            child.inline_source_map,
            spec_or(parent.inline_source_map, grandparent.inline_source_map),
        ),
        spec_merge(spec_merge(grandparent, parent), child).declaration_dir == spec_or(
            child.declaration_dir,
            spec_or(parent.declaration_dir, grandparent.declaration_dir),
        ),
        spec_merge(spec_merge(grandparent, parent), child).out_dir == spec_or(
            child.out_dir,
            spec_or(parent.out_dir, grandparent.out_dir),
        ),
        spec_merge(spec_merge(grandparent, parent), child).remove_comments == spec_or(
            child.remove_comments,
            spec_or(parent.remove_comments, grandparent.remove_comments),
        ),
        spec_merge(spec_merge(grandparent, parent), child).resolve_json_module == spec_or(
            child.resolve_json_module,
            spec_or(parent.resolve_json_module, grandparent.resolve_json_module),
        ),
        spec_merge(spec_merge(grandparent, parent), child).es_module_interop == spec_or(
            child.es_module_interop,
            spec_or(parent.es_module_interop, grandparent.es_module_interop),
        ),
{
}

/// Ghost image of `TsConfigJson`.
pub struct TsConfigV {
    pub extends: Option<Seq<u8>>,
    pub compiler_options: Option<CompilerOptionsV>,
    pub includes: Option<Seq<Seq<u8>>>,
    pub excludes: Option<Seq<Seq<u8>>>,
}

/// One project-configuration file: an optional `extends` reference, the
/// option bag, and the includes/excludes pattern lists.
pub struct TsConfigJson {
    pub extends: Option<Vec<u8>>,
    pub compiler_options: Option<CompilerOptions>,
    pub includes: Option<Vec<Vec<u8>>>,
    pub excludes: Option<Vec<Vec<u8>>>,
}

pub open spec fn view_opt_bytes_list(o: Option<Vec<Vec<u8>>>) -> Option<Seq<Seq<u8>>> {
    match o {
        Some(v) => Some(view_bytes_list(v@)),
        None => None,
    }
}

impl View for TsConfigJson {
    type V = TsConfigV;

    open spec fn view(&self) -> TsConfigV {
        TsConfigV {
            extends: view_opt_bytes(self.extends),
            compiler_options: view_opt_options(self.compiler_options),
            includes: view_opt_bytes_list(self.includes),
            excludes: view_opt_bytes_list(self.excludes),
        }
    }
}

/// The configuration with nothing set.
pub open spec fn spec_empty_tsconfig() -> TsConfigV {
    TsConfigV { extends: None, compiler_options: None, includes: None, excludes: None }
}

impl Default for TsConfigJson {
    /// The configuration with nothing set, used when a project has no
    /// configuration file at all.
    fn default() -> (r: Self)
        ensures
            r@ == spec_empty_tsconfig(),
    {
        TsConfigJson { extends: None, compiler_options: None, includes: None, excludes: None }
    }
}

impl TsConfigJson {
    /// A fresh configuration with the same contents.
    pub fn duplicate(&self) -> (r: Self)
        ensures
            r@ == self@,
    {
        TsConfigJson {
            extends: copy_opt_bytes(&self.extends),
            compiler_options: copy_opt_options(&self.compiler_options),
            includes: copy_opt_bytes_list_inner(&self.includes),
            excludes: copy_opt_bytes_list_inner(&self.excludes),
        }
    }
}

fn copy_opt_bytes_list_inner(o: &Option<Vec<Vec<u8>>>) -> (r: Option<Vec<Vec<u8>>>)
    ensures
        view_opt_bytes_list(r) == view_opt_bytes_list(*o),
{
    match o {
        Some(v) => Some(copy_bytes_list(v)),
        None => None,
    }
}

} // verus!
