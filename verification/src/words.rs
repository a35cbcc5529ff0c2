//! The fixed byte strings the tool recognizes: configuration keys,
//! well-known file and directory names, module and target names. Each
//! word has a spec constant and an executable constructor proved to
//! produce it.
use vstd::prelude::*;

verus! {

/// The bytes of `"extends"`.
pub open spec fn spec_w_extends() -> Seq<u8> {
    seq![101u8, 120u8, 116u8, 101u8, 110u8, 100u8, 115u8]
}

pub fn w_extends() -> (r: Vec<u8>)
    ensures
        r@ == spec_w_extends(),
{
    let mut r: Vec<u8> = Vec::new();
    r.push(101);
    r.push(120);
    r.push(116);
    r.push(101);
    r.push(110);
    r.push(100);
    r.push(115);
    assert(r@ =~= spec_w_extends());
    r
}

/// The bytes of `"compilerOptions"`.
pub open spec fn spec_w_compiler_options() -> Seq<u8> {
    seq![99u8, 111u8, 109u8, 112u8, 105u8, 108u8, 101u8, 114u8, 79u8, 112u8, 116u8, 105u8, 111u8, 110u8, 115u8]
}

pub fn w_compiler_options() -> (r: Vec<u8>)
    ensures
        r@ == spec_w_compiler_options(),
{
    let mut r: Vec<u8> = Vec::new();
    r.push(99);
    r.push(111);
    r.push(109);
    r.push(112);
    r.push(105);
    r.push(108);
    r.push(101);
    r.push(114);
    r.push(79);
    r.push(112);
    r.push(116);
    r.push(105);
    r.push(111);
    r.push(110);
    r.push(115);
    assert(r@ =~= spec_w_compiler_options());
    r
}

/// The bytes of `"include"`.
pub open spec fn spec_w_include() -> Seq<u8> {
    seq![105u8, 110u8, 99u8, 108u8, 117u8, 100u8, 101u8]
}

pub fn w_include() -> (r: Vec<u8>)
    ensures
        r@ == spec_w_include(),
{
    let mut r: Vec<u8> = Vec::new();
    r.push(105);
    r.push(110);
    r.push(99);
    r.push(108);
    r.push(117);
    r.push(100);
    r.push(101);
    assert(r@ =~= spec_w_include());
    r
}

/// The bytes of `"exclude"`.
pub open spec fn spec_w_exclude() -> Seq<u8> {
    seq![101u8, 120u8, 99u8, 108u8, 117u8, 100u8, 101u8]
}

pub fn w_exclude() -> (r: Vec<u8>)
    ensures
        r@ == spec_w_exclude(),
{
    let mut r: Vec<u8> = Vec::new();
    r.push(101);
    r.push(120);
    r.push(99);
    r.push(108);
    r.push(117);
    r.push(100);
    r.push(101);
    assert(r@ =~= spec_w_exclude());
    r
}

/// The bytes of `"module"`.
pub open spec fn spec_w_module() -> Seq<u8> {
    seq![109u8, 111u8, 100u8, 117u8, 108u8, 101u8]
}

pub fn w_module() -> (r: Vec<u8>)
    ensures
        r@ == spec_w_module(),
{
    let mut r: Vec<u8> = Vec::new();
    r.push(109);
    r.push(111);
    r.push(100);
    r.push(117);
    r.push(108);
    r.push(101);
    assert(r@ =~= spec_w_module());
    r
}

/// The bytes of `"declaration"`.
pub open spec fn spec_w_declaration() -> Seq<u8> {
    seq![100u8, 101u8, 99u8, 108u8, 97u8, 114u8, 97u8, 116u8, 105u8, 111u8, 110u8]
}

pub fn w_declaration() -> (r: Vec<u8>)
    ensures
        r@ == spec_w_declaration(),
{
    let mut r: Vec<u8> = Vec::new();
    r.push(100);
    r.push(101);
    r.push(99);
    r.push(108);
    r.push(97);
    r.push(114);
    r.push(97);
    r.push(116);
    r.push(105);
    r.push(111);
    r.push(110);
    assert(r@ =~= spec_w_declaration());
    r
}

/// The bytes of `"experimentalDecorators"`.
pub open spec fn spec_w_experimental_decorators() -> Seq<u8> {
    seq![101u8, 120u8, 112u8, 101u8, 114u8, 105u8, 109u8, 101u8, 110u8, 116u8, 97u8, 108u8, 68u8, 101u8, 99u8, 111u8, 114u8, 97u8, 116u8, 111u8, 114u8, 115u8]
}

pub fn w_experimental_decorators() -> (r: Vec<u8>)
    ensures
        r@ == spec_w_experimental_decorators(),
{
    let mut r: Vec<u8> = Vec::new();
    r.push(101);
    r.push(120);
    r.push(112);
    r.push(101);
    r.push(114);
    r.push(105);
    r.push(109);
    r.push(101);
    r.push(110);
    r.push(116);
    r.push(97);
    r.push(108);
    r.push(68);
    r.push(101);
    r.push(99);
    r.push(111);
    r.push(114);
    r.push(97);
    r.push(116);
    r.push(111);
    r.push(114);
    r.push(115);
    assert(r@ =~= spec_w_experimental_decorators());
    r
}

/// The bytes of `"target"`.
pub open spec fn spec_w_target() -> Seq<u8> {
    seq![116u8, 97u8, 114u8, 103u8, 101u8, 116u8]
}

pub fn w_target() -> (r: Vec<u8>)
    ensures
        r@ == spec_w_target(),
{
    let mut r: Vec<u8> = Vec::new();
    r.push(116);
    r.push(97);
    r.push(114);
    r.push(103);
    r.push(101);
    r.push(116);
    assert(r@ =~= spec_w_target());
    r
}

/// The bytes of `"sourceMap"`.
pub open spec fn spec_w_source_map() -> Seq<u8> {
    seq![115u8, 111u8, 117u8, 114u8, 99u8, 101u8, 77u8, 97u8, 112u8]
}

pub fn w_source_map() -> (r: Vec<u8>)
    ensures
        r@ == spec_w_source_map(),
{
    let mut r: Vec<u8> = Vec::new();
    r.push(115);
    r.push(111);
    r.push(117);
    r.push(114);
    r.push(99);
    r.push(101);
    r.push(77);
    r.push(97);
    r.push(112);
    assert(r@ =~= spec_w_source_map());
    r
}

/// The bytes of `"baseUrl"`.
pub open spec fn spec_w_base_url() -> Seq<u8> {
    seq![98u8, 97u8, 115u8, 101u8, 85u8, 114u8, 108u8]
}

pub fn w_base_url() -> (r: Vec<u8>)
    ensures
        r@ == spec_w_base_url(),
{
    let mut r: Vec<u8> = Vec::new();
    r.push(98);
    r.push(97);
    r.push(115);
    r.push(101);
    r.push(85);
    r.push(114);
    r.push(108);
    assert(r@ =~= spec_w_base_url());
    r
}

/// The bytes of `"paths"`.
pub open spec fn spec_w_paths() -> Seq<u8> {
    seq![112u8, 97u8, 116u8, 104u8, 115u8]
}

pub fn w_paths() -> (r: Vec<u8>)
    ensures
        r@ == spec_w_paths(),
{
    let mut r: Vec<u8> = Vec::new();
    r.push(112);
    r.push(97);
    r.push(116);
    r.push(104);
    r.push(115);
    assert(r@ =~= spec_w_paths());
    r
}

/// The bytes of `"inlineSources"`.
pub open spec fn spec_w_inline_sources() -> Seq<u8> {
    seq![105u8, 110u8, 108u8, 105u8, 110u8, 101u8, 83u8, 111u8, 117u8, 114u8, 99u8, 101u8, 115u8]
}

pub fn w_inline_sources() -> (r: Vec<u8>)
    ensures
        r@ == spec_w_inline_sources(),
{
    let mut r: Vec<u8> = Vec::new();
    r.push(105);
    r.push(110);
    r.push(108);
    r.push(105);
    r.push(110);
    r.push(101);
    r.push(83);
    r.push(111);
    r.push(117);
    r.push(114);
    r.push(99);
    r.push(101);
    r.push(115);
    assert(r@ =~= spec_w_inline_sources());
    r
}

/// The bytes of `"inlineSourceMap"`.
pub open spec fn spec_w_inline_source_map() -> Seq<u8> {
    seq![105u8, 110u8, 108u8, 105u8, 110u8, 101u8, 83u8, 111u8, 117u8, 114u8, 99u8, 101u8, 77u8, 97u8, 112u8]
}

pub fn w_inline_source_map() -> (r: Vec<u8>)
    ensures
        r@ == spec_w_inline_source_map(),
{
    let mut r: Vec<u8> = Vec::new();
    r.push(105);
    r.push(110);
    r.push(108);
    r.push(105);
    r.push(110);
    r.push(101);
    r.push(83);
    r.push(111);
    r.push(117);
    r.push(114);
    r.push(99);
    r.push(101);
    r.push(77);
    r.push(97);
    r.push(112);
    assert(r@ =~= spec_w_inline_source_map());
    r
}

/// The bytes of `"declarationDir"`.
pub open spec fn spec_w_declaration_dir() -> Seq<u8> {
    seq![100u8, 101u8, 99u8, 108u8, 97u8, 114u8, 97u8, 116u8, 105u8, 111u8, 110u8, 68u8, 105u8, 114u8]
}

pub fn w_declaration_dir() -> (r: Vec<u8>)
    ensures
        r@ == spec_w_declaration_dir(),
{
    let mut r: Vec<u8> = Vec::new();
    r.push(100);
    r.push(101);
    r.push(99);
    r.push(108);
    r.push(97);
    r.push(114);
    r.push(97);
    r.push(116);
    r.push(105);
    r.push(111);
    r.push(110);
    r.push(68);
    r.push(105);
    r.push(114);
    assert(r@ =~= spec_w_declaration_dir());
    r
}

/// The bytes of `"outDir"`.
pub open spec fn spec_w_out_dir() -> Seq<u8> {
    seq![111u8, 117u8, 116u8, 68u8, 105u8, 114u8]
}

pub fn w_out_dir() -> (r: Vec<u8>)
    ensures
        r@ == spec_w_out_dir(),
{
    let mut r: Vec<u8> = Vec::new();
    r.push(111);
    r.push(117);
    r.push(116);
    r.push(68);
    r.push(105);
    r.push(114);
    assert(r@ =~= spec_w_out_dir());
    r
}

/// The bytes of `"removeComments"`.
pub open spec fn spec_w_remove_comments() -> Seq<u8> {
    seq![114u8, 101u8, 109u8, 111u8, 118u8, 101u8, 67u8, 111u8, 109u8, 109u8, 101u8, 110u8, 116u8, 115u8]
}

pub fn w_remove_comments() -> (r: Vec<u8>)
    ensures
        r@ == spec_w_remove_comments(),
{
    let mut r: Vec<u8> = Vec::new();
    r.push(114);
    r.push(101);
    r.push(109);
    r.push(111);
    r.push(118);
    r.push(101);
    r.push(67);
    r.push(111);
    r.push(109);
    r.push(109);
    r.push(101);
    r.push(110);
    r.push(116);
    r.push(115);
    assert(r@ =~= spec_w_remove_comments());
    r
}

/// The bytes of `"resolveJsonModule"`.
pub open spec fn spec_w_resolve_json_module() -> Seq<u8> {
    seq![114u8, 101u8, 115u8, 111u8, 108u8, 118u8, 101u8, 74u8, 115u8, 111u8, 110u8, 77u8, 111u8, 100u8, 117u8, 108u8, 101u8]
}

pub fn w_resolve_json_module() -> (r: Vec<u8>)
    ensures
        r@ == spec_w_resolve_json_module(),
{
    let mut r: Vec<u8> = Vec::new();
    r.push(114);
    r.push(101);
    r.push(115);
    r.push(111);
    r.push(108);
    r.push(118);
    r.push(101);
    r.push(74);
    r.push(115);
    r.push(111);
    r.push(110);
    r.push(77);
    r.push(111);
    r.push(100);
    r.push(117);
    r.push(108);
    r.push(101);
    assert(r@ =~= spec_w_resolve_json_module());
    r
}

/// The bytes of `"esModuleInterop"`.
pub open spec fn spec_w_es_module_interop() -> Seq<u8> {
    seq![101u8, 115u8, 77u8, 111u8, 100u8, 117u8, 108u8, 101u8, 73u8, 110u8, 116u8, 101u8, 114u8, 111u8, 112u8]
}

pub fn w_es_module_interop() -> (r: Vec<u8>)
    ensures
        r@ == spec_w_es_module_interop(),
{
    let mut r: Vec<u8> = Vec::new();
    r.push(101);
    r.push(115);
    r.push(77);
    r.push(111);
    r.push(100);
    r.push(117);
    r.push(108);
    r.push(101);
    r.push(73);
    r.push(110);
    r.push(116);
    r.push(101);
    r.push(114);
    r.push(111);
    r.push(112);
    assert(r@ =~= spec_w_es_module_interop());
    r
}

/// The bytes of `"name"`.
pub open spec fn spec_w_name() -> Seq<u8> {
    seq![110u8, 97u8, 109u8, 101u8]
}

pub fn w_name() -> (r: Vec<u8>)
    ensures
        r@ == spec_w_name(),
{
    let mut r: Vec<u8> = Vec::new();
    r.push(110);
    r.push(97);
    r.push(109);
    r.push(101);
    assert(r@ =~= spec_w_name());
    r
}

/// The bytes of `"workspaces"`.
pub open spec fn spec_w_workspaces() -> Seq<u8> {
    seq![119u8, 111u8, 114u8, 107u8, 115u8, 112u8, 97u8, 99u8, 101u8, 115u8]
}

pub fn w_workspaces() -> (r: Vec<u8>)
    ensures
        r@ == spec_w_workspaces(),
{
    let mut r: Vec<u8> = Vec::new();
    r.push(119);
    r.push(111);
    r.push(114);
    r.push(107);
    r.push(115);
    r.push(112);
    r.push(97);
    r.push(99);
    r.push(101);
    r.push(115);
    assert(r@ =~= spec_w_workspaces());
    r
}

/// The bytes of `"dependencies"`.
pub open spec fn spec_w_dependencies() -> Seq<u8> {
    seq![100u8, 101u8, 112u8, 101u8, 110u8, 100u8, 101u8, 110u8, 99u8, 105u8, 101u8, 115u8]
}

pub fn w_dependencies() -> (r: Vec<u8>)
    ensures
        r@ == spec_w_dependencies(),
{
    let mut r: Vec<u8> = Vec::new();
    r.push(100);
    r.push(101);
    r.push(112);
    r.push(101);
    r.push(110);
    r.push(100);
    r.push(101);
    r.push(110);
    r.push(99);
    r.push(105);
    r.push(101);
    r.push(115);
    assert(r@ =~= spec_w_dependencies());
    r
}

/// The bytes of `"packages"`.
pub open spec fn spec_w_packages() -> Seq<u8> {
    seq![112u8, 97u8, 99u8, 107u8, 97u8, 103u8, 101u8, 115u8]
}

pub fn w_packages() -> (r: Vec<u8>)
    ensures
        r@ == spec_w_packages(),
{
    let mut r: Vec<u8> = Vec::new();
    r.push(112);
    r.push(97);
    r.push(99);
    r.push(107);
    r.push(97);
    r.push(103);
    r.push(101);
    r.push(115);
    assert(r@ =~= spec_w_packages());
    r
}

/// The bytes of `"nohoist"`.
pub open spec fn spec_w_nohoist() -> Seq<u8> {
    seq![110u8, 111u8, 104u8, 111u8, 105u8, 115u8, 116u8]
}

pub fn w_nohoist() -> (r: Vec<u8>)
    ensures
        r@ == spec_w_nohoist(),
{
    let mut r: Vec<u8> = Vec::new();
    r.push(110);
    r.push(111);
    r.push(104);
    r.push(111);
    r.push(105);
    r.push(115);
    r.push(116);
    assert(r@ =~= spec_w_nohoist());
    r
}

/// The bytes of `"tsconfig.json"`.
pub open spec fn spec_w_tsconfig_json() -> Seq<u8> {
    seq![116u8, 115u8, 99u8, 111u8, 110u8, 102u8, 105u8, 103u8, 46u8, 106u8, 115u8, 111u8, 110u8]
}

pub fn w_tsconfig_json() -> (r: Vec<u8>)
    ensures
        r@ == spec_w_tsconfig_json(),
{
    let mut r: Vec<u8> = Vec::new();
    r.push(116);
    r.push(115);
    r.push(99);
    r.push(111);
    r.push(110);
    r.push(102);
    r.push(105);
    r.push(103);
    r.push(46);
    r.push(106);
    r.push(115);
    r.push(111);
    r.push(110);
    assert(r@ =~= spec_w_tsconfig_json());
    r
}

/// The bytes of `"package.json"`.
pub open spec fn spec_w_package_json() -> Seq<u8> {
    seq![112u8, 97u8, 99u8, 107u8, 97u8, 103u8, 101u8, 46u8, 106u8, 115u8, 111u8, 110u8]
}

pub fn w_package_json() -> (r: Vec<u8>)
    ensures
        r@ == spec_w_package_json(),
{
    let mut r: Vec<u8> = Vec::new();
    r.push(112);
    r.push(97);
    r.push(99);
    r.push(107);
    r.push(97);
    r.push(103);
    r.push(101);
    r.push(46);
    r.push(106);
    r.push(115);
    r.push(111);
    r.push(110);
    assert(r@ =~= spec_w_package_json());
    r
}

/// The bytes of `"node_modules"`.
pub open spec fn spec_w_node_modules() -> Seq<u8> {
    seq![110u8, 111u8, 100u8, 101u8, 95u8, 109u8, 111u8, 100u8, 117u8, 108u8, 101u8, 115u8]
}

pub fn w_node_modules() -> (r: Vec<u8>)
    ensures
        r@ == spec_w_node_modules(),
{
    let mut r: Vec<u8> = Vec::new();
    r.push(110);
    r.push(111);
    r.push(100);
    r.push(101);
    r.push(95);
    r.push(109);
    r.push(111);
    r.push(100);
    r.push(117);
    r.push(108);
    r.push(101);
    r.push(115);
    assert(r@ =~= spec_w_node_modules());
    r
}

/// The bytes of `"dist"`.
pub open spec fn spec_w_dist() -> Seq<u8> {
    seq![100u8, 105u8, 115u8, 116u8]
}

pub fn w_dist() -> (r: Vec<u8>)
    ensures
        r@ == spec_w_dist(),
{
    let mut r: Vec<u8> = Vec::new();
    r.push(100);
    r.push(105);
    r.push(115);
    r.push(116);
    assert(r@ =~= spec_w_dist());
    r
}

/// The bytes of `".turbo/"`.
pub open spec fn spec_w_turbo_dir() -> Seq<u8> {
    seq![46u8, 116u8, 117u8, 114u8, 98u8, 111u8, 47u8]
}

pub fn w_turbo_dir() -> (r: Vec<u8>)
    ensures
        r@ == spec_w_turbo_dir(),
{
    let mut r: Vec<u8> = Vec::new();
    r.push(46);
    r.push(116);
    r.push(117);
    r.push(114);
    r.push(98);
    r.push(111);
    r.push(47);
    assert(r@ =~= spec_w_turbo_dir());
    r
}

/// The bytes of `"js"`.
pub open spec fn spec_w_js() -> Seq<u8> {
    seq![106u8, 115u8]
}

pub fn w_js() -> (r: Vec<u8>)
    ensures
        r@ == spec_w_js(),
{
    let mut r: Vec<u8> = Vec::new();
    r.push(106);
    r.push(115);
    assert(r@ =~= spec_w_js());
    r
}

/// The bytes of `"js.map"`.
pub open spec fn spec_w_js_map() -> Seq<u8> {
    seq![106u8, 115u8, 46u8, 109u8, 97u8, 112u8]
}

pub fn w_js_map() -> (r: Vec<u8>)
    ensures
        r@ == spec_w_js_map(),
{
    let mut r: Vec<u8> = Vec::new();
    r.push(106);
    r.push(115);
    r.push(46);
    r.push(109);
    r.push(97);
    r.push(112);
    assert(r@ =~= spec_w_js_map());
    r
}

/// The bytes of `"json"`.
pub open spec fn spec_w_json() -> Seq<u8> {
    seq![106u8, 115u8, 111u8, 110u8]
}

pub fn w_json() -> (r: Vec<u8>)
    ensures
        r@ == spec_w_json(),
{
    let mut r: Vec<u8> = Vec::new();
    r.push(106);
    r.push(115);
    r.push(111);
    r.push(110);
    assert(r@ =~= spec_w_json());
    r
}

/// The bytes of `"ts"`.
pub open spec fn spec_w_ts() -> Seq<u8> {
    seq![116u8, 115u8]
}

pub fn w_ts() -> (r: Vec<u8>)
    ensures
        r@ == spec_w_ts(),
{
    let mut r: Vec<u8> = Vec::new();
    r.push(116);
    r.push(115);
    assert(r@ =~= spec_w_ts());
    r
}

/// The bytes of `"tsx"`.
pub open spec fn spec_w_tsx() -> Seq<u8> {
    seq![116u8, 115u8, 120u8]
}

pub fn w_tsx() -> (r: Vec<u8>)
    ensures
        r@ == spec_w_tsx(),
{
    let mut r: Vec<u8> = Vec::new();
    r.push(116);
    r.push(115);
    r.push(120);
    assert(r@ =~= spec_w_tsx());
    r
}

/// The bytes of `"amd"`.
pub open spec fn spec_w_amd() -> Seq<u8> {
    seq![97u8, 109u8, 100u8]
}

pub fn w_amd() -> (r: Vec<u8>)
    ensures
        r@ == spec_w_amd(),
{
    let mut r: Vec<u8> = Vec::new();
    r.push(97);
    r.push(109);
    r.push(100);
    assert(r@ =~= spec_w_amd());
    r
}

/// The bytes of `"commonjs"`.
pub open spec fn spec_w_commonjs() -> Seq<u8> {
    seq![99u8, 111u8, 109u8, 109u8, 111u8, 110u8, 106u8, 115u8]
}

pub fn w_commonjs() -> (r: Vec<u8>)
    ensures
        r@ == spec_w_commonjs(),
{
    let mut r: Vec<u8> = Vec::new();
    r.push(99);
    r.push(111);
    r.push(109);
    r.push(109);
    r.push(111);
    r.push(110);
    r.push(106);
    r.push(115);
    assert(r@ =~= spec_w_commonjs());
    r
}

/// The bytes of `"cjs"`.
pub open spec fn spec_w_cjs() -> Seq<u8> {
    seq![99u8, 106u8, 115u8]
}

pub fn w_cjs() -> (r: Vec<u8>)
    ensures
        r@ == spec_w_cjs(),
{
    let mut r: Vec<u8> = Vec::new();
    r.push(99);
    r.push(106);
    r.push(115);
    assert(r@ =~= spec_w_cjs());
    r
}

/// The bytes of `"es6"`.
pub open spec fn spec_w_es6() -> Seq<u8> {
    seq![101u8, 115u8, 54u8]
}

pub fn w_es6() -> (r: Vec<u8>)
    ensures
        r@ == spec_w_es6(),
{
    let mut r: Vec<u8> = Vec::new();
    r.push(101);
    r.push(115);
    r.push(54);
    assert(r@ =~= spec_w_es6());
    r
}

/// The bytes of `"es2015"`.
pub open spec fn spec_w_es2015() -> Seq<u8> {
    seq![101u8, 115u8, 50u8, 48u8, 49u8, 53u8]
}

pub fn w_es2015() -> (r: Vec<u8>)
    ensures
        r@ == spec_w_es2015(),
{
    let mut r: Vec<u8> = Vec::new();
    r.push(101);
    r.push(115);
    r.push(50);
    r.push(48);
    r.push(49);
    r.push(53);
    assert(r@ =~= spec_w_es2015());
    r
}

/// The bytes of `"nodenext"`.
pub open spec fn spec_w_nodenext() -> Seq<u8> {
    seq![110u8, 111u8, 100u8, 101u8, 110u8, 101u8, 120u8, 116u8]
}

pub fn w_nodenext() -> (r: Vec<u8>)
    ensures
        r@ == spec_w_nodenext(),
{
    let mut r: Vec<u8> = Vec::new();
    r.push(110);
    r.push(111);
    r.push(100);
    r.push(101);
    r.push(110);
    r.push(101);
    r.push(120);
    r.push(116);
    assert(r@ =~= spec_w_nodenext());
    r
}

/// The bytes of `"umd"`.
pub open spec fn spec_w_umd() -> Seq<u8> {
    seq![117u8, 109u8, 100u8]
}

pub fn w_umd() -> (r: Vec<u8>)
    ensures
        r@ == spec_w_umd(),
{
    let mut r: Vec<u8> = Vec::new();
    r.push(117);
    r.push(109);
    r.push(100);
    assert(r@ =~= spec_w_umd());
    r
}

/// The bytes of `"system"`.
pub open spec fn spec_w_system() -> Seq<u8> {
    seq![115u8, 121u8, 115u8, 116u8, 101u8, 109u8]
}

pub fn w_system() -> (r: Vec<u8>)
    ensures
        r@ == spec_w_system(),
{
    let mut r: Vec<u8> = Vec::new();
    r.push(115);
    r.push(121);
    r.push(115);
    r.push(116);
    r.push(101);
    r.push(109);
    assert(r@ =~= spec_w_system());
    r
}

/// The bytes of `"es3"`.
pub open spec fn spec_w_es3() -> Seq<u8> {
    seq![101u8, 115u8, 51u8]
}

pub fn w_es3() -> (r: Vec<u8>)
    ensures
        r@ == spec_w_es3(),
{
    let mut r: Vec<u8> = Vec::new();
    r.push(101);
    r.push(115);
    r.push(51);
    assert(r@ =~= spec_w_es3());
    r
}

/// The bytes of `"es5"`.
pub open spec fn spec_w_es5() -> Seq<u8> {
    seq![101u8, 115u8, 53u8]
}

pub fn w_es5() -> (r: Vec<u8>)
    ensures
        r@ == spec_w_es5(),
{
    let mut r: Vec<u8> = Vec::new();
    r.push(101);
    r.push(115);
    r.push(53);
    assert(r@ =~= spec_w_es5());
    r
}

/// The bytes of `"es2016"`.
pub open spec fn spec_w_es2016() -> Seq<u8> {
    seq![101u8, 115u8, 50u8, 48u8, 49u8, 54u8]
}

pub fn w_es2016() -> (r: Vec<u8>)
    ensures
        r@ == spec_w_es2016(),
{
    let mut r: Vec<u8> = Vec::new();
    r.push(101);
    r.push(115);
    r.push(50);
    r.push(48);
    r.push(49);
    r.push(54);
    assert(r@ =~= spec_w_es2016());
    r
}

/// The bytes of `"es2017"`.
pub open spec fn spec_w_es2017() -> Seq<u8> {
    seq![101u8, 115u8, 50u8, 48u8, 49u8, 55u8]
}

pub fn w_es2017() -> (r: Vec<u8>)
    ensures
        r@ == spec_w_es2017(),
{
    let mut r: Vec<u8> = Vec::new();
    r.push(101);
    r.push(115);
    r.push(50);
    r.push(48);
    r.push(49);
    r.push(55);
    assert(r@ =~= spec_w_es2017());
    r
}

/// The bytes of `"es2018"`.
pub open spec fn spec_w_es2018() -> Seq<u8> {
    seq![101u8, 115u8, 50u8, 48u8, 49u8, 56u8]
}

pub fn w_es2018() -> (r: Vec<u8>)
    ensures
        r@ == spec_w_es2018(),
{
    let mut r: Vec<u8> = Vec::new();
    r.push(101);
    r.push(115);
    r.push(50);
    r.push(48);
    r.push(49);
    r.push(56);
    assert(r@ =~= spec_w_es2018());
    r
}

/// The bytes of `"es2019"`.
pub open spec fn spec_w_es2019() -> Seq<u8> {
    seq![101u8, 115u8, 50u8, 48u8, 49u8, 57u8]
}

pub fn w_es2019() -> (r: Vec<u8>)
    ensures
        r@ == spec_w_es2019(),
{
    let mut r: Vec<u8> = Vec::new();
    r.push(101);
    r.push(115);
    r.push(50);
    r.push(48);
    r.push(49);
    r.push(57);
    assert(r@ =~= spec_w_es2019());
    r
}

/// The bytes of `"es2020"`.
pub open spec fn spec_w_es2020() -> Seq<u8> {
    seq![101u8, 115u8, 50u8, 48u8, 50u8, 48u8]
}

pub fn w_es2020() -> (r: Vec<u8>)
    ensures
        r@ == spec_w_es2020(),
{
    let mut r: Vec<u8> = Vec::new();
    r.push(101);
    r.push(115);
    r.push(50);
    r.push(48);
    r.push(50);
    r.push(48);
    assert(r@ =~= spec_w_es2020());
    r
}

/// The bytes of `"es2021"`.
pub open spec fn spec_w_es2021() -> Seq<u8> {
    seq![101u8, 115u8, 50u8, 48u8, 50u8, 49u8]
}

pub fn w_es2021() -> (r: Vec<u8>)
    ensures
        r@ == spec_w_es2021(),
{
    let mut r: Vec<u8> = Vec::new();
    r.push(101);
    r.push(115);
    r.push(50);
    r.push(48);
    r.push(50);
    r.push(49);
    assert(r@ =~= spec_w_es2021());
    r
}

/// The bytes of `"esnext"`.
pub open spec fn spec_w_esnext() -> Seq<u8> {
    seq![101u8, 115u8, 110u8, 101u8, 120u8, 116u8]
}

pub fn w_esnext() -> (r: Vec<u8>)
    ensures
        r@ == spec_w_esnext(),
{
    let mut r: Vec<u8> = Vec::new();
    r.push(101);
    r.push(115);
    r.push(110);
    r.push(101);
    r.push(120);
    r.push(116);
    assert(r@ =~= spec_w_esnext());
    r
}

/// The bytes of `"\n//# sourceMappingURL="`.
pub open spec fn spec_w_source_map_marker() -> Seq<u8> {
    seq![10u8, 47u8, 47u8, 35u8, 32u8, 115u8, 111u8, 117u8, 114u8, 99u8, 101u8, 77u8, 97u8, 112u8, 112u8, 105u8, 110u8, 103u8, 85u8, 82u8, 76u8, 61u8]
}

pub fn w_source_map_marker() -> (r: Vec<u8>)
    ensures
        r@ == spec_w_source_map_marker(),
{
    let mut r: Vec<u8> = Vec::new();
    r.push(10);
    r.push(47);
    r.push(47);
    r.push(35);
    r.push(32);
    r.push(115);
    r.push(111);
    r.push(117);
    r.push(114);
    r.push(99);
    r.push(101);
    r.push(77);
    r.push(97);
    r.push(112);
    r.push(112);
    r.push(105);
    r.push(110);
    r.push(103);
    r.push(85);
    r.push(82);
    r.push(76);
    r.push(61);
    assert(r@ =~= spec_w_source_map_marker());
    r
}

/// The bytes of `"sources"`.
pub open spec fn spec_w_sources() -> Seq<u8> {
    seq![115u8, 111u8, 117u8, 114u8, 99u8, 101u8, 115u8]
}

pub fn w_sources() -> (r: Vec<u8>)
    ensures
        r@ == spec_w_sources(),
{
    let mut r: Vec<u8> = Vec::new();
    r.push(115);
    r.push(111);
    r.push(117);
    r.push(114);
    r.push(99);
    r.push(101);
    r.push(115);
    assert(r@ =~= spec_w_sources());
    r
}

/// The bytes of `"sourceRoot"`.
pub open spec fn spec_w_source_root() -> Seq<u8> {
    seq![115u8, 111u8, 117u8, 114u8, 99u8, 101u8, 82u8, 111u8, 111u8, 116u8]
}

pub fn w_source_root() -> (r: Vec<u8>)
    ensures
        r@ == spec_w_source_root(),
{
    let mut r: Vec<u8> = Vec::new();
    r.push(115);
    r.push(111);
    r.push(117);
    r.push(114);
    r.push(99);
    r.push(101);
    r.push(82);
    r.push(111);
    r.push(111);
    r.push(116);
    assert(r@ =~= spec_w_source_root());
    r
}

} // verus!
