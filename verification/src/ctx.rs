//! Template contexts, encoded as canonical JSON text.
//!
//! Each render call site has its own context shape; the spec functions
//! here state the exact text handed to the template engine.

use vstd::prelude::*;
use vstd::string::StringExecFns;
use crate::digits::{dec_rep, dec_string};
use crate::jsonenc::{json_opt_str_of, json_str_of, push_json_opt_str, push_json_str};
use crate::model::{Package, PackageV, Resource, ResourceV, Top, TopV};

verus! {

/// The `top` context value: the top-level configuration as a JSON object.
pub open spec fn top_json(t: TopV) -> Seq<char> {
    "{\"name\":"@ + json_str_of(t.name) + ",\"version\":"@ + json_str_of(t.version)
        + ",\"sourceTemplate\":"@ + json_str_of(t.source_template) + ",\"source\":"@
        + json_opt_str_of(t.source) + "}"@
}

/// The `resource` context value as a JSON object.
pub open spec fn resource_json(r: ResourceV) -> Seq<char> {
    "{\"index\":"@ + dec_rep(r.index as nat) + ",\"name\":"@ + json_str_of(r.name)
        + ",\"kind\":"@ + json_str_of(r.kind) + ",\"namespace\":"@ + json_opt_str_of(r.namespace)
        + ",\"filename\":"@ + json_opt_str_of(r.filename) + ",\"path\":"@ + json_opt_str_of(
        r.path,
    ) + "}"@
}

/// A JSON array body listing resources in order, comma-separated.
pub open spec fn resources_json(rs: Seq<ResourceV>) -> Seq<char>
    decreases rs.len(),
{
    if rs.len() == 0 {
        Seq::empty()
    } else if rs.len() == 1 {
        resource_json(rs[0])
    } else {
        resource_json(rs[0]) + ","@ + resources_json(rs.drop_first())
    }
}

/// The `package` context value: its name and its resources, in order.
pub open spec fn package_json(p: PackageV) -> Seq<char> {
    "{\"name\":"@ + json_str_of(p.name) + ",\"resources\":["@ + resources_json(p.resources)
        + "]}"@
}

/// The context of the source-URL template: `top` alone.
pub open spec fn ctx_top_json(t: TopV) -> Seq<char> {
    "{\"top\":"@ + top_json(t) + "}"@
}

/// The context of the package filename and path templates:
/// `packageName` and `top`.
pub open spec fn ctx_package_name_json(t: TopV, name: Seq<char>) -> Seq<char> {
    "{\"packageName\":"@ + json_str_of(name) + ",\"top\":"@ + top_json(t) + "}"@
}

/// The context of the resource filename and path templates:
/// `packageName`, `resource` and `top`.
pub open spec fn ctx_resource_json(t: TopV, name: Seq<char>, r: ResourceV) -> Seq<char> {
    "{\"packageName\":"@ + json_str_of(name) + ",\"resource\":"@ + resource_json(r) + ",\"top\":"@
        + top_json(t) + "}"@
}

/// The context of the package descriptor template: `package` and `top`.
pub open spec fn ctx_package_json(t: TopV, p: PackageV) -> Seq<char> {
    "{\"package\":"@ + package_json(p) + ",\"top\":"@ + top_json(t) + "}"@
}

fn push_top_json(out: &mut String, t: &Top)
    ensures
        final(out)@ =~= old(out)@ + top_json(t@),
{
    out.append("{\"name\":");
    push_json_str(out, t.name.as_str());
    out.append(",\"version\":");
    push_json_str(out, t.version.as_str());
    out.append(",\"sourceTemplate\":");
    push_json_str(out, t.source_template.as_str());
    out.append(",\"source\":");
    push_json_opt_str(out, &t.source);
    out.append("}");
}

fn push_resource_json(out: &mut String, r: &Resource)
    ensures
        final(out)@ =~= old(out)@ + resource_json(r@),
{
    out.append("{\"index\":");
    let d = dec_string(r.index as u64);
    out.append(d.as_str());
    out.append(",\"name\":");
    push_json_str(out, r.name.as_str());
    out.append(",\"kind\":");
    push_json_str(out, r.kind.as_str());
    out.append(",\"namespace\":");
    push_json_opt_str(out, &r.namespace);
    out.append(",\"filename\":");
    push_json_opt_str(out, &r.filename);
    out.append(",\"path\":");
    push_json_opt_str(out, &r.path);
    out.append("}");
}

proof fn lemma_resources_push(rs: Seq<ResourceV>, r: ResourceV)
    ensures
        rs.len() == 0 ==> resources_json(rs.push(r)) =~= resource_json(r),
        rs.len() > 0 ==> resources_json(rs.push(r)) =~= resources_json(rs) + ","@
            + resource_json(r),
    decreases rs.len(),
{
    if rs.len() == 0 {
        assert(rs.push(r)[0] == r);
    } else {
        assert(rs.push(r).drop_first() =~= rs.drop_first().push(r));
        lemma_resources_push(rs.drop_first(), r);
        assert(rs.push(r)[0] == rs[0]);
    }
}

fn push_resources_json(out: &mut String, rs: &Vec<Resource>)
    ensures
        final(out)@ =~= old(out)@ + resources_json(rs.deep_view()),
{
    let ghost rsv = rs.deep_view();
    let mut i: usize = 0;
    while i < rs.len()
        invariant
            rsv == rs.deep_view(),
            rsv.len() == rs@.len(),
            i <= rsv.len(),
            out@ =~= old(out)@ + resources_json(rsv.take(i as int)),
        decreases rsv.len() - i,
    {
        proof {
            assert(rsv[i as int] == rs@[i as int].deep_view());
            assert(rsv.take(i + 1) =~= rsv.take(i as int).push(rsv[i as int]));
            lemma_resources_push(rsv.take(i as int), rsv[i as int]);
        }
        if i > 0 {
            out.append(",");
        }
        push_resource_json(out, &rs[i]);
        i = i + 1;
    }
    proof {
        assert(rsv.take(rsv.len() as int) =~= rsv);
    }
}

fn push_package_json(out: &mut String, p: &Package)
    ensures
        final(out)@ =~= old(out)@ + package_json(p@),
{
    out.append("{\"name\":");
    push_json_str(out, p.name.as_str());
    out.append(",\"resources\":[");
    push_resources_json(out, &p.resources);
    out.append("]}");
}

/// The source-URL context, as one JSON text.
pub fn top_ctx(t: &Top) -> (s: String)
    ensures
        s@ =~= ctx_top_json(t@),
{
    let mut out = String::new();
    out.append("{\"top\":");
    push_top_json(&mut out, t);
    out.append("}");
    out
}

/// The package filename/path context, as one JSON text.
pub fn package_name_ctx(t: &Top, name: &String) -> (s: String)
    ensures
        s@ =~= ctx_package_name_json(t@, name@),
{
    let mut out = String::new();
    out.append("{\"packageName\":");
    push_json_str(&mut out, name.as_str());
    out.append(",\"top\":");
    push_top_json(&mut out, t);
    out.append("}");
    out
}

/// The resource filename/path context, as one JSON text.
pub fn resource_ctx(t: &Top, name: &String, r: &Resource) -> (s: String)
    ensures
        s@ =~= ctx_resource_json(t@, name@, r@),
{
    let mut out = String::new();
    out.append("{\"packageName\":");
    push_json_str(&mut out, name.as_str());
    out.append(",\"resource\":");
    push_resource_json(&mut out, r);
    out.append(",\"top\":");
    push_top_json(&mut out, t);
    out.append("}");
    out
}

/// The package descriptor context, as one JSON text.
pub fn package_ctx(t: &Top, p: &Package) -> (s: String)
    ensures
        s@ =~= ctx_package_json(t@, p@),
{
    let mut out = String::new();
    out.append("{\"package\":");
    push_package_json(&mut out, p);
    out.append(",\"top\":");
    push_top_json(&mut out, t);
    out.append("}");
    out
}

} // verus!
