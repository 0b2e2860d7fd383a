//! Rendering templates against the JSON-encoded contexts.
//!
//! Every call builds a fresh template environment, registers the
//! zero-pad helper under the name `pad3`, and renders a single raw
//! template against a context parsed from the canonical JSON text.

use std::collections::HashMap;
use tera::{Error as TplError, Tera, Value};
use vstd::prelude::*;
use crate::ctx::{
    ctx_package_json, ctx_package_name_json, ctx_resource_json, ctx_top_json, package_ctx,
    package_name_ctx, resource_ctx, top_ctx,
};
use crate::digits::pad3;
use crate::model::{Config, Package, Resource};

verus! {

/// The outcome of rendering a template against a context: the rendered
/// text, or the message of the template error. It is a function of the
/// template source and the JSON context text alone.
pub uninterp spec fn rendered(template: Seq<char>, ctx_json: Seq<char>) -> Result<
    Seq<char>,
    Seq<char>,
>;

/// Relies on tera: `Tera::render` on a fresh environment holding the one
/// raw template, against `Context::from_value` of the `serde_json` parse
/// of the context text. The zero-pad helper stands registered as the
/// filter `pad3`: a value with a `u64` representation is replaced by the
/// verified `pad3` of it, and any other value fails the render with
/// "expect number". The environment-reading built-in `get_env` is
/// replaced by one that always fails, so the outcome - rendered text or
/// error message - depends on the two arguments alone.
#[verifier::external_body]
pub(crate) fn tera_render(template: &str, ctx_json: &str) -> (r: Result<String, String>)
    ensures
        match r {
            Result::Ok(s) => rendered(template@, ctx_json@) == Result::<Seq<char>, Seq<char>>::Ok(
                s@,
            ),
            Result::Err(e) => rendered(template@, ctx_json@) == Result::<
                Seq<char>,
                Seq<char>,
            >::Err(e@),
        },
{
    let v: Value = serde_json::from_str(ctx_json).map_err(|e| e.to_string())?;
    let c = tera::Context::from_value(v).map_err(|e| e.to_string())?;
    let mut t = Tera::default();
    t.register_function("get_env", |_a: &HashMap<String, Value>| {
        Err(TplError::msg("get_env is not available"))
    });
    t.register_filter("pad3", |v: &Value, _a: &HashMap<String, Value>| {
        v.as_u64().map(|n| Value::String(pad3(n))).ok_or(TplError::msg("expect number"))
    });
    t.add_raw_template("t", template).map_err(|e| e.to_string())?;
    t.render("t", &c).map_err(|e| e.to_string())
}

impl Config {
    /// Renders the manifest source URL from `top.sourceTemplate`, in the
    /// context holding `top` alone.
    pub fn render_source(&self) -> (r: Result<String, String>)
        ensures
            match r {
                Result::Ok(s) => rendered(self.top.source_template@, ctx_top_json(self.top@))
                    == Result::<Seq<char>, Seq<char>>::Ok(s@),
                Result::Err(e) => rendered(self.top.source_template@, ctx_top_json(self.top@))
                    == Result::<Seq<char>, Seq<char>>::Err(e@),
            },
    {
        let ctx = top_ctx(&self.top);
        tera_render(self.top.source_template.as_str(), ctx.as_str())
    }

    /// Renders a resource's file name from the resource spec's filename
    /// template, in the context holding `top`, `packageName` and
    /// `resource`.
    pub fn render_resource_filename(&self, package_name: &String, resource: &Resource) -> (r: Result<
        String,
        String,
    >)
        ensures
            match r {
                Result::Ok(s) => rendered(
                    self.default_package_spec.resource_spec.filename_template@,
                    ctx_resource_json(self.top@, package_name@, resource@),
                ) == Result::<Seq<char>, Seq<char>>::Ok(s@),
                Result::Err(e) => rendered(
                    self.default_package_spec.resource_spec.filename_template@,
                    ctx_resource_json(self.top@, package_name@, resource@),
                ) == Result::<Seq<char>, Seq<char>>::Err(e@),
            },
    {
        let ctx = resource_ctx(&self.top, package_name, resource);
        tera_render(self.default_package_spec.resource_spec.filename_template.as_str(), ctx.as_str())
    }

    /// Renders a resource's directory path from the resource spec's path
    /// template, in the context holding `top`, `packageName` and
    /// `resource`.
    pub fn render_resource_path(&self, package_name: &String, resource: &Resource) -> (r: Result<
        String,
        String,
    >)
        ensures
            match r {
                Result::Ok(s) => rendered(
                    self.default_package_spec.resource_spec.path_template@,
                    ctx_resource_json(self.top@, package_name@, resource@),
                ) == Result::<Seq<char>, Seq<char>>::Ok(s@),
                Result::Err(e) => rendered(
                    self.default_package_spec.resource_spec.path_template@,
                    ctx_resource_json(self.top@, package_name@, resource@),
                ) == Result::<Seq<char>, Seq<char>>::Err(e@),
            },
    {
        let ctx = resource_ctx(&self.top, package_name, resource);
        tera_render(self.default_package_spec.resource_spec.path_template.as_str(), ctx.as_str())
    }

    /// Renders a package descriptor's file name, in the context holding
    /// `top` and `packageName`.
    pub fn render_package_filename(&self, package_name: &String) -> (r: Result<String, String>)
        ensures
            match r {
                Result::Ok(s) => rendered(
                    self.default_package_spec.filename_template@,
                    ctx_package_name_json(self.top@, package_name@),
                ) == Result::<Seq<char>, Seq<char>>::Ok(s@),
                Result::Err(e) => rendered(
                    self.default_package_spec.filename_template@,
                    ctx_package_name_json(self.top@, package_name@),
                ) == Result::<Seq<char>, Seq<char>>::Err(e@),
            },
    {
        let ctx = package_name_ctx(&self.top, package_name);
        tera_render(self.default_package_spec.filename_template.as_str(), ctx.as_str())
    }

    /// Renders a package descriptor's directory path, in the context
    /// holding `top` and `packageName`.
    pub fn render_package_path(&self, package_name: &String) -> (r: Result<String, String>)
        ensures
            match r {
                Result::Ok(s) => rendered(
                    self.default_package_spec.path_template@,
                    ctx_package_name_json(self.top@, package_name@),
                ) == Result::<Seq<char>, Seq<char>>::Ok(s@),
                Result::Err(e) => rendered(
                    self.default_package_spec.path_template@,
                    ctx_package_name_json(self.top@, package_name@),
                ) == Result::<Seq<char>, Seq<char>>::Err(e@),
            },
    {
        let ctx = package_name_ctx(&self.top, package_name);
        tera_render(self.default_package_spec.path_template.as_str(), ctx.as_str())
    }

    /// Renders a package's descriptor body, in the context holding `top`
    /// and the full `package` with its resource list.
    pub fn render_package_descriptor(&self, package: &Package) -> (r: Result<String, String>)
        ensures
            match r {
                Result::Ok(s) => rendered(
                    self.default_package_spec.template@,
                    ctx_package_json(self.top@, package@),
                ) == Result::<Seq<char>, Seq<char>>::Ok(s@),
                Result::Err(e) => rendered(
                    self.default_package_spec.template@,
                    ctx_package_json(self.top@, package@),
                ) == Result::<Seq<char>, Seq<char>>::Err(e@),
            },
    {
        let ctx = package_ctx(&self.top, package);
        tera_render(self.default_package_spec.template.as_str(), ctx.as_str())
    }
}

} // verus!
