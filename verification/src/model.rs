//! The data model: configuration, rules, resources and packages,
//! together with their mathematical views.

use vstd::prelude::*;

verus! {

/// Top-level configuration values, available to every template as `top`.
pub struct Top {
    pub name: String,
    pub version: String,
    pub source_template: String,
    /// The resolved manifest source URL; absent until the source
    /// template has been rendered, then set exactly once.
    pub source: Option<String>,
}

#[verifier::ext_equal]
pub struct TopV {
    pub name: Seq<char>,
    pub version: Seq<char>,
    pub source_template: Seq<char>,
    pub source: Option<Seq<char>>,
}

impl View for Top {
    type V = TopV;

    open spec fn view(&self) -> TopV {
        TopV {
            name: self.name@,
            version: self.version@,
            source_template: self.source_template@,
            source: self.source.deep_view(),
        }
    }
}

/// Templates for the files of the resources themselves.
pub struct ResourceSpec {
    pub path_template: String,
    pub filename_template: String,
}

/// The default package: its descriptor template, the fallback package
/// name, descriptor filename and path templates, and the resource spec.
pub struct DefaultPackageSpec {
    pub template: String,
    pub default_name: String,
    pub filename_template: String,
    pub path_template: String,
    pub resource_spec: ResourceSpec,
}

/// Three optional case-insensitive predicates on a resource.
/// An unset field imposes no constraint.
pub struct Matcher {
    pub kind: Option<String>,
    pub name: Option<String>,
    pub namespace: Option<String>,
}

/// One ordered classification rule: when `matcher` matches, the resource
/// goes to package `package_name`, or is dropped when that is unset.
pub struct SplitRule {
    pub matcher: Matcher,
    pub package_name: Option<String>,
}

pub struct Config {
    pub top: Top,
    pub default_package_spec: DefaultPackageSpec,
    pub split_rules: Vec<SplitRule>,
}

/// The identity of one manifest document: its ordinal position among all
/// parsed documents, its `kind`, `metadata.name` and optional
/// `metadata.namespace`, and - once rendered - its output file name and path.
pub struct Resource {
    pub index: u32,
    pub name: String,
    pub kind: String,
    pub namespace: Option<String>,
    pub filename: Option<String>,
    pub path: Option<String>,
}

#[verifier::ext_equal]
pub struct ResourceV {
    pub index: u32,
    pub name: Seq<char>,
    pub kind: Seq<char>,
    pub namespace: Option<Seq<char>>,
    pub filename: Option<Seq<char>>,
    pub path: Option<Seq<char>>,
}

impl View for Resource {
    type V = ResourceV;

    open spec fn view(&self) -> ResourceV {
        ResourceV {
            index: self.index,
            name: self.name@,
            kind: self.kind@,
            namespace: self.namespace.deep_view(),
            filename: self.filename.deep_view(),
            path: self.path.deep_view(),
        }
    }
}

impl DeepView for Resource {
    type V = ResourceV;

    open spec fn deep_view(&self) -> ResourceV {
        self.view()
    }
}

/// An equal copy of an optional string.
pub fn clone_opt_string(o: &Option<String>) -> (r: Option<String>)
    ensures
        r.deep_view() == o.deep_view(),
{
    match o {
        Option::Some(s) => Option::Some(s.clone()),
        Option::None => Option::None,
    }
}

/// A named bundle of resources, in the order they were assigned.
pub struct Package {
    pub name: String,
    pub resources: Vec<Resource>,
}

#[verifier::ext_equal]
pub struct PackageV {
    pub name: Seq<char>,
    pub resources: Seq<ResourceV>,
}

impl View for Package {
    type V = PackageV;

    open spec fn view(&self) -> PackageV {
        PackageV { name: self.name@, resources: self.resources.deep_view() }
    }
}

impl DeepView for Package {
    type V = PackageV;

    open spec fn deep_view(&self) -> PackageV {
        self.view()
    }
}

/// What one parsed manifest document exposes to the splitter: the three
/// identity fields, and the document's serialized text (empty for a
/// document without a `kind`, which is only skipped, never written).
pub struct DocMeta {
    pub kind: Option<String>,
    pub name: Option<String>,
    pub namespace: Option<String>,
    pub body: String,
}

#[verifier::ext_equal]
pub struct DocMetaV {
    pub kind: Option<Seq<char>>,
    pub name: Option<Seq<char>>,
    pub namespace: Option<Seq<char>>,
    pub body: Seq<char>,
}

impl View for DocMeta {
    type V = DocMetaV;

    open spec fn view(&self) -> DocMetaV {
        DocMetaV {
            kind: self.kind.deep_view(),
            name: self.name.deep_view(),
            namespace: self.namespace.deep_view(),
            body: self.body@,
        }
    }
}

impl DeepView for DocMeta {
    type V = DocMetaV;

    open spec fn deep_view(&self) -> DocMetaV {
        self.view()
    }
}

/// One file the driver is to write: its directory path, its file name
/// within that directory, and its content.
pub struct PlannedFile {
    pub path: String,
    pub filename: String,
    pub content: String,
}

#[verifier::ext_equal]
pub struct FileV {
    pub path: Seq<char>,
    pub filename: Seq<char>,
    pub content: Seq<char>,
}

impl View for PlannedFile {
    type V = FileV;

    open spec fn view(&self) -> FileV {
        FileV { path: self.path@, filename: self.filename@, content: self.content@ }
    }
}

impl DeepView for PlannedFile {
    type V = FileV;

    open spec fn deep_view(&self) -> FileV {
        self.view()
    }
}

/// Everything the splitter decides: the resource files in document
/// order, the packages in order of first assignment, and one descriptor
/// file per package, in the same order.
pub struct Plan {
    pub resource_files: Vec<PlannedFile>,
    pub packages: Vec<Package>,
    pub package_files: Vec<PlannedFile>,
}

#[verifier::ext_equal]
pub struct PlanV {
    pub resource_files: Seq<FileV>,
    pub packages: Seq<PackageV>,
    pub package_files: Seq<FileV>,
}

impl View for Plan {
    type V = PlanV;

    open spec fn view(&self) -> PlanV {
        PlanV {
            resource_files: self.resource_files.deep_view(),
            packages: self.packages.deep_view(),
            package_files: self.package_files.deep_view(),
        }
    }
}

/// Why the decision pass aborts: a failed render, or a document whose
/// `kind` is present but whose `metadata.name` is not.
#[derive(Debug)]
pub enum SplitError {
    Template(String),
    MissingName(u32),
}

#[verifier::ext_equal]
pub enum SplitErrorV {
    Template(Seq<char>),
    MissingName(u32),
}

impl View for SplitError {
    type V = SplitErrorV;

    open spec fn view(&self) -> SplitErrorV {
        match self {
            SplitError::Template(s) => SplitErrorV::Template(s@),
            SplitError::MissingName(i) => SplitErrorV::MissingName(*i),
        }
    }
}

} // verus!
