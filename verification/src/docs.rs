//! Reading manifest documents: parsing, merge-key resolution, field
//! extraction and serialization, through the YAML collaborators.
//!
//! Each collaborator's result is a function of its arguments alone, so
//! each bears a name, and `extract_metas` is pinned to the fold of those
//! names over the parsed documents: one meta per document, in order.

use vstd::prelude::*;
use crate::model::{DocMeta, DocMetaV, Resource, ResourceV};

verus! {

#[verifier::external_type_specification]
#[verifier::external_body]
pub struct ExYaml(yaml_rust::Yaml);

/// What parsing a text yields: the ordered sequence of YAML documents it
/// holds, or the scanner's error message.
pub uninterp spec fn yaml_docs_of(s: Seq<char>) -> Result<Seq<yaml_rust::Yaml>, Seq<char>>;

/// What resolving the merge-key construct in a document yields: the
/// merged document, or the error message.
pub uninterp spec fn merged_of(d: yaml_rust::Yaml) -> Result<yaml_rust::Yaml, Seq<char>>;

/// What reading a document's identity yields: its `kind`,
/// `metadata.name` and `metadata.namespace`, each absent when the key is
/// missing or not a string.
pub uninterp spec fn fields_of(d: yaml_rust::Yaml) -> (
    Option<Seq<char>>,
    Option<Seq<char>>,
    Option<Seq<char>>,
);

/// What serializing a document yields: its canonical text, or the
/// emitter's error message.
pub uninterp spec fn emitted_of(d: yaml_rust::Yaml) -> Result<Seq<char>, Seq<char>>;

/// Relies on `yaml_rust::YamlLoader::load_from_str`: parses the text
/// into the ordered sequence of YAML documents it holds, or reports a
/// scan error; the outcome depends on the text alone.
#[verifier::external_body]
fn load_yaml_docs(s: &str) -> (r: Result<Vec<yaml_rust::Yaml>, String>)
    ensures
        match r {
            Result::Ok(v) => yaml_docs_of(s@) == Result::<Seq<yaml_rust::Yaml>, Seq<char>>::Ok(v@),
            Result::Err(e) => yaml_docs_of(s@) == Result::<Seq<yaml_rust::Yaml>, Seq<char>>::Err(
                e@,
            ),
        },
{
    yaml_rust::YamlLoader::load_from_str(s).map_err(|e| e.to_string())
}

/// Relies on `yaml_merge_keys::merge_keys`: resolves the YAML merge-key
/// construct in the document, or reports why it could not; the outcome
/// depends on the document alone.
#[verifier::external_body]
fn merge_doc(doc: &yaml_rust::Yaml) -> (r: Result<yaml_rust::Yaml, String>)
    ensures
        match r {
            Result::Ok(m) => merged_of(*doc) == Result::<yaml_rust::Yaml, Seq<char>>::Ok(m),
            Result::Err(e) => merged_of(*doc) == Result::<yaml_rust::Yaml, Seq<char>>::Err(e@),
        },
{
    yaml_merge_keys::merge_keys(doc.clone()).map_err(|e| e.to_string())
}

/// Relies on `yaml_rust::Yaml` indexing and `as_str`: reads `kind`,
/// `metadata.name` and `metadata.namespace` as strings, each absent when
/// the key is missing or not a string; pure reads of the document.
#[verifier::external_body]
fn doc_fields(doc: &yaml_rust::Yaml) -> (r: (Option<String>, Option<String>, Option<String>))
    ensures
        fields_of(*doc) == (r.0.deep_view(), r.1.deep_view(), r.2.deep_view()),
{
    let kind = doc["kind"].as_str().map(|s| s.to_string());
    let name = doc["metadata"]["name"].as_str().map(|s| s.to_string());
    let namespace = doc["metadata"]["namespace"].as_str().map(|s| s.to_string());
    (kind, name, namespace)
}

/// Relies on `yaml_rust::YamlEmitter::dump`: writes the canonical text
/// of the document, or reports the emitter's error; the outcome depends
/// on the document alone.
#[verifier::external_body]
fn emit_doc(doc: &yaml_rust::Yaml) -> (r: Result<String, String>)
    ensures
        match r {
            Result::Ok(b) => emitted_of(*doc) == Result::<Seq<char>, Seq<char>>::Ok(b@),
            Result::Err(e) => emitted_of(*doc) == Result::<Seq<char>, Seq<char>>::Err(e@),
        },
{
    let mut out = String::new();
    let mut emitter = yaml_rust::YamlEmitter::new(&mut out);
    match emitter.dump(doc) {
        Ok(()) => Ok(out),
        Err(e) => Err(e.to_string()),
    }
}

/// What one document contributes: merge keys resolved, the identity
/// fields read, and - when the document has a `kind` - its serialized
/// text; an empty body otherwise. An error at any stage aborts.
pub open spec fn meta_of_doc(d: yaml_rust::Yaml) -> Result<DocMetaV, Seq<char>> {
    match merged_of(d) {
        Result::Err(e) => Result::Err(e),
        Result::Ok(m) => {
            let (kind, name, namespace) = fields_of(m);
            if kind is Some {
                match emitted_of(m) {
                    Result::Err(e) => Result::Err(e),
                    Result::Ok(body) => Result::Ok(DocMetaV { kind, name, namespace, body }),
                }
            } else {
                Result::Ok(DocMetaV { kind, name, namespace, body: Seq::empty() })
            }
        },
    }
}

/// The metas of the first `n` documents, one per document, in order.
pub open spec fn metas_of_docs(docs: Seq<yaml_rust::Yaml>, n: int) -> Result<
    Seq<DocMetaV>,
    Seq<char>,
>
    decreases n,
{
    if n <= 0 {
        Result::Ok(Seq::empty())
    } else {
        match metas_of_docs(docs, n - 1) {
            Result::Err(e) => Result::Err(e),
            Result::Ok(ms) => match meta_of_doc(docs[n - 1]) {
                Result::Err(e) => Result::Err(e),
                Result::Ok(m) => Result::Ok(ms.push(m)),
            },
        }
    }
}

/// What extracting from a manifest text yields: the parse outcome of the
/// text, then one meta per parsed document, in document order.
pub open spec fn extract_metas_spec(text: Seq<char>) -> Result<Seq<DocMetaV>, Seq<char>> {
    match yaml_docs_of(text) {
        Result::Err(e) => Result::Err(e),
        Result::Ok(docs) => metas_of_docs(docs, docs.len() as int),
    }
}

/// Once a prefix of the documents has failed, the whole extraction fails
/// the same way.
pub proof fn lemma_metas_of_docs_err(docs: Seq<yaml_rust::Yaml>, i: int, n: int)
    requires
        0 <= i <= n,
        metas_of_docs(docs, i) is Err,
    ensures
        metas_of_docs(docs, n) == metas_of_docs(docs, i),
    decreases n,
{
    if n > i {
        lemma_metas_of_docs_err(docs, i, n - 1);
    }
}

/// A successful extraction yields exactly one meta per document.
pub proof fn lemma_metas_of_docs_len(docs: Seq<yaml_rust::Yaml>, n: int)
    requires
        0 <= n,
        metas_of_docs(docs, n) is Ok,
    ensures
        metas_of_docs(docs, n)->Ok_0.len() == n,
    decreases n,
{
    if n > 0 {
        lemma_metas_of_docs_len(docs, n - 1);
    }
}

/// The resource identity a document yields: none when `kind` is absent,
/// otherwise the given fields under the given index, with no file name
/// and no path yet.
pub open spec fn from_manifest_spec(
    kind: Option<Seq<char>>,
    name: Option<Seq<char>>,
    namespace: Option<Seq<char>>,
    idx: u32,
) -> Option<ResourceV> {
    match kind {
        Option::Some(k) => Option::Some(
            ResourceV {
                index: idx,
                name: name->Some_0,
                kind: k,
                namespace,
                filename: Option::None,
                path: Option::None,
            },
        ),
        Option::None => Option::None,
    }
}

impl Resource {
    /// Builds the resource identity of one manifest document: `None`
    /// when the document has no `kind` - such a document is skipped but
    /// still consumes an index value.
    pub fn from_manifest(
        kind: Option<String>,
        name: Option<String>,
        namespace: Option<String>,
        idx: u32,
    ) -> (r: Option<Resource>)
        requires
            kind is Some ==> name is Some,
        ensures
            r.deep_view() == from_manifest_spec(
                kind.deep_view(),
                name.deep_view(),
                namespace.deep_view(),
                idx,
            ),
    {
        match kind {
            Option::Some(k) => Option::Some(
                Resource {
                    index: idx,
                    name: name.unwrap(),
                    kind: k,
                    namespace,
                    filename: Option::None,
                    path: Option::None,
                },
            ),
            Option::None => Option::None,
        }
    }
}

/// Parses a multi-document manifest text and reduces each document to
/// what the splitter reads: merge keys resolved, the identity fields
/// extracted, and - for a document with a `kind` - its serialized text.
/// The documents' order, and with it each document's index, is kept:
/// exactly one meta per parsed document, as `extract_metas_spec` states,
/// and `Err` exactly when parsing, merging or serializing errs.
pub fn extract_metas(text: &str) -> (r: Result<Vec<DocMeta>, String>)
    ensures
        match r {
            Result::Ok(ms) => extract_metas_spec(text@) == Result::<Seq<DocMetaV>, Seq<char>>::Ok(
                ms.deep_view(),
            ),
            Result::Err(e) => extract_metas_spec(text@) == Result::<Seq<DocMetaV>, Seq<char>>::Err(
                e@,
            ),
        },
{
    let docs = match load_yaml_docs(text) {
        Result::Ok(d) => d,
        Result::Err(e) => {
            return Result::Err(e);
        },
    };
    let ghost docsv = docs@;
    let mut metas: Vec<DocMeta> = Vec::new();
    let mut i: usize = 0;
    proof {
        assert(metas.deep_view() =~= Seq::<DocMetaV>::empty());
    }
    while i < docs.len()
        invariant
            docsv == docs@,
            yaml_docs_of(text@) == Result::<Seq<yaml_rust::Yaml>, Seq<char>>::Ok(docsv),
            i <= docsv.len(),
            metas_of_docs(docsv, i as int) == Result::<Seq<DocMetaV>, Seq<char>>::Ok(
                metas.deep_view(),
            ),
        decreases docsv.len() - i,
    {
        let ghost before = metas.deep_view();
        let merged = match merge_doc(&docs[i]) {
            Result::Ok(m) => m,
            Result::Err(e) => {
                proof {
                    lemma_metas_of_docs_err(docsv, i + 1, docsv.len() as int);
                }
                return Result::Err(e);
            },
        };
        let (kind, name, namespace) = doc_fields(&merged);
        let body = if kind.is_some() {
            match emit_doc(&merged) {
                Result::Ok(b) => b,
                Result::Err(e) => {
                    proof {
                        lemma_metas_of_docs_err(docsv, i + 1, docsv.len() as int);
                    }
                    return Result::Err(e);
                },
            }
        } else {
            String::new()
        };
        metas.push(DocMeta { kind, name, namespace, body });
        proof {
            assert(metas.deep_view() =~= before.push(metas@[metas@.len() - 1]@));
            assert(metas_of_docs(docsv, i + 1) == Result::<Seq<DocMetaV>, Seq<char>>::Ok(
                metas.deep_view(),
            ));
        }
        i = i + 1;
    }
    Result::Ok(metas)
}

} // verus!
