//! The matcher: case-insensitive equality predicates on a resource.

use vstd::prelude::*;
use crate::model::{Matcher, Resource, ResourceV};

verus! {

/// The lowercase form of a string, as `str::to_lowercase` computes it.
pub uninterp spec fn lower_of(s: Seq<char>) -> Seq<char>;

/// Relies on `str::to_lowercase`: the lowercase form of a string is a
/// function of its characters alone.
#[verifier::external_body]
pub(crate) fn lowercase(s: &str) -> (r: String)
    ensures
        r@ == lower_of(s@),
{
    s.to_lowercase()
}

/// Does the rule's `kind` predicate hold of the resource?
pub open spec fn kind_matches(m: Matcher, r: ResourceV) -> bool {
    match m.kind {
        Option::Some(k) => lower_of(k@) == lower_of(r.kind),
        Option::None => true,
    }
}

/// Does the rule's `name` predicate hold of the resource?
pub open spec fn name_matches(m: Matcher, r: ResourceV) -> bool {
    match m.name {
        Option::Some(n) => lower_of(n@) == lower_of(r.name),
        Option::None => true,
    }
}

/// Does the rule's `namespace` predicate hold of the resource?
/// The namespace may be absent on the resource itself: absent-vs-absent
/// counts as equal, absent-vs-present as unequal.
pub open spec fn namespace_matches(m: Matcher, r: ResourceV) -> bool {
    match m.namespace {
        Option::Some(mns) => match r.namespace {
            Option::Some(rns) => lower_of(mns@) == lower_of(rns),
            Option::None => false,
        },
        Option::None => true,
    }
}

/// The matcher matches when every predicate that is set holds.
pub open spec fn rule_matches(m: Matcher, r: ResourceV) -> bool {
    kind_matches(m, r) && name_matches(m, r) && namespace_matches(m, r)
}

impl Matcher {
    /// Evaluate the matcher on a resource: all set predicates must hold,
    /// each compared case-insensitively.
    pub fn do_match(&self, resource: &Resource) -> (b: bool)
        ensures
            b == rule_matches(*self, resource@),
    {
        if let Option::Some(k) = &self.kind {
            if lowercase(k.as_str()) != lowercase(resource.kind.as_str()) {
                return false;
            }
        }
        if let Option::Some(n) = &self.name {
            if lowercase(n.as_str()) != lowercase(resource.name.as_str()) {
                return false;
            }
        }
        if let Option::Some(mns) = &self.namespace {
            match &resource.namespace {
                Option::Some(rns) => {
                    if lowercase(mns.as_str()) != lowercase(rns.as_str()) {
                        return false;
                    }
                },
                Option::None => {
                    return false;
                },
            }
        }
        true
    }
}

/// A matcher that sets no namespace constraint is indifferent to the
/// resource's namespace: it matches the resource with any namespace,
/// present or absent, exactly when it matches it with none.
pub proof fn lemma_namespace_unset_symmetry(m: Matcher, r1: ResourceV, r2: ResourceV)
    requires
        m.namespace is None,
        r1.kind == r2.kind,
        r1.name == r2.name,
    ensures
        rule_matches(m, r1) == rule_matches(m, r2),
{
}

/// A matcher that does set a namespace never matches a resource that
/// lacks one, whatever the other fields hold.
pub proof fn lemma_namespace_set_needs_namespace(m: Matcher, r: ResourceV)
    requires
        m.namespace is Some,
        r.namespace is None,
    ensures
        !rule_matches(m, r),
{
}

/// Matching looks only at the lowercase forms of the fields: a rule kind
/// that lowercases equal to the resource kind matches, whatever the
/// original casing of either side was.
pub proof fn lemma_match_case_insensitive(m: Matcher, r: ResourceV)
    requires
        m.kind is Some,
        lower_of(m.kind->Some_0@) == lower_of(r.kind),
        m.name is None,
        m.namespace is None,
    ensures
        rule_matches(m, r),
{
}

/// Matching is insensitive to the casing of the resource: two resources
/// whose fields agree up to case - same lowercase kind and name, and
/// namespaces either both absent or both present with one lowercase
/// form - are matched alike by every rule.
pub proof fn lemma_match_depends_on_lowercase(m: Matcher, r1: ResourceV, r2: ResourceV)
    requires
        lower_of(r1.kind) == lower_of(r2.kind),
        lower_of(r1.name) == lower_of(r2.name),
        r1.namespace is Some <==> r2.namespace is Some,
        r1.namespace is Some ==> lower_of(r1.namespace->Some_0) == lower_of(r2.namespace->Some_0),
    ensures
        rule_matches(m, r1) == rule_matches(m, r2),
{
}

} // verus!
