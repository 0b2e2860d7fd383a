//! The classifier: ordered rules, first match wins, default as fallback.

use vstd::prelude::*;
use crate::matcher::rule_matches;
use crate::model::{Config, Resource, ResourceV, SplitRule};

verus! {

/// Walks the rules in order. The first rule whose matcher matches
/// decides: its package name when set, or `None` - the resource is
/// dropped - when unset. When no rule matches, the default name is
/// returned.
pub open spec fn classify_rules(
    rules: Seq<SplitRule>,
    default_name: Seq<char>,
    r: ResourceV,
) -> Option<Seq<char>>
    decreases rules.len(),
{
    if rules.len() == 0 {
        Option::Some(default_name)
    } else if rule_matches(rules[0].matcher, r) {
        match rules[0].package_name {
            Option::Some(n) => Option::Some(n@),
            Option::None => Option::None,
        }
    } else {
        classify_rules(rules.drop_first(), default_name, r)
    }
}

impl Config {
    /// Classifies one resource: the package name of the first split rule
    /// whose matcher matches (`None` when that rule drops the resource),
    /// or the default package name when no rule matches.
    pub fn classify(&self, resource: &Resource) -> (r: Option<String>)
        ensures
            r.deep_view() == classify_rules(
                self.split_rules@,
                self.default_package_spec.default_name@,
                resource@,
            ),
    {
        let ghost rules = self.split_rules@;
        let ghost dname = self.default_package_spec.default_name@;
        let mut i: usize = 0;
        proof {
            assert(rules.skip(0) =~= rules);
        }
        while i < self.split_rules.len()
            invariant
                i <= rules.len(),
                rules == self.split_rules@,
                dname == self.default_package_spec.default_name@,
                classify_rules(rules, dname, resource@) == classify_rules(
                    rules.skip(i as int),
                    dname,
                    resource@,
                ),
            decreases rules.len() - i,
        {
            proof {
                assert(rules.skip(i as int)[0] == rules[i as int]);
                assert(rules.skip(i as int).drop_first() =~= rules.skip(i + 1));
            }
            if self.split_rules[i].matcher.do_match(resource) {
                return match &self.split_rules[i].package_name {
                    Option::Some(n) => Option::Some(n.clone()),
                    Option::None => Option::None,
                };
            }
            i = i + 1;
        }
        proof {
            assert(rules.skip(rules.len() as int) =~= Seq::<SplitRule>::empty());
        }
        Option::Some(self.default_package_spec.default_name.clone())
    }
}

/// First match wins: when rule `i` matches and no earlier rule does, the
/// classification is rule `i`'s package name - dropping the resource when
/// that is unset, whatever later rules would have said.
pub proof fn lemma_classify_first_match(
    rules: Seq<SplitRule>,
    default_name: Seq<char>,
    r: ResourceV,
    i: int,
)
    requires
        0 <= i < rules.len(),
        rule_matches(rules[i].matcher, r),
        forall|j: int| 0 <= j < i ==> !rule_matches(rules[j].matcher, r),
    ensures
        classify_rules(rules, default_name, r) == (match rules[i].package_name {
            Option::Some(n) => Option::Some(n@),
            Option::None => Option::<Seq<char>>::None,
        }),
    decreases i,
{
    if i > 0 {
        assert(!rule_matches(rules[0].matcher, r));
        assert(rules.drop_first()[i - 1] == rules[i]);
        assert forall|j: int| 0 <= j < i - 1 implies !rule_matches(
            rules.drop_first()[j].matcher,
            r,
        ) by {
            assert(rules.drop_first()[j] == rules[j + 1]);
        }
        lemma_classify_first_match(rules.drop_first(), default_name, r, i - 1);
    }
}

/// When no rule matches, the classification is the default package name.
pub proof fn lemma_classify_default(rules: Seq<SplitRule>, default_name: Seq<char>, r: ResourceV)
    requires
        forall|j: int| 0 <= j < rules.len() ==> !rule_matches(rules[j].matcher, r),
    ensures
        classify_rules(rules, default_name, r) == Option::Some(default_name),
    decreases rules.len(),
{
    if rules.len() > 0 {
        assert(!rule_matches(rules[0].matcher, r));
        assert forall|j: int| 0 <= j < rules.drop_first().len() implies !rule_matches(
            rules.drop_first()[j].matcher,
            r,
        ) by {
            assert(rules.drop_first()[j] == rules[j + 1]);
        }
        lemma_classify_default(rules.drop_first(), default_name, r);
    }
}

} // verus!
