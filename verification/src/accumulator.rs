//! The package accumulator: the mapping from package name to the
//! ordered resources assigned to it, created lazily on first assignment.

use vstd::prelude::*;
use crate::model::{Package, PackageV, Resource, ResourceV};

verus! {

/// The position of the first package with the given name, or the length
/// of the sequence when there is none.
pub open spec fn pkg_index_of(ps: Seq<PackageV>, name: Seq<char>) -> int
    decreases ps.len(),
{
    if ps.len() == 0 {
        0
    } else if ps[0].name == name {
        0
    } else {
        1 + pkg_index_of(ps.drop_first(), name)
    }
}

/// `pkg_index_of` finds the first package of that name: every earlier
/// package bears another name, and the found one - when within bounds -
/// bears the name itself.
pub proof fn lemma_pkg_index_of(ps: Seq<PackageV>, name: Seq<char>)
    ensures
        0 <= pkg_index_of(ps, name) <= ps.len(),
        pkg_index_of(ps, name) < ps.len() ==> ps[pkg_index_of(ps, name)].name == name,
        forall|j: int| 0 <= j < pkg_index_of(ps, name) ==> ps[j].name != name,
    decreases ps.len(),
{
    if ps.len() > 0 && ps[0].name != name {
        lemma_pkg_index_of(ps.drop_first(), name);
        assert forall|j: int| 0 <= j < pkg_index_of(ps, name) implies ps[j].name != name by {
            if j > 0 {
                assert(ps.drop_first()[j - 1] == ps[j]);
            }
        }
    }
}

/// Assigning a resource to a package name: the resource is appended to
/// the first package of that name, or a new package holding just this
/// resource is appended when no package bears the name yet - a package
/// is never created empty.
pub open spec fn assign_resource(ps: Seq<PackageV>, name: Seq<char>, r: ResourceV) -> Seq<
    PackageV,
> {
    let i = pkg_index_of(ps, name);
    if i == ps.len() {
        ps.push(PackageV { name, resources: seq![r] })
    } else {
        ps.update(i, PackageV { name, resources: ps[i].resources.push(r) })
    }
}

/// Accumulates packages in order of first assignment, each holding its
/// resources in order of assignment.
pub struct PackageAccumulator {
    packages: Vec<Package>,
}

impl View for PackageAccumulator {
    type V = Seq<PackageV>;

    closed spec fn view(&self) -> Seq<PackageV> {
        self.packages.deep_view()
    }
}

impl PackageAccumulator {
    /// An accumulator holding no packages.
    pub fn new() -> (a: PackageAccumulator)
        ensures
            a@ =~= Seq::<PackageV>::empty(),
    {
        PackageAccumulator { packages: Vec::new() }
    }

    /// Looks up or lazily creates the package entry for `package_name`
    /// and appends the resource to its resource list.
    pub fn assign(&mut self, resource: Resource, package_name: &String)
        ensures
            final(self)@ =~= assign_resource(old(self)@, package_name@, resource@),
    {
        let ghost psv = self@;
        let ghost namev = package_name@;
        let ghost rv = resource@;
        let mut j: usize = 0;
        while j < self.packages.len()
            invariant
                self.packages@ == old(self).packages@,
                psv == self@,
                namev == package_name@,
                rv == resource@,
                psv.len() == self.packages@.len(),
                j <= psv.len(),
                forall|k: int| 0 <= k < j ==> psv[k].name != namev,
            decreases psv.len() - j,
        {
            proof {
                assert(psv[j as int] == self.packages@[j as int].deep_view());
                assert(psv[j as int].name == self.packages@[j as int].name@);
            }
            let entry_ref = &self.packages[j];
            proof {
                assert(*entry_ref == self.packages@[j as int]);
            }
            let same = entry_ref.name == *package_name;
            if same {
                proof {
                    assert(self.packages@[j as int].name@ == namev);
                    assert(psv[j as int].name == namev);
                    lemma_pkg_first_index(psv, namev, j as int);
                }
                let ghost before = self.packages@;
                self.packages[j].resources.push(resource);
                proof {
                    assert(self.packages@ == before.update(
                        j as int,
                        self.packages@[j as int],
                    ));
                    assert(self.packages@[j as int].name == before[j as int].name);
                    assert(self.packages@[j as int].resources@ == before[j as int].resources@.push(
                        resource,
                    ));
                    assert forall|k: int| 0 <= k < psv.len() && k != j implies self@[k]
                        == assign_resource(psv, namev, rv)[k] by {
                        assert(self.packages@[k] == before[k]);
                    }
                    assert(self@[j as int].resources =~= psv[j as int].resources.push(rv));
                    assert(self@[j as int] =~~= assign_resource(psv, namev, rv)[j as int]);
                    assert(self@ =~~= assign_resource(psv, namev, rv));
                }
                return ;
            }
            j = j + 1;
        }
        proof {
            lemma_pkg_index_of(psv, namev);
            assert(pkg_index_of(psv, namev) == psv.len());
        }
        let entry = Package { name: package_name.clone(), resources: vec![resource] };
        let ghost before = self.packages@;
        self.packages.push(entry);
        proof {
            assert(self.packages@.len() == psv.len() + 1);
            assert forall|k: int| 0 <= k < psv.len() implies self@[k] == psv[k] by {
                assert(self.packages@[k] == before[k]);
            }
            assert(self@[psv.len() as int].resources =~= seq![rv]);
            assert(self@[psv.len() as int] =~~= PackageV { name: namev, resources: seq![rv] });
            assert(self@ =~~= assign_resource(psv, namev, rv));
        }
    }

    /// Hands out the accumulated packages, in order of first assignment.
    pub fn snapshot(self) -> (v: Vec<Package>)
        ensures
            v.deep_view() == self@,
    {
        self.packages
    }
}

/// When the packages before `j` bear other names and package `j` bears
/// the name, `j` is the first index for that name.
pub proof fn lemma_pkg_first_index(ps: Seq<PackageV>, name: Seq<char>, j: int)
    requires
        0 <= j < ps.len(),
        ps[j].name == name,
        forall|k: int| 0 <= k < j ==> ps[k].name != name,
    ensures
        pkg_index_of(ps, name) == j,
    decreases j,
{
    if j > 0 {
        assert(ps[0].name != name);
        assert(ps.drop_first()[j - 1] == ps[j]);
        assert forall|k: int| 0 <= k < j - 1 implies ps.drop_first()[k].name != name by {
            assert(ps.drop_first()[k] == ps[k + 1]);
        }
        lemma_pkg_first_index(ps.drop_first(), name, j - 1);
    }
}

} // verus!
