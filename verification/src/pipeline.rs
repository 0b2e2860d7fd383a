//! The decision pass of the driver: per document in order, build the
//! resource, classify it, render its file name and path, and assign it
//! to its package; then render one descriptor file per package.

use vstd::prelude::*;
use crate::accumulator::{assign_resource, PackageAccumulator};
use crate::classify::classify_rules;
use crate::ctx::{ctx_package_json, ctx_package_name_json, ctx_resource_json};
use crate::model::{
    Config, DocMeta, DocMetaV, FileV, Package, PackageV, Plan, PlanV, PlannedFile, Resource,
    ResourceV, SplitError, SplitErrorV,
};
use crate::render::rendered;

verus! {

/// The state after some prefix of the documents has been processed.
#[verifier::ext_equal]
pub struct SplitState {
    pub resource_files: Seq<FileV>,
    pub packages: Seq<PackageV>,
}

pub open spec fn initial_state() -> SplitState {
    SplitState { resource_files: Seq::empty(), packages: Seq::empty() }
}

/// What one document under index `idx` does to the state: a document
/// without `kind` is skipped; one without `metadata.name` aborts the
/// run; a dropped one leaves no trace; an assigned one contributes one
/// resource file and stands, with its rendered file name and path, in
/// its package.
pub open spec fn step_doc(cfg: Config, st: SplitState, m: DocMetaV, idx: u32) -> Result<
    SplitState,
    SplitErrorV,
> {
    match m.kind {
        Option::None => Result::Ok(st),
        Option::Some(kind) => {
            if m.name is None {
                Result::Err(SplitErrorV::MissingName(idx))
            } else {
                let r0 = ResourceV {
                    index: idx,
                    name: m.name->Some_0,
                    kind: kind,
                    namespace: m.namespace,
                    filename: Option::None,
                    path: Option::None,
                };
                match classify_rules(
                    cfg.split_rules@,
                    cfg.default_package_spec.default_name@,
                    r0,
                ) {
                    Option::None => Result::Ok(st),
                    Option::Some(pname) => step_assigned(cfg, st, m, r0, pname),
                }
            }
        },
    }
}

/// The assigned case of `step_doc`: the resource's file name and path
/// are rendered (first the name, then the path, as the driver does),
/// and the completed resource joins its package.
pub open spec fn step_assigned(
    cfg: Config,
    st: SplitState,
    m: DocMetaV,
    r0: ResourceV,
    pname: Seq<char>,
) -> Result<SplitState, SplitErrorV> {
    match rendered(
        cfg.default_package_spec.resource_spec.filename_template@,
        ctx_resource_json(cfg.top@, pname, r0),
    ) {
        Result::Err(e) => Result::Err(SplitErrorV::Template(e)),
        Result::Ok(filename) => match rendered(
            cfg.default_package_spec.resource_spec.path_template@,
            ctx_resource_json(cfg.top@, pname, r0),
        ) {
            Result::Err(e) => Result::Err(SplitErrorV::Template(e)),
            Result::Ok(path) => {
                let r1 = ResourceV {
                    index: r0.index,
                    name: r0.name,
                    kind: r0.kind,
                    namespace: r0.namespace,
                    filename: Option::Some(filename),
                    path: Option::Some(path),
                };
                Result::Ok(
                    SplitState {
                        resource_files: st.resource_files.push(
                            FileV { path, filename, content: m.body },
                        ),
                        packages: assign_resource(st.packages, pname, r1),
                    },
                )
            },
        },
    }
}

/// The state after the first `n` documents, processed in order from the
/// initial state; an error aborts the fold.
pub open spec fn run_docs(cfg: Config, metas: Seq<DocMetaV>, n: int) -> Result<
    SplitState,
    SplitErrorV,
>
    decreases n,
{
    if n <= 0 {
        Result::Ok(initial_state())
    } else {
        match run_docs(cfg, metas, n - 1) {
            Result::Err(e) => Result::Err(e),
            Result::Ok(st) => step_doc(cfg, st, metas[n - 1], (n - 1) as u32),
        }
    }
}

/// One package's descriptor file: its path, its file name and its body,
/// rendered in that order, as the driver does.
pub open spec fn package_file_of(cfg: Config, p: PackageV) -> Result<FileV, SplitErrorV> {
    match rendered(
        cfg.default_package_spec.path_template@,
        ctx_package_name_json(cfg.top@, p.name),
    ) {
        Result::Err(e) => Result::Err(SplitErrorV::Template(e)),
        Result::Ok(path) => match rendered(
            cfg.default_package_spec.filename_template@,
            ctx_package_name_json(cfg.top@, p.name),
        ) {
            Result::Err(e) => Result::Err(SplitErrorV::Template(e)),
            Result::Ok(filename) => match rendered(
                cfg.default_package_spec.template@,
                ctx_package_json(cfg.top@, p),
            ) {
                Result::Err(e) => Result::Err(SplitErrorV::Template(e)),
                Result::Ok(body) => Result::Ok(FileV { path, filename, content: body }),
            },
        },
    }
}

/// The descriptor files of the first `n` packages, in package order.
pub open spec fn package_files_of(cfg: Config, ps: Seq<PackageV>, n: int) -> Result<
    Seq<FileV>,
    SplitErrorV,
>
    decreases n,
{
    if n <= 0 {
        Result::Ok(Seq::empty())
    } else {
        match package_files_of(cfg, ps, n - 1) {
            Result::Err(e) => Result::Err(e),
            Result::Ok(files) => match package_file_of(cfg, ps[n - 1]) {
                Result::Err(e) => Result::Err(e),
                Result::Ok(f) => Result::Ok(files.push(f)),
            },
        }
    }
}

/// Everything one run decides, from the configuration and the document
/// metas alone: the resource files in document order, the packages in
/// order of first assignment, and one descriptor file per package.
pub open spec fn plan_spec(cfg: Config, metas: Seq<DocMetaV>) -> Result<PlanV, SplitErrorV> {
    match run_docs(cfg, metas, metas.len() as int) {
        Result::Err(e) => Result::Err(e),
        Result::Ok(st) => match package_files_of(cfg, st.packages, st.packages.len() as int) {
            Result::Err(e) => Result::Err(e),
            Result::Ok(files) => Result::Ok(
                PlanV {
                    resource_files: st.resource_files,
                    packages: st.packages,
                    package_files: files,
                },
            ),
        },
    }
}

/// Once a prefix of the documents has failed, the whole fold fails the
/// same way.
pub proof fn lemma_run_docs_err(cfg: Config, metas: Seq<DocMetaV>, i: int, n: int)
    requires
        0 <= i <= n,
        run_docs(cfg, metas, i) is Err,
    ensures
        run_docs(cfg, metas, n) == run_docs(cfg, metas, i),
    decreases n,
{
    if n > i {
        lemma_run_docs_err(cfg, metas, i, n - 1);
    }
}

/// Once a prefix of the packages has failed, the whole pass fails the
/// same way.
pub proof fn lemma_package_files_err(cfg: Config, ps: Seq<PackageV>, i: int, n: int)
    requires
        0 <= i <= n,
        package_files_of(cfg, ps, i) is Err,
    ensures
        package_files_of(cfg, ps, n) == package_files_of(cfg, ps, i),
    decreases n,
{
    if n > i {
        lemma_package_files_err(cfg, ps, i, n - 1);
    }
}

impl Config {
    /// Processes one document: skip, abort, drop, or render and assign.
    /// On success the two accumulators advance exactly as `step_doc`
    /// says; on an error they are untouched.
    fn step_exec(
        &self,
        resource_files: &mut Vec<PlannedFile>,
        acc: &mut PackageAccumulator,
        meta: &DocMeta,
        idx: u32,
    ) -> (r: Result<(), SplitError>)
        ensures
            match r {
                Result::Ok(_) => step_doc(
                    *self,
                    SplitState {
                        resource_files: old(resource_files).deep_view(),
                        packages: old(acc)@,
                    },
                    meta@,
                    idx,
                ) == Result::<SplitState, SplitErrorV>::Ok(
                    SplitState {
                        resource_files: final(resource_files).deep_view(),
                        packages: final(acc)@,
                    },
                ),
                Result::Err(e) => step_doc(
                    *self,
                    SplitState {
                        resource_files: old(resource_files).deep_view(),
                        packages: old(acc)@,
                    },
                    meta@,
                    idx,
                ) == Result::<SplitState, SplitErrorV>::Err(e@)
                    && final(resource_files).deep_view() == old(resource_files).deep_view()
                    && final(acc)@ == old(acc)@,
            },
    {
        let ghost st0 = SplitState {
            resource_files: resource_files.deep_view(),
            packages: acc@,
        };
        if meta.kind.is_none() {
            return Result::Ok(());
        }
        if meta.name.is_none() {
            return Result::Err(SplitError::MissingName(idx));
        }
        let kind_c = crate::model::clone_opt_string(&meta.kind);
        let name_c = crate::model::clone_opt_string(&meta.name);
        let ns_c = crate::model::clone_opt_string(&meta.namespace);
        let resource = match Resource::from_manifest(kind_c, name_c, ns_c, idx) {
            Option::Some(r) => r,
            Option::None => {
                proof {
                    assert(false);
                }
                return Result::Ok(());
            },
        };
        let ghost r0 = ResourceV {
            index: idx,
            name: meta@.name->Some_0,
            kind: meta@.kind->Some_0,
            namespace: meta@.namespace,
            filename: Option::None,
            path: Option::None,
        };
        proof {
            assert(resource@ =~~= r0);
        }
        let pname = match self.classify(&resource) {
            Option::Some(n) => n,
            Option::None => {
                return Result::Ok(());
            },
        };
        let filename = match self.render_resource_filename(&pname, &resource) {
            Result::Ok(f) => f,
            Result::Err(e) => {
                return Result::Err(SplitError::Template(e));
            },
        };
        let path = match self.render_resource_path(&pname, &resource) {
            Result::Ok(p) => p,
            Result::Err(e) => {
                return Result::Err(SplitError::Template(e));
            },
        };
        let mut completed = resource;
        completed.filename = Option::Some(filename.clone());
        completed.path = Option::Some(path.clone());
        let ghost r1 = ResourceV {
            index: r0.index,
            name: r0.name,
            kind: r0.kind,
            namespace: r0.namespace,
            filename: Option::Some(filename@),
            path: Option::Some(path@),
        };
        proof {
            assert(completed@ =~~= r1);
        }
        resource_files.push(
            PlannedFile { path, filename, content: meta.body.clone() },
        );
        acc.assign(completed, &pname);
        proof {
            assert(resource_files.deep_view() =~= st0.resource_files.push(
                FileV { path: r1.path->Some_0, filename: r1.filename->Some_0, content: meta@.body },
            ));
            assert(step_doc(*self, st0, meta@, idx) == Result::<SplitState, SplitErrorV>::Ok(
                SplitState { resource_files: resource_files.deep_view(), packages: acc@ },
            ));
        }
        Result::Ok(())
    }

    /// The whole decision pass over the documents of one manifest: what
    /// files to write, and which packages hold which resources - exactly
    /// as `plan_spec` states, for every outcome.
    pub fn plan(&self, metas: &Vec<DocMeta>) -> (r: Result<Plan, SplitError>)
        requires
            metas@.len() <= u32::MAX,
        ensures
            match r {
                Result::Ok(p) => plan_spec(*self, metas.deep_view()) == Result::<
                    PlanV,
                    SplitErrorV,
                >::Ok(p@),
                Result::Err(e) => plan_spec(*self, metas.deep_view()) == Result::<
                    PlanV,
                    SplitErrorV,
                >::Err(e@),
            },
    {
        let ghost metasv = metas.deep_view();
        let mut resource_files: Vec<PlannedFile> = Vec::new();
        let mut acc = PackageAccumulator::new();
        let mut i: usize = 0;
        proof {
            assert(resource_files.deep_view() =~= Seq::<FileV>::empty());
            assert(SplitState { resource_files: resource_files.deep_view(), packages: acc@ }
                =~~= initial_state());
        }
        while i < metas.len()
            invariant
                metasv == metas.deep_view(),
                metasv.len() == metas@.len(),
                metasv.len() <= u32::MAX,
                i <= metasv.len(),
                run_docs(*self, metasv, i as int) == Result::<SplitState, SplitErrorV>::Ok(
                    SplitState { resource_files: resource_files.deep_view(), packages: acc@ },
                ),
            decreases metasv.len() - i,
        {
            proof {
                assert(metasv[i as int] == metas@[i as int]@);
            }
            match self.step_exec(&mut resource_files, &mut acc, &metas[i], i as u32) {
                Result::Ok(_) => {},
                Result::Err(e) => {
                    proof {
                        lemma_run_docs_err(*self, metasv, i + 1, metasv.len() as int);
                    }
                    return Result::Err(e);
                },
            }
            i = i + 1;
        }
        let ghost st = SplitState { resource_files: resource_files.deep_view(), packages: acc@ };
        let packages = acc.snapshot();
        let ghost psv = st.packages;
        let mut package_files: Vec<PlannedFile> = Vec::new();
        let mut k: usize = 0;
        proof {
            assert(package_files.deep_view() =~= Seq::<FileV>::empty());
        }
        while k < packages.len()
            invariant
                metasv == metas.deep_view(),
                psv == packages.deep_view(),
                psv.len() == packages@.len(),
                k <= psv.len(),
                run_docs(*self, metasv, metasv.len() as int) == Result::<
                    SplitState,
                    SplitErrorV,
                >::Ok(st),
                st.packages == psv,
                st.resource_files == resource_files.deep_view(),
                package_files_of(*self, psv, k as int) == Result::<Seq<FileV>, SplitErrorV>::Ok(
                    package_files.deep_view(),
                ),
            decreases psv.len() - k,
        {
            let ghost files_before = package_files.deep_view();
            proof {
                assert(psv[k as int] == packages@[k as int].deep_view());
            }
            let p = &packages[k];
            let path = match self.render_package_path(&p.name) {
                Result::Ok(v) => v,
                Result::Err(e) => {
                    proof {
                        lemma_package_files_err(*self, psv, k + 1, psv.len() as int);
                    }
                    return Result::Err(SplitError::Template(e));
                },
            };
            let filename = match self.render_package_filename(&p.name) {
                Result::Ok(v) => v,
                Result::Err(e) => {
                    proof {
                        lemma_package_files_err(*self, psv, k + 1, psv.len() as int);
                    }
                    return Result::Err(SplitError::Template(e));
                },
            };
            let body = match self.render_package_descriptor(p) {
                Result::Ok(v) => v,
                Result::Err(e) => {
                    proof {
                        lemma_package_files_err(*self, psv, k + 1, psv.len() as int);
                    }
                    return Result::Err(SplitError::Template(e));
                },
            };
            package_files.push(PlannedFile { path, filename, content: body });
            proof {
                assert(package_files.deep_view() =~= files_before.push(
                    FileV { path: path@, filename: filename@, content: body@ },
                ));
            }
            k = k + 1;
        }
        let plan = Plan { resource_files, packages, package_files };
        proof {
            assert(plan@.packages == psv);
            assert(plan_spec(*self, metasv) == Result::<PlanV, SplitErrorV>::Ok(plan@));
        }
        Result::Ok(plan)
    }
}

/// Every resource assigned within the first `n` documents carries an
/// index below `n`.
pub open spec fn indices_below(ps: Seq<PackageV>, n: int) -> bool {
    forall|p: int, j: int|
        0 <= p < ps.len() && 0 <= j < ps[p].resources.len() ==> ps[p].resources[j].index < n
}

/// Within each package, resource indices strictly increase.
pub open spec fn indices_increasing(ps: Seq<PackageV>) -> bool {
    forall|p: int, j1: int, j2: int|
        0 <= p < ps.len() && 0 <= j1 < j2 < ps[p].resources.len() ==> ps[p].resources[j1].index
            < ps[p].resources[j2].index
}

/// Each resource stands in at most one place: any two distinct
/// positions, in one package or across two, hold different indices.
pub open spec fn indices_unique(ps: Seq<PackageV>) -> bool {
    forall|p1: int, j1: int, p2: int, j2: int|
        0 <= p1 < ps.len() && 0 <= j1 < ps[p1].resources.len() && 0 <= p2 < ps.len() && 0 <= j2
            < ps[p2].resources.len() && (p1 != p2 || j1 != j2)
            ==> ps[p1].resources[j1].index != ps[p2].resources[j2].index
}

/// A package is created only on first assignment: none is ever empty.
pub open spec fn packages_nonempty(ps: Seq<PackageV>) -> bool {
    forall|p: int| 0 <= p < ps.len() ==> ps[p].resources.len() > 0
}

/// Resource indices follow document order: each document consumes one
/// index value - the skipped and the dropped ones too - so after any
/// prefix of `n` documents every assigned resource carries an index
/// below `n`, and within each package the indices strictly increase;
/// nothing is ever renumbered.
pub proof fn lemma_indices_increase(cfg: Config, metas: Seq<DocMetaV>, n: int, st: SplitState)
    requires
        0 <= n <= u32::MAX,
        run_docs(cfg, metas, n) == Result::<SplitState, SplitErrorV>::Ok(st),
    ensures
        indices_below(st.packages, n),
        indices_increasing(st.packages),
        indices_unique(st.packages),
        packages_nonempty(st.packages),
    decreases n,
{
    if n > 0 {
        let prev = run_docs(cfg, metas, n - 1);
        let st0 = prev->Ok_0;
        lemma_indices_increase(cfg, metas, n - 1, st0);
        let result = step_doc(cfg, st0, metas[n - 1], (n - 1) as u32);
        if st == st0 {
            assert(indices_below(st.packages, n));
        } else {
            // The assigned case: one resource with index n - 1 joins one
            // package; everything else is untouched.
            let m = metas[n - 1];
            let r0 = ResourceV {
                index: (n - 1) as u32,
                name: m.name->Some_0,
                kind: m.kind->Some_0,
                namespace: m.namespace,
                filename: Option::None,
                path: Option::None,
            };
            let pname = classify_rules(
                cfg.split_rules@,
                cfg.default_package_spec.default_name@,
                r0,
            )->Some_0;
            let filename = rendered(
                cfg.default_package_spec.resource_spec.filename_template@,
                ctx_resource_json(cfg.top@, pname, r0),
            )->Ok_0;
            let path = rendered(
                cfg.default_package_spec.resource_spec.path_template@,
                ctx_resource_json(cfg.top@, pname, r0),
            )->Ok_0;
            let r1 = ResourceV {
                index: r0.index,
                name: r0.name,
                kind: r0.kind,
                namespace: r0.namespace,
                filename: Option::Some(filename),
                path: Option::Some(path),
            };
            assert(st.packages == assign_resource(st0.packages, pname, r1));
            crate::accumulator::lemma_pkg_index_of(st0.packages, pname);
            let i = crate::accumulator::pkg_index_of(st0.packages, pname);
            if i == st0.packages.len() {
                assert forall|p: int, j: int|
                    0 <= p < st.packages.len() && 0 <= j < st.packages[p].resources.len() implies
                    st.packages[p].resources[j].index < n by {
                    if p < st0.packages.len() {
                        assert(st.packages[p] == st0.packages[p]);
                    } else {
                        assert(st.packages[p].resources =~= seq![r1]);
                    }
                }
                assert(indices_increasing(st.packages));
                assert forall|p1: int, j1: int, p2: int, j2: int|
                    0 <= p1 < st.packages.len() && 0 <= j1 < st.packages[p1].resources.len() && 0
                        <= p2 < st.packages.len() && 0 <= j2 < st.packages[p2].resources.len() && (
                    p1 != p2 || j1 != j2) implies st.packages[p1].resources[j1].index
                    != st.packages[p2].resources[j2].index by {
                    if p1 < st0.packages.len() {
                        assert(st.packages[p1] == st0.packages[p1]);
                    } else {
                        assert(st.packages[p1].resources =~= seq![r1]);
                    }
                    if p2 < st0.packages.len() {
                        assert(st.packages[p2] == st0.packages[p2]);
                    } else {
                        assert(st.packages[p2].resources =~= seq![r1]);
                    }
                }
                assert forall|p: int| 0 <= p < st.packages.len() implies st.packages[p].resources.len()
                    > 0 by {
                    if p < st0.packages.len() {
                        assert(st.packages[p] == st0.packages[p]);
                    } else {
                        assert(st.packages[p].resources =~= seq![r1]);
                    }
                }
            } else {
                assert forall|p: int, j: int|
                    0 <= p < st.packages.len() && 0 <= j < st.packages[p].resources.len() implies
                    st.packages[p].resources[j].index < n by {
                    if p != i {
                        assert(st.packages[p] == st0.packages[p]);
                    } else {
                        assert(st.packages[p].resources == st0.packages[i].resources.push(r1));
                        if j < st0.packages[i].resources.len() {
                            assert(st.packages[p].resources[j] == st0.packages[i].resources[j]);
                        }
                    }
                }
                assert forall|p: int, j1: int, j2: int|
                    0 <= p < st.packages.len() && 0 <= j1 < j2 < st.packages[p].resources.len()
                    implies st.packages[p].resources[j1].index
                    < st.packages[p].resources[j2].index by {
                    if p != i {
                        assert(st.packages[p] == st0.packages[p]);
                    } else {
                        assert(st.packages[p].resources == st0.packages[i].resources.push(r1));
                        if j2 < st0.packages[i].resources.len() {
                            assert(st.packages[p].resources[j1] == st0.packages[i].resources[j1]);
                            assert(st.packages[p].resources[j2] == st0.packages[i].resources[j2]);
                        } else {
                            assert(st.packages[p].resources[j2] == r1);
                            assert(st.packages[p].resources[j1] == st0.packages[i].resources[j1]);
                            assert(st0.packages[i].resources[j1].index < n - 1 + 1);
                        }
                    }
                }
                assert forall|p1: int, j1: int, p2: int, j2: int|
                    0 <= p1 < st.packages.len() && 0 <= j1 < st.packages[p1].resources.len() && 0
                        <= p2 < st.packages.len() && 0 <= j2 < st.packages[p2].resources.len() && (
                    p1 != p2 || j1 != j2) implies st.packages[p1].resources[j1].index
                    != st.packages[p2].resources[j2].index by {
                    if p1 == i {
                        assert(st.packages[p1].resources == st0.packages[i].resources.push(r1));
                    } else {
                        assert(st.packages[p1] == st0.packages[p1]);
                    }
                    if p2 == i {
                        assert(st.packages[p2].resources == st0.packages[i].resources.push(r1));
                    } else {
                        assert(st.packages[p2] == st0.packages[p2]);
                    }
                    if p1 == i && j1 == st0.packages[i].resources.len() {
                        assert(st.packages[p1].resources[j1] == r1);
                    }
                    if p2 == i && j2 == st0.packages[i].resources.len() {
                        assert(st.packages[p2].resources[j2] == r1);
                    }
                }
                assert forall|p: int| 0 <= p < st.packages.len() implies st.packages[p].resources.len()
                    > 0 by {
                    if p == i {
                        assert(st.packages[p].resources == st0.packages[i].resources.push(r1));
                    } else {
                        assert(st.packages[p] == st0.packages[p]);
                    }
                }
            }
        }
    }
}

/// The indices law at the plan level: in every plan the pass produces,
/// each assigned resource carries an index below the document count,
/// and within each package the indices strictly increase.
pub proof fn lemma_plan_indices(cfg: Config, metas: Seq<DocMetaV>, p: PlanV)
    requires
        metas.len() <= u32::MAX,
        plan_spec(cfg, metas) == Result::<PlanV, SplitErrorV>::Ok(p),
    ensures
        indices_below(p.packages, metas.len() as int),
        indices_increasing(p.packages),
        indices_unique(p.packages),
        packages_nonempty(p.packages),
{
    let st = run_docs(cfg, metas, metas.len() as int)->Ok_0;
    lemma_indices_increase(cfg, metas, metas.len() as int, st);
}

/// The decision pass is deterministic: two runs over the same
/// configuration and the same documents decide the same plan - the same
/// file set, byte for byte.
pub proof fn lemma_plan_deterministic(
    cfg: Config,
    metas: Seq<DocMetaV>,
    r1: Result<PlanV, SplitErrorV>,
    r2: Result<PlanV, SplitErrorV>,
)
    requires
        r1 == plan_spec(cfg, metas),
        r2 == plan_spec(cfg, metas),
    ensures
        r1 == r2,
{
}

/// Idempotence, end to end: two runs over the same configuration and
/// the same fetched manifest text extract the same document metas and
/// decide the same plan - the same file paths, names and contents, byte
/// for byte. (Writing the files is the driver's I/O and stands outside
/// the library.)
pub proof fn lemma_run_idempotent(
    cfg: Config,
    text: Seq<char>,
    m1: Result<Seq<DocMetaV>, Seq<char>>,
    m2: Result<Seq<DocMetaV>, Seq<char>>,
)
    requires
        m1 == crate::docs::extract_metas_spec(text),
        m2 == crate::docs::extract_metas_spec(text),
    ensures
        m1 == m2,
        m1 matches Result::Ok(ms) ==> plan_spec(cfg, ms) == plan_spec(cfg, m2->Ok_0),
{
}

} // verus!
