use kustomize_upstream::digits::pad3;
use kustomize_upstream::model::{
    Config, DefaultPackageSpec, Matcher, Resource, ResourceSpec, SplitError, SplitRule, Top,
};

fn top() -> Top {
    Top {
        name: String::from("contour"),
        version: String::from("1.14.0"),
        source_template: String::from("https://example.invalid/v{{ top.version }}/all.yaml"),
        source: None,
    }
}

fn spec_with_rules(rules: Vec<SplitRule>) -> Config {
    Config {
        top: top(),
        default_package_spec: DefaultPackageSpec {
            template: String::from(
                "{% for resource in package.resources %}- {{ resource.filename }}\n{% endfor %}",
            ),
            default_name: String::from("main"),
            filename_template: String::from("kustomization.yaml"),
            path_template: String::from(
                "{{ top.name }}-{{ top.version }}/{{ packageName }}",
            ),
            resource_spec: ResourceSpec {
                path_template: String::from(
                    "{{ top.name }}-{{ top.version }}/{{ packageName }}",
                ),
                filename_template: String::from(
                    "{{ resource.index | pad3 }}_{{ resource.kind }}_{{ resource.name }}.yaml",
                ),
            },
        },
        split_rules: rules,
    }
}

fn rule(kind: Option<&str>, name: Option<&str>, namespace: Option<&str>, package: Option<&str>) -> SplitRule {
    SplitRule {
        matcher: Matcher {
            kind: kind.map(String::from),
            name: name.map(String::from),
            namespace: namespace.map(String::from),
        },
        package_name: package.map(String::from),
    }
}

fn resource(index: u32, name: &str, kind: &str, namespace: Option<&str>) -> Resource {
    Resource {
        index,
        name: String::from(name),
        kind: String::from(kind),
        namespace: namespace.map(String::from),
        filename: None,
        path: None,
    }
}

#[test]
fn classify_first_match_wins() {
    let cfg = spec_with_rules(vec![
        rule(Some("clusterrole"), None, None, Some("cr")),
        rule(Some("clusterrole"), None, None, Some("other")),
    ]);
    let r = resource(0, "x", "ClusterRole", None);
    assert_eq!(cfg.classify(&r).as_deref(), Some("cr"));
}

#[test]
fn classify_falls_back_to_default() {
    let cfg = spec_with_rules(vec![rule(Some("clusterrole"), None, None, Some("cr"))]);
    let r = resource(0, "x", "Secret", None);
    assert_eq!(cfg.classify(&r).as_deref(), Some("main"));
}

#[test]
fn classify_drop_rule_short_circuits() {
    // Rule 1 matches but names no package: the resource is dropped, not
    // handed to rule 2, which would otherwise match.
    let cfg = spec_with_rules(vec![
        rule(Some("configmap"), None, None, None),
        rule(None, Some("x"), None, Some("late")),
    ]);
    let r = resource(0, "x", "ConfigMap", None);
    assert_eq!(cfg.classify(&r), None);
}

#[test]
fn matcher_is_case_insensitive() {
    let m = Matcher {
        kind: Some(String::from("ClusterRole")),
        name: None,
        namespace: None,
    };
    assert!(m.do_match(&resource(0, "x", "clusterrole", None)));
    assert!(m.do_match(&resource(0, "x", "CLUSTERROLE", None)));
    assert!(!m.do_match(&resource(0, "x", "Role", None)));
}

#[test]
fn matcher_namespace_absence() {
    // No namespace constraint: matches with and without a namespace.
    let unset = Matcher { kind: None, name: None, namespace: None };
    assert!(unset.do_match(&resource(0, "x", "ConfigMap", Some("kube-system"))));
    assert!(unset.do_match(&resource(0, "x", "ConfigMap", None)));
    // A set namespace never matches a resource lacking one.
    let set = Matcher { kind: None, name: None, namespace: Some(String::from("default")) };
    assert!(!set.do_match(&resource(0, "x", "ConfigMap", None)));
    assert!(set.do_match(&resource(0, "x", "ConfigMap", Some("Default"))));
}

#[test]
fn pad3_pads_to_three_digits() {
    assert_eq!(pad3(0), "000");
    assert_eq!(pad3(7), "007");
    assert_eq!(pad3(42), "042");
    assert_eq!(pad3(123), "123");
    assert_eq!(pad3(12345), "12345");
}

#[test]
fn pad3_template_helper() {
    let cfg = spec_with_rules(vec![]);
    let r = resource(7, "envoy", "Service", None);
    let name = cfg
        .render_resource_filename(&String::from("main"), &r)
        .unwrap();
    assert_eq!(name, "007_Service_envoy.yaml");
}

#[test]
fn pad3_on_non_numeric_fails() {
    let mut cfg = spec_with_rules(vec![]);
    cfg.default_package_spec.resource_spec.filename_template =
        String::from("{{ resource.name | pad3 }}");
    let r = resource(7, "envoy", "Service", None);
    assert!(cfg.render_resource_filename(&String::from("main"), &r).is_err());
}

#[test]
fn render_source_uses_top_context() {
    let cfg = spec_with_rules(vec![]);
    let url = cfg.render_source().unwrap();
    assert_eq!(url, "https://example.invalid/v1.14.0/all.yaml");
}

#[test]
fn render_sees_resolved_source() {
    // Once the resolved source URL is set, templates can read it from
    // the `top` context.
    let mut cfg = spec_with_rules(vec![]);
    cfg.top.source = Some(String::from("https://example.invalid/v1.14.0/all.yaml"));
    cfg.default_package_spec.filename_template = String::from("{{ top.source }}");
    let rendered = cfg.render_package_filename(&String::from("main")).unwrap();
    assert_eq!(rendered, "https://example.invalid/v1.14.0/all.yaml");
}

#[test]
fn render_survives_characters_needing_escapes() {
    let cfg = spec_with_rules(vec![]);
    let mut r = resource(1, "we\"ird\\name", "ConfigMap", None);
    r.name.push('\t');
    let name = cfg.render_resource_filename(&String::from("main"), &r).unwrap();
    assert_eq!(name, "001_ConfigMap_we\"ird\\name\t.yaml");
}

#[test]
fn render_bad_template_syntax_fails() {
    let mut cfg = spec_with_rules(vec![]);
    cfg.default_package_spec.filename_template = String::from("{{ unclosed");
    assert!(cfg.render_package_filename(&String::from("main")).is_err());
}

#[test]
fn render_undefined_variable_fails() {
    let mut cfg = spec_with_rules(vec![]);
    cfg.default_package_spec.filename_template = String::from("{{ nothing.here }}");
    assert!(cfg.render_package_filename(&String::from("main")).is_err());
}

const FIVE_DOCS: &str = "\
kind: ConfigMap\nmetadata:\n  name: a\n---\nfoo: nokind\n---\nkind: Secret\nmetadata:\n  name: b\n---\nkind: ConfigMap\nmetadata:\n  name: c\n---\nkind: Service\nmetadata:\n  name: d\n";

#[test]
fn indices_count_skipped_documents() {
    // Five documents; the second has no kind. The surviving resources
    // keep indices 0, 2, 3, 4 - nothing is renumbered.
    let cfg = spec_with_rules(vec![]);
    let metas = kustomize_upstream::docs::extract_metas(FIVE_DOCS).unwrap();
    assert_eq!(metas.len(), 5);
    let plan = cfg.plan(&metas).unwrap();
    let mut indices: Vec<u32> = Vec::new();
    for p in &plan.packages {
        for r in &p.resources {
            indices.push(r.index);
        }
    }
    indices.sort();
    assert_eq!(indices, vec![0, 2, 3, 4]);
}

#[test]
fn dropped_documents_still_consume_indices() {
    // The Secret (index 2) is dropped by a rule without a package name;
    // later resources keep their document indices.
    let cfg = spec_with_rules(vec![rule(Some("secret"), None, None, None)]);
    let metas = kustomize_upstream::docs::extract_metas(FIVE_DOCS).unwrap();
    let plan = cfg.plan(&metas).unwrap();
    let mut indices: Vec<u32> = Vec::new();
    for p in &plan.packages {
        for r in &p.resources {
            indices.push(r.index);
        }
    }
    indices.sort();
    assert_eq!(indices, vec![0, 3, 4]);
}

const TWO_DOCS: &str = "\
kind: ConfigMap\nmetadata:\n  name: x\n---\nkind: Secret\nmetadata:\n  name: y\n";

#[test]
fn end_to_end_two_packages() {
    let cfg = spec_with_rules(vec![rule(Some("ConfigMap"), None, None, Some("cm"))]);
    let metas = kustomize_upstream::docs::extract_metas(TWO_DOCS).unwrap();
    let plan = cfg.plan(&metas).unwrap();

    assert_eq!(plan.packages.len(), 2);
    let cm = plan.packages.iter().find(|p| p.name == "cm").unwrap();
    let main = plan.packages.iter().find(|p| p.name == "main").unwrap();
    assert_eq!(cm.resources.len(), 1);
    assert_eq!(cm.resources[0].index, 0);
    assert_eq!(cm.resources[0].filename.as_deref(), Some("000_ConfigMap_x.yaml"));
    assert_eq!(main.resources.len(), 1);
    assert_eq!(main.resources[0].index, 1);
    assert_eq!(main.resources[0].filename.as_deref(), Some("001_Secret_y.yaml"));

    assert_eq!(plan.resource_files.len(), 2);
    assert_eq!(plan.resource_files[0].path, "contour-1.14.0/cm");
    assert_eq!(plan.resource_files[1].path, "contour-1.14.0/main");

    assert_eq!(plan.package_files.len(), 2);
    for f in &plan.package_files {
        assert_eq!(f.filename, "kustomization.yaml");
    }
    let cm_desc = plan
        .package_files
        .iter()
        .find(|f| f.path == "contour-1.14.0/cm")
        .unwrap();
    assert_eq!(cm_desc.content, "- 000_ConfigMap_x.yaml\n");
    let main_desc = plan
        .package_files
        .iter()
        .find(|f| f.path == "contour-1.14.0/main")
        .unwrap();
    assert_eq!(main_desc.content, "- 001_Secret_y.yaml\n");
}

#[test]
fn resource_file_content_is_serialized_document() {
    let cfg = spec_with_rules(vec![]);
    let metas = kustomize_upstream::docs::extract_metas("kind: ConfigMap\nmetadata:\n  name: x\n")
        .unwrap();
    let plan = cfg.plan(&metas).unwrap();
    assert_eq!(plan.resource_files.len(), 1);
    let content = &plan.resource_files[0].content;
    assert!(content.contains("kind: ConfigMap"));
    assert!(content.contains("name: x"));
}

#[test]
fn merge_keys_are_resolved() {
    let text = "\
base: &base\n  name: merged\nkind: ConfigMap\nmetadata:\n  <<: *base\n";
    let metas = kustomize_upstream::docs::extract_metas(text).unwrap();
    assert_eq!(metas.len(), 1);
    assert_eq!(metas[0].name.as_deref(), Some("merged"));
}

#[test]
fn missing_name_is_reported_with_index() {
    let cfg = spec_with_rules(vec![]);
    let metas =
        kustomize_upstream::docs::extract_metas("kind: ConfigMap\nmetadata:\n  name: a\n---\nkind: Secret\n")
            .unwrap();
    match cfg.plan(&metas) {
        Err(SplitError::MissingName(idx)) => assert_eq!(idx, 1),
        _ => panic!("expected a missing-name error for document 1"),
    }
}

#[test]
fn template_error_aborts_plan() {
    let mut cfg = spec_with_rules(vec![]);
    cfg.default_package_spec.resource_spec.filename_template = String::from("{{ broken");
    let metas = kustomize_upstream::docs::extract_metas(TWO_DOCS).unwrap();
    match cfg.plan(&metas) {
        Err(SplitError::Template(_)) => {},
        _ => panic!("expected a template error"),
    }
}

#[test]
fn extraction_is_deterministic() {
    let metas1 = kustomize_upstream::docs::extract_metas(FIVE_DOCS).unwrap();
    let metas2 = kustomize_upstream::docs::extract_metas(FIVE_DOCS).unwrap();
    assert_eq!(metas1.len(), metas2.len());
    for (a, b) in metas1.iter().zip(metas2.iter()) {
        assert_eq!(a.kind, b.kind);
        assert_eq!(a.name, b.name);
        assert_eq!(a.namespace, b.namespace);
        assert_eq!(a.body, b.body);
    }
}

#[test]
fn plan_is_idempotent() {
    let cfg = spec_with_rules(vec![rule(Some("ConfigMap"), None, None, Some("cm"))]);
    let metas1 = kustomize_upstream::docs::extract_metas(FIVE_DOCS).unwrap();
    let metas2 = kustomize_upstream::docs::extract_metas(FIVE_DOCS).unwrap();
    let plan1 = cfg.plan(&metas1).unwrap();
    let plan2 = cfg.plan(&metas2).unwrap();

    assert_eq!(plan1.resource_files.len(), plan2.resource_files.len());
    for (a, b) in plan1.resource_files.iter().zip(plan2.resource_files.iter()) {
        assert_eq!(a.path, b.path);
        assert_eq!(a.filename, b.filename);
        assert_eq!(a.content, b.content);
    }
    assert_eq!(plan1.package_files.len(), plan2.package_files.len());
    for (a, b) in plan1.package_files.iter().zip(plan2.package_files.iter()) {
        assert_eq!(a.path, b.path);
        assert_eq!(a.filename, b.filename);
        assert_eq!(a.content, b.content);
    }
}

#[test]
fn accumulator_groups_in_assignment_order() {
    let mut acc = kustomize_upstream::accumulator::PackageAccumulator::new();
    acc.assign(resource(0, "a0", "ConfigMap", None), &String::from("a"));
    acc.assign(resource(1, "b0", "Secret", None), &String::from("b"));
    acc.assign(resource(2, "a1", "ConfigMap", None), &String::from("a"));
    let pkgs = acc.snapshot();
    assert_eq!(pkgs.len(), 2);
    assert_eq!(pkgs[0].name, "a");
    assert_eq!(pkgs[0].resources.len(), 2);
    assert_eq!(pkgs[0].resources[0].index, 0);
    assert_eq!(pkgs[0].resources[1].index, 2);
    assert_eq!(pkgs[1].name, "b");
    assert_eq!(pkgs[1].resources.len(), 1);
    assert_eq!(pkgs[1].resources[0].index, 1);
}

#[test]
fn from_manifest_skips_documents_without_kind() {
    assert!(Resource::from_manifest(None, None, None, 3).is_none());
    let r = Resource::from_manifest(
        Some(String::from("ConfigMap")),
        Some(String::from("x")),
        Some(String::from("default")),
        3,
    )
    .unwrap();
    assert_eq!(r.index, 3);
    assert_eq!(r.kind, "ConfigMap");
    assert_eq!(r.name, "x");
    assert_eq!(r.namespace.as_deref(), Some("default"));
    assert_eq!(r.filename, None);
    assert_eq!(r.path, None);
}
