use buildor::codebuild::{BuildInfo, BuildInfoParser};
use buildor::phase::BuildPhase;
use buildor::deployment::ProjectDeploymentUpdatePayload;
use buildor::document::{AttributeValue, Document};
use buildor::update::{get_update_expressions, get_update_expressions_at};

fn sample_build() -> BuildInfo {
    BuildInfo {
        uuid: "b1".to_string(),
        build_number: Some(3),
        start_time: None,
        end_time: None,
        deployment_phase: None,
        current_phase: Some(BuildPhase::Build),
        build_status: None,
    }
}

#[test]
fn empty_payload_sets_only_updated_at() {
    let r = get_update_expressions_at(Document::new(), "2024-01-01T00:00:00+00:00".to_string());
    assert_eq!(r.update_expression, "SET #updated_at = :updated_at");
    assert_eq!(r.attribute_names, vec![("#updated_at".to_string(), "updated_at".to_string())]);
    assert_eq!(r.attribute_values.len(), 1);
    match r.attribute_values.get(":updated_at") {
        Some(AttributeValue::S(s)) => assert_eq!(s, "2024-01-01T00:00:00+00:00"),
        _ => panic!("timestamp alias missing"),
    }
}

#[test]
fn n_fields_give_n_plus_one_clauses() {
    let mut payload = Document::new();
    payload.insert("a".to_string(), AttributeValue::S("1".to_string()));
    payload.insert("b".to_string(), AttributeValue::N("2".to_string()));
    let r = get_update_expressions_at(payload, "t".to_string());
    assert_eq!(r.update_expression, "SET #updated_at = :updated_at, #a = :a, #b = :b");
    assert_eq!(r.update_expression.split(", ").count(), 3);
    assert!(!r.update_expression.ends_with(", "));
    assert_eq!(r.attribute_names.len(), 3);
    assert!(r.attribute_names.contains(&("#a".to_string(), "a".to_string())));
    assert!(r.attribute_names.contains(&("#b".to_string(), "b".to_string())));
    assert!(r.attribute_values.get(":a").is_some());
    match r.attribute_values.get(":b") {
        Some(AttributeValue::N(n)) => assert_eq!(n, "2"),
        _ => panic!("value alias missing"),
    }
}

#[test]
fn build_only_update_references_build_and_updated_at() {
    let payload = ProjectDeploymentUpdatePayload { project: None, build: Some(sample_build()) };
    let r = get_update_expressions(payload.as_hashmap());
    assert_eq!(r.update_expression, "SET #updated_at = :updated_at, #build = :build");
    let names: Vec<&str> = r.attribute_names.iter().map(|(k, _)| k.as_str()).collect();
    assert_eq!(names, vec!["#updated_at", "#build"]);
    assert_eq!(r.attribute_values.len(), 2);
    assert!(r.attribute_values.get(":build").is_some());
    assert!(r.attribute_values.get(":updated_at").is_some());
    assert!(r.attribute_values.get(":project").is_none());
}

#[test]
fn update_payload_shapes() {
    let none = ProjectDeploymentUpdatePayload { project: None, build: None };
    assert_eq!(get_update_expressions(none.as_hashmap()).update_expression, "SET #updated_at = :updated_at");
    let project = buildor::project::Project::new(buildor::project::ProjectCreatePayload::default(
        "n".to_string(),
        "r".to_string(),
    ));
    let both = ProjectDeploymentUpdatePayload { project: Some(project), build: Some(sample_build()) };
    let r = get_update_expressions_at(both.as_hashmap(), "t".to_string());
    assert_eq!(r.update_expression, "SET #updated_at = :updated_at, #project = :project, #build = :build");
    match r.attribute_values.get(":build") {
        Some(AttributeValue::M(d)) => assert_eq!(BuildInfoParser::from_document(d).unwrap().uuid, "b1"),
        _ => panic!("build alias missing"),
    }
}
