use buildor::codebuild::BuildInfo;
use buildor::commands::Commands;
use buildor::deployment::{ProjectDeployment, ProjectDeploymentParser};
use buildor::document::{AttributeValue, Document};
use buildor::errors::{CommonError, HandlerError, MissingModelPropertyError, ProjectDeploymentError, RequestError};
use buildor::phase::{BuildPhase, BuildPhaseStatus, ProjectDeploymentPhase};
use buildor::project::{Project, ProjectCreatePayload, ProjectParser};
use buildor::response::{resolve_env_var, Request, Response, ResponseGenericList, ResponseHeaders};

fn project(uuid: &str) -> Project {
    let payload = ProjectCreatePayload::default("site".to_string(), "repo".to_string());
    Project::new_with(payload, uuid.to_string(), "2024-01-01T00:00:00+00:00".to_string())
}

fn build(uuid: &str) -> BuildInfo {
    BuildInfo {
        uuid: uuid.to_string(),
        build_number: Some(2),
        start_time: Some(1_700_000_000_000),
        end_time: None,
        deployment_phase: Some(ProjectDeploymentPhase::Building),
        current_phase: Some(BuildPhase::PostBuild),
        build_status: None,
    }
}

#[test]
fn deployment_takes_the_build_identity() {
    let d = ProjectDeployment::new(project("prj1"), build("b1"));
    assert_eq!(d.uuid, "b1");
    assert_eq!(d.project.uuid, "prj1");
    assert_eq!(d.created_at, d.updated_at);
    assert!(!d.created_at.is_empty());
}

#[test]
fn project_defaults_apply() {
    let p = project("prj1");
    assert_eq!(p.output_folder, "dist");
    assert_eq!(p.last_published, "-");
    assert_eq!(p.commands.pre_build, vec!["npm install".to_string()]);
    assert_eq!(p.commands.build, vec!["npm run build".to_string()]);
    assert_eq!(p.created_at, p.updated_at);
    let fresh = Project::new(ProjectCreatePayload::default("a".to_string(), "b".to_string()));
    let other = Project::new(ProjectCreatePayload::default("a".to_string(), "b".to_string()));
    assert_eq!(fresh.uuid.len(), 36);
    assert_ne!(fresh.uuid, other.uuid);
}

#[test]
fn stored_deployment_reads_back() {
    let d = ProjectDeployment::new_at(project("prj1"), build("b1"), "T".to_string());
    let back = ProjectDeploymentParser::parse(d.as_hashmap()).unwrap();
    assert_eq!(back.uuid, "b1");
    assert_eq!(back.created_at, "T");
    assert_eq!(back.updated_at, "T");
    assert_eq!(back.project.uuid, "prj1");
    assert_eq!(back.project.name, "site");
    assert_eq!(back.project.repository, "repo");
    assert_eq!(back.project.output_folder, "dist");
    assert_eq!(back.project.commands.pre_build, d.project.commands.pre_build);
    assert_eq!(back.project.commands.build, d.project.commands.build);
    assert_eq!(back.build.uuid, "b1");
    assert_eq!(back.build.build_number, Some(2));
    assert_eq!(back.build.start_time, Some(1_700_000_000_000));
    assert_eq!(back.build.end_time, Some(0));
    assert_eq!(back.build.deployment_phase, Some(ProjectDeploymentPhase::Building));
    assert_eq!(back.build.current_phase, Some(BuildPhase::PostBuild));
    assert_eq!(back.build.build_status, Some(BuildPhaseStatus::Unknown));
}

#[test]
fn unparseable_stored_record_reads_as_absent() {
    // Reads fail open: a corrupt record is reported as not found.
    let mut corrupt = Document::new();
    corrupt.insert("uuid".to_string(), AttributeValue::S("b1".to_string()));
    assert!(ProjectDeploymentParser::from_fetched(Some(corrupt)).is_none());
    assert!(ProjectDeploymentParser::from_fetched(None).is_none());
    let good = ProjectDeployment::new_at(project("prj1"), build("b1"), "T".to_string());
    assert!(ProjectDeploymentParser::from_fetched(Some(good.as_hashmap())).is_some());
}

#[test]
fn nested_failure_names_containing_field() {
    let mut p = project("prj1").as_hashmap();
    p.insert("commands".to_string(), AttributeValue::M(Document::new()));
    let mut d = Document::new();
    d.insert("uuid".to_string(), AttributeValue::S("b1".to_string()));
    d.insert("project".to_string(), AttributeValue::M(p));
    match ProjectDeploymentParser::parse(d) {
        Err(e) => assert_eq!(e.name, "project.commands.pre_build"),
        Ok(_) => panic!("parsed"),
    }
}

#[test]
fn project_list_and_get() {
    let items = vec![project("a").as_hashmap(), Document::new(), project("b").as_hashmap()];
    let projects = ProjectParser::parse_items(&items);
    assert_eq!(projects.len(), 2);
    assert_eq!(projects[1].uuid, "b");
    assert!(ProjectParser::from_fetched(Some(Document::new())).is_none());
    let p = ProjectParser::from_fetched(Some(Commands::defaults().as_hashmap()));
    assert!(p.is_none());
}

#[test]
fn error_messages() {
    assert_eq!(MissingModelPropertyError::new("x").to_string(), "Missing model property: x");
    assert_eq!(HandlerError::new("boom").to_string(), "Handler create error: boom");
    let e = CommonError::item_not_found(None);
    assert_eq!((e.code.as_str(), e.details.as_str()), ("CME02", "Item not found"));
    let e = CommonError::item_not_found(Some("Project not found".to_string()));
    assert_eq!(e.details, "Project not found");
    assert_eq!(CommonError::generic("g".to_string()).code, "CME00");
    assert_eq!(CommonError::schema_compliant("s".to_string()).message, "Schema Compliant Error");
    assert_eq!(ProjectDeploymentError::creation_failed().code, "PDE00");
    let e = RequestError::path_parameter("id".to_string());
    assert_eq!(e.details, "Path parameter error id");
    assert_eq!(RequestError::internal().code, "ISE00");
}

#[test]
fn responses_and_requests() {
    let h = ResponseHeaders::default();
    assert_eq!(h.content_type, "application/json");
    assert_eq!(Response::ok().status_code, 204);
    assert_eq!(Response::with_body("{}".to_string(), 201).body, "{}");
    let list = ResponseGenericList::new(vec![1, 2, 3]);
    assert_eq!(list.count, 3);
    let ps = vec![("uuid".to_string(), "abc".to_string())];
    assert_eq!(Request::path_parameter("uuid", Some(&ps)).unwrap(), "abc");
    assert_eq!(Request::path_parameter("x", Some(&ps)).unwrap_err().to_string(), "Path parameter error: Path parameter \"x\" not found");
    assert_eq!(Request::path_parameter("x", None).unwrap_err().error, "No path parameters found");
}

#[test]
fn configuration_fallback() {
    assert_eq!(resolve_env_var("A", Some("v".to_string()), Some("d")).unwrap(), "v");
    assert_eq!(resolve_env_var("Undefined", None, Some("default_value")).unwrap(), "default_value");
    assert_eq!(resolve_env_var("Undefined", None, None).unwrap_err().to_string(), "Missing required env var: Undefined");
}
