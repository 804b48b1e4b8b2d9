use buildor::codebuild::{
    get_build_info, last_segment_of, parse_build_info, BuildExecution, BuildInfoParser, BuildObject,
    BuildTriggerError, CodeBuildHandler, PhaseChangeEvent, RawPhaseChangeEvent, StartBuildOutput,
};
use buildor::commands::Commands;
use buildor::document::{AttributeValue, Document};
use buildor::phase::{BuildPhase, BuildPhaseStatus, ProjectDeploymentPhase};
use buildor::project::{Project, ProjectCreatePayload};
use buildor::text::{i64_to_text, text_to_i64};

fn execution(id: &str) -> BuildExecution {
    BuildExecution {
        id: Some(id.to_string()),
        build_number: None,
        start_time: None,
        end_time: None,
        project_name: None,
        current_phase: None,
        build_status: None,
    }
}

fn handler() -> CodeBuildHandler {
    CodeBuildHandler::new("build-job".to_string(), "deploy-job".to_string())
}

fn project() -> Project {
    let payload = ProjectCreatePayload {
        name: "site".to_string(),
        repository: "https://example.com/site.git".to_string(),
        commands: Some(Commands::new(Some(vec!["npm ci".to_string()]), Some(vec!["npm run build".to_string()]))),
        output_folder: Some("out".to_string()),
    };
    Project::new_with(payload, "prj1".to_string(), "2024-01-01T00:00:00+00:00".to_string())
}

#[test]
fn start_response_is_normalized() {
    let mut b = execution("proj:abc-123");
    b.current_phase = Some("PRE_BUILD".to_string());
    let out = StartBuildOutput { build: Some(b) };
    let info = get_build_info(&BuildObject::StartBuildOutput(out), "build-job", "deploy-job").unwrap();
    assert_eq!(info.uuid, "abc-123");
    assert_eq!(info.current_phase, Some(BuildPhase::PreBuild));
    assert_eq!(info.build_status, Some(BuildPhaseStatus::Unknown));
    assert_eq!(info.build_number, None);
    assert_eq!(info.deployment_phase, Some(ProjectDeploymentPhase::Unknown));
}

#[test]
fn execution_fields_are_copied_and_classified() {
    let mut b = execution("build-job:x:y");
    b.build_number = Some(12);
    b.start_time = Some(1000);
    b.end_time = Some(2000);
    b.project_name = Some("build-job".to_string());
    b.build_status = Some("SUCCEEDED".to_string());
    let info = parse_build_info(&b, "build-job", "deploy-job").unwrap();
    assert_eq!(info.uuid, "y");
    assert_eq!(info.build_number, Some(12));
    assert_eq!(info.start_time, Some(1000));
    assert_eq!(info.end_time, Some(2000));
    assert_eq!(info.current_phase, None);
    assert_eq!(info.build_status, Some(BuildPhaseStatus::Succeeded));
    assert_eq!(info.deployment_phase, Some(ProjectDeploymentPhase::Building));
}

#[test]
fn list_shapes_use_the_first_execution() {
    let none = get_build_info(&BuildObject::Builds(Some(vec![])), "a", "b");
    assert!(none.is_none());
    assert!(get_build_info(&BuildObject::Builds(None), "a", "b").is_none());
    let first = get_build_info(&BuildObject::Builds(Some(vec![execution("j:1"), execution("j:2")])), "a", "b");
    assert_eq!(first.unwrap().uuid, "1");
    let no_id = BuildExecution { id: None, ..execution("") };
    assert!(get_build_info(&BuildObject::Build(no_id), "a", "b").is_none());
}

#[test]
fn last_segment_cases() {
    assert_eq!(last_segment_of("proj:abc-123"), "abc-123");
    assert_eq!(last_segment_of("plain"), "plain");
    assert_eq!(last_segment_of("ends:"), "");
    assert_eq!(last_segment_of(""), "");
}

#[test]
fn job_commands_are_composed() {
    let p = project();
    assert_eq!(
        CodeBuildHandler::pre_build_commands(&p),
        vec!["####### Install Project Dependencies #######", "cd $PROJECT_NAME", "npm ci"]
    );
    assert_eq!(
        CodeBuildHandler::build_commands(&p),
        vec!["echo Build project", "npm run build", "mv out ../dist"]
    );
}

#[test]
fn job_specification_embeds_commands_and_artifact_name() {
    let p = project();
    let spec = CodeBuildHandler::build_spec(&p, "T");
    assert!(spec.contains("\"pre_build\": {\"commands\": [\"####### Install Project Dependencies #######\",\"cd $PROJECT_NAME\",\"npm ci\"]}"));
    assert!(spec.contains("\"build\": {\"commands\": [\"echo Build project\",\"npm run build\",\"mv out ../dist\"]}"));
    assert!(spec.contains("\"name\": \"site-dist-T.zip\""));
    assert!(spec.contains("git clone $REPO_URL $PROJECT_NAME"));
    assert!(spec.starts_with("{") && spec.ends_with("}}"));
}

#[test]
fn start_request_targets_building_job() {
    let p = project();
    let req = handler().start_build_request(&p, "T");
    assert_eq!(req.project_name, "build-job");
    assert_eq!(req.environment.len(), 2);
    assert_eq!(req.environment[0].name, "PROJECT_NAME");
    assert_eq!(req.environment[0].value, "site");
    assert_eq!(req.environment[1].name, "REPO_URL");
    assert_eq!(req.environment[1].value, "https://example.com/site.git");
    assert_eq!(req.buildspec, CodeBuildHandler::build_spec(&p, "T"));
}

#[test]
fn create_result_tells_failures_apart() {
    let h = handler();
    match h.create_result(Err("denied".to_string())) {
        Err(BuildTriggerError::NotSubmitted(e)) => assert_eq!(e.msg, "denied"),
        other => panic!("unexpected {:?}", other),
    }
    match h.create_result(Ok(StartBuildOutput { build: None })) {
        Err(BuildTriggerError::SubmittedNotNormalized(e)) => {
            assert_eq!(e.msg, "Failed to parse build result into BuildInfo")
        }
        other => panic!("unexpected {:?}", other),
    }
    let mut b = execution("build-job:b1");
    b.project_name = Some("deploy-job".to_string());
    let info = h.create_result(Ok(StartBuildOutput { build: Some(b) })).unwrap();
    assert_eq!(info.uuid, "b1");
    assert_eq!(info.deployment_phase, Some(ProjectDeploymentPhase::Deployment));
}

#[test]
fn get_composes_ids_and_reads_first_build() {
    let h = handler();
    assert_eq!(h.build_ids("abc"), vec!["build-job:abc".to_string()]);
    assert!(h.get_result(Ok(Some(vec![]))).unwrap().is_none());
    assert_eq!(h.get_result(Ok(Some(vec![execution("build-job:abc")]))).unwrap().unwrap().uuid, "abc");
    assert_eq!(h.get_result(Err("down".to_string())).unwrap_err().msg, "down");
}

#[test]
fn phase_change_event_gives_build_info() {
    let event = PhaseChangeEvent {
        build_id: "arn:aws:codebuild:region:1:build/deploy-job:uuid-9".to_string(),
        build_number: Some(4),
        start_time: None,
        end_time: Some(5),
        completed_phase: Some("INSTALL".to_string()),
        completed_phase_status: None,
        project_name: Some("deploy-job".to_string()),
    };
    let info = handler().phase_change_build_info(&event);
    assert_eq!(info.uuid, "uuid-9");
    assert_eq!(info.current_phase, Some(BuildPhase::Install));
    assert_eq!(info.build_status, Some(BuildPhaseStatus::Unknown));
    assert_eq!(info.deployment_phase, Some(ProjectDeploymentPhase::Deployment));
    assert_eq!(info.build_number, Some(4));
}

#[test]
fn decimal_text_cases() {
    assert_eq!(i64_to_text(0), "0");
    assert_eq!(i64_to_text(-123), "-123");
    assert_eq!(i64_to_text(i64::MIN), "-9223372036854775808");
    assert_eq!(i64_to_text(i64::MAX), "9223372036854775807");
    assert_eq!(text_to_i64("+42"), Some(42));
    assert_eq!(text_to_i64("-9223372036854775808"), Some(i64::MIN));
    assert_eq!(text_to_i64("9223372036854775808"), None);
    assert_eq!(text_to_i64(""), None);
    assert_eq!(text_to_i64("-"), None);
    assert_eq!(text_to_i64("1x"), None);
    for n in [1i64, 7, 10, 99, 1_000_000, -5, i64::MAX, i64::MIN] {
        assert_eq!(text_to_i64(&i64_to_text(n)), Some(n));
    }
}

#[test]
fn stored_build_is_read_back_normalized() {
    let b = buildor::codebuild::BuildInfo {
        uuid: "b1".to_string(),
        build_number: None,
        start_time: Some(-7),
        end_time: None,
        deployment_phase: Some(ProjectDeploymentPhase::Building),
        current_phase: None,
        build_status: Some(BuildPhaseStatus::Failed),
    };
    let back = BuildInfoParser::parse(b.as_hashmap()).unwrap();
    assert_eq!(back.uuid, "b1");
    assert_eq!(back.build_number, Some(0));
    assert_eq!(back.start_time, Some(-7));
    assert_eq!(back.end_time, Some(0));
    assert_eq!(back.deployment_phase, Some(ProjectDeploymentPhase::Building));
    assert_eq!(back.current_phase, Some(BuildPhase::Unknown));
    assert_eq!(back.build_status, Some(BuildPhaseStatus::Failed));
}

#[test]
fn unparseable_number_reads_as_zero() {
    let mut d = Document::new();
    d.insert("uuid".to_string(), AttributeValue::S("u".to_string()));
    d.insert("build_number".to_string(), AttributeValue::N("twelve".to_string()));
    d.insert("start_time".to_string(), AttributeValue::N("1".to_string()));
    d.insert("end_time".to_string(), AttributeValue::N("2".to_string()));
    d.insert("deployment_phase".to_string(), AttributeValue::S("-".to_string()));
    d.insert("current_phase".to_string(), AttributeValue::S("BUILD".to_string()));
    d.insert("build_status".to_string(), AttributeValue::S("FAULT".to_string()));
    let b = BuildInfoParser::parse(d).unwrap();
    assert_eq!(b.build_number, Some(0));
    assert_eq!(b.current_phase, Some(BuildPhase::Build));
    assert_eq!(b.build_status, Some(BuildPhaseStatus::Fault));
}

fn raw_event(start: Option<&str>, time: Option<&str>) -> RawPhaseChangeEvent {
    RawPhaseChangeEvent {
        build_id: "build-job:b7".to_string(),
        build_number: Some(1),
        build_start_time: start.map(|s| s.to_string()),
        time: time.map(|s| s.to_string()),
        completed_phase: Some("BUILD".to_string()),
        completed_phase_status: Some("SUCCEEDED".to_string()),
        project_name: Some("build-job".to_string()),
    }
}

#[test]
fn raw_event_times_are_read() {
    let info = handler()
        .phase_change_from_raw(raw_event(Some("Jan 02, 2024 03:04:05 PM"), Some("2024-01-02T15:10:00Z")))
        .unwrap();
    assert_eq!(info.uuid, "b7");
    assert_eq!(info.start_time, Some(1704207845000));
    assert_eq!(info.end_time, Some(1704208200000));
    assert_eq!(info.current_phase, Some(BuildPhase::Build));
    assert_eq!(info.build_status, Some(BuildPhaseStatus::Succeeded));
    assert_eq!(info.deployment_phase, Some(ProjectDeploymentPhase::Building));
    let none = handler().phase_change_from_raw(raw_event(None, None)).unwrap();
    assert_eq!(none.start_time, None);
    assert_eq!(none.end_time, None);
}

#[test]
fn raw_event_with_unreadable_time_fails() {
    assert!(handler().phase_change_from_raw(raw_event(Some("yesterday"), None)).is_err());
    assert!(handler().phase_change_from_raw(raw_event(None, Some("2024-13-40"))).is_err());
}
