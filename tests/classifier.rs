use buildor::codebuild::BuildInfoParser;
use buildor::phase::{BuildPhase, BuildPhaseStatus, ProjectDeploymentPhase};

#[test]
fn build_phase_tokens_round_trip() {
    let all = [
        BuildPhase::Submitted,
        BuildPhase::Provisioning,
        BuildPhase::DownloadSource,
        BuildPhase::Install,
        BuildPhase::PreBuild,
        BuildPhase::Build,
        BuildPhase::PostBuild,
        BuildPhase::UploadArtifacts,
        BuildPhase::Finalizing,
        BuildPhase::Unknown,
    ];
    for p in all {
        assert_eq!(BuildPhase::from_str(&p.to_string()), p);
    }
    assert_eq!(BuildPhase::PreBuild.to_string(), "PRE_BUILD");
    assert_eq!(BuildPhase::Unknown.to_string(), "UNKNOWN");
}

#[test]
fn build_phase_status_tokens_round_trip() {
    let all = [
        BuildPhaseStatus::TimedOut,
        BuildPhaseStatus::Stopped,
        BuildPhaseStatus::Failed,
        BuildPhaseStatus::Succeeded,
        BuildPhaseStatus::Fault,
        BuildPhaseStatus::ClientError,
        BuildPhaseStatus::Unknown,
    ];
    for p in all {
        assert_eq!(BuildPhaseStatus::from_str(&p.to_string()), p);
    }
    assert_eq!(BuildPhaseStatus::ClientError.to_string(), "CLIENT_ERROR");
}

#[test]
fn deployment_phase_tokens_round_trip() {
    for p in [ProjectDeploymentPhase::Building, ProjectDeploymentPhase::Deployment, ProjectDeploymentPhase::Unknown] {
        assert_eq!(ProjectDeploymentPhase::from_str(&p.to_string()), p);
    }
    assert_eq!(ProjectDeploymentPhase::Building.to_string(), "BUILDING");
}

#[test]
fn unrecognized_tokens_are_unknown() {
    for t in ["", "pre_build", "PRE-BUILD", "SUCCEEDED ", "-"] {
        assert_eq!(BuildPhase::from_str(t), BuildPhase::Unknown);
    }
    assert_eq!(BuildPhaseStatus::from_str("OK"), BuildPhaseStatus::Unknown);
    assert_eq!(ProjectDeploymentPhase::from_str("building"), ProjectDeploymentPhase::Unknown);
}

#[test]
fn classify_by_configured_job() {
    let b = "build-job".to_string();
    let d = "deploy-job".to_string();
    assert_eq!(
        BuildInfoParser::deployment_phase(Some("build-job".to_string()), b.clone(), d.clone()),
        ProjectDeploymentPhase::Building
    );
    assert_eq!(
        BuildInfoParser::deployment_phase(Some("deploy-job".to_string()), b.clone(), d.clone()),
        ProjectDeploymentPhase::Deployment
    );
    assert_eq!(
        BuildInfoParser::deployment_phase(Some("other".to_string()), b.clone(), d.clone()),
        ProjectDeploymentPhase::Unknown
    );
    assert_eq!(BuildInfoParser::deployment_phase(None, b, d), ProjectDeploymentPhase::Unknown);
}

#[test]
fn classify_is_idempotent_on_rendered_tokens() {
    for (b, d) in [("x", "y"), ("build-job", "deploy-job"), ("", "")] {
        for p in [ProjectDeploymentPhase::Building, ProjectDeploymentPhase::Deployment] {
            let again = BuildInfoParser::deployment_phase(Some(p.to_string()), b.to_string(), d.to_string());
            assert_eq!(again, p);
        }
    }
}

#[test]
fn rendered_tokens_win_over_configured_ids() {
    let phase = BuildInfoParser::deployment_phase(
        Some("DEPLOYMENT".to_string()),
        "DEPLOYMENT".to_string(),
        "BUILDING".to_string(),
    );
    assert_eq!(phase, ProjectDeploymentPhase::Deployment);
    let phase = BuildInfoParser::deployment_phase(
        Some("BUILDING".to_string()),
        "DEPLOYMENT".to_string(),
        "BUILDING".to_string(),
    );
    assert_eq!(phase, ProjectDeploymentPhase::Building);
    let first = BuildInfoParser::deployment_phase(Some("deploy-job".to_string()), "b".to_string(), "deploy-job".to_string());
    let again = BuildInfoParser::deployment_phase(Some(first.to_string()), "DEPLOYMENT".to_string(), "x".to_string());
    assert_eq!(again, first);
}
