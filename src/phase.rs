//! The three classification enumerations and their textual tokens.
use vstd::prelude::*;
use crate::text::{same_text, owned};

verus! {

/// One step of a single build execution.
#[derive(Debug, Clone, Copy, PartialEq, Eq, Structural)]
pub enum BuildPhase {
    Submitted,
    Provisioning,
    DownloadSource,
    Install,
    PreBuild,
    Build,
    PostBuild,
    UploadArtifacts,
    Finalizing,
    Unknown,
}

/// The token that names a build phase.
pub open spec fn build_phase_token(p: BuildPhase) -> Seq<char> {
    match p {
        BuildPhase::Submitted => "SUBMITTED"@,
        BuildPhase::Provisioning => "PROVISIONING"@,
        BuildPhase::DownloadSource => "DOWNLOAD_SOURCE"@,
        BuildPhase::Install => "INSTALL"@,
        BuildPhase::PreBuild => "PRE_BUILD"@,
        BuildPhase::Build => "BUILD"@,
        BuildPhase::PostBuild => "POST_BUILD"@,
        BuildPhase::UploadArtifacts => "UPLOAD_ARTIFACTS"@,
        BuildPhase::Finalizing => "FINALIZING"@,
        BuildPhase::Unknown => "UNKNOWN"@,
    }
}

/// The build phase that a token names; `Unknown` for any other text.
pub open spec fn build_phase_of(s: Seq<char>) -> BuildPhase {
    if s == "SUBMITTED"@ {
        BuildPhase::Submitted
    } else if s == "PROVISIONING"@ {
        BuildPhase::Provisioning
    } else if s == "DOWNLOAD_SOURCE"@ {
        BuildPhase::DownloadSource
    } else if s == "INSTALL"@ {
        BuildPhase::Install
    } else if s == "PRE_BUILD"@ {
        BuildPhase::PreBuild
    } else if s == "BUILD"@ {
        BuildPhase::Build
    } else if s == "POST_BUILD"@ {
        BuildPhase::PostBuild
    } else if s == "UPLOAD_ARTIFACTS"@ {
        BuildPhase::UploadArtifacts
    } else if s == "FINALIZING"@ {
        BuildPhase::Finalizing
    } else {
        BuildPhase::Unknown
    }
}

impl BuildPhase {
    /// Reads a phase token; text that names no phase gives `Unknown`.
    pub fn from_str(input: &str) -> (r: BuildPhase)
        ensures
            r == build_phase_of(input@),
    {
        if same_text(input, "SUBMITTED") {
            BuildPhase::Submitted
        } else if same_text(input, "PROVISIONING") {
            BuildPhase::Provisioning
        } else if same_text(input, "DOWNLOAD_SOURCE") {
            BuildPhase::DownloadSource
        } else if same_text(input, "INSTALL") {
            BuildPhase::Install
        } else if same_text(input, "PRE_BUILD") {
            BuildPhase::PreBuild
        } else if same_text(input, "BUILD") {
            BuildPhase::Build
        } else if same_text(input, "POST_BUILD") {
            BuildPhase::PostBuild
        } else if same_text(input, "UPLOAD_ARTIFACTS") {
            BuildPhase::UploadArtifacts
        } else if same_text(input, "FINALIZING") {
            BuildPhase::Finalizing
        } else {
            BuildPhase::Unknown
        }
    }

    /// The token of this phase.
    pub fn to_string(&self) -> (r: String)
        ensures
            r@ == build_phase_token(*self),
    {
        match self {
            BuildPhase::Submitted => owned("SUBMITTED"),
            BuildPhase::Provisioning => owned("PROVISIONING"),
            BuildPhase::DownloadSource => owned("DOWNLOAD_SOURCE"),
            BuildPhase::Install => owned("INSTALL"),
            BuildPhase::PreBuild => owned("PRE_BUILD"),
            BuildPhase::Build => owned("BUILD"),
            BuildPhase::PostBuild => owned("POST_BUILD"),
            BuildPhase::UploadArtifacts => owned("UPLOAD_ARTIFACTS"),
            BuildPhase::Finalizing => owned("FINALIZING"),
            BuildPhase::Unknown => owned("UNKNOWN"),
        }
    }
}

/// Reading the token of a phase gives that phase back.
pub proof fn lemma_build_phase_round_trip(p: BuildPhase)
    ensures
        build_phase_of(build_phase_token(p)) == p,
{
    reveal_strlit("SUBMITTED");
    reveal_strlit("PROVISIONING");
    reveal_strlit("DOWNLOAD_SOURCE");
    reveal_strlit("INSTALL");
    reveal_strlit("PRE_BUILD");
    reveal_strlit("BUILD");
    reveal_strlit("POST_BUILD");
    reveal_strlit("UPLOAD_ARTIFACTS");
    reveal_strlit("FINALIZING");
    reveal_strlit("UNKNOWN");
    assert("SUBMITTED"@.len() == 9 && "SUBMITTED"@[0] == 'S');
    assert("PROVISIONING"@.len() == 12 && "PROVISIONING"@[0] == 'P');
    assert("DOWNLOAD_SOURCE"@.len() == 15 && "DOWNLOAD_SOURCE"@[0] == 'D');
    assert("INSTALL"@.len() == 7 && "INSTALL"@[0] == 'I');
    assert("PRE_BUILD"@.len() == 9 && "PRE_BUILD"@[0] == 'P');
    assert("BUILD"@.len() == 5 && "BUILD"@[0] == 'B');
    assert("POST_BUILD"@.len() == 10 && "POST_BUILD"@[0] == 'P');
    assert("UPLOAD_ARTIFACTS"@.len() == 16 && "UPLOAD_ARTIFACTS"@[0] == 'U');
    assert("FINALIZING"@.len() == 10 && "FINALIZING"@[0] == 'F');
    assert("UNKNOWN"@.len() == 7 && "UNKNOWN"@[0] == 'U');
}

/// Outcome of the most recently completed phase of a build.
#[derive(Debug, Clone, Copy, PartialEq, Eq, Structural)]
pub enum BuildPhaseStatus {
    TimedOut,
    Stopped,
    Failed,
    Succeeded,
    Fault,
    ClientError,
    Unknown,
}

/// The token that names a value of `BuildPhaseStatus`.
pub open spec fn build_phase_status_token(p: BuildPhaseStatus) -> Seq<char> {
    match p {
        BuildPhaseStatus::TimedOut => "TIMED_OUT"@,
        BuildPhaseStatus::Stopped => "STOPPED"@,
        BuildPhaseStatus::Failed => "FAILED"@,
        BuildPhaseStatus::Succeeded => "SUCCEEDED"@,
        BuildPhaseStatus::Fault => "FAULT"@,
        BuildPhaseStatus::ClientError => "CLIENT_ERROR"@,
        BuildPhaseStatus::Unknown => "UNKNOWN"@,
    }
}

/// The value of `BuildPhaseStatus` that a token names; `Unknown` for any other text.
pub open spec fn build_phase_status_of(s: Seq<char>) -> BuildPhaseStatus {
    if s == "TIMED_OUT"@ {
        BuildPhaseStatus::TimedOut
    } else if s == "STOPPED"@ {
        BuildPhaseStatus::Stopped
    } else if s == "FAILED"@ {
        BuildPhaseStatus::Failed
    } else if s == "SUCCEEDED"@ {
        BuildPhaseStatus::Succeeded
    } else if s == "FAULT"@ {
        BuildPhaseStatus::Fault
    } else if s == "CLIENT_ERROR"@ {
        BuildPhaseStatus::ClientError
    } else {
        BuildPhaseStatus::Unknown
    }
}

impl BuildPhaseStatus {
    /// Reads a token; text that names no value gives `Unknown`.
    pub fn from_str(input: &str) -> (r: BuildPhaseStatus)
        ensures
            r == build_phase_status_of(input@),
    {
        if same_text(input, "TIMED_OUT") {
            BuildPhaseStatus::TimedOut
        } else if same_text(input, "STOPPED") {
            BuildPhaseStatus::Stopped
        } else if same_text(input, "FAILED") {
            BuildPhaseStatus::Failed
        } else if same_text(input, "SUCCEEDED") {
            BuildPhaseStatus::Succeeded
        } else if same_text(input, "FAULT") {
            BuildPhaseStatus::Fault
        } else if same_text(input, "CLIENT_ERROR") {
            BuildPhaseStatus::ClientError
        } else {
            BuildPhaseStatus::Unknown
        }
    }

    /// The token of this value.
    pub fn to_string(&self) -> (r: String)
        ensures
            r@ == build_phase_status_token(*self),
    {
        match self {
            BuildPhaseStatus::TimedOut => owned("TIMED_OUT"),
            BuildPhaseStatus::Stopped => owned("STOPPED"),
            BuildPhaseStatus::Failed => owned("FAILED"),
            BuildPhaseStatus::Succeeded => owned("SUCCEEDED"),
            BuildPhaseStatus::Fault => owned("FAULT"),
            BuildPhaseStatus::ClientError => owned("CLIENT_ERROR"),
            BuildPhaseStatus::Unknown => owned("UNKNOWN"),
        }
    }
}

/// Reading the token of a value gives that value back.
pub proof fn lemma_build_phase_status_round_trip(p: BuildPhaseStatus)
    ensures
        build_phase_status_of(build_phase_status_token(p)) == p,
{
    reveal_strlit("TIMED_OUT");
    reveal_strlit("STOPPED");
    reveal_strlit("FAILED");
    reveal_strlit("SUCCEEDED");
    reveal_strlit("FAULT");
    reveal_strlit("CLIENT_ERROR");
    reveal_strlit("UNKNOWN");
    assert("TIMED_OUT"@.len() == 9 && "TIMED_OUT"@[0] == 'T');
    assert("STOPPED"@.len() == 7 && "STOPPED"@[0] == 'S');
    assert("FAILED"@.len() == 6 && "FAILED"@[0] == 'F');
    assert("SUCCEEDED"@.len() == 9 && "SUCCEEDED"@[0] == 'S');
    assert("FAULT"@.len() == 5 && "FAULT"@[0] == 'F');
    assert("CLIENT_ERROR"@.len() == 12 && "CLIENT_ERROR"@[0] == 'C');
    assert("UNKNOWN"@.len() == 7 && "UNKNOWN"@[0] == 'U');
}

/// Which configured build job produced an execution: the building stage or the deployment stage.
#[derive(Debug, Clone, Copy, PartialEq, Eq, Structural)]
pub enum ProjectDeploymentPhase {
    Building,
    Deployment,
    Unknown,
}

/// The token that names a value of `ProjectDeploymentPhase`.
pub open spec fn deployment_phase_token(p: ProjectDeploymentPhase) -> Seq<char> {
    match p {
        ProjectDeploymentPhase::Building => "BUILDING"@,
        ProjectDeploymentPhase::Deployment => "DEPLOYMENT"@,
        ProjectDeploymentPhase::Unknown => "UNKNOWN"@,
    }
}

/// The value of `ProjectDeploymentPhase` that a token names; `Unknown` for any other text.
pub open spec fn deployment_phase_of_token(s: Seq<char>) -> ProjectDeploymentPhase {
    if s == "BUILDING"@ {
        ProjectDeploymentPhase::Building
    } else if s == "DEPLOYMENT"@ {
        ProjectDeploymentPhase::Deployment
    } else {
        ProjectDeploymentPhase::Unknown
    }
}

impl ProjectDeploymentPhase {
    /// Reads a token; text that names no value gives `Unknown`.
    pub fn from_str(input: &str) -> (r: ProjectDeploymentPhase)
        ensures
            r == deployment_phase_of_token(input@),
    {
        if same_text(input, "BUILDING") {
            ProjectDeploymentPhase::Building
        } else if same_text(input, "DEPLOYMENT") {
            ProjectDeploymentPhase::Deployment
        } else {
            ProjectDeploymentPhase::Unknown
        }
    }

    /// The token of this value.
    pub fn to_string(&self) -> (r: String)
        ensures
            r@ == deployment_phase_token(*self),
    {
        match self {
            ProjectDeploymentPhase::Building => owned("BUILDING"),
            ProjectDeploymentPhase::Deployment => owned("DEPLOYMENT"),
            ProjectDeploymentPhase::Unknown => owned("UNKNOWN"),
        }
    }
}

/// Reading the token of a value gives that value back.
pub proof fn lemma_deployment_phase_round_trip(p: ProjectDeploymentPhase)
    ensures
        deployment_phase_of_token(deployment_phase_token(p)) == p,
{
    reveal_strlit("BUILDING");
    reveal_strlit("DEPLOYMENT");
    reveal_strlit("UNKNOWN");
    assert("BUILDING"@.len() == 8 && "BUILDING"@[0] == 'B');
    assert("DEPLOYMENT"@.len() == 10 && "DEPLOYMENT"@[0] == 'D');
    assert("UNKNOWN"@.len() == 7 && "UNKNOWN"@[0] == 'U');
}

/// The stage that produced an execution, from the job identifier it reports.
/// An identifier that is already a rendered token keeps its stage: `BUILDING`
/// gives `Building` and `DEPLOYMENT` gives `Deployment`, whatever jobs are
/// configured. Otherwise an identifier equal to the configured building job gives
/// `Building`, one equal to the configured deployment job gives `Deployment`, and
/// anything else, or no identifier, gives `Unknown`.
pub open spec fn classify_deployment_phase(
    value: Option<Seq<char>>,
    building: Seq<char>,
    deployment: Seq<char>,
) -> ProjectDeploymentPhase {
    match value {
        None => ProjectDeploymentPhase::Unknown,
        Some(v) => if v == "BUILDING"@ {
            ProjectDeploymentPhase::Building
        } else if v == "DEPLOYMENT"@ {
            ProjectDeploymentPhase::Deployment
        } else if v == building {
            ProjectDeploymentPhase::Building
        } else if v == deployment {
            ProjectDeploymentPhase::Deployment
        } else {
            ProjectDeploymentPhase::Unknown
        },
    }
}

/// Classifying the token of an already classified stage gives that stage again.
/// For `Building` and `Deployment` this holds whatever job identifiers are
/// configured; `Unknown` stays `Unknown` unless a configured job is itself named
/// `UNKNOWN`.
pub proof fn lemma_classify_idempotent(
    p: ProjectDeploymentPhase,
    building: Seq<char>,
    deployment: Seq<char>,
)
    requires
        p == ProjectDeploymentPhase::Unknown ==> building != "UNKNOWN"@ && deployment != "UNKNOWN"@,
    ensures
        classify_deployment_phase(Some(deployment_phase_token(p)), building, deployment) == p,
{
    reveal_strlit("BUILDING");
    reveal_strlit("DEPLOYMENT");
    reveal_strlit("UNKNOWN");
    assert("BUILDING"@.len() == 8);
    assert("DEPLOYMENT"@.len() == 10);
    assert("UNKNOWN"@.len() == 7);
}

/// Re-classifying the result of a classification gives the same stage, under
/// any configured job identifiers, once that result is a known stage.
pub proof fn lemma_reclassify_keeps_stage(
    value: Option<Seq<char>>,
    building: Seq<char>,
    deployment: Seq<char>,
    building2: Seq<char>,
    deployment2: Seq<char>,
)
    requires
        classify_deployment_phase(value, building, deployment) != ProjectDeploymentPhase::Unknown,
    ensures
        classify_deployment_phase(
            Some(deployment_phase_token(classify_deployment_phase(value, building, deployment))),
            building2,
            deployment2,
        ) == classify_deployment_phase(value, building, deployment),
{
    lemma_classify_idempotent(classify_deployment_phase(value, building, deployment), building2, deployment2);
}

/// Text that is the token of no known build phase reads as `Unknown`.
pub proof fn lemma_unrecognized_build_phase(s: Seq<char>)
    requires
        forall|p: BuildPhase| p != BuildPhase::Unknown ==> s != build_phase_token(p),
    ensures
        build_phase_of(s) == BuildPhase::Unknown,
{
    assert(s != build_phase_token(BuildPhase::Submitted));
    assert(s != build_phase_token(BuildPhase::Provisioning));
    assert(s != build_phase_token(BuildPhase::DownloadSource));
    assert(s != build_phase_token(BuildPhase::Install));
    assert(s != build_phase_token(BuildPhase::PreBuild));
    assert(s != build_phase_token(BuildPhase::Build));
    assert(s != build_phase_token(BuildPhase::PostBuild));
    assert(s != build_phase_token(BuildPhase::UploadArtifacts));
    assert(s != build_phase_token(BuildPhase::Finalizing));
}

/// Text that is the token of no known status reads as `Unknown`.
pub proof fn lemma_unrecognized_build_phase_status(s: Seq<char>)
    requires
        forall|p: BuildPhaseStatus| p != BuildPhaseStatus::Unknown ==> s != build_phase_status_token(p),
    ensures
        build_phase_status_of(s) == BuildPhaseStatus::Unknown,
{
    assert(s != build_phase_status_token(BuildPhaseStatus::TimedOut));
    assert(s != build_phase_status_token(BuildPhaseStatus::Stopped));
    assert(s != build_phase_status_token(BuildPhaseStatus::Failed));
    assert(s != build_phase_status_token(BuildPhaseStatus::Succeeded));
    assert(s != build_phase_status_token(BuildPhaseStatus::Fault));
    assert(s != build_phase_status_token(BuildPhaseStatus::ClientError));
}

/// Text that is the token of no known stage reads as `Unknown`.
pub proof fn lemma_unrecognized_deployment_phase(s: Seq<char>)
    requires
        s != deployment_phase_token(ProjectDeploymentPhase::Building),
        s != deployment_phase_token(ProjectDeploymentPhase::Deployment),
    ensures
        deployment_phase_of_token(s) == ProjectDeploymentPhase::Unknown,
{
}

/// The placeholder `-`, stored for an absent value, reads as `Unknown` in all
/// three enumerations.
pub proof fn lemma_placeholder_is_unknown()
    ensures
        build_phase_of("-"@) == BuildPhase::Unknown,
        build_phase_status_of("-"@) == BuildPhaseStatus::Unknown,
        deployment_phase_of_token("-"@) == ProjectDeploymentPhase::Unknown,
{
    reveal_strlit("-");
    reveal_strlit("SUBMITTED");
    reveal_strlit("PROVISIONING");
    reveal_strlit("DOWNLOAD_SOURCE");
    reveal_strlit("INSTALL");
    reveal_strlit("PRE_BUILD");
    reveal_strlit("BUILD");
    reveal_strlit("POST_BUILD");
    reveal_strlit("UPLOAD_ARTIFACTS");
    reveal_strlit("FINALIZING");
    reveal_strlit("UNKNOWN");
    reveal_strlit("TIMED_OUT");
    reveal_strlit("STOPPED");
    reveal_strlit("FAILED");
    reveal_strlit("SUCCEEDED");
    reveal_strlit("FAULT");
    reveal_strlit("CLIENT_ERROR");
    reveal_strlit("BUILDING");
    reveal_strlit("DEPLOYMENT");
    assert("SUBMITTED"@.len() == 9);
    assert("PROVISIONING"@.len() == 12);
    assert("DOWNLOAD_SOURCE"@.len() == 15);
    assert("INSTALL"@.len() == 7);
    assert("PRE_BUILD"@.len() == 9);
    assert("BUILD"@.len() == 5);
    assert("POST_BUILD"@.len() == 10);
    assert("UPLOAD_ARTIFACTS"@.len() == 16);
    assert("FINALIZING"@.len() == 10);
    assert("UNKNOWN"@.len() == 7);
    assert("TIMED_OUT"@.len() == 9);
    assert("STOPPED"@.len() == 7);
    assert("FAILED"@.len() == 6);
    assert("SUCCEEDED"@.len() == 9);
    assert("FAULT"@.len() == 5);
    assert("CLIENT_ERROR"@.len() == 12);
    assert("BUILDING"@.len() == 8);
    assert("DEPLOYMENT"@.len() == 10);
    assert("-"@.len() == 1);
}

} // verus!
