//! Build executions of the build service and their normalized form.
use vstd::prelude::*;
use crate::document::{AttributeValue, Document};
use crate::errors::MissingModelPropertyError;
use crate::fields::{number_field, number_text, read_number, read_text, text_field, texts};
use crate::phase::{
    build_phase_of, build_phase_status_of, build_phase_status_token, build_phase_token,
    classify_deployment_phase, deployment_phase_of_token, deployment_phase_token,
    lemma_build_phase_round_trip, lemma_build_phase_status_round_trip,
    lemma_deployment_phase_round_trip, lemma_placeholder_is_unknown, BuildPhase, BuildPhaseStatus,
    ProjectDeploymentPhase,
};
use crate::clock::{now_rfc3339, build_clock_seconds, parse_build_clock, parse_rfc3339, rfc3339_seconds};
use crate::errors::{ExecutionError, HandlerError};
use crate::project::{Project, ProjectView};
use crate::text::{decimal_text, i64_to_text, join2, lemma_decimal_round_trip, owned, same_text};

verus! {

/// The normalized snapshot of one build execution.
#[derive(Debug)]
pub struct BuildInfo {
    pub uuid: String,
    pub build_number: Option<i64>,
    /// Start, in milliseconds since the epoch.
    pub start_time: Option<i64>,
    /// End, in milliseconds since the epoch.
    pub end_time: Option<i64>,
    pub deployment_phase: Option<ProjectDeploymentPhase>,
    pub current_phase: Option<BuildPhase>,
    pub build_status: Option<BuildPhaseStatus>,
}

/// The content of a `BuildInfo`.
pub struct BuildInfoView {
    pub uuid: Seq<char>,
    pub build_number: Option<i64>,
    pub start_time: Option<i64>,
    pub end_time: Option<i64>,
    pub deployment_phase: Option<ProjectDeploymentPhase>,
    pub current_phase: Option<BuildPhase>,
    pub build_status: Option<BuildPhaseStatus>,
}

impl View for BuildInfo {
    type V = BuildInfoView;

    open spec fn view(&self) -> BuildInfoView {
        BuildInfoView {
            uuid: self.uuid@,
            build_number: self.build_number,
            start_time: self.start_time,
            end_time: self.end_time,
            deployment_phase: self.deployment_phase,
            current_phase: self.current_phase,
            build_status: self.build_status,
        }
    }
}

/// The number stored for an optional number: zero when absent.
pub open spec fn or_zero(n: Option<i64>) -> i64 {
    match n {
        Some(v) => v,
        None => 0,
    }
}

/// The text stored for an optional stage: its token, or `-` when absent.
pub open spec fn deployment_phase_text(p: Option<ProjectDeploymentPhase>) -> Seq<char> {
    match p {
        Some(v) => deployment_phase_token(v),
        None => "-"@,
    }
}

/// The text stored for an optional phase: its token, or `-` when absent.
pub open spec fn build_phase_text(p: Option<BuildPhase>) -> Seq<char> {
    match p {
        Some(v) => build_phase_token(v),
        None => "-"@,
    }
}

/// The text stored for an optional status: its token, or `-` when absent.
pub open spec fn build_phase_status_text(p: Option<BuildPhaseStatus>) -> Seq<char> {
    match p {
        Some(v) => build_phase_status_token(v),
        None => "-"@,
    }
}

/// The fields of a build document, in the order they are checked.
pub open spec fn build_info_fields() -> Seq<Seq<char>> {
    seq!["uuid"@, "build_number"@, "start_time"@, "end_time"@, "deployment_phase"@, "current_phase"@, "build_status"@]
}

/// `d` is the document form of the build `b`: absent numbers are stored as
/// zero and absent classifications as `-`.
pub open spec fn is_build_info_doc(d: Map<Seq<char>, AttributeValue>, b: BuildInfoView) -> bool {
    &&& d.dom() == build_info_fields().to_set()
    &&& text_field(d, "uuid"@) == Some(b.uuid)
    &&& number_text(d, "build_number"@) == Some(decimal_text(or_zero(b.build_number) as int))
    &&& number_text(d, "start_time"@) == Some(decimal_text(or_zero(b.start_time) as int))
    &&& number_text(d, "end_time"@) == Some(decimal_text(or_zero(b.end_time) as int))
    &&& text_field(d, "deployment_phase"@) == Some(deployment_phase_text(b.deployment_phase))
    &&& text_field(d, "current_phase"@) == Some(build_phase_text(b.current_phase))
    &&& text_field(d, "build_status"@) == Some(build_phase_status_text(b.build_status))
}

/// Field `k` of a build document is present with the right shape.
pub open spec fn build_info_field_ok(d: Map<Seq<char>, AttributeValue>, k: Seq<char>) -> bool {
    if k == "build_number"@ || k == "start_time"@ || k == "end_time"@ {
        number_field(d, k) is Some
    } else {
        text_field(d, k) is Some
    }
}

/// The build that a build document holds, or the name of the first field, in
/// declared order, that is absent or of another shape. Numbers that are no
/// 64-bit integer read as zero; classification tokens are read by the
/// classifier, so unknown text gives `Unknown`.
pub open spec fn build_info_of(d: Map<Seq<char>, AttributeValue>) -> Result<BuildInfoView, Seq<char>> {
    if text_field(d, "uuid"@) is None {
        Err("uuid"@)
    } else if number_field(d, "build_number"@) is None {
        Err("build_number"@)
    } else if number_field(d, "start_time"@) is None {
        Err("start_time"@)
    } else if number_field(d, "end_time"@) is None {
        Err("end_time"@)
    } else if text_field(d, "deployment_phase"@) is None {
        Err("deployment_phase"@)
    } else if text_field(d, "current_phase"@) is None {
        Err("current_phase"@)
    } else if text_field(d, "build_status"@) is None {
        Err("build_status"@)
    } else {
        Ok(
            BuildInfoView {
                uuid: text_field(d, "uuid"@)->Some_0,
                build_number: number_field(d, "build_number"@),
                start_time: number_field(d, "start_time"@),
                end_time: number_field(d, "end_time"@),
                deployment_phase: Some(deployment_phase_of_token(text_field(d, "deployment_phase"@)->Some_0)),
                current_phase: Some(build_phase_of(text_field(d, "current_phase"@)->Some_0)),
                build_status: Some(build_phase_status_of(text_field(d, "build_status"@)->Some_0)),
            },
        )
    }
}

/// What storing `b` and reading it back gives: absent numbers become zero and
/// absent classifications become `Unknown`.
pub open spec fn normalized_build_info(b: BuildInfoView) -> BuildInfoView {
    BuildInfoView {
        uuid: b.uuid,
        build_number: Some(or_zero(b.build_number)),
        start_time: Some(or_zero(b.start_time)),
        end_time: Some(or_zero(b.end_time)),
        deployment_phase: Some(
            match b.deployment_phase {
                Some(p) => p,
                None => ProjectDeploymentPhase::Unknown,
            },
        ),
        current_phase: Some(
            match b.current_phase {
                Some(p) => p,
                None => BuildPhase::Unknown,
            },
        ),
        build_status: Some(
            match b.build_status {
                Some(p) => p,
                None => BuildPhaseStatus::Unknown,
            },
        ),
    }
}

proof fn lemma_build_info_keys()
    ensures
        "uuid"@.len() == 4 && "uuid"@[0] == 'u' && "uuid"@[3] == 'd',
        "build_number"@.len() == 12 && "build_number"@[0] == 'b' && "build_number"@[6] == 'n',
        "start_time"@.len() == 10 && "start_time"@[0] == 's' && "start_time"@[6] == 't',
        "end_time"@.len() == 8 && "end_time"@[0] == 'e' && "end_time"@[6] == 'm',
        "deployment_phase"@.len() == 16 && "deployment_phase"@[0] == 'd' && "deployment_phase"@[6] == 'm',
        "current_phase"@.len() == 13 && "current_phase"@[0] == 'c' && "current_phase"@[6] == 't',
        "build_status"@.len() == 12 && "build_status"@[0] == 'b' && "build_status"@[6] == 's',
        build_info_fields() == seq!["uuid"@, "build_number"@, "start_time"@, "end_time"@, "deployment_phase"@, "current_phase"@, "build_status"@],
{
    reveal_strlit("uuid");
    reveal_strlit("build_number");
    reveal_strlit("start_time");
    reveal_strlit("end_time");
    reveal_strlit("deployment_phase");
    reveal_strlit("current_phase");
    reveal_strlit("build_status");
}

fn deployment_phase_value(p: Option<ProjectDeploymentPhase>) -> (r: String)
    ensures
        r@ == deployment_phase_text(p),
{
    match p {
        Some(v) => v.to_string(),
        None => owned("-"),
    }
}

fn build_phase_value(p: Option<BuildPhase>) -> (r: String)
    ensures
        r@ == build_phase_text(p),
{
    match p {
        Some(v) => v.to_string(),
        None => owned("-"),
    }
}

fn build_phase_status_value(p: Option<BuildPhaseStatus>) -> (r: String)
    ensures
        r@ == build_phase_status_text(p),
{
    match p {
        Some(v) => v.to_string(),
        None => owned("-"),
    }
}

fn number_value(n: Option<i64>) -> (r: String)
    ensures
        r@ == decimal_text(or_zero(n) as int),
{
    match n {
        Some(v) => i64_to_text(v),
        None => i64_to_text(0),
    }
}

impl BuildInfo {
    /// The document form of this build.
    pub fn as_hashmap(&self) -> (r: Document)
        ensures
            is_build_info_doc(r@, self@),
            r.key_seq() == build_info_fields(),
    {
        let mut map = Document::new();
        map.insert(owned("uuid"), AttributeValue::S(self.uuid.clone()));
        map.insert(owned("build_number"), AttributeValue::N(number_value(self.build_number)));
        map.insert(owned("start_time"), AttributeValue::N(number_value(self.start_time)));
        map.insert(owned("end_time"), AttributeValue::N(number_value(self.end_time)));
        map.insert(owned("deployment_phase"), AttributeValue::S(deployment_phase_value(self.deployment_phase)));
        map.insert(owned("current_phase"), AttributeValue::S(build_phase_value(self.current_phase)));
        map.insert(owned("build_status"), AttributeValue::S(build_phase_status_value(self.build_status)));
        proof {
            lemma_build_info_keys();
        }
        assert(map@.dom() =~= build_info_fields().to_set());
        map
    }

    /// This build as a nested document value.
    pub fn as_attr(&self) -> (r: AttributeValue)
        ensures
            r matches AttributeValue::M(d) && is_build_info_doc(d@, self@),
    {
        AttributeValue::M(self.as_hashmap())
    }
}

/// Reading the document form of a build gives it back, normalized.
pub proof fn lemma_build_info_round_trip(d: Map<Seq<char>, AttributeValue>, b: BuildInfoView)
    requires
        is_build_info_doc(d, b),
    ensures
        build_info_of(d) == Ok::<BuildInfoView, Seq<char>>(normalized_build_info(b)),
{
    lemma_decimal_round_trip(or_zero(b.build_number));
    lemma_decimal_round_trip(or_zero(b.start_time));
    lemma_decimal_round_trip(or_zero(b.end_time));
    lemma_placeholder_is_unknown();
    if let Some(p) = b.deployment_phase {
        lemma_deployment_phase_round_trip(p);
    }
    if let Some(p) = b.current_phase {
        lemma_build_phase_round_trip(p);
    }
    if let Some(p) = b.build_status {
        lemma_build_phase_status_round_trip(p);
    }
}

/// Build parsing fails fast in declared field order: when field `i` is absent
/// and every field before it is present with the right shape, the error names
/// field `i`, whatever else is absent after it.
pub proof fn lemma_build_info_fail_fast(d: Map<Seq<char>, AttributeValue>, i: int)
    requires
        0 <= i < build_info_fields().len(),
        !d.contains_key(build_info_fields()[i]),
        forall|j: int| 0 <= j < i ==> build_info_field_ok(d, #[trigger] build_info_fields()[j]),
    ensures
        build_info_of(d) == Err::<BuildInfoView, Seq<char>>(build_info_fields()[i]),
{
    lemma_build_info_keys();
    let f = build_info_fields();
    if i > 0 {
        assert(build_info_field_ok(d, f[0]));
    }
    if i > 1 {
        assert(build_info_field_ok(d, f[1]));
    }
    if i > 2 {
        assert(build_info_field_ok(d, f[2]));
    }
    if i > 3 {
        assert(build_info_field_ok(d, f[3]));
    }
    if i > 4 {
        assert(build_info_field_ok(d, f[4]));
    }
    if i > 5 {
        assert(build_info_field_ok(d, f[5]));
    }
}

/// The text of an optional string.
pub open spec fn opt_text(o: Option<String>) -> Option<Seq<char>> {
    match o {
        Some(s) => Some(s@),
        None => None,
    }
}

/// Reads `BuildInfo` values out of documents, and classifies executions.
pub struct BuildInfoParser;

impl BuildInfoParser {
    /// The build that `item` holds; fails naming the first field, in declared
    /// order, that is absent or of another shape.
    pub fn parse(item: Document) -> (r: Result<BuildInfo, MissingModelPropertyError>)
        ensures
            match build_info_of(item@) {
                Ok(b) => r is Ok && r->Ok_0@ == b,
                Err(n) => r is Err && r->Err_0.name@ == n,
            },
    {
        BuildInfoParser::from_document(&item)
    }

    /// As `parse`, on a borrowed document.
    pub fn from_document(item: &Document) -> (r: Result<BuildInfo, MissingModelPropertyError>)
        ensures
            match build_info_of(item@) {
                Ok(b) => r is Ok && r->Ok_0@ == b,
                Err(n) => r is Err && r->Err_0.name@ == n,
            },
    {
        let uuid = read_text(item, "uuid")?;
        let build_number = read_number(item, "build_number")?;
        let start_time = read_number(item, "start_time")?;
        let end_time = read_number(item, "end_time")?;
        let deployment_phase = read_text(item, "deployment_phase")?;
        let current_phase = read_text(item, "current_phase")?;
        let build_status = read_text(item, "build_status")?;
        Ok(
            BuildInfo {
                uuid,
                build_number: Some(build_number),
                start_time: Some(start_time),
                end_time: Some(end_time),
                deployment_phase: Some(ProjectDeploymentPhase::from_str(deployment_phase.as_str())),
                current_phase: Some(BuildPhase::from_str(current_phase.as_str())),
                build_status: Some(BuildPhaseStatus::from_str(build_status.as_str())),
            },
        )
    }

    /// The stage that produced an execution, from the job identifier it reports
    /// and the two configured job identifiers; a rendered stage token keeps its
    /// stage whatever jobs are configured.
    pub fn deployment_phase(
        value: Option<String>,
        codebuild_building: String,
        codebuild_deployment: String,
    ) -> (r: ProjectDeploymentPhase)
        ensures
            r == classify_deployment_phase(opt_text(value), codebuild_building@, codebuild_deployment@),
    {
        match value {
            Some(v) => {
                if same_text(v.as_str(), "BUILDING") {
                    ProjectDeploymentPhase::Building
                } else if same_text(v.as_str(), "DEPLOYMENT") {
                    ProjectDeploymentPhase::Deployment
                } else if same_text(v.as_str(), codebuild_building.as_str()) {
                    ProjectDeploymentPhase::Building
                } else if same_text(v.as_str(), codebuild_deployment.as_str()) {
                    ProjectDeploymentPhase::Deployment
                } else {
                    ProjectDeploymentPhase::Unknown
                }
            },
            None => ProjectDeploymentPhase::Unknown,
        }
    }
}

/// One build execution as the build service reports it: what normalization
/// reads of it, with times in milliseconds since the epoch.
#[derive(Debug)]
pub struct BuildExecution {
    /// The composite identifier `{job}:{uuid}`.
    pub id: Option<String>,
    pub build_number: Option<i64>,
    pub start_time: Option<i64>,
    pub end_time: Option<i64>,
    /// The job that ran the execution.
    pub project_name: Option<String>,
    pub current_phase: Option<String>,
    pub build_status: Option<String>,
}

/// The build service's answer to a submitted build.
#[derive(Debug)]
pub struct StartBuildOutput {
    pub build: Option<BuildExecution>,
}

/// The shapes in which the build service returns executions.
#[derive(Debug)]
pub enum BuildObject {
    /// One execution.
    Build(BuildExecution),
    /// The answer to a lookup: the first execution counts.
    Builds(Option<Vec<BuildExecution>>),
    /// The answer to a submission.
    StartBuildOutput(StartBuildOutput),
}

/// What follows the last `:` of `s`; all of `s` when it holds none.
pub open spec fn last_segment(s: Seq<char>) -> Seq<char>
    decreases s.len(),
{
    if s.len() == 0 {
        s
    } else if s.last() == ':' {
        Seq::empty()
    } else {
        last_segment(s.drop_last()).push(s.last())
    }
}

/// The part of a composite identifier after its last `:`.
pub fn last_segment_of(s: &str) -> (r: String)
    ensures
        r@ == last_segment(s@),
{
    let len = s.unicode_len();
    let mut j: usize = len;
    assert(s@.subrange(0, len as int) =~= s@);
    assert(s@.subrange(len as int, len as int) =~= Seq::<char>::empty());
    while j > 0 && s.get_char(j - 1) != ':'
        invariant
            j <= len,
            len == s@.len(),
            last_segment(s@) == last_segment(s@.subrange(0, j as int)) + s@.subrange(j as int, len as int),
        decreases j,
    {
        let ghost pre = s@.subrange(0, j as int);
        assert(pre.drop_last() =~= s@.subrange(0, j - 1));
        assert(s@.subrange(j - 1, len as int) =~= seq![s@[j - 1]] + s@.subrange(j as int, len as int));
        assert(last_segment(pre) == last_segment(s@.subrange(0, j - 1)).push(s@[j - 1]));
        assert(last_segment(s@) =~= last_segment(s@.subrange(0, j - 1)) + s@.subrange(j - 1, len as int));
        j = j - 1;
    }
    proof {
        if j == 0 {
            assert(s@.subrange(0, 0) =~= Seq::<char>::empty());
        } else {
            assert(s@.subrange(0, j as int).last() == ':');
        }
        assert(last_segment(s@) =~= s@.subrange(j as int, len as int));
    }
    s.substring_char(j, len).to_string()
}

/// The normalized build of an execution, given the two configured job
/// identifiers; `None` when the execution has no identifier.
pub open spec fn build_info_of_execution(
    b: BuildExecution,
    building: Seq<char>,
    deployment: Seq<char>,
) -> Option<BuildInfoView> {
    match b.id {
        None => None,
        Some(id) => Some(
            BuildInfoView {
                uuid: last_segment(id@),
                build_number: b.build_number,
                start_time: b.start_time,
                end_time: b.end_time,
                deployment_phase: Some(classify_deployment_phase(opt_text(b.project_name), building, deployment)),
                current_phase: match b.current_phase {
                    Some(p) => Some(build_phase_of(p@)),
                    None => None,
                },
                build_status: Some(
                    match b.build_status {
                        Some(st) => build_phase_status_of(st@),
                        None => BuildPhaseStatus::Unknown,
                    },
                ),
            },
        ),
    }
}

/// The normalized build of whichever shape the build service returned.
pub open spec fn build_info_of_object(
    o: BuildObject,
    building: Seq<char>,
    deployment: Seq<char>,
) -> Option<BuildInfoView> {
    match o {
        BuildObject::Build(b) => build_info_of_execution(b, building, deployment),
        BuildObject::Builds(None) => None,
        BuildObject::Builds(Some(v)) => if v@.len() >= 1 {
            build_info_of_execution(v@[0], building, deployment)
        } else {
            None
        },
        BuildObject::StartBuildOutput(out) => match out.build {
            Some(b) => build_info_of_execution(b, building, deployment),
            None => None,
        },
    }
}

fn opt_clone(o: &Option<String>) -> (r: Option<String>)
    ensures
        r == *o,
{
    match o {
        Some(s) => Some(s.clone()),
        None => None,
    }
}

/// Normalizes one execution: the identifier's last segment, the numbers as
/// given, the phase and status read by the classifier (a missing status counts
/// as `Unknown`), and the stage classified from the job that ran it.
pub fn parse_build_info(build: &BuildExecution, building: &str, deployment: &str) -> (r: Option<BuildInfo>)
    ensures
        match build_info_of_execution(*build, building@, deployment@) {
            Some(v) => r is Some && r->Some_0@ == v,
            None => r is None,
        },
{
    let id = match &build.id {
        Some(id) => id,
        None => return None,
    };
    let uuid = last_segment_of(id.as_str());
    let current_phase = match &build.current_phase {
        Some(value) => Some(BuildPhase::from_str(value.as_str())),
        None => None,
    };
    let build_status = match &build.build_status {
        Some(value) => BuildPhaseStatus::from_str(value.as_str()),
        None => BuildPhaseStatus::Unknown,
    };
    let deployment_phase = BuildInfoParser::deployment_phase(
        opt_clone(&build.project_name),
        owned(building),
        owned(deployment),
    );
    Some(
        BuildInfo {
            uuid,
            build_number: build.build_number,
            start_time: build.start_time,
            end_time: build.end_time,
            deployment_phase: Some(deployment_phase),
            current_phase,
            build_status: Some(build_status),
        },
    )
}

/// Normalizes whichever shape the build service returned; a list gives its first
/// execution, and an empty list or an answer without execution gives `None`.
pub fn get_build_info(build: &BuildObject, building: &str, deployment: &str) -> (r: Option<BuildInfo>)
    ensures
        match build_info_of_object(*build, building@, deployment@) {
            Some(v) => r is Some && r->Some_0@ == v,
            None => r is None,
        },
{
    match build {
        BuildObject::Build(b) => parse_build_info(b, building, deployment),
        BuildObject::Builds(builds) => match builds {
            None => None,
            Some(builds) => {
                if builds.len() >= 1 {
                    parse_build_info(&builds[0], building, deployment)
                } else {
                    None
                }
            },
        },
        BuildObject::StartBuildOutput(out) => match &out.build {
            Some(b) => parse_build_info(b, building, deployment),
            None => None,
        },
    }
}

/// A command as it stands in a job specification: between double quotes.
pub open spec fn quoted(c: Seq<char>) -> Seq<char> {
    "\""@ + c + "\""@
}

/// Commands as they stand in a job specification: quoted, separated by `,`.
pub open spec fn quoted_list(cmds: Seq<Seq<char>>) -> Seq<char>
    decreases cmds.len(),
{
    if cmds.len() == 0 {
        Seq::empty()
    } else if cmds.len() == 1 {
        quoted(cmds[0])
    } else {
        quoted_list(cmds.drop_last()) + ","@ + quoted(cmds.last())
    }
}

/// The pre-build commands of the job for `p`: a section title, a change into
/// the project directory, then the project's own pre-build commands.
pub open spec fn pre_build_commands_of(p: ProjectView) -> Seq<Seq<char>> {
    seq!["####### Install Project Dependencies #######"@, "cd $PROJECT_NAME"@] + p.commands.pre_build
}

/// The build commands of the job for `p`: a section title, the project's own
/// build commands, then a move of the output folder to the artifact directory.
pub open spec fn build_commands_of(p: ProjectView) -> Seq<Seq<char>> {
    seq!["echo Build project"@] + p.commands.build + seq!["mv "@ + p.output_folder + " ../dist"@]
}

/// The name of the archive that the job for `p` started at `timestamp` uploads.
pub open spec fn artifact_name_of(p: ProjectView, timestamp: Seq<char>) -> Seq<char> {
    p.name + "-dist-"@ + timestamp + ".zip"@
}

/// The job specification for `p`, started at `timestamp`.
pub open spec fn build_spec_of(p: ProjectView, timestamp: Seq<char>) -> Seq<char> {
    "{\"version\": \"0.2\", \"env\": {\"variables\": {\"MY_ENV_VAR\": \"value\"}}, \"phases\": {\"install\": {\"commands\": [\"echo Download project\", \"node -v\", \"git clone $REPO_URL $PROJECT_NAME\"]}, \"pre_build\": {\"commands\": ["@ + quoted_list(pre_build_commands_of(p)) + "]}, \"build\": {\"commands\": ["@ + quoted_list(
        build_commands_of(p),
    ) + "]}, \"post_build\": {\"commands\": [\"echo Build has completed and artifacts were moved\"]}}, \"artifacts\": {\"discard-paths\": \"no\", \"files\": [\"dist/**/*\"], \"name\": \""@ + artifact_name_of(p, timestamp) + "\"}}"@
}

/// The commands quoted and separated by `,`.
pub fn quote_commands(cmds: &Vec<String>) -> (r: String)
    ensures
        r@ == quoted_list(texts(cmds@)),
{
    let mut r = String::new();
    let mut i: usize = 0;
    while i < cmds.len()
        invariant
            i <= cmds@.len(),
            r@ == quoted_list(texts(cmds@.subrange(0, i as int))),
        decreases cmds@.len() - i,
    {
        let q1 = join2("\"", cmds[i].as_str());
        let q = join2(q1.as_str(), "\"");
        let ghost done = texts(cmds@.subrange(0, i + 1));
        assert(done.drop_last() =~= texts(cmds@.subrange(0, i as int)));
        if i == 0 {
            r = q;
        } else {
            let with_comma = join2(r.as_str(), ",");
            r = join2(with_comma.as_str(), q.as_str());
        }
        i = i + 1;
    }
    assert(cmds@.subrange(0, cmds@.len() as int) =~= cmds@);
    r
}

/// An environment variable that a submitted build sees.
#[derive(Debug)]
pub struct EnvironmentOverride {
    pub name: String,
    pub value: String,
}

/// A build submission: the job to start, its environment overrides, and the job
/// specification that replaces the job's own.
#[derive(Debug)]
pub struct StartBuildRequest {
    pub project_name: String,
    pub environment: Vec<EnvironmentOverride>,
    pub buildspec: String,
}

/// Why triggering a build failed.
#[derive(Debug)]
pub enum BuildTriggerError {
    /// The build service refused the submission; no build was started.
    NotSubmitted(HandlerError),
    /// The build was started, but its answer could not be normalized.
    SubmittedNotNormalized(HandlerError),
}

/// Triggers builds of projects on the build service and normalizes what it
/// returns, given the identifiers of the building and deployment jobs.
#[derive(Debug)]
pub struct CodeBuildHandler {
    pub codebuild_project_name_building: String,
    pub codebuild_project_name_deployment: String,
}

impl CodeBuildHandler {
    pub fn new(codebuild_project_name_building: String, codebuild_project_name_deployment: String) -> (r: Self)
        ensures
            r.codebuild_project_name_building == codebuild_project_name_building,
            r.codebuild_project_name_deployment == codebuild_project_name_deployment,
    {
        Self { codebuild_project_name_building, codebuild_project_name_deployment }
    }

    /// The pre-build commands of the job for `project`.
    pub fn pre_build_commands(project: &Project) -> (r: Vec<String>)
        ensures
            texts(r@) == pre_build_commands_of(project@),
    {
        let mut r: Vec<String> = Vec::new();
        r.push(owned("####### Install Project Dependencies #######"));
        r.push(owned("cd $PROJECT_NAME"));
        let mut i: usize = 0;
        while i < project.commands.pre_build.len()
            invariant
                i <= project.commands.pre_build@.len(),
                texts(r@) == seq!["####### Install Project Dependencies #######"@, "cd $PROJECT_NAME"@]
                    + texts(project.commands.pre_build@.subrange(0, i as int)),
            decreases project.commands.pre_build@.len() - i,
        {
            let ghost before = r@;
            r.push(project.commands.pre_build[i].clone());
            assert(texts(r@) =~= texts(before).push(project.commands.pre_build@[i as int]@));
            assert(texts(project.commands.pre_build@.subrange(0, i + 1)) =~= texts(
                project.commands.pre_build@.subrange(0, i as int),
            ).push(project.commands.pre_build@[i as int]@));
            assert(texts(r@) =~= seq!["####### Install Project Dependencies #######"@, "cd $PROJECT_NAME"@]
                + texts(project.commands.pre_build@.subrange(0, i + 1)));
            i = i + 1;
        }
        assert(project.commands.pre_build@.subrange(0, i as int) =~= project.commands.pre_build@);
        r
    }

    /// The build commands of the job for `project`.
    pub fn build_commands(project: &Project) -> (r: Vec<String>)
        ensures
            texts(r@) == build_commands_of(project@),
    {
        let mut r: Vec<String> = Vec::new();
        r.push(owned("echo Build project"));
        let mut i: usize = 0;
        while i < project.commands.build.len()
            invariant
                i <= project.commands.build@.len(),
                texts(r@) == seq!["echo Build project"@] + texts(project.commands.build@.subrange(0, i as int)),
            decreases project.commands.build@.len() - i,
        {
            let ghost before = r@;
            r.push(project.commands.build[i].clone());
            assert(texts(r@) =~= texts(before).push(project.commands.build@[i as int]@));
            assert(texts(project.commands.build@.subrange(0, i + 1)) =~= texts(
                project.commands.build@.subrange(0, i as int),
            ).push(project.commands.build@[i as int]@));
            assert(texts(r@) =~= seq!["echo Build project"@] + texts(
                project.commands.build@.subrange(0, i + 1),
            ));
            i = i + 1;
        }
        assert(project.commands.build@.subrange(0, i as int) =~= project.commands.build@);
        let mv = join2("mv ", project.output_folder.as_str());
        r.push(join2(mv.as_str(), " ../dist"));
        assert(texts(r@) =~= build_commands_of(project@));
        r
    }

    /// The job specification for `project`, started at `timestamp`.
    pub fn build_spec(project: &Project, timestamp: &str) -> (r: String)
        ensures
            r@ == build_spec_of(project@, timestamp@),
    {
        let pre = quote_commands(&CodeBuildHandler::pre_build_commands(project));
        let bld = quote_commands(&CodeBuildHandler::build_commands(project));
        let name1 = join2(project.name.as_str(), "-dist-");
        let name2 = join2(name1.as_str(), timestamp);
        let name = join2(name2.as_str(), ".zip");
        let s1 = join2("{\"version\": \"0.2\", \"env\": {\"variables\": {\"MY_ENV_VAR\": \"value\"}}, \"phases\": {\"install\": {\"commands\": [\"echo Download project\", \"node -v\", \"git clone $REPO_URL $PROJECT_NAME\"]}, \"pre_build\": {\"commands\": [", pre.as_str());
        let s2 = join2(s1.as_str(), "]}, \"build\": {\"commands\": [");
        let s3 = join2(s2.as_str(), bld.as_str());
        let s4 = join2(s3.as_str(), "]}, \"post_build\": {\"commands\": [\"echo Build has completed and artifacts were moved\"]}}, \"artifacts\": {\"discard-paths\": \"no\", \"files\": [\"dist/**/*\"], \"name\": \"");
        let s5 = join2(s4.as_str(), name.as_str());
        let r = join2(s5.as_str(), "\"}}");
        assert(r@ =~= build_spec_of(project@, timestamp@));
        r
    }

    /// The submission that builds `project` on the building job, started at
    /// `timestamp`: the project's name and repository as `PROJECT_NAME` and
    /// `REPO_URL`, and its job specification.
    pub fn start_build_request(&self, project: &Project, timestamp: &str) -> (r: StartBuildRequest)
        ensures
            r.project_name@ == self.codebuild_project_name_building@,
            r.environment@.len() == 2,
            r.environment@[0].name@ == "PROJECT_NAME"@,
            r.environment@[0].value@ == project.name@,
            r.environment@[1].name@ == "REPO_URL"@,
            r.environment@[1].value@ == project.repository@,
            r.buildspec@ == build_spec_of(project@, timestamp@),
    {
        let mut environment: Vec<EnvironmentOverride> = Vec::new();
        environment.push(EnvironmentOverride { name: owned("PROJECT_NAME"), value: project.name.clone() });
        environment.push(EnvironmentOverride { name: owned("REPO_URL"), value: project.repository.clone() });
        StartBuildRequest {
            project_name: self.codebuild_project_name_building.clone(),
            environment,
            buildspec: CodeBuildHandler::build_spec(project, timestamp),
        }
    }

    /// The submission that builds `project` on the building job, started now.
    pub fn start_build(&self, project: &Project) -> (r: StartBuildRequest)
        ensures
            r.project_name@ == self.codebuild_project_name_building@,
            r.environment@.len() == 2,
            r.environment@[0].name@ == "PROJECT_NAME"@,
            r.environment@[0].value@ == project.name@,
            r.environment@[1].name@ == "REPO_URL"@,
            r.environment@[1].value@ == project.repository@,
            exists|t: Seq<char>| r.buildspec@ == #[trigger] build_spec_of(project@, t),
    {
        let timestamp = now_rfc3339();
        self.start_build_request(project, timestamp.as_str())
    }

    /// The outcome of a submission, from the build service's answer: its error
    /// message, or the normalized build of the execution it started.
    pub fn create_result(&self, response: Result<StartBuildOutput, String>) -> (r: Result<BuildInfo, BuildTriggerError>)
        ensures
            match response {
                Err(msg) => r matches Err(BuildTriggerError::NotSubmitted(e)) && e.msg@ == msg@,
                Ok(out) => match build_info_of_object(
                    BuildObject::StartBuildOutput(out),
                    self.codebuild_project_name_building@,
                    self.codebuild_project_name_deployment@,
                ) {
                    Some(v) => r is Ok && r->Ok_0@ == v,
                    None => r matches Err(BuildTriggerError::SubmittedNotNormalized(e))
                        && e.msg@ == "Failed to parse build result into BuildInfo"@,
                },
            },
    {
        match response {
            Ok(out) => {
                let object = BuildObject::StartBuildOutput(out);
                match get_build_info(
                    &object,
                    self.codebuild_project_name_building.as_str(),
                    self.codebuild_project_name_deployment.as_str(),
                ) {
                    Some(info) => Ok(info),
                    None => Err(
                        BuildTriggerError::SubmittedNotNormalized(
                            HandlerError::new("Failed to parse build result into BuildInfo"),
                        ),
                    ),
                }
            },
            Err(msg) => Err(BuildTriggerError::NotSubmitted(HandlerError { msg })),
        }
    }

    /// The identifiers to look up for build `id` of the building job.
    pub fn build_ids(&self, id: &str) -> (r: Vec<String>)
        ensures
            r@.len() == 1,
            r@[0]@ == self.codebuild_project_name_building@ + ":"@ + id@,
    {
        let head = join2(self.codebuild_project_name_building.as_str(), ":");
        let mut r: Vec<String> = Vec::new();
        r.push(join2(head.as_str(), id));
        r
    }

    /// The outcome of a lookup, from the build service's answer: its error
    /// message, or the normalized first execution (`None` when there is none).
    pub fn get_result(&self, response: Result<Option<Vec<BuildExecution>>, String>) -> (r: Result<Option<BuildInfo>, HandlerError>)
        ensures
            match response {
                Err(msg) => r is Err && r->Err_0.msg@ == msg@,
                Ok(builds) => r is Ok && match build_info_of_object(
                    BuildObject::Builds(builds),
                    self.codebuild_project_name_building@,
                    self.codebuild_project_name_deployment@,
                ) {
                    Some(v) => r->Ok_0 is Some && r->Ok_0->Some_0@ == v,
                    None => r->Ok_0 is None,
                },
            },
    {
        match response {
            Ok(builds) => Ok(
                get_build_info(
                    &BuildObject::Builds(builds),
                    self.codebuild_project_name_building.as_str(),
                    self.codebuild_project_name_deployment.as_str(),
                ),
            ),
            Err(msg) => Err(HandlerError { msg }),
        }
    }
}

/// What the build service reports when a build execution completes a phase.
#[derive(Debug)]
pub struct PhaseChangeEvent {
    /// The composite identifier `{job}:{uuid}`.
    pub build_id: String,
    pub build_number: Option<i64>,
    pub start_time: Option<i64>,
    pub end_time: Option<i64>,
    pub completed_phase: Option<String>,
    pub completed_phase_status: Option<String>,
    /// The job that ran the execution.
    pub project_name: Option<String>,
}

/// The build that a phase-change event describes: the identifier's last
/// segment, the numbers as given, the completed phase and its status read by the
/// classifier (`Unknown` when absent), and the stage classified from the job.
pub open spec fn build_info_of_event(e: PhaseChangeEvent, building: Seq<char>, deployment: Seq<char>) -> BuildInfoView {
    BuildInfoView {
        uuid: last_segment(e.build_id@),
        build_number: e.build_number,
        start_time: e.start_time,
        end_time: e.end_time,
        deployment_phase: Some(classify_deployment_phase(opt_text(e.project_name), building, deployment)),
        current_phase: Some(
            match e.completed_phase {
                Some(p) => build_phase_of(p@),
                None => BuildPhase::Unknown,
            },
        ),
        build_status: Some(
            match e.completed_phase_status {
                Some(st) => build_phase_status_of(st@),
                None => BuildPhaseStatus::Unknown,
            },
        ),
    }
}

impl CodeBuildHandler {
    /// The build that a phase-change event describes.
    pub fn phase_change_build_info(&self, event: &PhaseChangeEvent) -> (r: BuildInfo)
        ensures
            r@ == build_info_of_event(
                *event,
                self.codebuild_project_name_building@,
                self.codebuild_project_name_deployment@,
            ),
    {
        let completed_phase = match &event.completed_phase {
            Some(phase) => BuildPhase::from_str(phase.as_str()),
            None => BuildPhase::Unknown,
        };
        let completed_phase_status = match &event.completed_phase_status {
            Some(status) => BuildPhaseStatus::from_str(status.as_str()),
            None => BuildPhaseStatus::Unknown,
        };
        let deployment_phase = BuildInfoParser::deployment_phase(
            opt_clone(&event.project_name),
            self.codebuild_project_name_building.clone(),
            self.codebuild_project_name_deployment.clone(),
        );
        BuildInfo {
            uuid: last_segment_of(event.build_id.as_str()),
            build_number: event.build_number,
            start_time: event.start_time,
            end_time: event.end_time,
            deployment_phase: Some(deployment_phase),
            current_phase: Some(completed_phase),
            build_status: Some(completed_phase_status),
        }
    }
}

/// A phase-change event as delivered, with its times still as text: the start
/// time in the build service's own format, the event time in RFC 3339.
#[derive(Debug)]
pub struct RawPhaseChangeEvent {
    pub build_id: String,
    pub build_number: Option<i64>,
    pub build_start_time: Option<String>,
    pub time: Option<String>,
    pub completed_phase: Option<String>,
    pub completed_phase_status: Option<String>,
    pub project_name: Option<String>,
}

/// A time in milliseconds since the epoch, read with `read` (which gives
/// seconds) from optional text: `Some(None)` when there is no text, `None` when
/// the text does not read or its milliseconds do not fit in 64 bits.
pub open spec fn read_time(t: Option<String>, read: spec_fn(Seq<char>) -> Option<i64>) -> Option<Option<i64>> {
    match t {
        None => Some(None),
        Some(s) => match read(s@) {
            Some(v) => if i64::MIN <= v * 1000 <= i64::MAX {
                Some(Some((v * 1000) as i64))
            } else {
                None
            },
            None => None,
        },
    }
}

/// Milliseconds from seconds, when they fit in 64 bits.
fn seconds_to_millis(v: i64) -> (r: Option<i64>)
    ensures
        r == (if i64::MIN <= v * 1000 <= i64::MAX {
            Some((v * 1000) as i64)
        } else {
            None::<i64>
        }),
{
    if v > 9223372036854775 || v < -9223372036854775 {
        None
    } else {
        Some(v * 1000)
    }
}

impl CodeBuildHandler {
    /// The build that a delivered phase-change event describes; its start time
    /// comes from `build_start_time` and its end time from the event time, both
    /// in milliseconds since the epoch. Fails when a time is present but does not
    /// read, or its milliseconds do not fit in 64 bits.
    pub fn phase_change_from_raw(&self, raw: RawPhaseChangeEvent) -> (r: Result<BuildInfo, ExecutionError>)
        ensures
            ({
                let start = read_time(raw.build_start_time, |s: Seq<char>| build_clock_seconds(s));
                let end = read_time(raw.time, |s: Seq<char>| rfc3339_seconds(s));
                if start is None || end is None {
                    r is Err
                } else {
                    r is Ok && r->Ok_0@ == build_info_of_event(
                        PhaseChangeEvent {
                            build_id: raw.build_id,
                            build_number: raw.build_number,
                            start_time: start->Some_0,
                            end_time: end->Some_0,
                            completed_phase: raw.completed_phase,
                            completed_phase_status: raw.completed_phase_status,
                            project_name: raw.project_name,
                        },
                        self.codebuild_project_name_building@,
                        self.codebuild_project_name_deployment@,
                    )
                }
            }),
    {
        let start_time = match &raw.build_start_time {
            Some(t) => match parse_build_clock(t.as_str()) {
                Some(v) => match seconds_to_millis(v) {
                    Some(ms) => Some(ms),
                    None => return Err(ExecutionError),
                },
                None => return Err(ExecutionError),
            },
            None => None,
        };
        let end_time = match &raw.time {
            Some(t) => match parse_rfc3339(t.as_str()) {
                Some(v) => match seconds_to_millis(v) {
                    Some(ms) => Some(ms),
                    None => return Err(ExecutionError),
                },
                None => return Err(ExecutionError),
            },
            None => None,
        };
        let event = PhaseChangeEvent {
            build_id: raw.build_id,
            build_number: raw.build_number,
            start_time,
            end_time,
            completed_phase: raw.completed_phase,
            completed_phase_status: raw.completed_phase_status,
            project_name: raw.project_name,
        };
        Ok(self.phase_change_build_info(&event))
    }
}

} // verus!
