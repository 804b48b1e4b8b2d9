//! Deployment records: a project and the build it triggered.
use vstd::prelude::*;
use crate::clock::now_rfc3339;
use crate::codebuild::{build_info_of, is_build_info_doc, lemma_build_info_round_trip, normalized_build_info, BuildInfo, BuildInfoParser, BuildInfoView};
use crate::document::{AttributeValue, Document};
use crate::errors::MissingModelPropertyError;
use crate::fields::{doc_field, nested_error, nested_name, read_doc, read_text, text_field};
use crate::project::{is_project_doc, lemma_project_round_trip, project_of, Project, ProjectParser, ProjectView};
use crate::text::owned;
use crate::update::{clause, clauses_of, joined, names_of, update_expression_of};

verus! {

/// One deployment attempt: the project and the build as they were when the
/// record was written.
#[derive(Debug)]
pub struct ProjectDeployment {
    pub uuid: String,
    pub project: Project,
    pub build: BuildInfo,
    pub updated_at: String,
    pub created_at: String,
}

/// The content of a `ProjectDeployment`.
pub struct ProjectDeploymentView {
    pub uuid: Seq<char>,
    pub project: ProjectView,
    pub build: BuildInfoView,
    pub updated_at: Seq<char>,
    pub created_at: Seq<char>,
}

impl View for ProjectDeployment {
    type V = ProjectDeploymentView;

    open spec fn view(&self) -> ProjectDeploymentView {
        ProjectDeploymentView {
            uuid: self.uuid@,
            project: self.project@,
            build: self.build@,
            updated_at: self.updated_at@,
            created_at: self.created_at@,
        }
    }
}

/// What creating a deployment record takes.
#[derive(Debug)]
pub struct ProjectDeploymentCreatePayload {
    pub project: Project,
    pub build: BuildInfo,
}

/// What a client gives to deploy a project.
#[derive(Debug)]
pub struct ProjectDeploymentCreatePayloadRequest {
    pub project_uuid: String,
}

/// A partial update of a deployment record: the parts that are present replace
/// the stored ones.
#[derive(Debug)]
pub struct ProjectDeploymentUpdatePayload {
    pub project: Option<Project>,
    pub build: Option<BuildInfo>,
}

impl ProjectDeployment {
    /// A record of `project` and the `build` it triggered, stamped with the
    /// current time; its identifier is the build's.
    pub fn new(project: Project, build: BuildInfo) -> (r: Self)
        ensures
            r.uuid@ == build.uuid@,
            r.project == project,
            r.build == build,
            r.updated_at@ == r.created_at@,
    {
        let timestamp = now_rfc3339();
        ProjectDeployment::new_at(project, build, timestamp)
    }

    /// A record of `project` and the `build` it triggered, stamped with `timestamp`.
    pub fn new_at(project: Project, build: BuildInfo, timestamp: String) -> (r: Self)
        ensures
            r.uuid@ == build.uuid@,
            r.project == project,
            r.build == build,
            r.updated_at@ == timestamp@,
            r.created_at == timestamp,
    {
        ProjectDeployment {
            uuid: build.uuid.clone(),
            project,
            build,
            updated_at: timestamp.clone(),
            created_at: timestamp,
        }
    }

    /// The document form of this record.
    pub fn as_hashmap(&self) -> (r: Document)
        ensures
            is_deployment_doc(r@, self@),
            r.key_seq() == deployment_fields(),
    {
        let mut map = Document::new();
        map.insert(owned("uuid"), AttributeValue::S(self.uuid.clone()));
        map.insert(owned("project"), self.project.as_attr());
        map.insert(owned("build"), self.build.as_attr());
        map.insert(owned("updated_at"), AttributeValue::S(self.updated_at.clone()));
        map.insert(owned("created_at"), AttributeValue::S(self.created_at.clone()));
        proof {
            lemma_deployment_keys();
        }
        assert(map@.dom() =~= deployment_fields().to_set());
        map
    }

    /// This record as a nested document value.
    pub fn as_attr(&self) -> (r: AttributeValue)
        ensures
            r matches AttributeValue::M(d) && is_deployment_doc(d@, self@),
    {
        AttributeValue::M(self.as_hashmap())
    }
}

impl ProjectDeploymentUpdatePayload {
    /// The document form of this update: only the parts that are present.
    pub fn as_hashmap(&self) -> (r: Document)
        ensures
            is_update_doc(r@, self),
            r.key_seq() == update_key_seq(self),
    {
        let mut map = Document::new();
        match &self.project {
            Some(project) => map.insert(owned("project"), project.as_attr()),
            None => {},
        }
        match &self.build {
            Some(build) => map.insert(owned("build"), build.as_attr()),
            None => {},
        }
        proof {
            lemma_deployment_keys();
        }
        assert(map@.dom() =~= update_keys(self));
        map
    }

    /// This update as a nested document value.
    pub fn as_attr(&self) -> (r: AttributeValue)
        ensures
            r matches AttributeValue::M(d) && is_update_doc(d@, self),
    {
        AttributeValue::M(self.as_hashmap())
    }
}

/// The keys of the document form of an update: those of the parts present.
pub open spec fn update_keys(u: &ProjectDeploymentUpdatePayload) -> Set<Seq<char>> {
    let with_project = if u.project is Some {
        set!["project"@]
    } else {
        Set::empty()
    };
    if u.build is Some {
        with_project.insert("build"@)
    } else {
        with_project
    }
}

/// The keys of the document form of an update, in order: `project` before
/// `build`, each only when that part is present.
pub open spec fn update_key_seq(u: &ProjectDeploymentUpdatePayload) -> Seq<Seq<char>> {
    (if u.project is Some {
        seq!["project"@]
    } else {
        Seq::empty()
    }) + (if u.build is Some {
        seq!["build"@]
    } else {
        Seq::empty()
    })
}

/// `d` is the document form of the update `u`.
pub open spec fn is_update_doc(d: Map<Seq<char>, AttributeValue>, u: &ProjectDeploymentUpdatePayload) -> bool {
    &&& d.dom() == update_keys(u)
    &&& u.project matches Some(p) ==> doc_field(d, "project"@) matches Some(m) && is_project_doc(m@, p@)
    &&& u.build matches Some(b) ==> doc_field(d, "build"@) matches Some(m) && is_build_info_doc(m@, b@)
}

/// The fields of a deployment document, in the order they are checked.
pub open spec fn deployment_fields() -> Seq<Seq<char>> {
    seq!["uuid"@, "project"@, "build"@, "updated_at"@, "created_at"@]
}

proof fn lemma_deployment_keys()
    ensures
        "uuid"@.len() == 4 && "uuid"@[0] == 'u',
        "project"@.len() == 7 && "project"@[0] == 'p',
        "build"@.len() == 5 && "build"@[0] == 'b',
        "updated_at"@.len() == 10 && "updated_at"@[0] == 'u',
        "created_at"@.len() == 10 && "created_at"@[0] == 'c',
        deployment_fields() == seq!["uuid"@, "project"@, "build"@, "updated_at"@, "created_at"@],
{
    reveal_strlit("uuid");
    reveal_strlit("project");
    reveal_strlit("build");
    reveal_strlit("updated_at");
    reveal_strlit("created_at");
}

/// `d` is the document form of the record `v`.
pub open spec fn is_deployment_doc(d: Map<Seq<char>, AttributeValue>, v: ProjectDeploymentView) -> bool {
    &&& d.dom() == deployment_fields().to_set()
    &&& text_field(d, "uuid"@) == Some(v.uuid)
    &&& doc_field(d, "project"@) matches Some(m) && is_project_doc(m@, v.project)
    &&& doc_field(d, "build"@) matches Some(m) && is_build_info_doc(m@, v.build)
    &&& text_field(d, "updated_at"@) == Some(v.updated_at)
    &&& text_field(d, "created_at"@) == Some(v.created_at)
}

/// Field `k` of a deployment document is present and well formed.
pub open spec fn deployment_field_ok(d: Map<Seq<char>, AttributeValue>, k: Seq<char>) -> bool {
    if k == "project"@ {
        doc_field(d, k) is Some && project_of(doc_field(d, k)->Some_0@) is Ok
    } else if k == "build"@ {
        doc_field(d, k) is Some && build_info_of(doc_field(d, k)->Some_0@) is Ok
    } else {
        text_field(d, k) is Some
    }
}

/// The record that a deployment document holds, or the name of the first field,
/// in declared order, that is absent or of another shape; a failure inside the
/// project or the build is named under `project.` or `build.`.
pub open spec fn deployment_of(d: Map<Seq<char>, AttributeValue>) -> Result<ProjectDeploymentView, Seq<char>> {
    if text_field(d, "uuid"@) is None {
        Err("uuid"@)
    } else if doc_field(d, "project"@) is None {
        Err("project"@)
    } else if project_of(doc_field(d, "project"@)->Some_0@) is Err {
        Err(nested_name("project"@, project_of(doc_field(d, "project"@)->Some_0@)->Err_0))
    } else if doc_field(d, "build"@) is None {
        Err("build"@)
    } else if build_info_of(doc_field(d, "build"@)->Some_0@) is Err {
        Err(nested_name("build"@, build_info_of(doc_field(d, "build"@)->Some_0@)->Err_0))
    } else if text_field(d, "updated_at"@) is None {
        Err("updated_at"@)
    } else if text_field(d, "created_at"@) is None {
        Err("created_at"@)
    } else {
        Ok(
            ProjectDeploymentView {
                uuid: text_field(d, "uuid"@)->Some_0,
                project: project_of(doc_field(d, "project"@)->Some_0@)->Ok_0,
                build: build_info_of(doc_field(d, "build"@)->Some_0@)->Ok_0,
                updated_at: text_field(d, "updated_at"@)->Some_0,
                created_at: text_field(d, "created_at"@)->Some_0,
            },
        )
    }
}

/// What storing `v` and reading it back gives: the build normalized.
pub open spec fn normalized_deployment(v: ProjectDeploymentView) -> ProjectDeploymentView {
    ProjectDeploymentView { build: normalized_build_info(v.build), ..v }
}

/// Reads `ProjectDeployment` values out of documents.
pub struct ProjectDeploymentParser;

impl ProjectDeploymentParser {
    /// The record that `item` holds; fails naming the first field, in declared
    /// order, that is absent or of another shape.
    pub fn parse(item: Document) -> (r: Result<ProjectDeployment, MissingModelPropertyError>)
        ensures
            match deployment_of(item@) {
                Ok(v) => r is Ok && r->Ok_0@ == v,
                Err(n) => r is Err && r->Err_0.name@ == n,
            },
    {
        ProjectDeploymentParser::from_document(&item)
    }

    /// As `parse`, on a borrowed document.
    pub fn from_document(item: &Document) -> (r: Result<ProjectDeployment, MissingModelPropertyError>)
        ensures
            match deployment_of(item@) {
                Ok(v) => r is Ok && r->Ok_0@ == v,
                Err(n) => r is Err && r->Err_0.name@ == n,
            },
    {
        let uuid = read_text(item, "uuid")?;
        let project_doc = read_doc(item, "project")?;
        let project = match ProjectParser::from_document(project_doc) {
            Ok(p) => p,
            Err(e) => return Err(nested_error("project", e.name.as_str())),
        };
        let build_doc = read_doc(item, "build")?;
        let build = match BuildInfoParser::from_document(build_doc) {
            Ok(b) => b,
            Err(e) => return Err(nested_error("build", e.name.as_str())),
        };
        let updated_at = read_text(item, "updated_at")?;
        let created_at = read_text(item, "created_at")?;
        Ok(ProjectDeployment { uuid, project, build, updated_at, created_at })
    }

    /// The record that a fetch returned: `None` when nothing was found, and also
    /// when the stored document does not parse.
    pub fn from_fetched(item: Option<Document>) -> (r: Option<ProjectDeployment>)
        ensures
            match item {
                None => r is None,
                Some(d) => match deployment_of(d@) {
                    Ok(v) => r is Some && r->Some_0@ == v,
                    Err(_) => r is None,
                },
            },
    {
        match item {
            Some(d) => match ProjectDeploymentParser::from_document(&d) {
                Ok(deployment) => Some(deployment),
                Err(_) => None,
            },
            None => None,
        }
    }
}

/// Storing a deployment record and reading the stored document back gives the
/// record again, with its build normalized: absent numbers become zero and
/// absent classifications `Unknown`. The project's commands are well formed, as
/// every constructed `Commands` value is.
pub proof fn lemma_deployment_round_trip(d: Map<Seq<char>, AttributeValue>, v: ProjectDeploymentView)
    requires
        is_deployment_doc(d, v),
        v.project.commands.wf(),
    ensures
        deployment_of(d) == Ok::<ProjectDeploymentView, Seq<char>>(normalized_deployment(v)),
{
    lemma_project_round_trip(doc_field(d, "project"@)->Some_0@, v.project);
    lemma_build_info_round_trip(doc_field(d, "build"@)->Some_0@, v.build);
}

/// Deployment parsing fails fast in declared field order: when field `i` is
/// absent and every field before it is well formed, the error names field `i`,
/// whatever else is absent after it.
pub proof fn lemma_deployment_fail_fast(d: Map<Seq<char>, AttributeValue>, i: int)
    requires
        0 <= i < deployment_fields().len(),
        !d.contains_key(deployment_fields()[i]),
        forall|j: int| 0 <= j < i ==> deployment_field_ok(d, #[trigger] deployment_fields()[j]),
    ensures
        deployment_of(d) == Err::<ProjectDeploymentView, Seq<char>>(deployment_fields()[i]),
{
    lemma_deployment_keys();
    let f = deployment_fields();
    if i > 0 {
        assert(deployment_field_ok(d, f[0]));
    }
    if i > 1 {
        assert(deployment_field_ok(d, f[1]));
    }
    if i > 2 {
        assert(deployment_field_ok(d, f[2]));
    }
    if i > 3 {
        assert(deployment_field_ok(d, f[3]));
    }
}

/// The update expression and name aliases that an update of a deployment record
/// compiles to: `updated_at` always, then `project` and `build` when present, in
/// that order, and nothing else.
pub proof fn lemma_deployment_update_expression(u: &ProjectDeploymentUpdatePayload)
    ensures
        u.project is None && u.build is None ==> update_expression_of(update_key_seq(u))
            == "SET #updated_at = :updated_at"@ && names_of(update_key_seq(u)) == seq![
            ("#updated_at"@, "updated_at"@),
        ],
        u.project is None && u.build is Some ==> update_expression_of(update_key_seq(u))
            == "SET #updated_at = :updated_at, #build = :build"@ && names_of(update_key_seq(u)) == seq![
            ("#updated_at"@, "updated_at"@),
            ("#build"@, "build"@),
        ],
        u.project is Some && u.build is None ==> update_expression_of(update_key_seq(u))
            == "SET #updated_at = :updated_at, #project = :project"@ && names_of(update_key_seq(u)) == seq![
            ("#updated_at"@, "updated_at"@),
            ("#project"@, "project"@),
        ],
        u.project is Some && u.build is Some ==> update_expression_of(update_key_seq(u))
            == "SET #updated_at = :updated_at, #project = :project, #build = :build"@ && names_of(
            update_key_seq(u),
        ) == seq![("#updated_at"@, "updated_at"@), ("#project"@, "project"@), ("#build"@, "build"@)],
{
    reveal_strlit("SET #updated_at = :updated_at");
    reveal_strlit("SET #updated_at = :updated_at, #build = :build");
    reveal_strlit("SET #updated_at = :updated_at, #project = :project");
    reveal_strlit("SET #updated_at = :updated_at, #project = :project, #build = :build");
    reveal_strlit("SET ");
    reveal_strlit("#");
    reveal_strlit(", ");
    reveal_strlit(" = :");
    reveal_strlit("updated_at");
    reveal_strlit("project");
    reveal_strlit("build");
    reveal_strlit("#updated_at");
    reveal_strlit("#project");
    reveal_strlit("#build");
    let keys = update_key_seq(u);
    let cs = clauses_of(keys);
    assert(cs.len() == keys.len() + 1);
    if keys.len() >= 1 {
        assert(cs.subrange(0, 2).drop_last() =~= cs.subrange(0, 1));
        assert(joined(cs.subrange(0, 1)) == cs[0]);
    }
    if keys.len() == 0 {
        assert(cs =~= seq![clause("updated_at"@)]);
        assert(update_expression_of(keys) =~= "SET #updated_at = :updated_at"@);
    } else if keys.len() == 1 {
        assert(cs.drop_last() =~= seq![clause("updated_at"@)]);
        assert(update_expression_of(keys) =~= "SET "@ + clause("updated_at"@) + ", "@ + clause(keys[0]));
    } else {
        assert(cs.drop_last().drop_last() =~= seq![clause("updated_at"@)]);
        assert(joined(cs.drop_last()) == clause("updated_at"@) + ", "@ + clause(keys[0]));
        assert(update_expression_of(keys) =~= "SET "@ + clause("updated_at"@) + ", "@ + clause(keys[0]) + ", "@
            + clause(keys[1]));
    }
    assert(names_of(keys) =~= seq![("#updated_at"@, "updated_at"@)] + keys.map_values(
        |k: Seq<char>| ("#"@ + k, k),
    ));
    assert("#build"@ =~= "#"@ + "build"@);
    assert("#project"@ =~= "#"@ + "project"@);
    if u.project is None && u.build is None {
        assert(keys =~= Seq::<Seq<char>>::empty());
        assert(names_of(keys) =~= seq![("#updated_at"@, "updated_at"@)]);
    } else if u.project is None {
        assert(keys =~= seq!["build"@]);
        assert(update_expression_of(keys) =~= "SET #updated_at = :updated_at, #build = :build"@);
        assert(names_of(keys) =~= seq![("#updated_at"@, "updated_at"@), ("#build"@, "build"@)]);
    } else if u.build is None {
        assert(keys =~= seq!["project"@]);
        assert(update_expression_of(keys) =~= "SET #updated_at = :updated_at, #project = :project"@);
        assert(names_of(keys) =~= seq![("#updated_at"@, "updated_at"@), ("#project"@, "project"@)]);
    } else {
        assert(keys =~= seq!["project"@, "build"@]);
        assert(update_expression_of(keys) =~= "SET #updated_at = :updated_at, #project = :project, #build = :build"@);
        assert(names_of(keys) =~= seq![
            ("#updated_at"@, "updated_at"@),
            ("#project"@, "project"@),
            ("#build"@, "build"@),
        ]);
    }
}

} // verus!
