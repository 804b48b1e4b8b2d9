//! Registered projects, and their document form.
use vstd::prelude::*;
use crate::clock::{new_uuid, now_rfc3339};
use crate::commands::{default_commands, commands_of, is_commands_doc, lemma_commands_round_trip, Commands, CommandsParser, CommandsView};
use crate::document::{AttributeValue, Document};
use crate::errors::MissingModelPropertyError;
use crate::fields::{doc_field, nested_error, nested_name, read_doc, read_text, text_field};
use crate::text::owned;

verus! {

/// A registered project.
#[derive(Debug)]
pub struct Project {
    pub uuid: String,
    pub name: String,
    pub repository: String,
    pub commands: Commands,
    pub output_folder: String,
    pub last_published: String,
    pub updated_at: String,
    pub created_at: String,
}

/// The content of a `Project`.
pub struct ProjectView {
    pub uuid: Seq<char>,
    pub name: Seq<char>,
    pub repository: Seq<char>,
    pub commands: CommandsView,
    pub output_folder: Seq<char>,
    pub last_published: Seq<char>,
    pub updated_at: Seq<char>,
    pub created_at: Seq<char>,
}

impl View for Project {
    type V = ProjectView;

    open spec fn view(&self) -> ProjectView {
        ProjectView {
            uuid: self.uuid@,
            name: self.name@,
            repository: self.repository@,
            commands: self.commands@,
            output_folder: self.output_folder@,
            last_published: self.last_published@,
            updated_at: self.updated_at@,
            created_at: self.created_at@,
        }
    }
}

/// What a client gives to register a project.
#[derive(Debug)]
pub struct ProjectCreatePayload {
    pub name: String,
    pub repository: String,
    pub commands: Option<Commands>,
    pub output_folder: Option<String>,
}

impl ProjectCreatePayload {
    /// A payload with only a name and a repository.
    pub fn default(name: String, repository: String) -> (r: Self)
        ensures
            r.name == name,
            r.repository == repository,
            r.commands is None,
            r.output_folder is None,
    {
        Self { name, repository, commands: None, output_folder: None }
    }
}

/// The project that `payload` registers, under identifier `uuid` at time
/// `timestamp`: default commands and output folder `dist` when the payload
/// gives none, and `-` as the time of last publication.
pub open spec fn project_from_payload(
    payload: ProjectCreatePayload,
    uuid: Seq<char>,
    timestamp: Seq<char>,
) -> ProjectView {
    ProjectView {
        uuid: uuid,
        name: payload.name@,
        repository: payload.repository@,
        commands: match payload.commands {
            Some(c) => c@,
            None => default_commands(),
        },
        output_folder: match payload.output_folder {
            Some(o) => o@,
            None => "dist"@,
        },
        last_published: "-"@,
        updated_at: timestamp,
        created_at: timestamp,
    }
}

impl Project {
    /// Registers a project from `payload` under a fresh identifier, stamped with
    /// the current time.
    pub fn new(payload: ProjectCreatePayload) -> (r: Self)
        ensures
            r@ == project_from_payload(payload, r.uuid@, r.created_at@),
    {
        let uuid = new_uuid();
        let timestamp = now_rfc3339();
        Project::new_with(payload, uuid, timestamp)
    }

    /// Registers a project from `payload` under identifier `uuid` at time `timestamp`.
    pub fn new_with(payload: ProjectCreatePayload, uuid: String, timestamp: String) -> (r: Self)
        ensures
            r@ == project_from_payload(payload, uuid@, timestamp@),
    {
        let commands = match payload.commands {
            Some(value) => value,
            None => Commands::defaults(),
        };
        let output_folder = match payload.output_folder {
            Some(value) => value,
            None => owned("dist"),
        };
        Project {
            uuid,
            name: payload.name,
            repository: payload.repository,
            commands,
            output_folder,
            last_published: owned("-"),
            updated_at: timestamp.clone(),
            created_at: timestamp,
        }
    }
}

/// The fields of a project document, in the order they are checked.
pub open spec fn project_fields() -> Seq<Seq<char>> {
    seq!["uuid"@, "name"@, "repository"@, "commands"@, "output_folder"@, "last_published"@, "updated_at"@, "created_at"@]
}

/// The project that a project document holds, or the name of the first field,
/// in declared order, that is absent or of another shape; a failure inside the
/// commands is named under `commands.`.
pub open spec fn project_of(d: Map<Seq<char>, AttributeValue>) -> Result<ProjectView, Seq<char>> {
    if text_field(d, "uuid"@) is None {
        Err("uuid"@)
    } else if text_field(d, "name"@) is None {
        Err("name"@)
    } else if text_field(d, "repository"@) is None {
        Err("repository"@)
    } else if doc_field(d, "commands"@) is None {
        Err("commands"@)
    } else if commands_of(doc_field(d, "commands"@)->Some_0@) is Err {
        Err(nested_name("commands"@, commands_of(doc_field(d, "commands"@)->Some_0@)->Err_0))
    } else if text_field(d, "output_folder"@) is None {
        Err("output_folder"@)
    } else if text_field(d, "last_published"@) is None {
        Err("last_published"@)
    } else if text_field(d, "updated_at"@) is None {
        Err("updated_at"@)
    } else if text_field(d, "created_at"@) is None {
        Err("created_at"@)
    } else {
        Ok(
            ProjectView {
                uuid: text_field(d, "uuid"@)->Some_0,
                name: text_field(d, "name"@)->Some_0,
                repository: text_field(d, "repository"@)->Some_0,
                commands: commands_of(doc_field(d, "commands"@)->Some_0@)->Ok_0,
                output_folder: text_field(d, "output_folder"@)->Some_0,
                last_published: text_field(d, "last_published"@)->Some_0,
                updated_at: text_field(d, "updated_at"@)->Some_0,
                created_at: text_field(d, "created_at"@)->Some_0,
            },
        )
    }
}

/// Field `k` of a project document is present and well formed.
pub open spec fn project_field_ok(d: Map<Seq<char>, AttributeValue>, k: Seq<char>) -> bool {
    if k == "commands"@ {
        doc_field(d, k) is Some && commands_of(doc_field(d, k)->Some_0@) is Ok
    } else {
        text_field(d, k) is Some
    }
}

/// `d` is the document form of the project `p`.
pub open spec fn is_project_doc(d: Map<Seq<char>, AttributeValue>, p: ProjectView) -> bool {
    &&& d.dom() == project_fields().to_set()
    &&& text_field(d, "uuid"@) == Some(p.uuid)
    &&& text_field(d, "name"@) == Some(p.name)
    &&& text_field(d, "repository"@) == Some(p.repository)
    &&& doc_field(d, "commands"@) matches Some(m) && is_commands_doc(m@, p.commands)
    &&& text_field(d, "output_folder"@) == Some(p.output_folder)
    &&& text_field(d, "last_published"@) == Some(p.last_published)
    &&& text_field(d, "updated_at"@) == Some(p.updated_at)
    &&& text_field(d, "created_at"@) == Some(p.created_at)
}

proof fn lemma_project_keys()
    ensures
        "uuid"@.len() == 4 && "uuid"@[0] == 'u',
        "name"@.len() == 4 && "name"@[0] == 'n',
        "repository"@.len() == 10 && "repository"@[0] == 'r',
        "commands"@.len() == 8 && "commands"@[0] == 'c',
        "output_folder"@.len() == 13 && "output_folder"@[0] == 'o',
        "last_published"@.len() == 14 && "last_published"@[0] == 'l',
        "updated_at"@.len() == 10 && "updated_at"@[0] == 'u',
        "created_at"@.len() == 10 && "created_at"@[0] == 'c',
        project_fields() == seq!["uuid"@, "name"@, "repository"@, "commands"@, "output_folder"@, "last_published"@, "updated_at"@, "created_at"@],
{
    reveal_strlit("uuid");
    reveal_strlit("name");
    reveal_strlit("repository");
    reveal_strlit("commands");
    reveal_strlit("output_folder");
    reveal_strlit("last_published");
    reveal_strlit("updated_at");
    reveal_strlit("created_at");
}

impl Project {
    /// The document form of this project.
    pub fn as_hashmap(&self) -> (r: Document)
        ensures
            is_project_doc(r@, self@),
            r.key_seq() == project_fields(),
    {
        let mut map = Document::new();
        map.insert(owned("uuid"), AttributeValue::S(self.uuid.clone()));
        map.insert(owned("name"), AttributeValue::S(self.name.clone()));
        map.insert(owned("repository"), AttributeValue::S(self.repository.clone()));
        map.insert(owned("commands"), self.commands.as_attr());
        map.insert(owned("output_folder"), AttributeValue::S(self.output_folder.clone()));
        map.insert(owned("last_published"), AttributeValue::S(self.last_published.clone()));
        map.insert(owned("updated_at"), AttributeValue::S(self.updated_at.clone()));
        map.insert(owned("created_at"), AttributeValue::S(self.created_at.clone()));
        proof {
            lemma_project_keys();
        }
        assert(map@.dom() =~= project_fields().to_set());
        map
    }

    /// This project as a nested document value.
    pub fn as_attr(&self) -> (r: AttributeValue)
        ensures
            r matches AttributeValue::M(d) && is_project_doc(d@, self@),
    {
        AttributeValue::M(self.as_hashmap())
    }
}

/// Reads `Project` values out of documents.
pub struct ProjectParser;

impl ProjectParser {
    /// The project that `item` holds; fails naming the first field, in declared
    /// order, that is absent or of another shape.
    pub fn parse(item: Document) -> (r: Result<Project, MissingModelPropertyError>)
        ensures
            match project_of(item@) {
                Ok(p) => r is Ok && r->Ok_0@ == p,
                Err(n) => r is Err && r->Err_0.name@ == n,
            },
    {
        ProjectParser::from_document(&item)
    }

    /// As `parse`, on a borrowed document.
    pub fn from_document(item: &Document) -> (r: Result<Project, MissingModelPropertyError>)
        ensures
            match project_of(item@) {
                Ok(p) => r is Ok && r->Ok_0@ == p,
                Err(n) => r is Err && r->Err_0.name@ == n,
            },
    {
        let uuid = read_text(item, "uuid")?;
        let name = read_text(item, "name")?;
        let repository = read_text(item, "repository")?;
        let commands_doc = read_doc(item, "commands")?;
        let commands = match CommandsParser::from_document(commands_doc) {
            Ok(c) => c,
            Err(e) => return Err(nested_error("commands", e.name.as_str())),
        };
        let output_folder = read_text(item, "output_folder")?;
        let last_published = read_text(item, "last_published")?;
        let updated_at = read_text(item, "updated_at")?;
        let created_at = read_text(item, "created_at")?;
        Ok(
            Project {
                uuid,
                name,
                repository,
                commands,
                output_folder,
                last_published,
                updated_at,
                created_at,
            },
        )
    }
}

impl ProjectParser {
    /// The project that a fetch returned: `None` when nothing was found, and also
    /// when the stored document does not parse.
    pub fn from_fetched(item: Option<Document>) -> (r: Option<Project>)
        ensures
            match item {
                None => r is None,
                Some(d) => match project_of(d@) {
                    Ok(p) => r is Some && r->Some_0@ == p,
                    Err(_) => r is None,
                },
            },
    {
        match item {
            Some(d) => match ProjectParser::from_document(&d) {
                Ok(project) => Some(project),
                Err(_) => None,
            },
            None => None,
        }
    }

    /// The projects that `items` hold, in order; documents that do not parse are
    /// left out.
    pub fn parse_items(items: &Vec<Document>) -> (r: Vec<Project>)
        ensures
            r@.map_values(|p: Project| p@) == parsed_projects(items@),
    {
        let mut out: Vec<Project> = Vec::new();
        let mut i: usize = 0;
        while i < items.len()
            invariant
                i <= items@.len(),
                out@.map_values(|p: Project| p@) == parsed_projects(items@.subrange(0, i as int)),
            decreases items@.len() - i,
        {
            assert(items@.subrange(0, i + 1).drop_last() =~= items@.subrange(0, i as int));
            let ghost before = out@;
            match ProjectParser::from_document(&items[i]) {
                Ok(p) => {
                    out.push(p);
                    assert(out@.map_values(|p: Project| p@) =~= before.map_values(|p: Project| p@).push(
                        out@.last()@,
                    ));
                },
                Err(_) => {},
            }
            i = i + 1;
        }
        assert(items@.subrange(0, items@.len() as int) =~= items@);
        out
    }
}

/// The projects that the parseable documents among `items` hold, in order.
pub open spec fn parsed_projects(items: Seq<Document>) -> Seq<ProjectView>
    decreases items.len(),
{
    if items.len() == 0 {
        Seq::empty()
    } else {
        let rest = parsed_projects(items.drop_last());
        match project_of(items.last()@) {
            Ok(p) => rest.push(p),
            Err(_) => rest,
        }
    }
}

/// Reading the document form of a project whose commands are well formed gives
/// that project back.
pub proof fn lemma_project_round_trip(d: Map<Seq<char>, AttributeValue>, p: ProjectView)
    requires
        is_project_doc(d, p),
        p.commands.wf(),
    ensures
        project_of(d) == Ok::<ProjectView, Seq<char>>(p),
{
    lemma_commands_round_trip(doc_field(d, "commands"@)->Some_0@, p.commands);
}

/// Project parsing fails fast in declared field order: when field `i` is absent
/// and every field before it is well formed, the error names field `i`, whatever
/// else is absent after it.
pub proof fn lemma_project_fail_fast(d: Map<Seq<char>, AttributeValue>, i: int)
    requires
        0 <= i < project_fields().len(),
        !d.contains_key(project_fields()[i]),
        forall|j: int| 0 <= j < i ==> project_field_ok(d, #[trigger] project_fields()[j]),
    ensures
        project_of(d) == Err::<ProjectView, Seq<char>>(project_fields()[i]),
{
    lemma_project_keys();
    let f = project_fields();
    if i > 0 {
        assert(project_field_ok(d, f[0]));
    }
    if i > 1 {
        assert(project_field_ok(d, f[1]));
    }
    if i > 2 {
        assert(project_field_ok(d, f[2]));
    }
    if i > 3 {
        assert(project_field_ok(d, f[3]));
    }
    if i > 4 {
        assert(project_field_ok(d, f[4]));
    }
    if i > 5 {
        assert(project_field_ok(d, f[5]));
    }
    if i > 6 {
        assert(project_field_ok(d, f[6]));
    }
}

} // verus!
