//! Build commands of a project, and their document form.
use vstd::prelude::*;
use crate::document::{AttributeValue, Document};
use crate::errors::MissingRequiredCommandError;
use crate::fields::{read_text_list, text_list, text_list_field, texts};
use crate::text::owned;

verus! {

/// The shell commands run before and during the build step.
#[derive(Debug)]
pub struct Commands {
    pub pre_build: Vec<String>,
    pub build: Vec<String>,
}

/// The content of a `Commands` value.
pub struct CommandsView {
    pub pre_build: Seq<Seq<char>>,
    pub build: Seq<Seq<char>>,
}

impl View for Commands {
    type V = CommandsView;

    open spec fn view(&self) -> CommandsView {
        CommandsView { pre_build: texts(self.pre_build@), build: texts(self.build@) }
    }
}

impl CommandsView {
    /// Each list holds at least one command.
    pub open spec fn wf(self) -> bool {
        self.pre_build.len() > 0 && self.build.len() > 0
    }
}

/// The pre-build commands used when none are configured.
pub open spec fn default_pre_build() -> Seq<Seq<char>> {
    seq!["npm install"@]
}

/// The build commands used when none are configured.
pub open spec fn default_build() -> Seq<Seq<char>> {
    seq!["npm run build"@]
}

/// The default commands.
pub open spec fn default_commands() -> CommandsView {
    CommandsView { pre_build: default_pre_build(), build: default_build() }
}

/// `given` when it holds a command, else `default`.
pub open spec fn or_default(given: Seq<Seq<char>>, default: Seq<Seq<char>>) -> Seq<Seq<char>> {
    if given.len() > 0 {
        given
    } else {
        default
    }
}

/// The commands chosen from an optional list: the list when it holds a command,
/// else `default`.
pub open spec fn chosen(given: Option<Vec<String>>, default: Seq<Seq<char>>) -> Seq<Seq<char>> {
    match given {
        Some(v) => or_default(texts(v@), default),
        None => default,
    }
}

/// The commands that a commands document holds, or the name of the first list
/// that is absent or not a list of strings.
pub open spec fn commands_of(d: Map<Seq<char>, AttributeValue>) -> Result<CommandsView, Seq<char>> {
    if text_list_field(d, "pre_build"@) is None {
        Err("pre_build"@)
    } else if text_list_field(d, "build"@) is None {
        Err("build"@)
    } else {
        Ok(
            CommandsView {
                pre_build: or_default(text_list_field(d, "pre_build"@)->Some_0, default_pre_build()),
                build: or_default(text_list_field(d, "build"@)->Some_0, default_build()),
            },
        )
    }
}

/// `d` is the document form of the commands `c`.
pub open spec fn is_commands_doc(d: Map<Seq<char>, AttributeValue>, c: CommandsView) -> bool {
    &&& d.dom() == set!["pre_build"@, "build"@]
    &&& text_list_field(d, "pre_build"@) == Some(c.pre_build)
    &&& text_list_field(d, "build"@) == Some(c.build)
}

/// A list value holding the given strings.
pub fn text_list_value(v: &Vec<String>) -> (r: AttributeValue)
    ensures
        text_list(r) == Some(texts(v@)),
{
    let mut out: Vec<AttributeValue> = Vec::new();
    let mut i: usize = 0;
    while i < v.len()
        invariant
            i <= v@.len(),
            out@.len() == i,
            forall|j: int| 0 <= j < i ==> (#[trigger] out@[j]) is S && out@[j]->S_0@ == v@[j]@,
        decreases v@.len() - i,
    {
        out.push(AttributeValue::S(v[i].clone()));
        i = i + 1;
    }
    let r = AttributeValue::L(out);
    assert(out@.map_values(|x: AttributeValue| x->S_0@) =~= texts(v@));
    r
}

impl Commands {
    /// The default commands.
    pub fn new_defaults() -> (r: Self)
        ensures
            r@.pre_build == default_pre_build(),
            r@.build == default_build(),
    {
        Commands::new(None, None)
    }

    /// Commands from optional lists; an absent or empty list is replaced by the
    /// default one.
    pub fn new(pre_build: Option<Vec<String>>, build: Option<Vec<String>>) -> (r: Self)
        ensures
            r@.pre_build == chosen(pre_build, default_pre_build()),
            r@.build == chosen(build, default_build()),
            r@.wf(),
    {
        let defaults = Commands::defaults();
        let pre = match pre_build {
            Some(commands) => if commands.len() == 0 {
                defaults.pre_build
            } else {
                commands
            },
            None => defaults.pre_build,
        };
        let bld = match build {
            Some(commands) => if commands.len() == 0 {
                defaults.build
            } else {
                commands
            },
            None => defaults.build,
        };
        Self { pre_build: pre, build: bld }
    }

    /// The default commands: `npm install`, then `npm run build`.
    pub fn defaults() -> (r: Self)
        ensures
            r@.pre_build == default_pre_build(),
            r@.build == default_build(),
            r@.wf(),
    {
        let r = Self { pre_build: vec![owned("npm install")], build: vec![owned("npm run build")] };
        assert(r@.pre_build =~= default_pre_build());
        assert(r@.build =~= default_build());
        r
    }

    /// The document form of these commands.
    pub fn as_hashmap(&self) -> (r: Document)
        ensures
            is_commands_doc(r@, self@),
            r.key_seq() == seq!["pre_build"@, "build"@],
    {
        let mut map = Document::new();
        map.insert(owned("pre_build"), text_list_value(&self.pre_build));
        map.insert(owned("build"), text_list_value(&self.build));
        proof {
            reveal_strlit("pre_build");
            reveal_strlit("build");
            assert("pre_build"@.len() != "build"@.len());
        }
        assert(map@.dom() =~= set!["pre_build"@, "build"@]);
        map
    }

    /// These commands as a nested document value.
    pub fn as_attr(&self) -> (r: AttributeValue)
        ensures
            r matches AttributeValue::M(d) && is_commands_doc(d@, self@),
    {
        AttributeValue::M(self.as_hashmap())
    }
}

/// Reads `Commands` out of documents.
pub struct CommandsParser;

impl CommandsParser {
    /// The commands that `item` holds; fails naming the first list, `pre_build`
    /// then `build`, that is absent or not a list of strings.
    pub fn parse(item: Document) -> (r: Result<Commands, MissingRequiredCommandError>)
        ensures
            match commands_of(item@) {
                Ok(c) => r is Ok && r->Ok_0@ == c,
                Err(n) => r is Err && r->Err_0.name@ == n,
            },
    {
        CommandsParser::from_document(&item)
    }

    /// As `parse`, on a borrowed document.
    pub fn from_document(item: &Document) -> (r: Result<Commands, MissingRequiredCommandError>)
        ensures
            match commands_of(item@) {
                Ok(c) => r is Ok && r->Ok_0@ == c,
                Err(n) => r is Err && r->Err_0.name@ == n,
            },
    {
        let pre = match item.get("pre_build") {
            Some(v) => read_text_list(v),
            None => None,
        };
        let pre = match pre {
            Some(l) => l,
            None => return Err(MissingRequiredCommandError::new("pre_build")),
        };
        let bld = match item.get("build") {
            Some(v) => read_text_list(v),
            None => None,
        };
        let bld = match bld {
            Some(l) => l,
            None => return Err(MissingRequiredCommandError::new("build")),
        };
        Ok(Commands::new(Some(pre), Some(bld)))
    }
}

/// Reading the document form of well-formed commands gives them back.
pub proof fn lemma_commands_round_trip(d: Map<Seq<char>, AttributeValue>, c: CommandsView)
    requires
        is_commands_doc(d, c),
        c.wf(),
    ensures
        commands_of(d) == Ok::<CommandsView, Seq<char>>(c),
{
}

/// Commands parsing fails fast in declared order: without `pre_build` the error
/// names `pre_build`, whether or not `build` is there.
pub proof fn lemma_commands_fail_fast(d: Map<Seq<char>, AttributeValue>)
    requires
        !d.contains_key("pre_build"@),
    ensures
        commands_of(d) == Err::<CommandsView, Seq<char>>("pre_build"@),
{
}

} // verus!
