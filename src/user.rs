//! Users, and their document form.
use vstd::prelude::*;
use crate::clock::{new_uuid, now_rfc3339};
use crate::document::{AttributeValue, Document};
use crate::errors::MissingModelPropertyError;
use crate::fields::{read_text, text_field};
use crate::text::owned;

verus! {

/// A user.
#[derive(Debug)]
pub struct User {
    pub uuid: String,
    pub fname: String,
    pub lname: String,
    pub updated_at: String,
    pub created_at: String,
}

/// The content of a `User`.
pub struct UserView {
    pub uuid: Seq<char>,
    pub fname: Seq<char>,
    pub lname: Seq<char>,
    pub updated_at: Seq<char>,
    pub created_at: Seq<char>,
}

impl View for User {
    type V = UserView;

    open spec fn view(&self) -> UserView {
        UserView { uuid: self.uuid@, fname: self.fname@, lname: self.lname@, updated_at: self.updated_at@, created_at: self.created_at@ }
    }
}

/// What a client gives to create a user.
#[derive(Debug)]
pub struct UserCreatePayload {
    pub fname: String,
    pub lname: String,
}

impl User {
    /// Creates a user from `payload` under a fresh identifier, stamped with the
    /// current time.
    pub fn new(payload: UserCreatePayload) -> (r: Self)
        ensures
            r.fname == payload.fname,
            r.lname == payload.lname,
            r.updated_at@ == r.created_at@,
    {
        let uuid = new_uuid();
        let timestamp = now_rfc3339();
        User::new_with(payload, uuid, timestamp)
    }

    /// Creates a user from `payload` under identifier `uuid` at time `timestamp`.
    pub fn new_with(payload: UserCreatePayload, uuid: String, timestamp: String) -> (r: Self)
        ensures
            r.uuid == uuid,
            r.fname == payload.fname,
            r.lname == payload.lname,
            r.updated_at@ == timestamp@,
            r.created_at == timestamp,
    {
        User {
            uuid,
            fname: payload.fname,
            lname: payload.lname,
            updated_at: timestamp.clone(),
            created_at: timestamp,
        }
    }

    /// The document form of this user.
    pub fn as_hashmap(&self) -> (r: Document)
        ensures
            is_user_doc(r@, self@),
            r.key_seq() == user_fields(),
    {
        let mut map = Document::new();
        map.insert(owned("uuid"), AttributeValue::S(self.uuid.clone()));
        map.insert(owned("fname"), AttributeValue::S(self.fname.clone()));
        map.insert(owned("lname"), AttributeValue::S(self.lname.clone()));
        map.insert(owned("updated_at"), AttributeValue::S(self.updated_at.clone()));
        map.insert(owned("created_at"), AttributeValue::S(self.created_at.clone()));
        proof {
            lemma_user_keys();
        }
        assert(map@.dom() =~= user_fields().to_set());
        map
    }

    /// This user as a nested document value.
    pub fn as_attr(&self) -> (r: AttributeValue)
        ensures
            r matches AttributeValue::M(d) && is_user_doc(d@, self@),
    {
        AttributeValue::M(self.as_hashmap())
    }
}

/// The fields of a user document, in the order they are checked.
pub open spec fn user_fields() -> Seq<Seq<char>> {
    seq!["uuid"@, "fname"@, "lname"@, "updated_at"@, "created_at"@]
}

/// The user that a user document holds, or the name of the first field, in
/// declared order, that is absent or not a string.
pub open spec fn user_of(d: Map<Seq<char>, AttributeValue>) -> Result<UserView, Seq<char>> {
    if text_field(d, "uuid"@) is None {
        Err("uuid"@)
    } else if text_field(d, "fname"@) is None {
        Err("fname"@)
    } else if text_field(d, "lname"@) is None {
        Err("lname"@)
    } else if text_field(d, "updated_at"@) is None {
        Err("updated_at"@)
    } else if text_field(d, "created_at"@) is None {
        Err("created_at"@)
    } else {
        Ok(UserView { uuid: text_field(d, "uuid"@)->Some_0, fname: text_field(d, "fname"@)->Some_0, lname: text_field(d, "lname"@)->Some_0, updated_at: text_field(d, "updated_at"@)->Some_0, created_at: text_field(d, "created_at"@)->Some_0 })
    }
}

/// `d` is the document form of the user `u`.
pub open spec fn is_user_doc(d: Map<Seq<char>, AttributeValue>, u: UserView) -> bool {
    &&& d.dom() == user_fields().to_set()
    &&& text_field(d, "uuid"@) == Some(u.uuid)
    &&& text_field(d, "fname"@) == Some(u.fname)
    &&& text_field(d, "lname"@) == Some(u.lname)
    &&& text_field(d, "updated_at"@) == Some(u.updated_at)
    &&& text_field(d, "created_at"@) == Some(u.created_at)
}

proof fn lemma_user_keys()
    ensures
        "uuid"@.len() == 4 && "uuid"@[0] == 'u',
        "fname"@.len() == 5 && "fname"@[0] == 'f',
        "lname"@.len() == 5 && "lname"@[0] == 'l',
        "updated_at"@.len() == 10 && "updated_at"@[0] == 'u',
        "created_at"@.len() == 10 && "created_at"@[0] == 'c',
        user_fields() == seq!["uuid"@, "fname"@, "lname"@, "updated_at"@, "created_at"@],
{
    reveal_strlit("uuid");
    reveal_strlit("fname");
    reveal_strlit("lname");
    reveal_strlit("updated_at");
    reveal_strlit("created_at");
}

/// The users that the parseable documents among `items` hold, in order.
pub open spec fn parsed_users(items: Seq<Document>) -> Seq<UserView>
    decreases items.len(),
{
    if items.len() == 0 {
        Seq::empty()
    } else {
        let rest = parsed_users(items.drop_last());
        match user_of(items.last()@) {
            Ok(u) => rest.push(u),
            Err(_) => rest,
        }
    }
}

/// Reads `User` values out of documents.
pub struct UsersParser;

impl UsersParser {
    /// The user that `item` holds; fails naming the first field, in declared
    /// order, that is absent or not a string.
    pub fn parse(item: Document) -> (r: Result<User, MissingModelPropertyError>)
        ensures
            match user_of(item@) {
                Ok(u) => r is Ok && r->Ok_0@ == u,
                Err(n) => r is Err && r->Err_0.name@ == n,
            },
    {
        UsersParser::from_document(&item)
    }

    /// As `parse`, on a borrowed document.
    pub fn from_document(item: &Document) -> (r: Result<User, MissingModelPropertyError>)
        ensures
            match user_of(item@) {
                Ok(u) => r is Ok && r->Ok_0@ == u,
                Err(n) => r is Err && r->Err_0.name@ == n,
            },
    {
        let uuid = read_text(item, "uuid")?;
        let fname = read_text(item, "fname")?;
        let lname = read_text(item, "lname")?;
        let updated_at = read_text(item, "updated_at")?;
        let created_at = read_text(item, "created_at")?;
        Ok(User { uuid, fname, lname, updated_at, created_at })
    }

    /// The users that `items` hold, in order; documents that do not parse are
    /// left out.
    pub fn parse_items(items: &Vec<Document>) -> (r: Vec<User>)
        ensures
            r@.map_values(|u: User| u@) == parsed_users(items@),
    {
        let mut out: Vec<User> = Vec::new();
        let mut i: usize = 0;
        while i < items.len()
            invariant
                i <= items@.len(),
                out@.map_values(|u: User| u@) == parsed_users(items@.subrange(0, i as int)),
            decreases items@.len() - i,
        {
            assert(items@.subrange(0, i + 1).drop_last() =~= items@.subrange(0, i as int));
            let ghost before = out@;
            match UsersParser::from_document(&items[i]) {
                Ok(u) => {
                    out.push(u);
                    assert(out@.map_values(|u: User| u@) =~= before.map_values(|u: User| u@).push(
                        out@.last()@,
                    ));
                },
                Err(_) => {},
            }
            i = i + 1;
        }
        assert(items@.subrange(0, items@.len() as int) =~= items@);
        out
    }
}

/// Reading the document form of a user gives that user back.
pub proof fn lemma_user_round_trip(d: Map<Seq<char>, AttributeValue>, u: UserView)
    requires
        is_user_doc(d, u),
    ensures
        user_of(d) == Ok::<UserView, Seq<char>>(u),
{
}

/// User parsing fails fast in declared field order: when field `i` is absent and
/// every field before it is a string, the error names field `i`, whatever else is
/// absent after it.
pub proof fn lemma_user_fail_fast(d: Map<Seq<char>, AttributeValue>, i: int)
    requires
        0 <= i < user_fields().len(),
        !d.contains_key(user_fields()[i]),
        forall|j: int| 0 <= j < i ==> text_field(d, #[trigger] user_fields()[j]) is Some,
    ensures
        user_of(d) == Err::<UserView, Seq<char>>(user_fields()[i]),
{
    lemma_user_keys();
    let f = user_fields();
    if i > 0 {
        assert(text_field(d, f[0]) is Some);
    }
    if i > 1 {
        assert(text_field(d, f[1]) is Some);
    }
    if i > 2 {
        assert(text_field(d, f[2]) is Some);
    }
    if i > 3 {
        assert(text_field(d, f[3]) is Some);
    }
}

} // verus!
