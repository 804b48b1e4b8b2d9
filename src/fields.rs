//! Reading typed fields out of attribute documents.
use vstd::prelude::*;
use crate::document::{AttributeValue, Document};
use crate::errors::MissingModelPropertyError;
use crate::text::{decimal_value, join2, text_to_i64};

verus! {

/// The views of a sequence of strings.
pub open spec fn texts(v: Seq<String>) -> Seq<Seq<char>> {
    v.map_values(|s: String| s@)
}

/// The string stored under `k`, if `k` holds a string.
pub open spec fn text_field(d: Map<Seq<char>, AttributeValue>, k: Seq<char>) -> Option<Seq<char>> {
    if d.contains_key(k) {
        match d[k] {
            AttributeValue::S(s) => Some(s@),
            _ => None,
        }
    } else {
        None
    }
}

/// The decimal text stored under `k`, if `k` holds a number.
pub open spec fn number_text(d: Map<Seq<char>, AttributeValue>, k: Seq<char>) -> Option<Seq<char>> {
    if d.contains_key(k) {
        match d[k] {
            AttributeValue::N(s) => Some(s@),
            _ => None,
        }
    } else {
        None
    }
}

/// The integer stored under `k`, if `k` holds a number; text that is no
/// 64-bit integer reads as zero.
pub open spec fn number_field(d: Map<Seq<char>, AttributeValue>, k: Seq<char>) -> Option<i64> {
    match number_text(d, k) {
        Some(t) => Some(
            match decimal_value(t) {
                Some(v) => v,
                None => 0,
            },
        ),
        None => None,
    }
}

/// The nested document stored under `k`, if `k` holds one.
pub open spec fn doc_field(d: Map<Seq<char>, AttributeValue>, k: Seq<char>) -> Option<Document> {
    if d.contains_key(k) {
        match d[k] {
            AttributeValue::M(m) => Some(m),
            _ => None,
        }
    } else {
        None
    }
}

/// The strings of a list value, if it is a list of strings only.
pub open spec fn text_list(v: AttributeValue) -> Option<Seq<Seq<char>>> {
    match v {
        AttributeValue::L(l) => if forall|i: int| 0 <= i < l@.len() ==> (#[trigger] l@[i]) is S {
            Some(l@.map_values(|x: AttributeValue| x->S_0@))
        } else {
            None
        },
        _ => None,
    }
}

/// The list of strings stored under `k`, if `k` holds one.
pub open spec fn text_list_field(d: Map<Seq<char>, AttributeValue>, k: Seq<char>) -> Option<Seq<Seq<char>>> {
    if d.contains_key(k) {
        text_list(d[k])
    } else {
        None
    }
}

/// The name that a failure inside the nested document `field` is reported under.
pub open spec fn nested_name(field: Seq<char>, inner: Seq<char>) -> Seq<char> {
    field + "."@ + inner
}

/// Reads the string field `key`.
pub fn read_text(item: &Document, key: &str) -> (r: Result<String, MissingModelPropertyError>)
    ensures
        match text_field(item@, key@) {
            Some(t) => r is Ok && r->Ok_0@ == t,
            None => r is Err && r->Err_0.name@ == key@,
        },
{
    match item.get(key) {
        Some(v) => match v.as_s() {
            Some(s) => Ok(s.clone()),
            None => Err(MissingModelPropertyError::new(key)),
        },
        None => Err(MissingModelPropertyError::new(key)),
    }
}

/// Reads the number field `key`; text that is no 64-bit integer reads as zero.
pub fn read_number(item: &Document, key: &str) -> (r: Result<i64, MissingModelPropertyError>)
    ensures
        match number_field(item@, key@) {
            Some(n) => r == Ok::<i64, MissingModelPropertyError>(n),
            None => r is Err && r->Err_0.name@ == key@,
        },
{
    match item.get(key) {
        Some(v) => match v.as_n() {
            Some(s) => match text_to_i64(s.as_str()) {
                Some(n) => Ok(n),
                None => Ok(0),
            },
            None => Err(MissingModelPropertyError::new(key)),
        },
        None => Err(MissingModelPropertyError::new(key)),
    }
}

/// Reads the nested document field `key`.
pub fn read_doc<'a>(item: &'a Document, key: &str) -> (r: Result<&'a Document, MissingModelPropertyError>)
    ensures
        match doc_field(item@, key@) {
            Some(m) => r is Ok && *r->Ok_0 == m,
            None => r is Err && r->Err_0.name@ == key@,
        },
{
    match item.get(key) {
        Some(v) => match v.as_m() {
            Some(m) => Ok(m),
            None => Err(MissingModelPropertyError::new(key)),
        },
        None => Err(MissingModelPropertyError::new(key)),
    }
}

/// The strings of a list value, if it is a list of strings only.
pub fn read_text_list(v: &AttributeValue) -> (r: Option<Vec<String>>)
    ensures
        match text_list(*v) {
            Some(t) => r is Some && texts(r->Some_0@) == t,
            None => r is None,
        },
{
    match v.as_l() {
        Some(l) => {
            let mut out: Vec<String> = Vec::new();
            let mut i: usize = 0;
            while i < l.len()
                invariant
                    i <= l@.len(),
                    *v == AttributeValue::L(*l),
                    out@.len() == i,
                    forall|j: int| 0 <= j < i ==> (#[trigger] l@[j]) is S && out@[j]@ == l@[j]->S_0@,
                decreases l@.len() - i,
            {
                match l[i].as_s() {
                    Some(s) => out.push(s.clone()),
                    None => {
                        assert(!(l@[i as int] is S));
                        return None;
                    },
                }
                i = i + 1;
            }
            assert(texts(out@) =~= l@.map_values(|x: AttributeValue| x->S_0@));
            Some(out)
        },
        None => None,
    }
}

/// The error for a failure inside the nested document `field`.
pub fn nested_error(field: &str, inner: &str) -> (r: MissingModelPropertyError)
    ensures
        r.name@ == nested_name(field@, inner@),
{
    let head = join2(field, ".");
    MissingModelPropertyError { name: join2(head.as_str(), inner) }
}

} // verus!
