//! Compiling a sparse update payload into an update expression with alias tables.
use vstd::prelude::*;
use crate::clock::now_rfc3339;
use crate::document::{AttributeValue, Document};
use crate::text::{join2, owned};

verus! {

/// An update of a stored record: the name aliases (`#field` to `field`), the
/// value aliases (`:field` to its new value), and the expression that sets each
/// field to its value.
#[derive(Debug)]
pub struct HandlerUpdateExpressions {
    pub attribute_names: Vec<(String, String)>,
    pub attribute_values: Document,
    pub update_expression: String,
}

/// The clause that sets field `k`.
pub open spec fn clause(k: Seq<char>) -> Seq<char> {
    "#"@ + k + " = :"@ + k
}

/// The clauses of an update of the fields `keys`: first the one that stamps
/// `updated_at`, then one per field, in order.
pub open spec fn clauses_of(keys: Seq<Seq<char>>) -> Seq<Seq<char>> {
    seq![clause("updated_at"@)] + keys.map_values(|k: Seq<char>| clause(k))
}

/// The clauses joined by `, `, with no separator after the last.
pub open spec fn joined(cs: Seq<Seq<char>>) -> Seq<char>
    decreases cs.len(),
{
    if cs.len() == 0 {
        Seq::empty()
    } else if cs.len() == 1 {
        cs[0]
    } else {
        joined(cs.drop_last()) + ", "@ + cs.last()
    }
}

/// The update expression for the fields `keys`.
pub open spec fn update_expression_of(keys: Seq<Seq<char>>) -> Seq<char> {
    "SET "@ + joined(clauses_of(keys))
}

/// The name alias table for the fields `keys`: `#updated_at`, then one entry
/// per field, in order.
pub open spec fn names_of(keys: Seq<Seq<char>>) -> Seq<(Seq<char>, Seq<char>)> {
    seq![("#updated_at"@, "updated_at"@)] + keys.map_values(|k: Seq<char>| ("#"@ + k, k))
}

/// The views of the name alias table.
pub open spec fn names_view(v: Seq<(String, String)>) -> Seq<(Seq<char>, Seq<char>)> {
    v.map_values(|e: (String, String)| (e.0@, e.1@))
}

/// The field that value alias `a` stands for.
pub open spec fn alias_source(payload: Map<Seq<char>, AttributeValue>, a: Seq<char>) -> Seq<char> {
    choose|k: Seq<char>| payload.contains_key(k) && a == ":"@ + k
}

/// The value alias table for an update of `payload` at `timestamp`: `:k` holds
/// the new value of each field `k`, and `:updated_at` the timestamp unless the
/// payload sets `updated_at` itself.
pub open spec fn values_of(payload: Map<Seq<char>, AttributeValue>, stamp: AttributeValue) -> Map<Seq<char>, AttributeValue> {
    Map::new(
        |a: Seq<char>| a == ":updated_at"@ || exists|k: Seq<char>| payload.contains_key(k) && a == ":"@ + k,
        |a: Seq<char>|
            if exists|k: Seq<char>| payload.contains_key(k) && a == ":"@ + k {
                payload[alias_source(payload, a)]
            } else {
                stamp
            },
    )
}

proof fn lemma_prefix_injective(p: Seq<char>, a: Seq<char>, b: Seq<char>)
    requires
        p + a == p + b,
    ensures
        a == b,
{
    assert(a =~= (p + a).subrange(p.len() as int, (p + a).len() as int));
    assert(b =~= (p + b).subrange(p.len() as int, (p + b).len() as int));
}

/// Compiles `payload` into an update stamped with the current time.
pub fn get_update_expressions(payload: Document) -> (r: HandlerUpdateExpressions)
    ensures
        payload.key_seq().no_duplicates(),
        forall|k: Seq<char>| #[trigger] payload@.contains_key(k) <==> payload.key_seq().contains(k),
        exists|stamp: AttributeValue|
            #![trigger values_of(payload@, stamp)]
            stamp is S && r.attribute_values@ == values_of(payload@, stamp),
        names_view(r.attribute_names@) == names_of(payload.key_seq()),
        r.update_expression@ == update_expression_of(payload.key_seq()),
{
    let timestamp = now_rfc3339();
    get_update_expressions_at(payload, timestamp)
}

/// Compiles `payload` into an update stamped with `timestamp`.
pub fn get_update_expressions_at(payload: Document, timestamp: String) -> (r: HandlerUpdateExpressions)
    ensures
        payload.key_seq().no_duplicates(),
        forall|k: Seq<char>| #[trigger] payload@.contains_key(k) <==> payload.key_seq().contains(k),
        r.attribute_values@ == values_of(payload@, AttributeValue::S(timestamp)),
        names_view(r.attribute_names@) == names_of(payload.key_seq()),
        r.update_expression@ == update_expression_of(payload.key_seq()),
{
    let ghost keys = payload.key_seq();
    let ghost pmap = payload@;
    let ghost stamp = AttributeValue::S(timestamp);
    let mut attribute_names: Vec<(String, String)> = Vec::new();
    let mut attribute_values = Document::new();
    attribute_names.push((owned("#updated_at"), owned("updated_at")));
    attribute_values.insert(owned(":updated_at"), AttributeValue::S(timestamp));
    let mut update_expression = owned("SET #updated_at = :updated_at");
    proof {
        reveal_strlit("#updated_at");
        reveal_strlit("updated_at");
        reveal_strlit("#");
        reveal_strlit(" = :");
        reveal_strlit("SET #updated_at = :updated_at");
        reveal_strlit("SET ");
        assert("SET #updated_at = :updated_at"@ =~= "SET "@ + clause("updated_at"@));
        assert("#updated_at"@ =~= "#"@ + "updated_at"@);
        assert(clauses_of(keys.subrange(0, 0)) =~= seq![clause("updated_at"@)]);
        assert(names_view(attribute_names@) =~= names_of(keys.subrange(0, 0)));
    }
    let mut entries = payload.into_entries();
    let ghost all = entries@;
    let n = entries.len();
    let mut i: usize = 0;
    while entries.len() > 0
        invariant
            i + entries@.len() == keys.len(),
            all.len() == keys.len(),
            entries@ == all.subrange(i as int, all.len() as int),
            forall|j: int| 0 <= j < all.len() ==> (#[trigger] all[j]).0@ == keys[j] && all[j].1 == pmap[keys[j]],
            keys.no_duplicates(),
            forall|k: Seq<char>| #[trigger] pmap.contains_key(k) <==> keys.contains(k),
            names_view(attribute_names@) == names_of(keys.subrange(0, i as int)),
            update_expression@ == "SET "@ + joined(clauses_of(keys.subrange(0, i as int))),
            n == keys.len(),
            forall|a: Seq<char>| #[trigger] attribute_values@.contains_key(a) <==> (a == ":updated_at"@ || exists|j: int|
                0 <= j < i && a == ":"@ + keys[j]),
            forall|j: int| 0 <= j < i ==> attribute_values@[":"@ + #[trigger] keys[j]] == pmap[keys[j]],
            !keys.subrange(0, i as int).contains("updated_at"@) ==> attribute_values@[":updated_at"@] == stamp,
        decreases entries@.len(),
    {
        let (k, v) = entries.remove(0);
        assert(all[i as int] == (k, v));
        let ghost prev = keys.subrange(0, i as int);
        let ghost next = keys.subrange(0, i + 1);
        assert(next =~= prev.push(k@));
        let name_key = join2("#", k.as_str());
        let value_key = join2(":", k.as_str());
        let clause_head = join2(", ", name_key.as_str());
        let clause_mid = join2(clause_head.as_str(), " = ");
        let clause_all = join2(clause_mid.as_str(), value_key.as_str());
        update_expression = join2(update_expression.as_str(), clause_all.as_str());
        let ghost before_names = attribute_names@;
        let ghost before_values = attribute_values@;
        let ghost kk = k@;
        let ghost nk = name_key@;
        attribute_values.insert(value_key, v);
        attribute_names.push((name_key, k));
        proof {
            reveal_strlit(":");
            reveal_strlit(", ");
            reveal_strlit(" = ");
            reveal_strlit(" = :");
            reveal_strlit(":updated_at");
            reveal_strlit("updated_at");
            assert(" = :"@ =~= " = "@ + ":"@);
            assert(clauses_of(next) =~= clauses_of(prev).push(clause(k@)));
            assert(clauses_of(next).drop_last() =~= clauses_of(prev));
            assert(update_expression@ =~= "SET "@ + joined(clauses_of(next)));
            assert(names_view(attribute_names@) =~= names_view(before_names).push((nk, kk)));
            assert(names_of(next) =~= names_of(prev).push(("#"@ + kk, kk)));
            assert(names_view(attribute_names@) =~= names_of(next));
            assert forall|j: int| 0 <= j < i + 1 implies attribute_values@[":"@ + #[trigger] keys[j]]
                == pmap[keys[j]] by {
                if j < i {
                    if ":"@ + keys[j] == ":"@ + k@ {
                        lemma_prefix_injective(":"@, keys[j], k@);
                        assert(keys[j] == keys[i as int]);
                    }
                }
            }
            assert forall|a: Seq<char>| #[trigger] attribute_values@.contains_key(a) <==> (a == ":updated_at"@
                || exists|j: int| 0 <= j < i + 1 && a == ":"@ + keys[j]) by {
                if a == ":"@ + kk {
                    assert(a == ":"@ + keys[i as int]);
                }
                if exists|j: int| 0 <= j < i + 1 && a == ":"@ + keys[j] {
                    let j = choose|j: int| 0 <= j < i + 1 && a == ":"@ + keys[j];
                    if j < i {
                        assert(before_values.contains_key(a));
                    }
                }
            }
            if !next.contains("updated_at"@) {
                assert(k@ != "updated_at"@);
                assert(":updated_at"@ =~= ":"@ + "updated_at"@);
                if ":"@ + k@ == ":updated_at"@ {
                    lemma_prefix_injective(":"@, k@, "updated_at"@);
                }
                assert(!prev.contains("updated_at"@)) by {
                    if prev.contains("updated_at"@) {
                        let w = choose|w: int| 0 <= w < prev.len() && prev[w] == "updated_at"@;
                        assert(next[w] == "updated_at"@);
                    }
                }
            }
        }
        i = i + 1;
    }
    proof {
        assert(keys.subrange(0, i as int) =~= keys);
        reveal_strlit(":");
        reveal_strlit(":updated_at");
        reveal_strlit("updated_at");
        assert(":updated_at"@ =~= ":"@ + "updated_at"@);
        let expected = values_of(pmap, stamp);
        assert forall|a: Seq<char>| attribute_values@.contains_key(a) <==> expected.contains_key(a) by {
            if exists|k: Seq<char>| pmap.contains_key(k) && a == ":"@ + k {
                let k = choose|k: Seq<char>| pmap.contains_key(k) && a == ":"@ + k;
                assert(keys.contains(k));
                let j = choose|j: int| 0 <= j < keys.len() && keys[j] == k;
                assert(a == ":"@ + keys[j]);
            }
            if a != ":updated_at"@ && attribute_values@.contains_key(a) {
                let j = choose|j: int| 0 <= j < i && a == ":"@ + keys[j];
                assert(keys.contains(keys[j]));
                assert(pmap.contains_key(keys[j]));
            }
        }
        assert forall|a: Seq<char>| attribute_values@.contains_key(a) implies attribute_values@[a]
            == expected[a] by {
            if exists|k: Seq<char>| pmap.contains_key(k) && a == ":"@ + k {
                let k = alias_source(pmap, a);
                let j = choose|j: int| 0 <= j < keys.len() && keys[j] == k;
                assert(attribute_values@[":"@ + keys[j]] == pmap[keys[j]]);
            } else {
                assert(a == ":updated_at"@);
                if keys.contains("updated_at"@) {
                    assert(pmap.contains_key("updated_at"@));
                }
            }
        }
        assert(attribute_values@ =~= expected);
    }
    HandlerUpdateExpressions { attribute_names, attribute_values, update_expression }
}

proof fn lemma_joined_ends_with_last(cs: Seq<Seq<char>>)
    requires
        cs.len() >= 1,
    ensures
        joined(cs).len() >= cs.last().len(),
        joined(cs).subrange(joined(cs).len() - cs.last().len(), joined(cs).len() as int) == cs.last(),
{
    let j = joined(cs);
    if cs.len() > 1 {
        assert(j == joined(cs.drop_last()) + ", "@ + cs.last());
    }
    assert(j.subrange(j.len() - cs.last().len(), j.len() as int) =~= cs.last());
}

/// The update of `N` fields has `N + 1` clauses: the `updated_at` stamp first,
/// then one per field in order; the expression is `SET ` followed by them joined
/// with `, `, and it ends with the last clause, so no separator trails it.
pub proof fn lemma_update_shape(keys: Seq<Seq<char>>)
    ensures
        clauses_of(keys).len() == keys.len() + 1,
        clauses_of(keys)[0] == clause("updated_at"@),
        forall|i: int| 0 <= i < keys.len() ==> clauses_of(keys)[i + 1] == clause(#[trigger] keys[i]),
        update_expression_of(keys) == "SET "@ + joined(clauses_of(keys)),
        ({
            let e = update_expression_of(keys);
            let last = clauses_of(keys).last();
            e.len() >= last.len() && e.subrange(e.len() - last.len(), e.len() as int) == last
        }),
{
    let cs = clauses_of(keys);
    lemma_joined_ends_with_last(cs);
    let e = update_expression_of(keys);
    let j = joined(cs);
    assert(e.subrange(e.len() - cs.last().len(), e.len() as int) =~= j.subrange(
        j.len() - cs.last().len(),
        j.len() as int,
    ));
}

/// An update with no field sets only the `updated_at` stamp.
pub proof fn lemma_empty_update()
    ensures
        update_expression_of(Seq::empty()) == "SET #updated_at = :updated_at"@,
        names_of(Seq::empty()) == seq![("#updated_at"@, "updated_at"@)],
{
    reveal_strlit("SET #updated_at = :updated_at");
    reveal_strlit("SET ");
    reveal_strlit("#");
    reveal_strlit("updated_at");
    reveal_strlit(" = :");
    assert(clauses_of(Seq::empty()) =~= seq![clause("updated_at"@)]);
    assert(update_expression_of(Seq::empty()) =~= "SET #updated_at = :updated_at"@);
    assert(names_of(Seq::empty()) =~= seq![("#updated_at"@, "updated_at"@)]);
}

/// Each field of the payload has a value alias, holding its new value, and a
/// name alias.
pub proof fn lemma_aliases_cover_fields(
    payload: Map<Seq<char>, AttributeValue>,
    keys: Seq<Seq<char>>,
    stamp: AttributeValue,
    i: int,
)
    requires
        0 <= i < keys.len(),
        payload.contains_key(keys[i]),
    ensures
        values_of(payload, stamp).contains_key(":"@ + keys[i]),
        values_of(payload, stamp)[":"@ + keys[i]] == payload[keys[i]],
        names_of(keys).contains(("#"@ + keys[i], keys[i])),
{
    let k = keys[i];
    let a = ":"@ + k;
    assert(payload.contains_key(k) && a == ":"@ + k);
    let c = alias_source(payload, a);
    lemma_prefix_injective(":"@, c, k);
    assert(names_of(keys)[i + 1] == ("#"@ + k, k));
}

} // verus!
