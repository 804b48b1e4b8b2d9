//! Attribute documents: the string-keyed records that entities are stored as.
use vstd::prelude::*;
use crate::text::same_text;

verus! {

/// A value held in an attribute document.
#[derive(Debug)]
pub enum AttributeValue {
    /// A string.
    S(String),
    /// A number, in its decimal text form.
    N(String),
    /// A list of values.
    L(Vec<AttributeValue>),
    /// A nested document.
    M(Document),
}

impl AttributeValue {
    /// The string held, if this is a string.
    pub fn as_s(&self) -> (r: Option<&String>)
        ensures
            r == (match self {
                AttributeValue::S(s) => Some(s),
                _ => None,
            }),
    {
        match self {
            AttributeValue::S(s) => Some(s),
            _ => None,
        }
    }

    /// The decimal text held, if this is a number.
    pub fn as_n(&self) -> (r: Option<&String>)
        ensures
            r == (match self {
                AttributeValue::N(s) => Some(s),
                _ => None,
            }),
    {
        match self {
            AttributeValue::N(s) => Some(s),
            _ => None,
        }
    }

    /// The values held, if this is a list.
    pub fn as_l(&self) -> (r: Option<&Vec<AttributeValue>>)
        ensures
            r == (match self {
                AttributeValue::L(l) => Some(l),
                _ => None,
            }),
    {
        match self {
            AttributeValue::L(l) => Some(l),
            _ => None,
        }
    }

    /// The document held, if this is a nested document.
    pub fn as_m(&self) -> (r: Option<&Document>)
        ensures
            r == (match self {
                AttributeValue::M(m) => Some(m),
                _ => None,
            }),
    {
        match self {
            AttributeValue::M(m) => Some(m),
            _ => None,
        }
    }
}

/// A string-keyed document; each key occurs once, and keys keep the order in
/// which they were first inserted.
#[derive(Debug)]
pub struct Document {
    entries: Vec<(String, AttributeValue)>,
}

impl Document {
    /// The keys, in insertion order.
    pub closed spec fn key_seq(&self) -> Seq<Seq<char>> {
        self.entries@.map_values(|e: (String, AttributeValue)| e.0@)
    }

    #[verifier::type_invariant]
    spec fn keys_unique(&self) -> bool {
        self.key_seq().no_duplicates()
    }

    /// An empty document.
    pub fn new() -> (r: Document)
        ensures
            r@ == Map::<Seq<char>, AttributeValue>::empty(),
            r.key_seq() == Seq::<Seq<char>>::empty(),
    {
        let r = Document { entries: Vec::new() };
        assert(r.key_seq() =~= Seq::<Seq<char>>::empty());
        assert(r@ =~= Map::<Seq<char>, AttributeValue>::empty());
        r
    }

    /// The number of keys.
    pub fn len(&self) -> (r: usize)
        ensures
            r == self.key_seq().len(),
    {
        self.entries.len()
    }

    /// Position of `key` among the entries, if it is there.
    fn position(&self, key: &str) -> (r: Option<usize>)
        ensures
            r is None ==> !self.key_seq().contains(key@),
            r matches Some(i) ==> i < self.key_seq().len() && self.key_seq()[i as int] == key@,
    {
        let mut i: usize = 0;
        while i < self.entries.len()
            invariant
                i <= self.entries@.len(),
                forall|j: int| 0 <= j < i ==> self.key_seq()[j] != key@,
            decreases self.entries@.len() - i,
        {
            if same_text(self.entries[i].0.as_str(), key) {
                return Some(i);
            }
            i = i + 1;
        }
        proof {
            if self.key_seq().contains(key@) {
                let j = choose|j: int| 0 <= j < self.key_seq().len() && self.key_seq()[j] == key@;
                assert(self.key_seq()[j] == key@);
            }
        }
        None
    }

    /// The value stored under `key`.
    pub fn get(&self, key: &str) -> (r: Option<&AttributeValue>)
        ensures
            r == (if self@.contains_key(key@) {
                Some(&self@[key@])
            } else {
                None
            }),
    {
        proof {
            use_type_invariant(self);
        }
        match self.position(key) {
            Some(i) => {
                proof {
                    assert(self.key_seq().contains(key@));
                    assert(self.key_seq().index_of(key@) == i as int);
                }
                Some(&self.entries[i].1)
            },
            None => None,
        }
    }

    /// Stores `value` under `key`, replacing what was there.
    pub fn insert(&mut self, key: String, value: AttributeValue)
        ensures
            final(self)@ == old(self)@.insert(key@, value),
            old(self).key_seq().contains(key@) ==> final(self).key_seq() == old(self).key_seq(),
            !old(self).key_seq().contains(key@) ==> final(self).key_seq() == old(self).key_seq().push(key@),
    {
        proof {
            use_type_invariant(&*self);
        }
        let ghost k = key@;
        let ghost v = value;
        let ghost old_keys = self.key_seq();
        let ghost old_view = self@;
        let pos = self.position(key.as_str());
        let mut taken = Document::new();
        std::mem::swap(self, &mut taken);
        let mut entries = taken.entries;
        match pos {
            Some(i) => {
                entries.set(i, (key, value));
                assert(entries@.map_values(|e: (String, AttributeValue)| e.0@) =~= old_keys);
                *self = Document { entries };
                assert(self.key_seq() =~= old_keys);
                assert forall|j: int| 0 <= j < old_keys.len() && j != i implies old_keys[j] != k by {
                    assert(old_keys[i as int] == k);
                }
                assert forall|q: Seq<char>| self@.contains_key(q) implies self@[q] == old_view.insert(k, v)[q] by {
                    let idx = old_keys.index_of(q);
                    if q == k {
                        assert(old_keys[i as int] == q);
                    } else {
                        assert(old_keys[idx] == q);
                        assert(self.entries@[idx] == old(self).entries@[idx]);
                    }
                }
                assert(self@ =~= old_view.insert(k, v));
            },
            None => {
                entries.push((key, value));
                assert(entries@.map_values(|e: (String, AttributeValue)| e.0@) =~= old_keys.push(k));
                assert forall|j: int| 0 <= j < old_keys.len() implies old_keys[j] != k by {
                    assert(old_keys.contains(old_keys[j]));
                }
                *self = Document { entries };
                assert(self.key_seq() =~= old_keys.push(k));
                assert forall|j: int| 0 <= j < old_keys.len() implies old_keys[j] != k by {
                    assert(old_keys.contains(old_keys[j]));
                }
                assert(self.key_seq().no_duplicates());
                assert forall|q: Seq<char>| self@.contains_key(q) implies self@[q] == old_view.insert(k, v)[q] by {
                    let idx = self.key_seq().index_of(q);
                    assert(self.key_seq()[idx] == q);
                    if q == k {
                        assert(self.key_seq()[old_keys.len() as int] == q);
                    } else {
                        assert(idx < old_keys.len());
                        assert(old_keys[idx] == q);
                        assert(old_keys.index_of(q) == idx);
                        assert(self.entries@[idx] == old(self).entries@[idx]);
                    }
                }
                assert forall|q: Seq<char>| old_view.insert(k, v).contains_key(q) implies self@.contains_key(q) by {
                    if q != k {
                        let idx = old_keys.index_of(q);
                        assert(self.key_seq()[idx] == q);
                    } else {
                        assert(self.key_seq()[old_keys.len() as int] == q);
                    }
                }
                assert(self@ =~= old_view.insert(k, v));
            },
        }
    }

    /// The entries, in key order.
    pub fn into_entries(self) -> (r: Vec<(String, AttributeValue)>)
        ensures
            r@.len() == self.key_seq().len(),
            self.key_seq().no_duplicates(),
            forall|k: Seq<char>| #[trigger] self@.contains_key(k) <==> self.key_seq().contains(k),
            forall|i: int|
                0 <= i < r@.len() ==> (#[trigger] r@[i]).0@ == self.key_seq()[i] && r@[i].1
                    == self@[self.key_seq()[i]],
    {
        proof {
            use_type_invariant(&self);
            assert forall|i: int| 0 <= i < self.entries@.len() implies self.key_seq().index_of(
                self.key_seq()[i],
            ) == i by {
                assert(self.key_seq()[i] == self.key_seq()[i]);
            }
        }
        self.entries
    }
}

impl View for Document {
    type V = Map<Seq<char>, AttributeValue>;

    closed spec fn view(&self) -> Map<Seq<char>, AttributeValue> {
        Map::new(
            |k: Seq<char>| self.key_seq().contains(k),
            |k: Seq<char>| self.entries@[self.key_seq().index_of(k)].1,
        )
    }
}

} // verus!
