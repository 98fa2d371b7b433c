//! JSON documents: what configurations, cached rows and replies are made of.

use vstd::prelude::*;
use crate::text;

verus! {

/// What a JSON document says.
pub enum Doc {
    Null,
    Bool(bool),
    /// A number that fits 64 signed bits.
    Int(int),
    /// Any other number, as it is written.
    Decimal(Seq<char>),
    Text(Seq<char>),
    Array(Seq<Doc>),
    Object(Seq<(Seq<char>, Doc)>),
}

/// The last entry with this key.
pub open spec fn entry_of(entries: Seq<(Seq<char>, Doc)>, key: Seq<char>) -> Option<Doc>
    decreases entries.len(),
{
    if entries.len() == 0 {
        None
    } else if entries.last().0 == key {
        Some(entries.last().1)
    } else {
        entry_of(entries.drop_last(), key)
    }
}

impl Doc {
    /// The truth value, if the document is one.
    pub open spec fn as_bool(self) -> Option<bool> {
        match self {
            Doc::Bool(b) => Some(b),
            _ => None,
        }
    }

    /// The number, if the document is one that fits 64 signed bits.
    pub open spec fn as_int(self) -> Option<int> {
        match self {
            Doc::Int(n) => Some(n),
            _ => None,
        }
    }

    /// The text, if the document is one.
    pub open spec fn as_text(self) -> Option<Seq<char>> {
        match self {
            Doc::Text(t) => Some(t),
            _ => None,
        }
    }

    /// The items of an array; nothing in any other document.
    pub open spec fn items(self) -> Seq<Doc> {
        match self {
            Doc::Array(v) => v,
            _ => Seq::empty(),
        }
    }

    /// What an object holds under the key; nothing in any other document.
    pub open spec fn member(self, key: Seq<char>) -> Option<Doc> {
        match self {
            Doc::Object(entries) => entry_of(entries, key),
            _ => None,
        }
    }

    /// The number that an object holds under the key.
    pub open spec fn int_member(self, key: Seq<char>) -> Option<int> {
        match self.member(key) {
            Some(d) => d.as_int(),
            None => None,
        }
    }

    /// The text that an object holds under the key.
    pub open spec fn text_member(self, key: Seq<char>) -> Option<Seq<char>> {
        match self.member(key) {
            Some(d) => d.as_text(),
            None => None,
        }
    }

    /// The truth value that an object holds under the key.
    pub open spec fn bool_member(self, key: Seq<char>) -> Option<bool> {
        match self.member(key) {
            Some(d) => d.as_bool(),
            None => None,
        }
    }
}

/// A JSON document.
#[derive(Debug, PartialEq)]
pub enum Value {
    Null,
    Bool(bool),
    /// A number that fits 64 signed bits.
    Int(i64),
    /// Any other number, as it is written.
    Decimal(String),
    Text(String),
    Array(Vec<Value>),
    /// Keys with their values. Of two entries with one key the later counts.
    Object(Vec<(String, Value)>),
}

impl View for Value {
    type V = Doc;

    open spec fn view(&self) -> Doc
        decreases self,
    {
        match self {
            Value::Null => Doc::Null,
            Value::Bool(b) => Doc::Bool(*b),
            Value::Int(n) => Doc::Int(*n as int),
            Value::Decimal(s) => Doc::Decimal(s@),
            Value::Text(s) => Doc::Text(s@),
            Value::Array(v) => Doc::Array(
                Seq::new(
                    v@.len(),
                    |i: int|
                        if 0 <= i < v@.len() {
                            v@[i].view()
                        } else {
                            Doc::Null
                        },
                ),
            ),
            Value::Object(v) => Doc::Object(
                Seq::new(
                    v@.len(),
                    |i: int|
                        if 0 <= i < v@.len() {
                            (v@[i].0@, v@[i].1.view())
                        } else {
                            (Seq::<char>::empty(), Doc::Null)
                        },
                ),
            ),
        }
    }
}

/// The documents that a list of values holds.
pub open spec fn docs(v: Seq<Value>) -> Seq<Doc> {
    Seq::new(v.len(), |i: int| v[i]@)
}

/// The entries that a list of keys with values holds.
pub open spec fn doc_entries(v: Seq<(String, Value)>) -> Seq<(Seq<char>, Doc)> {
    Seq::new(v.len(), |i: int| (v[i].0@, v[i].1@))
}

/// The document of an array is the array of the documents.
pub broadcast proof fn lemma_array_view(v: Vec<Value>)
    ensures
        #[trigger] (Value::Array(v))@ == Doc::Array(docs(v@)),
{
    assert((Value::Array(v))@->Array_0 =~= docs(v@));
}

/// The document of an object is the object of the entries.
pub broadcast proof fn lemma_object_view(v: Vec<(String, Value)>)
    ensures
        #[trigger] (Value::Object(v))@ == Doc::Object(doc_entries(v@)),
{
    let x = Value::Object(v);
    reveal_with_fuel(<Value as View>::view, 2);
    assert(x@ is Object);
    assert(x@->Object_0.len() == v@.len());
    assert(x@->Object_0 =~= doc_entries(v@));
}

/// A key with its value.
pub fn entry(key: &str, value: Value) -> (r: (String, Value))
    ensures
        r.0@ == key@,
        r.1 == value,
{
    (text::owned(key), value)
}

/// A document that is a text.
pub fn string(s: &str) -> (r: Value)
    ensures
        r@ == Doc::Text(s@),
{
    Value::Text(text::owned(s))
}

/// A document that is an object.
pub fn object(entries: Vec<(String, Value)>) -> (r: Value)
    ensures
        r@ == Doc::Object(doc_entries(entries@)),
{
    broadcast use lemma_object_view;

    Value::Object(entries)
}

/// A document that is an array.
pub fn array(items: Vec<Value>) -> (r: Value)
    ensures
        r@ == Doc::Array(docs(items@)),
{
    broadcast use lemma_array_view;

    Value::Array(items)
}

/// What an object holds under a key is what its last entry with that key says.
pub proof fn lemma_entry_of_last(entries: Seq<(Seq<char>, Doc)>, key: Seq<char>, i: int)
    requires
        0 <= i < entries.len(),
        entries[i].0 == key,
        forall|j: int| i < j < entries.len() ==> (#[trigger] entries[j]).0 != key,
    ensures
        entry_of(entries, key) == Some(entries[i].1),
    decreases entries.len(),
{
    if i < entries.len() - 1 {
        assert(entries[entries.len() - 1].0 != key);
        let t = entries.drop_last();
        assert forall|j: int| i < j < t.len() implies (#[trigger] t[j]).0 != key by {
            assert(t[j] == entries[j]);
        }
        lemma_entry_of_last(t, key, i);
    }
}

proof fn lemma_entry_of_none(entries: Seq<(Seq<char>, Doc)>, key: Seq<char>)
    requires
        forall|j: int| 0 <= j < entries.len() ==> (#[trigger] entries[j]).0 != key,
    ensures
        entry_of(entries, key) is None,
    decreases entries.len(),
{
    if entries.len() > 0 {
        assert(entries[entries.len() - 1].0 != key);
        let t = entries.drop_last();
        assert forall|j: int| 0 <= j < t.len() implies (#[trigger] t[j]).0 != key by {
            assert(t[j] == entries[j]);
        }
        lemma_entry_of_none(t, key);
    }
}

fn copy_all(v: &Vec<Value>) -> (r: Vec<Value>)
    ensures
        docs(r@) == docs(v@),
    decreases v,
{
    let mut r: Vec<Value> = Vec::new();
    let n: usize = v.len();
    let mut i: usize = 0;
    while i < n
        invariant
            i <= n == v@.len(),
            docs(r@) == docs(v@).take(i as int),
        decreases n - i,
    {
        proof {
            assert(decreases_to!(v => v@[i as int]));
        }
        let ghost before = r@;
        r.push(v[i].copy());
        proof {
            assert(docs(r@) =~= docs(before).push(v@[i as int]@));
            assert(docs(v@).take(i + 1) =~= docs(v@).take(i as int).push(v@[i as int]@));
        }
        i += 1;
    }
    assert(docs(v@).take(n as int) =~= docs(v@));
    r
}

fn copy_entries(v: &Vec<(String, Value)>) -> (r: Vec<(String, Value)>)
    ensures
        doc_entries(r@) == doc_entries(v@),
    decreases v,
{
    let mut r: Vec<(String, Value)> = Vec::new();
    let n: usize = v.len();
    let mut i: usize = 0;
    while i < n
        invariant
            i <= n == v@.len(),
            doc_entries(r@) == doc_entries(v@).take(i as int),
        decreases n - i,
    {
        proof {
            assert(decreases_to!(v => v@[i as int]));
            assert(decreases_to!(v@[i as int] => v@[i as int].1));
        }
        let ghost before = r@;
        r.push((v[i].0.clone(), v[i].1.copy()));
        proof {
            let e = (v@[i as int].0@, v@[i as int].1@);
            assert(doc_entries(r@) =~= doc_entries(before).push(e));
            assert(doc_entries(v@).take(i + 1) =~= doc_entries(v@).take(i as int).push(e));
        }
        i += 1;
    }
    assert(doc_entries(v@).take(n as int) =~= doc_entries(v@));
    r
}

impl Value {
    /// A document that says the same.
    pub fn copy(&self) -> (r: Value)
        ensures
            r@ == self@,
        decreases self,
    {
        broadcast use {lemma_array_view, lemma_object_view};

        match self {
            Value::Null => Value::Null,
            Value::Bool(b) => Value::Bool(*b),
            Value::Int(n) => Value::Int(*n),
            Value::Decimal(s) => Value::Decimal(s.clone()),
            Value::Text(s) => Value::Text(s.clone()),
            Value::Array(v) => Value::Array(copy_all(v)),
            Value::Object(v) => Value::Object(copy_entries(v)),
        }
    }

    /// The truth value, if the document is one.
    pub fn as_bool(&self) -> (r: Option<bool>)
        ensures
            r == self@.as_bool(),
    {
        match self {
            Value::Bool(b) => Some(*b),
            _ => None,
        }
    }

    /// The number, if the document is one that fits 64 signed bits.
    pub fn as_i64(&self) -> (r: Option<i64>)
        ensures
            match r {
                Some(n) => self@.as_int() == Some(n as int),
                None => self@.as_int() is None,
            },
    {
        match self {
            Value::Int(n) => Some(*n),
            _ => None,
        }
    }

    /// The text, if the document is one.
    pub fn as_str(&self) -> (r: Option<&str>)
        ensures
            match r {
                Some(s) => self@.as_text() == Some(s@),
                None => self@.as_text() is None,
            },
    {
        match self {
            Value::Text(s) => Some(s.as_str()),
            _ => None,
        }
    }

    /// What an object holds under the key.
    pub fn get(&self, key: &str) -> (r: Option<&Value>)
        ensures
            match r {
                Some(v) => self@.member(key@) == Some(v@),
                None => self@.member(key@) is None,
            },
    {
        broadcast use {lemma_array_view, lemma_object_view};

        match self {
            Value::Object(v) => {
                let n: usize = v.len();
                let mut i: usize = n;
                let ghost all = doc_entries(v@);
                while 0 < i
                    invariant
                        i <= n == v@.len(),
                        all == doc_entries(v@),
                        self@ == Doc::Object(all),
                        forall|j: int| i <= j < n ==> (#[trigger] all[j]).0 != key@,
                    decreases i,
                {
                    i -= 1;
                    if text::same(v[i].0.as_str(), key) {
                        proof {
                            lemma_entry_of_last(all, key@, i as int);
                        }
                        return Some(&v[i].1);
                    }
                }
                proof {
                    lemma_entry_of_none(all, key@);
                }
                None
            },
            _ => None,
        }
    }

    /// The number that an object holds under the key.
    pub fn get_i64(&self, key: &str) -> (r: Option<i64>)
        ensures
            match r {
                Some(n) => self@.int_member(key@) == Some(n as int),
                None => self@.int_member(key@) is None,
            },
    {
        match self.get(key) {
            Some(v) => v.as_i64(),
            None => None,
        }
    }

    /// The text that an object holds under the key.
    pub fn get_text(&self, key: &str) -> (r: Option<&str>)
        ensures
            match r {
                Some(s) => self@.text_member(key@) == Some(s@),
                None => self@.text_member(key@) is None,
            },
    {
        match self.get(key) {
            Some(v) => v.as_str(),
            None => None,
        }
    }

    /// The truth value that an object holds under the key.
    pub fn get_bool(&self, key: &str) -> (r: Option<bool>)
        ensures
            r == self@.bool_member(key@),
    {
        match self.get(key) {
            Some(v) => v.as_bool(),
            None => None,
        }
    }
}

} // verus!
