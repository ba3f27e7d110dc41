//! A JSON document model shared by the request summary, the provenance
//! records and the MCP tool metadata.

use vstd::prelude::*;
use crate::text::{owned, str_eq};

verus! {

/// The mathematical content of a JSON value: strings as character
/// sequences, object members in iteration order.
#[verifier::ext_equal]
pub enum Json {
    Null,
    Bool(bool),
    UInt(u64),
    Int(i64),
    Float(Seq<char>),
    Str(Seq<char>),
    Array(Seq<Json>),
    Object(Seq<(Seq<char>, Json)>),
}

/// Whether `i` is the first position of a member named `key`.
pub open spec fn is_first_key(ms: Seq<(Seq<char>, Json)>, key: Seq<char>, i: int) -> bool {
    &&& 0 <= i < ms.len()
    &&& ms[i].0 == key
    &&& forall|j: int| 0 <= j < i ==> ms[j].0 != key
}

/// Position of the first member named `key`, if any.
pub open spec fn key_pos(ms: Seq<(Seq<char>, Json)>, key: Seq<char>) -> Option<int> {
    if exists|i: int| is_first_key(ms, key, i) {
        Some(choose|i: int| is_first_key(ms, key, i))
    } else {
        None
    }
}

/// Value of the member named `key`: the first one, as a map lookup gives it
/// when names are unique.
pub open spec fn lookup(ms: Seq<(Seq<char>, Json)>, key: Seq<char>) -> Option<Json> {
    match key_pos(ms, key) {
        Some(i) => Some(ms[i].1),
        None => None,
    }
}

/// Object members after setting `key` to `v`: an existing member keeps its
/// place and takes the new value, a new one goes last.
pub open spec fn insert_member(ms: Seq<(Seq<char>, Json)>, key: Seq<char>, v: Json) -> Seq<(Seq<char>, Json)> {
    match key_pos(ms, key) {
        Some(i) => ms.update(i, (key, v)),
        None => ms.push((key, v)),
    }
}

/// Whether an object has a member named `key`.
pub open spec fn has_key(ms: Seq<(Seq<char>, Json)>, key: Seq<char>) -> bool {
    exists|i: int| 0 <= i < ms.len() && ms[i].0 == key
}

impl Json {
    /// The member `key` of an object; nothing for other values.
    pub open spec fn member(self, key: Seq<char>) -> Option<Json> {
        match self {
            Json::Object(ms) => lookup(ms, key),
            _ => None,
        }
    }

    /// The text of a string value.
    pub open spec fn text(self) -> Option<Seq<char>> {
        match self {
            Json::Str(s) => Some(s),
            _ => None,
        }
    }

    /// Whether no object in the value has two members with one name.
    pub open spec fn wf(self) -> bool
        decreases self,
    {
        match self {
            Json::Array(items) => forall|i: int| 0 <= i < items.len() ==> (#[trigger] items[i]).wf(),
            Json::Object(ms) => {
                &&& forall|i: int, j: int| 0 <= i < j < ms.len() ==> ms[i].0 != ms[j].0
                &&& forall|i: int| 0 <= i < ms.len() ==> (#[trigger] ms[i]).1.wf()
            },
            _ => true,
        }
    }
}

/// A JSON value. Integers that fit `u64` are `UInt`, other integers are
/// `Int`, and any other number is kept as its decimal text in `Float`.
/// Object members are kept in iteration order.
#[derive(Debug)]
pub enum JsonValue {
    Null,
    Bool(bool),
    UInt(u64),
    Int(i64),
    Float(String),
    Str(String),
    Array(Vec<JsonValue>),
    Object(Vec<(String, JsonValue)>),
}

/// The content of a list of object members.
pub open spec fn members_deep(ms: Seq<(String, JsonValue)>) -> Seq<(Seq<char>, Json)> {
    Seq::new(ms.len(), |i: int| (ms[i].0@, ms[i].1.deep()))
}

/// The content of a list of values.
pub open spec fn items_deep(v: Seq<JsonValue>) -> Seq<Json> {
    Seq::new(v.len(), |i: int| v[i].deep())
}

impl JsonValue {
    /// The content of this value.
    pub open spec fn deep(self) -> Json
        decreases self,
    {
        match self {
            JsonValue::Null => Json::Null,
            JsonValue::Bool(b) => Json::Bool(b),
            JsonValue::UInt(n) => Json::UInt(n),
            JsonValue::Int(n) => Json::Int(n),
            JsonValue::Float(s) => Json::Float(s@),
            JsonValue::Str(s) => Json::Str(s@),
            JsonValue::Array(items) => Json::Array(
                Seq::new(
                    items@.len(),
                    |i: int|
                        if 0 <= i < items@.len() {
                            items@[i].deep()
                        } else {
                            Json::Null
                        },
                ),
            ),
            JsonValue::Object(ms) => Json::Object(
                Seq::new(
                    ms@.len(),
                    |i: int|
                        if 0 <= i < ms@.len() {
                            (ms@[i].0@, ms@[i].1.deep())
                        } else {
                            (Seq::empty(), Json::Null)
                        },
                ),
            ),
        }
    }

    /// A string value.
    pub fn string(s: &str) -> (r: JsonValue)
        ensures
            r.deep() == Json::Str(s@),
    {
        JsonValue::Str(owned(s))
    }

    /// An independent copy of this value.
    #[verifier::loop_isolation(false)]
    pub fn duplicate(&self) -> (r: JsonValue)
        ensures
            r.deep() == self.deep(),
        decreases self,
    {
        match self {
            JsonValue::Null => JsonValue::Null,
            JsonValue::Bool(b) => JsonValue::Bool(*b),
            JsonValue::UInt(n) => JsonValue::UInt(*n),
            JsonValue::Int(n) => JsonValue::Int(*n),
            JsonValue::Float(s) => JsonValue::Float(s.clone()),
            JsonValue::Str(s) => JsonValue::Str(s.clone()),
            JsonValue::Array(items) => {
                let mut out: Vec<JsonValue> = Vec::new();
                let mut i: usize = 0;
                while i < items.len()
                    invariant
                        i <= items@.len(),
                        out@.len() == i,
                        forall|j: int| 0 <= j < i ==> (#[trigger] out@[j]).deep() == items@[j].deep(),
                    decreases items@.len() - i,
                {
                    proof {
                        assert(decreases_to!(*self => items@[i as int]));
                    }
                    let item = items[i].duplicate();
                    out.push(item);
                    i = i + 1;
                }
                proof {
                    lemma_deep_array(out);
                    lemma_deep_array(*items);
                    assert(items_deep(out@) =~= items_deep(items@));
                }
                JsonValue::Array(out)
            },
            JsonValue::Object(ms) => {
                let mut out: Vec<(String, JsonValue)> = Vec::new();
                let mut i: usize = 0;
                while i < ms.len()
                    invariant
                        i <= ms@.len(),
                        out@.len() == i,
                        forall|j: int| 0 <= j < i ==> (#[trigger] out@[j]).0@ == ms@[j].0@ && out@[j].1.deep() == ms@[j].1.deep(),
                    decreases ms@.len() - i,
                {
                    let key = ms[i].0.clone();
                    proof {
                        assert(decreases_to!(*self => ms@[i as int].1));
                    }
                    let value = ms[i].1.duplicate();
                    out.push((key, value));
                    i = i + 1;
                }
                proof {
                    lemma_deep_object(out);
                    lemma_deep_object(*ms);
                    assert(members_deep(out@) =~= members_deep(ms@));
                }
                JsonValue::Object(out)
            },
        }
    }
}

/// The content of an array is the content of its items.
pub proof fn lemma_deep_array(v: Vec<JsonValue>)
    ensures
        JsonValue::Array(v).deep() == Json::Array(items_deep(v@)),
{
    let a = JsonValue::Array(v).deep();
    if let Json::Array(s) = a {
        assert(s =~= items_deep(v@));
    }
}

/// The content of an object is the content of its members.
pub proof fn lemma_deep_object(v: Vec<(String, JsonValue)>)
    ensures
        JsonValue::Object(v).deep() == Json::Object(members_deep(v@)),
{
    let a = JsonValue::Object(v).deep();
    if let Json::Object(s) = a {
        assert(s =~= members_deep(v@));
    }
}

/// The position of the first member named `key`.
pub fn find_key(ms: &Vec<(String, JsonValue)>, key: &str) -> (r: Option<usize>)
    ensures
        match r {
            Some(i) => key_pos(members_deep(ms@), key@) == Some(i as int),
            None => key_pos(members_deep(ms@), key@) is None,
        },
{
    let ghost d = members_deep(ms@);
    let mut i: usize = 0;
    while i < ms.len()
        invariant
            i <= ms@.len(),
            d == members_deep(ms@),
            forall|j: int| 0 <= j < i ==> d[j].0 != key@,
        decreases ms@.len() - i,
    {
        if str_eq(ms[i].0.as_str(), key) {
            assert(is_first_key(d, key@, i as int));
            assert forall|k: int| is_first_key(d, key@, k) implies k == i by {
                if k < i {
                } else if k > i {
                    assert(d[i as int].0 == key@);
                }
            }
            return Some(i);
        }
        i = i + 1;
    }
    assert(!exists|k: int| is_first_key(d, key@, k));
    None
}


/// Whether an object's member list has a member named `key`.
pub fn contains_key(ms: &Vec<(String, JsonValue)>, key: &str) -> (r: bool)
    ensures
        r == has_key(members_deep(ms@), key@),
{
    let found = find_key(ms, key);
    proof {
        lemma_has_key_pos(members_deep(ms@), key@);
    }
    found.is_some()
}

/// Sets member `key` to `value`: an existing member keeps its place.
pub fn insert(ms: &mut Vec<(String, JsonValue)>, key: String, value: JsonValue)
    ensures
        members_deep(final(ms)@) == insert_member(members_deep(old(ms)@), key@, value.deep()),
{
    let ghost d = members_deep(ms@);
    let ghost kv = key@;
    let ghost vv = value.deep();
    match find_key(ms, key.as_str()) {
        Some(i) => {
            ms.set(i, (key, value));
            assert(members_deep(ms@) =~= d.update(i as int, (kv, vv)));
        },
        None => {
            ms.push((key, value));
            assert(members_deep(ms@) =~= d.push((kv, vv)));
        },
    }
}

/// `has_key` holds exactly when a first position exists.
pub proof fn lemma_has_key_pos(ms: Seq<(Seq<char>, Json)>, key: Seq<char>)
    ensures
        has_key(ms, key) <==> key_pos(ms, key) is Some,
        key_pos(ms, key) matches Some(i) ==> is_first_key(ms, key, i),
{
    if has_key(ms, key) {
        let i = choose|i: int| 0 <= i < ms.len() && ms[i].0 == key;
        lemma_first_key_exists(ms, key, i);
    }
    if key_pos(ms, key) is Some {
        let i = choose|i: int| is_first_key(ms, key, i);
        assert(is_first_key(ms, key, i));
    }
}

/// A member named `key` at `i` gives a first position at or before `i`.
pub proof fn lemma_first_key_exists(ms: Seq<(Seq<char>, Json)>, key: Seq<char>, i: int)
    requires
        0 <= i < ms.len(),
        ms[i].0 == key,
    ensures
        exists|k: int| is_first_key(ms, key, k),
    decreases i,
{
    if exists|j: int| 0 <= j < i && ms[j].0 == key {
        let j = choose|j: int| 0 <= j < i && ms[j].0 == key;
        lemma_first_key_exists(ms, key, j);
    } else {
        assert(is_first_key(ms, key, i));
    }
}

/// The first position of a name is unique.
pub proof fn lemma_first_key_unique(ms: Seq<(Seq<char>, Json)>, key: Seq<char>, i: int, j: int)
    requires
        is_first_key(ms, key, i),
        is_first_key(ms, key, j),
    ensures
        i == j,
{
    if i < j {
        assert(ms[i].0 == key);
    } else if j < i {
        assert(ms[j].0 == key);
    }
}

/// After setting `key`, the object holds `key` with the new value, and
/// every other name keeps its presence and value.
pub proof fn lemma_insert_member(ms: Seq<(Seq<char>, Json)>, key: Seq<char>, v: Json, other: Seq<char>)
    ensures
        lookup(insert_member(ms, key, v), key) == Some(v),
        has_key(insert_member(ms, key, v), key),
        other != key ==> lookup(insert_member(ms, key, v), other) == lookup(ms, other),
        other != key ==> (has_key(insert_member(ms, key, v), other) == has_key(ms, other)),
        insert_member(ms, key, v).len() == if has_key(ms, key) { ms.len() } else { ms.len() + 1 },
{
    lemma_has_key_pos(ms, key);
    lemma_has_key_pos(ms, other);
    let r = insert_member(ms, key, v);
    match key_pos(ms, key) {
        Some(i) => {
            assert(is_first_key(r, key, i));
            lemma_has_key_pos(r, key);
            let p = key_pos(r, key).unwrap();
            lemma_first_key_unique(r, key, i, p);
            if other != key {
                match key_pos(ms, other) {
                    Some(j) => {
                        assert(is_first_key(r, other, j));
                        lemma_has_key_pos(r, other);
                        lemma_first_key_unique(r, other, j, key_pos(r, other).unwrap());
                    },
                    None => {
                        assert(!has_key(ms, other));
                        assert(!has_key(r, other)) by {
                            if has_key(r, other) {
                                let k = choose|k: int| 0 <= k < r.len() && r[k].0 == other;
                                assert(ms[k].0 == other);
                            }
                        }
                        lemma_has_key_pos(r, other);
                    },
                }
            }
        },
        None => {
            let n = ms.len() as int;
            assert(!has_key(ms, key));
            assert(is_first_key(r, key, n));
            lemma_has_key_pos(r, key);
            lemma_first_key_unique(r, key, n, key_pos(r, key).unwrap());
            if other != key {
                match key_pos(ms, other) {
                    Some(j) => {
                        assert(is_first_key(r, other, j));
                        lemma_has_key_pos(r, other);
                        lemma_first_key_unique(r, other, j, key_pos(r, other).unwrap());
                    },
                    None => {
                        assert(!has_key(ms, other));
                        assert(!has_key(r, other)) by {
                            if has_key(r, other) {
                                let k = choose|k: int| 0 <= k < r.len() && r[k].0 == other;
                                assert(k < n);
                                assert(ms[k].0 == other);
                            }
                        }
                        lemma_has_key_pos(r, other);
                    },
                }
            }
        },
    }
}

/// Setting a member to the value it already has changes nothing.
pub proof fn lemma_insert_same(ms: Seq<(Seq<char>, Json)>, key: Seq<char>, v: Json)
    requires
        lookup(ms, key) == Some(v),
    ensures
        insert_member(ms, key, v) == ms,
{
    lemma_has_key_pos(ms, key);
    let i = key_pos(ms, key).unwrap();
    assert(ms.update(i, (key, v)) =~= ms);
}

/// A name has a value exactly when it is present.
pub proof fn lemma_lookup_has_key(ms: Seq<(Seq<char>, Json)>, key: Seq<char>)
    ensures
        has_key(ms, key) <==> lookup(ms, key) is Some,
{
    lemma_has_key_pos(ms, key);
}

impl JsonValue {
    /// The member `key` of an object.
    pub fn get(&self, key: &str) -> (r: Option<&JsonValue>)
        ensures
            match r {
                Some(v) => self.deep().member(key@) == Some(v.deep()),
                None => self.deep().member(key@) is None,
            },
    {
        match self {
            JsonValue::Object(ms) => {
                proof {
                    lemma_deep_object(*ms);
                }
                match find_key(ms, key) {
                    Some(i) => Some(&ms[i].1),
                    None => None,
                }
            },
            _ => None,
        }
    }

    /// The text of a string value.
    pub fn as_str(&self) -> (r: Option<&str>)
        ensures
            match r {
                Some(s) => self.deep().text() == Some(s@),
                None => self.deep().text() is None,
            },
    {
        match self {
            JsonValue::Str(s) => Some(s.as_str()),
            _ => None,
        }
    }
}


/// A named member.
pub fn pair(key: &str, value: JsonValue) -> (r: (String, JsonValue))
    ensures
        r.0@ == key@,
        r.1 == value,
{
    (owned(key), value)
}

/// An object with the given members.
pub fn object(ms: Vec<(String, JsonValue)>) -> (r: JsonValue)
    ensures
        r.deep() == Json::Object(members_deep(ms@)),
{
    proof {
        lemma_deep_object(ms);
    }
    JsonValue::Object(ms)
}

/// An array with the given items.
pub fn array(items: Vec<JsonValue>) -> (r: JsonValue)
    ensures
        r.deep() == Json::Array(items_deep(items@)),
{
    proof {
        lemma_deep_array(items);
    }
    JsonValue::Array(items)
}

/// The content of a value that may be missing.
pub open spec fn opt_deep(o: Option<JsonValue>) -> Option<Json> {
    match o {
        Some(v) => Some(v.deep()),
        None => None,
    }
}

/// The JSON number of a signed integer: `UInt` when it is not negative.
pub open spec fn signed_json(n: i64) -> Json {
    if n >= 0 {
        Json::UInt(n as u64)
    } else {
        Json::Int(n)
    }
}

/// The JSON number of a signed integer.
pub fn signed_number(n: i64) -> (r: JsonValue)
    ensures
        r.deep() == signed_json(n),
{
    if n >= 0 {
        JsonValue::UInt(n as u64)
    } else {
        JsonValue::Int(n)
    }
}

} // verus!
