//! A JSON document held as plain values, its mathematical model, and lookups
//! along key paths.

use vstd::prelude::*;

verus! {

/// A JSON value as the library reads it.
///
/// Numbers are kept the way `serde_json` keeps them: a non-negative integer,
/// a negative integer, or (for any other number) its decimal text. An
/// object keeps its members in order; a name is looked up at its first
/// occurrence.
#[derive(Debug)]
pub enum JsonValue {
    Null,
    Bool(bool),
    PosInt(u64),
    NegInt(i64),
    Float(String),
    Str(String),
    Array(Vec<JsonValue>),
    Object(Vec<(String, JsonValue)>),
}

/// The mathematical model of a JSON value.
pub enum Json {
    Null,
    Bool(bool),
    PosInt(u64),
    NegInt(i64),
    Float(Seq<char>),
    Str(Seq<char>),
    Array(Seq<Json>),
    Object(Seq<(Seq<char>, Json)>),
}

pub open spec fn json_view(v: JsonValue) -> Json
    decreases v, 0nat,
{
    match v {
        JsonValue::Null => Json::Null,
        JsonValue::Bool(b) => Json::Bool(b),
        JsonValue::PosInt(n) => Json::PosInt(n),
        JsonValue::NegInt(n) => Json::NegInt(n),
        JsonValue::Float(t) => Json::Float(t@),
        JsonValue::Str(s) => Json::Str(s@),
        JsonValue::Array(items) => Json::Array(items_view(items@, items@.len())),
        JsonValue::Object(members) => Json::Object(members_view(members@, members@.len())),
    }
}

/// The models of the first `n` items.
pub open spec fn items_view(items: Seq<JsonValue>, n: nat) -> Seq<Json>
    decreases items, n,
{
    if n == 0 || n > items.len() {
        Seq::empty()
    } else {
        items_view(items, (n - 1) as nat).push(json_view(items[n - 1]))
    }
}

/// The models of the first `n` members of an object.
pub open spec fn members_view(members: Seq<(String, JsonValue)>, n: nat) -> Seq<(Seq<char>, Json)>
    decreases members, n,
{
    if n == 0 || n > members.len() {
        Seq::empty()
    } else {
        members_view(members, (n - 1) as nat).push((members[n - 1].0@, json_view(members[n - 1].1)))
    }
}

impl View for JsonValue {
    type V = Json;

    open spec fn view(&self) -> Json {
        json_view(*self)
    }
}


/// The model of an optional borrowed value.
pub open spec fn opt_json(o: Option<&JsonValue>) -> Option<Json> {
    match o {
        Some(v) => Some(v@),
        None => None,
    }
}

/// The value of the first member named `key`, if any.
pub open spec fn member_value(members: Seq<(Seq<char>, Json)>, key: Seq<char>) -> Option<Json>
    decreases members.len(),
{
    if members.len() == 0 {
        None
    } else if members[0].0 == key {
        Some(members[0].1)
    } else {
        member_value(members.drop_first(), key)
    }
}

/// The member `key` of `v`, where `v` is an object that has one.
pub open spec fn json_get(v: Json, key: Seq<char>) -> Option<Json> {
    match v {
        Json::Object(members) => member_value(members, key),
        _ => None,
    }
}

/// The value reached from `v` by following the keys of `path` in turn.
pub open spec fn json_path(v: Json, path: Seq<Seq<char>>) -> Option<Json>
    decreases path.len(),
{
    if path.len() == 0 {
        Some(v)
    } else {
        match json_get(v, path[0]) {
            Some(child) => json_path(child, path.drop_first()),
            None => None,
        }
    }
}

/// Following no keys stays at `v`; following `p` then `q` is following `p`
/// and from there `q`; and only objects have members, so an array or any
/// other non-object is never looked into.
pub proof fn law_json_path(v: Json, p: Seq<Seq<char>>, q: Seq<Seq<char>>, key: Seq<char>)
    ensures
        json_path(v, Seq::empty()) == Some(v),
        json_path(v, p + q) == match json_path(v, p) {
            Some(w) => json_path(w, q),
            None => None,
        },
        !(v is Object) ==> json_get(v, key) is None,
    decreases p.len(),
{
    if p.len() > 0 {
        assert((p + q)[0] == p[0]);
        assert((p + q).drop_first() =~= p.drop_first() + q);
        match json_get(v, p[0]) {
            Some(child) => {
                law_json_path(child, p.drop_first(), q, key);
            },
            None => {},
        }
    } else {
        assert(p + q =~= q);
    }
}

/// The keys of a path written as string slices.
pub open spec fn path_keys(path: Seq<&str>) -> Seq<Seq<char>> {
    path.map_values(|k: &str| k@)
}

pub proof fn lemma_items_view(items: Seq<JsonValue>, n: nat)
    requires
        n <= items.len(),
    ensures
        items_view(items, n).len() == n,
        forall|i: int| 0 <= i < n ==> #[trigger] items_view(items, n)[i] == json_view(items[i]),
    decreases n,
{
    if n > 0 {
        lemma_items_view(items, (n - 1) as nat);
    }
}

pub proof fn lemma_members_view(members: Seq<(String, JsonValue)>, n: nat)
    requires
        n <= members.len(),
    ensures
        members_view(members, n).len() == n,
        forall|i: int|
            0 <= i < n ==> #[trigger] members_view(members, n)[i] == (
                members[i].0@,
                json_view(members[i].1),
            ),
    decreases n,
{
    if n > 0 {
        lemma_members_view(members, (n - 1) as nat);
    }
}

/// The member `key` of `v`: `serde_json`'s `as_object()` then `get(key)`.
pub fn object_get<'a>(v: &'a JsonValue, key: &str) -> (r: Option<&'a JsonValue>)
    ensures
        opt_json(r) == json_get(v@, key@),
{
    match v {
        JsonValue::Object(members) => {
            let ghost mv = members_view(members@, members@.len());
            proof {
                lemma_members_view(members@, members@.len());
                assert(mv.skip(0) =~= mv);
            }
            let mut i: usize = 0;
            while i < members.len()
                invariant
                    0 <= i <= members@.len(),
                    mv == members_view(members@, members@.len()),
                    mv.len() == members@.len(),
                    forall|j: int|
                        0 <= j < members@.len() ==> #[trigger] mv[j] == (
                            members@[j].0@,
                            json_view(members@[j].1),
                        ),
                    member_value(mv, key@) == member_value(mv.skip(i as int), key@),
                    v@ == Json::Object(mv),
                decreases members@.len() - i,
            {
                assert(mv.skip(i as int)[0] == mv[i as int]);
                if crate::text::str_eq(members[i].0.as_str(), key) {
                    return Some(&members[i].1);
                }
                assert(mv.skip(i as int).drop_first() =~= mv.skip(i + 1));
                i = i + 1;
            }
            None
        },
        _ => None,
    }
}

/// The value reached from `root` by following `path`.
pub fn get_path_value<'a>(root: &'a JsonValue, path: &[&str]) -> (r: Option<&'a JsonValue>)
    ensures
        opt_json(r) == json_path(root@, path_keys(path@)),
{
    let ghost keys = path_keys(path@);
    let mut current = root;
    let mut i: usize = 0;
    assert(keys.skip(0) =~= keys);
    while i < path.len()
        invariant
            0 <= i <= path@.len(),
            keys == path_keys(path@),
            keys.len() == path@.len(),
            json_path(root@, keys) == json_path(current@, keys.skip(i as int)),
        decreases path@.len() - i,
    {
        assert(keys.skip(i as int)[0] == path@[i as int]@);
        assert(keys.skip(i as int).drop_first() =~= keys.skip(i + 1));
        match object_get(current, path[i]) {
            Some(child) => {
                current = child;
            },
            None => {
                return None;
            },
        }
        i = i + 1;
    }
    assert(keys.skip(i as int) =~= Seq::<Seq<char>>::empty());
    Some(current)
}


/// The integer `v` holds, where it fits an `i64` (`Value::as_i64`).
pub open spec fn json_as_i64(v: Json) -> Option<i64> {
    match v {
        Json::PosInt(n) => if n <= i64::MAX {
            Some(n as i64)
        } else {
            None
        },
        Json::NegInt(n) => Some(n),
        _ => None,
    }
}

/// The non-negative integer `v` holds (`Value::as_u64`).
pub open spec fn json_as_u64(v: Json) -> Option<u64> {
    match v {
        Json::PosInt(n) => Some(n),
        _ => None,
    }
}

/// The text `v` holds, where it is a string (`Value::as_str`).
pub open spec fn json_as_str(v: Json) -> Option<Seq<char>> {
    match v {
        Json::Str(s) => Some(s),
        _ => None,
    }
}

pub fn as_i64(v: &JsonValue) -> (r: Option<i64>)
    ensures
        r == json_as_i64(v@),
{
    match v {
        JsonValue::PosInt(n) => if *n <= 0x7fff_ffff_ffff_ffff {
            Some(*n as i64)
        } else {
            None
        },
        JsonValue::NegInt(n) => Some(*n),
        _ => None,
    }
}

pub fn as_u64(v: &JsonValue) -> (r: Option<u64>)
    ensures
        r == json_as_u64(v@),
{
    match v {
        JsonValue::PosInt(n) => Some(*n),
        _ => None,
    }
}

pub fn as_str(v: &JsonValue) -> (r: Option<&str>)
    ensures
        crate::text::opt_text(r) == json_as_str(v@),
{
    match v {
        JsonValue::Str(s) => Some(s.as_str()),
        _ => None,
    }
}


/// A copy of a JSON value.
pub fn clone_json(v: &JsonValue) -> (r: JsonValue)
    ensures
        r@ == v@,
    decreases v,
{
    match v {
        JsonValue::Null => JsonValue::Null,
        JsonValue::Bool(b) => JsonValue::Bool(*b),
        JsonValue::PosInt(n) => JsonValue::PosInt(*n),
        JsonValue::NegInt(n) => JsonValue::NegInt(*n),
        JsonValue::Float(t) => JsonValue::Float(t.clone()),
        JsonValue::Str(s) => JsonValue::Str(s.clone()),
        JsonValue::Array(items) => {
            let mut out: Vec<JsonValue> = Vec::new();
            let mut i: usize = 0;
            while i < items.len()
                invariant
                    0 <= i <= items@.len(),
                    out@.len() == i,
                    *v == JsonValue::Array(*items),
                    forall|j: int| 0 <= j < i ==> #[trigger] json_view(out@[j]) == json_view(items@[j]),
                decreases items@.len() - i,
            {
                assert(decreases_to!(*v => (*v)->Array_0));
                assert(decreases_to!(*items => items@));
                assert(decreases_to!(items@ => items@[i as int]));
                out.push(clone_json(&items[i]));
                i = i + 1;
            }
            proof {
                lemma_items_view(items@, items@.len());
                lemma_items_view(out@, out@.len());
                assert(items_view(out@, out@.len()) =~= items_view(items@, items@.len()));
            }
            JsonValue::Array(out)
        },
        JsonValue::Object(members) => {
            let mut out: Vec<(String, JsonValue)> = Vec::new();
            let mut i: usize = 0;
            while i < members.len()
                invariant
                    0 <= i <= members@.len(),
                    out@.len() == i,
                    *v == JsonValue::Object(*members),
                    forall|j: int|
                        0 <= j < i ==> #[trigger] out@[j].0@ == members@[j].0@ && json_view(out@[j].1)
                            == json_view(members@[j].1),
                decreases members@.len() - i,
            {
                assert(decreases_to!(*v => (*v)->Object_0));
                assert(decreases_to!(*members => members@));
                assert(decreases_to!(members@ => members@[i as int]));
                assert(decreases_to!(members@[i as int] => members@[i as int].1));
                let value = clone_json(&members[i].1);
                out.push((members[i].0.clone(), value));
                i = i + 1;
            }
            proof {
                lemma_members_view(members@, members@.len());
                lemma_members_view(out@, out@.len());
                assert(members_view(out@, out@.len()) =~= members_view(members@, members@.len()));
            }
            JsonValue::Object(out)
        },
    }
}

} // verus!
