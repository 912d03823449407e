//! JSON documents as plain values, for the JSON-RPC exchange with the chain.

use vstd::prelude::*;

verus! {

/// A JSON value. Numbers keep their decimal text; an object keeps its
/// members in order, each key once (as `serde_json::Map` does).
pub enum JsonValue {
    Null,
    Bool(bool),
    Number(String),
    Str(String),
    Array(Vec<JsonValue>),
    Object(Vec<(String, JsonValue)>),
}

/// The position of the first member of `fields` named `key`, if any.
pub open spec fn member_index(fields: Seq<(String, JsonValue)>, key: Seq<char>) -> Option<int>
    decreases fields.len(),
{
    if fields.len() == 0 {
        None
    } else if fields.last().0@ == key && member_index(fields.drop_last(), key) is None {
        Some(fields.len() - 1)
    } else {
        member_index(fields.drop_last(), key)
    }
}

/// `value[key]` as `serde_json::Value::get` reads it: the member named `key`
/// of an object, and nothing for any other kind of value.
pub open spec fn json_get(value: JsonValue, key: Seq<char>) -> Option<JsonValue> {
    match value {
        JsonValue::Object(fields) => match member_index(fields@, key) {
            Some(i) => Some(fields@[i].1),
            None => None,
        },
        _ => None,
    }
}

/// The member of an object named `key`, if `value` is an object that has one.
pub fn get<'a>(value: &'a JsonValue, key: &String) -> (member: Option<&'a JsonValue>)
    ensures
        member == (match json_get(*value, key@) {
            Some(v) => Some(&v),
            None => None::<&JsonValue>,
        }),
{
    match value {
        JsonValue::Object(fields) => {
            let n = fields.len();
            let mut i: usize = 0;
            while i < n
                invariant
                    *value == JsonValue::Object(*fields),
                    n == fields@.len(),
                    i <= n,
                    member_index(fields@.take(i as int), key@) is None,
                decreases n - i,
            {
                proof {
                    assert(fields@.take(i + 1).drop_last() =~= fields@.take(i as int));
                }
                if fields[i].0 == *key {
                    proof {
                        assert(fields@.take(i + 1).last() == fields@[i as int]);
                        assert(member_index(fields@.take(i + 1), key@) == Some(i as int));
                        lemma_member_index_prefix(fields@, key@, (i + 1) as int);
                    }
                    return Some(&fields[i].1);
                }
                i = i + 1;
            }
            proof {
                assert(fields@.take(n as int) =~= fields@);
            }
            None
        },
        _ => None,
    }
}

/// The first member named `key` in a prefix that holds one is the first in the whole list.
proof fn lemma_member_index_prefix(fields: Seq<(String, JsonValue)>, key: Seq<char>, k: int)
    requires
        0 <= k <= fields.len(),
        member_index(fields.take(k), key) is Some,
    ensures
        member_index(fields, key) == member_index(fields.take(k), key),
    decreases fields.len() - k,
{
    if k < fields.len() {
        assert(fields.take(k + 1).drop_last() =~= fields.take(k));
        lemma_member_index_prefix(fields, key, k + 1);
    } else {
        assert(fields.take(k) =~= fields);
    }
}

/// The member of an object named `key` is the first member with that name.
pub proof fn lemma_get_first_member(fields: Vec<(String, JsonValue)>, key: Seq<char>, i: int)
    requires
        0 <= i < fields@.len(),
        fields@[i].0@ == key,
        forall|j: int| 0 <= j < i ==> fields@[j].0@ != key,
    ensures
        json_get(JsonValue::Object(fields), key) == Some(fields@[i].1),
{
    lemma_member_index_first(fields@, key, i);
}

/// An object without a member named `key`, and any value that is not an object, has nothing under `key`.
pub proof fn lemma_get_absent(value: JsonValue, key: Seq<char>)
    requires
        value matches JsonValue::Object(fields) ==> forall|j: int| 0 <= j < fields@.len() ==> fields@[j].0@ != key,
    ensures
        json_get(value, key) is None,
{
    if let JsonValue::Object(fields) = value {
        lemma_member_index_none(fields@, key);
    }
}

proof fn lemma_member_index_first(fields: Seq<(String, JsonValue)>, key: Seq<char>, i: int)
    requires
        0 <= i < fields.len(),
        fields[i].0@ == key,
        forall|j: int| 0 <= j < i ==> fields[j].0@ != key,
    ensures
        member_index(fields, key) == Some(i),
    decreases fields.len(),
{
    let p = fields.drop_last();
    if i < fields.len() - 1 {
        assert(p[i] == fields[i]);
        assert forall|j: int| 0 <= j < i implies p[j].0@ != key by {
            assert(p[j] == fields[j]);
        }
        lemma_member_index_first(p, key, i);
    } else {
        assert forall|j: int| 0 <= j < p.len() implies p[j].0@ != key by {
            assert(p[j] == fields[j]);
        }
        lemma_member_index_none(p, key);
    }
}

proof fn lemma_member_index_none(fields: Seq<(String, JsonValue)>, key: Seq<char>)
    requires
        forall|j: int| 0 <= j < fields.len() ==> fields[j].0@ != key,
    ensures
        member_index(fields, key) is None,
    decreases fields.len(),
{
    if fields.len() > 0 {
        let p = fields.drop_last();
        assert forall|j: int| 0 <= j < p.len() implies p[j].0@ != key by {
            assert(p[j] == fields[j]);
        }
        lemma_member_index_none(p, key);
    }
}

} // verus!
