use vstd::prelude::*;

verus! {

/// A JSON document.
pub enum Json {
    Null,
    Bool(bool),
    Int(i64),
    Str(String),
    Array(Vec<Json>),
    Object(Vec<(String, Json)>),
}

/// A JSON document with its strings as character sequences.
pub enum JsonSpec {
    Null,
    Bool(bool),
    Int(int),
    Str(Seq<char>),
    Array(Seq<JsonSpec>),
    Object(Seq<(Seq<char>, JsonSpec)>),
}

pub open spec fn json_view(j: Json) -> JsonSpec
    decreases j, 1int,
{
    match j {
        Json::Null => JsonSpec::Null,
        Json::Bool(b) => JsonSpec::Bool(b),
        Json::Int(i) => JsonSpec::Int(i as int),
        Json::Str(s) => JsonSpec::Str(s@),
        Json::Array(v) => JsonSpec::Array(json_seq_view(v@)),
        Json::Object(v) => JsonSpec::Object(json_entries_view(v@)),
    }
}

pub open spec fn json_seq_view(s: Seq<Json>) -> Seq<JsonSpec>
    decreases s, 0int,
{
    if s.len() == 0 {
        seq![]
    } else {
        json_seq_view(s.drop_last()).push(json_view(s.last()))
    }
}

pub open spec fn json_entries_view(s: Seq<(String, Json)>) -> Seq<(Seq<char>, JsonSpec)>
    decreases s, 0int,
{
    if s.len() == 0 {
        seq![]
    } else {
        json_entries_view(s.drop_last()).push((s.last().0@, json_view(s.last().1)))
    }
}

} // verus!

verus! {

/// An empty list of object members.
pub fn new_members() -> (r: Vec<(String, Json)>)
    ensures
        json_entries_view(r@) == Seq::<(Seq<char>, JsonSpec)>::empty(),
{
    Vec::new()
}

/// An empty list of array items.
pub fn new_items() -> (r: Vec<Json>)
    ensures
        json_seq_view(r@) == Seq::<JsonSpec>::empty(),
{
    Vec::new()
}

/// Appends the member `key: value`.
pub fn put(members: &mut Vec<(String, Json)>, key: &str, value: Json)
    ensures
        json_entries_view(final(members)@) == json_entries_view(old(members)@).push(
            (key@, json_view(value)),
        ),
{
    let ghost before = members@;
    members.push((key.to_owned(), value));
    proof {
        assert(members@.drop_last() =~= before);
    }
}

/// Appends the member `key: "value"`.
pub fn put_str(members: &mut Vec<(String, Json)>, key: &str, value: &str)
    ensures
        json_entries_view(final(members)@) == json_entries_view(old(members)@).push(
            (key@, JsonSpec::Str(value@)),
        ),
{
    put(members, key, Json::Str(value.to_owned()));
}

/// Appends the member `key: value` for a number.
pub fn put_int(members: &mut Vec<(String, Json)>, key: &str, value: i64)
    ensures
        json_entries_view(final(members)@) == json_entries_view(old(members)@).push(
            (key@, JsonSpec::Int(value as int)),
        ),
{
    put(members, key, Json::Int(value));
}

/// Appends the member `key: value` for a boolean.
pub fn put_bool(members: &mut Vec<(String, Json)>, key: &str, value: bool)
    ensures
        json_entries_view(final(members)@) == json_entries_view(old(members)@).push(
            (key@, JsonSpec::Bool(value)),
        ),
{
    put(members, key, Json::Bool(value));
}

/// Appends `value` to an array.
pub fn push_item(items: &mut Vec<Json>, value: Json)
    ensures
        json_seq_view(final(items)@) == json_seq_view(old(items)@).push(json_view(value)),
{
    let ghost before = items@;
    items.push(value);
    proof {
        assert(items@.drop_last() =~= before);
    }
}

/// An array of strings.
pub fn str_array(values: &[&str]) -> (r: Json)
    ensures
        json_view(r) == JsonSpec::Array(values@.map_values(|v: &str| JsonSpec::Str(v@))),
{
    let mut items = new_items();
    let mut i: usize = 0;
    while i < values.len()
        invariant
            i <= values@.len(),
            json_seq_view(items@) == values@.take(i as int).map_values(
                |v: &str| JsonSpec::Str(v@),
            ),
        decreases values@.len() - i,
    {
        push_item(&mut items, Json::Str(values[i].to_owned()));
        assert(values@.take(i + 1).map_values(|v: &str| JsonSpec::Str(v@)) =~= values@.take(
            i as int,
        ).map_values(|v: &str| JsonSpec::Str(v@)).push(JsonSpec::Str(values@[i as int]@)));
        i = i + 1;
    }
    assert(values@.take(values@.len() as int) =~= values@);
    Json::Array(items)
}

} // verus!
