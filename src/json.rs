//! The JSON document model that rendered data keys point into.
use vstd::prelude::*;

verus! {

broadcast use vstd::std_specs::vec::group_vec_axioms;

/// A JSON value as the library builds it. Object members keep the order in
/// which they were written.
#[derive(Debug, PartialEq)]
pub enum JsonValue {
    Null,
    Bool(bool),
    Number(i128),
    Str(String),
    Array(Vec<JsonValue>),
    Object(Vec<(String, JsonValue)>),
}

/// The mathematical model of a JSON value.
pub enum Json {
    Null,
    Bool(bool),
    Number(int),
    Str(Seq<char>),
    Array(Seq<Json>),
    Object(Seq<(Seq<char>, Json)>),
}

impl JsonValue {
    pub open spec fn view(&self) -> Json
        decreases self,
    {
        match self {
            JsonValue::Null => Json::Null,
            JsonValue::Bool(b) => Json::Bool(*b),
            JsonValue::Number(n) => Json::Number(*n as int),
            JsonValue::Str(s) => Json::Str(s@),
            JsonValue::Array(v) => Json::Array(
                Seq::new(v.len() as nat, |i: int| if 0 <= i < v.len() { v[i].view() } else { Json::Null }),
            ),
            JsonValue::Object(v) => Json::Object(
                Seq::new(
                    v.len() as nat,
                    |i: int| if 0 <= i < v.len() { (v[i].0@, v[i].1.view()) } else { (Seq::empty(), Json::Null) },
                ),
            ),
        }
    }
}


/// A value whose JSON form is known exactly.
pub trait ToJson {
    spec fn spec_json(&self) -> Json;

    fn to_json(&self) -> (j: JsonValue)
        ensures
            j@ == self.spec_json(),
    ;
}

/// Structural equality of two JSON values.
pub fn json_equal(a: &JsonValue, b: &JsonValue) -> (r: bool)
    ensures
        r == (a@ == b@),
    decreases a,
{
    match (a, b) {
        (JsonValue::Null, JsonValue::Null) => true,
        (JsonValue::Bool(x), JsonValue::Bool(y)) => *x == *y,
        (JsonValue::Number(x), JsonValue::Number(y)) => *x == *y,
        (JsonValue::Str(x), JsonValue::Str(y)) => *x == *y,
        (JsonValue::Array(x), JsonValue::Array(y)) => {
            if x.len() != y.len() {
                assert(a@->Array_0.len() != b@->Array_0.len());
                return false;
            }
            let mut i: usize = 0;
            while i < x.len()
                invariant
                    x.len() == y.len(),
                    i <= x.len(),
                    *a == JsonValue::Array(*x),
                    *b == JsonValue::Array(*y),
                    forall|k: int| 0 <= k < i ==> x[k]@ == y[k]@,
                decreases x.len() - i,
            {
                assert(decreases_to!(a => x[i as int]));
                if !json_equal(&x[i], &y[i]) {
                    assert(a@->Array_0[i as int] != b@->Array_0[i as int]);
                    return false;
                }
                i = i + 1;
            }
            assert(a@->Array_0 =~= b@->Array_0);
            true
        },
        (JsonValue::Object(x), JsonValue::Object(y)) => {
            if x.len() != y.len() {
                assert(a@->Object_0.len() != b@->Object_0.len());
                return false;
            }
            let mut i: usize = 0;
            while i < x.len()
                invariant
                    x.len() == y.len(),
                    i <= x.len(),
                    *a == JsonValue::Object(*x),
                    *b == JsonValue::Object(*y),
                    forall|k: int| 0 <= k < i ==> x[k].0@ == y[k].0@ && x[k].1@ == y[k].1@,
                decreases x.len() - i,
            {
                assert(decreases_to!(a => x[i as int].1));
                if x[i].0 != y[i].0 {
                    assert(a@->Object_0[i as int] != b@->Object_0[i as int]);
                    return false;
                }
                if !json_equal(&x[i].1, &y[i].1) {
                    assert(a@->Object_0[i as int] != b@->Object_0[i as int]);
                    return false;
                }
                i = i + 1;
            }
            assert(a@->Object_0 =~= b@->Object_0);
            true
        },
        _ => false,
    }
}

impl JsonValue {
    /// A copy of this value.
    pub fn clone_value(&self) -> (r: JsonValue)
        ensures
            r@ == self@,
    {
        copy_json(self)
    }
}

proof fn lemma_array_decreases(a: JsonValue, i: int)
    requires
        a is Array,
        0 <= i < a->Array_0.len(),
    ensures
        decreases_to!(a => a->Array_0[i]),
{
    assert(decreases_to!(a->Array_0 => a->Array_0[i]));
}

proof fn lemma_object_decreases(a: JsonValue, i: int)
    requires
        a is Object,
        0 <= i < a->Object_0.len(),
    ensures
        decreases_to!(a => a->Object_0[i].1),
{
    assert(decreases_to!(a->Object_0 => a->Object_0[i]));
}

fn copy_json(a: &JsonValue) -> (r: JsonValue)
    ensures
        r@ == a@,
    decreases a,
{
        match a {
            JsonValue::Null => JsonValue::Null,
            JsonValue::Bool(b) => JsonValue::Bool(*b),
            JsonValue::Number(n) => JsonValue::Number(*n),
            JsonValue::Str(s) => JsonValue::Str(s.clone()),
            JsonValue::Array(v) => {
                assert(a@->Array_0.len() == v.len());
                let mut out: Vec<JsonValue> = Vec::new();
                let mut i: usize = 0;
                while i < v.len()
                    invariant
                        *a == JsonValue::Array(*v),
                        i <= v.len(),
                        out.len() == i,
                        forall|k: int| 0 <= k < i ==> out[k]@ == v[k]@,
                    decreases v.len() - i,
                {
                    proof {
                        lemma_array_decreases(*a, i as int);
                    }
                    out.push(copy_json(&v[i]));
                    i = i + 1;
                }
                let r = JsonValue::Array(out);
                assert(r@->Array_0 =~= a@->Array_0);
                r
            },
            JsonValue::Object(v) => {
                assert(a@->Object_0.len() == v.len());
                let mut out: Vec<(String, JsonValue)> = Vec::new();
                let mut i: usize = 0;
                while i < v.len()
                    invariant
                        *a == JsonValue::Object(*v),
                        i <= v.len(),
                        out.len() == i,
                        forall|k: int| 0 <= k < i ==> out[k].0@ == v[k].0@ && out[k].1@ == v[k].1@,
                    decreases v.len() - i,
                {
                    proof {
                        lemma_object_decreases(*a, i as int);
                    }
                    out.push((v[i].0.clone(), copy_json(&v[i].1)));
                    i = i + 1;
                }
                let r = JsonValue::Object(out);
                assert(r@->Object_0 =~= a@->Object_0);
                r
            },
        }
}

/// A JSON string holding the characters of `s`.
pub fn json_str(s: &str) -> (j: JsonValue)
    ensures
        j@ == Json::Str(s@),
{
    JsonValue::Str(String::from_str(s))
}

/// The model of the members of an object under construction.
pub open spec fn members_view(m: Seq<(String, JsonValue)>) -> Seq<(Seq<char>, Json)> {
    m.map_values(|p: (String, JsonValue)| (p.0@, p.1@))
}

/// An empty list of members.
pub fn no_members() -> (m: Vec<(String, JsonValue)>)
    ensures
        members_view(m@) == Seq::<(Seq<char>, Json)>::empty(),
{
    let m = Vec::new();
    assert(members_view(m@) =~= Seq::<(Seq<char>, Json)>::empty());
    m
}

/// Appends the member `key: v` to the members `m`.
pub fn push_member(m: &mut Vec<(String, JsonValue)>, key: &str, v: JsonValue)
    ensures
        members_view(final(m)@) == members_view(old(m)@).push((key@, v@)),
{
    let ghost v_view = v@;
    m.push((String::from_str(key), v));
    assert(members_view(m@) =~= members_view(old(m)@).push((key@, v_view)));
}

/// The object with the members `m`, in their order.
pub fn object_json(m: Vec<(String, JsonValue)>) -> (j: JsonValue)
    ensures
        j@ == Json::Object(members_view(m@)),
{
    let j = JsonValue::Object(m);
    assert(j@->Object_0 =~= members_view(m@));
    j
}

/// The JSON null.
pub fn null_json() -> (j: JsonValue)
    ensures
        j@ == Json::Null,
{
    JsonValue::Null
}

/// A JSON string holding a copy of `s`.
pub fn string_json(s: &String) -> (j: JsonValue)
    ensures
        j@ == Json::Str(s@),
{
    JsonValue::Str(s.clone())
}

/// The JSON form of an optional string: the string, or null.
pub open spec fn opt_str_json(s: Option<Seq<char>>) -> Json {
    match s {
        Some(t) => Json::Str(t),
        None => Json::Null,
    }
}

pub fn opt_string_to_json(s: &Option<String>) -> (j: JsonValue)
    ensures
        j@ == opt_str_json(match s {
            Some(t) => Some(t@),
            None => None,
        }),
{
    match s {
        Some(t) => JsonValue::Str(t.clone()),
        None => JsonValue::Null,
    }
}

/// The JSON array of the strings in `v`.
pub open spec fn str_array_json(v: Seq<Seq<char>>) -> Json {
    Json::Array(v.map_values(|s: Seq<char>| Json::Str(s)))
}

pub fn strings_to_json(v: &Vec<String>) -> (j: JsonValue)
    ensures
        j@ == str_array_json(v@.map_values(|s: String| s@)),
{
    let mut out: Vec<JsonValue> = Vec::new();
    let mut i: usize = 0;
    while i < v.len()
        invariant
            i <= v.len(),
            out.len() == i,
            forall|k: int| 0 <= k < i ==> out[k]@ == Json::Str(v[k]@),
        decreases v.len() - i,
    {
        out.push(JsonValue::Str(v[i].clone()));
        i = i + 1;
    }
    let j = JsonValue::Array(out);
    assert(j@->Array_0 =~= str_array_json(v@.map_values(|s: String| s@))->Array_0);
    j
}

/// The position of the first member named `name`; `fields.len()` if none is.
pub open spec fn member_position(fields: Seq<(Seq<char>, Json)>, name: Seq<char>) -> nat
    decreases fields.len(),
{
    if fields.len() == 0 {
        0
    } else if fields[0].0 == name {
        0
    } else {
        1 + member_position(fields.skip(1), name)
    }
}

/// The value under the first member named `name` of a JSON object.
pub open spec fn member(j: Json, name: Seq<char>) -> Option<Json> {
    match j {
        Json::Object(fields) => if member_position(fields, name) < fields.len() {
            Some(fields[member_position(fields, name) as int].1)
        } else {
            None
        },
        _ => None,
    }
}

proof fn lemma_member_position(fields: Seq<(Seq<char>, Json)>, name: Seq<char>, i: int)
    requires
        0 <= i <= fields.len(),
        forall|k: int| 0 <= k < i ==> fields[k].0 != name,
        i == fields.len() || fields[i].0 == name,
    ensures
        member_position(fields, name) == i,
    decreases fields.len(),
{
    if fields.len() > 0 && i > 0 {
        assert forall|k: int| 0 <= k < i - 1 implies fields.skip(1)[k].0 != name by {
            assert(fields.skip(1)[k] == fields[k + 1]);
        }
        lemma_member_position(fields.skip(1), name, i - 1);
    }
}

/// The value under the first member named `name`, where `j` is an object
/// that has one.
pub fn get_member<'a>(j: &'a JsonValue, name: &str) -> (r: Option<&'a JsonValue>)
    ensures
        match r {
            Some(v) => member(j@, name@) == Some(v@),
            None => member(j@, name@) is None,
        },
{
    match j {
        JsonValue::Object(fields) => {
            let ghost fv = j@->Object_0;
            let mut i: usize = 0;
            while i < fields.len()
                invariant
                    fv == j@->Object_0,
                    *j == JsonValue::Object(*fields),
                    i <= fields.len(),
                    forall|k: int| 0 <= k < i ==> fv[k].0 != name@,
                decreases fields.len() - i,
            {
                assert(fv[i as int] == (fields[i as int].0@, fields[i as int].1@));
                if fields[i].0 == String::from_str(name) {
                    proof {
                        lemma_member_position(fv, name@, i as int);
                    }
                    return Some(&fields[i].1);
                }
                i = i + 1;
            }
            proof {
                lemma_member_position(fv, name@, fv.len() as int);
            }
            None
        },
        _ => None,
    }
}

/// The characters of `j` where it is a JSON string.
pub open spec fn as_str(j: Json) -> Option<Seq<char>> {
    match j {
        Json::Str(s) => Some(s),
        _ => None,
    }
}

/// A copy of the string held by `j`, where `j` is a JSON string.
pub fn get_string(j: &JsonValue) -> (r: Option<String>)
    ensures
        match r {
            Some(s) => as_str(j@) == Some(s@),
            None => as_str(j@) is None,
        },
{
    match j {
        JsonValue::Str(s) => Some(s.clone()),
        _ => None,
    }
}

/// The strings of `j` where it is an array of JSON strings.
pub open spec fn as_str_array(j: Json) -> Option<Seq<Seq<char>>> {
    match j {
        Json::Array(items) => if forall|i: int| 0 <= i < items.len() ==> items[i] is Str {
            Some(items.map_values(|x: Json| x->Str_0))
        } else {
            None
        },
        _ => None,
    }
}

/// Copies of the strings of `j`, where `j` is an array of JSON strings.
pub fn get_string_array(j: &JsonValue) -> (r: Option<Vec<String>>)
    ensures
        match r {
            Some(v) => as_str_array(j@) == Some(v@.map_values(|s: String| s@)),
            None => as_str_array(j@) is None,
        },
{
    match j {
        JsonValue::Array(items) => {
            let ghost iv = j@->Array_0;
            let mut out: Vec<String> = Vec::new();
            let mut i: usize = 0;
            while i < items.len()
                invariant
                    iv == j@->Array_0,
                    *j == JsonValue::Array(*items),
                    i <= items.len(),
                    out.len() == i,
                    forall|k: int| 0 <= k < i ==> iv[k] is Str && iv[k]->Str_0 == out[k]@,
                decreases items.len() - i,
            {
                assert(iv[i as int] == items[i as int]@);
                match &items[i] {
                    JsonValue::Str(s) => {
                        assert(items[i as int]@ == Json::Str(s@));
                        out.push(s.clone());
                    },
                    _ => {
                        assert(!(items[i as int]@ is Str));
                        return None;
                    },
                }
                i = i + 1;
            }
            assert(out@.map_values(|s: String| s@) =~= iv.map_values(|x: Json| x->Str_0));
            Some(out)
        },
        _ => None,
    }
}

/// The string under the member `name` of `j`.
pub open spec fn str_member(j: Json, name: Seq<char>) -> Option<Seq<char>> {
    match member(j, name) {
        Some(v) => as_str(v),
        None => None,
    }
}

/// A copy of the string under the member `name` of `j`.
pub fn get_str_member(j: &JsonValue, name: &str) -> (r: Option<String>)
    ensures
        match r {
            Some(s) => str_member(j@, name@) == Some(s@),
            None => str_member(j@, name@) is None,
        },
{
    match get_member(j, name) {
        Some(v) => get_string(v),
        None => None,
    }
}

/// The element at position `i` of a JSON array.
pub open spec fn element(j: Json, i: int) -> Option<Json> {
    match j {
        Json::Array(items) => if 0 <= i < items.len() {
            Some(items[i])
        } else {
            None
        },
        _ => None,
    }
}

} // verus!
