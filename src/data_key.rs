//! Data-key paths: the strings that address a value of the JSON document,
//! built from field names (`.name`) and array positions (`[i]`).
use vstd::prelude::*;
use crate::json::{element, member, Json};
use crate::text::{decimal, decimal_string};

verus! {

/// The model of an optional key held in an `Option<String>`.
pub open spec fn key_view(k: Option<String>) -> Option<Seq<char>> {
    match k {
        Some(s) => Some(s@),
        None => None,
    }
}

/// `prefix.name`, or `name` alone where there is no prefix.
pub open spec fn join_key(prefix: Option<Seq<char>>, name: Seq<char>) -> Seq<char> {
    match prefix {
        Some(p) => p + seq!['.'] + name,
        None => name,
    }
}

/// `key[i]`.
pub open spec fn index_key(key: Seq<char>, i: nat) -> Seq<char> {
    key + seq!['['] + decimal(i) + seq![']']
}

/// One step of a path into the JSON document.
pub enum Segment {
    Field(Seq<char>),
    Index(nat),
}

/// The data key of the path `segs` below the optional key `prefix`.
pub open spec fn path_key(prefix: Option<Seq<char>>, segs: Seq<Segment>) -> Option<Seq<char>>
    decreases segs.len(),
{
    if segs.len() == 0 {
        prefix
    } else {
        let inner = path_key(prefix, segs.drop_last());
        match segs.last() {
            Segment::Field(name) => Some(join_key(inner, name)),
            Segment::Index(i) => match inner {
                Some(k) => Some(index_key(k, i)),
                None => None,
            },
        }
    }
}

/// The value reached by following `segs` from `j`: a member for a field, an
/// element for a position.
pub open spec fn resolve(j: Json, segs: Seq<Segment>) -> Option<Json>
    decreases segs.len(),
{
    if segs.len() == 0 {
        Some(j)
    } else {
        match resolve(j, segs.drop_last()) {
            None => None,
            Some(inner) => match segs.last() {
                Segment::Field(name) => member(inner, name),
                Segment::Index(i) => element(inner, i as int),
            },
        }
    }
}

/// Appends the field `key` to the optional data key `data_key`.
pub fn join_data_key(data_key: &Option<String>, key: &str) -> (r: String)
    ensures
        r@ == join_key(key_view(*data_key), key@),
{
    match data_key {
        Some(prefix) => {
            let mut r = prefix.clone();
            r.append(".");
            r.append(key);
            proof {
                reveal_strlit(".");
            }
            r
        },
        None => String::from_str(key),
    }
}

/// Appends the position `i` to the data key `key`.
pub fn index_data_key(key: &str, i: usize) -> (r: String)
    ensures
        r@ == index_key(key@, i as nat),
{
    let mut r = String::from_str(key);
    r.append("[");
    let d = decimal_string(i);
    r.append(d.as_str());
    r.append("]");
    proof {
        reveal_strlit("[");
        reveal_strlit("]");
    }
    r
}

} // verus!
