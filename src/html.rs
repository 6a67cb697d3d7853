//! The fragments of markup that every node is built from.
use vstd::prelude::*;
use crate::data_key::key_view;

verus! {

/// `<div class="{class}">\n{inner}\n</div>`.
pub open spec fn div_html(class: Seq<char>, inner: Seq<char>) -> Seq<char> {
    "<div class=\""@ + class + "\">\n"@ + inner + "\n</div>"@
}

/// The empty, keyed div that client code hydrates as component `name`.
pub open spec fn leaf_html(key: Seq<char>, name: Seq<char>) -> Seq<char> {
    "<div data-key=\""@ + key + "\" data-component=\""@ + name + "\"></div>"@
}

/// A leaf under an optional key: nothing where the key is missing.
pub open spec fn leaf_spec(key: Option<Seq<char>>, name: Seq<char>) -> Seq<char> {
    match key {
        Some(k) => leaf_html(k, name),
        None => Seq::empty(),
    }
}

/// Wraps `inner` in a div of class `class`.
pub fn div_wrap(class: &str, inner: &str) -> (r: String)
    ensures
        r@ == div_html(class@, inner@),
{
    let mut r = String::from_str("<div class=\"");
    r.append(class);
    r.append("\">\n");
    r.append(inner);
    r.append("\n</div>");
    r
}

/// The keyed div of component `name`.
pub fn leaf_div(key: &str, name: &str) -> (r: String)
    ensures
        r@ == leaf_html(key@, name@),
{
    let mut r = String::from_str("<div data-key=\"");
    r.append(key);
    r.append("\" data-component=\"");
    r.append(name);
    r.append("\"></div>");
    r
}

/// The keyed div of component `name` under the key `data_key`.
pub fn leaf_template(data_key: Option<String>, name: &str) -> (r: String)
    requires
        data_key is Some,
    ensures
        r@ == leaf_spec(key_view(data_key), name@),
{
    match data_key {
        Some(k) => leaf_div(k.as_str(), name),
        None => String::new(),
    }
}

} // verus!
