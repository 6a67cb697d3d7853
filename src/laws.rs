//! Properties that relate several operations of the library.
use vstd::prelude::*;
use crate::data_key::{index_key, join_key, path_key, resolve, Segment};
use crate::html::div_html;
use crate::json::{element, member, member_position, Json, ToJson};
use crate::layout::{
    col_class_spec, grid_cells, grid_item_key, grid_rows, lemma_grid_rows, list_item_key, tab_key,
    wrap_cell, DynGrid, GridLayout, Tabs,
};
use crate::text::{decimal, digit_char, joined, padded3, zeros};
use crate::{first_position, inserted, resource_ref, HtmlTemplate};

verus! {

/// Rendering a responsive grid of `n > 0` columns emits one row wrapper for
/// each `n` items, rounding up; the last row holds `count % n` items, or `n`
/// where `n` divides the count; and item `c` of row `r` is the column of the
/// item pushed at position `r * n + c`, so the items keep their push order.
pub proof fn law_grid_rows(g: DynGrid, key: Option<Seq<char>>, n: u8)
    requires
        g.layout() == GridLayout::MaxCols(n),
        n > 0,
    ensures
        ({
            let count = g.fragments().len();
            let cells = grid_cells(g.fragments(), key);
            let rows = grid_rows(cells.map_values(|c: Seq<char>| wrap_cell(g.layout(), c)), n as nat);
            &&& g.spec_template(key) == joined(
                rows.map_values(|row: Seq<Seq<char>>| div_html("row"@, joined(row, "\n"@))),
                "\n"@,
            )
            &&& rows.len() * n >= count
            &&& rows.len() > 0 ==> (rows.len() - 1) * n < count
            &&& count > 0 ==> rows.last().len() == (if count % (n as nat) == 0 {
                n as nat
            } else {
                count % (n as nat)
            })
            &&& forall|r: int, c: int|
                0 <= r < rows.len() && 0 <= c < rows[r].len() ==> rows[r][c] == div_html(
                    col_class_spec(n),
                    cells[r * n + c],
                )
        }),
{
    let cells = grid_cells(g.fragments(), key);
    let wrapped = cells.map_values(|c: Seq<char>| wrap_cell(g.layout(), c));
    lemma_grid_rows(wrapped, n as nat);
    let rows = grid_rows(wrapped, n as nat);
    assert forall|r: int, c: int|
        0 <= r < rows.len() && 0 <= c < rows[r].len() implies rows[r][c] == div_html(
            col_class_spec(n),
            cells[r * n + c],
        ) by {
        crate::layout::lemma_row_start(wrapped.len(), n as nat, r as nat);
        assert(rows[r][c] == wrapped[r * n + c]);
    }
    assert(rows.map_values(|row: Seq<Seq<char>>| crate::layout::wrap_row(g.layout(), joined(row, "\n"@)))
        =~= rows.map_values(|row: Seq<Seq<char>>| div_html("row"@, joined(row, "\n"@))));
}

proof fn lemma_first_position_bounds(s: Seq<Json>, v: Json)
    ensures
        first_position(s, v) <= s.len(),
        first_position(s, v) < s.len() ==> s[first_position(s, v) as int] == v,
        forall|k: int| 0 <= k < first_position(s, v) ==> s[k] != v,
    decreases s.len(),
{
    if s.len() > 0 && s[0] != v {
        lemma_first_position_bounds(s.skip(1), v);
        assert forall|k: int| 0 <= k < first_position(s, v) implies s[k] != v by {
            if k > 0 {
                assert(s[k] == s.skip(1)[k - 1]);
            }
        }
    }
}

/// Inserting a value and then a structurally equal one gives the same
/// reference both times, and the store grows by one value at most: by one
/// where the value was not stored yet, else not at all.
pub proof fn law_equal_values_share_reference(s: Seq<Json>, v1: Json, v2: Json)
    requires
        v1 == v2,
    ensures
        inserted(inserted(s, v1).0, v2).1 == inserted(s, v1).1,
        inserted(inserted(s, v1).0, v2).0.len() == s.len() + (if s.contains(v1) {
            0int
        } else {
            1int
        }),
{
    lemma_first_position_bounds(s, v1);
    let p = first_position(s, v1);
    if p < s.len() {
        assert(s.contains(v1));
    } else {
        assert(!s.contains(v1));
        let s1 = s.push(v1);
        assert forall|k: int| 0 <= k < s.len() implies s1[k] != v1 by {
            assert(s1[k] == s[k]);
        }
        crate::lemma_first_position(s1, v1, s.len() as int);
    }
}

proof fn lemma_decimal_last(n: nat)
    ensures
        decimal(n).len() > 0,
        decimal(n).last() == digit_char((n % 10) as int),
    decreases n,
{
    if n >= 10 {
        lemma_decimal_last(n / 10);
    }
}

proof fn lemma_digit_code(d: int)
    requires
        0 <= d < 10,
    ensures
        digit_char(d) as u32 == 48 + d,
{
    let s = seq!['0', '1', '2', '3', '4', '5', '6', '7', '8', '9'];
    assert(s[0] == '0' && s[1] == '1' && s[2] == '2' && s[3] == '3' && s[4] == '4');
    assert(s[5] == '5' && s[6] == '6' && s[7] == '7' && s[8] == '8' && s[9] == '9');
}

proof fn lemma_resource_ref_last(n: nat)
    ensures
        resource_ref(n).len() > 0,
        resource_ref(n).last() == digit_char((n % 10) as int),
{
    lemma_decimal_last(n);
    let d = decimal(n);
    let p = padded3(n);
    if d.len() < 3 {
        assert(p == zeros((3 - d.len()) as nat) + d);
    }
    assert(p.last() == d.last());
}

/// Inserting two different values that are not stored yet grows the store
/// by two and returns two different references: the prefix followed by the
/// zero-padded ids `len` and `len + 1`, in the order of insertion.
pub proof fn law_distinct_values_get_new_ids(s: Seq<Json>, v1: Json, v2: Json)
    requires
        v1 != v2,
        !s.contains(v1),
        !s.contains(v2),
    ensures
        ({
            let (s1, r1) = inserted(s, v1);
            let (s2, r2) = inserted(s1, v2);
            &&& s2.len() == s.len() + 2
            &&& r1 == resource_ref(s.len())
            &&& r2 == resource_ref(s.len() + 1)
            &&& r1 != r2
        }),
{
    lemma_first_position_bounds(s, v1);
    if first_position(s, v1) < s.len() {
        assert(s.contains(v1));
    }
    let s1 = s.push(v1);
    lemma_first_position_bounds(s1, v2);
    if first_position(s1, v2) < s1.len() {
        let p = first_position(s1, v2) as int;
        if p < s.len() {
            assert(s[p] == v2);
            assert(s.contains(v2));
        }
    }
    let n = s.len();
    lemma_resource_ref_last(n);
    lemma_resource_ref_last(n + 1);
    lemma_digit_code((n % 10) as int);
    lemma_digit_code(((n + 1) % 10) as int);
    assert(n % 10 != (n + 1) % 10);
}

/// Where a grid sits at path `p` of a document, the data key that item `i`
/// is rendered under is the key of the path `p.grid_data[i]`, and that path
/// leads to the JSON value that the item was pushed with.
pub proof fn law_grid_item_key_resolves(doc: Json, p: Seq<Segment>, g: DynGrid, i: nat)
    requires
        resolve(doc, p) == Some(g.spec_json()),
        i < g.data().len(),
    ensures
        path_key(None, p.push(Segment::Field("grid_data"@)).push(Segment::Index(i))) == Some(
            grid_item_key(path_key(None, p), i),
        ),
        resolve(doc, p.push(Segment::Field("grid_data"@)).push(Segment::Index(i))) == Some(
            g.data()[i as int],
        ),
{
    let p1 = p.push(Segment::Field("grid_data"@));
    let p2 = p1.push(Segment::Index(i));
    assert(p2.drop_last() =~= p1);
    assert(p1.drop_last() =~= p);
    assert(path_key(None, p1) == Some(join_key(path_key(None, p), "grid_data"@)));
    assert(path_key(None, p2) == Some(index_key(join_key(path_key(None, p), "grid_data"@), i)));
    let fields = g.spec_json()->Object_0;
    assert(fields[0].0 == "grid_data"@);
    assert(member_position(fields, "grid_data"@) == 0);
    assert(resolve(doc, p1) == member(g.spec_json(), "grid_data"@));
    assert(resolve(doc, p1) == Some(Json::Array(g.data())));
    assert(resolve(doc, p2) == element(Json::Array(g.data()), i as int));
}

/// Where tabs sit at path `p` of a document, the data key that tab `i` is
/// rendered under is the key of the path `p.tab_data[i]`, and that path
/// leads to the JSON value that the tab was pushed with.
pub proof fn law_tab_key_resolves(doc: Json, p: Seq<Segment>, t: Tabs, i: nat)
    requires
        resolve(doc, p) == Some(t.spec_json()),
        i < t.data().len(),
    ensures
        path_key(None, p.push(Segment::Field("tab_data"@)).push(Segment::Index(i))) == Some(
            tab_key(path_key(None, p), i),
        ),
        resolve(doc, p.push(Segment::Field("tab_data"@)).push(Segment::Index(i))) == Some(
            t.data()[i as int],
        ),
{
    let p1 = p.push(Segment::Field("tab_data"@));
    let p2 = p1.push(Segment::Index(i));
    assert(p2.drop_last() =~= p1);
    assert(p1.drop_last() =~= p);
    assert(path_key(None, p1) == Some(join_key(path_key(None, p), "tab_data"@)));
    assert(path_key(None, p2) == Some(index_key(join_key(path_key(None, p), "tab_data"@), i)));
    let fields = t.spec_json()->Object_0;
    assert(fields[0].0 == "tab_data"@);
    assert(member_position(fields, "tab_data"@) == 0);
    assert(resolve(doc, p1) == member(t.spec_json(), "tab_data"@));
    assert(resolve(doc, p1) == Some(Json::Array(t.data())));
    assert(resolve(doc, p2) == element(Json::Array(t.data()), i as int));
}

/// Where a list sits at path `p` of a document, element `i` is rendered
/// under the key of the path `p[i]`, and that path leads to the element's
/// JSON value.
pub proof fn law_list_item_key_resolves<T: HtmlTemplate + ToJson>(
    doc: Json,
    p: Seq<Segment>,
    v: Vec<T>,
    i: nat,
)
    requires
        resolve(doc, p) == Some(v.spec_json()),
        path_key(None, p) is Some,
        i < v.len(),
    ensures
        path_key(None, p.push(Segment::Index(i))) == list_item_key(path_key(None, p), i),
        resolve(doc, p.push(Segment::Index(i))) == Some(v[i as int].spec_json()),
{
    let p1 = p.push(Segment::Index(i));
    assert(p1.drop_last() =~= p);
    assert(resolve(doc, p1) == element(v.spec_json(), i as int));
}

} // verus!

verus! {

/// A field of a node at path `p` is rendered under the key of the path
/// `p.name`, and that path leads to the member `name` of the node's JSON
/// value.
pub proof fn law_field_key_resolves(doc: Json, p: Seq<Segment>, name: Seq<char>)
    ensures
        path_key(None, p.push(Segment::Field(name))) == Some(join_key(path_key(None, p), name)),
        resolve(doc, p.push(Segment::Field(name))) == match resolve(doc, p) {
            Some(j) => member(j, name),
            None => None,
        },
{
    let p1 = p.push(Segment::Field(name));
    assert(p1.drop_last() =~= p);
}

} // verus!
