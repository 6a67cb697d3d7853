//! Layout nodes: lists, optional nodes, cards, and grids whose items are
//! rendered when pushed, under a marker key that is patched at render time.
use vstd::prelude::*;
use crate::data_key::{index_data_key, index_key, join_data_key, join_key, key_view};
use crate::html::{div_html, div_wrap};
use crate::json::{no_members, object_json, push_member, Json, JsonValue, ToJson};
use crate::text::{decimal, decimal_string, join_range, join_strings, joined, replace_all, replaced};
use crate::HtmlTemplate;

verus! {

/// Stands in for the data key of a grid item until the grid is rendered.
pub const DYN_GRID_MARKER: &'static str = "__AUbkUE__DYN_GRID__WhcSw=__";

/// Layout of a grid.
#[derive(Debug, Clone, Copy, PartialEq, Eq, Structural)]
pub enum GridLayout {
    /// Up to the given number of columns, responsive
    MaxCols(u8),
    /// Up to the given number of columns, laid out as a table
    MaxColsNonResponsive(u8),
}

/// The CSS class of a column in a responsive grid of `n` columns.
pub open spec fn col_class_spec(n: u8) -> Seq<char> {
    if n == 2 {
        "col-sm-6"@
    } else if n == 3 {
        "col-sm-4"@
    } else if n == 4 {
        "col-sm-3"@
    } else if n == 6 {
        "col-sm-2"@
    } else {
        "col"@
    }
}

impl GridLayout {
    pub open spec fn max_cols(self) -> u8 {
        match self {
            GridLayout::MaxCols(n) => n,
            GridLayout::MaxColsNonResponsive(n) => n,
        }
    }

    /// The CSS class of each column.
    pub fn col_class(&self) -> (r: &'static str)
        ensures
            r@ == col_class_spec(self.max_cols()),
    {
        let n = match self {
            GridLayout::MaxCols(n) => *n,
            GridLayout::MaxColsNonResponsive(n) => *n,
        };
        if n == 2 {
            "col-sm-6"
        } else if n == 3 {
            "col-sm-4"
        } else if n == 4 {
            "col-sm-3"
        } else if n == 6 {
            "col-sm-2"
        } else {
            "col"
        }
    }
}

/// The number of rows of `len` items, `n` to a row: zero when `n` is zero.
pub open spec fn row_count(len: nat, n: nat) -> nat {
    if n == 0 {
        0
    } else {
        len / n + if len % n == 0 {
            0nat
        } else {
            1nat
        }
    }
}

/// Where row `r` of `len` items, `n` to a row, ends.
pub open spec fn row_end(len: nat, n: nat, r: nat) -> nat {
    if len - r * n < n {
        len
    } else {
        r * n + n
    }
}

/// The items, in order, cut into rows of `n`; the last row holds the rest.
pub open spec fn grid_rows<A>(items: Seq<A>, n: nat) -> Seq<Seq<A>> {
    Seq::new(
        row_count(items.len(), n),
        |r: int| items.subrange(r * n, row_end(items.len(), n, r as nat) as int),
    )
}

pub proof fn lemma_row_start(len: nat, n: nat, r: nat)
    requires
        n > 0,
        r < row_count(len, n),
    ensures
        r * n < len,
        r * n < row_end(len, n, r) <= len,
{
    let q = len / n;
    let m = len % n;
    vstd::arithmetic::div_mod::lemma_fundamental_div_mod(len as int, n as int);
    assert(r * n < len) by (nonlinear_arith)
        requires
            len == n * q + m,
            0 <= m < n,
            r < q || (r == q && m > 0),
            n > 0,
    ;
}

/// Rows of a grid: their number is the ceiling of `len / n`, the last holds
/// `len % n` items (or `n` where `n` divides `len`), and item `c` of row `r`
/// is item `r * n + c`, so the items keep their order.
pub proof fn lemma_grid_rows<A>(items: Seq<A>, n: nat)
    requires
        n > 0,
    ensures
        grid_rows(items, n).len() * n >= items.len(),
        grid_rows(items, n).len() > 0 ==> (grid_rows(items, n).len() - 1) * n < items.len(),
        items.len() > 0 ==> grid_rows(items, n).last().len() == (if items.len() % n == 0 {
            n
        } else {
            items.len() % n
        }),
        forall|r: int, c: int|
            0 <= r < grid_rows(items, n).len() && 0 <= c < grid_rows(items, n)[r].len()
                ==> grid_rows(items, n)[r][c] == items[r * n + c],
{
    let len = items.len();
    let q = len / n;
    let m = len % n;
    let rows = grid_rows(items, n);
    vstd::arithmetic::div_mod::lemma_fundamental_div_mod(len as int, n as int);
    assert(rows.len() * n >= len) by (nonlinear_arith)
        requires
            len == n * q + m,
            0 <= m < n,
            rows.len() == q + (if m == 0 {
                0int
            } else {
                1int
            }),
    ;
    if rows.len() > 0 {
        assert((rows.len() - 1) * n < len) by (nonlinear_arith)
            requires
                len == n * q + m,
                0 <= m < n,
                rows.len() == q + (if m == 0 {
                    0int
                } else {
                    1int
                }),
                rows.len() > 0,
        ;
    }
    if len > 0 {
        let last = (rows.len() - 1) as nat;
        assert(rows.len() > 0) by (nonlinear_arith)
            requires
                len == n * q + m,
                0 <= m < n,
                len > 0,
                rows.len() == q + (if m == 0 {
                    0int
                } else {
                    1int
                }),
        ;
        lemma_row_start(len, n, last);
        if m == 0 {
            assert(last * n == len - n) by (nonlinear_arith)
                requires
                    len == n * q,
                    last == q - 1,
            ;
        } else {
            assert(last * n == len - m) by (nonlinear_arith)
                requires
                    len == n * q + m,
                    last == q,
            ;
        }
    }
    assert forall|r: int, c: int|
        0 <= r < rows.len() && 0 <= c < rows[r].len() implies rows[r][c] == items[r * n + c] by {
        lemma_row_start(len, n, r as nat);
    }
}

/// The data key of item `i` of a grid under `key`.
pub open spec fn grid_item_key(key: Option<Seq<char>>, i: nat) -> Seq<char> {
    index_key(join_key(key, "grid_data"@), i)
}

/// The fragments of a grid under `key`, each with its marker replaced by the
/// item's data key.
pub open spec fn grid_cells(fragments: Seq<Seq<char>>, key: Option<Seq<char>>) -> Seq<Seq<char>> {
    Seq::new(
        fragments.len(),
        |i: int| replaced(fragments[i], DYN_GRID_MARKER@, grid_item_key(key, i as nat)),
    )
}

/// A cell as the layout wraps it: a column div, or a table cell.
pub open spec fn wrap_cell(layout: GridLayout, cell: Seq<char>) -> Seq<char> {
    match layout {
        GridLayout::MaxCols(n) => div_html(col_class_spec(n), cell),
        GridLayout::MaxColsNonResponsive(_) => "<td>"@ + cell + "</td>"@,
    }
}

/// A row as the layout wraps its joined cells: a row div, or a table row.
pub open spec fn wrap_row(layout: GridLayout, inner: Seq<char>) -> Seq<char> {
    match layout {
        GridLayout::MaxCols(_) => div_html("row"@, inner),
        GridLayout::MaxColsNonResponsive(_) => "<tr>"@ + inner + "</tr>"@,
    }
}

/// The markup of a grid whose cells, keys patched in, are `cells`.
pub open spec fn grid_html(layout: GridLayout, cells: Seq<Seq<char>>) -> Seq<char> {
    let wrapped = cells.map_values(|c: Seq<char>| wrap_cell(layout, c));
    let rows = grid_rows(wrapped, layout.max_cols() as nat).map_values(
        |row: Seq<Seq<char>>| wrap_row(layout, joined(row, "\n"@)),
    );
    match layout {
        GridLayout::MaxCols(_) => joined(rows, "\n"@),
        GridLayout::MaxColsNonResponsive(_) => "<table><tbody>"@ + joined(rows, "\n"@)
            + "</tbody></table>"@,
    }
}

/// A grid that can hold items of different types.
pub struct DynGrid {
    grid_data: Vec<JsonValue>,
    elements: Vec<String>,
    layout: GridLayout,
}

impl DynGrid {
    /// The JSON values of the items, in push order.
    pub closed spec fn data(&self) -> Seq<Json> {
        self.grid_data@.map_values(|v: JsonValue| v@)
    }

    /// The items rendered under the marker key, in push order.
    pub closed spec fn fragments(&self) -> Seq<Seq<char>> {
        self.elements@.map_values(|s: String| s@)
    }

    pub closed spec fn layout(&self) -> GridLayout {
        self.layout
    }

    pub fn new(layout: GridLayout) -> (r: DynGrid)
        ensures
            r.data() == Seq::<Json>::empty(),
            r.fragments() == Seq::<Seq<char>>::empty(),
            r.layout() == layout,
    {
        let r = DynGrid { grid_data: Vec::new(), elements: Vec::new(), layout };
        assert(r.data() =~= Seq::<Json>::empty());
        assert(r.fragments() =~= Seq::<Seq<char>>::empty());
        r
    }

    /// Appends an item: its JSON value, and its markup under the marker key.
    pub fn push<T: HtmlTemplate + ToJson>(&mut self, element: T)
        ensures
            final(self).data() == old(self).data().push(element.spec_json()),
            final(self).fragments() == old(self).fragments().push(
                element.spec_template(Some(DYN_GRID_MARKER@)),
            ),
            final(self).layout() == old(self).layout(),
    {
        let j = element.to_json();
        let ghost jv = j@;
        self.grid_data.push(j);
        let html = element.template(Some(String::from_str(DYN_GRID_MARKER)));
        self.elements.push(html);
        assert(self.data() =~= old(self).data().push(jv));
        assert(self.fragments() =~= old(self).fragments().push(
            element.spec_template(Some(DYN_GRID_MARKER@)),
        ));
    }

    /// A grid holding `elements`, pushed in order.
    pub fn with_elements<T: HtmlTemplate + ToJson>(elements: Vec<T>, layout: GridLayout) -> (r:
        DynGrid)
        ensures
            r.data() == elements@.map_values(|e: T| e.spec_json()),
            r.fragments() == elements@.map_values(
                |e: T| e.spec_template(Some(DYN_GRID_MARKER@)),
            ),
            r.layout() == layout,
    {
        let mut grid = DynGrid::new(layout);
        let ghost all = elements@;
        let total = elements.len();
        let ghost n = all.len();
        let mut rest = elements;
        let mut k: usize = 0;
        assert(rest@ =~= all.subrange(0, n as int));
        while rest.len() > 0
            invariant
                n == all.len(),
                n == total,
                rest.len() + k == n,
                rest@ =~= all.subrange(k as int, n as int),
                grid.data() =~= all.subrange(0, k as int).map_values(|e: T| e.spec_json()),
                grid.fragments() =~= all.subrange(0, k as int).map_values(
                    |e: T| e.spec_template(Some(DYN_GRID_MARKER@)),
                ),
                grid.layout() == layout,
            decreases rest.len(),
        {
            let e = rest.remove(0);
            assert(e == all[k as int]);
            grid.push(e);
            assert(all.subrange(0, k + 1).drop_last() =~= all.subrange(0, k as int));
            k = k + 1;
        }
        assert(all.subrange(0, n as int) =~= all);
        grid
    }
}

/// The cells of a grid in push order, keys patched in and wrapped by the
/// layout.
fn grid_wrapped_cells(elements: &Vec<String>, layout: GridLayout, data_key: &Option<String>) -> (r:
    Vec<String>)
    ensures
        r@.map_values(|s: String| s@) == grid_cells(
            elements@.map_values(|s: String| s@),
            key_view(*data_key),
        ).map_values(|c: Seq<char>| wrap_cell(layout, c)),
{
    let ghost frags = elements@.map_values(|s: String| s@);
    let ghost want = grid_cells(frags, key_view(*data_key)).map_values(
        |c: Seq<char>| wrap_cell(layout, c),
    );
    let base = join_data_key(data_key, "grid_data");
    let mut out: Vec<String> = Vec::new();
    let mut i: usize = 0;
    while i < elements.len()
        invariant
            i <= elements.len(),
            frags == elements@.map_values(|s: String| s@),
            want == grid_cells(frags, key_view(*data_key)).map_values(
                |c: Seq<char>| wrap_cell(layout, c),
            ),
            base@ == join_key(key_view(*data_key), "grid_data"@),
            out.len() == i,
            forall|k: int| 0 <= k < i ==> out[k]@ == want[k],
        decreases elements.len() - i,
    {
        let key = index_data_key(base.as_str(), i);
        let cell = replace_all(elements[i].as_str(), DYN_GRID_MARKER, key.as_str());
        let wrapped = match layout {
            GridLayout::MaxCols(_) => div_wrap(layout.col_class(), cell.as_str()),
            GridLayout::MaxColsNonResponsive(_) => {
                let mut t = String::from_str("<td>");
                t.append(cell.as_str());
                t.append("</td>");
                t
            },
        };
        out.push(wrapped);
        i = i + 1;
    }
    assert(out@.map_values(|s: String| s@) =~= want);
    out
}

impl HtmlTemplate for DynGrid {
    open spec fn needs_key(&self) -> bool {
        false
    }

    fn requires_key(&self) -> (r: bool) {
        false
    }

    open spec fn spec_template(&self, data_key: Option<Seq<char>>) -> Seq<char> {
        grid_html(self.layout(), grid_cells(self.fragments(), data_key))
    }

    fn template(&self, data_key: Option<String>) -> (r: String) {
        let layout = self.layout;
        let n = match layout {
            GridLayout::MaxCols(n) => n as usize,
            GridLayout::MaxColsNonResponsive(n) => n as usize,
        };
        let cells = grid_wrapped_cells(&self.elements, layout, &data_key);
        let ghost cv = cells@.map_values(|s: String| s@);
        let len = cells.len();
        let nrows: usize = if n == 0 {
            0
        } else {
            let q = len / n;
            if len % n == 0 {
                q
            } else {
                proof {
                    vstd::arithmetic::div_mod::lemma_fundamental_div_mod(len as int, n as int);
                    assert(q < len) by (nonlinear_arith)
                        requires
                            len == n * q + len % n,
                            len % n > 0,
                            n >= 2,
                            q >= 0,
                    ;
                }
                q + 1
            }
        };
        let ghost want = grid_rows(cv, n as nat).map_values(
            |row: Seq<Seq<char>>| wrap_row(layout, joined(row, "\n"@)),
        );
        let mut rows: Vec<String> = Vec::new();
        let mut r: usize = 0;
        while r < nrows
            invariant
                n == layout.max_cols(),
                len == cells.len(),
                cv == cells@.map_values(|s: String| s@),
                nrows == row_count(len as nat, n as nat),
                want == grid_rows(cv, n as nat).map_values(
                    |row: Seq<Seq<char>>| wrap_row(layout, joined(row, "\n"@)),
                ),
                r <= nrows,
                rows.len() == r,
                forall|k: int| 0 <= k < r ==> rows[k]@ == want[k],
            decreases nrows - r,
        {
            proof {
                lemma_row_start(len as nat, n as nat, r as nat);
            }
            let start = r * n;
            let end = if len - start < n {
                len
            } else {
                start + n
            };
            let inner = join_range(&cells, start, end, "\n");
            proof {
                assert(cells@.subrange(start as int, end as int).map_values(|s: String| s@)
                    =~= cv.subrange(start as int, end as int));
            }
            let row = match layout {
                GridLayout::MaxCols(_) => div_wrap("row", inner.as_str()),
                GridLayout::MaxColsNonResponsive(_) => {
                    let mut t = String::from_str("<tr>");
                    t.append(inner.as_str());
                    t.append("</tr>");
                    t
                },
            };
            rows.push(row);
            r = r + 1;
        }
        assert(rows@.map_values(|s: String| s@) =~= want);
        let body = join_strings(&rows, "\n");
        match layout {
            GridLayout::MaxCols(_) => body,
            GridLayout::MaxColsNonResponsive(_) => {
                let mut t = String::from_str("<table><tbody>");
                t.append(body.as_str());
                t.append("</tbody></table>");
                t
            },
        }
    }
}


/// The JSON array of the values `v`, copied.
fn json_array_copy(v: &Vec<JsonValue>) -> (j: JsonValue)
    ensures
        j@ == Json::Array(v@.map_values(|x: JsonValue| x@)),
{
    let mut out: Vec<JsonValue> = Vec::new();
    let mut i: usize = 0;
    while i < v.len()
        invariant
            i <= v.len(),
            out.len() == i,
            forall|k: int| 0 <= k < i ==> out[k]@ == v[k]@,
        decreases v.len() - i,
    {
        out.push(v[i].clone_value());
        i = i + 1;
    }
    let j = JsonValue::Array(out);
    assert(j@->Array_0 =~= v@.map_values(|x: JsonValue| x@));
    j
}

impl ToJson for DynGrid {
    open spec fn spec_json(&self) -> Json {
        Json::Object(seq![("grid_data"@, Json::Array(self.data()))])
    }

    fn to_json(&self) -> (j: JsonValue) {
        let mut m = no_members();
        push_member(&mut m, "grid_data", json_array_copy(&self.grid_data));
        let j = object_json(m);
        assert(j@->Object_0 =~= self.spec_json()->Object_0);
        j
    }
}

/// A grid of items all of one type.
pub struct Grid<T> {
    dyn_grid: DynGrid,
    phantom: core::marker::PhantomData<T>,
}

impl<T: HtmlTemplate + ToJson> Grid<T> {
    /// The grid that holds the items.
    pub closed spec fn inner(&self) -> DynGrid {
        self.dyn_grid
    }

    pub fn new(layout: GridLayout) -> (r: Grid<T>)
        ensures
            r.inner().data() == Seq::<Json>::empty(),
            r.inner().fragments() == Seq::<Seq<char>>::empty(),
            r.inner().layout() == layout,
    {
        Grid { dyn_grid: DynGrid::new(layout), phantom: core::marker::PhantomData }
    }

    pub fn push(&mut self, element: T)
        ensures
            final(self).inner().data() == old(self).inner().data().push(element.spec_json()),
            final(self).inner().fragments() == old(self).inner().fragments().push(
                element.spec_template(Some(DYN_GRID_MARKER@)),
            ),
            final(self).inner().layout() == old(self).inner().layout(),
    {
        self.dyn_grid.push(element);
    }

    pub fn with_elements(elements: Vec<T>, layout: GridLayout) -> (r: Grid<T>)
        ensures
            r.inner().data() == elements@.map_values(|e: T| e.spec_json()),
            r.inner().fragments() == elements@.map_values(
                |e: T| e.spec_template(Some(DYN_GRID_MARKER@)),
            ),
            r.inner().layout() == layout,
    {
        Grid { dyn_grid: DynGrid::with_elements(elements, layout), phantom: core::marker::PhantomData }
    }
}

impl<T> HtmlTemplate for Grid<T> {
    open spec fn needs_key(&self) -> bool {
        false
    }

    fn requires_key(&self) -> (r: bool) {
        false
    }

    open spec fn spec_template(&self, data_key: Option<Seq<char>>) -> Seq<char> {
        self.dyn_grid_view().spec_template(data_key)
    }

    fn template(&self, data_key: Option<String>) -> (r: String) {
        self.dyn_grid.template(data_key)
    }
}

impl<T> Grid<T> {
    pub closed spec fn dyn_grid_view(&self) -> DynGrid {
        self.dyn_grid
    }
}

impl<T> ToJson for Grid<T> {
    open spec fn spec_json(&self) -> Json {
        self.dyn_grid_view().spec_json()
    }

    fn to_json(&self) -> (j: JsonValue) {
        self.dyn_grid.to_json()
    }
}

/// Width of a card.
#[derive(Debug, Clone, Copy, PartialEq, Eq, Structural)]
pub enum CardWidth {
    Full,
    Half,
}

impl CardWidth {
    pub open spec fn class_spec(self) -> Seq<char> {
        match self {
            CardWidth::Full => "summary_row"@,
            CardWidth::Half => "summary_card"@,
        }
    }

    /// The CSS class of a card of this width.
    pub fn class(&self) -> (r: &'static str)
        ensures
            r@ == self.class_spec(),
    {
        match self {
            CardWidth::Full => "summary_row",
            CardWidth::Half => "summary_card",
        }
    }
}

/// A card with a raised border around a node.
pub struct Card<T> {
    inner: T,
    width: CardWidth,
}

impl<T> Card<T> {
    pub closed spec fn inner(&self) -> T {
        self.inner
    }

    pub closed spec fn width(&self) -> CardWidth {
        self.width
    }

    pub fn half_width(inner: T) -> (r: Card<T>)
        ensures
            r.inner() == inner,
            r.width() == CardWidth::Half,
    {
        Card { inner, width: CardWidth::Half }
    }

    pub fn with_width(inner: T, width: CardWidth) -> (r: Card<T>)
        ensures
            r.inner() == inner,
            r.width() == width,
    {
        Card { inner, width }
    }

    pub fn full_width(inner: T) -> (r: Card<T>)
        ensures
            r.inner() == inner,
            r.width() == CardWidth::Full,
    {
        Card { inner, width: CardWidth::Full }
    }
}

impl<T: HtmlTemplate> HtmlTemplate for Card<T> {
    open spec fn needs_key(&self) -> bool {
        self.inner().needs_key()
    }

    fn requires_key(&self) -> (r: bool) {
        self.inner.requires_key()
    }

    open spec fn spec_template(&self, data_key: Option<Seq<char>>) -> Seq<char> {
        div_html(self.width().class_spec(), self.inner().spec_template(data_key))
    }

    fn template(&self, data_key: Option<String>) -> (r: String) {
        let inner = self.inner.template(data_key);
        div_wrap(self.width.class(), inner.as_str())
    }
}

impl<T: ToJson> ToJson for Card<T> {
    open spec fn spec_json(&self) -> Json {
        self.inner().spec_json()
    }

    fn to_json(&self) -> (j: JsonValue) {
        self.inner.to_json()
    }
}

impl<T: HtmlTemplate> HtmlTemplate for Option<T> {
    open spec fn needs_key(&self) -> bool {
        match self {
            Some(x) => x.needs_key(),
            None => false,
        }
    }

    fn requires_key(&self) -> (r: bool) {
        match self {
            Some(x) => x.requires_key(),
            None => false,
        }
    }

    open spec fn spec_template(&self, data_key: Option<Seq<char>>) -> Seq<char> {
        match self {
            Some(x) => x.spec_template(data_key),
            None => Seq::empty(),
        }
    }

    fn template(&self, data_key: Option<String>) -> (r: String) {
        match self {
            Some(x) => x.template(data_key),
            None => String::new(),
        }
    }
}

/// The key of element `i` of a list under `key`.
pub open spec fn list_item_key(key: Option<Seq<char>>, i: nat) -> Option<Seq<char>> {
    match key {
        Some(k) => Some(index_key(k, i)),
        None => None,
    }
}

impl<T: HtmlTemplate> HtmlTemplate for Vec<T> {
    open spec fn needs_key(&self) -> bool {
        exists|i: int| 0 <= i < self.len() && self[i].needs_key()
    }

    fn requires_key(&self) -> (r: bool) {
        let mut i: usize = 0;
        while i < self.len()
            invariant
                i <= self.len(),
                forall|k: int| 0 <= k < i ==> !self[k].needs_key(),
            decreases self.len() - i,
        {
            if self[i].requires_key() {
                return true;
            }
            i = i + 1;
        }
        false
    }

    open spec fn spec_template(&self, data_key: Option<Seq<char>>) -> Seq<char> {
        joined(
            Seq::new(
                self.len() as nat,
                |i: int|
                    div_html(
                        "row"@,
                        div_html("col"@, self[i].spec_template(list_item_key(data_key, i as nat))),
                    ),
            ),
            "\n"@,
        )
    }

    fn template(&self, data_key: Option<String>) -> (r: String) {
        let ghost want = Seq::new(
            self.len() as nat,
            |i: int|
                div_html(
                    "row"@,
                    div_html(
                        "col"@,
                        self[i].spec_template(list_item_key(key_view(data_key), i as nat)),
                    ),
                ),
        );
        let mut parts: Vec<String> = Vec::new();
        let mut i: usize = 0;
        while i < self.len()
            invariant
                i <= self.len(),
                self.needs_key() ==> data_key is Some,
                parts.len() == i,
                want == Seq::new(
                    self.len() as nat,
                    |i: int|
                        div_html(
                            "row"@,
                            div_html(
                                "col"@,
                                self[i].spec_template(list_item_key(key_view(data_key), i as nat)),
                            ),
                        ),
                ),
                forall|k: int| 0 <= k < i ==> parts[k]@ == want[k],
            decreases self.len() - i,
        {
            let child_key = match &data_key {
                Some(k) => Some(index_data_key(k.as_str(), i)),
                None => None,
            };
            let inner = self[i].template(child_key);
            let col = div_wrap("col", inner.as_str());
            parts.push(div_wrap("row", col.as_str()));
            i = i + 1;
        }
        assert(parts@.map_values(|s: String| s@) =~= want);
        join_strings(&parts, "\n")
    }
}

impl<T: ToJson> ToJson for Vec<T> {
    open spec fn spec_json(&self) -> Json {
        Json::Array(self@.map_values(|e: T| e.spec_json()))
    }

    fn to_json(&self) -> (j: JsonValue) {
        let mut out: Vec<JsonValue> = Vec::new();
        let mut i: usize = 0;
        while i < self.len()
            invariant
                i <= self.len(),
                out.len() == i,
                forall|k: int| 0 <= k < i ==> out[k]@ == self[k].spec_json(),
            decreases self.len() - i,
        {
            out.push(self[i].to_json());
            i = i + 1;
        }
        let j = JsonValue::Array(out);
        assert(j@->Array_0 =~= self@.map_values(|e: T| e.spec_json()));
        j
    }
}

/// Stands in for the data key of a tab until the tabs are rendered.
pub const TAB_MARKER: &'static str = "__AUbkUE__TAB__WhcSw=__";

/// The data key of tab `i` under `key`.
pub open spec fn tab_key(key: Option<Seq<char>>, i: nat) -> Seq<char> {
    index_key(join_key(key, "tab_data"@), i)
}

/// The wrapper of tab `i` with title `title` around `inner`.
pub open spec fn tab_html(i: nat, title: Seq<char>, inner: Seq<char>) -> Seq<char> {
    "<div class=\"tab-wrapper\" data-event-key=\"tab_"@ + decimal(i) + "\" data-title=\""@ + title
        + "\">\n"@ + inner + "\n</div>"@
}

/// The markup of tabs holding `fragments` under `titles`, keys patched in;
/// the first tab is the active one.
pub open spec fn tabs_html(
    fragments: Seq<Seq<char>>,
    titles: Seq<Seq<char>>,
    key: Option<Seq<char>>,
) -> Seq<char> {
    let n = if fragments.len() < titles.len() {
        fragments.len()
    } else {
        titles.len()
    };
    "<div class=\"tabs-wrapper\" data-default-active-key=\"tab_0\" data-id=\"main-tabs\">\n"@
        + joined(
        Seq::new(
            n,
            |i: int| tab_html(i as nat, titles[i], replaced(fragments[i], TAB_MARKER@, tab_key(key, i as nat))),
        ),
        "\n"@,
    ) + "\n</div>"@
}

/// Tabs, each holding a title and a node, shown one at a time.
pub struct Tabs {
    tab_data: Vec<JsonValue>,
    elements: Vec<String>,
    titles: Vec<String>,
}

impl Tabs {
    /// The JSON values of the tabs, in push order.
    pub closed spec fn data(&self) -> Seq<Json> {
        self.tab_data@.map_values(|v: JsonValue| v@)
    }

    /// The tabs' nodes rendered under the marker key, in push order.
    pub closed spec fn fragments(&self) -> Seq<Seq<char>> {
        self.elements@.map_values(|s: String| s@)
    }

    /// The tabs' titles, in push order.
    pub closed spec fn titles(&self) -> Seq<Seq<char>> {
        self.titles@.map_values(|s: String| s@)
    }

    pub fn new() -> (r: Tabs)
        ensures
            r.data() == Seq::<Json>::empty(),
            r.fragments() == Seq::<Seq<char>>::empty(),
            r.titles() == Seq::<Seq<char>>::empty(),
    {
        let r = Tabs { tab_data: Vec::new(), elements: Vec::new(), titles: Vec::new() };
        assert(r.data() =~= Seq::<Json>::empty());
        assert(r.fragments() =~= Seq::<Seq<char>>::empty());
        assert(r.titles() =~= Seq::<Seq<char>>::empty());
        r
    }

    /// Appends a tab titled `tab_title` holding `element`.
    pub fn push<T: HtmlTemplate + ToJson>(&mut self, tab_title: &str, element: T)
        ensures
            final(self).data() == old(self).data().push(element.spec_json()),
            final(self).fragments() == old(self).fragments().push(
                element.spec_template(Some(TAB_MARKER@)),
            ),
            final(self).titles() == old(self).titles().push(tab_title@),
    {
        let j = element.to_json();
        let ghost jv = j@;
        self.tab_data.push(j);
        let html = element.template(Some(String::from_str(TAB_MARKER)));
        self.elements.push(html);
        self.titles.push(String::from_str(tab_title));
        assert(self.data() =~= old(self).data().push(jv));
        assert(self.fragments() =~= old(self).fragments().push(
            element.spec_template(Some(TAB_MARKER@)),
        ));
        assert(self.titles() =~= old(self).titles().push(tab_title@));
    }

    /// These tabs with one more, titled `tab_title`, holding `element`.
    pub fn tab<T: HtmlTemplate + ToJson>(self, tab_title: &str, element: T) -> (r: Tabs)
        ensures
            r.data() == self.data().push(element.spec_json()),
            r.fragments() == self.fragments().push(element.spec_template(Some(TAB_MARKER@))),
            r.titles() == self.titles().push(tab_title@),
    {
        let mut r = self;
        r.push(tab_title, element);
        r
    }
}

impl HtmlTemplate for Tabs {
    open spec fn needs_key(&self) -> bool {
        false
    }

    fn requires_key(&self) -> (r: bool) {
        false
    }

    open spec fn spec_template(&self, data_key: Option<Seq<char>>) -> Seq<char> {
        tabs_html(self.fragments(), self.titles(), data_key)
    }

    fn template(&self, data_key: Option<String>) -> (r: String) {
        let ghost frags = self.fragments();
        let ghost titles = self.titles();
        let n = if self.elements.len() < self.titles.len() {
            self.elements.len()
        } else {
            self.titles.len()
        };
        let ghost want = Seq::new(
            n as nat,
            |i: int|
                tab_html(
                    i as nat,
                    titles[i],
                    replaced(frags[i], TAB_MARKER@, tab_key(key_view(data_key), i as nat)),
                ),
        );
        let base = join_data_key(&data_key, "tab_data");
        let mut parts: Vec<String> = Vec::new();
        let mut i: usize = 0;
        while i < n
            invariant
                n <= self.elements.len(),
                n <= self.titles.len(),
                frags == self.fragments(),
                titles == self.titles(),
                base@ == join_key(key_view(data_key), "tab_data"@),
                want == Seq::new(
                    n as nat,
                    |i: int|
                        tab_html(
                            i as nat,
                            titles[i],
                            replaced(frags[i], TAB_MARKER@, tab_key(key_view(data_key), i as nat)),
                        ),
                ),
                i <= n,
                parts.len() == i,
                forall|k: int| 0 <= k < i ==> parts[k]@ == want[k],
            decreases n - i,
        {
            let key = index_data_key(base.as_str(), i);
            let inner = replace_all(self.elements[i].as_str(), TAB_MARKER, key.as_str());
            let mut t = String::from_str("<div class=\"tab-wrapper\" data-event-key=\"tab_");
            let d = decimal_string(i);
            t.append(d.as_str());
            t.append("\" data-title=\"");
            t.append(self.titles[i].as_str());
            t.append("\">\n");
            t.append(inner.as_str());
            t.append("\n</div>");
            parts.push(t);
            i = i + 1;
        }
        assert(parts@.map_values(|s: String| s@) =~= want);
        let inner = join_strings(&parts, "\n");
        let mut r = String::from_str(
            "<div class=\"tabs-wrapper\" data-default-active-key=\"tab_0\" data-id=\"main-tabs\">\n",
        );
        r.append(inner.as_str());
        r.append("\n</div>");
        r
    }
}

impl ToJson for Tabs {
    open spec fn spec_json(&self) -> Json {
        Json::Object(seq![("tab_data"@, Json::Array(self.data()))])
    }

    fn to_json(&self) -> (j: JsonValue) {
        let mut m = no_members();
        push_member(&mut m, "tab_data", json_array_copy(&self.tab_data));
        let j = object_json(m);
        assert(j@->Object_0 =~= self.spec_json()->Object_0);
        j
    }
}

} // verus!
