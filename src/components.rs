//! The catalog of report components. A component that client code hydrates
//! renders as an empty keyed div naming it; its data lives in the JSON
//! document under the key.
use vstd::prelude::*;
use crate::composite::{add_field, col_block, rows_html, RowLayout};
use crate::data_key::{index_data_key, index_key, join_data_key, join_key, key_view};
use crate::html::{leaf_spec, leaf_template};
use crate::json::{
    as_str, as_str_array, get_member, get_str_member, get_string, get_string_array, json_str, member,
    no_members, null_json, object_json, opt_str_json, opt_string_to_json, push_member, str_array_json,
    str_member, string_json, strings_to_json, Json, JsonValue, ToJson,
};
use crate::text::{decimal, decimal_string, join_strings, joined};
use crate::{inserted, AddToSharedResource, HtmlTemplate, SharedResources};

pub use crate::layout::{Card, CardWidth, DynGrid, Grid, GridLayout, Tabs};

verus! {

/// The name under which client code knows a component.
pub trait ReactComponent {
    spec fn spec_component_name() -> Seq<char>;

    fn component_name() -> (r: &'static str)
        ensures
            r@ == Self::spec_component_name(),
    ;
}

impl<T: ReactComponent> HtmlTemplate for T {
    open spec fn needs_key(&self) -> bool {
        true
    }

    fn requires_key(&self) -> (r: bool) {
        true
    }

    open spec fn spec_template(&self, data_key: Option<Seq<char>>) -> Seq<char> {
        leaf_spec(data_key, T::spec_component_name())
    }

    fn template(&self, data_key: Option<String>) -> (r: String) {
        leaf_template(data_key, T::component_name())
    }
}

/// Threshold for the hero metric which determines the color.
#[derive(Debug, Clone, Copy, PartialEq, Eq, Structural)]
pub enum Threshold {
    /// Shown in green
    Pass,
    /// Shown in orange
    Warn,
    /// Shown in red
    Error,
}

pub open spec fn threshold_json(t: Threshold) -> Json {
    match t {
        Threshold::Pass => Json::Str("pass"@),
        Threshold::Warn => Json::Str("warn"@),
        Threshold::Error => Json::Str("error"@),
    }
}

impl ToJson for Threshold {
    open spec fn spec_json(&self) -> Json {
        threshold_json(*self)
    }

    fn to_json(&self) -> (j: JsonValue) {
        match self {
            Threshold::Pass => json_str("pass"),
            Threshold::Warn => json_str("warn"),
            Threshold::Error => json_str("error"),
        }
    }
}

/// The navigation bar and header of the page.
#[derive(Debug, Clone)]
pub struct WsNavBar {
    /// Header after the logo at the top
    pub pipeline: String,
    /// Page title is {id} - {description}
    pub id: String,
    /// Page title is {id} - {description}
    pub description: String,
}

impl ToJson for WsNavBar {
    open spec fn spec_json(&self) -> Json {
        Json::Object(
            seq![
                ("pipeline"@, Json::Str(self.pipeline@)),
                ("id"@, Json::Str(self.id@)),
                ("description"@, Json::Str(self.description@)),
            ],
        )
    }

    fn to_json(&self) -> (j: JsonValue) {
        let mut m = no_members();
        push_member(&mut m, "pipeline", string_json(&self.pipeline));
        push_member(&mut m, "id", string_json(&self.id));
        push_member(&mut m, "description", string_json(&self.description));
        let j = object_json(m);
        assert(j@->Object_0 =~= self.spec_json()->Object_0);
        j
    }
}

/// A statistic to highlight, optionally colored by a threshold.
#[derive(Debug, Clone, PartialEq, Eq)]
pub struct HeroMetric {
    /// Name of the metric
    pub name: String,
    /// Formatted value of the metric
    pub metric: String,
    /// Optionally controls the display color
    pub threshold: Option<Threshold>,
}

impl HeroMetric {
    pub fn new(name: &str, value: &str) -> (r: HeroMetric)
        ensures
            r.name@ == name@,
            r.metric@ == value@,
            r.threshold is None,
    {
        HeroMetric { name: String::from_str(name), metric: String::from_str(value), threshold: None }
    }

    pub fn with_threshold(name: &str, value: &str, threshold: Threshold) -> (r: HeroMetric)
        ensures
            r.name@ == name@,
            r.metric@ == value@,
            r.threshold == Some(threshold),
    {
        HeroMetric {
            name: String::from_str(name),
            metric: String::from_str(value),
            threshold: Some(threshold),
        }
    }
}

impl ReactComponent for HeroMetric {
    open spec fn spec_component_name() -> Seq<char> {
        "Metric"@
    }

    fn component_name() -> (r: &'static str) {
        "Metric"
    }
}

impl ToJson for HeroMetric {
    open spec fn spec_json(&self) -> Json {
        Json::Object(
            seq![
                ("name"@, Json::Str(self.name@)),
                ("metric"@, Json::Str(self.metric@)),
                ("threshold"@, match self.threshold {
                    Some(t) => threshold_json(t),
                    None => Json::Null,
                }),
            ],
        )
    }

    fn to_json(&self) -> (j: JsonValue) {
        let t = match &self.threshold {
            Some(t) => t.to_json(),
            None => null_json(),
        };
        let mut m = no_members();
        push_member(&mut m, "name", string_json(&self.name));
        push_member(&mut m, "metric", string_json(&self.metric));
        push_member(&mut m, "threshold", t);
        let j = object_json(m);
        assert(j@->Object_0 =~= self.spec_json()->Object_0);
        j
    }
}

} // verus!

verus! {

/// A heading with a help snippet, usually on a card.
#[derive(Debug, Clone, PartialEq, Eq)]
pub struct TitleWithHelp {
    pub help: String,
    pub title: String,
}

impl ReactComponent for TitleWithHelp {
    open spec fn spec_component_name() -> Seq<char> {
        "HeaderWithHelp"@
    }

    fn component_name() -> (r: &'static str) {
        "HeaderWithHelp"
    }
}

impl ToJson for TitleWithHelp {
    open spec fn spec_json(&self) -> Json {
        Json::Object(seq![("helpText"@, Json::Str(self.help@)), ("title"@, Json::Str(self.title@))])
    }

    fn to_json(&self) -> (j: JsonValue) {
        let mut m = no_members();
        push_member(&mut m, "helpText", string_json(&self.help));
        push_member(&mut m, "title", string_json(&self.title));
        let j = object_json(m);
        assert(j@->Object_0 =~= self.spec_json()->Object_0);
        j
    }
}

/// The help text and title that a JSON object holds, if it holds both.
pub open spec fn title_with_help_of(j: Json) -> Option<(Seq<char>, Seq<char>)> {
    match (str_member(j, "helpText"@), str_member(j, "title"@)) {
        (Some(h), Some(t)) => Some((h, t)),
        _ => None,
    }
}

impl TitleWithHelp {
    /// Reads a title with help from its JSON form.
    pub fn from_json(j: &JsonValue) -> (r: Option<TitleWithHelp>)
        ensures
            match r {
                Some(t) => title_with_help_of(j@) == Some((t.help@, t.title@)),
                None => title_with_help_of(j@) is None,
            },
    {
        let help = get_str_member(j, "helpText");
        let title = get_str_member(j, "title");
        match (help, title) {
            (Some(help), Some(title)) => Some(TitleWithHelp { help, title }),
            _ => None,
        }
    }
}

/// A term, shown in bold, with its descriptions.
#[derive(Debug, Clone, PartialEq, Eq)]
pub struct TermDesc(pub String, pub Vec<String>);

impl TermDesc {
    pub fn with_one_desc(term: &str, desc: &str) -> (r: TermDesc)
        ensures
            r.0@ == term@,
            r.1@.len() == 1,
            r.1@[0]@ == desc@,
    {
        TermDesc(String::from_str(term), vec![String::from_str(desc)])
    }

    /// The term and its descriptions.
    pub open spec fn view(&self) -> (Seq<char>, Seq<Seq<char>>) {
        (self.0@, self.1@.map_values(|s: String| s@))
    }

    /// Reads a term and its descriptions from their JSON form, a pair.
    pub fn from_json(j: &JsonValue) -> (r: Option<TermDesc>)
        ensures
            match r {
                Some(t) => term_desc_of(j@) == Some(t@),
                None => term_desc_of(j@) is None,
            },
    {
        match j {
            JsonValue::Array(items) => {
                if items.len() != 2 {
                    return None;
                }
                assert(j@->Array_0[0] == items[0]@);
                assert(j@->Array_0[1] == items[1]@);
                let term = get_string(&items[0]);
                let descs = get_string_array(&items[1]);
                match (term, descs) {
                    (Some(term), Some(descs)) => Some(TermDesc(term, descs)),
                    _ => None,
                }
            },
            _ => None,
        }
    }
}

/// The term and descriptions that a JSON pair holds.
pub open spec fn term_desc_of(j: Json) -> Option<(Seq<char>, Seq<Seq<char>>)> {
    match j {
        Json::Array(items) => if items.len() == 2 {
            match (as_str(items[0]), as_str_array(items[1])) {
                (Some(t), Some(d)) => Some((t, d)),
                _ => None,
            }
        } else {
            None
        },
        _ => None,
    }
}

/// The JSON pair of a term and its descriptions.
pub open spec fn term_desc_json(t: (Seq<char>, Seq<Seq<char>>)) -> Json {
    Json::Array(seq![Json::Str(t.0), str_array_json(t.1)])
}

impl ToJson for TermDesc {
    open spec fn spec_json(&self) -> Json {
        term_desc_json(self@)
    }

    fn to_json(&self) -> (j: JsonValue) {
        let a = string_json(&self.0);
        let b = strings_to_json(&self.1);
        let ghost (av, bv) = (a@, b@);
        let j = JsonValue::Array(vec![a, b]);
        assert(j@->Array_0 =~= seq![av, bv]);
        j
    }
}

/// A title whose help is a list of terms with descriptions.
#[derive(Debug, Clone, PartialEq, Eq)]
pub struct TitleWithTermDesc {
    pub title: String,
    pub data: Vec<TermDesc>,
}

impl ReactComponent for TitleWithTermDesc {
    open spec fn spec_component_name() -> Seq<char> {
        "DynamicHelptext"@
    }

    fn component_name() -> (r: &'static str) {
        "DynamicHelptext"
    }
}

/// The JSON array of the terms `d`.
pub open spec fn term_descs_json(d: Seq<(Seq<char>, Seq<Seq<char>>)>) -> Json {
    Json::Array(d.map_values(|t: (Seq<char>, Seq<Seq<char>>)| term_desc_json(t)))
}

fn term_descs_to_json(d: &Vec<TermDesc>) -> (j: JsonValue)
    ensures
        j@ == term_descs_json(d@.map_values(|t: TermDesc| t@)),
{
    let mut out: Vec<JsonValue> = Vec::new();
    let mut i: usize = 0;
    while i < d.len()
        invariant
            i <= d.len(),
            out.len() == i,
            forall|k: int| 0 <= k < i ==> out[k]@ == term_desc_json(d[k]@),
        decreases d.len() - i,
    {
        out.push(d[i].to_json());
        i = i + 1;
    }
    let j = JsonValue::Array(out);
    assert(j@->Array_0 =~= term_descs_json(d@.map_values(|t: TermDesc| t@))->Array_0);
    j
}

/// The terms held by a JSON array of term pairs.
pub open spec fn term_descs_of(j: Json) -> Option<Seq<(Seq<char>, Seq<Seq<char>>)>> {
    match j {
        Json::Array(items) => if forall|i: int| 0 <= i < items.len() ==> term_desc_of(items[i]) is Some {
            Some(items.map_values(|x: Json| term_desc_of(x)->0))
        } else {
            None
        },
        _ => None,
    }
}

fn term_descs_from_json(j: &JsonValue) -> (r: Option<Vec<TermDesc>>)
    ensures
        match r {
            Some(v) => term_descs_of(j@) == Some(v@.map_values(|t: TermDesc| t@)),
            None => term_descs_of(j@) is None,
        },
{
    match j {
        JsonValue::Array(items) => {
            let ghost iv = j@->Array_0;
            let mut out: Vec<TermDesc> = Vec::new();
            let mut i: usize = 0;
            while i < items.len()
                invariant
                    iv == j@->Array_0,
                    *j == JsonValue::Array(*items),
                    i <= items.len(),
                    out.len() == i,
                    forall|k: int| 0 <= k < i ==> term_desc_of(iv[k]) == Some(out[k]@),
                decreases items.len() - i,
            {
                assert(iv[i as int] == items[i as int]@);
                match TermDesc::from_json(&items[i]) {
                    Some(t) => out.push(t),
                    None => return None,
                }
                i = i + 1;
            }
            assert(out@.map_values(|t: TermDesc| t@) =~= iv.map_values(|x: Json| term_desc_of(x)->0));
            Some(out)
        },
        _ => None,
    }
}

impl ToJson for TitleWithTermDesc {
    open spec fn spec_json(&self) -> Json {
        Json::Object(
            seq![
                ("title"@, Json::Str(self.title@)),
                ("data"@, term_descs_json(self.data@.map_values(|t: TermDesc| t@))),
            ],
        )
    }

    fn to_json(&self) -> (j: JsonValue) {
        let mut m = no_members();
        push_member(&mut m, "title", string_json(&self.title));
        push_member(&mut m, "data", term_descs_to_json(&self.data));
        let j = object_json(m);
        assert(j@->Object_0 =~= self.spec_json()->Object_0);
        j
    }
}

impl TitleWithTermDesc {
    /// Reads a title with terms from its JSON form.
    pub fn from_json(j: &JsonValue) -> (r: Option<TitleWithTermDesc>)
        ensures
            match r {
                Some(t) => str_member(j@, "title"@) == Some(t.title@) && member(j@, "data"@) is Some
                    && term_descs_of(member(j@, "data"@)->0) == Some(
                    t.data@.map_values(|d: TermDesc| d@),
                ),
                None => str_member(j@, "title"@) is None || member(j@, "data"@) is None
                    || term_descs_of(member(j@, "data"@)->0) is None,
            },
    {
        let title = get_str_member(j, "title");
        let data = match get_member(j, "data") {
            Some(d) => term_descs_from_json(d),
            None => None,
        };
        match (title, data) {
            (Some(title), Some(data)) => Some(TitleWithTermDesc { title, data }),
            _ => None,
        }
    }
}

/// A row of a table.
#[derive(Debug, Clone, PartialEq, Eq)]
pub struct TableRow(pub Vec<String>);

impl TableRow {
    pub fn two_col(c1: &str, c2: &str) -> (r: TableRow)
        ensures
            r@ == seq![c1@, c2@],
    {
        let r = TableRow(vec![String::from_str(c1), String::from_str(c2)]);
        assert(r@ =~= seq![c1@, c2@]);
        r
    }

    /// The cells of the row.
    pub open spec fn view(&self) -> Seq<Seq<char>> {
        self.0@.map_values(|s: String| s@)
    }
}

impl ToJson for TableRow {
    open spec fn spec_json(&self) -> Json {
        str_array_json(self@)
    }

    fn to_json(&self) -> (j: JsonValue) {
        strings_to_json(&self.0)
    }
}

/// A table with an optional header.
#[derive(Debug, Clone, PartialEq, Eq)]
pub struct GenericTable {
    pub header: Option<Vec<String>>,
    pub rows: Vec<TableRow>,
}

impl ReactComponent for GenericTable {
    open spec fn spec_component_name() -> Seq<char> {
        "Table"@
    }

    fn component_name() -> (r: &'static str) {
        "Table"
    }
}

/// The model of an optional list of strings.
pub open spec fn opt_strings_view(h: Option<Vec<String>>) -> Option<Seq<Seq<char>>> {
    match h {
        Some(v) => Some(v@.map_values(|s: String| s@)),
        None => None,
    }
}

/// The JSON array of the rows `rows`.
pub open spec fn rows_json(rows: Seq<Seq<Seq<char>>>) -> Json {
    Json::Array(rows.map_values(|r: Seq<Seq<char>>| str_array_json(r)))
}

impl GenericTable {
    /// The header and the cells of each row.
    pub open spec fn view(&self) -> (Option<Seq<Seq<char>>>, Seq<Seq<Seq<char>>>) {
        (opt_strings_view(self.header), self.rows@.map_values(|r: TableRow| r@))
    }

    /// A table with the rows `rows_vec` and the header `header`.
    pub fn from_rows(rows_vec: Vec<Vec<String>>, header: Option<Vec<String>>) -> (r: GenericTable)
        ensures
            r.header == header,
            r.rows@.map_values(|t: TableRow| t.0) == rows_vec@,
    {
        let ghost all = rows_vec@;
        let mut rest = rows_vec;
        let mut rows: Vec<TableRow> = Vec::new();
        let mut k: usize = 0;
        let total = rest.len();
        while rest.len() > 0
            invariant
                total == all.len(),
                rest.len() + k == total,
                rest@ == all.subrange(k as int, total as int),
                rows.len() == k,
                rows@.map_values(|t: TableRow| t.0) == all.subrange(0, k as int),
            decreases rest.len(),
        {
            let first = rest.remove(0);
            assert(first == all[k as int]);
            let ghost before = rows@;
            rows.push(TableRow(first));
            let ghost mapped = rows@.map_values(|t: TableRow| t.0);
            let ghost target = all.subrange(0, k + 1);
            assert forall|q: int| 0 <= q < k + 1 implies #[trigger] mapped[q] == target[q] by {
                if q < k {
                    assert(rows@[q] == before[q]);
                    assert(before.map_values(|t: TableRow| t.0)[q] == all.subrange(0, k as int)[q]);
                }
            }
            assert(mapped =~= target);
            assert(rest@ =~= all.subrange(k + 1, total as int));
            k = k + 1;
        }
        assert(all.subrange(0, total as int) =~= all);
        GenericTable { header, rows }
    }

    /// A table whose column `c` holds `columns[c]`; rows that a shorter
    /// column does not reach get an empty cell there.
    pub fn from_columns(columns: Vec<Vec<String>>, header: Option<Vec<String>>) -> (r: GenericTable)
        requires
            columns.len() > 0,
        ensures
            r.header == header,
            r@.1 == transposed(columns@.map_values(|c: Vec<String>| c@.map_values(|s: String| s@))),
    {
        let ghost cols = columns@.map_values(|c: Vec<String>| c@.map_values(|s: String| s@));
        let num_cols = columns.len();
        let mut num_rows: usize = 0;
        let mut c: usize = 0;
        while c < num_cols
            invariant
                num_cols == columns.len(),
                cols == columns@.map_values(|c: Vec<String>| c@.map_values(|s: String| s@)),
                c <= num_cols,
                num_rows == max_len(cols.subrange(0, c as int)),
            decreases num_cols - c,
        {
            assert(cols.subrange(0, c + 1).drop_last() =~= cols.subrange(0, c as int));
            if columns[c].len() > num_rows {
                num_rows = columns[c].len();
            }
            c = c + 1;
        }
        assert(cols.subrange(0, num_cols as int) =~= cols);
        let ghost want = transposed(cols);
        let mut rows: Vec<TableRow> = Vec::new();
        let mut r: usize = 0;
        while r < num_rows
            invariant
                num_cols == columns.len(),
                cols == columns@.map_values(|c: Vec<String>| c@.map_values(|s: String| s@)),
                num_rows == max_len(cols),
                want == transposed(cols),
                r <= num_rows,
                rows.len() == r,
                forall|k: int| 0 <= k < r ==> rows[k]@ == want[k],
            decreases num_rows - r,
        {
            let mut row: Vec<String> = Vec::new();
            let mut c: usize = 0;
            while c < num_cols
                invariant
                    num_cols == columns.len(),
                    cols == columns@.map_values(|c: Vec<String>| c@.map_values(|s: String| s@)),
                    c <= num_cols,
                    r < num_rows,
                    row.len() == c,
                    forall|k: int| 0 <= k < c ==> row[k]@ == cell_at(cols, r as int, k),
                decreases num_cols - c,
            {
                if r < columns[c].len() {
                    row.push(columns[c][r].clone());
                } else {
                    row.push(String::new());
                }
                c = c + 1;
            }
            let t = TableRow(row);
            assert(t@ =~= want[r as int]);
            rows.push(t);
            r = r + 1;
        }
        let out = GenericTable { header, rows };
        assert(out@.1 =~= want);
        out
    }
}

/// The length of the longest of `cols`; zero where there are none.
pub open spec fn max_len<A>(cols: Seq<Seq<A>>) -> nat
    decreases cols.len(),
{
    if cols.len() == 0 {
        0
    } else {
        let m = max_len(cols.drop_last());
        if cols.last().len() > m {
            cols.last().len()
        } else {
            m
        }
    }
}

/// Cell `c` of row `r` of the table whose columns are `cols`.
pub open spec fn cell_at(cols: Seq<Seq<Seq<char>>>, r: int, c: int) -> Seq<char> {
    if r < cols[c].len() {
        cols[c][r]
    } else {
        Seq::empty()
    }
}

/// The rows of the table whose columns are `cols`.
pub open spec fn transposed(cols: Seq<Seq<Seq<char>>>) -> Seq<Seq<Seq<char>>> {
    Seq::new(max_len(cols), |r: int| Seq::new(cols.len(), |c: int| cell_at(cols, r, c)))
}

impl ToJson for GenericTable {
    open spec fn spec_json(&self) -> Json {
        match self@.0 {
            Some(h) => Json::Object(seq![("header"@, str_array_json(h)), ("rows"@, rows_json(self@.1))]),
            None => Json::Object(seq![("rows"@, rows_json(self@.1))]),
        }
    }

    fn to_json(&self) -> (j: JsonValue) {
        let mut out: Vec<JsonValue> = Vec::new();
        let mut i: usize = 0;
        while i < self.rows.len()
            invariant
                i <= self.rows.len(),
                out.len() == i,
                forall|k: int| 0 <= k < i ==> out[k]@ == str_array_json(self.rows[k]@),
            decreases self.rows.len() - i,
        {
            out.push(self.rows[i].to_json());
            i = i + 1;
        }
        let rows = JsonValue::Array(out);
        assert(rows@->Array_0 =~= rows_json(self@.1)->Array_0);
        let mut m = no_members();
        match &self.header {
            Some(h) => push_member(&mut m, "header", strings_to_json(h)),
            None => {},
        }
        push_member(&mut m, "rows", rows);
        let j = object_json(m);
        assert(j@->Object_0 =~= self.spec_json()->Object_0);
        j
    }
}

/// The rows held by a JSON array of string arrays.
pub open spec fn rows_of(j: Json) -> Option<Seq<Seq<Seq<char>>>> {
    match j {
        Json::Array(items) => if forall|i: int| 0 <= i < items.len() ==> as_str_array(items[i]) is Some {
            Some(items.map_values(|x: Json| as_str_array(x)->0))
        } else {
            None
        },
        _ => None,
    }
}

/// The header a table's JSON object holds: none where the member is missing
/// or null, else its strings.
pub open spec fn header_of(j: Json) -> Option<Option<Seq<Seq<char>>>> {
    match member(j, "header"@) {
        None => Some(None),
        Some(Json::Null) => Some(None),
        Some(h) => match as_str_array(h) {
            Some(v) => Some(Some(v)),
            None => None,
        },
    }
}

impl GenericTable {
    /// Reads a table from its JSON form.
    pub fn from_json(j: &JsonValue) -> (r: Option<GenericTable>)
        ensures
            match r {
                Some(t) => header_of(j@) == Some(t@.0) && member(j@, "rows"@) is Some && rows_of(
                    member(j@, "rows"@)->0,
                ) == Some(t@.1),
                None => header_of(j@) is None || member(j@, "rows"@) is None || rows_of(
                    member(j@, "rows"@)->0,
                ) is None,
            },
    {
        let header: Option<Vec<String>> = match get_member(j, "header") {
            None => None,
            Some(JsonValue::Null) => None,
            Some(h) => match get_string_array(h) {
                Some(v) => Some(v),
                None => return None,
            },
        };
        let rows_json = match get_member(j, "rows") {
            Some(r) => r,
            None => return None,
        };
        match rows_json {
            JsonValue::Array(items) => {
                let ghost iv = rows_json@->Array_0;
                let mut rows: Vec<TableRow> = Vec::new();
                let mut i: usize = 0;
                while i < items.len()
                    invariant
                        iv == rows_json@->Array_0,
                        member(j@, "rows"@) == Some(rows_json@),
                        *rows_json == JsonValue::Array(*items),
                        i <= items.len(),
                        rows.len() == i,
                        forall|k: int| 0 <= k < i ==> as_str_array(iv[k]) == Some(rows[k]@),
                    decreases items.len() - i,
                {
                    assert(iv[i as int] == items[i as int]@);
                    match get_string_array(&items[i]) {
                        Some(v) => rows.push(TableRow(v)),
                        None => {
                            assert(as_str_array(iv[i as int]) is None);
                            assert(rows_json@ == Json::Array(iv));
                            return None;
                        },
                    }
                    i = i + 1;
                }
                assert(rows@.map_values(|t: TableRow| t@) =~= iv.map_values(|x: Json| as_str_array(x)->0));
                Some(GenericTable { header, rows })
            },
            _ => None,
        }
    }
}

} // verus!

verus! {

/// A two-column table without header: metric names and their values.
#[derive(Debug, Clone, PartialEq, Eq)]
pub struct TableMetric {
    /// Metric name and value of each row
    pub rows: Vec<(String, String)>,
}

impl ReactComponent for TableMetric {
    open spec fn spec_component_name() -> Seq<char> {
        "TableMetric"@
    }

    fn component_name() -> (r: &'static str) {
        "TableMetric"
    }
}

impl ToJson for TableMetric {
    open spec fn spec_json(&self) -> Json {
        Json::Object(seq![("rows"@, metric_rows_json(self.rows@))])
    }

    fn to_json(&self) -> (j: JsonValue) {
        let mut out: Vec<JsonValue> = Vec::new();
        let mut i: usize = 0;
        while i < self.rows.len()
            invariant
                i <= self.rows.len(),
                out.len() == i,
                forall|k: int|
                    0 <= k < i ==> out[k]@ == Json::Array(
                        seq![Json::Str(self.rows[k].0@), Json::Str(self.rows[k].1@)],
                    ),
            decreases self.rows.len() - i,
        {
            let a = string_json(&self.rows[i].0);
            let b = string_json(&self.rows[i].1);
            let ghost (av, bv) = (a@, b@);
            let pair = JsonValue::Array(vec![a, b]);
            assert(pair@->Array_0 =~= seq![av, bv]);
            out.push(pair);
            i = i + 1;
        }
        let rows = JsonValue::Array(out);
        assert(rows@->Array_0 =~= metric_rows_json(self.rows@)->Array_0);
        let mut m = no_members();
        push_member(&mut m, "rows", rows);
        let j = object_json(m);
        assert(j@->Object_0 =~= self.spec_json()->Object_0);
        j
    }
}

/// The JSON array of name and value pairs.
pub open spec fn metric_rows_json(rows: Seq<(String, String)>) -> Json {
    Json::Array(rows.map_values(|r: (String, String)| Json::Array(seq![Json::Str(r.0@), Json::Str(r.1@)])))
}

/// The variant of a tooltip.
#[derive(Debug, Clone, Copy, PartialEq, Eq, Structural)]
pub enum TooltipVariant {
    Dark,
    Light,
    Success,
    Warning,
    Error,
    Info,
}

/// Where a tooltip is anchored.
#[derive(Debug, Clone, Copy, PartialEq, Eq, Structural)]
pub enum TooltipPlace {
    Top,
    TopStart,
    TopEnd,
    Right,
    RightStart,
    RightEnd,
    Bottom,
    BottomStart,
    BottomEnd,
    Left,
    LeftStart,
    LeftEnd,
}

/// A tooltip that appears on hover of its content.
#[derive(Debug, Clone, PartialEq, Eq)]
pub struct Tooltip {
    pub id: String,
    pub tooltip: String,
    pub content: String,
    pub variant: Option<TooltipVariant>,
    pub place: Option<TooltipPlace>,
}

impl Tooltip {
    /// A tooltip with the given id; tooltips never shown together may share one.
    pub fn new_with_id(
        id: &str,
        tooltip: &str,
        content: &str,
        variant: Option<TooltipVariant>,
        place: Option<TooltipPlace>,
    ) -> (r: Tooltip)
        ensures
            r.id@ == id@,
            r.tooltip@ == tooltip@,
            r.content@ == content@,
            r.variant == variant,
            r.place == place,
    {
        Tooltip {
            id: String::from_str(id),
            tooltip: String::from_str(tooltip),
            content: String::from_str(content),
            variant,
            place,
        }
    }

    /// A tooltip whose id is `tt-` followed by the number `n`.
    pub fn new_with_number(
        n: u16,
        tooltip: &str,
        content: &str,
        variant: Option<TooltipVariant>,
        place: Option<TooltipPlace>,
    ) -> (r: Tooltip)
        ensures
            r.id@ == "tt-"@ + decimal(n as nat),
            r.tooltip@ == tooltip@,
            r.content@ == content@,
            r.variant == variant,
            r.place == place,
    {
        let mut id = String::from_str("tt-");
        let d = decimal_string(n as usize);
        id.append(d.as_str());
        Tooltip::new_with_id(id.as_str(), tooltip, content, variant, place)
    }

    /// A tooltip with a generated id. Tooltips that are never shown together
    /// may rather share one id, given to `new_with_id`.
    pub fn new(
        tooltip: &str,
        content: &str,
        variant: Option<TooltipVariant>,
        place: Option<TooltipPlace>,
    ) -> (r: Tooltip)
        ensures
            exists|n: u16| r.id@ == "tt-"@ + decimal(n as nat),
            r.tooltip@ == tooltip@,
            r.content@ == content@,
            r.variant == variant,
            r.place == place,
    {
        let n = random_u16();
        Tooltip::new_with_number(n, tooltip, content, variant, place)
    }
}

/// Relies on `rand::random`: a number drawn from the thread's generator.
#[verifier::external_body]
fn random_u16() -> (r: u16) {
    rand::random::<u16>()
}

impl ReactComponent for Tooltip {
    open spec fn spec_component_name() -> Seq<char> {
        "ReactTooltip"@
    }

    fn component_name() -> (r: &'static str) {
        "ReactTooltip"
    }
}

/// The renderer of a Vega-Lite plot.
#[derive(Debug, Clone, Copy, PartialEq, Eq, Structural)]
pub enum VegaLiteRenderer {
    Canvas,
    Svg,
}

/// A CSS style: properties with their values, each property at most once.
#[derive(Debug, Clone, PartialEq, Eq)]
pub struct Style(Vec<(String, String)>);

/// The position of property `key` in `s`; `s.len()` if it is not there.
pub open spec fn property_position(s: Seq<(Seq<char>, Seq<char>)>, key: Seq<char>) -> nat
    decreases s.len(),
{
    if s.len() == 0 {
        0
    } else if s[0].0 == key {
        0
    } else {
        1 + property_position(s.skip(1), key)
    }
}

/// `s` with property `key` set to `val`: in place where it is there, else
/// added at the end.
pub open spec fn style_set(s: Seq<(Seq<char>, Seq<char>)>, key: Seq<char>, val: Seq<char>) -> Seq<
    (Seq<char>, Seq<char>),
> {
    let p = property_position(s, key);
    if p < s.len() {
        s.update(p as int, (key, val))
    } else {
        s.push((key, val))
    }
}

proof fn lemma_property_position(s: Seq<(Seq<char>, Seq<char>)>, key: Seq<char>, i: int)
    requires
        0 <= i <= s.len(),
        forall|k: int| 0 <= k < i ==> s[k].0 != key,
        i == s.len() || s[i].0 == key,
    ensures
        property_position(s, key) == i,
    decreases s.len(),
{
    if s.len() > 0 && i > 0 {
        assert forall|k: int| 0 <= k < i - 1 implies s.skip(1)[k].0 != key by {
            assert(s.skip(1)[k] == s[k + 1]);
        }
        lemma_property_position(s.skip(1), key, i - 1);
    }
}

impl Style {
    /// The properties and their values, in the order first set.
    pub closed spec fn view(&self) -> Seq<(Seq<char>, Seq<char>)> {
        self.0@.map_values(|p: (String, String)| (p.0@, p.1@))
    }

    pub fn is_empty(&self) -> (r: bool)
        ensures
            r == (self@.len() == 0),
    {
        self.0.len() == 0
    }

    pub fn new() -> (r: Style)
        ensures
            r@ == Seq::<(Seq<char>, Seq<char>)>::empty(),
    {
        let r = Style(Vec::new());
        assert(r@ =~= Seq::<(Seq<char>, Seq<char>)>::empty());
        r
    }

    /// Sets the property `key` to `val`.
    pub fn push(&mut self, key: &str, val: &str)
        ensures
            final(self)@ == style_set(old(self)@, key@, val@),
    {
        let ghost s = self@;
        let k = String::from_str(key);
        let mut i: usize = 0;
        while i < self.0.len()
            invariant
                s == self@,
                self == old(self),
                k@ == key@,
                i <= self.0.len(),
                forall|q: int| 0 <= q < i ==> s[q].0 != key@,
            decreases self.0.len() - i,
        {
            if self.0[i].0 == k {
                proof {
                    lemma_property_position(s, key@, i as int);
                }
                self.0.set(i, (k, String::from_str(val)));
                assert(self@ =~= s.update(i as int, (key@, val@)));
                return;
            }
            i = i + 1;
        }
        proof {
            lemma_property_position(s, key@, s.len() as int);
        }
        self.0.push((k, String::from_str(val)));
        assert(self@ =~= s.push((key@, val@)));
    }

    /// This style with the property `key` set to `val`.
    pub fn set(self, key: &str, val: &str) -> (r: Style)
        ensures
            r@ == style_set(self@, key@, val@),
    {
        let mut r = self;
        r.push(key, val);
        r
    }

    pub fn width(self, val: &str) -> (r: Style)
        ensures
            r@ == style_set(self@, "width"@, val@),
    {
        self.set("width", val)
    }

    pub fn height(self, val: &str) -> (r: Style)
        ensures
            r@ == style_set(self@, "height"@, val@),
    {
        self.set("height", val)
    }

    pub fn pixelated(self) -> (r: Style)
        ensures
            r@ == style_set(self@, "image-rendering"@, "pixelated"@),
    {
        self.set("image-rendering", "pixelated")
    }
}

/// The JSON object of a style.
pub open spec fn style_json(s: Seq<(Seq<char>, Seq<char>)>) -> Json {
    Json::Object(s.map_values(|p: (Seq<char>, Seq<char>)| (p.0, Json::Str(p.1))))
}

impl ToJson for Style {
    open spec fn spec_json(&self) -> Json {
        style_json(self@)
    }

    fn to_json(&self) -> (j: JsonValue) {
        let mut m: Vec<(String, JsonValue)> = Vec::new();
        let mut i: usize = 0;
        while i < self.0.len()
            invariant
                i <= self.0.len(),
                m.len() == i,
                forall|k: int| 0 <= k < i ==> m[k].0@ == self.0[k].0@ && m[k].1@ == Json::Str(self.0[k].1@),
            decreases self.0.len() - i,
        {
            let v = string_json(&self.0[i].1);
            m.push((self.0[i].0.clone(), v));
            i = i + 1;
        }
        let j = JsonValue::Object(m);
        assert(j@->Object_0 =~= style_json(self@)->Object_0);
        j
    }
}

/// A lower and an upper bound.
#[derive(Debug, Clone, Copy)]
pub struct MinMax<T> {
    pub min: T,
    pub max: T,
}

/// Size and style attributes of an image.
#[derive(Debug, Clone, PartialEq, Eq)]
pub struct ImageProps {
    pub width: Option<String>,
    pub height: Option<String>,
    pub style: Style,
}

/// The model of an optional string.
pub open spec fn opt_view(s: Option<String>) -> Option<Seq<char>> {
    match s {
        Some(t) => Some(t@),
        None => None,
    }
}

impl ImageProps {
    pub fn new() -> (r: ImageProps)
        ensures
            r.width is None,
            r.height is None,
            r.style@ == Seq::<(Seq<char>, Seq<char>)>::empty(),
    {
        ImageProps { width: None, height: None, style: Style::new() }
    }

    pub fn width(self, width: &str) -> (r: ImageProps)
        ensures
            opt_view(r.width) == Some(width@),
            r.height == self.height,
            r.style == self.style,
    {
        let mut r = self;
        r.width = Some(String::from_str(width));
        r
    }

    pub fn height(self, height: &str) -> (r: ImageProps)
        ensures
            r.width == self.width,
            opt_view(r.height) == Some(height@),
            r.style == self.style,
    {
        let mut r = self;
        r.height = Some(String::from_str(height));
        r
    }

    pub fn style(self, style: Style) -> (r: ImageProps)
        ensures
            r.width == self.width,
            r.height == self.height,
            r.style == style,
    {
        let mut r = self;
        r.style = style;
        r
    }

    /// Sets `width = "100%"` on the image.
    pub fn container_width(self) -> (r: ImageProps)
        ensures
            opt_view(r.width) == Some("100%"@),
            r.height == self.height,
            r.style == self.style,
    {
        self.width("100%")
    }

    pub fn pixelated(self) -> (r: ImageProps)
        ensures
            r.width == self.width,
            r.height == self.height,
            r.style@ == style_set(self.style@, "image-rendering"@, "pixelated"@),
    {
        let ImageProps { width, height, style } = self;
        ImageProps { width, height, style: style.pixelated() }
    }

    /// Centers the image horizontally.
    pub fn centered(self) -> (r: ImageProps)
        ensures
            r.width == self.width,
            r.height == self.height,
            r.style@ == style_set(
                style_set(style_set(self.style@, "display"@, "block"@), "margin-left"@, "auto"@),
                "margin-right"@,
                "auto"@,
            ),
    {
        let ImageProps { width, height, style } = self;
        let style = style.set("display", "block").set("margin-left", "auto").set(
            "margin-right",
            "auto",
        );
        ImageProps { width, height, style }
    }
}

/// An image given as a base64 data URL.
#[derive(Debug, Clone, PartialEq, Eq)]
pub struct RawImage {
    /// The base64 encoded image
    pub encoded_image: String,
    pub link: Option<String>,
    pub props: ImageProps,
}

impl RawImage {
    pub fn new(encoded_image: String) -> (r: RawImage)
        ensures
            r.encoded_image == encoded_image,
            r.link is None,
            r.props.width is None,
            r.props.height is None,
            r.props.style@ == Seq::<(Seq<char>, Seq<char>)>::empty(),
    {
        RawImage { encoded_image, link: None, props: ImageProps::new() }
    }

    pub fn props(self, props: ImageProps) -> (r: RawImage)
        ensures
            r.encoded_image == self.encoded_image,
            r.link == self.link,
            r.props == props,
    {
        let mut r = self;
        r.props = props;
        r
    }

    pub fn pixelated(self) -> (r: RawImage)
        ensures
            r.encoded_image == self.encoded_image,
            r.link == self.link,
            r.props.width == self.props.width,
            r.props.height == self.props.height,
            r.props.style@ == style_set(self.props.style@, "image-rendering"@, "pixelated"@),
    {
        let RawImage { encoded_image, link, props } = self;
        RawImage { encoded_image, link, props: props.pixelated() }
    }

    pub fn with_link(self, link: &str) -> (r: RawImage)
        ensures
            r.encoded_image == self.encoded_image,
            opt_view(r.link) == Some(link@),
            r.props == self.props,
    {
        let mut r = self;
        r.link = Some(String::from_str(link));
        r
    }
}

impl ReactComponent for RawImage {
    open spec fn spec_component_name() -> Seq<char> {
        "RawImage"@
    }

    fn component_name() -> (r: &'static str) {
        "RawImage"
    }
}

impl ToJson for RawImage {
    open spec fn spec_json(&self) -> Json {
        Json::Object(
            seq![
                ("encoded_image"@, Json::Str(self.encoded_image@)),
                ("zoom_pan"@, Json::Null),
                ("link"@, opt_str_json(opt_view(self.link))),
                ("width"@, opt_str_json(opt_view(self.props.width))),
                ("height"@, opt_str_json(opt_view(self.props.height))),
                ("style"@, style_json(self.props.style@)),
            ],
        )
    }

    fn to_json(&self) -> (j: JsonValue) {
        let mut m = no_members();
        push_member(&mut m, "encoded_image", string_json(&self.encoded_image));
        push_member(&mut m, "zoom_pan", null_json());
        push_member(&mut m, "link", opt_string_to_json(&self.link));
        push_member(&mut m, "width", opt_string_to_json(&self.props.width));
        push_member(&mut m, "height", opt_string_to_json(&self.props.height));
        push_member(&mut m, "style", self.props.style.to_json());
        let j = object_json(m);
        assert(j@->Object_0 =~= self.spec_json()->Object_0);
        j
    }
}

} // verus!

verus! {

/// One option of a dropdown.
pub struct DropdownOption<T> {
    pub name: String,
    pub component: T,
}

/// Horizontal alignment.
#[derive(Debug, Clone, Copy, PartialEq, Eq, Structural)]
pub enum CssAlign {
    Left,
    Right,
    Center,
}

/// Label and alignment of a dropdown.
#[derive(Debug, Clone)]
pub struct DropdownSelectorProps {
    pub label: Option<String>,
    pub align: CssAlign,
}

/// A dropdown that toggles between options.
pub struct DropdownSelector<T> {
    pub props: DropdownSelectorProps,
    pub options: Vec<DropdownOption<T>>,
}

/// The key of the component of option `i` under `key`.
pub open spec fn option_key(key: Option<Seq<char>>, i: nat) -> Seq<char> {
    join_key(Some(index_key(join_key(key, "options"@), i)), "component"@)
}

fn option_data_key(base: &str, i: usize) -> (r: String)
    ensures
        r@ == join_key(Some(index_key(base@, i as nat)), "component"@),
{
    let k = index_data_key(base, i);
    join_data_key(&Some(k), "component")
}

/// The wrapper of a selector around its joined options.
pub open spec fn selector_html(key: Option<Seq<char>>, name: Seq<char>, inner: Seq<char>) -> Seq<char> {
    "<div data-key=\""@ + join_key(key, "props"@) + "\" data-component=\""@ + name + "\">"@ + inner
        + "</div>"@
}

fn selector_wrap(data_key: &Option<String>, name: &str, inner: &str) -> (r: String)
    ensures
        r@ == selector_html(key_view(*data_key), name@, inner@),
{
    let props = join_data_key(data_key, "props");
    let mut r = String::from_str("<div data-key=\"");
    r.append(props.as_str());
    r.append("\" data-component=\"");
    r.append(name);
    r.append("\">");
    r.append(inner);
    r.append("</div>");
    r
}

impl<T: HtmlTemplate> HtmlTemplate for DropdownSelector<T> {
    open spec fn needs_key(&self) -> bool {
        false
    }

    fn requires_key(&self) -> (r: bool) {
        false
    }

    open spec fn spec_template(&self, data_key: Option<Seq<char>>) -> Seq<char> {
        selector_html(
            data_key,
            "DropdownSelector"@,
            joined(
                Seq::new(
                    self.options.len() as nat,
                    |i: int|
                        "<div class=\"dropdown-wrapper\" name=\""@ + self.options[i].name@ + "\">"@
                            + self.options[i].component.spec_template(Some(option_key(data_key, i as nat)))
                            + "</div>"@,
                ),
                "\n"@,
            ),
        )
    }

    fn template(&self, data_key: Option<String>) -> (r: String) {
        let ghost want = Seq::new(
            self.options.len() as nat,
            |i: int|
                "<div class=\"dropdown-wrapper\" name=\""@ + self.options[i].name@ + "\">"@
                    + self.options[i].component.spec_template(
                    Some(option_key(key_view(data_key), i as nat)),
                ) + "</div>"@,
        );
        let base = join_data_key(&data_key, "options");
        let mut parts: Vec<String> = Vec::new();
        let mut i: usize = 0;
        while i < self.options.len()
            invariant
                i <= self.options.len(),
                base@ == join_key(key_view(data_key), "options"@),
                want == Seq::new(
                    self.options.len() as nat,
                    |i: int|
                        "<div class=\"dropdown-wrapper\" name=\""@ + self.options[i].name@ + "\">"@
                            + self.options[i].component.spec_template(
                            Some(option_key(key_view(data_key), i as nat)),
                        ) + "</div>"@,
                ),
                parts.len() == i,
                forall|k: int| 0 <= k < i ==> parts[k]@ == want[k],
            decreases self.options.len() - i,
        {
            let key = option_data_key(base.as_str(), i);
            let inner = self.options[i].component.template(Some(key));
            let mut t = String::from_str("<div class=\"dropdown-wrapper\" name=\"");
            t.append(self.options[i].name.as_str());
            t.append("\">");
            t.append(inner.as_str());
            t.append("</div>");
            parts.push(t);
            i = i + 1;
        }
        assert(parts@.map_values(|s: String| s@) =~= want);
        let inner = join_strings(&parts, "\n");
        selector_wrap(&data_key, "DropdownSelector", inner.as_str())
    }
}

/// One option of a button selector.
pub struct ButtonSelectorOption<T> {
    pub name: String,
    pub component: T,
}

/// How the buttons of a selector are laid out.
#[derive(Debug, Clone, Copy, PartialEq, Eq, Structural)]
pub enum ButtonSelectoryType {
    FullWidth,
    Compact,
    Separated,
}

/// The button group type of a button selector.
#[derive(Debug, Clone, Copy, PartialEq, Eq, Structural)]
pub struct ButtonSelectorProps {
    pub ty: ButtonSelectoryType,
}

/// Buttons that toggle between options.
pub struct ButtonSelector<T> {
    pub props: ButtonSelectorProps,
    pub options: Vec<ButtonSelectorOption<T>>,
}

impl<T: HtmlTemplate> HtmlTemplate for ButtonSelector<T> {
    open spec fn needs_key(&self) -> bool {
        false
    }

    fn requires_key(&self) -> (r: bool) {
        false
    }

    open spec fn spec_template(&self, data_key: Option<Seq<char>>) -> Seq<char> {
        selector_html(
            data_key,
            "ButtonSelector"@,
            joined(
                Seq::new(
                    self.options.len() as nat,
                    |i: int|
                        "<div name=\""@ + self.options[i].name@ + "\">"@
                            + self.options[i].component.spec_template(Some(option_key(data_key, i as nat)))
                            + "</div>"@,
                ),
                "\n"@,
            ),
        )
    }

    fn template(&self, data_key: Option<String>) -> (r: String) {
        let ghost want = Seq::new(
            self.options.len() as nat,
            |i: int|
                "<div name=\""@ + self.options[i].name@ + "\">"@
                    + self.options[i].component.spec_template(
                    Some(option_key(key_view(data_key), i as nat)),
                ) + "</div>"@,
        );
        let base = join_data_key(&data_key, "options");
        let mut parts: Vec<String> = Vec::new();
        let mut i: usize = 0;
        while i < self.options.len()
            invariant
                i <= self.options.len(),
                base@ == join_key(key_view(data_key), "options"@),
                want == Seq::new(
                    self.options.len() as nat,
                    |i: int|
                        "<div name=\""@ + self.options[i].name@ + "\">"@
                            + self.options[i].component.spec_template(
                            Some(option_key(key_view(data_key), i as nat)),
                        ) + "</div>"@,
                ),
                parts.len() == i,
                forall|k: int| 0 <= k < i ==> parts[k]@ == want[k],
            decreases self.options.len() - i,
        {
            let key = option_data_key(base.as_str(), i);
            let inner = self.options[i].component.template(Some(key));
            let mut t = String::from_str("<div name=\"");
            t.append(self.options[i].name.as_str());
            t.append("\">");
            t.append(inner.as_str());
            t.append("</div>");
            parts.push(t);
            i = i + 1;
        }
        assert(parts@.map_values(|s: String| s@) =~= want);
        let inner = join_strings(&parts, "\n");
        selector_wrap(&data_key, "ButtonSelector", inner.as_str())
    }
}

/// A number or a string.
#[derive(Debug, Clone, PartialEq, Eq)]
pub enum NumOrStr {
    Num(usize),
    Str(String),
}

impl NumOrStr {
    /// The text of the value: the decimal digits of a number, or the string.
    pub fn to_text(&self) -> (r: String)
        ensures
            r@ == match self {
                NumOrStr::Num(n) => decimal(*n as nat),
                NumOrStr::Str(s) => s@,
            },
    {
        match self {
            NumOrStr::Num(n) => decimal_string(*n),
            NumOrStr::Str(s) => s.clone(),
        }
    }
}

/// Width of the opacity slider of a blended image.
#[derive(Debug, Clone, PartialEq, Eq)]
pub struct BlendedImageSliderSize {
    pub width: NumOrStr,
}

/// Two images on top of each other with a slider that sets the opacity.
#[derive(Debug, Clone, PartialEq, Eq)]
pub struct BlendedImage {
    /// Base64 encoded image
    pub image1: String,
    /// Title at the left of the slider
    pub image1_title: Option<String>,
    /// Base64 encoded image
    pub image2: String,
    /// Title at the right of the slider
    pub image2_title: Option<String>,
    pub size: BlendedImageSliderSize,
    pub plot_title: Option<String>,
    pub slider_title: Option<String>,
}

impl ReactComponent for BlendedImage {
    open spec fn spec_component_name() -> Seq<char> {
        "ImageRegistViewer"@
    }

    fn component_name() -> (r: &'static str) {
        "ImageRegistViewer"
    }
}

impl AddToSharedResource for BlendedImage {
    open spec fn moved(
        before: BlendedImage,
        store_before: Seq<Json>,
        after: BlendedImage,
        store_after: Seq<Json>,
    ) -> bool {
        let (s1, r1) = inserted(store_before, Json::Str(before.image1@));
        let (s2, r2) = inserted(s1, Json::Str(before.image2@));
        &&& store_after == s2
        &&& after.image1@ == r1
        &&& after.image2@ == r2
        &&& after.image1_title == before.image1_title
        &&& after.image2_title == before.image2_title
        &&& after.size == before.size
        &&& after.plot_title == before.plot_title
        &&& after.slider_title == before.slider_title
    }

    fn add_to_shared_resource(&mut self, shared_resource: &mut SharedResources) {
        let r1 = shared_resource.insert(string_json(&self.image1));
        self.image1 = r1;
        let r2 = shared_resource.insert(string_json(&self.image2));
        self.image2 = r2;
    }
}

/// Sizes of a zoom viewer.
#[derive(Debug, Clone)]
pub struct ZoomViewerSize {
    pub width: NumOrStr,
    pub height: NumOrStr,
}

/// A small image that opens a zoomable big one.
#[derive(Debug, Clone)]
pub struct ZoomViewer {
    pub small_image: String,
    pub big_image: String,
    pub sizes: ZoomViewerSize,
    pub plot_title: Option<String>,
}

impl ReactComponent for ZoomViewer {
    open spec fn spec_component_name() -> Seq<char> {
        "ZoomViewer"@
    }

    fn component_name() -> (r: &'static str) {
        "ZoomViewer"
    }
}

/// Progress through a series of steps.
#[derive(Debug, Clone)]
pub struct StepProgress {
    pub steps: Vec<String>,
    pub active_step: u8,
    pub active_step_failed: bool,
}

impl ReactComponent for StepProgress {
    open spec fn spec_component_name() -> Seq<char> {
        "StepProgress"@
    }

    fn component_name() -> (r: &'static str) {
        "StepProgress"
    }
}

/// Block of preformatted text.
#[derive(Debug, Clone)]
pub struct CodeBlock {
    pub code: String,
    pub max_height: Option<String>,
}

impl ReactComponent for CodeBlock {
    open spec fn spec_component_name() -> Seq<char> {
        "CodeBlock"@
    }

    fn component_name() -> (r: &'static str) {
        "CodeBlock"
    }
}

/// JavaScript code.
#[derive(Debug, Clone)]
pub struct JavaScript {
    pub code: String,
}

impl JavaScript {
    pub fn new(code: &str) -> (r: JavaScript)
        ensures
            r.code@ == code@,
    {
        JavaScript { code: String::from_str(code) }
    }
}

impl ReactComponent for JavaScript {
    open spec fn spec_component_name() -> Seq<char> {
        "JavaScript"@
    }

    fn component_name() -> (r: &'static str) {
        "JavaScript"
    }
}

/// A fragment of HTML.
#[derive(Debug, Clone)]
pub struct HtmlFragment {
    pub html: String,
}

impl HtmlFragment {
    pub fn new(html: &str) -> (r: HtmlFragment)
        ensures
            r.html@ == html@,
    {
        HtmlFragment { html: String::from_str(html) }
    }
}

impl ReactComponent for HtmlFragment {
    open spec fn spec_component_name() -> Seq<char> {
        "HtmlFragment"@
    }

    fn component_name() -> (r: &'static str) {
        "HtmlFragment"
    }
}

impl ToJson for HtmlFragment {
    open spec fn spec_json(&self) -> Json {
        Json::Object(seq![("html"@, Json::Str(self.html@))])
    }

    fn to_json(&self) -> (j: JsonValue) {
        let mut m = no_members();
        push_member(&mut m, "html", string_json(&self.html));
        let j = object_json(m);
        assert(j@->Object_0 =~= self.spec_json()->Object_0);
        j
    }
}

/// A file that the page offers for download.
#[derive(Debug, Clone)]
pub struct DownloadableFile {
    pub data: String,
    pub filename: String,
    pub text: String,
    pub mime_type: String,
}

impl ReactComponent for DownloadableFile {
    open spec fn spec_component_name() -> Seq<char> {
        "DownloadableFile"@
    }

    fn component_name() -> (r: &'static str) {
        "DownloadableFile"
    }
}

/// One cluster of a clustering plot.
#[derive(Debug, Clone)]
pub struct HdClusteringSingleClusterData {
    pub cluster_name: String,
    pub hex_color: String,
    pub spatial_plot: String,
    pub umap_plot: String,
}

/// Properties of the UMAP plot of a clustering.
#[derive(Debug, Clone)]
pub struct HdClusteringUmapPlotProps {
    pub title: String,
}

/// A legend image of a UMI colormap.
#[derive(Debug, Clone)]
pub struct HdEndToEndAlignmentUmiLegendImage {
    pub colormap: String,
    pub legend_image: String,
}

impl AddToSharedResource for HdEndToEndAlignmentUmiLegendImage {
    open spec fn moved(
        before: HdEndToEndAlignmentUmiLegendImage,
        store_before: Seq<Json>,
        after: HdEndToEndAlignmentUmiLegendImage,
        store_after: Seq<Json>,
    ) -> bool {
        let (s, r) = inserted(store_before, Json::Str(before.legend_image@));
        &&& store_after == s
        &&& after.legend_image@ == r
        &&& after.colormap == before.colormap
    }

    fn add_to_shared_resource(&mut self, shared_resource: &mut SharedResources) {
        let r = shared_resource.insert(string_json(&self.legend_image));
        self.legend_image = r;
    }
}

/// The region that a multi-layer image first shows.
#[derive(Debug, Clone, Copy)]
pub struct InitialFocus {
    pub x: i32,
    pub y: i32,
    pub width: i32,
    pub height: i32,
}

/// The command line of a run, shown as help text.
#[derive(Debug, Clone)]
pub struct CommandLine {
    pub title: String,
    pub data: Vec<TermDesc>,
    pub show_dark_button_icon: bool,
}

impl ReactComponent for CommandLine {
    open spec fn spec_component_name() -> Seq<char> {
        "DynamicHelptext"@
    }

    fn component_name() -> (r: &'static str) {
        "DynamicHelptext"
    }
}

impl CommandLine {
    pub fn new(cmdline: &str) -> (r: CommandLine)
        ensures
            r.title@ == "Command Line Arguments"@,
            r.data@.len() == 1,
            r.data@[0]@ == (Seq::<char>::empty(), seq![
                "<span style='font-size: 18px;'><code><pre style='white-space: pre-wrap;'>"@
                    + cmdline@ + "</pre></code></span>"@,
            ]),
            r.show_dark_button_icon,
    {
        let mut d = String::from_str(
            "<span style='font-size: 18px;'><code><pre style='white-space: pre-wrap;'>",
        );
        d.append(cmdline);
        d.append("</pre></code></span>");
        let t = TermDesc(String::new(), vec![d]);
        assert(t@.1 =~= seq![
            "<span style='font-size: 18px;'><code><pre style='white-space: pre-wrap;'>"@ + cmdline@
                + "</pre></code></span>"@,
        ]);
        CommandLine {
            title: String::from_str("Command Line Arguments"),
            data: vec![t],
            show_dark_button_icon: true,
        }
    }
}

/// A text with a hyperlink.
pub struct LinkedText {
    pub link: String,
    pub text: String,
}

impl LinkedText {
    /// `<a href="{link}">{text}</a>`.
    pub fn html(&self) -> (r: String)
        ensures
            r@ == "<a href=\""@ + self.link@ + "\">"@ + self.text@ + "</a>"@,
    {
        let mut r = String::from_str("<a href=\"");
        r.append(self.link.as_str());
        r.append("\">");
        r.append(self.text.as_str());
        r.append("</a>");
        r
    }
}

impl HtmlTemplate for LinkedText {
    open spec fn needs_key(&self) -> bool {
        false
    }

    fn requires_key(&self) -> (r: bool) {
        false
    }

    open spec fn spec_template(&self, data_key: Option<Seq<char>>) -> Seq<char> {
        "<a href=\""@ + self.link@ + "\">"@ + self.text@ + "</a>"@
    }

    fn template(&self, data_key: Option<String>) -> (r: String) {
        self.html()
    }
}

} // verus!

verus! {

/// The properties of a component that wraps children.
pub trait ParentComponentProps {
    spec fn spec_parent_component_name() -> Seq<char>;

    fn parent_component_name() -> (r: &'static str)
        ensures
            r@ == Self::spec_parent_component_name(),
    ;
}

/// A component with both properties and children.
pub struct ComponentWithChildren<P, C> {
    pub parent_props: P,
    pub children: C,
}

impl<P: ParentComponentProps, C: HtmlTemplate> ComponentWithChildren<P, C> {
    pub fn new(parent_props: P, children: C) -> (r: ComponentWithChildren<P, C>)
        ensures
            r.parent_props == parent_props,
            r.children == children,
    {
        ComponentWithChildren { parent_props, children }
    }
}

/// The keyed div of a parent component around its children.
pub open spec fn parent_html(key: Option<Seq<char>>, name: Seq<char>, children: Seq<char>) -> Seq<char> {
    "<div data-key=\""@ + join_key(key, "parent_props"@) + "\" data-component=\""@ + name + "\">\n"@
        + children + "\n</div>"@
}

impl<P: ParentComponentProps, C: HtmlTemplate> HtmlTemplate for ComponentWithChildren<P, C> {
    open spec fn needs_key(&self) -> bool {
        false
    }

    fn requires_key(&self) -> (r: bool) {
        false
    }

    open spec fn spec_template(&self, data_key: Option<Seq<char>>) -> Seq<char> {
        parent_html(
            data_key,
            P::spec_parent_component_name(),
            self.children.spec_template(Some(join_key(data_key, "children"@))),
        )
    }

    fn template(&self, data_key: Option<String>) -> (r: String) {
        let component_key = join_data_key(&data_key, "parent_props");
        let children_key = join_data_key(&data_key, "children");
        let children = self.children.template(Some(children_key));
        let mut r = String::from_str("<div data-key=\"");
        r.append(component_key.as_str());
        r.append("\" data-component=\"");
        r.append(P::parent_component_name());
        r.append("\">\n");
        r.append(children.as_str());
        r.append("\n</div>");
        r
    }
}

/// Level of an inline alert.
#[derive(Debug, Clone, Copy, PartialEq, Eq, Structural)]
pub enum InlineAlertLevel {
    Primary,
    Secondary,
    Success,
    Danger,
    Warning,
    Info,
    Light,
    Dark,
}

/// The properties of an inline alert.
#[derive(Debug, Clone, Copy, PartialEq, Eq, Structural)]
pub struct InlineAlertProps {
    pub level: InlineAlertLevel,
}

impl ParentComponentProps for InlineAlertProps {
    open spec fn spec_parent_component_name() -> Seq<char> {
        "InlineAlert"@
    }

    fn parent_component_name() -> (r: &'static str) {
        "InlineAlert"
    }
}

/// An alert that can stand anywhere in the page.
pub type InlineAlert<T> = ComponentWithChildren<InlineAlertProps, T>;

/// An inline alert holding HTML text.
pub type InlineTextAlert = InlineAlert<HtmlFragment>;

impl ComponentWithChildren<InlineAlertProps, HtmlFragment> {
    pub fn with_level_and_text(level: InlineAlertLevel, text: &str) -> (r: InlineTextAlert)
        ensures
            r.parent_props.level == level,
            r.children.html@ == text@,
    {
        ComponentWithChildren::new(InlineAlertProps { level }, HtmlFragment::new(text))
    }

    pub fn primary(text: &str) -> (r: InlineTextAlert)
        ensures
            r.parent_props.level == InlineAlertLevel::Primary,
            r.children.html@ == text@,
    {
        Self::with_level_and_text(InlineAlertLevel::Primary, text)
    }

    pub fn secondary(text: &str) -> (r: InlineTextAlert)
        ensures
            r.parent_props.level == InlineAlertLevel::Secondary,
            r.children.html@ == text@,
    {
        Self::with_level_and_text(InlineAlertLevel::Secondary, text)
    }

    pub fn success(text: &str) -> (r: InlineTextAlert)
        ensures
            r.parent_props.level == InlineAlertLevel::Success,
            r.children.html@ == text@,
    {
        Self::with_level_and_text(InlineAlertLevel::Success, text)
    }

    pub fn danger(text: &str) -> (r: InlineTextAlert)
        ensures
            r.parent_props.level == InlineAlertLevel::Danger,
            r.children.html@ == text@,
    {
        Self::with_level_and_text(InlineAlertLevel::Danger, text)
    }

    pub fn warning(text: &str) -> (r: InlineTextAlert)
        ensures
            r.parent_props.level == InlineAlertLevel::Warning,
            r.children.html@ == text@,
    {
        Self::with_level_and_text(InlineAlertLevel::Warning, text)
    }

    pub fn info(text: &str) -> (r: InlineTextAlert)
        ensures
            r.parent_props.level == InlineAlertLevel::Info,
            r.children.html@ == text@,
    {
        Self::with_level_and_text(InlineAlertLevel::Info, text)
    }

    pub fn light(text: &str) -> (r: InlineTextAlert)
        ensures
            r.parent_props.level == InlineAlertLevel::Light,
            r.children.html@ == text@,
    {
        Self::with_level_and_text(InlineAlertLevel::Light, text)
    }

    pub fn dark(text: &str) -> (r: InlineTextAlert)
        ensures
            r.parent_props.level == InlineAlertLevel::Dark,
            r.children.html@ == text@,
    {
        Self::with_level_and_text(InlineAlertLevel::Dark, text)
    }
}

/// The properties of an inline help.
#[derive(Debug, Clone, Copy, PartialEq, Eq, Structural)]
pub struct InlineHelpProps;

impl ParentComponentProps for InlineHelpProps {
    open spec fn spec_parent_component_name() -> Seq<char> {
        "InlineHelp"@
    }

    fn parent_component_name() -> (r: &'static str) {
        "InlineHelp"
    }
}

/// Help text that can stand anywhere in the page.
pub type InlineHelp = ComponentWithChildren<InlineHelpProps, HtmlFragment>;

impl ComponentWithChildren<InlineHelpProps, HtmlFragment> {
    pub fn with_content(html: &str) -> (r: InlineHelp)
        ensures
            r.children.html@ == html@,
    {
        ComponentWithChildren::new(InlineHelpProps, HtmlFragment::new(html))
    }
}

/// The properties of a collapsible panel.
#[derive(Debug, Clone)]
pub struct CollapsablePanelProps {
    pub title: String,
    pub plain: Option<bool>,
}

impl ParentComponentProps for CollapsablePanelProps {
    open spec fn spec_parent_component_name() -> Seq<char> {
        "CollapsablePanel"@
    }

    fn parent_component_name() -> (r: &'static str) {
        "CollapsablePanel"
    }
}

/// A panel whose content can be collapsed.
pub type CollapsablePanel<T> = ComponentWithChildren<CollapsablePanelProps, T>;

impl<T: HtmlTemplate> ComponentWithChildren<CollapsablePanelProps, T> {
    pub fn with_title_and_content(title: &str, content: T) -> (r: CollapsablePanel<T>)
        ensures
            r.parent_props.title@ == title@,
            r.parent_props.plain == Some(false),
            r.children == content,
    {
        ComponentWithChildren::new(
            CollapsablePanelProps { title: String::from_str(title), plain: Some(false) },
            content,
        )
    }
}

/// Level of an HTML heading.
#[derive(Debug, Clone, Copy, PartialEq, Eq, Structural)]
pub enum HeadingLevel {
    H1,
    H2,
    H3,
    H4,
    H5,
    H6,
}

impl HeadingLevel {
    pub open spec fn tag_spec(self) -> Seq<char> {
        match self {
            HeadingLevel::H1 => "h1"@,
            HeadingLevel::H2 => "h2"@,
            HeadingLevel::H3 => "h3"@,
            HeadingLevel::H4 => "h4"@,
            HeadingLevel::H5 => "h5"@,
            HeadingLevel::H6 => "h6"@,
        }
    }

    /// The tag of the heading.
    pub fn tag(self) -> (r: &'static str)
        ensures
            r@ == self.tag_spec(),
    {
        match self {
            HeadingLevel::H1 => "h1",
            HeadingLevel::H2 => "h2",
            HeadingLevel::H3 => "h3",
            HeadingLevel::H4 => "h4",
            HeadingLevel::H5 => "h5",
            HeadingLevel::H6 => "h6",
        }
    }
}

/// An HTML heading.
pub struct Heading {
    pub text: String,
    pub level: HeadingLevel,
}

impl Heading {
    pub fn new(level: HeadingLevel, text: &str) -> (r: Heading)
        ensures
            r.text@ == text@,
            r.level == level,
    {
        Heading { text: String::from_str(text), level }
    }

    pub fn h1(text: &str) -> (r: Heading)
        ensures
            r.text@ == text@,
            r.level == HeadingLevel::H1,
    {
        Heading::new(HeadingLevel::H1, text)
    }

    pub fn h2(text: &str) -> (r: Heading)
        ensures
            r.text@ == text@,
            r.level == HeadingLevel::H2,
    {
        Heading::new(HeadingLevel::H2, text)
    }

    pub fn h3(text: &str) -> (r: Heading)
        ensures
            r.text@ == text@,
            r.level == HeadingLevel::H3,
    {
        Heading::new(HeadingLevel::H3, text)
    }

    pub fn h4(text: &str) -> (r: Heading)
        ensures
            r.text@ == text@,
            r.level == HeadingLevel::H4,
    {
        Heading::new(HeadingLevel::H4, text)
    }

    pub fn h5(text: &str) -> (r: Heading)
        ensures
            r.text@ == text@,
            r.level == HeadingLevel::H5,
    {
        Heading::new(HeadingLevel::H5, text)
    }

    pub fn h6(text: &str) -> (r: Heading)
        ensures
            r.text@ == text@,
            r.level == HeadingLevel::H6,
    {
        Heading::new(HeadingLevel::H6, text)
    }
}

impl HtmlTemplate for Heading {
    open spec fn needs_key(&self) -> bool {
        false
    }

    fn requires_key(&self) -> (r: bool) {
        false
    }

    open spec fn spec_template(&self, data_key: Option<Seq<char>>) -> Seq<char> {
        "<"@ + self.level.tag_spec() + ">"@ + self.text@ + "</"@ + self.level.tag_spec() + ">"@
    }

    fn template(&self, data_key: Option<String>) -> (r: String) {
        let tag = self.level.tag();
        let mut r = String::from_str("<");
        r.append(tag);
        r.append(">");
        r.append(self.text.as_str());
        r.append("</");
        r.append(tag);
        r.append(">");
        r
    }
}

/// Any kind of title.
#[derive(Debug, Clone, PartialEq, Eq)]
pub enum Title {
    WithHelp(TitleWithHelp),
    WithTermDesc(TitleWithTermDesc),
}

impl Title {
    /// A title without help.
    pub fn new(title: &str) -> (r: Title)
        ensures
            r is WithHelp,
            r->WithHelp_0.help@ == Seq::<char>::empty(),
            r->WithHelp_0.title@ == title@,
    {
        Title::WithHelp(TitleWithHelp { help: String::new(), title: String::from_str(title) })
    }
}

impl HtmlTemplate for Title {
    open spec fn needs_key(&self) -> bool {
        true
    }

    fn requires_key(&self) -> (r: bool) {
        true
    }

    open spec fn spec_template(&self, data_key: Option<Seq<char>>) -> Seq<char> {
        match self {
            Title::WithHelp(t) => t.spec_template(data_key),
            Title::WithTermDesc(t) => t.spec_template(data_key),
        }
    }

    fn template(&self, data_key: Option<String>) -> (r: String) {
        match self {
            Title::WithHelp(t) => t.template(data_key),
            Title::WithTermDesc(t) => t.template(data_key),
        }
    }
}

impl ToJson for Title {
    open spec fn spec_json(&self) -> Json {
        match self {
            Title::WithHelp(t) => t.spec_json(),
            Title::WithTermDesc(t) => t.spec_json(),
        }
    }

    fn to_json(&self) -> (j: JsonValue) {
        match self {
            Title::WithHelp(t) => t.to_json(),
            Title::WithTermDesc(t) => t.to_json(),
        }
    }
}

/// A node with a title above it.
pub struct WithTitle<T> {
    pub title: Title,
    pub inner: T,
}

impl<T: HtmlTemplate> WithTitle<T> {
    pub fn new(title: Title, inner: T) -> (r: WithTitle<T>)
        ensures
            r.title == title,
            r.inner == inner,
    {
        WithTitle { title, inner }
    }
}

/// The two rows of a titled node: the title, then the node.
pub open spec fn with_title_rows(title: Seq<char>, inner: Seq<char>) -> Seq<(Seq<char>, Seq<Seq<char>>)> {
    add_field(add_field(Seq::empty(), "title"@, col_block(title)), "inner"@, col_block(inner))
}

impl<T: HtmlTemplate> HtmlTemplate for WithTitle<T> {
    open spec fn needs_key(&self) -> bool {
        false
    }

    fn requires_key(&self) -> (r: bool) {
        false
    }

    open spec fn spec_template(&self, data_key: Option<Seq<char>>) -> Seq<char> {
        rows_html(
            with_title_rows(
                self.title.spec_template(Some(join_key(data_key, "title"@))),
                self.inner.spec_template(Some(join_key(data_key, "inner"@))),
            ),
        )
    }

    fn template(&self, data_key: Option<String>) -> (r: String) {
        let mut layout = RowLayout::new(data_key);
        layout.field("title", None, &self.title);
        layout.field("inner", None, &self.inner);
        layout.finish()
    }
}

/// Two nodes side by side.
pub struct TwoColumn<L, R> {
    pub left: L,
    pub right: R,
}

impl<L: HtmlTemplate, R: HtmlTemplate> HtmlTemplate for TwoColumn<L, R> {
    open spec fn needs_key(&self) -> bool {
        false
    }

    fn requires_key(&self) -> (r: bool) {
        false
    }

    open spec fn spec_template(&self, data_key: Option<Seq<char>>) -> Seq<char> {
        rows_html(
            add_field(
                add_field(
                    Seq::empty(),
                    "1"@,
                    col_block(self.left.spec_template(Some(join_key(data_key, "left"@)))),
                ),
                "1"@,
                col_block(self.right.spec_template(Some(join_key(data_key, "right"@)))),
            ),
        )
    }

    fn template(&self, data_key: Option<String>) -> (r: String) {
        let mut layout = RowLayout::new(data_key);
        layout.field("left", Some("1"), &self.left);
        layout.field("right", Some("1"), &self.right);
        layout.finish()
    }
}

} // verus!

verus! {

/// The width held by a JSON number or string.
pub open spec fn num_or_str_of(j: Json) -> Option<NumOrStr> {
    match j {
        Json::Number(n) => if 0 <= n <= usize::MAX {
            Some(NumOrStr::Num(n as usize))
        } else {
            None
        },
        _ => None,
    }
}

/// An optional string member: absent or null is none, a string is some.
pub open spec fn opt_str_member(j: Json, name: Seq<char>) -> Option<Option<Seq<char>>> {
    match member(j, name) {
        None => Some(None),
        Some(Json::Null) => Some(None),
        Some(Json::Str(s)) => Some(Some(s)),
        _ => None,
    }
}

fn get_opt_str_member(j: &JsonValue, name: &str) -> (r: Option<Option<String>>)
    ensures
        match r {
            Some(v) => opt_str_member(j@, name@) == Some(opt_view(v)),
            None => opt_str_member(j@, name@) is None,
        },
{
    match get_member(j, name) {
        None => Some(None),
        Some(v) => match v {
            JsonValue::Null => Some(None),
            JsonValue::Str(s) => Some(Some(s.clone())),
            _ => None,
        },
    }
}

impl BlendedImage {
    /// Reads a blended image from its JSON form; the slider width may be a
    /// number or a string.
    pub fn from_json(j: &JsonValue) -> (r: Option<BlendedImage>)
        ensures
            r is Some ==> {
                let b = r->0;
                &&& str_member(j@, "imgA"@) == Some(b.image1@)
                &&& str_member(j@, "imgB"@) == Some(b.image2@)
                &&& opt_str_member(j@, "imgATitle"@) == Some(opt_view(b.image1_title))
                &&& opt_str_member(j@, "imgBTitle"@) == Some(opt_view(b.image2_title))
                &&& opt_str_member(j@, "plot_title"@) == Some(opt_view(b.plot_title))
                &&& opt_str_member(j@, "slider_title"@) == Some(opt_view(b.slider_title))
                &&& member(j@, "sizes"@) is Some
                &&& match b.size.width {
                    NumOrStr::Num(n) => member(member(j@, "sizes"@)->0, "width"@) == Some(
                        Json::Number(n as int),
                    ),
                    NumOrStr::Str(s) => str_member(member(j@, "sizes"@)->0, "width"@) == Some(s@),
                }
            },
            r is None ==> str_member(j@, "imgA"@) is None || str_member(j@, "imgB"@) is None
                || opt_str_member(j@, "imgATitle"@) is None || opt_str_member(j@, "imgBTitle"@) is None
                || opt_str_member(j@, "plot_title"@) is None || opt_str_member(j@, "slider_title"@) is None
                || member(j@, "sizes"@) is None || member(member(j@, "sizes"@)->0, "width"@) is None
                || !(member(member(j@, "sizes"@)->0, "width"@)->0 is Str || (member(
                member(j@, "sizes"@)->0,
                "width"@,
            )->0 is Number && 0 <= member(member(j@, "sizes"@)->0, "width"@)->0->Number_0 <= usize::MAX)),
    {
        let image1 = get_str_member(j, "imgA")?;
        let image2 = get_str_member(j, "imgB")?;
        let image1_title = get_opt_str_member(j, "imgATitle")?;
        let image2_title = get_opt_str_member(j, "imgBTitle")?;
        let plot_title = get_opt_str_member(j, "plot_title")?;
        let slider_title = get_opt_str_member(j, "slider_title")?;
        let sizes = get_member(j, "sizes")?;
        let width = get_member(sizes, "width")?;
        let width = match width {
            JsonValue::Number(n) => if 0 <= *n && *n <= usize::MAX as i128 {
                NumOrStr::Num(*n as usize)
            } else {
                return None;
            },
            JsonValue::Str(s) => NumOrStr::Str(s.clone()),
            _ => return None,
        };
        Some(
            BlendedImage {
                image1,
                image1_title,
                image2,
                image2_title,
                size: BlendedImageSliderSize { width },
                plot_title,
                slider_title,
            },
        )
    }
}

/// A Plotly chart: its data, layout and configuration as JSON.
#[derive(Debug, PartialEq)]
pub struct PlotlyChart {
    pub config: Option<JsonValue>,
    pub data: Vec<JsonValue>,
    pub layout: Option<JsonValue>,
    pub style: Option<Style>,
}

impl PlotlyChart {
    /// A chart of `data` with `layout` and the default configuration.
    pub fn with_layout_and_data(layout: JsonValue, data: Vec<JsonValue>) -> (r: PlotlyChart)
        ensures
            r.config is Some && r.config->0@ == plotly_default_config(),
            r.data == data,
            r.layout == Some(layout),
            r.style is None,
    {
        PlotlyChart { config: Some(PlotlyChart::default_config()), data, layout: Some(layout), style: None }
    }

    pub fn style(self, style: Style) -> (r: PlotlyChart)
        ensures
            r.config == self.config,
            r.data == self.data,
            r.layout == self.layout,
            r.style == Some(style),
    {
        let mut r = self;
        r.style = Some(style);
        r
    }

    /// The default configuration: the mode bar with only the image export.
    pub fn default_config() -> (j: JsonValue)
        ensures
            j@ == plotly_default_config(),
    {
        let s = json_str("toImage");
        let ghost sv = s@;
        let inner = JsonValue::Array(vec![s]);
        assert(inner@->Array_0 =~= seq![sv]);
        let ghost iv = inner@;
        let buttons = JsonValue::Array(vec![inner]);
        assert(buttons@->Array_0 =~= seq![iv]);
        let mut m = no_members();
        push_member(&mut m, "displayModeBar", bool_json(true));
        push_member(&mut m, "staticPlot", bool_json(false));
        push_member(&mut m, "dragmode", json_str("zoom"));
        push_member(&mut m, "modeBarButtons", buttons);
        let j = object_json(m);
        assert(j@->Object_0 =~= plotly_default_config()->Object_0);
        j
    }
}

fn bool_json(b: bool) -> (j: JsonValue)
    ensures
        j@ == Json::Bool(b),
{
    JsonValue::Bool(b)
}

/// The default configuration of a Plotly chart.
pub open spec fn plotly_default_config() -> Json {
    Json::Object(
        seq![
            ("displayModeBar"@, Json::Bool(true)),
            ("staticPlot"@, Json::Bool(false)),
            ("dragmode"@, Json::Str("zoom"@)),
            ("modeBarButtons"@, Json::Array(seq![Json::Array(seq![Json::Str("toImage"@)])])),
        ],
    )
}

impl ReactComponent for PlotlyChart {
    open spec fn spec_component_name() -> Seq<char> {
        "Plot"@
    }

    fn component_name() -> (r: &'static str) {
        "Plot"
    }
}

/// A Vega-Lite plot.
#[derive(Debug, PartialEq)]
pub struct VegaLitePlot {
    pub spec: JsonValue,
    pub actions: Option<JsonValue>,
    pub renderer: Option<VegaLiteRenderer>,
}

impl ReactComponent for VegaLitePlot {
    open spec fn spec_component_name() -> Seq<char> {
        "VegaLitePlot"@
    }

    fn component_name() -> (r: &'static str) {
        "VegaLitePlot"
    }
}

/// A table of differential expression, as JSON.
#[derive(Debug, PartialEq)]
pub struct DifferentialExpressionTable {
    pub table: JsonValue,
}

impl ReactComponent for DifferentialExpressionTable {
    open spec fn spec_component_name() -> Seq<char> {
        "DifferentialExpressionTable"@
    }

    fn component_name() -> (r: &'static str) {
        "DifferentialExpressionTable"
    }
}

} // verus!
