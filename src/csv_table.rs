//! Tables read from delimited text: CSV files for display, and tab-separated
//! text entered into a form.
use vstd::prelude::*;
use crate::components::GenericTable;
use crate::form::{
    CreateFormInput, FieldValidation, FieldValidationResult, FormInput, TextArea, TextAreaConfig,
};
use crate::text::decimal;

verus! {

/// The header and records that the `csv` crate reads from `text` with the
/// given header setting and delimiter, or the text of its error.
pub uninterp spec fn csv_records(text: Seq<char>, has_headers: bool, delimiter: u8) -> Result<
    (Seq<Seq<char>>, Seq<Seq<Seq<char>>>),
    Seq<char>,
>;

/// The model of what `read_delimited` returns.
pub open spec fn delimited_view(r: Result<(Vec<String>, Vec<Vec<String>>), String>) -> Result<
    (Seq<Seq<char>>, Seq<Seq<Seq<char>>>),
    Seq<char>,
> {
    match r {
        Ok((h, rows)) => Ok((h@.map_values(|s: String| s@), rows_view(rows@))),
        Err(e) => Err(e@),
    }
}

/// Relies on `csv::Reader::headers` and `csv::Reader::records` of a reader
/// built with the given header setting and delimiter: the fields of the
/// header (the first record where there is no header row) and of each
/// record, or the first error's text; all depend on the arguments alone.
#[verifier::external_body]
fn read_delimited(text: &str, has_headers: bool, delimiter: u8) -> (r: Result<(Vec<String>, Vec<Vec<String>>), String>)
    ensures
        delimited_view(r) == csv_records(text@, has_headers, delimiter),
{
    let mut rdr = csv::ReaderBuilder::new().has_headers(has_headers).delimiter(delimiter).from_reader(text.as_bytes());
    let header = rdr.headers().map_err(|e| e.to_string())?.iter().map(|f| f.to_string()).collect();
    let rows: Result<Vec<Vec<String>>, csv::Error> =
        rdr.records().map(|r| r.map(|rec| rec.iter().map(|f| f.to_string()).collect())).collect();
    Ok((header, rows.map_err(|e| e.to_string())?))
}

/// The model of rows of strings.
pub open spec fn rows_view(rows: Seq<Vec<String>>) -> Seq<Seq<Seq<char>>> {
    rows.map_values(|r: Vec<String>| r@.map_values(|s: String| s@))
}

impl GenericTable {
    /// A table read from CSV text, with its first record as the header
    /// where `has_headers` is set.
    pub fn from_csv_text(text: &str, has_headers: bool) -> (r: Result<GenericTable, String>)
        ensures
            match csv_records(text@, has_headers, 44) {
                Ok((h, rows)) => r is Ok && r->Ok_0@ == (
                    if has_headers {
                        Some(h)
                    } else {
                        None
                    },
                    rows,
                ),
                Err(e) => r is Err && r->Err_0@ == e,
            },
    {
        match read_delimited(text, has_headers, 44) {
            Ok((h, rows)) => {
                let ghost rv = rows_view(rows@);
                let header = if has_headers {
                    Some(h)
                } else {
                    None
                };
                let t = GenericTable::from_rows(rows, header);
                assert(t@.1 =~= rv);
                Ok(t)
            },
            Err(e) => Err(e),
        }
    }
}

/// A parser setting for tab-separated text without a header row.
#[derive(Debug, Clone, Copy, PartialEq, Eq, Structural)]
pub struct TsvNoHeader;

/// The error text for a record with the wrong number of fields.
pub open spec fn shape_error(record: nat, found: nat, expected: nat) -> Seq<char> {
    "record "@ + decimal(record) + " has "@ + decimal(found) + " fields, expected "@ + decimal(
        expected,
    )
}

/// The outcome of reading tab-separated `text` into records of `n_cols`
/// fields: the records, the parser's error, or the first record of another
/// shape.
pub open spec fn tsv_outcome(text: Seq<char>, n_cols: nat) -> Result<Seq<Seq<Seq<char>>>, Seq<char>> {
    match csv_records(text, false, 9) {
        Err(e) => Err(e),
        Ok((_, rows)) => if forall|i: int| 0 <= i < rows.len() ==> rows[i].len() == n_cols {
            Ok(rows)
        } else {
            let i = choose|i: int|
                0 <= i < rows.len() && rows[i].len() != n_cols && forall|k: int|
                    0 <= k < i ==> rows[k].len() == n_cols;
            Err(shape_error(i as nat, rows[i].len(), n_cols))
        },
    }
}

/// Tab-separated text entered into a form, with the records read from it.
#[derive(Debug, PartialEq, Eq)]
pub struct TableInput {
    raw_value: String,
    deserialized: Result<Vec<Vec<String>>, String>,
}

impl TableInput {
    /// The text as entered.
    pub closed spec fn raw(&self) -> Seq<char> {
        self.raw_value@
    }

    /// The records read from the text, or the error text.
    pub closed spec fn outcome(&self) -> Result<Seq<Seq<Seq<char>>>, Seq<char>> {
        match self.deserialized {
            Ok(rows) => Ok(rows_view(rows@)),
            Err(e) => Err(e@),
        }
    }

    /// Reads `src` as tab-separated records of `n_cols` fields each.
    pub fn from_tsv(src: String, n_cols: usize) -> (r: TableInput)
        ensures
            r.raw() == src@,
            r.outcome() == tsv_outcome(src@, n_cols as nat),
    {
        let deserialized = match read_delimited(src.as_str(), false, 9) {
            Err(e) => Err(e),
            Ok((_, rows)) => {
                let ghost rv = rows_view(rows@);
                let mut i: usize = 0;
                let mut bad: Option<usize> = None;
                while i < rows.len()
                    invariant
                        rv == rows_view(rows@),
                        i <= rows.len(),
                        match bad {
                            None => forall|k: int| 0 <= k < i ==> rv[k].len() == n_cols,
                            Some(b) => b < rows.len() && rv[b as int].len() != n_cols && forall|k: int|
                                0 <= k < b ==> rv[k].len() == n_cols,
                        },
                    decreases rows.len() - i,
                {
                    match bad {
                        None => if rows[i].len() != n_cols {
                            bad = Some(i);
                        },
                        Some(_) => {},
                    }
                    i = i + 1;
                }
                match bad {
                    None => Ok(rows),
                    Some(b) => {
                        let mut e = String::from_str("record ");
                        e.append(crate::text::decimal_string(b).as_str());
                        e.append(" has ");
                        e.append(crate::text::decimal_string(rows[b].len()).as_str());
                        e.append(" fields, expected ");
                        e.append(crate::text::decimal_string(n_cols).as_str());
                        proof {
                            let j = choose|j: int|
                                0 <= j < rv.len() && rv[j].len() != n_cols && forall|k: int|
                                    0 <= k < j ==> rv[k].len() == n_cols;
                            if j < b {
                            } else if j > b {
                            }
                            assert(j == b);
                        }
                        Err(e)
                    },
                }
            },
        };
        TableInput { raw_value: src, deserialized }
    }

    /// The records, or the error text.
    pub fn deserialized(self) -> (r: Result<Vec<Vec<String>>, String>)
        ensures
            match r {
                Ok(rows) => self.outcome() == Ok::<Seq<Seq<Seq<char>>>, Seq<char>>(rows_view(rows@)),
                Err(e) => self.outcome() == Err::<Seq<Seq<Seq<char>>>, Seq<char>>(e@),
            },
    {
        self.deserialized
    }
}

impl FieldValidation for TableInput {
    closed spec fn spec_validate(&self) -> FieldValidationResult {
        match self.deserialized {
            Ok(_) => FieldValidationResult::Valid,
            Err(e) => FieldValidationResult::Invalid { error: e },
        }
    }

    fn validate(&self) -> (r: FieldValidationResult) {
        match &self.deserialized {
            Ok(_) => FieldValidationResult::Valid,
            Err(e) => FieldValidationResult::Invalid { error: e.clone() },
        }
    }
}

} // verus!

verus! {

impl CreateFormInput for TableInput {
    type Config = TextAreaConfig;

    open spec fn creates(config: TextAreaConfig, name: Seq<char>, value: Option<TableInput>, r: FormInput) -> bool {
        r is TextArea && {
            let t = r->TextArea_0;
            &&& t.rows == config.rows
            &&& t.name@ == name
            &&& t.placeholder == config.placeholder
            &&& t.required == Some(true)
            &&& match value {
                Some(v) => t.value is Some && t.value->0@ == v.raw(),
                None => t.value is None,
            }
        }
    }

    open spec fn is_default_config(c: TextAreaConfig) -> bool {
        c.rows is None && c.placeholder is None
    }

    fn create_form_input(config: TextAreaConfig, name: String, value: Option<TableInput>) -> (r:
        FormInput) {
        let value = match value {
            Some(v) => Some(v.raw_value),
            None => None,
        };
        FormInput::TextArea(
            TextArea {
                rows: config.rows,
                name,
                placeholder: config.placeholder,
                required: Some(true),
                value,
            },
        )
    }

    fn default_config() -> (c: TextAreaConfig) {
        TextAreaConfig::empty()
    }
}

} // verus!
