use tenx_websummary::components::{GenericTable, TableRow};
use tenx_websummary::csv_table::TableInput;
use tenx_websummary::form::{CreateFormInput, FieldValidation, FieldValidationResult, FormInput, TextAreaConfig};

fn svec(v: [&str; 3]) -> Vec<String> {
    v.into_iter().map(ToString::to_string).collect()
}

#[test]
fn test_from_csv_file() {
    let data = "\
Sample ID,Name,Valid Barcodes
S1,N1,83.2%
S2,N2,89.7%
";
    assert_eq!(
        GenericTable::from_csv_text(data, true).unwrap(),
        GenericTable {
            header: Some(svec(["Sample ID", "Name", "Valid Barcodes"])),
            rows: vec![
                TableRow(svec(["S1", "N1", "83.2%"])),
                TableRow(svec(["S2", "N2", "89.7%"]))
            ]
        }
    );
}

#[test]
fn test_from_csv_file2() {
    let data = "\
S1,N1,83.2%
S2,N2,89.7%
";
    assert_eq!(
        GenericTable::from_csv_text(data, false).unwrap(),
        GenericTable {
            header: None,
            rows: vec![
                TableRow(svec(["S1", "N1", "83.2%"])),
                TableRow(svec(["S2", "N2", "89.7%"]))
            ]
        }
    );
}

#[test]
fn tsv_input_reads_two_records_of_two_columns() {
    let input = TableInput::from_tsv("a\tb\nc\td\n".to_string(), 2);
    assert_eq!(input.validate(), FieldValidationResult::Valid);
    assert_eq!(
        input.deserialized().unwrap(),
        vec![
            vec!["a".to_string(), "b".to_string()],
            vec!["c".to_string(), "d".to_string()]
        ]
    );
}

#[test]
fn tsv_input_with_a_short_row_is_invalid_with_the_parser_error() {
    let input = TableInput::from_tsv("a\tb\nc\n".to_string(), 2);
    match input.validate() {
        FieldValidationResult::Invalid { error } => assert!(error.contains("fields")),
        FieldValidationResult::Valid => panic!("a short row must be invalid"),
    }
}

#[test]
fn tsv_input_of_the_wrong_width_is_invalid() {
    let input = TableInput::from_tsv("a\tb\tc\n".to_string(), 2);
    assert_eq!(
        input.deserialized(),
        Err("record 0 has 3 fields, expected 2".to_string())
    );
}

#[test]
fn table_input_is_a_text_area_holding_the_raw_text() {
    let input = TableInput::from_tsv("a\tb\n".to_string(), 2);
    let f = TableInput::create_form_input(TextAreaConfig::empty(), "table".to_string(), Some(input));
    match f {
        FormInput::TextArea(t) => {
            assert_eq!(t.value.as_deref(), Some("a\tb\n"));
            assert_eq!(t.required, Some(true));
        }
        _ => panic!("a table input is a text area"),
    }
}
