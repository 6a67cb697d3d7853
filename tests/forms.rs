use tenx_websummary::components::Title;
use tenx_websummary::form::{
    default_form_input, field_title, validate_form, CreateFormInput, FieldValidationResult, Form,
    FormConfig, FormElement, FormInput, FormInputConfigI64, FormInputConfigString, FormMethod,
    FormValidationResult, InputFeedback, InputType, MultiSelect, MultiSelectType, SingleSelect,
    SingleSelectType,
};
use tenx_websummary::HtmlTemplate;

fn element(name: &str, docs: &[&str], input: FormInput) -> FormElement {
    let docs: Vec<String> = docs.iter().map(|d| d.to_string()).collect();
    FormElement { title: field_title(name, &docs), input, feedback: InputFeedback::empty() }
}

#[test]
fn test_struct_derive_get() {
    let form = Form {
        config: FormConfig { url: String::new(), method: FormMethod::Get },
        elements: vec![element("analysis_id", &[], default_form_input::<i64>("analysis_id".to_string(), None))],
    };
    assert_eq!(form.config.method, FormMethod::Get);
    assert_eq!(form.elements.len(), 1);
    match &form.elements[0].input {
        FormInput::Input(e) => {
            assert_eq!(e.ty, InputType::Number);
            assert_eq!(e.min.as_deref(), Some("-9223372036854775808"));
            assert_eq!(e.max.as_deref(), Some("9223372036854775807"));
            assert_eq!(e.step.as_deref(), Some("1"));
            assert!(e.required);
        }
        _ => panic!("an integer field is an input element"),
    }
}

#[test]
fn test_struct_derive() {
    let options = vec!["Log".to_string(), "Linear".to_string()];
    let form = Form {
        config: FormConfig { url: String::new(), method: FormMethod::Post },
        elements: vec![
            element("analysis_id", &[], i64::create_form_input(
                FormInputConfigI64::Input { min: i64::MIN, max: i64::MAX, step: 1 },
                "analysis_id".to_string(),
                Some(1000),
            )),
            element("metric", &[" Metric", "", " Enter a metric"], default_form_input::<String>(
                "metric".to_string(),
                Some("filtered_bcs".to_string()),
            )),
            element("scaling", &[], FormInput::SingleSelect(SingleSelect {
                ty: SingleSelectType::Radio,
                name: "scaling".to_string(),
                options: options.clone(),
                selected: Some("Log".to_string()),
                required: Some(true),
            })),
            element("scaling_set", &[], FormInput::MultiSelect(MultiSelect {
                ty: MultiSelectType::Checkbox,
                name: "scaling_set".to_string(),
                options,
                selected: vec!["Linear".to_string()],
                required: Some(true),
            })),
        ],
    };
    let analysis_id = 1000;
    let validations = vec![
        if analysis_id < 10000 {
            FieldValidationResult::Invalid { error: "Too small an analysis id".into() }
        } else {
            FieldValidationResult::Valid
        },
        FieldValidationResult::Valid,
        FieldValidationResult::Valid,
        FieldValidationResult::Valid,
    ];
    let result = validate_form(form, validations);
    assert!(matches!(result, FormValidationResult::Invalid(_)));
    let form = result.inner();
    assert_eq!(form.config.method, FormMethod::Post);
    assert_eq!(form.elements.len(), 4);
    assert_eq!(form.elements[0].feedback.error.as_deref(), Some("Too small an analysis id"));
    assert_eq!(form.elements[1].feedback.error, None);
    match &form.elements[0].input {
        FormInput::Input(e) => assert_eq!(e.value.as_deref(), Some("1000")),
        _ => panic!("an integer field is an input element"),
    }
    match &form.elements[1].title {
        Title::WithHelp(t) => {
            assert_eq!(t.title, "Metric");
            assert_eq!(t.help, "Enter a metric");
        }
        _ => panic!("documented fields have a title with help"),
    }
}

#[test]
fn all_valid_fields_make_a_valid_form() {
    let form = Form {
        config: FormConfig { url: "/submit".to_string(), method: FormMethod::Post },
        elements: vec![element("name", &[], default_form_input::<String>("name".to_string(), None))],
    };
    let result = validate_form(form, vec![FieldValidationResult::Valid]);
    assert!(matches!(result, FormValidationResult::Valid(_)));
}

#[test]
fn field_validation_from_a_result() {
    assert_eq!(FieldValidationResult::new(Ok(())), FieldValidationResult::Valid);
    assert_eq!(
        FieldValidationResult::new(Err("bad".to_string())),
        FieldValidationResult::Invalid { error: "bad".to_string() }
    );
}

#[test]
fn optional_fields_are_not_required() {
    let input = <Option<String>>::create_form_input(
        FormInputConfigString::TextArea { rows: Some(3), placeholder: None },
        "notes".to_string(),
        None,
    );
    match input {
        FormInput::TextArea(t) => {
            assert_eq!(t.required, Some(false));
            assert_eq!(t.rows, Some(3));
        }
        _ => panic!("a text area was asked for"),
    }
    let slider = <Option<i64>>::create_form_input(
        FormInputConfigI64::Slider { min: -5, max: 5, step: 2 },
        "level".to_string(),
        Some(Some(-3)),
    );
    match slider {
        FormInput::Input(e) => {
            assert_eq!(e.ty, InputType::Range);
            assert_eq!(e.value.as_deref(), Some("-3"));
            assert_eq!(e.min.as_deref(), Some("-5"));
            assert!(!e.required);
        }
        _ => panic!("a slider is an input element"),
    }
}

#[test]
fn undocumented_fields_are_titled_by_name() {
    match field_title("analysis_id", &vec!["   ".to_string()]) {
        Title::WithHelp(t) => {
            assert_eq!(t.title, "analysis_id");
            assert_eq!(t.help, "");
        }
        _ => panic!("titles without terms have help"),
    }
}

#[test]
fn form_renders_its_fields_under_the_elements_key() {
    let form = Form {
        config: FormConfig { url: String::new(), method: FormMethod::Get },
        elements: vec![element("n", &[], default_form_input::<i64>("n".to_string(), None))],
    };
    assert_eq!(
        form.template(Some("f".to_string())),
        "<div data-key=\"f.config\" data-component=\"FormWrapper\">\n<div class=\"row\">\n<div class=\"col\">\n<div data-key=\"f.elements[0].title\" data-component=\"HeaderWithHelp\"></div>\n</div>\n</div>\n<div class=\"row\">\n<div class=\"col\">\n<div data-key=\"f.elements[0].input.content\" data-component=\"InputElement\"></div>\n</div>\n</div>\n<div class=\"row\">\n<div class=\"col\">\n<div data-key=\"f.elements[0].feedback\" data-component=\"InputFeedback\"></div>\n</div>\n</div>\n\n</div>"
    );
}
