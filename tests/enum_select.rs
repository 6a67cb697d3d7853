use tenx_websummary::form::{options, CreateFormInput, EnumSelect, FormInput, SingleSelectType};

#[derive(Debug, PartialEq)]
enum Scaling {
    Log,
    Linear,
}

impl EnumSelect for Scaling {
    fn variants() -> Vec<Self> {
        vec![Scaling::Log, Scaling::Linear]
    }
    fn value(&self) -> String {
        match self {
            Scaling::Log => "Log".to_string(),
            Scaling::Linear => "Linear".to_string(),
        }
    }
}

#[derive(Debug, PartialEq)]
enum SnakeScaling {
    Log,
    Linear,
}

impl EnumSelect for SnakeScaling {
    fn variants() -> Vec<Self> {
        vec![SnakeScaling::Log, SnakeScaling::Linear]
    }
    fn value(&self) -> String {
        match self {
            SnakeScaling::Log => "log".to_string(),
            SnakeScaling::Linear => "linear".to_string(),
        }
    }
}

#[test]
fn test_enum_derive() {
    assert_eq!(Scaling::variants(), vec![Scaling::Log, Scaling::Linear]);
    assert_eq!(
        options::<Scaling>(),
        vec!["Log".to_string(), "Linear".to_string()]
    );
}

#[test]
fn test_enum_derive_rename() {
    assert_eq!(SnakeScaling::variants(), vec![SnakeScaling::Log, SnakeScaling::Linear]);
    assert_eq!(
        options::<SnakeScaling>(),
        vec!["log".to_string(), "linear".to_string()]
    );
}

#[test]
fn enum_fields_are_single_selects() {
    let input = Scaling::create_form_input(SingleSelectType::Dropdown, "scaling".to_string(), Some(Scaling::Linear));
    match input {
        FormInput::SingleSelect(s) => {
            assert_eq!(s.ty, SingleSelectType::Dropdown);
            assert_eq!(s.options, vec!["Log".to_string(), "Linear".to_string()]);
            assert_eq!(s.selected.as_deref(), Some("Linear"));
            assert_eq!(s.required, Some(true));
        }
        _ => panic!("an enum field is a single select"),
    }
}
