//! Forms: typed inputs with their default widgets, field validation and the
//! assembly of a form that is redisplayed with the feedback of each field.
use vstd::prelude::*;
use crate::components::{opt_view, ReactComponent, Title, TitleWithHelp};
use crate::composite::{add_field, col_block, rows_html, RowLayout};
use crate::data_key::{index_data_key, index_key, join_data_key, join_key, key_view};
use crate::html::leaf_html;
use crate::text::{join_strings, joined, signed_decimal, signed_decimal_string};
use crate::HtmlTemplate;
pub use crate::csv_table::{TableInput, TsvNoHeader};

verus! {

/// Feedback shown under an input.
#[derive(Debug, Clone, PartialEq, Eq)]
pub struct InputFeedback {
    pub error: Option<String>,
    pub text: Option<String>,
}

impl InputFeedback {
    /// Feedback with neither an error nor a text.
    pub fn empty() -> (r: InputFeedback)
        ensures
            r.error is None,
            r.text is None,
    {
        InputFeedback { error: None, text: None }
    }
}

impl ReactComponent for InputFeedback {
    open spec fn spec_component_name() -> Seq<char> {
        "InputFeedback"@
    }

    fn component_name() -> (r: &'static str) {
        "InputFeedback"
    }
}

/// The type of an input element.
#[derive(Debug, Clone, Copy, PartialEq, Eq, Structural)]
pub enum InputType {
    Button,
    CheckBox,
    File,
    Number,
    Radio,
    Range,
    Text,
}

/// An input element.
#[derive(Debug, Clone, PartialEq, Eq)]
pub struct InputElement {
    pub name: String,
    pub ty: InputType,
    pub value: Option<String>,
    pub min: Option<String>,
    pub max: Option<String>,
    pub step: Option<String>,
    pub placeholder: Option<String>,
    pub required: bool,
}

impl ReactComponent for InputElement {
    open spec fn spec_component_name() -> Seq<char> {
        "InputElement"@
    }

    fn component_name() -> (r: &'static str) {
        "InputElement"
    }
}

/// How a single choice is offered.
#[derive(Debug, Clone, Copy, PartialEq, Eq, Structural)]
pub enum SingleSelectType {
    Radio,
    Dropdown,
}

/// A choice of one option.
#[derive(Debug, Clone, PartialEq, Eq)]
pub struct SingleSelect {
    pub ty: SingleSelectType,
    pub name: String,
    pub options: Vec<String>,
    pub selected: Option<String>,
    pub required: Option<bool>,
}

impl ReactComponent for SingleSelect {
    open spec fn spec_component_name() -> Seq<char> {
        "SingleSelect"@
    }

    fn component_name() -> (r: &'static str) {
        "SingleSelect"
    }
}

/// How a multiple choice is offered.
#[derive(Debug, Clone, Copy, PartialEq, Eq, Structural)]
pub enum MultiSelectType {
    Checkbox,
    Select,
}

/// A choice of any number of options.
#[derive(Debug, Clone, PartialEq, Eq)]
pub struct MultiSelect {
    pub ty: MultiSelectType,
    pub name: String,
    pub options: Vec<String>,
    pub selected: Vec<String>,
    pub required: Option<bool>,
}

impl ReactComponent for MultiSelect {
    open spec fn spec_component_name() -> Seq<char> {
        "MultiSelect"@
    }

    fn component_name() -> (r: &'static str) {
        "MultiSelect"
    }
}

/// A text area.
#[derive(Debug, Clone, PartialEq, Eq)]
pub struct TextArea {
    pub rows: Option<u32>,
    pub name: String,
    pub placeholder: Option<String>,
    pub required: Option<bool>,
    pub value: Option<String>,
}

impl ReactComponent for TextArea {
    open spec fn spec_component_name() -> Seq<char> {
        "TextArea"@
    }

    fn component_name() -> (r: &'static str) {
        "TextArea"
    }
}

/// A spreadsheet with a fixed number of columns.
#[derive(Debug, Clone, PartialEq, Eq)]
pub struct SpreadsheetInput {
    pub name: String,
    pub column_labels: Option<Vec<String>>,
    pub n_rows: usize,
    pub n_cols: usize,
    pub max_height: Option<String>,
    pub value: Option<String>,
}

impl ReactComponent for SpreadsheetInput {
    open spec fn spec_component_name() -> Seq<char> {
        "SpreadsheetInput"@
    }

    fn component_name() -> (r: &'static str) {
        "SpreadsheetInput"
    }
}

/// The configuration of a spreadsheet input.
#[derive(Debug, Clone, PartialEq, Eq)]
pub struct SpreadsheetInputConfig {
    pub column_labels: Option<Vec<String>>,
    pub n_rows: usize,
    pub n_cols: usize,
    pub max_height: Option<String>,
    pub value: Option<String>,
}

/// Any input of a form.
#[derive(Debug, Clone, PartialEq, Eq)]
pub enum FormInput {
    Input(InputElement),
    TextArea(TextArea),
    MultiSelect(MultiSelect),
    SingleSelect(SingleSelect),
    Spreadsheet(SpreadsheetInput),
}

/// `f` with its input marked as not required; a spreadsheet is left as it is.
pub open spec fn optional_input(f: FormInput) -> FormInput {
    match f {
        FormInput::Input(v) => FormInput::Input(InputElement { required: false, ..v }),
        FormInput::TextArea(v) => FormInput::TextArea(TextArea { required: Some(false), ..v }),
        FormInput::MultiSelect(v) => FormInput::MultiSelect(MultiSelect { required: Some(false), ..v }),
        FormInput::SingleSelect(v) => FormInput::SingleSelect(
            SingleSelect { required: Some(false), ..v },
        ),
        FormInput::Spreadsheet(v) => FormInput::Spreadsheet(v),
    }
}

impl FormInput {
    /// Marks the input as not required.
    pub fn set_optional(&mut self)
        ensures
            *final(self) == optional_input(*old(self)),
    {
        match self {
            FormInput::Input(v) => v.required = false,
            FormInput::TextArea(v) => v.required = Some(false),
            FormInput::MultiSelect(v) => v.required = Some(false),
            FormInput::SingleSelect(v) => v.required = Some(false),
            FormInput::Spreadsheet(_) => {},
        }
    }

    /// The component name of the input.
    pub open spec fn spec_name(&self) -> Seq<char> {
        match self {
            FormInput::Input(_) => "InputElement"@,
            FormInput::TextArea(_) => "TextArea"@,
            FormInput::MultiSelect(_) => "MultiSelect"@,
            FormInput::SingleSelect(_) => "SingleSelect"@,
            FormInput::Spreadsheet(_) => "SpreadsheetInput"@,
        }
    }
}

impl HtmlTemplate for FormInput {
    open spec fn needs_key(&self) -> bool {
        false
    }

    fn requires_key(&self) -> (r: bool) {
        false
    }

    open spec fn spec_template(&self, data_key: Option<Seq<char>>) -> Seq<char> {
        leaf_html(join_key(data_key, "content"@), self.spec_name())
    }

    fn template(&self, data_key: Option<String>) -> (r: String) {
        let key = Some(join_data_key(&data_key, "content"));
        match self {
            FormInput::Input(v) => v.template(key),
            FormInput::TextArea(v) => v.template(key),
            FormInput::MultiSelect(v) => v.template(key),
            FormInput::SingleSelect(v) => v.template(key),
            FormInput::Spreadsheet(v) => v.template(key),
        }
    }
}

/// The outcome of validating one field.
#[derive(Debug, Clone, PartialEq, Eq)]
pub enum FieldValidationResult {
    Valid,
    Invalid { error: String },
}

impl FieldValidationResult {
    /// Valid on `Ok`, else invalid with the error's text.
    pub fn new(validation: Result<(), String>) -> (r: FieldValidationResult)
        ensures
            match validation {
                Ok(()) => r is Valid,
                Err(e) => r is Invalid && r->error == e,
            },
    {
        match validation {
            Ok(()) => FieldValidationResult::Valid,
            Err(e) => FieldValidationResult::Invalid { error: e },
        }
    }
}

/// One field of a form: its title, its input and the feedback under it.
#[derive(Debug, Clone, PartialEq, Eq)]
pub struct FormElement {
    pub title: Title,
    pub input: FormInput,
    pub feedback: InputFeedback,
}

impl FormElement {
    /// Shows the error of an invalid validation in the field's feedback.
    pub fn update(&mut self, validation: FieldValidationResult)
        ensures
            final(self).title == old(self).title,
            final(self).input == old(self).input,
            final(self).feedback.text == old(self).feedback.text,
            final(self).feedback.error == match validation {
                FieldValidationResult::Valid => old(self).feedback.error,
                FieldValidationResult::Invalid { error } => Some(error),
            },
    {
        match validation {
            FieldValidationResult::Valid => {},
            FieldValidationResult::Invalid { error } => {
                self.feedback.error = Some(error);
            },
        }
    }
}

/// The rows of a form field: title, input and feedback, one row each.
pub open spec fn element_rows(title: Seq<char>, input: Seq<char>, feedback: Seq<char>) -> Seq<
    (Seq<char>, Seq<Seq<char>>),
> {
    add_field(
        add_field(add_field(Seq::empty(), "title"@, col_block(title)), "input"@, col_block(input)),
        "feedback"@,
        col_block(feedback),
    )
}

impl HtmlTemplate for FormElement {
    open spec fn needs_key(&self) -> bool {
        false
    }

    fn requires_key(&self) -> (r: bool) {
        false
    }

    open spec fn spec_template(&self, data_key: Option<Seq<char>>) -> Seq<char> {
        rows_html(
            element_rows(
                self.title.spec_template(Some(join_key(data_key, "title"@))),
                self.input.spec_template(Some(join_key(data_key, "input"@))),
                self.feedback.spec_template(Some(join_key(data_key, "feedback"@))),
            ),
        )
    }

    fn template(&self, data_key: Option<String>) -> (r: String) {
        let mut layout = RowLayout::new(data_key);
        layout.field("title", None, &self.title);
        layout.field("input", None, &self.input);
        layout.field("feedback", None, &self.feedback);
        layout.finish()
    }
}

/// The HTTP method of a form.
#[derive(Debug, Clone, Copy, PartialEq, Eq, Structural)]
pub enum FormMethod {
    Get,
    Post,
}

/// Where and how a form is sent.
#[derive(Debug, Clone, PartialEq, Eq)]
pub struct FormConfig {
    pub url: String,
    pub method: FormMethod,
}

/// A form, as submitted or as redisplayed with the feedback of its fields.
#[derive(Debug, Clone, PartialEq, Eq)]
pub struct Form {
    pub config: FormConfig,
    pub elements: Vec<FormElement>,
}

/// A form with the verdict on its fields.
#[derive(Debug, Clone, PartialEq, Eq)]
pub enum FormValidationResult {
    Valid(Form),
    Invalid(Form),
}

/// The form of a validation result, valid or not.
pub open spec fn form_of(r: FormValidationResult) -> Form {
    match r {
        FormValidationResult::Valid(f) => f,
        FormValidationResult::Invalid(f) => f,
    }
}

impl FormValidationResult {
    /// The form, valid or not.
    pub fn inner(self) -> (r: Form)
        ensures
            r == form_of(self),
    {
        match self {
            FormValidationResult::Valid(f) => f,
            FormValidationResult::Invalid(f) => f,
        }
    }
}

/// The markup of a form whose fields render to `children`.
pub open spec fn form_html(key: Option<Seq<char>>, children: Seq<Seq<char>>) -> Seq<char> {
    "<div data-key=\""@ + join_key(key, "config"@) + "\" data-component=\"FormWrapper\">\n"@
        + joined(children, "\n"@) + "\n</div>"@
}

impl HtmlTemplate for Form {
    open spec fn needs_key(&self) -> bool {
        false
    }

    fn requires_key(&self) -> (r: bool) {
        false
    }

    open spec fn spec_template(&self, data_key: Option<Seq<char>>) -> Seq<char> {
        form_html(
            data_key,
            Seq::new(
                self.elements.len() as nat,
                |i: int|
                    self.elements[i].spec_template(
                        Some(index_key(join_key(data_key, "elements"@), i as nat)),
                    ),
            ),
        )
    }

    fn template(&self, data_key: Option<String>) -> (r: String) {
        let child_key = join_data_key(&data_key, "elements");
        let config_key = join_data_key(&data_key, "config");
        let ghost want = Seq::new(
            self.elements.len() as nat,
            |i: int|
                self.elements[i].spec_template(
                    Some(index_key(join_key(key_view(data_key), "elements"@), i as nat)),
                ),
        );
        let mut parts: Vec<String> = Vec::new();
        let mut i: usize = 0;
        while i < self.elements.len()
            invariant
                i <= self.elements.len(),
                child_key@ == join_key(key_view(data_key), "elements"@),
                want == Seq::new(
                    self.elements.len() as nat,
                    |i: int|
                        self.elements[i].spec_template(
                            Some(index_key(join_key(key_view(data_key), "elements"@), i as nat)),
                        ),
                ),
                parts.len() == i,
                forall|k: int| 0 <= k < i ==> parts[k]@ == want[k],
            decreases self.elements.len() - i,
        {
            let key = index_data_key(child_key.as_str(), i);
            parts.push(self.elements[i].template(Some(key)));
            i = i + 1;
        }
        assert(parts@.map_values(|s: String| s@) =~= want);
        let children = join_strings(&parts, "\n");
        let mut r = String::from_str("<div data-key=\"");
        r.append(config_key.as_str());
        r.append("\" data-component=\"FormWrapper\">\n");
        r.append(children.as_str());
        r.append("\n</div>");
        r
    }
}

/// Whether any of `v` is invalid.
pub open spec fn any_invalid(v: Seq<FieldValidationResult>) -> bool {
    exists|i: int| 0 <= i < v.len() && v[i] is Invalid
}

/// The feedback error of a field after `validation`.
pub open spec fn updated_error(before: Option<String>, validation: FieldValidationResult) -> Option<
    String,
> {
    match validation {
        FieldValidationResult::Valid => before,
        FieldValidationResult::Invalid { error } => Some(error),
    }
}

/// Overlays the outcome of each field's validation on the form; the form is
/// invalid where any field is, and is returned in full either way.
pub fn validate_form(form: Form, validations: Vec<FieldValidationResult>) -> (r: FormValidationResult)
    requires
        form.elements.len() == validations.len(),
    ensures
        (r is Invalid) == any_invalid(validations@),
        form_of(r).config == form.config,
        form_of(r).elements.len() == form.elements.len(),
        forall|i: int|
            0 <= i < form.elements.len() ==> {
                &&& #[trigger] form_of(r).elements[i].title == form.elements[i].title
                &&& form_of(r).elements[i].input == form.elements[i].input
                &&& form_of(r).elements[i].feedback.text == form.elements[i].feedback.text
                &&& form_of(r).elements[i].feedback.error == updated_error(
                    form.elements[i].feedback.error,
                    validations[i],
                )
            },
{
    let Form { config, elements } = form;
    let ghost old_elements = elements@;
    let mut elements = elements;
    let mut invalid = false;
    let mut i: usize = 0;
    while i < elements.len()
        invariant
            elements.len() == old_elements.len(),
            elements.len() == validations.len(),
            i <= elements.len(),
            invalid == (exists|k: int| 0 <= k < i && validations[k] is Invalid),
            forall|k: int|
                i <= k < elements.len() ==> #[trigger] elements[k] == old_elements[k],
            forall|k: int|
                0 <= k < i ==> {
                    &&& #[trigger] elements[k].title == old_elements[k].title
                    &&& elements[k].input == old_elements[k].input
                    &&& elements[k].feedback.text == old_elements[k].feedback.text
                    &&& elements[k].feedback.error == updated_error(
                        old_elements[k].feedback.error,
                        validations[k],
                    )
                },
        decreases elements.len() - i,
    {
        let v = match &validations[i] {
            FieldValidationResult::Valid => FieldValidationResult::Valid,
            FieldValidationResult::Invalid { error } => {
                invalid = true;
                FieldValidationResult::Invalid { error: error.clone() }
            },
        };
        let mut e = elements.remove(i);
        e.update(v);
        elements.insert(i, e);
        i = i + 1;
    }
    let form = Form { config, elements };
    if invalid {
        FormValidationResult::Invalid(form)
    } else {
        FormValidationResult::Valid(form)
    }
}

} // verus!

verus! {

/// A type that a form field can hold, with its default widget.
pub trait CreateFormInput: Sized {
    type Config;

    /// Whether `r` is the input that `config` makes for a field `name`
    /// holding `value`.
    spec fn creates(config: Self::Config, name: Seq<char>, value: Option<Self>, r: FormInput) -> bool;

    /// Whether `c` is the default configuration.
    spec fn is_default_config(c: Self::Config) -> bool;

    fn create_form_input(config: Self::Config, name: String, value: Option<Self>) -> (r: FormInput)
        ensures
            Self::creates(config, name@, value, r),
    ;

    fn default_config() -> (c: Self::Config)
        ensures
            Self::is_default_config(c),
    ;
}

/// The input of a field `name` holding `value`, made with the default
/// configuration.
pub fn default_form_input<T: CreateFormInput>(name: String, value: Option<T>) -> (r: FormInput)
    ensures
        exists|c: T::Config| T::is_default_config(c) && T::creates(c, name@, value, r),
{
    let c = T::default_config();
    let ghost cg = c;
    let r = T::create_form_input(c, name, value);
    assert(T::is_default_config(cg) && T::creates(cg, name@, value, r));
    r
}

/// Widgets for a string field.
#[derive(Debug, Clone, PartialEq, Eq)]
pub enum FormInputConfigString {
    TextArea { rows: Option<u32>, placeholder: Option<String> },
    Text { placeholder: Option<String> },
}

impl CreateFormInput for String {
    type Config = FormInputConfigString;

    open spec fn creates(
        config: FormInputConfigString,
        name: Seq<char>,
        value: Option<String>,
        r: FormInput,
    ) -> bool {
        match config {
            FormInputConfigString::TextArea { rows, placeholder } => r is TextArea && {
                let t = r->TextArea_0;
                &&& t.rows == rows
                &&& t.name@ == name
                &&& t.placeholder == placeholder
                &&& t.required == Some(true)
                &&& t.value == value
            },
            FormInputConfigString::Text { placeholder } => r is Input && {
                let e = r->Input_0;
                &&& e.name@ == name
                &&& e.ty == InputType::Text
                &&& e.value == value
                &&& e.min is None
                &&& e.max is None
                &&& e.step is None
                &&& e.placeholder == placeholder
                &&& e.required
            },
        }
    }

    open spec fn is_default_config(c: FormInputConfigString) -> bool {
        c == FormInputConfigString::Text { placeholder: None }
    }

    fn create_form_input(config: FormInputConfigString, name: String, value: Option<String>) -> (r:
        FormInput) {
        match config {
            FormInputConfigString::TextArea { rows, placeholder } => FormInput::TextArea(
                TextArea { rows, name, placeholder, required: Some(true), value },
            ),
            FormInputConfigString::Text { placeholder } => FormInput::Input(
                InputElement {
                    name,
                    ty: InputType::Text,
                    value,
                    min: None,
                    max: None,
                    step: None,
                    placeholder,
                    required: true,
                },
            ),
        }
    }

    fn default_config() -> (c: FormInputConfigString) {
        FormInputConfigString::Text { placeholder: None }
    }
}

/// Widgets for an integer field, with their bounds and step.
#[derive(Debug, Clone, Copy, PartialEq, Eq, Structural)]
pub enum FormInputConfigI64 {
    Slider { min: i64, max: i64, step: i64 },
    Input { min: i64, max: i64, step: i64 },
}

/// The decimal text of an optional integer.
pub open spec fn opt_decimal(v: Option<i64>) -> Option<Seq<char>> {
    match v {
        Some(x) => Some(signed_decimal(x as int)),
        None => None,
    }
}

impl CreateFormInput for i64 {
    type Config = FormInputConfigI64;

    open spec fn creates(config: FormInputConfigI64, name: Seq<char>, value: Option<i64>, r: FormInput) -> bool {
        let (ty, min, max, step) = match config {
            FormInputConfigI64::Slider { min, max, step } => (InputType::Range, min, max, step),
            FormInputConfigI64::Input { min, max, step } => (InputType::Number, min, max, step),
        };
        r is Input && {
            let e = r->Input_0;
            &&& e.name@ == name
            &&& e.ty == ty
            &&& opt_view(e.value) == opt_decimal(value)
            &&& opt_view(e.min) == Some(signed_decimal(min as int))
            &&& opt_view(e.max) == Some(signed_decimal(max as int))
            &&& opt_view(e.step) == Some(signed_decimal(step as int))
            &&& e.placeholder is None
            &&& e.required
        }
    }

    open spec fn is_default_config(c: FormInputConfigI64) -> bool {
        c == FormInputConfigI64::Input { min: i64::MIN, max: i64::MAX, step: 1 }
    }

    fn create_form_input(config: FormInputConfigI64, name: String, value: Option<i64>) -> (r:
        FormInput) {
        let value = match value {
            Some(x) => Some(signed_decimal_string(x)),
            None => None,
        };
        let (ty, min, max, step) = match config {
            FormInputConfigI64::Slider { min, max, step } => (InputType::Range, min, max, step),
            FormInputConfigI64::Input { min, max, step } => (InputType::Number, min, max, step),
        };
        FormInput::Input(
            InputElement {
                name,
                ty,
                value,
                min: Some(signed_decimal_string(min)),
                max: Some(signed_decimal_string(max)),
                step: Some(signed_decimal_string(step)),
                placeholder: None,
                required: true,
            },
        )
    }

    fn default_config() -> (c: FormInputConfigI64) {
        FormInputConfigI64::Input { min: i64::MIN, max: i64::MAX, step: 1 }
    }
}

impl<T: CreateFormInput> CreateFormInput for Option<T> {
    type Config = T::Config;

    open spec fn creates(config: T::Config, name: Seq<char>, value: Option<Option<T>>, r: FormInput) -> bool {
        exists|inner: FormInput|
            T::creates(
                config,
                name,
                match value {
                    Some(v) => v,
                    None => None,
                },
                inner,
            ) && r == optional_input(inner)
    }

    open spec fn is_default_config(c: T::Config) -> bool {
        T::is_default_config(c)
    }

    fn create_form_input(config: T::Config, name: String, value: Option<Option<T>>) -> (r:
        FormInput) {
        let flat = match value {
            Some(v) => v,
            None => None,
        };
        let mut input = T::create_form_input(config, name, flat);
        input.set_optional();
        input
    }

    fn default_config() -> (c: T::Config) {
        T::default_config()
    }
}

/// A field type with a check on its value.
pub trait FieldValidation {
    spec fn spec_validate(&self) -> FieldValidationResult;

    fn validate(&self) -> (r: FieldValidationResult)
        ensures
            r == self.spec_validate(),
    ;
}

impl FieldValidation for String {
    open spec fn spec_validate(&self) -> FieldValidationResult {
        FieldValidationResult::Valid
    }

    fn validate(&self) -> (r: FieldValidationResult) {
        FieldValidationResult::Valid
    }
}

impl FieldValidation for i64 {
    open spec fn spec_validate(&self) -> FieldValidationResult {
        FieldValidationResult::Valid
    }

    fn validate(&self) -> (r: FieldValidationResult) {
        FieldValidationResult::Valid
    }
}

impl<T: FieldValidation> FieldValidation for Option<T> {
    open spec fn spec_validate(&self) -> FieldValidationResult {
        match self {
            Some(v) => v.spec_validate(),
            None => FieldValidationResult::Valid,
        }
    }

    fn validate(&self) -> (r: FieldValidationResult) {
        match self {
            Some(v) => v.validate(),
            None => FieldValidationResult::Valid,
        }
    }
}

/// A record that can be entered through a form.
pub trait IntoHtmlForm: Sized {
    /// The form of the record type, filled with `value` where there is one.
    spec fn spec_form(value: Option<Self>) -> Form;

    /// The outcome of checking each field of the record, in field order.
    spec fn spec_validations(&self) -> Seq<FieldValidationResult>;

    fn into_html_form(value: Option<&Self>) -> (f: Form)
        ensures
            f == Self::spec_form(
                match value {
                    Some(v) => Some(*v),
                    None => None,
                },
            ),
    ;

    fn field_validations(&self) -> (v: Vec<FieldValidationResult>)
        ensures
            v@ == self.spec_validations(),
            v.len() == Self::spec_form(Some(*self)).elements.len(),
    ;
}

/// The empty form of a record type.
pub fn form<T: IntoHtmlForm>() -> (f: Form)
    ensures
        f == T::spec_form(None),
{
    T::into_html_form(None)
}

/// The form filled with `value`, before validation.
pub fn filled_form_pre_validation<T: IntoHtmlForm>(value: &T) -> (f: Form)
    ensures
        f == T::spec_form(Some(*value)),
{
    T::into_html_form(Some(value))
}

/// The form filled with `value`, each field showing the outcome of its check;
/// invalid where any field is, and returned in full either way.
pub fn validate<T: IntoHtmlForm>(value: &T) -> (r: FormValidationResult)
    ensures
        ({
            let f = T::spec_form(Some(*value));
            let v = value.spec_validations();
            &&& (r is Invalid) == any_invalid(v)
            &&& form_of(r).config == f.config
            &&& form_of(r).elements.len() == f.elements.len()
            &&& forall|i: int|
                0 <= i < f.elements.len() ==> {
                    &&& #[trigger] form_of(r).elements[i].title == f.elements[i].title
                    &&& form_of(r).elements[i].input == f.elements[i].input
                    &&& form_of(r).elements[i].feedback.text == f.elements[i].feedback.text
                    &&& form_of(r).elements[i].feedback.error == updated_error(
                        f.elements[i].feedback.error,
                        v[i],
                    )
                }
        }),
{
    let f = filled_form_pre_validation(value);
    let v = value.field_validations();
    validate_form(f, v)
}

/// How a record type is offered as a spreadsheet.
pub trait ConfigureSpreadsheet {
    /// The greatest height of the spreadsheet, as CSS
    fn max_height() -> Option<String>;

    /// The number of rows offered
    fn num_rows() -> usize;
}

/// The spreadsheet configuration of a record type with the given column
/// labels and initial text.
pub fn spreadsheet_config<T: ConfigureSpreadsheet>(column_labels: Vec<String>, value: Option<String>) -> (r:
    SpreadsheetInputConfig)
    ensures
        r.column_labels == Some(column_labels),
        r.n_cols == column_labels.len(),
        r.value == value,
{
    let n_cols = column_labels.len();
    SpreadsheetInputConfig {
        column_labels: Some(column_labels),
        n_rows: T::num_rows(),
        n_cols,
        max_height: T::max_height(),
        value,
    }
}

/// The configuration of a text area.
#[derive(Debug, Clone, PartialEq, Eq)]
pub struct TextAreaConfig {
    pub rows: Option<u32>,
    pub placeholder: Option<String>,
}

impl TextAreaConfig {
    /// No row count and no placeholder.
    pub fn empty() -> (r: TextAreaConfig)
        ensures
            r.rows is None,
            r.placeholder is None,
    {
        TextAreaConfig { rows: None, placeholder: None }
    }
}

/// The title of a form field from the lines of its documentation: the first
/// non-blank line, trimmed, with the other non-blank lines as help; the
/// field's name where there is no documentation.
pub open spec fn doc_title(name: Seq<char>, lines: Seq<Seq<char>>) -> (Seq<char>, Seq<char>) {
    let kept = lines.map_values(|l: Seq<char>| trimmed(l)).filter(|l: Seq<char>| l.len() > 0);
    if kept.len() == 0 {
        (name, Seq::empty())
    } else {
        (kept[0], joined(kept.skip(1), "\n"@))
    }
}

/// The text of `s` without leading and trailing white space.
pub uninterp spec fn trimmed(s: Seq<char>) -> Seq<char>;

/// Relies on `str::trim`: the result depends on the characters alone.
#[verifier::external_body]
fn trim_string(s: &str) -> (r: String)
    ensures
        r@ == trimmed(s@),
{
    s.trim().to_string()
}

/// The title of the field `name` documented by `doc_lines`.
pub fn field_title(name: &str, doc_lines: &Vec<String>) -> (r: Title)
    ensures
        r is WithHelp,
        (r->WithHelp_0.title@, r->WithHelp_0.help@) == doc_title(
            name@,
            doc_lines@.map_values(|s: String| s@),
        ),
{
    let ghost lines = doc_lines@.map_values(|s: String| s@);
    let ghost trimmed_lines = lines.map_values(|l: Seq<char>| trimmed(l));
    let mut kept: Vec<String> = Vec::new();
    let mut i: usize = 0;
    while i < doc_lines.len()
        invariant
            i <= doc_lines.len(),
            lines == doc_lines@.map_values(|s: String| s@),
            trimmed_lines == lines.map_values(|l: Seq<char>| trimmed(l)),
            kept@.map_values(|s: String| s@) == trimmed_lines.subrange(0, i as int).filter(
                |l: Seq<char>| l.len() > 0,
            ),
        decreases doc_lines.len() - i,
    {
        let t = trim_string(doc_lines[i].as_str());
        let ghost before = kept@;
        proof {
            let next = trimmed_lines.subrange(0, i + 1);
            assert(next.drop_last() =~= trimmed_lines.subrange(0, i as int));
            reveal(Seq::filter);
        }
        if t.as_str().unicode_len() > 0 {
            kept.push(t);
            assert(kept@.map_values(|s: String| s@) =~= before.map_values(|s: String| s@).push(
                trimmed_lines[i as int],
            ));
        }
        i = i + 1;
    }
    assert(trimmed_lines.subrange(0, doc_lines.len() as int) =~= trimmed_lines);
    let ghost kv = kept@.map_values(|s: String| s@);
    if kept.len() == 0 {
        Title::new(name)
    } else {
        let first = kept.remove(0);
        assert(first@ == kv[0]);
        assert(kept@.map_values(|s: String| s@) =~= kv.skip(1));
        let help = join_strings(&kept, "\n");
        Title::WithHelp(TitleWithHelp { title: first, help })
    }
}

} // verus!

verus! {

/// A type whose values are offered as the options of a select. Users
/// implement it for their own enums.
pub trait EnumSelect: Sized {
    /// All the values, in the order in which they are offered.
    fn variants() -> Vec<Self>;

    /// The text under which a value is offered.
    fn value(&self) -> String;
}

/// The texts of all the values of `T`, in the order of `T::variants`.
pub fn options<T: EnumSelect>() -> Vec<String> {
    let vs = T::variants();
    let mut out: Vec<String> = Vec::new();
    let mut i: usize = 0;
    while i < vs.len()
        invariant
            i <= vs.len(),
            out.len() == i,
        decreases vs.len() - i,
    {
        out.push(vs[i].value());
        i = i + 1;
    }
    out
}

impl<T: EnumSelect> FieldValidation for T {
    open spec fn spec_validate(&self) -> FieldValidationResult {
        FieldValidationResult::Valid
    }

    fn validate(&self) -> (r: FieldValidationResult) {
        FieldValidationResult::Valid
    }
}

impl<T: EnumSelect> CreateFormInput for T {
    type Config = SingleSelectType;

    open spec fn creates(config: SingleSelectType, name: Seq<char>, value: Option<T>, r: FormInput) -> bool {
        r is SingleSelect && {
            let s = r->SingleSelect_0;
            &&& s.ty == config
            &&& s.name@ == name
            &&& (s.selected is Some <==> value is Some)
            &&& s.required == Some(true)
        }
    }

    open spec fn is_default_config(c: SingleSelectType) -> bool {
        c == SingleSelectType::Radio
    }

    fn create_form_input(config: SingleSelectType, name: String, value: Option<T>) -> (r: FormInput) {
        let selected = match value {
            Some(v) => Some(v.value()),
            None => None,
        };
        FormInput::SingleSelect(
            SingleSelect { ty: config, name, options: options::<T>(), selected, required: Some(true) },
        )
    }

    fn default_config() -> (c: SingleSelectType) {
        SingleSelectType::Radio
    }
}

} // verus!
