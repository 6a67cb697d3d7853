//! Splicing the rendered fragment and the JSON document into the page shell.
use vstd::prelude::*;
use crate::text::{replace_all, replaced};

verus! {

/// The build artifacts of the page shell.
pub struct WebSummaryBuildFiles {
    pub script_js: String,
    pub styles_css: String,
    pub template_html: String,
}

impl WebSummaryBuildFiles {
    pub fn new(script_js: String, styles_css: String, template_html: String) -> (r:
        WebSummaryBuildFiles)
        ensures
            r.script_js == script_js,
            r.styles_css == styles_css,
            r.template_html == template_html,
    {
        WebSummaryBuildFiles { script_js, styles_css, template_html }
    }
}

/// Where the template of the page comes from.
#[derive(Debug, Clone, PartialEq, Eq)]
pub enum TemplateInfo {
    /// The bundled template
    Default,
    /// `template.html` of the given directory where it exists, else the
    /// bundled one; includes are read from that directory
    Dynamic(String),
    /// The given template source
    Static(String),
}

/// The token of the script in the template.
pub const SCRIPT_TOKEN: &'static str = "[[ tenx-websummary-script.min.js ]]";

/// The token of the styles in the template.
pub const STYLES_TOKEN: &'static str = "[[ tenx-websummary-styles.min.css ]]";

/// The token of the JSON document in the template.
pub const DATA_TOKEN: &'static str = "[[ data.js ]]";

/// The token of the rendered fragment in the template.
pub const SUMMARY_TOKEN: &'static str = "[[ summary.html ]]";

/// The template with its four tokens replaced, one after the other: script,
/// styles, JSON document, then the fragment.
pub open spec fn filled(
    template: Seq<char>,
    script_js: Seq<char>,
    styles_css: Seq<char>,
    json_data: Seq<char>,
    summary: Seq<char>,
) -> Seq<char> {
    replaced(
        replaced(
            replaced(replaced(template, SCRIPT_TOKEN@, script_js), STYLES_TOKEN@, styles_css),
            DATA_TOKEN@,
            json_data,
        ),
        SUMMARY_TOKEN@,
        summary,
    )
}

/// The page: the template with the build files, the JSON document and the
/// fragment spliced in.
pub fn fill_template(
    template_src: &str,
    script_js: &str,
    styles_css: &str,
    json_data: &str,
    summary: &str,
) -> (r: String)
    ensures
        r@ == filled(template_src@, script_js@, styles_css@, json_data@, summary@),
{
    let a = replace_all(template_src, SCRIPT_TOKEN, script_js);
    let b = replace_all(a.as_str(), STYLES_TOKEN, styles_css);
    let c = replace_all(b.as_str(), DATA_TOKEN, json_data);
    replace_all(c.as_str(), SUMMARY_TOKEN, summary)
}

/// Expanding stops with an error once more includes than this were expanded.
pub const MAX_INCLUDES: usize = 100;

/// What to do next while expanding the includes of a fragment.
#[derive(Debug, Clone, PartialEq, Eq)]
pub enum IncludeStep {
    /// No include is left
    Done,
    /// Read the file `filename` of the template directory and put its text in
    /// place of every occurrence of `directive`
    Read { directive: String, filename: String },
    /// Too many includes were expanded
    TooDeep,
    /// An include was found but there is no template directory
    NoTemplateDir { directive: String },
}

/// The first include directive of a fragment, and the file it names.
pub uninterp spec fn include_match(s: Seq<char>) -> Option<(Seq<char>, Seq<char>)>;

/// Relies on `regex::Regex::captures` with the pattern
/// `\[\[ include (?P<filename>[a-zA-Z./_\d-]+) \]\]`: the leftmost match and
/// its `filename` group, which depend on the text alone.
#[verifier::external_body]
fn find_include(s: &str) -> (r: Option<(String, String)>)
    ensures
        match r {
            Some((d, f)) => include_match(s@) == Some((d@, f@)),
            None => include_match(s@) is None,
        },
{
    let re = regex::Regex::new(r"\[\[ include (?P<filename>[a-zA-Z./_\d-]+) \]\]").unwrap();
    re.captures(s).map(|m| (m[0].to_string(), m["filename"].to_string()))
}

/// The next step of expanding the includes of `summary`, after `count`
/// expansions.
pub fn include_step(summary: &str, count: usize, has_template_dir: bool) -> (r: IncludeStep)
    ensures
        count > MAX_INCLUDES ==> r is TooDeep,
        count <= MAX_INCLUDES ==> match include_match(summary@) {
            None => r is Done,
            Some((d, f)) => if has_template_dir {
                match r {
                    IncludeStep::Read { directive, filename } => directive@ == d && filename@ == f,
                    _ => false,
                }
            } else {
                match r {
                    IncludeStep::NoTemplateDir { directive } => directive@ == d,
                    _ => false,
                }
            },
        },
{
    if count > MAX_INCLUDES {
        return IncludeStep::TooDeep;
    }
    match find_include(summary) {
        None => IncludeStep::Done,
        Some((directive, filename)) => if has_template_dir {
            IncludeStep::Read { directive, filename }
        } else {
            IncludeStep::NoTemplateDir { directive }
        },
    }
}

/// `summary` with every occurrence of `directive` replaced by `contents`.
pub fn expand_include(summary: &str, directive: &str, contents: &str) -> (r: String)
    ensures
        r@ == replaced(summary@, directive@, contents@),
{
    replace_all(summary, directive, contents)
}

} // verus!
