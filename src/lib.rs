//! Renders structured report data into HTML fragments whose `data-key`
//! attributes address the matching values of the report's JSON document.
use vstd::prelude::*;

pub mod components;
pub mod composite;
pub mod csv_table;
pub mod data_key;
pub mod form;
pub mod generate_html;
pub mod html;
pub mod image_base64_encode;
pub mod json;
pub mod laws;
pub mod layout;
pub mod scrape_json;
pub mod text;

use crate::components::WsNavBar;
use crate::data_key::key_view;
use crate::json::{
    json_equal, no_members, null_json, object_json, opt_str_json, opt_string_to_json, push_member,
    string_json, Json, JsonValue, ToJson,
};
use crate::text::{padded3, padded3_string};

verus! {

/// A node of the report that renders to an HTML fragment, given the data key
/// under which its JSON value is found.
pub trait HtmlTemplate {
    /// Whether rendering needs a data key: true of the nodes that client code
    /// hydrates from the JSON document.
    spec fn needs_key(&self) -> bool;

    /// The fragment this node renders to under `data_key`.
    spec fn spec_template(&self, data_key: Option<Seq<char>>) -> Seq<char>;

    /// Whether rendering needs a data key.
    fn requires_key(&self) -> (r: bool)
        ensures
            r == self.needs_key(),
    ;

    fn template(&self, data_key: Option<String>) -> (r: String)
        requires
            self.needs_key() ==> data_key is Some,
        ensures
            r@ == self.spec_template(key_view(data_key)),
    ;
}

impl HtmlTemplate for String {
    open spec fn needs_key(&self) -> bool {
        false
    }

    fn requires_key(&self) -> (r: bool) {
        false
    }

    open spec fn spec_template(&self, data_key: Option<Seq<char>>) -> Seq<char> {
        self@
    }

    fn template(&self, data_key: Option<String>) -> (r: String) {
        self.clone()
    }
}


/// The prefix of every reference into the shared resources.
pub const RESOURCES_PREFIX: &'static str = "_resources";

/// The reference to the shared resource with id `id`: `_resources_` followed
/// by the id, zero-padded to three digits.
pub open spec fn resource_ref(id: nat) -> Seq<char> {
    RESOURCES_PREFIX@ + seq!['_'] + padded3(id)
}

/// The position of the first value equal to `v` in `s`; `s.len()` if none is.
pub open spec fn first_position(s: Seq<Json>, v: Json) -> nat
    decreases s.len(),
{
    if s.len() == 0 {
        0
    } else if s[0] == v {
        0
    } else {
        1 + first_position(s.skip(1), v)
    }
}

/// The stored values and the reference after inserting `v` into a store
/// holding `s`: an equal value already there is shared, otherwise `v` gets
/// the next id.
pub open spec fn inserted(s: Seq<Json>, v: Json) -> (Seq<Json>, Seq<char>) {
    if first_position(s, v) < s.len() {
        (s, resource_ref(first_position(s, v)))
    } else {
        (s.push(v), resource_ref(s.len()))
    }
}

pub proof fn lemma_first_position(s: Seq<Json>, v: Json, i: int)
    requires
        0 <= i <= s.len(),
        forall|k: int| 0 <= k < i ==> s[k] != v,
        i == s.len() || s[i] == v,
    ensures
        first_position(s, v) == i,
    decreases s.len(),
{
    if s.len() > 0 && i > 0 {
        assert forall|k: int| 0 <= k < i - 1 implies s.skip(1)[k] != v by {
            assert(s.skip(1)[k] == s[k + 1]);
        }
        lemma_first_position(s.skip(1), v, i - 1);
    }
}

/// A store of large values held once each and referenced by id, so that a
/// value used in several places of a document is written into it once.
pub struct SharedResources {
    values: Vec<JsonValue>,
}

impl SharedResources {
    /// The stored values, the value with id `i` at position `i`.
    pub closed spec fn view(&self) -> Seq<Json> {
        self.values@.map_values(|v: JsonValue| v@)
    }

    pub fn new() -> (r: SharedResources)
        ensures
            r@ == Seq::<Json>::empty(),
    {
        let r = SharedResources { values: Vec::new() };
        assert(r@ =~= Seq::<Json>::empty());
        r
    }

    /// Number of stored values.
    pub fn len(&self) -> (r: usize)
        ensures
            r == self@.len(),
    {
        self.values.len()
    }

    /// Stores `value` unless an equal value is stored already, and returns
    /// the reference to the stored one.
    pub fn insert(&mut self, value: JsonValue) -> (r: String)
        ensures
            (final(self)@, r@) == inserted(old(self)@, value@),
    {
        let ghost s = self@;
        let mut i: usize = 0;
        while i < self.values.len()
            invariant
                s == self@,
                i <= self.values.len(),
                forall|k: int| 0 <= k < i ==> s[k] != value@,
            decreases self.values.len() - i,
        {
            if json_equal(&self.values[i], &value) {
                proof {
                    lemma_first_position(s, value@, i as int);
                }
                return resource_ref_string(i);
            }
            i = i + 1;
        }
        proof {
            lemma_first_position(s, value@, s.len() as int);
        }
        let id = self.values.len();
        self.values.push(value);
        assert(self@ =~= s.push(value@));
        resource_ref_string(id)
    }
}

fn resource_ref_string(id: usize) -> (r: String)
    ensures
        r@ == resource_ref(id as nat),
{
    let mut r = String::from_str(RESOURCES_PREFIX);
    r.append("_");
    let p = padded3_string(id);
    r.append(p.as_str());
    proof {
        reveal_strlit("_");
    }
    r
}

/// The members of the store's JSON object: each value under its id.
pub open spec fn resources_json(s: Seq<Json>) -> Json {
    Json::Object(Seq::new(s.len(), |i: int| (padded3(i as nat), s[i])))
}

impl ToJson for SharedResources {
    open spec fn spec_json(&self) -> Json {
        resources_json(self@)
    }

    fn to_json(&self) -> (j: JsonValue) {
        let mut members: Vec<(String, JsonValue)> = Vec::new();
        let mut i: usize = 0;
        while i < self.values.len()
            invariant
                i <= self.values.len(),
                members.len() == i,
                forall|k: int|
                    0 <= k < i ==> members[k].0@ == padded3(k as nat) && members[k].1@
                        == self.values[k]@,
            decreases self.values.len() - i,
        {
            members.push((padded3_string(i), self.values[i].clone_value()));
            i = i + 1;
        }
        let j = JsonValue::Object(members);
        assert(j@->Object_0 =~= resources_json(self@)->Object_0);
        j
    }
}

/// A node that moves its large values into a shared store and keeps
/// references to them instead.
pub trait AddToSharedResource: Sized {
    /// How the node and the store change when the node's values move.
    spec fn moved(before: Self, store_before: Seq<Json>, after: Self, store_after: Seq<Json>) -> bool;

    fn add_to_shared_resource(&mut self, shared_resource: &mut SharedResources)
        ensures
            Self::moved(*old(self), old(shared_resource)@, *final(self), final(shared_resource)@),
    ;
}

/// `node` after its large values moved into `shared_resource`.
pub fn with_shared_resource<T: AddToSharedResource>(node: T, shared_resource: &mut SharedResources) -> (r: T)
    ensures
        T::moved(node, old(shared_resource)@, r, final(shared_resource)@),
{
    let mut node = node;
    node.add_to_shared_resource(shared_resource);
    node
}

/// Severity of a page-level alert.
#[derive(Debug, Clone, Copy, PartialEq, Eq, Structural)]
pub enum AlertLevel {
    Error,
    Warn,
    Info,
}

pub open spec fn alert_level_json(l: AlertLevel) -> Json {
    match l {
        AlertLevel::Error => Json::Str("ERROR"@),
        AlertLevel::Warn => Json::Str("WARN"@),
        AlertLevel::Info => Json::Str("INFO"@),
    }
}

/// An alert shown at the top of the page.
#[derive(Debug, Clone, PartialEq, Eq)]
pub struct Alert {
    pub level: AlertLevel,
    pub title: String,
    pub formatted_value: Option<String>,
    pub message: String,
}

impl ToJson for Alert {
    open spec fn spec_json(&self) -> Json {
        Json::Object(
            seq![
                ("level"@, alert_level_json(self.level)),
                ("title"@, Json::Str(self.title@)),
                ("formatted_value"@, opt_str_json(crate::components::opt_view(self.formatted_value))),
                ("message"@, Json::Str(self.message@)),
            ],
        )
    }

    fn to_json(&self) -> (j: JsonValue) {
        let level = match self.level {
            AlertLevel::Error => crate::json::json_str("ERROR"),
            AlertLevel::Warn => crate::json::json_str("WARN"),
            AlertLevel::Info => crate::json::json_str("INFO"),
        };
        let mut m = no_members();
        push_member(&mut m, "level", level);
        push_member(&mut m, "title", string_json(&self.title));
        push_member(&mut m, "formatted_value", opt_string_to_json(&self.formatted_value));
        push_member(&mut m, "message", string_json(&self.message));
        let j = object_json(m);
        assert(j@->Object_0 =~= self.spec_json()->Object_0);
        j
    }
}

/// The alerts of a page.
#[derive(Debug, Clone, PartialEq, Eq)]
pub struct Alerts {
    pub alerts: Vec<Alert>,
}

impl ToJson for Alerts {
    open spec fn spec_json(&self) -> Json {
        Json::Object(
            seq![("alarms"@, Json::Array(self.alerts@.map_values(|a: Alert| a.spec_json())))],
        )
    }

    fn to_json(&self) -> (j: JsonValue) {
        let mut out: Vec<JsonValue> = Vec::new();
        let mut i: usize = 0;
        while i < self.alerts.len()
            invariant
                i <= self.alerts.len(),
                out.len() == i,
                forall|k: int| 0 <= k < i ==> out[k]@ == self.alerts[k].spec_json(),
            decreases self.alerts.len() - i,
        {
            out.push(self.alerts[i].to_json());
            i = i + 1;
        }
        let arr = JsonValue::Array(out);
        assert(arr@->Array_0 =~= self.alerts@.map_values(|a: Alert| a.spec_json()));
        let mut m = no_members();
        push_member(&mut m, "alarms", arr);
        let j = object_json(m);
        assert(j@->Object_0 =~= self.spec_json()->Object_0);
        j
    }
}

/// The CSS class of the page's content container.
#[derive(Debug, Clone, PartialEq, Eq)]
pub struct SinglePageConfig {
    pub div_class: String,
}

impl SinglePageConfig {
    /// A fixed-width container.
    pub fn new() -> (r: SinglePageConfig)
        ensures
            r.div_class@ == "container"@,
    {
        SinglePageConfig { div_class: String::from_str("container") }
    }

    /// A container as wide as the page.
    pub fn full_width(self) -> (r: SinglePageConfig)
        ensures
            r.div_class@ == "container-fluid"@,
    {
        SinglePageConfig { div_class: String::from_str("container-fluid") }
    }
}

/// A whole page: navigation bar, alerts, content and shared resources.
pub struct SinglePageHtml<P> {
    pub nav_bar: Option<WsNavBar>,
    pub content: P,
    pub alerts: Alerts,
    pub config: SinglePageConfig,
    pub resources: SharedResources,
}

impl<P> SinglePageHtml<P> {
    pub fn from_content(content: P) -> (r: SinglePageHtml<P>)
        ensures
            r.nav_bar is None,
            r.content == content,
            r.alerts.alerts@.len() == 0,
            r.config.div_class@ == "container"@,
            r.resources@.len() == 0,
    {
        SinglePageHtml {
            nav_bar: None,
            content,
            alerts: Alerts { alerts: Vec::new() },
            config: SinglePageConfig::new(),
            resources: SharedResources::new(),
        }
    }

    pub fn nav_bar(self, nav_bar: WsNavBar) -> (r: SinglePageHtml<P>)
        ensures
            r.nav_bar == Some(nav_bar),
            r.content == self.content,
            r.alerts == self.alerts,
            r.config == self.config,
            r.resources == self.resources,
    {
        let mut r = self;
        r.nav_bar = Some(nav_bar);
        r
    }

    pub fn alerts(self, alerts: Vec<Alert>) -> (r: SinglePageHtml<P>)
        ensures
            r.nav_bar == self.nav_bar,
            r.content == self.content,
            r.alerts.alerts == alerts,
            r.config == self.config,
            r.resources == self.resources,
    {
        let mut r = self;
        r.alerts = Alerts { alerts };
        r
    }

    pub fn new(nav_bar: WsNavBar, content: P, alerts: Option<Vec<Alert>>) -> (r: SinglePageHtml<P>)
        ensures
            r.nav_bar == Some(nav_bar),
            r.content == content,
            r.alerts.alerts@ == match alerts {
                Some(a) => a@,
                None => Seq::<Alert>::empty(),
            },
            r.config.div_class@ == "container"@,
            r.resources@.len() == 0,
    {
        let alerts = match alerts {
            Some(a) => a,
            None => Vec::new(),
        };
        SinglePageHtml {
            nav_bar: Some(nav_bar),
            content,
            alerts: Alerts { alerts },
            config: SinglePageConfig::new(),
            resources: SharedResources::new(),
        }
    }

    pub fn full_width(self) -> (r: SinglePageHtml<P>)
        ensures
            r.nav_bar == self.nav_bar,
            r.content == self.content,
            r.alerts == self.alerts,
            r.config.div_class@ == "container-fluid"@,
            r.resources == self.resources,
    {
        let SinglePageHtml { nav_bar, content, alerts, config, resources } = self;
        SinglePageHtml { nav_bar, content, alerts, config: config.full_width(), resources }
    }

    pub fn resources(self, resources: SharedResources) -> (r: SinglePageHtml<P>)
        ensures
            r.nav_bar == self.nav_bar,
            r.content == self.content,
            r.alerts == self.alerts,
            r.config == self.config,
            r.resources == resources,
    {
        let mut r = self;
        r.resources = resources;
        r
    }
}

/// The markup of a page around its content's markup.
pub open spec fn page_html(has_nav_bar: bool, div_class: Seq<char>, content: Seq<char>) -> Seq<char> {
    (if has_nav_bar {
        "<div class=\"navbar-wrapper\"></div>\n<div class=\"namescription-wrapper\"></div>"@
    } else {
        Seq::empty()
    }) + "\n<div class=\"alert-wrapper\"></div>\n<div class=\""@ + div_class + "\">"@ + content
        + "</div>\n"@
}

impl<P: HtmlTemplate> HtmlTemplate for SinglePageHtml<P> {
    open spec fn needs_key(&self) -> bool {
        self.content.needs_key()
    }

    fn requires_key(&self) -> (r: bool) {
        self.content.requires_key()
    }

    open spec fn spec_template(&self, data_key: Option<Seq<char>>) -> Seq<char> {
        page_html(self.nav_bar is Some, self.config.div_class@, self.content.spec_template(data_key))
    }

    fn template(&self, data_key: Option<String>) -> (r: String) {
        let mut r = match self.nav_bar {
            Some(_) => String::from_str(
                "<div class=\"navbar-wrapper\"></div>\n<div class=\"namescription-wrapper\"></div>",
            ),
            None => String::new(),
        };
        let content = self.content.template(data_key);
        r.append("\n<div class=\"alert-wrapper\"></div>\n<div class=\"");
        r.append(self.config.div_class.as_str());
        r.append("\">");
        r.append(content.as_str());
        r.append("</div>\n");
        r
    }
}

/// The members that a flattened value contributes: those of an object.
pub open spec fn flattened(j: Json) -> Seq<(Seq<char>, Json)> {
    match j {
        Json::Object(m) => m,
        _ => Seq::empty(),
    }
}

impl<P: ToJson> ToJson for SinglePageHtml<P> {
    open spec fn spec_json(&self) -> Json {
        Json::Object(
            seq![(
                "sample"@,
                match self.nav_bar {
                    Some(n) => n.spec_json(),
                    None => Json::Null,
                },
            )] + flattened(self.content.spec_json()) + seq![
                ("alarms"@, self.alerts.spec_json()),
                ("_resources"@, self.resources.spec_json()),
            ],
        )
    }

    fn to_json(&self) -> (j: JsonValue) {
        let mut m = no_members();
        let nav = match &self.nav_bar {
            Some(n) => n.to_json(),
            None => null_json(),
        };
        push_member(&mut m, "sample", nav);
        let content = self.content.to_json();
        let ghost cv = content@;
        let ghost before = crate::json::members_view(m@);
        match content {
            JsonValue::Object(fields) => {
                let ghost fv = crate::json::members_view(fields@);
                let mut rest = fields;
                let total = rest.len();
                let mut k: usize = 0;
                assert(crate::json::members_view(rest@) =~= fv.subrange(0, total as int));
                while rest.len() > 0
                    invariant
                        total == fv.len(),
                        rest.len() + k == total,
                        crate::json::members_view(rest@) =~= fv.subrange(k as int, total as int),
                        crate::json::members_view(m@) =~= before + fv.subrange(0, k as int),
                    decreases rest.len(),
                {
                    let ghost rv = crate::json::members_view(rest@);
                    let (name, value) = rest.remove(0);
                    assert((name@, value@) == rv[0]);
                    assert(crate::json::members_view(rest@) =~= rv.skip(1));
                    push_member(&mut m, name.as_str(), value);
                    assert(fv.subrange(0, k + 1) =~= fv.subrange(0, k as int).push(fv[k as int]));
                    assert(rv[0] == fv[k as int]);
                    k = k + 1;
                }
                assert(fv.subrange(0, total as int) =~= fv);
                assert(cv->Object_0 =~= fv);
            },
            _ => {
                assert(crate::json::members_view(m@) =~= before + flattened(cv));
            },
        }
        push_member(&mut m, "alarms", self.alerts.to_json());
        push_member(&mut m, "_resources", self.resources.to_json());
        let j = object_json(m);
        assert(j@->Object_0 =~= self.spec_json()->Object_0);
        j
    }
}

} // verus!
