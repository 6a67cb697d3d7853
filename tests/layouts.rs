use tenx_websummary::components::{
    ButtonSelector, ButtonSelectorOption, ButtonSelectorProps, ButtonSelectoryType, CollapsablePanel,
    CssAlign, DropdownOption, DropdownSelector, DropdownSelectorProps, Heading, HeroMetric,
    HtmlFragment, InlineTextAlert, LinkedText, Title, TwoColumn, WithTitle,
};
use tenx_websummary::data_key::{index_data_key, join_data_key};
use tenx_websummary::layout::{Card, CardWidth, DynGrid, GridLayout, Tabs};
use tenx_websummary::HtmlTemplate;

fn metrics(n: usize) -> Vec<HeroMetric> {
    (0..n).map(|i| HeroMetric::new(&format!("m{i}"), "1")).collect()
}

#[test]
fn grid_of_five_in_rows_of_two_has_three_rows_the_last_with_one() {
    let grid = DynGrid::with_elements(metrics(5), GridLayout::MaxCols(2));
    let html = grid.template(None);
    assert_eq!(html.matches("<div class=\"row\">").count(), 3);
    let last_row = html.rsplit("<div class=\"row\">").next().unwrap();
    assert_eq!(last_row.matches("col-sm-6").count(), 1);
    assert!(last_row.contains("grid_data[4]"));
}

#[test]
fn grid_of_six_in_rows_of_three_has_two_full_rows() {
    let grid = DynGrid::with_elements(metrics(6), GridLayout::MaxCols(3));
    let html = grid.template(Some("g".to_string()));
    assert_eq!(html.matches("<div class=\"row\">").count(), 2);
    assert_eq!(html.matches("col-sm-4").count(), 6);
    let first = html.find("g.grid_data[0]").unwrap();
    let second = html.find("g.grid_data[1]").unwrap();
    let sixth = html.find("g.grid_data[5]").unwrap();
    assert!(first < second && second < sixth);
}

#[test]
fn grid_with_zero_columns_has_no_rows() {
    let grid = DynGrid::with_elements(metrics(3), GridLayout::MaxCols(0));
    assert_eq!(grid.template(None), "");
    let table = DynGrid::with_elements(metrics(3), GridLayout::MaxColsNonResponsive(0));
    assert_eq!(table.template(None), "<table><tbody></tbody></table>");
}

#[test]
fn empty_grid_has_no_rows() {
    let grid = DynGrid::new(GridLayout::MaxCols(2));
    assert_eq!(grid.template(None), "");
}

#[test]
fn column_classes_follow_the_column_count() {
    assert_eq!(GridLayout::MaxCols(2).col_class(), "col-sm-6");
    assert_eq!(GridLayout::MaxCols(3).col_class(), "col-sm-4");
    assert_eq!(GridLayout::MaxCols(4).col_class(), "col-sm-3");
    assert_eq!(GridLayout::MaxCols(6).col_class(), "col-sm-2");
    assert_eq!(GridLayout::MaxCols(5).col_class(), "col");
}

#[test]
fn non_responsive_grid_is_a_table() {
    let grid = DynGrid::with_elements(metrics(3), GridLayout::MaxColsNonResponsive(2));
    assert_eq!(
        grid.template(None),
        "<table><tbody><tr><td><div data-key=\"grid_data[0]\" data-component=\"Metric\"></div></td>\n<td><div data-key=\"grid_data[1]\" data-component=\"Metric\"></div></td></tr>\n<tr><td><div data-key=\"grid_data[2]\" data-component=\"Metric\"></div></td></tr></tbody></table>"
    );
}

#[test]
fn tabs_patch_keys_and_activate_the_first() {
    let tabs = Tabs::new()
        .tab("One", HeroMetric::new("a", "1"))
        .tab("Two", HeroMetric::new("b", "2"));
    assert_eq!(
        tabs.template(Some("t".to_string())),
        "<div class=\"tabs-wrapper\" data-default-active-key=\"tab_0\" data-id=\"main-tabs\">\n<div class=\"tab-wrapper\" data-event-key=\"tab_0\" data-title=\"One\">\n<div data-key=\"t.tab_data[0]\" data-component=\"Metric\"></div>\n</div>\n<div class=\"tab-wrapper\" data-event-key=\"tab_1\" data-title=\"Two\">\n<div data-key=\"t.tab_data[1]\" data-component=\"Metric\"></div>\n</div>\n</div>"
    );
}

#[test]
fn dropdown_keys_options_and_props() {
    let d = DropdownSelector {
        props: DropdownSelectorProps { label: None, align: CssAlign::Left },
        options: vec![DropdownOption { name: "A".to_string(), component: HeroMetric::new("a", "1") }],
    };
    assert_eq!(
        d.template(Some("sel".to_string())),
        "<div data-key=\"sel.props\" data-component=\"DropdownSelector\"><div class=\"dropdown-wrapper\" name=\"A\"><div data-key=\"sel.options[0].component\" data-component=\"Metric\"></div></div></div>"
    );
}

#[test]
fn button_selector_keys_options_and_props() {
    let b = ButtonSelector {
        props: ButtonSelectorProps { ty: ButtonSelectoryType::Compact },
        options: vec![
            ButtonSelectorOption { name: "A".to_string(), component: HeroMetric::new("a", "1") },
            ButtonSelectorOption { name: "B".to_string(), component: HeroMetric::new("b", "2") },
        ],
    };
    assert_eq!(
        b.template(None),
        "<div data-key=\"props\" data-component=\"ButtonSelector\"><div name=\"A\"><div data-key=\"options[0].component\" data-component=\"Metric\"></div></div>\n<div name=\"B\"><div data-key=\"options[1].component\" data-component=\"Metric\"></div></div></div>"
    );
}

#[test]
fn inline_alert_keys_props_and_children() {
    let a = InlineTextAlert::warning("careful");
    assert_eq!(
        a.template(Some("alert".to_string())),
        "<div data-key=\"alert.parent_props\" data-component=\"InlineAlert\">\n<div data-key=\"alert.children\" data-component=\"HtmlFragment\"></div>\n</div>"
    );
    let p = CollapsablePanel::with_title_and_content("More", HtmlFragment::new("<p>x</p>"));
    assert_eq!(p.parent_props.title, "More");
    assert_eq!(
        p.template(None),
        "<div data-key=\"parent_props\" data-component=\"CollapsablePanel\">\n<div data-key=\"children\" data-component=\"HtmlFragment\"></div>\n</div>"
    );
}

#[test]
fn heading_and_link_render_inline() {
    assert_eq!(Heading::h2("Summary").template(None), "<h2>Summary</h2>");
    let l = LinkedText { link: "https://x".to_string(), text: "x".to_string() };
    assert_eq!(l.html(), "<a href=\"https://x\">x</a>");
}

#[test]
fn card_and_option_wrap_or_vanish() {
    let c = Card::with_width(HeroMetric::new("a", "1"), CardWidth::Full);
    assert_eq!(
        c.template(Some("k".to_string())),
        "<div class=\"summary_row\">\n<div data-key=\"k\" data-component=\"Metric\"></div>\n</div>"
    );
    let half = Card::half_width("text".to_string());
    assert_eq!(half.template(None), "<div class=\"summary_card\">\ntext\n</div>");
    let none: Option<HeroMetric> = None;
    assert_eq!(none.template(None), "");
    let some = Some(HeroMetric::new("a", "1"));
    assert_eq!(
        some.template(Some("k".to_string())),
        "<div data-key=\"k\" data-component=\"Metric\"></div>"
    );
}

#[test]
fn two_column_and_with_title_rows() {
    let t = TwoColumn { left: HeroMetric::new("a", "1"), right: HeroMetric::new("b", "2") };
    assert_eq!(
        t.template(None),
        "<div class=\"row\">\n<div class=\"col\">\n<div data-key=\"left\" data-component=\"Metric\"></div>\n</div>\n<div class=\"col\">\n<div data-key=\"right\" data-component=\"Metric\"></div>\n</div>\n</div>\n"
    );
    let w = WithTitle::new(Title::new("Cells"), HeroMetric::new("a", "1"));
    assert_eq!(
        w.template(Some("w".to_string())),
        "<div class=\"row\">\n<div class=\"col\">\n<div data-key=\"w.title\" data-component=\"HeaderWithHelp\"></div>\n</div>\n</div>\n<div class=\"row\">\n<div class=\"col\">\n<div data-key=\"w.inner\" data-component=\"Metric\"></div>\n</div>\n</div>\n"
    );
}

#[test]
fn data_keys_join_fields_and_positions() {
    assert_eq!(join_data_key(&None, "a"), "a");
    assert_eq!(join_data_key(&Some("x.y".to_string()), "a"), "x.y.a");
    assert_eq!(index_data_key("list", 12), "list[12]");
}
