use tenx_websummary::components::{HeroMetric, RawImage};
use tenx_websummary::composite::RowLayout;
use tenx_websummary::json::{JsonValue, ToJson};
use tenx_websummary::layout::{DynGrid, Grid, GridLayout};
use tenx_websummary::HtmlTemplate;
use serde_json::Value;

fn to_serde(j: &JsonValue) -> Value {
    match j {
        JsonValue::Null => Value::Null,
        JsonValue::Bool(b) => Value::Bool(*b),
        JsonValue::Number(n) => Value::from(*n as i64),
        JsonValue::Str(s) => Value::String(s.clone()),
        JsonValue::Array(v) => Value::Array(v.iter().map(to_serde).collect()),
        JsonValue::Object(m) => {
            let mut map = serde_json::Map::new();
            for (k, v) in m {
                map.insert(k.clone(), to_serde(v));
            }
            Value::Object(map)
        }
    }
}

#[test]
fn test_html_template_simple() {
    const EXPECTED_TEMPLATE: &str = r#"<div class="row">
<div class="col">
<div data-key="num_cells" data-component="Metric"></div>
</div>
<div class="col">
<div data-key="umis_per_cell" data-component="Metric"></div>
</div>
</div>
<div class="row">
<div class="col">
<div data-key="valid_bc_read_frac" data-component="Metric"></div>
</div>
</div>
"#;
    let num_cells = HeroMetric::new("Number of cells", "3,487");
    let umis_per_cell = HeroMetric::new("Median UMIs per cell", "867");
    let valid_bc_read_frac = HeroMetric::new("Valid barcodes", "93.6%");
    let mut layout = RowLayout::new(None);
    layout.field("num_cells", Some("1"), &num_cells);
    layout.field("umis_per_cell", Some("1"), &umis_per_cell);
    layout.field("valid_bc_read_frac", None, &valid_bc_read_frac);
    assert_eq!(EXPECTED_TEMPLATE, layout.finish());
}

#[test]
fn test_html_template_nested() {
    const EXPECTED_TEMPLATE: &str = r#"<div class="row">
<div class="col">
<div class="row">
<div class="col">
<div data-key="left.num_cells" data-component="Metric"></div>
</div>
<div class="col">
<div data-key="left.umis_per_cell" data-component="Metric"></div>
</div>
</div>

</div>
<div class="col">
<div data-key="valid_bc_read_frac" data-component="Metric"></div>
</div>
</div>
"#;
    let num_cells = HeroMetric::new("Number of cells", "3,487");
    let umis_per_cell = HeroMetric::new("Median UMIs per cell", "867");
    let valid_bc_read_frac = HeroMetric::new("Valid barcodes", "93.6%");
    let mut left = RowLayout::new(Some("left".to_string()));
    left.field("num_cells", Some("1"), &num_cells);
    left.field("umis_per_cell", Some("1"), &umis_per_cell);
    let left_html = left.finish();
    let mut full = RowLayout::new(None);
    full.field("left", Some("1"), &left_html);
    full.field("valid_bc_read_frac", Some("1"), &valid_bc_read_frac);
    assert_eq!(EXPECTED_TEMPLATE, full.finish());
}

#[test]
fn test_html_template_vec() {
    const EXPECTED_TEMPLATE: &str = r#"<div class="row">
<div class="col">
<div data-key="hero_metrics[0]" data-component="Metric"></div>
</div>
</div>
<div class="row">
<div class="col">
<div data-key="hero_metrics[1]" data-component="Metric"></div>
</div>
</div>"#;
    let content = vec![
        HeroMetric::new("Number of cells", "3,487"),
        HeroMetric::new("Median UMIs per cell", "867"),
    ];
    assert_eq!(
        EXPECTED_TEMPLATE,
        content.template(Some("hero_metrics".into()))
    );
}

#[test]
fn test_html_template_grid() {
    const EXPECTED_TEMPLATE: &str = r#"<div class="row">
<div class="col-sm-6">
<div data-key="grid_data[0]" data-component="Metric"></div>
</div>
<div class="col-sm-6">
<div data-key="grid_data[1]" data-component="Metric"></div>
</div>
</div>
<div class="row">
<div class="col-sm-6">
<div data-key="grid_data[2]" data-component="Metric"></div>
</div>
</div>"#;
    let content = Grid::with_elements(
        vec![
            HeroMetric::new("Number of cells", "3,487"),
            HeroMetric::new("Median UMIs per cell", "867"),
            HeroMetric::new("Median Genes per cell", "700"),
        ],
        GridLayout::MaxCols(2),
    );
    assert_eq!(EXPECTED_TEMPLATE, content.template(None));
    assert_eq!(
        r#"{"grid_data":[{"metric":"3,487","name":"Number of cells","threshold":null},{"metric":"867","name":"Median UMIs per cell","threshold":null},{"metric":"700","name":"Median Genes per cell","threshold":null}]}"#,
        serde_json::to_string(&to_serde(&content.to_json())).unwrap()
    );
}

#[test]
fn test_html_template_dyn_grid() {
    const EXPECTED_TEMPLATE_1: &str = r#"<div class="row">
<div class="col-sm-6">
<div data-key="grid_data[0]" data-component="Metric"></div>
</div>
<div class="col-sm-6">
<div data-key="grid_data[1]" data-component="RawImage"></div>
</div>
</div>
<div class="row">
<div class="col-sm-6">
<div data-key="grid_data[2]" data-component="Metric"></div>
</div>
</div>"#;
    const EXPECTED_TEMPLATE_2: &str = r#"<div class="row">
<div class="col">
<div class="row">
<div class="col-sm-6">
<div data-key="grid.grid_data[0]" data-component="Metric"></div>
</div>
<div class="col-sm-6">
<div data-key="grid.grid_data[1]" data-component="RawImage"></div>
</div>
</div>
<div class="row">
<div class="col-sm-6">
<div data-key="grid.grid_data[2]" data-component="Metric"></div>
</div>
</div>
</div>
</div>
"#;
    let mut content = DynGrid::new(GridLayout::MaxCols(2));
    content.push(HeroMetric::new("Number of cells", "3,487"));
    content.push(RawImage::new("data:image/png;base64,iVBORw0KGgoAAAANSUhEUgAAAAgAAAAIAQMAAAD+wSzIAAAABlBMVEX///+/v7+jQ3Y5AAAADklEQVQI12P4AIX8EAgALgAD/aNpbtEAAAAASUVORK5CYII".into()));
    content.push(HeroMetric::new("Median UMIs per cell", "867"));
    assert_eq!(EXPECTED_TEMPLATE_1, content.template(None));
    let mut full = RowLayout::new(None);
    full.field("grid", None, &content);
    assert_eq!(EXPECTED_TEMPLATE_2, full.finish());
}

/// Follows a data key such as `a.b[2].c` through a JSON document.
fn follow(doc: &Value, key: &str) -> Value {
    let mut cur = doc.clone();
    for part in key.split('.') {
        let (name, rest) = match part.find('[') {
            Some(p) => (&part[..p], &part[p..]),
            None => (part, ""),
        };
        cur = cur[name].clone();
        for idx in rest.split(']').filter(|s| !s.is_empty()) {
            let i: usize = idx.trim_start_matches('[').parse().unwrap();
            cur = cur[i].clone();
        }
    }
    cur
}

#[test]
fn rendered_keys_lead_to_the_items_json() {
    let mut grid = DynGrid::new(GridLayout::MaxCols(2));
    grid.push(HeroMetric::new("Number of cells", "3,487"));
    grid.push(HeroMetric::new("Median UMIs per cell", "867"));
    let mut doc = serde_json::Map::new();
    doc.insert("grid".to_string(), to_serde(&grid.to_json()));
    let doc = Value::Object(doc);
    let html = grid.template(Some("grid".to_string()));
    let keys: Vec<&str> = html
        .split("data-key=\"")
        .skip(1)
        .map(|s| &s[..s.find('"').unwrap()])
        .collect();
    assert_eq!(keys, vec!["grid.grid_data[0]", "grid.grid_data[1]"]);
    assert_eq!(follow(&doc, keys[1])["name"], "Median UMIs per cell");
    assert_eq!(follow(&doc, keys[0])["metric"], "3,487");
}
