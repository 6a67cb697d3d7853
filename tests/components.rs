use serde_json::Value;
use tenx_websummary::components::{
    RawImage,
    BlendedImage, CommandLine, GenericTable, HeroMetric, TermDesc, Threshold, TitleWithHelp,
    TitleWithTermDesc, Tooltip,
};
use tenx_websummary::components::{
    BlendedImageSliderSize, HdEndToEndAlignmentUmiLegendImage, ImageProps, NumOrStr, PlotlyChart,
    Style,
};
use tenx_websummary::json::{JsonValue, ToJson};
use tenx_websummary::{AddToSharedResource, SharedResources};

fn to_serde(j: &JsonValue) -> Value {
    match j {
        JsonValue::Null => Value::Null,
        JsonValue::Bool(b) => Value::Bool(*b),
        JsonValue::Number(n) => {
            if *n >= 0 {
                Value::from(*n as u64)
            } else {
                Value::from(*n as i64)
            }
        }
        JsonValue::Str(s) => Value::String(s.clone()),
        JsonValue::Array(v) => Value::Array(v.iter().map(to_serde).collect()),
        JsonValue::Object(m) => {
            let mut map = serde_json::Map::new();
            for (k, v) in m {
                map.insert(k.clone(), to_serde(v));
            }
            Value::Object(map)
        }
    }
}

fn from_serde(v: &Value) -> JsonValue {
    match v {
        Value::Null => JsonValue::Null,
        Value::Bool(b) => JsonValue::Bool(*b),
        Value::Number(n) => match n.as_i64() {
            Some(i) => JsonValue::Number(i as i128),
            None => JsonValue::Number(n.as_u64().unwrap() as i128),
        },
        Value::String(s) => JsonValue::Str(s.clone()),
        Value::Array(a) => JsonValue::Array(a.iter().map(from_serde).collect()),
        Value::Object(m) => {
            JsonValue::Object(m.iter().map(|(k, v)| (k.clone(), from_serde(v))).collect())
        }
    }
}

fn parse(json: &str) -> Value {
    serde_json::from_str::<Value>(json).unwrap()
}

fn check_roundtrip<T: ToJson>(json: &str, read: fn(&JsonValue) -> Option<T>) -> T {
    let expected = parse(json);
    let parsed = read(&from_serde(&expected)).unwrap();
    assert_eq!(to_serde(&parsed.to_json()), expected);
    parsed
}

#[test]
fn test_header_with_help() {
    check_roundtrip(
        r#"{
            "helpText": "This is the help text", 
            "title": "This is the title"
        }"#,
        TitleWithHelp::from_json,
    );
}

#[test]
fn test_term_descriptions() {
    check_roundtrip(
        r#"[
                "Inner title", 
                [
                    "Inner help description 1",
                    "Inner help description 2"
                ]
            ]"#,
        TermDesc::from_json,
    );
}

#[test]
fn test_dyn_help() {
    check_roundtrip(
        r#"{
                "data": [
                    [
                        "Metric 1", 
                        [
                            "Help 1"
                        ]
                    ], 
                    [
                        "Metric 2", 
                        [
                            "Help 2"
                        ]
                    ]
                ], 
                "title": "Title text"
            }"#,
        TitleWithTermDesc::from_json,
    );
}

#[test]
fn test_generic_table() {
    check_roundtrip(
        r#"{
                "rows": [
                    [
                        "Sample ID", 
                        "Human PBMC BCR"
                    ], 
                    [
                        "Sample Description", 
                        "Pre vs post vaccination"
                    ]
                ]
            }
            "#,
        GenericTable::from_json,
    );
}

#[test]
fn test_generic_table_with_header() {
    check_roundtrip(
        r#"{
                "header": [
                    "Donor", 
                    "Origin", 
                    "Cells",
                    "Clonotypes"
                ], 
                "rows": [
                    [
                        "Donor1",
                        "PreVac",
                        "10,000",
                        "7,000"
                    ],
                    [
                        "Donor1",
                        "PostVac",
                        "8,000",
                        "2,000"
                    ]
                ]
            }"#,
        GenericTable::from_json,
    );
}

#[test]
fn test_gentable_transpose() {
    let table_json = r#"{"header":["Donor","Origin","Cells","Clonotypes"],"rows":[["Donor1","PreVac","10,000","7,000"],["Donor2","","8,000","2,000"]]}"#;
    let header = Some(
        vec!["Donor", "Origin", "Cells", "Clonotypes"]
            .into_iter()
            .map(std::string::ToString::to_string)
            .collect(),
    );
    let columns_in = vec![
        vec!["Donor1".to_string(), "Donor2".to_string()],
        vec!["PreVac".to_string()],
        vec!["10,000".to_string(), "8,000".to_string()],
        vec!["7,000".to_string(), "2,000".to_string()],
    ];
    assert_eq!(
        table_json,
        serde_json::to_string(&to_serde(
            &GenericTable::from_columns(columns_in, header).to_json()
        ))
        .unwrap()
    );
}

#[test]
fn generic_table_rejects_rows_that_are_not_strings() {
    let j = from_serde(&parse(r#"{"rows": [["a", 1]]}"#));
    assert!(GenericTable::from_json(&j).is_none());
    let j = from_serde(&parse(r#"{"header": null, "rows": []}"#));
    let t = GenericTable::from_json(&j).unwrap();
    assert_eq!(t.header, None);
    assert!(t.rows.is_empty());
}

#[test]
fn title_with_help_needs_both_members() {
    let j = from_serde(&parse(r#"{"title": "only a title"}"#));
    assert!(TitleWithHelp::from_json(&j).is_none());
}

#[test]
fn hero_metric_json_names_its_threshold() {
    let m = HeroMetric::with_threshold("Cells", "3,487", Threshold::Warn);
    assert_eq!(
        serde_json::to_string(&to_serde(&m.to_json())).unwrap(),
        r#"{"metric":"3,487","name":"Cells","threshold":"warn"}"#
    );
}

#[test]
fn tooltip_ids_are_numbered() {
    let t = Tooltip::new_with_number(42, "tip", "content", None, None);
    assert_eq!(t.id, "tt-42");
    let t = Tooltip::new("tip", "content", None, None);
    assert!(t.id.starts_with("tt-"));
    assert!(t.id[3..].parse::<u16>().is_ok());
}

#[test]
fn command_line_is_wrapped_in_preformatted_text() {
    let c = CommandLine::new("cellranger count");
    assert_eq!(c.title, "Command Line Arguments");
    assert_eq!(
        c.data,
        vec![TermDesc(
            String::new(),
            vec!["<span style='font-size: 18px;'><code><pre style='white-space: pre-wrap;'>cellranger count</pre></code></span>".to_string()]
        )]
    );
}

#[test]
fn term_desc_with_one_desc() {
    let t = TermDesc::with_one_desc("Term", "Desc");
    assert_eq!(t, TermDesc("Term".to_string(), vec!["Desc".to_string()]));
}

#[test]
fn blended_image_moves_its_images_into_the_store() {
    let mut img = BlendedImage {
        image1: "data:a".to_string(),
        image1_title: None,
        image2: "data:a".to_string(),
        image2_title: None,
        size: BlendedImageSliderSize { width: NumOrStr::Num(470) },
        plot_title: None,
        slider_title: None,
    };
    let mut store = SharedResources::new();
    img.add_to_shared_resource(&mut store);
    assert_eq!(img.image1, "_resources_000");
    assert_eq!(img.image2, "_resources_000");
    assert_eq!(store.len(), 1);
}

#[test]
fn test_config_valid_json() {
    let _ = PlotlyChart::default_config();
}

#[test]
fn test_deserialize_blended_image_width_number() {
    let json_str = r#"{
            "imgA": "data:image/jpg;base64,/9j/4AAQSkZJRgABAQAAAQABAA",
            "imgATitle": "CytAssist Image",
            "imgB": "data:image/jpg;base64,/9j/4AAQSkZJRgABAQAAAQABAA",
            "imgBTitle": "Microscope Image",
            "plot_title": "CytAssist Image Alignment",
            "sizes": {
                "width": 470
            },
            "slider_title": ""
        }"#;
    let b = BlendedImage::from_json(&from_serde(&parse(json_str))).unwrap();
    assert_eq!(b.size.width, NumOrStr::Num(470));
}

#[test]
fn test_deserialize_blended_image_width_string() {
    let json_str = r#"{
            "imgA": "data:image/jpg;base64,/9j/4AAQSkZJRgABAQAAAQABAA",
            "imgATitle": "CytAssist Image",
            "imgB": "data:image/jpg;base64,/9j/4AAQSkZJRgABAQAAAQABAA",
            "imgBTitle": "Microscope Image",
            "plot_title": "CytAssist Image Alignment",
            "sizes": {
                "width": "470px"
            },
            "slider_title": ""
        }"#;
    let b = BlendedImage::from_json(&from_serde(&parse(json_str))).unwrap();
    assert_eq!(b.size.width, NumOrStr::Str("470px".to_string()));
    assert_eq!(b.image2_title.as_deref(), Some("Microscope Image"));
}

#[test]
fn plotly_default_config_json() {
    assert_eq!(
        to_serde(&PlotlyChart::default_config()),
        parse(r#"{"displayModeBar": true, "staticPlot": false, "dragmode": "zoom", "modeBarButtons": [["toImage"]]}"#)
    );
}

#[test]
fn style_properties_are_set_once_each() {
    let _ = ImageProps::new();
    let s = Style::new().width("10px").height("5px").width("20px");
    assert!(!s.is_empty());
    let j = to_serde(&s.to_json());
    assert_eq!(j, parse(r#"{"width": "20px", "height": "5px"}"#));
    let p = ImageProps::new().container_width().centered().pixelated();
    assert_eq!(p.width.as_deref(), Some("100%"));
    assert_eq!(
        to_serde(&p.style.to_json()),
        parse(r#"{"display": "block", "margin-left": "auto", "margin-right": "auto", "image-rendering": "pixelated"}"#)
    );
}

#[test]
fn raw_image_json_flattens_its_props() {
    let img = RawImage::new("data:x".to_string()).with_link("https://x").pixelated();
    assert_eq!(
        to_serde(&img.to_json()),
        parse(r#"{"encoded_image": "data:x", "zoom_pan": null, "link": "https://x", "width": null, "height": null, "style": {"image-rendering": "pixelated"}}"#)
    );
}

#[test]
fn with_shared_resource_returns_the_moved_node() {
    let mut store = SharedResources::new();
    store.insert(JsonValue::Str("other".to_string()));
    let legend = HdEndToEndAlignmentUmiLegendImage {
        colormap: "viridis".to_string(),
        legend_image: "data:legend".to_string(),
    };
    let moved = tenx_websummary::with_shared_resource(legend, &mut store);
    assert_eq!(moved.legend_image, "_resources_001");
    assert_eq!(moved.colormap, "viridis");
    assert_eq!(store.len(), 2);
}
