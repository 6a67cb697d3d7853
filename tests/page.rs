use tenx_websummary::components::{HeroMetric, WsNavBar};
use tenx_websummary::generate_html::{fill_template, include_step, IncludeStep};
use tenx_websummary::image_base64_encode::{Base64ImageEncoder, GuessError};
use tenx_websummary::json::{JsonValue, ToJson};
use tenx_websummary::scrape_json::{scrape_json_str_from_html, ScrapeError};
use tenx_websummary::{Alert, AlertLevel, HtmlTemplate, SinglePageHtml};

#[test]
fn page_wraps_content_with_alerts_and_nav_bar() {
    let nav = WsNavBar { pipeline: "count".to_string(), id: "S1".to_string(), description: "d".to_string() };
    let page = SinglePageHtml::new(nav, HeroMetric::new("a", "1"), None).full_width();
    assert_eq!(
        page.template(Some("m".to_string())),
        "<div class=\"navbar-wrapper\"></div>\n<div class=\"namescription-wrapper\"></div>\n<div class=\"alert-wrapper\"></div>\n<div class=\"container-fluid\"><div data-key=\"m\" data-component=\"Metric\"></div></div>\n"
    );
}

#[test]
fn page_json_flattens_the_content() {
    let page = SinglePageHtml::from_content(HeroMetric::new("a", "1")).alerts(vec![Alert {
        level: AlertLevel::Warn,
        title: "t".to_string(),
        formatted_value: None,
        message: "m".to_string(),
    }]);
    match page.to_json() {
        JsonValue::Object(m) => {
            let names: Vec<&str> = m.iter().map(|(k, _)| k.as_str()).collect();
            assert_eq!(names, vec!["sample", "name", "metric", "threshold", "alarms", "_resources"]);
        }
        _ => panic!("a page is an object"),
    }
}

#[test]
fn template_tokens_are_filled() {
    let page = fill_template(
        "<script>[[ tenx-websummary-script.min.js ]]</script><style>[[ tenx-websummary-styles.min.css ]]</style>[[ data.js ]]|[[ summary.html ]]",
        "JS",
        "CSS",
        "{}",
        "<div></div>",
    );
    assert_eq!(page, "<script>JS</script><style>CSS</style>{}|<div></div>");
}

#[test]
fn includes_are_found_and_bounded() {
    match include_step("a [[ include part.html ]] b", 0, true) {
        IncludeStep::Read { directive, filename } => {
            assert_eq!(directive, "[[ include part.html ]]");
            assert_eq!(filename, "part.html");
        }
        other => panic!("unexpected step {other:?}"),
    }
    assert_eq!(include_step("no includes", 0, true), IncludeStep::Done);
    assert_eq!(include_step("[[ include x ]]", 101, true), IncludeStep::TooDeep);
    assert!(matches!(
        include_step("[[ include x ]]", 0, false),
        IncludeStep::NoTemplateDir { .. }
    ));
}

#[test]
fn json_is_scraped_from_the_one_data_line() {
    let html = "<html>\n      const data = {\"a\":1}\r\n</html>\n";
    assert_eq!(scrape_json_str_from_html(html), Ok("{\"a\":1}".to_string()));
    assert_eq!(scrape_json_str_from_html("<html></html>"), Err(ScrapeError::NotFound));
    let twice = "      const data = 1\n      const data = 2\n";
    assert_eq!(scrape_json_str_from_html(twice), Err(ScrapeError::Ambiguous));
}

#[test]
fn image_formats_are_guessed_from_the_extension() {
    assert_eq!(Base64ImageEncoder::guess("a/b.png"), Ok(Base64ImageEncoder::Png));
    assert_eq!(Base64ImageEncoder::guess("b.jpeg"), Ok(Base64ImageEncoder::Jpeg));
    assert_eq!(Base64ImageEncoder::guess("b.jpg"), Ok(Base64ImageEncoder::Jpeg));
    assert_eq!(Base64ImageEncoder::guess("noext"), Err(GuessError::NoExtension));
    assert_eq!(
        Base64ImageEncoder::guess("b.gif"),
        Err(GuessError::UnknownExtension("gif".to_string()))
    );
}

#[test]
fn images_are_encoded_as_data_urls() {
    assert_eq!(Base64ImageEncoder::Png.encode_bytes(b"hi"), "data:image/png;base64,aGk=");
    assert_eq!(Base64ImageEncoder::Jpeg.encode_bytes(b""), "data:image/jpeg;base64,");
}
