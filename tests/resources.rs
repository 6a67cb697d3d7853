use tenx_websummary::json::{JsonValue, ToJson};
use tenx_websummary::text::{decimal_string, padded3_string, replace_all};
use tenx_websummary::SharedResources;

#[test]
fn equal_values_share_one_reference() {
    let mut store = SharedResources::new();
    let r1 = store.insert(JsonValue::Str("image-a".to_string()));
    let r2 = store.insert(JsonValue::Str("image-a".to_string()));
    assert_eq!(r1, "_resources_000");
    assert_eq!(r1, r2);
    assert_eq!(store.len(), 1);
}

#[test]
fn distinct_values_get_increasing_ids() {
    let mut store = SharedResources::new();
    let r1 = store.insert(JsonValue::Str("image-a".to_string()));
    let r2 = store.insert(JsonValue::Str("image-b".to_string()));
    let r3 = store.insert(JsonValue::Array(vec![JsonValue::Number(1)]));
    assert_eq!(r1, "_resources_000");
    assert_eq!(r2, "_resources_001");
    assert_eq!(r3, "_resources_002");
    assert_eq!(store.len(), 3);
    assert_eq!(store.insert(JsonValue::Array(vec![JsonValue::Number(1)])), "_resources_002");
    assert_eq!(store.len(), 3);
}

#[test]
fn ids_past_three_digits_are_not_truncated() {
    let mut store = SharedResources::new();
    let mut last = String::new();
    for i in 0..1001 {
        last = store.insert(JsonValue::Number(i));
    }
    assert_eq!(last, "_resources_1000");
}

#[test]
fn store_json_maps_ids_to_values() {
    let mut store = SharedResources::new();
    store.insert(JsonValue::Str("x".to_string()));
    match store.to_json() {
        JsonValue::Object(m) => {
            assert_eq!(m.len(), 1);
            assert_eq!(m[0].0, "000");
            assert_eq!(m[0].1, JsonValue::Str("x".to_string()));
        }
        _ => panic!("the store is an object"),
    }
}

#[test]
fn decimal_and_padding() {
    assert_eq!(decimal_string(0), "0");
    assert_eq!(decimal_string(1234), "1234");
    assert_eq!(padded3_string(7), "007");
    assert_eq!(padded3_string(42), "042");
    assert_eq!(padded3_string(12345), "12345");
}

#[test]
fn replace_is_left_to_right_and_non_overlapping() {
    assert_eq!(replace_all("aaa", "aa", "b"), "ba");
    assert_eq!(replace_all("xMARKyMARK", "MARK", "k"), "xkyk");
    assert_eq!(replace_all("abc", "", "z"), "abc");
    assert_eq!(replace_all("ab", "abc", "z"), "ab");
}
