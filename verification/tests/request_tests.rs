use mouser_client::request::{manufacturer_list_request_path, part_request};

#[test]
fn part_request_without_manufacturer() {
    let r = part_request("MX123", None);
    assert_eq!(r.path, "search/partnumber");
    assert_eq!(r.body, "{\"SearchByPartRequest\":{\"mouserPartNumber\":\"MX123\"}}");
}

#[test]
fn part_request_with_manufacturer() {
    let r = part_request("MX123", Some(21));
    assert_eq!(r.path, "search/partnumberandmanufacturer");
    assert_eq!(
        r.body,
        "{\"SearchByPartMfrRequest\":{\"manufacturerId\":21,\"mouserPartNumber\":\"MX123\"}}"
    );
}

#[test]
fn part_request_large_manufacturer_id() {
    let r = part_request("p", Some(18446744073709551615));
    assert_eq!(
        r.body,
        "{\"SearchByPartMfrRequest\":{\"manufacturerId\":18446744073709551615,\"mouserPartNumber\":\"p\"}}"
    );
}

#[test]
fn part_request_escapes_quotes_and_backslashes() {
    let r = part_request("a\"b\\c", None);
    assert_eq!(r.body, "{\"SearchByPartRequest\":{\"mouserPartNumber\":\"a\\\"b\\\\c\"}}");
}

#[test]
fn part_request_escapes_control_characters() {
    let r = part_request("a\nb\t\u{1}", None);
    assert_eq!(
        r.body,
        "{\"SearchByPartRequest\":{\"mouserPartNumber\":\"a\\nb\\t\\u0001\"}}"
    );
}

#[test]
fn part_request_body_is_valid_json() {
    let r = part_request("odd \"name\" with \\ and \u{1f} inside", Some(7));
    let v: serde_json::Value = serde_json::from_str(&r.body).expect("the body must be valid JSON");
    assert_eq!(
        v["SearchByPartMfrRequest"]["mouserPartNumber"],
        serde_json::Value::String("odd \"name\" with \\ and \u{1f} inside".to_string())
    );
    assert_eq!(v["SearchByPartMfrRequest"]["manufacturerId"].as_u64(), Some(7));
}

#[test]
fn manufacturer_list_path() {
    assert_eq!(manufacturer_list_request_path(), "search/manufacturerlist");
}
