use mouser_client::search::part_results;
use mouser_client::Error;

fn one_part_body(stock_json: &str) -> String {
    format!(
        "{{\"SearchResults\":{{\"NumberOfResult\":1,\"Parts\":[{{\"AvailabilityInStock\":{}}}]}}}}",
        stock_json
    )
}

fn stock_of(stock_json: &str) -> Result<Option<u32>, Error> {
    let body = one_part_body(stock_json);
    part_results(&body).map(|parts| parts[0].availability_in_stock)
}

#[test]
fn stock_from_number() {
    assert_eq!(stock_of("42").unwrap(), Some(42));
    assert_eq!(stock_of("0").unwrap(), Some(0));
    assert_eq!(stock_of("4294967295").unwrap(), Some(4294967295));
}

#[test]
fn stock_from_string() {
    assert_eq!(stock_of("\"42\"").unwrap(), Some(42));
    assert_eq!(stock_of("\"+7\"").unwrap(), Some(7));
    assert_eq!(stock_of("\"007\"").unwrap(), Some(7));
}

#[test]
fn stock_absent_or_null_or_empty() {
    assert_eq!(stock_of("null").unwrap(), None);
    assert_eq!(stock_of("\"\"").unwrap(), None);
    let body = "{\"SearchResults\":{\"NumberOfResult\":1,\"Parts\":[{}]}}";
    assert_eq!(part_results(body).unwrap()[0].availability_in_stock, None);
}

#[test]
fn stock_out_of_range_is_a_decode_failure() {
    assert!(matches!(stock_of("4294967296"), Err(Error::Decode { .. })));
    assert!(matches!(stock_of("\"4294967296\""), Err(Error::Decode { .. })));
    assert!(matches!(stock_of("-1"), Err(Error::Decode { .. })));
}

#[test]
fn stock_of_wrong_kind_is_a_decode_failure() {
    assert!(matches!(stock_of("true"), Err(Error::Decode { .. })));
    assert!(matches!(stock_of("1.5"), Err(Error::Decode { .. })));
    assert!(matches!(stock_of("\"x7\""), Err(Error::Decode { .. })));
    assert!(matches!(stock_of("\"-1\""), Err(Error::Decode { .. })));
    assert!(matches!(stock_of("[42]"), Err(Error::Decode { .. })));
}

#[test]
fn number_of_result_may_be_negative() {
    let body = "{\"SearchResults\":{\"NumberOfResult\":-1,\"Parts\":[]}}";
    assert_eq!(part_results(body).unwrap().len(), 0);
}
