use mouser_client::model::{Error as VendorError, Manufacturer};
use mouser_client::search::{
    manufacturer_list_results, parse_manufacturer_list_response, parse_part_search_response,
    part_results,
};
use mouser_client::Error;

#[test]
fn part_search_single_result() {
    let body = "{\"Errors\":[],\"SearchResults\":{\"NumberOfResult\":1,\"Parts\":[{\"ManufacturerPartNumber\":\"MX123\",\"AvailabilityInStock\":\"42\"}]}}";
    let parts = part_results(body).expect("a valid response must decode");
    assert_eq!(parts.len(), 1);
    assert_eq!(parts[0].manufacturer_part_number.as_deref(), Some("MX123"));
    assert_eq!(parts[0].availability_in_stock, Some(42));
    assert_eq!(parts[0].availability, None);
    assert_eq!(parts[0].manufacturer, None);
}

#[test]
fn part_search_vendor_error() {
    let body = "{\"Errors\":[{\"Id\":1,\"Code\":\"E1\",\"Message\":\"bad key\",\"ResourceKey\":\"k\"}]}";
    let expected = VendorError {
        id: 1,
        code: "E1".to_string(),
        message: "bad key".to_string(),
        resource_key: "k".to_string(),
        resource_format_string: None,
        resource_format_string2: None,
        property_name: None,
    };
    match part_results(body) {
        Err(Error::Vendor { errors }) => {
            assert_eq!(errors.len(), 1);
            assert_eq!(errors[0], expected);
        }
        other => panic!("expected the vendor-error failure, got {:?}", other),
    }
}

#[test]
fn part_search_vendor_error_wins_over_payload() {
    let body = "{\"Errors\":[{\"Id\":7,\"Code\":\"C\",\"Message\":\"m\",\"ResourceKey\":\"r\"}],\"SearchResults\":{\"NumberOfResult\":1,\"Parts\":[{\"ManufacturerPartNumber\":\"MX123\"}]}}";
    match part_results(body) {
        Err(Error::Vendor { errors }) => {
            assert_eq!(errors.len(), 1);
            assert_eq!(errors[0].id, 7);
            assert_eq!(errors[0].code, "C");
        }
        other => panic!("expected the vendor-error failure, got {:?}", other),
    }
}

#[test]
fn part_search_empty_error_list_and_payload() {
    let body = "{\"Errors\":[],\"SearchResults\":{\"NumberOfResult\":2,\"Parts\":[{\"Description\":\"a part\"},{\"Description\":\"another\"}]}}";
    let parts = part_results(body).expect("a valid response must decode");
    assert_eq!(parts.len(), 2);
    assert_eq!(parts[0].description.as_deref(), Some("a part"));
    assert_eq!(parts[1].description.as_deref(), Some("another"));
}

#[test]
fn part_search_absent_error_list() {
    let body = "{\"SearchResults\":{\"NumberOfResult\":0,\"Parts\":[]}}";
    let parts = part_results(body).expect("a valid response must decode");
    assert_eq!(parts.len(), 0);
}

#[test]
fn part_search_no_errors_and_no_payload_is_a_failure() {
    match part_results("{}") {
        Err(Error::Message { .. }) => {}
        other => panic!("expected the plain failure, got {:?}", other),
    }
}

#[test]
fn part_search_malformed_json_keeps_text() {
    let body = "this is not json";
    match part_results(body) {
        Err(Error::Decode { text }) => assert_eq!(text, body),
        other => panic!("expected the decode failure, got {:?}", other),
    }
}

#[test]
fn part_search_schema_mismatch_keeps_text() {
    let body = "{\"Errors\":5}";
    match part_results(body) {
        Err(Error::Decode { text }) => assert_eq!(text, body),
        other => panic!("expected the decode failure, got {:?}", other),
    }
    let body2 = "{\"SearchResults\":{\"NumberOfResult\":\"one\",\"Parts\":[]}}";
    match parse_part_search_response(body2) {
        Err(Error::Decode { text }) => assert_eq!(text, body2),
        other => panic!("expected the decode failure, got {:?}", other),
    }
}

#[test]
fn part_search_bad_error_record_is_a_decode_failure() {
    let body = "{\"Errors\":[{\"Id\":1,\"Code\":\"E1\"}]}";
    match part_results(body) {
        Err(Error::Decode { text }) => assert_eq!(text, body),
        other => panic!("expected the decode failure, got {:?}", other),
    }
}

#[test]
fn manufacturer_list_single_entry() {
    let body = "{\"MouserManufacturerList\":{\"Count\":1,\"ManufacturerList\":[{\"ManufacturerName\":\"Acme\",\"ManufacturerId\":7}]}}";
    let manufacturers = manufacturer_list_results(body).expect("a valid response must decode");
    assert_eq!(
        manufacturers,
        vec![Manufacturer { manufacturer_name: "Acme".to_string(), manufacturer_id: Some(7) }]
    );
}

#[test]
fn manufacturer_without_id() {
    let body = "{\"MouserManufacturerList\":{\"Count\":1,\"ManufacturerList\":[{\"ManufacturerName\":\"NoId\"}]}}";
    let manufacturers = manufacturer_list_results(body).expect("a valid response must decode");
    assert_eq!(manufacturers.len(), 1);
    assert_eq!(manufacturers[0].manufacturer_name, "NoId");
    assert_eq!(manufacturers[0].manufacturer_id, None);
}

#[test]
fn manufacturer_name_is_required() {
    let body = "{\"MouserManufacturerList\":{\"Count\":1,\"ManufacturerList\":[{\"ManufacturerId\":7}]}}";
    match manufacturer_list_results(body) {
        Err(Error::Decode { text }) => assert_eq!(text, body),
        other => panic!("expected the decode failure, got {:?}", other),
    }
}

#[test]
fn manufacturer_count_of_wrong_kind_is_a_decode_failure() {
    let body = "{\"MouserManufacturerList\":{\"Count\":-1,\"ManufacturerList\":[]}}";
    match manufacturer_list_results(body) {
        Err(Error::Decode { text }) => assert_eq!(text, body),
        other => panic!("expected the decode failure, got {:?}", other),
    }
}

#[test]
fn manufacturer_list_malformed_json_keeps_text() {
    let body = "[not json";
    match manufacturer_list_results(body) {
        Err(Error::Decode { text }) => assert_eq!(text, body),
        other => panic!("expected the decode failure, got {:?}", other),
    }
}

#[test]
fn manufacturer_list_without_payload_is_a_failure() {
    match manufacturer_list_results("{\"Errors\":[]}") {
        Err(Error::Message { .. }) => {}
        other => panic!("expected the plain failure, got {:?}", other),
    }
}

#[test]
fn manufacturer_list_envelope_parses_error_list() {
    let body = "{\"Errors\":[{\"Id\":3,\"Code\":\"X\",\"Message\":\"oops\",\"ResourceKey\":\"rk\",\"PropertyName\":\"p\"}]}";
    let envelope = parse_manufacturer_list_response(body).expect("a valid envelope must decode");
    let errors = envelope.errors.expect("the error list is present");
    assert_eq!(errors.len(), 1);
    assert_eq!(errors[0].id, 3);
    assert_eq!(errors[0].property_name.as_deref(), Some("p"));
    assert!(envelope.mouser_manufacturer_list.is_none());
}
