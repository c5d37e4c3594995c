//! Decoding of the vendor's JSON response shapes into the typed records of
//! `model`.
//!
//! Each record and envelope has a specification function that says what a
//! JSON document must look like for it and which record it denotes; the
//! executable decoders are proved to return exactly that record, and to
//! fail exactly where the specification says the document does not match.
//! Member lookups are lenient the way the upstream schema demands: an
//! optional member may be absent or `null`, but a present member of the
//! wrong kind is a mismatch.

use vstd::prelude::*;

use crate::json::{
    arr_model, jv_as_array, jv_as_i64, jv_as_str, jv_as_u64, jv_get, jv_is_null, jv_is_object,
    jv_model, JsonData,
};
use crate::model::{
    errors_view, manufacturers_view, opt_str_view, parts_view, Error, ErrorView, Manufacturer,
    ManufacturerList, ManufacturerListResponse, ManufacturerListResponseView,
    ManufacturerListView, ManufacturerView, Part, PartSearchResponse, PartSearchResponseView,
    PartSearchResult, PartSearchResultView, PartView,
};
use crate::numbers::parse_u32;

verus! {

pub open spec fn field_of(m: Map<Seq<char>, JsonData>, key: Seq<char>) -> Option<JsonData> {
    if m.contains_key(key) {
        Some(m[key])
    } else {
        None
    }
}

/// An optional string member: absent or `null` is `None`; a string is
/// itself; anything else is a mismatch.
pub open spec fn opt_string_field(m: Map<Seq<char>, JsonData>, key: Seq<char>) -> Option<
    Option<Seq<char>>,
> {
    match field_of(m, key) {
        None => Some(None),
        Some(JsonData::Null) => Some(None),
        Some(JsonData::Str(s)) => Some(Some(s)),
        Some(_) => None,
    }
}

/// A required string member.
pub open spec fn req_string_field(m: Map<Seq<char>, JsonData>, key: Seq<char>) -> Option<
    Seq<char>,
> {
    match field_of(m, key) {
        Some(JsonData::Str(s)) => Some(s),
        _ => None,
    }
}

/// An optional unsigned member: absent or `null` is `None`; an integer in
/// the `u64` range is itself; anything else is a mismatch.
pub open spec fn opt_u64_field(m: Map<Seq<char>, JsonData>, key: Seq<char>) -> Option<
    Option<u64>,
> {
    match field_of(m, key) {
        None => Some(None),
        Some(JsonData::Null) => Some(None),
        Some(JsonData::Int(i)) => if 0 <= i <= u64::MAX {
            Some(Some(i as u64))
        } else {
            None
        },
        Some(_) => None,
    }
}

/// A required `u32` member.
pub open spec fn req_u32_field(m: Map<Seq<char>, JsonData>, key: Seq<char>) -> Option<u32> {
    match field_of(m, key) {
        Some(JsonData::Int(i)) => if 0 <= i <= u32::MAX {
            Some(i as u32)
        } else {
            None
        },
        _ => None,
    }
}

/// A required `i32` member.
pub open spec fn req_i32_field(m: Map<Seq<char>, JsonData>, key: Seq<char>) -> Option<i32> {
    match field_of(m, key) {
        Some(JsonData::Int(i)) => if i32::MIN <= i <= i32::MAX {
            Some(i as i32)
        } else {
            None
        },
        _ => None,
    }
}

/// The stock figure: the vendor returns it either as a number or as a
/// decimal string.  Absent, `null` and the empty string are `None`.
pub open spec fn stock_value(j: JsonData) -> Option<Option<u32>> {
    match j {
        JsonData::Null => Some(None),
        JsonData::Int(i) => if 0 <= i <= u32::MAX {
            Some(Some(i as u32))
        } else {
            None
        },
        JsonData::Str(s) => if s.len() == 0 {
            Some(None)
        } else {
            match parse_u32(s) {
                Some(n) => Some(Some(n)),
                None => None,
            }
        },
        _ => None,
    }
}

pub open spec fn opt_stock_field(m: Map<Seq<char>, JsonData>, key: Seq<char>) -> Option<
    Option<u32>,
> {
    match field_of(m, key) {
        None => Some(None),
        Some(j) => stock_value(j),
    }
}

/// The part record a JSON document denotes, if it matches the part schema.
pub open spec fn part_of_json(j: JsonData) -> Option<PartView> {
    match j {
        JsonData::Obj(m) => {
            let availability = opt_string_field(m, "Availability"@);
            let data_sheet_url = opt_string_field(m, "DataSheetUrl"@);
            let description = opt_string_field(m, "Description"@);
            let factory_stock = opt_string_field(m, "FactoryStock"@);
            let image_path = opt_string_field(m, "ImagePath"@);
            let category = opt_string_field(m, "Category"@);
            let lead_time = opt_string_field(m, "LeadTime"@);
            let lifecycle_status = opt_string_field(m, "LifecycleStatus"@);
            let manufacturer = opt_string_field(m, "Manufacturer"@);
            let manufacturer_part_number = opt_string_field(m, "ManufacturerPartNumber"@);
            let mouser_part_number = opt_string_field(m, "MouserPartNumber"@);
            let rohs_status = opt_string_field(m, "ROHSStatus"@);
            let availability_in_stock = opt_stock_field(m, "AvailabilityInStock"@);
            if availability is Some && data_sheet_url is Some && description is Some
                && factory_stock is Some && image_path is Some && category is Some
                && lead_time is Some && lifecycle_status is Some && manufacturer is Some
                && manufacturer_part_number is Some && mouser_part_number is Some
                && rohs_status is Some && availability_in_stock is Some {
                Some(
                    PartView {
                        availability: availability->0,
                        data_sheet_url: data_sheet_url->0,
                        description: description->0,
                        factory_stock: factory_stock->0,
                        image_path: image_path->0,
                        category: category->0,
                        lead_time: lead_time->0,
                        lifecycle_status: lifecycle_status->0,
                        manufacturer: manufacturer->0,
                        manufacturer_part_number: manufacturer_part_number->0,
                        mouser_part_number: mouser_part_number->0,
                        rohs_status: rohs_status->0,
                        availability_in_stock: availability_in_stock->0,
                    },
                )
            } else {
                None
            }
        },
        _ => None,
    }
}

/// The vendor error record a JSON document denotes.
pub open spec fn error_of_json(j: JsonData) -> Option<ErrorView> {
    match j {
        JsonData::Obj(m) => {
            let id = req_i32_field(m, "Id"@);
            let code = req_string_field(m, "Code"@);
            let message = req_string_field(m, "Message"@);
            let resource_key = req_string_field(m, "ResourceKey"@);
            let resource_format_string = opt_string_field(m, "ResourceFormatString"@);
            let resource_format_string2 = opt_string_field(m, "ResourceFormatString2"@);
            let property_name = opt_string_field(m, "PropertyName"@);
            if id is Some && code is Some && message is Some && resource_key is Some
                && resource_format_string is Some && resource_format_string2 is Some
                && property_name is Some {
                Some(
                    ErrorView {
                        id: id->0,
                        code: code->0,
                        message: message->0,
                        resource_key: resource_key->0,
                        resource_format_string: resource_format_string->0,
                        resource_format_string2: resource_format_string2->0,
                        property_name: property_name->0,
                    },
                )
            } else {
                None
            }
        },
        _ => None,
    }
}

/// The manufacturer record a JSON document denotes.
pub open spec fn manufacturer_of_json(j: JsonData) -> Option<ManufacturerView> {
    match j {
        JsonData::Obj(m) => {
            let name = req_string_field(m, "ManufacturerName"@);
            let id = opt_u64_field(m, "ManufacturerId"@);
            if name is Some && id is Some {
                Some(ManufacturerView { manufacturer_name: name->0, manufacturer_id: id->0 })
            } else {
                None
            }
        },
        _ => None,
    }
}

pub open spec fn errors_of_seq(s: Seq<JsonData>) -> Option<Seq<ErrorView>> {
    if forall|i: int| 0 <= i < s.len() ==> (#[trigger] error_of_json(s[i])) is Some {
        Some(Seq::new(s.len(), |i: int| error_of_json(s[i])->0))
    } else {
        None
    }
}

pub open spec fn manufacturers_of_seq(s: Seq<JsonData>) -> Option<Seq<ManufacturerView>> {
    if forall|i: int| 0 <= i < s.len() ==> (#[trigger] manufacturer_of_json(s[i])) is Some {
        Some(Seq::new(s.len(), |i: int| manufacturer_of_json(s[i])->0))
    } else {
        None
    }
}

pub open spec fn parts_of_seq(s: Seq<JsonData>) -> Option<Seq<PartView>> {
    if forall|i: int| 0 <= i < s.len() ==> (#[trigger] part_of_json(s[i])) is Some {
        Some(Seq::new(s.len(), |i: int| part_of_json(s[i])->0))
    } else {
        None
    }
}

/// The optional vendor error list of an envelope: absent or `null` is
/// `None`; an array of error records is itself; anything else is a
/// mismatch.
pub open spec fn opt_errors_field(m: Map<Seq<char>, JsonData>) -> Option<Option<Seq<ErrorView>>> {
    match field_of(m, "Errors"@) {
        None => Some(None),
        Some(JsonData::Null) => Some(None),
        Some(JsonData::Arr(s)) => match errors_of_seq(s) {
            Some(es) => Some(Some(es)),
            None => None,
        },
        Some(_) => None,
    }
}

/// The inner payload of the part-search response.
pub open spec fn part_search_response_of_json(j: JsonData) -> Option<PartSearchResponseView> {
    match j {
        JsonData::Obj(m) => {
            let number_of_result = req_i32_field(m, "NumberOfResult"@);
            let parts = match field_of(m, "Parts"@) {
                Some(JsonData::Arr(s)) => parts_of_seq(s),
                _ => None,
            };
            if number_of_result is Some && parts is Some {
                Some(PartSearchResponseView { number_of_result: number_of_result->0, parts: parts->0 })
            } else {
                None
            }
        },
        _ => None,
    }
}

/// The top-level part-search envelope.
pub open spec fn part_search_result_of_json(j: JsonData) -> Option<PartSearchResultView> {
    match j {
        JsonData::Obj(m) => {
            let errors = opt_errors_field(m);
            let search_results = match field_of(m, "SearchResults"@) {
                None => Some(None),
                Some(JsonData::Null) => Some(None),
                Some(inner) => match part_search_response_of_json(inner) {
                    Some(r) => Some(Some(r)),
                    None => None,
                },
            };
            if errors is Some && search_results is Some {
                Some(PartSearchResultView { errors: errors->0, search_results: search_results->0 })
            } else {
                None
            }
        },
        _ => None,
    }
}

/// The inner payload of the manufacturer-list response.
pub open spec fn manufacturer_list_of_json(j: JsonData) -> Option<ManufacturerListView> {
    match j {
        JsonData::Obj(m) => {
            let count = req_u32_field(m, "Count"@);
            let list = match field_of(m, "ManufacturerList"@) {
                Some(JsonData::Arr(s)) => manufacturers_of_seq(s),
                _ => None,
            };
            if count is Some && list is Some {
                Some(ManufacturerListView { count: count->0, manufacturer_list: list->0 })
            } else {
                None
            }
        },
        _ => None,
    }
}

/// The top-level manufacturer-list envelope.
pub open spec fn manufacturer_list_response_of_json(j: JsonData) -> Option<
    ManufacturerListResponseView,
> {
    match j {
        JsonData::Obj(m) => {
            let errors = opt_errors_field(m);
            let list = match field_of(m, "MouserManufacturerList"@) {
                None => Some(None),
                Some(JsonData::Null) => Some(None),
                Some(inner) => match manufacturer_list_of_json(inner) {
                    Some(l) => Some(Some(l)),
                    None => None,
                },
            };
            if errors is Some && list is Some {
                Some(
                    ManufacturerListResponseView {
                        errors: errors->0,
                        mouser_manufacturer_list: list->0,
                    },
                )
            } else {
                None
            }
        },
        _ => None,
    }
}

fn get_opt_string(v: &serde_json::Value, key: &str) -> (r: Result<Option<String>, ()>)
    requires
        jv_model(*v) is Obj,
    ensures
        match opt_string_field(jv_model(*v)->Obj_0, key@) {
            Some(x) => r matches Ok(o) && opt_str_view(o) == x,
            None => r is Err,
        },
{
    match jv_get(v, key) {
        None => Ok(None),
        Some(f) => {
            if jv_is_null(f) {
                Ok(None)
            } else {
                match jv_as_str(f) {
                    Some(s) => Ok(Some(s)),
                    None => Err(()),
                }
            }
        },
    }
}

fn get_req_string(v: &serde_json::Value, key: &str) -> (r: Result<String, ()>)
    requires
        jv_model(*v) is Obj,
    ensures
        match req_string_field(jv_model(*v)->Obj_0, key@) {
            Some(x) => r matches Ok(s) && s@ == x,
            None => r is Err,
        },
{
    match jv_get(v, key) {
        None => Err(()),
        Some(f) => match jv_as_str(f) {
            Some(s) => Ok(s),
            None => Err(()),
        },
    }
}

fn get_opt_u64(v: &serde_json::Value, key: &str) -> (r: Result<Option<u64>, ()>)
    requires
        jv_model(*v) is Obj,
    ensures
        match opt_u64_field(jv_model(*v)->Obj_0, key@) {
            Some(x) => r == Ok::<Option<u64>, ()>(x),
            None => r is Err,
        },
{
    match jv_get(v, key) {
        None => Ok(None),
        Some(f) => {
            if jv_is_null(f) {
                Ok(None)
            } else {
                match jv_as_u64(f) {
                    Some(n) => Ok(Some(n)),
                    None => Err(()),
                }
            }
        },
    }
}

fn get_req_u32(v: &serde_json::Value, key: &str) -> (r: Result<u32, ()>)
    requires
        jv_model(*v) is Obj,
    ensures
        match req_u32_field(jv_model(*v)->Obj_0, key@) {
            Some(x) => r == Ok::<u32, ()>(x),
            None => r is Err,
        },
{
    match jv_get(v, key) {
        None => Err(()),
        Some(f) => match jv_as_u64(f) {
            Some(n) => if n <= 0xffff_ffff {
                Ok(n as u32)
            } else {
                Err(())
            },
            None => Err(()),
        },
    }
}

fn get_req_i32(v: &serde_json::Value, key: &str) -> (r: Result<i32, ()>)
    requires
        jv_model(*v) is Obj,
    ensures
        match req_i32_field(jv_model(*v)->Obj_0, key@) {
            Some(x) => r == Ok::<i32, ()>(x),
            None => r is Err,
        },
{
    match jv_get(v, key) {
        None => Err(()),
        Some(f) => match jv_as_i64(f) {
            Some(n) => if -0x8000_0000i64 <= n && n <= 0x7fff_ffffi64 {
                Ok(n as i32)
            } else {
                Err(())
            },
            None => Err(()),
        },
    }
}

fn get_opt_stock(v: &serde_json::Value, key: &str) -> (r: Result<Option<u32>, ()>)
    requires
        jv_model(*v) is Obj,
    ensures
        match opt_stock_field(jv_model(*v)->Obj_0, key@) {
            Some(x) => r == Ok::<Option<u32>, ()>(x),
            None => r is Err,
        },
{
    match jv_get(v, key) {
        None => Ok(None),
        Some(f) => {
            if jv_is_null(f) {
                Ok(None)
            } else {
                match jv_as_str(f) {
                    Some(s) => {
                        if s.as_str().is_empty() {
                            Ok(None)
                        } else {
                            match crate::numbers::parse_u32_text(s.as_str()) {
                                Some(n) => Ok(Some(n)),
                                None => Err(()),
                            }
                        }
                    },
                    None => match jv_as_u64(f) {
                        Some(n) => if n <= 0xffff_ffff {
                            Ok(Some(n as u32))
                        } else {
                            Err(())
                        },
                        None => Err(()),
                    },
                }
            }
        },
    }
}

/// Decodes one part record.
pub fn decode_part(v: &serde_json::Value) -> (r: Result<Part, ()>)
    ensures
        r matches Ok(p) ==> part_of_json(jv_model(*v)) == Some(p@),
        r is Err ==> part_of_json(jv_model(*v)) is None,
{
    if !jv_is_object(v) {
        return Err(());
    }
    let availability = get_opt_string(v, "Availability")?;
    let data_sheet_url = get_opt_string(v, "DataSheetUrl")?;
    let description = get_opt_string(v, "Description")?;
    let factory_stock = get_opt_string(v, "FactoryStock")?;
    let image_path = get_opt_string(v, "ImagePath")?;
    let category = get_opt_string(v, "Category")?;
    let lead_time = get_opt_string(v, "LeadTime")?;
    let lifecycle_status = get_opt_string(v, "LifecycleStatus")?;
    let manufacturer = get_opt_string(v, "Manufacturer")?;
    let manufacturer_part_number = get_opt_string(v, "ManufacturerPartNumber")?;
    let mouser_part_number = get_opt_string(v, "MouserPartNumber")?;
    let rohs_status = get_opt_string(v, "ROHSStatus")?;
    let availability_in_stock = get_opt_stock(v, "AvailabilityInStock")?;
    Ok(
        Part {
            availability,
            data_sheet_url,
            description,
            factory_stock,
            image_path,
            category,
            lead_time,
            lifecycle_status,
            manufacturer,
            manufacturer_part_number,
            mouser_part_number,
            rohs_status,
            availability_in_stock,
        },
    )
}

/// Decodes one vendor error record.
pub fn decode_error(v: &serde_json::Value) -> (r: Result<Error, ()>)
    ensures
        r matches Ok(e) ==> error_of_json(jv_model(*v)) == Some(e@),
        r is Err ==> error_of_json(jv_model(*v)) is None,
{
    if !jv_is_object(v) {
        return Err(());
    }
    let id = get_req_i32(v, "Id")?;
    let code = get_req_string(v, "Code")?;
    let message = get_req_string(v, "Message")?;
    let resource_key = get_req_string(v, "ResourceKey")?;
    let resource_format_string = get_opt_string(v, "ResourceFormatString")?;
    let resource_format_string2 = get_opt_string(v, "ResourceFormatString2")?;
    let property_name = get_opt_string(v, "PropertyName")?;
    Ok(
        Error {
            id,
            code,
            message,
            resource_key,
            resource_format_string,
            resource_format_string2,
            property_name,
        },
    )
}

/// Decodes one manufacturer record.
pub fn decode_manufacturer(v: &serde_json::Value) -> (r: Result<Manufacturer, ()>)
    ensures
        r matches Ok(m) ==> manufacturer_of_json(jv_model(*v)) == Some(m@),
        r is Err ==> manufacturer_of_json(jv_model(*v)) is None,
{
    if !jv_is_object(v) {
        return Err(());
    }
    let manufacturer_name = get_req_string(v, "ManufacturerName")?;
    let manufacturer_id = get_opt_u64(v, "ManufacturerId")?;
    Ok(Manufacturer { manufacturer_name, manufacturer_id })
}

fn decode_errors(a: &Vec<serde_json::Value>) -> (r: Result<Vec<Error>, ()>)
    ensures
        r matches Ok(es) ==> errors_of_seq(arr_model(a@)) == Some(errors_view(es@)),
        r is Err ==> errors_of_seq(arr_model(a@)) is None,
{
    let mut out: Vec<Error> = Vec::new();
    let n = a.len();
    let mut i: usize = 0;
    while i < n
        invariant
            i <= n,
            n == a@.len(),
            out@.len() == i,
            forall|k: int|
                0 <= k < i ==> (#[trigger] error_of_json(arr_model(a@)[k])) is Some,
            errors_view(out@) == Seq::new(i as nat, |k: int| error_of_json(arr_model(a@)[k])->0),
        decreases n - i,
    {
        match decode_error(&a[i]) {
            Ok(e) => {
                let ghost prev = out@;
                out.push(e);
                proof {
                    assert(arr_model(a@)[i as int] == jv_model(a@[i as int]));
                    assert(e@ == error_of_json(arr_model(a@)[i as int])->0);
                    assert forall|k: int| 0 <= k < i + 1 implies errors_view(out@)[k]
                        == error_of_json(arr_model(a@)[k])->0 by {
                        assert(errors_view(out@)[k] == out@[k]@);
                        if k < i {
                            assert(out@[k] == prev[k]);
                            assert(errors_view(prev)[k] == prev[k]@);
                        }
                    }
                    assert(errors_view(out@) =~= Seq::new(
                        (i + 1) as nat,
                        |k: int| error_of_json(arr_model(a@)[k])->0,
                    ));
                }
            },
            Err(()) => {
                proof {
                    assert(error_of_json(arr_model(a@)[i as int]) is None);
                }
                return Err(());
            },
        }
        i = i + 1;
    }
    proof {
        assert(errors_of_seq(arr_model(a@)) == Some(errors_view(out@)));
    }
    Ok(out)
}

fn decode_manufacturers(a: &Vec<serde_json::Value>) -> (r: Result<Vec<Manufacturer>, ()>)
    ensures
        r matches Ok(ms) ==> manufacturers_of_seq(arr_model(a@)) == Some(manufacturers_view(ms@)),
        r is Err ==> manufacturers_of_seq(arr_model(a@)) is None,
{
    let mut out: Vec<Manufacturer> = Vec::new();
    let n = a.len();
    let mut i: usize = 0;
    while i < n
        invariant
            i <= n,
            n == a@.len(),
            out@.len() == i,
            forall|k: int|
                0 <= k < i ==> (#[trigger] manufacturer_of_json(arr_model(a@)[k])) is Some,
            manufacturers_view(out@) == Seq::new(
                i as nat,
                |k: int| manufacturer_of_json(arr_model(a@)[k])->0,
            ),
        decreases n - i,
    {
        match decode_manufacturer(&a[i]) {
            Ok(m) => {
                let ghost prev = out@;
                out.push(m);
                proof {
                    assert(arr_model(a@)[i as int] == jv_model(a@[i as int]));
                    assert(m@ == manufacturer_of_json(arr_model(a@)[i as int])->0);
                    assert forall|k: int| 0 <= k < i + 1 implies manufacturers_view(out@)[k]
                        == manufacturer_of_json(arr_model(a@)[k])->0 by {
                        assert(manufacturers_view(out@)[k] == out@[k]@);
                        if k < i {
                            assert(out@[k] == prev[k]);
                            assert(manufacturers_view(prev)[k] == prev[k]@);
                        }
                    }
                    assert(manufacturers_view(out@) =~= Seq::new(
                        (i + 1) as nat,
                        |k: int| manufacturer_of_json(arr_model(a@)[k])->0,
                    ));
                }
            },
            Err(()) => {
                proof {
                    assert(manufacturer_of_json(arr_model(a@)[i as int]) is None);
                }
                return Err(());
            },
        }
        i = i + 1;
    }
    proof {
        assert(manufacturers_of_seq(arr_model(a@)) == Some(manufacturers_view(out@)));
    }
    Ok(out)
}

fn decode_parts(a: &Vec<serde_json::Value>) -> (r: Result<Vec<Part>, ()>)
    ensures
        r matches Ok(ps) ==> parts_of_seq(arr_model(a@)) == Some(parts_view(ps@)),
        r is Err ==> parts_of_seq(arr_model(a@)) is None,
{
    let mut out: Vec<Part> = Vec::new();
    let n = a.len();
    let mut i: usize = 0;
    while i < n
        invariant
            i <= n,
            n == a@.len(),
            out@.len() == i,
            forall|k: int|
                0 <= k < i ==> (#[trigger] part_of_json(arr_model(a@)[k])) is Some,
            parts_view(out@) == Seq::new(i as nat, |k: int| part_of_json(arr_model(a@)[k])->0),
        decreases n - i,
    {
        match decode_part(&a[i]) {
            Ok(p) => {
                let ghost prev = out@;
                out.push(p);
                proof {
                    assert(arr_model(a@)[i as int] == jv_model(a@[i as int]));
                    assert(p@ == part_of_json(arr_model(a@)[i as int])->0);
                    assert forall|k: int| 0 <= k < i + 1 implies parts_view(out@)[k]
                        == part_of_json(arr_model(a@)[k])->0 by {
                        assert(parts_view(out@)[k] == out@[k]@);
                        if k < i {
                            assert(out@[k] == prev[k]);
                            assert(parts_view(prev)[k] == prev[k]@);
                        }
                    }
                    assert(parts_view(out@) =~= Seq::new(
                        (i + 1) as nat,
                        |k: int| part_of_json(arr_model(a@)[k])->0,
                    ));
                }
            },
            Err(()) => {
                proof {
                    assert(part_of_json(arr_model(a@)[i as int]) is None);
                }
                return Err(());
            },
        }
        i = i + 1;
    }
    proof {
        assert(parts_of_seq(arr_model(a@)) == Some(parts_view(out@)));
    }
    Ok(out)
}

fn get_opt_errors(v: &serde_json::Value) -> (r: Result<Option<Vec<Error>>, ()>)
    requires
        jv_model(*v) is Obj,
    ensures
        match opt_errors_field(jv_model(*v)->Obj_0) {
            Some(x) => r matches Ok(o) && crate::model::opt_errors_view(o) == x,
            None => r is Err,
        },
{
    match jv_get(v, "Errors") {
        None => Ok(None),
        Some(f) => {
            if jv_is_null(f) {
                Ok(None)
            } else {
                match jv_as_array(f) {
                    Some(a) => match decode_errors(a) {
                        Ok(es) => Ok(Some(es)),
                        Err(()) => Err(()),
                    },
                    None => Err(()),
                }
            }
        },
    }
}

/// Decodes the inner payload of the part-search response.
pub fn decode_part_search_response(v: &serde_json::Value) -> (r: Result<PartSearchResponse, ()>)
    ensures
        r matches Ok(p) ==> part_search_response_of_json(jv_model(*v)) == Some(p@),
        r is Err ==> part_search_response_of_json(jv_model(*v)) is None,
{
    if !jv_is_object(v) {
        return Err(());
    }
    let number_of_result = get_req_i32(v, "NumberOfResult")?;
    let parts = match jv_get(v, "Parts") {
        None => Err(()),
        Some(f) => match jv_as_array(f) {
            Some(a) => decode_parts(a),
            None => Err(()),
        },
    }?;
    Ok(PartSearchResponse { number_of_result, parts })
}

/// Decodes the top-level part-search envelope.
pub fn decode_part_search_result(v: &serde_json::Value) -> (r: Result<PartSearchResult, ()>)
    ensures
        r matches Ok(p) ==> part_search_result_of_json(jv_model(*v)) == Some(p@),
        r is Err ==> part_search_result_of_json(jv_model(*v)) is None,
{
    if !jv_is_object(v) {
        return Err(());
    }
    let errors = get_opt_errors(v)?;
    let search_results = match jv_get(v, "SearchResults") {
        None => Ok(None),
        Some(f) => {
            if jv_is_null(f) {
                Ok(None)
            } else {
                match decode_part_search_response(f) {
                    Ok(p) => Ok(Some(p)),
                    Err(()) => Err(()),
                }
            }
        },
    }?;
    Ok(PartSearchResult { errors, search_results })
}

/// Decodes the inner payload of the manufacturer-list response.
pub fn decode_manufacturer_list(v: &serde_json::Value) -> (r: Result<ManufacturerList, ()>)
    ensures
        r matches Ok(l) ==> manufacturer_list_of_json(jv_model(*v)) == Some(l@),
        r is Err ==> manufacturer_list_of_json(jv_model(*v)) is None,
{
    if !jv_is_object(v) {
        return Err(());
    }
    let count = get_req_u32(v, "Count")?;
    let manufacturer_list = match jv_get(v, "ManufacturerList") {
        None => Err(()),
        Some(f) => match jv_as_array(f) {
            Some(a) => decode_manufacturers(a),
            None => Err(()),
        },
    }?;
    Ok(ManufacturerList { count, manufacturer_list })
}

/// Decodes the top-level manufacturer-list envelope.
pub fn decode_manufacturer_list_response(v: &serde_json::Value) -> (r: Result<
    ManufacturerListResponse,
    (),
>)
    ensures
        r matches Ok(p) ==> manufacturer_list_response_of_json(jv_model(*v)) == Some(p@),
        r is Err ==> manufacturer_list_response_of_json(jv_model(*v)) is None,
{
    if !jv_is_object(v) {
        return Err(());
    }
    let errors = get_opt_errors(v)?;
    let mouser_manufacturer_list = match jv_get(v, "MouserManufacturerList") {
        None => Ok(None),
        Some(f) => {
            if jv_is_null(f) {
                Ok(None)
            } else {
                match decode_manufacturer_list(f) {
                    Ok(l) => Ok(Some(l)),
                    Err(()) => Err(()),
                }
            }
        },
    }?;
    Ok(ManufacturerListResponse { errors, mouser_manufacturer_list })
}

} // verus!
