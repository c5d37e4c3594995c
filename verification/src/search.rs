//! The two operations' response handling: parse the body against the
//! expected envelope, apply the vendor's error-list convention, and hand
//! the payload out.
//!
//! The contracts pin the whole path down: a body that does not match the
//! schema yields the decode failure carrying that body verbatim; a
//! non-empty vendor error list yields the vendor failure carrying exactly
//! those records, whether or not a payload is present; otherwise the
//! payload's collection is returned unmodified, and a response with
//! neither errors nor payload is a hard failure.

use vstd::prelude::*;

use crate::decode::{
    decode_manufacturer_list_response, decode_part_search_result, manufacturer_list_response_of_json,
    part_search_result_of_json,
};
use crate::json::{json_of, jv_parse};
use crate::model::{
    errors_view, manufacturers_view, parts_view, Manufacturer, ManufacturerListResponse,
    ManufacturerListResponseView, Part, PartSearchResult, PartSearchResultView,
};

verus! {

/// What a part-search response body denotes: the envelope, if the body is
/// a JSON document matching the part-search schema.
pub open spec fn part_search_of_text(t: Seq<char>) -> Option<PartSearchResultView> {
    match json_of(t) {
        Some(j) => part_search_result_of_json(j),
        None => None,
    }
}

/// What a manufacturer-list response body denotes.
pub open spec fn manufacturer_list_of_text(t: Seq<char>) -> Option<ManufacturerListResponseView> {
    match json_of(t) {
        Some(j) => manufacturer_list_response_of_json(j),
        None => None,
    }
}

/// Parses a part-search response body into its typed envelope.  Fails with
/// the decode-failure variant, carrying the body verbatim, exactly when
/// the body does not match the schema.
pub fn parse_part_search_response(body: &str) -> (r: Result<PartSearchResult, crate::Error>)
    ensures
        r is Ok <==> part_search_of_text(body@) is Some,
        r matches Ok(p) ==> part_search_of_text(body@) == Some(p@),
        r matches Err(e) ==> e matches crate::Error::Decode { text } && text@ == body@,
{
    match jv_parse(body) {
        None => Err(crate::Error::Decode { text: body.to_owned() }),
        Some(v) => match decode_part_search_result(&v) {
            Ok(p) => Ok(p),
            Err(()) => Err(crate::Error::Decode { text: body.to_owned() }),
        },
    }
}

/// Parses a manufacturer-list response body into its typed envelope.
/// Fails with the decode-failure variant, carrying the body verbatim,
/// exactly when the body does not match the schema.
pub fn parse_manufacturer_list_response(body: &str) -> (r: Result<
    ManufacturerListResponse,
    crate::Error,
>)
    ensures
        r is Ok <==> manufacturer_list_of_text(body@) is Some,
        r matches Ok(p) ==> manufacturer_list_of_text(body@) == Some(p@),
        r matches Err(e) ==> e matches crate::Error::Decode { text } && text@ == body@,
{
    match jv_parse(body) {
        None => Err(crate::Error::Decode { text: body.to_owned() }),
        Some(v) => match decode_manufacturer_list_response(&v) {
            Ok(p) => Ok(p),
            Err(()) => Err(crate::Error::Decode { text: body.to_owned() }),
        },
    }
}

/// The part-search outcome for a response body.
///
/// A body that does not match the schema yields the decode failure with
/// that body; an envelope with a non-empty error list yields the vendor
/// failure carrying exactly those records, payload or no payload; an
/// envelope with a payload yields the payload's parts unmodified; an
/// envelope with neither is a hard failure.
pub fn part_results(body: &str) -> (r: Result<Vec<Part>, crate::Error>)
    ensures
        match part_search_of_text(body@) {
            None => r matches Err(e) && (e matches crate::Error::Decode { text } && text@
                == body@),
            Some(env) => if env.errors is Some && env.errors->0.len() > 0 {
                r matches Err(e) && (e matches crate::Error::Vendor { errors } && errors_view(
                    errors@,
                ) == env.errors->0)
            } else if env.search_results is Some {
                r matches Ok(parts) && parts_view(parts@) == env.search_results->0.parts
            } else {
                r matches Err(e) && e is Message
            },
        },
{
    let response = match parse_part_search_response(body) {
        Ok(p) => p,
        Err(e) => {
            return Err(e);
        },
    };
    let PartSearchResult { errors, search_results } = response;
    match errors {
        Some(es) => {
            if es.len() > 0 {
                return Err(crate::Error::Vendor { errors: es });
            }
        },
        None => (),
    }
    match search_results {
        Some(sr) => Ok(sr.parts),
        None => Err(
            crate::Error::Message {
                message: "part search response held neither errors nor results".to_owned(),
            },
        ),
    }
}

/// The manufacturer-list outcome for a response body.
///
/// A body that does not match the schema yields the decode failure with
/// that body; an envelope with a payload yields the payload's
/// manufacturers unmodified; an envelope without one is a hard failure.
/// The envelope's error list is not consulted, as the operation has always
/// ignored it.
pub fn manufacturer_list_results(body: &str) -> (r: Result<Vec<Manufacturer>, crate::Error>)
    ensures
        match manufacturer_list_of_text(body@) {
            None => r matches Err(e) && (e matches crate::Error::Decode { text } && text@
                == body@),
            Some(env) => match env.mouser_manufacturer_list {
                Some(ml) => r matches Ok(ms) && manufacturers_view(ms@) == ml.manufacturer_list,
                None => r matches Err(e) && e is Message,
            },
        },
{
    let response = match parse_manufacturer_list_response(body) {
        Ok(p) => p,
        Err(e) => {
            return Err(e);
        },
    };
    match response.mouser_manufacturer_list {
        Some(ml) => Ok(ml.manufacturer_list),
        None => Err(
            crate::Error::Message {
                message: "manufacturer list response held no manufacturer list".to_owned(),
            },
        ),
    }
}

} // verus!
