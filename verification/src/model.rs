//! Typed records for the three JSON response shapes the vendor API returns,
//! with mathematical views over which all contracts are stated.

use vstd::prelude::*;

verus! {

/// One catalog entry of a part search.  Every field is optional: the
/// upstream schema does not guarantee a complete record per result.
#[derive(Debug, PartialEq)]
pub struct Part {
    pub availability: Option<String>,
    pub data_sheet_url: Option<String>,
    pub description: Option<String>,
    pub factory_stock: Option<String>,
    pub image_path: Option<String>,
    pub category: Option<String>,
    pub lead_time: Option<String>,
    pub lifecycle_status: Option<String>,
    pub manufacturer: Option<String>,
    pub manufacturer_part_number: Option<String>,
    pub mouser_part_number: Option<String>,
    pub rohs_status: Option<String>,
    pub availability_in_stock: Option<u32>,
}

pub ghost struct PartView {
    pub availability: Option<Seq<char>>,
    pub data_sheet_url: Option<Seq<char>>,
    pub description: Option<Seq<char>>,
    pub factory_stock: Option<Seq<char>>,
    pub image_path: Option<Seq<char>>,
    pub category: Option<Seq<char>>,
    pub lead_time: Option<Seq<char>>,
    pub lifecycle_status: Option<Seq<char>>,
    pub manufacturer: Option<Seq<char>>,
    pub manufacturer_part_number: Option<Seq<char>>,
    pub mouser_part_number: Option<Seq<char>>,
    pub rohs_status: Option<Seq<char>>,
    pub availability_in_stock: Option<u32>,
}

pub open spec fn opt_str_view(o: Option<String>) -> Option<Seq<char>> {
    match o {
        Option::Some(s) => Option::Some(s@),
        Option::None => Option::None,
    }
}

impl View for Part {
    type V = PartView;

    open spec fn view(&self) -> PartView {
        PartView {
            availability: opt_str_view(self.availability),
            data_sheet_url: opt_str_view(self.data_sheet_url),
            description: opt_str_view(self.description),
            factory_stock: opt_str_view(self.factory_stock),
            image_path: opt_str_view(self.image_path),
            category: opt_str_view(self.category),
            lead_time: opt_str_view(self.lead_time),
            lifecycle_status: opt_str_view(self.lifecycle_status),
            manufacturer: opt_str_view(self.manufacturer),
            manufacturer_part_number: opt_str_view(self.manufacturer_part_number),
            mouser_part_number: opt_str_view(self.mouser_part_number),
            rohs_status: opt_str_view(self.rohs_status),
            availability_in_stock: self.availability_in_stock,
        }
    }
}

/// One manufacturer of the manufacturer-list response.  The numeric
/// identifier is absent for some vendor records.
#[derive(Debug, PartialEq)]
pub struct Manufacturer {
    pub manufacturer_name: String,
    pub manufacturer_id: Option<u64>,
}

pub ghost struct ManufacturerView {
    pub manufacturer_name: Seq<char>,
    pub manufacturer_id: Option<u64>,
}

impl View for Manufacturer {
    type V = ManufacturerView;

    open spec fn view(&self) -> ManufacturerView {
        ManufacturerView {
            manufacturer_name: self.manufacturer_name@,
            manufacturer_id: self.manufacturer_id,
        }
    }
}

/// A structured error record the vendor embeds inside otherwise
/// successful responses.
#[derive(Debug, PartialEq)]
pub struct Error {
    pub id: i32,
    pub code: String,
    pub message: String,
    pub resource_key: String,
    pub resource_format_string: Option<String>,
    pub resource_format_string2: Option<String>,
    pub property_name: Option<String>,
}

pub ghost struct ErrorView {
    pub id: i32,
    pub code: Seq<char>,
    pub message: Seq<char>,
    pub resource_key: Seq<char>,
    pub resource_format_string: Option<Seq<char>>,
    pub resource_format_string2: Option<Seq<char>>,
    pub property_name: Option<Seq<char>>,
}

impl View for Error {
    type V = ErrorView;

    open spec fn view(&self) -> ErrorView {
        ErrorView {
            id: self.id,
            code: self.code@,
            message: self.message@,
            resource_key: self.resource_key@,
            resource_format_string: opt_str_view(self.resource_format_string),
            resource_format_string2: opt_str_view(self.resource_format_string2),
            property_name: opt_str_view(self.property_name),
        }
    }
}

/// The inner payload of the manufacturer-list response.
#[derive(Debug, PartialEq)]
pub struct ManufacturerList {
    pub count: u32,
    pub manufacturer_list: Vec<Manufacturer>,
}

pub ghost struct ManufacturerListView {
    pub count: u32,
    pub manufacturer_list: Seq<ManufacturerView>,
}

pub open spec fn manufacturers_view(v: Seq<Manufacturer>) -> Seq<ManufacturerView> {
    v.map_values(|m: Manufacturer| m@)
}

impl View for ManufacturerList {
    type V = ManufacturerListView;

    open spec fn view(&self) -> ManufacturerListView {
        ManufacturerListView {
            count: self.count,
            manufacturer_list: manufacturers_view(self.manufacturer_list@),
        }
    }
}

/// Top-level envelope of the manufacturer-list response.
#[derive(Debug, PartialEq)]
pub struct ManufacturerListResponse {
    pub errors: Option<Vec<Error>>,
    pub mouser_manufacturer_list: Option<ManufacturerList>,
}

pub ghost struct ManufacturerListResponseView {
    pub errors: Option<Seq<ErrorView>>,
    pub mouser_manufacturer_list: Option<ManufacturerListView>,
}

pub open spec fn errors_view(v: Seq<Error>) -> Seq<ErrorView> {
    v.map_values(|e: Error| e@)
}

pub open spec fn opt_errors_view(o: Option<Vec<Error>>) -> Option<Seq<ErrorView>> {
    match o {
        Option::Some(v) => Option::Some(errors_view(v@)),
        Option::None => Option::None,
    }
}

impl View for ManufacturerListResponse {
    type V = ManufacturerListResponseView;

    open spec fn view(&self) -> ManufacturerListResponseView {
        ManufacturerListResponseView {
            errors: opt_errors_view(self.errors),
            mouser_manufacturer_list: match self.mouser_manufacturer_list {
                Option::Some(l) => Option::Some(l@),
                Option::None => Option::None,
            },
        }
    }
}

/// The inner payload of the part-search response.
#[derive(Debug, PartialEq)]
pub struct PartSearchResponse {
    pub number_of_result: i32,
    pub parts: Vec<Part>,
}

pub ghost struct PartSearchResponseView {
    pub number_of_result: i32,
    pub parts: Seq<PartView>,
}

pub open spec fn parts_view(v: Seq<Part>) -> Seq<PartView> {
    v.map_values(|p: Part| p@)
}

impl View for PartSearchResponse {
    type V = PartSearchResponseView;

    open spec fn view(&self) -> PartSearchResponseView {
        PartSearchResponseView {
            number_of_result: self.number_of_result,
            parts: parts_view(self.parts@),
        }
    }
}

/// Top-level envelope of the part-search response.  The error list and the
/// payload are independently optional: the vendor can return HTTP 200 with
/// semantic errors instead of an HTTP error status, so callers must check
/// for a non-empty error list before trusting the payload.
#[derive(Debug, PartialEq)]
pub struct PartSearchResult {
    pub errors: Option<Vec<Error>>,
    pub search_results: Option<PartSearchResponse>,
}

pub ghost struct PartSearchResultView {
    pub errors: Option<Seq<ErrorView>>,
    pub search_results: Option<PartSearchResponseView>,
}

impl View for PartSearchResult {
    type V = PartSearchResultView;

    open spec fn view(&self) -> PartSearchResultView {
        PartSearchResultView {
            errors: opt_errors_view(self.errors),
            search_results: match self.search_results {
                Option::Some(r) => Option::Some(r@),
                Option::None => Option::None,
            },
        }
    }
}

} // verus!
