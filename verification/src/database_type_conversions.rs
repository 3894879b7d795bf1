//! Conversions between the textual column values of the backing store and
//! the typed data model: the closed enumerations are parsed exactly, and a
//! record's timestamp text is checked against the store's datetime format.

use crate::global_types::{EvaluationResult, OrderView, PrintMaterialType, PrintType, StatusType};
use crate::text::str_eq;
use vstd::prelude::*;

verus! {

/// The material named by `s`, if any.
pub open spec fn spec_material_of_str(s: Seq<char>) -> Option<PrintMaterialType> {
    if s == "PLA"@ {
        Some(PrintMaterialType::PLA)
    } else if s == "PET"@ {
        Some(PrintMaterialType::PET)
    } else if s == "ASA"@ {
        Some(PrintMaterialType::ASA)
    } else {
        None
    }
}

/// The status named by `s`, if any.
pub open spec fn spec_status_of_str(s: Seq<char>) -> Option<StatusType> {
    if s == "New"@ {
        Some(StatusType::New)
    } else if s == "InProgress"@ {
        Some(StatusType::InProgress)
    } else if s == "Completed"@ {
        Some(StatusType::Completed)
    } else if s == "Canceled"@ {
        Some(StatusType::Canceled)
    } else {
        None
    }
}

/// The print-quality mode named by `s`, if any.
pub open spec fn spec_print_type_of_str(s: Seq<char>) -> Option<PrintType> {
    if s == "Standard"@ {
        Some(PrintType::Standard)
    } else if s == "Precise"@ {
        Some(PrintType::Precise)
    } else if s == "ThickLayer"@ {
        Some(PrintType::ThickLayer)
    } else if s == "FullFill"@ {
        Some(PrintType::FullFill)
    } else {
        None
    }
}

/// Parses a material name; exactly the three material names are accepted.
pub fn str_to_print_material_type(material: &str) -> (r: Result<PrintMaterialType, &'static str>)
    ensures
        match spec_material_of_str(material@) {
            Some(m) => r == Ok::<PrintMaterialType, &'static str>(m),
            None => r matches Err(e) && e@ == "Unknown material type"@,
        },
{
    if str_eq(material, "PLA") {
        Ok(PrintMaterialType::PLA)
    } else if str_eq(material, "PET") {
        Ok(PrintMaterialType::PET)
    } else if str_eq(material, "ASA") {
        Ok(PrintMaterialType::ASA)
    } else {
        Err("Unknown material type")
    }
}

/// Parses a status name; exactly the four status names are accepted.
pub fn str_to_status_type(status: &str) -> (r: Result<StatusType, &'static str>)
    ensures
        match spec_status_of_str(status@) {
            Some(s) => r == Ok::<StatusType, &'static str>(s),
            None => r matches Err(e) && e@ == "Unknown status type"@,
        },
{
    if str_eq(status, "New") {
        Ok(StatusType::New)
    } else if str_eq(status, "InProgress") {
        Ok(StatusType::InProgress)
    } else if str_eq(status, "Completed") {
        Ok(StatusType::Completed)
    } else if str_eq(status, "Canceled") {
        Ok(StatusType::Canceled)
    } else {
        Err("Unknown status type")
    }
}

/// Parses a print-quality mode name; exactly the four mode names are
/// accepted.
pub fn str_to_print_type(print_type: &str) -> (r: Result<PrintType, &'static str>)
    ensures
        match spec_print_type_of_str(print_type@) {
            Some(p) => r == Ok::<PrintType, &'static str>(p),
            None => r matches Err(e) && e@ == "Unknown print type"@,
        },
{
    if str_eq(print_type, "Standard") {
        Ok(PrintType::Standard)
    } else if str_eq(print_type, "Precise") {
        Ok(PrintType::Precise)
    } else if str_eq(print_type, "ThickLayer") {
        Ok(PrintType::ThickLayer)
    } else if str_eq(print_type, "FullFill") {
        Ok(PrintType::FullFill)
    } else {
        Err("Unknown print type")
    }
}

/// Whether chrono accepts `s` as a `%Y-%m-%d %H:%M:%S` datetime.  The answer
/// depends on the characters of `s` alone.
pub uninterp spec fn chrono_parses(s: Seq<char>) -> bool;

/// Relies on `chrono::NaiveDateTime::parse_from_str` with the fixed format
/// `%Y-%m-%d %H:%M:%S`: whether the text is a well-formed datetime is a
/// function of the text alone.
#[verifier::external_body]
pub fn datetime_parse_ok(date_str: &str) -> (r: bool)
    ensures
        r == chrono_parses(date_str@),
{
    chrono::NaiveDateTime::parse_from_str(date_str, "%Y-%m-%d %H:%M:%S").is_ok()
}

/// Relies on `chrono::Utc::now` and `chrono::DateTime::format` with the
/// fixed format `%Y-%m-%d %H:%M:%S`: returns the current UTC time as text.
/// Nothing is promised of the result; it depends on the clock.
#[verifier::external_body]
pub fn current_timestamp() -> String {
    chrono::Utc::now().format("%Y-%m-%d %H:%M:%S").to_string()
}

/// Builds an order record out of the textual column values of one stored
/// row, validating each closed field: the timestamp must parse as a
/// datetime, and material, print type and status must name members of
/// their enumerations.  The first failing field, checked in that order,
/// names the error.
pub fn parse_order_record(
    date: String,
    name: String,
    email: String,
    copies_nbr: u32,
    file_name: String,
    price_grosze: u128,
    material_type: &str,
    print_type: &str,
    status: &str,
) -> (r: Result<EvaluationResult, &'static str>)
    ensures
        match r {
            Ok(rec) => chrono_parses(date@) && (spec_material_of_str(material_type@) matches Some(m)
                && spec_print_type_of_str(print_type@) matches Some(p) && spec_status_of_str(
                status@,
            ) matches Some(st) && rec@ == (OrderView {
                date: date@,
                name: name@,
                email: email@,
                copies_nbr: copies_nbr as int,
                file_name: file_name@,
                price_grosze: price_grosze as int,
                material_type: m,
                print_type: p,
                status: st,
            })),
            Err(e) => if !chrono_parses(date@) {
                e@ == "Wrong date format"@
            } else if spec_material_of_str(material_type@) is None {
                e@ == "Unknown material type"@
            } else if spec_print_type_of_str(print_type@) is None {
                e@ == "Unknown print type"@
            } else {
                spec_status_of_str(status@) is None && e@ == "Unknown status type"@
            },
        },
{
    if !datetime_parse_ok(date.as_str()) {
        return Err("Wrong date format");
    }
    let material = match str_to_print_material_type(material_type) {
        Ok(m) => m,
        Err(_) => {
            return Err("Unknown material type");
        },
    };
    let print = match str_to_print_type(print_type) {
        Ok(p) => p,
        Err(_) => {
            return Err("Unknown print type");
        },
    };
    let st = match str_to_status_type(status) {
        Ok(s) => s,
        Err(_) => {
            return Err("Unknown status type");
        },
    };
    Ok(
        EvaluationResult {
            date,
            name,
            email,
            copies_nbr,
            file_name,
            price_grosze,
            material_type: material,
            print_type: print,
            status: st,
        },
    )
}

} // verus!
