use print_price_evaluator::database_type_conversions::{current_timestamp, datetime_parse_ok,
    parse_order_record, str_to_print_material_type, str_to_print_type, str_to_status_type};
use print_price_evaluator::global_types::{PrintMaterialType, PrintType, StatusType};
use print_price_evaluator::text::{str_eq, str_has_prefix, u32_to_string};

#[test]
fn test_str_to_print_material_type() {
    assert!(matches!(str_to_print_material_type("PLA"), Ok(PrintMaterialType::PLA)));
    assert!(matches!(str_to_print_material_type("PET"), Ok(PrintMaterialType::PET)));
    assert!(matches!(str_to_print_material_type("ASA"), Ok(PrintMaterialType::ASA)));
    assert_eq!(str_to_print_material_type("pla"), Err("Unknown material type"));
}

#[test]
fn test_str_to_status_type() {
    assert!(matches!(str_to_status_type("New"), Ok(StatusType::New)));
    assert!(matches!(str_to_status_type("InProgress"), Ok(StatusType::InProgress)));
    assert!(matches!(str_to_status_type("Completed"), Ok(StatusType::Completed)));
    assert!(matches!(str_to_status_type("Canceled"), Ok(StatusType::Canceled)));
    assert_eq!(str_to_status_type("Done"), Err("Unknown status type"));
}

#[test]
fn test_str_to_print_type() {
    assert!(matches!(str_to_print_type("Standard"), Ok(PrintType::Standard)));
    assert!(matches!(str_to_print_type("Precise"), Ok(PrintType::Precise)));
    assert!(matches!(str_to_print_type("ThickLayer"), Ok(PrintType::ThickLayer)));
    assert!(matches!(str_to_print_type("FullFill"), Ok(PrintType::FullFill)));
    assert_eq!(str_to_print_type("Draft"), Err("Unknown print type"));
}

#[test]
fn test_datetime_parse_ok_accepts_the_store_format() {
    assert!(datetime_parse_ok("2024-01-01 10:00:00"));
    assert!(!datetime_parse_ok("2024-13-01 10:00:00"));
    assert!(!datetime_parse_ok("not a date"));
}

#[test]
fn test_current_timestamp_parses_back() {
    let now = current_timestamp();
    assert!(datetime_parse_ok(now.as_str()));
}

#[test]
fn test_parse_order_record_valid_row() {
    let rec = parse_order_record(
        "2024-01-01 10:00:00".to_string(),
        "John Doe".to_string(),
        "john.doe@example.com".to_string(),
        3,
        "file.stl".to_string(),
        21520,
        "PET",
        "Precise",
        "InProgress",
    )
    .unwrap();
    assert_eq!(rec.date, "2024-01-01 10:00:00");
    assert_eq!(rec.copies_nbr, 3);
    assert_eq!(rec.price_grosze, 21520);
    assert!(matches!(rec.material_type, PrintMaterialType::PET));
    assert!(matches!(rec.print_type, PrintType::Precise));
    assert!(matches!(rec.status, StatusType::InProgress));
}

#[test]
fn test_parse_order_record_rejects_bad_date() {
    let r = parse_order_record(
        "yesterday".to_string(),
        "John Doe".to_string(),
        "john.doe@example.com".to_string(),
        1,
        "file.stl".to_string(),
        100,
        "PLA",
        "Standard",
        "New",
    );
    assert_eq!(r.err().unwrap(), "Wrong date format");
}

#[test]
fn test_parse_order_record_rejects_unknown_fields() {
    let r = parse_order_record(
        "2024-01-01 10:00:00".to_string(),
        "John Doe".to_string(),
        "john.doe@example.com".to_string(),
        1,
        "file.stl".to_string(),
        100,
        "WOOD",
        "Standard",
        "New",
    );
    assert_eq!(r.err().unwrap(), "Unknown material type");
    let r = parse_order_record(
        "2024-01-01 10:00:00".to_string(),
        "John Doe".to_string(),
        "john.doe@example.com".to_string(),
        1,
        "file.stl".to_string(),
        100,
        "PLA",
        "Sloppy",
        "New",
    );
    assert_eq!(r.err().unwrap(), "Unknown print type");
    let r = parse_order_record(
        "2024-01-01 10:00:00".to_string(),
        "John Doe".to_string(),
        "john.doe@example.com".to_string(),
        1,
        "file.stl".to_string(),
        100,
        "PLA",
        "Standard",
        "Paused",
    );
    assert_eq!(r.err().unwrap(), "Unknown status type");
}

#[test]
fn test_text_helpers() {
    assert_eq!(u32_to_string(0), "0");
    assert_eq!(u32_to_string(4294967295), "4294967295");
    assert!(str_eq("abc", "abc"));
    assert!(!str_eq("abc", "abd"));
    assert!(str_has_prefix("abcdef", "abc"));
    assert!(!str_has_prefix("ab", "abc"));
    assert!(str_has_prefix("abc", ""));
}
