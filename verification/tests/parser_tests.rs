use print_price_evaluator::global_types::PrintMaterialType;
use print_price_evaluator::prusa_slicer_cli::{ExtractionError, PrusaSlicerCli,
    extract_material_from_line, extract_time_from_line, parse_gcode_report};

fn lines(raw: &[&str]) -> Vec<String> {
    raw.iter().map(|s| s.to_string()).collect()
}

#[test]
fn test_extract_time_full_components() {
    let line = "; estimated printing time (normal mode) = 1h 2m 3s";
    assert_eq!(extract_time_from_line(line), Some(Some(3600 + 120 + 3)));
}

#[test]
fn test_extract_time_minutes_and_seconds() {
    let line = "; estimated printing time (normal mode) = 12m 3s";
    assert_eq!(extract_time_from_line(line), Some(Some(723)));
}

#[test]
fn test_extract_time_seconds_only() {
    let line = "; estimated printing time (normal mode) = 42s";
    assert_eq!(extract_time_from_line(line), Some(Some(42)));
}

#[test]
fn test_extract_time_rejects_trailing_text() {
    let line = "; estimated printing time (normal mode) = 1h 2m 3s extra";
    assert_eq!(extract_time_from_line(line), None);
}

#[test]
fn test_extract_time_rejects_missing_seconds() {
    let line = "; estimated printing time (normal mode) = 1h 2m";
    assert_eq!(extract_time_from_line(line), None);
}

#[test]
fn test_extract_time_overflowing_value_matches_without_value() {
    let line = "; estimated printing time (normal mode) = 99999999999999999999h 0m 0s";
    assert_eq!(extract_time_from_line(line), Some(None));
}

#[test]
fn test_extract_material_reads_leading_digits() {
    let line = "; filament used [mm] = 5678.90";
    assert_eq!(extract_material_from_line(line), Some(Some(5678)));
}

#[test]
fn test_extract_material_requires_a_digit() {
    let line = "; filament used [mm] = none";
    assert_eq!(extract_material_from_line(line), None);
}

#[test]
fn test_parse_gcode_report_reads_both_fields() {
    let report = lines(&[
        "; generated today",
        "; estimated printing time (normal mode) = 1h 0m 0s",
        "M104 S0",
        "; filament used [mm] = 1000",
    ]);
    let params = parse_gcode_report(&report, PrintMaterialType::PET).unwrap();
    assert_eq!(params.time, 3600);
    assert_eq!(params.material_mm, 1000);
    assert!(matches!(params.material_type, PrintMaterialType::PET));
}

#[test]
fn test_parse_gcode_report_last_match_wins() {
    let report = lines(&[
        "; estimated printing time (normal mode) = 10s",
        "; filament used [mm] = 1",
        "; estimated printing time (normal mode) = 20s",
        "; filament used [mm] = 2",
    ]);
    let params = parse_gcode_report(&report, PrintMaterialType::PLA).unwrap();
    assert_eq!(params.time, 20);
    assert_eq!(params.material_mm, 2);
}

#[test]
fn test_parse_gcode_report_missing_time_is_distinct() {
    let report = lines(&["; filament used [mm] = 1000"]);
    assert_eq!(
        parse_gcode_report(&report, PrintMaterialType::PLA),
        Err(ExtractionError::MissingTime)
    );
}

#[test]
fn test_parse_gcode_report_missing_material_is_distinct() {
    let report = lines(&["; estimated printing time (normal mode) = 10s"]);
    assert_eq!(
        parse_gcode_report(&report, PrintMaterialType::PLA),
        Err(ExtractionError::MissingMaterial)
    );
}

#[test]
fn test_parse_gcode_report_empty_report_misses_time_first() {
    let report: Vec<String> = Vec::new();
    assert_eq!(
        parse_gcode_report(&report, PrintMaterialType::PLA),
        Err(ExtractionError::MissingTime)
    );
}

#[test]
fn test_extraction_errors_have_distinct_messages() {
    assert_ne!(
        ExtractionError::MissingTime.message(),
        ExtractionError::MissingMaterial.message()
    );
}

#[test]
fn test_slicer_cli_paths() {
    assert_eq!(
        PrusaSlicerCli::config_file_path("/ws"),
        "/ws/data_files/prusa_config.ini"
    );
    assert_eq!(
        PrusaSlicerCli::received_order_path("/ws", "part.stl"),
        "/ws/data_files/received_orders/part.stl"
    );
    assert_eq!(
        PrusaSlicerCli::processed_order_path("/ws", "part.stl"),
        "/ws/data_files/processed_orders/part.stl.gcode"
    );
}
