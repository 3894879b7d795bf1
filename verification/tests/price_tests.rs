use print_price_evaluator::global_types::{EvaluatedPrintingParameters, PrintMaterialType,
    PrinterConfiguration};
use print_price_evaluator::prusa_slicer_price_calculator::calculate_the_price;

fn default_printer_configuration() -> PrinterConfiguration {
    PrinterConfiguration {
        material_rate_pla: 60, // minor units per metre
        material_rate_pet: 80,
        material_rate_asa: 100,
        hourly_rate_time_threshold: [0, 10, 100], // hours
        hourly_rate_pla_price: [30, 25, 20],      // major units per hour
        hourly_rate_pet_price: [35, 30, 25],
        hourly_rate_asa_price: [40, 35, 30],
    }
}

#[test]
fn test_calculate_the_price_simple_pla() {
    let printer_config = default_printer_configuration();
    let print_params = EvaluatedPrintingParameters {
        time: 3600,        // 1 hour
        material_mm: 1000, // 1 metre
        material_type: PrintMaterialType::PLA,
    };
    let nr_copies = 7;
    let price = calculate_the_price(&printer_config, print_params, nr_copies);
    let price_pln = price as f64 / 100.0;
    println!("Price for 7 copies of PLA: {:.2} PLN", price_pln);
    let expected = 7.0 * (0.6 + 30.0) + 1.0; // 0.6 for material + 30 for 1 hour + 1 flat fee
    assert!(
        (price_pln - expected).abs() < 1e-2,
        "price: {}, expected: {}",
        price_pln,
        expected
    );
}

#[test]
fn test_calculate_the_price_exact_minor_units() {
    let printer_config = default_printer_configuration();
    let print_params = EvaluatedPrintingParameters {
        time: 3600,
        material_mm: 1000,
        material_type: PrintMaterialType::PLA,
    };
    let price = calculate_the_price(&printer_config, print_params, 7);
    assert_eq!(price, 21520); // 215.20 in minor units
}

#[test]
fn test_calculate_the_price_zero_job_costs_flat_fee() {
    let printer_config = default_printer_configuration();
    let print_params = EvaluatedPrintingParameters {
        time: 0,
        material_mm: 0,
        material_type: PrintMaterialType::ASA,
    };
    let price = calculate_the_price(&printer_config, print_params, 5);
    assert_eq!(price, 100); // the flat fee alone
}

#[test]
fn test_calculate_the_price_tier_selection() {
    let printer_config = default_printer_configuration();
    // 20 hours exceeds the 10-hour threshold: the middle PET tier, 30/h.
    let print_params = EvaluatedPrintingParameters {
        time: 20 * 3600,
        material_mm: 0,
        material_type: PrintMaterialType::PET,
    };
    let price = calculate_the_price(&printer_config, print_params, 1);
    assert_eq!(price, 20 * 30 * 100 + 100);
}

#[test]
fn test_calculate_the_price_highest_tier() {
    let printer_config = default_printer_configuration();
    // 200 hours exceeds the 100-hour threshold: the last ASA tier, 30/h.
    let print_params = EvaluatedPrintingParameters {
        time: 200 * 3600,
        material_mm: 0,
        material_type: PrintMaterialType::ASA,
    };
    let price = calculate_the_price(&printer_config, print_params, 1);
    assert_eq!(price, 200 * 30 * 100 + 100);
}
