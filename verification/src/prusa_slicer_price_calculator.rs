//! The price calculator: a pure function from printing parameters, copy
//! count and the rate table to a total price in minor currency units.
//!
//! The price of one copy is the material cost (consumption times the
//! per-metre material rate, consumption being measured in millimetres) plus
//! the time cost (estimated seconds times the hourly rate of the selected
//! tier, scaled from hours to seconds).  Divisions floor.  The order pays a
//! single flat fee on top of the per-copy price.

use crate::global_types::{EvaluatedPrintingParameters, PrintMaterialType, PrinterConfiguration};
use vstd::prelude::*;

verus! {

/// The flat fee charged once per order, in minor currency units.
pub const EXTRA_FEE_PER_ORDER_GROSZE: u128 = 100;

/// The material rate for `m`, in minor currency units per metre.
pub open spec fn spec_material_rate(c: PrinterConfiguration, m: PrintMaterialType) -> int {
    match m {
        PrintMaterialType::PLA => c.material_rate_pla as int,
        PrintMaterialType::PET => c.material_rate_pet as int,
        PrintMaterialType::ASA => c.material_rate_asa as int,
    }
}

/// The `i`-th hour threshold of the rate table, in seconds.
pub open spec fn spec_threshold_seconds(c: PrinterConfiguration, i: int) -> int {
    c.hourly_rate_time_threshold[i] * 3600
}

/// The hourly-rate tier for an estimated time: the last tier whose threshold
/// the time exceeds, scanning the three tiers in ascending order and
/// stopping at the first tier whose threshold is not exceeded.
pub open spec fn spec_tier_index(c: PrinterConfiguration, time: int) -> int {
    if time > spec_threshold_seconds(c, 0) && time > spec_threshold_seconds(c, 1) && time
        > spec_threshold_seconds(c, 2) {
        2
    } else if time > spec_threshold_seconds(c, 0) && time > spec_threshold_seconds(c, 1) {
        1
    } else {
        0
    }
}

/// The hourly rate for material `m` at tier `i`, in major currency units per
/// hour.
pub open spec fn spec_hourly_rate(c: PrinterConfiguration, m: PrintMaterialType, i: int) -> int {
    match m {
        PrintMaterialType::PLA => c.hourly_rate_pla_price[i] as int,
        PrintMaterialType::PET => c.hourly_rate_pet_price[i] as int,
        PrintMaterialType::ASA => c.hourly_rate_asa_price[i] as int,
    }
}

/// The total price of an order, in minor currency units.
pub open spec fn spec_price(
    c: PrinterConfiguration,
    params: EvaluatedPrintingParameters,
    copies: u32,
) -> int {
    let material_cost = params.material_mm * spec_material_rate(c, params.material_type) / 1000;
    let time_cost = params.time * spec_hourly_rate(
        c,
        params.material_type,
        spec_tier_index(c, params.time as int),
    ) * 100 / 3600;
    (material_cost + time_cost) * copies + EXTRA_FEE_PER_ORDER_GROSZE
}

/// Prices one order against the rate table.
pub fn calculate_the_price(
    printer_configuration: &PrinterConfiguration,
    print_params: EvaluatedPrintingParameters,
    nr_copies: u32,
) -> (price: u128)
    ensures
        price == spec_price(*printer_configuration, print_params, nr_copies),
{
    let time_seconds = print_params.time;
    let material_mm = print_params.material_mm;

    let material_rate: u32 = match print_params.material_type {
        PrintMaterialType::PLA => printer_configuration.material_rate_pla,
        PrintMaterialType::PET => printer_configuration.material_rate_pet,
        PrintMaterialType::ASA => printer_configuration.material_rate_asa,
    };

    let t = time_seconds as u64;
    let thresholds = &printer_configuration.hourly_rate_time_threshold;
    let rate_index: usize = if t > thresholds[0] as u64 * 3600 && t > thresholds[1] as u64 * 3600
        && t > thresholds[2] as u64 * 3600 {
        2
    } else if t > thresholds[0] as u64 * 3600 && t > thresholds[1] as u64 * 3600 {
        1
    } else {
        0
    };
    assert(rate_index as int == spec_tier_index(*printer_configuration, time_seconds as int));

    let hourly_rate: u32 = match print_params.material_type {
        PrintMaterialType::PLA => printer_configuration.hourly_rate_pla_price[rate_index],
        PrintMaterialType::PET => printer_configuration.hourly_rate_pet_price[rate_index],
        PrintMaterialType::ASA => printer_configuration.hourly_rate_asa_price[rate_index],
    };

    proof {
        assert(material_mm as u128 * material_rate as u128 <= 0xffffffffffffffffu128) by(nonlinear_arith)
            requires
                material_mm <= 0xffffffffu32 && material_rate <= 0xffffffffu32;
        assert(time_seconds as u128 * hourly_rate as u128 <= 0xffffffffffffffffu128) by(nonlinear_arith)
            requires
                time_seconds <= 0xffffffffu32 && hourly_rate <= 0xffffffffu32;
    }
    let material_cost_grosze: u128 = material_mm as u128 * material_rate as u128 / 1000;
    let time_cost_grosze: u128 = time_seconds as u128 * hourly_rate as u128 * 100 / 3600;
    let gross_unit_price: u128 = material_cost_grosze + time_cost_grosze;
    proof {
        assert(gross_unit_price * nr_copies as u128 <= 0x3ffffffffffffffffffffffffu128) by(nonlinear_arith)
            requires
                gross_unit_price <= 0x1ffffffffffffffffu128 && nr_copies <= 0xffffffffu32;
    }
    gross_unit_price * nr_copies as u128 + EXTRA_FEE_PER_ORDER_GROSZE
}

/// A job with zero estimated time and zero material consumption costs
/// exactly the flat fee, whatever the rate table, material and copy count.
pub proof fn lemma_zero_job_costs_flat_fee(c: PrinterConfiguration, m: PrintMaterialType, copies: u32)
    ensures
        spec_price(
            c,
            EvaluatedPrintingParameters { time: 0, material_mm: 0, material_type: m },
            copies,
        ) == EXTRA_FEE_PER_ORDER_GROSZE,
{
    let params = EvaluatedPrintingParameters { time: 0, material_mm: 0, material_type: m };
    assert(0 * spec_material_rate(c, m) == 0) by(nonlinear_arith);
    assert(0 * spec_hourly_rate(c, m, spec_tier_index(c, 0)) == 0) by(nonlinear_arith);
    assert((0 as int / 1000 + 0 * 100 / 3600) * copies == 0) by(nonlinear_arith);
}

} // verus!
