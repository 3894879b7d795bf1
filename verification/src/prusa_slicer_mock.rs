//! A slicer stand-in with fixed answers, for exercising the interface and
//! the pipeline without the real executable.

use crate::global_traits::SlicerInterfaceImpl;
use crate::global_types::{EvaluatedPrintingParameters, PrintMaterialType, PrinterConfiguration,
    SubmittedOrderData};
use crate::prusa_slicer_cli::ExtractionError;
use crate::prusa_slicer_interface::default_printer_configuration;
use vstd::prelude::*;

verus! {

/// A slicer whose answers are the fields below: `ping` succeeds when
/// `ping_result` says so, and slicing always reports the fixed time and
/// material.
pub struct PrusaSlicerMock {
    pub time: u32,
    pub material_mm: u32,
    pub ping_result: bool,
    pub material_type: PrintMaterialType,
}

impl SlicerInterfaceImpl for PrusaSlicerMock {
    fn ping(&self, _prusa_path: &str) -> Result<(), String> {
        if self.ping_result {
            Ok(())
        } else {
            Err(String::from_str("Error returned from mocked ping() function"))
        }
    }

    fn load_printer_configuration(&self, _config_path: &str) -> Result<
        PrinterConfiguration,
        String,
    > {
        Ok(default_printer_configuration())
    }

    fn get_expected_print_parameters(
        &self,
        _order: &SubmittedOrderData,
        _slicer_path: &str,
        _ws_path: &str,
    ) -> Result<EvaluatedPrintingParameters, ExtractionError> {
        Ok(
            EvaluatedPrintingParameters {
                time: self.time,
                material_mm: self.material_mm,
                material_type: self.material_type,
            },
        )
    }
}

} // verus!
