//! The capability interface of the slicer collaborator.  An implementation
//! answers whether the slicer executable is reachable, loads the rate-table
//! configuration, and turns an uploaded model into printing parameters.
//! Implementations decide their own success, so the interface promises
//! nothing of their results; callers state what holds whatever comes back.

use crate::global_types::{EvaluatedPrintingParameters, PrinterConfiguration, SubmittedOrderData};
use crate::prusa_slicer_cli::ExtractionError;
use vstd::prelude::*;

verus! {

/// What an upload session needs from a slicer implementation.
pub trait SlicerInterfaceImpl {
    /// Checks that the slicer behind `prusa_path` is reachable.
    fn ping(&self, prusa_path: &str) -> Result<(), String>;

    /// Loads the rate-table configuration from `config_path`.
    fn load_printer_configuration(&self, config_path: &str) -> Result<PrinterConfiguration, String>;

    /// Slices the order's uploaded model and reads the printing parameters
    /// out of the report.
    fn get_expected_print_parameters(
        &self,
        order: &SubmittedOrderData,
        slicer_path: &str,
        ws_path: &str,
    ) -> Result<EvaluatedPrintingParameters, ExtractionError>;
}

} // verus!
