//! The slicer interface state and the evaluation pipeline.
//!
//! The state holds the workspace and slicer paths and the rate table.  The
//! pipeline turns one submission into a persisted order record: it asks the
//! slicer for printing parameters, prices them against the rate table,
//! stamps the record, and appends it to the store — in that order, so that
//! nothing is persisted unless pricing succeeded.

use crate::database_handler::{OrderStore, StoreError, add_evaluation_to_db, with_status};
use crate::database_type_conversions::current_timestamp;
use crate::global_traits::SlicerInterfaceImpl;
use crate::global_types::{EvaluatedPrintingParameters, EvaluationResult, OrderView,
    PrinterConfiguration, StatusType, SubmittedOrderData};
use crate::prusa_slicer_cli::ExtractionError;
use crate::prusa_slicer_price_calculator::{calculate_the_price, spec_price};
use vstd::prelude::*;

verus! {

/// The rate table the interface starts with, before a configuration file is
/// loaded: no material rates, and the stock hourly tiers.
pub fn default_printer_configuration() -> (c: PrinterConfiguration)
    ensures
        c.material_rate_pla == 0,
        c.material_rate_pet == 0,
        c.material_rate_asa == 0,
        c.hourly_rate_time_threshold@ == seq![0u32, 10u32, 100u32],
        c.hourly_rate_pla_price@ == seq![30u32, 25u32, 20u32],
        c.hourly_rate_pet_price@ == seq![35u32, 30u32, 25u32],
        c.hourly_rate_asa_price@ == seq![40u32, 35u32, 30u32],
{
    let c = PrinterConfiguration {
        material_rate_pla: 0,
        material_rate_pet: 0,
        material_rate_asa: 0,
        hourly_rate_time_threshold: [0, 10, 100],
        hourly_rate_pla_price: [30, 25, 20],
        hourly_rate_pet_price: [35, 30, 25],
        hourly_rate_asa_price: [40, 35, 30],
    };
    proof {
        assert(c.hourly_rate_time_threshold@ =~= seq![0u32, 10u32, 100u32]);
        assert(c.hourly_rate_pla_price@ =~= seq![30u32, 25u32, 20u32]);
        assert(c.hourly_rate_pet_price@ =~= seq![35u32, 30u32, 25u32]);
        assert(c.hourly_rate_asa_price@ =~= seq![40u32, 35u32, 30u32]);
    }
    c
}

/// The slicer interface's state: where the workspace and the slicer
/// executable live, and the active rate table.
pub struct SlicerState {
    pub ws_path: Option<String>,
    pub slicer_exec_path: Option<String>,
    pub printer_configuration: PrinterConfiguration,
}

impl SlicerState {
    /// A fresh state with no paths and the default rate table.
    pub fn new() -> (s: SlicerState)
        ensures
            s.ws_path is None,
            s.slicer_exec_path is None,
    {
        SlicerState {
            ws_path: None,
            slicer_exec_path: None,
            printer_configuration: default_printer_configuration(),
        }
    }
}

/// Records the workspace and slicer paths in the state.
pub fn setup_paths_in_state(state: &mut SlicerState, ws_path: &str, prusa_path: &str)
    ensures
        final(state).ws_path matches Some(w) && w@ == ws_path@,
        final(state).slicer_exec_path matches Some(p) && p@ == prusa_path@,
        final(state).printer_configuration == old(state).printer_configuration,
{
    state.ws_path = Some(String::from_str(ws_path));
    state.slicer_exec_path = Some(String::from_str(prusa_path));
}

/// Loads the rate table from the configuration file under the workspace and
/// installs it.  The paths in the state are untouched; on failure the rate
/// table is untouched too.
pub fn set_printer_configuration<S: SlicerInterfaceImpl>(
    state: &mut SlicerState,
    slicer: &S,
    ws_path: &str,
    printer_configuration: &str,
) -> (r: Result<(), String>)
    ensures
        final(state).ws_path == old(state).ws_path,
        final(state).slicer_exec_path == old(state).slicer_exec_path,
        r is Err ==> final(state).printer_configuration == old(state).printer_configuration,
{
    let mut full_path = String::from_str(ws_path);
    full_path.append("/");
    full_path.append(printer_configuration);
    match slicer.load_printer_configuration(full_path.as_str()) {
        Ok(config) => {
            state.printer_configuration = config;
            Ok(())
        },
        Err(e) => {
            let mut msg = String::from_str("Failed to parse printer configuration: ");
            msg.append(e.as_str());
            Err(msg)
        },
    }
}

/// Initializes the slicer interface: records the paths, checks that the
/// slicer is reachable, and loads the rate table.  The paths are recorded
/// first and stay recorded even when a later step fails.
pub fn initialize_prusa_slicer_if<S: SlicerInterfaceImpl>(
    state: &mut SlicerState,
    slicer: &S,
    ws_path: &str,
    prusa_path: &str,
    price_params_rel_path: &str,
) -> (r: Result<(), String>)
    ensures
        final(state).ws_path matches Some(w) && w@ == ws_path@,
        final(state).slicer_exec_path matches Some(p) && p@ == prusa_path@,
{
    setup_paths_in_state(state, ws_path, prusa_path);
    match slicer.ping(prusa_path) {
        Ok(_) => {},
        Err(e) => {
            let mut msg = String::from_str("Failed to ping Prusa Slicer: ");
            msg.append(e.as_str());
            return Err(msg);
        },
    }
    match set_printer_configuration(state, slicer, ws_path, price_params_rel_path) {
        Ok(_) => Ok(()),
        Err(e) => {
            let mut msg = String::from_str("Failed to set printer configuration: ");
            msg.append(e.as_str());
            Err(msg)
        },
    }
}

/// Why an evaluation failed: the extraction stage, or the persistence
/// stage.  The stages are distinct in the report to the client.
#[derive(Clone, Copy, PartialEq, Eq, Structural, Debug)]
pub enum EvaluationError {
    Extraction(ExtractionError),
    Database(StoreError),
}

/// The record an evaluation produces, before persistence: the submission's
/// own data, the computed price, the given timestamp, and status `New`.
pub open spec fn spec_evaluated_record(
    order: SubmittedOrderData,
    params: EvaluatedPrintingParameters,
    config: PrinterConfiguration,
    date: Seq<char>,
) -> OrderView {
    OrderView {
        date: date,
        name: order.name@,
        email: order.email@,
        copies_nbr: order.copies_nbr as int,
        file_name: order.file_name@,
        price_grosze: spec_price(config, params, order.copies_nbr),
        material_type: order.material_type,
        print_type: order.print_type,
        status: StatusType::New,
    }
}

/// Builds the evaluation record for one submission: the price follows the
/// rate table exactly, the status starts at `New`, and the record carries
/// the given timestamp.
pub fn evaluate_order(
    order: &SubmittedOrderData,
    params: EvaluatedPrintingParameters,
    config: &PrinterConfiguration,
    date: String,
) -> (res: EvaluationResult)
    ensures
        res@ == spec_evaluated_record(*order, params, *config, date@),
{
    let price_grosze = calculate_the_price(config, params, order.copies_nbr);
    EvaluationResult {
        date,
        name: order.name.clone(),
        email: order.email.clone(),
        copies_nbr: order.copies_nbr,
        file_name: order.file_name.clone(),
        price_grosze,
        material_type: order.material_type,
        print_type: order.print_type,
        status: StatusType::New,
    }
}

/// Evaluates one submission: slices it, prices the parameters against the
/// active rate table, and stamps the record with the current time.  Fails
/// exactly when the slicer does, with the extraction stage named.
pub fn get_prusa_slicer_evaluation<S: SlicerInterfaceImpl>(
    state: &SlicerState,
    slicer: &S,
    order: &SubmittedOrderData,
) -> (r: Result<EvaluationResult, EvaluationError>)
    requires
        state.ws_path is Some,
        state.slicer_exec_path is Some,
    ensures
        r matches Ok(res) ==> exists|params: EvaluatedPrintingParameters|
            res@ == spec_evaluated_record(*order, params, state.printer_configuration, res@.date),
        r matches Err(e) ==> e is Extraction,
{
    let current_time = current_timestamp();
    let ws_path = match &state.ws_path {
        Some(w) => w.as_str(),
        None => {
            return Err(EvaluationError::Extraction(ExtractionError::SlicerFailure));
        },
    };
    let prusa_path = match &state.slicer_exec_path {
        Some(p) => p.as_str(),
        None => {
            return Err(EvaluationError::Extraction(ExtractionError::SlicerFailure));
        },
    };
    match slicer.get_expected_print_parameters(order, prusa_path, ws_path) {
        Ok(params) => {
            let ghost pw = params;
            let res = evaluate_order(order, params, &state.printer_configuration, current_time);
            proof {
                assert(res@ == spec_evaluated_record(
                    *order,
                    pw,
                    state.printer_configuration,
                    res@.date,
                ));
            }
            Ok(res)
        },
        Err(e) => Err(EvaluationError::Extraction(e)),
    }
}

/// The evaluation pipeline: evaluates one submission and appends the record
/// to the active store.  Nothing is persisted unless evaluation succeeded,
/// and a failure names its stage; on success exactly one record is
/// appended.
pub fn evaluate_and_persist<S: SlicerInterfaceImpl>(
    state: &SlicerState,
    slicer: &S,
    store: &mut OrderStore,
    order: &SubmittedOrderData,
) -> (r: Result<EvaluationResult, EvaluationError>)
    requires
        state.ws_path is Some,
        state.slicer_exec_path is Some,
    ensures
        r matches Ok(res) ==> old(store).is_initialized() && final(store).active_orders() == old(
            store,
        ).active_orders().push(with_status(res@, StatusType::New)) && res@.status
            == StatusType::New && exists|params: EvaluatedPrintingParameters|
            res@ == spec_evaluated_record(*order, params, state.printer_configuration, res@.date),
        r is Err ==> final(store).active_orders() == old(store).active_orders(),
        final(store).archived_orders() == old(store).archived_orders(),
        final(store).is_initialized() == old(store).is_initialized(),
        !old(store).is_initialized() ==> r is Err,
        match r {
            Err(EvaluationError::Database(d)) => d == StoreError::NotConnected && !old(
                store,
            ).is_initialized(),
            _ => true,
        },
        old(store).wf() ==> final(store).wf(),
{
    match get_prusa_slicer_evaluation(state, slicer, order) {
        Ok(res) => {
            match add_evaluation_to_db(store, &res) {
                Ok(_) => Ok(res),
                Err(e) => Err(EvaluationError::Database(e)),
            }
        },
        Err(e) => Err(e),
    }
}

} // verus!
