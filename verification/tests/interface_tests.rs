use print_price_evaluator::api::{ApiHandlerState, initialize_api_handler, serialize_order_list};
use print_price_evaluator::database_handler::{OrderStore, initialize_db, read_orders_from_db};
use print_price_evaluator::global_types::{EvaluationResult, PrintMaterialType, PrintType,
    StatusType, SubmittedOrderData};
use print_price_evaluator::orca_slicer_interface::{OrcaSlicerState, initialize_orca_slicer_if};
use print_price_evaluator::prusa_slicer_interface::{SlicerState, evaluate_and_persist,
    get_prusa_slicer_evaluation, initialize_prusa_slicer_if, setup_paths_in_state};
use print_price_evaluator::prusa_slicer_mock::PrusaSlicerMock;

fn mocked_interface(ping_result: bool, time_result: u32, material_mm_result: u32) -> PrusaSlicerMock {
    PrusaSlicerMock {
        time: time_result,
        material_mm: material_mm_result,
        ping_result,
        material_type: PrintMaterialType::PLA,
    }
}

fn sample_order() -> SubmittedOrderData {
    SubmittedOrderData {
        name: "John Doe".to_string(),
        email: "john.doe@example.com".to_string(),
        copies_nbr: 5,
        file_name: "file.stl".to_string(),
        nbr_of_chunks: 42,
        material_type: PrintMaterialType::PLA,
        print_type: PrintType::Standard,
    }
}

#[test]
fn orca_slicer_interface_test_initialize_orca_slicer_if() {
    let mut state = OrcaSlicerState::new();
    initialize_orca_slicer_if(&mut state, "new_ws_path", "new_orca_path");
    assert_eq!(state.ws_path, "new_ws_path");
    assert_eq!(state.slicer_exec_path, "new_orca_path");
}

#[test]
fn orca_slicer_interface_utilities_test_initialize_orca_slicer_if() {
    let mut state = OrcaSlicerState::new();
    initialize_orca_slicer_if(&mut state, "new_ws_path", "new_orca_path");
    assert_eq!(state.ws_path, "new_ws_path");
    assert_eq!(state.slicer_exec_path, "new_orca_path");
}

#[test]
fn test_initialize_prusa_slicer_if_successfull_ping() {
    let mock = mocked_interface(true, 1234, 5678);
    let mut state = SlicerState::new();

    let ws_path = "foobar";
    let prusa_path = "foobar";
    assert!(
        initialize_prusa_slicer_if(&mut state, &mock, ws_path, prusa_path, "foo").is_ok(),
        "Failed to initialize Prusa Slicer interface"
    );

    assert_eq!(
        state.ws_path,
        Some(ws_path.to_string()),
        "Workspace path not set correctly"
    );
    assert_eq!(
        state.slicer_exec_path,
        Some(prusa_path.to_string()),
        "Slicer path not set correctly"
    );
}

#[test]
fn test_initialize_prusa_slicer_if_failed_ping() {
    let mock = mocked_interface(false, 1234, 5678);
    let mut state = SlicerState::new();

    let ws_path = "foobar";
    let prusa_path = "foobar";
    assert!(initialize_prusa_slicer_if(&mut state, &mock, ws_path, prusa_path, "foo").is_err());
}

#[test]
fn test_get_prusa_slicer_evaluation_success() {
    let ws_path = "workspace_path";
    let prusa_path = "prusa_path";
    let mock = mocked_interface(true, 1234, 5678);
    let mut state = SlicerState::new();
    setup_paths_in_state(&mut state, ws_path, prusa_path);
    // Give the materials a rate so that the mocked job has a price.
    state.printer_configuration.material_rate_pla = 60;

    let order = sample_order();
    let result = get_prusa_slicer_evaluation(&state, &mock, &order).unwrap();
    assert!(result.price_grosze > 0, "Evaluation result price is incorrect");
}

#[test]
fn test_evaluation_result_carries_the_order() {
    let mock = mocked_interface(true, 3600, 1000);
    let mut state = SlicerState::new();
    setup_paths_in_state(&mut state, "ws", "slicer");
    state.printer_configuration.material_rate_pla = 60;
    state.printer_configuration.hourly_rate_pla_price = [30, 25, 20];

    let order = sample_order();
    let result = get_prusa_slicer_evaluation(&state, &mock, &order).unwrap();
    assert_eq!(result.name, "John Doe");
    assert_eq!(result.email, "john.doe@example.com");
    assert_eq!(result.copies_nbr, 5);
    assert_eq!(result.file_name, "file.stl");
    assert!(matches!(result.status, StatusType::New));
    // (0.6 + 30) per copy, five copies, plus the flat fee, in minor units.
    assert_eq!(result.price_grosze, 5 * 3060 + 100);
}

#[test]
fn test_evaluate_and_persist_appends_one_record() {
    let mock = mocked_interface(true, 3600, 1000);
    let mut state = SlicerState::new();
    setup_paths_in_state(&mut state, "ws", "slicer");
    let mut store = OrderStore::new();
    initialize_db(&mut store, "orders");

    let order = sample_order();
    assert!(evaluate_and_persist(&state, &mock, &mut store, &order).is_ok());
    let listed = read_orders_from_db(&store).unwrap();
    assert_eq!(listed.len(), 1);
    assert_eq!(listed[0].name, "John Doe");
}

#[test]
fn test_evaluate_and_persist_without_store_fails_cleanly() {
    let mock = mocked_interface(true, 3600, 1000);
    let mut state = SlicerState::new();
    setup_paths_in_state(&mut state, "ws", "slicer");
    let mut store = OrderStore::new();

    let order = sample_order();
    assert!(evaluate_and_persist(&state, &mock, &mut store, &order).is_err());
}

#[test]
fn test_initialize_api_handler() {
    let mut state = ApiHandlerState::new();
    assert!(!state.app_init_status);
    initialize_api_handler(&mut state, true);
    assert!(state.app_init_status);
}

#[test]
fn test_serialize_order_list_two_records() {
    let records = vec![
        EvaluationResult {
            date: "2024-01-01 10:00:00".to_string(),
            name: "A".to_string(),
            email: "a@example.com".to_string(),
            copies_nbr: 1,
            file_name: "a.stl".to_string(),
            price_grosze: 10150,
            material_type: PrintMaterialType::PLA,
            print_type: PrintType::Standard,
            status: StatusType::New,
        },
        EvaluationResult {
            date: "2024-01-02 10:00:00".to_string(),
            name: "B".to_string(),
            email: "b@example.com".to_string(),
            copies_nbr: 2,
            file_name: "b.stl".to_string(),
            price_grosze: 5,
            material_type: PrintMaterialType::ASA,
            print_type: PrintType::Precise,
            status: StatusType::InProgress,
        },
    ];
    let json = serialize_order_list(&records);
    let first = "{\"date\":\"2024-01-01 10:00:00\",\"name\":\"A\",\"email\":\"a@example.com\",\"copies_nbr\":1,\"file_name\":\"a.stl\",\"price\":101.50,\"material_type\":\"PLA\",\"print_type\":\"Standard\",\"status\":\"New\"}";
    let second = "{\"date\":\"2024-01-02 10:00:00\",\"name\":\"B\",\"email\":\"b@example.com\",\"copies_nbr\":2,\"file_name\":\"b.stl\",\"price\":0.05,\"material_type\":\"ASA\",\"print_type\":\"Precise\",\"status\":\"InProgress\"}";
    let expected = format!("[{},{}]", first, second);
    assert_eq!(json, expected);
}

#[test]
fn test_serialize_order_list_empty() {
    let records: Vec<EvaluationResult> = Vec::new();
    assert_eq!(serialize_order_list(&records), "[]");
}
