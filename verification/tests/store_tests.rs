use print_price_evaluator::database_handler::{DatabaseMockImpl, OrderStore, StoreError,
    add_evaluation_to_db, initialize_db, modify_order_in_database,
    move_completed_orders_to_archive, read_completed_orders_from_db, read_orders_from_db};
use print_price_evaluator::global_types::{EvaluationResult, PrintMaterialType, PrintType,
    StatusType};

fn sample_record(date: &str, name: &str) -> EvaluationResult {
    EvaluationResult {
        date: date.to_string(),
        name: name.to_string(),
        email: "john.doe@example.com".to_string(),
        copies_nbr: 1,
        file_name: "file.stl".to_string(),
        price_grosze: 10000,
        material_type: PrintMaterialType::PLA,
        print_type: PrintType::Standard,
        status: StatusType::New,
    }
}

#[test]
fn database_handler_test_initialize_db() {
    let mock = DatabaseMockImpl {};
    assert!(mock.initialize_db("test_db").is_ok());
    let mut store = OrderStore::new();
    initialize_db(&mut store, "test_db");
    assert!(read_orders_from_db(&store).is_ok());
}

#[test]
fn test_add_evaluation_to_db() {
    let mock = DatabaseMockImpl {};
    let evaluation = EvaluationResult {
        date: "2024-01-01 12:00:00".to_string(),
        name: "John Doe".to_string(),
        email: "john.doe@example.com".to_string(),
        copies_nbr: 1,
        file_name: "file.stl".to_string(),
        price_grosze: 100 * 100,
        material_type: PrintMaterialType::PLA,
        status: StatusType::New,
        print_type: PrintType::Standard,
    };
    let result = mock.add_evaluation_to_db(&evaluation);
    assert!(result.is_ok());
}

#[test]
fn test_store_rejects_use_before_initialization() {
    let mut store = OrderStore::new();
    assert_eq!(read_orders_from_db(&store), Err(StoreError::NotConnected));
    assert_eq!(read_completed_orders_from_db(&store), Err(StoreError::NotConnected));
    let rec = sample_record("2024-01-01 12:00:00", "John Doe");
    assert_eq!(add_evaluation_to_db(&mut store, &rec), Err(StoreError::NotConnected));
    assert_eq!(
        modify_order_in_database(&mut store, "2024-01-01 12:00:00", "Completed"),
        Err(StoreError::NotConnected)
    );
}

#[test]
fn test_store_lists_newest_first() {
    let mut store = OrderStore::new();
    initialize_db(&mut store, "orders");
    add_evaluation_to_db(&mut store, &sample_record("2024-01-01 10:00:00", "First")).unwrap();
    add_evaluation_to_db(&mut store, &sample_record("2024-01-02 10:00:00", "Second")).unwrap();
    let listed = read_orders_from_db(&store).unwrap();
    assert_eq!(listed.len(), 2);
    assert_eq!(listed[0].name, "Second");
    assert_eq!(listed[1].name, "First");
}

#[test]
fn test_modify_unknown_status_is_rejected() {
    let mut store = OrderStore::new();
    initialize_db(&mut store, "orders");
    add_evaluation_to_db(&mut store, &sample_record("2024-01-01 10:00:00", "John Doe")).unwrap();
    assert_eq!(
        modify_order_in_database(&mut store, "2024-01-01 10:00:00", "Done"),
        Err(StoreError::UnknownStatus)
    );
    let listed = read_orders_from_db(&store).unwrap();
    assert!(matches!(listed[0].status, StatusType::New));
}

#[test]
fn test_completed_order_is_archived_exactly_once() {
    let mut store = OrderStore::new();
    initialize_db(&mut store, "orders");
    add_evaluation_to_db(&mut store, &sample_record("2024-01-01 10:00:00", "Keep")).unwrap();
    add_evaluation_to_db(&mut store, &sample_record("2024-01-02 10:00:00", "Done")).unwrap();
    let result = modify_order_in_database(&mut store, "2024-01-02 10:00:00", "Completed");
    assert!(result.is_ok());
    let active = read_orders_from_db(&store).unwrap();
    assert_eq!(active.len(), 1);
    assert_eq!(active[0].name, "Keep");
    let archived = read_completed_orders_from_db(&store).unwrap();
    assert_eq!(archived.len(), 1);
    assert_eq!(archived[0].name, "Done");
    assert!(matches!(archived[0].status, StatusType::Completed));
}

#[test]
fn test_canceled_order_is_archived_too() {
    let mut store = OrderStore::new();
    initialize_db(&mut store, "orders");
    add_evaluation_to_db(&mut store, &sample_record("2024-01-01 10:00:00", "John Doe")).unwrap();
    modify_order_in_database(&mut store, "2024-01-01 10:00:00", "Canceled").unwrap();
    assert_eq!(read_orders_from_db(&store).unwrap().len(), 0);
    let archived = read_completed_orders_from_db(&store).unwrap();
    assert_eq!(archived.len(), 1);
    assert!(matches!(archived[0].status, StatusType::Canceled));
}

#[test]
fn test_modify_truncates_zone_suffix_from_key() {
    let mut store = OrderStore::new();
    initialize_db(&mut store, "orders");
    add_evaluation_to_db(&mut store, &sample_record("2024-01-01 10:00:00", "John Doe")).unwrap();
    modify_order_in_database(&mut store, "2024-01-01 10:00:00 UTC", "InProgress").unwrap();
    let listed = read_orders_from_db(&store).unwrap();
    assert!(matches!(listed[0].status, StatusType::InProgress));
}

#[test]
fn test_modify_without_match_still_succeeds() {
    let mut store = OrderStore::new();
    initialize_db(&mut store, "orders");
    add_evaluation_to_db(&mut store, &sample_record("2024-01-01 10:00:00", "John Doe")).unwrap();
    assert!(modify_order_in_database(&mut store, "1999-01-01 00:00:00", "Completed").is_ok());
    assert_eq!(read_orders_from_db(&store).unwrap().len(), 1);
    assert_eq!(read_completed_orders_from_db(&store).unwrap().len(), 0);
}

#[test]
fn test_list_active_twice_is_identical() {
    let mut store = OrderStore::new();
    initialize_db(&mut store, "orders");
    add_evaluation_to_db(&mut store, &sample_record("2024-01-01 10:00:00", "A")).unwrap();
    add_evaluation_to_db(&mut store, &sample_record("2024-01-02 10:00:00", "B")).unwrap();
    let first = read_orders_from_db(&store).unwrap();
    let second = read_orders_from_db(&store).unwrap();
    assert_eq!(first.len(), second.len());
    for (a, b) in first.iter().zip(second.iter()) {
        assert_eq!(a.date, b.date);
        assert_eq!(a.name, b.name);
        assert_eq!(a.email, b.email);
        assert_eq!(a.copies_nbr, b.copies_nbr);
        assert_eq!(a.file_name, b.file_name);
        assert_eq!(a.price_grosze, b.price_grosze);
    }
}

#[test]
fn test_sweep_without_terminal_records_changes_nothing() {
    let mut store = OrderStore::new();
    initialize_db(&mut store, "orders");
    add_evaluation_to_db(&mut store, &sample_record("2024-01-01 10:00:00", "John Doe")).unwrap();
    move_completed_orders_to_archive(&mut store);
    assert_eq!(read_orders_from_db(&store).unwrap().len(), 1);
    assert_eq!(read_completed_orders_from_db(&store).unwrap().len(), 0);
}

#[test]
fn test_mock_listings_are_empty() {
    let mock = DatabaseMockImpl {};
    assert_eq!(mock.read_orders_from_db().unwrap().len(), 0);
    assert_eq!(mock.read_completed_orders_from_db().unwrap().len(), 0);
    assert!(mock.modify_order_in_database("2024-01-01 10:00:00", "Completed").is_ok());
}
