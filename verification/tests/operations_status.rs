use auction_server::errors::ErrorKind;
use auction_server::operations::{
    get_status, report, Operation, OperationLookup, OperationReport, OperationStatus,
    OperationType, StatusError,
};
use auction_server::responses::OperationStatusResponse;

fn operation(status: OperationStatus, params: &str) -> Operation {
    let mut operation = Operation::pending("op-1", OperationType::TRANSFER, params, 1_000);
    operation.status = status;
    operation
}

#[test]
fn accepted_operation_is_recorded_as_pending() {
    let operation = Operation::pending("op-9", OperationType::ADD, "{\"item_id\":\"lamp\"}", 42);
    assert_eq!(operation.id, None);
    assert_eq!(operation.operation_id, "op-9");
    assert_eq!(operation.kind, OperationType::ADD);
    assert_eq!(operation.status, OperationStatus::PENDING);
    assert_eq!(operation.params, "{\"item_id\":\"lamp\"}");
    assert_eq!(operation.error, None);
    assert_eq!(operation.transaction_hash, None);
    assert_eq!(operation.created_at, 42);
    assert_eq!(operation.updated_at, 42);
}

#[test]
fn pending_operation_is_reported_as_pending_with_its_item() {
    let lookup = OperationLookup::Found {
        operation: operation(OperationStatus::PENDING, "{\"item_id\":\"lamp\",\"buyer\":\"ann\"}"),
    };
    assert_eq!(
        get_status(&lookup),
        Ok(OperationReport {
            status: OperationStatus::PENDING,
            kind: OperationType::TRANSFER,
            item_id: Some("lamp".to_string()),
        })
    );
}

#[test]
fn marked_operation_is_reported_with_its_terminal_status() {
    for status in [OperationStatus::COMPLETED, OperationStatus::FAILED] {
        let lookup = OperationLookup::Found { operation: operation(status, "{}") };
        let told = get_status(&lookup).unwrap();
        assert_eq!(told.status, status);
        assert_eq!(told.item_id, None);
    }
}

#[test]
fn unknown_operation_is_not_found_and_not_pending() {
    let told = get_status(&OperationLookup::Absent);
    assert_eq!(told, Err(StatusError::NotFound));
    assert_eq!(StatusError::NotFound.kind(), ErrorKind::NotFound);
    assert_eq!(StatusError::NotFound.kind().http_status(), 404);
}

#[test]
fn unreadable_store_is_a_store_failure() {
    assert_eq!(get_status(&OperationLookup::Failed), Err(StatusError::StoreFailure));
    assert_eq!(StatusError::StoreFailure.kind().http_status(), 500);
}

#[test]
fn item_of_an_operation_is_read_from_the_text_field_only() {
    let cases = [
        ("{\"item_id\":\"a b\"}", Some("a b")),
        ("{\"item_id\":7}", None),
        ("{\"item_id\":null}", None),
        ("{\"other\":\"lamp\"}", None),
        ("[\"item_id\"]", None),
        ("item_id", None),
        ("", None),
    ];
    for (params, expected) in cases {
        let lookup =
            OperationLookup::Found { operation: operation(OperationStatus::PENDING, params) };
        assert_eq!(get_status(&lookup).unwrap().item_id, expected.map(|id| id.to_string()));
    }
}

#[test]
fn report_takes_status_and_type_from_the_record() {
    let record = operation(OperationStatus::FAILED, "{}");
    assert_eq!(
        report(&record, Some("vase".to_string())),
        OperationReport {
            status: OperationStatus::FAILED,
            kind: OperationType::TRANSFER,
            item_id: Some("vase".to_string()),
        }
    );
}

#[test]
fn only_pending_operations_change_and_only_to_a_terminal_status() {
    assert!(OperationStatus::PENDING.can_become(&OperationStatus::COMPLETED));
    assert!(OperationStatus::PENDING.can_become(&OperationStatus::FAILED));
    assert!(!OperationStatus::PENDING.can_become(&OperationStatus::PENDING));
    assert!(!OperationStatus::COMPLETED.can_become(&OperationStatus::FAILED));
    assert!(!OperationStatus::FAILED.can_become(&OperationStatus::PENDING));
    assert!(!OperationStatus::PENDING.is_terminal());
    assert!(OperationStatus::COMPLETED.is_terminal());
    assert!(OperationStatus::FAILED.is_terminal());
}

#[test]
fn operation_names_are_upper_case() {
    assert_eq!(OperationStatus::PENDING.to_string(), "PENDING");
    assert_eq!(OperationStatus::COMPLETED.to_string(), "COMPLETED");
    assert_eq!(OperationStatus::FAILED.to_string(), "FAILED");
    assert_eq!(OperationType::ADD.to_string(), "ADD");
    assert_eq!(OperationType::TRANSFER.to_string(), "TRANSFER");
    assert_eq!(OperationType::DELETE.to_string(), "DELETE");
}

#[test]
fn status_response_tells_found_from_not_found_from_failure() {
    let found = OperationStatusResponse::from_status(&Ok(OperationReport {
        status: OperationStatus::PENDING,
        kind: OperationType::DELETE,
        item_id: Some("lamp".to_string()),
    }));
    assert_eq!(
        found,
        OperationStatusResponse {
            status: "success".to_string(),
            operation_status: "PENDING".to_string(),
            operation: "DELETE".to_string(),
            item_id: Some("lamp".to_string()),
        }
    );
    let absent = OperationStatusResponse::from_status(&Err(StatusError::NotFound));
    assert_eq!(
        absent,
        OperationStatusResponse {
            status: "error".to_string(),
            operation_status: "not_found".to_string(),
            operation: String::new(),
            item_id: None,
        }
    );
    let failed = OperationStatusResponse::from_status(&Err(StatusError::StoreFailure));
    assert_eq!(failed.operation_status, "server_error");
    assert_eq!(failed.status, "error");
}
