use chrono::NaiveDate;
use transactional_outbox::clock::Timestamp;
use transactional_outbox::kafka::topics::DELIVERY_TOPIC;
use transactional_outbox::postgres::model::delivery::{
    Address, Delivery, DeliveryItem, DeliveryStatus, Recipient,
};
use transactional_outbox::postgres::model::outbox::{OutboxAggregateType, OutboxStatus};
use transactional_outbox::postgres::model::result::RepositoryError;
use transactional_outbox::postgres::repository::outbox::{OutboxRecord, OutboxRepository};
use uuid::Uuid;

fn sample_delivery() -> Delivery {
    Delivery {
        id: Uuid::from_u128(0xabc),
        order_id: "ORD-7".to_string(),
        courier_id: None,
        recipient: Recipient { name: "Bo".to_string(), phone: "555".to_string() },
        address: Address {
            city: "Oslo".to_string(),
            street: "Main".to_string(),
            building: "1".to_string(),
            apartment: None,
            postal_code: "0150".to_string(),
        },
        status: DeliveryStatus::Assigned,
        scheduled_date: NaiveDate::from_ymd_opt(2025, 1, 2).unwrap(),
        delivered_at: None,
        cancelled_at: None,
        cancellation_reason: None,
        items: vec![
            DeliveryItem {
                id: Uuid::from_u128(1),
                sku: "A".to_string(),
                name: "Apple".to_string(),
                quantity: 3,
                weight_grams: Some(100),
            },
            DeliveryItem {
                id: Uuid::from_u128(2),
                sku: "B".to_string(),
                name: "Box".to_string(),
                quantity: 1,
                weight_grams: None,
            },
        ],
        created_at: Timestamp { secs: 10, nanos: 0 },
        updated_at: Timestamp { secs: 10, nanos: 0 },
    }
}

fn record(aggregate_type: &str, status: &str, attempts: i32) -> OutboxRecord {
    OutboxRecord {
        id: Uuid::from_u128(77),
        aggregate_type: aggregate_type.to_string(),
        topic: "delivery".to_string(),
        key: "ORD-7".to_string(),
        payload: serde_json::Value::String("p".to_string()),
        status: status.to_string(),
        processing_attempts: attempts,
        next_retry_at: Some(Timestamp { secs: 20, nanos: 1 }),
        last_error: Some("boom".to_string()),
        processed_at: None,
        created_at: Timestamp { secs: 1, nanos: 2 },
        updated_at: Timestamp { secs: 3, nanos: 4 },
    }
}

#[test]
fn outbox_status_names_read_back() {
    let all = [
        OutboxStatus::New,
        OutboxStatus::Processed,
        OutboxStatus::WaitingRetry,
        OutboxStatus::Failed,
    ];
    let names = ["NEW", "PROCESSED", "WAITING_RETRY", "FAILED"];
    for (s, n) in all.iter().zip(names.iter()) {
        assert_eq!(s.as_str(), *n);
        assert_eq!(OutboxStatus::try_from(n), Ok(*s));
    }
    assert_eq!(OutboxStatus::try_from("DONE"), Err("Unknown outbox status: DONE".to_string()));
}

#[test]
fn aggregate_type_names_read_back() {
    assert_eq!(OutboxAggregateType::Delivery.as_str(), "DELIVERY");
    assert_eq!(OutboxAggregateType::try_from("DELIVERY"), Ok(OutboxAggregateType::Delivery));
    assert_eq!(
        OutboxAggregateType::try_from("ORDER"),
        Err("Unknown outbox aggregate type: ORDER".to_string())
    );
}

#[test]
fn payload_announces_the_delivery() {
    let d = sample_delivery();
    let p = OutboxRepository::new().create_delivery_payload(&d);
    assert_eq!(p.delivery_id, d.id);
    assert_eq!(p.order_id, "ORD-7");
    assert_eq!(p.status, "ASSIGNED");
    assert_eq!(p.recipient_name, "Bo");
    assert_eq!(p.recipient_phone, "555");
    assert_eq!(p.city, "Oslo");
    assert_eq!(p.scheduled_date, d.scheduled_date);
    assert_eq!(p.items.len(), 2);
    assert_eq!((p.items[0].sku.as_str(), p.items[0].name.as_str(), p.items[0].quantity), ("A", "Apple", 3));
    assert_eq!((p.items[1].sku.as_str(), p.items[1].name.as_str(), p.items[1].quantity), ("B", "Box", 1));
}

#[test]
fn task_for_keys_by_order_on_delivery_topic() {
    let d = sample_delivery();
    let at = Timestamp { secs: 99, nanos: 9 };
    let t = OutboxRepository::new().task_for(&d, Uuid::from_u128(5), at);
    assert_eq!(t.id, Uuid::from_u128(5));
    assert_eq!(t.aggregate_type, OutboxAggregateType::Delivery);
    assert_eq!(t.topic, DELIVERY_TOPIC);
    assert_eq!(t.key, "ORD-7");
    assert_eq!(t.created_at, at);
    assert_eq!(t.updated_at, at);
    assert_eq!(t.payload.order_id, "ORD-7");
}

#[test]
fn new_tasks_get_fresh_identities() {
    let d = sample_delivery();
    let repo = OutboxRepository::new();
    let a = repo.new_task(&d);
    let b = repo.new_task(&d);
    assert_ne!(a.id, b.id);
    assert_eq!(a.id.get_version_num(), 4);
    assert_eq!(a.created_at, a.updated_at);
    assert!(a.created_at.secs > 1_600_000_000);
    assert_eq!(a.key, "ORD-7");
}

#[test]
fn readable_row_becomes_a_message() {
    let m = OutboxRepository::row_to_outbox_message(record("DELIVERY", "WAITING_RETRY", 3)).unwrap();
    assert_eq!(m.id, Uuid::from_u128(77));
    assert_eq!(m.aggregate_type, OutboxAggregateType::Delivery);
    assert_eq!(m.topic, "delivery");
    assert_eq!(m.key, "ORD-7");
    assert_eq!(m.status, OutboxStatus::WaitingRetry);
    assert_eq!(m.payload, serde_json::Value::String("p".to_string()));
    assert_eq!(m.processing_attempts, 3);
    assert_eq!(m.next_retry_at, Some(Timestamp { secs: 20, nanos: 1 }));
    assert_eq!(m.last_error, Some("boom".to_string()));
    assert_eq!(m.processed_at, None);
    assert_eq!(m.created_at, Timestamp { secs: 1, nanos: 2 });
    assert_eq!(m.updated_at, Timestamp { secs: 3, nanos: 4 });
}

#[test]
fn attempts_column_keeps_its_low_byte() {
    let m = OutboxRepository::row_to_outbox_message(record("DELIVERY", "NEW", 258)).unwrap();
    assert_eq!(m.processing_attempts, 2);
}

#[test]
fn aggregate_type_is_checked_before_status() {
    match OutboxRepository::row_to_outbox_message(record("ORDER", "NOPE", 0)) {
        Err(RepositoryError::ParseError(m)) => assert_eq!(m, "Unknown outbox aggregate type: ORDER"),
        _ => panic!("expected a parse error"),
    }
    match OutboxRepository::row_to_outbox_message(record("DELIVERY", "NOPE", 0)) {
        Err(RepositoryError::ParseError(m)) => assert_eq!(m, "Unknown outbox status: NOPE"),
        _ => panic!("expected a parse error"),
    }
}

#[test]
fn batch_reads_in_order_or_fails_on_first_bad_row() {
    let ok = OutboxRepository::rows_to_outbox_messages(vec![
        record("DELIVERY", "NEW", 0),
        record("DELIVERY", "FAILED", 5),
    ])
    .unwrap();
    assert_eq!(ok.len(), 2);
    assert_eq!(ok[0].status, OutboxStatus::New);
    assert_eq!(ok[1].status, OutboxStatus::Failed);
    assert!(OutboxRepository::rows_to_outbox_messages(vec![]).unwrap().is_empty());
    match OutboxRepository::rows_to_outbox_messages(vec![
        record("DELIVERY", "NEW", 0),
        record("DELIVERY", "X", 0),
        record("Y", "NEW", 0),
    ]) {
        Err(RepositoryError::ParseError(m)) => assert_eq!(m, "Unknown outbox status: X"),
        _ => panic!("expected a parse error"),
    }
}
