use chrono::NaiveDate;
use transactional_outbox::clock::Timestamp;
use transactional_outbox::postgres::model::delivery::{
    Address, Delivery, DeliveryItem, DeliveryStatus, Recipient,
};
use transactional_outbox::postgres::model::result::RepositoryError;
use transactional_outbox::postgres::repository::delivery::{
    delivery_from_rows, row_to_delivery, row_to_delivery_item, DeliveryItemRecord,
    DeliveryRepository,
};
use transactional_outbox::postgres::repository::mapper::column_error;
use uuid::Uuid;

fn sample_delivery() -> Delivery {
    Delivery {
        id: Uuid::from_u128(0x1111),
        order_id: "ORD-42".to_string(),
        courier_id: None,
        recipient: Recipient { name: "Ann".to_string(), phone: "+100".to_string() },
        address: Address {
            city: "Riga".to_string(),
            street: "Brivibas".to_string(),
            building: "7".to_string(),
            apartment: Some("12".to_string()),
            postal_code: "LV-1010".to_string(),
        },
        status: DeliveryStatus::Pending,
        scheduled_date: NaiveDate::from_ymd_opt(2024, 5, 17).unwrap(),
        delivered_at: None,
        cancelled_at: None,
        cancellation_reason: None,
        items: vec![
            DeliveryItem {
                id: Uuid::from_u128(0x2222),
                sku: "SKU-1".to_string(),
                name: "Kettle".to_string(),
                quantity: 2,
                weight_grams: Some(1500),
            },
            DeliveryItem {
                id: Uuid::from_u128(0x3333),
                sku: "SKU-2".to_string(),
                name: "Cup".to_string(),
                quantity: 4_000_000_000,
                weight_grams: None,
            },
        ],
        created_at: Timestamp { secs: 1_700_000_000, nanos: 5 },
        updated_at: Timestamp { secs: 1_700_000_001, nanos: 6 },
    }
}

fn same_delivery(a: &Delivery, b: &Delivery) {
    assert_eq!(format!("{:?}", a), format!("{:?}", b));
}

#[test]
fn delivery_row_holds_the_inserted_columns() {
    let d = sample_delivery();
    let row = DeliveryRepository::new().delivery_row(&d);
    assert_eq!(row.id, d.id);
    assert_eq!(row.order_id, "ORD-42");
    assert_eq!(row.courier_id, None);
    assert_eq!(row.recipient_name, "Ann");
    assert_eq!(row.recipient_phone, "+100");
    assert_eq!(row.city, "Riga");
    assert_eq!(row.street, "Brivibas");
    assert_eq!(row.building, "7");
    assert_eq!(row.apartment, Some("12".to_string()));
    assert_eq!(row.postal_code, "LV-1010");
    assert_eq!(row.status, "PENDING");
    assert_eq!(row.scheduled_date, d.scheduled_date);
    assert_eq!(row.delivered_at, None);
    assert_eq!(row.cancelled_at, None);
    assert_eq!(row.cancellation_reason, None);
    assert_eq!(row.created_at, d.created_at);
    assert_eq!(row.updated_at, d.updated_at);
}

#[test]
fn item_columns_keep_order_and_bits() {
    let d = sample_delivery();
    let c = DeliveryRepository::new().item_columns(d.id, &d.items);
    assert_eq!(c.ids, vec![Uuid::from_u128(0x2222), Uuid::from_u128(0x3333)]);
    assert_eq!(c.delivery_ids, vec![d.id, d.id]);
    assert_eq!(c.skus, vec!["SKU-1".to_string(), "SKU-2".to_string()]);
    assert_eq!(c.names, vec!["Kettle".to_string(), "Cup".to_string()]);
    assert_eq!(c.quantities, vec![2, 4_000_000_000u32 as i32]);
    assert_eq!(c.weights, vec![Some(1500), None]);
}

#[test]
fn item_columns_of_no_items_are_empty() {
    let c = DeliveryRepository::new().item_columns(Uuid::from_u128(1), &[]);
    assert!(c.ids.is_empty() && c.skus.is_empty() && c.quantities.is_empty());
}

#[test]
fn stored_delivery_reads_back_as_itself() {
    let d = sample_delivery();
    let repo = DeliveryRepository::new();
    let row = repo.delivery_row(&d);
    let c = repo.item_columns(d.id, &d.items);
    let item_rows: Vec<DeliveryItemRecord> = (0..c.ids.len())
        .map(|i| DeliveryItemRecord {
            id: c.ids[i],
            sku: c.skus[i].clone(),
            name: c.names[i].clone(),
            quantity: c.quantities[i],
            weight_grams: c.weights[i],
        })
        .collect();
    let back = delivery_from_rows(row, item_rows).unwrap();
    same_delivery(&back, &d);
    assert_eq!(back.items[1].quantity, 4_000_000_000);
}

#[test]
fn row_without_items_reads_back_with_none() {
    let d = sample_delivery();
    let row = DeliveryRepository::new().delivery_row(&d);
    let back = row_to_delivery(row).unwrap();
    assert!(back.items.is_empty());
    assert_eq!(back.order_id, "ORD-42");
    assert_eq!(back.status, DeliveryStatus::Pending);
}

#[test]
fn unknown_status_column_is_a_parse_error() {
    let d = sample_delivery();
    let mut row = DeliveryRepository::new().delivery_row(&d);
    row.status = "LOST".to_string();
    match delivery_from_rows(row, vec![]) {
        Err(RepositoryError::ParseError(m)) => assert_eq!(m, "Unknown delivery status: LOST"),
        other => panic!("unexpected {:?}", other.map(|_| ())),
    }
}

#[test]
fn negative_item_columns_read_back_as_their_bits() {
    let item = row_to_delivery_item(DeliveryItemRecord {
        id: Uuid::from_u128(9),
        sku: "S".to_string(),
        name: "N".to_string(),
        quantity: -1,
        weight_grams: Some(-2),
    });
    assert_eq!(item.quantity, u32::MAX);
    assert_eq!(item.weight_grams, Some(u32::MAX - 1));
}

#[test]
fn column_error_names_the_column() {
    match column_error("order_id", "unexpected null") {
        RepositoryError::ParseError(m) => assert_eq!(m, "order_id: unexpected null"),
        other => panic!("unexpected {:?}", other),
    }
}

#[test]
fn repository_error_messages() {
    assert_eq!(RepositoryError::NotFound.message(), "Entity not found");
    assert_eq!(RepositoryError::DatabaseError("x".to_string()).message(), "Database error: x");
    assert_eq!(RepositoryError::PoolError("y".to_string()).message(), "Pool error: y");
    assert_eq!(RepositoryError::ParseError("z".to_string()).message(), "Parse error: z");
}
