use transactional_outbox::clock::Timestamp;
use transactional_outbox::model::dto::{CreateDeliveryRequest, OrderItemDto};
use transactional_outbox::postgres::model::entity::{
    DeliveryEntity, DeliveryStatus, OutboxMessageStatus, OutboxMessageType,
};
use transactional_outbox::service::delivery_service::{create_delivery, validate, ServiceError};
use transactional_outbox::service::mapper::entity_to_dto;

fn req(order_id: Option<&str>, address: Option<&str>, items: Option<usize>) -> CreateDeliveryRequest {
    CreateDeliveryRequest {
        order_id: order_id.map(|s| s.to_string()),
        address: address.map(|s| s.to_string()),
        items: items.map(|n| (0..n).map(|_| OrderItemDto {}).collect()),
    }
}

#[test]
fn status_texts() {
    assert_eq!(DeliveryStatus::Pending.to_string(), "Pending");
    assert_eq!(DeliveryStatus::InProgress.to_string(), "InProgress");
    assert_eq!(DeliveryStatus::Delivered.to_string(), "Delivered");
    assert_eq!(DeliveryStatus::Pending.to_uppercase_string(), "PENDING");
    assert_eq!(DeliveryStatus::InProgress.to_uppercase_string(), "INPROGRESS");
    assert_eq!(DeliveryStatus::Delivered.to_uppercase_string(), "DELIVERED");
    assert_eq!(OutboxMessageType::Delivery.to_string(), "Delivery");
    assert_eq!(OutboxMessageStatus::New.to_string(), "New");
    assert_eq!(OutboxMessageStatus::Processed.to_string(), "Processed");
    assert_eq!(OutboxMessageStatus::WaitingRetry.to_string(), "WaitingRetry");
    assert_eq!(OutboxMessageStatus::Failed.to_string(), "Failed");
}

#[test]
fn validation_needs_every_part() {
    assert!(!validate(&req(None, Some(""), Some(0))));
    assert!(!validate(&req(Some(""), None, Some(0))));
    assert!(!validate(&req(Some(""), Some(""), None)));
}

#[test]
fn validation_accepts_only_blank_texts_as_written() {
    assert!(validate(&req(Some(" "), Some(""), Some(1))));
    assert!(!validate(&req(Some("ORD-1"), Some("Main 1"), Some(1))));
    assert!(!validate(&req(Some(""), Some("Main 1"), Some(1))));
}

#[test]
fn first_version_answers() {
    let r = create_delivery(req(Some(" "), Some("\t"), Some(2))).unwrap();
    assert_eq!(r.delivery_id, "new-delivery-id");
    assert_eq!(r.order_id, " ");
    assert_eq!(r.address, "\t");
    assert_eq!(r.status, "PENDING");
    assert_eq!(r.items.len(), 2);
    assert!(matches!(
        create_delivery(req(Some("ORD"), Some("A"), Some(0))),
        Err(ServiceError::InvalidDto)
    ));
}

#[test]
fn stored_record_is_answered_without_items() {
    let e = DeliveryEntity {
        delivery_id: "d-1".to_string(),
        order_id: "o-1".to_string(),
        address: "Main 1".to_string(),
        status: "PENDING".to_string(),
        created_at: Some(Timestamp { secs: 1, nanos: 0 }),
        updated_at: None,
    };
    let r = entity_to_dto(&e);
    assert_eq!(r.delivery_id, "d-1");
    assert_eq!(r.order_id, "o-1");
    assert_eq!(r.address, "Main 1");
    assert_eq!(r.status, "PENDING");
    assert!(r.items.is_empty());
}
