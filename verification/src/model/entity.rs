//! Row-shaped records of the first version of the delivery store.
use crate::clock::Timestamp;
use vstd::prelude::*;

verus! {

pub struct DeliveryEntity {
    pub delivery_id: String,
    pub order_id: String,
    pub address: String,
    pub status: String,
    pub created_at: Timestamp,
    pub updated_at: Timestamp,
}

pub enum OutboxMessageType {
    Delivery,
}

pub enum OutboxMessageStatus {
    New,
    Processed,
    WaitingRetry,
    Failed,
}

pub struct OutboxMessageEntity {
    pub aggregate_id: String,
    pub aggregate_type: String,
    pub topic: String,
    pub key: String,
    pub payload: serde_json::Value,
    pub status: String,
    pub processed_at: Option<Timestamp>,
    pub processing_attempts: u8,
    pub last_error: Option<String>,
}

} // verus!
