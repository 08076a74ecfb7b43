//! Row-shaped records of deliveries and outbox messages, and the names of their states.
use crate::clock::Timestamp;
use crate::text::to_uppercase;
use vstd::prelude::*;

verus! {

pub struct DeliveryEntity {
    pub delivery_id: String,
    pub order_id: String,
    pub address: String,
    pub status: String,
    pub created_at: Option<Timestamp>,
    pub updated_at: Option<Timestamp>,
}

#[derive(Debug, Clone, Copy, PartialEq, Eq, Structural)]
pub enum DeliveryStatus {
    Pending,
    InProgress,
    Delivered,
}

/// How a status is displayed.
pub open spec fn delivery_status_display(s: DeliveryStatus) -> Seq<char> {
    match s {
        DeliveryStatus::Pending => "Pending"@,
        DeliveryStatus::InProgress => "InProgress"@,
        DeliveryStatus::Delivered => "Delivered"@,
    }
}

/// The displayed status in upper case.
pub open spec fn delivery_status_upper(s: DeliveryStatus) -> Seq<char> {
    match s {
        DeliveryStatus::Pending => "PENDING"@,
        DeliveryStatus::InProgress => "INPROGRESS"@,
        DeliveryStatus::Delivered => "DELIVERED"@,
    }
}

impl DeliveryStatus {
    /// The status as it is displayed.
    pub fn to_string(&self) -> (s: String)
        ensures
            s@ == delivery_status_display(*self),
    {
        match self {
            DeliveryStatus::Pending => String::from_str("Pending"),
            DeliveryStatus::InProgress => String::from_str("InProgress"),
            DeliveryStatus::Delivered => String::from_str("Delivered"),
        }
    }

    /// The displayed status in upper case.
    pub fn to_uppercase_string(&self) -> (s: String)
        ensures
            s@ == delivery_status_upper(*self),
    {
        let shown = self.to_string();
        proof {
            reveal_strlit("Pending");
            reveal_strlit("InProgress");
            reveal_strlit("Delivered");
            reveal_strlit("PENDING");
            reveal_strlit("INPROGRESS");
            reveal_strlit("DELIVERED");
        }
        let s = to_uppercase(shown.as_str());
        proof {
            assert(s@ =~= delivery_status_upper(*self));
        }
        s
    }
}

#[derive(Debug, Clone, Copy, PartialEq, Eq, Structural)]
pub enum OutboxMessageType {
    Delivery,
}

impl OutboxMessageType {
    /// The message type as it is displayed.
    pub fn to_string(&self) -> (s: String)
        ensures
            s@ == "Delivery"@,
    {
        match self {
            OutboxMessageType::Delivery => String::from_str("Delivery"),
        }
    }
}

#[derive(Debug, Clone, Copy, PartialEq, Eq, Structural)]
pub enum OutboxMessageStatus {
    New,
    Processed,
    WaitingRetry,
    Failed,
}

/// How an outbox message status is displayed.
pub open spec fn outbox_message_status_display(s: OutboxMessageStatus) -> Seq<char> {
    match s {
        OutboxMessageStatus::New => "New"@,
        OutboxMessageStatus::Processed => "Processed"@,
        OutboxMessageStatus::WaitingRetry => "WaitingRetry"@,
        OutboxMessageStatus::Failed => "Failed"@,
    }
}

impl OutboxMessageStatus {
    /// The status as it is displayed.
    pub fn to_string(&self) -> (s: String)
        ensures
            s@ == outbox_message_status_display(*self),
    {
        match self {
            OutboxMessageStatus::New => String::from_str("New"),
            OutboxMessageStatus::Processed => String::from_str("Processed"),
            OutboxMessageStatus::WaitingRetry => String::from_str("WaitingRetry"),
            OutboxMessageStatus::Failed => String::from_str("Failed"),
        }
    }
}

pub struct OutboxMessageEntity {
    pub id: String,
    pub aggregate_type: String,
    pub topic: String,
    pub key: String,
    pub payload: serde_json::Value,
    pub status: String,
    pub processing_attempts: u8,
    pub last_error: Option<String>,
    pub processed_at: Option<Timestamp>,
    pub created_at: Timestamp,
    pub updated_at: Timestamp,
}

/// The short payload of a delivery event.
pub struct OutboxDeliveryPayload {
    pub delivery_id: String,
    pub order_id: String,
    pub status: String,
}

} // verus!
