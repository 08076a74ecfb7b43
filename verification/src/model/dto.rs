//! The loosely typed request and answer of the first version of the delivery interface.
use vstd::prelude::*;

verus! {

/// A request in which every part may be missing.
pub struct CreateDeliveryRequest {
    pub order_id: Option<String>,
    pub address: Option<String>,
    pub items: Option<Vec<OrderItemDto>>,
}

pub struct CreateDeliveryResponse {
    pub delivery_id: String,
    pub order_id: String,
    pub address: String,
    pub status: String,
    pub items: Vec<OrderItemDto>,
}

/// An ordered item; it carries no fields yet.
pub struct OrderItemDto {}

pub struct ErrorResponseDto {
    pub error: &'static str,
    pub message: String,
}

} // verus!
