//! The first version of the delivery service, over the loosely typed request.
use crate::model::dto::CreateDeliveryRequest;
use crate::model::dto::CreateDeliveryResponse;
use crate::text::is_blank;
use crate::text::is_blank_text;
use vstd::prelude::*;

verus! {

#[derive(Debug)]
pub enum ServiceError {
    NotFound,
    InvalidDto,
    InvalidCustomerId,
    InvalidStatusTransition,
    DatabaseError(String),
    SerializationError(serde_json::Error),
}

/// Whether a request is accepted: it must have an order id, an address and items, and
/// (as the validation is written) both the order id and the address must be blank.
pub open spec fn request_accepted(dto: CreateDeliveryRequest) -> bool {
    &&& dto.order_id is Some
    &&& dto.address is Some
    &&& dto.items is Some
    &&& is_blank_text(dto.order_id.unwrap()@)
    &&& is_blank_text(dto.address.unwrap()@)
}

/// Whether the request is accepted.
pub fn validate(dto: &CreateDeliveryRequest) -> (b: bool)
    ensures
        b == request_accepted(*dto),
{
    if dto.address.is_none() || dto.order_id.is_none() || dto.items.is_none() {
        return false;
    }
    let valid_order_id = match &dto.order_id {
        Some(s) => is_blank(s.as_str()),
        None => false,
    };
    let valid_address = match &dto.address {
        Some(s) => is_blank(s.as_str()),
        None => false,
    };
    valid_order_id && valid_address
}

/// The answer to a request: an invalid one is refused; an accepted one is answered as a
/// pending delivery under a placeholder id, with the request's order, address and items.
pub fn create_delivery(request: CreateDeliveryRequest) -> (r: Result<
    CreateDeliveryResponse,
    ServiceError,
>)
    ensures
        !request_accepted(request) ==> r matches Err(ServiceError::InvalidDto),
        request_accepted(request) ==> {
            &&& r is Ok
            &&& r->Ok_0.delivery_id@ == "new-delivery-id"@
            &&& r->Ok_0.order_id@ == request.order_id.unwrap()@
            &&& r->Ok_0.address@ == request.address.unwrap()@
            &&& r->Ok_0.status@ == "PENDING"@
            &&& r->Ok_0.items@ == request.items.unwrap()@
        },
{
    if !validate(&request) {
        return Err(ServiceError::InvalidDto);
    }
    match (request.order_id, request.address, request.items) {
        (Some(order_id), Some(address), Some(items)) => Ok(
            CreateDeliveryResponse {
                delivery_id: String::from_str("new-delivery-id"),
                order_id,
                address,
                status: String::from_str("PENDING"),
                items,
            },
        ),
        _ => Err(ServiceError::InvalidDto),
    }
}

} // verus!
