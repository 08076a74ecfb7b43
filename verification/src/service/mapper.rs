//! From a stored delivery record to the answer of the first version of the interface.
use crate::model::dto::CreateDeliveryResponse;
use crate::model::dto::OrderItemDto;
use crate::postgres::model::entity::DeliveryEntity;
use vstd::prelude::*;

verus! {

/// The answer for a stored record: its id, order, address and status, with no items.
pub fn entity_to_dto(entity: &DeliveryEntity) -> (r: CreateDeliveryResponse)
    ensures
        r.delivery_id@ == entity.delivery_id@,
        r.order_id@ == entity.order_id@,
        r.address@ == entity.address@,
        r.status@ == entity.status@,
        r.items@.len() == 0,
{
    let items: Vec<OrderItemDto> = Vec::new();
    CreateDeliveryResponse {
        delivery_id: entity.delivery_id.clone(),
        order_id: entity.order_id.clone(),
        address: entity.address.clone(),
        status: entity.status.clone(),
        items,
    }
}

} // verus!
