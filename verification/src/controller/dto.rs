//! What the HTTP interface receives and answers, and how a delivery is answered.
use crate::clock::Timestamp;
use crate::postgres::model::delivery::status_name;
use crate::postgres::model::delivery::Address;
use crate::postgres::model::delivery::AddressView;
use crate::postgres::model::delivery::Delivery;
use crate::postgres::model::delivery::DeliveryItem;
use crate::postgres::model::delivery::DeliveryItemView;
use crate::postgres::model::delivery::DeliveryView;
use crate::postgres::model::delivery::Recipient;
use crate::postgres::model::delivery::RecipientView;
use crate::text::clone_opt;
use chrono::NaiveDate;
use uuid::Uuid;
use vstd::prelude::*;

verus! {

/// A request to create a delivery for an order.
pub struct CreateDeliveryRequest {
    pub order_id: String,
    pub recipient: RecipientDto,
    pub address: AddressDto,
    pub scheduled_date: NaiveDate,
    pub items: Vec<CreateDeliveryItemDto>,
}

pub struct CreateDeliveryRequestView {
    pub order_id: Seq<char>,
    pub recipient: RecipientView,
    pub address: AddressView,
    pub scheduled_date: NaiveDate,
    pub items: Seq<CreateDeliveryItemView>,
}

impl View for CreateDeliveryRequest {
    type V = CreateDeliveryRequestView;

    open spec fn view(&self) -> CreateDeliveryRequestView {
        CreateDeliveryRequestView {
            order_id: self.order_id@,
            recipient: self.recipient@,
            address: self.address@,
            scheduled_date: self.scheduled_date,
            items: self.items@.map_values(|i: CreateDeliveryItemDto| i@),
        }
    }
}

pub struct RecipientDto {
    pub name: String,
    pub phone: String,
}

impl View for RecipientDto {
    type V = RecipientView;

    open spec fn view(&self) -> RecipientView {
        RecipientView { name: self.name@, phone: self.phone@ }
    }
}

pub struct AddressDto {
    pub city: String,
    pub street: String,
    pub building: String,
    pub apartment: Option<String>,
    pub postal_code: String,
}

impl View for AddressDto {
    type V = AddressView;

    open spec fn view(&self) -> AddressView {
        AddressView {
            city: self.city@,
            street: self.street@,
            building: self.building@,
            apartment: self.apartment.deep_view(),
            postal_code: self.postal_code@,
        }
    }
}

pub struct CreateDeliveryItemDto {
    pub sku: String,
    pub name: String,
    pub quantity: u32,
    pub weight_grams: Option<u32>,
}

pub struct CreateDeliveryItemView {
    pub sku: Seq<char>,
    pub name: Seq<char>,
    pub quantity: u32,
    pub weight_grams: Option<u32>,
}

impl View for CreateDeliveryItemDto {
    type V = CreateDeliveryItemView;

    open spec fn view(&self) -> CreateDeliveryItemView {
        CreateDeliveryItemView {
            sku: self.sku@,
            name: self.name@,
            quantity: self.quantity,
            weight_grams: self.weight_grams,
        }
    }
}

/// A delivery as the HTTP interface answers it.
pub struct DeliveryResponse {
    pub id: Uuid,
    pub order_id: String,
    pub courier_id: Option<Uuid>,
    pub recipient: RecipientDto,
    pub address: AddressDto,
    pub status: String,
    pub scheduled_date: NaiveDate,
    pub delivered_at: Option<Timestamp>,
    pub cancelled_at: Option<Timestamp>,
    pub cancellation_reason: Option<String>,
    pub items: Vec<DeliveryItemDto>,
    pub created_at: Timestamp,
    pub updated_at: Timestamp,
}

pub struct DeliveryResponseView {
    pub id: Uuid,
    pub order_id: Seq<char>,
    pub courier_id: Option<Uuid>,
    pub recipient: RecipientView,
    pub address: AddressView,
    pub status: Seq<char>,
    pub scheduled_date: NaiveDate,
    pub delivered_at: Option<Timestamp>,
    pub cancelled_at: Option<Timestamp>,
    pub cancellation_reason: Option<Seq<char>>,
    pub items: Seq<DeliveryItemView>,
    pub created_at: Timestamp,
    pub updated_at: Timestamp,
}

impl View for DeliveryResponse {
    type V = DeliveryResponseView;

    open spec fn view(&self) -> DeliveryResponseView {
        DeliveryResponseView {
            id: self.id,
            order_id: self.order_id@,
            courier_id: self.courier_id,
            recipient: self.recipient@,
            address: self.address@,
            status: self.status@,
            scheduled_date: self.scheduled_date,
            delivered_at: self.delivered_at,
            cancelled_at: self.cancelled_at,
            cancellation_reason: self.cancellation_reason.deep_view(),
            items: self.items@.map_values(|i: DeliveryItemDto| i@),
            created_at: self.created_at,
            updated_at: self.updated_at,
        }
    }
}

/// The answer for a delivery: every field as it is, the status by its stored name.
pub open spec fn response_of(d: DeliveryView) -> DeliveryResponseView {
    DeliveryResponseView {
        id: d.id,
        order_id: d.order_id,
        courier_id: d.courier_id,
        recipient: d.recipient,
        address: d.address,
        status: status_name(d.status),
        scheduled_date: d.scheduled_date,
        delivered_at: d.delivered_at,
        cancelled_at: d.cancelled_at,
        cancellation_reason: d.cancellation_reason,
        items: d.items,
        created_at: d.created_at,
        updated_at: d.updated_at,
    }
}

pub struct DeliveryItemDto {
    pub id: Uuid,
    pub sku: String,
    pub name: String,
    pub quantity: u32,
    pub weight_grams: Option<u32>,
}

impl View for DeliveryItemDto {
    type V = DeliveryItemView;

    open spec fn view(&self) -> DeliveryItemView {
        DeliveryItemView {
            id: self.id,
            sku: self.sku@,
            name: self.name@,
            quantity: self.quantity,
            weight_grams: self.weight_grams,
        }
    }
}

impl DeliveryResponse {
    /// The answer for a delivery.
    pub fn from(value: &Delivery) -> (r: DeliveryResponse)
        ensures
            r@ == response_of(value@),
            r@.id == value@.id,
            r@.order_id == value@.order_id,
            r@.courier_id == value@.courier_id,
            r@.recipient == value@.recipient,
            r@.address == value@.address,
            r@.status == status_name(value@.status),
            r@.scheduled_date == value@.scheduled_date,
            r@.delivered_at == value@.delivered_at,
            r@.cancelled_at == value@.cancelled_at,
            r@.cancellation_reason == value@.cancellation_reason,
            r@.items == value@.items,
            r@.created_at == value@.created_at,
            r@.updated_at == value@.updated_at,
    {
        let mut items: Vec<DeliveryItemDto> = Vec::new();
        let n = value.items.len();
        let mut k: usize = 0;
        while k < n
            invariant
                n == value.items@.len(),
                k <= n,
                items@.len() == k,
                forall|j: int| 0 <= j < k ==> (#[trigger] items@[j])@ == value.items@[j]@,
            decreases n - k,
        {
            items.push(DeliveryItemDto::from(&value.items[k]));
            k = k + 1;
        }
        let r = DeliveryResponse {
            id: value.id,
            order_id: value.order_id.clone(),
            courier_id: value.courier_id,
            recipient: RecipientDto::from(&value.recipient),
            address: AddressDto::from(&value.address),
            status: String::from_str(value.status.as_str()),
            scheduled_date: value.scheduled_date,
            delivered_at: value.delivered_at,
            cancelled_at: value.cancelled_at,
            cancellation_reason: clone_opt(&value.cancellation_reason),
            items,
            created_at: value.created_at,
            updated_at: value.updated_at,
        };
        proof {
            assert(r@.items =~= value@.items);
        }
        r
    }
}

impl AddressDto {
    pub fn from(value: &Address) -> (r: AddressDto)
        ensures
            r@ == value@,
    {
        AddressDto {
            city: value.city.clone(),
            street: value.street.clone(),
            building: value.building.clone(),
            apartment: clone_opt(&value.apartment),
            postal_code: value.postal_code.clone(),
        }
    }
}

impl RecipientDto {
    pub fn from(r: &Recipient) -> (d: RecipientDto)
        ensures
            d@ == r@,
    {
        RecipientDto { name: r.name.clone(), phone: r.phone.clone() }
    }
}

impl DeliveryItemDto {
    pub fn from(item: &DeliveryItem) -> (d: DeliveryItemDto)
        ensures
            d@ == item@,
    {
        DeliveryItemDto {
            id: item.id,
            sku: item.sku.clone(),
            name: item.name.clone(),
            quantity: item.quantity,
            weight_grams: item.weight_grams,
        }
    }
}

/// The body of an error answer: a short title and a message.
pub struct ErrorResponseDto {
    pub error: &'static str,
    pub message: String,
}

/// The answer for a delivery shows the delivery as it is: every field unchanged (the
/// recipient's name and phone, the whole address, each item), the status by its stored name.
pub proof fn lemma_answer_shows_the_delivery(d: DeliveryView)
    ensures
        response_of(d).id == d.id,
        response_of(d).order_id == d.order_id,
        response_of(d).courier_id == d.courier_id,
        response_of(d).recipient == d.recipient,
        response_of(d).address == d.address,
        response_of(d).scheduled_date == d.scheduled_date,
        response_of(d).delivered_at == d.delivered_at,
        response_of(d).cancelled_at == d.cancelled_at,
        response_of(d).cancellation_reason == d.cancellation_reason,
        response_of(d).items == d.items,
        response_of(d).created_at == d.created_at,
        response_of(d).updated_at == d.updated_at,
        response_of(d).status == status_name(d.status),
        response_of(d).recipient.name == d.recipient.name,
        response_of(d).recipient.phone == d.recipient.phone,
{
}

} // verus!
