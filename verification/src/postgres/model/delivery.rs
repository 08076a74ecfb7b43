//! The delivery aggregate: what a delivery is, its items, and the life cycle of its status.
use crate::clock::Timestamp;
use crate::text::join;
use crate::text::str_equals;
use chrono::NaiveDate;
use uuid::Uuid;
use vstd::prelude::*;

verus! {

#[derive(Debug)]
pub struct Address {
    pub city: String,
    pub street: String,
    pub building: String,
    pub apartment: Option<String>,
    pub postal_code: String,
}

/// An address as plain text values. Shared by `Address` and the address of the HTTP layer.
pub struct AddressView {
    pub city: Seq<char>,
    pub street: Seq<char>,
    pub building: Seq<char>,
    pub apartment: Option<Seq<char>>,
    pub postal_code: Seq<char>,
}

impl View for Address {
    type V = AddressView;

    open spec fn view(&self) -> AddressView {
        AddressView {
            city: self.city@,
            street: self.street@,
            building: self.building@,
            apartment: self.apartment.deep_view(),
            postal_code: self.postal_code@,
        }
    }
}

#[derive(Debug)]
pub struct Recipient {
    pub name: String,
    pub phone: String,
}

/// A recipient as plain text values. Shared by `Recipient` and its HTTP counterpart.
pub struct RecipientView {
    pub name: Seq<char>,
    pub phone: Seq<char>,
}

impl View for Recipient {
    type V = RecipientView;

    open spec fn view(&self) -> RecipientView {
        RecipientView { name: self.name@, phone: self.phone@ }
    }
}

#[derive(Debug)]
pub struct Delivery {
    pub id: Uuid,
    pub order_id: String,
    pub courier_id: Option<Uuid>,
    pub recipient: Recipient,
    pub address: Address,
    pub status: DeliveryStatus,
    pub scheduled_date: NaiveDate,
    pub delivered_at: Option<Timestamp>,
    pub cancelled_at: Option<Timestamp>,
    pub cancellation_reason: Option<String>,
    pub items: Vec<DeliveryItem>,
    pub created_at: Timestamp,
    pub updated_at: Timestamp,
}

pub struct DeliveryView {
    pub id: Uuid,
    pub order_id: Seq<char>,
    pub courier_id: Option<Uuid>,
    pub recipient: RecipientView,
    pub address: AddressView,
    pub status: DeliveryStatus,
    pub scheduled_date: NaiveDate,
    pub delivered_at: Option<Timestamp>,
    pub cancelled_at: Option<Timestamp>,
    pub cancellation_reason: Option<Seq<char>>,
    pub items: Seq<DeliveryItemView>,
    pub created_at: Timestamp,
    pub updated_at: Timestamp,
}

/// The views of a sequence of items, in order.
pub open spec fn items_view(items: Seq<DeliveryItem>) -> Seq<DeliveryItemView> {
    items.map_values(|i: DeliveryItem| i@)
}

impl View for Delivery {
    type V = DeliveryView;

    open spec fn view(&self) -> DeliveryView {
        DeliveryView {
            id: self.id,
            order_id: self.order_id@,
            courier_id: self.courier_id,
            recipient: self.recipient@,
            address: self.address@,
            status: self.status,
            scheduled_date: self.scheduled_date,
            delivered_at: self.delivered_at,
            cancelled_at: self.cancelled_at,
            cancellation_reason: self.cancellation_reason.deep_view(),
            items: items_view(self.items@),
            created_at: self.created_at,
            updated_at: self.updated_at,
        }
    }
}

#[derive(Debug)]
pub struct DeliveryItem {
    pub id: Uuid,
    pub sku: String,
    pub name: String,
    pub quantity: u32,
    pub weight_grams: Option<u32>,
}

/// An item as plain values. Shared by `DeliveryItem` and the item of a delivery response.
pub struct DeliveryItemView {
    pub id: Uuid,
    pub sku: Seq<char>,
    pub name: Seq<char>,
    pub quantity: u32,
    pub weight_grams: Option<u32>,
}

impl View for DeliveryItem {
    type V = DeliveryItemView;

    open spec fn view(&self) -> DeliveryItemView {
        DeliveryItemView {
            id: self.id,
            sku: self.sku@,
            name: self.name@,
            quantity: self.quantity,
            weight_grams: self.weight_grams,
        }
    }
}

#[derive(Debug, Clone, Copy, PartialEq, Eq, Structural)]
pub enum DeliveryStatus {
    Pending,
    Assigned,
    PickedUp,
    InTransit,
    Delivered,
    Failed,
    Cancelled,
}

/// The allowed moves of a delivery's status.
pub open spec fn transition_allowed(from: DeliveryStatus, to: DeliveryStatus) -> bool {
    match (from, to) {
        (DeliveryStatus::Pending, DeliveryStatus::Assigned) => true,
        (DeliveryStatus::Pending, DeliveryStatus::Cancelled) => true,
        (DeliveryStatus::Assigned, DeliveryStatus::PickedUp) => true,
        (DeliveryStatus::Assigned, DeliveryStatus::Cancelled) => true,
        (DeliveryStatus::PickedUp, DeliveryStatus::InTransit) => true,
        (DeliveryStatus::PickedUp, DeliveryStatus::Cancelled) => true,
        (DeliveryStatus::InTransit, DeliveryStatus::Delivered) => true,
        (DeliveryStatus::InTransit, DeliveryStatus::Failed) => true,
        (DeliveryStatus::InTransit, DeliveryStatus::Cancelled) => true,
        (DeliveryStatus::Failed, DeliveryStatus::InTransit) => true,
        (DeliveryStatus::Failed, DeliveryStatus::Cancelled) => true,
        _ => false,
    }
}

/// The stored name of a status.
pub open spec fn status_name(s: DeliveryStatus) -> Seq<char> {
    match s {
        DeliveryStatus::Pending => "PENDING"@,
        DeliveryStatus::Assigned => "ASSIGNED"@,
        DeliveryStatus::PickedUp => "PICKED_UP"@,
        DeliveryStatus::InTransit => "IN_TRANSIT"@,
        DeliveryStatus::Delivered => "DELIVERED"@,
        DeliveryStatus::Failed => "FAILED"@,
        DeliveryStatus::Cancelled => "CANCELLED"@,
    }
}

/// The status a stored name denotes, if any.
pub open spec fn status_from_name(s: Seq<char>) -> Option<DeliveryStatus> {
    if s == "PENDING"@ {
        Some(DeliveryStatus::Pending)
    } else if s == "ASSIGNED"@ {
        Some(DeliveryStatus::Assigned)
    } else if s == "PICKED_UP"@ {
        Some(DeliveryStatus::PickedUp)
    } else if s == "IN_TRANSIT"@ {
        Some(DeliveryStatus::InTransit)
    } else if s == "DELIVERED"@ {
        Some(DeliveryStatus::Delivered)
    } else if s == "FAILED"@ {
        Some(DeliveryStatus::Failed)
    } else if s == "CANCELLED"@ {
        Some(DeliveryStatus::Cancelled)
    } else {
        None
    }
}

/// The message of a refused status name.
pub open spec fn unknown_status_message(s: Seq<char>) -> Seq<char> {
    "Unknown delivery status: "@ + s
}

impl DeliveryStatus {
    /// Whether a delivery in this status may move to `next`.
    pub fn can_transition_to(&self, next: &DeliveryStatus) -> (b: bool)
        ensures
            b == transition_allowed(*self, *next),
    {
        match (self, next) {
            (Self::Pending, Self::Assigned) => true,
            (Self::Pending, Self::Cancelled) => true,
            (Self::Assigned, Self::PickedUp) => true,
            (Self::Assigned, Self::Cancelled) => true,
            (Self::PickedUp, Self::InTransit) => true,
            (Self::PickedUp, Self::Cancelled) => true,
            (Self::InTransit, Self::Delivered) => true,
            (Self::InTransit, Self::Failed) => true,
            (Self::InTransit, Self::Cancelled) => true,
            (Self::Failed, Self::InTransit) => true,  // retry
            (Self::Failed, Self::Cancelled) => true,
            _ => false,
        }
    }

    /// The name under which the status is stored.
    pub fn as_str(&self) -> (s: &'static str)
        ensures
            s@ == status_name(*self),
    {
        match self {
            Self::Pending => "PENDING",
            Self::Assigned => "ASSIGNED",
            Self::PickedUp => "PICKED_UP",
            Self::InTransit => "IN_TRANSIT",
            Self::Delivered => "DELIVERED",
            Self::Failed => "FAILED",
            Self::Cancelled => "CANCELLED",
        }
    }

    /// The status a stored name denotes; any other text is refused with a message.
    pub fn try_from(s: &str) -> (r: Result<DeliveryStatus, String>)
        ensures
            match status_from_name(s@) {
                Some(status) => r == Ok::<DeliveryStatus, String>(status),
                None => r is Err && r->Err_0@ == unknown_status_message(s@),
            },
    {
        if str_equals(s, "PENDING") {
            Ok(Self::Pending)
        } else if str_equals(s, "ASSIGNED") {
            Ok(Self::Assigned)
        } else if str_equals(s, "PICKED_UP") {
            Ok(Self::PickedUp)
        } else if str_equals(s, "IN_TRANSIT") {
            Ok(Self::InTransit)
        } else if str_equals(s, "DELIVERED") {
            Ok(Self::Delivered)
        } else if str_equals(s, "FAILED") {
            Ok(Self::Failed)
        } else if str_equals(s, "CANCELLED") {
            Ok(Self::Cancelled)
        } else {
            Err(join("Unknown delivery status: ", s))
        }
    }

    /// The status as text, as it is displayed: its stored name.
    pub fn to_string(&self) -> (s: String)
        ensures
            s@ == status_name(*self),
    {
        String::from_str(self.as_str())
    }
}

#[derive(Debug)]
pub struct DeliveryStatusHistory {
    pub id: Uuid,
    pub delivery_id: Uuid,
    pub status: DeliveryStatus,
    pub reason: Option<String>,
    pub changed_at: Timestamp,
}

/// A delivered or cancelled delivery is final: no status may follow it.
pub proof fn lemma_final_statuses_have_no_successor(next: DeliveryStatus)
    ensures
        !transition_allowed(DeliveryStatus::Delivered, next),
        !transition_allowed(DeliveryStatus::Cancelled, next),
{
}

/// A status never moves to itself, and no status leads back to `Pending`.
pub proof fn lemma_no_self_moves_and_no_return_to_pending(s: DeliveryStatus)
    ensures
        !transition_allowed(s, s),
        !transition_allowed(s, DeliveryStatus::Pending),
{
}

/// Every status that is not final may be cancelled.
pub proof fn lemma_open_deliveries_can_be_cancelled(s: DeliveryStatus)
    requires
        s != DeliveryStatus::Delivered,
        s != DeliveryStatus::Cancelled,
    ensures
        transition_allowed(s, DeliveryStatus::Cancelled),
{
}

/// Only a delivery in transit can be delivered or fail; a failed one can only be
/// retried (back in transit) or cancelled.
pub proof fn lemma_delivery_outcomes(s: DeliveryStatus, next: DeliveryStatus)
    ensures
        transition_allowed(s, DeliveryStatus::Delivered) ==> s == DeliveryStatus::InTransit,
        transition_allowed(s, DeliveryStatus::Failed) ==> s == DeliveryStatus::InTransit,
        transition_allowed(DeliveryStatus::Failed, next) ==> (next == DeliveryStatus::InTransit
            || next == DeliveryStatus::Cancelled),
{
}

/// Reading back the stored name of a status gives the status again, and distinct
/// statuses have distinct names.
pub proof fn lemma_status_name_round_trip(s: DeliveryStatus, t: DeliveryStatus)
    ensures
        status_from_name(status_name(s)) == Some(s),
        status_name(s) == status_name(t) ==> s == t,
{
    reveal_strlit("PENDING");
    reveal_strlit("ASSIGNED");
    reveal_strlit("PICKED_UP");
    reveal_strlit("IN_TRANSIT");
    reveal_strlit("DELIVERED");
    reveal_strlit("FAILED");
    reveal_strlit("CANCELLED");
    assert("PENDING"@.len() == 7 && "PENDING"@[0] == 'P');
    assert("ASSIGNED"@.len() == 8 && "ASSIGNED"@[0] == 'A');
    assert("PICKED_UP"@.len() == 9 && "PICKED_UP"@[0] == 'P');
    assert("IN_TRANSIT"@.len() == 10 && "IN_TRANSIT"@[0] == 'I');
    assert("DELIVERED"@.len() == 9 && "DELIVERED"@[0] == 'D');
    assert("FAILED"@.len() == 6 && "FAILED"@[0] == 'F');
    assert("CANCELLED"@.len() == 9 && "CANCELLED"@[0] == 'C');
}

/// A sequence of statuses in which each may follow the one before it.
pub open spec fn is_status_path(p: Seq<DeliveryStatus>) -> bool {
    forall|i: int| 0 <= i < p.len() - 1 ==> transition_allowed(#[trigger] p[i], p[i + 1])
}

/// Every status can be reached from `Pending` by allowed moves: the life cycle has no
/// status that no delivery could ever be in.
pub proof fn lemma_every_status_reachable_from_pending(s: DeliveryStatus)
    ensures
        exists|p: Seq<DeliveryStatus>|
            p.len() > 0 && p[0] == DeliveryStatus::Pending && p.last() == s && is_status_path(p),
{
    let to_transit = seq![
        DeliveryStatus::Pending,
        DeliveryStatus::Assigned,
        DeliveryStatus::PickedUp,
        DeliveryStatus::InTransit,
    ];
    let p = match s {
        DeliveryStatus::Pending => seq![DeliveryStatus::Pending],
        DeliveryStatus::Assigned => seq![DeliveryStatus::Pending, DeliveryStatus::Assigned],
        DeliveryStatus::PickedUp => to_transit.take(3),
        DeliveryStatus::InTransit => to_transit,
        DeliveryStatus::Delivered => to_transit.push(DeliveryStatus::Delivered),
        DeliveryStatus::Failed => to_transit.push(DeliveryStatus::Failed),
        DeliveryStatus::Cancelled => seq![DeliveryStatus::Pending, DeliveryStatus::Cancelled],
    };
    assert(is_status_path(p));
    assert(p.len() > 0 && p[0] == DeliveryStatus::Pending && p.last() == s);
}

} // verus!
