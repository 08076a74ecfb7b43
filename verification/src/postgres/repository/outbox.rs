//! The rows of the `outbox` table: the task that announces a new delivery, and how
//! pending rows read back as messages.
use crate::clock::now;
use crate::clock::Timestamp;
use crate::ids::new_uuid;
use crate::kafka::topics::DELIVERY_TOPIC;
use crate::postgres::model::delivery::status_name;
use crate::postgres::model::delivery::Delivery;
use crate::postgres::model::delivery::DeliveryItem;
use crate::postgres::model::delivery::DeliveryView;
use crate::postgres::model::outbox::aggregate_type_from_name;
use crate::postgres::model::outbox::outbox_status_from_name;
use crate::postgres::model::outbox::OutboxAggregateType;
use crate::postgres::model::outbox::OutboxMessage;
use crate::postgres::model::outbox::OutboxStatus;
use crate::postgres::model::result::RepositoryError;
use chrono::NaiveDate;
use uuid::Uuid;
use vstd::prelude::*;

verus! {

/// The event payload that consumers of the delivery topic receive.
pub struct DeliveryCreatedPayload {
    pub delivery_id: Uuid,
    pub order_id: String,
    pub status: String,
    pub recipient_name: String,
    pub recipient_phone: String,
    pub city: String,
    pub scheduled_date: NaiveDate,
    pub items: Vec<DeliveryItemPayload>,
}

pub struct DeliveryItemPayload {
    pub sku: String,
    pub name: String,
    pub quantity: u32,
}

pub struct DeliveryItemPayloadView {
    pub sku: Seq<char>,
    pub name: Seq<char>,
    pub quantity: u32,
}

impl View for DeliveryItemPayload {
    type V = DeliveryItemPayloadView;

    open spec fn view(&self) -> DeliveryItemPayloadView {
        DeliveryItemPayloadView { sku: self.sku@, name: self.name@, quantity: self.quantity }
    }
}

pub struct DeliveryCreatedPayloadView {
    pub delivery_id: Uuid,
    pub order_id: Seq<char>,
    pub status: Seq<char>,
    pub recipient_name: Seq<char>,
    pub recipient_phone: Seq<char>,
    pub city: Seq<char>,
    pub scheduled_date: NaiveDate,
    pub items: Seq<DeliveryItemPayloadView>,
}

impl View for DeliveryCreatedPayload {
    type V = DeliveryCreatedPayloadView;

    open spec fn view(&self) -> DeliveryCreatedPayloadView {
        DeliveryCreatedPayloadView {
            delivery_id: self.delivery_id,
            order_id: self.order_id@,
            status: self.status@,
            recipient_name: self.recipient_name@,
            recipient_phone: self.recipient_phone@,
            city: self.city@,
            scheduled_date: self.scheduled_date,
            items: self.items@.map_values(|i: DeliveryItemPayload| i@),
        }
    }
}

/// The payload that announces a delivery: its identity, order, status, recipient, city,
/// date, and the sku, name and quantity of each item in order.
pub open spec fn created_payload(d: DeliveryView) -> DeliveryCreatedPayloadView {
    DeliveryCreatedPayloadView {
        delivery_id: d.id,
        order_id: d.order_id,
        status: status_name(d.status),
        recipient_name: d.recipient.name,
        recipient_phone: d.recipient.phone,
        city: d.address.city,
        scheduled_date: d.scheduled_date,
        items: d.items.map_values(
            |i: crate::postgres::model::delivery::DeliveryItemView|
                DeliveryItemPayloadView { sku: i.sku, name: i.name, quantity: i.quantity },
        ),
    }
}

/// A new outbox task: the values that the insert of a task writes. The insert itself
/// sets the task's status to `NEW`, with no attempts, retry time, error or processing time.
pub struct OutboxTask {
    pub id: Uuid,
    pub aggregate_type: OutboxAggregateType,
    pub topic: String,
    pub key: String,
    pub payload: DeliveryCreatedPayload,
    pub created_at: Timestamp,
    pub updated_at: Timestamp,
}

/// A row of the `outbox` table, column by column.
pub struct OutboxRecord {
    pub id: Uuid,
    pub aggregate_type: String,
    pub topic: String,
    pub key: String,
    pub payload: serde_json::Value,
    pub status: String,
    pub processing_attempts: i32,
    pub next_retry_at: Option<Timestamp>,
    pub last_error: Option<String>,
    pub processed_at: Option<Timestamp>,
    pub created_at: Timestamp,
    pub updated_at: Timestamp,
}

/// What an outbox row reads back as, given the aggregate type and status its columns name.
pub open spec fn message_of_row(
    r: OutboxRecord,
    aggregate_type: OutboxAggregateType,
    status: OutboxStatus,
    m: OutboxMessage,
) -> bool {
    &&& m.id == r.id
    &&& m.aggregate_type == aggregate_type
    &&& m.topic@ == r.topic@
    &&& m.key@ == r.key@
    &&& m.status == status
    &&& m.payload == r.payload
    &&& m.processing_attempts == r.processing_attempts as u8
    &&& m.next_retry_at == r.next_retry_at
    &&& m.last_error.deep_view() == r.last_error.deep_view()
    &&& m.processed_at == r.processed_at
    &&& m.created_at == r.created_at
    &&& m.updated_at == r.updated_at
}

/// Whether an outbox row reads back at all: both its aggregate type and its status
/// columns name a known value.
pub open spec fn row_is_readable(r: OutboxRecord) -> bool {
    aggregate_type_from_name(r.aggregate_type@) is Some && outbox_status_from_name(r.status@) is Some
}

/// The error an unreadable outbox row gives: the aggregate type column is checked first.
pub open spec fn unreadable_row_error(r: OutboxRecord, e: RepositoryError) -> bool {
    match e {
        RepositoryError::ParseError(m) => if aggregate_type_from_name(r.aggregate_type@) is None {
            m@ == "Unknown outbox aggregate type: "@ + r.aggregate_type@
        } else {
            m@ == "Unknown outbox status: "@ + r.status@
        },
        _ => false,
    }
}

/// The store of outbox messages. It holds no state of its own: each call is handed the
/// transaction or the connection it works in.
pub struct OutboxRepository;

impl OutboxRepository {
    pub fn new() -> (r: Self) {
        OutboxRepository
    }

    /// The payload that announces `delivery` on its topic.
    pub fn create_delivery_payload(&self, delivery: &Delivery) -> (p: DeliveryCreatedPayload)
        ensures
            p@ == created_payload(delivery@),
            p@.delivery_id == delivery@.id,
            p@.order_id == delivery@.order_id,
            p@.status == status_name(delivery@.status),
            p@.recipient_name == delivery@.recipient.name,
            p@.recipient_phone == delivery@.recipient.phone,
            p@.city == delivery@.address.city,
            p@.scheduled_date == delivery@.scheduled_date,
            p@.items.len() == delivery@.items.len(),
            forall|i: int|
                0 <= i < delivery@.items.len() ==> {
                    &&& (#[trigger] p@.items[i]).sku == delivery@.items[i].sku
                    &&& p@.items[i].name == delivery@.items[i].name
                    &&& p@.items[i].quantity == delivery@.items[i].quantity
                },
    {
        let mut items: Vec<DeliveryItemPayload> = Vec::new();
        let n = delivery.items.len();
        let mut k: usize = 0;
        while k < n
            invariant
                n == delivery.items@.len(),
                k <= n,
                items@.len() == k,
                forall|j: int|
                    0 <= j < k ==> {
                        let src = #[trigger] delivery.items@[j];
                        &&& items@[j].sku@ == src.sku@
                        &&& items@[j].name@ == src.name@
                        &&& items@[j].quantity == src.quantity
                    },
            decreases n - k,
        {
            let item: &DeliveryItem = &delivery.items[k];
            items.push(
                DeliveryItemPayload {
                    sku: item.sku.clone(),
                    name: item.name.clone(),
                    quantity: item.quantity,
                },
            );
            k = k + 1;
        }
        let p = DeliveryCreatedPayload {
            delivery_id: delivery.id,
            order_id: delivery.order_id.clone(),
            status: String::from_str(delivery.status.as_str()),
            recipient_name: delivery.recipient.name.clone(),
            recipient_phone: delivery.recipient.phone.clone(),
            city: delivery.address.city.clone(),
            scheduled_date: delivery.scheduled_date,
            items,
        };
        proof {
            assert(p@.items =~= created_payload(delivery@).items);
        }
        p
    }

    /// The task that announces `delivery`, with the given identity and creation time:
    /// keyed by the delivery's order, on the delivery topic.
    pub fn task_for(&self, delivery: &Delivery, id: Uuid, created_at: Timestamp) -> (t:
        OutboxTask)
        ensures
            t.id == id,
            t.aggregate_type == OutboxAggregateType::Delivery,
            t.topic@ == DELIVERY_TOPIC@,
            t.key@ == delivery.order_id@,
            t.payload@ == created_payload(delivery@),
            t.created_at == created_at,
            t.updated_at == created_at,
    {
        let key = delivery.order_id.clone();
        let topic = String::from_str(DELIVERY_TOPIC);
        let payload = self.create_delivery_payload(delivery);
        OutboxTask {
            id,
            aggregate_type: OutboxAggregateType::Delivery,
            topic,
            key,
            payload,
            created_at,
            updated_at: created_at,
        }
    }

    /// The task that announces `delivery`, with a fresh random identity, created now.
    pub fn new_task(&self, delivery: &Delivery) -> (t: OutboxTask)
        ensures
            t.aggregate_type == OutboxAggregateType::Delivery,
            t.topic@ == DELIVERY_TOPIC@,
            t.key@ == delivery.order_id@,
            t.payload@ == created_payload(delivery@),
            t.updated_at == t.created_at,
    {
        let created_at = now();
        let id = new_uuid();
        self.task_for(delivery, id, created_at)
    }

    /// The message an outbox row reads back as; a row whose aggregate type or status
    /// names no known value is refused.
    pub fn row_to_outbox_message(row: OutboxRecord) -> (r: Result<OutboxMessage, RepositoryError>)
        ensures
            r is Ok ==> {
                let m = r->Ok_0;
                &&& aggregate_type_from_name(row.aggregate_type@) == Some(m.aggregate_type)
                &&& outbox_status_from_name(row.status@) == Some(m.status)
                &&& m.id == row.id
                &&& m.topic@ == row.topic@
                &&& m.key@ == row.key@
                &&& m.payload == row.payload
                &&& m.processing_attempts == row.processing_attempts as u8
                &&& m.next_retry_at == row.next_retry_at
                &&& m.last_error.deep_view() == row.last_error.deep_view()
                &&& m.processed_at == row.processed_at
                &&& m.created_at == row.created_at
                &&& m.updated_at == row.updated_at
            },
            row_is_readable(row) ==> r is Ok && message_of_row(
                row,
                aggregate_type_from_name(row.aggregate_type@).unwrap(),
                outbox_status_from_name(row.status@).unwrap(),
                r->Ok_0,
            ),
            !row_is_readable(row) ==> r is Err && unreadable_row_error(row, r->Err_0),
    {
        let aggregate_type = match OutboxAggregateType::try_from(row.aggregate_type.as_str()) {
            Ok(t) => t,
            Err(e) => {
                return Err(RepositoryError::ParseError(e));
            },
        };
        let status = match OutboxStatus::try_from(row.status.as_str()) {
            Ok(s) => s,
            Err(e) => {
                return Err(RepositoryError::ParseError(e));
            },
        };
        Ok(
            OutboxMessage {
                id: row.id,
                aggregate_type,
                topic: row.topic,
                key: row.key,
                status,
                payload: row.payload,
                processing_attempts: row.processing_attempts as u8,
                next_retry_at: row.next_retry_at,
                last_error: row.last_error,
                processed_at: row.processed_at,
                created_at: row.created_at,
                updated_at: row.updated_at,
            },
        )
    }

    /// The messages that the fetched pending rows read back as, in order; the first
    /// row that does not read back refuses the whole batch.
    pub fn rows_to_outbox_messages(rows: Vec<OutboxRecord>) -> (r: Result<
        Vec<OutboxMessage>,
        RepositoryError,
    >)
        ensures
            (forall|i: int| 0 <= i < rows@.len() ==> row_is_readable(#[trigger] rows@[i])) ==> {
                &&& r is Ok
                &&& r->Ok_0@.len() == rows@.len()
                &&& forall|i: int|
                    0 <= i < rows@.len() ==> message_of_row(
                        #[trigger] rows@[i],
                        aggregate_type_from_name(rows@[i].aggregate_type@).unwrap(),
                        outbox_status_from_name(rows@[i].status@).unwrap(),
                        r->Ok_0@[i],
                    )
            },
            !(forall|i: int| 0 <= i < rows@.len() ==> row_is_readable(#[trigger] rows@[i])) ==> {
                &&& r is Err
                &&& exists|i: int|
                    0 <= i < rows@.len() && !row_is_readable(#[trigger] rows@[i]) && (forall|
                        j: int,
                    |
                        0 <= j < i ==> row_is_readable(#[trigger] rows@[j])) && unreadable_row_error(
                        rows@[i],
                        r->Err_0,
                    )
            },
    {
        let ghost all = rows@;
        let n = rows.len();
        let mut rest = rows;
        let mut messages: Vec<OutboxMessage> = Vec::new();
        let mut k: usize = 0;
        while k < n
            invariant
                n == all.len(),
                all == rows@,
                k <= n,
                rest@ == all.subrange(k as int, n as int),
                messages@.len() == k,
                forall|j: int| 0 <= j < k ==> row_is_readable(#[trigger] all[j]),
                forall|j: int|
                    0 <= j < k ==> message_of_row(
                        #[trigger] all[j],
                        aggregate_type_from_name(all[j].aggregate_type@).unwrap(),
                        outbox_status_from_name(all[j].status@).unwrap(),
                        messages@[j],
                    ),
            decreases n - k,
        {
            let row = rest.remove(0);
            assert(row == all[k as int]);
            match Self::row_to_outbox_message(row) {
                Ok(m) => {
                    messages.push(m);
                },
                Err(e) => {
                    assert(!row_is_readable(all[k as int]));
                    assert(unreadable_row_error(all[k as int], e));
                    return Err(e);
                },
            }
            k = k + 1;
        }
        Ok(messages)
    }
}

/// The announcement of a delivery, whatever its status, carries its identity, order,
/// status name, recipient, city and date, and lists each of its items in order with its
/// sku, name and quantity.
pub proof fn lemma_payload_lists_the_delivery(d: DeliveryView)
    ensures
        created_payload(d).delivery_id == d.id,
        created_payload(d).order_id == d.order_id,
        created_payload(d).status == status_name(d.status),
        created_payload(d).recipient_name == d.recipient.name,
        created_payload(d).recipient_phone == d.recipient.phone,
        created_payload(d).city == d.address.city,
        created_payload(d).scheduled_date == d.scheduled_date,
        created_payload(d).items.len() == d.items.len(),
        forall|i: int|
            0 <= i < d.items.len() ==> {
                &&& (#[trigger] created_payload(d).items[i]).sku == d.items[i].sku
                &&& created_payload(d).items[i].name == d.items[i].name
                &&& created_payload(d).items[i].quantity == d.items[i].quantity
            },
{
}

/// A readable outbox row becomes a message with the row's own columns, whatever its
/// status: its identity, topic, key, payload, retry data and times, and the aggregate
/// type and status its columns name; the attempts column keeps its low byte.
pub proof fn lemma_message_keeps_the_row(
    r: OutboxRecord,
    aggregate_type: OutboxAggregateType,
    status: OutboxStatus,
    m: OutboxMessage,
)
    requires
        message_of_row(r, aggregate_type, status, m),
    ensures
        m.id == r.id,
        m.aggregate_type == aggregate_type,
        m.status == status,
        m.topic@ == r.topic@,
        m.key@ == r.key@,
        m.payload == r.payload,
        m.processing_attempts == r.processing_attempts as u8,
        m.next_retry_at == r.next_retry_at,
        m.last_error.deep_view() == r.last_error.deep_view(),
        m.processed_at == r.processed_at,
        m.created_at == r.created_at,
        m.updated_at == r.updated_at,
{
}

} // verus!
