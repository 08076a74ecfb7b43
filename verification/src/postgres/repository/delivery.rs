//! The rows of the `deliveries` and `delivery_items` tables: what storing a delivery
//! writes, and how the rows read back become a delivery again.
use crate::clock::Timestamp;
use crate::postgres::model::delivery::items_view;
use crate::postgres::model::delivery::status_from_name;
use crate::postgres::model::delivery::status_name;
use crate::postgres::model::delivery::unknown_status_message;
use crate::postgres::model::delivery::Address;
use crate::postgres::model::delivery::AddressView;
use crate::postgres::model::delivery::Delivery;
use crate::postgres::model::delivery::DeliveryItem;
use crate::postgres::model::delivery::DeliveryItemView;
use crate::postgres::model::delivery::DeliveryStatus;
use crate::postgres::model::delivery::DeliveryView;
use crate::postgres::model::delivery::Recipient;
use crate::postgres::model::delivery::RecipientView;
use crate::postgres::model::result::RepositoryError;
use crate::text::clone_opt;
use chrono::NaiveDate;
use uuid::Uuid;
use vstd::prelude::*;

verus! {

/// The store of deliveries. It holds no state of its own: each call is handed the
/// transaction or the connection it works in.
pub struct DeliveryRepository;

/// A row of the `deliveries` table, column by column.
pub struct DeliveryRecord {
    pub id: Uuid,
    pub order_id: String,
    pub courier_id: Option<Uuid>,
    pub recipient_name: String,
    pub recipient_phone: String,
    pub city: String,
    pub street: String,
    pub building: String,
    pub apartment: Option<String>,
    pub postal_code: String,
    pub status: String,
    pub scheduled_date: NaiveDate,
    pub delivered_at: Option<Timestamp>,
    pub cancelled_at: Option<Timestamp>,
    pub cancellation_reason: Option<String>,
    pub created_at: Timestamp,
    pub updated_at: Timestamp,
}

pub struct DeliveryRecordView {
    pub id: Uuid,
    pub order_id: Seq<char>,
    pub courier_id: Option<Uuid>,
    pub recipient_name: Seq<char>,
    pub recipient_phone: Seq<char>,
    pub city: Seq<char>,
    pub street: Seq<char>,
    pub building: Seq<char>,
    pub apartment: Option<Seq<char>>,
    pub postal_code: Seq<char>,
    pub status: Seq<char>,
    pub scheduled_date: NaiveDate,
    pub delivered_at: Option<Timestamp>,
    pub cancelled_at: Option<Timestamp>,
    pub cancellation_reason: Option<Seq<char>>,
    pub created_at: Timestamp,
    pub updated_at: Timestamp,
}

impl View for DeliveryRecord {
    type V = DeliveryRecordView;

    open spec fn view(&self) -> DeliveryRecordView {
        DeliveryRecordView {
            id: self.id,
            order_id: self.order_id@,
            courier_id: self.courier_id,
            recipient_name: self.recipient_name@,
            recipient_phone: self.recipient_phone@,
            city: self.city@,
            street: self.street@,
            building: self.building@,
            apartment: self.apartment.deep_view(),
            postal_code: self.postal_code@,
            status: self.status@,
            scheduled_date: self.scheduled_date,
            delivered_at: self.delivered_at,
            cancelled_at: self.cancelled_at,
            cancellation_reason: self.cancellation_reason.deep_view(),
            created_at: self.created_at,
            updated_at: self.updated_at,
        }
    }
}

/// A row of the `delivery_items` table as it is read: the database keeps integers signed.
pub struct DeliveryItemRecord {
    pub id: Uuid,
    pub sku: String,
    pub name: String,
    pub quantity: i32,
    pub weight_grams: Option<i32>,
}

pub struct DeliveryItemRecordView {
    pub id: Uuid,
    pub sku: Seq<char>,
    pub name: Seq<char>,
    pub quantity: i32,
    pub weight_grams: Option<i32>,
}

impl View for DeliveryItemRecord {
    type V = DeliveryItemRecordView;

    open spec fn view(&self) -> DeliveryItemRecordView {
        DeliveryItemRecordView {
            id: self.id,
            sku: self.sku@,
            name: self.name@,
            quantity: self.quantity,
            weight_grams: self.weight_grams,
        }
    }
}

/// The item rows of one delivery, column by column, as one batch insert takes them.
pub struct DeliveryItemColumns {
    pub ids: Vec<Uuid>,
    pub delivery_ids: Vec<Uuid>,
    pub skus: Vec<String>,
    pub names: Vec<String>,
    pub quantities: Vec<i32>,
    pub weights: Vec<Option<i32>>,
}

/// The row that storing a delivery creates: the columns that the insert does not name
/// (courier, delivery and cancellation data) keep their NULL default.
pub open spec fn stored_row(d: DeliveryView) -> DeliveryRecordView {
    DeliveryRecordView {
        id: d.id,
        order_id: d.order_id,
        courier_id: None,
        recipient_name: d.recipient.name,
        recipient_phone: d.recipient.phone,
        city: d.address.city,
        street: d.address.street,
        building: d.address.building,
        apartment: d.address.apartment,
        postal_code: d.address.postal_code,
        status: status_name(d.status),
        scheduled_date: d.scheduled_date,
        delivered_at: None,
        cancelled_at: None,
        cancellation_reason: None,
        created_at: d.created_at,
        updated_at: d.updated_at,
    }
}

/// A signed column value as the unsigned field it stores (bits kept, as `as` casts do).
pub open spec fn weight_of_column(w: Option<i32>) -> Option<u32> {
    match w {
        Some(v) => Some(v as u32),
        None => None,
    }
}

/// An unsigned field as the signed column value that stores it (bits kept, as `as` casts do).
pub open spec fn weight_column(w: Option<u32>) -> Option<i32> {
    match w {
        Some(v) => Some(v as i32),
        None => None,
    }
}

/// The item row that storing an item of a delivery creates.
pub open spec fn stored_item_row(item: DeliveryItemView) -> DeliveryItemRecordView {
    DeliveryItemRecordView {
        id: item.id,
        sku: item.sku,
        name: item.name,
        quantity: item.quantity as i32,
        weight_grams: weight_column(item.weight_grams),
    }
}

/// The item rows that storing a delivery's items creates, in order.
pub open spec fn stored_item_rows(items: Seq<DeliveryItemView>) -> Seq<DeliveryItemRecordView> {
    items.map_values(|i: DeliveryItemView| stored_item_row(i))
}

/// The item an item row reads back as.
pub open spec fn item_of_row(r: DeliveryItemRecordView) -> DeliveryItemView {
    DeliveryItemView {
        id: r.id,
        sku: r.sku,
        name: r.name,
        quantity: r.quantity as u32,
        weight_grams: weight_of_column(r.weight_grams),
    }
}

/// The delivery a row reads back as, given the status its status column names; it has no items.
pub open spec fn delivery_of_row(r: DeliveryRecordView, status: DeliveryStatus) -> DeliveryView {
    DeliveryView {
        id: r.id,
        order_id: r.order_id,
        courier_id: r.courier_id,
        recipient: RecipientView { name: r.recipient_name, phone: r.recipient_phone },
        address: AddressView {
            city: r.city,
            street: r.street,
            building: r.building,
            apartment: r.apartment,
            postal_code: r.postal_code,
        },
        status: status,
        scheduled_date: r.scheduled_date,
        delivered_at: r.delivered_at,
        cancelled_at: r.cancelled_at,
        cancellation_reason: r.cancellation_reason,
        items: Seq::empty(),
        created_at: r.created_at,
        updated_at: r.updated_at,
    }
}

/// The delivery that a delivery row and its item rows read back as, if the status column
/// names a status.
pub open spec fn read_delivery(
    r: DeliveryRecordView,
    item_rows: Seq<DeliveryItemRecordView>,
) -> Option<DeliveryView> {
    match status_from_name(r.status) {
        Some(status) => Some(
            DeliveryView {
                items: item_rows.map_values(|i: DeliveryItemRecordView| item_of_row(i)),
                ..delivery_of_row(r, status)
            },
        ),
        None => None,
    }
}

/// The error that a row with an unknown status column reads back as.
pub open spec fn is_unknown_status_error(e: RepositoryError, status: Seq<char>) -> bool {
    match e {
        RepositoryError::ParseError(m) => m@ == unknown_status_message(status),
        _ => false,
    }
}

impl DeliveryRepository {
    pub fn new() -> (r: Self) {
        DeliveryRepository
    }

    /// The values that the insert of a delivery writes.
    pub fn delivery_row(&self, delivery: &Delivery) -> (r: DeliveryRecord)
        ensures
            r@ == stored_row(delivery@),
    {
        DeliveryRecord {
            id: delivery.id,
            order_id: delivery.order_id.clone(),
            courier_id: None,
            recipient_name: delivery.recipient.name.clone(),
            recipient_phone: delivery.recipient.phone.clone(),
            city: delivery.address.city.clone(),
            street: delivery.address.street.clone(),
            building: delivery.address.building.clone(),
            apartment: clone_opt(&delivery.address.apartment),
            postal_code: delivery.address.postal_code.clone(),
            status: String::from_str(delivery.status.as_str()),
            scheduled_date: delivery.scheduled_date,
            delivered_at: None,
            cancelled_at: None,
            cancellation_reason: None,
            created_at: delivery.created_at,
            updated_at: delivery.updated_at,
        }
    }

    /// The columns of the batch insert of a delivery's items: row `i` stores item `i`
    /// under the given delivery.
    pub fn item_columns(&self, delivery_id: Uuid, items: &[DeliveryItem]) -> (c:
        DeliveryItemColumns)
        ensures
            c.ids@.len() == items@.len(),
            c.delivery_ids@.len() == items@.len(),
            c.skus@.len() == items@.len(),
            c.names@.len() == items@.len(),
            c.quantities@.len() == items@.len(),
            c.weights@.len() == items@.len(),
            forall|i: int|
                0 <= i < items@.len() ==> {
                    let row = #[trigger] stored_item_row(items@[i]@);
                    &&& c.ids@[i] == row.id
                    &&& c.delivery_ids@[i] == delivery_id
                    &&& c.skus@[i]@ == row.sku
                    &&& c.names@[i]@ == row.name
                    &&& c.quantities@[i] == row.quantity
                    &&& c.weights@[i] == row.weight_grams
                },
    {
        let mut ids: Vec<Uuid> = Vec::new();
        let mut delivery_ids: Vec<Uuid> = Vec::new();
        let mut skus: Vec<String> = Vec::new();
        let mut names: Vec<String> = Vec::new();
        let mut quantities: Vec<i32> = Vec::new();
        let mut weights: Vec<Option<i32>> = Vec::new();
        let n = items.len();
        let mut k: usize = 0;
        while k < n
            invariant
                n == items@.len(),
                k <= n,
                ids@.len() == k,
                delivery_ids@.len() == k,
                skus@.len() == k,
                names@.len() == k,
                quantities@.len() == k,
                weights@.len() == k,
                forall|i: int|
                    0 <= i < k ==> {
                        let row = #[trigger] stored_item_row(items@[i]@);
                        &&& ids@[i] == row.id
                        &&& delivery_ids@[i] == delivery_id
                        &&& skus@[i]@ == row.sku
                        &&& names@[i]@ == row.name
                        &&& quantities@[i] == row.quantity
                        &&& weights@[i] == row.weight_grams
                    },
            decreases n - k,
        {
            let item = &items[k];
            ids.push(item.id);
            delivery_ids.push(delivery_id);
            skus.push(item.sku.clone());
            names.push(item.name.clone());
            quantities.push(item.quantity as i32);
            let w: Option<i32> = match item.weight_grams {
                Some(v) => Some(v as i32),
                None => None,
            };
            weights.push(w);
            proof {
                assert(stored_item_row(items@[k as int]@).quantity == item.quantity as i32);
            }
            k = k + 1;
        }
        DeliveryItemColumns { ids, delivery_ids, skus, names, quantities, weights }
    }
}

/// The delivery a row reads back as, with no items; a status column that names no
/// status is refused.
pub fn row_to_delivery(row: DeliveryRecord) -> (r: Result<Delivery, RepositoryError>)
    ensures
        match status_from_name(row.status@) {
            Some(status) => r is Ok && r->Ok_0@ == delivery_of_row(row@, status),
            None => r is Err && is_unknown_status_error(r->Err_0, row.status@),
        },
        r is Ok ==> {
            let d = r->Ok_0@;
            &&& d.id == row.id
            &&& d.order_id == row.order_id@
            &&& d.courier_id == row.courier_id
            &&& d.recipient.name == row.recipient_name@
            &&& d.recipient.phone == row.recipient_phone@
            &&& d.address.city == row.city@
            &&& d.address.street == row.street@
            &&& d.address.building == row.building@
            &&& d.address.apartment == row.apartment.deep_view()
            &&& d.address.postal_code == row.postal_code@
            &&& status_from_name(row.status@) == Some(d.status)
            &&& d.scheduled_date == row.scheduled_date
            &&& d.delivered_at == row.delivered_at
            &&& d.cancelled_at == row.cancelled_at
            &&& d.cancellation_reason == row.cancellation_reason.deep_view()
            &&& d.created_at == row.created_at
            &&& d.updated_at == row.updated_at
            &&& d.items.len() == 0
        },
{
    let status = match DeliveryStatus::try_from(row.status.as_str()) {
        Ok(s) => s,
        Err(e) => {
            return Err(RepositoryError::ParseError(e));
        },
    };
    let delivery = Delivery {
        id: row.id,
        order_id: row.order_id,
        courier_id: row.courier_id,
        recipient: Recipient { name: row.recipient_name, phone: row.recipient_phone },
        address: Address {
            city: row.city,
            street: row.street,
            building: row.building,
            apartment: row.apartment,
            postal_code: row.postal_code,
        },
        status,
        scheduled_date: row.scheduled_date,
        delivered_at: row.delivered_at,
        cancelled_at: row.cancelled_at,
        cancellation_reason: row.cancellation_reason,
        items: Vec::new(),
        created_at: row.created_at,
        updated_at: row.updated_at,
    };
    proof {
        assert(items_view(delivery.items@) =~= Seq::<DeliveryItemView>::empty());
    }
    Ok(delivery)
}

/// The item an item row reads back as.
pub fn row_to_delivery_item(row: DeliveryItemRecord) -> (item: DeliveryItem)
    ensures
        item@ == item_of_row(row@),
{
    let weight_grams: Option<u32> = match row.weight_grams {
        Some(w) => Some(w as u32),
        None => None,
    };
    DeliveryItem {
        id: row.id,
        sku: row.sku,
        name: row.name,
        quantity: row.quantity as u32,
        weight_grams,
    }
}

/// A found delivery row and its item rows, read back as one delivery.
pub fn delivery_from_rows(row: DeliveryRecord, item_rows: Vec<DeliveryItemRecord>) -> (r: Result<
    Delivery,
    RepositoryError,
>)
    ensures
        match read_delivery(row@, item_rows@.map_values(|i: DeliveryItemRecord| i@)) {
            Some(d) => r is Ok && r->Ok_0@ == d,
            None => r is Err && is_unknown_status_error(r->Err_0, row.status@),
        },
        r is Ok ==> {
            let d = r->Ok_0@;
            &&& d.id == row.id
            &&& d.order_id == row.order_id@
            &&& d.courier_id == row.courier_id
            &&& d.recipient.name == row.recipient_name@
            &&& d.recipient.phone == row.recipient_phone@
            &&& d.address.city == row.city@
            &&& d.address.street == row.street@
            &&& d.address.building == row.building@
            &&& d.address.apartment == row.apartment.deep_view()
            &&& d.address.postal_code == row.postal_code@
            &&& status_from_name(row.status@) == Some(d.status)
            &&& d.scheduled_date == row.scheduled_date
            &&& d.delivered_at == row.delivered_at
            &&& d.cancelled_at == row.cancelled_at
            &&& d.cancellation_reason == row.cancellation_reason.deep_view()
            &&& d.created_at == row.created_at
            &&& d.updated_at == row.updated_at
            &&& d.items.len() == item_rows@.len()
            &&& forall|i: int|
                0 <= i < item_rows@.len() ==> {
                    let item = #[trigger] d.items[i];
                    let ir = item_rows@[i];
                    &&& item.id == ir.id
                    &&& item.sku == ir.sku@
                    &&& item.name == ir.name@
                    &&& item.quantity == ir.quantity as u32
                    &&& match ir.weight_grams {
                        Some(w) => item.weight_grams == Some(w as u32),
                        None => item.weight_grams is None,
                    }
                }
        },
{
    let ghost rows_view = item_rows@.map_values(|i: DeliveryItemRecord| i@);
    let mut items: Vec<DeliveryItem> = Vec::new();
    let mut rows = item_rows;
    let ghost all = rows@;
    let n = rows.len();
    let mut k: usize = 0;
    while k < n
        invariant
            n == all.len(),
            k <= n,
            rows@ == all.subrange(k as int, n as int),
            items@.len() == k,
            forall|j: int|
                0 <= j < k ==> (#[trigger] items@[j])@ == item_of_row(all[j]@),
        decreases n - k,
    {
        let next = rows.remove(0);
        let item = row_to_delivery_item(next);
        items.push(item);
        k = k + 1;
    }
    let mut delivery = row_to_delivery(row)?;
    delivery.items = items;
    proof {
        assert(items_view(delivery.items@) =~= rows_view.map_values(
            |i: DeliveryItemRecordView| item_of_row(i),
        ));
    }
    Ok(delivery)
}

/// What storing a delivery writes reads back as that delivery: the delivery row and its
/// item rows give the same delivery again, provided it has none of the fields that the
/// insert leaves at their default (courier, delivery and cancellation data).
pub proof fn lemma_read_after_store(d: DeliveryView)
    requires
        d.courier_id is None,
        d.delivered_at is None,
        d.cancelled_at is None,
        d.cancellation_reason is None,
    ensures
        read_delivery(stored_row(d), stored_item_rows(d.items)) == Some(d),
{
    crate::postgres::model::delivery::lemma_status_name_round_trip(d.status, d.status);
    let rows = stored_item_rows(d.items);
    let back = rows.map_values(|i: DeliveryItemRecordView| item_of_row(i));
    assert forall|i: int| 0 <= i < d.items.len() implies #[trigger] back[i] == d.items[i] by {
        let item = d.items[i];
        let q = item.quantity;
        assert(((q as i32) as u32) == q) by (bit_vector);
        match item.weight_grams {
            Some(w) => {
                assert(((w as i32) as u32) == w) by (bit_vector);
            },
            None => {},
        }
    }
    assert(back =~= d.items);
    assert(read_delivery(stored_row(d), rows).unwrap() =~= d);
}

/// Reading a row keeps every column it reads: the delivery has the row's identity,
/// order, courier, recipient, address, date, delivery and cancellation data and times,
/// and the status its status column names; each item row gives the item with the row's
/// identity, sku, name, and the stored bits of its quantity and weight, in order.
pub proof fn lemma_read_keeps_every_column(
    r: DeliveryRecordView,
    item_rows: Seq<DeliveryItemRecordView>,
)
    requires
        status_from_name(r.status) is Some,
    ensures
        read_delivery(r, item_rows) is Some,
        read_delivery(r, item_rows).unwrap().id == r.id,
        read_delivery(r, item_rows).unwrap().order_id == r.order_id,
        read_delivery(r, item_rows).unwrap().courier_id == r.courier_id,
        read_delivery(r, item_rows).unwrap().recipient.name == r.recipient_name,
        read_delivery(r, item_rows).unwrap().recipient.phone == r.recipient_phone,
        read_delivery(r, item_rows).unwrap().address.city == r.city,
        read_delivery(r, item_rows).unwrap().address.street == r.street,
        read_delivery(r, item_rows).unwrap().address.building == r.building,
        read_delivery(r, item_rows).unwrap().address.apartment == r.apartment,
        read_delivery(r, item_rows).unwrap().address.postal_code == r.postal_code,
        status_from_name(r.status) == Some(read_delivery(r, item_rows).unwrap().status),
        read_delivery(r, item_rows).unwrap().scheduled_date == r.scheduled_date,
        read_delivery(r, item_rows).unwrap().delivered_at == r.delivered_at,
        read_delivery(r, item_rows).unwrap().cancelled_at == r.cancelled_at,
        read_delivery(r, item_rows).unwrap().cancellation_reason == r.cancellation_reason,
        read_delivery(r, item_rows).unwrap().created_at == r.created_at,
        read_delivery(r, item_rows).unwrap().updated_at == r.updated_at,
        read_delivery(r, item_rows).unwrap().items.len() == item_rows.len(),
        forall|i: int|
            0 <= i < item_rows.len() ==> {
                &&& (#[trigger] read_delivery(r, item_rows).unwrap().items[i]).id == item_rows[i].id
                &&& read_delivery(r, item_rows).unwrap().items[i].sku == item_rows[i].sku
                &&& read_delivery(r, item_rows).unwrap().items[i].name == item_rows[i].name
                &&& read_delivery(r, item_rows).unwrap().items[i].quantity
                    == item_rows[i].quantity as u32
                &&& read_delivery(r, item_rows).unwrap().items[i].weight_grams == (match item_rows[
                    i].weight_grams {
                    Some(w) => Some(w as u32),
                    None => None,
                })
            },
{
}

} // verus!
