//! The delivery service: a request becomes a delivery, which is stored together with the
//! outbox task that announces it, in one transaction; a stored delivery is looked up.
//!
//! The service's database work is done by its caller, step by step: `create_delivery_step`
//! says, after each step, what to do next.
use crate::clock::now;
use crate::clock::Timestamp;
use crate::controller::dto::response_of;
use crate::controller::dto::CreateDeliveryItemDto;
use crate::controller::dto::CreateDeliveryRequest;
use crate::controller::dto::CreateDeliveryRequestView;
use crate::controller::dto::DeliveryResponse;
use crate::ids::new_uuid;
use crate::postgres::model::delivery::Delivery;
use crate::postgres::model::delivery::DeliveryItem;
use crate::postgres::model::delivery::DeliveryItemView;
use crate::postgres::model::delivery::DeliveryStatus;
use crate::postgres::model::delivery::DeliveryView;
use crate::postgres::model::delivery::Address;
use crate::postgres::model::delivery::Recipient;
use crate::postgres::model::result::repository_error_message;
use crate::postgres::model::result::RepositoryError;
use crate::text::is_blank;
use crate::text::is_blank_text;
use crate::postgres::repository::delivery::lemma_read_after_store;
use crate::postgres::repository::delivery::read_delivery;
use crate::postgres::repository::delivery::stored_item_rows;
use crate::postgres::repository::delivery::stored_row;
use crate::postgres::repository::outbox::created_payload;
use crate::postgres::model::delivery::status_name;
use crate::text::join;
use uuid::Uuid;
use vstd::prelude::*;

verus! {

/// Why the service refused or failed a request.
#[derive(Debug)]
pub enum ServiceError {
    NotFound,
    InvalidDto,
    InvalidStatusTransition,
    DatabaseError(String),
    SerializationError(serde_json::Error),
}

impl ServiceError {
    /// The text of the error, as it is displayed. For a serialization error the
    /// second part is the text of `serde_json`'s error.
    pub fn message(&self) -> (s: String)
        ensures
            match self {
                ServiceError::NotFound => s@ == "Delivery not found"@,
                ServiceError::InvalidDto => s@ == "Invalid DTO"@,
                ServiceError::InvalidStatusTransition => s@ == "Invalid status transition"@,
                ServiceError::DatabaseError(m) => s@ == "Database error: "@ + m@,
                ServiceError::SerializationError(e) => exists|t: String|
                    vstd::string::to_string_from_display_ensures::<serde_json::Error>(e, t) && s@
                        == "Serialization error: "@ + t@,
            },
    {
        match self {
            ServiceError::NotFound => String::from_str("Delivery not found"),
            ServiceError::InvalidDto => String::from_str("Invalid DTO"),
            ServiceError::InvalidStatusTransition => String::from_str("Invalid status transition"),
            ServiceError::DatabaseError(m) => join("Database error: ", m.as_str()),
            ServiceError::SerializationError(e) => {
                let detail = e.to_string();
                join("Serialization error: ", detail.as_str())
            },
        }
    }
}

/// The delivery that a request creates, given its identity, the identities of its items
/// (in order) and the creation time: pending, for the requested order, recipient,
/// address, date and items, with no courier, delivery or cancellation yet.
pub open spec fn new_delivery(
    request: CreateDeliveryRequestView,
    id: Uuid,
    item_ids: Seq<Uuid>,
    created_at: Timestamp,
) -> DeliveryView {
    DeliveryView {
        id: id,
        order_id: request.order_id,
        courier_id: None,
        recipient: request.recipient,
        address: request.address,
        status: DeliveryStatus::Pending,
        scheduled_date: request.scheduled_date,
        delivered_at: None,
        cancelled_at: None,
        cancellation_reason: None,
        items: Seq::new(
            request.items.len(),
            |i: int|
                DeliveryItemView {
                    id: item_ids[i],
                    sku: request.items[i].sku,
                    name: request.items[i].name,
                    quantity: request.items[i].quantity,
                    weight_grams: request.items[i].weight_grams,
                },
        ),
        created_at: created_at,
        updated_at: created_at,
    }
}

/// The identities of a delivery's items, in order.
pub open spec fn item_ids_of(d: DeliveryView) -> Seq<Uuid> {
    d.items.map_values(|i: DeliveryItemView| i.id)
}

/// The delivery that `request` creates, with the given identities and time. A request
/// whose order id is blank (empty or all white space) is refused as invalid.
pub fn delivery_from_request(
    request: CreateDeliveryRequest,
    id: Uuid,
    item_ids: Vec<Uuid>,
    created_at: Timestamp,
) -> (r: Result<Delivery, ServiceError>)
    requires
        item_ids@.len() == request.items@.len(),
    ensures
        is_blank_text(request@.order_id) ==> r matches Err(ServiceError::InvalidDto),
        !is_blank_text(request@.order_id) ==> r is Ok && r->Ok_0@ == new_delivery(
            request@,
            id,
            item_ids@,
            created_at,
        ),
        !is_blank_text(request@.order_id) ==> {
            let d = r->Ok_0@;
            &&& d.id == id
            &&& d.order_id == request@.order_id
            &&& d.courier_id is None
            &&& d.recipient == request@.recipient
            &&& d.address == request@.address
            &&& d.status == DeliveryStatus::Pending
            &&& d.scheduled_date == request@.scheduled_date
            &&& d.delivered_at is None
            &&& d.cancelled_at is None
            &&& d.cancellation_reason is None
            &&& d.created_at == created_at
            &&& d.updated_at == created_at
            &&& d.items.len() == request@.items.len()
            &&& forall|i: int|
                0 <= i < d.items.len() ==> {
                    &&& (#[trigger] d.items[i]).id == item_ids@[i]
                    &&& d.items[i].sku == request@.items[i].sku
                    &&& d.items[i].name == request@.items[i].name
                    &&& d.items[i].quantity == request@.items[i].quantity
                    &&& d.items[i].weight_grams == request@.items[i].weight_grams
                }
        },
{
    if is_blank(request.order_id.as_str()) {
        return Err(ServiceError::InvalidDto);
    }
    let ghost req = request@;
    let CreateDeliveryRequest { order_id, recipient, address, scheduled_date, items: dtos } =
        request;
    let mut rest = dtos;
    let ghost all = rest@;
    let n = rest.len();
    let mut items: Vec<DeliveryItem> = Vec::new();
    let mut k: usize = 0;
    while k < n
        invariant
            n == all.len(),
            n == item_ids@.len(),
            all.map_values(|i: CreateDeliveryItemDto| i@) == req.items,
            k <= n,
            rest@ == all.subrange(k as int, n as int),
            items@.len() == k,
            forall|j: int|
                0 <= j < k ==> (#[trigger] items@[j])@ == (DeliveryItemView {
                    id: item_ids@[j],
                    sku: all[j]@.sku,
                    name: all[j]@.name,
                    quantity: all[j]@.quantity,
                    weight_grams: all[j]@.weight_grams,
                }),
        decreases n - k,
    {
        let dto = rest.remove(0);
        items.push(
            DeliveryItem {
                id: item_ids[k],
                sku: dto.sku,
                name: dto.name,
                quantity: dto.quantity,
                weight_grams: dto.weight_grams,
            },
        );
        k = k + 1;
    }
    let delivery = Delivery {
        id,
        order_id,
        courier_id: None,
        recipient: Recipient { name: recipient.name, phone: recipient.phone },
        address: Address {
            city: address.city,
            street: address.street,
            building: address.building,
            apartment: address.apartment,
            postal_code: address.postal_code,
        },
        status: DeliveryStatus::Pending,
        scheduled_date,
        delivered_at: None,
        cancelled_at: None,
        cancellation_reason: None,
        items,
        created_at,
        updated_at: created_at,
    };
    proof {
        assert(delivery@.items =~= new_delivery(req, id, item_ids@, created_at).items);
    }
    Ok(delivery)
}

/// The delivery that `request` creates, with fresh random identities for it and its
/// items, created now. A request whose order id is blank is refused as invalid.
pub fn prepare_delivery(request: CreateDeliveryRequest) -> (r: Result<Delivery, ServiceError>)
    ensures
        is_blank_text(request@.order_id) ==> r matches Err(ServiceError::InvalidDto),
        !is_blank_text(request@.order_id) ==> r is Ok && r->Ok_0@ == new_delivery(
            request@,
            r->Ok_0@.id,
            item_ids_of(r->Ok_0@),
            r->Ok_0@.created_at,
        ),
        !is_blank_text(request@.order_id) ==> {
            let d = r->Ok_0@;
            &&& d.id == r->Ok_0@.id
            &&& d.order_id == request@.order_id
            &&& d.courier_id is None
            &&& d.recipient == request@.recipient
            &&& d.address == request@.address
            &&& d.status == DeliveryStatus::Pending
            &&& d.scheduled_date == request@.scheduled_date
            &&& d.delivered_at is None
            &&& d.cancelled_at is None
            &&& d.cancellation_reason is None
            &&& d.created_at == r->Ok_0@.created_at
            &&& d.updated_at == r->Ok_0@.created_at
            &&& d.items.len() == request@.items.len()
            &&& forall|i: int|
                0 <= i < d.items.len() ==> {
                    &&& (#[trigger] d.items[i]).id == item_ids_of(r->Ok_0@)[i]
                    &&& d.items[i].sku == request@.items[i].sku
                    &&& d.items[i].name == request@.items[i].name
                    &&& d.items[i].quantity == request@.items[i].quantity
                    &&& d.items[i].weight_grams == request@.items[i].weight_grams
                }
        },
{
    if is_blank(request.order_id.as_str()) {
        return Err(ServiceError::InvalidDto);
    }
    let n = request.items.len();
    let mut item_ids: Vec<Uuid> = Vec::new();
    let mut k: usize = 0;
    while k < n
        invariant
            k <= n,
            item_ids@.len() == k,
        decreases n - k,
    {
        item_ids.push(new_uuid());
        k = k + 1;
    }
    let id = new_uuid();
    let created_at = now();
    let ghost ids = item_ids@;
    let r = delivery_from_request(request, id, item_ids, created_at);
    proof {
        if r is Ok {
            assert(item_ids_of(r->Ok_0@) =~= ids);
        }
    }
    r
}

/// Where the creation of a delivery stands: which step's outcome it waits for.
#[derive(Debug, Clone, Copy, PartialEq, Eq, Structural)]
pub enum CreateDeliveryStage {
    AwaitingConnection,
    AwaitingTransaction,
    AwaitingDeliveryInsert,
    AwaitingOutboxInsert,
    AwaitingCommit,
    Finished,
}

/// How a step of the database work ended: done, failed in the driver or the pool (with
/// its error's text), or failed in a repository.
pub enum StepOutcome {
    Completed,
    Failed(String),
    RepositoryFailed(RepositoryError),
}

/// What to do next: the next step of the database work, or the answer.
pub enum CreateDeliveryAction {
    BeginTransaction,
    InsertDelivery,
    InsertOutboxTask,
    Commit,
    Respond(DeliveryResponse),
    Fail(ServiceError),
}

/// The kinds of actions, without their data.
#[derive(PartialEq, Eq, Structural)]
pub enum FlowAction {
    BeginTransaction,
    InsertDelivery,
    InsertOutboxTask,
    Commit,
    Respond,
    Fail,
}

pub open spec fn action_kind(a: CreateDeliveryAction) -> FlowAction {
    match a {
        CreateDeliveryAction::BeginTransaction => FlowAction::BeginTransaction,
        CreateDeliveryAction::InsertDelivery => FlowAction::InsertDelivery,
        CreateDeliveryAction::InsertOutboxTask => FlowAction::InsertOutboxTask,
        CreateDeliveryAction::Commit => FlowAction::Commit,
        CreateDeliveryAction::Respond(_) => FlowAction::Respond,
        CreateDeliveryAction::Fail(_) => FlowAction::Fail,
    }
}

/// One step of the creation: from where it stands and whether the awaited step
/// succeeded, where it goes and what it does. Each success leads to the next step of
/// connection, transaction, delivery insert, outbox insert and commit, then to the
/// answer; any failure ends the creation.
pub open spec fn flow_step(stage: CreateDeliveryStage, ok: bool) -> (CreateDeliveryStage, FlowAction) {
    if !ok {
        (CreateDeliveryStage::Finished, FlowAction::Fail)
    } else {
        match stage {
            CreateDeliveryStage::AwaitingConnection => (
                CreateDeliveryStage::AwaitingTransaction,
                FlowAction::BeginTransaction,
            ),
            CreateDeliveryStage::AwaitingTransaction => (
                CreateDeliveryStage::AwaitingDeliveryInsert,
                FlowAction::InsertDelivery,
            ),
            CreateDeliveryStage::AwaitingDeliveryInsert => (
                CreateDeliveryStage::AwaitingOutboxInsert,
                FlowAction::InsertOutboxTask,
            ),
            CreateDeliveryStage::AwaitingOutboxInsert => (
                CreateDeliveryStage::AwaitingCommit,
                FlowAction::Commit,
            ),
            _ => (CreateDeliveryStage::Finished, FlowAction::Respond),
        }
    }
}

/// The error text that a failed step is answered with.
pub open spec fn failure_text(outcome: StepOutcome) -> Seq<char> {
    match outcome {
        StepOutcome::Failed(m) => m@,
        StepOutcome::RepositoryFailed(e) => repository_error_message(e),
        StepOutcome::Completed => Seq::empty(),
    }
}

/// After the awaited step of creating `delivery` ended with `outcome`: the new stage and
/// what to do. A failure is answered as a database error with the failure's text; the
/// success of the commit is answered with the delivery.
pub fn create_delivery_step(
    stage: CreateDeliveryStage,
    outcome: StepOutcome,
    delivery: &Delivery,
) -> (r: (CreateDeliveryStage, CreateDeliveryAction))
    requires
        stage != CreateDeliveryStage::Finished,
    ensures
        (r.0, action_kind(r.1)) == flow_step(stage, outcome is Completed),
        match r.1 {
            CreateDeliveryAction::Respond(resp) => resp@ == response_of(delivery@),
            CreateDeliveryAction::Fail(e) => match e {
                ServiceError::DatabaseError(m) => m@ == failure_text(outcome),
                _ => false,
            },
            _ => true,
        },
{
    match outcome {
        StepOutcome::Failed(m) => (
            CreateDeliveryStage::Finished,
            CreateDeliveryAction::Fail(ServiceError::DatabaseError(m)),
        ),
        StepOutcome::RepositoryFailed(e) => (
            CreateDeliveryStage::Finished,
            CreateDeliveryAction::Fail(ServiceError::DatabaseError(e.message())),
        ),
        StepOutcome::Completed => match stage {
            CreateDeliveryStage::AwaitingConnection => (
                CreateDeliveryStage::AwaitingTransaction,
                CreateDeliveryAction::BeginTransaction,
            ),
            CreateDeliveryStage::AwaitingTransaction => (
                CreateDeliveryStage::AwaitingDeliveryInsert,
                CreateDeliveryAction::InsertDelivery,
            ),
            CreateDeliveryStage::AwaitingDeliveryInsert => (
                CreateDeliveryStage::AwaitingOutboxInsert,
                CreateDeliveryAction::InsertOutboxTask,
            ),
            CreateDeliveryStage::AwaitingOutboxInsert => (
                CreateDeliveryStage::AwaitingCommit,
                CreateDeliveryAction::Commit,
            ),
            _ => (
                CreateDeliveryStage::Finished,
                CreateDeliveryAction::Respond(DeliveryResponse::from(delivery)),
            ),
        },
    }
}

/// The actions of a creation that starts at `stage` and whose awaited steps end as `oks`
/// says (true for success), until it is finished or the outcomes run out.
pub open spec fn flow_run(stage: CreateDeliveryStage, oks: Seq<bool>) -> Seq<FlowAction>
    decreases oks.len(),
{
    if stage == CreateDeliveryStage::Finished || oks.len() == 0 {
        Seq::empty()
    } else {
        let (next, action) = flow_step(stage, oks[0]);
        seq![action] + flow_run(next, oks.drop_first())
    }
}

/// The actions of a creation in which every step succeeds.
pub open spec fn happy_path() -> Seq<FlowAction> {
    seq![
        FlowAction::BeginTransaction,
        FlowAction::InsertDelivery,
        FlowAction::InsertOutboxTask,
        FlowAction::Commit,
        FlowAction::Respond,
    ]
}

/// The position of the first failed step, or the number of outcomes if none failed.
pub open spec fn first_failure(oks: Seq<bool>) -> nat
    decreases oks.len(),
{
    if oks.len() == 0 {
        0
    } else if !oks[0] {
        0
    } else {
        1 + first_failure(oks.drop_first())
    }
}

/// The stage a creation reaches after `i` successful steps.
pub open spec fn stage_after(i: nat) -> CreateDeliveryStage {
    if i == 0 {
        CreateDeliveryStage::AwaitingConnection
    } else if i == 1 {
        CreateDeliveryStage::AwaitingTransaction
    } else if i == 2 {
        CreateDeliveryStage::AwaitingDeliveryInsert
    } else if i == 3 {
        CreateDeliveryStage::AwaitingOutboxInsert
    } else if i == 4 {
        CreateDeliveryStage::AwaitingCommit
    } else {
        CreateDeliveryStage::Finished
    }
}

/// The actions from the stage after `i` successes, for the outcomes that follow.
pub open spec fn expected_run(i: nat, oks: Seq<bool>) -> Seq<FlowAction> {
    let f = first_failure(oks);
    let rest = (5 - i) as nat;
    if f < oks.len() && f < rest {
        happy_path().subrange(i as int, (i + f) as int).push(FlowAction::Fail)
    } else if oks.len() < rest {
        happy_path().subrange(i as int, (i + oks.len()) as int)
    } else {
        happy_path().subrange(i as int, 5)
    }
}

proof fn lemma_run_from(i: nat, oks: Seq<bool>)
    requires
        i <= 5,
    ensures
        flow_run(stage_after(i), oks) == expected_run(i, oks),
    decreases oks.len(),
{
    if i == 5 || oks.len() == 0 {
        assert(flow_run(stage_after(i), oks) =~= expected_run(i, oks));
    } else {
        let rest = oks.drop_first();
        if !oks[0] {
            assert(flow_run(CreateDeliveryStage::Finished, rest) =~= Seq::empty());
            assert(flow_run(stage_after(i), oks) =~= expected_run(i, oks));
        } else {
            lemma_run_from(i + 1, rest);
            assert(flow_step(stage_after(i), true) == (stage_after(i + 1), happy_path()[i as int]));
            assert(first_failure(oks) == 1 + first_failure(rest));
            assert(flow_run(stage_after(i), oks) =~= expected_run(i, oks));
        }
    }
}

/// The whole course of creating a delivery: the steps come in the order connection,
/// transaction, delivery insert, outbox insert, commit, answer; the first failure of a
/// step ends the creation with a failure answer and nothing after it. So the
/// transaction is committed only when both the delivery and its outbox task were
/// written in it, and the delivery is answered only when the commit succeeded.
pub proof fn lemma_create_delivery_course(oks: Seq<bool>)
    ensures
        flow_run(CreateDeliveryStage::AwaitingConnection, oks) == expected_run(0, oks),
        flow_run(CreateDeliveryStage::AwaitingConnection, oks).contains(FlowAction::Commit)
            <==> (oks.len() >= 4 && oks[0] && oks[1] && oks[2] && oks[3]),
        flow_run(CreateDeliveryStage::AwaitingConnection, oks).contains(FlowAction::Respond)
            <==> (oks.len() >= 5 && oks[0] && oks[1] && oks[2] && oks[3] && oks[4]),
{
    lemma_run_from(0, oks);
    let run = flow_run(CreateDeliveryStage::AwaitingConnection, oks);
    reveal_with_fuel(first_failure, 6);
    if oks.len() >= 4 && oks[0] && oks[1] && oks[2] && oks[3] {
        assert(run[3] == FlowAction::Commit);
    }
    if oks.len() >= 5 && oks[0] && oks[1] && oks[2] && oks[3] && oks[4] {
        assert(run[4] == FlowAction::Respond);
    }
}

/// The answer to a lookup: the found delivery, not found when there is none, or a
/// database error with the repository error's text.
pub fn get_delivery_response(found: Result<Option<Delivery>, RepositoryError>) -> (r: Result<
    DeliveryResponse,
    ServiceError,
>)
    ensures
        match found {
            Ok(Some(d)) => r is Ok && r->Ok_0@ == response_of(d@),
            Ok(None) => r matches Err(ServiceError::NotFound),
            Err(e) => match r {
                Err(ServiceError::DatabaseError(m)) => m@ == repository_error_message(e),
                _ => false,
            },
        },
{
    match found {
        Ok(Some(entity)) => Ok(DeliveryResponse::from(&entity)),
        Ok(None) => Err(ServiceError::NotFound),
        Err(err) => Err(ServiceError::DatabaseError(err.message())),
    }
}

/// A delivery created from a request holds exactly what was requested: its order,
/// recipient, address (apartment included) and date, and each requested item in order
/// under the identity given for it; it is pending, with no courier, delivery or
/// cancellation, created and updated at the given time.
pub proof fn lemma_new_delivery_holds_the_request(
    request: CreateDeliveryRequestView,
    id: Uuid,
    item_ids: Seq<Uuid>,
    created_at: Timestamp,
)
    ensures
        new_delivery(request, id, item_ids, created_at).id == id,
        new_delivery(request, id, item_ids, created_at).order_id == request.order_id,
        new_delivery(request, id, item_ids, created_at).courier_id is None,
        new_delivery(request, id, item_ids, created_at).recipient == request.recipient,
        new_delivery(request, id, item_ids, created_at).address == request.address,
        new_delivery(request, id, item_ids, created_at).status == DeliveryStatus::Pending,
        new_delivery(request, id, item_ids, created_at).scheduled_date == request.scheduled_date,
        new_delivery(request, id, item_ids, created_at).delivered_at is None,
        new_delivery(request, id, item_ids, created_at).cancelled_at is None,
        new_delivery(request, id, item_ids, created_at).cancellation_reason is None,
        new_delivery(request, id, item_ids, created_at).created_at == created_at,
        new_delivery(request, id, item_ids, created_at).updated_at == created_at,
        new_delivery(request, id, item_ids, created_at).items.len() == request.items.len(),
        forall|i: int|
            0 <= i < request.items.len() ==> {
                &&& (#[trigger] new_delivery(request, id, item_ids, created_at).items[i]).id == item_ids[i]
                &&& new_delivery(request, id, item_ids, created_at).items[i].sku == request.items[i].sku
                &&& new_delivery(request, id, item_ids, created_at).items[i].name == request.items[i].name
                &&& new_delivery(request, id, item_ids, created_at).items[i].quantity == request.items[i].quantity
                &&& new_delivery(request, id, item_ids, created_at).items[i].weight_grams == request.items[i].weight_grams
            },
{
}

/// A created delivery reads back as itself: the rows that storing it writes give the
/// same delivery, so looking it up afterwards is answered exactly as its creation was.
/// Its announcement carries its identity, order and status, which is pending, and lists
/// each requested item in order with its sku, name and quantity.
pub proof fn lemma_created_delivery_reads_back(
    request: CreateDeliveryRequestView,
    id: Uuid,
    item_ids: Seq<Uuid>,
    created_at: Timestamp,
)
    ensures
        read_delivery(
            stored_row(new_delivery(request, id, item_ids, created_at)),
            stored_item_rows(new_delivery(request, id, item_ids, created_at).items),
        ) == Some(new_delivery(request, id, item_ids, created_at)),
        created_payload(new_delivery(request, id, item_ids, created_at)).delivery_id == id,
        created_payload(new_delivery(request, id, item_ids, created_at)).order_id
            == request.order_id,
        created_payload(new_delivery(request, id, item_ids, created_at)).status == status_name(
            DeliveryStatus::Pending,
        ),
        created_payload(new_delivery(request, id, item_ids, created_at)).items.len() == request.items.len(),
        forall|i: int|
            0 <= i < request.items.len() ==> {
                &&& (#[trigger] created_payload(new_delivery(request, id, item_ids, created_at)).items[i]).sku == request.items[i].sku
                &&& created_payload(new_delivery(request, id, item_ids, created_at)).items[i].name == request.items[i].name
                &&& created_payload(new_delivery(request, id, item_ids, created_at)).items[i].quantity == request.items[i].quantity
            },
{
    lemma_read_after_store(new_delivery(request, id, item_ids, created_at));
    crate::postgres::repository::outbox::lemma_payload_lists_the_delivery(
        new_delivery(request, id, item_ids, created_at),
    );
    lemma_new_delivery_holds_the_request(request, id, item_ids, created_at);
}

} // verus!
