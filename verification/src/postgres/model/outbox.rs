//! Messages of the transactional outbox: what is waiting to be published, and in what state.
use crate::clock::Timestamp;
use crate::text::join;
use crate::text::str_equals;
use uuid::Uuid;
use vstd::prelude::*;

verus! {

/// A message of the outbox, as read from its table.
pub struct OutboxMessage {
    pub id: Uuid,
    pub aggregate_type: OutboxAggregateType,
    pub topic: String,
    pub key: String,
    pub status: OutboxStatus,
    pub payload: serde_json::Value,
    pub processing_attempts: u8,
    pub next_retry_at: Option<Timestamp>,
    pub last_error: Option<String>,
    pub processed_at: Option<Timestamp>,
    pub created_at: Timestamp,
    pub updated_at: Timestamp,
}

/// The kind of aggregate whose change a message announces.
#[derive(Debug, Clone, Copy, PartialEq, Eq, Structural)]
pub enum OutboxAggregateType {
    Delivery,
}

/// The stored name of an aggregate type.
pub open spec fn aggregate_type_name(t: OutboxAggregateType) -> Seq<char> {
    match t {
        OutboxAggregateType::Delivery => "DELIVERY"@,
    }
}

/// The aggregate type a stored name denotes, if any.
pub open spec fn aggregate_type_from_name(s: Seq<char>) -> Option<OutboxAggregateType> {
    if s == "DELIVERY"@ {
        Some(OutboxAggregateType::Delivery)
    } else {
        None
    }
}

impl OutboxAggregateType {
    pub fn as_str(&self) -> (s: &'static str)
        ensures
            s@ == aggregate_type_name(*self),
    {
        match self {
            Self::Delivery => "DELIVERY",
        }
    }

    /// The aggregate type a stored name denotes; any other text is refused with a message.
    pub fn try_from(value: &str) -> (r: Result<OutboxAggregateType, String>)
        ensures
            match aggregate_type_from_name(value@) {
                Some(t) => r == Ok::<OutboxAggregateType, String>(t),
                None => r is Err && r->Err_0@ == "Unknown outbox aggregate type: "@ + value@,
            },
    {
        if str_equals(value, "DELIVERY") {
            Ok(Self::Delivery)
        } else {
            Err(join("Unknown outbox aggregate type: ", value))
        }
    }
}

/// Where a message stands in its publication.
#[derive(Debug, Clone, Copy, PartialEq, Eq, Structural)]
pub enum OutboxStatus {
    New,
    Processed,
    WaitingRetry,
    Failed,
}

/// The stored name of an outbox status.
pub open spec fn outbox_status_name(s: OutboxStatus) -> Seq<char> {
    match s {
        OutboxStatus::New => "NEW"@,
        OutboxStatus::Processed => "PROCESSED"@,
        OutboxStatus::WaitingRetry => "WAITING_RETRY"@,
        OutboxStatus::Failed => "FAILED"@,
    }
}

/// The outbox status a stored name denotes, if any.
pub open spec fn outbox_status_from_name(s: Seq<char>) -> Option<OutboxStatus> {
    if s == "NEW"@ {
        Some(OutboxStatus::New)
    } else if s == "PROCESSED"@ {
        Some(OutboxStatus::Processed)
    } else if s == "WAITING_RETRY"@ {
        Some(OutboxStatus::WaitingRetry)
    } else if s == "FAILED"@ {
        Some(OutboxStatus::Failed)
    } else {
        None
    }
}

impl OutboxStatus {
    pub fn as_str(&self) -> (s: &'static str)
        ensures
            s@ == outbox_status_name(*self),
    {
        match self {
            Self::New => "NEW",
            Self::Processed => "PROCESSED",
            Self::WaitingRetry => "WAITING_RETRY",
            Self::Failed => "FAILED",
        }
    }

    /// The outbox status a stored name denotes; any other text is refused with a message.
    pub fn try_from(value: &str) -> (r: Result<OutboxStatus, String>)
        ensures
            match outbox_status_from_name(value@) {
                Some(s) => r == Ok::<OutboxStatus, String>(s),
                None => r is Err && r->Err_0@ == "Unknown outbox status: "@ + value@,
            },
    {
        if str_equals(value, "NEW") {
            Ok(Self::New)
        } else if str_equals(value, "PROCESSED") {
            Ok(Self::Processed)
        } else if str_equals(value, "WAITING_RETRY") {
            Ok(Self::WaitingRetry)
        } else if str_equals(value, "FAILED") {
            Ok(Self::Failed)
        } else {
            Err(join("Unknown outbox status: ", value))
        }
    }
}

/// Reading back the stored name of an outbox status or aggregate type gives it
/// again, and distinct statuses have distinct names.
pub proof fn lemma_outbox_name_round_trip(s: OutboxStatus, t: OutboxStatus, a: OutboxAggregateType)
    ensures
        outbox_status_from_name(outbox_status_name(s)) == Some(s),
        outbox_status_name(s) == outbox_status_name(t) ==> s == t,
        aggregate_type_from_name(aggregate_type_name(a)) == Some(a),
{
    reveal_strlit("NEW");
    reveal_strlit("PROCESSED");
    reveal_strlit("WAITING_RETRY");
    reveal_strlit("FAILED");
    assert("NEW"@.len() == 3);
    assert("PROCESSED"@.len() == 9);
    assert("WAITING_RETRY"@.len() == 13);
    assert("FAILED"@.len() == 6);
}

} // verus!
