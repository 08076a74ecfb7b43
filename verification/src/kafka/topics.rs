//! Names of the message-broker topics that the outbox publishes to.
use vstd::prelude::*;

verus! {

/// The topic of delivery events.
pub const DELIVERY_TOPIC: &'static str = "delivery";

} // verus!
