//! The fulfillment request shapes the voice-assistant platform sends to the
//! webhook.

use vstd::prelude::*;

verus! {

/// A fulfillment request: its id and one input per intent.
pub struct FulfillmentRequest<T> {
    pub request_id: String,
    pub inputs: Vec<T>,
}

/// An input read only far enough to learn its intent.
pub struct GenericFulfillmentInput {
    pub intent: FulfillmentIntent,
}

/// The intents the webhook answers.
#[derive(Clone, Copy, PartialEq, Eq, Structural, Debug)]
pub enum FulfillmentIntent {
    SYNC,
    QUERY,
}

/// The input of a QUERY intent.
pub struct QueryFulfillmentInput {
    pub intent: FulfillmentIntent,
    pub payload: Vec<QueryPayload>,
}

/// A device referenced by a query.
pub struct Device {
    pub id: String,
}

/// The devices one query asks about.
pub struct QueryPayload {
    pub id: Vec<Device>,
}

} // verus!
