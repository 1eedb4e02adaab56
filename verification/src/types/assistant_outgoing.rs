//! The fulfillment response shapes the webhook sends back to the
//! voice-assistant platform.

use vstd::prelude::*;

verus! {

/// A fulfillment response: the request id echoed with a payload.
pub struct FulfillmentResponse<T> {
    pub request_id: String,
    pub payload: T,
}

/// The status of a device in a SYNC answer.
#[derive(Clone, Copy, PartialEq, Eq, Structural, Debug)]
pub enum SyncDeviceStatus {
    SUCCESS,
    OFFLINE,
    EXCEPTIONS,
    ERROR,
}

/// The names under which a device is addressed.
pub struct DeviceName {
    pub default_names: Option<Vec<String>>,
    pub name: String,
    pub nicknames: Option<Vec<String>>,
}

/// Manufacturer data of a device.
pub struct DeviceInfo {
    pub manufacturer: String,
    pub model: String,
    pub hw_version: String,
    pub sw_version: String,
}

} // verus!
