//! Codes reported by the wireless-direct stack, and their decoding.
use vstd::prelude::*;

verus! {

/// Publisher status code: the advertisement object was created.
pub const STATUS_CREATED: i32 = 0;

/// Publisher status code: the access point is advertising.
pub const STATUS_STARTED: i32 = 1;

/// Publisher status code: the advertisement was stopped.
pub const STATUS_STOPPED: i32 = 2;

/// Publisher status code: the advertisement was aborted; an error code says why.
pub const STATUS_ABORTED: i32 = 3;

/// Error code attached to an aborted advertisement: no error.
pub const ERROR_SUCCESS: i32 = 0;

/// Error code attached to an aborted advertisement: the radio is off or missing.
pub const ERROR_RADIO_NOT_AVAILABLE: i32 = 1;

/// Error code attached to an aborted advertisement: the radio is busy elsewhere.
pub const ERROR_RESOURCE_IN_USE: i32 = 2;

/// Connection status code of a peer device: it went away.
pub const CONNECTION_DISCONNECTED: i32 = 0;

/// Connection status code of a peer device: it is connected.
pub const CONNECTION_CONNECTED: i32 = 1;

/// Status of the advertisement publisher.
#[derive(PartialEq, Eq, Structural, Clone, Copy, Debug)]
pub enum PublisherStatus {
    Created,
    Started,
    Stopped,
    Aborted,
}

/// Why the stack aborted an advertisement.
#[derive(PartialEq, Eq, Structural, Clone, Copy, Debug)]
pub enum AbortReason {
    Success,
    RadioNotAvailable,
    ResourceInUse,
}

/// The publisher status that a code stands for, if any.
pub open spec fn status_of_code(code: i32) -> Option<PublisherStatus> {
    if code == STATUS_CREATED {
        Some(PublisherStatus::Created)
    } else if code == STATUS_STARTED {
        Some(PublisherStatus::Started)
    } else if code == STATUS_STOPPED {
        Some(PublisherStatus::Stopped)
    } else if code == STATUS_ABORTED {
        Some(PublisherStatus::Aborted)
    } else {
        None
    }
}

/// The abort reason that an error code stands for, if any.
pub open spec fn reason_of_code(code: i32) -> Option<AbortReason> {
    if code == ERROR_SUCCESS {
        Some(AbortReason::Success)
    } else if code == ERROR_RADIO_NOT_AVAILABLE {
        Some(AbortReason::RadioNotAvailable)
    } else if code == ERROR_RESOURCE_IN_USE {
        Some(AbortReason::ResourceInUse)
    } else {
        None
    }
}

impl PublisherStatus {
    /// Decodes a publisher status code; `None` for a code the stack does not define.
    pub fn from_code(code: i32) -> (r: Option<PublisherStatus>)
        ensures
            r == status_of_code(code),
    {
        if code == STATUS_CREATED {
            Some(PublisherStatus::Created)
        } else if code == STATUS_STARTED {
            Some(PublisherStatus::Started)
        } else if code == STATUS_STOPPED {
            Some(PublisherStatus::Stopped)
        } else if code == STATUS_ABORTED {
            Some(PublisherStatus::Aborted)
        } else {
            None
        }
    }
}

impl AbortReason {
    /// Decodes the error code of an aborted advertisement; `None` for an unexpected code.
    pub fn from_code(code: i32) -> (r: Option<AbortReason>)
        ensures
            r == reason_of_code(code),
    {
        if code == ERROR_SUCCESS {
            Some(AbortReason::Success)
        } else if code == ERROR_RADIO_NOT_AVAILABLE {
            Some(AbortReason::RadioNotAvailable)
        } else if code == ERROR_RESOURCE_IN_USE {
            Some(AbortReason::ResourceInUse)
        } else {
            None
        }
    }
}

} // verus!
