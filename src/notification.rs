//! Lifecycle notifications handed to the embedding application, and their text.
use vstd::prelude::*;

use crate::status::AbortReason;

verus! {

/// One lifecycle event of a hosted network session.
#[derive(PartialEq, Eq, Structural, Clone, Copy, Debug)]
pub enum Notification {
    /// The publisher was created.
    Created,
    /// The access point is advertising under the session's SSID.
    Started,
    /// The publisher stopped advertising.
    Stopped,
    /// The stack aborted the advertisement.
    Aborted(AbortReason),
    /// A peer asked to connect.
    ConnectionRequested,
    /// A stop was asked for while the publisher was not running.
    StopWhileNotRunning,
}

/// The text of an abort reason.
pub open spec fn reason_text(r: AbortReason) -> Seq<char> {
    match r {
        AbortReason::RadioNotAvailable => "Radio not available"@,
        AbortReason::ResourceInUse => "Resource in use"@,
        AbortReason::Success => "Success"@,
    }
}

/// The text of a notification, for a session advertising `ssid`.
pub open spec fn notification_text_of(n: Notification, ssid: Seq<char>) -> Seq<char> {
    match n {
        Notification::Created => "Hosted network created"@,
        Notification::Started => "Hosted network "@ + ssid + " has started"@,
        Notification::Stopped => "Hosted network stopped"@,
        Notification::Aborted(r) => "Hosted network aborted: "@ + reason_text(r),
        Notification::ConnectionRequested => "Connection requested..."@,
        Notification::StopWhileNotRunning =>
            "Stop called but WiFiDirectAdvertisementPublisher is not running"@,
    }
}

impl AbortReason {
    /// The human-readable text of the reason.
    pub fn text(&self) -> (r: &'static str)
        ensures
            r@ == reason_text(*self),
    {
        match self {
            AbortReason::RadioNotAvailable => "Radio not available",
            AbortReason::ResourceInUse => "Resource in use",
            AbortReason::Success => "Success",
        }
    }
}

/// The text of notification `n` for a session advertising `ssid`.
pub fn notification_text(n: Notification, ssid: &str) -> (r: String)
    ensures
        r@ == notification_text_of(n, ssid@),
{
    match n {
        Notification::Created => String::from_str("Hosted network created"),
        Notification::Started => {
            let mut s = String::from_str("Hosted network ");
            s.append(ssid);
            s.append(" has started");
            s
        },
        Notification::Stopped => String::from_str("Hosted network stopped"),
        Notification::Aborted(reason) => {
            let mut s = String::from_str("Hosted network aborted: ");
            s.append(reason.text());
            s
        },
        Notification::ConnectionRequested => String::from_str("Connection requested..."),
        Notification::StopWhileNotRunning => String::from_str(
            "Stop called but WiFiDirectAdvertisementPublisher is not running",
        ),
    }
}

} // verus!
