//! The hosted network session as a state machine: each event from the
//! wireless-direct stack or the application yields the steps to perform, in
//! order. Performing them (sending a notification, calling the stack) is left
//! to the caller.
use vstd::prelude::*;

use crate::notification::{notification_text, notification_text_of, Notification};
use crate::status::{
    reason_of_code, status_of_code, AbortReason, PublisherStatus, CONNECTION_DISCONNECTED,
    STATUS_STARTED,
};

verus! {

/// One thing to do in reaction to an event.
#[derive(PartialEq, Eq, Structural, Clone, Copy, Debug)]
pub enum Step {
    /// Send this notification to the sink.
    Notify(Notification),
    /// Create a connection listener and subscribe to its connection requests.
    InstallListener,
    /// Ask the publisher to stop advertising.
    StopPublisher,
    /// Resolve the requesting peer into a device handle, asynchronously.
    ResolveDevice,
    /// Subscribe to connection status changes of the resolved device.
    WatchDevice,
    /// The device disconnected: read its identifier.
    NoteDisconnect,
}

/// An event that the session does not know how to handle.
#[derive(PartialEq, Eq, Structural, Clone, Copy, Debug)]
pub enum HandlingFailure {
    /// A publisher status code that the stack does not define.
    UnknownStatus(i32),
    /// An aborted advertisement with an error code that the stack does not define.
    UnknownAbortReason(i32),
}

/// What a session is: the SSID it advertises, and whether its connection
/// listener has been installed.
pub ghost struct SessionView {
    pub ssid: Seq<char>,
    pub listening: bool,
}

/// Progress of the connection of one peer device.
#[derive(PartialEq, Eq, Structural, Clone, Copy, Debug)]
pub enum WatchPhase {
    /// The device handle is being resolved.
    Resolving,
    /// The device handle was resolved and its connection status is watched.
    Watching,
    /// The device handle could not be resolved.
    Unresolved,
}

/// Listening state after a publisher status event, and the steps to perform.
pub open spec fn status_outcome(listening: bool, status: i32, error: i32) -> Result<
    (bool, Seq<Step>),
    HandlingFailure,
> {
    match status_of_code(status) {
        None => Err(HandlingFailure::UnknownStatus(status)),
        Some(PublisherStatus::Created) => Ok((listening, seq![Step::Notify(Notification::Created)])),
        Some(PublisherStatus::Started) => Ok(
            (true, seq![Step::Notify(Notification::Started), Step::InstallListener]),
        ),
        Some(PublisherStatus::Stopped) => Ok((listening, seq![Step::Notify(Notification::Stopped)])),
        Some(PublisherStatus::Aborted) => match reason_of_code(error) {
            Some(r) => Ok((listening, seq![Step::Notify(Notification::Aborted(r))])),
            None => Err(HandlingFailure::UnknownAbortReason(error)),
        },
    }
}

/// Steps for a stop request, given the publisher status read at that moment.
pub open spec fn stop_steps(status: i32) -> Seq<Step> {
    if status == STATUS_STARTED {
        seq![Step::StopPublisher]
    } else {
        seq![Step::Notify(Notification::StopWhileNotRunning)]
    }
}

/// Steps for a connection request.
pub open spec fn request_steps(listening: bool) -> Seq<Step> {
    if listening {
        seq![Step::Notify(Notification::ConnectionRequested), Step::ResolveDevice]
    } else {
        seq![]
    }
}

/// Phase after the device resolution completed, and the steps to perform.
pub open spec fn resolved_outcome(phase: WatchPhase, completed: bool) -> (WatchPhase, Seq<Step>) {
    if phase == WatchPhase::Resolving {
        if completed {
            (WatchPhase::Watching, seq![Step::WatchDevice])
        } else {
            (WatchPhase::Unresolved, seq![])
        }
    } else {
        (phase, seq![])
    }
}

/// Steps for a connection status change of a device.
pub open spec fn device_status_steps(phase: WatchPhase, code: i32) -> Seq<Step> {
    if phase == WatchPhase::Watching && code == CONNECTION_DISCONNECTED {
        seq![Step::NoteDisconnect]
    } else {
        seq![]
    }
}

/// A hosted network session: the SSID it advertises and whether its
/// connection listener is installed.
pub struct HostedNetworkSession {
    ssid: String,
    listening: bool,
}

/// The connection of one peer device, from its request on.
pub struct ConnectionWatch {
    phase: WatchPhase,
}

impl View for HostedNetworkSession {
    type V = SessionView;

    closed spec fn view(&self) -> SessionView {
        SessionView { ssid: self.ssid@, listening: self.listening }
    }
}

impl View for ConnectionWatch {
    type V = WatchPhase;

    closed spec fn view(&self) -> WatchPhase {
        self.phase
    }
}

impl HostedNetworkSession {
    /// A session that advertises `ssid` and has no listener yet.
    pub fn new(ssid: &str) -> (r: HostedNetworkSession)
        ensures
            r@ == (SessionView { ssid: ssid@, listening: false }),
    {
        HostedNetworkSession { ssid: String::from_str(ssid), listening: false }
    }

    /// The SSID that the session advertises.
    pub fn ssid(&self) -> (r: &str)
        ensures
            r@ == self@.ssid,
    {
        self.ssid.as_str()
    }

    /// Whether the connection listener has been installed.
    pub fn is_listening(&self) -> (r: bool)
        ensures
            r == self@.listening,
    {
        self.listening
    }

    /// The text of `n` for this session.
    pub fn text(&self, n: Notification) -> (r: String)
        ensures
            r@ == notification_text_of(n, self@.ssid),
    {
        notification_text(n, self.ssid.as_str())
    }

    /// Reacts to a publisher status change, given the status code and the
    /// error code that came with it. An undefined code is a handling failure,
    /// which leaves the session as it was.
    pub fn on_status_changed(&mut self, status: i32, error: i32) -> (r: Result<
        Vec<Step>,
        HandlingFailure,
    >)
        ensures
            final(self)@.ssid == old(self)@.ssid,
            match r {
                Ok(steps) => status_outcome(old(self)@.listening, status, error) == Ok::<
                    (bool, Seq<Step>),
                    HandlingFailure,
                >((final(self)@.listening, steps@)),
                Err(f) => status_outcome(old(self)@.listening, status, error) == Err::<
                    (bool, Seq<Step>),
                    HandlingFailure,
                >(f) && final(self)@ == old(self)@,
            },
    {
        match PublisherStatus::from_code(status) {
            None => Err(HandlingFailure::UnknownStatus(status)),
            Some(PublisherStatus::Created) => {
                let steps = vec![Step::Notify(Notification::Created)];
                assert(steps@ =~= seq![Step::Notify(Notification::Created)]);
                Ok(steps)
            },
            Some(PublisherStatus::Started) => {
                self.listening = true;
                let steps = vec![Step::Notify(Notification::Started), Step::InstallListener];
                assert(steps@ =~= seq![Step::Notify(Notification::Started), Step::InstallListener]);
                Ok(steps)
            },
            Some(PublisherStatus::Stopped) => {
                let steps = vec![Step::Notify(Notification::Stopped)];
                assert(steps@ =~= seq![Step::Notify(Notification::Stopped)]);
                Ok(steps)
            },
            Some(PublisherStatus::Aborted) => match AbortReason::from_code(error) {
                Some(reason) => {
                    let steps = vec![Step::Notify(Notification::Aborted(reason))];
                    assert(steps@ =~= seq![Step::Notify(Notification::Aborted(reason))]);
                    Ok(steps)
                },
                None => Err(HandlingFailure::UnknownAbortReason(error)),
            },
        }
    }

    /// Reacts to a stop request, given the publisher status read under the
    /// publisher's lock. A running publisher is told to stop, and its own
    /// status event reports it; otherwise the session reports that nothing ran.
    pub fn stop(&self, status: i32) -> (r: Vec<Step>)
        ensures
            r@ == stop_steps(status),
    {
        if status == STATUS_STARTED {
            vec![Step::StopPublisher]
        } else {
            vec![Step::Notify(Notification::StopWhileNotRunning)]
        }
    }

    /// Reacts to a connection request. Once the listener is installed, it
    /// yields the steps and the watch that follows that device; before, a
    /// request cannot be answered and yields nothing.
    pub fn on_connection_requested(&self) -> (r: (Vec<Step>, Option<ConnectionWatch>))
        ensures
            r.0@ == request_steps(self@.listening),
            r.1 is Some <==> self@.listening,
            r.1 matches Some(w) ==> w@ == WatchPhase::Resolving,
    {
        if self.listening {
            (
                vec![Step::Notify(Notification::ConnectionRequested), Step::ResolveDevice],
                Some(ConnectionWatch { phase: WatchPhase::Resolving }),
            )
        } else {
            (Vec::new(), None)
        }
    }
}

impl ConnectionWatch {
    /// The phase of the device's connection.
    pub fn phase(&self) -> (r: WatchPhase)
        ensures
            r == self@,
    {
        self.phase
    }

    /// Reacts to the end of the device resolution; `completed` tells whether
    /// it produced a device handle.
    pub fn on_resolved(&mut self, completed: bool) -> (r: Vec<Step>)
        ensures
            (final(self)@, r@) == resolved_outcome(old(self)@, completed),
    {
        if self.phase == WatchPhase::Resolving {
            if completed {
                self.phase = WatchPhase::Watching;
                vec![Step::WatchDevice]
            } else {
                self.phase = WatchPhase::Unresolved;
                Vec::new()
            }
        } else {
            Vec::new()
        }
    }

    /// Reacts to a connection status change of the device, given its code.
    pub fn on_connection_status(&self, code: i32) -> (r: Vec<Step>)
        ensures
            r@ == device_status_steps(self@, code),
    {
        if self.phase == WatchPhase::Watching && code == CONNECTION_DISCONNECTED {
            vec![Step::NoteDisconnect]
        } else {
            Vec::new()
        }
    }
}

} // verus!
