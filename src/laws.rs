//! What holds of whole runs of a session: the steps that a sequence of events
//! yields, and the order of the notifications among them.
use vstd::prelude::*;

use crate::notification::{notification_text_of, Notification};
use crate::session::{
    device_status_steps, request_steps, resolved_outcome, status_outcome, stop_steps, Step,
    WatchPhase,
};
use crate::status::{
    ERROR_RADIO_NOT_AVAILABLE, ERROR_RESOURCE_IN_USE, ERROR_SUCCESS, STATUS_ABORTED,
    STATUS_CREATED, STATUS_STARTED, STATUS_STOPPED, reason_of_code,
};

verus! {

/// An event that reaches a session.
pub enum SessionEvent {
    /// The publisher reported a status code, with an error code.
    Status(i32, i32),
    /// The connection listener reported a connection request.
    ConnectionRequested,
    /// The application asked to stop; the publisher status was read as this code.
    Stop(i32),
}

/// An event that reaches the watch of one device.
pub enum DeviceEvent {
    /// The device resolution ended; whether it produced a device handle.
    Resolved(bool),
    /// The device reported a connection status code.
    ConnectionStatus(i32),
}

/// Listening state after one session event, and the steps it yields. A
/// handling failure yields nothing and changes nothing.
pub open spec fn event_outcome(listening: bool, e: SessionEvent) -> (bool, Seq<Step>) {
    match e {
        SessionEvent::Status(status, error) => match status_outcome(listening, status, error) {
            Ok(outcome) => outcome,
            Err(_) => (listening, seq![]),
        },
        SessionEvent::ConnectionRequested => (listening, request_steps(listening)),
        SessionEvent::Stop(status) => (listening, stop_steps(status)),
    }
}

/// The steps that a session yields over a sequence of events, in order.
pub open spec fn session_trace(listening: bool, events: Seq<SessionEvent>) -> Seq<Step>
    decreases events.len(),
{
    if events.len() == 0 {
        seq![]
    } else {
        let (next, steps) = event_outcome(listening, events[0]);
        steps + session_trace(next, events.drop_first())
    }
}

/// Phase after one device event, and the steps it yields.
pub open spec fn device_outcome(phase: WatchPhase, e: DeviceEvent) -> (WatchPhase, Seq<Step>) {
    match e {
        DeviceEvent::Resolved(completed) => resolved_outcome(phase, completed),
        DeviceEvent::ConnectionStatus(code) => (phase, device_status_steps(phase, code)),
    }
}

/// The steps that the watch of one device yields over a sequence of events.
pub open spec fn device_trace(phase: WatchPhase, events: Seq<DeviceEvent>) -> Seq<Step>
    decreases events.len(),
{
    if events.len() == 0 {
        seq![]
    } else {
        let (next, steps) = device_outcome(phase, events[0]);
        steps + device_trace(next, events.drop_first())
    }
}

/// Every "connection requested" notification of a run comes after a
/// "started" notification of the same run, unless the listener was already
/// installed when the run began.
proof fn lemma_requests_after_start(listening: bool, events: Seq<SessionEvent>)
    ensures
        forall|j: int|
            0 <= j < session_trace(listening, events).len() && session_trace(listening, events)[j]
                == Step::Notify(Notification::ConnectionRequested) ==> listening || exists|i: int|
                0 <= i < j && session_trace(listening, events)[i] == Step::Notify(
                    Notification::Started,
                ),
    decreases events.len(),
{
    if events.len() > 0 {
        let (next, steps) = event_outcome(listening, events[0]);
        let rest = events.drop_first();
        lemma_requests_after_start(next, rest);
        let t = session_trace(listening, events);
        assert(t == steps + session_trace(next, rest));
        assert(next != listening ==> steps[0] == Step::Notify(Notification::Started));
        assert forall|j: int|
            0 <= j < t.len() && t[j] == Step::Notify(
                Notification::ConnectionRequested,
            ) implies listening || exists|i: int|
            0 <= i < j && t[i] == Step::Notify(Notification::Started) by {
            if j >= steps.len() {
                let k = j - steps.len();
                assert(session_trace(next, rest)[k] == t[j]);
                if !next {
                    let i2 = choose|i: int|
                        0 <= i < k && session_trace(next, rest)[i] == Step::Notify(
                            Notification::Started,
                        );
                    assert(t[i2 + steps.len()] == Step::Notify(Notification::Started));
                } else if !listening {
                    assert(t[0] == Step::Notify(Notification::Started));
                }
            }
        }
    }
}

/// A fresh session whose publisher first reports that it was created sends
/// "created" as its first notification; after that, no "connection requested"
/// notification comes before the "started" notification, whose text names
/// the session's SSID.
pub proof fn lemma_created_first_then_started(
    ssid: Seq<char>,
    error: i32,
    events: Seq<SessionEvent>,
)
    ensures
        session_trace(false, seq![SessionEvent::Status(STATUS_CREATED, error)] + events)[0]
            == Step::Notify(Notification::Created),
        forall|j: int|
            0 <= j < session_trace(false, seq![SessionEvent::Status(STATUS_CREATED, error)] + events).len()
                && session_trace(false, seq![SessionEvent::Status(STATUS_CREATED, error)] + events)[j]
                == Step::Notify(Notification::ConnectionRequested) ==> exists|i: int|
                0 <= i < j && session_trace(
                    false,
                    seq![SessionEvent::Status(STATUS_CREATED, error)] + events,
                )[i] == Step::Notify(Notification::Started),
        notification_text_of(Notification::Started, ssid) == "Hosted network "@ + ssid
            + " has started"@,
{
    let all = seq![SessionEvent::Status(STATUS_CREATED, error)] + events;
    assert(all.drop_first() =~= events);
    assert(session_trace(false, all) == seq![Step::Notify(Notification::Created)]
        + session_trace(false, events));
    lemma_requests_after_start(false, all);
}

/// Stopping a running publisher sends no notification of its own and only
/// tells the publisher to stop; the "stopped" status that the publisher then
/// reports yields exactly one "stopped" notification.
pub proof fn lemma_stop_while_started(listening: bool, error: i32)
    ensures
        stop_steps(STATUS_STARTED) == seq![Step::StopPublisher],
        session_trace(
            listening,
            seq![SessionEvent::Stop(STATUS_STARTED), SessionEvent::Status(STATUS_STOPPED, error)],
        ) == seq![Step::StopPublisher, Step::Notify(Notification::Stopped)],
{
    let events = seq![
        SessionEvent::Stop(STATUS_STARTED),
        SessionEvent::Status(STATUS_STOPPED, error),
    ];
    let tail = seq![SessionEvent::Status(STATUS_STOPPED, error)];
    assert(events.drop_first() =~= tail);
    assert(tail.drop_first() =~= Seq::<SessionEvent>::empty());
    assert(session_trace(listening, Seq::<SessionEvent>::empty()) == Seq::<Step>::empty());
    assert(session_trace(listening, tail) =~= seq![Step::Notify(Notification::Stopped)]);
    assert(session_trace(listening, events) =~= seq![
        Step::StopPublisher,
        Step::Notify(Notification::Stopped),
    ]);
}

/// Stopping a publisher that is not running yields exactly one "stop called
/// but not running" notification, does not tell the publisher to stop, and
/// sends no "stopped" notification, whose text differs.
pub proof fn lemma_stop_while_not_started(listening: bool, status: i32, ssid: Seq<char>)
    requires
        status != STATUS_STARTED,
    ensures
        session_trace(listening, seq![SessionEvent::Stop(status)]) == seq![
            Step::Notify(Notification::StopWhileNotRunning),
        ],
        notification_text_of(Notification::StopWhileNotRunning, ssid) != notification_text_of(
            Notification::Stopped,
            ssid,
        ),
{
    let events = seq![SessionEvent::Stop(status)];
    assert(events.drop_first() =~= Seq::<SessionEvent>::empty());
    assert(session_trace(listening, Seq::<SessionEvent>::empty()) == Seq::<Step>::empty());
    assert(session_trace(listening, events) =~= seq![
        Step::Notify(Notification::StopWhileNotRunning),
    ]);
    reveal_strlit("Hosted network stopped");
    reveal_strlit("Stop called but WiFiDirectAdvertisementPublisher is not running");
    assert(notification_text_of(Notification::StopWhileNotRunning, ssid).len() != notification_text_of(
        Notification::Stopped,
        ssid,
    ).len());
}

/// Each abort reason of the stack yields one "aborted" notification with its
/// own text; an aborted status with any other error code is a handling failure.
pub proof fn lemma_abort_reasons(listening: bool, ssid: Seq<char>, error: i32)
    ensures
        reason_of_code(error) matches Some(r) ==> status_outcome(listening, STATUS_ABORTED, error)
            == Ok::<(bool, Seq<Step>), crate::session::HandlingFailure>(
            (listening, seq![Step::Notify(Notification::Aborted(r))]),
        ),
        reason_of_code(error) is None ==> status_outcome(listening, STATUS_ABORTED, error) == Err::<
            (bool, Seq<Step>),
            crate::session::HandlingFailure,
        >(crate::session::HandlingFailure::UnknownAbortReason(error)),
        error == ERROR_RADIO_NOT_AVAILABLE ==> notification_text_of(
            Notification::Aborted(reason_of_code(error).unwrap()),
            ssid,
        ) == "Hosted network aborted: Radio not available"@,
        error == ERROR_RESOURCE_IN_USE ==> notification_text_of(
            Notification::Aborted(reason_of_code(error).unwrap()),
            ssid,
        ) == "Hosted network aborted: Resource in use"@,
        error == ERROR_SUCCESS ==> notification_text_of(
            Notification::Aborted(reason_of_code(error).unwrap()),
            ssid,
        ) == "Hosted network aborted: Success"@,
{
    reveal_strlit("Hosted network aborted: ");
    reveal_strlit("Radio not available");
    reveal_strlit("Resource in use");
    reveal_strlit("Success");
    reveal_strlit("Hosted network aborted: Radio not available");
    reveal_strlit("Hosted network aborted: Resource in use");
    reveal_strlit("Hosted network aborted: Success");
    assert("Hosted network aborted: "@ + "Radio not available"@
        =~= "Hosted network aborted: Radio not available"@);
    assert("Hosted network aborted: "@ + "Resource in use"@
        =~= "Hosted network aborted: Resource in use"@);
    assert("Hosted network aborted: "@ + "Success"@ =~= "Hosted network aborted: Success"@);
}

/// Over the life of one device, from its connection request on, the
/// "connection requested" notification comes before any handling of its
/// disconnection.
pub proof fn lemma_request_before_disconnect(events: Seq<DeviceEvent>)
    ensures
        forall|j: int|
            0 <= j < (request_steps(true) + device_trace(WatchPhase::Resolving, events)).len()
                && (request_steps(true) + device_trace(WatchPhase::Resolving, events))[j]
                == Step::NoteDisconnect ==> exists|i: int|
                0 <= i < j && (request_steps(true) + device_trace(WatchPhase::Resolving, events))[i]
                    == Step::Notify(Notification::ConnectionRequested),
{
    let t = request_steps(true) + device_trace(WatchPhase::Resolving, events);
    assert(t[0] == Step::Notify(Notification::ConnectionRequested));
}

} // verus!
