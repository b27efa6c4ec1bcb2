use wlan_hosted_network::notification::{notification_text, Notification};
use wlan_hosted_network::session::{HandlingFailure, HostedNetworkSession, Step, WatchPhase};
use wlan_hosted_network::status::{
    AbortReason, PublisherStatus, CONNECTION_CONNECTED, CONNECTION_DISCONNECTED,
    ERROR_RADIO_NOT_AVAILABLE, ERROR_RESOURCE_IN_USE, ERROR_SUCCESS, STATUS_ABORTED,
    STATUS_CREATED, STATUS_STARTED, STATUS_STOPPED,
};

fn texts(session: &HostedNetworkSession, steps: &[Step]) -> Vec<String> {
    let mut out = Vec::new();
    for step in steps {
        if let Step::Notify(n) = step {
            out.push(session.text(*n));
        }
    }
    out
}

#[test]
fn created_started_then_stopped() {
    let mut session = HostedNetworkSession::new("TestNet");
    let mut sink = Vec::new();
    let created = session.on_status_changed(STATUS_CREATED, ERROR_SUCCESS).unwrap();
    assert_eq!(created, vec![Step::Notify(Notification::Created)]);
    sink.extend(texts(&session, &created));
    let started = session.on_status_changed(STATUS_STARTED, ERROR_SUCCESS).unwrap();
    assert_eq!(
        started,
        vec![Step::Notify(Notification::Started), Step::InstallListener]
    );
    assert!(session.is_listening());
    sink.extend(texts(&session, &started));
    assert_eq!(
        sink,
        vec![
            "Hosted network created".to_string(),
            "Hosted network TestNet has started".to_string()
        ]
    );
    let stop = session.stop(STATUS_STARTED);
    assert_eq!(stop, vec![Step::StopPublisher]);
    sink.extend(texts(&session, &stop));
    let stopped = session.on_status_changed(STATUS_STOPPED, ERROR_SUCCESS).unwrap();
    sink.extend(texts(&session, &stopped));
    assert_eq!(sink.last().unwrap(), "Hosted network stopped");
    assert_eq!(sink.len(), 3);
}

#[test]
fn stop_before_started_reports_not_running() {
    let mut session = HostedNetworkSession::new("TestNet");
    session.on_status_changed(STATUS_CREATED, ERROR_SUCCESS).unwrap();
    let stop = session.stop(STATUS_CREATED);
    assert_eq!(stop, vec![Step::Notify(Notification::StopWhileNotRunning)]);
    assert_eq!(
        texts(&session, &stop),
        vec!["Stop called but WiFiDirectAdvertisementPublisher is not running".to_string()]
    );
    for status in [STATUS_STOPPED, STATUS_ABORTED, 42] {
        assert_eq!(
            session.stop(status),
            vec![Step::Notify(Notification::StopWhileNotRunning)]
        );
    }
}

#[test]
fn abort_reasons_have_their_text() {
    let cases = [
        (ERROR_RADIO_NOT_AVAILABLE, "Hosted network aborted: Radio not available"),
        (ERROR_RESOURCE_IN_USE, "Hosted network aborted: Resource in use"),
        (ERROR_SUCCESS, "Hosted network aborted: Success"),
    ];
    for (code, text) in cases {
        let mut session = HostedNetworkSession::new("Net");
        let steps = session.on_status_changed(STATUS_ABORTED, code).unwrap();
        assert_eq!(steps.len(), 1);
        assert_eq!(texts(&session, &steps), vec![text.to_string()]);
    }
}

#[test]
fn unexpected_abort_reason_is_a_failure() {
    let mut session = HostedNetworkSession::new("Net");
    assert_eq!(
        session.on_status_changed(STATUS_ABORTED, 3),
        Err(HandlingFailure::UnknownAbortReason(3))
    );
    assert_eq!(
        session.on_status_changed(STATUS_ABORTED, -1),
        Err(HandlingFailure::UnknownAbortReason(-1))
    );
}

#[test]
fn unexpected_status_is_a_failure_and_changes_nothing() {
    let mut session = HostedNetworkSession::new("Net");
    assert_eq!(
        session.on_status_changed(4, ERROR_SUCCESS),
        Err(HandlingFailure::UnknownStatus(4))
    );
    assert!(!session.is_listening());
    assert_eq!(session.ssid(), "Net");
}

#[test]
fn requests_only_after_started() {
    let mut session = HostedNetworkSession::new("Net");
    session.on_status_changed(STATUS_CREATED, ERROR_SUCCESS).unwrap();
    let (steps, watch) = session.on_connection_requested();
    assert!(steps.is_empty());
    assert!(watch.is_none());
    session.on_status_changed(STATUS_STARTED, ERROR_SUCCESS).unwrap();
    let (steps, watch) = session.on_connection_requested();
    assert_eq!(
        steps,
        vec![
            Step::Notify(Notification::ConnectionRequested),
            Step::ResolveDevice
        ]
    );
    assert_eq!(texts(&session, &steps), vec!["Connection requested...".to_string()]);
    assert_eq!(watch.unwrap().phase(), WatchPhase::Resolving);
}

#[test]
fn device_watch_notes_disconnect_after_resolution() {
    let mut session = HostedNetworkSession::new("Net");
    session.on_status_changed(STATUS_STARTED, ERROR_SUCCESS).unwrap();
    let (_, watch) = session.on_connection_requested();
    let mut watch = watch.unwrap();
    assert!(watch.on_connection_status(CONNECTION_DISCONNECTED).is_empty());
    assert_eq!(watch.on_resolved(true), vec![Step::WatchDevice]);
    assert_eq!(watch.phase(), WatchPhase::Watching);
    assert!(watch.on_connection_status(CONNECTION_CONNECTED).is_empty());
    assert_eq!(
        watch.on_connection_status(CONNECTION_DISCONNECTED),
        vec![Step::NoteDisconnect]
    );
    assert!(watch.on_resolved(true).is_empty());
    assert_eq!(watch.phase(), WatchPhase::Watching);
}

#[test]
fn failed_resolution_watches_nothing() {
    let mut session = HostedNetworkSession::new("Net");
    session.on_status_changed(STATUS_STARTED, ERROR_SUCCESS).unwrap();
    let mut watch = session.on_connection_requested().1.unwrap();
    assert!(watch.on_resolved(false).is_empty());
    assert_eq!(watch.phase(), WatchPhase::Unresolved);
    assert!(watch.on_connection_status(CONNECTION_DISCONNECTED).is_empty());
}

#[test]
fn status_codes_decode() {
    assert_eq!(PublisherStatus::from_code(STATUS_CREATED), Some(PublisherStatus::Created));
    assert_eq!(PublisherStatus::from_code(STATUS_STARTED), Some(PublisherStatus::Started));
    assert_eq!(PublisherStatus::from_code(STATUS_STOPPED), Some(PublisherStatus::Stopped));
    assert_eq!(PublisherStatus::from_code(STATUS_ABORTED), Some(PublisherStatus::Aborted));
    assert_eq!(PublisherStatus::from_code(-3), None);
    assert_eq!(AbortReason::from_code(ERROR_SUCCESS), Some(AbortReason::Success));
    assert_eq!(
        AbortReason::from_code(ERROR_RADIO_NOT_AVAILABLE),
        Some(AbortReason::RadioNotAvailable)
    );
    assert_eq!(AbortReason::from_code(ERROR_RESOURCE_IN_USE), Some(AbortReason::ResourceInUse));
    assert_eq!(AbortReason::from_code(5), None);
}

#[test]
fn notification_texts() {
    assert_eq!(notification_text(Notification::Created, "X"), "Hosted network created");
    assert_eq!(notification_text(Notification::Started, "My AP"), "Hosted network My AP has started");
    assert_eq!(notification_text(Notification::Started, ""), "Hosted network  has started");
    assert_eq!(notification_text(Notification::Stopped, "X"), "Hosted network stopped");
    assert_eq!(
        notification_text(Notification::Aborted(AbortReason::ResourceInUse), "X"),
        "Hosted network aborted: Resource in use"
    );
    assert_eq!(notification_text(Notification::ConnectionRequested, "X"), "Connection requested...");
    assert_eq!(AbortReason::RadioNotAvailable.text(), "Radio not available");
}
