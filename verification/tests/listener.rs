use device_listener::events::{classify, DeviceEvent, DeviceEventKind, EventPayload, RawEvent};
use device_listener::guard::ListenerGuard;
use device_listener::listener::{ListenError, Session, SessionPhase};
use device_listener::pipeline::{continue_after_delivery, process_session};

#[test]
fn classify_button_press() {
    let r = classify(&RawEvent::ButtonPress { button: "Left".to_string() });
    assert_eq!(
        r,
        Some(DeviceEvent {
            kind: DeviceEventKind::MousePress,
            value: EventPayload::Text("Left".to_string()),
        })
    );
}

#[test]
fn classify_button_release() {
    let r = classify(&RawEvent::ButtonRelease { button: "Right".to_string() });
    assert_eq!(
        r,
        Some(DeviceEvent {
            kind: DeviceEventKind::MouseRelease,
            value: EventPayload::Text("Right".to_string()),
        })
    );
}

#[test]
fn classify_pointer_move_payload_shape() {
    let r = classify(&RawEvent::PointerMove { x: 120, y: 45 });
    assert_eq!(
        r,
        Some(DeviceEvent {
            kind: DeviceEventKind::MouseMove,
            value: EventPayload::Position { x: 120, y: 45 },
        })
    );
}

#[test]
fn classify_key_press_round_trip() {
    let r = classify(&RawEvent::KeyPress { key: "A".to_string() });
    assert_eq!(
        r,
        Some(DeviceEvent {
            kind: DeviceEventKind::KeyboardPress,
            value: EventPayload::Text("A".to_string()),
        })
    );
}

#[test]
fn classify_key_release() {
    let r = classify(&RawEvent::KeyRelease { key: "ShiftLeft".to_string() });
    assert_eq!(
        r,
        Some(DeviceEvent {
            kind: DeviceEventKind::KeyboardRelease,
            value: EventPayload::Text("ShiftLeft".to_string()),
        })
    );
}

#[test]
fn classify_drops_unrecognized() {
    assert_eq!(classify(&RawEvent::Unrecognized), None);
}

#[test]
fn session_preserves_arrival_order() {
    let raw = vec![
        RawEvent::KeyPress { key: "A".to_string() },
        RawEvent::PointerMove { x: 3, y: 7 },
        RawEvent::ButtonPress { button: "Left".to_string() },
        RawEvent::KeyRelease { key: "A".to_string() },
    ];
    let out = process_session(&raw);
    let kinds: Vec<DeviceEventKind> = out.iter().map(|d| d.kind).collect();
    assert_eq!(
        kinds,
        vec![
            DeviceEventKind::KeyboardPress,
            DeviceEventKind::MouseMove,
            DeviceEventKind::MousePress,
            DeviceEventKind::KeyboardRelease,
        ]
    );
}

#[test]
fn session_skips_unrecognized_and_keeps_order() {
    let raw = vec![
        RawEvent::Unrecognized,
        RawEvent::KeyPress { key: "B".to_string() },
        RawEvent::Unrecognized,
        RawEvent::PointerMove { x: 0, y: 0 },
    ];
    let out = process_session(&raw);
    assert_eq!(out.len(), 2);
    assert_eq!(out[0].kind, DeviceEventKind::KeyboardPress);
    assert_eq!(out[1].kind, DeviceEventKind::MouseMove);
}

#[test]
fn pipeline_continues_after_failed_delivery() {
    // The loop keeps going whatever the sink reported for the last event.
    assert!(continue_after_delivery(false));
    assert!(continue_after_delivery(true));
}

#[test]
fn delivery_isolation_with_failing_sink() {
    // A sink that rejects every delivery: each recognized event is still
    // classified and attempted, and the loop never aborts.
    let raw = vec![
        RawEvent::KeyPress { key: "A".to_string() },
        RawEvent::KeyPress { key: "B".to_string() },
    ];
    let mut attempted: Vec<DeviceEvent> = Vec::new();
    let failing_sink = |_event: &DeviceEvent| -> Result<(), String> { Err("sink down".to_string()) };
    for event in &raw {
        if let Some(domain) = classify(event) {
            let outcome = failing_sink(&domain);
            attempted.push(domain);
            assert!(continue_after_delivery(outcome.is_ok()));
        }
    }
    assert_eq!(attempted.len(), 2);
    assert_eq!(attempted[0].value, EventPayload::Text("A".to_string()));
    assert_eq!(attempted[1].value, EventPayload::Text("B".to_string()));
}

#[test]
fn guard_admits_exactly_one_session() {
    let mut g = ListenerGuard::new();
    assert!(!g.is_listening());
    assert!(g.try_acquire());
    assert!(g.is_listening());
    assert!(!g.try_acquire());
    assert!(!g.try_acquire());
    assert!(g.is_listening());
}

#[test]
fn second_start_fails_without_mutation() {
    let mut g = ListenerGuard::new();
    let mut first = Session::new();
    assert!(first.request_start(&mut g).is_ok());
    assert_eq!(first.phase(), SessionPhase::Installing);

    let mut second = Session::new();
    let r = second.request_start(&mut g);
    assert_eq!(r, Err(ListenError::AlreadyListening));
    // The guard is exactly as it was: still active from the first session.
    assert!(g.is_listening());
}

#[test]
fn error_messages_match_taxonomy() {
    assert_eq!(
        ListenError::AlreadyListening.message(),
        "Device is already listening".to_string()
    );
    assert_eq!(
        ListenError::HookInstallError("EventTapError".to_string()).message(),
        "Failed to listen device: EventTapError".to_string()
    );
}

#[test]
fn session_phases_on_success() {
    let mut g = ListenerGuard::new();
    let mut s = Session::new();
    assert_eq!(s.phase(), SessionPhase::NotInstalled);
    assert!(s.request_start(&mut g).is_ok());
    assert_eq!(s.phase(), SessionPhase::Installing);
    s.install_succeeded();
    assert_eq!(s.phase(), SessionPhase::Running);
    s.hook_terminated();
    assert_eq!(s.phase(), SessionPhase::Terminated);
}

#[test]
fn session_phases_on_install_failure() {
    let mut g = ListenerGuard::new();
    let mut s = Session::new();
    assert!(s.request_start(&mut g).is_ok());
    let e = s.install_failed("MissingDisplayError".to_string());
    assert_eq!(s.phase(), SessionPhase::Terminated);
    assert_eq!(e, ListenError::HookInstallError("MissingDisplayError".to_string()));
    assert_eq!(e.message(), "Failed to listen device: MissingDisplayError".to_string());
}
