use cowork_bridge::error::DropReason;
use cowork_bridge::protocol::SidecarEvent;
use cowork_bridge::router::{handle_sidecar_event, topic_for};

fn value(text: &str) -> serde_json::Value {
    serde_json::from_str(text).unwrap()
}

#[test]
fn every_known_type_has_its_topic() {
    assert_eq!(topic_for("ready"), Some("sidecar:ready"));
    assert_eq!(topic_for("pong"), Some("sidecar:pong"));
    assert_eq!(topic_for("cli_status"), Some("sidecar:cli_status"));
    assert_eq!(topic_for("task_started"), Some("task:started"));
    assert_eq!(topic_for("task_message"), Some("task:message"));
    assert_eq!(topic_for("task_progress"), Some("task:progress"));
    assert_eq!(topic_for("permission_request"), Some("task:permission_request"));
    assert_eq!(topic_for("task_complete"), Some("task:complete"));
    assert_eq!(topic_for("task_error"), Some("task:error"));
    assert_eq!(topic_for("log"), Some("sidecar:log"));
    assert_eq!(topic_for("error"), Some("sidecar:error"));
}

#[test]
fn unknown_types_have_no_topic() {
    assert_eq!(topic_for("bogus"), None);
    assert_eq!(topic_for(""), None);
    assert_eq!(topic_for("READY"), None);
    assert_eq!(topic_for("task:complete"), None);
}

#[test]
fn task_complete_goes_out_with_task_and_payload_unchanged() {
    let event = SidecarEvent {
        event_type: "task_complete".to_string(),
        task_id: Some("task_42".to_string()),
        payload: Some(value("{\"status\":\"ok\",\"n\":[1,2.5,null]}")),
    };
    let emission = handle_sidecar_event(event).unwrap();
    assert_eq!(emission.topic, "task:complete");
    assert_eq!(
        emission.payload,
        value("{\"taskId\":\"task_42\",\"payload\":{\"status\":\"ok\",\"n\":[1,2.5,null]}}")
    );
    assert_eq!(
        serde_json::to_string(&emission.payload).unwrap(),
        "{\"taskId\":\"task_42\",\"payload\":{\"status\":\"ok\",\"n\":[1,2.5,null]}}"
    );
}

#[test]
fn bogus_event_produces_no_emission() {
    let event = SidecarEvent {
        event_type: "bogus".to_string(),
        task_id: Some("task_42".to_string()),
        payload: Some(value("{}")),
    };
    match handle_sidecar_event(event) {
        Err(DropReason::UnknownEventType(event_type)) => assert_eq!(event_type, "bogus"),
        other => panic!("unexpected: {:?}", other),
    }
}

#[test]
fn event_without_task_or_payload_goes_out_as_empty_object() {
    let event = SidecarEvent { event_type: "ready".to_string(), task_id: None, payload: None };
    let emission = handle_sidecar_event(event).unwrap();
    assert_eq!(emission.topic, "sidecar:ready");
    assert_eq!(emission.payload, value("{}"));
}

#[test]
fn event_with_payload_only_has_no_task_member() {
    let event = SidecarEvent {
        event_type: "log".to_string(),
        task_id: None,
        payload: Some(value("\"line\"")),
    };
    let emission = handle_sidecar_event(event).unwrap();
    assert_eq!(emission.topic, "sidecar:log");
    assert_eq!(emission.payload, value("{\"payload\":\"line\"}"));
}
