//! The fixed table that maps the worker's event types to the topics known to
//! the UI, and the payload that goes out under a topic.

use vstd::prelude::*;
use vstd::string::StringExecFns;
use crate::error::DropModel;
use crate::error::DropReason;
use crate::json::JsonValue;
use crate::json::json_model;
use crate::json::lemma_ranked_distinct;
use crate::json::lemma_ranked_extend;
use crate::json::members_model;
use crate::json::object_from_members;
use crate::json::push_member;
use crate::json::push_optional_text;
use crate::protocol::EventModel;
use crate::protocol::SidecarEvent;
use crate::protocol::lemma_record_ranks;
use crate::protocol::optional_payload;
use crate::protocol::optional_task_id;
use crate::protocol::record_rank;
use crate::text::str_eq;

verus! {

/// The topic under which an event of a given type goes out; `None` for a
/// type that the table does not hold.
pub open spec fn topic_of(event_type: Seq<char>) -> Option<Seq<char>> {
    if event_type == "ready"@ {
        Some("sidecar:ready"@)
    } else if event_type == "pong"@ {
        Some("sidecar:pong"@)
    } else if event_type == "cli_status"@ {
        Some("sidecar:cli_status"@)
    } else if event_type == "task_started"@ {
        Some("task:started"@)
    } else if event_type == "task_message"@ {
        Some("task:message"@)
    } else if event_type == "task_progress"@ {
        Some("task:progress"@)
    } else if event_type == "permission_request"@ {
        Some("task:permission_request"@)
    } else if event_type == "task_complete"@ {
        Some("task:complete"@)
    } else if event_type == "task_error"@ {
        Some("task:error"@)
    } else if event_type == "log"@ {
        Some("sidecar:log"@)
    } else if event_type == "error"@ {
        Some("sidecar:error"@)
    } else {
        None
    }
}

/// Looks an event type up in the table.
pub fn topic_for(event_type: &str) -> (r: Option<&'static str>)
    ensures
        match r {
            Some(topic) => topic_of(event_type@) == Some(topic@),
            None => topic_of(event_type@) is None,
        },
{
    if str_eq(event_type, "ready") {
        Some("sidecar:ready")
    } else if str_eq(event_type, "pong") {
        Some("sidecar:pong")
    } else if str_eq(event_type, "cli_status") {
        Some("sidecar:cli_status")
    } else if str_eq(event_type, "task_started") {
        Some("task:started")
    } else if str_eq(event_type, "task_message") {
        Some("task:message")
    } else if str_eq(event_type, "task_progress") {
        Some("task:progress")
    } else if str_eq(event_type, "permission_request") {
        Some("task:permission_request")
    } else if str_eq(event_type, "task_complete") {
        Some("task:complete")
    } else if str_eq(event_type, "task_error") {
        Some("task:error")
    } else if str_eq(event_type, "log") {
        Some("sidecar:log")
    } else if str_eq(event_type, "error") {
        Some("sidecar:error")
    } else {
        None
    }
}

/// What goes out to the UI: a topic and the payload delivered under it.
#[derive(Debug)]
pub struct Emission {
    pub topic: String,
    pub payload: serde_json::Value,
}

/// The mathematical model of an emission.
pub ghost struct EmissionModel {
    pub topic: Seq<char>,
    pub payload: JsonValue,
}

impl View for Emission {
    type V = EmissionModel;

    open spec fn view(&self) -> EmissionModel {
        EmissionModel { topic: self.topic@, payload: json_model(self.payload) }
    }
}

/// The payload that goes out for an event: an object with the task where the
/// event names one, and with the event's payload, untouched, where it has
/// one.
pub open spec fn outward_payload(event: EventModel) -> JsonValue {
    JsonValue::Object(optional_task_id(event.task_id) + optional_payload(event.payload))
}

/// What goes out for an event: nothing for a type that the table does not
/// hold.
pub open spec fn route_spec(event: EventModel) -> Option<EmissionModel> {
    match topic_of(event.event_type) {
        Some(topic) => Some(EmissionModel { topic, payload: outward_payload(event) }),
        None => None,
    }
}

/// Whether the outcome of routing an event is what the model asks for: the
/// emission, or the event's type as the reason to drop it.
pub open spec fn routed_as(r: Result<Emission, DropReason>, event: EventModel) -> bool {
    match route_spec(event) {
        Some(model) => r matches Ok(emission) && emission@ == model,
        None => r matches Err(reason) && reason@ == DropModel::UnknownEventType(event.event_type),
    }
}

/// Turns an event of the worker into what goes out to the UI. An event of a
/// type outside the table is dropped, whatever else it holds.
pub fn handle_sidecar_event(event: SidecarEvent) -> (r: Result<Emission, DropReason>)
    ensures
        routed_as(r, event@),
{
    let topic = match topic_for(event.event_type.as_str()) {
        Some(topic) => topic,
        None => {
            return Err(DropReason::UnknownEventType(event.event_type));
        },
    };
    let ghost rank = |key: Seq<char>| record_rank(key);
    let mut members: Vec<(String, serde_json::Value)> = Vec::new();
    proof {
        lemma_record_ranks();
        assert(members_model(members@) =~= Seq::empty());
    }
    let ghost before = members_model(members@);
    push_optional_text(&mut members, "taskId", &event.task_id);
    proof {
        assert(members_model(members@) =~= before + optional_task_id(event@.task_id));
        assert(members_model(members@) =~= optional_task_id(event@.task_id));
        lemma_ranked_extend(before, optional_task_id(event@.task_id), rank, 1);
    }
    let ghost before = members_model(members@);
    match event.payload {
        Some(doc) => {
            push_member(&mut members, "payload", doc);
        },
        None => {},
    }
    proof {
        assert(members_model(members@) =~= before + optional_payload(event@.payload));
        lemma_ranked_extend(before, optional_payload(event@.payload), rank, 2);
        lemma_ranked_distinct(members_model(members@), rank, 3);
    }
    Ok(Emission { topic: String::from_str(topic), payload: object_from_members(members) })
}

} // verus!
