use cowork_bridge::error::{DecodeError, DropReason};
use cowork_bridge::reader::{
    error_emission, handle_worker_output, process_line, process_lines, process_output,
    termination_emission,
    Notice, WorkerOutput,
};

fn value(text: &str) -> serde_json::Value {
    serde_json::from_str(text).unwrap()
}

fn lines(texts: &[&str]) -> Vec<String> {
    texts.iter().map(|t| t.to_string()).collect()
}

#[test]
fn garbage_line_is_dropped_and_the_next_line_still_processed() {
    let out = process_lines(&lines(&[
        "this is not json",
        "{\"type\":\"task_started\",\"taskId\":\"t1\"}",
    ]));
    assert_eq!(out.len(), 1);
    assert_eq!(out[0].topic, "task:started");
    assert_eq!(out[0].payload, value("{\"taskId\":\"t1\"}"));
}

#[test]
fn garbage_between_valid_lines_changes_nothing() {
    let with = process_lines(&lines(&[
        "{\"type\":\"pong\"}",
        "{{{{",
        "",
        "{\"type\":\"bogus\"}",
        "{\"no_type\":true}",
        "{\"type\":\"log\",\"payload\":\"x\"}",
    ]));
    let without = process_lines(&lines(&["{\"type\":\"pong\"}", "{\"type\":\"log\",\"payload\":\"x\"}"]));
    assert_eq!(with.len(), 2);
    assert_eq!(without.len(), 2);
    for i in 0..2 {
        assert_eq!(with[i].topic, without[i].topic);
        assert_eq!(with[i].payload, without[i].payload);
    }
    assert_eq!(with[0].topic, "sidecar:pong");
    assert_eq!(with[1].topic, "sidecar:log");
}

#[test]
fn started_then_complete_gives_two_emissions_in_order() {
    let out = process_lines(&lines(&[
        "{\"type\":\"task_started\",\"taskId\":\"t1\"}",
        "{\"type\":\"task_complete\",\"taskId\":\"t1\",\"payload\":{\"status\":\"ok\"}}",
    ]));
    assert_eq!(out.len(), 2);
    assert_eq!(out[0].topic, "task:started");
    assert_eq!(out[0].payload, value("{\"taskId\":\"t1\"}"));
    assert_eq!(out[1].topic, "task:complete");
    assert_eq!(out[1].payload, value("{\"taskId\":\"t1\",\"payload\":{\"status\":\"ok\"}}"));
}

#[test]
fn no_lines_give_no_emissions() {
    assert!(process_lines(&Vec::new()).is_empty());
}

#[test]
fn process_line_tolerates_trailing_carriage_return() {
    let emission = process_line("{\"type\":\"ready\"}\r").unwrap();
    assert_eq!(emission.topic, "sidecar:ready");
}

#[test]
fn process_line_drops_bogus_type_and_malformed_task() {
    assert!(matches!(
        process_line("{\"type\":\"bogus\"}"),
        Err(DropReason::UnknownEventType(t)) if t == "bogus"
    ));
    assert!(matches!(
        process_line("{\"type\":\"ready\",\"taskId\":[]}"),
        Err(DropReason::Undecodable(DecodeError::InvalidTaskId))
    ));
    assert!(matches!(
        process_line("null"),
        Err(DropReason::Undecodable(DecodeError::MissingType))
    ));
    assert!(matches!(
        process_line("{oops"),
        Err(DropReason::Undecodable(DecodeError::InvalidJson))
    ));
}

#[test]
fn stdout_lines_become_one_notice_each() {
    let out = handle_worker_output(WorkerOutput::Stdout(
        "{\"type\":\"task_started\",\"taskId\":\"t1\"}\ngarbage\n{\"type\":\"bogus\"}\n\
{\"type\":\"task_complete\",\"taskId\":\"t1\",\"payload\":{\"status\":\"ok\"}}\n"
            .to_string(),
    ));
    assert_eq!(out.len(), 4);
    match (&out[0], &out[1], &out[2], &out[3]) {
        (
            Notice::Emit(first),
            Notice::Dropped(DropReason::Undecodable(DecodeError::InvalidJson)),
            Notice::Dropped(DropReason::UnknownEventType(unknown)),
            Notice::Emit(second),
        ) => {
            assert_eq!(first.topic, "task:started");
            assert_eq!(unknown, "bogus");
            assert_eq!(second.topic, "task:complete");
        }
        other => panic!("unexpected: {:?}", other),
    }
}

#[test]
fn scenario_of_two_echoed_events_gives_exactly_two_emissions() {
    let out = handle_worker_output(WorkerOutput::Stdout(
        "{\"type\":\"task_started\",\"taskId\":\"t1\"}\n\
{\"type\":\"task_complete\",\"taskId\":\"t1\",\"payload\":{\"status\":\"ok\"}}\n"
            .to_string(),
    ));
    let topics: Vec<&str> = out
        .iter()
        .map(|notice| match notice {
            Notice::Emit(emission) => emission.topic.as_str(),
            other => panic!("unexpected: {:?}", other),
        })
        .collect();
    assert_eq!(topics, vec!["task:started", "task:complete"]);
}

#[test]
fn stderr_text_is_forwarded_verbatim_and_not_parsed() {
    let out = handle_worker_output(WorkerOutput::Stderr("{\"type\":\"ready\"}".to_string()));
    assert_eq!(out.len(), 1);
    match &out[0] {
        Notice::Diagnostic(text) => assert_eq!(text, "{\"type\":\"ready\"}"),
        other => panic!("unexpected: {:?}", other),
    }
}

#[test]
fn stream_failure_goes_out_as_error_topic() {
    let out = handle_worker_output(WorkerOutput::Error("broken pipe".to_string()));
    assert_eq!(out.len(), 1);
    match &out[0] {
        Notice::Emit(emission) => {
            assert_eq!(emission.topic, "sidecar:error");
            assert_eq!(emission.payload, value("\"broken pipe\""));
        }
        other => panic!("unexpected: {:?}", other),
    }
}

#[test]
fn termination_carries_the_exit_code() {
    let emission = termination_emission(Some(3));
    assert_eq!(emission.topic, "sidecar:terminated");
    assert_eq!(emission.payload, value("3"));
    assert_eq!(termination_emission(Some(-9)).payload, value("-9"));
    assert_eq!(termination_emission(Some(0)).payload, value("0"));
}

#[test]
fn termination_without_code_carries_null() {
    let emission = termination_emission(None);
    assert_eq!(emission.topic, "sidecar:terminated");
    assert_eq!(emission.payload, serde_json::Value::Null);
}

#[test]
fn error_emission_carries_the_reason() {
    let emission = error_emission("it \"broke\"");
    assert_eq!(emission.topic, "sidecar:error");
    assert_eq!(emission.payload, serde_json::Value::String("it \"broke\"".to_string()));
}

#[test]
fn chunk_of_two_records_gives_two_emissions_in_order() {
    let out = process_output(
        "{\"type\":\"task_started\",\"taskId\":\"t1\"}\n\
{\"type\":\"task_complete\",\"taskId\":\"t1\",\"payload\":{\"status\":\"ok\"}}\n",
    );
    assert_eq!(out.len(), 2);
    assert_eq!(out[0].topic, "task:started");
    assert_eq!(out[1].topic, "task:complete");
    assert_eq!(out[1].payload, value("{\"taskId\":\"t1\",\"payload\":{\"status\":\"ok\"}}"));
}

#[test]
fn chunk_with_windows_line_ends_and_garbage_is_read() {
    let out = process_output("junk\r\n{\"type\":\"pong\"}\r\n\r\n{\"type\":\"ready\"}");
    assert_eq!(out.len(), 2);
    assert_eq!(out[0].topic, "sidecar:pong");
    assert_eq!(out[1].topic, "sidecar:ready");
}

#[test]
fn empty_chunk_gives_nothing() {
    assert!(process_output("").is_empty());
    assert!(process_output("\n\n").is_empty());
}
