use cowork_bridge::error::DecodeError;
use cowork_bridge::protocol::{
    decode, encode, frame_record, ApiKeys, BedrockCredentials, SendResponsePayload,
    SidecarCommand, StartTaskPayload,
};
use cowork_bridge::error::SidecarError;
use cowork_bridge::text::str_eq;

fn start_task(task_id: &str, prompt: &str) -> SidecarCommand {
    SidecarCommand::StartTask {
        task_id: task_id.to_string(),
        payload: StartTaskPayload {
            task_id: task_id.to_string(),
            prompt: prompt.to_string(),
            session_id: None,
            api_keys: None,
            working_directory: None,
            model_id: None,
        },
    }
}

#[test]
fn encode_cancel_task_is_one_exact_record() {
    let cmd = SidecarCommand::CancelTask { task_id: "t1".to_string() };
    assert_eq!(encode(&cmd).unwrap(), "{\"type\":\"cancel_task\",\"taskId\":\"t1\"}\n");
}

#[test]
fn encode_interrupt_task_is_one_exact_record() {
    let cmd = SidecarCommand::InterruptTask { task_id: "task_9".to_string() };
    assert_eq!(encode(&cmd).unwrap(), "{\"type\":\"interrupt_task\",\"taskId\":\"task_9\"}\n");
}

#[test]
fn encode_ping_and_check_cli_carry_only_the_tag() {
    assert_eq!(encode(&SidecarCommand::Ping).unwrap(), "{\"type\":\"ping\"}\n");
    assert_eq!(encode(&SidecarCommand::CheckCli).unwrap(), "{\"type\":\"check_cli\"}\n");
}

#[test]
fn encode_send_response_nests_the_response() {
    let cmd = SidecarCommand::SendResponse {
        task_id: "t2".to_string(),
        payload: SendResponsePayload { response: "yes".to_string() },
    };
    assert_eq!(
        encode(&cmd).unwrap(),
        "{\"type\":\"send_response\",\"taskId\":\"t2\",\"payload\":{\"response\":\"yes\"}}\n"
    );
}

#[test]
fn encode_start_task_skips_absent_members() {
    assert_eq!(
        encode(&start_task("t1", "hello")).unwrap(),
        "{\"type\":\"start_task\",\"taskId\":\"t1\",\"payload\":{\"taskId\":\"t1\",\"prompt\":\"hello\"}}\n"
    );
}

#[test]
fn encode_start_task_writes_every_present_member_in_order() {
    let mut keys = ApiKeys::new();
    keys.anthropic = Some("sk-ant-1".to_string());
    keys.azure_foundry = Some("az".to_string());
    keys.bedrock = Some(BedrockCredentials {
        access_key_id: "AKIA".to_string(),
        secret_access_key: "s3cr3t".to_string(),
        region: "us-east-1".to_string(),
    });
    let cmd = SidecarCommand::StartTask {
        task_id: "t1".to_string(),
        payload: StartTaskPayload {
            task_id: "t1".to_string(),
            prompt: "hello".to_string(),
            session_id: Some("s1".to_string()),
            api_keys: Some(keys),
            working_directory: Some("/tmp".to_string()),
            model_id: Some("m".to_string()),
        },
    };
    assert_eq!(
        encode(&cmd).unwrap(),
        "{\"type\":\"start_task\",\"taskId\":\"t1\",\"payload\":{\"taskId\":\"t1\",\"prompt\":\"hello\",\
\"sessionId\":\"s1\",\"apiKeys\":{\"anthropic\":\"sk-ant-1\",\"azureFoundry\":\"az\",\
\"bedrock\":{\"accessKeyId\":\"AKIA\",\"secretAccessKey\":\"s3cr3t\",\"region\":\"us-east-1\"}},\
\"workingDirectory\":\"/tmp\",\"modelId\":\"m\"}}\n"
    );
}

#[test]
fn encode_all_single_secrets_in_the_order_of_the_bundle() {
    let keys = ApiKeys {
        anthropic: Some("a".to_string()),
        openai: Some("b".to_string()),
        google: Some("c".to_string()),
        xai: Some("d".to_string()),
        deepseek: Some("e".to_string()),
        openrouter: Some("f".to_string()),
        litellm: Some("g".to_string()),
        ollama: Some("h".to_string()),
        azure_foundry: Some("i".to_string()),
        bedrock: None,
    };
    assert_eq!(
        serde_json::to_string(&keys.to_value()).unwrap(),
        "{\"anthropic\":\"a\",\"openai\":\"b\",\"google\":\"c\",\"xai\":\"d\",\"deepseek\":\"e\",\
\"openrouter\":\"f\",\"litellm\":\"g\",\"ollama\":\"h\",\"azureFoundry\":\"i\"}"
    );
}

#[test]
fn empty_bundle_is_an_empty_object() {
    assert_eq!(serde_json::to_string(&ApiKeys::new().to_value()).unwrap(), "{}");
}

#[test]
fn encode_escapes_line_breaks_inside_texts() {
    let line = encode(&start_task("t\n1", "first\nsecond\r\nthird")).unwrap();
    assert!(line.ends_with('\n'));
    assert_eq!(line.matches('\n').count(), 1);
    assert!(line.contains("first\\nsecond\\r\\nthird"));
}

#[test]
fn command_type_names_every_variant() {
    assert_eq!(start_task("t", "p").command_type(), "start_task");
    assert_eq!(SidecarCommand::CancelTask { task_id: String::new() }.command_type(), "cancel_task");
    assert_eq!(
        SidecarCommand::InterruptTask { task_id: String::new() }.command_type(),
        "interrupt_task"
    );
    assert_eq!(
        SidecarCommand::SendResponse {
            task_id: String::new(),
            payload: SendResponsePayload { response: String::new() }
        }
        .command_type(),
        "send_response"
    );
    assert_eq!(SidecarCommand::Ping.command_type(), "ping");
    assert_eq!(SidecarCommand::CheckCli.command_type(), "check_cli");
}

#[test]
fn frame_record_appends_one_line_break() {
    assert_eq!(frame_record(Ok("{}".to_string())).unwrap(), "{}\n");
}

#[test]
fn frame_record_hands_a_failure_on() {
    match frame_record(Err("boom".to_string())) {
        Err(SidecarError::Serialize(reason)) => assert_eq!(reason, "boom"),
        other => panic!("unexpected: {:?}", other),
    }
}

#[test]
fn decode_reads_all_three_members() {
    let event =
        decode("{\"type\":\"task_complete\",\"taskId\":\"task_42\",\"payload\":{\"status\":\"ok\"}}")
            .unwrap();
    assert_eq!(event.event_type, "task_complete");
    assert_eq!(event.task_id, Some("task_42".to_string()));
    let expected: serde_json::Value = serde_json::from_str("{\"status\":\"ok\"}").unwrap();
    assert_eq!(event.payload, Some(expected));
}

#[test]
fn decode_accepts_an_event_with_only_a_type() {
    let event = decode("{\"type\":\"ready\"}").unwrap();
    assert_eq!(event.event_type, "ready");
    assert_eq!(event.task_id, None);
    assert_eq!(event.payload, None);
}

#[test]
fn decode_treats_null_members_as_absent() {
    let event = decode("{\"type\":\"pong\",\"taskId\":null,\"payload\":null}").unwrap();
    assert_eq!(event.task_id, None);
    assert_eq!(event.payload, None);
}

#[test]
fn decode_ignores_unknown_members_and_keeps_scalar_payloads() {
    let event = decode("{\"extra\":1,\"type\":\"log\",\"payload\":17}").unwrap();
    assert_eq!(event.event_type, "log");
    let expected: serde_json::Value = serde_json::from_str("17").unwrap();
    assert_eq!(event.payload, Some(expected));
}

#[test]
fn decode_rejects_what_is_not_json() {
    assert_eq!(decode("not json at all").unwrap_err(), DecodeError::InvalidJson);
    assert_eq!(decode("").unwrap_err(), DecodeError::InvalidJson);
    assert_eq!(decode("{\"type\":\"ready\"").unwrap_err(), DecodeError::InvalidJson);
}

#[test]
fn decode_rejects_a_missing_or_non_textual_type() {
    assert_eq!(decode("{\"taskId\":\"t1\"}").unwrap_err(), DecodeError::MissingType);
    assert_eq!(decode("{\"type\":5}").unwrap_err(), DecodeError::MissingType);
    assert_eq!(decode("[\"type\"]").unwrap_err(), DecodeError::MissingType);
    assert_eq!(decode("\"type\"").unwrap_err(), DecodeError::MissingType);
}

#[test]
fn decode_rejects_a_task_id_that_is_no_text() {
    assert_eq!(decode("{\"type\":\"ready\",\"taskId\":7}").unwrap_err(), DecodeError::InvalidTaskId);
}

#[test]
fn round_trip_keeps_tag_task_and_payload() {
    let commands = vec![
        start_task("t1", "hello \"world\"\n"),
        SidecarCommand::CancelTask { task_id: "t2".to_string() },
        SidecarCommand::InterruptTask { task_id: "t3".to_string() },
        SidecarCommand::SendResponse {
            task_id: "t4".to_string(),
            payload: SendResponsePayload { response: "no".to_string() },
        },
        SidecarCommand::Ping,
        SidecarCommand::CheckCli,
    ];
    for cmd in commands {
        let line = encode(&cmd).unwrap();
        let event = decode(line.trim_end_matches('\n')).unwrap();
        assert_eq!(event.event_type, cmd.command_type());
        let (task, payload) = match &cmd {
            SidecarCommand::StartTask { task_id, payload } => {
                (Some(task_id.clone()), Some(payload.to_value()))
            }
            SidecarCommand::SendResponse { task_id, payload } => {
                (Some(task_id.clone()), Some(payload.to_value()))
            }
            SidecarCommand::CancelTask { task_id } => (Some(task_id.clone()), None),
            SidecarCommand::InterruptTask { task_id } => (Some(task_id.clone()), None),
            SidecarCommand::Ping => (None, None),
            SidecarCommand::CheckCli => (None, None),
        };
        assert_eq!(event.task_id, task);
        assert_eq!(event.payload, payload);
    }
}

#[test]
fn structured_credentials_are_read_from_json_text() {
    let found = BedrockCredentials::from_json_text(
        "{\"accessKeyId\":\"AKIA\",\"secretAccessKey\":\"s\",\"region\":\"eu-west-1\",\"more\":1}",
    )
    .unwrap();
    assert_eq!(found.access_key_id, "AKIA");
    assert_eq!(found.secret_access_key, "s");
    assert_eq!(found.region, "eu-west-1");
}

#[test]
fn structured_credentials_need_all_three_texts() {
    assert!(BedrockCredentials::from_json_text("{\"accessKeyId\":\"A\",\"region\":\"r\"}").is_none());
    assert!(BedrockCredentials::from_json_text(
        "{\"accessKeyId\":\"A\",\"secretAccessKey\":1,\"region\":\"r\"}"
    )
    .is_none());
    assert!(BedrockCredentials::from_json_text("nonsense").is_none());
}

#[test]
fn str_eq_compares_texts() {
    assert!(str_eq("ready", "ready"));
    assert!(!str_eq("ready", "read"));
    assert!(str_eq("", ""));
}

#[test]
fn reading_credentials_says_why_there_are_none() {
    let found = BedrockCredentials::read_json_text(
        "{\"accessKeyId\":\"A\",\"secretAccessKey\":\"S\",\"region\":\"R\"}",
    )
    .unwrap();
    assert_eq!(found.region, "R");
    assert_eq!(
        BedrockCredentials::read_json_text("{}").unwrap_err(),
        "missing field `accessKeyId`"
    );
    assert_eq!(
        BedrockCredentials::read_json_text("{\"accessKeyId\":null,\"region\":\"R\"}").unwrap_err(),
        "invalid type for field `accessKeyId`, expected a string"
    );
    assert_eq!(
        BedrockCredentials::read_json_text("[1]").unwrap_err(),
        "missing field `accessKeyId`"
    );
    assert_eq!(
        BedrockCredentials::read_json_text("{").unwrap_err(),
        "EOF while parsing an object at line 1 column 1"
    );
}
