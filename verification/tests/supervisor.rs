use cowork_bridge::commands::{
    cancel_task, interrupt_task, line_if_running, respond_to_permission, PermissionResponse,
};
use cowork_bridge::error::SidecarError;
use cowork_bridge::protocol::{SidecarCommand, StartTaskPayload};
use cowork_bridge::reader::{Notice, WorkerOutput};
use cowork_bridge::supervisor::SidecarManager;

#[derive(Debug, PartialEq)]
struct Handle(u32);

fn start_task() -> SidecarCommand {
    SidecarCommand::StartTask {
        task_id: "t1".to_string(),
        payload: StartTaskPayload {
            task_id: "t1".to_string(),
            prompt: "hello".to_string(),
            session_id: None,
            api_keys: None,
            working_directory: None,
            model_id: None,
        },
    }
}

#[test]
fn not_running_before_any_spawn() {
    let manager: SidecarManager<Handle> = SidecarManager::new();
    assert!(!manager.is_running());
    assert!(manager.needs_spawn());
    assert!(manager.worker().is_none());
}

#[test]
fn running_after_successful_spawn_and_not_after_stop() {
    let mut manager = SidecarManager::new();
    assert_eq!(manager.spawn(Ok(Handle(1))).unwrap(), None);
    assert!(manager.is_running());
    assert!(!manager.needs_spawn());
    assert_eq!(manager.worker(), Some(&Handle(1)));
    assert_eq!(manager.stop(), Some(Handle(1)));
    assert!(!manager.is_running());
    assert!(manager.worker().is_none());
}

#[test]
fn failed_spawn_reports_and_leaves_the_supervisor_idle() {
    let mut manager: SidecarManager<Handle> = SidecarManager::new();
    match manager.spawn(Err("no such file".to_string())) {
        Err(SidecarError::Spawn(reason)) => assert_eq!(reason, "no such file"),
        other => panic!("unexpected: {:?}", other),
    }
    assert!(!manager.is_running());
    assert!(manager.needs_spawn());
}

#[test]
fn second_spawn_succeeds_without_a_second_handle() {
    let mut manager = SidecarManager::new();
    assert_eq!(manager.spawn(Ok(Handle(1))).unwrap(), None);
    assert_eq!(manager.spawn(Ok(Handle(2))).unwrap(), Some(Handle(2)));
    assert_eq!(manager.worker(), Some(&Handle(1)));
    assert_eq!(manager.spawn(Err("ignored".to_string())).unwrap(), None);
    assert_eq!(manager.worker(), Some(&Handle(1)));
    assert!(manager.is_running());
}

#[test]
fn send_command_before_spawn_is_refused() {
    let manager: SidecarManager<Handle> = SidecarManager::new();
    assert!(matches!(manager.send_command(&start_task()), Err(SidecarError::NotRunning)));
    assert!(matches!(manager.send_command(&SidecarCommand::Ping), Err(SidecarError::NotRunning)));
}

#[test]
fn send_command_after_spawn_gives_the_line_to_write() {
    let mut manager = SidecarManager::new();
    manager.spawn(Ok(Handle(1))).unwrap();
    assert_eq!(
        manager.send_command(&start_task()).unwrap(),
        "{\"type\":\"start_task\",\"taskId\":\"t1\",\"payload\":{\"taskId\":\"t1\",\"prompt\":\"hello\"}}\n"
    );
}

#[test]
fn send_command_after_stop_is_refused_again() {
    let mut manager = SidecarManager::new();
    manager.spawn(Ok(Handle(1))).unwrap();
    manager.stop();
    assert!(matches!(manager.send_command(&SidecarCommand::Ping), Err(SidecarError::NotRunning)));
}

#[test]
fn stop_is_idempotent() {
    let mut manager: SidecarManager<Handle> = SidecarManager::new();
    assert_eq!(manager.stop(), None);
    manager.spawn(Ok(Handle(5))).unwrap();
    assert_eq!(manager.stop(), Some(Handle(5)));
    assert_eq!(manager.stop(), None);
    assert!(!manager.is_running());
}

#[test]
fn respawn_after_stop_attaches_the_new_handle() {
    let mut manager = SidecarManager::new();
    manager.spawn(Ok(Handle(1))).unwrap();
    manager.stop();
    assert_eq!(manager.spawn(Ok(Handle(2))).unwrap(), None);
    assert_eq!(manager.worker(), Some(&Handle(2)));
}

#[test]
fn worker_killed_mid_task_is_noticed_without_stop() {
    let mut manager = SidecarManager::new();
    manager.spawn(Ok(Handle(1))).unwrap();
    manager.send_command(&start_task()).unwrap();
    let out = manager.handle_output(WorkerOutput::Terminated { code: None });
    assert_eq!(out.len(), 1);
    match &out[0] {
        Notice::Emit(emission) => {
            assert_eq!(emission.topic, "sidecar:terminated");
            assert_eq!(emission.payload, serde_json::Value::Null);
        }
        other => panic!("unexpected: {:?}", other),
    }
    assert!(!manager.is_running());
    assert!(manager.needs_spawn());
    assert!(matches!(manager.send_command(&SidecarCommand::Ping), Err(SidecarError::NotRunning)));
}

#[test]
fn exit_with_code_is_reported() {
    let mut manager = SidecarManager::new();
    manager.spawn(Ok(Handle(1))).unwrap();
    let out = manager.handle_output(WorkerOutput::Terminated { code: Some(1) });
    match &out[0] {
        Notice::Emit(emission) => {
            assert_eq!(emission.payload, serde_json::from_str::<serde_json::Value>("1").unwrap())
        }
        other => panic!("unexpected: {:?}", other),
    }
    assert!(!manager.is_running());
}

#[test]
fn ordinary_output_leaves_the_worker_attached() {
    let mut manager = SidecarManager::new();
    manager.spawn(Ok(Handle(1))).unwrap();
    let out = manager.handle_output(WorkerOutput::Stdout(
        "{\"type\":\"task_started\",\"taskId\":\"t1\"}\n\
{\"type\":\"task_complete\",\"taskId\":\"t1\",\"payload\":{\"status\":\"ok\"}}\n"
            .to_string(),
    ));
    assert_eq!(out.len(), 2);
    assert!(manager.is_running());
    manager.handle_output(WorkerOutput::Stderr("warning".to_string()));
    manager.handle_output(WorkerOutput::Error("oops".to_string()));
    assert!(manager.is_running());
    assert_eq!(manager.worker(), Some(&Handle(1)));
}

#[test]
fn error_messages_read_as_before() {
    assert_eq!(SidecarError::NotRunning.message(), "Sidecar not running");
    assert_eq!(SidecarError::Spawn("x".to_string()).message(), "Failed to spawn sidecar: x");
    assert_eq!(
        SidecarError::Serialize("x".to_string()).message(),
        "Failed to serialize command: x"
    );
    assert_eq!(
        SidecarError::Write("x".to_string()).message(),
        "Failed to write to sidecar stdin: x"
    );
    assert_eq!(SidecarError::Kill("x".to_string()).message(), "Failed to kill sidecar: x");
}

#[test]
fn cancel_and_interrupt_are_sent_only_while_a_worker_runs() {
    let mut manager: SidecarManager<Handle> = SidecarManager::new();
    assert_eq!(cancel_task(&manager, "t1".to_string()), None);
    assert_eq!(interrupt_task(&manager, "t1".to_string()), None);
    manager.spawn(Ok(Handle(1))).unwrap();
    assert_eq!(
        cancel_task(&manager, "t1".to_string()),
        Some("{\"type\":\"cancel_task\",\"taskId\":\"t1\"}\n".to_string())
    );
    assert_eq!(
        interrupt_task(&manager, "t1".to_string()),
        Some("{\"type\":\"interrupt_task\",\"taskId\":\"t1\"}\n".to_string())
    );
}

#[test]
fn permission_answer_is_sent_only_while_a_worker_runs() {
    let mut manager: SidecarManager<Handle> = SidecarManager::new();
    let answer = || PermissionResponse { task_id: "t1".to_string(), allowed: true };
    assert_eq!(respond_to_permission(&manager, answer()), None);
    manager.spawn(Ok(Handle(1))).unwrap();
    assert_eq!(
        respond_to_permission(&manager, answer()),
        Some(
            "{\"type\":\"send_response\",\"taskId\":\"t1\",\"payload\":{\"response\":\"yes\"}}\n"
                .to_string()
        )
    );
    assert_eq!(
        line_if_running(&manager, &SidecarCommand::Ping),
        Some("{\"type\":\"ping\"}\n".to_string())
    );
}
