use rbx_studio_mcp::state::{proxy_reply, AppState};
use rbx_studio_mcp::tools::{
    tool_reply, GetStudioMode, RunCode, RunCommandResponse, ToolArgumentValues, ToolArguments,
};
use tokio::sync::mpsc::unbounded_channel;

fn run_code(command: &str) -> ToolArgumentValues {
    ToolArgumentValues::RunCode(RunCode { command: command.to_string() })
}

fn command_text(task: &ToolArguments) -> String {
    match &task.args {
        ToolArgumentValues::RunCode(r) => r.command.clone(),
        other => format!("{other:?}"),
    }
}

#[test]
fn new_command_carries_a_random_uuid() {
    let (command, id) = ToolArguments::new(run_code("print(1)"));
    assert_eq!(command.id, Some(id));
    let uuid = uuid::Uuid::from_u128(id);
    assert_eq!(uuid.get_version(), Some(uuid::Version::Random));
    assert_eq!(uuid.get_variant(), uuid::Variant::RFC4122);
    assert_eq!((id >> 76) & 0xf, 4);
    assert_eq!((id >> 62) & 0x3, 2);
}

#[test]
fn with_id_replaces_the_id() {
    let tagged = ToolArguments { args: run_code("x"), id: Some(7) };
    let (command, id) = tagged.with_id();
    assert_eq!(command.id, Some(id));
    assert_ne!(id, 7);
    assert_eq!(command_text(&command), "x");
}

#[test]
fn empty_state_has_no_task() {
    let mut state = AppState::new();
    assert!(state.next_task().is_none());
    assert!(state.release(1).is_none());
}

#[test]
fn tasks_leave_in_arrival_order() {
    let mut state = AppState::new();
    let (tx1, _rx1) = unbounded_channel();
    let (tx2, _rx2) = unbounded_channel();
    state.submit(ToolArguments { args: run_code("first"), id: Some(1) }, 1, tx1);
    state.submit(ToolArguments { args: run_code("second"), id: Some(2) }, 2, tx2);
    assert_eq!(command_text(&state.next_task().unwrap()), "first");
    assert_eq!(command_text(&state.next_task().unwrap()), "second");
    assert!(state.next_task().is_none());
}

#[test]
fn reply_reaches_the_waiting_caller_once() {
    let mut state = AppState::new();
    let (tx, mut rx) = unbounded_channel();
    state.submit(ToolArguments { args: run_code("print(2)"), id: Some(42) }, 42, tx);
    let routed = state.deliver_response(RunCommandResponse {
        success: true,
        response: "2".to_string(),
        id: 42,
    });
    let (reply, result) = routed.expect("the request is waiting");
    reply.send(result).unwrap();
    assert_eq!(rx.try_recv().unwrap(), Ok("2".to_string()));
    let again = state.deliver_response(RunCommandResponse {
        success: true,
        response: "2".to_string(),
        id: 42,
    });
    assert_eq!(again.err(), Some("Unknown ID".to_string()));
}

#[test]
fn failed_reply_becomes_an_error() {
    let mut state = AppState::new();
    let (tx, _rx) = unbounded_channel();
    state.submit(ToolArguments { args: run_code("error()"), id: Some(5) }, 5, tx);
    let (_, result) = state
        .deliver_response(RunCommandResponse { success: false, response: "boom".to_string(), id: 5 })
        .unwrap();
    assert_eq!(result, Err("boom".to_string()));
    assert!(state.release(5).is_none());
}

#[test]
fn unknown_reply_is_refused() {
    let mut state = AppState::new();
    let routed = state.deliver_response(RunCommandResponse {
        success: true,
        response: String::new(),
        id: 9,
    });
    assert_eq!(routed.err(), Some("Unknown ID".to_string()));
}

#[test]
fn proxied_command_needs_an_id() {
    let mut state = AppState::new();
    let (tx, _rx) = unbounded_channel();
    let refused = state.submit_proxied(
        ToolArguments { args: ToolArgumentValues::GetStudioMode(GetStudioMode {}), id: None },
        tx,
    );
    assert_eq!(refused, Err("Got proxy command with no id".to_string()));
    assert!(state.next_task().is_none());
    let (tx, _rx) = unbounded_channel();
    let accepted = state.submit_proxied(ToolArguments { args: run_code("y"), id: Some(3) }, tx);
    assert_eq!(accepted, Ok(3));
    assert_eq!(command_text(&state.next_task().unwrap()), "y");
    assert!(state.release(3).is_some());
}

#[test]
fn proxy_reply_reports_success_and_failure() {
    let ok = proxy_reply(4, Ok("out".to_string()));
    assert!(ok.success);
    assert_eq!(ok.response, "out");
    assert_eq!(ok.id, 4);
    let err = proxy_reply(4, Err("bad".to_string()));
    assert!(!err.success);
    assert_eq!(err.response, "bad");
}

#[test]
fn tool_reply_marks_errors() {
    let ok = tool_reply(Ok("done".to_string()));
    assert!(!ok.is_error);
    assert_eq!(ok.text, "done");
    let err = tool_reply(Err("failed".to_string()));
    assert!(err.is_error);
    assert_eq!(err.text, "failed");
}

#[test]
fn release_undoes_submit() {
    let mut state = AppState::new();
    let (tx, _rx) = unbounded_channel();
    state.submit(ToolArguments { args: run_code("z"), id: Some(8) }, 8, tx);
    assert!(state.release(8).is_some());
    assert!(state.release(8).is_none());
    assert_eq!(command_text(&state.next_task().unwrap()), "z");
}

#[test]
fn trigger_wakes_the_waiter() {
    let state = AppState::new();
    let mut waiter = state.waiter().clone();
    assert!(!waiter.has_changed().unwrap());
    state.trigger().send(()).unwrap();
    assert!(waiter.has_changed().unwrap());
}
