use intecture_api::codec::Frame;
use intecture_api::command::{
    collect_output, command_result, factory, status_chunk, status_text, Child, Command, ExitStatus, Generic,
    SlotState, StatusSlot, command_body, output_frame,
};
use intecture_api::error::Error;
use intecture_api::json::JsonValue;

#[test]
fn echo_command_line_and_result() {
    let c = Command::new("echo hello", None);
    assert_eq!(c.args(), &vec!["/bin/sh".to_string(), "-c".to_string(), "echo hello".to_string()]);
    let status = ExitStatus::from_code(Some(0));
    assert_eq!(status, ExitStatus { success: true, code: Some(0) });
    let out = collect_output(&vec!["hello".to_string()]);
    assert_eq!(command_result(out, status).ok(), Some("hello".to_string()));
}

#[test]
fn custom_shell() {
    let c = Command::new("ls", Some(&["/bin/bash", "-c"]));
    assert_eq!(c.args(), &vec!["/bin/bash".to_string(), "-c".to_string(), "ls".to_string()]);
    match c.exec() {
        Request::CommandExec(e) => assert_eq!(e.cmd, *c.args()),
        _ => panic!("wrong request"),
    }
}

use intecture_api::request::Request;

#[test]
fn failing_command_carries_output() {
    let status = ExitStatus::from_code(Some(3));
    assert_eq!(status, ExitStatus { success: false, code: Some(3) });
    match command_result(collect_output(&vec!["oops".to_string()]), status) {
        Err(Error::Command(o)) => assert_eq!(o, "oops"),
        _ => panic!("expected a command error"),
    }
    assert!(!ExitStatus::from_code(None).success);
}

#[test]
fn output_lines_join_in_order() {
    let lines = vec!["a".to_string(), "b".to_string(), "".to_string(), "c".to_string()];
    assert_eq!(collect_output(&lines), "abc");
}

#[test]
fn exit_status_json_round_trip() {
    for s in [ExitStatus { success: true, code: Some(0) }, ExitStatus { success: false, code: None }] {
        assert_eq!(ExitStatus::from_json(&s.to_json()), Some(s));
    }
    let big = JsonValue::single("success", JsonValue::Bool(false));
    assert_eq!(ExitStatus::from_json(&big), Some(ExitStatus { success: false, code: None }));
    assert_eq!(ExitStatus::from_json(&JsonValue::Null), None);
}

#[test]
fn command_body_frames() {
    let lines = vec![b"a".to_vec(), Vec::new(), b"b".to_vec()];
    let status = br#"{"success":true,"code":0}"#;
    let frames = command_body(&lines, status);
    let mut bytes = Vec::new();
    let mut codec = intecture_api::codec::JsonLineCodec::new();
    for f in frames {
        codec.encode(f, &mut bytes).ok().unwrap();
    }
    assert_eq!(bytes, b"a\nb\nExitStatus:{\"success\":true,\"code\":0}\n\n".to_vec());
}

#[test]
fn status_chunk_is_recognised() {
    let chunk = status_chunk(b"{}");
    assert_eq!(chunk, b"ExitStatus:{}".to_vec());
    assert_eq!(status_text(&chunk), Some(b"{}".to_vec()));
    assert_eq!(status_text(b"Exit"), None);
    assert_eq!(status_text(b"hello world"), None);
}

#[test]
fn drained_stream_resolves_status() {
    let mut slot = StatusSlot::new();
    assert!(slot.receive(None));
    assert!(slot.outcome().is_none());
    let s = ExitStatus { success: true, code: Some(0) };
    assert!(!slot.receive(Some(s)));
    slot.close();
    assert!(matches!(slot.outcome(), Some(Ok(x)) if x == s));
    assert!(slot.receive(Some(ExitStatus { success: false, code: Some(1) })));
    assert!(slot.state == SlotState::Resolved(s));
}

#[test]
fn dropped_stream_fails_status() {
    let mut slot = StatusSlot::new();
    assert!(slot.receive(None));
    slot.close();
    assert!(matches!(slot.outcome(), Some(Err(Error::StreamDropped))));
}

#[test]
fn child_stream_taken_once() {
    let mut child = Child::new();
    child.slot.receive(Some(ExitStatus { success: true, code: Some(0) }));
    let lines = vec!["hi".to_string()];
    assert!(matches!(child.result(&lines), Some(Ok(o)) if o == "hi"));
    assert!(child.take_stream());
    assert!(!child.take_stream());
    assert!(child.result(&lines).is_none());
    let mut pending = Child::new();
    pending.slot.close();
    assert!(matches!(pending.result(&lines), Some(Err(Error::StreamDropped))));
}

#[test]
fn generic_splits_program() {
    assert!(Generic::available());
    assert!(factory().is_ok());
    match Generic::split_program(&vec!["ls".to_string(), "-l".to_string()]) {
        Ok((p, a)) => {
            assert_eq!(p, "ls");
            assert_eq!(a, vec!["-l".to_string()]);
        }
        Err(_) => panic!("expected a program"),
    }
    assert!(matches!(Generic::split_program(&Vec::new()), Err(Error::Msg(m)) if m == "Invalid shell provided"));
}

#[test]
fn output_frames_skip_empty_lines() {
    assert!(output_frame(b"").is_none());
    match output_frame(b"line") {
        Some(Frame::Body { chunk: Some(c) }) => assert_eq!(c, b"line".to_vec()),
        _ => panic!("expected a chunk"),
    }
}
