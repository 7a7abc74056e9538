use intecture_api::codec::{Frame, JsonLineCodec, JsonLineProto};
use intecture_api::error::Error;
use intecture_api::json::JsonValue;
use intecture_api::request::{CommandExec, PackageInstall, Request, ServiceAction, TelemetryLoad};
use intecture_api::response::{bool_from_json, err_envelope, ok_envelope, open_envelope};

fn text(v: &JsonValue) -> String {
    match v {
        JsonValue::Null => "null".to_string(),
        JsonValue::Bool(b) => b.to_string(),
        JsonValue::Int(i) => i.to_string(),
        JsonValue::Str(s) => serde_json::Value::String(s.clone()).to_string(),
        JsonValue::Array(items) => {
            let parts: Vec<String> = items.iter().map(text).collect();
            format!("[{}]", parts.join(","))
        }
        JsonValue::Object(fields) => {
            let parts: Vec<String> = fields
                .iter()
                .map(|(k, v)| format!("{}:{}", serde_json::Value::String(k.clone()), text(v)))
                .collect();
            format!("{{{}}}", parts.join(","))
        }
    }
}

fn round_trip(r: Request) -> Request {
    Request::from_json(&r.to_json()).ok().expect("request reads back")
}

#[test]
fn request_round_trip_command() {
    let cmd = vec!["/bin/sh".to_string(), "-c".to_string(), "printf a\\nb\\n".to_string()];
    match round_trip(Request::CommandExec(CommandExec { cmd: cmd.clone() })) {
        Request::CommandExec(c) => assert_eq!(c.cmd, cmd),
        _ => panic!("wrong variant"),
    }
}

#[test]
fn request_round_trip_service_action() {
    let r = Request::ServiceAction(ServiceAction { name: "nginx".to_string(), action: "start".to_string() });
    match round_trip(r) {
        Request::ServiceAction(a) => {
            assert_eq!(a.name, "nginx");
            assert_eq!(a.action, "start");
        }
        _ => panic!("wrong variant"),
    }
}

#[test]
fn request_round_trip_package_and_telemetry() {
    match round_trip(Request::PackageInstall(PackageInstall { name: "foo".to_string() })) {
        Request::PackageInstall(p) => assert_eq!(p.name, "foo"),
        _ => panic!("wrong variant"),
    }
    assert!(matches!(round_trip(Request::TelemetryLoad(TelemetryLoad)), Request::TelemetryLoad(_)));
}

#[test]
fn request_wire_text() {
    let cmd = vec!["/bin/sh".to_string(), "-c".to_string(), "printf a\\nb\\n".to_string()];
    let j = Request::CommandExec(CommandExec { cmd }).to_json();
    assert_eq!(text(&j), r#"{"CommandExec":{"cmd":["/bin/sh","-c","printf a\\nb\\n"]}}"#);
    let t = Request::TelemetryLoad(TelemetryLoad).to_json();
    assert_eq!(text(&t), r#"{"TelemetryLoad":null}"#);
}

#[test]
fn malformed_request_is_rejected() {
    let j = JsonValue::single("NoSuchVariant", JsonValue::Object(Vec::new()));
    match Request::from_json(&j) {
        Err(Error::Malformed(m)) => assert_eq!(m, "Could not deserialize Request: unknown variant `NoSuchVariant`"),
        _ => panic!("expected a malformed request"),
    }
    let missing = JsonValue::single("PackageInstall", JsonValue::Object(Vec::new()));
    assert!(matches!(Request::from_json(&missing),
        Err(Error::Malformed(m)) if m == "Could not deserialize Request: invalid payload for `PackageInstall`"));
    assert!(matches!(Request::from_json(&JsonValue::Null),
        Err(Error::Malformed(m)) if m == "Could not deserialize Request: expected an object of one member"));
    let wrong = JsonValue::single("TelemetryLoad", JsonValue::Bool(true));
    assert!(matches!(Request::from_json(&wrong),
        Err(Error::Malformed(m)) if m == "Could not deserialize Request: invalid payload for `TelemetryLoad`"));
}

#[test]
fn malformed_request_gets_error_envelope() {
    let e = err_envelope("Could not deserialize Request".to_string());
    assert_eq!(text(&e), r#"{"Err":"Could not deserialize Request"}"#);
    let mut codec = JsonLineCodec::new();
    let mut buf = Vec::new();
    codec.encode(Frame::Message { header: text(&e).into_bytes(), body: false }, &mut buf).ok().unwrap();
    assert_eq!(buf, b"{\"Err\":\"Could not deserialize Request\"}\x00\n".to_vec());
}

#[test]
fn streams_exactly_the_command_requests() {
    assert!(Request::CommandExec(CommandExec { cmd: Vec::new() }).streams());
    assert!(Request::PackageInstall(PackageInstall { name: "x".to_string() }).streams());
    assert!(!Request::TelemetryLoad(TelemetryLoad).streams());
}

#[test]
fn codec_round_trip_with_body() {
    let mut codec = JsonLineProto.bind_transport();
    let mut buf = Vec::new();
    let header = br#"{"Ok":null}"#.to_vec();
    codec.encode(Frame::Message { header: header.clone(), body: true }, &mut buf).ok().unwrap();
    for c in [b"a".to_vec(), b"b".to_vec()] {
        codec.encode(Frame::Body { chunk: Some(c) }, &mut buf).ok().unwrap();
    }
    codec.encode(Frame::Body { chunk: None }, &mut buf).ok().unwrap();
    assert_eq!(buf, b"{\"Ok\":null}\x01\na\nb\n\n".to_vec());

    match codec.decode(&mut buf) {
        Ok(Some(Frame::Message { header: h, body })) => {
            assert_eq!(h, header);
            assert!(body);
        }
        _ => panic!("expected the header"),
    }
    for want in [b"a".to_vec(), b"b".to_vec()] {
        match codec.decode(&mut buf) {
            Ok(Some(Frame::Body { chunk: Some(c) })) => assert_eq!(c, want),
            _ => panic!("expected a chunk"),
        }
    }
    assert!(matches!(codec.decode(&mut buf), Ok(Some(Frame::Body { chunk: None }))));
    assert!(codec.decoding_head);
    assert!(buf.is_empty());
    assert!(matches!(codec.decode(&mut buf), Ok(None)));
}

#[test]
fn codec_header_without_body() {
    let mut codec = JsonLineCodec::new();
    let mut buf = b"true\x00\nnext".to_vec();
    match codec.decode(&mut buf) {
        Ok(Some(Frame::Message { header, body })) => {
            assert_eq!(header, b"true".to_vec());
            assert!(!body);
        }
        _ => panic!("expected a header"),
    }
    assert!(codec.decoding_head);
    assert_eq!(buf, b"next".to_vec());
    assert!(matches!(codec.decode(&mut buf), Ok(None)));
    assert_eq!(buf, b"next".to_vec());
}

#[test]
fn codec_rejects_bad_headers() {
    let mut codec = JsonLineCodec::new();
    let mut buf = b"{nope\x00\n".to_vec();
    assert!(matches!(codec.decode(&mut buf), Err(Error::Malformed(_))));
    assert!(buf.is_empty());
    let mut empty = b"\n".to_vec();
    assert!(matches!(codec.decode(&mut empty), Err(Error::Malformed(_))));
}

#[test]
fn codec_error_frame_is_not_written() {
    let mut codec = JsonLineCodec::new();
    let mut buf = Vec::new();
    let r = codec.encode(Frame::Error { message: "broken".to_string() }, &mut buf);
    assert!(matches!(r, Err(Error::Msg(m)) if m == "broken"));
    assert!(buf.is_empty());
}

#[test]
fn envelope_opens() {
    match open_envelope(ok_envelope(JsonValue::Bool(true))) {
        Ok(v) => assert!(bool_from_json(&v).ok().unwrap()),
        Err(_) => panic!("expected a value"),
    }
    match open_envelope(err_envelope("boom".to_string())) {
        Err(Error::Remote(m)) => assert_eq!(m, "boom"),
        _ => panic!("expected a remote error"),
    }
    assert!(matches!(open_envelope(JsonValue::Null), Err(Error::Msg(_))));
    assert!(matches!(bool_from_json(&JsonValue::Null), Err(Error::Msg(_))));
}

#[test]
fn request_errors_carry_breadcrumbs() {
    match Error::Remote("boom".to_string()).in_request("Command", "exec") {
        Error::Request { endpoint, func, cause } => {
            assert_eq!(endpoint, "Command");
            assert_eq!(func, "exec");
            assert!(matches!(*cause, Error::Remote(m) if m == "boom"));
        }
        _ => panic!("expected a request error"),
    }
}
