use bevy_connection::client::InitiatorAddress;
use bevy_connection::communication::{read_request, CommunicationPlugin, DispatchError, DEFAULT_PORT};
use bevy_connection::envelope::{Envelope, Message, Params};
use bevy_connection::handshake::{NotifyParams, ParamField, Receiver};
use bevy_connection::manager::{peer_url, reply_outcome, Reply, summarize, ConnectionManager, SendOutcome};
use bevy_connection::registry::ConnectionRegistry;
use bevy_connection::text::decimal_string;

#[test]
fn scenario_notify_with_good_token() {
    let address = InitiatorAddress { port: 34567, token: "abc123".to_string() };
    let call = address.notify_request(41000);
    assert_eq!(call.port, 34567);
    assert_eq!(call.url, "http://127.0.0.1:34567");
    assert_eq!(
        call.body,
        r#"{"jsonrpc":"2.0","method":"connection/notify","params":{"token":"abc123","port":41000}}"#
    );
    let request: serde_json::Value = serde_json::from_str(&call.body).unwrap();
    let mut receiver = Receiver::new("abc123".to_string());
    assert_eq!(request["method"], "connection/notify");
    assert_eq!(receiver.on_notify_json(request.get("params")), Ok(()));
    assert_eq!(receiver.registry().all(), vec![41000u16]);
}

#[test]
fn scenario_notify_with_bad_token() {
    let address = InitiatorAddress { port: 34567, token: "wrong".to_string() };
    let call = address.notify_request(41000);
    let request: serde_json::Value = serde_json::from_str(&call.body).unwrap();
    let mut receiver = Receiver::new("abc123".to_string());
    assert!(receiver.on_notify_json(request.get("params")).is_err());
    assert_eq!(receiver.registry().len(), 0);
    assert!(receiver.events().is_empty());
}

#[test]
fn empty_registry_sends_nothing() {
    let manager = ConnectionManager::new(1, "t".to_string());
    let calls = manager.message(&ConnectionRegistry::new(), &Message::RequestComponents(None));
    assert!(calls.is_empty());
    let report = summarize(&calls, &vec![]);
    assert!(report.delivered.is_empty() && report.failed.is_empty());
}

#[test]
fn one_call_per_connection_and_failures_stay_apart() {
    let mut registry = ConnectionRegistry::new();
    for port in [4000u16, 4001, 4002] {
        assert!(registry.register(port));
    }
    assert!(!registry.register(4001));
    let manager = ConnectionManager::new(1, "t".to_string());
    let calls = manager.message(&registry, &Message::RequestComponents(Some(7)));
    assert_eq!(calls.len(), 3);
    assert_eq!(calls[1].url, "http://127.0.0.1:4001");
    for call in &calls {
        assert_eq!(call.body, r#"{"jsonrpc":"2.0","method":"bevy/list","params":{"entity":7}}"#);
    }
    let outcomes =
        vec![SendOutcome::Delivered, SendOutcome::TransportFailed, SendOutcome::Delivered];
    let single = manager.message_to(&registry, 4002, &Message::RequestComponents(None)).unwrap();
    assert_eq!(single.url, "http://127.0.0.1:4002");
    assert_eq!(single.body, r#"{"jsonrpc":"2.0","method":"bevy/list"}"#);
    assert!(manager.message_to(&registry, 5000, &Message::RequestComponents(None)).is_none());
    let report = summarize(&calls, &outcomes);
    assert_eq!(report.delivered, vec![4000u16, 4002]);
    assert_eq!(report.failed, vec![4001u16]);
}

#[test]
fn envelope_round_trips_through_json() {
    let cases = vec![
        Envelope { method: "bevy/list".to_string(), id: None, params: None },
        Envelope { method: "a \"quoted\"\n name".to_string(), id: Some(42), params: Some(Params::Entity(u64::MAX)) },
        Envelope {
            method: "connection/notify".to_string(),
            id: Some(0),
            params: Some(Params::Notify { token: "t\\ok".to_string(), port: 65535 }),
        },
    ];
    for envelope in cases {
        let value: serde_json::Value = serde_json::from_str(&envelope.to_json()).unwrap();
        assert_eq!(value["jsonrpc"], "2.0");
        assert_eq!(value["method"].as_str(), Some(envelope.method.as_str()));
        assert_eq!(value.get("id").and_then(|v| v.as_u64()), envelope.id);
        match &envelope.params {
            None => assert!(value.get("params").is_none()),
            Some(Params::Entity(e)) => assert_eq!(value["params"]["entity"].as_u64(), Some(*e)),
            Some(Params::Notify { token, port }) => {
                let read = NotifyParams::from_json(&value["params"]);
                let mut receiver = Receiver::new(token.clone());
                assert!(matches!(&read.token, ParamField::Present(t) if t == token));
                assert!(receiver.on_notify(Some(read)).is_ok());
                assert_eq!(receiver.registry().all(), vec![*port]);
            }
        }
    }
}

#[test]
fn message_method_and_params() {
    let m = Message::RequestComponents(None);
    assert_eq!(m.get_method(), "bevy/list");
    assert!(m.get_params().is_none());
    let e = Message::RequestComponents(Some(3)).to_envelope();
    assert_eq!(e.to_json(), r#"{"jsonrpc":"2.0","method":"bevy/list","params":{"entity":3}}"#);
}

#[test]
fn decimal_and_url() {
    assert_eq!(decimal_string(0), "0");
    assert_eq!(decimal_string(1524), "1524");
    assert_eq!(decimal_string(u64::MAX), u64::MAX.to_string());
    assert_eq!(peer_url(8080), "http://127.0.0.1:8080");
}

#[test]
fn method_registry_dispatch() {
    let plugin = CommunicationPlugin::default();
    assert_eq!(plugin.port(), DEFAULT_PORT);
    assert_eq!(plugin.dispatch("connection/notify"), Err(DispatchError::MethodNotFound));
    assert_eq!(DispatchError::MethodNotFound.code(), -32601);
    let plugin = CommunicationPlugin::with_port(9)
        .with_method("connection/notify".to_string())
        .with_method("bevy/list".to_string())
        .with_method("connection/notify".to_string());
    assert_eq!(plugin.port(), 9);
    assert_eq!(plugin.dispatch("connection/notify"), Ok(0));
    assert_eq!(plugin.dispatch("bevy/list"), Ok(1));
    assert_eq!(plugin.find_method("bevy"), None);
}

#[test]
fn registry_remove_keeps_others() {
    let mut registry = ConnectionRegistry::new();
    registry.register(1);
    registry.register(2);
    registry.register(3);
    assert!(registry.remove(2));
    assert!(!registry.remove(2));
    assert_eq!(registry.all(), vec![1u16, 3]);
    assert!(registry.contains(3) && !registry.contains(2));
    assert_eq!(registry.position(3), Some(1));
    assert!(!registry.is_empty());
}

#[test]
fn replies_are_read_by_shape() {
    let list = Message::RequestComponents(None);
    let read = |text: &str| serde_json::from_str::<serde_json::Value>(text).unwrap();
    let ok = read(r#"{"jsonrpc":"2.0","id":null,"result":["a::B","c"]}"#);
    match reply_outcome(&list, Some(&ok)) {
        Reply::Listed(names) => assert_eq!(names, vec!["a::B".to_string(), "c".to_string()]),
        Reply::MalformedResponse => panic!("a list of names is well formed"),
    }
    assert_eq!(reply_outcome(&list, Some(&ok)).outcome(), SendOutcome::Delivered);
    let empty = read(r#"{"result":[]}"#);
    assert!(matches!(reply_outcome(&list, Some(&empty)), Reply::Listed(names) if names.is_empty()));
    for bad in [
        r#"{"jsonrpc":"2.0","error":{"code":-32601,"message":"x"}}"#,
        r#"{"result":5}"#,
        r#"{"result":null}"#,
        r#"{"result":["a",1]}"#,
        "[1,2]",
    ] {
        let reply = reply_outcome(&list, Some(&read(bad)));
        assert!(matches!(reply, Reply::MalformedResponse), "{bad}");
        assert_eq!(reply.outcome(), SendOutcome::MalformedResponse);
    }
    assert!(matches!(reply_outcome(&list, None), Reply::MalformedResponse));
}

#[test]
fn requests_are_read() {
    let read = |text: &str| serde_json::from_str::<serde_json::Value>(text).unwrap();
    let call = InitiatorAddress { port: 1, token: "abc".to_string() }.notify_request(41000);
    let body = read(&call.body);
    let request = read_request(&body).unwrap();
    assert_eq!(request.method, "connection/notify");
    assert!(request.id.is_none());
    assert_eq!(request.params.unwrap()["port"], 41000);
    let with_id = read(r#"{"jsonrpc":"2.0","method":"m","id":7}"#);
    let request = read_request(&with_id).unwrap();
    assert_eq!(request.id.and_then(|v| v.as_u64()), Some(7));
    assert!(request.params.is_none());
    for bad in [r#"{"jsonrpc":"1.0","method":"m"}"#, r#"{"method":"m"}"#, r#"{"jsonrpc":"2.0","method":3}"#, "5"] {
        assert!(read_request(&read(bad)).is_none(), "{bad}");
    }
}

#[test]
fn json_fields_of_every_kind() {
    let read = |text: &str| NotifyParams::from_json(&serde_json::from_str(text).unwrap());
    let p = read(r#"{"token":"k","port":7,"extra":true}"#);
    assert!(matches!(&p.token, ParamField::Present(t) if t == "k"));
    assert!(matches!(p.port, ParamField::Present(7)));
    let p = read(r#"{"token":null,"port":1.5}"#);
    assert!(matches!(p.token, ParamField::Malformed) && matches!(p.port, ParamField::Malformed));
    let p = read(r#"{}"#);
    assert!(matches!(p.token, ParamField::Absent) && matches!(p.port, ParamField::Absent));
    let p = read(r#""text""#);
    assert!(matches!(p.token, ParamField::Malformed) && matches!(p.port, ParamField::Malformed));
}

#[test]
fn method_names_are_escaped() {
    let envelope = Envelope { method: "a\"\\\u{8}\t\n\u{c}\r\u{1}\u{1f}/\u{7f}é".to_string(), id: None, params: None };
    assert_eq!(
        envelope.to_json(),
        "{\"jsonrpc\":\"2.0\",\"method\":\"a\\\"\\\\\\b\\t\\n\\f\\r\\u0001\\u001f/\u{7f}é\"}"
    );
}
