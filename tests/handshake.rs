use bevy_connection::client::client_config;
use bevy_connection::event::ConnectionEvent;
use bevy_connection::handshake::{NotifyError, NotifyParams, ParamField, Receiver};
use bevy_connection::manager::ConnectionManager;
use bevy_connection::text::parse_port;

fn params(token: &str, port: u64) -> Option<NotifyParams> {
    Some(NotifyParams {
        token: ParamField::Present(token.to_string()),
        port: ParamField::Present(port),
    })
}

#[test]
fn matching_token_registers_connection() {
    let mut receiver = Receiver::new("abc123".to_string());
    assert_eq!(receiver.on_notify(params("abc123", 41000)), Ok(()));
    assert_eq!(receiver.registry().all(), vec![41000u16]);
    assert_eq!(receiver.events().clone(), vec![ConnectionEvent::Connected(41000)]);
}

#[test]
fn wrong_token_is_refused() {
    let mut receiver = Receiver::new("abc123".to_string());
    let r = receiver.on_notify(params("wrong", 41000));
    assert_eq!(r, Err(NotifyError::RequiredParametersNotPresent));
    assert_eq!(receiver.registry().len(), 0);
    assert!(receiver.events().is_empty());
}

#[test]
fn missing_token_or_port_is_refused() {
    let mut receiver = Receiver::new("abc123".to_string());
    let no_token = Some(NotifyParams { token: ParamField::Absent, port: ParamField::Present(5) });
    let no_port = Some(NotifyParams {
        token: ParamField::Present("abc123".to_string()),
        port: ParamField::Absent,
    });
    for p in [None, no_token, no_port] {
        assert_eq!(receiver.on_notify(p), Err(NotifyError::RequiredParametersNotPresent));
    }
    assert_eq!(receiver.registry().len(), 0);
    assert!(receiver.events().is_empty());
    assert_eq!(
        NotifyError::RequiredParametersNotPresent.message(),
        "Required parameters were not present."
    );
}

#[test]
fn malformed_fields_are_invalid() {
    let mut receiver = Receiver::new("abc123".to_string());
    let bad_token = Some(NotifyParams { token: ParamField::Malformed, port: ParamField::Present(5) });
    assert_eq!(receiver.on_notify(bad_token), Err(NotifyError::InvalidParameters));
    assert_eq!(receiver.on_notify(params("abc123", 70000)), Err(NotifyError::InvalidParameters));
    assert_eq!(receiver.registry().len(), 0);
    assert_eq!(NotifyError::InvalidParameters.message(), "Invalid parameters");
}

#[test]
fn same_port_twice_keeps_one_connection() {
    let mut receiver = Receiver::new("t".to_string());
    assert_eq!(receiver.on_notify(params("t", 9000)), Ok(()));
    assert_eq!(receiver.on_notify(params("t", 9000)), Ok(()));
    assert_eq!(receiver.on_notify(params("t", 9001)), Ok(()));
    assert_eq!(receiver.registry().all(), vec![9000u16, 9001]);
    assert_eq!(receiver.events().len(), 3);
}

#[test]
fn disconnect_removes_and_reports() {
    let mut receiver = Receiver::new("t".to_string());
    receiver.on_notify(params("t", 1)).unwrap();
    receiver.on_notify(params("t", 2)).unwrap();
    assert!(receiver.on_disconnect(1));
    assert!(!receiver.on_disconnect(1));
    assert_eq!(receiver.registry().all(), vec![2u16]);
    let events = receiver.take_events();
    assert_eq!(events.last(), Some(&ConnectionEvent::Disconnected(1)));
    assert!(receiver.events().is_empty());
}

#[test]
fn json_params_are_read() {
    let mut receiver = Receiver::new("abc123".to_string());
    let good: serde_json::Value =
        serde_json::from_str(r#"{"token":"abc123","port":41000}"#).unwrap();
    assert_eq!(receiver.on_notify_json(Some(&good)), Ok(()));
    let missing: serde_json::Value = serde_json::from_str(r#"{"token":"abc123"}"#).unwrap();
    assert_eq!(
        receiver.on_notify_json(Some(&missing)),
        Err(NotifyError::RequiredParametersNotPresent)
    );
    let wrong_kind: serde_json::Value =
        serde_json::from_str(r#"{"token":"abc123","port":"41000"}"#).unwrap();
    assert_eq!(receiver.on_notify_json(Some(&wrong_kind)), Err(NotifyError::InvalidParameters));
    let negative: serde_json::Value =
        serde_json::from_str(r#"{"token":"abc123","port":-1}"#).unwrap();
    assert_eq!(receiver.on_notify_json(Some(&negative)), Err(NotifyError::InvalidParameters));
    assert_eq!(receiver.on_notify_json(None), Err(NotifyError::RequiredParametersNotPresent));
    assert_eq!(receiver.registry().all(), vec![41000u16]);
}

#[test]
fn launch_arguments_reach_the_client() {
    let manager = ConnectionManager::new(34567, "abc123".to_string());
    let spawn = manager.connect("./examples/client");
    assert_eq!(spawn.program, "cargo");
    assert_eq!(spawn.directory, "./examples/client");
    assert_eq!(spawn.args, vec!["run", "--", "--port", "34567", "--token", "abc123"]);
    let address = client_config(Some(spawn.args[5].clone()), Some(spawn.args[3].clone())).unwrap();
    assert_eq!(address.port, 34567);
    assert_eq!(address.token, "abc123");
}

#[test]
fn client_config_needs_both_arguments() {
    assert!(client_config(None, Some("1".to_string())).is_none());
    assert!(client_config(Some("t".to_string()), None).is_none());
    assert!(client_config(Some("t".to_string()), Some("65536".to_string())).is_none());
    assert!(client_config(Some("t".to_string()), Some("x1".to_string())).is_none());
}

#[test]
fn port_text_is_read_as_u16_reads_it() {
    for text in ["0", "7", "+80", "007", "65535", "65536", "", "+", "-1", "1a", "99999999999"] {
        assert_eq!(parse_port(text), text.parse::<u16>().ok(), "{text}");
    }
}
