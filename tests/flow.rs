use module_identity_sas::error::ErrorKind;
use module_identity_sas::flow::{Action, Event, Flow};
use module_identity_sas::identity::{resolve_identity, DeviceIdentity, IdentityResponse, KeyReference};
use module_identity_sas::sas::UnixTime;
use module_identity_sas::session::{ConnectSettings, PublishRequest};

const NOW: UnixTime = UnixTime { secs: 1_700_000_000, nanos: 250_000_000 };

fn managed(module: Option<&str>, key: Option<&str>) -> IdentityResponse {
    IdentityResponse::Managed(DeviceIdentity {
        hub_name: "myhub.azure-devices.net".to_string(),
        device_id: "dev1".to_string(),
        module_id: module.map(|m| m.to_string()),
        key_reference: key.map(|k| KeyReference::new(k.to_string())),
    })
}

fn abort_kind(a: &Action) -> ErrorKind {
    match a {
        Action::Abort(e) => e.kind,
        other => panic!("expected an abort, got {:?}", other),
    }
}

#[test]
fn resolve_managed_identity() {
    let id = resolve_identity(Ok(managed(Some("mod1"), Some("key1")))).unwrap();
    assert_eq!(id.hub_name, "myhub.azure-devices.net");
    assert_eq!(id.device_id, "dev1");
    assert_eq!(id.module_id.as_deref(), Some("mod1"));
    assert_eq!(id.key_reference.unwrap().as_str(), "key1");
}

#[test]
fn resolve_local_identity_fails() {
    let e = resolve_identity(Ok(IdentityResponse::Local)).unwrap_err();
    assert_eq!(e.kind, ErrorKind::Configuration);
    assert_eq!(e.message, "Invalid device identity");
    assert_eq!(e.exit_code, 1);
}

#[test]
fn resolve_transport_failure() {
    let e = resolve_identity(Err("socket missing".to_string())).unwrap_err();
    assert_eq!(e.kind, ErrorKind::Dependency);
    assert_eq!(e.message, "Failed to obtain device identity: socket missing");
}

#[test]
fn full_run_in_order() {
    let (flow, action) = Flow::begin();
    assert!(matches!(action, Action::ResolveIdentity));

    let (flow, action) = flow.step(Event::IdentityAnswered(Ok(managed(Some("mod1"), Some("key1"))), NOW));
    let resource = "myhub.azure-devices.net%2Fdevices%2Fdev1%2Fmodules%2Fmod1";
    match &action {
        Action::Sign { key, payload } => {
            assert_eq!(key.as_str(), "key1");
            assert_eq!(payload, &format!("{}\n1700050000", resource));
        }
        other => panic!("expected a signing request, got {:?}", other),
    }
    assert!(matches!(flow, Flow::IdentityResolved { .. }));

    let (flow, action) = flow.step(Event::SignatureAnswered(Ok(b"sig".to_vec())));
    match &action {
        Action::Connect(s) => {
            assert_eq!(s.server_uri, "ssl://myhub.azure-devices.net:8883");
            assert_eq!(s.client_id, "dev1/mod1");
            assert_eq!(s.user_name, "myhub.azure-devices.net/dev1/mod1/?api-version=2021-04-12");
            assert_eq!(
                s.password,
                format!("SharedAccessSignature sr={}&se=1700050000&sig=c2ln", resource)
            );
            assert_eq!(s.mqtt_version, 4);
            assert!(!s.persistent);
        }
        other => panic!("expected a connect, got {:?}", other),
    }

    let (flow, action) = flow.step(Event::ConnectFinished(Ok(())));
    match &action {
        Action::Publish(p) => {
            assert_eq!(
                p.topic,
                "devices/dev1/modules/mod1/messages/events/$.ct=application%2Fjson%3Bcharset%3Dutf-8"
            );
            assert_eq!(p.payload, "{\"message\": \"Hello from dev1/mod1\"}");
            assert_eq!(p.qos, 1);
        }
        other => panic!("expected a publish, got {:?}", other),
    }

    let (flow, action) = flow.step(Event::PublishAcknowledged(Ok(())));
    assert!(matches!(action, Action::Disconnect));
    let (flow, action) = flow.step(Event::DisconnectFinished(Ok(())));
    assert!(matches!(action, Action::Finish));
    assert!(matches!(flow, Flow::Closed));
}

#[test]
fn local_identity_never_signs() {
    let mut sign_requests = 0;
    let (flow, action) = Flow::Start.step(Event::IdentityAnswered(Ok(IdentityResponse::Local), NOW));
    if matches!(action, Action::Sign { .. }) {
        sign_requests += 1;
    }
    assert_eq!(abort_kind(&action), ErrorKind::Configuration);
    assert!(matches!(flow, Flow::Failed(_)));
    let (_, later) = flow.step(Event::SignatureAnswered(Ok(b"sig".to_vec())));
    if matches!(later, Action::Sign { .. }) {
        sign_requests += 1;
    }
    assert!(matches!(later, Action::Abort(_)));
    assert_eq!(sign_requests, 0);
}

#[test]
fn missing_module_or_key_is_configuration_error() {
    let (_, a) = Flow::Start.step(Event::IdentityAnswered(Ok(managed(None, Some("k"))), NOW));
    assert_eq!(abort_kind(&a), ErrorKind::Configuration);
    let (_, b) = Flow::Start.step(Event::IdentityAnswered(Ok(managed(Some("m"), None)), NOW));
    assert_eq!(abort_kind(&b), ErrorKind::Configuration);
}

#[test]
fn clock_out_of_range_is_configuration_error() {
    let late = UnixTime { secs: u64::MAX, nanos: 0 };
    let (_, a) = Flow::Start.step(Event::IdentityAnswered(Ok(managed(Some("m"), Some("k"))), late));
    assert_eq!(abort_kind(&a), ErrorKind::Configuration);
}

#[test]
fn identity_transport_failure_aborts() {
    let (_, a) = Flow::Start.step(Event::IdentityAnswered(Err("down".to_string()), NOW));
    assert_eq!(abort_kind(&a), ErrorKind::Dependency);
}

#[test]
fn signing_failure_aborts_before_connect() {
    let (flow, _) = Flow::Start.step(Event::IdentityAnswered(Ok(managed(Some("m"), Some("k"))), NOW));
    let (flow, action) = flow.step(Event::SignatureAnswered(Err("hsm busy".to_string())));
    match &action {
        Action::Abort(e) => {
            assert_eq!(e.kind, ErrorKind::Dependency);
            assert_eq!(e.message, "Failed to sign digest: hsm busy");
        }
        other => panic!("expected an abort, got {:?}", other),
    }
    assert!(matches!(flow, Flow::Failed(_)));
}

#[test]
fn connect_failure_aborts_with_transport_status() {
    let flow = Flow::TokenSigned { device_id: "d".to_string(), module_id: "m".to_string() };
    let (_, action) = flow.step(Event::ConnectFinished(Err("refused".to_string())));
    match action {
        Action::Abort(e) => {
            assert_eq!(e.exit_code, 2);
            assert_eq!(e.message, "refused");
        }
        other => panic!("expected an abort, got {:?}", other),
    }
}

#[test]
fn publish_ack_failure_aborts_without_disconnect() {
    let (flow, action) = Flow::SessionOpen.step(Event::PublishAcknowledged(Err("timeout".to_string())));
    assert!(!matches!(action, Action::Disconnect));
    match &action {
        Action::Abort(e) => {
            assert_eq!(e.kind, ErrorKind::Dependency);
            assert_eq!(e.exit_code, 1);
            assert_eq!(e.message, "Error sending message:: timeout");
        }
        other => panic!("expected an abort, got {:?}", other),
    }
    let (_, after) = flow.step(Event::DisconnectFinished(Ok(())));
    assert!(matches!(after, Action::Abort(_)));
}

#[test]
fn disconnect_failure_aborts() {
    let (_, action) = Flow::Published.step(Event::DisconnectFinished(Err("gone".to_string())));
    match action {
        Action::Abort(e) => assert_eq!(e.exit_code, 2),
        other => panic!("expected an abort, got {:?}", other),
    }
}

#[test]
fn answer_out_of_turn_is_protocol_error() {
    let (_, a) = Flow::Start.step(Event::ConnectFinished(Ok(())));
    assert_eq!(abort_kind(&a), ErrorKind::Protocol);
    let (_, b) = Flow::Closed.step(Event::DisconnectFinished(Ok(())));
    assert_eq!(abort_kind(&b), ErrorKind::Protocol);
}

#[test]
fn connect_settings_values() {
    let s = ConnectSettings::new("h.net", "d", "m", "tok");
    assert_eq!(s.server_uri, "ssl://h.net:8883");
    assert_eq!(s.client_id, "d/m");
    assert_eq!(s.user_name, "h.net/d/m/?api-version=2021-04-12");
    assert_eq!(s.password, "tok");
}

#[test]
fn telemetry_values() {
    let p = PublishRequest::telemetry("d", "m");
    assert_eq!(p.topic, "devices/d/modules/m/messages/events/$.ct=application%2Fjson%3Bcharset%3Dutf-8");
    assert_eq!(p.payload, "{\"message\": \"Hello from d/m\"}");
    assert_eq!(p.qos, 1);
}
