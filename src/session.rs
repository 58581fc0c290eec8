use vstd::prelude::*;
use vstd::string::StringExecFns;

verus! {

/// The broker's TLS port.
pub const BROKER_PORT: u16 = 8883;

/// The MQTT protocol level asked for: 3.1.1.
pub const MQTT_VERSION: u32 = 4;

/// At-least-once delivery.
pub const TELEMETRY_QOS: i32 = 1;

pub open spec fn server_uri_text(hub: Seq<char>) -> Seq<char> {
    "ssl://"@ + hub + ":8883"@
}

pub open spec fn client_id_text(device: Seq<char>, module: Seq<char>) -> Seq<char> {
    device + "/"@ + module
}

pub open spec fn user_name_text(hub: Seq<char>, device: Seq<char>, module: Seq<char>) -> Seq<
    char,
> {
    hub + "/"@ + device + "/"@ + module + "/?api-version=2021-04-12"@
}

pub open spec fn topic_text(device: Seq<char>, module: Seq<char>) -> Seq<char> {
    "devices/"@ + device + "/modules/"@ + module
        + "/messages/events/$.ct=application%2Fjson%3Bcharset%3Dutf-8"@
}

pub open spec fn telemetry_text(device: Seq<char>, module: Seq<char>) -> Seq<char> {
    "{\"message\": \"Hello from "@ + device + "/"@ + module + "\"}"@
}

/// How to open the broker session: endpoint, client identity and credentials.
#[derive(Clone, Debug)]
pub struct ConnectSettings {
    pub server_uri: String,
    pub client_id: String,
    pub user_name: String,
    pub password: String,
    pub mqtt_version: u32,
    /// Whether in-flight messages are kept on local storage.
    pub persistent: bool,
}

impl ConnectSettings {
    /// The settings for a module of `hub_name` that signs in with `sas_token`.
    pub fn new(hub_name: &str, device_id: &str, module_id: &str, sas_token: &str) -> (r:
        ConnectSettings)
        ensures
            r.server_uri@ == server_uri_text(hub_name@),
            r.client_id@ == client_id_text(device_id@, module_id@),
            r.user_name@ == user_name_text(hub_name@, device_id@, module_id@),
            r.password@ == sas_token@,
            r.mqtt_version == MQTT_VERSION,
            !r.persistent,
    {
        let server_uri = String::from_str("ssl://").concat(hub_name).concat(":8883");
        let client_id = String::from_str(device_id).concat("/").concat(module_id);
        let user_name = String::from_str(hub_name).concat("/").concat(device_id).concat(
            "/",
        ).concat(module_id).concat("/?api-version=2021-04-12");
        ConnectSettings {
            server_uri,
            client_id,
            user_name,
            password: String::from_str(sas_token),
            mqtt_version: MQTT_VERSION,
            persistent: false,
        }
    }
}

/// One message to publish: topic, body and delivery quality.
#[derive(Clone, Debug)]
pub struct PublishRequest {
    pub topic: String,
    pub payload: String,
    pub qos: i32,
}

impl PublishRequest {
    /// The module's telemetry message: a JSON greeting on its events topic.
    pub fn telemetry(device_id: &str, module_id: &str) -> (r: PublishRequest)
        ensures
            r.topic@ == topic_text(device_id@, module_id@),
            r.payload@ == telemetry_text(device_id@, module_id@),
            r.qos == TELEMETRY_QOS,
    {
        let topic = String::from_str("devices/").concat(device_id).concat("/modules/").concat(
            module_id,
        ).concat("/messages/events/$.ct=application%2Fjson%3Bcharset%3Dutf-8");
        let payload = String::from_str("{\"message\": \"Hello from ").concat(device_id).concat(
            "/",
        ).concat(module_id).concat("\"}");
        PublishRequest { topic, payload, qos: TELEMETRY_QOS }
    }
}

} // verus!
