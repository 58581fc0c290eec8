use vstd::prelude::*;

use crate::encoding::{base64_of, url_encoded};
use crate::error::{wrapped_message, Error, ErrorKind, EXIT_FAILURE, EXIT_TRANSPORT};
use crate::identity::{resolve_identity, DeviceIdentity, IdentityResponse, KeyReference};
use crate::sas::{payload_text, resource_text, token_text, SasRequest, UnixTime, TOKEN_VALIDITY_SECS};
use crate::session::{
    client_id_text, server_uri_text, telemetry_text, topic_text, user_name_text, ConnectSettings,
    PublishRequest, MQTT_VERSION, TELEMETRY_QOS,
};

verus! {

/// Where a run stands. The run only moves forward; any failure ends it in `Failed`.
#[derive(Clone, Debug)]
pub enum Flow {
    /// Waiting for the identity service.
    Start,
    /// The identity is known and the key service was asked to sign.
    IdentityResolved { hub_name: String, device_id: String, module_id: String, request: SasRequest },
    /// The token is made and the broker session was asked for.
    TokenSigned { device_id: String, module_id: String },
    /// The session is open and the telemetry message was handed over.
    SessionOpen,
    /// The message was acknowledged and the session is being closed.
    Published,
    /// The session is closed: the run is done.
    Closed,
    Failed(Error),
}

/// What a collaborator answered to the last action.
#[derive(Debug)]
pub enum Event {
    /// The identity service's answer, with the clock read when it came.
    IdentityAnswered(Result<IdentityResponse, String>, UnixTime),
    /// The key service's signature, or its description of a failure.
    SignatureAnswered(Result<Vec<u8>, String>),
    ConnectFinished(Result<(), String>),
    /// The publication was handed over and acknowledged, or the description of why not.
    PublishAcknowledged(Result<(), String>),
    DisconnectFinished(Result<(), String>),
}

/// What the run asks of the world next.
#[derive(Clone, Debug)]
pub enum Action {
    ResolveIdentity,
    /// Ask the key service for an HMAC-SHA256 signature of `payload` under `key`.
    Sign { key: KeyReference, payload: String },
    Connect(ConnectSettings),
    Publish(PublishRequest),
    Disconnect,
    /// The run succeeded.
    Finish,
    /// The run failed with this error.
    Abort(Error),
}

/// The identity answer carries everything the token needs, and the clock is usable.
pub open spec fn identity_usable(id: DeviceIdentity, now: UnixTime) -> bool {
    &&& id.module_id is Some
    &&& id.key_reference is Some
    &&& now.wf()
    &&& now.secs + TOKEN_VALIDITY_SECS <= u64::MAX
}

/// The step taken on a managed identity: the key service is asked to sign the payload
/// for the module's resource, or, where the identity or the clock is unusable, the run
/// fails as misconfigured.
pub open spec fn signs_for(id: DeviceIdentity, now: UnixTime, r: (Flow, Action)) -> bool {
    if identity_usable(id, now) {
        let module = id.module_id->Some_0@;
        let resource = url_encoded(resource_text(id.hub_name@, id.device_id@, module));
        let expiry = (now.secs + TOKEN_VALIDITY_SECS) as nat;
        &&& r.0 matches Flow::IdentityResolved { hub_name, device_id, module_id, request }
            && hub_name@ == id.hub_name@ && device_id@ == id.device_id@ && module_id@ == module
            && request.resource@ == resource && request.expiry == expiry
        &&& r.1 matches Action::Sign { key, payload } && key@ == id.key_reference->Some_0@
            && payload@ == payload_text(resource, expiry)
    } else {
        r.1 is Abort && r.1->Abort_0.kind == ErrorKind::Configuration
    }
}

/// The step taken once the token is made: the broker session is asked for with it.
pub open spec fn connects_with(
    hub: Seq<char>,
    device: Seq<char>,
    module: Seq<char>,
    token: Seq<char>,
    r: (Flow, Action),
) -> bool {
    &&& r.0 matches Flow::TokenSigned { device_id, module_id } && device_id@ == device
        && module_id@ == module
    &&& r.1 matches Action::Connect(s) && s.server_uri@ == server_uri_text(hub) && s.client_id@
        == client_id_text(device, module) && s.user_name@ == user_name_text(hub, device, module)
        && s.password@ == token && s.mqtt_version == MQTT_VERSION && !s.persistent
}

/// The step taken once the session is open: the telemetry message is published.
pub open spec fn publishes_for(device: Seq<char>, module: Seq<char>, r: (Flow, Action)) -> bool {
    &&& r.0 is SessionOpen
    &&& r.1 matches Action::Publish(p) && p.topic@ == topic_text(device, module) && p.payload@
        == telemetry_text(device, module) && p.qos == TELEMETRY_QOS
}

impl Flow {
    /// A run before anything is asked: it starts by asking for the identity.
    pub fn begin() -> (r: (Flow, Action))
        ensures
            r.0 is Start,
            r.1 is ResolveIdentity,
    {
        (Flow::Start, Action::ResolveIdentity)
    }

    /// The next state and action once `event` has come in.
    pub fn step(self, event: Event) -> (r: (Flow, Action))
        ensures
            // A failed run aborts, and only a failed run does.
            r.0 is Failed <==> r.1 is Abort,
            r.0 is Failed ==> r.1->Abort_0 == r.0->Failed_0,
            self is Failed ==> r.0 is Failed,
            self is Closed ==> r.0 is Failed,
            // Each forward move has exactly one cause.
            r.1 is Sign ==> self is Start && event is IdentityAnswered,
            r.1 is Connect ==> self is IdentityResolved && (event matches Event::SignatureAnswered(
                Ok(_),
            )),
            r.1 is Publish ==> self is TokenSigned && (event matches Event::ConnectFinished(Ok(_))),
            r.1 is Disconnect ==> self is SessionOpen && (event matches Event::PublishAcknowledged(
                Ok(_),
            )),
            r.1 is Finish ==> self is Published && (event matches Event::DisconnectFinished(Ok(_))),
            r.1 is ResolveIdentity ==> false,
            // The identity answer.
            self is Start ==> (event matches Event::IdentityAnswered(Ok(IdentityResponse::Local), _)
                ==> r.1 is Abort && r.1->Abort_0.kind == ErrorKind::Configuration
                && r.1->Abort_0.message@ == "Invalid device identity"@),
            self is Start ==> (event matches Event::IdentityAnswered(Err(cause), _) ==> (r.1 is Abort
                && r.1->Abort_0.kind == ErrorKind::Dependency && r.1->Abort_0.message@
                == wrapped_message("Failed to obtain device identity"@, cause@))),
            self is Start ==> (event matches Event::IdentityAnswered(
                Ok(IdentityResponse::Managed(id)),
                now,
            ) ==> signs_for(id, now, r)),
            // The signature.
            self matches Flow::IdentityResolved { hub_name, device_id, module_id, request } ==> (
            event matches Event::SignatureAnswered(Ok(sig)) ==> connects_with(
                hub_name@,
                device_id@,
                module_id@,
                token_text(request.resource@, request.expiry as nat, url_encoded(base64_of(sig@))),
                r,
            )),
            self is IdentityResolved ==> (event matches Event::SignatureAnswered(Err(cause)) ==> (
            r.1 is Abort && r.1->Abort_0.kind == ErrorKind::Dependency && r.1->Abort_0.message@
                == wrapped_message("Failed to sign digest"@, cause@))),
            // The connection.
            self matches Flow::TokenSigned { device_id, module_id } ==> (
            event matches Event::ConnectFinished(Ok(_)) ==> publishes_for(device_id@, module_id@, r)),
            self is TokenSigned ==> (event matches Event::ConnectFinished(Err(cause)) ==> (r.1 is Abort
                && r.1->Abort_0.kind == ErrorKind::Dependency && r.1->Abort_0.exit_code
                == EXIT_TRANSPORT && r.1->Abort_0.message@ == cause@)),
            // The publication: a failure aborts at once, with no disconnect.
            self is SessionOpen ==> (event matches Event::PublishAcknowledged(Ok(_)) ==> (r.0 is Published
                && r.1 is Disconnect)),
            self is SessionOpen ==> (event matches Event::PublishAcknowledged(Err(cause)) ==> (r.1 is Abort
                && r.1->Abort_0.kind == ErrorKind::Dependency && r.1->Abort_0.exit_code
                == EXIT_FAILURE && r.1->Abort_0.message@ == wrapped_message(
                "Error sending message:"@,
                cause@,
            ))),
            // The disconnection.
            self is Published ==> (event matches Event::DisconnectFinished(Ok(_)) ==> (r.0 is Closed
                && r.1 is Finish)),
            self is Published ==> (event matches Event::DisconnectFinished(Err(cause)) ==> (r.1 is Abort
                && r.1->Abort_0.kind == ErrorKind::Dependency && r.1->Abort_0.exit_code
                == EXIT_TRANSPORT && r.1->Abort_0.message@ == cause@)),
            // An answer out of turn.
            !Self::expects(self, event) && !(self is Failed) ==> r.1 is Abort && r.1->Abort_0.kind
                == ErrorKind::Protocol,
    {
        match (self, event) {
            (Flow::Start, Event::IdentityAnswered(answer, now)) => {
                match resolve_identity(answer) {
                    Err(e) => fail(e),
                    Ok(id) => Self::sign_for(id, now),
                }
            },
            (
                Flow::IdentityResolved { hub_name, device_id, module_id, request },
                Event::SignatureAnswered(signed),
            ) => {
                match request.finish(signed) {
                    Err(e) => fail(e),
                    Ok(token) => {
                        let settings = ConnectSettings::new(
                            hub_name.as_str(),
                            device_id.as_str(),
                            module_id.as_str(),
                            token.as_str(),
                        );
                        (Flow::TokenSigned { device_id, module_id }, Action::Connect(settings))
                    },
                }
            },
            (Flow::TokenSigned { device_id, module_id }, Event::ConnectFinished(done)) => {
                match done {
                    Err(cause) => fail(Error::from_transport(cause.as_str())),
                    Ok(()) => {
                        let message = PublishRequest::telemetry(device_id.as_str(), module_id.as_str());
                        (Flow::SessionOpen, Action::Publish(message))
                    },
                }
            },
            (Flow::SessionOpen, Event::PublishAcknowledged(done)) => {
                match done {
                    Err(cause) => fail(Error::from_err("Error sending message:", cause.as_str())),
                    Ok(()) => (Flow::Published, Action::Disconnect),
                }
            },
            (Flow::Published, Event::DisconnectFinished(done)) => {
                match done {
                    Err(cause) => fail(Error::from_transport(cause.as_str())),
                    Ok(()) => (Flow::Closed, Action::Finish),
                }
            },
            (Flow::Failed(e), _) => fail(e),
            (_, _) => fail(Error::out_of_turn("Unexpected answer for the current step")),
        }
    }

    /// Whether `event` is the answer that the state waits for.
    pub open spec fn expects(self, event: Event) -> bool {
        ||| self is Start && event is IdentityAnswered
        ||| self is IdentityResolved && event is SignatureAnswered
        ||| self is TokenSigned && event is ConnectFinished
        ||| self is SessionOpen && event is PublishAcknowledged
        ||| self is Published && event is DisconnectFinished
    }

    /// The request to the key service for a resolved identity, or the configuration
    /// failure of an identity that lacks a module or a key, or of a clock out of range.
    fn sign_for(id: DeviceIdentity, now: UnixTime) -> (r: (Flow, Action))
        ensures
            r.0 is Failed <==> r.1 is Abort,
            r.0 is Failed ==> r.1->Abort_0 == r.0->Failed_0,
            signs_for(id, now, r),
    {
        let DeviceIdentity { hub_name, device_id, module_id, key_reference } = id;
        let module_id = match module_id {
            Some(m) => m,
            None => { return fail(Error::new("The identity has no module id")); },
        };
        let key = match key_reference {
            Some(k) => k,
            None => { return fail(Error::new("The identity has no key reference")); },
        };
        if now.nanos >= 1_000_000_000 || now.secs > u64::MAX - TOKEN_VALIDITY_SECS {
            return fail(Error::new("The clock is out of range"));
        }
        let request = SasRequest::new(hub_name.as_str(), device_id.as_str(), module_id.as_str(), now);
        let payload = request.payload.clone();
        (Flow::IdentityResolved { hub_name, device_id, module_id, request }, Action::Sign { key, payload })
    }
}

/// A failed run and the abort that reports it.
fn fail(e: Error) -> (r: (Flow, Action))
    ensures
        r.0 == Flow::Failed(e),
        r.1 == Action::Abort(e),
{
    let copy = Error { kind: e.kind, message: e.message.clone(), exit_code: e.exit_code };
    (Flow::Failed(e), Action::Abort(copy))
}

} // verus!
