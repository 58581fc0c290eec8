use vstd::prelude::*;

use crate::error::{wrapped_message, Error, ErrorKind, EXIT_FAILURE};

verus! {

/// An opaque reference to a key held by the key service. The key itself never leaves
/// that service; the reference is only ever handed back to it.
#[derive(Clone, Debug)]
pub struct KeyReference {
    handle: String,
}

impl View for KeyReference {
    type V = Seq<char>;

    closed spec fn view(&self) -> Seq<char> {
        self.handle@
    }
}

impl KeyReference {
    pub fn new(handle: String) -> (r: KeyReference)
        ensures
            r@ == handle@,
    {
        KeyReference { handle }
    }

    /// The reference in the form the key service takes it.
    pub fn as_str(&self) -> (r: &str)
        ensures
            r@ == self@,
    {
        self.handle.as_str()
    }
}

/// The identity the identity service assigned to this module.
#[derive(Clone, Debug)]
pub struct DeviceIdentity {
    pub hub_name: String,
    pub device_id: String,
    pub module_id: Option<String>,
    pub key_reference: Option<KeyReference>,
}

/// The identity service's answer: a managed device identity, or a local identity that
/// this deployment does not expect.
#[derive(Clone, Debug)]
pub enum IdentityResponse {
    Managed(DeviceIdentity),
    Local,
}

/// The caller's identity from the identity service's answer, or the failure it stands for.
pub fn resolve_identity(answer: Result<IdentityResponse, String>) -> (r: Result<
    DeviceIdentity,
    Error,
>)
    ensures
        answer matches Ok(IdentityResponse::Managed(id)) ==> r == Ok::<DeviceIdentity, Error>(id),
        answer matches Ok(IdentityResponse::Local) ==> r is Err && r->Err_0.kind
            == ErrorKind::Configuration && r->Err_0.exit_code == EXIT_FAILURE
            && r->Err_0.message@ == "Invalid device identity"@,
        answer is Err ==> r is Err && r->Err_0.kind == ErrorKind::Dependency
            && r->Err_0.exit_code == EXIT_FAILURE && r->Err_0.message@ == wrapped_message(
            "Failed to obtain device identity"@,
            answer->Err_0@,
        ),
{
    match answer {
        Ok(IdentityResponse::Managed(id)) => Ok(id),
        Ok(IdentityResponse::Local) => Err(Error::new("Invalid device identity")),
        Err(cause) => Err(Error::from_err("Failed to obtain device identity", cause.as_str())),
    }
}

} // verus!
