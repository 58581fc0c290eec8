//! Device-side credential-and-connect flow for a managed IoT module: resolve the
//! module's identity, derive a time-scoped SAS token from a signature made by the
//! key service, then connect, publish one telemetry message and disconnect.
pub mod encoding;
pub mod error;
pub mod flow;
pub mod identity;
pub mod sas;
pub mod session;
