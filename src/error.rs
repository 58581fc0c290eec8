use vstd::prelude::*;
use vstd::string::StringExecFns;

verus! {

/// The exit status for a failure of the flow's own making or of a service it asked.
pub const EXIT_FAILURE: i32 = 1;

/// The exit status for a failure reported by the messaging transport.
pub const EXIT_TRANSPORT: i32 = 2;

/// What kind of failure ended the run.
#[derive(Clone, Copy, Debug, PartialEq, Eq, Structural)]
pub enum ErrorKind {
    /// The environment is not in the expected shape (an unmanaged identity, a missing key).
    Configuration,
    /// A collaborating service, or the transport to it, reported a failure.
    Dependency,
    /// A collaborator answered out of turn or in an unexpected shape.
    Protocol,
}

/// A terminal failure: a kind, a human-readable message and the process exit status.
#[derive(Clone, Debug)]
pub struct Error {
    pub kind: ErrorKind,
    pub message: String,
    pub exit_code: i32,
}

/// The message of a failure wrapped with context: `"<context>: <cause>"`.
pub open spec fn wrapped_message(context: Seq<char>, cause: Seq<char>) -> Seq<char> {
    context + ": "@ + cause
}

impl Error {
    /// A configuration failure carrying `message`, with the default exit status.
    pub fn new(message: &str) -> (r: Error)
        ensures
            r.kind == ErrorKind::Configuration,
            r.message@ == message@,
            r.exit_code == EXIT_FAILURE,
    {
        Error { kind: ErrorKind::Configuration, message: String::from_str(message), exit_code: EXIT_FAILURE }
    }

    /// A dependency failure: `message` gives the context, `err` the underlying cause,
    /// which is kept at the end of the message.
    pub fn from_err(message: &str, err: &str) -> (r: Error)
        ensures
            r.kind == ErrorKind::Dependency,
            r.message@ == wrapped_message(message@, err@),
            r.exit_code == EXIT_FAILURE,
    {
        let text = String::from_str(message).concat(": ").concat(err);
        Error { kind: ErrorKind::Dependency, message: text, exit_code: EXIT_FAILURE }
    }

    /// A failure reported by the messaging transport, whose own description is the message.
    pub fn from_transport(err: &str) -> (r: Error)
        ensures
            r.kind == ErrorKind::Dependency,
            r.message@ == err@,
            r.exit_code == EXIT_TRANSPORT,
    {
        Error { kind: ErrorKind::Dependency, message: String::from_str(err), exit_code: EXIT_TRANSPORT }
    }

    /// A collaborator answered with something the current step did not ask for.
    pub fn out_of_turn(message: &str) -> (r: Error)
        ensures
            r.kind == ErrorKind::Protocol,
            r.message@ == message@,
            r.exit_code == EXIT_FAILURE,
    {
        Error { kind: ErrorKind::Protocol, message: String::from_str(message), exit_code: EXIT_FAILURE }
    }

    /// The message, as the process reports it.
    pub fn to_string(&self) -> (r: String)
        ensures
            r@ == self.message@,
    {
        self.message.clone()
    }
}

} // verus!
