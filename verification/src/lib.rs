//! A request-handling harness that compares concurrency strategies: a shared
//! atomic counter, a single mailbox worker that serializes its tasks, and a
//! remote unary call made through a shared or a per-request client.  Each
//! strategy produces a textual response; the strategies and the shared state
//! they coordinate over are modelled and verified here, while the transport
//! (HTTP listener, threads, timers) lives outside the library.

use vstd::prelude::*;

pub mod actor;
pub mod counter;
pub mod grpc_rs;
pub mod hello;
pub mod hello_grpc;
pub mod server;
pub mod strutil;

verus! {

/// A plain string-carrying error, kept for callers that want an error value
/// with an arbitrary text.
#[derive(Debug)]
pub struct StringError(pub String);

impl StringError {
    pub fn new(s: &str) -> (e: Self)
        ensures
            e.0@ == s@,
    {
        StringError(s.to_owned())
    }

    /// A textual rendering of the error, in place of a `Display` impl.
    pub fn render(&self) -> (s: String)
        ensures
            s@ == "StringError(\""@ + self.0@ + "\")"@,
    {
        let mut out = String::new();
        out.append("StringError(\"");
        out.append(self.0.as_str());
        out.append("\")");
        out
    }
}

impl PartialEq for StringError {
    fn eq(&self, other: &StringError) -> (r: bool) {
        self.0 == other.0
    }
}

impl vstd::std_specs::cmp::PartialEqSpecImpl for StringError {
    open spec fn obeys_eq_spec() -> bool {
        true
    }

    open spec fn eq_spec(&self, other: &StringError) -> bool {
        self.0@ == other.0@
    }
}

/// The failure taxonomy of the harness.  `CounterOverflow` is handled inside
/// the counter (by its wraparound rule) and is never surfaced to a caller.
#[derive(Clone, Copy, PartialEq, Eq, Structural, Debug)]
pub enum BenchError {
    WorkerUnavailable,
    RemoteTimeout,
    RemoteTransport,
    CounterOverflow,
}

impl BenchError {
    /// The textual rendering of the error variant, in place of a `Display` impl.
    pub fn render(&self) -> (s: &'static str)
        ensures
            s@ == spec_error_text(*self),
    {
        match self {
            BenchError::WorkerUnavailable => "WorkerUnavailable",
            BenchError::RemoteTimeout => "RemoteTimeout",
            BenchError::RemoteTransport => "RemoteTransport",
            BenchError::CounterOverflow => "CounterOverflow",
        }
    }
}

/// What `BenchError::render` returns for each variant.
pub open spec fn spec_error_text(e: BenchError) -> Seq<char> {
    match e {
        BenchError::WorkerUnavailable => "WorkerUnavailable"@,
        BenchError::RemoteTimeout => "RemoteTimeout"@,
        BenchError::RemoteTransport => "RemoteTransport"@,
        BenchError::CounterOverflow => "CounterOverflow"@,
    }
}

} // verus!
