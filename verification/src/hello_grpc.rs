//! The remote unary procedure's client, as the harness's logic reads it: a
//! handle recording the target and a configured call timeout, a pending call
//! that records the request it carries, and the resolution rule against an
//! endpoint.  The endpoint itself is an external collaborator — a stub unary
//! procedure whose only relevant behaviour is its latency and timeout
//! contract — so it stands here as a value holding exactly that contract plus
//! a call count, which is what the per-request-versus-shared comparison
//! observes.  The wire transport lives outside the library.

use vstd::prelude::*;
use crate::BenchError;
use crate::hello::{HelloRequest, HelloResponse};

verus! {

/// The timeout the shared client is configured with, in milliseconds.
pub const SHARED_CLIENT_TIMEOUT_MS: u64 = 200;

/// A call count one higher, held at the largest representable value.
pub open spec fn bump(c: u64) -> u64 {
    if c < u64::MAX {
        (c + 1) as u64
    } else {
        c
    }
}

/// Per-call options of the client.
pub struct RequestOptions {}

impl RequestOptions {
    pub fn new() -> (o: Self) {
        RequestOptions {}
    }
}

/// The client configuration: the connection/call timeout, if one is set.
pub struct ClientConf {
    pub connection_timeout_ms: Option<u64>,
}

impl ClientConf {
    /// A fresh configuration with no timeout set.
    pub fn new() -> (c: Self)
        ensures
            c.connection_timeout_ms is None,
    {
        ClientConf { connection_timeout_ms: None }
    }
}

/// A connection handle: the target it was opened towards and the
/// configuration it carries.  Opening records the target; the transport pays
/// the connection cost on use.
pub struct GrpcClient {
    pub host: String,
    pub port: u16,
    pub conf: ClientConf,
    pub tls: bool,
}

/// One method of the remote service, by its wire name.
pub struct MethodDescriptor {
    pub name: String,
    pub unary: bool,
}

/// A pending unary call: the request it carries and the timeout that bounds
/// it.  Resolving it against an endpoint yields the response or the error.
pub struct SingleResponse {
    pub request: HelloRequest,
    pub timeout_ms: Option<u64>,
}

/// The remote endpoint as the timeout contract sees it: whether (and within
/// how many milliseconds) it answers, the text it answers with, and how many
/// calls have reached it.
pub struct MockEndpoint {
    pub responds_within_ms: Option<u64>,
    pub reply: String,
    pub calls: u64,
}

impl MockEndpoint {
    /// A fresh endpoint that answers `reply` within `latency_ms`
    /// milliseconds, with no calls on it yet.
    pub fn new(reply: &str, latency_ms: u64) -> (ep: Self)
        ensures
            ep.responds_within_ms == Some(latency_ms),
            ep.reply@ == reply@,
            ep.calls == 0,
    {
        MockEndpoint { responds_within_ms: Some(latency_ms), reply: reply.to_owned(), calls: 0 }
    }

    /// A fresh endpoint that never answers, with no calls on it yet.
    pub fn silent() -> (ep: Self)
        ensures
            ep.responds_within_ms is None,
            ep.calls == 0,
    {
        MockEndpoint { responds_within_ms: None, reply: String::new(), calls: 0 }
    }
}

/// How a call bounded by `timeout_ms` resolves against endpoint `ep`: the
/// endpoint's reply if it answers within the bound (or answers at all, when
/// no bound is set); `RemoteTimeout` when the bound runs out first.  A call
/// without a bound against an endpoint that never answers has no resolution —
/// it hangs — so that pairing is kept out by the callers' preconditions.
pub open spec fn spec_call_result(ep: MockEndpoint, timeout_ms: Option<u64>) -> Result<
    Seq<char>,
    BenchError,
> {
    match ep.responds_within_ms {
        Some(latency) => match timeout_ms {
            Some(t) => if latency <= t {
                Ok(ep.reply@)
            } else {
                Err(BenchError::RemoteTimeout)
            },
            None => Ok(ep.reply@),
        },
        None => Err(BenchError::RemoteTimeout),
    }
}

/// An exec call result, seen at the spec level.
pub open spec fn response_text(r: Result<HelloResponse, BenchError>) -> Result<
    Seq<char>,
    BenchError,
> {
    match r {
        Ok(resp) => Ok(resp.text@),
        Err(e) => Err(e),
    }
}

impl SingleResponse {
    /// Strips the call's metadata, leaving the bare pending response.
    pub fn drop_metadata(self) -> (r: Self)
        ensures
            r == self,
    {
        self
    }

    /// Waits for the call to resolve against `target`.  The call reaches the
    /// endpoint (its call count grows by one) whatever the outcome; the
    /// resolution follows `spec_call_result`.  A call with no timeout against
    /// an endpoint that never answers would hang, so that pairing is ruled
    /// out here.
    pub fn wait_on(self, target: &mut MockEndpoint) -> (r: Result<HelloResponse, BenchError>)
        requires
            self.timeout_ms is Some || old(target).responds_within_ms is Some,
        ensures
            response_text(r) == spec_call_result(*old(target), self.timeout_ms),
            final(target).calls == bump(old(target).calls),
            final(target).responds_within_ms == old(target).responds_within_ms,
            final(target).reply == old(target).reply,
    {
        if target.calls < u64::MAX {
            target.calls = target.calls + 1;
        }
        match target.responds_within_ms {
            Some(latency) => match self.timeout_ms {
                Some(t) => if latency <= t {
                    Ok(HelloResponse { text: target.reply.clone() })
                } else {
                    Err(BenchError::RemoteTimeout)
                },
                None => Ok(HelloResponse { text: target.reply.clone() }),
            },
            None => Err(BenchError::RemoteTimeout),
        }
    }
}

/// The remote service's caller-facing surface.  The client implements it by
/// issuing the wire call; a server-side handler implements it by answering.
pub trait HelloService {
    /// The timeout the implementation bounds its calls with.
    spec fn call_timeout(&self) -> Option<u64>;

    /// Issues the unary call: the pending response carries the request and
    /// the implementation's timeout bound.
    fn say(&self, o: RequestOptions, p: HelloRequest) -> (r: SingleResponse)
        ensures
            r.request == p,
            r.timeout_ms == self.call_timeout(),
    ;
}

/// The reusable client of the remote service: one connection handle, opened
/// once, shared by every call made through it.
pub struct HelloServiceClient {
    pub grpc_client: GrpcClient,
    pub method_say: MethodDescriptor,
}

impl HelloServiceClient {
    /// Wraps an already opened connection handle, binding the one unary
    /// method of the service.
    pub fn with_client(grpc_client: GrpcClient) -> (c: Self)
        ensures
            c.grpc_client == grpc_client,
            c.method_say.name@ == "/HelloService/Say"@,
            c.method_say.unary,
    {
        HelloServiceClient {
            grpc_client,
            method_say: MethodDescriptor { name: "/HelloService/Say".to_owned(), unary: true },
        }
    }

    /// Opens a plain (non-TLS) connection handle towards `host:port` under
    /// `conf` and wraps it.  Opening records the target and pays no wire
    /// cost, so it does not fail; the `Result` mirrors the caller-facing
    /// surface, whose transport may refuse a target.
    pub fn new_plain(host: &str, port: u16, conf: ClientConf) -> (r: Result<Self, BenchError>)
        ensures
            r matches Ok(c) && c.grpc_client.host@ == host@ && c.grpc_client.port == port
                && c.grpc_client.conf == conf && !c.grpc_client.tls
                && c.method_say.name@ == "/HelloService/Say"@,
    {
        Ok(
            Self::with_client(
                GrpcClient { host: host.to_owned(), port, conf, tls: false },
            ),
        )
    }

    /// As `new_plain`, but the connection is opened under TLS.
    pub fn new_tls(host: &str, port: u16, conf: ClientConf) -> (r: Result<Self, BenchError>)
        ensures
            r matches Ok(c) && c.grpc_client.host@ == host@ && c.grpc_client.port == port
                && c.grpc_client.conf == conf && c.grpc_client.tls
                && c.method_say.name@ == "/HelloService/Say"@,
    {
        Ok(
            Self::with_client(GrpcClient { host: host.to_owned(), port, conf, tls: true }),
        )
    }
}

impl HelloService for HelloServiceClient {
    open spec fn call_timeout(&self) -> Option<u64> {
        self.grpc_client.conf.connection_timeout_ms
    }

    fn say(&self, o: RequestOptions, p: HelloRequest) -> (r: SingleResponse) {
        SingleResponse { request: p, timeout_ms: self.grpc_client.conf.connection_timeout_ms }
    }
}

/// The definition a server registers for this service: its name and its
/// methods' wire names.
pub struct ServerServiceDefinition {
    pub service_name: String,
    pub method_names: Vec<String>,
}

/// The server-side registrar of the service.
pub struct HelloServiceServer;

impl HelloServiceServer {
    /// Builds the service definition for a handler: the one unary method
    /// `/HelloService/Say`, dispatched to `handler`.
    pub fn new_service_def<H: HelloService>(handler: H) -> (def: ServerServiceDefinition)
        ensures
            def.service_name@ == "/HelloService"@,
            def.method_names@.len() == 1,
            def.method_names@[0]@ == "/HelloService/Say"@,
    {
        let mut method_names: Vec<String> = Vec::new();
        method_names.push("/HelloService/Say".to_owned());
        ServerServiceDefinition { service_name: "/HelloService".to_owned(), method_names }
    }
}

/// Law: a call bounded by a timeout against an endpoint that never answers
/// within it — or never answers at all — resolves to `RemoteTimeout`, never
/// to a hang.
pub proof fn lemma_timeout_on_silent_endpoint(ep: MockEndpoint, t: u64)
    requires
        ep.responds_within_ms is None || ep.responds_within_ms->0 > t,
    ensures
        spec_call_result(ep, Some(t)) == Err::<Seq<char>, BenchError>(BenchError::RemoteTimeout),
{
}

} // verus!
