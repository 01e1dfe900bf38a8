//! An alternative client surface for the same remote unary procedure, kept
//! beside `hello_grpc` so the two client stacks can be compared: here the
//! channel is built first and handed to the client, the timeout travels in a
//! per-call option rather than in the connection configuration, and the
//! asynchronous form hands back a receiver to await.  The resolution rule
//! against an endpoint is the one of `hello_grpc`.

use vstd::prelude::*;
use crate::BenchError;
use crate::hello::{HelloRequest, HelloResponse};
use crate::hello_grpc::{bump, response_text, spec_call_result, MockEndpoint};

verus! {

/// A channel towards one target.
pub struct Channel {
    pub host: String,
    pub port: u16,
}

/// Per-call options: the bound on the call, if one is set.
pub struct CallOption {
    pub timeout_ms: Option<u64>,
}

impl CallOption {
    /// An option bounding the call by `t` milliseconds.
    pub fn with_timeout(t: u64) -> (o: Self)
        ensures
            o.timeout_ms == Some(t),
    {
        CallOption { timeout_ms: Some(t) }
    }
}

impl Default for CallOption {
    /// The default option sets no bound.
    fn default() -> (o: Self)
        ensures
            o.timeout_ms is None,
    {
        CallOption { timeout_ms: None }
    }
}

/// The client core: the channel every call of this client travels over.
pub struct Client {
    pub channel: Channel,
}

/// A pending asynchronous unary call: the request it carries and the bound
/// on it.  Awaiting it against an endpoint yields the response or the error.
pub struct ClientUnaryReceiver {
    pub request: HelloRequest,
    pub timeout_ms: Option<u64>,
}

impl ClientUnaryReceiver {
    /// Awaits the resolution against `target`: the call reaches the endpoint
    /// whatever the outcome, and the resolution follows `spec_call_result`.
    /// An unbounded call against an endpoint that never answers would hang,
    /// so that pairing is ruled out here.
    pub fn receive_on(self, target: &mut MockEndpoint) -> (r: Result<HelloResponse, BenchError>)
        requires
            self.timeout_ms is Some || old(target).responds_within_ms is Some,
        ensures
            response_text(r) == spec_call_result(*old(target), self.timeout_ms),
            final(target).calls == bump(old(target).calls),
            final(target).responds_within_ms == old(target).responds_within_ms,
            final(target).reply == old(target).reply,
    {
        if target.calls < u64::MAX {
            target.calls = target.calls + 1;
        }
        match target.responds_within_ms {
            Some(latency) => match self.timeout_ms {
                Some(t) => if latency <= t {
                    Ok(HelloResponse { text: target.reply.clone() })
                } else {
                    Err(BenchError::RemoteTimeout)
                },
                None => Ok(HelloResponse { text: target.reply.clone() }),
            },
            None => Err(BenchError::RemoteTimeout),
        }
    }
}

/// The client of the remote service over a prebuilt channel.
pub struct HelloServiceClient {
    pub client: Client,
}

impl HelloServiceClient {
    /// Wraps a channel.
    pub fn new(channel: Channel) -> (c: Self)
        ensures
            c.client.channel == channel,
    {
        HelloServiceClient { client: Client { channel } }
    }

    /// The blocking unary call under `opt`, resolved against `target`.  An
    /// unbounded call against an endpoint that never answers would hang, so
    /// that pairing is ruled out here.
    pub fn say_opt(&self, req: &HelloRequest, opt: CallOption, target: &mut MockEndpoint) -> (r:
        Result<HelloResponse, BenchError>)
        requires
            opt.timeout_ms is Some || old(target).responds_within_ms is Some,
        ensures
            response_text(r) == spec_call_result(*old(target), opt.timeout_ms),
            final(target).calls == bump(old(target).calls),
            final(target).responds_within_ms == old(target).responds_within_ms,
            final(target).reply == old(target).reply,
    {
        let pending = ClientUnaryReceiver {
            request: HelloRequest { id: req.id.clone(), message: req.message.clone() },
            timeout_ms: opt.timeout_ms,
        };
        pending.receive_on(target)
    }

    /// The blocking unary call under the default option: no bound, so the
    /// endpoint must answer at some point.
    pub fn say(&self, req: &HelloRequest, target: &mut MockEndpoint) -> (r: Result<
        HelloResponse,
        BenchError,
    >)
        requires
            old(target).responds_within_ms is Some,
        ensures
            response_text(r) == spec_call_result(*old(target), None),
            final(target).calls == bump(old(target).calls),
            final(target).responds_within_ms == old(target).responds_within_ms,
            final(target).reply == old(target).reply,
    {
        self.say_opt(req, CallOption::default(), target)
    }

    /// The asynchronous unary call under `opt`: hands back the receiver to
    /// await, without reaching the endpoint yet.
    pub fn say_async_opt(&self, req: &HelloRequest, opt: CallOption) -> (r: Result<
        ClientUnaryReceiver,
        BenchError,
    >)
        ensures
            r matches Ok(recv) && recv.request.id@ == req.id@ && recv.request.message@
                == req.message@ && recv.timeout_ms == opt.timeout_ms,
    {
        Ok(
            ClientUnaryReceiver {
                request: HelloRequest { id: req.id.clone(), message: req.message.clone() },
                timeout_ms: opt.timeout_ms,
            },
        )
    }

    /// The asynchronous unary call under the default option.
    pub fn say_async(&self, req: &HelloRequest) -> (r: Result<ClientUnaryReceiver, BenchError>)
        ensures
            r matches Ok(recv) && recv.request.id@ == req.id@ && recv.request.message@
                == req.message@ && recv.timeout_ms is None,
    {
        self.say_async_opt(req, CallOption::default())
    }
}

/// The server-side handler surface of the service.
pub trait HelloService {
    /// Answers one unary call.
    fn say(&self, req: HelloRequest) -> HelloResponse;
}

/// A registered service: its methods' wire names.
pub struct Service {
    pub method_names: Vec<String>,
}

/// Builds the service registration for a handler: the one unary method
/// `/HelloService/Say`, dispatched to `s`.
pub fn create_hello_service<S: HelloService>(s: S) -> (svc: Service)
    ensures
        svc.method_names@.len() == 1,
        svc.method_names@[0]@ == "/HelloService/Say"@,
{
    let mut method_names: Vec<String> = Vec::new();
    method_names.push("/HelloService/Say".to_owned());
    Service { method_names }
}

} // verus!
