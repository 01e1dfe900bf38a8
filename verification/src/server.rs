//! The dispatcher and the strategy set.  Each route names one way of
//! producing a response — blocking, deferred, counter increment, worker
//! round trip, fire-and-forget, or a remote call through the shared or a
//! per-request client — and every handler reads the one shared
//! `ApplicationState`.  What each strategy returns, and what it does to the
//! shared state, is pinned here; the listener, the thread pool and the timers
//! that give the strategies their latency live outside the library.

use vstd::prelude::*;
use crate::BenchError;
use crate::spec_error_text;
use crate::actor::{
    mailbox_messages, result_text, spec_round_trip, EchoActor, WorkerHandle,
};
use crate::counter::{next_count, Counter};
use crate::hello::{HelloRequest, HelloResponse};
use crate::hello_grpc::{
    bump, response_text, spec_call_result, ClientConf, HelloService, HelloServiceClient,
    MockEndpoint, RequestOptions, SHARED_CLIENT_TIMEOUT_MS,
};
use crate::strutil::{decimal_rep, format_decimal, str_eq};

verus! {

/// How long the sleeping strategies rest, in milliseconds.  The resting is
/// the runtime's work.
pub const SLEEP_MS: u64 = 100;

/// One HTTP-level response: a status, a content type, a body.
pub struct Reply {
    pub status: u16,
    pub content_type: String,
    pub body: String,
}

/// The aggregate every request handler reads: the counter, the worker
/// handle, and the shared remote client.  The two endpoints stand for the
/// remote collaborators the clients call: the one the shared client is
/// connected to, and the separate target every per-request client is opened
/// towards.
pub struct ApplicationState {
    pub counter: Counter,
    pub echo_addr: WorkerHandle,
    pub grpc_client: HelloServiceClient,
    pub shared_remote: MockEndpoint,
    pub per_remote: MockEndpoint,
}

impl ApplicationState {
    /// The state's invariant: the counter's own invariant holds and the
    /// shared client carries its configured call timeout, so no call through
    /// it can hang.
    pub open spec fn wf(&self) -> bool {
        &&& self.counter.wf()
        &&& self.grpc_client.grpc_client.conf.connection_timeout_ms == Some(
            SHARED_CLIENT_TIMEOUT_MS,
        )
    }

    /// Builds the state the server starts with: a fresh counter, a running
    /// worker named `worker_name`, and the shared client opened towards its
    /// target with the configured timeout.  The endpoints are handed in by
    /// the runtime that owns the transport.
    pub fn new(worker_name: &str, shared_remote: MockEndpoint, per_remote: MockEndpoint) -> (st:
        ApplicationState)
        ensures
            st.wf(),
            st.counter.value == 0,
            st.echo_addr.state is Running,
            st.echo_addr.mailbox@.len() == 0,
            st.echo_addr.actor.name@ == worker_name@,
            st.shared_remote == shared_remote,
            st.per_remote == per_remote,
    {
        let conf = ClientConf { connection_timeout_ms: Some(SHARED_CLIENT_TIMEOUT_MS) };
        let client = match HelloServiceClient::new_plain("xxx.xxx.xxx.xxx", 50051, conf) {
            Ok(c) => c,
            Err(_) => vstd::pervasive::unreached(),
        };
        ApplicationState {
            counter: Counter::new(),
            echo_addr: WorkerHandle::start(EchoActor::new(worker_name)),
            grpc_client: client,
            shared_remote,
            per_remote,
        }
    }
}

/// The textual form of a strategy outcome: `Ok("<text>")` for a result,
/// `Err(<error>)` for a failure — a best-effort rendering, so a fault never
/// reaches the transport unhandled.
pub open spec fn spec_render_outcome(t: Result<Seq<char>, BenchError>) -> Seq<char> {
    match t {
        Ok(s) => "Ok(\""@ + s + "\")"@,
        Err(e) => "Err("@ + spec_error_text(e) + ")"@,
    }
}

/// Renders a worker outcome as text.
pub fn render_worker_outcome(r: &Result<String, BenchError>) -> (s: String)
    ensures
        s@ == spec_render_outcome(result_text(*r)),
{
    match r {
        Ok(text) => {
            let mut s = String::new();
            s.append("Ok(\"");
            s.append(text.as_str());
            s.append("\")");
            proof {
                assert(s@ =~= spec_render_outcome(result_text(*r)));
            }
            s
        },
        Err(e) => {
            let mut s = String::new();
            s.append("Err(");
            s.append(e.render());
            s.append(")");
            proof {
                assert(s@ =~= spec_render_outcome(result_text(*r)));
            }
            s
        },
    }
}

/// Renders a remote-call outcome as text.
pub fn render_remote_outcome(r: &Result<HelloResponse, BenchError>) -> (s: String)
    ensures
        s@ == spec_render_outcome(response_text(*r)),
{
    match r {
        Ok(resp) => {
            let mut s = String::new();
            s.append("Ok(\"");
            s.append(resp.get_text());
            s.append("\")");
            proof {
                assert(s@ =~= spec_render_outcome(response_text(*r)));
            }
            s
        },
        Err(e) => {
            let mut s = String::new();
            s.append("Err(");
            s.append(e.render());
            s.append(")");
            proof {
                assert(s@ =~= spec_render_outcome(response_text(*r)));
            }
            s
        },
    }
}

/// The body of the counting strategy for new value `n`.
pub open spec fn spec_count_body(n: nat) -> Seq<char> {
    "count: "@ + decimal_rep(n)
}

/// The body of a remote-call strategy for outcome `t`.
pub open spec fn spec_grpc_body(t: Result<Seq<char>, BenchError>) -> Seq<char> {
    "grpc: "@ + spec_render_outcome(t)
}

/// The sample request every remote-call strategy sends, fixed for
/// reproducibility.
pub fn sample_request() -> (p: HelloRequest)
    ensures
        p.id@ == "000001"@,
        p.message@ == "rustcean loves rust"@,
{
    let mut p = HelloRequest::new();
    p.set_id("000001".to_owned());
    p.set_message("rustcean loves rust".to_owned());
    p
}

/// The routes the dispatcher serves.
#[derive(Clone, Copy, PartialEq, Eq, Structural, Debug)]
pub enum Route {
    Health,
    Sleep,
    Count,
    SleepFuture,
    FutureSleep,
    SendWait,
    FutureSendWait,
    SendNoWait,
    GrpcWait,
    GrpcPer,
    FutureGrpcWait,
}

/// The dispatch table: which route a path names, if any.
pub open spec fn spec_parse_route(p: Seq<char>) -> Option<Route> {
    if p == "/health"@ {
        Some(Route::Health)
    } else if p == "/sleep"@ {
        Some(Route::Sleep)
    } else if p == "/count"@ {
        Some(Route::Count)
    } else if p == "/s_future"@ {
        Some(Route::SleepFuture)
    } else if p == "/f_sleep"@ {
        Some(Route::FutureSleep)
    } else if p == "/send_wait"@ {
        Some(Route::SendWait)
    } else if p == "/fsend_wait"@ {
        Some(Route::FutureSendWait)
    } else if p == "/send_nowait"@ {
        Some(Route::SendNoWait)
    } else if p == "/grpc_wait"@ {
        Some(Route::GrpcWait)
    } else if p == "/grpc_per"@ {
        Some(Route::GrpcPer)
    } else if p == "/fgrpc_wait"@ {
        Some(Route::FutureGrpcWait)
    } else {
        None
    }
}

/// Looks a path up in the dispatch table.
pub fn parse_route(path: &str) -> (r: Option<Route>)
    ensures
        r == spec_parse_route(path@),
{
    if str_eq(path, "/health") {
        Some(Route::Health)
    } else if str_eq(path, "/sleep") {
        Some(Route::Sleep)
    } else if str_eq(path, "/count") {
        Some(Route::Count)
    } else if str_eq(path, "/s_future") {
        Some(Route::SleepFuture)
    } else if str_eq(path, "/f_sleep") {
        Some(Route::FutureSleep)
    } else if str_eq(path, "/send_wait") {
        Some(Route::SendWait)
    } else if str_eq(path, "/fsend_wait") {
        Some(Route::FutureSendWait)
    } else if str_eq(path, "/send_nowait") {
        Some(Route::SendNoWait)
    } else if str_eq(path, "/grpc_wait") {
        Some(Route::GrpcWait)
    } else if str_eq(path, "/grpc_per") {
        Some(Route::GrpcPer)
    } else if str_eq(path, "/fgrpc_wait") {
        Some(Route::FutureGrpcWait)
    } else {
        None
    }
}

/// What the body of each route is, as a function of the state the request
/// found.
pub open spec fn spec_route_body(route: Route, st: ApplicationState) -> Seq<char> {
    match route {
        Route::Health => "ok"@,
        Route::Sleep => "done"@,
        Route::Count => spec_count_body(st.counter.value as nat + 1),
        Route::SleepFuture => "s_future done"@,
        Route::FutureSleep => "fsleep done"@,
        Route::SendWait => spec_render_outcome(spec_round_trip(st.echo_addr, "send_wait"@)),
        Route::FutureSendWait => spec_render_outcome(
            spec_round_trip(st.echo_addr, "fsend_wait"@),
        ),
        Route::SendNoWait => "send and no wait"@,
        Route::GrpcWait => spec_grpc_body(
            spec_call_result(
                st.shared_remote,
                st.grpc_client.grpc_client.conf.connection_timeout_ms,
            ),
        ),
        Route::GrpcPer => spec_grpc_body(
            spec_call_result(st.per_remote, Some(SHARED_CLIENT_TIMEOUT_MS)),
        ),
        Route::FutureGrpcWait => spec_grpc_body(
            spec_call_result(
                st.shared_remote,
                st.grpc_client.grpc_client.conf.connection_timeout_ms,
            ),
        ),
    }
}

/// The counter value each route leaves behind.
pub open spec fn spec_counter_after(route: Route, st: ApplicationState) -> nat {
    if route is Count {
        next_count(st.counter.value as nat)
    } else {
        st.counter.value as nat
    }
}

/// The mailbox contents each route leaves behind.
pub open spec fn spec_mailbox_after(route: Route, st: ApplicationState) -> Seq<Seq<char>> {
    let mb = mailbox_messages(st.echo_addr.mailbox@);
    if !(st.echo_addr.state is Running) {
        mb
    } else if route is SendWait || route is FutureSendWait {
        Seq::empty()
    } else if route is SendNoWait {
        mb.push("send_wait"@)
    } else {
        mb
    }
}

/// The shared endpoint's call count each route leaves behind: only the two
/// shared-client strategies reach it.
pub open spec fn spec_shared_calls_after(route: Route, st: ApplicationState) -> u64 {
    if route is GrpcWait || route is FutureGrpcWait {
        bump(st.shared_remote.calls)
    } else {
        st.shared_remote.calls
    }
}

/// The per-request endpoint's call count each route leaves behind: only the
/// per-request strategy reaches it.
pub open spec fn spec_per_calls_after(route: Route, st: ApplicationState) -> u64 {
    if route is GrpcPer {
        bump(st.per_remote.calls)
    } else {
        st.per_remote.calls
    }
}

/// The strategy set.  Starting the listener that feeds `dispatch` is the
/// runtime's work.
pub struct Server;

impl Server {
    /// The health check.
    pub fn health() -> (s: &'static str)
        ensures
            s@ == "ok"@,
    {
        "ok"
    }

    /// The blocking-sleep strategy: the runtime parks the serving thread for
    /// `SLEEP_MS` before this returns the completion text.
    pub fn sleep() -> (s: &'static str)
        ensures
            s@ == "done"@,
    {
        "done"
    }

    /// The sleep-then-defer strategy: the serving thread is parked for
    /// `SLEEP_MS` first, and only the ready completion text is deferred.
    pub fn sleep_and_future() -> (s: &'static str)
        ensures
            s@ == "s_future done"@,
    {
        "s_future done"
    }

    /// The deferred-sleep strategy: the whole rest is wrapped as a deferred
    /// computation, so no serving thread slot is held beyond scheduling it.
    pub fn future_sleep() -> (s: &'static str)
        ensures
            s@ == "fsleep done"@,
    {
        Self::fsleep()
    }

    /// The deferred computation behind `future_sleep`.
    pub fn fsleep() -> (s: &'static str)
        ensures
            s@ == "fsleep done"@,
    {
        "fsleep done"
    }

    /// The counting strategy: increments the shared counter and renders the
    /// new value.  Safe under arbitrary concurrent callers: the counter's
    /// increment is one atomic step.
    pub fn count(state: &mut ApplicationState) -> (body: String)
        requires
            old(state).counter.wf(),
        ensures
            body@ == spec_count_body(old(state).counter.value as nat + 1),
            final(state).counter.value as nat == next_count(old(state).counter.value as nat),
            final(state).counter.wf(),
            final(state).echo_addr == old(state).echo_addr,
            final(state).grpc_client == old(state).grpc_client,
            final(state).shared_remote == old(state).shared_remote,
            final(state).per_remote == old(state).per_remote,
    {
        let n = state.counter.fetch_increment();
        let mut body = "count: ".to_owned();
        let rendered = format_decimal(n);
        body.append(rendered.as_str());
        proof {
            assert(body@ =~= spec_count_body(old(state).counter.value as nat + 1));
        }
        body
    }

    /// The blocking worker round trip: sends one task and holds the caller
    /// until the worker, draining its mailbox in arrival order, answers it;
    /// the body renders the correlated result, or the failure.
    pub fn send_wait(state: &mut ApplicationState) -> (body: String)
        ensures
            body@ == spec_render_outcome(spec_round_trip(old(state).echo_addr, "send_wait"@)),
            old(state).echo_addr.state is Running ==> final(state).echo_addr.mailbox@.len() == 0,
            !(old(state).echo_addr.state is Running) ==> final(state).echo_addr == old(
                state,
            ).echo_addr,
            final(state).echo_addr.state == old(state).echo_addr.state,
            final(state).echo_addr.actor == old(state).echo_addr.actor,
            final(state).counter == old(state).counter,
            final(state).grpc_client == old(state).grpc_client,
            final(state).shared_remote == old(state).shared_remote,
            final(state).per_remote == old(state).per_remote,
    {
        let r = state.echo_addr.send_and_wait("send_wait");
        render_worker_outcome(&r)
    }

    /// The deferred worker round trip, behind `future_send_wait`: no thread
    /// is held while the worker answers, and the completion order follows
    /// the worker's processing order.
    pub fn fsend_wait(addr: &mut WorkerHandle) -> (body: String)
        ensures
            body@ == spec_render_outcome(spec_round_trip(*old(addr), "fsend_wait"@)),
            old(addr).state is Running ==> final(addr).mailbox@.len() == 0,
            !(old(addr).state is Running) ==> *final(addr) == *old(addr),
            final(addr).state == old(addr).state,
            final(addr).actor == old(addr).actor,
    {
        let r = addr.send_and_wait_deferred("fsend_wait");
        render_worker_outcome(&r)
    }

    /// The deferred worker round trip as a strategy over the shared state.
    pub fn future_send_wait(state: &mut ApplicationState) -> (body: String)
        ensures
            body@ == spec_render_outcome(spec_round_trip(old(state).echo_addr, "fsend_wait"@)),
            old(state).echo_addr.state is Running ==> final(state).echo_addr.mailbox@.len() == 0,
            !(old(state).echo_addr.state is Running) ==> final(state).echo_addr == old(
                state,
            ).echo_addr,
            final(state).echo_addr.state == old(state).echo_addr.state,
            final(state).echo_addr.actor == old(state).echo_addr.actor,
            final(state).counter == old(state).counter,
            final(state).grpc_client == old(state).grpc_client,
            final(state).shared_remote == old(state).shared_remote,
            final(state).per_remote == old(state).per_remote,
    {
        Self::fsend_wait(&mut state.echo_addr)
    }

    /// The fire-and-forget strategy: hands the worker one task and
    /// acknowledges at once, whatever the mailbox already holds; the task's
    /// own result — or the refusal of a worker that is not running — is
    /// handled out of band, by logging.
    pub fn send_no_wait(state: &mut ApplicationState) -> (s: &'static str)
        ensures
            s@ == "send and no wait"@,
            old(state).echo_addr.state is Running ==> mailbox_messages(
                final(state).echo_addr.mailbox@,
            ) == mailbox_messages(old(state).echo_addr.mailbox@).push("send_wait"@),
            !(old(state).echo_addr.state is Running) ==> final(state).echo_addr == old(
                state,
            ).echo_addr,
            final(state).echo_addr.state == old(state).echo_addr.state,
            final(state).echo_addr.actor == old(state).echo_addr.actor,
            final(state).counter == old(state).counter,
            final(state).grpc_client == old(state).grpc_client,
            final(state).shared_remote == old(state).shared_remote,
            final(state).per_remote == old(state).per_remote,
    {
        let _accepted = state.echo_addr.send_no_wait("send_wait");
        "send and no wait"
    }

    /// The blocking remote call through the shared client: one connection,
    /// opened once, carries every call; the caller is held for the remote
    /// latency, bounded by the configured timeout.
    pub fn grpc_wait(state: &mut ApplicationState) -> (body: String)
        requires
            old(state).grpc_client.grpc_client.conf.connection_timeout_ms is Some,
        ensures
            body@ == spec_grpc_body(
                spec_call_result(
                    old(state).shared_remote,
                    old(state).grpc_client.grpc_client.conf.connection_timeout_ms,
                ),
            ),
            final(state).shared_remote.calls == bump(old(state).shared_remote.calls),
            final(state).shared_remote.responds_within_ms == old(
                state,
            ).shared_remote.responds_within_ms,
            final(state).shared_remote.reply == old(state).shared_remote.reply,
            final(state).grpc_client == old(state).grpc_client,
            final(state).counter == old(state).counter,
            final(state).echo_addr == old(state).echo_addr,
            final(state).per_remote == old(state).per_remote,
    {
        let v = sample_request();
        let resp = state.grpc_client.say(RequestOptions::new(), v);
        let r = resp.wait_on(&mut state.shared_remote);
        let mut body = "grpc: ".to_owned();
        let rendered = render_remote_outcome(&r);
        body.append(rendered.as_str());
        proof {
            assert(body@ =~= spec_grpc_body(
                spec_call_result(
                    old(state).shared_remote,
                    old(state).grpc_client.grpc_client.conf.connection_timeout_ms,
                ),
            ));
        }
        body
    }

    /// The per-request remote call: a fresh client, opened towards the
    /// separate per-request target with the same configured timeout, carries
    /// exactly one call and is discarded — the full connection setup cost is
    /// paid every time, and no connection state of the shared client is
    /// touched or reused.
    pub fn grpc_per(state: &mut ApplicationState) -> (body: String)
        ensures
            body@ == spec_grpc_body(
                spec_call_result(old(state).per_remote, Some(SHARED_CLIENT_TIMEOUT_MS)),
            ),
            final(state).per_remote.calls == bump(old(state).per_remote.calls),
            final(state).per_remote.responds_within_ms == old(state).per_remote.responds_within_ms,
            final(state).per_remote.reply == old(state).per_remote.reply,
            final(state).grpc_client == old(state).grpc_client,
            final(state).shared_remote == old(state).shared_remote,
            final(state).counter == old(state).counter,
            final(state).echo_addr == old(state).echo_addr,
    {
        let conf = ClientConf { connection_timeout_ms: Some(SHARED_CLIENT_TIMEOUT_MS) };
        let client = match HelloServiceClient::new_plain("xxx.xxx.xxx.xxx", 50001, conf) {
            Ok(c) => c,
            Err(_) => vstd::pervasive::unreached(),
        };
        let v = sample_request();
        let resp = client.say(RequestOptions::new(), v);
        let r = resp.wait_on(&mut state.per_remote);
        let mut body = "grpc: ".to_owned();
        let rendered = render_remote_outcome(&r);
        body.append(rendered.as_str());
        proof {
            assert(body@ =~= spec_grpc_body(
                spec_call_result(old(state).per_remote, Some(SHARED_CLIENT_TIMEOUT_MS)),
            ));
        }
        body
    }

    /// The deferred computation behind `future_grpc_wait`: the call through
    /// the shared client, awaited without holding a thread.
    pub fn fgrpc_wait(client: &HelloServiceClient, target: &mut MockEndpoint) -> (body: String)
        requires
            client.grpc_client.conf.connection_timeout_ms is Some,
        ensures
            body@ == spec_grpc_body(
                spec_call_result(*old(target), client.grpc_client.conf.connection_timeout_ms),
            ),
            final(target).calls == bump(old(target).calls),
            final(target).responds_within_ms == old(target).responds_within_ms,
            final(target).reply == old(target).reply,
    {
        let v = sample_request();
        let resp = client.say(RequestOptions::new(), v);
        let r = resp.drop_metadata().wait_on(target);
        let mut body = "grpc: ".to_owned();
        let rendered = render_remote_outcome(&r);
        body.append(rendered.as_str());
        proof {
            assert(body@ =~= spec_grpc_body(
                spec_call_result(*old(target), client.grpc_client.conf.connection_timeout_ms),
            ));
        }
        body
    }

    /// The deferred remote call as a strategy: the body once the call
    /// resolves, carried as plain text; a failure is rendered into the body
    /// rather than reaching the transport as a fault.
    pub fn future_grpc_wait(state: &mut ApplicationState) -> (rep: Reply)
        requires
            old(state).grpc_client.grpc_client.conf.connection_timeout_ms is Some,
        ensures
            rep.status == 200,
            rep.content_type@ == "text/plain"@,
            rep.body@ == spec_grpc_body(
                spec_call_result(
                    old(state).shared_remote,
                    old(state).grpc_client.grpc_client.conf.connection_timeout_ms,
                ),
            ),
            final(state).shared_remote.calls == bump(old(state).shared_remote.calls),
            final(state).shared_remote.responds_within_ms == old(
                state,
            ).shared_remote.responds_within_ms,
            final(state).shared_remote.reply == old(state).shared_remote.reply,
            final(state).grpc_client == old(state).grpc_client,
            final(state).counter == old(state).counter,
            final(state).echo_addr == old(state).echo_addr,
            final(state).per_remote == old(state).per_remote,
    {
        let body = Self::fgrpc_wait(&state.grpc_client, &mut state.shared_remote);
        Reply { status: 200, content_type: "text/plain".to_owned(), body }
    }
}

/// Routes one request: looks the path up and runs its strategy.  Every known
/// route answers 200 with a plain-text body pinned by `spec_route_body`; an
/// unknown path answers nothing (the transport's 404) and leaves the state
/// untouched.
pub fn dispatch(path: &str, state: &mut ApplicationState) -> (r: Option<Reply>)
    requires
        old(state).wf(),
    ensures
        final(state).wf(),
        spec_parse_route(path@) is None ==> r is None && *final(state) == *old(state),
        spec_parse_route(path@) matches Some(route) ==> {
            &&& (r matches Some(rep)
                && rep.status == 200
                && rep.content_type@ == "text/plain"@
                && rep.body@ == spec_route_body(route, *old(state)))
            &&& final(state).counter.value as nat == spec_counter_after(route, *old(state))
            &&& mailbox_messages(final(state).echo_addr.mailbox@) == spec_mailbox_after(
                route,
                *old(state),
            )
            &&& final(state).echo_addr.state == old(state).echo_addr.state
            &&& final(state).echo_addr.actor == old(state).echo_addr.actor
            &&& final(state).grpc_client == old(state).grpc_client
            &&& final(state).shared_remote.calls == spec_shared_calls_after(route, *old(state))
            &&& final(state).shared_remote.responds_within_ms == old(
                state,
            ).shared_remote.responds_within_ms
            &&& final(state).shared_remote.reply == old(state).shared_remote.reply
            &&& final(state).per_remote.calls == spec_per_calls_after(route, *old(state))
            &&& final(state).per_remote.responds_within_ms == old(
                state,
            ).per_remote.responds_within_ms
            &&& final(state).per_remote.reply == old(state).per_remote.reply
        },
{
    let route = match parse_route(path) {
        Some(route) => route,
        None => {
            return None;
        },
    };
    let body: String = match route {
        Route::Health => Server::health().to_owned(),
        Route::Sleep => Server::sleep().to_owned(),
        Route::Count => Server::count(state),
        Route::SleepFuture => Server::sleep_and_future().to_owned(),
        Route::FutureSleep => Server::future_sleep().to_owned(),
        Route::SendWait => Server::send_wait(state),
        Route::FutureSendWait => Server::future_send_wait(state),
        Route::SendNoWait => Server::send_no_wait(state).to_owned(),
        Route::GrpcWait => Server::grpc_wait(state),
        Route::GrpcPer => Server::grpc_per(state),
        Route::FutureGrpcWait => {
            let rep = Server::future_grpc_wait(state);
            return Some(rep);
        },
    };
    Some(Reply { status: 200, content_type: "text/plain".to_owned(), body })
}

} // verus!
