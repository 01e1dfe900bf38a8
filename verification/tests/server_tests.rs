use bench_server::actor::Greeting;
use bench_server::hello_grpc::MockEndpoint;
use bench_server::server::{dispatch, ApplicationState, Server};
use bench_server::strutil::{format_decimal, str_eq};
use bench_server::{BenchError, StringError};

fn fresh_state() -> ApplicationState {
    ApplicationState::new(
        "Test",
        MockEndpoint::new("world", 10),
        MockEndpoint::new("isolated", 10),
    )
}

#[test]
fn health_answers_ok() {
    let mut st = fresh_state();
    assert_eq!(Server::health(), "ok");
    let rep = dispatch("/health", &mut st).unwrap();
    assert_eq!(rep.status, 200);
    assert_eq!(rep.body, "ok");
}

#[test]
fn sleep_routes_answer_their_fixed_texts() {
    let mut st = fresh_state();
    assert_eq!(dispatch("/sleep", &mut st).unwrap().body, "done");
    assert_eq!(dispatch("/s_future", &mut st).unwrap().body, "s_future done");
    assert_eq!(dispatch("/f_sleep", &mut st).unwrap().body, "fsleep done");
}

#[test]
fn count_called_three_times_counts_one_two_three() {
    let mut st = fresh_state();
    assert_eq!(dispatch("/count", &mut st).unwrap().body, "count: 1");
    assert_eq!(dispatch("/count", &mut st).unwrap().body, "count: 2");
    assert_eq!(dispatch("/count", &mut st).unwrap().body, "count: 3");
}

#[test]
fn send_wait_body_carries_the_worker_result() {
    let mut st = fresh_state();
    let rep = dispatch("/send_wait", &mut st).unwrap();
    assert!(rep.body.contains("Test: send_wait"));
    assert_eq!(rep.body, "Ok(\"Test: send_wait\")");
}

#[test]
fn fsend_wait_body_carries_the_worker_result() {
    let mut st = fresh_state();
    let rep = dispatch("/fsend_wait", &mut st).unwrap();
    assert_eq!(rep.body, "Ok(\"Test: fsend_wait\")");
}

#[test]
fn send_wait_on_stopped_worker_renders_the_failure() {
    let mut st = fresh_state();
    st.echo_addr.stop();
    let rep = dispatch("/send_wait", &mut st).unwrap();
    assert_eq!(rep.body, "Err(WorkerUnavailable)");
}

#[test]
fn send_nowait_acknowledges_while_worker_is_busy() {
    let mut st = fresh_state();
    // The worker is mid-processing: an earlier task still sits in the mailbox.
    st.echo_addr
        .send(Greeting { message: String::from("earlier") })
        .unwrap();
    let rep = dispatch("/send_nowait", &mut st).unwrap();
    assert_eq!(rep.body, "send and no wait");
    assert_eq!(st.echo_addr.mailbox.len(), 2);
    assert_eq!(st.echo_addr.mailbox[1].message, "send_wait");
}

#[test]
fn grpc_wait_renders_the_reply() {
    let mut st = fresh_state();
    let rep = dispatch("/grpc_wait", &mut st).unwrap();
    assert_eq!(rep.body, "grpc: Ok(\"world\")");
    assert_eq!(st.shared_remote.calls, 1);
    assert_eq!(st.per_remote.calls, 0);
}

#[test]
fn grpc_wait_on_silent_endpoint_yields_remote_timeout() {
    let mut st = ApplicationState::new(
        "Test",
        MockEndpoint::silent(),
        MockEndpoint::new("isolated", 10),
    );
    let rep = dispatch("/grpc_wait", &mut st).unwrap();
    assert_eq!(rep.body, "grpc: Err(RemoteTimeout)");
}

#[test]
fn grpc_wait_on_slow_endpoint_yields_remote_timeout() {
    let mut st = ApplicationState::new(
        "Test",
        MockEndpoint::new("late", 500),
        MockEndpoint::new("isolated", 10),
    );
    let rep = dispatch("/grpc_wait", &mut st).unwrap();
    assert_eq!(rep.body, "grpc: Err(RemoteTimeout)");
}

#[test]
fn grpc_per_reuses_nothing_from_the_shared_client() {
    let mut st = fresh_state();
    let shared_host_before = st.grpc_client.grpc_client.host.clone();
    let rep1 = dispatch("/grpc_per", &mut st).unwrap();
    let rep2 = dispatch("/grpc_per", &mut st).unwrap();
    assert_eq!(rep1.body, "grpc: Ok(\"isolated\")");
    assert_eq!(rep2.body, "grpc: Ok(\"isolated\")");
    // Both calls reached the fresh per-request target; none reached the
    // shared client's endpoint or touched its connection state.
    assert_eq!(st.per_remote.calls, 2);
    assert_eq!(st.shared_remote.calls, 0);
    assert_eq!(st.grpc_client.grpc_client.host, shared_host_before);
    assert_eq!(st.grpc_client.grpc_client.port, 50051);
}

#[test]
fn fgrpc_wait_answers_plain_text() {
    let mut st = fresh_state();
    let rep = dispatch("/fgrpc_wait", &mut st).unwrap();
    assert_eq!(rep.content_type, "text/plain");
    assert_eq!(rep.body, "grpc: Ok(\"world\")");
    assert_eq!(st.shared_remote.calls, 1);
}

#[test]
fn unknown_path_is_not_routed() {
    let mut st = fresh_state();
    assert!(dispatch("/nope", &mut st).is_none());
    assert!(dispatch("", &mut st).is_none());
}

#[test]
fn decimal_rendering_is_exact() {
    assert_eq!(format_decimal(0), "0");
    assert_eq!(format_decimal(7), "7");
    assert_eq!(format_decimal(10), "10");
    assert_eq!(format_decimal(90210), "90210");
    assert_eq!(format_decimal(usize::MAX), usize::MAX.to_string());
}

#[test]
fn str_eq_agrees_with_equality() {
    assert!(str_eq("", ""));
    assert!(str_eq("/count", "/count"));
    assert!(!str_eq("/count", "/county"));
    assert!(!str_eq("/count", "/coUnt"));
}

#[test]
fn error_variants_render_their_names() {
    assert_eq!(BenchError::WorkerUnavailable.render(), "WorkerUnavailable");
    assert_eq!(BenchError::RemoteTimeout.render(), "RemoteTimeout");
    assert_eq!(BenchError::RemoteTransport.render(), "RemoteTransport");
    assert_eq!(BenchError::CounterOverflow.render(), "CounterOverflow");
}

#[test]
fn string_error_renders_and_compares() {
    let e = StringError::new("boom");
    assert_eq!(e.render(), "StringError(\"boom\")");
    assert_eq!(e, StringError::new("boom"));
    assert!(StringError::new("a") != StringError::new("b"));
}
