use bench_server::grpc_rs;
use bench_server::hello::HelloRequest;
use bench_server::hello_grpc::{
    ClientConf, HelloService, HelloServiceClient, HelloServiceServer, MockEndpoint,
    RequestOptions, SHARED_CLIENT_TIMEOUT_MS,
};
use bench_server::BenchError;

fn sample() -> HelloRequest {
    let mut p = HelloRequest::new();
    p.set_id(String::from("000001"));
    p.set_message(String::from("rustcean loves rust"));
    p
}

fn shared_client() -> HelloServiceClient {
    let conf = ClientConf { connection_timeout_ms: Some(SHARED_CLIENT_TIMEOUT_MS) };
    HelloServiceClient::new_plain("xxx.xxx.xxx.xxx", 50051, conf).unwrap()
}

#[test]
fn request_setters_record_fields() {
    let p = sample();
    assert_eq!(p.get_id(), "000001");
    assert_eq!(p.get_message(), "rustcean loves rust");
}

#[test]
fn new_plain_records_target_and_conf() {
    let c = shared_client();
    assert_eq!(c.grpc_client.host, "xxx.xxx.xxx.xxx");
    assert_eq!(c.grpc_client.port, 50051);
    assert_eq!(c.grpc_client.conf.connection_timeout_ms, Some(200));
    assert!(!c.grpc_client.tls);
    assert_eq!(c.method_say.name, "/HelloService/Say");
}

#[test]
fn new_tls_marks_the_connection() {
    let c = HelloServiceClient::new_tls("h", 1, ClientConf::new()).unwrap();
    assert!(c.grpc_client.tls);
}

#[test]
fn prompt_endpoint_answers_within_timeout() {
    let c = shared_client();
    let mut target = MockEndpoint::new("world", 10);
    let resp = c.say(RequestOptions::new(), sample());
    let r = resp.wait_on(&mut target).unwrap();
    assert_eq!(r.get_text(), "world");
    assert_eq!(target.calls, 1);
}

#[test]
fn silent_endpoint_times_out_within_bound() {
    let c = shared_client();
    let mut target = MockEndpoint::silent();
    let resp = c.say(RequestOptions::new(), sample());
    let r = resp.wait_on(&mut target);
    assert_eq!(r.unwrap_err(), BenchError::RemoteTimeout);
    assert_eq!(target.calls, 1);
}

#[test]
fn slow_endpoint_times_out_within_bound() {
    let c = shared_client();
    let mut target = MockEndpoint::new("late", 500);
    let resp = c.say(RequestOptions::new(), sample());
    let r = resp.wait_on(&mut target);
    assert_eq!(r.unwrap_err(), BenchError::RemoteTimeout);
}

#[test]
fn service_def_holds_the_one_unary_method() {
    let def = HelloServiceServer::new_service_def(shared_client());
    assert_eq!(def.service_name, "/HelloService");
    assert_eq!(def.method_names, vec!["/HelloService/Say"]);
}

struct EchoBackService;

impl grpc_rs::HelloService for EchoBackService {
    fn say(&self, req: HelloRequest) -> bench_server::hello::HelloResponse {
        let mut r = bench_server::hello::HelloResponse::new();
        r.set_text(req.message);
        r
    }
}

#[test]
fn alternative_service_registration_holds_the_method() {
    let svc = grpc_rs::create_hello_service(EchoBackService);
    assert_eq!(svc.method_names, vec!["/HelloService/Say"]);
}

#[test]
fn alternative_client_call_with_option_times_out() {
    let client = grpc_rs::HelloServiceClient::new(grpc_rs::Channel {
        host: String::from("h"),
        port: 50051,
    });
    let mut target = MockEndpoint::new("slow", 100);
    let r = client.say_opt(&sample(), grpc_rs::CallOption::with_timeout(50), &mut target);
    assert_eq!(r.unwrap_err(), BenchError::RemoteTimeout);
    assert_eq!(target.calls, 1);
}

#[test]
fn alternative_client_unbounded_call_gets_the_reply() {
    let client = grpc_rs::HelloServiceClient::new(grpc_rs::Channel {
        host: String::from("h"),
        port: 50051,
    });
    let mut target = MockEndpoint::new("anytime", 10_000);
    let r = client.say(&sample(), &mut target).unwrap();
    assert_eq!(r.get_text(), "anytime");
}

#[test]
fn alternative_async_call_resolves_on_receive() {
    let client = grpc_rs::HelloServiceClient::new(grpc_rs::Channel {
        host: String::from("h"),
        port: 50051,
    });
    let mut target = MockEndpoint::new("deferred", 10);
    let recv = client
        .say_async_opt(&sample(), grpc_rs::CallOption::with_timeout(50))
        .unwrap();
    assert_eq!(target.calls, 0);
    let r = recv.receive_on(&mut target).unwrap();
    assert_eq!(r.get_text(), "deferred");
    assert_eq!(target.calls, 1);
}

#[test]
fn alternative_async_default_has_no_bound() {
    let client = grpc_rs::HelloServiceClient::new(grpc_rs::Channel {
        host: String::from("h"),
        port: 50051,
    });
    let recv = client.say_async(&sample()).unwrap();
    assert_eq!(recv.timeout_ms, None);
    assert_eq!(recv.request.message, "rustcean loves rust");
}

#[test]
fn unbounded_client_gets_any_answer_eventually() {
    let conf = ClientConf::new();
    assert_eq!(conf.connection_timeout_ms, None);
    let c = HelloServiceClient::new_plain("h", 1, conf).unwrap();
    let mut target = MockEndpoint::new("slowly", 60_000);
    let resp = c.say(RequestOptions::new(), sample());
    let r = resp.wait_on(&mut target).unwrap();
    assert_eq!(r.get_text(), "slowly");
}
