use bench_server::actor::{ActorState, EchoActor, Greeting, WorkerHandle};
use bench_server::BenchError;

fn running_worker(name: &str) -> WorkerHandle {
    WorkerHandle::start(EchoActor::new(name))
}

#[test]
fn handle_echoes_name_and_text() {
    let mut a = EchoActor::new("Test");
    let r = a.handle(Greeting { message: String::from("hello") });
    assert_eq!(r.unwrap(), "Test: hello");
}

#[test]
fn blocking_and_deferred_round_trips_agree() {
    let mut w1 = running_worker("Test");
    let mut w2 = running_worker("Test");
    let blocking = w1.send_and_wait("x").unwrap();
    let deferred = w2.send_and_wait_deferred("x").unwrap();
    assert_eq!(blocking, "Test: x");
    assert_eq!(deferred, "Test: x");
    assert_eq!(blocking, deferred);
}

#[test]
fn results_keep_each_senders_send_order() {
    let mut w = running_worker("W");
    // Two senders interleave at the mailbox; each sender's own sends arrive
    // in its own order.
    w.send(Greeting { message: String::from("a1") }).unwrap();
    w.send(Greeting { message: String::from("b1") }).unwrap();
    w.send(Greeting { message: String::from("a2") }).unwrap();
    w.send(Greeting { message: String::from("b2") }).unwrap();
    let rs = w.process_all();
    assert_eq!(rs, vec!["W: a1", "W: b1", "W: a2", "W: b2"]);
    // Sender A's results, at its own mailbox positions, in its send order.
    assert_eq!(rs[0], "W: a1");
    assert_eq!(rs[2], "W: a2");
    // Sender B's likewise.
    assert_eq!(rs[1], "W: b1");
    assert_eq!(rs[3], "W: b2");
}

#[test]
fn send_to_stopped_worker_fails() {
    let mut w = running_worker("Test");
    w.stop();
    let r = w.send(Greeting { message: String::from("late") });
    assert_eq!(r, Err(BenchError::WorkerUnavailable));
    let rt = w.send_and_wait("late");
    assert_eq!(rt, Err(BenchError::WorkerUnavailable));
}

#[test]
fn send_no_wait_acknowledges_whatever_is_pending() {
    let mut w = running_worker("Test");
    w.send(Greeting { message: String::from("earlier") }).unwrap();
    let accepted = w.send_no_wait("later");
    assert!(accepted);
    assert_eq!(w.mailbox.len(), 2);
    assert_eq!(w.mailbox[0].message, "earlier");
    assert_eq!(w.mailbox[1].message, "later");
}

#[test]
fn round_trip_drains_earlier_tasks_first() {
    let mut w = running_worker("Test");
    w.send(Greeting { message: String::from("ahead") }).unwrap();
    let r = w.send_and_wait("mine").unwrap();
    assert_eq!(r, "Test: mine");
    assert_eq!(w.mailbox.len(), 0);
    assert!(matches!(w.state, ActorState::Running));
}

#[test]
fn process_next_takes_the_oldest_task() {
    let mut w = running_worker("Test");
    w.send(Greeting { message: String::from("first") }).unwrap();
    w.send(Greeting { message: String::from("second") }).unwrap();
    let r = w.process_next().unwrap().unwrap();
    assert_eq!(r, "Test: first");
    assert_eq!(w.mailbox.len(), 1);
    assert_eq!(w.process_next().unwrap().unwrap(), "Test: second");
    assert!(w.process_next().is_none());
}

#[test]
fn send_outside_running_is_refused_in_every_state() {
    for state in [ActorState::Starting, ActorState::Stopping, ActorState::Stopped] {
        let mut w = WorkerHandle {
            actor: EchoActor::new("Test"),
            state,
            mailbox: Vec::new(),
        };
        let r = w.send(Greeting { message: String::from("t") });
        assert_eq!(r, Err(BenchError::WorkerUnavailable));
        assert!(w.mailbox.is_empty());
        assert!(w.process_next().is_none());
    }
}

#[test]
fn empty_task_text_still_carries_the_name() {
    let mut w = running_worker("Test");
    let r = w.send_and_wait("").unwrap();
    assert_eq!(r, "Test: ");
}
