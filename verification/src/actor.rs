//! The single logical worker and its mailbox.  Arbitrarily many senders hand
//! it `Greeting` tasks; the worker processes them one at a time, in arrival
//! order, and answers each with a result formed from its own name and the
//! task's text.  The runtime that parks the worker for its simulated latency
//! and wakes awaiting senders lives outside the library; the mailbox order,
//! the state machine, and the correlation of each task to its result are
//! stated and proved here.

use vstd::prelude::*;
use crate::{BenchError, StringError};

verus! {

/// How long the worker rests while processing one task, in milliseconds.
/// The resting itself is the runtime's work.
pub const PROCESS_LATENCY_MS: u64 = 100;

/// The task result's text: the worker's name, `": "`, then the task's text.
pub open spec fn echo_text(name: Seq<char>, message: Seq<char>) -> Seq<char> {
    name + ": "@ + message
}

/// The texts of a mailbox's tasks, in mailbox order.
pub open spec fn mailbox_messages(mailbox: Seq<Greeting>) -> Seq<Seq<char>> {
    mailbox.map(|i: int, g: Greeting| g.message@)
}

/// The results the worker produces for `messages`, in processing order.
pub open spec fn results_of(name: Seq<char>, messages: Seq<Seq<char>>) -> Seq<Seq<char>> {
    messages.map(|i: int, m: Seq<char>| echo_text(name, m))
}

/// One task for the worker.
pub struct Greeting {
    pub message: String,
}

/// The worker's lifecycle.  Sends are accepted only while it is `Running`.
#[derive(Clone, Copy, PartialEq, Eq, Structural, Debug)]
pub enum ActorState {
    Starting,
    Running,
    Stopping,
    Stopped,
}

/// The worker itself: an immutable identity label, nothing more.
pub struct EchoActor {
    pub name: String,
}

impl EchoActor {
    pub fn new(name: &str) -> (a: Self)
        ensures
            a.name@ == name@,
    {
        EchoActor { name: name.to_owned() }
    }

    /// Processes one task: the result is the worker's name, `": "`, then the
    /// task's text.  Processing never fails in normal operation.  The
    /// simulated latency (`PROCESS_LATENCY_MS`) is the runtime's work.
    pub fn handle(&mut self, msg: Greeting) -> (r: Result<String, StringError>)
        ensures
            *final(self) == *old(self),
            r matches Ok(s) && s@ == echo_text(old(self).name@, msg.message@),
    {
        let mut s = String::new();
        s.append(self.name.as_str());
        s.append(": ");
        s.append(msg.message.as_str());
        proof {
            assert(s@ =~= echo_text(self.name@, msg.message@));
        }
        Ok(s)
    }
}

/// What a round trip through the worker resolves to: on a running worker,
/// the correlated task result; on any other state, `WorkerUnavailable`.
pub open spec fn spec_round_trip(w: WorkerHandle, message: Seq<char>) -> Result<
    Seq<char>,
    BenchError,
> {
    if w.state is Running {
        Ok(echo_text(w.actor.name@, message))
    } else {
        Err(BenchError::WorkerUnavailable)
    }
}

/// An exec worker result, seen at the spec level.
pub open spec fn result_text(r: Result<String, BenchError>) -> Result<Seq<char>, BenchError> {
    match r {
        Ok(s) => Ok(s@),
        Err(e) => Err(e),
    }
}

/// The worker together with its ordered inbound mailbox and its lifecycle
/// state.  The mailbox is the one synchronization point for all task
/// traffic: tasks leave it one at a time, in arrival order.
pub struct WorkerHandle {
    pub actor: EchoActor,
    pub state: ActorState,
    pub mailbox: Vec<Greeting>,
}

impl WorkerHandle {
    /// Starts the worker: it enters `Running` with an empty mailbox.  (The
    /// runtime logs availability on this transition.)
    pub fn start(actor: EchoActor) -> (w: WorkerHandle)
        ensures
            w.actor == actor,
            w.state is Running,
            w.mailbox@.len() == 0,
    {
        WorkerHandle { actor, state: ActorState::Running, mailbox: Vec::new() }
    }

    /// Stops the worker: no further sends are accepted.  (The runtime logs
    /// shutdown on this transition.)
    pub fn stop(&mut self)
        ensures
            final(self).state is Stopped,
            final(self).actor == old(self).actor,
            final(self).mailbox == old(self).mailbox,
    {
        self.state = ActorState::Stopped;
    }

    /// Hands one task to the mailbox.  A running worker appends it in arrival
    /// order; a worker in any other state refuses it with `WorkerUnavailable`
    /// and is left untouched.
    pub fn send(&mut self, msg: Greeting) -> (r: Result<(), BenchError>)
        ensures
            old(self).state is Running ==> r is Ok
                && final(self).mailbox@ == old(self).mailbox@.push(msg)
                && final(self).state == old(self).state
                && final(self).actor == old(self).actor,
            !(old(self).state is Running) ==> r == Err::<(), BenchError>(
                BenchError::WorkerUnavailable,
            ) && *final(self) == *old(self),
    {
        match self.state {
            ActorState::Running => {
                self.mailbox.push(msg);
                Ok(())
            },
            _ => Err(BenchError::WorkerUnavailable),
        }
    }

    /// Dequeues and processes the oldest task, if the worker is running and
    /// one is pending; otherwise does nothing.
    pub fn process_next(&mut self) -> (r: Option<Result<String, StringError>>)
        ensures
            old(self).state is Running && old(self).mailbox@.len() > 0 ==> {
                &&& r matches Some(res)
                &&& (res matches Ok(s) && s@ == echo_text(
                    old(self).actor.name@,
                    old(self).mailbox@[0].message@,
                ))
                &&& final(self).mailbox@ == old(self).mailbox@.remove(0)
                &&& final(self).state == old(self).state
                &&& final(self).actor == old(self).actor
            },
            !(old(self).state is Running && old(self).mailbox@.len() > 0) ==> r is None
                && *final(self) == *old(self),
    {
        match self.state {
            ActorState::Running => {
                if self.mailbox.len() > 0 {
                    let msg = self.mailbox.remove(0);
                    Some(self.actor.handle(msg))
                } else {
                    None
                }
            },
            _ => None,
        }
    }

    /// Processes every pending task, in arrival order, and hands back the
    /// results in that same order.  A worker that is not running processes
    /// nothing.
    pub fn process_all(&mut self) -> (rs: Vec<String>)
        ensures
            old(self).state is Running ==> rs@.map(|i: int, s: String| s@) == results_of(
                old(self).actor.name@,
                mailbox_messages(old(self).mailbox@),
            ) && final(self).mailbox@.len() == 0
                && final(self).state == old(self).state
                && final(self).actor == old(self).actor,
            !(old(self).state is Running) ==> rs@.len() == 0 && *final(self) == *old(self),
    {
        let mut rs: Vec<String> = Vec::new();
        match self.state {
            ActorState::Running => {},
            _ => {
                return rs;
            },
        }
        while self.mailbox.len() > 0
            invariant
                self.state is Running,
                self.actor == old(self).actor,
                rs@.len() + self.mailbox@.len() == old(self).mailbox@.len(),
                self.mailbox@ == old(self).mailbox@.subrange(
                    rs@.len() as int,
                    old(self).mailbox@.len() as int,
                ),
                forall|k: int|
                    0 <= k < rs@.len() ==> rs@[k]@ == echo_text(
                        old(self).actor.name@,
                        old(self).mailbox@[k].message@,
                    ),
            decreases self.mailbox@.len(),
        {
            let r = self.process_next();
            match r {
                Some(Ok(s)) => {
                    rs.push(s);
                },
                _ => {
                    proof {
                        assert(false);
                    }
                },
            }
            proof {
                assert(self.mailbox@ =~= old(self).mailbox@.subrange(
                    rs@.len() as int,
                    old(self).mailbox@.len() as int,
                ));
            }
        }
        proof {
            assert(rs@.map(|i: int, s: String| s@) =~= results_of(
                old(self).actor.name@,
                mailbox_messages(old(self).mailbox@),
            ));
        }
        rs
    }

    /// Sends one task and waits until the worker has answered it: the worker
    /// drains the mailbox in arrival order, every earlier task's result going
    /// to its own awaiter, and the result correlated to the sent task — the last
    /// one processed — is handed back.  On a worker that is not running the
    /// send fails with `WorkerUnavailable` and nothing changes.
    pub fn send_and_wait(&mut self, message: &str) -> (r: Result<String, BenchError>)
        ensures
            result_text(r) == spec_round_trip(*old(self), message@),
            old(self).state is Running ==> final(self).mailbox@.len() == 0
                && final(self).state == old(self).state
                && final(self).actor == old(self).actor,
            !(old(self).state is Running) ==> *final(self) == *old(self),
    {
        let g = Greeting { message: message.to_owned() };
        match self.send(g) {
            Err(e) => {
                return Err(e);
            },
            Ok(()) => {},
        }
        let mut last: Option<String> = None;
        while self.mailbox.len() > 0
            invariant
                self.state is Running,
                self.actor == old(self).actor,
                self.mailbox@.len() > 0 ==> self.mailbox@.last().message@ == message@,
                self.mailbox@.len() == 0 ==> (last matches Some(s) && s@ == echo_text(
                    old(self).actor.name@,
                    message@,
                )),
            decreases self.mailbox@.len(),
        {
            let was_last = self.mailbox.len() == 1;
            let r = self.process_next();
            if was_last {
                match r {
                    Some(Ok(s)) => {
                        last = Some(s);
                    },
                    _ => {
                        proof {
                            assert(false);
                        }
                    },
                }
            }
        }
        match last {
            Some(s) => Ok(s),
            None => Err(BenchError::WorkerUnavailable),
        }
    }

    /// The deferred form of `send_and_wait`: the caller's thread is not
    /// parked while the worker answers — the runtime resumes whatever awaits
    /// the result — but what is resolved is the same correlated task result,
    /// in the same processing order.
    pub fn send_and_wait_deferred(&mut self, message: &str) -> (r: Result<String, BenchError>)
        ensures
            result_text(r) == spec_round_trip(*old(self), message@),
            old(self).state is Running ==> final(self).mailbox@.len() == 0
                && final(self).state == old(self).state
                && final(self).actor == old(self).actor,
            !(old(self).state is Running) ==> *final(self) == *old(self),
    {
        self.send_and_wait(message)
    }

    /// Sends one task without waiting.  The acknowledgment is immediate
    /// whatever the mailbox holds; the task's own result is produced later by
    /// the worker and handled out of band.  A worker that is not running
    /// refuses the task, a failure that is only logged, never surfaced.
    pub fn send_no_wait(&mut self, message: &str) -> (accepted: bool)
        ensures
            old(self).state is Running ==> accepted
                && final(self).mailbox@.len() == old(self).mailbox@.len() + 1
                && mailbox_messages(final(self).mailbox@) == mailbox_messages(
                    old(self).mailbox@,
                ).push(message@)
                && final(self).state == old(self).state
                && final(self).actor == old(self).actor,
            !(old(self).state is Running) ==> !accepted && *final(self) == *old(self),
    {
        let g = Greeting { message: message.to_owned() };
        match self.send(g) {
            Ok(()) => {
                proof {
                    assert(mailbox_messages(self.mailbox@) =~= mailbox_messages(
                        old(self).mailbox@,
                    ).push(message@));
                }
                true
            },
            Err(_) => false,
        }
    }
}

/// Law: results leave the worker in mailbox order, each correlated to the
/// task at its own position.  In particular, for one sender whose own sends
/// sit at mailbox positions `i < j`, that sender's results arrive in its send
/// order.
pub proof fn lemma_fifo_per_sender(name: Seq<char>, messages: Seq<Seq<char>>, i: int, j: int)
    requires
        0 <= i < j < messages.len(),
    ensures
        results_of(name, messages).len() == messages.len(),
        results_of(name, messages)[i] == echo_text(name, messages[i]),
        results_of(name, messages)[j] == echo_text(name, messages[j]),
{
}

/// Law: one sender's view of the worker.  Where a sender's own sends occupy
/// the increasing mailbox positions `positions` among everyone's, the results
/// at those positions, read in that order, are exactly the results of that
/// sender's tasks in its send order.
pub proof fn lemma_sender_results_in_send_order(
    name: Seq<char>,
    messages: Seq<Seq<char>>,
    positions: Seq<int>,
)
    requires
        forall|k: int| 0 <= k < positions.len() ==> 0 <= #[trigger] positions[k] < messages.len(),
        forall|k1: int, k2: int|
            0 <= k1 < k2 < positions.len() ==> positions[k1] < positions[k2],
    ensures
        positions.map(|k: int, p: int| results_of(name, messages)[p]) == results_of(
            name,
            positions.map(|k: int, p: int| messages[p]),
        ),
{
    assert(positions.map(|k: int, p: int| results_of(name, messages)[p]) =~= results_of(
        name,
        positions.map(|k: int, p: int| messages[p]),
    ));
}

/// Law: the blocking and the deferred round trip are pinned to one and the
/// same resolution; on a running worker it is the task result formed from
/// the worker's name, `": "`, and the task's text.
pub proof fn lemma_round_trip_result(w: WorkerHandle, message: Seq<char>)
    requires
        w.state is Running,
    ensures
        spec_round_trip(w, message) == Ok::<Seq<char>, BenchError>(
            echo_text(w.actor.name@, message),
        ),
{
}

} // verus!
