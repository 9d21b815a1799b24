use duplex_rpc::client::{call_outcome, completion_outcome, send_outcome, session, SinkValue};
use duplex_rpc::error::Error;
use duplex_rpc::message::{Atom, Message};
use std::sync::mpsc::channel;

#[derive(Debug, PartialEq)]
enum Params {
    Add(i64, i64),
    Greet(String),
}

impl Atom for Params {
    fn method(&self) -> &'static str {
        match self {
            Params::Add(..) => "add",
            Params::Greet(..) => "greet",
        }
    }
}

#[derive(Debug, PartialEq)]
enum Results {
    Sum(i64),
    Greeting(String),
}

impl Atom for Results {
    fn method(&self) -> &'static str {
        match self {
            Results::Sum(..) => "add",
            Results::Greeting(..) => "greet",
        }
    }
}

#[derive(Debug, PartialEq)]
struct Nothing;

impl Atom for Nothing {
    fn method(&self) -> &'static str {
        "nothing"
    }
}

type Msg = Message<Params, Nothing, Results>;

fn sum_only(results: Results) -> Option<i64> {
    match results {
        Results::Sum(n) => Some(n),
        _ => None,
    }
}

fn transport(text: &str) -> Error {
    Error::TransportError(text.to_string())
}

#[test]
fn begin_call_sends_requests_with_successive_ids() {
    let (client, outbound) = session::<Params, Nothing, Results>();
    let first = client.begin_call(Params::Add(1, 2)).unwrap();
    let second = client.begin_call(Params::Greet("you".to_string())).unwrap();
    let third = client.begin_call(Params::Add(3, 4)).unwrap();
    assert_eq!((first.id(), second.id(), third.id()), (0, 1, 2));
    assert_eq!(
        outbound.recv(),
        Ok(SinkValue::Message(Message::Request { id: 0, params: Params::Add(1, 2) }))
    );
    assert_eq!(
        outbound.recv(),
        Ok(SinkValue::Message(Message::Request { id: 1, params: Params::Greet("you".to_string()) }))
    );
    assert_eq!(
        outbound.recv(),
        Ok(SinkValue::Message(Message::Request { id: 2, params: Params::Add(3, 4) }))
    );
}

#[test]
fn begin_call_registers_the_method_of_the_params() {
    let (client, _outbound) = session::<Params, Nothing, Results>();
    let add = client.begin_call(Params::Add(1, 2)).unwrap();
    let greet = client.begin_call(Params::Greet("you".to_string())).unwrap();
    assert_eq!(client.get_pending(add.id()), Ok(Some("add")));
    assert_eq!(client.get_pending(greet.id()), Ok(Some("greet")));
    assert_eq!(client.get_pending(2), Ok(None));
}

#[test]
fn get_pending_on_a_new_session_finds_nothing() {
    let (client, _outbound) = session::<Params, Nothing, Results>();
    assert_eq!(client.get_pending(0), Ok(None));
}

#[test]
fn clones_share_the_table_and_the_outbound_queue() {
    let (client, outbound) = session::<Params, Nothing, Results>();
    let other = client.clone();
    let first = client.begin_call(Params::Add(1, 1)).unwrap();
    let second = other.begin_call(Params::Add(2, 2)).unwrap();
    let third = client.clone().begin_call(Params::Add(3, 3)).unwrap();
    assert_eq!((first.id(), second.id(), third.id()), (0, 1, 2));
    assert_eq!(other.get_pending(0), Ok(Some("add")));
    assert_eq!(client.get_pending(1), Ok(Some("add")));
    for id in 0..3u32 {
        match outbound.recv().unwrap() {
            SinkValue::Message(Message::Request { id: sent, .. }) => assert_eq!(sent, id),
            other => panic!("not a request: {:?}", other),
        }
    }
}

#[test]
fn sessions_do_not_share_their_tables() {
    let (one, _one_out) = session::<Params, Nothing, Results>();
    let (two, _two_out) = session::<Params, Nothing, Results>();
    assert_eq!(one.begin_call(Params::Add(1, 1)).unwrap().id(), 0);
    assert_eq!(two.begin_call(Params::Add(1, 1)).unwrap().id(), 0);
    assert_eq!(one.get_pending(0), Ok(Some("add")));
}

#[test]
fn begin_call_fails_when_the_writer_is_gone() {
    let (client, outbound) = session::<Params, Nothing, Results>();
    drop(outbound);
    match client.begin_call(Params::Add(1, 2)) {
        Err(e) => assert_eq!(e, transport("outbound queue closed")),
        Ok(_) => panic!("the request cannot have been queued"),
    }
}

#[test]
fn call_raw_fails_when_the_writer_is_gone() {
    let (client, outbound) = session::<Params, Nothing, Results>();
    drop(outbound);
    assert_eq!(client.call_raw(Params::Add(1, 2)), Err(transport("outbound queue closed")));
}

#[test]
fn call_wraps_the_failure_of_the_raw_call() {
    let (client, outbound) = session::<Params, Nothing, Results>();
    drop(outbound);
    assert_eq!(
        client.call(Params::Add(1, 2), sum_only),
        Err(transport("transport error: outbound queue closed"))
    );
}

#[test]
fn wait_fails_once_the_session_is_torn_down() {
    let (client, outbound) = session::<Params, Nothing, Results>();
    let pending = client.begin_call(Params::Add(1, 2)).unwrap();
    drop(client);
    drop(outbound);
    assert_eq!(pending.wait(), Err(transport("completion channel closed")));
}

#[test]
fn send_outcome_tells_success_from_a_closed_queue() {
    let (tx, rx) = channel::<u8>();
    assert_eq!(send_outcome(tx.send(1)), Ok(()));
    drop(rx);
    assert_eq!(send_outcome(tx.send(2)), Err(transport("outbound queue closed")));
}

#[test]
fn completion_outcome_hands_the_message_on() {
    let (tx, rx) = channel::<Msg>();
    tx.send(Message::Response { id: 1, results: Some(Results::Sum(3)), error: None }).unwrap();
    assert_eq!(
        completion_outcome(rx.recv()),
        Ok(Message::Response { id: 1, results: Some(Results::Sum(3)), error: None })
    );
    drop(tx);
    assert_eq!(completion_outcome(rx.recv()), Err(transport("completion channel closed")));
}

#[test]
fn call_outcome_without_results_or_error_is_missing_results() {
    let raw: Result<Msg, Error> = Ok(Message::Response { id: 0, results: None, error: None });
    assert_eq!(call_outcome(raw, sum_only), Err(Error::MissingResults));
}

#[test]
fn call_outcome_with_an_error_is_a_remote_error() {
    let raw: Result<Msg, Error> =
        Ok(Message::Response { id: 0, results: None, error: Some("boom".to_string()) });
    assert_eq!(call_outcome(raw, sum_only), Err(Error::RemoteError("boom".to_string())));
}

#[test]
fn call_outcome_with_rejected_results_is_wrong_results() {
    let raw: Result<Msg, Error> = Ok(Message::Response {
        id: 0,
        results: Some(Results::Greeting("hello".to_string())),
        error: None,
    });
    assert_eq!(call_outcome(raw, sum_only), Err(Error::WrongResults));
}

#[test]
fn call_outcome_with_accepted_results_is_their_projection() {
    let raw: Result<Msg, Error> =
        Ok(Message::Response { id: 0, results: Some(Results::Sum(42)), error: None });
    assert_eq!(call_outcome(raw, sum_only), Ok(42));
}

#[test]
fn call_outcome_lets_the_error_win_over_results() {
    let raw: Result<Msg, Error> = Ok(Message::Response {
        id: 0,
        results: Some(Results::Sum(42)),
        error: Some("boom".to_string()),
    });
    assert_eq!(call_outcome(raw, sum_only), Err(Error::RemoteError("boom".to_string())));
}

#[test]
fn call_outcome_of_a_request_is_wrong_message_type() {
    let raw: Result<Msg, Error> = Ok(Message::Request { id: 0, params: Params::Add(1, 2) });
    assert_eq!(call_outcome(raw, sum_only), Err(Error::WrongMessageType));
}

#[test]
fn call_outcome_of_a_notification_is_wrong_message_type() {
    let raw: Result<Msg, Error> = Ok(Message::Notification { params: Nothing });
    assert_eq!(call_outcome(raw, sum_only), Err(Error::WrongMessageType));
}

#[test]
fn call_outcome_wraps_a_failed_raw_call() {
    let raw: Result<Msg, Error> = Err(Error::LockPoisoned);
    assert_eq!(call_outcome(raw, sum_only), Err(transport("lock poisoned")));
    let raw: Result<Msg, Error> = Err(transport("completion channel closed"));
    assert_eq!(
        call_outcome(raw, sum_only),
        Err(transport("transport error: completion channel closed"))
    );
}

#[test]
fn lock_outcome_hands_the_held_lock_on() {
    let shared = std::sync::Mutex::new(7u32);
    match duplex_rpc::client::lock_outcome(shared.lock()) {
        Ok(mut guard) => {
            assert_eq!(*guard, 7);
            *guard = 8;
        }
        Err(e) => panic!("a fresh lock cannot be poisoned: {:?}", e),
    }
    assert_eq!(*shared.lock().unwrap(), 8);
}

#[test]
fn outbound_wraps_the_message_for_the_writer() {
    let m: Msg = Message::Response { id: 4, results: Some(Results::Sum(1)), error: None };
    assert_eq!(
        duplex_rpc::client::outbound(m),
        SinkValue::Message(Message::Response { id: 4, results: Some(Results::Sum(1)), error: None })
    );
}

#[test]
fn outbound_request_carries_the_id_and_the_params() {
    let value: SinkValue<Params, Nothing, Results> =
        duplex_rpc::client::outbound_request(17, Params::Greet("you".to_string()));
    assert_eq!(
        value,
        SinkValue::Message(Message::Request { id: 17, params: Params::Greet("you".to_string()) })
    );
}

#[test]
fn the_first_call_queues_exactly_one_request_with_id_zero() {
    let (client, outbound) = session::<Params, Nothing, Results>();
    let pending = client.begin_call(Params::Add(2, 3)).unwrap();
    assert_eq!(pending.id(), 0);
    assert_eq!(
        outbound.try_recv(),
        Ok(SinkValue::Message(Message::Request { id: 0, params: Params::Add(2, 3) }))
    );
    assert!(outbound.try_recv().is_err());
}

#[test]
fn pending_call_new_keeps_the_id_and_the_channel() {
    let (tx, rx) = channel::<Msg>();
    let pending = duplex_rpc::client::PendingCall::new(23, rx);
    assert_eq!(pending.id(), 23);
    tx.send(Message::Response { id: 23, results: None, error: None }).unwrap();
    assert_eq!(pending.wait(), Ok(Message::Response { id: 23, results: None, error: None }));
}

#[test]
fn abandoned_calls_fail_with_a_transport_error() {
    let (client, _outbound) = session::<Params, Nothing, Results>();
    let first = client.begin_call(Params::Add(1, 2)).unwrap();
    let second = client.clone().begin_call(Params::Add(3, 4)).unwrap();
    assert_eq!(client.abandon_all(), Ok(()));
    assert_eq!(client.get_pending(0), Ok(None));
    assert_eq!(client.get_pending(1), Ok(None));
    assert_eq!(first.wait(), Err(transport("completion channel closed")));
    assert_eq!(second.wait(), Err(transport("completion channel closed")));
}

#[test]
fn calls_issued_after_abandoning_go_on_from_the_counter() {
    let (client, _outbound) = session::<Params, Nothing, Results>();
    let _first = client.begin_call(Params::Add(1, 2)).unwrap();
    assert_eq!(client.abandon_all(), Ok(()));
    let next = client.begin_call(Params::Add(3, 4)).unwrap();
    assert_eq!(next.id(), 1);
    assert_eq!(client.get_pending(1), Ok(Some("add")));
}
