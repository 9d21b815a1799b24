use duplex_rpc::client::{call_outcome, session, Client, SinkValue};
use duplex_rpc::dispatch::{handle_message, Handler};
use duplex_rpc::error::Error;
use duplex_rpc::message::{Atom, Message};
use std::sync::Arc;

#[derive(Debug, PartialEq)]
struct Echo(String);

impl Atom for Echo {
    fn method(&self) -> &'static str {
        "echo"
    }
}

fn echo(text: &str) -> Echo {
    Echo(text.to_string())
}

struct EchoBack;

impl Handler<Echo, Echo, Echo> for EchoBack {
    fn handle(&self, _client: Client<Echo, Echo, Echo>, params: Echo) -> Result<Echo, Error> {
        Ok(params)
    }
}

struct AlwaysFails;

impl Handler<Echo, Echo, Echo> for AlwaysFails {
    fn handle(&self, _client: Client<Echo, Echo, Echo>, _params: Echo) -> Result<Echo, Error> {
        Err(Error::Custom("custom".to_string()))
    }
}

fn take_message(value: SinkValue<Echo, Echo, Echo>) -> Message<Echo, Echo, Echo> {
    match value {
        SinkValue::Message(m) => m,
        SinkValue::Shutdown => panic!("the writer was told to stop"),
    }
}

#[test]
fn echo_round_trip() {
    let (caller, caller_out) = session::<Echo, Echo, Echo>();
    let (callee, callee_out) = session::<Echo, Echo, Echo>();

    let pending = caller.begin_call(echo("hi")).unwrap();
    let request = take_message(caller_out.recv().unwrap());
    assert_eq!(request, Message::Request { id: 0, params: echo("hi") });

    handle_message(request, Arc::new(EchoBack), callee.clone()).unwrap();
    let response = take_message(callee_out.recv().unwrap());
    assert_eq!(
        response,
        Message::Response { id: 0, results: Some(echo("hi")), error: None }
    );

    handle_message(response, Arc::new(EchoBack), caller.clone()).unwrap();
    let raw = pending.wait();
    assert_eq!(call_outcome(raw, |r: Echo| Some(r)), Ok(echo("hi")));
}

#[test]
fn handler_failure_becomes_a_remote_error() {
    let (caller, caller_out) = session::<Echo, Echo, Echo>();
    let (callee, callee_out) = session::<Echo, Echo, Echo>();

    let pending = caller.begin_call(echo("hi")).unwrap();
    let request = take_message(caller_out.recv().unwrap());

    handle_message(request, Arc::new(AlwaysFails), callee.clone()).unwrap();
    let response = take_message(callee_out.recv().unwrap());
    assert_eq!(
        response,
        Message::Response {
            id: 0,
            results: None,
            error: Some("internal error: custom".to_string()),
        }
    );

    handle_message(response, Arc::new(AlwaysFails), caller.clone()).unwrap();
    let raw = pending.wait();
    assert_eq!(
        call_outcome(raw, |r: Echo| Some(r)),
        Err(Error::RemoteError("internal error: custom".to_string()))
    );
}
