use crate::client::Client;
use crate::error::{fails_with, Error, ErrorKind};
use crate::message::{Atom, Message};
use crate::queue::InFlightRequest;
use std::marker::PhantomData;
use std::sync::mpsc::Sender;
use std::sync::Arc;
use vstd::prelude::*;
use vstd::string::StringExecFns;

verus! {

/// What answers the peer's requests. It is called once for each inbound
/// request, with a client handle through which it may itself call the peer.
pub trait Handler<P, NP, R>: Sync + Send where P: Atom, NP: Atom, R: Atom {
    /// Answers the request with parameters `params`.
    fn handle(&self, client: Client<P, NP, R>, params: P) -> Result<R, Error>;
}

/// A handler made of a function.
#[verifier::reject_recursive_types(P)]
#[verifier::reject_recursive_types(NP)]
#[verifier::reject_recursive_types(R)]
#[verifier::reject_recursive_types(F)]
pub struct FnHandler<P, NP, R, F> where
    P: Atom,
    NP: Atom,
    R: Atom,
    F: (Fn(Client<P, NP, R>, P) -> Result<R, Error>) + Send + Sync,
 {
    f: F,
    shape: PhantomData<Client<P, NP, R>>,
}

impl<P, NP, R, F> FnHandler<P, NP, R, F> where
    P: Atom,
    NP: Atom,
    R: Atom,
    F: (Fn(Client<P, NP, R>, P) -> Result<R, Error>) + Send + Sync,
 {
    #[verifier::type_invariant]
    spec fn always_callable(self) -> bool {
        forall|client: Client<P, NP, R>, params: P| call_requires(self.f, (client, params))
    }

    /// The function that answers the requests.
    pub closed spec fn function(self) -> F {
        self.f
    }

    /// Wraps a function that can be called on every request.
    pub fn new(f: F) -> (handler: Self)
        requires
            forall|client: Client<P, NP, R>, params: P| call_requires(f, (client, params)),
        ensures
            handler.function() == f,
    {
        FnHandler { f, shape: PhantomData }
    }
}

impl<P, NP, R, F> Handler<P, NP, R> for FnHandler<P, NP, R, F> where
    P: Atom,
    NP: Atom,
    R: Atom,
    F: (Fn(Client<P, NP, R>, P) -> Result<R, Error>) + Send + Sync,
 {
    fn handle(&self, client: Client<P, NP, R>, params: P) -> (outcome: Result<R, Error>)
        ensures
            call_ensures(self.function(), (client, params), outcome),
    {
        proof {
            use_type_invariant(self);
        }
        (self.f)(client, params)
    }
}

/// Whether `reply` is the reply to the request `id` whose handler returned
/// `outcome`: the results as they are, or the error's text after the words
/// "internal error: ".
pub open spec fn is_reply_for<P, NP, R>(
    id: u32,
    outcome: Result<R, Error>,
    reply: Message<P, NP, R>,
) -> bool where P: Atom, NP: Atom, R: Atom {
    match outcome {
        Ok(results) => reply matches Message::Response { id: to, results: Some(carried), error: None }
            && to == id && carried == results,
        Err(e) => reply matches Message::Response { id: to, results: None, error: Some(text) }
            && to == id && text@ == "internal error: "@ + e@.text(),
    }
}

/// Builds the reply to the request `id` from what its handler returned. A
/// handler's failure is an ordinary reply that carries the error's text.
pub fn reply_for<P, NP, R>(id: u32, outcome: Result<R, Error>) -> (reply: Message<P, NP, R>) where
    P: Atom,
    NP: Atom,
    R: Atom,

    ensures
        is_reply_for(id, outcome, reply),
{
    match outcome {
        Ok(results) => Message::Response { id, results: Some(results), error: None },
        Err(error) => Message::Response {
            id,
            results: None,
            error: Some(String::from_str("internal error: ").concat(error.message().as_str())),
        },
    }
}

/// Where a reply goes, given what was found pending under its id: to the
/// completion channel of that call, as it came; nowhere if nothing was
/// found.
pub fn delivery<P, NP, R>(found: Option<InFlightRequest<P, NP, R>>, reply: Message<P, NP, R>) -> (out:
    Option<(Sender<Message<P, NP, R>>, Message<P, NP, R>)>) where P: Atom, NP: Atom, R: Atom
    ensures
        out == match found {
            Some(entry) => Some((entry.tx, reply)),
            None => None,
        },
{
    match found {
        Some(entry) => Some((entry.tx, reply)),
        None => None,
    }
}

/// Processes one inbound message. A request is answered by the handler and
/// the reply is put on the outbound queue. A reply is delivered on the
/// completion channel that is registered under its id; a reply whose id is
/// not pending, or whose caller is gone, is dropped. Notifications are not
/// supported: the caller keeps them away.
pub fn handle_message<P, NP, R, H>(
    inbound: Message<P, NP, R>,
    handler: Arc<H>,
    client: Client<P, NP, R>,
) -> (res: Result<(), Error>) where P: Atom, NP: Atom, R: Atom, H: Handler<P, NP, R>
    requires
        !(inbound is Notification),
    ensures
        inbound is Request && res is Err ==> fails_with(res, ErrorKind::outbound_closed()),
        inbound is Response && res is Err ==> fails_with(res, ErrorKind::LockPoisoned),
{
    match inbound {
        Message::Request { id, params } => {
            let outcome = handler.handle(client.clone(), params);
            client.enqueue(reply_for(id, outcome))
        },
        Message::Response { id, .. } => {
            match client.complete(id) {
                Ok(found) => {
                    match delivery(found, inbound) {
                        Some((tx, reply)) => {
                            let _ = tx.send(reply);
                        },
                        None => {},
                    }
                    Ok(())
                },
                Err(e) => Err(e),
            }
        },
        Message::Notification { .. } => unreached(),
    }
}

} // verus!
