use crate::error::{fails_with, Error, ErrorKind};
use crate::message::{Atom, Message, PendingRequests};
use crate::queue::{InFlightRequest, Queue};
use crate::sync::{locked, peek, share};
use std::sync::mpsc::{Receiver, RecvError, SendError, Sender};
use std::sync::{Arc, LockResult, Mutex, MutexGuard};
use vstd::prelude::*;
use vstd::string::StringExecFns;

verus! {

/// What travels on the outbound queue to the writer.
#[derive(Debug, PartialEq)]
pub enum SinkValue<P, NP, R> where P: Atom, NP: Atom, R: Atom {
    /// Tells the writer to stop.
    Shutdown,
    /// A message for the writer to encode.
    Message(Message<P, NP, R>),
}

impl ErrorKind {
    /// The error of a message that could not be put on the outbound queue,
    /// because the writer is gone.
    pub open spec fn outbound_closed() -> ErrorKind {
        ErrorKind::TransportError("outbound queue closed"@)
    }

    /// The error of a call whose completion channel broke before a reply
    /// arrived.
    pub open spec fn completion_closed() -> ErrorKind {
        ErrorKind::TransportError("completion channel closed"@)
    }
}

/// The value that puts the message `m` on the outbound queue.
pub fn outbound<P, NP, R>(m: Message<P, NP, R>) -> (value: SinkValue<P, NP, R>) where
    P: Atom,
    NP: Atom,
    R: Atom,

    ensures
        value == SinkValue::Message(m),
{
    SinkValue::Message(m)
}

/// The value that puts the request of a call on the outbound queue: the
/// request carries the id that the call was registered under, and the
/// caller's parameters as they are.
pub fn outbound_request<P, NP, R>(id: u32, params: P) -> (value: SinkValue<P, NP, R>) where
    P: Atom,
    NP: Atom,
    R: Atom,

    ensures
        value == SinkValue::Message(Message::<P, NP, R>::Request { id, params }),
{
    outbound(Message::Request { id, params })
}

/// What a send on the outbound queue means to the sender: the value was
/// queued, or the writer is gone.
pub fn send_outcome<T>(sent: Result<(), SendError<T>>) -> (res: Result<(), Error>)
    ensures
        sent is Ok ==> res is Ok,
        sent is Err ==> fails_with(res, ErrorKind::outbound_closed()),
{
    match sent {
        Ok(()) => Ok(()),
        Err(_) => Err(Error::TransportError(String::from_str("outbound queue closed"))),
    }
}

/// What a receive on a completion channel means to the caller: the message
/// that arrived, or a broken channel.
pub fn completion_outcome<P, NP, R>(got: Result<Message<P, NP, R>, RecvError>) -> (res: Result<
    Message<P, NP, R>,
    Error,
>) where P: Atom, NP: Atom, R: Atom
    ensures
        got matches Ok(m) ==> res == Ok::<Message<P, NP, R>, Error>(m),
        got is Err ==> fails_with(res, ErrorKind::completion_closed()),
{
    match got {
        Ok(m) => Ok(m),
        Err(_) => Err(Error::TransportError(String::from_str("completion channel closed"))),
    }
}

/// The ways in which a raw call can fail: the table's lock is poisoned, the
/// writer is gone, or the completion channel broke before a reply arrived.
pub open spec fn is_raw_failure(kind: ErrorKind) -> bool {
    ||| kind == ErrorKind::LockPoisoned
    ||| kind == ErrorKind::outbound_closed()
    ||| kind == ErrorKind::completion_closed()
}

/// Whether `res` is what a typed call makes of the raw reply `raw` with the
/// projection `downgrade`. A failed raw call is a transport error that
/// carries the failure's text. In a reply the error wins over the results;
/// results go through the projection, which may reject them; a reply with
/// neither is missing its results. Any other message is of the wrong type.
pub open spec fn is_call_outcome<P, NP, R, D, RR>(
    raw: Result<Message<P, NP, R>, Error>,
    downgrade: D,
    res: Result<RR, Error>,
) -> bool where P: Atom, NP: Atom, R: Atom, D: Fn(R) -> Option<RR> {
    match raw {
        Err(e) => fails_with(res, ErrorKind::TransportError(e@.text())),
        Ok(Message::Response { error: Some(text), .. }) => fails_with(
            res,
            ErrorKind::RemoteError(text@),
        ),
        Ok(Message::Response { error: None, results: Some(results), .. }) => match res {
            Ok(narrowed) => call_ensures(downgrade, (results,), Some(narrowed)),
            Err(e) => e@ == ErrorKind::WrongResults && call_ensures(
                downgrade,
                (results,),
                None::<RR>,
            ),
        },
        Ok(Message::Response { error: None, results: None, .. }) => fails_with(
            res,
            ErrorKind::MissingResults,
        ),
        Ok(_) => fails_with(res, ErrorKind::WrongMessageType),
    }
}

/// Turns the raw reply of a call into the typed result that the call site
/// expects.
pub fn call_outcome<P, NP, R, D, RR>(raw: Result<Message<P, NP, R>, Error>, downgrade: D) -> (res:
    Result<RR, Error>) where P: Atom, NP: Atom, R: Atom, D: Fn(R) -> Option<RR>
    requires
        raw matches Ok(Message::Response { error: None, results: Some(results), .. })
            ==> call_requires(downgrade, (results,)),
    ensures
        is_call_outcome(raw, downgrade, res),
{
    match raw {
        Ok(m) => match m {
            Message::Response { results, error, .. } => {
                if let Some(error) = error {
                    Err(Error::RemoteError(error))
                } else if let Some(results) = results {
                    match downgrade(results) {
                        Some(narrowed) => Ok(narrowed),
                        None => Err(Error::WrongResults),
                    }
                } else {
                    Err(Error::MissingResults)
                }
            },
            _ => Err(Error::WrongMessageType),
        },
        Err(e) => Err(Error::TransportError(e.message())),
    }
}

/// The caller-facing handle of a session. Every handle of one session
/// shares the session's request table and outbound queue.
#[verifier::reject_recursive_types(P)]
#[verifier::reject_recursive_types(NP)]
#[verifier::reject_recursive_types(R)]
pub struct Client<P, NP, R> where P: Atom, NP: Atom, R: Atom {
    queue: Arc<Mutex<Queue<P, NP, R>>>,
    sink: Sender<SinkValue<P, NP, R>>,
}

/// A call whose request is on the outbound queue and whose reply has not
/// been waited for yet.
#[verifier::reject_recursive_types(P)]
#[verifier::reject_recursive_types(NP)]
#[verifier::reject_recursive_types(R)]
pub struct PendingCall<P, NP, R> where P: Atom, NP: Atom, R: Atom {
    id: u32,
    completion: Receiver<Message<P, NP, R>>,
}

/// Opens a session: an empty request table, an outbound queue, and the
/// session's first client handle. The receiving half of the outbound queue
/// is for the writer.
pub fn session<P, NP, R>() -> (ends: (Client<P, NP, R>, Receiver<SinkValue<P, NP, R>>)) where
    P: Atom,
    NP: Atom,
    R: Atom,
 {
    let (tx, rx) = std::sync::mpsc::channel::<SinkValue<P, NP, R>>();
    let client = Client { queue: Arc::new(Mutex::new(Queue::new())), sink: tx };
    (client, rx)
}

impl<P, NP, R> PendingCall<P, NP, R> where P: Atom, NP: Atom, R: Atom {
    /// The id under which the call is registered.
    pub closed spec fn spec_id(&self) -> u32 {
        self.id
    }

    /// The receiving half of the call's completion channel.
    pub closed spec fn completion(&self) -> Receiver<Message<P, NP, R>> {
        self.completion
    }

    /// The handle of the call registered under `id`, whose reply arrives on
    /// `completion`.
    pub fn new(id: u32, completion: Receiver<Message<P, NP, R>>) -> (pending: Self)
        ensures
            pending.spec_id() == id,
            pending.completion() == completion,
    {
        PendingCall { id, completion }
    }

    /// The id under which the call is registered.
    #[verifier::when_used_as_spec(spec_id)]
    pub fn id(&self) -> (id: u32)
        ensures
            id == self.spec_id(),
    {
        self.id
    }

    /// Blocks, without a timeout, until the reply arrives or the completion
    /// channel breaks.
    pub fn wait(self) -> (res: Result<Message<P, NP, R>, Error>)
        ensures
            res is Err ==> fails_with(res, ErrorKind::completion_closed()),
    {
        completion_outcome(self.completion.recv())
    }
}

impl<P, NP, R> Client<P, NP, R> where P: Atom, NP: Atom, R: Atom {
    /// Another handle of the same session: it shares the request table and
    /// the outbound queue with this one.
    pub fn clone(&self) -> (copy: Self)
        ensures
            copy == *self,
    {
        Client { queue: share(&self.queue), sink: self.sink.clone() }
    }

    /// Puts `m` on the outbound queue.
    pub(crate) fn enqueue(&self, m: Message<P, NP, R>) -> (res: Result<(), Error>)
        ensures
            res is Err ==> fails_with(res, ErrorKind::outbound_closed()),
    {
        send_outcome(self.sink.send(outbound(m)))
    }

    /// Takes the call pending under `id` out of the session's table.
    pub(crate) fn complete(&self, id: u32) -> (res: Result<Option<InFlightRequest<P, NP, R>>, Error>)
        ensures
            res is Err ==> fails_with(res, ErrorKind::LockPoisoned),
    {
        match lock_outcome(self.queue.lock()) {
            Ok(mut guard) => Ok(locked(&mut guard).take(id)),
            Err(e) => Err(e),
        }
    }

    /// Gives up every call that is pending in the session, so that each
    /// caller that waits for a reply gets a transport error instead of
    /// waiting for ever. For the runtime to call once its reader has ended.
    pub fn abandon_all(&self) -> (res: Result<(), Error>)
        ensures
            res is Err ==> fails_with(res, ErrorKind::LockPoisoned),
    {
        match lock_outcome(self.queue.lock()) {
            Ok(mut guard) => {
                locked(&mut guard).abandon_all();
                Ok(())
            },
            Err(e) => Err(e),
        }
    }

    /// The method name of the call pending under `id`, if there is one.
    pub fn get_pending(&self, id: u32) -> (res: Result<Option<&'static str>, Error>)
        ensures
            res is Err ==> fails_with(res, ErrorKind::LockPoisoned),
    {
        match lock_outcome(self.queue.lock()) {
            Ok(guard) => Ok(peek(&guard).get_pending(id)),
            Err(e) => Err(e),
        }
    }

    /// Issues a request without waiting for its reply: allocates an id and
    /// registers a completion channel under it while holding the table's
    /// lock, and only then puts the request on the outbound queue.
    pub fn begin_call(&self, params: P) -> (res: Result<PendingCall<P, NP, R>, Error>)
        ensures
            res is Err ==> fails_with(res, ErrorKind::LockPoisoned) || fails_with(
                res,
                ErrorKind::outbound_closed(),
            ),
    {
        let method = params.method();
        let (tx, rx) = std::sync::mpsc::channel::<Message<P, NP, R>>();
        let id: u32 = match lock_outcome(self.queue.lock()) {
            Ok(mut guard) => {
                let queue = locked(&mut guard);
                // One step under the lock: no reply finds the id unregistered.
                let in_flight = InFlightRequest { method, tx };
                queue.issue(in_flight)
            },
            Err(e) => {
                return Err(e);
            },
        };
        let pending = PendingCall::new(id, rx);
        match send_outcome(self.sink.send(outbound_request(id, params))) {
            Ok(()) => Ok(pending),
            Err(e) => Err(e),
        }
    }

    /// Issues a request and blocks, without a timeout, until its reply
    /// arrives: the message that was delivered under the request's id.
    pub fn call_raw(&self, params: P) -> (res: Result<Message<P, NP, R>, Error>)
        ensures
            res matches Err(e) ==> is_raw_failure(e@),
    {
        match self.begin_call(params) {
            Ok(pending) => pending.wait(),
            Err(e) => Err(e),
        }
    }

    /// Issues a request, waits for its reply, and narrows the reply's
    /// results to the shape that this call site expects.
    pub fn call<D, RR>(&self, params: P, downgrade: D) -> (res: Result<RR, Error>) where
        D: Fn(R) -> Option<RR>,

        requires
            forall|results: R| call_requires(downgrade, (results,)),
        ensures
            exists|raw: Result<Message<P, NP, R>, Error>|
                {
                    &&& #[trigger] is_call_outcome(raw, downgrade, res)
                    &&& raw matches Err(e) ==> is_raw_failure(e@)
                },
    {
        let raw = self.call_raw(params);
        call_outcome(raw, downgrade)
    }
}

/// What an attempt to take the table's lock means to the one who made it:
/// the held lock, or a lock that a panicking holder has poisoned.
pub fn lock_outcome<'a, T>(attempt: LockResult<MutexGuard<'a, T>>) -> (res: Result<
    MutexGuard<'a, T>,
    Error,
>)
    ensures
        attempt matches Ok(guard) ==> res == Ok::<MutexGuard<'a, T>, Error>(guard),
        attempt is Err ==> fails_with(res, ErrorKind::LockPoisoned),
{
    match attempt {
        Ok(guard) => Ok(guard),
        Err(_) => Err(Error::LockPoisoned),
    }
}

} // verus!
