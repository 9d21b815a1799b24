use vstd::prelude::*;

verus! {

/// What a payload type must offer to travel through the runtime: it can be
/// handed to another thread, and it names the method it belongs to.
pub trait Atom: Send + Sized + 'static {
    /// The logical method name of this payload.
    fn method(&self) -> &'static str;
}

/// One logical message on the wire.
#[derive(Debug, PartialEq)]
#[allow(inconsistent_fields)]
pub enum Message<P, NP, R> where P: Atom, NP: Atom, R: Atom {
    /// An invocation, from caller to callee.
    Request { id: u32, params: P },
    /// The answer to the request with the same id.
    Response { id: u32, results: Option<R>, error: Option<String> },
    /// A message that expects no answer.
    Notification { params: NP },
}

/// Read-only access to the calls that still await their reply.
pub trait PendingRequests {
    /// The method name of the call pending under `id`, if there is one.
    fn get_pending(&self, id: u32) -> Option<&'static str>;
}

} // verus!
