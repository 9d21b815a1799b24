use crate::client::SinkValue;
use crate::message::{Atom, Message};
use std::time::Duration;
use vstd::prelude::*;

verus! {

/// The span of time that `Duration::from_secs` makes of a number of whole
/// seconds.
pub uninterp spec fn whole_seconds(secs: u64) -> Duration;

/// `Duration::from_secs`: the span of `secs` whole seconds.
pub assume_specification[ Duration::from_secs ](secs: u64) -> (span: Duration)
    ensures
        span == whole_seconds(secs),
;

/// How long a connection attempt may take: two seconds.
pub fn default_timeout() -> (span: Duration)
    ensures
        span == whole_seconds(2),
{
    Duration::from_secs(2)
}

/// What the writer does with a value taken from the outbound queue: it
/// encodes a message, and stops at the shutdown sentinel.
pub fn writer_action<P, NP, R>(value: SinkValue<P, NP, R>) -> (to_encode: Option<
    Message<P, NP, R>,
>) where P: Atom, NP: Atom, R: Atom
    ensures
        to_encode == match value {
            SinkValue::Message(m) => Some(m),
            SinkValue::Shutdown => None,
        },
{
    match value {
        SinkValue::Message(m) => Some(m),
        SinkValue::Shutdown => None,
    }
}

/// What joining the runtime reports, given how the writer and then the
/// reader ended: the first failure, if there is one.
pub fn join_outcome<E>(writer: Result<(), E>, reader: Result<(), E>) -> (res: Result<(), E>)
    ensures
        res == if writer is Err {
            writer
        } else {
            reader
        },
{
    match writer {
        Err(e) => Err(e),
        Ok(()) => reader,
    }
}

} // verus!
