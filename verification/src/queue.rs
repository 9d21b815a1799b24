use crate::message::{Atom, Message, PendingRequests};
use std::collections::HashMap;
use std::sync::mpsc::Sender;
use vstd::prelude::*;

verus! {

broadcast use vstd::std_specs::hash::group_hash_axioms;

/// The id handed out after `id`: the counter wraps at the width of `u32`.
pub open spec fn id_after(id: u32) -> u32 {
    if id == u32::MAX {
        0u32
    } else {
        (id + 1) as u32
    }
}

/// The table of calls in flight, as a mathematical value: the counter that
/// gives the next id, and for each pending id what was registered under it.
pub struct QueueView<E> {
    pub next: u32,
    pub pending: Map<u32, E>,
}

impl<E> QueueView<E> {
    /// The table of a new session.
    pub open spec fn fresh() -> Self {
        Self::starting_at(0)
    }

    /// An empty table whose counter stands at `first`.
    pub open spec fn starting_at(first: u32) -> Self {
        QueueView { next: first, pending: Map::empty() }
    }

    /// The table after the id `self.next` has been handed out.
    pub open spec fn allocate(self) -> Self {
        QueueView { next: id_after(self.next), pending: self.pending }
    }

    /// The table after `entry` has been registered under `id`.
    pub open spec fn register(self, id: u32, entry: E) -> Self {
        QueueView { next: self.next, pending: self.pending.insert(id, entry) }
    }

    /// What is registered under `id`.
    pub open spec fn lookup(self, id: u32) -> Option<E> {
        self.pending.get(id)
    }

    /// The table after the entry under `id`, if any, has been taken out.
    pub open spec fn take(self, id: u32) -> Self {
        QueueView { next: self.next, pending: self.pending.remove(id) }
    }

    /// The table after every pending call has been given up.
    pub open spec fn abandon_all(self) -> Self {
        QueueView { next: self.next, pending: Map::empty() }
    }
}

/// A call that has been sent and awaits its reply.
#[verifier::reject_recursive_types(P)]
#[verifier::reject_recursive_types(NP)]
#[verifier::reject_recursive_types(R)]
pub struct InFlightRequest<P, NP, R> where P: Atom, NP: Atom, R: Atom {
    /// The method name of the request's parameters.
    pub method: &'static str,
    /// The sending half of the caller's completion channel.
    pub tx: Sender<Message<P, NP, R>>,
}

/// The request table of one session: the id counter and the calls in flight.
#[verifier::reject_recursive_types(P)]
#[verifier::reject_recursive_types(NP)]
#[verifier::reject_recursive_types(R)]
pub struct Queue<P, NP, R> where P: Atom, NP: Atom, R: Atom {
    id: u32,
    in_flight_requests: HashMap<u32, InFlightRequest<P, NP, R>>,
}

impl<P, NP, R> View for Queue<P, NP, R> where P: Atom, NP: Atom, R: Atom {
    type V = QueueView<InFlightRequest<P, NP, R>>;

    closed spec fn view(&self) -> Self::V {
        QueueView { next: self.id, pending: self.in_flight_requests@ }
    }
}

impl<P, NP, R> Queue<P, NP, R> where P: Atom, NP: Atom, R: Atom {
    /// An empty table whose first id is 0.
    pub fn new() -> (queue: Self)
        ensures
            queue@ == QueueView::<InFlightRequest<P, NP, R>>::fresh(),
    {
        Queue::starting_at(0)
    }

    /// An empty table whose first id is `first`.
    pub fn starting_at(first: u32) -> (queue: Self)
        ensures
            queue@ == QueueView::<InFlightRequest<P, NP, R>>::starting_at(first),
    {
        Queue { id: first, in_flight_requests: HashMap::new() }
    }

    /// Hands out the current counter value and advances the counter.
    pub fn next_id(&mut self) -> (id: u32)
        ensures
            id == old(self)@.next,
            final(self)@ == old(self)@.allocate(),
    {
        let res = self.id;
        self.id = self.id.wrapping_add(1);
        res
    }

    /// Registers a call under `id`, replacing what was pending there.
    pub fn register(&mut self, id: u32, in_flight: InFlightRequest<P, NP, R>)
        ensures
            final(self)@ == old(self)@.register(id, in_flight),
    {
        self.in_flight_requests.insert(id, in_flight);
    }

    /// Issues a call in one step: hands out the next id and registers
    /// `in_flight` under it.
    pub fn issue(&mut self, in_flight: InFlightRequest<P, NP, R>) -> (id: u32)
        ensures
            id == old(self)@.next,
            final(self)@ == old(self)@.issue(in_flight),
            final(self)@.lookup(id) == Some(in_flight),
    {
        let id = self.next_id();
        self.register(id, in_flight);
        id
    }

    /// Gives up every pending call: their completion senders are dropped, so
    /// each waiting caller finds its channel broken. The counter stays.
    pub fn abandon_all(&mut self)
        ensures
            final(self)@ == old(self)@.abandon_all(),
            final(self)@.next == old(self)@.next,
            final(self)@.pending == Map::<u32, InFlightRequest<P, NP, R>>::empty(),
    {
        self.in_flight_requests.clear();
    }

    /// Takes out the call pending under `id`. Where none is pending there the
    /// table stays as it is.
    pub fn take(&mut self, id: u32) -> (found: Option<InFlightRequest<P, NP, R>>)
        ensures
            found == old(self)@.lookup(id),
            final(self)@ == old(self)@.take(id),
            found is None ==> final(self)@ == old(self)@,
    {
        let found = self.in_flight_requests.remove(&id);
        assert(self.in_flight_requests@ =~= old(self).in_flight_requests@.remove(id));
        if found.is_none() {
            assert(self.in_flight_requests@ =~= old(self).in_flight_requests@);
        }
        found
    }
}

impl<P, NP, R> PendingRequests for Queue<P, NP, R> where P: Atom, NP: Atom, R: Atom {
    fn get_pending(&self, id: u32) -> (method: Option<&'static str>)
        ensures
            method == match self@.lookup(id) {
                Some(in_flight) => Some(in_flight.method),
                None => None,
            },
    {
        match self.in_flight_requests.get(&id) {
            Some(req) => Some(req.method),
            None => None,
        }
    }
}

} // verus!
