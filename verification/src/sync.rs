use std::sync::mpsc::{Receiver, RecvError, SendError, Sender};
use std::sync::{Arc, LockResult, Mutex, MutexGuard, PoisonError};
use vstd::prelude::*;

verus! {

/// `std::sync::mpsc::Sender`: the sending half of a channel, opaque here.
#[verifier::external_type_specification]
#[verifier::external_body]
#[verifier::reject_recursive_types(T)]
pub struct ExSender<T>(Sender<T>);

/// `std::sync::mpsc::Receiver`: the receiving half of a channel, opaque
/// here.
#[verifier::external_type_specification]
#[verifier::external_body]
#[verifier::reject_recursive_types(T)]
pub struct ExReceiver<T>(Receiver<T>);

/// `std::sync::mpsc::SendError`: the error of a send whose receiver is
/// gone.
#[verifier::external_type_specification]
#[verifier::external_body]
#[verifier::reject_recursive_types(T)]
pub struct ExSendError<T>(SendError<T>);

/// `std::sync::mpsc::RecvError`: the error of a receive on a channel that
/// is empty and has lost every sender.
#[verifier::external_type_specification]
#[verifier::external_body]
pub struct ExRecvError(RecvError);

/// `std::sync::Mutex`: a lock around a value, opaque here.
#[verifier::external_type_specification]
#[verifier::external_body]
#[verifier::reject_recursive_types(T)]
pub struct ExMutex<T: ?Sized>(Mutex<T>);

/// `std::sync::MutexGuard`: the held lock; dropping it releases the lock.
#[verifier::external_type_specification]
#[verifier::external_body]
#[verifier::reject_recursive_types(T)]
pub struct ExMutexGuard<'a, T: ?Sized + 'a>(MutexGuard<'a, T>);

/// `std::sync::PoisonError`: the error of taking a lock whose holder
/// panicked.
#[verifier::external_type_specification]
#[verifier::external_body]
#[verifier::reject_recursive_types(T)]
pub struct ExPoisonError<T>(PoisonError<T>);

/// `std::sync::mpsc::channel`: a new unbounded channel. Nothing is claimed
/// of its two halves.
pub assume_specification<T>[ std::sync::mpsc::channel::<T> ]() -> (ends: (Sender<T>, Receiver<T>));

/// `Sender::send`: never blocks; whether the value was taken depends on
/// whether the receiving half still exists, so nothing is claimed.
pub assume_specification<T>[ Sender::<T>::send ](tx: &Sender<T>, t: T) -> (sent: Result<
    (),
    SendError<T>,
>);

/// `Receiver::recv`: blocks until a value arrives or every sender is gone,
/// for ever where neither happens. Which value arrives is decided by other
/// threads, so nothing is claimed.
pub assume_specification<T>[ Receiver::<T>::recv ](rx: &Receiver<T>) -> (got: Result<T, RecvError>);

/// `Sender::clone`: another sending half of the same channel. The copy
/// holds the same pointer to the channel as the sender it was made from, and
/// that is all a sender holds, so the two are equal.
pub assume_specification<T>[ <Sender<T> as Clone>::clone ](tx: &Sender<T>) -> (copy: Sender<T>)
    ensures
        copy == *tx,
;

/// `Arc::clone`: another pointer to the same allocation, so to the same
/// value: the copy equals the pointer it was made from.
#[verifier::external_body]
pub(crate) fn share<T>(a: &Arc<T>) -> (copy: Arc<T>)
    ensures
        copy == *a,
{
    Arc::clone(a)
}

/// `Mutex::new`: a new, unlocked mutex around `t`.
pub assume_specification<T>[ Mutex::<T>::new ](t: T) -> (m: Mutex<T>);

/// `Mutex::lock`: blocks until the lock is free, and fails where a holder
/// panicked. The value found under the lock is whatever the last holder
/// left, so nothing is claimed of it. A thread that already holds the lock
/// must not take it again: the library takes it for a few table operations
/// at a time and calls nothing else while it holds it.
pub assume_specification<'a, T: ?Sized>[ Mutex::<T>::lock ](m: &'a Mutex<T>) -> (g: LockResult<
    MutexGuard<'a, T>,
>);

/// `DerefMut::deref_mut` of a `MutexGuard`: the value under the lock, for
/// as long as the guard is borrowed.
#[verifier::external_body]
pub(crate) fn locked<'a, 'b, T>(guard: &'a mut MutexGuard<'b, T>) -> (value: &'a mut T) {
    &mut **guard
}

/// `Deref::deref` of a `MutexGuard`: the value under the lock, read-only.
#[verifier::external_body]
pub(crate) fn peek<'a, 'b, T>(guard: &'a MutexGuard<'b, T>) -> (value: &'a T) {
    &**guard
}

} // verus!
