//! The outside types and functions that the library rests on.
//!
//! Verus takes what stands here on trust. Each item names what it describes and
//! says what is claimed of it. The types are opaque: the library carries their
//! values and never looks inside one.

use core::task::Waker;
use std::sync::Mutex;
use vstd::prelude::*;

verus! {

/// [`core::task::Waker`], the handle by which a waiting task is told to run
/// again. Nothing is claimed of what is inside.
#[verifier::external_type_specification]
#[verifier::external_body]
pub struct ExWaker(core::task::Waker);

/// [`std::sync::Mutex`]. What a lock guards changes behind shared references, so
/// a value of this type stands for the lock itself, not for its contents.
#[verifier::external_type_specification]
#[verifier::external_body]
#[verifier::reject_recursive_types(T)]
pub struct ExMutex<T: ?Sized>(std::sync::Mutex<T>);

/// [`async_std::channel::Sender`], the sending end of a channel. Sending is up to
/// the caller of the library.
#[verifier::external_type_specification]
#[verifier::external_body]
#[verifier::reject_recursive_types(T)]
pub struct ExSender<T>(async_std::channel::Sender<T>);

/// [`async_std::channel::Receiver`], the receiving end of a channel. Receiving is
/// up to the caller of the library.
#[verifier::external_type_specification]
#[verifier::external_body]
#[verifier::reject_recursive_types(T)]
pub struct ExReceiver<T>(async_std::channel::Receiver<T>);

/// [`tokio::sync::Mutex`]. As with the lock of the standard library, a value of
/// this type stands for the lock itself, not for its contents.
#[verifier::external_type_specification]
#[verifier::external_body]
#[verifier::reject_recursive_types(T)]
pub struct ExAsyncMutex<T: ?Sized>(tokio::sync::Mutex<T>);

/// [`core::task::Waker::wake`] hands back nothing, and nothing is claimed of it.
/// A contract that has to say that a waker `w` was woken says
/// `call_ensures(Waker::wake, (w,), ())`, which only a call of `wake` on `w`
/// gives.
pub assume_specification[ core::task::Waker::wake ](waker: Waker);

/// [`Clone::clone`] of [`core::task::Waker`]. Nothing is claimed of the new
/// handle beyond its having come from this call; that it wakes the same task is
/// left to whoever made the first one.
pub assume_specification[ <core::task::Waker as Clone>::clone ](waker: &Waker) -> Waker;

/// [`Default::default`] of [`std::sync::Mutex`] makes a new lock around the
/// default value of `T`. Nothing is claimed of the lock beyond its having come
/// from this call: what it guards is not a property of the lock, since whoever
/// holds it can change that.
pub assume_specification<T: Default>[ <std::sync::Mutex<T> as Default>::default ]() -> Mutex<T>;

/// Makes a new lock around `t`, not held by anyone, by [`tokio::sync::Mutex::new`].
/// Nothing is claimed of the lock beyond its having come from this call: what it
/// guards is not a property of the lock, since whoever holds it can change that.
#[verifier::external_body]
pub(crate) fn new_lock<T>(t: T) -> (lock: tokio::sync::Mutex<T>) {
    tokio::sync::Mutex::new(t)
}

} // verus!
