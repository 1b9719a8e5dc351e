//! The reply cell that a client waits on.
//!
//! Whoever sends a message to the server gets a future for the reply. The future
//! and the code that will receive the reply share one cell, which holds the reply
//! once it is there and, until then, the waker of the task that waits.

use core::task::Waker;
use std::sync::Arc;
use std::sync::Mutex;
use vstd::prelude::*;

verus! {

/// What a reply cell holds.
pub ghost struct FutureStateView<T> {
    /// The reply, from when it is set until it is polled.
    pub reply: Option<T>,
    /// The waker to be woken when the reply is set.
    pub waker: Option<Waker>,
}

impl<T> FutureStateView<T> {
    /// A cell that nobody has replied to or polled.
    pub open spec fn fresh() -> Self {
        FutureStateView { reply: None, waker: None }
    }

    /// Nobody is left waiting for a reply that is already there.
    pub open spec fn wf(self) -> bool {
        self.reply is Some ==> self.waker is None
    }

    /// The cell once `reply` has been set. The waker is gone: setting a reply
    /// wakes it.
    pub open spec fn after_reply(self, reply: T) -> Self {
        FutureStateView { reply: Some(reply), waker: None }
    }

    /// The cell once it has been polled by the task that `waker` wakes. A reply is
    /// handed out; where there is none, the task waits.
    pub open spec fn after_poll(self, waker: Waker) -> Self {
        if self.reply is Some {
            FutureStateView { reply: None, ..self }
        } else {
            FutureStateView { waker: Some(waker), ..self }
        }
    }
}

/// Struct used for waiting on replies from the server.
///
/// When a message is sent to the server, it may take an indeterminate amount of
/// time to get a reply. This struct holds the reply, as well as a [`Waker`] for
/// the related future. Once the reply is filled in, the waker is called to finish
/// the future's polling.
#[derive(Debug)]
pub struct ButtplugClientFutureState<T> {
    reply_msg: Option<T>,
    waker: Option<Waker>,
}

impl<T> View for ButtplugClientFutureState<T> {
    type V = FutureStateView<T>;

    closed spec fn view(&self) -> FutureStateView<T> {
        FutureStateView { reply: self.reply_msg, waker: self.waker }
    }
}

/// The one is a clone of the other: both nothing, or a value and its clone.
pub open spec fn option_cloned<T: Clone>(original: Option<T>, copy: Option<T>) -> bool {
    match (original, copy) {
        (Some(original), Some(copy)) => cloned(original, copy),
        (None, None) => true,
        _ => false,
    }
}

impl<T: Clone> Clone for ButtplugClientFutureState<T> {
    fn clone(&self) -> (copy: Self)
        ensures
            option_cloned(self@.reply, copy@.reply),
            option_cloned(self@.waker, copy@.waker),
    {
        ButtplugClientFutureState { reply_msg: self.reply_msg.clone(), waker: self.waker.clone() }
    }
}

impl<T> Default for ButtplugClientFutureState<T> {
    fn default() -> (state: Self)
        ensures
            state@ == FutureStateView::<T>::fresh(),
    {
        ButtplugClientFutureState { reply_msg: None, waker: None }
    }
}

impl<T> ButtplugClientFutureState<T> {
    /// Sets the reply and wakes whoever waits for it.
    ///
    /// The cell holds a clone of `msg`, in place of any reply that was there. A
    /// waker that a poll has left behind is taken out and woken.
    pub fn set_reply_msg(&mut self, msg: &T) where T: Clone
        ensures
            exists|reply: T|
                cloned(*msg, reply) && final(self)@ == #[trigger] old(self)@.after_reply(reply),
            final(self)@.reply matches Some(reply) && cloned(*msg, reply),
            final(self)@.waker is None,
            old(self)@.waker matches Some(waiting) ==> call_ensures(Waker::wake, (waiting,), ()),
            final(self)@.wf(),
    {
        self.reply_msg = Some(msg.clone());
        let waker = self.waker.take();
        proof {
            let reply = self@.reply->0;
            assert(self@ == old(self)@.after_reply(reply));
        }
        // Without a waker nobody has polled yet: the first poll finds the reply.
        if !waker.is_none() {
            waker.unwrap().wake();
        }
    }

    /// Hands out the reply if it is there. Otherwise a clone of `waker` is kept,
    /// in place of any that was there, and `None` says that the future is pending.
    pub fn poll(&mut self, waker: &Waker) -> (reply: Option<T>)
        ensures
            reply == old(self)@.reply,
            exists|kept: Waker|
                cloned(*waker, kept) && final(self)@ == #[trigger] old(self)@.after_poll(kept),
            final(self)@.reply is None,
            reply is Some ==> final(self)@.waker == old(self)@.waker,
            reply is None ==> (final(self)@.waker matches Some(kept) && cloned(*waker, kept)),
            old(self)@.wf() ==> final(self)@.wf(),
    {
        if self.reply_msg.is_some() {
            let reply = self.reply_msg.take();
            assert(self@ == old(self)@.after_poll(*waker));
            reply
        } else {
            self.waker = Some(waker.clone());
            proof {
                let kept = self@.waker->0;
                assert(self@ == old(self)@.after_poll(kept));
            }
            None
        }
    }
}

/// A reply cell shared between a future and the code that will set the reply.
pub type ButtplugClientFutureStateShared<T> = Arc<Mutex<ButtplugClientFutureState<T>>>;

/// A future for a reply of the server.
#[derive(Debug)]
#[verifier::reject_recursive_types(T)]
pub struct ButtplugClientFuture<T> {
    waker_state: ButtplugClientFutureStateShared<T>,
}

impl<T> ButtplugClientFuture<T> {
    /// The cell that this future waits on.
    pub closed spec fn state(self) -> ButtplugClientFutureStateShared<T> {
        self.waker_state
    }

    /// Returns another handle on the cell that this future waits on, used for
    /// moving it across contexts such as tasks and threads.
    pub fn get_state_clone(&self) -> (state: ButtplugClientFutureStateShared<T>)
        ensures
            state == self.state(),
    {
        self.waker_state.clone()
    }
}

impl<T> Default for ButtplugClientFuture<T> {
    /// A future whose cell is a new lock around the default state, as
    /// [`Mutex`] makes it.
    fn default() -> (future: Self)
        ensures
            call_ensures(
                Mutex::<ButtplugClientFutureState<T>>::default,
                (),
                *future.state(),
            ),
    {
        ButtplugClientFuture { waker_state: ButtplugClientFutureStateShared::<T>::default() }
    }
}

/// A reply that was set is what the next poll hands out, to whichever task polls,
/// and it is handed out once: the poll after it finds nothing.
pub proof fn law_reply_is_delivered_once<T>(
    state: FutureStateView<T>,
    reply: T,
    waker: Waker,
)
    ensures
        state.after_reply(reply).reply == Some(reply),
        state.after_reply(reply).after_poll(waker).reply is None,
{
}

/// Of two replies set with no poll between them, the later one is delivered.
pub proof fn law_last_reply_wins<T>(state: FutureStateView<T>, first: T, second: T)
    ensures
        state.after_reply(first).after_reply(second) == state.after_reply(second),
{
}

/// A poll that finds no reply leaves its waker to be woken by the next reply, in
/// place of the waker of an earlier poll, and that reply leaves no waker behind.
pub proof fn law_last_waiting_task_is_woken<T>(
    state: FutureStateView<T>,
    earlier: Waker,
    waker: Waker,
    reply: T,
)
    requires
        state.reply is None,
    ensures
        state.after_poll(waker).waker == Some(waker),
        state.after_poll(earlier).after_poll(waker) == state.after_poll(waker),
        state.after_poll(waker).after_reply(reply).waker is None,
{
}

/// Whatever is done to a fresh cell, no task is left waiting for a reply that is
/// already there.
pub proof fn law_nobody_waits_for_a_present_reply<T>(
    state: FutureStateView<T>,
    reply: T,
    waker: Waker,
)
    requires
        state.wf(),
    ensures
        FutureStateView::<T>::fresh().wf(),
        state.after_reply(reply).wf(),
        state.after_poll(waker).wf(),
{
}

/// A fresh cell has neither a reply nor a waker, so a first poll finds nothing and
/// a first reply wakes nobody.
pub proof fn law_fresh_cell_is_empty<T>()
    ensures
        FutureStateView::<T>::fresh().reply is None,
        FutureStateView::<T>::fresh().waker is None,
{
}

/// Setting a reply replaces all that the cell held: it then holds that reply and no
/// waker, whatever was there.
pub proof fn law_reply_replaces_everything<T>(state: FutureStateView<T>, reply: T)
    ensures
        state.after_reply(reply).reply == Some(reply),
        state.after_reply(reply).waker is None,
{
}

/// After a poll the cell holds no reply. A poll that took a reply leaves the waker
/// alone; one that found none leaves its own waker.
pub proof fn law_poll_takes_the_reply_or_waits<T>(state: FutureStateView<T>, waker: Waker)
    ensures
        state.after_poll(waker).reply is None,
        state.reply is Some ==> state.after_poll(waker).waker == state.waker,
        state.reply is None ==> state.after_poll(waker).waker == Some(waker),
{
}

/// A cell is well-formed exactly if it does not hold a reply and a waker at once.
pub proof fn law_well_formed_cell<T>(state: FutureStateView<T>)
    ensures
        state.wf() <==> !(state.reply is Some && state.waker is Some),
{
}

/// A clone has something exactly if the original has, and then a clone of it.
pub proof fn law_clone_keeps_what_is_there<T: Clone>(original: Option<T>, copy: Option<T>)
    requires
        option_cloned(original, copy),
    ensures
        original is Some <==> copy is Some,
        original is Some ==> cloned(original->0, copy->0),
{
}

} // verus!
