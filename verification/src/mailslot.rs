//! A single-slot mailbox: a sender overwrites whatever is unconsumed, a receiver
//! takes the pending value or registers to be woken.
//!
//! The slot itself is sequential: each function here is one critical section, to be
//! run under the lock that guards the shared slot. Parking and waking the receiver
//! is left to the caller, which is told when to do so.

use vstd::prelude::*;

verus! {

/// What the slot holds. `H` is the handle by which a parked receiver is woken.
#[derive(Debug, PartialEq, Eq)]
pub enum MailslotState<T, H> {
    /// One pending value, not yet seen by the receiver.
    Present(T),
    /// No value; a receiver is parked and must be woken through `please_unpark`.
    Waiting { please_unpark: H },
    /// No value, nobody waiting.
    Idle,
}

/// What a send displaced, and so what the sender still has to do.
#[derive(Debug, PartialEq, Eq)]
pub enum Displaced<T, H> {
    /// An unconsumed value was superseded; it is handed back to be dropped.
    Stale(T),
    /// A receiver was parked: wake it through this handle.
    Waiter(H),
    /// The slot was idle.
    Nothing,
}

impl<T, H> MailslotState<T, H> {
    /// What `send_replace` displaces from a slot in state `self`.
    pub open spec fn displaced(self) -> Displaced<T, H> {
        match self {
            MailslotState::Present(stale) => Displaced::Stale(stale),
            MailslotState::Waiting { please_unpark } => Displaced::Waiter(please_unpark),
            MailslotState::Idle => Displaced::Nothing,
        }
    }

    /// The value a receive attempt finds in a slot in state `self`.
    pub open spec fn pending(self) -> Option<T> {
        match self {
            MailslotState::Present(value) => Some(value),
            _ => None,
        }
    }

    /// The slot after a receive attempt by `waiter`.
    pub open spec fn after_recv(self, waiter: H) -> Self {
        match self {
            MailslotState::Present(_) => MailslotState::Idle,
            _ => MailslotState::Waiting { please_unpark: waiter },
        }
    }

    /// The slot after `value` was sent.
    pub open spec fn after_send(self, value: T) -> Self {
        MailslotState::Present(value)
    }

    /// The slot after the values of `sent` were sent in order, with no receive
    /// attempt in between.
    pub open spec fn after_sends(self, sent: Seq<T>) -> Self
        decreases sent.len(),
    {
        if sent.len() == 0 {
            self
        } else {
            self.after_sends(sent.drop_last()).after_send(sent.last())
        }
    }

    /// Installs `value` as the pending value, whatever the slot held, and returns
    /// what it held: a stale value to drop, a receiver to wake, or nothing.
    pub fn send_replace(&mut self, value: T) -> (displaced: Displaced<T, H>)
        ensures
            *final(self) == old(self).after_send(value),
            displaced == old(self).displaced(),
    {
        let mut slot = MailslotState::Present(value);
        core::mem::swap(self, &mut slot);
        match slot {
            MailslotState::Present(stale) => Displaced::Stale(stale),
            MailslotState::Waiting { please_unpark } => Displaced::Waiter(please_unpark),
            MailslotState::Idle => Displaced::Nothing,
        }
    }

    /// One receive attempt. Takes the pending value if there is one, leaving the
    /// slot idle; otherwise records `waiter` as the party to wake and returns
    /// `None`, upon which the caller parks and tries again once woken.
    pub fn recv(&mut self, waiter: H) -> (received: Option<T>)
        ensures
            received == old(self).pending(),
            *final(self) == old(self).after_recv(waiter),
    {
        let mut slot = MailslotState::Idle;
        core::mem::swap(self, &mut slot);
        match slot {
            MailslotState::Present(value) => Some(value),
            _ => {
                *self = MailslotState::Waiting { please_unpark: waiter };
                None
            },
        }
    }
}

impl<T, H> Default for MailslotState<T, H> {
    fn default() -> (slot: Self)
        ensures
            slot == MailslotState::<T, H>::Idle,
    {
        MailslotState::Idle
    }
}

/// A fresh slot: idle, with no value and no receiver.
pub fn mailslot<T, H>() -> (slot: MailslotState<T, H>)
    ensures
        slot == MailslotState::<T, H>::Idle,
{
    MailslotState::Idle
}

/// One thing done to the slot under its lock.
pub enum SlotOp<T, H> {
    /// A sender sends this value.
    Send(T),
    /// The receiver, known by this handle, makes a receive attempt.
    Recv(H),
}

impl<T, H> MailslotState<T, H> {
    /// The slot after `op`.
    pub open spec fn after_op(self, op: SlotOp<T, H>) -> Self {
        match op {
            SlotOp::Send(value) => self.after_send(value),
            SlotOp::Recv(waiter) => self.after_recv(waiter),
        }
    }

    /// The slot after the steps of `ops`, in order.
    pub open spec fn after_ops(self, ops: Seq<SlotOp<T, H>>) -> Self
        decreases ops.len(),
    {
        if ops.len() == 0 {
            self
        } else {
            self.after_ops(ops.drop_last()).after_op(ops.last())
        }
    }
}

/// However sends and receive attempts interleave, a value is pending exactly
/// when the last step was a send, and it is the value of that send. So a
/// receive attempt yields the latest value sent since the attempt before it,
/// never an earlier one and none twice; and an attempt that yields nothing
/// leaves its handle registered for the next send to wake.
pub proof fn lemma_any_interleaving<T, H>(slot: MailslotState<T, H>, ops: Seq<SlotOp<T, H>>)
    requires
        ops.len() > 0,
    ensures
        match ops.last() {
            SlotOp::Send(value) => slot.after_ops(ops) == MailslotState::<T, H>::Present(value),
            SlotOp::Recv(waiter) => {
                let before = slot.after_ops(ops.drop_last());
                &&& slot.after_ops(ops).pending() is None
                &&& before.pending() is None ==> slot.after_ops(ops) == (MailslotState::<
                    T,
                    H,
                >::Waiting { please_unpark: waiter })
                &&& before.pending() is Some ==> slot.after_ops(ops) == MailslotState::<
                    T,
                    H,
                >::Idle
            },
        },
{
}

/// Latest wins: after any run of one or more sends, whatever the slot held
/// before (a stale value, a parked receiver, nothing), a receive attempt yields
/// the value sent last and no earlier one.
pub proof fn lemma_latest_wins<T, H>(slot: MailslotState<T, H>, sent: Seq<T>)
    requires
        sent.len() > 0,
    ensures
        slot.after_sends(sent).pending() == Some(sent.last()),
{
}

/// At most one pending value: after any run of one or more sends, one receive
/// attempt takes the value sent last and leaves the slot idle, so that a further
/// attempt by `again` finds nothing and registers to be woken.
pub proof fn lemma_one_pending<T, H>(slot: MailslotState<T, H>, sent: Seq<T>, waiter: H, again: H)
    requires
        sent.len() > 0,
    ensures
        slot.after_sends(sent).pending() == Some(sent.last()),
        slot.after_sends(sent).after_recv(waiter) == MailslotState::<T, H>::Idle,
        slot.after_sends(sent).after_recv(waiter).pending() is None,
        slot.after_sends(sent).after_recv(waiter).after_recv(again) == (MailslotState::<
            T,
            H,
        >::Waiting { please_unpark: again }),
{
}

/// No lost wakeup: a receive attempt that finds no value leaves `waiter`
/// registered; the next send, whichever comes first, is told to wake exactly
/// that receiver, and the attempt the woken receiver then makes yields the
/// value of that send.
pub proof fn lemma_no_lost_wakeup<T, H>(slot: MailslotState<T, H>, waiter: H, value: T, retry: H)
    requires
        slot.pending() is None,
    ensures
        slot.after_recv(waiter) == (MailslotState::<T, H>::Waiting { please_unpark: waiter }),
        slot.after_recv(waiter).displaced() == Displaced::<T, H>::Waiter(waiter),
        slot.after_recv(waiter).after_send(value).pending() == Some(value),
        slot.after_recv(waiter).after_send(value).after_recv(retry) == MailslotState::<
            T,
            H,
        >::Idle,
{
}

} // verus!
