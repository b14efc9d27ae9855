//! The single place through which one call's arguments reach the guest and
//! through which the guest finds its way back to the host.

use crate::error::{BridgeError, BridgeErrorView};
use vstd::prelude::*;

verus! {

/// The state of at most one call: the arguments that the guest has yet to
/// fetch, and the sender through which it has yet to answer.
pub struct CallSlot<A, S> {
    args: Option<A>,
    sender: Option<S>,
}

impl<A, S> CallSlot<A, S> {
    /// The arguments waiting to be fetched.
    pub closed spec fn pending_args(&self) -> Option<A> {
        self.args
    }

    /// The sender waiting to be used.
    pub closed spec fn pending_sender(&self) -> Option<S> {
        self.sender
    }

    /// Whether no call's state is in the slot.
    pub open spec fn vacant(&self) -> bool {
        self.pending_args() is None && self.pending_sender() is None
    }

    /// A slot that holds nothing.
    pub fn new() -> (slot: CallSlot<A, S>)
        ensures
            slot.vacant(),
    {
        CallSlot { args: None, sender: None }
    }

    /// Whether no call's state is in the slot.
    pub fn is_vacant(&self) -> (vacant: bool)
        ensures
            vacant == self.vacant(),
    {
        self.args.is_none() && self.sender.is_none()
    }

    /// Puts a call's state into the slot. Where an earlier call has left
    /// anything behind, the slot stays as it is and the call is refused.
    pub fn store(&mut self, args: A, sender: S) -> (stored: Result<(), BridgeError>)
        ensures
            old(self).vacant() ==> stored is Ok && final(self).pending_args() == Some(args)
                && final(self).pending_sender() == Some(sender),
            !old(self).vacant() ==> (stored matches Err(e) && e@ == BridgeErrorView::Protocol)
                && *final(self) == *old(self),
    {
        if self.args.is_some() || self.sender.is_some() {
            return Err(BridgeError::Protocol);
        }
        self.args = Some(args);
        self.sender = Some(sender);
        Ok(())
    }

    /// Hands the stored arguments to the guest and takes them out of the slot.
    pub fn recv_args(&mut self) -> (received: Result<A, BridgeError>)
        ensures
            final(self).pending_args() is None,
            final(self).pending_sender() == old(self).pending_sender(),
            match old(self).pending_args() {
                Some(args) => received == Ok::<A, BridgeError>(args),
                None => received matches Err(e) && e@ == BridgeErrorView::Protocol,
            },
    {
        match self.args.take() {
            Some(args) => Ok(args),
            None => Err(BridgeError::Protocol),
        }
    }

    /// Takes the stored sender out of the slot, for the guest to answer through.
    pub fn take_sender(&mut self) -> (taken: Result<S, BridgeError>)
        ensures
            final(self).pending_sender() is None,
            final(self).pending_args() == old(self).pending_args(),
            match old(self).pending_sender() {
                Some(sender) => taken == Ok::<S, BridgeError>(sender),
                None => taken matches Err(e) && e@ == BridgeErrorView::Protocol,
            },
    {
        match self.sender.take() {
            Some(sender) => Ok(sender),
            None => Err(BridgeError::Protocol),
        }
    }
}

} // verus!
