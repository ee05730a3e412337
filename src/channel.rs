//! The bounded command channel between the control side and the audio side.
use vstd::prelude::*;
use crossbeam_channel::{Receiver, Sender};
use crate::command::Message;
use crate::oscillator::Oscillator;

verus! {

#[verifier::external_type_specification]
#[verifier::external_body]
#[verifier::reject_recursive_types(T)]
pub struct ExSender<T>(Sender<T>);

#[verifier::external_type_specification]
#[verifier::external_body]
#[verifier::reject_recursive_types(T)]
pub struct ExReceiver<T>(Receiver<T>);

/// How many commands the channel holds before a send waits.
pub const COMMAND_CAPACITY: usize = 1024;

/// The number of messages the channel behind a sender holds before a send
/// waits: the capacity it was made with.
pub uninterp spec fn channel_bound(tx: Sender<Message>) -> nat;

/// A send that found the receiving side gone; it hands the command back.
#[derive(Clone, Copy, Debug, PartialEq, Eq, Structural)]
pub struct Closed {
    pub command: Message,
}

/// Relies on crossbeam_channel::bounded: a channel that holds `cap` messages
/// (an array of `cap` slots, or a rendezvous channel where `cap` is 0).
/// It panics only where `cap` is too large to allocate.
#[verifier::external_body]
fn bounded_channel(cap: usize) -> (r: (Sender<Message>, Receiver<Message>))
    requires
        cap <= 0x1_0000,
    ensures
        channel_bound(r.0) == cap,
{
    crossbeam_channel::bounded(cap)
}

/// Relies on crossbeam_channel::Sender::send: it waits while the channel is
/// full, and fails only when the receiver is gone, handing the message back.
#[verifier::external_body]
fn send_message(tx: &Sender<Message>, m: Message) -> (r: Result<(), Message>)
    ensures
        r matches Err(back) ==> back == m,
{
    tx.send(m).map_err(|e| e.0)
}

/// Relies on crossbeam_channel::Receiver::try_recv: it never waits, and
/// yields a message only when one was queued.
#[verifier::external_body]
fn try_receive(rx: &Receiver<Message>) -> (r: Option<Message>) {
    rx.try_recv().ok()
}

/// Makes the command channel, with room for `COMMAND_CAPACITY` commands.
pub fn command_channel() -> (r: (Sender<Message>, Receiver<Message>))
    ensures
        channel_bound(r.0) == COMMAND_CAPACITY,
{
    bounded_channel(COMMAND_CAPACITY)
}

/// Sends one command, waiting while the channel is full. It fails only when
/// the receiving side is gone, and then hands the same command back.
pub fn send_command(tx: &Sender<Message>, m: Message) -> (r: Result<(), Closed>)
    ensures
        r matches Err(c) ==> c.command == m,
{
    match send_message(tx, m) {
        Ok(()) => Ok(()),
        Err(back) => Err(Closed { command: back }),
    }
}

impl Oscillator {
    /// Takes one queued command, if there is one, without waiting, and
    /// applies it. Called repeatedly until it yields `None`, it drains the
    /// channel in arrival order.
    pub fn receive(&mut self, rx: &Receiver<Message>) -> (r: Option<Message>)
        ensures
            match r {
                Some(m) => *final(self) == old(self).applied(m),
                None => *final(self) == *old(self),
            },
    {
        match try_receive(rx) {
            Some(m) => {
                self.apply(m);
                Some(m)
            },
            None => None,
        }
    }
}

} // verus!
