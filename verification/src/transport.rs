//! The contracts between generated code and what carries its responses.
//!
//! A transport makes single-use pairs of a sender and a receiver. The sender
//! travels inside a command to the dispatcher; the receiver stays with the
//! caller, who waits on it. The methods block where their asynchronous
//! counterparts would suspend.
//!
//! The contracts promise nothing of their own: what travels between the
//! two halves of a pair is not visible in the signature of `send` or of
//! `receive`. Each method ensures a promise that the implementation states
//! for itself, so that code written against the traits can say which calls
//! it made, on which halves and with which values.

use vstd::prelude::*;

verus! {

/// What can carry out the commands of type `Command`.
pub trait Performer<Command: Send> {
    /// Carries out `command`: calls the method it stands for and sends the
    /// result through the sender that the command holds.
    fn perform(&mut self, command: Command);
}

/// The sending half of a transport pair. It is used up by its one `send`.
pub trait Sender<T: Send>: Send {
    /// What this implementation promises of a sender once `data` has been
    /// sent through it. By default it promises nothing.
    open spec fn send_promise(&self, data: T) -> bool {
        true
    }

    /// Hands `data` to the paired receiver. Where the receiver is gone the
    /// value is lost, and nothing is reported: the caller may have given up
    /// on the call.
    fn send(self, data: T)
        ensures
            self.send_promise(data),
    ;
}

/// The receiving half of a transport pair.
pub trait Receiver<T: Send>: Send {
    /// What this implementation promises of a receiver and of what it
    /// yields. By default it promises nothing.
    open spec fn receive_promise(&self, received: Option<T>) -> bool {
        true
    }

    /// Waits until the paired sender has sent its value or is gone: the
    /// value in the first case, `None` in the second.
    fn receive(self) -> (received: Option<T>)
        ensures
            self.receive_promise(received),
    ;
}

/// A way to carry values of type `T` from a dispatcher back to a caller.
pub trait Transport<T: Send>: 'static {
    /// The sending half of a pair.
    type Sender: Sender<T>;

    /// The receiving half of a pair.
    type Receiver: Receiver<T>;

    /// What this implementation promises of a sender and a receiver that
    /// `pair` made together. By default it promises nothing.
    open spec fn pair_promise(sender: Self::Sender, receiver: Self::Receiver) -> bool {
        true
    }

    /// Makes a fresh pair, bound to each other and to no other pair.
    fn pair() -> (pair: (Self::Sender, Self::Receiver))
        ensures
            Self::pair_promise(pair.0, pair.1),
    ;
}

} // verus!
