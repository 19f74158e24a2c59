//! Turns the methods of an object into an actor-style, message-passing
//! interface: every method becomes a command that carries its arguments and
//! a handle through which the result travels back to the caller.

pub mod alias;
pub mod call;
pub mod casing;
pub mod command;
pub mod descriptor;
pub mod dispatch;
pub mod error;
pub mod extract;
pub mod facade;
pub mod gamer;
pub mod generate;
pub mod interface;
pub mod text;
pub mod transport;

pub use crate::generate::performer;
pub use crate::transport::{Performer, Receiver, Sender, Transport};
