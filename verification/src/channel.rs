//! The std mpsc channel that carries commands and replies: its two halves, declared as
//! opaque types, and the calls that open a channel and take a command from it.
use std::sync::mpsc::{Receiver, Sender};
use vstd::prelude::*;

use crate::mbtypes::MbMessage;

verus! {

/// The sending half of a std mpsc channel, held opaque.
#[verifier::external_type_specification]
#[verifier::external_body]
#[verifier::reject_recursive_types(T)]
pub struct ExSender<T>(std::sync::mpsc::Sender<T>);

/// The receiving half of a std mpsc channel, held opaque.
#[verifier::external_type_specification]
#[verifier::external_body]
#[verifier::reject_recursive_types(T)]
pub struct ExReceiver<T>(std::sync::mpsc::Receiver<T>);

/// What an attempt to take a command from the channel found.
pub enum Incoming {
    Message(MbMessage),
    Empty,
    Disconnected,
}

/// Calls `std::sync::mpsc::channel`: a new channel for commands, its two halves.
/// Nothing is stated of them.
#[verifier::external_body]
pub(crate) fn open_channel() -> (Sender<MbMessage>, Receiver<MbMessage>) {
    std::sync::mpsc::channel()
}

/// Calls `Receiver::try_recv` without blocking and tells its three outcomes apart
/// (a message, nothing waiting, every sender gone). Which one comes depends on other
/// threads, so nothing is stated of it.
#[verifier::external_body]
pub(crate) fn try_receive(rx: &Receiver<MbMessage>) -> Incoming {
    match rx.try_recv() {
        Ok(msg) => Incoming::Message(msg),
        Err(std::sync::mpsc::TryRecvError::Empty) => Incoming::Empty,
        Err(std::sync::mpsc::TryRecvError::Disconnected) => Incoming::Disconnected,
    }
}

} // verus!
