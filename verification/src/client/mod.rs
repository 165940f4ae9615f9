//! The client: what a short-lived invocation sends to the daemon.
//!
//! The functions here make the bytes of a request. Connecting to the
//! daemon's socket and writing the bytes is the work of the program around
//! this library; a daemon that cannot be reached is no error.

use vstd::prelude::*;

use crate::daemon::daemon_action::{DaemonAction, DispatchAction};
use crate::daemon::wire::{encode_action, wire_encoding};
use crate::daemon::REQUEST_BUFFER_SIZE;

verus! {

/// The request that asks the daemon to play the sounds for `command`.
pub fn play(command: &String) -> (request: Vec<u8>)
    ensures
        request@ == wire_encoding(DispatchAction::Play(command@)),
{
    let action = DaemonAction::Play(command.clone());
    send_action(action)
}

/// The request that asks the daemon to show its configuration.
pub fn print_config() -> (request: Vec<u8>)
    ensures
        request@ == wire_encoding(DispatchAction::PrintConfig),
{
    let action = DaemonAction::PrintConfig;
    send_action(action)
}

/// The bytes to send for `action`.
pub fn send_action(action: DaemonAction) -> (request: Vec<u8>)
    ensures
        request@ == wire_encoding(action@),
{
    encode_action(&action)
}

/// Whether the daemon reads all of `request`: whether it fits the buffer
/// into which the daemon reads.
pub fn fits_buffer(request: &Vec<u8>) -> (fits: bool)
    ensures
        fits <==> request@.len() <= REQUEST_BUFFER_SIZE,
{
    request.len() <= REQUEST_BUFFER_SIZE
}

} // verus!
