//! The control socket, seen from the tool that sends a command.

use crate::command::Command;
use vstd::prelude::*;
use vstd::string::*;

verus! {

/// What a command came back with.
#[derive(Clone, Debug, PartialEq)]
pub enum ReturnValue {
    WithResponse(String),
    NoResponse,
}

/// Where the socket is found unless another place is given.
pub const DEFAULT_PATH: &'static str = "/var/run/gnosis-vpn.sock";

/// Where the socket is found: at the place given, else at the default
/// place.
pub fn path(given: Option<String>) -> (r: String)
    ensures
        r@ == (match given {
            Some(path) => path@,
            None => DEFAULT_PATH@,
        }),
{
    match given {
        Some(path) => path,
        None => String::from_str(DEFAULT_PATH),
    }
}

/// Whether the daemon answers a command: it answers the one that asks for
/// the status, and no other.
pub fn awaits_response(cmd: &Command) -> (r: bool)
    ensures
        r == (cmd@ is Status),
{
    match cmd {
        Command::Status => true,
        _ => false,
    }
}

/// What a command came back with, from what was read from the socket after
/// it was sent: the response for a command that is answered, and nothing
/// for any other.
pub fn process_cmd(cmd: &Command, response: String) -> (r: ReturnValue)
    ensures
        r == (if cmd@ is Status {
            ReturnValue::WithResponse(response)
        } else {
            ReturnValue::NoResponse
        }),
{
    if awaits_response(cmd) {
        ReturnValue::WithResponse(response)
    } else {
        ReturnValue::NoResponse
    }
}

} // verus!
