//! The server side of one generator connection: waits for the master's
//! start signal, then reads frames and sends each data frame down the channel
//! of the receiver that its second byte names.
use vstd::prelude::*;

use crate::command::{byte_of, command_of, Command};
use crate::frame::{frame_command, frame_target, is_tagged_frame, start_frame};
use crate::routing::{spec_route, Route, RouteTable};
use crate::MSG_LEN;

verus! {

/// What the connector does with one read from its generator.
#[derive(Clone, Copy, Debug, PartialEq, Eq, Structural)]
pub enum ConnectorAction {
    /// The generator closed the connection: stop.
    Close,
    /// A data frame: route it, and count it as received.
    Deliver(Route),
    /// The generator is done: release the channels and stop.
    Finish,
    /// Any other frame: nothing to do.
    Ignore,
}

/// A connector's decision for a read of `n` bytes into the buffer `buf`.
pub open spec fn spec_connector_step(keys: Seq<u32>, n: usize, buf: Seq<u8>) -> ConnectorAction {
    if n == 0 {
        ConnectorAction::Close
    } else {
        match command_of(buf[0]) {
            Command::Data => ConnectorAction::Deliver(spec_route(keys, buf[1] as u32)),
            Command::Done => ConnectorAction::Finish,
            _ => ConnectorAction::Ignore,
        }
    }
}

/// A connection from one generator, with the receiver channels it may use.
pub struct Connector {
    pub id: u32,
    pub routes: RouteTable,
}

impl Connector {
    /// A connector for connection `id` over the given channel table.
    pub fn new(id: u32, routes: RouteTable) -> (c: Connector)
        ensures
            c.id == id,
            c.routes@ == routes@,
    {
        Connector { id, routes }
    }

    /// The frame to send to the generator once the master has answered:
    /// a start frame for `Start`, nothing for any other answer or none.
    pub fn on_master(&self, answer: Option<Command>) -> (f: Option<Vec<u8>>)
        ensures
            f is Some <==> answer == Some(Command::Start),
            f matches Some(f) ==> is_tagged_frame(f@, byte_of(Command::Start)),
    {
        match answer {
            Some(Command::Start) => Some(start_frame()),
            _ => None,
        }
    }

    /// What to do after reading `n` bytes from the generator into `buf`.
    pub fn on_frame(&self, n: usize, buf: &[u8]) -> (a: ConnectorAction)
        requires
            buf@.len() == MSG_LEN,
        ensures
            a == spec_connector_step(self.routes@, n, buf@),
    {
        if n == 0 {
            return ConnectorAction::Close;
        }
        match frame_command(buf) {
            Command::Data => ConnectorAction::Deliver(self.routes.route(frame_target(buf))),
            Command::Done => ConnectorAction::Finish,
            _ => ConnectorAction::Ignore,
        }
    }
}

} // verus!
