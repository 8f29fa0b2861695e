//! The in-process variant of the benchmark: generators, one dispatcher and
//! receivers joined by channels. A message is a kind and a byte buffer whose
//! first byte names the receiver it is meant for.
use vstd::prelude::*;

use crate::routing::{spec_route, Route, RouteTable};

verus! {

/// The kind of an in-process message.
#[derive(Clone, Copy, Debug, PartialEq, Eq, Structural)]
pub enum MessageKind {
    Data,
    Done,
}

/// What a receiver does with a message.
#[derive(Clone, Copy, Debug, PartialEq, Eq, Structural)]
pub enum ReceiverAction {
    /// Count it as received.
    Count,
    /// Pass it on to the master, which waits for one per receiver.
    ReportDone,
}

impl MessageKind {
    /// A receiver counts data and reports done messages to the master.
    pub fn receiver_action(self) -> (a: ReceiverAction)
        ensures
            a == (match self {
                MessageKind::Data => ReceiverAction::Count,
                MessageKind::Done => ReceiverAction::ReportDone,
            }),
    {
        match self {
            MessageKind::Data => ReceiverAction::Count,
            MessageKind::Done => ReceiverAction::ReportDone,
        }
    }
}

/// The dispatcher sends every message, whatever its kind, to the receiver
/// that its first byte names.
pub fn dispatch_route(table: &RouteTable, msg: &[u8]) -> (r: Route)
    requires
        msg@.len() >= 1,
    ensures
        r == spec_route(table@, msg@[0] as u32),
{
    table.route(msg[0] as u32)
}

/// A data message of a generator: its template with the first byte set to
/// receiver `r % receiver_num + 1`.
pub fn data_message(template: &Vec<u8>, r: u8, receiver_num: u8) -> (m: Vec<u8>)
    requires
        template@.len() >= 1,
        receiver_num > 0,
    ensures
        m@ == template@.update(0, (r % receiver_num + 1) as u8),
        1 <= m@[0] <= receiver_num,
{
    let mut m = template.clone();
    m.set(0, r % receiver_num + 1);
    m
}

/// The closing message of generator `id`: its template with the first byte
/// set to `id`.
pub fn done_message(template: Vec<u8>, id: u8) -> (m: Vec<u8>)
    requires
        template@.len() >= 1,
    ensures
        m@ == template@.update(0, id),
{
    let mut m = template;
    m.set(0, id);
    m
}

/// The master's count of done reports, out of the `expected` receivers.
pub struct DoneTally {
    pub expected: u32,
    pub seen: u32,
}

impl DoneTally {
    /// No report seen yet.
    pub fn new(expected: u32) -> (t: DoneTally)
        ensures
            t.expected == expected,
            t.seen == 0,
    {
        DoneTally { expected, seen: 0 }
    }

    /// Records one done report; `true` when it is the last one awaited.
    pub fn on_done(&mut self) -> (finished: bool)
        requires
            old(self).seen < u32::MAX,
        ensures
            final(self).expected == old(self).expected,
            final(self).seen == old(self).seen + 1,
            finished == (final(self).seen == final(self).expected),
    {
        self.seen = self.seen + 1;
        self.seen == self.expected
    }
}

} // verus!
