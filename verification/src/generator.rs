//! A traffic generator: after the server's start frame it sends
//! `repeat_num` data frames, each for a randomly chosen receiver among
//! `1 ..= receiver_num`, then the one-byte `Done` signal.
use vstd::prelude::*;

use crate::command::{byte_of, Command};
use crate::frame::{data_frame, pick_receiver, random_in, random_u8, signal};
use crate::MSG_LEN;

verus! {

/// A data frame for one of the receivers `1 ..= receiver_num`.
pub open spec fn is_generated_frame(f: Seq<u8>, receiver_num: u8) -> bool {
    f.len() == MSG_LEN && f[0] == byte_of(Command::Data) && 1 <= f[1] <= receiver_num
}

/// Generator `id`, which has sent `sent` of its `repeat_num` data frames.
pub struct Generator {
    pub id: u8,
    pub repeat_num: u32,
    pub receiver_num: u8,
    pub sent: u32,
}

impl Generator {
    /// A generator that has sent nothing yet.
    pub fn new(id: u8, repeat_num: u32, receiver_num: u8) -> (g: Generator)
        ensures
            g.id == id,
            g.repeat_num == repeat_num,
            g.receiver_num == receiver_num,
            g.sent == 0,
    {
        Generator { id, repeat_num, receiver_num, sent: 0 }
    }

    /// Whether every data frame has been sent.
    pub fn is_done(&self) -> (b: bool)
        ensures
            b == (self.sent >= self.repeat_num),
    {
        self.sent >= self.repeat_num
    }

    /// The next data frame to send, or `None` once `repeat_num` frames are out.
    /// Choosing a receiver divides by `receiver_num`, so frames are only asked
    /// of a generator that has receivers.
    pub fn next_frame(&mut self) -> (f: Option<Vec<u8>>)
        requires
            old(self).sent < old(self).repeat_num ==> old(self).receiver_num > 0,
        ensures
            f is Some <==> old(self).sent < old(self).repeat_num,
            final(self).sent == (if old(self).sent < old(self).repeat_num {
                old(self).sent + 1
            } else {
                old(self).sent as int
            }),
            final(self).id == old(self).id,
            final(self).repeat_num == old(self).repeat_num,
            final(self).receiver_num == old(self).receiver_num,
            f matches Some(f) ==> is_generated_frame(f@, old(self).receiver_num),
    {
        if self.sent >= self.repeat_num {
            return None;
        }
        let r: u8 = random_u8();
        let target: u8 = pick_receiver(r, self.receiver_num);
        let f = data_frame(target);
        self.sent = self.sent + 1;
        Some(f)
    }

    /// The signal that ends the generator's traffic.
    pub fn done_frame(&self) -> (f: Vec<u8>)
        ensures
            f@ == seq![byte_of(Command::Done)],
    {
        signal(Command::Done)
    }
}

/// A data frame from the stand-alone client: for one of the receivers `1 ..= 10`.
pub fn client_frame() -> (f: Vec<u8>)
    ensures
        f@.len() == MSG_LEN,
        f@[0] == byte_of(Command::Data),
        1 <= f@[1] <= 10,
{
    data_frame(random_in(1, 11))
}

/// How far a client connection has got.
#[derive(Clone, Copy, Debug, PartialEq, Eq, Structural)]
pub enum ClientStage {
    /// The start signal is still to be sent.
    Start,
    /// Data frames are being sent.
    Data,
    /// The done signal has been sent: nothing more.
    Finished,
}

/// One connection of the stand-alone client: the `Start` signal, then
/// `repeat_num` data frames for receivers `1 ..= 10`, then the `Done` signal.
pub struct ClientSession {
    pub repeat_num: u32,
    pub sent: u32,
    pub stage: ClientStage,
}

impl ClientSession {
    /// A connection that has sent nothing yet.
    pub fn new(repeat_num: u32) -> (c: ClientSession)
        ensures
            c.repeat_num == repeat_num,
            c.sent == 0,
            c.stage == ClientStage::Start,
    {
        ClientSession { repeat_num, sent: 0, stage: ClientStage::Start }
    }

    /// The next message to send, or `None` once the done signal is out.
    pub fn next_message(&mut self) -> (m: Option<Vec<u8>>)
        ensures
            final(self).repeat_num == old(self).repeat_num,
            old(self).stage == ClientStage::Start ==> {
                &&& m matches Some(v) && v@ == seq![byte_of(Command::Start)]
                &&& final(self).stage == ClientStage::Data
                &&& final(self).sent == old(self).sent
            },
            old(self).stage == ClientStage::Data && old(self).sent < old(self).repeat_num ==> {
                &&& m matches Some(v) && v@.len() == MSG_LEN && v@[0] == byte_of(Command::Data)
                    && 1 <= v@[1] <= 10
                &&& final(self).stage == ClientStage::Data
                &&& final(self).sent == old(self).sent + 1
            },
            old(self).stage == ClientStage::Data && old(self).sent >= old(self).repeat_num ==> {
                &&& m matches Some(v) && v@ == seq![byte_of(Command::Done)]
                &&& final(self).stage == ClientStage::Finished
                &&& final(self).sent == old(self).sent
            },
            old(self).stage == ClientStage::Finished ==> {
                &&& m is None
                &&& final(self).stage == ClientStage::Finished
                &&& final(self).sent == old(self).sent
            },
    {
        match self.stage {
            ClientStage::Start => {
                self.stage = ClientStage::Data;
                Some(signal(Command::Start))
            },
            ClientStage::Data => {
                if self.sent < self.repeat_num {
                    self.sent = self.sent + 1;
                    Some(client_frame())
                } else {
                    self.stage = ClientStage::Finished;
                    Some(signal(Command::Done))
                }
            },
            ClientStage::Finished => None,
        }
    }
}

} // verus!
