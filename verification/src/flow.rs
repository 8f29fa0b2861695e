//! How the roles fit together: what one role writes, the next one reads the
//! way it was meant.
use vstd::prelude::*;
use vstd::utf8::*;

use crate::command::{byte_of, Command};
use crate::connector::{spec_connector_step, ConnectorAction};
use crate::dispatcher::{spec_dispatch_step, DispatchAction};
use crate::frame::{spec_frame_timestamp, timestamp_field};
use crate::generator::is_generated_frame;
use crate::routing::{lemma_receiver_keys, receiver_keys, spec_route, Route};
use crate::timestamp::{parsed_timestamp, Timestamp};
use crate::MSG_LEN;

verus! {

/// Every data frame of a generator with `receiver_num` receivers, read whole
/// or in part by a connector over the server's table of `table_size >=
/// receiver_num` channels, goes down the channel of the receiver it names:
/// none is misrouted.
pub proof fn lemma_generated_frames_are_delivered(
    f: Seq<u8>,
    receiver_num: u8,
    table_size: u32,
    n: usize,
)
    requires
        is_generated_frame(f, receiver_num),
        receiver_num <= table_size,
        n > 0,
    ensures
        spec_connector_step(receiver_keys(table_size), n, f) == ConnectorAction::Deliver(
            Route::Forward(f[1] as u32),
        ),
{
    lemma_receiver_keys(table_size, f[1] as u32);
}

/// The one-byte `Done` signal of a generator, read into a connector's buffer,
/// ends the connection.
pub proof fn lemma_done_signal_finishes(buf: Seq<u8>, keys: Seq<u32>, n: usize)
    requires
        buf.len() == MSG_LEN,
        buf[0] == byte_of(Command::Done),
        n > 0,
    ensures
        spec_connector_step(keys, n, buf) == ConnectorAction::Finish,
{
}

/// A frame that opens with `Done`, such as the server's broadcast, shuts
/// every dispatcher down, whatever its threshold and clock.
pub proof fn lemma_done_frame_shuts_down(f: Seq<u8>, threshold_micros: u64, now: Option<Timestamp>)
    requires
        f.len() == MSG_LEN,
        f[0] == byte_of(Command::Done),
    ensures
        spec_dispatch_step(threshold_micros, Some(f), now) == DispatchAction::Shutdown,
{
}

/// In the in-process benchmark, every data message of a generator with
/// `receiver_num` receivers reaches a receiver of a table of `table_size >=
/// receiver_num` channels.
pub proof fn lemma_pipeline_messages_are_delivered(m: Seq<u8>, receiver_num: u8, table_size: u32)
    requires
        m.len() >= 1,
        1 <= m[0] <= receiver_num,
        receiver_num <= table_size,
    ensures
        spec_route(receiver_keys(table_size), m[0] as u32) == Route::Forward(m[0] as u32),
{
    lemma_receiver_keys(table_size, m[0] as u32);
}

/// A frame whose timestamp field holds the UTF-8 bytes of a text gives back
/// the instant that the text reads as.
pub proof fn lemma_frame_carries_text_timestamp(f: Seq<u8>, text: Seq<char>)
    requires
        f.len() >= 2 + crate::TIMESTAMP_LEN,
        timestamp_field(f) == encode_utf8(text),
    ensures
        spec_frame_timestamp(f) == parsed_timestamp(text),
{
    encode_utf8_valid_utf8(text);
    encode_utf8_decode_utf8(text);
}

} // verus!
