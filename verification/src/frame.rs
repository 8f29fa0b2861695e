//! Frames on the wire: `MSG_LEN` bytes whose first byte is the command, whose
//! second byte names the receiver a data frame is meant for, and whose bytes
//! `2 .. 2 + TIMESTAMP_LEN` may carry the RFC 3339 time it was sent; the rest
//! is random filler.
use vstd::prelude::*;
use vstd::string::*;
use vstd::utf8::*;

use crate::command::{byte_of, command_of, Command};
use crate::timestamp::{parsed_timestamp, try_parse_timestamp, Timestamp};
use crate::{MSG_LEN, TIMESTAMP_LEN};

verus! {

/// Calls `rand::random::<u8>()`. Any byte may come back.
#[verifier::external_body]
fn random_byte() -> u8 {
    rand::random::<u8>()
}

/// Calls `rand::Rng::gen_range(low, high)` on the thread-local generator:
/// a byte in `[low, high)`. The call panics on an empty range: `requires`
/// leaves that out.
#[verifier::external_body]
fn random_byte_in(low: u8, high: u8) -> (r: u8)
    requires
        low < high,
    ensures
        low <= r < high,
{
    rand::Rng::gen_range(&mut rand::thread_rng(), low, high)
}

/// Calls `std::str::from_utf8`: a string exactly when the bytes are valid
/// UTF-8, and then the string's bytes are those bytes.
#[verifier::external_body]
fn str_from_utf8(v: &[u8]) -> (res: Option<&str>)
    ensures
        res is Some <==> valid_utf8(v@),
        res matches Some(s) ==> s.spec_bytes() == v@,
{
    std::str::from_utf8(v).ok()
}

/// `len` random bytes.
pub fn random_bytes(len: usize) -> (v: Vec<u8>)
    ensures
        v@.len() == len,
{
    let mut v: Vec<u8> = Vec::new();
    while v.len() < len
        invariant
            v@.len() <= len,
        decreases len - v@.len(),
    {
        v.push(random_byte());
    }
    v
}

/// A random byte; any value may come.
pub fn random_u8() -> u8 {
    random_byte()
}

/// A random byte in `[low, high)`.
pub fn random_in(low: u8, high: u8) -> (r: u8)
    requires
        low < high,
    ensures
        low <= r < high,
{
    random_byte_in(low, high)
}

/// A frame of `MSG_LEN` bytes whose first byte is `tag`.
pub open spec fn is_tagged_frame(f: Seq<u8>, tag: u8) -> bool {
    f.len() == MSG_LEN && f[0] == tag
}

/// A data frame for receiver `target`.
pub open spec fn is_data_frame(f: Seq<u8>, target: u8) -> bool {
    is_tagged_frame(f, byte_of(Command::Data)) && f[1] == target
}

/// `MSG_LEN` random bytes with the first one set to `tag`.
pub fn tagged_frame(tag: u8) -> (f: Vec<u8>)
    ensures
        is_tagged_frame(f@, tag),
{
    let mut f = random_bytes(MSG_LEN);
    f.set(0, tag);
    f
}

/// The frame that asks a generator to start sending.
pub fn start_frame() -> (f: Vec<u8>)
    ensures
        is_tagged_frame(f@, byte_of(Command::Start)),
{
    tagged_frame(Command::Start.to_u8())
}

/// A data frame meant for receiver `target`, with random filler.
pub fn data_frame(target: u8) -> (f: Vec<u8>)
    ensures
        is_data_frame(f@, target),
{
    let mut f = tagged_frame(Command::Data.to_u8());
    f.set(1, target);
    f
}

/// The one-byte message that carries only a command.
pub fn signal(cmd: Command) -> (f: Vec<u8>)
    ensures
        f@ == seq![byte_of(cmd)],
{
    let mut f: Vec<u8> = Vec::new();
    f.push(cmd.to_u8());
    f
}

/// The frame that the server sends down every channel to stop the
/// dispatchers: `Done` followed by zeros.
pub fn done_broadcast_frame() -> (f: Vec<u8>)
    ensures
        f@.len() == MSG_LEN,
        f@[0] == byte_of(Command::Done),
        forall|i: int| 1 <= i < MSG_LEN ==> f@[i] == 0,
{
    let mut f: Vec<u8> = Vec::new();
    f.push(Command::Done.to_u8());
    while f.len() < MSG_LEN
        invariant
            1 <= f@.len() <= MSG_LEN,
            f@[0] == byte_of(Command::Done),
            forall|i: int| 1 <= i < f@.len() ==> f@[i] == 0,
        decreases MSG_LEN - f@.len(),
    {
        f.push(0);
    }
    f
}

/// The command a frame opens with.
pub fn frame_command(f: &[u8]) -> (c: Command)
    requires
        f@.len() >= 1,
    ensures
        c == command_of(f@[0]),
{
    Command::from(f[0])
}

/// The receiver number that a data frame names.
pub fn frame_target(f: &[u8]) -> (n: u32)
    requires
        f@.len() >= 2,
    ensures
        n == f@[1] as u32,
{
    f[1] as u32
}

/// The bytes of a frame that carry its send time.
pub open spec fn timestamp_field(f: Seq<u8>) -> Seq<u8> {
    f.subrange(2, 2 + TIMESTAMP_LEN)
}

/// The send time that a frame carries: its timestamp field read as UTF-8 text
/// and then as an RFC 3339 timestamp; `None` where either step fails.
pub open spec fn spec_frame_timestamp(f: Seq<u8>) -> Option<Timestamp> {
    if valid_utf8(timestamp_field(f)) {
        parsed_timestamp(decode_utf8(timestamp_field(f)))
    } else {
        None
    }
}

/// Reads the send time carried in bytes `2 .. 2 + TIMESTAMP_LEN` of a frame.
pub fn frame_timestamp(f: &[u8]) -> (res: Option<Timestamp>)
    requires
        f@.len() >= 2 + TIMESTAMP_LEN,
    ensures
        res == spec_frame_timestamp(f@),
        res matches Some(t) ==> t.formattable(),
{
    let field = vstd::slice::slice_subrange(f, 2, 2 + TIMESTAMP_LEN);
    match str_from_utf8(field) {
        Some(s) => {
            proof {
                encode_utf8_decode_utf8(s@);
            }
            try_parse_timestamp(s)
        },
        None => None,
    }
}

/// The receiver that a random byte `r` picks among receivers `1 ..= receiver_num`.
pub open spec fn spec_pick_receiver(r: u8, receiver_num: u8) -> u8 {
    (r % receiver_num + 1) as u8
}

/// Picks receiver `r % receiver_num + 1`, always one of `1 ..= receiver_num`.
pub fn pick_receiver(r: u8, receiver_num: u8) -> (n: u8)
    requires
        receiver_num > 0,
    ensures
        n == spec_pick_receiver(r, receiver_num),
        1 <= n <= receiver_num,
{
    r % receiver_num + 1
}

/// Every receiver `1 ..= receiver_num` is picked by some byte (byte
/// `k - 1` picks receiver `k`), and bytes a multiple of `receiver_num`
/// apart pick the same receiver.
pub proof fn lemma_pick_receiver_covers(receiver_num: u8, k: u8, r: u8)
    requires
        receiver_num > 0,
        1 <= k <= receiver_num,
    ensures
        spec_pick_receiver((k - 1) as u8, receiver_num) == k,
        r as int + receiver_num <= 255 ==> spec_pick_receiver(
            (r + receiver_num) as u8,
            receiver_num,
        ) == spec_pick_receiver(r, receiver_num),
        1 <= spec_pick_receiver(r, receiver_num) <= receiver_num,
{
    vstd::arithmetic::div_mod::lemma_small_mod((k - 1) as nat, receiver_num as nat);
    if r as int + receiver_num <= 255 {
        vstd::arithmetic::div_mod::lemma_mod_add_multiples_vanish(r as int, receiver_num as int);
    }
    vstd::arithmetic::div_mod::lemma_mod_bound(r as int, receiver_num as int);
}

} // verus!
