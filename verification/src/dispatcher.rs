//! The sending end of one receiver channel: takes frames off the channel,
//! checks how long a data frame has been under way, and writes it to its
//! receiver.
use vstd::prelude::*;

use crate::command::{command_of, Command};
use crate::frame::{frame_command, frame_timestamp, spec_frame_timestamp};
use crate::timestamp::{elapsed_micros, spec_elapsed_micros, Timestamp};
use crate::MSG_LEN;

verus! {

/// How long a data frame took from its send time to its dispatch.
#[derive(Clone, Copy, Debug, PartialEq, Eq, Structural)]
pub enum Lateness {
    /// Within the threshold.
    OnTime,
    /// Beyond the threshold: the master is to be told `Done`.
    Late,
    /// The clock reads earlier than the send time: reported, not counted as late.
    ClockBehind,
}

/// What the dispatcher does with one message taken off its channel.
#[derive(Clone, Copy, Debug, PartialEq, Eq, Structural)]
pub enum DispatchAction {
    /// A start or unknown frame: nothing to do.
    Ignore,
    /// A data frame: write it to the receiver and count it as dispatched.
    Forward(Lateness),
    /// A done frame, or every sender is gone: shut the receiver connection.
    Shutdown,
    /// A data frame without a readable send time: stop with an error.
    Abort,
}

/// The lateness of a frame sent at `sent` and dispatched at `now`.
pub open spec fn spec_lateness(threshold_micros: u64, sent: Timestamp, now: Timestamp) -> Lateness {
    match spec_elapsed_micros(sent, now) {
        None => Lateness::ClockBehind,
        Some(m) => if m > threshold_micros {
            Lateness::Late
        } else {
            Lateness::OnTime
        },
    }
}

/// A dispatcher's decision for one message (`None`: the channel is closed),
/// taken when the clock reads `now` (`None`: the clock stands before 1970,
/// so before any send time).
pub open spec fn spec_dispatch_step(
    threshold_micros: u64,
    msg: Option<Seq<u8>>,
    now: Option<Timestamp>,
) -> DispatchAction {
    match msg {
        None => DispatchAction::Shutdown,
        Some(m) => match command_of(m[0]) {
            Command::Data => match spec_frame_timestamp(m) {
                None => DispatchAction::Abort,
                Some(sent) => DispatchAction::Forward(
                    match now {
                        None => Lateness::ClockBehind,
                        Some(n) => spec_lateness(threshold_micros, sent, n),
                    },
                ),
            },
            Command::Done => DispatchAction::Shutdown,
            _ => DispatchAction::Ignore,
        },
    }
}

/// The dispatcher of receiver `id`; frames older than `threshold_micros`
/// microseconds at dispatch are late.
pub struct Dispatcher {
    pub id: usize,
    pub threshold_micros: u64,
}

impl Dispatcher {
    /// A dispatcher for receiver `id`.
    pub fn new(id: usize, threshold_micros: u64) -> (d: Dispatcher)
        ensures
            d.id == id,
            d.threshold_micros == threshold_micros,
    {
        Dispatcher { id, threshold_micros }
    }

    /// What to do with a message taken off the channel (`None`: every sender
    /// of the channel is gone) when the clock reads `now` (`None`: a clock
    /// before 1970, which is behind every send time).
    pub fn on_message(&self, msg: Option<&[u8]>, now: Option<Timestamp>) -> (a: DispatchAction)
        requires
            msg matches Some(m) ==> m@.len() == MSG_LEN,
            now matches Some(t) ==> t.wf(),
        ensures
            a == spec_dispatch_step(
                self.threshold_micros,
                match msg {
                    Some(m) => Some(m@),
                    None => None,
                },
                now,
            ),
    {
        match msg {
            None => DispatchAction::Shutdown,
            Some(m) => match frame_command(m) {
                Command::Data => match frame_timestamp(m) {
                    None => DispatchAction::Abort,
                    Some(sent) => {
                        let lateness = match now {
                            None => Lateness::ClockBehind,
                            Some(n) => match elapsed_micros(sent, n) {
                                None => Lateness::ClockBehind,
                                Some(micros) => if micros > self.threshold_micros as u128 {
                                    Lateness::Late
                                } else {
                                    Lateness::OnTime
                                },
                            },
                        };
                        DispatchAction::Forward(lateness)
                    },
                },
                Command::Done => DispatchAction::Shutdown,
                _ => DispatchAction::Ignore,
            },
        }
    }
}

/// What a plain relay, which writes data frames on without looking at their
/// send time, does with one message taken off its channel.
#[derive(Clone, Copy, Debug, PartialEq, Eq, Structural)]
pub enum RelayAction {
    /// Every sender is gone: nothing to do but wait.
    Wait,
    /// A start or unknown frame: nothing to do.
    Ignore,
    /// A data frame: write it to the receiver and count it.
    Forward,
    /// A done frame: shut the receiver connection.
    Shutdown,
}

/// A relay's decision for one message (`None`: the channel is closed).
pub open spec fn spec_relay_step(msg: Option<Seq<u8>>) -> RelayAction {
    match msg {
        None => RelayAction::Wait,
        Some(m) => match command_of(m[0]) {
            Command::Data => RelayAction::Forward,
            Command::Done => RelayAction::Shutdown,
            _ => RelayAction::Ignore,
        },
    }
}

/// What a plain relay does with a message taken off its channel.
pub fn relay_action(msg: Option<&[u8]>) -> (a: RelayAction)
    requires
        msg matches Some(m) ==> m@.len() >= 1,
    ensures
        a == spec_relay_step(
            match msg {
                Some(m) => Some(m@),
                None => None,
            },
        ),
{
    match msg {
        None => RelayAction::Wait,
        Some(m) => match frame_command(m) {
            Command::Data => RelayAction::Forward,
            Command::Done => RelayAction::Shutdown,
            _ => RelayAction::Ignore,
        },
    }
}

/// A frame is late exactly when more whole microseconds than the
/// dispatcher's own threshold lie between its send time and the dispatch
/// time; it is behind the clock exactly when the dispatch time is earlier
/// than the send time; otherwise it is on time.
pub proof fn lemma_lateness_against_threshold(threshold_micros: u64, sent: Timestamp, now: Timestamp)
    ensures
        spec_lateness(threshold_micros, sent, now) == Lateness::ClockBehind <==> now.total_nanos()
            < sent.total_nanos(),
        spec_lateness(threshold_micros, sent, now) == Lateness::Late <==> (now.total_nanos()
            >= sent.total_nanos() && (now.total_nanos() - sent.total_nanos()) / 1000
            > threshold_micros),
        spec_lateness(threshold_micros, sent, now) == Lateness::OnTime <==> (now.total_nanos()
            >= sent.total_nanos() && (now.total_nanos() - sent.total_nanos()) / 1000
            <= threshold_micros),
{
}

/// A larger threshold never makes a frame late: a frame late under
/// `th_high` is late under every `th_low <= th_high`, and a frame on time
/// under `th_low` is on time under `th_high`.
pub proof fn lemma_lateness_threshold_monotone(
    th_low: u64,
    th_high: u64,
    sent: Timestamp,
    now: Timestamp,
)
    requires
        th_low <= th_high,
    ensures
        spec_lateness(th_high, sent, now) == Lateness::Late ==> spec_lateness(th_low, sent, now)
            == Lateness::Late,
        spec_lateness(th_low, sent, now) == Lateness::OnTime ==> spec_lateness(th_high, sent, now)
            == Lateness::OnTime,
{
}

/// A data frame with a readable send time, taken off the channel while the
/// clock reads `now`, is forwarded, and judged late exactly when the whole
/// microseconds from its send time to `now` exceed the dispatcher's
/// threshold; a missing clock reading or one before the send time is behind.
pub proof fn lemma_data_frame_dispatch(threshold_micros: u64, m: Seq<u8>, now: Option<Timestamp>)
    requires
        m.len() == MSG_LEN,
        m[0] == 2,
        spec_frame_timestamp(m) is Some,
    ensures
        ({
            let sent = spec_frame_timestamp(m)->Some_0;
            spec_dispatch_step(threshold_micros, Some(m), now) == DispatchAction::Forward(
                match now {
                    None => Lateness::ClockBehind,
                    Some(n) => if n.total_nanos() < sent.total_nanos() {
                        Lateness::ClockBehind
                    } else if (n.total_nanos() - sent.total_nanos()) / 1000 > threshold_micros {
                        Lateness::Late
                    } else {
                        Lateness::OnTime
                    },
                },
            )
        }),
{
}

/// Lateness only grows with the dispatch time: a frame that is late at
/// `now1` is late at every later `now2`, and one that is on time at `now2`
/// was on time (or ahead of the clock) at every earlier `now1`.
pub proof fn lemma_lateness_monotone(
    threshold_micros: u64,
    sent: Timestamp,
    now1: Timestamp,
    now2: Timestamp,
)
    requires
        now1.total_nanos() <= now2.total_nanos(),
    ensures
        spec_lateness(threshold_micros, sent, now1) == Lateness::Late ==> spec_lateness(
            threshold_micros,
            sent,
            now2,
        ) == Lateness::Late,
        spec_lateness(threshold_micros, sent, now2) == Lateness::OnTime ==> spec_lateness(
            threshold_micros,
            sent,
            now1,
        ) != Lateness::Late,
{
    let a = now1.total_nanos() - sent.total_nanos();
    let b = now2.total_nanos() - sent.total_nanos();
    if a >= 0 {
        vstd::arithmetic::div_mod::lemma_div_is_ordered(a, b, 1000);
    }
}

} // verus!
