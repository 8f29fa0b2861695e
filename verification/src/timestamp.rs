//! Wall-clock instants, their RFC 3339 text with microseconds (through
//! `humantime`), and the time elapsed between two of them.
use vstd::prelude::*;
use vstd::utf8::*;

use crate::TIMESTAMP_LEN;

verus! {

/// The first second that `humantime` can no longer write: 10000-01-01T00:00:00Z.
pub const FORMAT_LIMIT_SECS: u64 = 253_402_300_800;

/// An instant after the Unix epoch, as whole seconds and nanoseconds.
#[derive(Clone, Copy, Debug, PartialEq, Eq, Structural)]
pub struct Timestamp {
    pub secs: u64,
    pub nanos: u32,
}

impl Timestamp {
    /// The nanoseconds are below one second.
    pub open spec fn wf(self) -> bool {
        self.nanos < 1_000_000_000
    }

    /// Nanoseconds since the epoch.
    pub open spec fn total_nanos(self) -> int {
        self.secs * 1_000_000_000 + self.nanos
    }

    /// The same instant with its sub-microsecond digits dropped.
    pub open spec fn micros_precision(self) -> Timestamp {
        Timestamp { secs: self.secs, nanos: (self.nanos - self.nanos % 1000) as u32 }
    }

    /// An instant that `humantime` can write as text.
    pub open spec fn formattable(self) -> bool {
        self.wf() && self.secs < FORMAT_LIMIT_SECS
    }

    /// Reads the system clock; `None` when it stands before the epoch.
    pub fn now() -> (res: Option<Timestamp>)
        ensures
            res matches Some(t) ==> t.wf(),
    {
        match clock_since_epoch() {
            Some((secs, nanos)) => Some(Timestamp { secs, nanos }),
            None => None,
        }
    }
}

/// Name for the text that `humantime::format_rfc3339_micros` writes for the
/// instant `secs` seconds and `nanos` nanoseconds after the epoch.
pub uninterp spec fn rfc3339_micros_text(secs: u64, nanos: u32) -> Seq<char>;

/// Name for what `humantime::parse_rfc3339` reads from a text: the instant as
/// seconds and nanoseconds after the epoch, or `None` where it returns an error.
/// The parser's upper bound is the build target's: the end of year 9999 on
/// 64-bit and Windows targets, 2038-01-19T03:14:07Z on other 32-bit targets.
pub uninterp spec fn rfc3339_parse(text: Seq<char>) -> Option<(u64, u32)>;

/// An ASCII decimal digit.
pub open spec fn is_digit_char(c: char) -> bool {
    48 <= (c as u32) <= 57
}

/// The layout `YYYY-MM-DDTHH:MM:SS.ffffffZ`: `TIMESTAMP_LEN` characters,
/// `-`, `-`, `T`, `:`, `:`, `.` and `Z` at positions 4, 7, 10, 13, 16, 19
/// and 26, and decimal digits everywhere else.
pub open spec fn has_micros_layout(s: Seq<char>) -> bool {
    &&& s.len() == TIMESTAMP_LEN
    &&& s[4] == '-'
    &&& s[7] == '-'
    &&& s[10] == 'T'
    &&& s[13] == ':'
    &&& s[16] == ':'
    &&& s[19] == '.'
    &&& s[26] == 'Z'
    &&& forall|i: int|
        0 <= i < 26 && i != 4 && i != 7 && i != 10 && i != 13 && i != 16 && i != 19
            ==> is_digit_char(#[trigger] s[i])
}

/// Instants that `humantime::parse_rfc3339` reads back on every target: up to
/// the end of year 9999 on 64-bit targets, up to 2038-01-19T03:14:07Z on all.
pub open spec fn parse_round_trips(secs: u64) -> bool {
    secs <= 0x7fff_ffff || usize::BITS == 64
}

/// The instant that a parse result stands for.
pub open spec fn timestamp_of(p: (u64, u32)) -> Timestamp {
    Timestamp { secs: p.0, nanos: p.1 }
}

/// The timestamp that `text` reads as, if any.
pub open spec fn parsed_timestamp(text: Seq<char>) -> Option<Timestamp> {
    match rfc3339_parse(text) {
        Some(p) => Some(timestamp_of(p)),
        None => None,
    }
}

/// Calls `std::time::SystemTime::now` and converts the reading into seconds and
/// nanoseconds after the epoch (`None` for a clock before the epoch). The
/// reading depends on the machine's clock: only the nanosecond bound is claimed.
#[verifier::external_body]
fn clock_since_epoch() -> (res: Option<(u64, u32)>)
    ensures
        res matches Some(p) ==> p.1 < 1_000_000_000,
{
    match std::time::SystemTime::now().duration_since(std::time::UNIX_EPOCH) {
        Ok(d) => Some((d.as_secs(), d.subsec_nanos())),
        Err(_) => None,
    }
}

/// Calls `humantime::format_rfc3339_micros` on the instant and renders it.
/// Claims: the text is the named result, 27 ASCII characters laid out as
/// `YYYY-MM-DDTHH:MM:SS.ffffffZ` (every field a decimal digit: years run to
/// 9999 and each field is written as `b'0'` plus one digit); it shows only whole microseconds (the
/// renderer uses `nanos / 1000` alone), so it is also the text of the instant
/// cut to microseconds; and `humantime::parse_rfc3339` reads it
/// back as the instant cut to microseconds on the targets where that parser
/// accepts the year. The renderer fails, and `to_string` panics, from year
/// 10000 on: `requires` leaves those instants out.
#[verifier::external_body]
fn format_rfc3339_micros_text(secs: u64, nanos: u32) -> (res: String)
    requires
        secs < FORMAT_LIMIT_SECS,
        nanos < 1_000_000_000,
    ensures
        res@ == rfc3339_micros_text(secs, nanos),
        res@ == rfc3339_micros_text(secs, (nanos - nanos % 1000) as u32),
        res@.len() == TIMESTAMP_LEN,
        has_micros_layout(res@),
        is_ascii_chars(res@),
        parse_round_trips(secs) ==> rfc3339_parse(res@) == Some(
            (secs, (nanos - nanos % 1000) as u32),
        ),
{
    let t = std::time::UNIX_EPOCH + std::time::Duration::new(secs, nanos);
    humantime::format_rfc3339_micros(t).to_string()
}

/// Calls `humantime::parse_rfc3339` and converts its `SystemTime` into seconds
/// and nanoseconds after the epoch; an error becomes `None`. Claims the named
/// result, and that a read instant has nanoseconds below one second and lies
/// before year 10000 (the parser's own upper bound).
#[verifier::external_body]
fn parse_rfc3339_text(s: &str) -> (res: Option<(u64, u32)>)
    ensures
        res == rfc3339_parse(s@),
        res matches Some(p) ==> p.1 < 1_000_000_000 && p.0 < FORMAT_LIMIT_SECS,
{
    match humantime::parse_rfc3339(s) {
        Ok(t) => match t.duration_since(std::time::UNIX_EPOCH) {
            Ok(d) => Some((d.as_secs(), d.subsec_nanos())),
            Err(_) => None,
        },
        Err(_) => None,
    }
}

/// What the text of a formattable instant `t` promises: 27 ASCII
/// characters laid out as `YYYY-MM-DDTHH:MM:SS.ffffffZ` that ignore
/// sub-microsecond digits, read back as `t` cut to microseconds, and
/// written again from what they read as.
pub open spec fn is_timestamp_text_of(s: Seq<char>, t: Timestamp) -> bool {
    &&& t.formattable()
    &&& s == rfc3339_micros_text(t.secs, t.nanos)
    &&& s == rfc3339_micros_text(t.micros_precision().secs, t.micros_precision().nanos)
    &&& s.len() == TIMESTAMP_LEN
    &&& has_micros_layout(s)
    &&& is_ascii_chars(s)
    &&& parse_round_trips(t.secs) ==> {
        &&& parsed_timestamp(s) == Some(t.micros_precision())
        &&& rfc3339_micros_text(
            parsed_timestamp(s)->Some_0.secs,
            parsed_timestamp(s)->Some_0.nanos,
        ) == s
    }
}

/// Writes an instant as RFC 3339 text with microseconds, e.g.
/// `2018-02-13T23:08:32.123000Z`. The text reads back as the instant cut to
/// microseconds, and writing that instant again gives the same text.
pub fn format_timestamp(t: Timestamp) -> (s: String)
    requires
        t.formattable(),
    ensures
        is_timestamp_text_of(s@, t),
{
    format_rfc3339_micros_text(t.secs, t.nanos)
}

/// The text of an instant read from the clock: `None` where there is no
/// reading or the reading cannot be written (before 1970, from year 10000).
pub fn timestamp_text(now: Option<Timestamp>) -> (res: Option<String>)
    requires
        now matches Some(t) ==> t.wf(),
    ensures
        res is Some <==> (now matches Some(t) && t.secs < FORMAT_LIMIT_SECS),
        res matches Some(s) ==> is_timestamp_text_of(s@, now->Some_0),
{
    match now {
        Some(t) => {
            if t.secs < FORMAT_LIMIT_SECS {
                Some(format_timestamp(t))
            } else {
                None
            }
        },
        None => None,
    }
}

/// The current time as RFC 3339 text with microseconds, `TIMESTAMP_LEN`
/// characters long; `None` for a clock before 1970 or from year 10000. The
/// text is that of the instant the clock read: it reads back as that instant
/// cut to microseconds, and is written again from what it reads as.
pub fn get_timestamp() -> (res: Option<String>)
    ensures
        res matches Some(s) ==> exists|t: Timestamp| #[trigger] is_timestamp_text_of(s@, t),
{
    let now = Timestamp::now();
    let res = timestamp_text(now);
    proof {
        if res is Some {
            let t = now->Some_0;
            assert(is_timestamp_text_of(res->Some_0@, t));
        }
    }
    res
}

/// Reads an RFC 3339 timestamp (UTC, any number of fractional digits).
pub fn parse_timestamp(s: &str) -> (t: Timestamp)
    requires
        rfc3339_parse(s@) is Some,
    ensures
        parsed_timestamp(s@) == Some(t),
        t.formattable(),
{
    match parse_rfc3339_text(s) {
        Some((secs, nanos)) => Timestamp { secs, nanos },
        None => Timestamp { secs: 0, nanos: 0 },
    }
}

/// Reads an RFC 3339 timestamp; `None` where `humantime` refuses the text.
/// It asks the parser first and hands an accepted text to `parse_timestamp`,
/// whose `requires` is exactly that acceptance.
pub fn try_parse_timestamp(s: &str) -> (res: Option<Timestamp>)
    ensures
        res == parsed_timestamp(s@),
        res matches Some(t) ==> t.formattable(),
{
    match parse_rfc3339_text(s) {
        Some(_) => Some(parse_timestamp(s)),
        None => None,
    }
}

/// Two timestamp texts are the same exactly when their instants agree to the
/// microsecond: the text written for an instant tells that instant apart
/// from every instant with a different microsecond count.
pub proof fn lemma_timestamp_text_identifies_instant(
    s1: Seq<char>,
    t1: Timestamp,
    s2: Seq<char>,
    t2: Timestamp,
)
    requires
        is_timestamp_text_of(s1, t1),
        is_timestamp_text_of(s2, t2),
        parse_round_trips(t1.secs),
        parse_round_trips(t2.secs),
    ensures
        s1 == s2 <==> t1.micros_precision() == t2.micros_precision(),
{
}

/// Microseconds from `from` to `to`, or `None` when `to` is earlier.
pub open spec fn spec_elapsed_micros(from: Timestamp, to: Timestamp) -> Option<int> {
    if to.total_nanos() < from.total_nanos() {
        None
    } else {
        Some((to.total_nanos() - from.total_nanos()) / 1000)
    }
}

/// Whole microseconds from `from` to `to`; `None` when `to` is earlier.
pub fn elapsed_micros(from: Timestamp, to: Timestamp) -> (res: Option<u128>)
    requires
        from.wf(),
        to.wf(),
    ensures
        res matches Some(m) ==> spec_elapsed_micros(from, to) == Some(m as int),
        res is None <==> spec_elapsed_micros(from, to) is None,
{
    let a: u128 = from.secs as u128 * 1_000_000_000u128 + from.nanos as u128;
    let b: u128 = to.secs as u128 * 1_000_000_000u128 + to.nanos as u128;
    if b < a {
        None
    } else {
        Some((b - a) / 1000)
    }
}

} // verus!
