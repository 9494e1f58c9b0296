//! Points in time, fresh identifiers, and how long ago something happened
//! as the history and snapshot listings show it.
use vstd::prelude::*;
use crate::text::{chars_of, decimal, extend_str, push_decimal_wide, string_from_chars};
use std::time::SystemTime;

verus! {

/// A point in time in UTC: whole seconds since the Unix epoch and the
/// nanoseconds past them (more than a second's worth only during a leap
/// second).
#[derive(Debug, Clone, Copy, PartialEq, Eq, Structural)]
pub struct Timestamp {
    pub secs: i64,
    pub nanos: u32,
}

/// `SystemTime::now()`. Nothing is stated of the result: it is the clock.
#[verifier::external_body]
pub(crate) fn system_now() -> SystemTime {
    SystemTime::now()
}

/// How `time` lies from the Unix epoch: whether it is before it, and the
/// distance in whole seconds and the nanoseconds past them. `SystemTime`
/// is opaque here; the same time always gives the same answer.
pub uninterp spec fn epoch_offset(time: SystemTime) -> (bool, u64, u32);

/// `SystemTime::duration_since(UNIX_EPOCH)`: the distance from the epoch to
/// `time` (`Ok`), or from `time` to the epoch when `time` is earlier
/// (`Err`, whose duration is that distance); in seconds and nanoseconds,
/// the nanoseconds below a second.
#[verifier::external_body]
pub(crate) fn since_epoch(time: &SystemTime) -> (r: (bool, u64, u32))
    ensures
        r == epoch_offset(*time),
        r.2 < 1_000_000_000,
{
    match time.duration_since(std::time::UNIX_EPOCH) {
        Ok(d) => (false, d.as_secs(), d.subsec_nanos()),
        Err(e) => (true, e.duration().as_secs(), e.duration().subsec_nanos()),
    }
}

/// The point in time `secs` seconds and `nanos` nanoseconds after the epoch
/// (before it when `before`), with the seconds held within what `i64` can
/// hold.
pub open spec fn timestamp_of_offset(before: bool, secs: u64, nanos: u32) -> Timestamp {
    if !before {
        Timestamp { secs: if secs <= i64::MAX as u64 { secs as i64 } else { i64::MAX }, nanos }
    } else if nanos == 0 {
        Timestamp { secs: if secs <= i64::MAX as u64 { -(secs as int) as i64 } else { i64::MIN }, nanos: 0 }
    } else {
        Timestamp {
            secs: if secs < i64::MAX as u64 { (-(secs as int) - 1) as i64 } else { i64::MIN },
            nanos: (1_000_000_000 - nanos) as u32,
        }
    }
}

/// The point in time `time` is.
pub fn timestamp_of(time: &SystemTime) -> (t: Timestamp)
    ensures
        t == timestamp_of_offset(epoch_offset(*time).0, epoch_offset(*time).1, epoch_offset(*time).2),
        t.nanos < 1_000_000_000,
{
    let (before, secs, nanos) = since_epoch(time);
    if !before {
        Timestamp { secs: if secs <= i64::MAX as u64 { secs as i64 } else { i64::MAX }, nanos }
    } else if nanos == 0 {
        Timestamp { secs: if secs <= i64::MAX as u64 { -(secs as i64) } else { i64::MIN }, nanos: 0 }
    } else {
        Timestamp {
            secs: if secs < i64::MAX as u64 { -(secs as i64) - 1 } else { i64::MIN },
            nanos: 1_000_000_000 - nanos,
        }
    }
}

/// The current time, whatever the clock reads (before the epoch too).
pub fn utc_now() -> (t: Timestamp)
    ensures
        t.nanos < 1_000_000_000,
        exists|now: SystemTime|
            t == timestamp_of_offset(epoch_offset(now).0, epoch_offset(now).1, epoch_offset(now).2),
{
    let now = system_now();
    timestamp_of(&now)
}

/// `uuid::Uuid::new_v4`, written out: a random identifier in its hyphenated
/// form, which is 36 characters long.
#[verifier::external_body]
pub(crate) fn new_uuid() -> (s: String)
    ensures
        s@.len() == 36,
{
    uuid::Uuid::new_v4().to_string()
}

/// Whether `a` is before `b`.
pub open spec fn time_lt(a: Timestamp, b: Timestamp) -> bool {
    a.secs < b.secs || (a.secs == b.secs && a.nanos < b.nanos)
}

/// Whether `a` is before `b`.
pub fn earlier(a: &Timestamp, b: &Timestamp) -> (r: bool)
    ensures
        r == time_lt(*a, *b),
{
    a.secs < b.secs || (a.secs == b.secs && a.nanos < b.nanos)
}

/// An integer written in decimal, with a leading `'-'` when negative.
pub open spec fn signed_decimal(n: int) -> Seq<char> {
    if n < 0 {
        seq!['-'] + decimal((-n) as nat)
    } else {
        decimal(n as nat)
    }
}

/// How long ago something happened, from the whole seconds elapsed since:
/// seconds under a minute (negative ones included), then whole minutes
/// under an hour, whole hours under a day, and whole days.
pub open spec fn time_ago_spec(secs: int) -> Seq<char> {
    if secs < 60 {
        signed_decimal(secs) + "s ago"@
    } else if secs / 60 < 60 {
        decimal((secs / 60) as nat) + "m ago"@
    } else if secs / 3600 < 24 {
        decimal((secs / 3600) as nat) + "h ago"@
    } else {
        decimal((secs / 86400) as nat) + "d ago"@
    }
}

/// How long ago something happened that many whole seconds ago.
pub fn format_time_ago(secs: i128) -> (s: String)
    ensures
        s@ == time_ago_spec(secs as int),
{
    let mut v: Vec<char> = Vec::new();
    if secs < 60 {
        if secs < 0 {
            v.push('-');
            let m: u128 = if secs == i128::MIN {
                170141183460469231731687303715884105728u128
            } else {
                (-secs) as u128
            };
            push_decimal_wide(&mut v, m);
        } else {
            push_decimal_wide(&mut v, secs as u128);
        }
        extend_str(&mut v, "s ago");
    } else if secs / 60 < 60 {
        push_decimal_wide(&mut v, (secs / 60) as u128);
        extend_str(&mut v, "m ago");
    } else if secs / 3600 < 24 {
        push_decimal_wide(&mut v, (secs / 3600) as u128);
        extend_str(&mut v, "h ago");
    } else {
        push_decimal_wide(&mut v, (secs / 86400) as u128);
        extend_str(&mut v, "d ago");
    }
    proof {
        if secs < 0 {
            assert(v@ =~= seq!['-'] + decimal((-secs) as nat) + "s ago"@);
        }
    }
    string_from_chars(&v)
}

/// The whole seconds from `then` to `now`, as chrono counts them: the
/// difference of the two times, truncated toward zero. A time whose
/// nanoseconds reach a second's worth lies in a leap second; such a time
/// counts one second further on from an earlier time of day, and one
/// second further back from a later one.
pub open spec fn seconds_between(then: Timestamp, now: Timestamp) -> int {
    let day_then = then.secs % 86400;
    let day_now = now.secs % 86400;
    let leap = if day_now > day_then && then.nanos >= 1_000_000_000 {
        1int
    } else if day_now < day_then && now.nanos >= 1_000_000_000 {
        -1int
    } else {
        0int
    };
    let frac = now.nanos - then.nanos;
    let whole = now.secs - then.secs + leap + frac / 1_000_000_000;
    if whole < 0 && frac % 1_000_000_000 > 0 {
        whole + 1
    } else {
        whole
    }
}

/// The second of the day of a time `secs` seconds after the epoch.
fn second_of_day(secs: i64) -> (d: i128)
    ensures
        d == secs % 86400,
{
    if secs >= 0 {
        ((secs as u64) % 86400) as i128
    } else {
        let m: u64 = ((-(secs as i128)) as u64) % 86400;
        if m == 0 {
            0
        } else {
            86400 - (m as i128)
        }
    }
}

/// The whole seconds from `then` to `now`.
pub fn whole_seconds_between(then: Timestamp, now: Timestamp) -> (s: i128)
    ensures
        s == seconds_between(then, now),
{
    let day_then = second_of_day(then.secs);
    let day_now = second_of_day(now.secs);
    let leap: i128 = if day_now > day_then && then.nanos >= 1_000_000_000 {
        1
    } else if day_now < day_then && now.nanos >= 1_000_000_000 {
        -1
    } else {
        0
    };
    let frac: i128 = (now.nanos as i128) - (then.nanos as i128);
    let (carry, rest): (i128, i128) = if frac >= 0 {
        let f = frac as u64;
        ((f / 1_000_000_000) as i128, (f % 1_000_000_000) as i128)
    } else {
        let f = (-frac) as u64;
        if f % 1_000_000_000 == 0 {
            (-((f / 1_000_000_000) as i128), 0)
        } else {
            (-((f / 1_000_000_000) as i128) - 1, 1_000_000_000 - ((f % 1_000_000_000) as i128))
        }
    };
    assert(carry == frac / 1_000_000_000 && rest == frac % 1_000_000_000);
    let whole: i128 = (now.secs as i128) - (then.secs as i128) + leap + carry;
    if whole < 0 && rest > 0 {
        whole + 1
    } else {
        whole
    }
}

/// How long before `now` the time `then` was, as the listings show it.
pub fn time_ago(then: Timestamp, now: Timestamp) -> (s: String)
    ensures
        s@ == time_ago_spec(seconds_between(then, now)),
{
    format_time_ago(whole_seconds_between(then, now))
}

} // verus!
